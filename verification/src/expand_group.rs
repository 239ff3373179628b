//! The expansion of `#[group]`.
use crate::decl::{read_struct, struct_of, FieldData, FieldView, StructData, StructView};
use crate::error::{fail, failure, MacroError, Site};
use crate::outside::{string_literal, write_string};
use crate::sql::{
    append_pieces, evaluate, pieces_code, pieces_sql, push_text, write_pieces, CatalogData,
    CatalogView, GroupEntry, Piece,
};
use crate::syntax::{seen, Chars};
use crate::text::{
    fill, filled, filled1, filled2, join, join_all, lemma_join_push, mapped, views,
};
use vstd::prelude::*;

verus! {

// ---------------------------------------------------------------------------
// SQL
// ---------------------------------------------------------------------------

/// The name of a column of a group, with `{P}` for the prefix.
pub open spec fn group_column(name: Chars) -> Chars {
    "{P}"@ + name
}

/// Writes the name of a column of a group.
fn write_group_column(name: &str) -> (r: String)
    ensures
        r@ == group_column(name@),
{
    let mut r = "{P}".to_owned();
    r.append(name);
    r
}

/// The definition of a column of a group.
pub open spec fn definition(field: FieldView) -> Seq<Piece<Chars>> {
    seq![
        Piece::Text("    "@ + group_column(field.name) + " "@),
        Piece::ColumnType { ty: field.ty, column: group_column(field.name) },
        Piece::ColumnPlaceholder { ty: field.ty },
    ]
}

/// Makes the definition of a column of a group.
fn make_definition(field: &FieldData) -> (r: Vec<Piece<String>>)
    ensures
        views(r@) == definition(field@),
{
    let mut start = "    ".to_owned();
    start.append(write_group_column(field.name.as_str()).as_str());
    start.append(" ");
    let mut r: Vec<Piece<String>> = Vec::new();
    r.push(Piece::Text(start));
    r.push(
        Piece::ColumnType {
            ty: field.ty.clone(),
            column: write_group_column(field.name.as_str()),
        },
    );
    r.push(Piece::ColumnPlaceholder { ty: field.ty.clone() });
    assert(views(r@) =~= definition(field@));
    r
}

/// The definitions of the columns of a group.
pub open spec fn group_ddl(fields: Seq<FieldView>) -> Seq<Piece<Chars>> {
    join(
        fields.map_values(|field: FieldView| definition(field)),
        seq![Piece::Text(",\n"@)],
    )
}

/// Makes the definitions of the columns of a group.
pub fn make_group_ddl(fields: &Vec<FieldData>) -> (r: Vec<Piece<String>>)
    ensures
        views(r@) == group_ddl(views(fields@)),
{
    let ghost all = views(fields@).map_values(|field: FieldView| definition(field));
    let ghost sep = seq![Piece::Text(",\n"@)];
    let mut r: Vec<Piece<String>> = Vec::new();
    let mut i: usize = 0;
    assert(views(r@) =~= join(all.take(0), sep));
    while i < fields.len()
        invariant
            i <= fields@.len(),
            all == views(fields@).map_values(|field: FieldView| definition(field)),
            sep == seq![Piece::Text(",\n"@)],
            views(r@) == join(all.take(i as int), sep),
        decreases fields.len() - i,
    {
        let mut more = make_definition(&fields[i]);
        proof {
            let done = all.take(i as int);
            assert(all.take(i + 1) =~= done.push(views(more@)));
            lemma_join_push(done, sep, views(more@));
        }
        if i > 0 {
            push_text(&mut r, ",\n");
        }
        append_pieces(&mut r, &mut more);
        i += 1;
        assert(views(r@) =~= join(all.take(i as int), sep));
    }
    assert(all.take(i as int) =~= all);
    r
}

/// The names of fields.
pub open spec fn field_names(fields: Seq<FieldView>) -> Seq<Chars> {
    fields.map_values(|field: FieldView| field.name)
}

/// The names of the columns of a group.
pub open spec fn group_cols(names: Seq<Chars>) -> Chars {
    join(names.map_values(|name: Chars| group_column(name)), ", "@)
}

/// The parameters of the columns of a group.
pub open spec fn group_vals(names: Seq<Chars>) -> Chars {
    join(names.map_values(|name: Chars| ":"@ + group_column(name)), ", "@)
}

/// Writes the column of a field.
fn write_col(field: &FieldData) -> (r: String)
    ensures
        r@ == group_column(field@.name),
{
    write_group_column(field.name.as_str())
}

/// Writes the parameter of a field.
fn write_val(field: &FieldData) -> (r: String)
    ensures
        r@ == ":"@ + group_column(field@.name),
{
    let mut r = ":".to_owned();
    r.append(write_group_column(field.name.as_str()).as_str());
    r
}

/// Writes the names of the columns of a group.
pub fn write_cols(fields: &Vec<FieldData>) -> (r: String)
    ensures
        r@ == group_cols(field_names(views(fields@))),
{
    let parts = mapped(fields, write_col);
    assert(views(parts@) =~= field_names(views(fields@)).map_values(
        |name: Chars| group_column(name),
    ));
    join_all(&parts, ", ")
}

/// Writes the parameters of the columns of a group.
pub fn write_vals(fields: &Vec<FieldData>) -> (r: String)
    ensures
        r@ == group_vals(field_names(views(fields@))),
{
    let parts = mapped(fields, write_val);
    assert(views(parts@) =~= field_names(views(fields@)).map_values(
        |name: Chars| ":"@ + group_column(name),
    ));
    join_all(&parts, ", ")
}

/// What a group contributes to SQL text, if the catalog has the types of its fields.
pub open spec fn group_contribution(
    ty: Chars,
    fields: Seq<FieldView>,
    catalog: CatalogView,
) -> Option<GroupEntry<Chars>> {
    match pieces_sql(group_ddl(fields), catalog) {
        None => None,
        Some(ddl) => Some(
            GroupEntry {
                ty,
                ddl,
                cols: group_cols(field_names(fields)),
                vals: group_vals(field_names(fields)),
                nullable: false,
            },
        ),
    }
}

/// Makes the entry of a group under a name.
pub fn make_group_entry(ty: &str, fields: &Vec<FieldData>, catalog: &CatalogData) -> (r: Option<
    GroupEntry<String>,
>)
    ensures
        r is Some <==> group_contribution(ty@, views(fields@), catalog@) is Some,
        r matches Some(entry) ==> group_contribution(ty@, views(fields@), catalog@) == Some(entry@),
{
    match evaluate(&make_group_ddl(fields), catalog) {
        None => None,
        Some(ddl) => Some(
            GroupEntry {
                ty: ty.to_owned(),
                ddl,
                cols: write_cols(fields),
                vals: write_vals(fields),
                nullable: false,
            },
        ),
    }
}

/// What the optional form of a group contributes: the same columns, all of them nullable.
pub open spec fn optional_group(ty: Chars, entry: GroupEntry<Chars>) -> GroupEntry<Chars> {
    GroupEntry { ty, nullable: true, ..entry }
}

/// Makes the entry of the optional form of a group under a name.
pub fn make_optional(ty: &str, entry: &GroupEntry<String>) -> (r: GroupEntry<String>)
    ensures
        r@ == optional_group(ty@, entry@),
{
    GroupEntry {
        ty: ty.to_owned(),
        ddl: entry.ddl.clone(),
        cols: entry.cols.clone(),
        vals: entry.vals.clone(),
        nullable: true,
    }
}

// ---------------------------------------------------------------------------
// Code
// ---------------------------------------------------------------------------

pub const GROUP_READ: &'static str = "$: row.get(format!(\"{prefix}{}\", $).as_str())?,";

pub const GROUP_WRITE: &'static str =
    "out.push((format!(\":{prefix}{}\", $), &self.$ as &dyn ::rusqlite::types::ToSql));";

pub const GROUP_NULL_CHECK: &'static str =
    "matches!(row.get_ref(format!(\"{prefix}{}\", $).as_str())?, ::rusqlite::types::ValueRef::Null)";

pub const GROUP_WRITE_NULL: &'static str =
    "out.push((format!(\":{prefix}{}\", $), &NULL as &dyn ::rusqlite::types::ToSql));";

/// The initializer of a field: it reads the column that is the prefix and the name of the field.
pub open spec fn group_read(name: Chars) -> Chars {
    fill(GROUP_READ@, seq![name, string_literal(name)])
}

/// The statement that binds the parameter of a field.
pub open spec fn group_write(name: Chars) -> Chars {
    fill(GROUP_WRITE@, seq![string_literal(name), name])
}

/// The test whether the column of a field is `NULL`.
pub open spec fn group_null_check(name: Chars) -> Chars {
    fill(GROUP_NULL_CHECK@, seq![string_literal(name)])
}

/// The statement that binds `NULL` to the parameter of a field.
pub open spec fn group_write_null(name: Chars) -> Chars {
    fill(GROUP_WRITE_NULL@, seq![string_literal(name)])
}

/// Writes the initializer of a field.
fn write_group_read(field: &FieldData) -> (r: String)
    ensures
        r@ == group_read(field@.name),
{
    filled2(GROUP_READ, field.name.as_str(), write_string(field.name.as_str()).as_str())
}

/// Writes the statement that binds the parameter of a field.
fn write_group_write(field: &FieldData) -> (r: String)
    ensures
        r@ == group_write(field@.name),
{
    filled2(GROUP_WRITE, write_string(field.name.as_str()).as_str(), field.name.as_str())
}

/// Writes the test whether the column of a field is `NULL`.
fn write_null_check(field: &FieldData) -> (r: String)
    ensures
        r@ == group_null_check(field@.name),
{
    filled1(GROUP_NULL_CHECK, write_string(field.name.as_str()).as_str())
}

/// Writes the statement that binds `NULL` to the parameter of a field.
fn write_write_null(field: &FieldData) -> (r: String)
    ensures
        r@ == group_write_null(field@.name),
{
    filled1(GROUP_WRITE_NULL, write_string(field.name.as_str()).as_str())
}

pub const GROUP: &'static str =
    "$

impl ::balsaq::ColumnGroup for $ {
    const DDL: &'static str = ::balsaq::__cf::concatcp!($);
    const COLS: &'static str = $;
    const VALS: &'static str = $;
    const NULLABLE: bool = false;

    fn cg_read(row: &::rusqlite::Row<'_>, prefix: &str) -> ::rusqlite::Result<Self> {
        Ok(Self { $ })
    }

    fn cg_write<'a>(
        &'a self,
        prefix: &str,
        out: &mut ::std::vec::Vec<(::std::string::String, &'a dyn ::rusqlite::types::ToSql)>,
    ) {
        $
    }

    fn cg_read_optional(
        row: &::rusqlite::Row<'_>,
        prefix: &str,
    ) -> ::rusqlite::Result<::std::option::Option<Self>> {
        if $ {
            ::std::result::Result::Ok(::std::option::Option::None)
        } else {
            ::std::result::Result::Ok(::std::option::Option::Some(Self { $ }))
        }
    }

    fn cg_write_null<'a>(
        prefix: &str,
        out: &mut ::std::vec::Vec<(::std::string::String, &'a dyn ::rusqlite::types::ToSql)>,
    ) {
        static NULL: ::rusqlite::types::Null = ::rusqlite::types::Null;
        $
    }
}";

/// A group struct and the code that it comes with.
pub open spec fn group_item(item: Chars, name: Chars, fields: Seq<FieldView>) -> Chars {
    let names = field_names(fields);
    let reads = join(names.map_values(|name: Chars| group_read(name)), " "@);
    fill(
        GROUP@,
        seq![
            item,
            name,
            pieces_code(group_ddl(fields)),
            string_literal(group_cols(names)),
            string_literal(group_vals(names)),
            reads,
            join(names.map_values(|name: Chars| group_write(name)), " "@),
            join(names.map_values(|name: Chars| group_null_check(name)), " && "@),
            reads,
            join(names.map_values(|name: Chars| group_write_null(name)), " "@),
        ],
    )
}

/// Writes a group struct and the code that it comes with.
fn write_group(item: &str, name: &str, fields: &Vec<FieldData>) -> (r: String)
    ensures
        r@ == group_item(item@, name@, views(fields@)),
{
    let ghost names = field_names(views(fields@));
    let reads = mapped(fields, write_group_read);
    let writes = mapped(fields, write_group_write);
    let checks = mapped(fields, write_null_check);
    let nulls = mapped(fields, write_write_null);
    assert(views(reads@) =~= names.map_values(|name: Chars| group_read(name)));
    assert(views(writes@) =~= names.map_values(|name: Chars| group_write(name)));
    assert(views(checks@) =~= names.map_values(|name: Chars| group_null_check(name)));
    assert(views(nulls@) =~= names.map_values(|name: Chars| group_write_null(name)));
    let mut holes: Vec<String> = Vec::new();
    holes.push(item.to_owned());
    holes.push(name.to_owned());
    holes.push(write_pieces(&make_group_ddl(fields)));
    holes.push(write_string(write_cols(fields).as_str()));
    holes.push(write_string(write_vals(fields).as_str()));
    holes.push(join_all(&reads, " "));
    holes.push(join_all(&writes, " "));
    holes.push(join_all(&checks, " && "));
    holes.push(join_all(&reads, " "));
    holes.push(join_all(&nulls, " "));
    assert(views(holes@) =~= seq![
        item@,
        name@,
        pieces_code(group_ddl(views(fields@))),
        string_literal(group_cols(names)),
        string_literal(group_vals(names)),
        join(names.map_values(|name: Chars| group_read(name)), " "@),
        join(names.map_values(|name: Chars| group_write(name)), " "@),
        join(names.map_values(|name: Chars| group_null_check(name)), " && "@),
        join(names.map_values(|name: Chars| group_read(name)), " "@),
        join(names.map_values(|name: Chars| group_write_null(name)), " "@),
    ]);
    filled(GROUP, &holes)
}

/// The code of a struct with `#[group]`.
pub open spec fn group_of(item: Chars, decl: StructView) -> Result<Chars, MacroError<Chars>> {
    match decl.fields {
        None => Err(
            failure(Site::ItemName, "#[group] only supports structs with named fields"@),
        ),
        Some(fields) => if fields.len() == 0 {
            Err(failure(Site::ItemName, "#[group] struct must have at least one field"@))
        } else {
            Ok(group_item(item, decl.name, fields))
        },
    }
}

/// Expands a struct with `#[group]`.
pub fn expand_struct(item: &str, decl: &StructData) -> (r: Result<String, MacroError<String>>)
    ensures
        seen(r) == group_of(item@, decl@),
{
    match &decl.fields {
        None => Err(fail(Site::ItemName, "#[group] only supports structs with named fields")),
        Some(fields) => {
            assert(views(fields@).len() == fields@.len());
            if fields.len() == 0 {
                Err(fail(Site::ItemName, "#[group] struct must have at least one field"))
            } else {
                Ok(write_group(item, decl.name.as_str(), fields))
            }
        },
    }
}

/// The code that stands for an item with `#[group]`.
pub open spec fn group_expansion(item: Chars) -> Result<Chars, MacroError<Chars>> {
    match struct_of(item) {
        Err(message) => Err(failure(Site::Outside, message)),
        Ok(decl) => group_of(item, decl),
    }
}

/// Expands an item with `#[group]`.
pub fn expand(item: &str) -> (r: Result<String, MacroError<String>>)
    ensures
        seen(r) == group_expansion(item@),
{
    match read_struct(item) {
        Ok(decl) => expand_struct(item, &decl),
        Err(message) => Err(MacroError { site: Site::Outside, message }),
    }
}

} // verus!
