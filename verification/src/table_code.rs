//! The Rust code of a table: its model implementation and its row identifier.
//!
//! Templates are Rust source in which every `$` stands for a part that depends on the table.
use crate::args::TableArgs;
use crate::fields::{FieldInfo, FieldKind, IndexData, IndexView};
use crate::outside::{string_literal, write_string};
use crate::rules::{collect_keys, keys, Key};
use crate::sql::{pieces_code, write_pieces};
use crate::syntax::Chars;
use crate::table_sql::{
    create_pieces, get_by_pieces, insert_start, insert_suffix, list_pieces, make_create,
    make_get_by, make_list, make_select, select_pieces, where_key, write_insert_start,
    write_insert_suffix, write_where_key, Part,
};
use crate::text::{
    decimal, fill, filled, filled1, filled2, filled3, join, join_all, mapped, numeral, unraw, views,
    without_raw,
};
use vstd::prelude::*;

verus! {

// ---------------------------------------------------------------------------
// Reading and writing fields
// ---------------------------------------------------------------------------

pub const READ_COLUMN: &'static str = "$: row.get($)?,";

pub const READ_GROUP: &'static str = "$: < $ as ::balsaq::ColumnGroup>::cg_read(row, $)?,";

pub const READ_VIA: &'static str = "$: {
    let __raw = < $ as ::balsaq::ColumnGroup>::cg_read(row, $)?;
    < $ as ::std::convert::TryFrom< $ > >::try_from(__raw)?
},";

pub const CONVERT_VIA: &'static str =
    "let $ = < $ as ::std::convert::From< $ > >::from(self.$);";

pub const WRITE_COLUMN: &'static str =
    "params.push(($.to_owned(), &self.$ as &dyn ::rusqlite::types::ToSql));";

pub const WRITE_GROUP: &'static str =
    "< $ as ::balsaq::ColumnGroup>::cg_write(&self.$, $, &mut params);";

pub const WRITE_VIA: &'static str = "< $ as ::balsaq::ColumnGroup>::cg_write(&$, $, &mut params);";

/// The variable that holds the group of a field that converts to it.
pub open spec fn raw_var(name: Chars) -> Chars {
    "__raw_"@ + unraw(name)
}

/// Writes the variable that holds the group of a field that converts to it.
fn write_raw_var(name: &str) -> (r: String)
    ensures
        r@ == raw_var(name@),
{
    let mut r = "__raw_".to_owned();
    r.append(without_raw(name).as_str());
    r
}

/// The initializer of a field in `from_row`.
pub open spec fn read_code(info: FieldInfo<Chars>) -> Chars {
    match info.kind {
        FieldKind::Column { .. } => fill(
            READ_COLUMN@,
            seq![info.name, string_literal(info.name)],
        ),
        FieldKind::Group { ty, prefix } => fill(
            READ_GROUP@,
            seq![info.name, ty, string_literal(prefix)],
        ),
        FieldKind::Via { raw_ty, field_ty, prefix } => fill(
            READ_VIA@,
            seq![info.name, raw_ty, string_literal(prefix), field_ty, raw_ty],
        ),
    }
}

/// The conversion of a field before it is written, if it needs one.
pub open spec fn convert_code(info: FieldInfo<Chars>) -> Chars {
    match info.kind {
        FieldKind::Via { raw_ty, field_ty, .. } => fill(
            CONVERT_VIA@,
            seq![raw_var(info.name), raw_ty, field_ty, info.name],
        ),
        _ => ""@,
    }
}

/// The statement that binds the parameters of a field in `do_insert`.
pub open spec fn write_code(info: FieldInfo<Chars>) -> Chars {
    match info.kind {
        FieldKind::Column { .. } => fill(
            WRITE_COLUMN@,
            seq![string_literal(":"@ + info.name), info.name],
        ),
        FieldKind::Group { ty, prefix } => fill(
            WRITE_GROUP@,
            seq![ty, info.name, string_literal(prefix)],
        ),
        FieldKind::Via { raw_ty, prefix, .. } => fill(
            WRITE_VIA@,
            seq![raw_ty, raw_var(info.name), string_literal(prefix)],
        ),
    }
}

/// Writes the initializer of a field.
fn write_read(info: &FieldInfo<String>) -> (r: String)
    ensures
        r@ == read_code(info@),
{
    match &info.kind {
        FieldKind::Column { .. } => {
            filled2(READ_COLUMN, info.name.as_str(), write_string(info.name.as_str()).as_str())
        },
        FieldKind::Group { ty, prefix } => {
            filled3(
                READ_GROUP,
                info.name.as_str(),
                ty.as_str(),
                write_string(prefix.as_str()).as_str(),
            )
        },
        FieldKind::Via { raw_ty, field_ty, prefix } => {
            let mut holes: Vec<String> = Vec::new();
            holes.push(info.name.clone());
            holes.push(raw_ty.clone());
            holes.push(write_string(prefix.as_str()));
            holes.push(field_ty.clone());
            holes.push(raw_ty.clone());
            assert(views(holes@) =~= seq![
                info@.name,
                raw_ty@,
                string_literal(prefix@),
                field_ty@,
                raw_ty@,
            ]);
            filled(READ_VIA, &holes)
        },
    }
}

/// Writes the conversion of a field.
fn write_convert(info: &FieldInfo<String>) -> (r: String)
    ensures
        r@ == convert_code(info@),
{
    match &info.kind {
        FieldKind::Via { raw_ty, field_ty, .. } => {
            let mut holes: Vec<String> = Vec::new();
            holes.push(write_raw_var(info.name.as_str()));
            holes.push(raw_ty.clone());
            holes.push(field_ty.clone());
            holes.push(info.name.clone());
            assert(views(holes@) =~= seq![raw_var(info@.name), raw_ty@, field_ty@, info@.name]);
            filled(CONVERT_VIA, &holes)
        },
        _ => "".to_owned(),
    }
}

/// Writes the statement that binds the parameters of a field.
fn write_write(info: &FieldInfo<String>) -> (r: String)
    ensures
        r@ == write_code(info@),
{
    match &info.kind {
        FieldKind::Column { .. } => {
            let mut param = ":".to_owned();
            param.append(info.name.as_str());
            filled2(WRITE_COLUMN, write_string(param.as_str()).as_str(), info.name.as_str())
        },
        FieldKind::Group { ty, prefix } => {
            filled3(
                WRITE_GROUP,
                ty.as_str(),
                info.name.as_str(),
                write_string(prefix.as_str()).as_str(),
            )
        },
        FieldKind::Via { raw_ty, prefix, .. } => {
            filled3(
                WRITE_VIA,
                raw_ty.as_str(),
                write_raw_var(info.name.as_str()).as_str(),
                write_string(prefix.as_str()).as_str(),
            )
        },
    }
}

/// The body of `from_row`: an initializer for each field.
pub open spec fn reads_code(infos: Seq<FieldInfo<Chars>>) -> Chars {
    join(infos.map_values(|info: FieldInfo<Chars>| read_code(info)), " "@)
}

/// The conversions that `do_insert` begins with.
pub open spec fn converts_code(infos: Seq<FieldInfo<Chars>>) -> Chars {
    join(infos.map_values(|info: FieldInfo<Chars>| convert_code(info)), " "@)
}

/// The statements that bind the parameters of all fields.
pub open spec fn writes_code(infos: Seq<FieldInfo<Chars>>) -> Chars {
    join(infos.map_values(|info: FieldInfo<Chars>| write_code(info)), " "@)
}

/// Writes the body of `from_row`.
fn write_reads(infos: &Vec<FieldInfo<String>>) -> (r: String)
    ensures
        r@ == reads_code(views(infos@)),
{
    let parts = mapped(infos, write_read);
    assert(views(parts@) =~= views(infos@).map_values(|info: FieldInfo<Chars>| read_code(info)));
    join_all(&parts, " ")
}

/// Writes the conversions that `do_insert` begins with.
fn write_converts(infos: &Vec<FieldInfo<String>>) -> (r: String)
    ensures
        r@ == converts_code(views(infos@)),
{
    let parts = mapped(infos, write_convert);
    assert(views(parts@) =~= views(infos@).map_values(
        |info: FieldInfo<Chars>| convert_code(info),
    ));
    join_all(&parts, " ")
}

/// Writes the statements that bind the parameters of all fields.
fn write_writes(infos: &Vec<FieldInfo<String>>) -> (r: String)
    ensures
        r@ == writes_code(views(infos@)),
{
    let parts = mapped(infos, write_write);
    assert(views(parts@) =~= views(infos@).map_values(|info: FieldInfo<Chars>| write_code(info)));
    join_all(&parts, " ")
}

// ---------------------------------------------------------------------------
// Keys
// ---------------------------------------------------------------------------

pub const KEY_REFERENCE: &'static str = "&'pk $";

pub const KEY_TUPLE: &'static str = "($)";

/// The type `PrimaryKey`: a reference to the key, or a tuple of references to the parts of it.
pub open spec fn key_type_code(primary: Seq<Key<Chars>>) -> Chars {
    let parts = primary.map_values(|key: Key<Chars>| fill(KEY_REFERENCE@, seq![key.ty]));
    if primary.len() == 0 {
        fill(KEY_REFERENCE@, seq!["::std::convert::Infallible"@])
    } else if primary.len() == 1 {
        parts[0]
    } else {
        fill(KEY_TUPLE@, seq![join(parts, ", "@)])
    }
}

/// Writes a reference to a part of the key.
fn write_key_reference(key: &Key<String>) -> (r: String)
    ensures
        r@ == fill(KEY_REFERENCE@, seq![key@.ty]),
{
    filled1(KEY_REFERENCE, key.ty.as_str())
}

/// Writes the type `PrimaryKey`.
fn write_key_type(primary: &Vec<Key<String>>) -> (r: String)
    ensures
        r@ == key_type_code(views(primary@)),
{
    let parts = mapped(primary, write_key_reference);
    assert(views(parts@) =~= views(primary@).map_values(
        |key: Key<Chars>| fill(KEY_REFERENCE@, seq![key.ty]),
    ));
    if primary.len() == 0 {
        filled1(KEY_REFERENCE, "::std::convert::Infallible")
    } else if primary.len() == 1 {
        assert(views(parts@)[0] == parts@[0]@);
        parts[0].clone()
    } else {
        filled1(KEY_TUPLE, join_all(&parts, ", ").as_str())
    }
}

/// A part of the key as an argument of a query.
pub open spec fn key_argument(i: int) -> Chars {
    "pk."@ + numeral(i as nat) + ","@
}

/// The arguments of the query in `get`.
pub open spec fn key_arguments(count: nat) -> Chars {
    if count == 1 {
        "pk,"@
    } else {
        join(Seq::new(count, |i: int| key_argument(i)), " "@)
    }
}

/// Writes the arguments of the query in `get`.
fn write_key_arguments(count: usize) -> (r: String)
    ensures
        r@ == key_arguments(count as nat),
{
    if count == 1 {
        return "pk,".to_owned();
    }
    let mut parts: Vec<String> = Vec::new();
    let mut i: usize = 0;
    while i < count
        invariant
            i <= count,
            parts@.len() == i,
            forall|k: int| 0 <= k < i ==> (#[trigger] parts@[k])@ == key_argument(k),
        decreases count - i,
    {
        let mut part = "pk.".to_owned();
        part.append(decimal(i as u64).as_str());
        part.append(",");
        parts.push(part);
        i += 1;
    }
    assert(views(parts@) =~= Seq::new(count as nat, |i: int| key_argument(i)));
    join_all(&parts, " ")
}

pub const GET_BODY: &'static str =
    "const SQL: &str = ::balsaq::__cf::concatcp!($::SELECT, $);
conn.prepare_cached(SQL)?.query_row(($), Self::from_row)";

/// The body of `get`. A table without a key has none to get a row by.
pub open spec fn get_code(name: Chars, primary: Seq<Key<Chars>>) -> Chars {
    if primary.len() == 0 {
        "match *pk {}"@
    } else {
        fill(
            GET_BODY@,
            seq![name, string_literal(where_key(primary)), key_arguments(primary.len())],
        )
    }
}

/// Writes the body of `get`.
fn write_get(name: &str, primary: &Vec<Key<String>>) -> (r: String)
    ensures
        r@ == get_code(name@, views(primary@)),
{
    if primary.len() == 0 {
        "match *pk {}".to_owned()
    } else {
        filled3(
            GET_BODY,
            name,
            write_string(write_where_key(primary).as_str()).as_str(),
            write_key_arguments(primary.len()).as_str(),
        )
    }
}

// ---------------------------------------------------------------------------
// Row identifiers
// ---------------------------------------------------------------------------

/// The type that identifies a row of a table whose rows the database numbers.
pub open spec fn row_id_name(name: Chars) -> Chars {
    unraw(name) + "RowId"@
}

/// Writes the type that identifies a row.
fn write_row_id_name(name: &str) -> (r: String)
    ensures
        r@ == row_id_name(name@),
{
    let mut r = without_raw(name);
    r.append("RowId");
    r
}

pub const GET_BY: &'static str =
    "$ fn $(conn: &::rusqlite::Connection, val: & $) -> ::rusqlite::Result<($, Self)> {
    const SQL: &'static str = ::balsaq::__cf::concatcp!($);
    conn.prepare_cached(SQL)?.query_row((val,), |row| {
        ::std::result::Result::Ok(($(row.get(\"row_id\")?), Self::from_row(row)?,))
    })
}";

/// The method that gets a row by a unique column.
pub open spec fn get_by_code(
    vis: Chars,
    name: Chars,
    table: Chars,
    infos: Seq<FieldInfo<Chars>>,
    key: Key<Chars>,
) -> Chars {
    fill(
        GET_BY@,
        seq![
            vis,
            "get_by_"@ + unraw(key.name),
            key.ty,
            row_id_name(name),
            pieces_code(get_by_pieces(table, infos, key)),
            row_id_name(name),
        ],
    )
}

/// Writes the method that gets a row by a unique column.
fn write_get_by(
    vis: &str,
    name: &str,
    table: &str,
    infos: &Vec<FieldInfo<String>>,
    key: &Key<String>,
) -> (r: String)
    ensures
        r@ == get_by_code(vis@, name@, table@, views(infos@), key@),
{
    let mut method = "get_by_".to_owned();
    method.append(without_raw(key.name.as_str()).as_str());
    let mut holes: Vec<String> = Vec::new();
    holes.push(vis.to_owned());
    holes.push(method);
    holes.push(key.ty.clone());
    holes.push(write_row_id_name(name));
    holes.push(write_pieces(&make_get_by(table, infos, key)));
    holes.push(write_row_id_name(name));
    assert(views(holes@) =~= seq![
        vis@,
        "get_by_"@ + unraw(key@.name),
        key@.ty,
        row_id_name(name@),
        pieces_code(get_by_pieces(table@, views(infos@), key@)),
        row_id_name(name@),
    ]);
    filled(GET_BY, &holes)
}

pub const ROW_ID: &'static str =
    "#[derive(Clone, Copy, Debug, PartialEq, Eq, PartialOrd, Ord, Hash)]
$ struct $(pub i64);

$";

pub const GET_BY_BLOCK: &'static str = "impl $ {
$
}";

/// The row identifier of a table whose rows the database numbers, and the methods that get a row
/// by a unique column.
pub open spec fn row_id_code(
    vis: Chars,
    name: Chars,
    args: TableArgs<Chars>,
    infos: Seq<FieldInfo<Chars>>,
) -> Chars {
    let unique = keys(infos, true);
    let methods = unique.map_values(
        |key: Key<Chars>| get_by_code(vis, name, args.table, infos, key),
    );
    let block = if unique.len() == 0 {
        ""@
    } else {
        fill(GET_BY_BLOCK@, seq![name, join(methods, "\n"@)])
    };
    if args.auto_primary_key {
        fill(ROW_ID@, seq![vis, row_id_name(name), block])
    } else {
        ""@
    }
}

/// Writes the row identifier of a table and the methods that get a row by a unique column.
fn write_row_id(
    vis: &str,
    name: &str,
    args: &TableArgs<String>,
    infos: &Vec<FieldInfo<String>>,
) -> (r: String)
    ensures
        r@ == row_id_code(vis@, name@, args@, views(infos@)),
{
    let unique = collect_keys(infos, true);
    assert(views(unique@).len() == unique@.len());
    if !args.auto_primary_key {
        return "".to_owned();
    }
    let mut methods: Vec<String> = Vec::new();
    let mut i: usize = 0;
    while i < unique.len()
        invariant
            i <= unique@.len(),
            methods@.len() == i,
            forall|k: int|
                0 <= k < i ==> (#[trigger] methods@[k])@ == get_by_code(
                    vis@,
                    name@,
                    args@.table,
                    views(infos@),
                    unique@[k]@,
                ),
        decreases unique.len() - i,
    {
        methods.push(write_get_by(vis, name, args.table.as_str(), infos, &unique[i]));
        i += 1;
    }
    assert(views(methods@) =~= views(unique@).map_values(
        |key: Key<Chars>| get_by_code(vis@, name@, args@.table, views(infos@), key),
    ));
    let block = if unique.len() == 0 {
        "".to_owned()
    } else {
        filled2(GET_BY_BLOCK, name, join_all(&methods, "\n").as_str())
    };
    filled3(ROW_ID, vis, write_row_id_name(name).as_str(), block.as_str())
}

// ---------------------------------------------------------------------------
// The model
// ---------------------------------------------------------------------------

pub const DO_INSERT: &'static str =
    "$
let mut params: ::std::vec::Vec<(::std::string::String, &dyn ::rusqlite::types::ToSql)> =
    ::std::vec::Vec::new();
$
let params_ref: ::std::vec::Vec<(&str, &dyn ::rusqlite::types::ToSql)> =
    params.iter().map(|(k, v)| (k.as_str(), *v)).collect();
$";

pub const RETURN_ROW_ID: &'static str =
    "let __row_id: i64 = conn
    .prepare_cached(Self::INSERT)?
    .query_row(params_ref.as_slice(), |r| r.get(0))?;
::std::result::Result::Ok($(__row_id))";

pub const RETURN_NOTHING: &'static str =
    "conn.prepare_cached(Self::INSERT)?.execute(params_ref.as_slice())?;
::std::result::Result::Ok(())";

pub const MODEL: &'static str =
    "impl ::balsaq::Model for $ {
    const CREATE_TABLE: &'static str = ::balsaq::__cf::concatcp!($);
    const SELECT: &'static str = ::balsaq::__cf::concatcp!($);
    const INSERT: &'static str = ::balsaq::__cf::concatcp!($, $, \") VALUES (\", $, $);

    type PrimaryKey<'pk> = $;
    type InsertId = $;

    fn from_row(row: &::rusqlite::Row<'_>) -> ::rusqlite::Result<Self> {
        Ok(Self { $ })
    }

    fn do_insert(
        self,
        conn: &::rusqlite::Connection,
    ) -> ::rusqlite::Result<Self::InsertId> {
        $
    }

    fn get<'pk>(
        $: &::rusqlite::Connection,
        pk: Self::PrimaryKey<'pk>,
    ) -> ::rusqlite::Result<Self> {
        $
    }
}";

/// The type `InsertId`.
pub open spec fn insert_id_code(name: Chars, args: TableArgs<Chars>) -> Chars {
    if args.auto_primary_key {
        row_id_name(name)
    } else {
        "()"@
    }
}

/// The body of `do_insert`.
pub open spec fn insert_code(
    name: Chars,
    args: TableArgs<Chars>,
    infos: Seq<FieldInfo<Chars>>,
) -> Chars {
    fill(
        DO_INSERT@,
        seq![
            converts_code(infos),
            writes_code(infos),
            if args.auto_primary_key {
                fill(RETURN_ROW_ID@, seq![row_id_name(name)])
            } else {
                RETURN_NOTHING@
            },
        ],
    )
}

/// Writes the body of `do_insert`.
fn write_insert(name: &str, args: &TableArgs<String>, infos: &Vec<FieldInfo<String>>) -> (r: String)
    ensures
        r@ == insert_code(name@, args@, views(infos@)),
{
    let end = if args.auto_primary_key {
        filled1(RETURN_ROW_ID, write_row_id_name(name).as_str())
    } else {
        RETURN_NOTHING.to_owned()
    };
    filled3(
        DO_INSERT,
        write_converts(infos).as_str(),
        write_writes(infos).as_str(),
        end.as_str(),
    )
}

/// The implementation of the model.
pub open spec fn model_code(
    name: Chars,
    args: TableArgs<Chars>,
    infos: Seq<FieldInfo<Chars>>,
    indexes: Seq<IndexView>,
) -> Chars {
    let primary = keys(infos, false);
    let unique = keys(infos, true);
    fill(
        MODEL@,
        seq![
            name,
            pieces_code(create_pieces(args, infos, indexes)),
            pieces_code(select_pieces(args, infos)),
            string_literal(insert_start(args, primary)),
            pieces_code(list_pieces(None, infos, Part::Columns, ", "@)),
            pieces_code(list_pieces(None, infos, Part::Values, ", "@)),
            string_literal(insert_suffix(args, primary, unique)),
            key_type_code(primary),
            insert_id_code(name, args),
            reads_code(infos),
            insert_code(name, args, infos),
            if primary.len() == 0 {
                "_conn"@
            } else {
                "conn"@
            },
            get_code(name, primary),
        ],
    )
}

/// Writes the implementation of the model.
fn write_model(
    name: &str,
    args: &TableArgs<String>,
    infos: &Vec<FieldInfo<String>>,
    indexes: &Vec<IndexData>,
) -> (r: String)
    ensures
        r@ == model_code(name@, args@, views(infos@), views(indexes@)),
{
    let primary = collect_keys(infos, false);
    let unique = collect_keys(infos, true);
    let mut holes: Vec<String> = Vec::new();
    holes.push(name.to_owned());
    holes.push(write_pieces(&make_create(args, infos, indexes)));
    holes.push(write_pieces(&make_select(args, infos)));
    holes.push(write_string(write_insert_start(args, &primary).as_str()));
    holes.push(write_pieces(&make_list(None, infos, Part::Columns, ", ")));
    holes.push(write_pieces(&make_list(None, infos, Part::Values, ", ")));
    holes.push(write_string(write_insert_suffix(args, &primary, &unique).as_str()));
    holes.push(write_key_type(&primary));
    holes.push(
        if args.auto_primary_key {
            write_row_id_name(name)
        } else {
            "()".to_owned()
        },
    );
    holes.push(write_reads(infos));
    holes.push(write_insert(name, args, infos));
    holes.push(
        if primary.len() == 0 {
            "_conn".to_owned()
        } else {
            "conn".to_owned()
        },
    );
    holes.push(write_get(name, &primary));
    proof {
        let all = views(infos@);
        let keyed = keys(all, false);
        assert(keyed.len() == primary@.len());
        assert(views(holes@) =~= seq![
            name@,
            pieces_code(create_pieces(args@, all, views(indexes@))),
            pieces_code(select_pieces(args@, all)),
            string_literal(insert_start(args@, keyed)),
            pieces_code(list_pieces(None, all, Part::Columns, ", "@)),
            pieces_code(list_pieces(None, all, Part::Values, ", "@)),
            string_literal(insert_suffix(args@, keyed, keys(all, true))),
            key_type_code(keyed),
            insert_id_code(name@, args@),
            reads_code(all),
            insert_code(name@, args@, all),
            if keyed.len() == 0 {
                "_conn"@
            } else {
                "conn"@
            },
            get_code(name@, keyed),
        ]);
    }
    filled(MODEL, &holes)
}

/// All the code that a table adds to its struct.
pub open spec fn table_code(
    vis: Chars,
    name: Chars,
    args: TableArgs<Chars>,
    infos: Seq<FieldInfo<Chars>>,
    indexes: Seq<IndexView>,
) -> Chars {
    row_id_code(vis, name, args, infos) + "\n\n"@ + model_code(name, args, infos, indexes)
}

/// Writes all the code that a table adds to its struct.
pub fn write_table(
    vis: &str,
    name: &str,
    args: &TableArgs<String>,
    infos: &Vec<FieldInfo<String>>,
    indexes: &Vec<IndexData>,
) -> (r: String)
    ensures
        r@ == table_code(vis@, name@, args@, views(infos@), views(indexes@)),
{
    let mut r = write_row_id(vis, name, args, infos);
    r.append("\n\n");
    r.append(write_model(name, args, infos, indexes).as_str());
    r
}

} // verus!
