//! SQL text that depends on types: the pieces it is made of, the Rust expressions that stand for
//! them in generated code, and what they come to.
use crate::column::Column;
use crate::outside::{string_literal, string_value, write_string};
use crate::syntax::{seen_text, Chars};
use crate::text::{
    fill, filled1, filled2, filled3, join, join_all, lemma_views_push, replace_all, replaced, same,
    views,
};
use vstd::prelude::*;

verus! {

/// A piece of an SQL constant.
pub enum Piece<S> {
    /// Fixed text.
    Text(S),
    /// The SQL type of a column type, with `{col}` replaced by the name of the column.
    ColumnType { ty: S, column: S },
    /// ` NOT NULL` unless the column type is nullable.
    ColumnQualifier { ty: S },
    /// `{NN}` unless the column type is nullable.
    ColumnPlaceholder { ty: S },
    /// The columns of a group, with `{P}` replaced by a prefix and `{NN}` by ` NOT NULL` unless
    /// the group is nullable.
    GroupDdl { ty: S, prefix: S },
    /// The columns of a group, with `{P}` replaced by a prefix and `{NN}` by ` NOT NULL`.
    RequiredDdl { ty: S, prefix: S },
    /// The column names of a group, with `{P}` replaced by a prefix.
    GroupCols { ty: S, prefix: S },
    /// The parameters of a group, with `{P}` replaced by a prefix.
    GroupVals { ty: S, prefix: S },
    /// The statements that create a table.
    CreateTable { ty: S },
}

impl View for Piece<String> {
    type V = Piece<Chars>;

    open spec fn view(&self) -> Piece<Chars> {
        match self {
            Piece::Text(text) => Piece::Text(text@),
            Piece::ColumnType { ty, column } => Piece::ColumnType { ty: ty@, column: column@ },
            Piece::ColumnQualifier { ty } => Piece::ColumnQualifier { ty: ty@ },
            Piece::ColumnPlaceholder { ty } => Piece::ColumnPlaceholder { ty: ty@ },
            Piece::GroupDdl { ty, prefix } => Piece::GroupDdl { ty: ty@, prefix: prefix@ },
            Piece::RequiredDdl { ty, prefix } => Piece::RequiredDdl { ty: ty@, prefix: prefix@ },
            Piece::GroupCols { ty, prefix } => Piece::GroupCols { ty: ty@, prefix: prefix@ },
            Piece::GroupVals { ty, prefix } => Piece::GroupVals { ty: ty@, prefix: prefix@ },
            Piece::CreateTable { ty } => Piece::CreateTable { ty: ty@ },
        }
    }
}

// ---------------------------------------------------------------------------
// Lists of pieces
// ---------------------------------------------------------------------------

/// Adds a piece at the end.
pub fn push_piece(pieces: &mut Vec<Piece<String>>, piece: Piece<String>)
    ensures
        views(final(pieces)@) == views(old(pieces)@).push(piece@),
{
    proof {
        lemma_views_push(pieces@, piece);
    }
    pieces.push(piece);
}

/// Adds fixed text at the end.
pub fn push_text(pieces: &mut Vec<Piece<String>>, text: &str)
    ensures
        views(final(pieces)@) == views(old(pieces)@).push(Piece::Text(text@)),
{
    push_piece(pieces, Piece::Text(text.to_owned()));
}

/// Adds pieces at the end.
pub fn append_pieces(pieces: &mut Vec<Piece<String>>, more: &mut Vec<Piece<String>>)
    ensures
        views(final(pieces)@) == views(old(pieces)@) + views(old(more)@),
{
    let ghost a = pieces@;
    let ghost b = more@;
    pieces.append(more);
    assert(views(a + b) =~= views(a) + views(b));
}

// ---------------------------------------------------------------------------
// Pieces as Rust expressions
// ---------------------------------------------------------------------------

pub const COLUMN_TYPE: &'static str =
    "::balsaq::__cf::str_replace!(< $ as ::balsaq::Column>::SQL_TYPE, \"{col}\", $)";

pub const COLUMN_QUALIFIER: &'static str =
    "::balsaq::__null_qualifier(< $ as ::balsaq::Column>::NULLABLE)";

pub const COLUMN_PLACEHOLDER: &'static str =
    "::balsaq::__nn_placeholder(< $ as ::balsaq::Column>::NULLABLE)";

pub const GROUP_DDL: &'static str =
    "::balsaq::__cf::str_replace!(::balsaq::__cf::str_replace!(< $ as ::balsaq::ColumnGroup>::DDL, \"{P}\", $), \"{NN}\", ::balsaq::__null_qualifier(< $ as ::balsaq::ColumnGroup>::NULLABLE))";

pub const REQUIRED_DDL: &'static str =
    "::balsaq::__cf::str_replace!(::balsaq::__cf::str_replace!(< $ as ::balsaq::ColumnGroup>::DDL, \"{P}\", $), \"{NN}\", \" NOT NULL\")";

pub const GROUP_COLS: &'static str =
    "::balsaq::__cf::str_replace!(< $ as ::balsaq::ColumnGroup>::COLS, \"{P}\", $)";

pub const GROUP_VALS: &'static str =
    "::balsaq::__cf::str_replace!(< $ as ::balsaq::ColumnGroup>::VALS, \"{P}\", $)";

pub const CREATE_TABLE: &'static str = "< $ as ::balsaq::Model>::CREATE_TABLE";

/// The constant expression that stands for a piece.
pub open spec fn piece_code(piece: Piece<Chars>) -> Chars {
    match piece {
        Piece::Text(text) => string_literal(text),
        Piece::ColumnType { ty, column } => fill(COLUMN_TYPE@, seq![ty, string_literal(column)]),
        Piece::ColumnQualifier { ty } => fill(COLUMN_QUALIFIER@, seq![ty]),
        Piece::ColumnPlaceholder { ty } => fill(COLUMN_PLACEHOLDER@, seq![ty]),
        Piece::GroupDdl { ty, prefix } => fill(GROUP_DDL@, seq![ty, string_literal(prefix), ty]),
        Piece::RequiredDdl { ty, prefix } => fill(REQUIRED_DDL@, seq![ty, string_literal(prefix)]),
        Piece::GroupCols { ty, prefix } => fill(GROUP_COLS@, seq![ty, string_literal(prefix)]),
        Piece::GroupVals { ty, prefix } => fill(GROUP_VALS@, seq![ty, string_literal(prefix)]),
        Piece::CreateTable { ty } => fill(CREATE_TABLE@, seq![ty]),
    }
}

/// The constant expressions that stand for pieces, with commas between them.
pub open spec fn pieces_code(pieces: Seq<Piece<Chars>>) -> Chars {
    join(Seq::new(pieces.len(), |i: int| piece_code(pieces[i])), ", "@)
}

/// Writes the constant expression that stands for a piece. That of fixed text is a literal with the
/// text as its value.
pub fn write_piece(piece: &Piece<String>) -> (r: String)
    ensures
        r@ == piece_code(piece@),
        piece@ matches Piece::Text(text) ==> string_value(r@) == Some(text),
{
    match piece {
        Piece::Text(text) => write_string(text.as_str()),
        Piece::ColumnType { ty, column } => {
            filled2(COLUMN_TYPE, ty.as_str(), write_string(column.as_str()).as_str())
        },
        Piece::ColumnQualifier { ty } => filled1(COLUMN_QUALIFIER, ty.as_str()),
        Piece::ColumnPlaceholder { ty } => filled1(COLUMN_PLACEHOLDER, ty.as_str()),
        Piece::GroupDdl { ty, prefix } => {
            filled3(
                GROUP_DDL,
                ty.as_str(),
                write_string(prefix.as_str()).as_str(),
                ty.as_str(),
            )
        },
        Piece::RequiredDdl { ty, prefix } => {
            filled2(REQUIRED_DDL, ty.as_str(), write_string(prefix.as_str()).as_str())
        },
        Piece::GroupCols { ty, prefix } => {
            filled2(GROUP_COLS, ty.as_str(), write_string(prefix.as_str()).as_str())
        },
        Piece::GroupVals { ty, prefix } => {
            filled2(GROUP_VALS, ty.as_str(), write_string(prefix.as_str()).as_str())
        },
        Piece::CreateTable { ty } => filled1(CREATE_TABLE, ty.as_str()),
    }
}

/// Writes the constant expressions that stand for pieces.
pub fn write_pieces(pieces: &Vec<Piece<String>>) -> (r: String)
    ensures
        r@ == pieces_code(views(pieces@)),
{
    let mut parts: Vec<String> = Vec::new();
    let mut i: usize = 0;
    while i < pieces.len()
        invariant
            i <= pieces@.len(),
            parts@.len() == i,
            forall|k: int| 0 <= k < i ==> (#[trigger] parts@[k])@ == piece_code(pieces@[k]@),
        decreases pieces.len() - i,
    {
        parts.push(write_piece(&pieces[i]));
        i += 1;
    }
    assert(views(parts@) =~= Seq::new(
        views(pieces@).len(),
        |i: int| piece_code(views(pieces@)[i]),
    ));
    join_all(&parts, ", ")
}

// ---------------------------------------------------------------------------
// What pieces come to
// ---------------------------------------------------------------------------

/// What a column type contributes to SQL text.
pub struct ColumnEntry<S> {
    /// The type as it is written.
    pub ty: S,
    pub sql_type: S,
    pub nullable: bool,
}

impl View for ColumnEntry<String> {
    type V = ColumnEntry<Chars>;

    open spec fn view(&self) -> ColumnEntry<Chars> {
        ColumnEntry { ty: self.ty@, sql_type: self.sql_type@, nullable: self.nullable }
    }
}

/// What a group type contributes to SQL text.
pub struct GroupEntry<S> {
    /// The type as it is written.
    pub ty: S,
    pub ddl: S,
    pub cols: S,
    pub vals: S,
    pub nullable: bool,
}

impl View for GroupEntry<String> {
    type V = GroupEntry<Chars>;

    open spec fn view(&self) -> GroupEntry<Chars> {
        GroupEntry {
            ty: self.ty@,
            ddl: self.ddl@,
            cols: self.cols@,
            vals: self.vals@,
            nullable: self.nullable,
        }
    }
}

/// What a table contributes to SQL text.
pub struct TableEntry<S> {
    /// The type as it is written.
    pub ty: S,
    pub create_table: S,
}

impl View for TableEntry<String> {
    type V = TableEntry<Chars>;

    open spec fn view(&self) -> TableEntry<Chars> {
        TableEntry { ty: self.ty@, create_table: self.create_table@ }
    }
}

/// The types that SQL text can refer to; `C` is a list of columns, `G` a list of groups and `T` a
/// list of tables.
pub struct Catalog<C, G, T> {
    pub columns: C,
    pub groups: G,
    pub tables: T,
}

pub type CatalogView = Catalog<
    Seq<ColumnEntry<Chars>>,
    Seq<GroupEntry<Chars>>,
    Seq<TableEntry<Chars>>,
>;

pub type CatalogData = Catalog<
    Vec<ColumnEntry<String>>,
    Vec<GroupEntry<String>>,
    Vec<TableEntry<String>>,
>;

impl View for Catalog<Vec<ColumnEntry<String>>, Vec<GroupEntry<String>>, Vec<TableEntry<String>>> {
    type V = Catalog<Seq<ColumnEntry<Chars>>, Seq<GroupEntry<Chars>>, Seq<TableEntry<Chars>>>;

    open spec fn view(&self) -> Catalog<
        Seq<ColumnEntry<Chars>>,
        Seq<GroupEntry<Chars>>,
        Seq<TableEntry<Chars>>,
    > {
        Catalog {
            columns: views(self.columns@),
            groups: views(self.groups@),
            tables: views(self.tables@),
        }
    }
}

/// The first column type with a name.
pub open spec fn column_entry(columns: Seq<ColumnEntry<Chars>>, ty: Chars) -> Option<
    ColumnEntry<Chars>,
>
    decreases columns.len(),
{
    if columns.len() == 0 {
        None
    } else if columns[0].ty == ty {
        Some(columns[0])
    } else {
        column_entry(columns.drop_first(), ty)
    }
}

/// The first group type with a name.
pub open spec fn group_entry(groups: Seq<GroupEntry<Chars>>, ty: Chars) -> Option<
    GroupEntry<Chars>,
>
    decreases groups.len(),
{
    if groups.len() == 0 {
        None
    } else if groups[0].ty == ty {
        Some(groups[0])
    } else {
        group_entry(groups.drop_first(), ty)
    }
}

/// The first table with a name.
pub open spec fn table_entry(tables: Seq<TableEntry<Chars>>, ty: Chars) -> Option<
    TableEntry<Chars>,
>
    decreases tables.len(),
{
    if tables.len() == 0 {
        None
    } else if tables[0].ty == ty {
        Some(tables[0])
    } else {
        table_entry(tables.drop_first(), ty)
    }
}

/// The qualifier of a column that is nullable or not.
pub open spec fn null_qualifier(nullable: bool) -> Chars {
    if nullable {
        ""@
    } else {
        " NOT NULL"@
    }
}

/// The placeholder for the qualifier of a column in a group.
pub open spec fn nn_placeholder(nullable: bool) -> Chars {
    if nullable {
        ""@
    } else {
        "{NN}"@
    }
}

/// What a piece comes to, if the catalog has its type.
pub open spec fn piece_sql(piece: Piece<Chars>, catalog: CatalogView) -> Option<Chars> {
    match piece {
        Piece::Text(text) => Some(text),
        Piece::ColumnType { ty, column } => match column_entry(catalog.columns, ty) {
            Some(entry) => Some(replaced(entry.sql_type, "{col}"@, column)),
            None => None,
        },
        Piece::ColumnQualifier { ty } => match column_entry(catalog.columns, ty) {
            Some(entry) => Some(null_qualifier(entry.nullable)),
            None => None,
        },
        Piece::ColumnPlaceholder { ty } => match column_entry(catalog.columns, ty) {
            Some(entry) => Some(nn_placeholder(entry.nullable)),
            None => None,
        },
        Piece::GroupDdl { ty, prefix } => match group_entry(catalog.groups, ty) {
            Some(entry) => Some(
                replaced(
                    replaced(entry.ddl, "{P}"@, prefix),
                    "{NN}"@,
                    null_qualifier(entry.nullable),
                ),
            ),
            None => None,
        },
        Piece::RequiredDdl { ty, prefix } => match group_entry(catalog.groups, ty) {
            Some(entry) => Some(
                replaced(replaced(entry.ddl, "{P}"@, prefix), "{NN}"@, " NOT NULL"@),
            ),
            None => None,
        },
        Piece::GroupCols { ty, prefix } => match group_entry(catalog.groups, ty) {
            Some(entry) => Some(replaced(entry.cols, "{P}"@, prefix)),
            None => None,
        },
        Piece::GroupVals { ty, prefix } => match group_entry(catalog.groups, ty) {
            Some(entry) => Some(replaced(entry.vals, "{P}"@, prefix)),
            None => None,
        },
        Piece::CreateTable { ty } => match table_entry(catalog.tables, ty) {
            Some(entry) => Some(entry.create_table),
            None => None,
        },
    }
}

/// What pieces one after the other come to, if the catalog has all their types.
pub open spec fn pieces_sql(pieces: Seq<Piece<Chars>>, catalog: CatalogView) -> Option<Chars>
    decreases pieces.len(),
{
    if pieces.len() == 0 {
        Some(Seq::empty())
    } else {
        match (pieces_sql(pieces.drop_last(), catalog), piece_sql(pieces.last(), catalog)) {
            (Some(front), Some(last)) => Some(front + last),
            _ => None,
        }
    }
}

/// Finds a column type.
pub fn find_column<'a>(columns: &'a Vec<ColumnEntry<String>>, ty: &str) -> (r: Option<
    &'a ColumnEntry<String>,
>)
    ensures
        r is None <==> column_entry(views(columns@), ty@) is None,
        r matches Some(entry) ==> column_entry(views(columns@), ty@) == Some(entry@),
{
    let mut i: usize = 0;
    assert(views(columns@).skip(0) =~= views(columns@));
    while i < columns.len()
        invariant
            i <= columns@.len(),
            column_entry(views(columns@), ty@) == column_entry(views(columns@).skip(i as int), ty@),
        decreases columns.len() - i,
    {
        assert(views(columns@).skip(i as int)[0] == columns@[i as int]@);
        assert(views(columns@).skip(i as int).drop_first() =~= views(columns@).skip(i + 1));
        if same(columns[i].ty.as_str(), ty) {
            return Some(&columns[i]);
        }
        i += 1;
    }
    None
}

/// Finds a group type.
fn find_group<'a>(groups: &'a Vec<GroupEntry<String>>, ty: &str) -> (r: Option<
    &'a GroupEntry<String>,
>)
    ensures
        r is None <==> group_entry(views(groups@), ty@) is None,
        r matches Some(entry) ==> group_entry(views(groups@), ty@) == Some(entry@),
{
    let mut i: usize = 0;
    assert(views(groups@).skip(0) =~= views(groups@));
    while i < groups.len()
        invariant
            i <= groups@.len(),
            group_entry(views(groups@), ty@) == group_entry(views(groups@).skip(i as int), ty@),
        decreases groups.len() - i,
    {
        assert(views(groups@).skip(i as int)[0] == groups@[i as int]@);
        assert(views(groups@).skip(i as int).drop_first() =~= views(groups@).skip(i + 1));
        if same(groups[i].ty.as_str(), ty) {
            return Some(&groups[i]);
        }
        i += 1;
    }
    None
}

/// Finds a table.
fn find_table<'a>(tables: &'a Vec<TableEntry<String>>, ty: &str) -> (r: Option<
    &'a TableEntry<String>,
>)
    ensures
        r is None <==> table_entry(views(tables@), ty@) is None,
        r matches Some(entry) ==> table_entry(views(tables@), ty@) == Some(entry@),
{
    let mut i: usize = 0;
    assert(views(tables@).skip(0) =~= views(tables@));
    while i < tables.len()
        invariant
            i <= tables@.len(),
            table_entry(views(tables@), ty@) == table_entry(views(tables@).skip(i as int), ty@),
        decreases tables.len() - i,
    {
        assert(views(tables@).skip(i as int)[0] == tables@[i as int]@);
        assert(views(tables@).skip(i as int).drop_first() =~= views(tables@).skip(i + 1));
        if same(tables[i].ty.as_str(), ty) {
            return Some(&tables[i]);
        }
        i += 1;
    }
    None
}

/// The qualifier of a column.
pub fn __null_qualifier(nullable: bool) -> (r: &'static str)
    ensures
        r@ == null_qualifier(nullable),
{
    if nullable {
        ""
    } else {
        " NOT NULL"
    }
}

/// The placeholder for the qualifier of a column in a group.
pub fn __nn_placeholder(nullable: bool) -> (r: &'static str)
    ensures
        r@ == nn_placeholder(nullable),
{
    if nullable {
        ""
    } else {
        "{NN}"
    }
}

/// Evaluates a piece.
pub fn evaluate_piece(piece: &Piece<String>, catalog: &CatalogData) -> (r: Option<String>)
    ensures
        seen_text(r) == piece_sql(piece@, catalog@),
{
    match piece {
        Piece::Text(text) => Some(text.clone()),
        Piece::ColumnType { ty, column } => match find_column(&catalog.columns, ty.as_str()) {
            Some(entry) => Some(replace_all(entry.sql_type.as_str(), "{col}", column.as_str())),
            None => None,
        },
        Piece::ColumnQualifier { ty } => match find_column(&catalog.columns, ty.as_str()) {
            Some(entry) => Some(__null_qualifier(entry.nullable).to_owned()),
            None => None,
        },
        Piece::ColumnPlaceholder { ty } => match find_column(&catalog.columns, ty.as_str()) {
            Some(entry) => Some(__nn_placeholder(entry.nullable).to_owned()),
            None => None,
        },
        Piece::GroupDdl { ty, prefix } => match find_group(&catalog.groups, ty.as_str()) {
            Some(entry) => {
                let named = replace_all(entry.ddl.as_str(), "{P}", prefix.as_str());
                Some(replace_all(named.as_str(), "{NN}", __null_qualifier(entry.nullable)))
            },
            None => None,
        },
        Piece::RequiredDdl { ty, prefix } => match find_group(&catalog.groups, ty.as_str()) {
            Some(entry) => {
                let named = replace_all(entry.ddl.as_str(), "{P}", prefix.as_str());
                Some(replace_all(named.as_str(), "{NN}", " NOT NULL"))
            },
            None => None,
        },
        Piece::GroupCols { ty, prefix } => match find_group(&catalog.groups, ty.as_str()) {
            Some(entry) => Some(replace_all(entry.cols.as_str(), "{P}", prefix.as_str())),
            None => None,
        },
        Piece::GroupVals { ty, prefix } => match find_group(&catalog.groups, ty.as_str()) {
            Some(entry) => Some(replace_all(entry.vals.as_str(), "{P}", prefix.as_str())),
            None => None,
        },
        Piece::CreateTable { ty } => match find_table(&catalog.tables, ty.as_str()) {
            Some(entry) => Some(entry.create_table.clone()),
            None => None,
        },
    }
}

/// If one piece has no value, the whole has none.
proof fn lemma_pieces_none(pieces: Seq<Piece<Chars>>, catalog: CatalogView, part: int)
    requires
        0 <= part <= pieces.len(),
        pieces_sql(pieces.take(part), catalog) is None,
    ensures
        pieces_sql(pieces, catalog) is None,
    decreases pieces.len() - part,
{
    if part < pieces.len() {
        assert(pieces.take(part + 1).drop_last() =~= pieces.take(part));
        lemma_pieces_none(pieces, catalog, part + 1);
    } else {
        assert(pieces.take(part) =~= pieces);
    }
}

/// Evaluates pieces one after the other.
pub fn evaluate(pieces: &Vec<Piece<String>>, catalog: &CatalogData) -> (r: Option<String>)
    ensures
        seen_text(r) == pieces_sql(views(pieces@), catalog@),
{
    let mut sql = String::new();
    let mut i: usize = 0;
    assert(views(pieces@).take(0) =~= Seq::empty());
    while i < pieces.len()
        invariant
            i <= pieces@.len(),
            pieces_sql(views(pieces@).take(i as int), catalog@) == Some(sql@),
        decreases pieces.len() - i,
    {
        let ghost part = views(pieces@).take(i + 1);
        assert(part.drop_last() =~= views(pieces@).take(i as int));
        assert(part.last() == pieces@[i as int]@);
        match evaluate_piece(&pieces[i], catalog) {
            Some(text) => sql.append(text.as_str()),
            None => {
                proof {
                    lemma_pieces_none(views(pieces@), catalog@, i + 1);
                }
                return None;
            },
        }
        i += 1;
    }
    assert(views(pieces@).take(i as int) =~= views(pieces@));
    Some(sql)
}

/// The entry of a column type under a name.
pub fn entry_of<T: Column>(ty: &str) -> (r: ColumnEntry<String>)
    ensures
        r@ == (ColumnEntry { ty: ty@, sql_type: T::SQL_TYPE@, nullable: T::NULLABLE }),
{
    ColumnEntry { ty: ty.to_owned(), sql_type: T::SQL_TYPE.to_owned(), nullable: T::NULLABLE }
}

} // verus!
