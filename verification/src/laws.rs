//! What SQL text comes to: lists of pieces, placeholders and the columns of groups.
use crate::column::Column;
use crate::decl::FieldView;
use crate::derive_column::{enum_sql_type, numerals};
use crate::expand_group::{definition, group_cols, group_column, group_ddl, group_vals};
use crate::sql::{column_entry, nn_placeholder, piece_sql, pieces_sql, CatalogView, Piece};
use crate::syntax::Chars;
use crate::text::{
    join, lemma_join_push, lemma_replaced_join, lemma_replaced_sealed, lemma_sealed_concat,
    lemma_sealed_mark, lemma_sealed_plain, numeral, replaced, sealed,
};
use vstd::prelude::*;

verus! {

// ---------------------------------------------------------------------------
// Pieces
// ---------------------------------------------------------------------------

/// Pieces one after the other come to their texts one after the other.
pub proof fn law_pieces_concat(a: Seq<Piece<Chars>>, b: Seq<Piece<Chars>>, catalog: CatalogView)
    ensures
        pieces_sql(a + b, catalog) == match (pieces_sql(a, catalog), pieces_sql(b, catalog)) {
            (Some(front), Some(back)) => Some(front + back),
            _ => None::<Chars>,
        },
    decreases b.len(),
{
    if b.len() == 0 {
        assert(a + b =~= a);
        if let Some(front) = pieces_sql(a, catalog) {
            assert(front + Seq::<char>::empty() =~= front);
        }
    } else {
        assert((a + b).drop_last() =~= a + b.drop_last());
        assert((a + b).last() == b.last());
        law_pieces_concat(a, b.drop_last(), catalog);
        match (
            pieces_sql(a, catalog),
            pieces_sql(b.drop_last(), catalog),
            piece_sql(b.last(), catalog),
        ) {
            (Some(front), Some(middle), Some(last)) => {
                assert(front + middle + last =~= front + (middle + last));
            },
            _ => {},
        }
    }
}

/// One piece alone comes to its text.
pub proof fn lemma_one_piece(piece: Piece<Chars>, catalog: CatalogView)
    ensures
        pieces_sql(seq![piece], catalog) == piece_sql(piece, catalog),
{
    reveal_with_fuel(pieces_sql, 2);
    assert(seq![piece].drop_last() =~= Seq::<Piece<Chars>>::empty());
    if let Some(text) = piece_sql(piece, catalog) {
        assert(Seq::<char>::empty() + text =~= text);
    }
}

/// A list of entries with a text between each two comes to the texts of the entries with that text
/// between each two.
pub proof fn lemma_list_sql(
    lists: Seq<Seq<Piece<Chars>>>,
    texts: Seq<Chars>,
    sep: Chars,
    catalog: CatalogView,
)
    requires
        lists.len() == texts.len(),
        forall|i: int|
            0 <= i < lists.len() ==> pieces_sql(#[trigger] lists[i], catalog) == Some(texts[i]),
    ensures
        pieces_sql(join(lists, seq![Piece::Text(sep)]), catalog) == Some(join(texts, sep)),
    decreases lists.len(),
{
    let mark = seq![Piece::Text(sep)];
    if lists.len() > 0 {
        let front = lists.drop_last();
        let last = lists.last();
        assert(last == lists[lists.len() - 1]);
        assert forall|i: int| 0 <= i < front.len() implies pieces_sql(
            #[trigger] front[i],
            catalog,
        ) == Some(texts.drop_last()[i]) by {
            assert(front[i] == lists[i]);
        }
        lemma_list_sql(front, texts.drop_last(), sep, catalog);
        assert(lists =~= front.push(last));
        assert(texts =~= texts.drop_last().push(texts.last()));
        lemma_join_push(front, mark, last);
        lemma_join_push(texts.drop_last(), sep, texts.last());
        if front.len() > 0 {
            lemma_one_piece(Piece::Text(sep), catalog);
            law_pieces_concat(join(front, mark), mark, catalog);
            law_pieces_concat(join(front, mark) + mark, last, catalog);
        }
    }
}

// ---------------------------------------------------------------------------
// Substitution
// ---------------------------------------------------------------------------

/// Whether a text has no `{`, with which every placeholder begins.
pub open spec fn plain(text: Chars) -> bool {
    !text.contains('{')
}

/// Two texts without `{` one after the other have none.
proof fn lemma_plain_concat(a: Chars, b: Chars)
    requires
        plain(a),
        plain(b),
    ensures
        plain(a + b),
{
    if (a + b).contains('{') {
        let i = choose|i: int| 0 <= i < (a + b).len() && (a + b)[i] == '{';
        if i < a.len() {
            assert(a[i] == '{');
        } else {
            assert(b[i - a.len()] == '{');
        }
    }
}

/// How the placeholders lie in a text.
proof fn lemma_marks()
    ensures
        "{P}"@.len() == 3,
        "{P}"@[0] == '{',
        "{NN}"@.len() == 4,
        "{NN}"@[0] == '{',
        "{col}"@.len() == 5,
        "{col}"@[0] == '{',
        sealed("{P}"@, "{P}"@),
        sealed("{NN}"@, "{P}"@),
        sealed("{NN}"@, "{NN}"@),
        sealed("{col}"@, "{col}"@),
        forall|with: Chars| #[trigger] replaced("{P}"@, "{P}"@, with) == with,
        forall|with: Chars| #[trigger] replaced("{NN}"@, "{P}"@, with) == "{NN}"@,
        forall|with: Chars| #[trigger] replaced("{NN}"@, "{NN}"@, with) == with,
        forall|with: Chars| #[trigger] replaced("{col}"@, "{col}"@, with) == with,
{
    reveal_strlit("{P}");
    reveal_strlit("{NN}");
    reveal_strlit("{col}");
    lemma_sealed_mark("{P}"@, "{P}"@);
    lemma_sealed_mark("{NN}"@, "{P}"@);
    lemma_sealed_mark("{NN}"@, "{NN}"@);
    lemma_sealed_mark("{col}"@, "{col}"@);
    assert forall|with: Chars| #[trigger] replaced("{P}"@, "{P}"@, with) == with by {
        lemma_whole("{P}"@, with);
    }
    assert forall|with: Chars| #[trigger] replaced("{NN}"@, "{NN}"@, with) == with by {
        lemma_whole("{NN}"@, with);
    }
    assert forall|with: Chars| #[trigger] replaced("{col}"@, "{col}"@, with) == with by {
        lemma_whole("{col}"@, with);
    }
    assert forall|with: Chars| #[trigger] replaced("{NN}"@, "{P}"@, with) == "{NN}"@ by {
        let text = "{NN}"@;
        let rest = text.drop_first();
        assert(text.take(3)[1] == 'N');
        assert("{P}"@[1] == 'P');
        lemma_sealed_plain(rest, "{P}"@, with);
        assert(text =~= seq![text[0]] + rest);
    }
}

/// A text that is the pattern is replaced as a whole.
proof fn lemma_whole(pattern: Chars, with: Chars)
    requires
        pattern.len() > 0,
    ensures
        replaced(pattern, pattern, with) == with,
{
    crate::text::lemma_replaced_hit(pattern, Seq::empty(), with);
    assert(pattern + Seq::<char>::empty() =~= pattern);
    assert(with + Seq::<char>::empty() =~= with);
}

/// Text without `{` is kept by every substitution of a placeholder.
proof fn lemma_plain_kept(text: Chars, pattern: Chars, with: Chars)
    requires
        plain(text),
        pattern.len() > 0,
        pattern[0] == '{',
    ensures
        sealed(text, pattern),
        replaced(text, pattern, with) == text,
{
    lemma_sealed_plain(text, pattern, with);
}

/// A prefix takes the place of `{P}` in the name of a column.
proof fn lemma_place_column(name: Chars, prefix: Chars)
    requires
        plain(name),
    ensures
        sealed(group_column(name), "{P}"@),
        replaced(group_column(name), "{P}"@, prefix) == prefix + name,
{
    lemma_marks();
    lemma_plain_kept(name, "{P}"@, prefix);
    lemma_sealed_concat("{P}"@, name, "{P}"@);
    lemma_replaced_sealed("{P}"@, name, "{P}"@, prefix);
}

/// The columns of a group with a prefix: each is the prefix and the name of the field, in the order
/// of the fields, and each parameter is a colon and the column.
pub proof fn law_group_columns(names: Seq<Chars>, prefix: Chars)
    requires
        forall|i: int| 0 <= i < names.len() ==> plain(#[trigger] names[i]),
    ensures
        replaced(group_cols(names), "{P}"@, prefix) == join(prefixed(names, prefix), ", "@),
        replaced(group_vals(names), "{P}"@, prefix) == join(
            parameters(prefixed(names, prefix)),
            ", "@,
        ),
{
    lemma_marks();
    reveal_strlit(", ");
    reveal_strlit(":");
    lemma_plain_kept(", "@, "{P}"@, prefix);
    lemma_plain_kept(":"@, "{P}"@, prefix);
    let cols = names.map_values(|name: Chars| group_column(name));
    let vals = names.map_values(|name: Chars| ":"@ + group_column(name));
    assert forall|i: int| 0 <= i < names.len() implies sealed(#[trigger] cols[i], "{P}"@)
        && replaced(cols[i], "{P}"@, prefix) == prefix + names[i] by {
        assert(plain(names[i]));
        lemma_place_column(names[i], prefix);
    }
    assert forall|i: int| 0 <= i < names.len() implies sealed(#[trigger] vals[i], "{P}"@)
        && replaced(vals[i], "{P}"@, prefix) == ":"@ + (prefix + names[i]) by {
        assert(plain(names[i]));
        lemma_place_column(names[i], prefix);
        lemma_sealed_concat(":"@, group_column(names[i]), "{P}"@);
        lemma_replaced_sealed(":"@, group_column(names[i]), "{P}"@, prefix);
    }
    lemma_replaced_join(cols, ", "@, "{P}"@, prefix);
    lemma_replaced_join(vals, ", "@, "{P}"@, prefix);
    assert(cols.map_values(|part: Chars| replaced(part, "{P}"@, prefix)) =~= prefixed(
        names,
        prefix,
    ));
    assert(vals.map_values(|part: Chars| replaced(part, "{P}"@, prefix)) =~= parameters(
        prefixed(names, prefix),
    ));
}

/// Names with a prefix before each.
pub open spec fn prefixed(names: Seq<Chars>, prefix: Chars) -> Seq<Chars> {
    names.map_values(|name: Chars| prefix + name)
}

/// The parameters of columns.
pub open spec fn parameters(columns: Seq<Chars>) -> Seq<Chars> {
    columns.map_values(|column: Chars| ":"@ + column)
}

// ---------------------------------------------------------------------------
// SQL types
// ---------------------------------------------------------------------------

/// Whether a text is the given parts without `{`, with `{col}` between each two.
pub open spec fn made_of(sql_type: Chars, parts: Seq<Chars>) -> bool {
    &&& sql_type == join(parts, "{col}"@)
    &&& forall|i: int| 0 <= i < parts.len() ==> plain(#[trigger] parts[i])
}

/// Whether an SQL type has no placeholder but `{col}`.
pub open spec fn tidy(sql_type: Chars) -> bool {
    exists|parts: Seq<Chars>| made_of(sql_type, parts)
}

/// The SQL types of the columns that the library knows have no placeholder but `{col}`.
pub proof fn law_tidy_types<const N: usize>()
    ensures
        tidy(<i32 as Column>::SQL_TYPE@),
        tidy(<i64 as Column>::SQL_TYPE@),
        tidy(<String as Column>::SQL_TYPE@),
        tidy(<Vec<u8> as Column>::SQL_TYPE@),
        tidy(<[u8; N] as Column>::SQL_TYPE@),
        tidy(<bool as Column>::SQL_TYPE@),
{
    crate::column::law_sql_types::<N>();
    reveal_strlit("INTEGER");
    reveal_strlit("TEXT");
    reveal_strlit("BLOB");
    assert(made_of("INTEGER"@, seq!["INTEGER"@]));
    assert(made_of("TEXT"@, seq!["TEXT"@]));
    assert(made_of("BLOB"@, seq!["BLOB"@]));
    reveal_strlit("INTEGER CHECK ({col} IN (0, 1))");
    reveal_strlit("INTEGER CHECK (");
    reveal_strlit("{col}");
    reveal_strlit(" IN (0, 1))");
    let parts = seq!["INTEGER CHECK ("@, " IN (0, 1))"@];
    assert(parts.drop_first() =~= seq![" IN (0, 1))"@]);
    reveal_with_fuel(join::<char>, 2);
    assert("INTEGER CHECK ({col} IN (0, 1))"@ =~= "INTEGER CHECK ("@ + ("{col}"@
        + " IN (0, 1))"@));
    assert(made_of("INTEGER CHECK ({col} IN (0, 1))"@, parts));
}

/// A numeral has no `{`.
proof fn lemma_plain_numeral(n: nat)
    ensures
        plain(numeral(n)),
    decreases n,
{
    if n >= 10 {
        lemma_plain_numeral(n / 10);
        lemma_plain_concat(numeral(n / 10), seq![crate::text::digit(n % 10)]);
        assert(numeral(n) =~= numeral(n / 10) + seq![crate::text::digit(n % 10)]);
    }
}

/// Joined texts without `{` have none.
proof fn lemma_plain_join(parts: Seq<Chars>, sep: Chars)
    requires
        plain(sep),
        forall|i: int| 0 <= i < parts.len() ==> plain(#[trigger] parts[i]),
    ensures
        plain(join(parts, sep)),
    decreases parts.len(),
{
    if parts.len() > 1 {
        let rest = parts.drop_first();
        assert forall|i: int| 0 <= i < rest.len() implies plain(#[trigger] rest[i]) by {
            assert(rest[i] == parts[i + 1]);
        }
        lemma_plain_join(rest, sep);
        lemma_plain_concat(sep, join(rest, sep));
        assert(plain(parts[0]));
        lemma_plain_concat(parts[0], sep + join(rest, sep));
    } else if parts.len() == 1 {
        assert(plain(parts[0]));
    }
}

/// The SQL type of an enum has no placeholder but `{col}`.
pub proof fn law_tidy_enum(values: Seq<int>)
    ensures
        tidy(enum_sql_type(values)),
{
    reveal_strlit("INTEGER CHECK ({col} IN (");
    reveal_strlit("INTEGER CHECK (");
    reveal_strlit("{col}");
    reveal_strlit(" IN (");
    reveal_strlit(", ");
    reveal_strlit("))");
    let texts = numerals(values);
    assert forall|i: int| 0 <= i < texts.len() implies plain(#[trigger] texts[i]) by {
        let value = values[i];
        if value < 0 {
            lemma_plain_numeral((-value) as nat);
            lemma_plain_concat(seq!['-'], numeral((-value) as nat));
        } else {
            lemma_plain_numeral(value as nat);
        }
    }
    lemma_plain_join(texts, ", "@);
    let list = join(texts, ", "@);
    lemma_plain_concat(" IN ("@, list);
    lemma_plain_concat(" IN ("@ + list, "))"@);
    let parts = seq!["INTEGER CHECK ("@, " IN ("@ + list + "))"@];
    assert(parts.drop_first() =~= seq![" IN ("@ + list + "))"@]);
    reveal_with_fuel(join::<char>, 2);
    assert(enum_sql_type(values) =~= "INTEGER CHECK ("@ + ("{col}"@ + (" IN ("@ + list
        + "))"@)));
    assert(made_of(enum_sql_type(values), parts));
}

// ---------------------------------------------------------------------------
// Definitions of the columns of a group
// ---------------------------------------------------------------------------

/// Whether the catalog has the type of a field of a group, and its texts have no stray
/// placeholders.
pub open spec fn field_known(field: FieldView, catalog: CatalogView) -> bool {
    &&& plain(field.name)
    &&& column_entry(catalog.columns, field.ty) is Some
    &&& tidy(column_entry(catalog.columns, field.ty)->Some_0.sql_type)
}

/// The definition of a column of a group, with placeholders for the prefix and the qualifier.
pub open spec fn open_line(field: FieldView, catalog: CatalogView) -> Chars {
    let entry = column_entry(catalog.columns, field.ty)->Some_0;
    "    "@ + group_column(field.name) + " "@ + replaced(
        entry.sql_type,
        "{col}"@,
        group_column(field.name),
    ) + nn_placeholder(entry.nullable)
}

/// The definition of a column with a prefix and a qualifier.
pub open spec fn line(field: FieldView, catalog: CatalogView, prefix: Chars, qualifier: Chars) -> Chars {
    let entry = column_entry(catalog.columns, field.ty)->Some_0;
    let column = prefix + field.name;
    "    "@ + column + " "@ + replaced(entry.sql_type, "{col}"@, column) + if entry.nullable {
        ""@
    } else {
        qualifier
    }
}

/// The definitions of the columns of a group with a prefix and a qualifier.
pub open spec fn lines(
    fields: Seq<FieldView>,
    catalog: CatalogView,
    prefix: Chars,
    qualifier: Chars,
) -> Seq<Chars> {
    fields.map_values(|field: FieldView| line(field, catalog, prefix, qualifier))
}

/// What the definitions of the columns of a group come to before they are placed.
pub open spec fn open_lines(fields: Seq<FieldView>, catalog: CatalogView) -> Seq<Chars> {
    fields.map_values(|field: FieldView| open_line(field, catalog))
}

/// The definition of a column evaluates to its text.
proof fn lemma_definition_sql(field: FieldView, catalog: CatalogView)
    requires
        column_entry(catalog.columns, field.ty) is Some,
    ensures
        pieces_sql(definition(field), catalog) == Some(open_line(field, catalog)),
{
    let pieces = definition(field);
    let one = seq![pieces[0]];
    let two = seq![pieces[1]];
    let three = seq![pieces[2]];
    lemma_one_piece(pieces[0], catalog);
    lemma_one_piece(pieces[1], catalog);
    lemma_one_piece(pieces[2], catalog);
    law_pieces_concat(one, two, catalog);
    law_pieces_concat(one + two, three, catalog);
    assert(pieces =~= one + two + three);
}

/// The definitions of the columns of a group evaluate to their texts.
pub proof fn law_group_ddl(fields: Seq<FieldView>, catalog: CatalogView)
    requires
        forall|i: int|
            0 <= i < fields.len() ==> column_entry(
                catalog.columns,
                (#[trigger] fields[i]).ty,
            ) is Some,
    ensures
        pieces_sql(group_ddl(fields), catalog) == Some(join(open_lines(fields, catalog), ",\n"@)),
{
    let lists = fields.map_values(|field: FieldView| definition(field));
    let texts = open_lines(fields, catalog);
    assert forall|i: int| 0 <= i < lists.len() implies pieces_sql(#[trigger] lists[i], catalog)
        == Some(texts[i]) by {
        assert(column_entry(catalog.columns, fields[i].ty) is Some);
        lemma_definition_sql(fields[i], catalog);
    }
    lemma_list_sql(lists, texts, ",\n"@, catalog);
}

/// An SQL type with a column's name in it is sealed, and keeps what else is in it.
proof fn lemma_type_placed(sql_type: Chars, name: Chars, prefix: Chars)
    requires
        tidy(sql_type),
        plain(name),
        plain(prefix),
    ensures
        sealed(replaced(sql_type, "{col}"@, group_column(name)), "{P}"@),
        replaced(replaced(sql_type, "{col}"@, group_column(name)), "{P}"@, prefix) == replaced(
            sql_type,
            "{col}"@,
            prefix + name,
        ),
        plain(replaced(sql_type, "{col}"@, prefix + name)),
{
    let parts = choose|parts: Seq<Chars>| made_of(sql_type, parts);
    let column = group_column(name);
    let placed = prefix + name;
    lemma_marks();
    assert forall|i: int| 0 <= i < parts.len() implies sealed(#[trigger] parts[i], "{col}"@)
        && sealed(parts[i], "{P}"@) by {
        assert(plain(parts[i]));
        lemma_plain_kept(parts[i], "{col}"@, column);
        lemma_plain_kept(parts[i], "{P}"@, prefix);
    }
    let with_col = parts.map_values(|part: Chars| replaced(part, "{col}"@, column));
    let with_placed = parts.map_values(|part: Chars| replaced(part, "{col}"@, placed));
    let with_p = parts.map_values(|part: Chars| replaced(part, "{P}"@, prefix));
    assert forall|i: int| 0 <= i < parts.len() implies with_col[i] == parts[i] && with_placed[i]
        == parts[i] && with_p[i] == parts[i] by {
        assert(plain(parts[i]));
        lemma_plain_kept(parts[i], "{col}"@, column);
        lemma_plain_kept(parts[i], "{col}"@, placed);
        lemma_plain_kept(parts[i], "{P}"@, prefix);
    }
    assert(with_col =~= parts);
    assert(with_placed =~= parts);
    assert(with_p =~= parts);
    lemma_replaced_join(parts, "{col}"@, "{col}"@, column);
    lemma_replaced_join(parts, "{col}"@, "{col}"@, placed);
    lemma_place_column(name, prefix);
    lemma_replaced_join(parts, column, "{P}"@, prefix);
    lemma_plain_concat(prefix, name);
    lemma_plain_join(parts, placed);
}

/// A prefix and a qualifier take the places of the placeholders in one definition.
proof fn lemma_line_placed(field: FieldView, catalog: CatalogView, prefix: Chars, qualifier: Chars)
    requires
        field_known(field, catalog),
        plain(prefix),
    ensures
        sealed(open_line(field, catalog), "{P}"@),
        sealed(replaced(open_line(field, catalog), "{P}"@, prefix), "{NN}"@),
        replaced(replaced(open_line(field, catalog), "{P}"@, prefix), "{NN}"@, qualifier) == line(
            field,
            catalog,
            prefix,
            qualifier,
        ),
{
    let entry = column_entry(catalog.columns, field.ty)->Some_0;
    let column = group_column(field.name);
    let placed = prefix + field.name;
    let ty = replaced(entry.sql_type, "{col}"@, column);
    let ty_placed = replaced(entry.sql_type, "{col}"@, placed);
    let mark = nn_placeholder(entry.nullable);
    let gap = "    "@;
    let space = " "@;
    reveal_strlit("    ");
    reveal_strlit(" ");
    reveal_strlit("");
    lemma_marks();
    lemma_place_column(field.name, prefix);
    lemma_type_placed(entry.sql_type, field.name, prefix);
    lemma_plain_concat(prefix, field.name);
    lemma_plain_kept(gap, "{P}"@, prefix);
    lemma_plain_kept(space, "{P}"@, prefix);
    lemma_plain_kept(gap, "{NN}"@, qualifier);
    lemma_plain_kept(space, "{NN}"@, qualifier);
    lemma_plain_kept(placed, "{NN}"@, qualifier);
    lemma_plain_kept(ty_placed, "{NN}"@, qualifier);
    lemma_plain_kept(""@, "{P}"@, prefix);
    lemma_plain_kept(""@, "{NN}"@, qualifier);
    assert(sealed(mark, "{P}"@) && replaced(mark, "{P}"@, prefix) == mark);
    assert(sealed(mark, "{NN}"@));
    // `{P}` is replaced in each of the five texts apart.
    lemma_sealed_concat(gap, column, "{P}"@);
    lemma_sealed_concat(gap + column, space, "{P}"@);
    lemma_sealed_concat(gap + column + space, ty, "{P}"@);
    lemma_sealed_concat(gap + column + space + ty, mark, "{P}"@);
    lemma_replaced_sealed(gap, column, "{P}"@, prefix);
    lemma_replaced_sealed(gap + column, space, "{P}"@, prefix);
    lemma_replaced_sealed(gap + column + space, ty, "{P}"@, prefix);
    lemma_replaced_sealed(gap + column + space + ty, mark, "{P}"@, prefix);
    assert(replaced(open_line(field, catalog), "{P}"@, prefix) == gap + placed + space + ty_placed
        + mark);
    // `{NN}` stands at the end only.
    lemma_sealed_concat(gap, placed, "{NN}"@);
    lemma_sealed_concat(gap + placed, space, "{NN}"@);
    lemma_sealed_concat(gap + placed + space, ty_placed, "{NN}"@);
    lemma_sealed_concat(gap + placed + space + ty_placed, mark, "{NN}"@);
    lemma_replaced_sealed(gap, placed, "{NN}"@, qualifier);
    lemma_replaced_sealed(gap + placed, space, "{NN}"@, qualifier);
    lemma_replaced_sealed(gap + placed + space, ty_placed, "{NN}"@, qualifier);
    lemma_replaced_sealed(gap + placed + space + ty_placed, mark, "{NN}"@, qualifier);
}

/// The columns of a group in a table: each is named by the prefix and the name of its field, also
/// inside its SQL type, and has the group's qualifier unless the type of the field is nullable.
pub proof fn law_group_definitions(
    fields: Seq<FieldView>,
    catalog: CatalogView,
    prefix: Chars,
    qualifier: Chars,
)
    requires
        plain(prefix),
        forall|i: int| 0 <= i < fields.len() ==> field_known(#[trigger] fields[i], catalog),
    ensures
        pieces_sql(group_ddl(fields), catalog) is Some,
        replaced(
            replaced(pieces_sql(group_ddl(fields), catalog)->Some_0, "{P}"@, prefix),
            "{NN}"@,
            qualifier,
        ) == join(lines(fields, catalog, prefix, qualifier), ",\n"@),
{
    let texts = open_lines(fields, catalog);
    assert forall|i: int| 0 <= i < fields.len() implies column_entry(
        catalog.columns,
        (#[trigger] fields[i]).ty,
    ) is Some by {
        assert(field_known(fields[i], catalog));
    }
    law_group_ddl(fields, catalog);
    lemma_marks();
    reveal_strlit(",\n");
    lemma_plain_kept(",\n"@, "{P}"@, prefix);
    lemma_plain_kept(",\n"@, "{NN}"@, qualifier);
    let placed = texts.map_values(|part: Chars| replaced(part, "{P}"@, prefix));
    let done = placed.map_values(|part: Chars| replaced(part, "{NN}"@, qualifier));
    assert forall|i: int| 0 <= i < texts.len() implies sealed(#[trigger] texts[i], "{P}"@) by {
        assert(field_known(fields[i], catalog));
        lemma_line_placed(fields[i], catalog, prefix, qualifier);
    }
    assert forall|i: int| 0 <= i < placed.len() implies sealed(#[trigger] placed[i], "{NN}"@)
        && done[i] == line(fields[i], catalog, prefix, qualifier) by {
        assert(field_known(fields[i], catalog));
        lemma_line_placed(fields[i], catalog, prefix, qualifier);
    }
    lemma_replaced_join(texts, ",\n"@, "{P}"@, prefix);
    lemma_replaced_join(placed, ",\n"@, "{NN}"@, qualifier);
    assert(done =~= lines(fields, catalog, prefix, qualifier));
}

} // verus!
