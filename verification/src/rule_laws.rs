//! What holds of every table, schema and enum that is accepted.
use crate::args::{
    punct_at, table_args, table_flags, word_at, GroupArgs, IndexColumn, TableArgs,
};
use crate::decl::{lemma_all_ok_values, AttrView, FieldView, StructView};
use crate::derive_column::{enum_values, VariantView};
use crate::error::{ArgError, MacroError};
use crate::expand_schema::{schema_pieces, table_names};
use crate::expand_table::{all_flags, checked_table};
use crate::fields::{
    classified, field_infos, field_kind, first_attr, group_choice, table_attrs, texts_without,
    FieldInfo, IndexView, TableAttrsView,
};
use crate::outside::string_literal;
use crate::rules::{columns_fault, has_field, indexes_fault, keys, Key};
use crate::sql::{piece_code, pieces_code, pieces_sql, table_entry, CatalogView, Piece};
use crate::syntax::{Chars, ExprForm, Token};
use crate::table_sql::{
    field_parts, field_pieces, ignores, insert_pieces, insert_start, insert_suffix,
    list_pieces, Part,
};
use crate::text::{concat, lemma_join_concat, lemma_join_push};
use vstd::prelude::*;

verus! {

// ---------------------------------------------------------------------------
// Tables
// ---------------------------------------------------------------------------

/// Whether every column that an index names is a plain column of the table.
pub open spec fn plain_columns(infos: Seq<FieldInfo<Chars>>, columns: Seq<IndexColumn<Chars>>) -> bool {
    forall|i: int| 0 <= i < columns.len() ==> has_field(infos, (#[trigger] columns[i]).name, true)
}

/// Nothing is wrong with columns if each is a plain column, and only then.
proof fn lemma_columns_fault_none(
    infos: Seq<FieldInfo<Chars>>,
    attr: usize,
    columns: Seq<IndexColumn<Chars>>,
)
    ensures
        columns_fault(infos, attr, columns) is None <==> plain_columns(infos, columns),
    decreases columns.len(),
{
    if columns.len() > 0 {
        let front = columns.drop_last();
        let last = columns.last();
        lemma_columns_fault_none(infos, attr, front);
        assert(last == columns[columns.len() - 1]);
        if plain_columns(infos, front) && has_field(infos, last.name, true) {
            assert forall|i: int| 0 <= i < columns.len() implies has_field(
                infos,
                (#[trigger] columns[i]).name,
                true,
            ) by {
                if i < front.len() {
                    assert(front[i] == columns[i]);
                }
            }
        }
        if plain_columns(infos, columns) {
            assert(has_field(infos, columns[columns.len() - 1].name, true));
            assert forall|i: int| 0 <= i < front.len() implies has_field(
                infos,
                (#[trigger] front[i]).name,
                true,
            ) by {
                assert(front[i] == columns[i]);
            }
        }
    }
}

/// Whether every index names plain columns only.
pub open spec fn plain_indexes(infos: Seq<FieldInfo<Chars>>, indexes: Seq<IndexView>) -> bool {
    forall|i: int| 0 <= i < indexes.len() ==> plain_columns(infos, (#[trigger] indexes[i]).columns)
}

/// Nothing is wrong with indexes if each names plain columns, and only then.
proof fn lemma_indexes_fault_none(infos: Seq<FieldInfo<Chars>>, indexes: Seq<IndexView>)
    ensures
        indexes_fault(infos, indexes) is None <==> plain_indexes(infos, indexes),
    decreases indexes.len(),
{
    if indexes.len() > 0 {
        let front = indexes.drop_last();
        let last = indexes.last();
        lemma_indexes_fault_none(infos, front);
        lemma_columns_fault_none(infos, last.attr, last.columns);
        assert(last == indexes[indexes.len() - 1]);
        if plain_indexes(infos, front) && plain_columns(infos, last.columns) {
            assert forall|i: int| 0 <= i < indexes.len() implies plain_columns(
                infos,
                (#[trigger] indexes[i]).columns,
            ) by {
                if i < front.len() {
                    assert(front[i] == indexes[i]);
                }
            }
        }
        if plain_indexes(infos, indexes) {
            assert(plain_columns(infos, indexes[indexes.len() - 1].columns));
            assert forall|i: int| 0 <= i < front.len() implies plain_columns(
                infos,
                (#[trigger] front[i]).columns,
            ) by {
                assert(front[i] == indexes[i]);
            }
        }
    }
}

/// A table is accepted if it does not have both a numbered and a declared key, has unique columns
/// only with a numbered key, keeps the time of the last write only with something to find a row
/// by, and indexes plain columns only; and in no other case.
pub proof fn law_table_accepted(
    decl: StructView,
    args: TableArgs<Chars>,
    attrs: TableAttrsView,
    infos: Seq<FieldInfo<Chars>>,
)
    ensures
        checked_table(decl, args, attrs, infos) is Ok <==> {
            let flags = all_flags(args, attrs.track);
            let primary = keys(infos, false);
            let unique = keys(infos, true);
            &&& !(flags.auto_primary_key && primary.len() > 0)
            &&& unique.len() > 0 ==> flags.auto_primary_key
            &&& flags.track_last_update ==> primary.len() > 0 || unique.len() > 0
            &&& plain_indexes(infos, attrs.indexes)
        },
{
    lemma_indexes_fault_none(infos, attrs.indexes);
}

/// A field has at most one role: it is a group, part of the primary key, unique, or none of them.
pub proof fn law_field_roles(
    i: int,
    field: FieldView,
    choice: Result<GroupArgs<Chars>, ArgError<Chars>>,
)
    requires
        field_kind(i, field, choice) is Ok,
    ensures
        ({
            let count = field.attrs.len();
            let group = first_attr(field.attrs, "group"@) < count;
            let key = first_attr(field.attrs, "primary_key"@) < count;
            let unique = first_attr(field.attrs, "unique"@) < count;
            !(group && key) && !(group && unique) && !(key && unique)
        }),
{
}

/// The fields of a table are those of its struct, in their order and under their names.
pub proof fn law_field_order(fields: Seq<FieldView>)
    requires
        field_infos(fields) is Ok,
    ensures
        field_infos(fields)->Ok_0.len() == fields.len(),
        forall|i: int|
            0 <= i < fields.len() ==> (#[trigger] field_infos(fields)->Ok_0[i]).name
                == fields[i].name,
{
    let roles = Seq::new(
        fields.len(),
        |i: int| classified(i, fields[i], group_choice(fields[i])),
    );
    lemma_all_ok_values(roles);
    assert forall|i: int| 0 <= i < fields.len() implies (#[trigger] field_infos(
        fields,
    )->Ok_0[i]).name == fields[i].name by {
        assert(roles[i] == Ok::<FieldInfo<Chars>, MacroError<Chars>>(
            field_infos(fields)->Ok_0[i],
        ));
    }
}

/// The texts of attributes.
pub open spec fn attr_texts(attrs: Seq<AttrView>) -> Seq<Chars> {
    attrs.map_values(|attr: AttrView| attr.text)
}

/// A field keeps all its attributes but the one that gives it its role.
pub proof fn law_texts_without(attrs: Seq<AttrView>, removed: int)
    requires
        0 <= removed,
    ensures
        texts_without(attrs, removed) == if removed < attrs.len() {
            attr_texts(attrs).remove(removed)
        } else {
            attr_texts(attrs)
        },
    decreases attrs.len(),
{
    let texts = attr_texts(attrs);
    if attrs.len() == 0 {
        assert(texts =~= Seq::empty());
    } else {
        let front = attrs.drop_last();
        law_texts_without(front, removed);
        assert(texts =~= attr_texts(front).push(attrs.last().text));
        if attrs.len() - 1 == removed {
            assert(texts.remove(removed) =~= attr_texts(front));
        } else if removed < front.len() {
            assert(texts.remove(removed) =~= attr_texts(front).remove(removed).push(
                attrs.last().text,
            ));
        }
    }
}

/// Whether an attribute declares an index.
pub open spec fn declares_index(attr: AttrView) -> bool {
    attr.path == "index"@
}

/// Whether an attribute is the bare `#[track_last_update]`.
pub open spec fn declares_track(attr: AttrView) -> bool {
    attr.path == "track_last_update"@ && attr.form is Path
}

/// A table struct keeps exactly the attributes that are neither `#[index]` nor the bare
/// `#[track_last_update]`, in their order. It has one index for each `#[index]`, and keeps the time
/// of the last write if `#[track_last_update]` is among them.
pub proof fn law_other_attrs_stay(attrs: Seq<AttrView>)
    requires
        table_attrs(attrs) is Ok,
    ensures
        table_attrs(attrs)->Ok_0.kept == attr_texts(
            attrs.filter(|attr: AttrView| !declares_index(attr) && !declares_track(attr)),
        ),
        table_attrs(attrs)->Ok_0.indexes.len() == attrs.filter(
            |attr: AttrView| declares_index(attr),
        ).len(),
        table_attrs(attrs)->Ok_0.track <==> exists|i: int|
            0 <= i < attrs.len() && #[trigger] declares_track(attrs[i]),
    decreases attrs.len(),
{
    reveal(Seq::filter);
    let stays = |attr: AttrView| !declares_index(attr) && !declares_track(attr);
    let index = |attr: AttrView| declares_index(attr);
    if attrs.len() == 0 {
        assert(attr_texts(attrs.filter(stays)) =~= Seq::empty());
    } else {
        let front = attrs.drop_last();
        let last = attrs.last();
        law_other_attrs_stay(front);
        reveal_strlit("index");
        reveal_strlit("track_last_update");
        assert("index"@[0] == 'i' && "track_last_update"@[0] == 't');
        if stays(last) {
            assert(attrs.filter(stays) == front.filter(stays).push(last));
            assert(attr_texts(attrs.filter(stays)) =~= attr_texts(front.filter(stays)).push(
                last.text,
            ));
        } else {
            assert(attrs.filter(stays) == front.filter(stays));
        }
        if index(last) {
            assert(attrs.filter(index) == front.filter(index).push(last));
        } else {
            assert(attrs.filter(index) == front.filter(index));
        }
        assert(last == attrs[attrs.len() - 1]);
        if exists|i: int| 0 <= i < front.len() && #[trigger] declares_track(front[i]) {
            let i = choose|i: int| 0 <= i < front.len() && #[trigger] declares_track(front[i]);
            assert(declares_track(attrs[i]));
        }
        if exists|i: int| 0 <= i < attrs.len() && #[trigger] declares_track(attrs[i]) {
            let i = choose|i: int| 0 <= i < attrs.len() && #[trigger] declares_track(attrs[i]);
            if i < front.len() {
                assert(declares_track(front[i]));
            }
        }
        if declares_track(last) {
            assert(declares_track(attrs[attrs.len() - 1]));
        }
    }
}

// ---------------------------------------------------------------------------
// Arguments of tables
// ---------------------------------------------------------------------------

/// Whether a word stands where a flag may stand, from an index on.
pub open spec fn has_flag(tokens: Seq<Token<Chars>>, from: int, flag: Chars) -> bool {
    exists|k: int|
        from < k < tokens.len() && k % 2 == 0 && #[trigger] tokens[k] == Token::Word(flag)
}

/// The flags from an index on.
proof fn lemma_flags(tokens: Seq<Token<Chars>>, at: int, args: TableArgs<Chars>)
    requires
        0 < at,
        at % 2 == 1,
        table_flags(tokens, at, args) is Ok,
    ensures
        table_flags(tokens, at, args) == Ok::<TableArgs<Chars>, ArgError<Chars>>(
            TableArgs {
                table: args.table,
                auto_primary_key: args.auto_primary_key || has_flag(
                    tokens,
                    at,
                    "auto_primary_key"@,
                ),
                track_last_update: args.track_last_update || has_flag(
                    tokens,
                    at,
                    "track_last_update"@,
                ),
            },
        ),
    decreases tokens.len() - at,
{
    if at >= tokens.len() {
    } else if at + 1 >= tokens.len() {
    } else {
        let auto = "auto_primary_key"@;
        let track = "track_last_update"@;
        reveal_strlit("auto_primary_key");
        reveal_strlit("track_last_update");
        let flag = word_at(tokens, at + 1)->Ok_0;
        assert(tokens[at + 1] == Token::Word(flag));
        assert(auto[0] == 'a' && track[0] == 't');
        if flag == auto {
            lemma_flags(tokens, at + 2, TableArgs { auto_primary_key: true, ..args });
        } else {
            lemma_flags(tokens, at + 2, TableArgs { track_last_update: true, ..args });
        }
        assert forall|word: Chars| word == auto || word == track implies has_flag(tokens, at, word)
            == (flag == word || #[trigger] has_flag(tokens, at + 2, word)) by {
            if has_flag(tokens, at, word) {
                let k = choose|k: int|
                    at < k < tokens.len() && k % 2 == 0 && #[trigger] tokens[k] == Token::Word(
                        word,
                    );
                if k > at + 2 {
                    assert(has_flag(tokens, at + 2, word));
                } else {
                    assert(k == at + 1);
                }
            }
            if has_flag(tokens, at + 2, word) {
                let k = choose|k: int|
                    at + 2 < k < tokens.len() && k % 2 == 0 && #[trigger] tokens[k]
                        == Token::Word(word);
                assert(tokens[k] == Token::Word(word));
            }
            if flag == word {
                assert(tokens[at + 1] == Token::Word(word));
            }
        }
        assert(has_flag(tokens, at, auto) == (flag == auto || has_flag(tokens, at + 2, auto)));
        assert(has_flag(tokens, at, track) == (flag == track || has_flag(tokens, at + 2, track)));
    }
}

/// Whether a token may stand at an index behind the name of a table: a comma at an odd index, and a
/// flag at an even one.
pub open spec fn fits(tokens: Seq<Token<Chars>>, k: int) -> bool {
    if k % 2 == 1 {
        punct_at(tokens, k, ","@)
    } else {
        tokens[k] == Token::Word("auto_primary_key"@) || tokens[k] == Token::Word(
            "track_last_update"@,
        )
    }
}

/// Whether the arguments of a table are a string literal, then a comma and a flag any number of
/// times, and at the end a comma or none.
pub open spec fn well_formed_args(tokens: Seq<Token<Chars>>) -> bool {
    &&& tokens.len() > 0
    &&& tokens[0] is Str
    &&& forall|k: int| 0 < k < tokens.len() ==> #[trigger] fits(tokens, k)
}

/// The flags from an index on are accepted if each token fits.
proof fn lemma_flags_accepted(tokens: Seq<Token<Chars>>, at: int, args: TableArgs<Chars>)
    requires
        0 < at,
        at % 2 == 1,
    ensures
        table_flags(tokens, at, args) is Ok <==> forall|k: int|
            at <= k < tokens.len() ==> #[trigger] fits(tokens, k),
    decreases tokens.len() - at,
{
    let rest = forall|k: int| at <= k < tokens.len() ==> #[trigger] fits(tokens, k);
    if at < tokens.len() {
        assert(rest ==> fits(tokens, at));
        if at + 1 >= tokens.len() {
            assert(fits(tokens, at) ==> rest);
        } else {
            assert(rest ==> fits(tokens, at + 1));
            let auto = TableArgs { auto_primary_key: true, ..args };
            let track = TableArgs { track_last_update: true, ..args };
            lemma_flags_accepted(tokens, at + 2, auto);
            lemma_flags_accepted(tokens, at + 2, track);
            let later = forall|k: int| at + 2 <= k < tokens.len() ==> #[trigger] fits(tokens, k);
            if fits(tokens, at) && fits(tokens, at + 1) && later {
                assert forall|k: int| at <= k < tokens.len() implies #[trigger] fits(tokens, k) by {
                    if k >= at + 2 {
                        assert(fits(tokens, k));
                    }
                }
            }
        }
    }
}

/// The arguments of a table are accepted if they are a string literal, then commas and flags, and
/// in no other case. The literal's value is the name of the table, and a flag is set if it stands
/// among the arguments, in whatever place.
pub proof fn law_table_args(tokens: Seq<Token<Chars>>)
    ensures
        table_args(tokens) is Ok <==> well_formed_args(tokens),
        table_args(tokens) is Ok ==> table_args(tokens) == Ok::<TableArgs<Chars>, ArgError<Chars>>(
            TableArgs {
                table: tokens[0]->Str_1,
                auto_primary_key: has_flag(tokens, 0, "auto_primary_key"@),
                track_last_update: has_flag(tokens, 0, "track_last_update"@),
            },
        ),
{
    if tokens.len() > 0 && tokens[0] is Str {
        let args = TableArgs {
            table: tokens[0]->Str_1,
            auto_primary_key: false,
            track_last_update: false,
        };
        lemma_flags_accepted(tokens, 1, args);
        if table_args(tokens) is Ok {
            lemma_flags(tokens, 1, args);
        }
        assert forall|word: Chars| #[trigger] has_flag(tokens, 0, word) == has_flag(
            tokens,
            1,
            word,
        ) by {
            if has_flag(tokens, 0, word) {
                let k = choose|k: int|
                    0 < k < tokens.len() && k % 2 == 0 && #[trigger] tokens[k] == Token::Word(
                        word,
                    );
                assert(k > 1);
            }
            if has_flag(tokens, 1, word) {
                let k = choose|k: int|
                    1 < k < tokens.len() && k % 2 == 0 && #[trigger] tokens[k] == Token::Word(
                        word,
                    );
                assert(tokens[k] == Token::Word(word));
            }
        }
    }
}

// ---------------------------------------------------------------------------
// INSERT
// ---------------------------------------------------------------------------

/// Whether a text ends with another.
pub open spec fn ends(text: Chars, end: Chars) -> bool {
    end.len() <= text.len() && text.skip(text.len() - end.len()) == end
}

/// `INSERT` returns the row identifier if the database numbers the rows, and only then.
pub proof fn law_insert_returns(
    args: TableArgs<Chars>,
    primary: Seq<Key<Chars>>,
    unique: Seq<Key<Chars>>,
)
    ensures
        ends(insert_suffix(args, primary, unique), " RETURNING row_id"@)
            == args.auto_primary_key,
{
    let end = " RETURNING row_id"@;
    let text = insert_suffix(args, primary, unique);
    reveal_strlit(" RETURNING row_id");
    assert(end.last() == 'd');
    if args.auto_primary_key {
        if unique.len() == 0 {
            reveal_strlit(") ON CONFLICT DO NOTHING RETURNING row_id");
            assert(text.skip(text.len() - end.len()) =~= end);
        } else {
            assert(text.skip(text.len() - end.len()) =~= end);
        }
    } else {
        if args.track_last_update {
            reveal_strlit(
                ") DO UPDATE SET __last_written_ms = MAX(__last_written_ms, unixepoch('now') * 1000)",
            );
            assert(text.last() == ')');
        } else if ignores(args, primary) {
            reveal_strlit(")");
            assert(text.last() == ')');
        } else {
            reveal_strlit(") ON CONFLICT DO NOTHING");
            assert(text.last() == 'G');
        }
        if ends(text, end) {
            assert(text.skip(text.len() - end.len()).last() == text.last());
        }
    }
}

/// Lists that are not empty, written as code, have a comma between them.
proof fn lemma_pieces_code_concat(a: Seq<Piece<Chars>>, b: Seq<Piece<Chars>>)
    requires
        a.len() > 0,
        b.len() > 0,
    ensures
        pieces_code(a + b) == pieces_code(a) + ", "@ + pieces_code(b),
{
    let left = Seq::new(a.len(), |i: int| piece_code(a[i]));
    let right = Seq::new(b.len(), |i: int| piece_code(b[i]));
    let all = Seq::new((a + b).len(), |i: int| piece_code((a + b)[i]));
    assert(all =~= left + right);
    lemma_join_concat(left, right, ", "@);
}

/// The list of a table that has fields is not empty.
proof fn lemma_list_not_empty(infos: Seq<FieldInfo<Chars>>, part: Part, separator: Chars)
    requires
        infos.len() > 0,
    ensures
        list_pieces(None, infos, part, separator).len() > 0,
{
    let parts = field_parts(infos, part);
    assert(parts =~= parts.drop_last().push(parts.last()));
    lemma_join_push(parts.drop_last(), seq![Piece::Text(separator)], parts.last());
    assert(parts.last() == field_pieces(infos.last(), part));
}

/// The constant `INSERT` of a table that has fields is the code of the pieces of `INSERT`.
pub proof fn law_insert_code(args: TableArgs<Chars>, infos: Seq<FieldInfo<Chars>>)
    requires
        infos.len() > 0,
    ensures
        pieces_code(insert_pieces(args, infos)) == string_literal(
            insert_start(args, keys(infos, false)),
        ) + ", "@ + pieces_code(list_pieces(None, infos, Part::Columns, ", "@)) + ", "@
            + string_literal(") VALUES ("@) + ", "@ + pieces_code(
            list_pieces(None, infos, Part::Values, ", "@),
        ) + ", "@ + string_literal(insert_suffix(args, keys(infos, false), keys(infos, true))),
{
    let start = seq![Piece::Text(insert_start(args, keys(infos, false)))];
    let columns = list_pieces(None, infos, Part::Columns, ", "@);
    let middle = seq![Piece::Text(") VALUES ("@)];
    let values = list_pieces(None, infos, Part::Values, ", "@);
    let end = seq![Piece::Text(insert_suffix(args, keys(infos, false), keys(infos, true)))];
    lemma_list_not_empty(infos, Part::Columns, ", "@);
    lemma_list_not_empty(infos, Part::Values, ", "@);
    lemma_pieces_code_concat(start, columns);
    lemma_pieces_code_concat(start + columns, middle);
    lemma_pieces_code_concat(start + columns + middle, values);
    lemma_pieces_code_concat(start + columns + middle + values, end);
}

// ---------------------------------------------------------------------------
// Schemas
// ---------------------------------------------------------------------------

/// The tables of a module come in the order of its items.
pub proof fn law_schema_order(
    a: Seq<Result<StructView, Chars>>,
    b: Seq<Result<StructView, Chars>>,
)
    ensures
        table_names(a + b) == table_names(a) + table_names(b),
    decreases b.len(),
{
    if b.len() == 0 {
        assert(a + b =~= a);
        assert(table_names(a) + table_names(b) =~= table_names(a));
    } else {
        assert((a + b).drop_last() =~= a + b.drop_last());
        assert((a + b).last() == b.last());
        law_schema_order(a, b.drop_last());
        assert(table_names(a + b) =~= table_names(a) + table_names(b));
    }
}

/// The schema is the `CREATE_TABLE` of its tables, one after the other.
pub proof fn law_schema(names: Seq<Chars>, catalog: CatalogView)
    requires
        forall|i: int|
            0 <= i < names.len() ==> table_entry(catalog.tables, #[trigger] names[i]) is Some,
    ensures
        pieces_sql(schema_pieces(names), catalog) == Some(
            concat(
                names.map_values(
                    |name: Chars| table_entry(catalog.tables, name)->Some_0.create_table,
                ),
            ),
        ),
    decreases names.len(),
{
    if names.len() > 0 {
        let front = names.drop_last();
        assert forall|i: int| 0 <= i < front.len() implies table_entry(
            catalog.tables,
            #[trigger] front[i],
        ) is Some by {
            assert(front[i] == names[i]);
        }
        law_schema(front, catalog);
        assert(names.last() == names[names.len() - 1]);
        assert(schema_pieces(names).drop_last() =~= schema_pieces(front));
        let creates = names.map_values(
            |name: Chars| table_entry(catalog.tables, name)->Some_0.create_table,
        );
        assert(creates.drop_last() =~= front.map_values(
            |name: Chars| table_entry(catalog.tables, name)->Some_0.create_table,
        ));
    }
}

// ---------------------------------------------------------------------------
// Enums
// ---------------------------------------------------------------------------

/// Every variant of an enum that is accepted is a unit variant. Its discriminant is the value of
/// the integer literal that it is written with, negated behind a minus sign; a variant without one
/// has one more than the variant before it, and zero if it is the first. A next one fits in an
/// `i64`.
pub proof fn law_enum_values(variants: Seq<VariantView>)
    requires
        enum_values(variants) is Ok,
    ensures
        ({
            let values = enum_values(variants)->Ok_0;
            &&& values.len() == variants.len()
            &&& forall|i: int|
                0 <= i < variants.len() ==> {
                    &&& (#[trigger] variants[i]).unit
                    &&& values[i] < i64::MAX
                    &&& variants[i].discriminant is None ==> values[i] == if i == 0 {
                        0
                    } else {
                        values[i - 1] + 1
                    }
                    &&& variants[i].discriminant matches Some(form) ==> match form {
                        ExprForm::Int(Ok(value)) => values[i] == value,
                        ExprForm::Negated(Ok(value)) => values[i] == -value,
                        _ => false,
                    }
                }
        }),
    decreases variants.len(),
{
    if variants.len() > 0 {
        let front = variants.drop_last();
        law_enum_values(front);
        let values = enum_values(variants)->Ok_0;
        let before = enum_values(front)->Ok_0;
        assert(values =~= before.push(values.last()));
        assert forall|i: int| 0 <= i < variants.len() implies {
            &&& (#[trigger] variants[i]).unit
            &&& values[i] < i64::MAX
            &&& variants[i].discriminant is None ==> values[i] == if i == 0 {
                0
            } else {
                values[i - 1] + 1
            }
            &&& variants[i].discriminant matches Some(form) ==> match form {
                ExprForm::Int(Ok(value)) => values[i] == value,
                ExprForm::Negated(Ok(value)) => values[i] == -value,
                _ => false,
            }
        } by {
            if i < front.len() {
                assert(front[i] == variants[i]);
                assert(values[i] == before[i]);
                if i > 0 {
                    assert(values[i - 1] == before[i - 1]);
                }
            } else {
                assert(variants[i] == variants.last());
            }
        }
    }
}

} // verus!
