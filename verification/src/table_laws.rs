//! What the SQL of a table comes to.
//!
//! The laws speak of a plan: for the name of a group type, the fields of the group.
use crate::args::TableArgs;
use crate::decl::FieldView;
use crate::expand_group::{
    field_names, group_cols, group_contribution, group_ddl, group_vals, optional_group,
};
use crate::fields::{FieldInfo, FieldKind, IndexView};
use crate::laws::{
    field_known, law_group_columns, law_group_definitions, law_pieces_concat, lemma_list_sql,
    lemma_one_piece, lines, parameters, plain, prefixed,
};
use crate::rules::{key_names, keys, Key};
use crate::sql::{
    column_entry, group_entry, null_qualifier, pieces_sql, CatalogView, Piece,
};
use crate::syntax::Chars;
use crate::table_sql::{
    create_pieces, create_tail, entries, field_parts, field_pieces, get_by_pieces, get_pieces,
    index_pieces, index_sql, insert_pieces, insert_start, insert_suffix, list_pieces,
    row_id_column, select_pieces, where_key, Part,
};
use crate::text::{concat, join, lemma_join_nested, replaced};
use vstd::prelude::*;

verus! {

/// The fields of each group type.
pub type Plan = spec_fn(Chars) -> Seq<FieldView>;

// ---------------------------------------------------------------------------
// What a field stands for
// ---------------------------------------------------------------------------

/// Whether the catalog has a group as the plan has it.
pub open spec fn group_known(ty: Chars, prefix: Chars, plan: Plan, catalog: CatalogView) -> bool {
    let fields = plan(ty);
    let entry = group_entry(catalog.groups, ty);
    &&& fields.len() > 0
    &&& plain(prefix)
    &&& forall|i: int| 0 <= i < fields.len() ==> field_known(#[trigger] fields[i], catalog)
    &&& entry is Some
    &&& Some(entry->Some_0.ddl) == pieces_sql(group_ddl(fields), catalog)
    &&& entry->Some_0.cols == group_cols(field_names(fields))
    &&& entry->Some_0.vals == group_vals(field_names(fields))
}

/// Whether the catalog has the type of a field.
pub open spec fn info_known(info: FieldInfo<Chars>, plan: Plan, catalog: CatalogView) -> bool {
    match info.kind {
        FieldKind::Column { ty, .. } => column_entry(catalog.columns, ty) is Some,
        FieldKind::Group { ty, prefix } => group_known(ty, prefix, plan, catalog),
        FieldKind::Via { raw_ty, prefix, .. } => group_known(raw_ty, prefix, plan, catalog),
    }
}

/// The columns of a field: its name, or for each field of its group the prefix and that field's
/// name.
pub open spec fn info_columns(info: FieldInfo<Chars>, plan: Plan) -> Seq<Chars> {
    match info.kind {
        FieldKind::Column { .. } => seq![info.name],
        FieldKind::Group { ty, prefix } => prefixed(field_names(plan(ty)), prefix),
        FieldKind::Via { raw_ty, prefix, .. } => prefixed(field_names(plan(raw_ty)), prefix),
    }
}

/// The definitions of the columns of a field. A column is ` NOT NULL` unless its type is nullable;
/// those of a group that is nullable itself are nullable all.
pub open spec fn info_lines(info: FieldInfo<Chars>, plan: Plan, catalog: CatalogView) -> Seq<Chars> {
    match info.kind {
        FieldKind::Column { ty, unique, .. } => {
            let entry = column_entry(catalog.columns, ty)->Some_0;
            let plain_line = "    "@ + info.name + " "@ + replaced(
                entry.sql_type,
                "{col}"@,
                info.name,
            ) + null_qualifier(entry.nullable);
            seq![
                if unique {
                    plain_line + " UNIQUE"@
                } else {
                    plain_line
                },
            ]
        },
        FieldKind::Group { ty, prefix } => lines(
            plan(ty),
            catalog,
            prefix,
            null_qualifier(group_entry(catalog.groups, ty)->Some_0.nullable),
        ),
        FieldKind::Via { raw_ty, prefix, .. } => lines(
            plan(raw_ty),
            catalog,
            prefix,
            " NOT NULL"@,
        ),
    }
}

/// The columns of all fields.
pub open spec fn table_columns(infos: Seq<FieldInfo<Chars>>, plan: Plan) -> Seq<Chars> {
    concat(infos.map_values(|info: FieldInfo<Chars>| info_columns(info, plan)))
}

/// The definitions of the columns of all fields.
pub open spec fn table_lines(
    infos: Seq<FieldInfo<Chars>>,
    plan: Plan,
    catalog: CatalogView,
) -> Seq<Chars> {
    concat(infos.map_values(|info: FieldInfo<Chars>| info_lines(info, plan, catalog)))
}

/// A group that is entered as it expands, or in its optional form, is known.
pub proof fn law_group_known(
    ty: Chars,
    optional: Chars,
    prefix: Chars,
    plan: Plan,
    catalog: CatalogView,
)
    requires
        plan(ty).len() > 0,
        plan(optional) == plan(ty),
        plain(prefix),
        forall|i: int| 0 <= i < plan(ty).len() ==> field_known(#[trigger] plan(ty)[i], catalog),
    ensures
        ({
            let entry = group_contribution(ty, plan(ty), catalog);
            &&& entry is Some
            &&& group_entry(catalog.groups, ty) == entry ==> group_known(ty, prefix, plan, catalog)
            &&& group_entry(catalog.groups, optional) == Some(
                optional_group(optional, entry->Some_0),
            ) ==> group_known(optional, prefix, plan, catalog)
        }),
{
    law_group_definitions(plan(ty), catalog, prefix, " NOT NULL"@);
}

/// The columns of an optional group are nullable, whatever the types of its fields: each definition
/// ends with the SQL type.
pub proof fn law_optional_nullable(
    ty: Chars,
    prefix: Chars,
    plan: Plan,
    catalog: CatalogView,
    info: FieldInfo<Chars>,
)
    requires
        info.kind == (FieldKind::Group { ty, prefix }),
        group_known(ty, prefix, plan, catalog),
        group_entry(catalog.groups, ty)->Some_0.nullable,
    ensures
        forall|i: int|
            0 <= i < plan(ty).len() ==> #[trigger] info_lines(info, plan, catalog)[i] == "    "@ + (
            prefix + plan(ty)[i].name) + " "@ + replaced(
                column_entry(catalog.columns, plan(ty)[i].ty)->Some_0.sql_type,
                "{col}"@,
                prefix + plan(ty)[i].name,
            ),
{
    reveal_strlit("");
    let all = info_lines(info, plan, catalog);
    assert forall|i: int| 0 <= i < plan(ty).len() implies #[trigger] all[i] == "    "@ + (prefix
        + plan(ty)[i].name) + " "@ + replaced(
        column_entry(catalog.columns, plan(ty)[i].ty)->Some_0.sql_type,
        "{col}"@,
        prefix + plan(ty)[i].name,
    ) by {
        assert(""@ =~= Seq::<char>::empty());
        let text = "    "@ + (prefix + plan(ty)[i].name) + " "@ + replaced(
            column_entry(catalog.columns, plan(ty)[i].ty)->Some_0.sql_type,
            "{col}"@,
            prefix + plan(ty)[i].name,
        );
        assert(text + Seq::<char>::empty() =~= text);
    }
}

/// What a field contributes to each list.
proof fn lemma_info(info: FieldInfo<Chars>, plan: Plan, catalog: CatalogView)
    requires
        info_known(info, plan, catalog),
    ensures
        info_columns(info, plan).len() > 0,
        info_lines(info, plan, catalog).len() == info_columns(info, plan).len(),
        pieces_sql(field_pieces(info, Part::Columns), catalog) == Some(
            join(info_columns(info, plan), ", "@),
        ),
        pieces_sql(field_pieces(info, Part::Values), catalog) == Some(
            join(parameters(info_columns(info, plan)), ", "@),
        ),
        pieces_sql(field_pieces(info, Part::Definition), catalog) == Some(
            join(info_lines(info, plan, catalog), ",\n"@),
        ),
{
    match info.kind {
        FieldKind::Column { ty, unique, .. } => {
            lemma_one_piece(Piece::Text(info.name), catalog);
            lemma_one_piece(Piece::Text(":"@ + info.name), catalog);
            assert(parameters(seq![info.name]) =~= seq![":"@ + info.name]);
            let pieces = field_pieces(info, Part::Definition);
            let one = seq![pieces[0]];
            let two = seq![pieces[1]];
            let three = seq![pieces[2]];
            lemma_one_piece(pieces[0], catalog);
            lemma_one_piece(pieces[1], catalog);
            lemma_one_piece(pieces[2], catalog);
            law_pieces_concat(one, two, catalog);
            law_pieces_concat(one + two, three, catalog);
            if unique {
                let four = seq![pieces[3]];
                lemma_one_piece(pieces[3], catalog);
                law_pieces_concat(one + two + three, four, catalog);
                assert(pieces =~= one + two + three + four);
            } else {
                assert(pieces =~= one + two + three);
            }
        },
        FieldKind::Group { ty, prefix } => {
            let nullable = group_entry(catalog.groups, ty)->Some_0.nullable;
            lemma_group_info(ty, prefix, null_qualifier(nullable), plan, catalog);
            lemma_one_piece(Piece::GroupCols { ty, prefix }, catalog);
            lemma_one_piece(Piece::GroupVals { ty, prefix }, catalog);
            lemma_one_piece(Piece::GroupDdl { ty, prefix }, catalog);
        },
        FieldKind::Via { raw_ty, prefix, .. } => {
            lemma_group_info(raw_ty, prefix, " NOT NULL"@, plan, catalog);
            lemma_one_piece(Piece::GroupCols { ty: raw_ty, prefix }, catalog);
            lemma_one_piece(Piece::GroupVals { ty: raw_ty, prefix }, catalog);
            lemma_one_piece(Piece::RequiredDdl { ty: raw_ty, prefix }, catalog);
        },
    }
}

/// What a group contributes to each list.
proof fn lemma_group_info(
    ty: Chars,
    prefix: Chars,
    qualifier: Chars,
    plan: Plan,
    catalog: CatalogView,
)
    requires
        group_known(ty, prefix, plan, catalog),
    ensures
        ({
            let entry = group_entry(catalog.groups, ty)->Some_0;
            let columns = prefixed(field_names(plan(ty)), prefix);
            &&& replaced(entry.cols, "{P}"@, prefix) == join(columns, ", "@)
            &&& replaced(entry.vals, "{P}"@, prefix) == join(parameters(columns), ", "@)
            &&& replaced(replaced(entry.ddl, "{P}"@, prefix), "{NN}"@, qualifier) == join(
                lines(plan(ty), catalog, prefix, qualifier),
                ",\n"@,
            )
        }),
{
    let names = field_names(plan(ty));
    assert forall|i: int| 0 <= i < names.len() implies plain(#[trigger] names[i]) by {
        assert(field_known(plan(ty)[i], catalog));
    }
    law_group_columns(names, prefix);
    law_group_definitions(plan(ty), catalog, prefix, qualifier);
}

/// Whether the catalog has the types of all fields.
pub open spec fn all_known(
    infos: Seq<FieldInfo<Chars>>,
    plan: Plan,
    catalog: CatalogView,
) -> bool {
    forall|i: int| 0 <= i < infos.len() ==> info_known(#[trigger] infos[i], plan, catalog)
}

// ---------------------------------------------------------------------------
// Lists
// ---------------------------------------------------------------------------

/// The parameters of lists one after the other.
pub proof fn lemma_parameters_concat(lists: Seq<Seq<Chars>>)
    ensures
        parameters(concat(lists)) == concat(
            lists.map_values(|list: Seq<Chars>| parameters(list)),
        ),
    decreases lists.len(),
{
    let mapped = lists.map_values(|list: Seq<Chars>| parameters(list));
    if lists.len() == 0 {
        assert(parameters(concat(lists)) =~= concat(mapped));
    } else {
        lemma_parameters_concat(lists.drop_last());
        assert(mapped.drop_last() =~= lists.drop_last().map_values(
            |list: Seq<Chars>| parameters(list),
        ));
        assert(parameters(concat(lists)) =~= concat(mapped));
    }
}

/// The list of the columns of all fields, and that of their parameters.
proof fn lemma_columns_sql(infos: Seq<FieldInfo<Chars>>, plan: Plan, catalog: CatalogView)
    requires
        all_known(infos, plan, catalog),
    ensures
        pieces_sql(list_pieces(None, infos, Part::Columns, ", "@), catalog) == Some(
            join(table_columns(infos, plan), ", "@),
        ),
        pieces_sql(list_pieces(None, infos, Part::Values, ", "@), catalog) == Some(
            join(parameters(table_columns(infos, plan)), ", "@),
        ),
{
    let columns = infos.map_values(|info: FieldInfo<Chars>| info_columns(info, plan));
    let values = columns.map_values(|list: Seq<Chars>| parameters(list));
    let column_texts = columns.map_values(|list: Seq<Chars>| join(list, ", "@));
    let value_texts = values.map_values(|list: Seq<Chars>| join(list, ", "@));
    let column_parts = field_parts(infos, Part::Columns);
    let value_parts = field_parts(infos, Part::Values);
    assert forall|i: int| 0 <= i < infos.len() implies pieces_sql(
        #[trigger] column_parts[i],
        catalog,
    ) == Some(column_texts[i]) && pieces_sql(value_parts[i], catalog) == Some(value_texts[i])
        && columns[i].len() > 0 by {
        assert(info_known(infos[i], plan, catalog));
        lemma_info(infos[i], plan, catalog);
    }
    assert forall|i: int| 0 <= i < infos.len() implies pieces_sql(
        #[trigger] value_parts[i],
        catalog,
    ) == Some(value_texts[i]) by {
        assert(pieces_sql(column_parts[i], catalog) == Some(column_texts[i]));
    }
    assert forall|i: int| 0 <= i < infos.len() implies (#[trigger] columns[i]).len() > 0 by {
        assert(pieces_sql(column_parts[i], catalog) == Some(column_texts[i]));
    }
    assert forall|i: int| 0 <= i < infos.len() implies (#[trigger] values[i]).len() > 0 by {
        assert(columns[i].len() > 0);
    }
    lemma_list_sql(column_parts, column_texts, ", "@, catalog);
    lemma_list_sql(value_parts, value_texts, ", "@, catalog);
    lemma_join_nested(columns, ", "@);
    lemma_join_nested(values, ", "@);
    lemma_parameters_concat(columns);
}

/// The definitions of a table: that of its row identifier, if it has one, and those of all
/// columns.
pub open spec fn definitions(
    args: TableArgs<Chars>,
    infos: Seq<FieldInfo<Chars>>,
    plan: Plan,
    catalog: CatalogView,
) -> Seq<Chars> {
    match row_id_column(args) {
        Some(first) => seq![first] + table_lines(infos, plan, catalog),
        None => table_lines(infos, plan, catalog),
    }
}

/// A list before all others comes first.
proof fn lemma_concat_first<T>(first: Seq<T>, lists: Seq<Seq<T>>)
    ensures
        concat(seq![first] + lists) == first + concat(lists),
    decreases lists.len(),
{
    let all = seq![first] + lists;
    if lists.len() == 0 {
        reveal_with_fuel(concat, 2);
        assert(all.drop_last() =~= Seq::empty());
        assert(concat(all) =~= first + concat(lists));
    } else {
        assert(all.drop_last() =~= seq![first] + lists.drop_last());
        lemma_concat_first(first, lists.drop_last());
        assert(concat(all) =~= first + concat(lists));
    }
}

/// The list of definitions.
proof fn lemma_definitions_sql(
    args: TableArgs<Chars>,
    infos: Seq<FieldInfo<Chars>>,
    plan: Plan,
    catalog: CatalogView,
)
    requires
        all_known(infos, plan, catalog),
    ensures
        pieces_sql(
            list_pieces(row_id_column(args), infos, Part::Definition, ",\n"@),
            catalog,
        ) == Some(join(definitions(args, infos, plan, catalog), ",\n"@)),
{
    let sep = ",\n"@;
    let lists = infos.map_values(|info: FieldInfo<Chars>| info_lines(info, plan, catalog));
    let parts = field_parts(infos, Part::Definition);
    assert forall|i: int| 0 <= i < infos.len() implies pieces_sql(#[trigger] parts[i], catalog)
        == Some(join(lists[i], sep)) by {
        assert(info_known(infos[i], plan, catalog));
        lemma_info(infos[i], plan, catalog);
    }
    assert forall|i: int| 0 <= i < infos.len() implies (#[trigger] lists[i]).len() > 0 by {
        assert(info_known(infos[i], plan, catalog));
        lemma_info(infos[i], plan, catalog);
    }
    let first = row_id_column(args);
    let all = match first {
        Some(text) => seq![seq![text]] + lists,
        None => lists,
    };
    let all_parts = entries(first, infos, Part::Definition);
    let texts = all.map_values(|list: Seq<Chars>| join(list, sep));
    assert forall|i: int| 0 <= i < all_parts.len() implies pieces_sql(
        #[trigger] all_parts[i],
        catalog,
    ) == Some(texts[i]) by {
        match first {
            Some(text) => {
                if i == 0 {
                    lemma_one_piece(Piece::Text(text), catalog);
                } else {
                    assert(all_parts[i] == parts[i - 1]);
                    assert(all[i] == lists[i - 1]);
                }
            },
            None => {
                assert(all_parts[i] == parts[i]);
            },
        }
    }
    assert forall|i: int| 0 <= i < all.len() implies (#[trigger] all[i]).len() > 0 by {
        if let Some(text) = first {
            if i > 0 {
                assert(all[i] == lists[i - 1]);
            }
        } else {
            assert(all[i] == lists[i]);
        }
    }
    lemma_list_sql(all_parts, texts, sep, catalog);
    lemma_join_nested(all, sep);
    if let Some(text) = first {
        lemma_concat_first(seq![text], lists);
    }
}

// ---------------------------------------------------------------------------
// Statements
// ---------------------------------------------------------------------------

/// The text of `SELECT`.
pub open spec fn select_sql(
    args: TableArgs<Chars>,
    infos: Seq<FieldInfo<Chars>>,
    plan: Plan,
) -> Chars {
    "SELECT "@ + join(table_columns(infos, plan), ", "@) + (" FROM "@ + args.table)
}

/// `SELECT` names the columns of all fields, in their order.
pub proof fn law_select(
    args: TableArgs<Chars>,
    infos: Seq<FieldInfo<Chars>>,
    plan: Plan,
    catalog: CatalogView,
)
    requires
        all_known(infos, plan, catalog),
    ensures
        pieces_sql(select_pieces(args, infos), catalog) == Some(select_sql(args, infos, plan)),
{
    let start = seq![Piece::Text("SELECT "@)];
    let list = list_pieces(None, infos, Part::Columns, ", "@);
    let end = seq![Piece::Text(" FROM "@ + args.table)];
    lemma_columns_sql(infos, plan, catalog);
    lemma_one_piece(start[0], catalog);
    lemma_one_piece(end[0], catalog);
    law_pieces_concat(start, list, catalog);
    law_pieces_concat(start + list, end, catalog);
}

/// `INSERT` names the same columns as `SELECT`, and binds to each the parameter with its name.
pub proof fn law_insert(
    args: TableArgs<Chars>,
    infos: Seq<FieldInfo<Chars>>,
    plan: Plan,
    catalog: CatalogView,
)
    requires
        all_known(infos, plan, catalog),
    ensures
        pieces_sql(insert_pieces(args, infos), catalog) == Some(
            insert_start(args, keys(infos, false)) + join(table_columns(infos, plan), ", "@)
                + ") VALUES ("@ + join(
                parameters(table_columns(infos, plan)),
                ", "@,
            ) + insert_suffix(args, keys(infos, false), keys(infos, true)),
        ),
{
    let start = seq![Piece::Text(insert_start(args, keys(infos, false)))];
    let columns = list_pieces(None, infos, Part::Columns, ", "@);
    let middle = seq![Piece::Text(") VALUES ("@)];
    let values = list_pieces(None, infos, Part::Values, ", "@);
    let end = seq![Piece::Text(insert_suffix(args, keys(infos, false), keys(infos, true)))];
    lemma_columns_sql(infos, plan, catalog);
    lemma_one_piece(start[0], catalog);
    lemma_one_piece(middle[0], catalog);
    lemma_one_piece(end[0], catalog);
    law_pieces_concat(start, columns, catalog);
    law_pieces_concat(start + columns, middle, catalog);
    law_pieces_concat(start + columns + middle, values, catalog);
    law_pieces_concat(start + columns + middle + values, end, catalog);
}

/// Where rows are not numbered and the time of the last write is not kept, `INSERT` of a table with a
/// primary key leaves out a row that exists, and that of a table without one does nothing on a
/// conflict.
pub proof fn law_insert_ignores(
    args: TableArgs<Chars>,
    infos: Seq<FieldInfo<Chars>>,
    plan: Plan,
    catalog: CatalogView,
)
    requires
        all_known(infos, plan, catalog),
        !args.auto_primary_key,
        !args.track_last_update,
    ensures
        keys(infos, false).len() > 0 ==> pieces_sql(insert_pieces(args, infos), catalog) == Some(
            "INSERT OR IGNORE INTO "@ + args.table + " ("@ + join(
                table_columns(infos, plan),
                ", "@,
            ) + ") VALUES ("@ + join(parameters(table_columns(infos, plan)), ", "@) + ")"@,
        ),
        keys(infos, false).len() == 0 ==> pieces_sql(insert_pieces(args, infos), catalog) == Some(
            "INSERT INTO "@ + args.table + " ("@ + join(table_columns(infos, plan), ", "@)
                + ") VALUES ("@ + join(parameters(table_columns(infos, plan)), ", "@)
                + ") ON CONFLICT DO NOTHING"@,
        ),
{
    law_insert(args, infos, plan, catalog);
}

/// The query by the primary key is `SELECT` and a condition on each column of the key.
pub proof fn law_get(
    args: TableArgs<Chars>,
    infos: Seq<FieldInfo<Chars>>,
    plan: Plan,
    catalog: CatalogView,
)
    requires
        all_known(infos, plan, catalog),
    ensures
        pieces_sql(get_pieces(args, infos), catalog) == Some(
            select_sql(args, infos, plan) + where_key(keys(infos, false)),
        ),
{
    law_select(args, infos, plan, catalog);
    assert(get_pieces(args, infos).drop_last() =~= select_pieces(args, infos));
}

/// The query by a unique column names all columns and the row identifier.
pub proof fn law_get_by(
    args: TableArgs<Chars>,
    infos: Seq<FieldInfo<Chars>>,
    key: Key<Chars>,
    plan: Plan,
    catalog: CatalogView,
)
    requires
        all_known(infos, plan, catalog),
    ensures
        pieces_sql(get_by_pieces(args.table, infos, key), catalog) == Some(
            "SELECT "@ + join(table_columns(infos, plan), ", "@) + ", row_id FROM "@ + args.table
                + (" WHERE "@ + key.name + " = ?1"@),
        ),
{
    let start = seq![Piece::Text("SELECT "@)];
    let list = list_pieces(None, infos, Part::Columns, ", "@);
    let one = seq![Piece::Text(", row_id FROM "@)];
    let two = seq![Piece::Text(args.table)];
    let three = seq![Piece::Text(" WHERE "@ + key.name + " = ?1"@)];
    lemma_columns_sql(infos, plan, catalog);
    lemma_one_piece(start[0], catalog);
    lemma_one_piece(one[0], catalog);
    lemma_one_piece(two[0], catalog);
    lemma_one_piece(three[0], catalog);
    law_pieces_concat(start, list, catalog);
    law_pieces_concat(start + list, one, catalog);
    law_pieces_concat(start + list + one, two, catalog);
    law_pieces_concat(start + list + one + two, three, catalog);
    assert(get_by_pieces(args.table, infos, key) =~= start + list + one + two + three);
}

/// The text between the definitions and the end of `CREATE TABLE`.
pub open spec fn tail_sql(args: TableArgs<Chars>, primary: Seq<Key<Chars>>) -> Chars {
    let stamp = if args.track_last_update {
        ",\n    __last_written_ms INTEGER NOT NULL DEFAULT (unixepoch('now') * 1000)"@
    } else {
        ""@
    };
    let key = if primary.len() > 0 {
        ",\n    PRIMARY KEY ("@ + join(key_names(primary), ", "@) + ")"@
    } else {
        ""@
    };
    stamp + key + "\n);\n"@
}

/// The end of `CREATE TABLE`.
proof fn lemma_tail_sql(args: TableArgs<Chars>, primary: Seq<Key<Chars>>, catalog: CatalogView)
    ensures
        pieces_sql(create_tail(args, primary), catalog) == Some(tail_sql(args, primary)),
{
    reveal_strlit("");
    let stamp = if args.track_last_update {
        seq![
            Piece::Text(
                ",\n    __last_written_ms INTEGER NOT NULL DEFAULT (unixepoch('now') * 1000)"@,
            ),
        ]
    } else {
        Seq::empty()
    };
    if args.track_last_update {
        lemma_one_piece(stamp[0], catalog);
    } else {
        assert(""@ =~= Seq::<char>::empty());
    }
    let close = Piece::Text("\n);\n"@);
    lemma_one_piece(close, catalog);
    let stamped = pieces_sql(stamp, catalog)->Some_0;
    if primary.len() > 0 {
        let key = Piece::Text(",\n    PRIMARY KEY ("@ + join(key_names(primary), ", "@) + ")"@);
        lemma_one_piece(key, catalog);
        law_pieces_concat(stamp, seq![key], catalog);
        law_pieces_concat(stamp + seq![key], seq![close], catalog);
        assert(create_tail(args, primary) =~= stamp + seq![key] + seq![close]);
    } else {
        law_pieces_concat(stamp, seq![close], catalog);
        assert(create_tail(args, primary) =~= stamp + seq![close]);
        assert(stamped + ""@ =~= stamped);
    }
}

/// The statements that create indexes.
pub open spec fn indexes_sql(table: Chars, indexes: Seq<IndexView>) -> Chars {
    concat(indexes.map_values(|index: IndexView| index_sql(table, index)))
}

/// The statements that create indexes follow one after the other.
proof fn lemma_indexes_sql(table: Chars, indexes: Seq<IndexView>, catalog: CatalogView)
    ensures
        pieces_sql(index_pieces(table, indexes), catalog) == Some(indexes_sql(table, indexes)),
    decreases indexes.len(),
{
    if indexes.len() > 0 {
        let front = indexes.drop_last();
        lemma_indexes_sql(table, front, catalog);
        assert(index_pieces(table, indexes).drop_last() =~= index_pieces(table, front));
        assert(indexes.map_values(|index: IndexView| index_sql(table, index)).drop_last()
            =~= front.map_values(|index: IndexView| index_sql(table, index)));
    }
}

/// `CREATE TABLE` defines the row identifier, if the table has one, and the columns of all fields,
/// in their order; then the time of the last write, if it is kept, and the primary key, if there
/// is one. The statements that create the indexes follow.
pub proof fn law_create_table(
    args: TableArgs<Chars>,
    infos: Seq<FieldInfo<Chars>>,
    indexes: Seq<IndexView>,
    plan: Plan,
    catalog: CatalogView,
)
    requires
        all_known(infos, plan, catalog),
    ensures
        pieces_sql(create_pieces(args, infos, indexes), catalog) == Some(
            "CREATE TABLE IF NOT EXISTS "@ + args.table + " (\n"@ + join(
                definitions(args, infos, plan, catalog),
                ",\n"@,
            ) + tail_sql(args, keys(infos, false)) + indexes_sql(args.table, indexes),
        ),
{
    let start = seq![Piece::Text("CREATE TABLE IF NOT EXISTS "@ + args.table + " (\n"@)];
    let list = list_pieces(row_id_column(args), infos, Part::Definition, ",\n"@);
    let tail = create_tail(args, keys(infos, false));
    let more = index_pieces(args.table, indexes);
    lemma_one_piece(start[0], catalog);
    lemma_definitions_sql(args, infos, plan, catalog);
    lemma_tail_sql(args, keys(infos, false), catalog);
    lemma_indexes_sql(args.table, indexes, catalog);
    law_pieces_concat(start, list, catalog);
    law_pieces_concat(start + list, tail, catalog);
    law_pieces_concat(start + list + tail, more, catalog);
}

} // verus!
