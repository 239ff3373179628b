//! What the pieces of a statement are, as code and as text.
use crate::args::TableArgs;
use crate::fields::{FieldInfo, FieldKind, IndexView};
use crate::laws::parameters;
use crate::outside::string_literal;
use crate::role_laws::law_keys;
use crate::rules::{key_names, keys, Key};
use crate::sql::{
    column_entry, group_entry, nn_placeholder, null_qualifier, piece_code, piece_sql, pieces_code,
    pieces_sql, table_entry, CatalogView, ColumnEntry, GroupEntry, Piece, TableEntry,
    COLUMN_PLACEHOLDER, COLUMN_QUALIFIER, COLUMN_TYPE, CREATE_TABLE, GROUP_COLS, GROUP_DDL,
    GROUP_VALS, REQUIRED_DDL,
};
use crate::syntax::Chars;
use crate::table_laws::{
    all_known, law_create_table, law_get, law_insert, select_sql, table_columns, table_lines, Plan,
};
use crate::table_sql::{
    create_pieces, field_parts, field_pieces, get_pieces, index_names, index_pieces, index_sql,
    insert_pieces, insert_start, insert_suffix, key_condition, list_pieces, row_id_column,
    select_pieces, where_key, Part,
};
use crate::text::{concat, fill, join, numeral, replaced};
use crate::text_laws::law_join;
use vstd::prelude::*;

verus! {

// ---------------------------------------------------------------------------
// Pieces
// ---------------------------------------------------------------------------

/// The code of each piece: a text is a literal of it, and every other piece names its type, and its
/// column or prefix as a literal.
pub proof fn law_piece_code(ty: Chars, text: Chars)
    ensures
        piece_code(Piece::Text(text)) == string_literal(text),
        piece_code(Piece::ColumnType { ty, column: text }) == fill(
            COLUMN_TYPE@,
            seq![ty, string_literal(text)],
        ),
        piece_code(Piece::ColumnQualifier { ty }) == fill(COLUMN_QUALIFIER@, seq![ty]),
        piece_code(Piece::ColumnPlaceholder { ty }) == fill(COLUMN_PLACEHOLDER@, seq![ty]),
        piece_code(Piece::GroupDdl { ty, prefix: text }) == fill(
            GROUP_DDL@,
            seq![ty, string_literal(text), ty],
        ),
        piece_code(Piece::RequiredDdl { ty, prefix: text }) == fill(
            REQUIRED_DDL@,
            seq![ty, string_literal(text)],
        ),
        piece_code(Piece::GroupCols { ty, prefix: text }) == fill(
            GROUP_COLS@,
            seq![ty, string_literal(text)],
        ),
        piece_code(Piece::GroupVals { ty, prefix: text }) == fill(
            GROUP_VALS@,
            seq![ty, string_literal(text)],
        ),
        piece_code(Piece::CreateTable { ty }) == fill(CREATE_TABLE@, seq![ty]),
{
}

/// Pieces are written in their order, with a comma and a space between each two.
pub proof fn law_pieces_code(pieces: Seq<Piece<Chars>>, last: Piece<Chars>)
    ensures
        pieces_code(Seq::<Piece<Chars>>::empty()) == Seq::<char>::empty(),
        pieces_code(seq![last]) == piece_code(last),
        pieces.len() > 0 ==> pieces_code(pieces.push(last)) == pieces_code(pieces) + ", "@
            + piece_code(last),
{
    let codes = Seq::new(pieces.len(), |i: int| piece_code(pieces[i]));
    let all = pieces.push(last);
    law_join(codes, ", "@, piece_code(last));
    assert(Seq::new(all.len(), |i: int| piece_code(all[i])) =~= codes.push(piece_code(last)));
    assert(Seq::new(1, |i: int| piece_code(seq![last][i])) =~= seq![piece_code(last)]);
    assert(Seq::new(0, |i: int| piece_code(Seq::<Piece<Chars>>::empty()[i])) =~= Seq::empty());
}

/// The text of each piece: a text is itself, and every other piece is what the entry of its type
/// says, with the name of the column or the prefix put in its place.
pub proof fn law_piece_sql(ty: Chars, text: Chars, catalog: CatalogView)
    ensures
        piece_sql(Piece::Text(text), catalog) == Some(text),
        column_entry(catalog.columns, ty) matches Some(entry) ==> {
            &&& piece_sql(Piece::ColumnType { ty, column: text }, catalog) == Some(
                replaced(entry.sql_type, "{col}"@, text),
            )
            &&& piece_sql(Piece::ColumnQualifier { ty }, catalog) == Some(
                if entry.nullable {
                    ""@
                } else {
                    " NOT NULL"@
                },
            )
            &&& piece_sql(Piece::ColumnPlaceholder { ty }, catalog) == Some(
                if entry.nullable {
                    ""@
                } else {
                    "{NN}"@
                },
            )
        },
        column_entry(catalog.columns, ty) is None ==> {
            &&& piece_sql(Piece::ColumnType { ty, column: text }, catalog) is None
            &&& piece_sql(Piece::ColumnQualifier { ty }, catalog) is None
            &&& piece_sql(Piece::ColumnPlaceholder { ty }, catalog) is None
        },
        group_entry(catalog.groups, ty) matches Some(entry) ==> {
            let ddl = replaced(entry.ddl, "{P}"@, text);
            &&& piece_sql(Piece::GroupDdl { ty, prefix: text }, catalog) == Some(
                replaced(
                    ddl,
                    "{NN}"@,
                    if entry.nullable {
                        ""@
                    } else {
                        " NOT NULL"@
                    },
                ),
            )
            &&& piece_sql(Piece::RequiredDdl { ty, prefix: text }, catalog) == Some(
                replaced(ddl, "{NN}"@, " NOT NULL"@),
            )
            &&& piece_sql(Piece::GroupCols { ty, prefix: text }, catalog) == Some(
                replaced(entry.cols, "{P}"@, text),
            )
            &&& piece_sql(Piece::GroupVals { ty, prefix: text }, catalog) == Some(
                replaced(entry.vals, "{P}"@, text),
            )
        },
        group_entry(catalog.groups, ty) is None ==> {
            &&& piece_sql(Piece::GroupDdl { ty, prefix: text }, catalog) is None
            &&& piece_sql(Piece::RequiredDdl { ty, prefix: text }, catalog) is None
            &&& piece_sql(Piece::GroupCols { ty, prefix: text }, catalog) is None
            &&& piece_sql(Piece::GroupVals { ty, prefix: text }, catalog) is None
        },
        table_entry(catalog.tables, ty) matches Some(entry) ==> piece_sql(
            Piece::CreateTable { ty },
            catalog,
        ) == Some(entry.create_table),
        table_entry(catalog.tables, ty) is None ==> piece_sql(
            Piece::CreateTable { ty },
            catalog,
        ) is None,
        null_qualifier(true) == ""@,
        null_qualifier(false) == " NOT NULL"@,
        nn_placeholder(true) == ""@,
        nn_placeholder(false) == "{NN}"@,
{
}

/// The text of pieces is that of each, one after the other; there is none if one has none.
pub proof fn law_pieces_sql(pieces: Seq<Piece<Chars>>, last: Piece<Chars>, catalog: CatalogView)
    ensures
        pieces_sql(Seq::<Piece<Chars>>::empty(), catalog) == Some(Seq::<char>::empty()),
        pieces_sql(pieces, catalog) is None || piece_sql(last, catalog) is None ==> pieces_sql(
            pieces.push(last),
            catalog,
        ) is None,
        pieces_sql(pieces, catalog) matches Some(front) ==> (piece_sql(last, catalog) matches Some(
            end,
        ) ==> pieces_sql(pieces.push(last), catalog) == Some(front + end)),
{
    assert(pieces.push(last).drop_last() =~= pieces);
}

// ---------------------------------------------------------------------------
// Catalogs
// ---------------------------------------------------------------------------

/// The entry of a column type is the first that has its name, and there is none if none has.
pub proof fn law_column_entry(columns: Seq<ColumnEntry<Chars>>, ty: Chars, at: int)
    requires
        0 <= at <= columns.len(),
        forall|i: int| 0 <= i < at ==> (#[trigger] columns[i]).ty != ty,
        at < columns.len() ==> columns[at].ty == ty,
    ensures
        column_entry(columns, ty) == if at < columns.len() {
            Some(columns[at])
        } else {
            None
        },
    decreases at,
{
    if at > 0 {
        let rest = columns.drop_first();
        assert(columns[0].ty != ty);
        assert forall|i: int| 0 <= i < at - 1 implies (#[trigger] rest[i]).ty != ty by {
            assert(rest[i] == columns[i + 1]);
        }
        law_column_entry(rest, ty, at - 1);
    }
}

/// The entry of a group type is the first that has its name, and there is none if none has.
pub proof fn law_group_entry(groups: Seq<GroupEntry<Chars>>, ty: Chars, at: int)
    requires
        0 <= at <= groups.len(),
        forall|i: int| 0 <= i < at ==> (#[trigger] groups[i]).ty != ty,
        at < groups.len() ==> groups[at].ty == ty,
    ensures
        group_entry(groups, ty) == if at < groups.len() {
            Some(groups[at])
        } else {
            None
        },
    decreases at,
{
    if at > 0 {
        let rest = groups.drop_first();
        assert(groups[0].ty != ty);
        assert forall|i: int| 0 <= i < at - 1 implies (#[trigger] rest[i]).ty != ty by {
            assert(rest[i] == groups[i + 1]);
        }
        law_group_entry(rest, ty, at - 1);
    }
}

/// The entry of a table is the first that has its name, and there is none if none has.
pub proof fn law_table_entry(tables: Seq<TableEntry<Chars>>, ty: Chars, at: int)
    requires
        0 <= at <= tables.len(),
        forall|i: int| 0 <= i < at ==> (#[trigger] tables[i]).ty != ty,
        at < tables.len() ==> tables[at].ty == ty,
    ensures
        table_entry(tables, ty) == if at < tables.len() {
            Some(tables[at])
        } else {
            None
        },
    decreases at,
{
    if at > 0 {
        let rest = tables.drop_first();
        assert(tables[0].ty != ty);
        assert forall|i: int| 0 <= i < at - 1 implies (#[trigger] rest[i]).ty != ty by {
            assert(rest[i] == tables[i + 1]);
        }
        law_table_entry(rest, ty, at - 1);
    }
}

// ---------------------------------------------------------------------------
// Lists
// ---------------------------------------------------------------------------

/// What a field adds to each list: a plain column its definition, its name and the parameter with
/// its name; a group those of the group with its prefix; and a field that converts those of the
/// group it converts to, whose columns are never absent.
pub proof fn law_field_pieces(info: FieldInfo<Chars>)
    ensures
        match info.kind {
            FieldKind::Column { unique, ty, .. } => {
                let start = seq![
                    Piece::Text("    "@ + info.name + " "@),
                    Piece::ColumnType { ty, column: info.name },
                    Piece::ColumnQualifier { ty },
                ];
                &&& field_pieces(info, Part::Definition) == if unique {
                    start + seq![Piece::Text(" UNIQUE"@)]
                } else {
                    start
                }
                &&& field_pieces(info, Part::Columns) == seq![Piece::Text(info.name)]
                &&& field_pieces(info, Part::Values) == seq![Piece::Text(":"@ + info.name)]
            },
            FieldKind::Group { ty, prefix } => {
                &&& field_pieces(info, Part::Definition) == seq![Piece::GroupDdl { ty, prefix }]
                &&& field_pieces(info, Part::Columns) == seq![Piece::GroupCols { ty, prefix }]
                &&& field_pieces(info, Part::Values) == seq![Piece::GroupVals { ty, prefix }]
            },
            FieldKind::Via { raw_ty, prefix, .. } => {
                &&& field_pieces(info, Part::Definition) == seq![
                    Piece::RequiredDdl { ty: raw_ty, prefix },
                ]
                &&& field_pieces(info, Part::Columns) == seq![
                    Piece::GroupCols { ty: raw_ty, prefix },
                ]
                &&& field_pieces(info, Part::Values) == seq![
                    Piece::GroupVals { ty: raw_ty, prefix },
                ]
            },
        },
{
}

/// A list has what each field adds, in the order of the fields, with a separator between each two;
/// a text that comes first has a separator behind it as well.
pub proof fn law_list(
    infos: Seq<FieldInfo<Chars>>,
    info: FieldInfo<Chars>,
    text: Chars,
    part: Part,
    separator: Chars,
)
    ensures
        list_pieces(None, Seq::empty(), part, separator) == Seq::<Piece<Chars>>::empty(),
        list_pieces(Some(text), Seq::empty(), part, separator) == seq![Piece::Text(text)],
        list_pieces(None, seq![info], part, separator) == field_pieces(info, part),
        infos.len() > 0 ==> list_pieces(None, infos.push(info), part, separator) == list_pieces(
            None,
            infos,
            part,
            separator,
        ) + seq![Piece::Text(separator)] + field_pieces(info, part),
        list_pieces(Some(text), infos.push(info), part, separator) == list_pieces(
            Some(text),
            infos,
            part,
            separator,
        ) + seq![Piece::Text(separator)] + field_pieces(info, part),
{
    let sep = seq![Piece::Text(separator)];
    let more = field_pieces(info, part);
    let parts = field_parts(infos, part);
    let first = seq![seq![Piece::Text(text)]];
    assert(field_parts(infos.push(info), part) =~= parts.push(more));
    assert(field_parts(seq![info], part) =~= seq![more]);
    assert(field_parts(Seq::empty(), part) =~= Seq::empty());
    law_join(parts, sep, more);
    law_join(first + parts, sep, more);
    law_join(first, sep, seq![Piece::Text(text)]);
    assert((first + parts).push(more) =~= first + parts.push(more));
    assert(first + Seq::<Seq<Piece<Chars>>>::empty() =~= first);
}

// ---------------------------------------------------------------------------
// Statements
// ---------------------------------------------------------------------------

/// The statements of a table around its lists, whatever its fields are.
pub proof fn law_statement_pieces(
    args: TableArgs<Chars>,
    infos: Seq<FieldInfo<Chars>>,
    indexes: Seq<IndexView>,
)
    ensures
        ({
            let columns = list_pieces(None, infos, Part::Columns, ", "@);
            let values = list_pieces(None, infos, Part::Values, ", "@);
            let first = if args.auto_primary_key {
                Some("    row_id INTEGER PRIMARY KEY"@)
            } else {
                None
            };
            let stamp = if args.track_last_update {
                seq![
                    Piece::Text(
                        ",\n    __last_written_ms INTEGER NOT NULL DEFAULT (unixepoch('now') * 1000)"@,
                    ),
                ]
            } else {
                Seq::empty()
            };
            let primary = keys(infos, false);
            let key = if primary.len() > 0 {
                seq![
                    Piece::Text(
                        ",\n    PRIMARY KEY ("@ + join(
                            Seq::new(primary.len(), |i: int| primary[i].name),
                            ", "@,
                        ) + ")"@,
                    ),
                ]
            } else {
                Seq::empty()
            };
            &&& select_pieces(args, infos) == seq![Piece::Text("SELECT "@)] + columns + seq![
                Piece::Text(" FROM "@ + args.table),
            ]
            &&& insert_pieces(args, infos) == seq![
                Piece::Text(insert_start(args, keys(infos, false))),
            ] + columns + seq![Piece::Text(") VALUES ("@)] + values + seq![
                Piece::Text(insert_suffix(args, keys(infos, false), keys(infos, true))),
            ]
            &&& create_pieces(args, infos, indexes) == seq![
                Piece::Text("CREATE TABLE IF NOT EXISTS "@ + args.table + " (\n"@),
            ] + list_pieces(first, infos, Part::Definition, ",\n"@) + stamp + key + seq![
                Piece::Text("\n);\n"@),
            ] + Seq::new(indexes.len(), |i: int| Piece::Text(index_sql(args.table, indexes[i])))
        }),
{
    let primary = keys(infos, false);
    assert(key_names(primary) =~= Seq::new(primary.len(), |i: int| primary[i].name));
    assert(index_pieces(args.table, indexes) =~= Seq::new(
        indexes.len(),
        |i: int| Piece::Text(index_sql(args.table, indexes[i])),
    ));
}

/// The names of the fields that a key is made of.
pub open spec fn names_at(infos: Seq<FieldInfo<Chars>>, list: Seq<Key<Chars>>) -> Seq<Chars> {
    Seq::new(list.len(), |i: int| infos[list[i].field as int].name)
}

/// The names of the keys of a table are those of the fields.
proof fn lemma_names_at(infos: Seq<FieldInfo<Chars>>, unique: bool)
    requires
        infos.len() <= usize::MAX,
    ensures
        key_names(keys(infos, unique)) == names_at(infos, keys(infos, unique)),
{
    law_keys(infos, unique);
    let list = keys(infos, unique);
    assert forall|i: int| 0 <= i < list.len() implies #[trigger] key_names(list)[i] == names_at(
        infos,
        list,
    )[i] by {
        assert(list[i].name == infos[list[i].field as int].name);
    }
    assert(key_names(list) =~= names_at(infos, list));
}

/// The statement that creates an index is named after its table and its columns, and indexes those
/// columns of that table in their order.
pub proof fn law_index(table: Chars, index: IndexView)
    ensures
        ({
            let names = Seq::new(index.columns.len(), |i: int| index.columns[i].name);
            let rest = "INDEX IF NOT EXISTS "@ + "idx_"@ + table + "_"@ + join(names, "_"@)
                + " ON "@ + table + " ("@ + join(names, ", "@) + ");\n"@;
            index_sql(table, index) == if index.unique {
                "CREATE UNIQUE "@ + rest
            } else {
                "CREATE "@ + rest
            }
        }),
{
    let names = Seq::new(index.columns.len(), |i: int| index.columns[i].name);
    assert(index_names(index) =~= names);
    reveal_strlit("CREATE ");
    reveal_strlit("UNIQUE ");
    reveal_strlit("CREATE UNIQUE ");
    reveal_strlit("");
    let rest = "INDEX IF NOT EXISTS "@ + "idx_"@ + table + "_"@ + join(names, "_"@) + " ON "@
        + table + " ("@ + join(names, ", "@) + ");\n"@;
    assert("CREATE UNIQUE "@ =~= "CREATE "@ + "UNIQUE "@);
    if index.unique {
        assert(index_sql(table, index) =~= "CREATE UNIQUE "@ + rest);
    } else {
        assert(index_sql(table, index) =~= "CREATE "@ + rest);
    }
}

/// The whole text of `CREATE TABLE`: the row identifier if the database numbers the rows, the
/// columns of the fields, the time of the last write if it is kept, and the fields of the primary
/// key if there is one; then the statement of each index.
pub proof fn law_create_table_text(
    args: TableArgs<Chars>,
    infos: Seq<FieldInfo<Chars>>,
    indexes: Seq<IndexView>,
    plan: Plan,
    catalog: CatalogView,
)
    requires
        all_known(infos, plan, catalog),
        infos.len() <= usize::MAX,
    ensures
        ({
            let lines = table_lines(infos, plan, catalog);
            let definitions = if args.auto_primary_key {
                seq!["    row_id INTEGER PRIMARY KEY"@] + lines
            } else {
                lines
            };
            let stamp = if args.track_last_update {
                ",\n    __last_written_ms INTEGER NOT NULL DEFAULT (unixepoch('now') * 1000)"@
            } else {
                ""@
            };
            let primary = names_at(infos, keys(infos, false));
            let key = if primary.len() > 0 {
                ",\n    PRIMARY KEY ("@ + join(primary, ", "@) + ")"@
            } else {
                ""@
            };
            pieces_sql(create_pieces(args, infos, indexes), catalog) == Some(
                "CREATE TABLE IF NOT EXISTS "@ + args.table + " (\n"@ + join(definitions, ",\n"@)
                    + (stamp + key + "\n);\n"@) + concat(
                    Seq::new(indexes.len(), |i: int| index_sql(args.table, indexes[i])),
                ),
            )
        }),
{
    law_create_table(args, infos, indexes, plan, catalog);
    lemma_names_at(infos, false);
    assert(indexes.map_values(|index: IndexView| index_sql(args.table, index)) =~= Seq::new(
        indexes.len(),
        |i: int| index_sql(args.table, indexes[i]),
    ));
    assert(row_id_column(args) is Some <==> args.auto_primary_key);
}

/// The whole text of `INSERT`: the columns of all fields and the parameters with their names, and
/// what to do when the row exists. Numbered rows conflict on the unique fields and give back their
/// number; rows whose last write is kept conflict on the primary key; other rows that exist are
/// left as they are.
pub proof fn law_insert_text(
    args: TableArgs<Chars>,
    infos: Seq<FieldInfo<Chars>>,
    plan: Plan,
    catalog: CatalogView,
)
    requires
        all_known(infos, plan, catalog),
        infos.len() <= usize::MAX,
    ensures
        ({
            let columns = table_columns(infos, plan);
            let values = Seq::new(columns.len(), |i: int| ":"@ + columns[i]);
            let primary = names_at(infos, keys(infos, false));
            let unique = names_at(infos, keys(infos, true));
            let rest = args.table + " ("@ + join(columns, ", "@) + ") VALUES ("@ + join(
                values,
                ", "@,
            );
            let stamp = "__last_written_ms = MAX(__last_written_ms, unixepoch('now') * 1000)"@;
            let auto = args.auto_primary_key;
            let track = args.track_last_update;
            let text = pieces_sql(insert_pieces(args, infos), catalog);
            &&& auto && unique.len() == 0 ==> text == Some(
                "INSERT INTO "@ + rest + ") ON CONFLICT DO NOTHING RETURNING row_id"@,
            )
            &&& auto && unique.len() > 0 && !track ==> text == Some(
                "INSERT INTO "@ + rest + ") ON CONFLICT("@ + join(unique, ", "@)
                    + ") DO UPDATE SET "@ + "row_id = row_id"@ + " RETURNING row_id"@,
            )
            &&& auto && unique.len() > 0 && track ==> text == Some(
                "INSERT INTO "@ + rest + ") ON CONFLICT("@ + join(unique, ", "@)
                    + ") DO UPDATE SET "@ + stamp + " RETURNING row_id"@,
            )
            &&& !auto && track ==> text == Some(
                "INSERT INTO "@ + rest + ") ON CONFLICT("@ + join(primary, ", "@)
                    + ") DO UPDATE SET "@ + stamp,
            )
            &&& !auto && !track && primary.len() > 0 ==> text == Some(
                "INSERT OR IGNORE INTO "@ + rest + ")"@,
            )
            &&& !auto && !track && primary.len() == 0 ==> text == Some(
                "INSERT INTO "@ + rest + ") ON CONFLICT DO NOTHING"@,
            )
        }),
{
    law_insert(args, infos, plan, catalog);
    lemma_names_at(infos, false);
    lemma_names_at(infos, true);
    let columns = table_columns(infos, plan);
    let values = Seq::new(columns.len(), |i: int| ":"@ + columns[i]);
    assert(parameters(columns) =~= values);
    let primary = names_at(infos, keys(infos, false));
    let unique = names_at(infos, keys(infos, true));
    let rest = args.table + " ("@ + join(columns, ", "@) + ") VALUES ("@ + join(values, ", "@);
    let text = pieces_sql(insert_pieces(args, infos), catalog)->Some_0;
    let start = insert_start(args, keys(infos, false));
    let suffix = insert_suffix(args, keys(infos, false), keys(infos, true));
    let verb = if !args.auto_primary_key && !args.track_last_update && primary.len() > 0 {
        "INSERT OR IGNORE INTO "@
    } else {
        "INSERT INTO "@
    };
    assert(start == verb + args.table + " ("@);
    assert(text =~= verb + rest + suffix);
    if args.auto_primary_key {
        if unique.len() > 0 {
            let update = if args.track_last_update {
                "__last_written_ms = MAX(__last_written_ms, unixepoch('now') * 1000)"@
            } else {
                "row_id = row_id"@
            };
            assert(verb + rest + suffix =~= verb + rest + ") ON CONFLICT("@ + join(unique, ", "@)
                + ") DO UPDATE SET "@ + update + " RETURNING row_id"@);
        }
    } else if args.track_last_update {
        let stamp = "__last_written_ms = MAX(__last_written_ms, unixepoch('now') * 1000)"@;
        lemma_stamp();
        assert(verb + rest + suffix =~= verb + rest + ") ON CONFLICT("@ + join(primary, ", "@)
            + ") DO UPDATE SET "@ + stamp);
    }
}

/// The update of the last write, whole and in two parts.
proof fn lemma_stamp()
    ensures
        ") DO UPDATE SET __last_written_ms = MAX(__last_written_ms, unixepoch('now') * 1000)"@
            == ") DO UPDATE SET "@
            + "__last_written_ms = MAX(__last_written_ms, unixepoch('now') * 1000)"@,
{
    reveal_strlit(
        ") DO UPDATE SET __last_written_ms = MAX(__last_written_ms, unixepoch('now') * 1000)",
    );
    reveal_strlit(") DO UPDATE SET ");
    reveal_strlit("__last_written_ms = MAX(__last_written_ms, unixepoch('now') * 1000)");
    assert(
        ") DO UPDATE SET __last_written_ms = MAX(__last_written_ms, unixepoch('now') * 1000)"@
            =~= ") DO UPDATE SET "@
            + "__last_written_ms = MAX(__last_written_ms, unixepoch('now') * 1000)"@);
}

/// What stands before and behind the lists of `INSERT`, for any keys.
pub proof fn law_insert_ends(
    args: TableArgs<Chars>,
    primary: Seq<Key<Chars>>,
    unique: Seq<Key<Chars>>,
)
    ensures
        ({
            let auto = args.auto_primary_key;
            let track = args.track_last_update;
            let stamp = "__last_written_ms = MAX(__last_written_ms, unixepoch('now') * 1000)"@;
            let on = |list: Seq<Key<Chars>>|
                ") ON CONFLICT("@ + join(Seq::new(list.len(), |i: int| list[i].name), ", "@)
                    + ") DO UPDATE SET "@;
            &&& !auto && !track && primary.len() > 0 ==> insert_start(args, primary)
                == "INSERT OR IGNORE INTO "@ + args.table + " ("@ && insert_suffix(
                args,
                primary,
                unique,
            ) == ")"@
            &&& auto || track || primary.len() == 0 ==> insert_start(args, primary)
                == "INSERT INTO "@ + args.table + " ("@
            &&& auto && unique.len() == 0 ==> insert_suffix(args, primary, unique)
                == ") ON CONFLICT DO NOTHING RETURNING row_id"@
            &&& auto && unique.len() > 0 ==> insert_suffix(args, primary, unique) == on(unique) + (
            if track {
                stamp
            } else {
                "row_id = row_id"@
            }) + " RETURNING row_id"@
            &&& !auto && track ==> insert_suffix(args, primary, unique) == on(primary) + stamp
            &&& !auto && !track && primary.len() == 0 ==> insert_suffix(args, primary, unique)
                == ") ON CONFLICT DO NOTHING"@
        }),
{
    assert(key_names(primary) =~= Seq::new(primary.len(), |i: int| primary[i].name));
    assert(key_names(unique) =~= Seq::new(unique.len(), |i: int| unique[i].name));
    let stamp = "__last_written_ms = MAX(__last_written_ms, unixepoch('now') * 1000)"@;
    lemma_stamp();
    let start = ") ON CONFLICT("@ + join(key_names(primary), ", "@);
    assert(start + (") DO UPDATE SET "@ + stamp) =~= start + ") DO UPDATE SET "@ + stamp);
}

/// The whole text of the query by the primary key: each field of the key is compared with the
/// parameter of its place, and all must be equal.
pub proof fn law_get_text(
    args: TableArgs<Chars>,
    infos: Seq<FieldInfo<Chars>>,
    plan: Plan,
    catalog: CatalogView,
)
    requires
        all_known(infos, plan, catalog),
        infos.len() <= usize::MAX,
    ensures
        ({
            let primary = names_at(infos, keys(infos, false));
            pieces_sql(get_pieces(args, infos), catalog) == Some(
                select_sql(args, infos, plan) + (" WHERE "@ + join(
                    Seq::new(
                        primary.len(),
                        |i: int| primary[i] + " = ?"@ + numeral((i + 1) as nat),
                    ),
                    " AND "@,
                )),
            )
        }),
{
    law_get(args, infos, plan, catalog);
    law_keys(infos, false);
    let list = keys(infos, false);
    let primary = names_at(infos, list);
    let conditions = Seq::new(list.len(), |i: int| key_condition(list, i));
    let texts = Seq::new(
        primary.len(),
        |i: int| primary[i] + " = ?"@ + numeral((i + 1) as nat),
    );
    assert forall|i: int| 0 <= i < list.len() implies #[trigger] conditions[i] == texts[i] by {
        assert(list[i].name == infos[list[i].field as int].name);
    }
    assert(conditions =~= texts);
    assert(where_key(list) == " WHERE "@ + join(texts, " AND "@));
}

} // verus!
