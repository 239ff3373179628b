//! The SQL of a table: `CREATE TABLE`, `SELECT` and `INSERT`.
use crate::args::{IndexColumn, TableArgs};
use crate::fields::{FieldInfo, FieldKind, IndexData, IndexView};
use crate::rules::{collect_keys, copy_names, key_names, keys, Key};
use crate::sql::{append_pieces, push_piece, push_text, Piece};
use crate::syntax::Chars;
use crate::text::{decimal, join, join_all, lemma_join_push, numeral, views};
use vstd::prelude::*;

verus! {

// ---------------------------------------------------------------------------
// Parts of a field
// ---------------------------------------------------------------------------

/// What a field contributes to a list in an SQL statement.
#[derive(Clone, Copy, PartialEq, Eq, Structural)]
pub enum Part {
    /// The definitions of its columns.
    Definition,
    /// The names of its columns.
    Columns,
    /// The parameters of its columns.
    Values,
}

/// The pieces that a field contributes to a list.
pub open spec fn field_pieces(info: FieldInfo<Chars>, part: Part) -> Seq<Piece<Chars>> {
    match info.kind {
        FieldKind::Column { unique, ty, .. } => match part {
            Part::Definition => {
                let plain = seq![
                    Piece::Text("    "@ + info.name + " "@),
                    Piece::ColumnType { ty, column: info.name },
                    Piece::ColumnQualifier { ty },
                ];
                if unique {
                    plain.push(Piece::Text(" UNIQUE"@))
                } else {
                    plain
                }
            },
            Part::Columns => seq![Piece::Text(info.name)],
            Part::Values => seq![Piece::Text(":"@ + info.name)],
        },
        FieldKind::Group { ty, prefix } => match part {
            Part::Definition => seq![Piece::GroupDdl { ty, prefix }],
            Part::Columns => seq![Piece::GroupCols { ty, prefix }],
            Part::Values => seq![Piece::GroupVals { ty, prefix }],
        },
        FieldKind::Via { raw_ty, prefix, .. } => match part {
            Part::Definition => seq![Piece::RequiredDdl { ty: raw_ty, prefix }],
            Part::Columns => seq![Piece::GroupCols { ty: raw_ty, prefix }],
            Part::Values => seq![Piece::GroupVals { ty: raw_ty, prefix }],
        },
    }
}

/// Makes the pieces that a field contributes to a list.
fn make_field_pieces(info: &FieldInfo<String>, part: Part) -> (r: Vec<Piece<String>>)
    ensures
        views(r@) == field_pieces(info@, part),
{
    let mut r: Vec<Piece<String>> = Vec::new();
    match &info.kind {
        FieldKind::Column { unique, ty, .. } => match part {
            Part::Definition => {
                let mut start = "    ".to_owned();
                start.append(info.name.as_str());
                start.append(" ");
                r.push(Piece::Text(start));
                r.push(Piece::ColumnType { ty: ty.clone(), column: info.name.clone() });
                r.push(Piece::ColumnQualifier { ty: ty.clone() });
                if *unique {
                    r.push(Piece::Text(" UNIQUE".to_owned()));
                }
            },
            Part::Columns => r.push(Piece::Text(info.name.clone())),
            Part::Values => {
                let mut param = ":".to_owned();
                param.append(info.name.as_str());
                r.push(Piece::Text(param));
            },
        },
        FieldKind::Group { ty, prefix } => match part {
            Part::Definition => r.push(
                Piece::GroupDdl { ty: ty.clone(), prefix: prefix.clone() },
            ),
            Part::Columns => r.push(Piece::GroupCols { ty: ty.clone(), prefix: prefix.clone() }),
            Part::Values => r.push(Piece::GroupVals { ty: ty.clone(), prefix: prefix.clone() }),
        },
        FieldKind::Via { raw_ty, prefix, .. } => match part {
            Part::Definition => r.push(
                Piece::RequiredDdl { ty: raw_ty.clone(), prefix: prefix.clone() },
            ),
            Part::Columns => r.push(
                Piece::GroupCols { ty: raw_ty.clone(), prefix: prefix.clone() },
            ),
            Part::Values => r.push(
                Piece::GroupVals { ty: raw_ty.clone(), prefix: prefix.clone() },
            ),
        },
    }
    assert(views(r@) =~= field_pieces(info@, part));
    r
}

/// What each field contributes to a list.
pub open spec fn field_parts(infos: Seq<FieldInfo<Chars>>, part: Part) -> Seq<Seq<Piece<Chars>>> {
    infos.map_values(|info: FieldInfo<Chars>| field_pieces(info, part))
}

/// The entries of a list: one of fixed text, if it is given, and then one for each field.
pub open spec fn entries(
    first: Option<Chars>,
    infos: Seq<FieldInfo<Chars>>,
    part: Part,
) -> Seq<Seq<Piece<Chars>>> {
    match first {
        Some(text) => seq![seq![Piece::Text(text)]] + field_parts(infos, part),
        None => field_parts(infos, part),
    }
}

/// A list with a separator between each two entries.
pub open spec fn list_pieces(
    first: Option<Chars>,
    infos: Seq<FieldInfo<Chars>>,
    part: Part,
    separator: Chars,
) -> Seq<Piece<Chars>> {
    join(entries(first, infos, part), seq![Piece::Text(separator)])
}

/// Makes a list with a separator between each two entries.
pub fn make_list(
    first: Option<&str>,
    infos: &Vec<FieldInfo<String>>,
    part: Part,
    separator: &str,
) -> (r: Vec<Piece<String>>)
    ensures
        views(r@) == list_pieces(
            match first {
                Some(text) => Some(text@),
                None => None,
            },
            views(infos@),
            part,
            separator@,
        ),
{
    let ghost start = match first {
        Some(text) => Some(text@),
        None => None,
    };
    let ghost all = entries(start, views(infos@), part);
    let ghost sep = seq![Piece::Text(separator@)];
    let ghost lead: int = if first is Some {
        1
    } else {
        0
    };
    let mut r: Vec<Piece<String>> = Vec::new();
    let mut empty = true;
    match first {
        Some(text) => {
            push_text(&mut r, text);
            empty = false;
            assert(all.take(1) =~= seq![seq![Piece::Text(text@)]]);
            assert(views(r@) =~= join(all.take(1), sep));
        },
        None => {
            assert(views(r@) =~= join(all.take(0), sep));
        },
    }
    let mut i: usize = 0;
    while i < infos.len()
        invariant
            i <= infos@.len(),
            all == entries(start, views(infos@), part),
            sep == seq![Piece::Text(separator@)],
            lead == if start is Some {
                1int
            } else {
                0int
            },
            all.len() == lead + infos@.len(),
            empty == (lead + i == 0),
            views(r@) == join(all.take(lead + i), sep),
        decreases infos.len() - i,
    {
        let mut more = make_field_pieces(&infos[i], part);
        proof {
            let done = all.take(lead + i);
            assert(all[lead + i] == views(more@));
            assert(all.take(lead + i + 1) =~= done.push(views(more@)));
            lemma_join_push(done, sep, views(more@));
        }
        let ghost before = views(r@);
        if !empty {
            push_text(&mut r, separator);
        }
        append_pieces(&mut r, &mut more);
        empty = false;
        i += 1;
        assert(views(r@) =~= join(all.take(lead + i), sep));
    }
    assert(all.take(lead + i) =~= all);
    r
}

// ---------------------------------------------------------------------------
// CREATE TABLE
// ---------------------------------------------------------------------------

/// The names of the columns of an index.
pub open spec fn index_names(index: IndexView) -> Seq<Chars> {
    index.columns.map_values(|column: IndexColumn<Chars>| column.name)
}

/// Copies the names of the columns of an index.
fn copy_index_names(index: &IndexData) -> (r: Vec<String>)
    ensures
        views(r@) == index_names(index@),
{
    let mut r: Vec<String> = Vec::new();
    let mut i: usize = 0;
    while i < index.columns.len()
        invariant
            i <= index.columns@.len(),
            r@.len() == i,
            forall|k: int| 0 <= k < i ==> (#[trigger] r@[k])@ == index.columns@[k]@.name,
        decreases index.columns.len() - i,
    {
        r.push(index.columns[i].name.clone());
        i += 1;
    }
    assert(views(r@) =~= index_names(index@));
    r
}

/// The statement that creates an index.
pub open spec fn index_sql(table: Chars, index: IndexView) -> Chars {
    let names = index_names(index);
    let unique = if index.unique {
        "UNIQUE "@
    } else {
        ""@
    };
    "CREATE "@ + unique + "INDEX IF NOT EXISTS "@ + "idx_"@ + table + "_"@ + join(names, "_"@)
        + " ON "@ + table + " ("@ + join(names, ", "@) + ");\n"@
}

/// Writes the statement that creates an index.
fn write_index(table: &str, index: &IndexData) -> (r: String)
    ensures
        r@ == index_sql(table@, index@),
{
    let names = copy_index_names(index);
    let mut r = "CREATE ".to_owned();
    r.append(
        if index.unique {
            "UNIQUE "
        } else {
            ""
        },
    );
    r.append("INDEX IF NOT EXISTS ");
    r.append("idx_");
    r.append(table);
    r.append("_");
    r.append(join_all(&names, "_").as_str());
    r.append(" ON ");
    r.append(table);
    r.append(" (");
    r.append(join_all(&names, ", ").as_str());
    r.append(");\n");
    r
}

/// The column of a table that the database numbers, before the columns of the fields.
pub open spec fn row_id_column(args: TableArgs<Chars>) -> Option<Chars> {
    if args.auto_primary_key {
        Some("    row_id INTEGER PRIMARY KEY"@)
    } else {
        None
    }
}

/// What stands between the columns of the fields and the end of `CREATE TABLE`.
pub open spec fn create_tail(args: TableArgs<Chars>, primary: Seq<Key<Chars>>) -> Seq<Piece<Chars>> {
    let stamp = if args.track_last_update {
        seq![
            Piece::Text(
                ",\n    __last_written_ms INTEGER NOT NULL DEFAULT (unixepoch('now') * 1000)"@,
            ),
        ]
    } else {
        Seq::empty()
    };
    let body = if primary.len() > 0 {
        stamp.push(
            Piece::Text(",\n    PRIMARY KEY ("@ + join(key_names(primary), ", "@) + ")"@),
        )
    } else {
        stamp
    };
    body.push(Piece::Text("\n);\n"@))
}

/// The statements that create the indexes of a table.
pub open spec fn index_pieces(table: Chars, indexes: Seq<IndexView>) -> Seq<Piece<Chars>> {
    indexes.map_values(|index: IndexView| Piece::Text(index_sql(table, index)))
}

/// The statement that creates a table, and those that create its indexes.
pub open spec fn create_pieces(
    args: TableArgs<Chars>,
    infos: Seq<FieldInfo<Chars>>,
    indexes: Seq<IndexView>,
) -> Seq<Piece<Chars>> {
    seq![Piece::Text("CREATE TABLE IF NOT EXISTS "@ + args.table + " (\n"@)] + list_pieces(
        row_id_column(args),
        infos,
        Part::Definition,
        ",\n"@,
    ) + create_tail(args, keys(infos, false)) + index_pieces(args.table, indexes)
}

/// Makes what stands between the columns of the fields and the end of `CREATE TABLE`.
fn make_create_tail(args: &TableArgs<String>, primary: &Vec<Key<String>>) -> (r: Vec<
    Piece<String>,
>)
    ensures
        views(r@) == create_tail(args@, views(primary@)),
{
    let mut r: Vec<Piece<String>> = Vec::new();
    assert(views(r@) =~= Seq::empty());
    if args.track_last_update {
        push_text(
            &mut r,
            ",\n    __last_written_ms INTEGER NOT NULL DEFAULT (unixepoch('now') * 1000)",
        );
        assert(views(r@) =~= seq![
            Piece::Text(
                ",\n    __last_written_ms INTEGER NOT NULL DEFAULT (unixepoch('now') * 1000)"@,
            ),
        ]);
    }
    if primary.len() > 0 {
        let mut constraint = ",\n    PRIMARY KEY (".to_owned();
        constraint.append(join_all(&copy_names(primary), ", ").as_str());
        constraint.append(")");
        push_piece(&mut r, Piece::Text(constraint));
    }
    push_text(&mut r, "\n);\n");
    r
}

/// Makes the statement that creates a table, and those that create its indexes.
pub fn make_create(
    args: &TableArgs<String>,
    infos: &Vec<FieldInfo<String>>,
    indexes: &Vec<IndexData>,
) -> (r: Vec<Piece<String>>)
    ensures
        views(r@) == create_pieces(args@, views(infos@), views(indexes@)),
{
    let mut start = "CREATE TABLE IF NOT EXISTS ".to_owned();
    start.append(args.table.as_str());
    start.append(" (\n");
    let mut r: Vec<Piece<String>> = Vec::new();
    r.push(Piece::Text(start));
    assert(views(r@) =~= seq![
        Piece::Text("CREATE TABLE IF NOT EXISTS "@ + args@.table + " (\n"@),
    ]);
    let first = if args.auto_primary_key {
        Some("    row_id INTEGER PRIMARY KEY")
    } else {
        None
    };
    append_pieces(&mut r, &mut make_list(first, infos, Part::Definition, ",\n"));
    append_pieces(&mut r, &mut make_create_tail(args, &collect_keys(infos, false)));
    let ghost front = views(r@);
    let mut i: usize = 0;
    assert(views(r@) =~= front + index_pieces(args@.table, views(indexes@).take(0)));
    while i < indexes.len()
        invariant
            i <= indexes@.len(),
            views(r@) == front + index_pieces(args@.table, views(indexes@).take(i as int)),
        decreases indexes.len() - i,
    {
        push_piece(&mut r, Piece::Text(write_index(args.table.as_str(), &indexes[i])));
        i += 1;
        assert(views(r@) =~= front + index_pieces(args@.table, views(indexes@).take(i as int)));
    }
    assert(views(indexes@).take(i as int) =~= views(indexes@));
    r
}

// ---------------------------------------------------------------------------
// SELECT
// ---------------------------------------------------------------------------

/// The pieces of `SELECT`.
pub open spec fn select_pieces(args: TableArgs<Chars>, infos: Seq<FieldInfo<Chars>>) -> Seq<
    Piece<Chars>,
> {
    seq![Piece::Text("SELECT "@)] + list_pieces(None, infos, Part::Columns, ", "@) + seq![
        Piece::Text(" FROM "@ + args.table),
    ]
}

/// Makes the pieces of `SELECT`.
pub fn make_select(args: &TableArgs<String>, infos: &Vec<FieldInfo<String>>) -> (r: Vec<
    Piece<String>,
>)
    ensures
        views(r@) == select_pieces(args@, views(infos@)),
{
    let mut columns = make_list(None, infos, Part::Columns, ", ");
    let ghost list = columns@;
    let mut r: Vec<Piece<String>> = Vec::new();
    r.push(Piece::Text("SELECT ".to_owned()));
    r.append(&mut columns);
    let mut from = " FROM ".to_owned();
    from.append(args.table.as_str());
    r.push(Piece::Text(from));
    assert(views(list) == list_pieces(None, views(infos@), Part::Columns, ", "@));
    assert(views(r@) =~= seq![Piece::Text("SELECT "@)] + views(list) + seq![
        Piece::Text(" FROM "@ + args@.table),
    ]);
    r
}

/// The condition on one column of the key; parameters are numbered from one.
pub open spec fn key_condition(primary: Seq<Key<Chars>>, i: int) -> Chars {
    primary[i].name + " = ?"@ + numeral((i + 1) as nat)
}

/// The condition that `get` looks a row up by.
pub open spec fn where_key(primary: Seq<Key<Chars>>) -> Chars {
    " WHERE "@ + join(
        Seq::new(primary.len(), |i: int| key_condition(primary, i)),
        " AND "@,
    )
}

/// Writes the condition that `get` looks a row up by.
pub fn write_where_key(primary: &Vec<Key<String>>) -> (r: String)
    ensures
        r@ == where_key(views(primary@)),
{
    let ghost view = views(primary@);
    let mut parts: Vec<String> = Vec::new();
    let mut i: usize = 0;
    while i < primary.len()
        invariant
            i <= primary@.len(),
            view == views(primary@),
            parts@.len() == i,
            forall|k: int| 0 <= k < i ==> (#[trigger] parts@[k])@ == key_condition(view, k),
        decreases primary.len() - i,
    {
        let mut part = primary[i].name.clone();
        part.append(" = ?");
        part.append(decimal(i as u64 + 1).as_str());
        parts.push(part);
        i += 1;
    }
    assert(views(parts@) =~= Seq::new(view.len(), |i: int| key_condition(view, i)));
    let mut r = " WHERE ".to_owned();
    r.append(join_all(&parts, " AND ").as_str());
    r
}

/// The query that gets a row by its primary key.
pub open spec fn get_pieces(args: TableArgs<Chars>, infos: Seq<FieldInfo<Chars>>) -> Seq<
    Piece<Chars>,
> {
    select_pieces(args, infos).push(Piece::Text(where_key(keys(infos, false))))
}

/// Makes the query that gets a row by its primary key.
pub fn make_get(args: &TableArgs<String>, infos: &Vec<FieldInfo<String>>) -> (r: Vec<
    Piece<String>,
>)
    ensures
        views(r@) == get_pieces(args@, views(infos@)),
{
    let mut r = make_select(args, infos);
    let condition = write_where_key(&collect_keys(infos, false));
    push_piece(&mut r, Piece::Text(condition));
    r
}

/// The query that gets a row by a unique column.
pub open spec fn get_by_pieces(
    table: Chars,
    infos: Seq<FieldInfo<Chars>>,
    key: Key<Chars>,
) -> Seq<Piece<Chars>> {
    seq![Piece::Text("SELECT "@)] + list_pieces(None, infos, Part::Columns, ", "@) + seq![
        Piece::Text(", row_id FROM "@),
        Piece::Text(table),
        Piece::Text(" WHERE "@ + key.name + " = ?1"@),
    ]
}

/// Makes the query that gets a row by a unique column.
pub fn make_get_by(table: &str, infos: &Vec<FieldInfo<String>>, key: &Key<String>) -> (r: Vec<
    Piece<String>,
>)
    ensures
        views(r@) == get_by_pieces(table@, views(infos@), key@),
{
    let mut condition = " WHERE ".to_owned();
    condition.append(key.name.as_str());
    condition.append(" = ?1");
    let mut columns = make_list(None, infos, Part::Columns, ", ");
    let ghost list = columns@;
    let mut r: Vec<Piece<String>> = Vec::new();
    r.push(Piece::Text("SELECT ".to_owned()));
    r.append(&mut columns);
    r.push(Piece::Text(", row_id FROM ".to_owned()));
    r.push(Piece::Text(table.to_owned()));
    r.push(Piece::Text(condition));
    assert(views(list) == list_pieces(None, views(infos@), Part::Columns, ", "@));
    assert(views(r@) =~= seq![Piece::Text("SELECT "@)] + views(list) + seq![
        Piece::Text(", row_id FROM "@),
        Piece::Text(table@),
        Piece::Text(" WHERE "@ + key@.name + " = ?1"@),
    ]);
    r
}

// ---------------------------------------------------------------------------
// INSERT
// ---------------------------------------------------------------------------

/// Whether `INSERT` leaves out a row that exists: a row is known by its primary key, and nothing is
/// to be kept of the second write.
pub open spec fn ignores(args: TableArgs<Chars>, primary: Seq<Key<Chars>>) -> bool {
    !args.auto_primary_key && !args.track_last_update && primary.len() > 0
}

/// Checks whether `INSERT` leaves out a row that exists.
fn check_ignores(args: &TableArgs<String>, primary: &Vec<Key<String>>) -> (r: bool)
    ensures
        r == ignores(args@, views(primary@)),
{
    !args.auto_primary_key && !args.track_last_update && primary.len() > 0
}

/// What stands behind the parameters of `INSERT`: what to do when the row exists.
pub open spec fn insert_suffix(
    args: TableArgs<Chars>,
    primary: Seq<Key<Chars>>,
    unique: Seq<Key<Chars>>,
) -> Chars {
    if args.auto_primary_key {
        if unique.len() == 0 {
            ") ON CONFLICT DO NOTHING RETURNING row_id"@
        } else {
            let update = if args.track_last_update {
                "__last_written_ms = MAX(__last_written_ms, unixepoch('now') * 1000)"@
            } else {
                "row_id = row_id"@
            };
            ") ON CONFLICT("@ + join(key_names(unique), ", "@) + ") DO UPDATE SET "@ + update
                + " RETURNING row_id"@
        }
    } else if args.track_last_update {
        ") ON CONFLICT("@ + join(key_names(primary), ", "@)
            + ") DO UPDATE SET __last_written_ms = MAX(__last_written_ms, unixepoch('now') * 1000)"@
    } else if ignores(args, primary) {
        ")"@
    } else {
        ") ON CONFLICT DO NOTHING"@
    }
}

/// Writes what stands behind the parameters of `INSERT`.
pub fn write_insert_suffix(
    args: &TableArgs<String>,
    primary: &Vec<Key<String>>,
    unique: &Vec<Key<String>>,
) -> (r: String)
    ensures
        r@ == insert_suffix(args@, views(primary@), views(unique@)),
{
    if args.auto_primary_key {
        if unique.len() == 0 {
            ") ON CONFLICT DO NOTHING RETURNING row_id".to_owned()
        } else {
            let mut r = ") ON CONFLICT(".to_owned();
            r.append(join_all(&copy_names(unique), ", ").as_str());
            r.append(") DO UPDATE SET ");
            r.append(
                if args.track_last_update {
                    "__last_written_ms = MAX(__last_written_ms, unixepoch('now') * 1000)"
                } else {
                    "row_id = row_id"
                },
            );
            r.append(" RETURNING row_id");
            r
        }
    } else if args.track_last_update {
        let mut r = ") ON CONFLICT(".to_owned();
        r.append(join_all(&copy_names(primary), ", ").as_str());
        r.append(
            ") DO UPDATE SET __last_written_ms = MAX(__last_written_ms, unixepoch('now') * 1000)",
        );
        r
    } else if check_ignores(args, primary) {
        ")".to_owned()
    } else {
        ") ON CONFLICT DO NOTHING".to_owned()
    }
}

/// What stands before the columns of `INSERT`.
pub open spec fn insert_start(args: TableArgs<Chars>, primary: Seq<Key<Chars>>) -> Chars {
    let verb = if ignores(args, primary) {
        "INSERT OR IGNORE INTO "@
    } else {
        "INSERT INTO "@
    };
    verb + args.table + " ("@
}

/// Writes what stands before the columns of `INSERT`.
pub fn write_insert_start(args: &TableArgs<String>, primary: &Vec<Key<String>>) -> (r: String)
    ensures
        r@ == insert_start(args@, views(primary@)),
{
    let mut r = if check_ignores(args, primary) {
        "INSERT OR IGNORE INTO ".to_owned()
    } else {
        "INSERT INTO ".to_owned()
    };
    r.append(args.table.as_str());
    r.append(" (");
    r
}

/// The statement that inserts a row.
pub open spec fn insert_pieces(args: TableArgs<Chars>, infos: Seq<FieldInfo<Chars>>) -> Seq<
    Piece<Chars>,
> {
    seq![Piece::Text(insert_start(args, keys(infos, false)))] + list_pieces(
        None,
        infos,
        Part::Columns,
        ", "@,
    ) + seq![Piece::Text(") VALUES ("@)] + list_pieces(None, infos, Part::Values, ", "@) + seq![
        Piece::Text(insert_suffix(args, keys(infos, false), keys(infos, true))),
    ]
}

/// Makes the statement that inserts a row.
pub fn make_insert(args: &TableArgs<String>, infos: &Vec<FieldInfo<String>>) -> (r: Vec<
    Piece<String>,
>)
    ensures
        views(r@) == insert_pieces(args@, views(infos@)),
{
    let primary = collect_keys(infos, false);
    let suffix = write_insert_suffix(args, &primary, &collect_keys(infos, true));
    let mut r: Vec<Piece<String>> = Vec::new();
    r.push(Piece::Text(write_insert_start(args, &primary)));
    assert(views(r@) =~= seq![Piece::Text(insert_start(args@, keys(views(infos@), false)))]);
    append_pieces(&mut r, &mut make_list(None, infos, Part::Columns, ", "));
    push_text(&mut r, ") VALUES (");
    append_pieces(&mut r, &mut make_list(None, infos, Part::Values, ", "));
    push_piece(&mut r, Piece::Text(suffix));
    assert(views(r@) =~= insert_pieces(args@, views(infos@)));
    r
}

} // verus!
