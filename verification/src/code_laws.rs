//! What the code of a table does with its fields, its keys and its row identifier.
use crate::args::TableArgs;
use crate::fields::{FieldInfo, FieldKind, IndexView};
use crate::outside::string_literal;
use crate::role_laws::{law_keys, marked};
use crate::rules::{keys, Key};
use crate::sql::{pieces_code, Piece};
use crate::syntax::Chars;
use crate::table_code::{
    convert_code, converts_code, get_by_code, get_code, insert_code, insert_id_code, key_argument,
    key_arguments, key_type_code, raw_var, read_code, reads_code, row_id_code, row_id_name,
    table_code, write_code, writes_code, CONVERT_VIA, DO_INSERT, GET_BODY, GET_BY, GET_BY_BLOCK,
    KEY_REFERENCE, KEY_TUPLE, MODEL, READ_COLUMN, READ_GROUP, READ_VIA, RETURN_NOTHING,
    RETURN_ROW_ID, ROW_ID, WRITE_COLUMN, WRITE_GROUP, WRITE_VIA,
};
use crate::table_sql::{
    create_pieces, get_by_pieces, insert_start, insert_suffix, key_condition, list_pieces,
    select_pieces, where_key, Part,
};
use crate::text::{fill, join, numeral, unraw};
use crate::text_laws::{law_join, law_numeral, number_of};
use vstd::prelude::*;

verus! {

// ---------------------------------------------------------------------------
// Getting a row by its key
// ---------------------------------------------------------------------------

/// Whether a text is an argument that takes one part of the key: `pk`, a dot, the number of the
/// part and a comma.
pub open spec fn takes_part(argument: Chars, part: nat) -> bool {
    exists|digits: Chars|
        argument == "pk."@ + digits + ","@ && #[trigger] number_of(digits) == part
}

/// Whether a text is a condition that compares a column with the parameter of a number.
pub open spec fn compares(condition: Chars, column: Chars, parameter: nat) -> bool {
    exists|digits: Chars|
        condition == column + " = ?"@ + digits && #[trigger] number_of(digits) == parameter
}

/// The body of `get` for a key of more than one column: each column of the key is compared with the
/// parameter of its place, and the argument in that place takes the part of the key with that
/// place. So the parts are handed over in order, each once.
pub proof fn law_get_arguments(name: Chars, primary: Seq<Key<Chars>>)
    requires
        primary.len() > 1,
    ensures
        exists|conditions: Seq<Chars>, arguments: Seq<Chars>|
            {
                &&& get_code(name, primary) == fill(
                    GET_BODY@,
                    seq![
                        name,
                        string_literal(" WHERE "@ + #[trigger] join(conditions, " AND "@)),
                        #[trigger] join(arguments, " "@),
                    ],
                )
                &&& conditions.len() == primary.len()
                &&& arguments.len() == primary.len()
                &&& forall|i: int|
                    0 <= i < primary.len() ==> compares(
                        #[trigger] conditions[i],
                        primary[i].name,
                        (i + 1) as nat,
                    )
                &&& forall|i: int|
                    0 <= i < primary.len() ==> takes_part(#[trigger] arguments[i], i as nat)
                &&& forall|i: int|
                    0 <= i < primary.len() ==> #[trigger] conditions[i] == primary[i].name + " = ?"@
                        + numeral((i + 1) as nat)
                &&& forall|i: int|
                    0 <= i < primary.len() ==> #[trigger] arguments[i] == "pk."@ + numeral(i as nat)
                        + ","@
            },
{
    let conditions = Seq::new(
        primary.len(),
        |i: int| primary[i].name + " = ?"@ + numeral((i + 1) as nat),
    );
    let arguments = Seq::new(primary.len(), |i: int| "pk."@ + numeral(i as nat) + ","@);
    assert(where_key(primary) =~= " WHERE "@ + join(conditions, " AND "@)) by {
        assert(Seq::new(primary.len(), |i: int| key_condition(primary, i)) =~= conditions);
    }
    assert(key_arguments(primary.len()) == join(arguments, " "@)) by {
        assert(Seq::new(primary.len(), |i: int| key_argument(i)) =~= arguments);
    }
    assert forall|i: int| 0 <= i < primary.len() implies compares(
        #[trigger] conditions[i],
        primary[i].name,
        (i + 1) as nat,
    ) by {
        law_numeral((i + 1) as nat);
        assert(number_of(numeral((i + 1) as nat)) == i + 1);
    }
    assert forall|i: int| 0 <= i < primary.len() implies takes_part(
        #[trigger] arguments[i],
        i as nat,
    ) by {
        law_numeral(i as nat);
        assert(number_of(numeral(i as nat)) == i);
    }
    assert(get_code(name, primary) == fill(
        GET_BODY@,
        seq![
            name,
            string_literal(" WHERE "@ + join(conditions, " AND "@)),
            join(arguments, " "@),
        ],
    ));
}

/// The body of `get` for a key of one column compares it with the key itself; a table without a key
/// has no row to get.
pub proof fn law_get_one(name: Chars, primary: Seq<Key<Chars>>)
    ensures
        primary.len() == 1 ==> get_code(name, primary) == fill(
            GET_BODY@,
            seq![name, string_literal(" WHERE "@ + primary[0].name + " = ?1"@), "pk,"@],
        ),
        primary.len() == 0 ==> get_code(name, primary) == "match *pk {}"@,
{
    if primary.len() == 1 {
        let conditions = Seq::new(1, |i: int| key_condition(primary, i));
        reveal_with_fuel(join::<char>, 2);
        reveal_with_fuel(numeral, 2);
        reveal_strlit("1");
        reveal_strlit(" = ?");
        reveal_strlit(" = ?1");
        assert(numeral(1) =~= "1"@);
        assert(" = ?1"@ =~= " = ?"@ + "1"@);
        assert(conditions[0] == primary[0].name + " = ?"@ + numeral(1));
        assert(join(conditions, " AND "@) == conditions[0]);
        assert(where_key(primary) =~= " WHERE "@ + primary[0].name + " = ?1"@);
    }
}

/// The type of the key: a reference to the type of the one key column, or a tuple of references to
/// the types of all of them, in their order; a type without values where there is none.
pub proof fn law_key_type(primary: Seq<Key<Chars>>)
    ensures
        primary.len() == 0 ==> key_type_code(primary) == fill(
            KEY_REFERENCE@,
            seq!["::std::convert::Infallible"@],
        ),
        primary.len() == 1 ==> key_type_code(primary) == fill(
            KEY_REFERENCE@,
            seq![primary[0].ty],
        ),
        primary.len() > 1 ==> exists|parts: Seq<Chars>|
            key_type_code(primary) == fill(KEY_TUPLE@, seq![#[trigger] join(parts, ", "@)])
                && parts.len() == primary.len() && forall|i: int|
                0 <= i < primary.len() ==> #[trigger] parts[i] == fill(
                    KEY_REFERENCE@,
                    seq![primary[i].ty],
                ),
{
    let parts = primary.map_values(|key: Key<Chars>| fill(KEY_REFERENCE@, seq![key.ty]));
    if primary.len() > 1 {
        assert(key_type_code(primary) == fill(KEY_TUPLE@, seq![join(parts, ", "@)]));
    }
}

// ---------------------------------------------------------------------------
// Row identifiers
// ---------------------------------------------------------------------------

/// The query that names all columns of a table and its row identifier, and compares one column with
/// the first parameter.
pub open spec fn lookup(table: Chars, infos: Seq<FieldInfo<Chars>>, column: Chars) -> Seq<
    Piece<Chars>,
> {
    seq![Piece::Text("SELECT "@)] + list_pieces(None, infos, Part::Columns, ", "@) + seq![
        Piece::Text(", row_id FROM "@),
        Piece::Text(table),
        Piece::Text(" WHERE "@ + column + " = ?1"@),
    ]
}

/// Whether a text is the method that gets a row by one column: it is named after the column, takes
/// a value of its type, and its query compares that same column.
pub open spec fn gets_by(
    method: Chars,
    vis: Chars,
    name: Chars,
    table: Chars,
    infos: Seq<FieldInfo<Chars>>,
    column: Chars,
    ty: Chars,
) -> bool {
    method == fill(
        GET_BY@,
        seq![
            vis,
            "get_by_"@ + unraw(column),
            ty,
            unraw(name) + "RowId"@,
            pieces_code(lookup(table, infos, column)),
            unraw(name) + "RowId"@,
        ],
    )
}

/// Whether texts are the methods that get a row by each unique column: one for each key, in order,
/// and one for every field that is marked.
pub open spec fn all_lookups(
    methods: Seq<Chars>,
    vis: Chars,
    name: Chars,
    table: Chars,
    infos: Seq<FieldInfo<Chars>>,
) -> bool {
    &&& methods.len() == keys(infos, true).len()
    &&& forall|k: int|
        0 <= k < methods.len() ==> gets_by(
            #[trigger] methods[k],
            vis,
            name,
            table,
            infos,
            infos[keys(infos, true)[k].field as int].name,
            keys(infos, true)[k].ty,
        )
    &&& forall|i: int, ty: Chars|
        0 <= i < infos.len() && #[trigger] marked(infos[i], true, ty) ==> exists|k: int|
            0 <= k < methods.len() && gets_by(
                #[trigger] methods[k],
                vis,
                name,
                table,
                infos,
                infos[i].name,
                ty,
            )
}

/// A table whose rows the database numbers has a row identifier, named after the struct, and for
/// each unique column a method that gets a row by that column, and no other methods.
pub proof fn law_get_by_methods(
    vis: Chars,
    name: Chars,
    args: TableArgs<Chars>,
    infos: Seq<FieldInfo<Chars>>,
)
    requires
        args.auto_primary_key,
        infos.len() <= usize::MAX,
    ensures
        exists|methods: Seq<Chars>|
            #[trigger] all_lookups(methods, vis, name, args.table, infos) && row_id_code(
                vis,
                name,
                args,
                infos,
            ) == fill(
                ROW_ID@,
                seq![
                    vis,
                    unraw(name) + "RowId"@,
                    if methods.len() == 0 {
                        ""@
                    } else {
                        fill(GET_BY_BLOCK@, seq![name, join(methods, "\n"@)])
                    },
                ],
            ),
{
    let unique = keys(infos, true);
    let methods = unique.map_values(
        |key: Key<Chars>| get_by_code(vis, name, args.table, infos, key),
    );
    law_keys(infos, true);
    assert forall|k: int| 0 <= k < methods.len() implies gets_by(
        #[trigger] methods[k],
        vis,
        name,
        args.table,
        infos,
        infos[unique[k].field as int].name,
        unique[k].ty,
    ) by {
        let key = unique[k];
        assert(key.name == infos[key.field as int].name);
        assert(get_by_pieces(args.table, infos, key) == lookup(args.table, infos, key.name));
        assert(methods[k] == get_by_code(vis, name, args.table, infos, key));
        assert(row_id_name(name) == unraw(name) + "RowId"@);
    }
    assert forall|i: int, ty: Chars|
        0 <= i < infos.len() && #[trigger] marked(infos[i], true, ty) implies exists|k: int|
        0 <= k < methods.len() && gets_by(
            #[trigger] methods[k],
            vis,
            name,
            args.table,
            infos,
            infos[i].name,
            ty,
        ) by {
        let k = choose|k: int|
            0 <= k < unique.len() && (#[trigger] unique[k]).field == i && unique[k].ty == ty;
        assert(gets_by(
            methods[k],
            vis,
            name,
            args.table,
            infos,
            infos[unique[k].field as int].name,
            unique[k].ty,
        ));
    }
    assert(all_lookups(methods, vis, name, args.table, infos));
    assert(row_id_name(name) == unraw(name) + "RowId"@);
}

/// Other tables have no row identifier: inserting into them returns nothing.
pub proof fn law_no_row_id(
    vis: Chars,
    name: Chars,
    args: TableArgs<Chars>,
    infos: Seq<FieldInfo<Chars>>,
)
    ensures
        !args.auto_primary_key ==> row_id_code(vis, name, args, infos) == ""@ && insert_id_code(
            name,
            args,
        ) == "()"@,
        args.auto_primary_key ==> insert_id_code(name, args) == unraw(name) + "RowId"@,
{
}

// ---------------------------------------------------------------------------
// Reading and writing rows
// ---------------------------------------------------------------------------

/// A field is read from its own column, or from the columns of its group with its prefix; one that
/// converts is made from the group that was read.
pub proof fn law_field_read(info: FieldInfo<Chars>)
    ensures
        read_code(info) == match info.kind {
            FieldKind::Column { .. } => fill(
                READ_COLUMN@,
                seq![info.name, string_literal(info.name)],
            ),
            FieldKind::Group { ty, prefix } => fill(
                READ_GROUP@,
                seq![info.name, ty, string_literal(prefix)],
            ),
            FieldKind::Via { raw_ty, field_ty, prefix } => fill(
                READ_VIA@,
                seq![info.name, raw_ty, string_literal(prefix), field_ty, raw_ty],
            ),
        },
{
}

/// A field is bound to the parameter with its own name, or to the parameters of its group with its
/// prefix; the group of one that converts is made first, and the same variable is bound.
pub proof fn law_field_written(info: FieldInfo<Chars>)
    ensures
        match info.kind {
            FieldKind::Column { .. } => {
                &&& convert_code(info) == ""@
                &&& write_code(info) == fill(
                    WRITE_COLUMN@,
                    seq![string_literal(":"@ + info.name), info.name],
                )
            },
            FieldKind::Group { ty, prefix } => {
                &&& convert_code(info) == ""@
                &&& write_code(info) == fill(
                    WRITE_GROUP@,
                    seq![ty, info.name, string_literal(prefix)],
                )
            },
            FieldKind::Via { raw_ty, field_ty, prefix } => {
                &&& convert_code(info) == fill(
                    CONVERT_VIA@,
                    seq!["__raw_"@ + unraw(info.name), raw_ty, field_ty, info.name],
                )
                &&& write_code(info) == fill(
                    WRITE_VIA@,
                    seq![raw_ty, "__raw_"@ + unraw(info.name), string_literal(prefix)],
                )
            },
        },
{
    assert(raw_var(info.name) == "__raw_"@ + unraw(info.name));
}

/// Each field is read, converted and bound once, in the order of the fields.
pub proof fn law_fields_in_turn(infos: Seq<FieldInfo<Chars>>, info: FieldInfo<Chars>)
    requires
        infos.len() > 0,
    ensures
        reads_code(infos.push(info)) == reads_code(infos) + " "@ + read_code(info),
        converts_code(infos.push(info)) == converts_code(infos) + " "@ + convert_code(info),
        writes_code(infos.push(info)) == writes_code(infos) + " "@ + write_code(info),
        reads_code(seq![info]) == read_code(info),
        converts_code(seq![info]) == convert_code(info),
        writes_code(seq![info]) == write_code(info),
{
    let all = infos.push(info);
    let read = |info: FieldInfo<Chars>| read_code(info);
    let convert = |info: FieldInfo<Chars>| convert_code(info);
    let write = |info: FieldInfo<Chars>| write_code(info);
    assert(all.map_values(read) =~= infos.map_values(read).push(read_code(info)));
    assert(all.map_values(convert) =~= infos.map_values(convert).push(convert_code(info)));
    assert(all.map_values(write) =~= infos.map_values(write).push(write_code(info)));
    law_join(infos.map_values(read), " "@, read_code(info));
    law_join(infos.map_values(convert), " "@, convert_code(info));
    law_join(infos.map_values(write), " "@, write_code(info));
    assert(seq![info].map_values(read) =~= seq![read_code(info)]);
    assert(seq![info].map_values(convert) =~= seq![convert_code(info)]);
    assert(seq![info].map_values(write) =~= seq![write_code(info)]);
}

/// A row is inserted after the conversions and the bindings of all its fields; the row identifier
/// is returned if the database gives one.
pub proof fn law_insert_body(name: Chars, args: TableArgs<Chars>, infos: Seq<FieldInfo<Chars>>)
    ensures
        args.auto_primary_key ==> insert_code(name, args, infos) == fill(
            DO_INSERT@,
            seq![
                converts_code(infos),
                writes_code(infos),
                fill(RETURN_ROW_ID@, seq![unraw(name) + "RowId"@]),
            ],
        ),
        !args.auto_primary_key ==> insert_code(name, args, infos) == fill(
            DO_INSERT@,
            seq![converts_code(infos), writes_code(infos), RETURN_NOTHING@],
        ),
{
}

/// The model of a table holds its statements, the types of its key and of what inserting returns,
/// and the bodies of its methods, each in its place; the row identifier stands before it.
pub proof fn law_model(
    vis: Chars,
    name: Chars,
    args: TableArgs<Chars>,
    infos: Seq<FieldInfo<Chars>>,
    indexes: Seq<IndexView>,
)
    ensures
        table_code(vis, name, args, infos, indexes) == row_id_code(vis, name, args, infos)
            + "\n\n"@ + fill(
            MODEL@,
            seq![
                name,
                pieces_code(create_pieces(args, infos, indexes)),
                pieces_code(select_pieces(args, infos)),
                string_literal(insert_start(args, keys(infos, false))),
                pieces_code(list_pieces(None, infos, Part::Columns, ", "@)),
                pieces_code(list_pieces(None, infos, Part::Values, ", "@)),
                string_literal(insert_suffix(args, keys(infos, false), keys(infos, true))),
                key_type_code(keys(infos, false)),
                insert_id_code(name, args),
                reads_code(infos),
                insert_code(name, args, infos),
                if keys(infos, false).len() == 0 {
                    "_conn"@
                } else {
                    "conn"@
                },
                get_code(name, keys(infos, false)),
            ],
        ),
{
}

} // verus!
