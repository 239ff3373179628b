//! What generated code does when it runs.
//!
//! The code of a macro is text. Here each part of it has a meaning, over the same names and values
//! from which the part is written, and the laws speak of the meanings.
use crate::decl::{all_ok, lemma_all_ok_values, FieldView};
use crate::derive_column::{
    enum_arm, enum_arms, enum_sql_type, enum_to_arm, enum_to_arms, enum_values,
    newtype_contribution, numerals, VariantView, ENUM_ARM, ENUM_TO_ARM,
};
use crate::expand_group::{
    field_names, group_cols, group_ddl, group_item, group_null_check, group_read, group_vals,
    group_write, group_write_null, GROUP, GROUP_NULL_CHECK, GROUP_READ, GROUP_WRITE,
    GROUP_WRITE_NULL,
};
use crate::fields::{FieldInfo, FieldKind};
use crate::laws::{law_group_columns, parameters, plain, prefixed};
use crate::outside::string_literal;
use crate::rule_laws::law_enum_values;
use crate::sql::{column_entry, pieces_code, CatalogView, ColumnEntry, Piece};
use crate::syntax::Chars;
use crate::table_code::{
    raw_var, read_code, reads_code, write_code, writes_code, READ_COLUMN, READ_GROUP, READ_VIA,
    WRITE_COLUMN, WRITE_GROUP, WRITE_VIA,
};
use crate::table_laws::{info_columns, lemma_parameters_concat, table_columns, Plan};
use crate::table_sql::{field_parts, field_pieces, list_pieces, Part};
use crate::text::{concat, digit, fill, join, numeral, replaced, signed_numeral};
use vstd::prelude::*;

verus! {

// ---------------------------------------------------------------------------
// Newtypes
// ---------------------------------------------------------------------------

/// A value of a newtype.
pub struct Wrapped<T> {
    pub inner: T,
}

/// What `to_sql` gives for a newtype: `self.0.to_sql()`. `encode` says what it gives for the inner
/// type.
pub open spec fn newtype_stored<T, S>(value: Wrapped<T>, encode: spec_fn(T) -> S) -> S {
    encode(value.inner)
}

/// What `column_result` gives for a newtype: that of the inner type, with `.map(Self)`. `decode`
/// says what it gives for the inner type.
pub open spec fn newtype_restored<T, S, E>(
    stored: S,
    decode: spec_fn(S) -> Result<T, E>,
) -> Result<Wrapped<T>, E> {
    match decode(stored) {
        Ok(inner) => Ok(Wrapped { inner }),
        Err(error) => Err(error),
    }
}

/// A newtype is stored as its inner value, read back if the inner type reads back, and refused where
/// the inner type is refused. Its SQL type and whether it is nullable are those of the inner type.
pub proof fn law_newtype<T, S, E>(
    value: Wrapped<T>,
    stored: S,
    encode: spec_fn(T) -> S,
    decode: spec_fn(S) -> Result<T, E>,
    ty: Chars,
    inner: Chars,
    catalog: CatalogView,
)
    ensures
        newtype_stored(value, encode) == encode(value.inner),
        decode(stored) matches Ok(read) ==> newtype_restored(stored, decode) == Ok::<
            Wrapped<T>,
            E,
        >(Wrapped { inner: read }),
        decode(stored) matches Err(error) ==> newtype_restored(stored, decode) == Err::<
            Wrapped<T>,
            E,
        >(error),
        decode(encode(value.inner)) == Ok::<T, E>(value.inner) ==> newtype_restored(
            newtype_stored(value, encode),
            decode,
        ) == Ok::<Wrapped<T>, E>(value),
        column_entry(catalog.columns, inner) matches Some(entry) ==> newtype_contribution(
            ty,
            inner,
            catalog,
        ) == Some(ColumnEntry { ty, sql_type: entry.sql_type, nullable: entry.nullable }),
{
}

// ---------------------------------------------------------------------------
// Enums
// ---------------------------------------------------------------------------

/// What `to_sql` gives for the variant with an index: the number in the arm of the variant.
pub open spec fn stored(values: Seq<int>, i: int) -> int {
    values[i]
}

/// What `column_result` gives for a number: the index of the first variant whose arm has it, or
/// none if the number is out of range.
pub open spec fn restored(values: Seq<int>, number: int) -> Option<int>
    decreases values.len(),
{
    if values.len() == 0 {
        None
    } else {
        match restored(values.drop_last(), number) {
            Some(i) => Some(i),
            None => if values.last() == number {
                Some(values.len() - 1)
            } else {
                None
            },
        }
    }
}

/// Whether the `CHECK` constraint of an enum lists a number.
pub open spec fn admitted(values: Seq<int>, number: int) -> bool {
    numerals(values).contains(signed_numeral(number))
}

/// The arms of `to_sql`, those of `column_result` and the list of the `CHECK` constraint have one
/// entry for each variant, in the order of the variants, and the entries of a variant hold the same
/// numeral.
pub proof fn law_enum_entries(variants: Seq<VariantView>, values: Seq<int>)
    requires
        values.len() == variants.len(),
    ensures
        numerals(values).len() == variants.len(),
        enum_to_arms(variants, values) == join(
            Seq::new(
                variants.len(),
                |i: int| fill(ENUM_TO_ARM@, seq![variants[i].name, numerals(values)[i]]),
            ),
            " "@,
        ),
        enum_arms(variants, values) == join(
            Seq::new(
                variants.len(),
                |i: int| fill(ENUM_ARM@, seq![numerals(values)[i], variants[i].name]),
            ),
            " "@,
        ),
        enum_sql_type(values) == "INTEGER CHECK ({col} IN ("@ + join(numerals(values), ", "@)
            + "))"@,
{
    assert(Seq::new(
        variants.len(),
        |i: int| enum_to_arm(variants[i].name, values[i]),
    ) =~= Seq::new(
        variants.len(),
        |i: int| fill(ENUM_TO_ARM@, seq![variants[i].name, numerals(values)[i]]),
    ));
    assert(Seq::new(
        variants.len(),
        |i: int| enum_arm(variants[i].name, values[i]),
    ) =~= Seq::new(
        variants.len(),
        |i: int| fill(ENUM_ARM@, seq![numerals(values)[i], variants[i].name]),
    ));
}

/// A numeral has digits only.
proof fn lemma_digits(n: nat)
    ensures
        numeral(n).len() > 0,
        numeral(n)[0] != '-',
        n >= 10 ==> numeral(n).len() > 1,
    decreases n,
{
    if n >= 10 {
        lemma_digits(n / 10);
        assert(numeral(n)[0] == numeral(n / 10)[0]);
    }
}

/// Numbers with the same numeral are equal.
proof fn lemma_numeral_injective(a: nat, b: nat)
    requires
        numeral(a) == numeral(b),
    ensures
        a == b,
    decreases a,
{
    lemma_digits(a);
    lemma_digits(b);
    if a < 10 {
        assert(numeral(a)[0] == digit(a));
        assert(numeral(b)[0] == digit(b));
    } else {
        assert(numeral(a).last() == digit(a % 10));
        assert(numeral(b).last() == digit(b % 10));
        assert(numeral(a).drop_last() =~= numeral(a / 10));
        assert(numeral(b).drop_last() =~= numeral(b / 10));
        lemma_numeral_injective(a / 10, b / 10);
    }
}

/// Integers with the same numeral are equal.
proof fn lemma_signed_injective(a: int, b: int)
    requires
        signed_numeral(a) == signed_numeral(b),
    ensures
        a == b,
{
    if a < 0 {
        let left = numeral((-a) as nat);
        assert(signed_numeral(a)[0] == '-');
        if b < 0 {
            let right = numeral((-b) as nat);
            assert(signed_numeral(a).skip(1) =~= left);
            assert(signed_numeral(b).skip(1) =~= right);
            lemma_numeral_injective((-a) as nat, (-b) as nat);
        } else {
            lemma_digits(b as nat);
        }
    } else {
        lemma_digits(a as nat);
        if b < 0 {
            assert(signed_numeral(b)[0] == '-');
        } else {
            lemma_numeral_injective(a as nat, b as nat);
        }
    }
}

/// `column_result` gives a variant for the numbers that are discriminants, and for no others.
proof fn lemma_restored(values: Seq<int>, number: int)
    ensures
        restored(values, number) is Some <==> values.contains(number),
        restored(values, number) matches Some(i) ==> 0 <= i < values.len() && values[i] == number,
    decreases values.len(),
{
    if values.len() > 0 {
        let front = values.drop_last();
        lemma_restored(front, number);
        if front.contains(number) {
            let k = choose|k: int| 0 <= k < front.len() && front[k] == number;
            assert(values[k] == number);
        }
        if values.contains(number) && values.last() != number {
            let k = choose|k: int| 0 <= k < values.len() && values[k] == number;
            assert(front[k] == number);
        }
        if values.last() == number {
            assert(values[values.len() - 1] == number);
        }
    }
}

/// The `CHECK` constraint of an enum admits a number if `column_result` accepts it, and only then.
pub proof fn law_enum_check(values: Seq<int>, number: int)
    ensures
        admitted(values, number) <==> restored(values, number) is Some,
        restored(values, number) is Some <==> values.contains(number),
{
    lemma_restored(values, number);
    if admitted(values, number) {
        let k = choose|k: int|
            0 <= k < numerals(values).len() && numerals(values)[k] == signed_numeral(number);
        lemma_signed_injective(values[k], number);
        assert(values.contains(values[k]));
    }
    if values.contains(number) {
        let k = choose|k: int| 0 <= k < values.len() && values[k] == number;
        assert(numerals(values)[k] == signed_numeral(number));
    }
}

/// A variant of an enum is stored as its discriminant, which the `CHECK` constraint admits, and is
/// read back as itself. Discriminants of an enum differ.
pub proof fn law_enum_roundtrip(variants: Seq<VariantView>, i: int)
    requires
        enum_values(variants) is Ok,
        enum_values(variants)->Ok_0.no_duplicates(),
        0 <= i < variants.len(),
    ensures
        ({
            let values = enum_values(variants)->Ok_0;
            &&& restored(values, stored(values, i)) == Some(i)
            &&& admitted(values, stored(values, i))
        }),
{
    let values = enum_values(variants)->Ok_0;
    law_enum_values(variants);
    assert(values.contains(values[i]));
    lemma_restored(values, values[i]);
    law_enum_check(values, values[i]);
}

// ---------------------------------------------------------------------------
// Groups
// ---------------------------------------------------------------------------

/// The column that `format!("{prefix}{}", name)` names.
pub open spec fn column_at(prefix: Chars, name: Chars) -> Chars {
    prefix + name
}

/// The parameter that `format!(":{prefix}{}", name)` names.
pub open spec fn parameter_at(prefix: Chars, name: Chars) -> Chars {
    ":"@ + column_at(prefix, name)
}

/// What `cg_write` appends: one statement for each field binds the value of the field.
pub open spec fn written<V>(names: Seq<Chars>, prefix: Chars, values: Seq<V>) -> Seq<(Chars, V)> {
    Seq::new(names.len(), |i: int| (parameter_at(prefix, names[i]), values[i]))
}

/// What `cg_write_null` appends: one statement for each field binds `NULL`.
pub open spec fn written_null<V>(names: Seq<Chars>, prefix: Chars, null: V) -> Seq<(Chars, V)> {
    Seq::new(names.len(), |i: int| (parameter_at(prefix, names[i]), null))
}

/// The names of bound parameters.
pub open spec fn keys_of<V>(params: Seq<(Chars, V)>) -> Seq<Chars> {
    params.map_values(|param: (Chars, V)| param.0)
}

/// `cg_write` and `cg_write_null` bind one parameter for each field, in the order of the fields and
/// under the same names: those in `VALS`, and without the colon those in `COLS`.
pub proof fn law_group_writes<V>(names: Seq<Chars>, prefix: Chars, values: Seq<V>, null: V)
    requires
        values.len() == names.len(),
        forall|i: int| 0 <= i < names.len() ==> plain(#[trigger] names[i]),
    ensures
        keys_of(written(names, prefix, values)) == parameters(prefixed(names, prefix)),
        keys_of(written_null(names, prefix, null)) == parameters(prefixed(names, prefix)),
        written(names, prefix, values).map_values(|param: (Chars, V)| param.1) == values,
        forall|i: int|
            0 <= i < names.len() ==> (#[trigger] written_null(names, prefix, null)[i]).1 == null,
        join(keys_of(written(names, prefix, values)), ", "@) == replaced(
            group_vals(names),
            "{P}"@,
            prefix,
        ),
        join(prefixed(names, prefix), ", "@) == replaced(
            group_cols(names),
            "{P}"@,
            prefix,
        ),
{
    law_group_columns(names, prefix);
    assert(keys_of(written(names, prefix, values)) =~= parameters(prefixed(names, prefix)));
    assert(keys_of(written_null(names, prefix, null)) =~= parameters(prefixed(names, prefix)));
    assert(written(names, prefix, values).map_values(|param: (Chars, V)| param.1) =~= values);
}

/// The methods of a group have one part for each field, in the order of the fields, and each part
/// has the name of its field as a literal: the one that the meanings speak of.
pub proof fn law_group_code(item: Chars, name: Chars, fields: Seq<FieldView>)
    ensures
        ({
            let names = field_names(fields);
            let reads = join(
                Seq::new(
                    names.len(),
                    |i: int| fill(GROUP_READ@, seq![names[i], string_literal(names[i])]),
                ),
                " "@,
            );
            group_item(item, name, fields) == fill(
                GROUP@,
                seq![
                    item,
                    name,
                    pieces_code(group_ddl(fields)),
                    string_literal(group_cols(names)),
                    string_literal(group_vals(names)),
                    reads,
                    join(
                        Seq::new(
                            names.len(),
                            |i: int| fill(GROUP_WRITE@, seq![string_literal(names[i]), names[i]]),
                        ),
                        " "@,
                    ),
                    join(
                        Seq::new(
                            names.len(),
                            |i: int| fill(GROUP_NULL_CHECK@, seq![string_literal(names[i])]),
                        ),
                        " && "@,
                    ),
                    reads,
                    join(
                        Seq::new(
                            names.len(),
                            |i: int| fill(GROUP_WRITE_NULL@, seq![string_literal(names[i])]),
                        ),
                        " "@,
                    ),
                ],
            )
        }),
{
    let names = field_names(fields);
    assert(names.map_values(|name: Chars| group_read(name)) =~= Seq::new(
        names.len(),
        |i: int| fill(GROUP_READ@, seq![names[i], string_literal(names[i])]),
    ));
    assert(names.map_values(|name: Chars| group_write(name)) =~= Seq::new(
        names.len(),
        |i: int| fill(GROUP_WRITE@, seq![string_literal(names[i]), names[i]]),
    ));
    assert(names.map_values(|name: Chars| group_null_check(name)) =~= Seq::new(
        names.len(),
        |i: int| fill(GROUP_NULL_CHECK@, seq![string_literal(names[i])]),
    ));
    assert(names.map_values(|name: Chars| group_write_null(name)) =~= Seq::new(
        names.len(),
        |i: int| fill(GROUP_WRITE_NULL@, seq![string_literal(names[i])]),
    ));
}

/// What `cg_read` gives: the fields, each read from its column, or the first error. `get` says what
/// reading a field from a column gives.
pub open spec fn group_value<C, E>(
    names: Seq<Chars>,
    prefix: Chars,
    get: spec_fn(int, Chars) -> Result<C, E>,
) -> Result<Seq<C>, E> {
    all_ok(Seq::new(names.len(), |i: int| get(i, column_at(prefix, names[i]))))
}

/// Whether all tests of `cg_read_optional` find `NULL`. `null` says which columns are `NULL`.
pub open spec fn all_null(names: Seq<Chars>, prefix: Chars, null: spec_fn(Chars) -> bool) -> bool {
    forall|i: int| 0 <= i < names.len() ==> null(column_at(prefix, #[trigger] names[i]))
}

/// What `cg_read_optional` gives.
pub open spec fn optional_value<C, E>(
    names: Seq<Chars>,
    prefix: Chars,
    null: spec_fn(Chars) -> bool,
    get: spec_fn(int, Chars) -> Result<C, E>,
) -> Result<Option<Seq<C>>, E> {
    if all_null(names, prefix, null) {
        Ok(None)
    } else {
        match group_value(names, prefix, get) {
            Ok(value) => Ok(Some(value)),
            Err(error) => Err(error),
        }
    }
}

/// A group is absent if every one of its columns is `NULL`, and in no other case. Otherwise it is
/// read as a group that must be present, so that a column that cannot be read is an error.
pub proof fn law_group_absent<C, E>(
    names: Seq<Chars>,
    prefix: Chars,
    null: spec_fn(Chars) -> bool,
    get: spec_fn(int, Chars) -> Result<C, E>,
)
    ensures
        optional_value(names, prefix, null, get) == Ok::<Option<Seq<C>>, E>(None) <==> all_null(
            names,
            prefix,
            null,
        ),
        !all_null(names, prefix, null) && group_value(names, prefix, get) is Ok ==> optional_value(
            names,
            prefix,
            null,
            get,
        ) == Ok::<Option<Seq<C>>, E>(Some(group_value(names, prefix, get)->Ok_0)),
        !all_null(names, prefix, null) && (exists|i: int|
            0 <= i < names.len() && get(i, column_at(prefix, #[trigger] names[i])) is Err)
            ==> optional_value(names, prefix, null, get) is Err,
{
    let items = Seq::new(names.len(), |i: int| get(i, column_at(prefix, names[i])));
    if exists|i: int| 0 <= i < names.len() && get(i, column_at(prefix, #[trigger] names[i])) is Err {
        let i = choose|i: int|
            0 <= i < names.len() && get(i, column_at(prefix, #[trigger] names[i])) is Err;
        if all_ok(items) is Ok {
            lemma_all_ok_values(items);
            assert(items[i] == Ok::<C, E>(all_ok(items)->Ok_0[i]));
        }
    }
}

/// A list of values without errors is those values.
proof fn lemma_all_ok_given<C, E>(items: Seq<Result<C, E>>, values: Seq<C>)
    requires
        items.len() == values.len(),
        forall|i: int| 0 <= i < items.len() ==> #[trigger] items[i] == Ok::<C, E>(values[i]),
    ensures
        all_ok(items) == Ok::<Seq<C>, E>(values),
    decreases items.len(),
{
    if items.len() == 0 {
        assert(values =~= Seq::empty());
    } else {
        assert(items.last() == items[items.len() - 1]);
        assert forall|i: int| 0 <= i < items.drop_last().len() implies #[trigger] items.drop_last()[i]
            == Ok::<C, E>(values.drop_last()[i]) by {
            assert(items.drop_last()[i] == items[i]);
        }
        lemma_all_ok_given(items.drop_last(), values.drop_last());
        assert(values =~= values.drop_last().push(values.last()));
    }
}

/// A group reads back what was written. The row holds in each column what was bound to the
/// parameter of its name; `decode` says what a field is read as. If all columns are `NULL`, the
/// group reads as absent where it may be absent.
pub proof fn law_group_roundtrip<V, C, E>(
    names: Seq<Chars>,
    prefix: Chars,
    values: Seq<V>,
    fields: Seq<C>,
    cell: spec_fn(Chars) -> V,
    is_null: spec_fn(V) -> bool,
    decode: spec_fn(int, V) -> Result<C, E>,
)
    requires
        values.len() == names.len(),
        fields.len() == names.len(),
        forall|i: int|
            0 <= i < names.len() ==> cell(column_at(prefix, #[trigger] names[i])) == values[i],
        forall|i: int|
            0 <= i < names.len() ==> decode(i, #[trigger] values[i]) == Ok::<C, E>(fields[i]),
    ensures
        group_value(names, prefix, |i: int, column: Chars| decode(i, cell(column))) == Ok::<
            Seq<C>,
            E,
        >(fields),
        optional_value(
            names,
            prefix,
            |column: Chars| is_null(cell(column)),
            |i: int, column: Chars| decode(i, cell(column)),
        ) == Ok::<Option<Seq<C>>, E>(
            if forall|i: int| 0 <= i < values.len() ==> is_null(#[trigger] values[i]) {
                None
            } else {
                Some(fields)
            },
        ),
{
    let get = |i: int, column: Chars| decode(i, cell(column));
    let null = |column: Chars| is_null(cell(column));
    let items = Seq::new(names.len(), |i: int| get(i, column_at(prefix, names[i])));
    assert forall|i: int| 0 <= i < items.len() implies #[trigger] items[i] == Ok::<C, E>(
        fields[i],
    ) by {
        assert(cell(column_at(prefix, names[i])) == values[i]);
        assert(decode(i, values[i]) == Ok::<C, E>(fields[i]));
    }
    lemma_all_ok_given(items, fields);
    let blank = forall|i: int| 0 <= i < values.len() ==> is_null(#[trigger] values[i]);
    if blank {
        assert forall|i: int| 0 <= i < names.len() implies null(
            column_at(prefix, #[trigger] names[i]),
        ) by {
            assert(is_null(values[i]));
        }
    }
    if all_null(names, prefix, null) {
        assert forall|i: int| 0 <= i < values.len() implies is_null(#[trigger] values[i]) by {
            assert(null(column_at(prefix, names[i])));
        }
    }
}

/// The absence of a group is read back as its absence.
pub proof fn law_group_absence_roundtrip<V, C, E>(
    names: Seq<Chars>,
    prefix: Chars,
    null: V,
    cell: spec_fn(Chars) -> V,
    is_null: spec_fn(V) -> bool,
    decode: spec_fn(int, V) -> Result<C, E>,
)
    requires
        is_null(null),
        forall|i: int|
            0 <= i < names.len() ==> cell(column_at(prefix, #[trigger] names[i])) == null,
    ensures
        optional_value(
            names,
            prefix,
            |column: Chars| is_null(cell(column)),
            |i: int, column: Chars| decode(i, cell(column)),
        ) == Ok::<Option<Seq<C>>, E>(None),
{
}

// ---------------------------------------------------------------------------
// Tables
// ---------------------------------------------------------------------------

/// The statement that binds what a piece of `VALUES` names.
pub open spec fn binding(info: FieldInfo<Chars>, piece: Piece<Chars>) -> Chars {
    match piece {
        Piece::Text(parameter) => fill(
            WRITE_COLUMN@,
            seq![string_literal(parameter), info.name],
        ),
        Piece::GroupVals { ty, prefix } => if info.kind is Via {
            fill(WRITE_VIA@, seq![ty, raw_var(info.name), string_literal(prefix)])
        } else {
            fill(WRITE_GROUP@, seq![ty, info.name, string_literal(prefix)])
        },
        _ => ""@,
    }
}

/// The initializer that reads what a piece of `SELECT` names.
pub open spec fn reading(info: FieldInfo<Chars>, piece: Piece<Chars>) -> Chars {
    match piece {
        Piece::Text(column) => fill(READ_COLUMN@, seq![info.name, string_literal(column)]),
        Piece::GroupCols { ty, prefix } => match info.kind {
            FieldKind::Via { field_ty, .. } => fill(
                READ_VIA@,
                seq![info.name, ty, string_literal(prefix), field_ty, ty],
            ),
            _ => fill(READ_GROUP@, seq![info.name, ty, string_literal(prefix)]),
        },
        _ => ""@,
    }
}

/// The one piece of a field in `VALUES`, or in the columns.
pub open spec fn field_piece(info: FieldInfo<Chars>, part: Part) -> Piece<Chars> {
    field_pieces(info, part)[0]
}

/// `do_insert` has one statement for each piece of `VALUES`, in their order: it binds the parameter
/// that the piece names, or has the group of the piece bind its parameters with the prefix of the
/// piece.
pub proof fn law_insert_binds(infos: Seq<FieldInfo<Chars>>)
    ensures
        list_pieces(None, infos, Part::Values, ", "@) == join(
            infos.map_values(|info: FieldInfo<Chars>| seq![field_piece(info, Part::Values)]),
            seq![Piece::Text(", "@)],
        ),
        writes_code(infos) == join(
            infos.map_values(
                |info: FieldInfo<Chars>| binding(info, field_piece(info, Part::Values)),
            ),
            " "@,
        ),
{
    assert(field_parts(infos, Part::Values) =~= infos.map_values(
        |info: FieldInfo<Chars>| seq![field_piece(info, Part::Values)],
    )) by {
        assert forall|i: int| 0 <= i < infos.len() implies field_pieces(
            #[trigger] infos[i],
            Part::Values,
        ) == seq![field_piece(infos[i], Part::Values)] by {
            assert(field_pieces(infos[i], Part::Values) =~= seq![
                field_piece(infos[i], Part::Values),
            ]);
        }
    }
    assert(infos.map_values(|info: FieldInfo<Chars>| write_code(info)) =~= infos.map_values(
        |info: FieldInfo<Chars>| binding(info, field_piece(info, Part::Values)),
    ));
}

/// `from_row` has one initializer for each piece of `SELECT`, in their order: it reads the column
/// that the piece names, or has the group of the piece read its columns with the prefix of the
/// piece.
pub proof fn law_select_reads(infos: Seq<FieldInfo<Chars>>)
    ensures
        list_pieces(None, infos, Part::Columns, ", "@) == join(
            infos.map_values(|info: FieldInfo<Chars>| seq![field_piece(info, Part::Columns)]),
            seq![Piece::Text(", "@)],
        ),
        reads_code(infos) == join(
            infos.map_values(
                |info: FieldInfo<Chars>| reading(info, field_piece(info, Part::Columns)),
            ),
            " "@,
        ),
{
    assert(field_parts(infos, Part::Columns) =~= infos.map_values(
        |info: FieldInfo<Chars>| seq![field_piece(info, Part::Columns)],
    )) by {
        assert forall|i: int| 0 <= i < infos.len() implies field_pieces(
            #[trigger] infos[i],
            Part::Columns,
        ) == seq![field_piece(infos[i], Part::Columns)] by {
            assert(field_pieces(infos[i], Part::Columns) =~= seq![
                field_piece(infos[i], Part::Columns),
            ]);
        }
    }
    assert(infos.map_values(|info: FieldInfo<Chars>| read_code(info)) =~= infos.map_values(
        |info: FieldInfo<Chars>| reading(info, field_piece(info, Part::Columns)),
    ));
}

/// The parameters that the statement of a field binds when it runs: that of its column, or those
/// that its group binds.
pub open spec fn bound_parameters(info: FieldInfo<Chars>, plan: Plan) -> Seq<Chars> {
    match info.kind {
        FieldKind::Column { .. } => seq![":"@ + info.name],
        FieldKind::Group { ty, prefix } => field_names(plan(ty)).map_values(
            |name: Chars| parameter_at(prefix, name),
        ),
        FieldKind::Via { raw_ty, prefix, .. } => field_names(plan(raw_ty)).map_values(
            |name: Chars| parameter_at(prefix, name),
        ),
    }
}

/// `do_insert` binds the parameters that `INSERT` has in `VALUES`, once each and in their order.
pub proof fn law_insert_parameters(infos: Seq<FieldInfo<Chars>>, plan: Plan)
    ensures
        concat(infos.map_values(|info: FieldInfo<Chars>| bound_parameters(info, plan)))
            == parameters(table_columns(infos, plan)),
{
    let columns = infos.map_values(|info: FieldInfo<Chars>| info_columns(info, plan));
    let bound = infos.map_values(|info: FieldInfo<Chars>| bound_parameters(info, plan));
    let named = columns.map_values(|list: Seq<Chars>| parameters(list));
    assert forall|i: int| 0 <= i < infos.len() implies #[trigger] bound[i] == named[i] by {
        assert(bound[i] =~= named[i]);
    }
    assert(bound =~= named);
    lemma_parameters_concat(columns);
}

} // verus!
