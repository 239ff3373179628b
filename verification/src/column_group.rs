//! Groups of columns that a value is read from and written to.
use crate::syntax::Chars;
use vstd::prelude::*;

verus! {

/// The names and values of bound parameters.
pub open spec fn bound<'a, V: ?Sized>(params: Seq<(String, &'a V)>) -> Seq<(Chars, &'a V)> {
    params.map_values(|param: (String, &'a V)| (param.0@, param.1))
}

/// A value that takes up one column or more; `R` is a row, `E` an error of reading it and `V` a
/// parameter of a statement.
///
/// In the constants, `{P}` stands for the prefix of the columns, and `{NN}` for ` NOT NULL` if the
/// group is not nullable.
///
/// An implementation in verified code says in the specification functions what it reads and
/// writes. Elsewhere they stay open.
pub trait ColumnGroup<R, E, V: ?Sized>: Sized {
    const DDL: &'static str;

    const COLS: &'static str;

    const VALS: &'static str;

    const NULLABLE: bool;

    /// What is read from the columns with a prefix.
    open spec fn reads(row: &R, prefix: Chars) -> Result<Self, E> {
        arbitrary()
    }

    /// What is read from the columns with a prefix if all of them may be `NULL`.
    open spec fn reads_optional(row: &R, prefix: Chars) -> Result<Option<Self>, E> {
        arbitrary()
    }

    /// The parameters that a value is written to.
    open spec fn writes<'a>(&'a self, prefix: Chars) -> Seq<(Chars, &'a V)> {
        arbitrary()
    }

    /// The parameters that stand for the absence of a value.
    open spec fn writes_null<'a>(prefix: Chars) -> Seq<(Chars, &'a V)> {
        arbitrary()
    }

    /// Reads a value.
    fn cg_read(row: &R, prefix: &str) -> (r: Result<Self, E>)
        ensures
            r == Self::reads(row, prefix@),
    ;

    /// Binds the parameters of a value.
    fn cg_write<'a>(&'a self, prefix: &str, out: &mut Vec<(String, &'a V)>)
        ensures
            bound(final(out)@) == bound(old(out)@) + self.writes(prefix@),
    ;

    /// Reads a value that may be absent.
    fn cg_read_optional(row: &R, prefix: &str) -> (r: Result<Option<Self>, E>)
        ensures
            r == Self::reads_optional(row, prefix@),
    ;

    /// Binds the parameters of an absent value.
    fn cg_write_null<'a>(prefix: &str, out: &mut Vec<(String, &'a V)>)
        ensures
            bound(final(out)@) == bound(old(out)@) + Self::writes_null(prefix@),
    ;
}

/// An optional group has the same columns, all of them nullable. It is absent when all of them are
/// `NULL`.
impl<R, E, V: ?Sized, T: ColumnGroup<R, E, V>> ColumnGroup<R, E, V> for Option<T> {
    const DDL: &'static str = T::DDL;

    const COLS: &'static str = T::COLS;

    const VALS: &'static str = T::VALS;

    const NULLABLE: bool = true;

    open spec fn reads(row: &R, prefix: Chars) -> Result<Option<T>, E> {
        T::reads_optional(row, prefix)
    }

    open spec fn reads_optional(row: &R, prefix: Chars) -> Result<Option<Option<T>>, E> {
        match T::reads_optional(row, prefix) {
            Ok(value) => Ok(Some(value)),
            Err(error) => Err(error),
        }
    }

    open spec fn writes<'a>(&'a self, prefix: Chars) -> Seq<(Chars, &'a V)> {
        match self {
            Some(value) => value.writes(prefix),
            None => T::writes_null(prefix),
        }
    }

    open spec fn writes_null<'a>(prefix: Chars) -> Seq<(Chars, &'a V)> {
        T::writes_null(prefix)
    }

    fn cg_read(row: &R, prefix: &str) -> (r: Result<Option<T>, E>) {
        T::cg_read_optional(row, prefix)
    }

    fn cg_write<'a>(&'a self, prefix: &str, out: &mut Vec<(String, &'a V)>) {
        match self {
            Some(value) => value.cg_write(prefix, out),
            None => T::cg_write_null(prefix, out),
        }
    }

    fn cg_read_optional(row: &R, prefix: &str) -> (r: Result<Option<Option<T>>, E>) {
        match T::cg_read_optional(row, prefix) {
            Ok(value) => Ok(Some(value)),
            Err(error) => Err(error),
        }
    }

    fn cg_write_null<'a>(prefix: &str, out: &mut Vec<(String, &'a V)>) {
        T::cg_write_null(prefix, out)
    }
}

/// The names of bound parameters.
pub open spec fn keys<'a, V: ?Sized>(params: Seq<(Chars, &'a V)>) -> Seq<Chars> {
    params.map_values(|param: (Chars, &'a V)| param.0)
}

/// An optional group reads what its group reads where all columns may be `NULL`. Where a value may
/// be absent, an optional group is present always: an absent value is read as a present `None`.
pub proof fn law_optional_reads<R, E, V: ?Sized, T: ColumnGroup<R, E, V>>(row: &R, prefix: Chars)
    ensures
        <Option<T> as ColumnGroup<R, E, V>>::reads(row, prefix) == T::reads_optional(row, prefix),
        T::reads_optional(row, prefix) matches Ok(value) ==> <Option<T> as ColumnGroup<
            R,
            E,
            V,
        >>::reads_optional(row, prefix) == Ok::<Option<Option<T>>, E>(Some(value)),
        T::reads_optional(row, prefix) matches Err(error) ==> <Option<T> as ColumnGroup<
            R,
            E,
            V,
        >>::reads_optional(row, prefix) == Err::<Option<Option<T>>, E>(error),
        <Option<T> as ColumnGroup<R, E, V>>::reads_optional(row, prefix) != Ok::<
            Option<Option<T>>,
            E,
        >(None),
{
}

/// An optional group binds what its value binds, or else what stands for its absence. If the group
/// binds the same parameters for a value and for its absence, so does the optional group.
pub proof fn law_optional_writes<R, E, V: ?Sized, T: ColumnGroup<R, E, V>>(
    value: Option<T>,
    prefix: Chars,
)
    ensures
        value matches Some(present) ==> <Option<T> as ColumnGroup<R, E, V>>::writes(&value, prefix)
            == present.writes(prefix),
        value is None ==> <Option<T> as ColumnGroup<R, E, V>>::writes(&value, prefix)
            == T::writes_null(prefix),
        (value matches Some(present) ==> keys(present.writes(prefix)) == keys(
            T::writes_null(prefix),
        )) ==> keys(<Option<T> as ColumnGroup<R, E, V>>::writes(&value, prefix)) == keys(
            T::writes_null(prefix),
        ),
{
}

/// An optional group reads back what was written, but for a present value that cannot be told from
/// an absent one, because all its columns are `NULL`: that one reads as absent. `holds` says that
/// the row holds parameters, and `blank` that all columns of the value are `NULL`.
pub proof fn law_optional_roundtrip<R, E, V: ?Sized, T: ColumnGroup<R, E, V>>(
    row: &R,
    prefix: Chars,
    value: Option<T>,
    blank: bool,
    holds: spec_fn(Seq<(Chars, &V)>) -> bool,
)
    requires
        value matches Some(present) ==> holds(present.writes(prefix)) ==> T::reads_optional(
            row,
            prefix,
        ) == Ok::<Option<T>, E>(
            if blank {
                None
            } else {
                Some(present)
            },
        ),
        value is None ==> holds(T::writes_null(prefix)) ==> T::reads_optional(row, prefix) == Ok::<
            Option<T>,
            E,
        >(None),
        holds(<Option<T> as ColumnGroup<R, E, V>>::writes(&value, prefix)),
    ensures
        value is None || blank ==> <Option<T> as ColumnGroup<R, E, V>>::reads(row, prefix) == Ok::<
            Option<T>,
            E,
        >(None),
        value is None || blank ==> <Option<T> as ColumnGroup<R, E, V>>::reads_optional(row, prefix)
            == Ok::<Option<Option<T>>, E>(Some(None)),
        value is Some && !blank ==> <Option<T> as ColumnGroup<R, E, V>>::reads(row, prefix)
            == Ok::<Option<T>, E>(value),
        value is Some && !blank ==> <Option<T> as ColumnGroup<R, E, V>>::reads_optional(
            row,
            prefix,
        ) == Ok::<Option<Option<T>>, E>(Some(value)),
{
}

/// An optional group has the columns of its group and is nullable.
pub proof fn law_optional_columns<R, E, V: ?Sized, T: ColumnGroup<R, E, V>>()
    ensures
        <Option<T> as ColumnGroup<R, E, V>>::DDL@ == T::DDL@,
        <Option<T> as ColumnGroup<R, E, V>>::COLS@ == T::COLS@,
        <Option<T> as ColumnGroup<R, E, V>>::VALS@ == T::VALS@,
        <Option<T> as ColumnGroup<R, E, V>>::NULLABLE,
{
}

} // verus!
