//! Types that a column can hold.
use vstd::prelude::*;

verus! {

/// A type that is stored in one SQL column.
pub trait Column {
    /// The SQL type of the column. Every `{col}` in it stands for the name of the column.
    const SQL_TYPE: &'static str;

    /// Whether the column may be `NULL`.
    const NULLABLE: bool;
}

impl Column for i32 {
    const SQL_TYPE: &'static str = "INTEGER";

    const NULLABLE: bool = false;
}

impl Column for i64 {
    const SQL_TYPE: &'static str = "INTEGER";

    const NULLABLE: bool = false;
}

impl Column for String {
    const SQL_TYPE: &'static str = "TEXT";

    const NULLABLE: bool = false;
}

impl Column for Vec<u8> {
    const SQL_TYPE: &'static str = "BLOB";

    const NULLABLE: bool = false;
}

impl<const N: usize> Column for [u8; N] {
    const SQL_TYPE: &'static str = "BLOB";

    const NULLABLE: bool = false;
}

impl Column for bool {
    const SQL_TYPE: &'static str = "INTEGER CHECK ({col} IN (0, 1))";

    const NULLABLE: bool = false;
}

impl<T: Column> Column for Option<T> {
    const SQL_TYPE: &'static str = T::SQL_TYPE;

    const NULLABLE: bool = true;
}

/// An optional column has the SQL type of what it may hold, and may be `NULL`.
pub proof fn law_optional_column<T: Column>()
    ensures
        <Option<T> as Column>::SQL_TYPE@ == T::SQL_TYPE@,
        <Option<T> as Column>::NULLABLE,
{
}

/// The SQL types of the columns that the library knows.
pub proof fn law_sql_types<const N: usize>()
    ensures
        <i32 as Column>::SQL_TYPE@ == "INTEGER"@,
        <i64 as Column>::SQL_TYPE@ == "INTEGER"@,
        <String as Column>::SQL_TYPE@ == "TEXT"@,
        <Vec<u8> as Column>::SQL_TYPE@ == "BLOB"@,
        <[u8; N] as Column>::SQL_TYPE@ == "BLOB"@,
        <bool as Column>::SQL_TYPE@ == "INTEGER CHECK ({col} IN (0, 1))"@,
        !<i32 as Column>::NULLABLE,
        !<i64 as Column>::NULLABLE,
        !<String as Column>::NULLABLE,
        !<Vec<u8> as Column>::NULLABLE,
        !<[u8; N] as Column>::NULLABLE,
        !<bool as Column>::NULLABLE,
{
}

} // verus!
