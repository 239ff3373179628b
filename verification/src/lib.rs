//! Boilerplate for SQLite tables, as a library of Rust-to-Rust macros.
//!
//! Each macro takes the text of its arguments and of the item that it stands on, and returns the
//! text of the code that takes the item's place. The code implements the traits `Column`,
//! `ColumnGroup` and `Model` with the SQL of tables as constants.
pub mod args;
pub mod args_laws;
pub mod code_laws;
pub mod column;
pub mod column_group;
pub mod decl;
pub mod derive_column;
pub mod error;
pub mod expand_group;
pub mod expand_schema;
pub mod expand_table;
pub mod expansion_laws;
pub mod fields;
pub mod laws;
pub mod outside;
pub mod role_laws;
pub mod rule_laws;
pub mod rules;
pub mod run_laws;
pub mod sql;
pub mod sql_laws;
pub mod syntax;
pub mod table_code;
pub mod table_laws;
pub mod table_sql;
pub mod text;
pub mod text_laws;

pub use crate::column::Column;
pub use crate::column_group::ColumnGroup;
pub use crate::sql::{__nn_placeholder, __null_qualifier};

use crate::args::{read_tokens, tokens_of};
use crate::derive_column::derive_expansion;
use crate::error::{fail, failure, MacroError, Site};
use crate::expand_group::group_expansion;
use crate::expand_schema::schema_expansion;
use crate::expand_table::table_expansion;
use crate::outside::{error_invocation, write_error};
use crate::syntax::{seen, Chars};
use crate::text::views;
use vstd::prelude::*;

verus! {

/// What a macro leaves in the place of its item: its code, or else an invocation of
/// `compile_error!` with the message of the error.
pub open spec fn output(expansion: Result<Chars, MacroError<Chars>>) -> Chars {
    match expansion {
        Ok(code) => code,
        Err(error) => error_invocation(error.message),
    }
}

/// Writes what a macro leaves in the place of its item.
pub fn write_output(expansion: Result<String, MacroError<String>>) -> (r: String)
    ensures
        r@ == output(seen(expansion)),
{
    match expansion {
        Ok(code) => code,
        Err(error) => write_error(error.message.as_str()),
    }
}

/// `#[derive(Column)]`: implements `Column`, `ToSql` and `FromSql`.
///
/// A tuple struct with a single field delegates to the type of the field. An enum without fields
/// and with an integer representation is stored as its discriminant, with a `CHECK` constraint on
/// the known discriminants.
pub fn derive_column(item: &str) -> (r: String)
    ensures
        r@ == output(derive_expansion(item@)),
{
    write_output(derive_column::expand(item))
}

/// `#[table("name", ...)]`: implements `Model` for a struct whose fields are columns or groups of
/// columns.
pub fn table(attr: &str, item: &str) -> (r: String)
    ensures
        r@ == output(table_expansion(attr@, item@)),
{
    write_output(expand_table::expand(attr, item))
}

/// `#[schema]`: adds to a module the constant `SCHEMA`, the `CREATE_TABLE` of all its tables in the
/// order of their declarations.
pub fn schema(attr: &str, item: &str) -> (r: String)
    ensures
        r@ == output(schema_expansion(attr@, item@)),
{
    write_output(expand_schema::expand(attr, item))
}

/// The code that stands for an item with `#[group]`, which takes no arguments.
pub open spec fn group_invocation(attr: Chars, item: Chars) -> Result<Chars, MacroError<Chars>> {
    match tokens_of(attr) {
        Err(message) => Err(failure(Site::Outside, message)),
        Ok(tokens) => if tokens.len() > 0 {
            Err(failure(Site::Args, "#[group] takes no arguments"@))
        } else {
            group_expansion(item)
        },
    }
}

/// Expands an item with `#[group]`, which takes no arguments.
pub fn expand_group_invocation(attr: &str, item: &str) -> (r: Result<String, MacroError<String>>)
    ensures
        seen(r) == group_invocation(attr@, item@),
{
    let tokens = match read_tokens(attr) {
        Ok(tokens) => tokens,
        Err(message) => return Err(MacroError { site: Site::Outside, message }),
    };
    assert(views(tokens@).len() == tokens@.len());
    if tokens.len() > 0 {
        Err(fail(Site::Args, "#[group] takes no arguments"))
    } else {
        expand_group::expand(item)
    }
}

/// `#[group]`: implements `ColumnGroup` for a struct whose fields are columns, in the order of
/// their declarations.
pub fn group(attr: &str, item: &str) -> (r: String)
    ensures
        r@ == output(group_invocation(attr@, item@)),
{
    write_output(expand_group_invocation(attr, item))
}

/// Adds two numbers whose sum fits in a `u64`.
pub fn add(left: u64, right: u64) -> (sum: u64)
    requires
        left + right <= u64::MAX,
    ensures
        sum == left + right,
{
    left + right
}

} // verus!
