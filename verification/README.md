# balsaq

Macros that take the boilerplate out of SQLite tables. A struct becomes a table, and its
`CREATE TABLE`, `SELECT` and `INSERT` become constants, with the code that maps rows to values and
back. The library is written in Verus: what each macro generates, and when it refuses its input, is
stated in contracts and proved.

## Macros

| Macro                   | Entry point     | What it generates                                  |
|-------------------------|-----------------|----------------------------------------------------|
| `#[derive(Column)]`     | `derive_column` | `Column`, `ToSql` and `FromSql` of a newtype or enum |
| `#[table("name", ...)]` | `table`         | `Model` of a struct, and its row identifier        |
| `#[group]`              | `group`         | `ColumnGroup` of a struct                          |
| `#[schema]`             | `schema`        | the constant `SCHEMA` of a module                  |

A macro takes the text of its arguments and of its item and returns the text of its output. `app/`
connects the macros to the compiler's streams of tokens.

The output names `::balsaq::Model`, `::balsaq::Column`, `::balsaq::ColumnGroup` without parameters,
`::balsaq::__null_qualifier` and `::balsaq::__nn_placeholder` in constants, and the constant macros
of `::balsaq::__cf`. It is meant for a runtime crate of that name, on top of `rusqlite`, and does not
compile against this one: here `ColumnGroup` is generic over rows, errors and parameters, the two
functions are not `const`, and there is no `Model`.

## Layout

- `text`: joining, template filling, substitution, numerals, and the lemmas about them.
- `syntax`, `outside`: Rust syntax as plain data, and the calls into `proc-macro2` and `syn` that
  produce it. The contracts of those calls are trusted.
- `args`, `decl`, `fields`, `rules`: the arguments of the attributes, the declarations that they
  stand on, the roles of fields, and the rules that a table keeps.
- `sql`, `table_sql`: SQL text in pieces that depend on types, as Rust code and as what it comes to.
- `table_code`, `expand_table`, `expand_group`, `expand_schema`, `derive_column`: the macros.
- `column`, `column_group`: the traits of columns and of groups of columns.
- `laws`, `table_laws`, `rule_laws`: what holds across functions, such as that `SELECT` and `INSERT`
  of a table name the same columns in the same order.
- `run_laws`: what generated code does when it runs, such as that a group reads back what it wrote.
