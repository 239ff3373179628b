use balsaq::error::Site;
use balsaq::expand_schema::{expand, make_schema};
use balsaq::sql::{evaluate, CatalogData, TableEntry};

fn run(attr: &str, item: &str) -> String {
    let file: syn::File = syn::parse_str(&expand(attr, item).unwrap()).unwrap();
    prettyplease::unparse(&file)
}

fn run_err(attr: &str, item: &str) -> String {
    expand(attr, item).unwrap_err().message
}

#[test]
fn single_table_generates_schema() {
    let out = run("", "mod db { #[table(\"widgets\")] pub struct Widget {} }");
    assert_eq!(
        out,
        "\
mod db {
    #[table(\"widgets\")]
    pub struct Widget {}
    pub const SCHEMA: &'static str = ::balsaq::__cf::concatcp!(
        < Widget as ::balsaq::Model >::CREATE_TABLE
    );
}
"
    );
}

#[test]
fn multiple_tables_all_appear_in_schema() {
    let out = run(
        "",
        "mod db {
            #[table(\"widgets\")]
            pub struct Widget {}
            #[table(\"posts\")]
            pub struct Post {}
        }",
    );
    assert_eq!(
        out,
        "\
mod db {
    #[table(\"widgets\")]
    pub struct Widget {}
    #[table(\"posts\")]
    pub struct Post {}
    pub const SCHEMA: &'static str = ::balsaq::__cf::concatcp!(
        < Widget as ::balsaq::Model >::CREATE_TABLE, < Post as ::balsaq::Model
        >::CREATE_TABLE
    );
}
"
    );
}

#[test]
fn non_table_items_are_passed_through() {
    let out = run(
        "",
        "mod db {
            pub struct Helper;
            #[column_set]
            pub struct Info {}
            #[table(\"t\")]
            pub struct T {}
        }",
    );
    assert_eq!(
        out,
        "\
mod db {
    pub struct Helper;
    #[column_set]
    pub struct Info {}
    #[table(\"t\")]
    pub struct T {}
    pub const SCHEMA: &'static str = ::balsaq::__cf::concatcp!(
        < T as ::balsaq::Model >::CREATE_TABLE
    );
}
"
    );
}

#[test]
fn error_no_table_structs() {
    let err = run_err("", "mod db { pub struct NotATable; }");
    assert!(err.contains("no #[table] structs"));
}

#[test]
fn error_non_inline_module() {
    let err = run_err("", "mod db;");
    assert!(err.contains("inline module"));
    assert_eq!(expand("", "mod db;").unwrap_err().site, Site::ItemName);
}

#[test]
fn error_attr_args_rejected() {
    let err = run_err("something", "mod db {}");
    assert!(err.contains("takes no arguments"));
    assert_eq!(expand("something", "mod db {}").unwrap_err().site, Site::Args);
}

#[test]
fn error_not_a_module() {
    let error = expand("", "struct S;").unwrap_err();
    assert_eq!(error.site, Site::Outside);
    assert!(!error.message.is_empty());
}

#[test]
fn last_segment_of_the_path_marks_a_table() {
    let out = run(
        "",
        "pub mod db {
            #[balsaq::table(\"a\")] pub struct A {}
            #[table::other] pub struct B {}
            #[table(\"e\")] pub enum E { X }
            #[derive(Debug)] #[table(\"c\")] pub struct C { x: i64 }
        }",
    );
    assert!(out.contains("< A as ::balsaq::Model >::CREATE_TABLE, < C as ::balsaq::Model"));
    assert!(!out.contains("< B as"));
    assert!(!out.contains("< E as"));
}

#[test]
fn attributes_of_the_module_stay() {
    let out = run("", "#[outer] pub(crate) mod db { #![inner] #[table(\"a\")] struct A {} }");
    assert!(out.starts_with("#[outer]\npub(crate) mod db {\n    #![inner]\n"));
}

#[test]
fn schema_follows_the_order_of_the_tables() {
    let entry = |ty: &str, sql: &str| TableEntry { ty: ty.to_owned(), create_table: sql.to_owned() };
    let catalog = CatalogData {
        columns: Vec::new(),
        groups: Vec::new(),
        tables: vec![entry("B", "create b;"), entry("A", "create a;")],
    };
    let pieces = make_schema(&vec!["A".to_owned(), "B".to_owned()]);
    assert_eq!(evaluate(&pieces, &catalog), Some("create a;create b;".to_owned()));
    let pieces = make_schema(&vec!["A".to_owned(), "C".to_owned()]);
    assert_eq!(evaluate(&pieces, &catalog), None);
}

#[test]
fn schema_entry_point() {
    let out = balsaq::schema("", "mod db { #[table(\"a\")] struct A {} }");
    assert!(out.contains("pub const SCHEMA"));
    let out = balsaq::schema("x", "mod db { #[table(\"a\")] struct A {} }");
    assert!(out.contains("compile_error"));
    assert!(out.contains("#[schema] takes no arguments"));
}
