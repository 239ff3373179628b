use balsaq::decl::{read_struct, FieldData};
use balsaq::error::Site;
use balsaq::expand_group::{
    expand, expand_struct, make_group_entry, make_optional, write_cols, write_vals,
};
use balsaq::sql::{entry_of, CatalogData};

/// The tokens of the code, printed as a token stream prints itself.
fn run(item: &str) -> String {
    let stream: proc_macro2::TokenStream = expand(item).unwrap().parse().unwrap();
    stream.to_string()
}

fn pretty(item: &str) -> String {
    let file: syn::File = syn::parse_str(&expand(item).unwrap()).unwrap();
    prettyplease::unparse(&file)
}

/// The tokens of a source text one by one.
fn flat(text: &str) -> Vec<String> {
    let mut tokens = Vec::new();
    flatten(text.parse().unwrap(), &mut tokens);
    tokens
}

fn flatten(stream: proc_macro2::TokenStream, tokens: &mut Vec<String>) {
    for tree in stream {
        match tree {
            proc_macro2::TokenTree::Group(group) => {
                tokens.push(format!("{:?}", group.delimiter()));
                flatten(group.stream(), tokens);
                tokens.push("end".to_owned());
            },
            other => tokens.push(other.to_string()),
        }
    }
}

fn run_err(item: &str) -> String {
    expand(item).unwrap_err().message
}

fn fields_of(item: &str) -> Vec<FieldData> {
    read_struct(item).ok().unwrap().fields.unwrap()
}

#[test]
fn generates_placeholder_constants() {
    let out = run("pub struct Point { pub x: i64, pub y: i64, }");
    assert!(out.contains("{P}x"));
    assert!(out.contains("{P}y"));
    assert!(out.contains("{P}x, {P}y"));
    assert!(out.contains(":{P}x, :{P}y"));
    assert!(out.contains("Column") && out.contains("SQL_TYPE"));
}

#[test]
fn always_emits_all_four_methods() {
    let out = run("pub struct Sig { pub data: Vec<u8>, pub hash: Vec<u8>, }");
    assert!(out.contains("cg_read"));
    assert!(out.contains("cg_write"));
    assert!(out.contains("cg_read_optional"));
    assert!(out.contains("cg_write_null"));
    assert!(out.contains("Option"));
    assert!(out.contains("Null"));
}

#[test]
fn all_columns_checked_for_null() {
    let out = run("pub struct AllOpt { pub label: Option<String>, pub note: Option<String>, }");
    // Both columns must appear in the all-null check, not just the first.
    assert!(out.contains("label"));
    assert!(out.contains("note"));
    assert!(out.contains("ValueRef :: Null") || out.contains("ValueRef::Null"));
    assert!(out.contains("matches !") || out.contains("matches!"));
}

#[test]
fn expand_group_error_tuple_struct_rejected() {
    let err = run_err("pub struct Bad(i64);");
    assert!(err.contains("named fields"));
}

#[test]
fn error_group_without_fields() {
    let error = expand("pub struct Bad {}").unwrap_err();
    assert_eq!(error.site, Site::ItemName);
    assert_eq!(error.message, "#[group] struct must have at least one field");
}

#[test]
fn error_group_not_a_struct() {
    let error = expand("pub enum Bad { A }").unwrap_err();
    assert_eq!(error.site, Site::Outside);
    assert!(error.message.contains("struct"));
}

#[test]
fn group_code_in_full() {
    let item = "pub struct Point { pub x: i64, pub label: Option<String> }";
    let expected = r#"
        pub struct Point { pub x: i64, pub label: Option<String> }

        impl ::balsaq::ColumnGroup for Point {
            const DDL: &'static str = ::balsaq::__cf::concatcp!(
                "    {P}x ",
                ::balsaq::__cf::str_replace!(<i64 as ::balsaq::Column>::SQL_TYPE, "{col}", "{P}x"),
                ::balsaq::__nn_placeholder(<i64 as ::balsaq::Column>::NULLABLE),
                ",\n",
                "    {P}label ",
                ::balsaq::__cf::str_replace!(
                    <Option<String> as ::balsaq::Column>::SQL_TYPE, "{col}", "{P}label"
                ),
                ::balsaq::__nn_placeholder(<Option<String> as ::balsaq::Column>::NULLABLE)
            );
            const COLS: &'static str = "{P}x, {P}label";
            const VALS: &'static str = ":{P}x, :{P}label";
            const NULLABLE: bool = false;

            fn cg_read(row: &::rusqlite::Row<'_>, prefix: &str) -> ::rusqlite::Result<Self> {
                Ok(Self {
                    x: row.get(format!("{prefix}{}", "x").as_str())?,
                    label: row.get(format!("{prefix}{}", "label").as_str())?,
                })
            }

            fn cg_write<'a>(
                &'a self,
                prefix: &str,
                out: &mut ::std::vec::Vec<(::std::string::String, &'a dyn ::rusqlite::types::ToSql)>,
            ) {
                out.push((format!(":{prefix}{}", "x"), &self.x as &dyn ::rusqlite::types::ToSql));
                out.push((
                    format!(":{prefix}{}", "label"), &self.label as &dyn ::rusqlite::types::ToSql
                ));
            }

            fn cg_read_optional(
                row: &::rusqlite::Row<'_>,
                prefix: &str,
            ) -> ::rusqlite::Result<::std::option::Option<Self>> {
                if matches!(
                    row.get_ref(format!("{prefix}{}", "x").as_str())?,
                    ::rusqlite::types::ValueRef::Null
                ) && matches!(
                    row.get_ref(format!("{prefix}{}", "label").as_str())?,
                    ::rusqlite::types::ValueRef::Null
                ) {
                    ::std::result::Result::Ok(::std::option::Option::None)
                } else {
                    ::std::result::Result::Ok(::std::option::Option::Some(Self {
                        x: row.get(format!("{prefix}{}", "x").as_str())?,
                        label: row.get(format!("{prefix}{}", "label").as_str())?,
                    }))
                }
            }

            fn cg_write_null<'a>(
                prefix: &str,
                out: &mut ::std::vec::Vec<(::std::string::String, &'a dyn ::rusqlite::types::ToSql)>,
            ) {
                static NULL: ::rusqlite::types::Null = ::rusqlite::types::Null;
                out.push((format!(":{prefix}{}", "x"), &NULL as &dyn ::rusqlite::types::ToSql));
                out.push((format!(":{prefix}{}", "label"), &NULL as &dyn ::rusqlite::types::ToSql));
            }
        }
    "#;
    assert_eq!(flat(&expand(item).unwrap()), flat(expected));
}

#[test]
fn group_item_stays_as_it_is() {
    let out = pretty("/// A point.\n#[derive(Debug)] pub struct Point { #[doc(hidden)] pub x: i64 }");
    assert!(out.starts_with(
        "/// A point.\n#[derive(Debug)]\npub struct Point {\n    #[doc(hidden)]\n    pub x: i64,\n}\n"
    ));
}

#[test]
fn group_columns_and_parameters() {
    let fields = fields_of("struct Point { x: i64, y: i64 }");
    assert_eq!(write_cols(&fields), "{P}x, {P}y");
    assert_eq!(write_vals(&fields), ":{P}x, :{P}y");
}

#[test]
fn group_entry_has_placeholders() {
    let catalog: CatalogData = CatalogData {
        columns: vec![
            entry_of::<i64>("i64"),
            entry_of::<bool>("bool"),
            entry_of::<Option<String>>("Option < String >"),
        ],
        groups: Vec::new(),
        tables: Vec::new(),
    };
    let fields = fields_of("struct P { x: i64, on: bool, label: Option<String> }");
    let entry = make_group_entry("P", &fields, &catalog).unwrap();
    assert_eq!(
        entry.ddl,
        "    {P}x INTEGER{NN},\n    {P}on INTEGER CHECK ({P}on IN (0, 1)){NN},\n    {P}label TEXT"
    );
    assert_eq!(entry.cols, "{P}x, {P}on, {P}label");
    assert_eq!(entry.vals, ":{P}x, :{P}on, :{P}label");
    assert!(!entry.nullable);
    let optional = make_optional("Option < P >", &entry);
    assert_eq!(optional.ty, "Option < P >");
    assert_eq!(optional.ddl, entry.ddl);
    assert!(optional.nullable);
}

#[test]
fn group_entry_needs_the_types_of_its_fields() {
    let catalog = CatalogData { columns: Vec::new(), groups: Vec::new(), tables: Vec::new() };
    let fields = fields_of("struct P { x: i64 }");
    assert!(make_group_entry("P", &fields, &catalog).is_none());
}

#[test]
fn group_of_a_given_struct() {
    let decl = read_struct("struct Other(i64);").ok().unwrap();
    let error = expand_struct("struct Other(i64);", &decl).unwrap_err();
    assert_eq!(error.message, "#[group] only supports structs with named fields");
}

#[test]
fn group_entry_point() {
    let out = balsaq::group("", "struct P { x: i64 }");
    assert!(out.contains("impl ::balsaq::ColumnGroup for P {"));
    let out = balsaq::group("something", "struct P { x: i64 }");
    assert!(out.contains("compile_error"));
    assert!(out.contains("#[group] takes no arguments"));
}
