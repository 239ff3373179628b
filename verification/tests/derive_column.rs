use balsaq::derive_column::{collect_values, expand, expand_enum, expand_newtype, write_enum_type};
use balsaq::error::Site;
use balsaq::syntax::{ExprForm, Variant};

fn run(input: &str) -> String {
    let code = expand(input).unwrap();
    let file: syn::File = syn::parse_str(&code).unwrap();
    prettyplease::unparse(&file)
}

fn run_err(input: &str) -> String {
    expand(input).unwrap_err().message
}

fn variant(name: &str, discriminant: Option<ExprForm<String>>) -> Variant<String, ExprForm<String>> {
    Variant { name: name.to_owned(), unit: true, discriminant }
}

// Newtypes

#[test]
fn newtype_generates_to_sql_and_from_sql() {
    let out = run("pub struct UserId(i64);");
    assert_eq!(
        out,
        "\
impl ::rusqlite::types::ToSql for UserId {
    fn to_sql(&self) -> ::rusqlite::Result<::rusqlite::types::ToSqlOutput<'_>> {
        self.0.to_sql()
    }
}
impl ::rusqlite::types::FromSql for UserId {
    fn column_result(
        value: ::rusqlite::types::ValueRef<'_>,
    ) -> ::rusqlite::types::FromSqlResult<Self> {
        <i64 as ::rusqlite::types::FromSql>::column_result(value).map(Self)
    }
}
impl ::balsaq::Column for UserId {
    const SQL_TYPE: &'static str = <i64 as ::balsaq::Column>::SQL_TYPE;
    const NULLABLE: bool = <i64 as ::balsaq::Column>::NULLABLE;
}
"
    );
}

#[test]
fn newtype_inner_type_used_in_from_sql() {
    let out = run("pub struct Name(String);");
    assert!(out.contains("<String as ::rusqlite::types::FromSql>::column_result(value).map(Self)"));
    assert!(out.contains("const SQL_TYPE: &'static str = <String as ::balsaq::Column>::SQL_TYPE;"));
    assert!(out.contains("const NULLABLE: bool = <String as ::balsaq::Column>::NULLABLE;"));
}

#[test]
fn error_named_fields() {
    let err = run_err("pub struct Foo { x: i64 }");
    assert!(err.contains("single-field tuple struct"));
}

#[test]
fn error_multiple_fields() {
    let err = run_err("pub struct Foo(i64, String);");
    assert!(err.contains("single-field tuple struct"));
}

#[test]
fn error_union() {
    let error = expand("pub union Foo { a: i64 }").unwrap_err();
    assert_eq!(error.site, Site::ItemName);
    assert_eq!(
        error.message,
        "derive(Column) requires a single-field tuple struct or a C-like enum with #[repr(integer)]"
    );
}

#[test]
fn error_not_an_item() {
    let error = expand("1 + 1").unwrap_err();
    assert_eq!(error.site, Site::Outside);
    assert!(!error.message.is_empty());
}

#[test]
fn newtype_of_given_types() {
    let types = Some(vec!["i64".to_owned()]);
    let code = expand_newtype("Karma", &types).unwrap();
    assert!(code.contains("impl ::balsaq::Column for Karma {"));
    assert!(code.contains("< i64 as ::balsaq::Column>::SQL_TYPE"));
    assert!(expand_newtype("Karma", &None).is_err());
    assert!(expand_newtype("Karma", &Some(Vec::new())).is_err());
}

// Enums

#[test]
fn enum_generates_all_three_impls() {
    let out = run("#[repr(i64)] pub enum Status { Active = 1, Inactive = 2 }");
    assert_eq!(
        out,
        "\
impl ::rusqlite::types::ToSql for Status {
    fn to_sql(&self) -> ::rusqlite::Result<::rusqlite::types::ToSqlOutput<'_>> {
        ::std::result::Result::Ok(
            match self {
                Self::Active => 1i64,
                Self::Inactive => 2i64,
            }
                .into(),
        )
    }
}
impl ::rusqlite::types::FromSql for Status {
    fn column_result(
        value: ::rusqlite::types::ValueRef<'_>,
    ) -> ::rusqlite::types::FromSqlResult<Self> {
        match <i64 as ::rusqlite::types::FromSql>::column_result(value)? {
            1i64 => ::std::result::Result::Ok(Self::Active),
            2i64 => ::std::result::Result::Ok(Self::Inactive),
            n => {
                ::std::result::Result::Err(
                    ::rusqlite::types::FromSqlError::OutOfRange(n),
                )
            }
        }
    }
}
impl ::balsaq::Column for Status {
    const SQL_TYPE: &'static str = \"INTEGER CHECK ({col} IN (1, 2))\";
    const NULLABLE: bool = false;
}
"
    );
}

#[test]
fn enum_need_not_be_copied() {
    let out = run("#[repr(i64)] pub enum Status { Active = 1, Inactive = 2 }");
    assert!(!out.contains("*self"));
    assert!(out.contains("Self::Active => 1i64,"));
    assert!(out.contains("Self::Inactive => 2i64,"));
}

#[test]
fn enum_check_constraint_contains_discriminants() {
    let out = run("#[repr(i64)] pub enum Kind { A = 0, B = 1, C = 5 }");
    assert!(out.contains("const SQL_TYPE: &'static str = \"INTEGER CHECK ({col} IN (0, 1, 5))\";"));
    assert!(out.contains("0i64 => ::std::result::Result::Ok(Self::A),"));
    assert!(out.contains("1i64 => ::std::result::Result::Ok(Self::B),"));
    assert!(out.contains("5i64 => ::std::result::Result::Ok(Self::C),"));
}

#[test]
fn enum_implicit_discriminants() {
    let out = run("#[repr(i64)] pub enum Tri { X, Y, Z }");
    assert!(out.contains("\"INTEGER CHECK ({col} IN (0, 1, 2))\""));
    assert!(out.contains("0i64 => ::std::result::Result::Ok(Self::X),"));
    assert!(out.contains("1i64 => ::std::result::Result::Ok(Self::Y),"));
    assert!(out.contains("2i64 => ::std::result::Result::Ok(Self::Z),"));
}

#[test]
fn enum_negative_discriminants_count_up() {
    let out = run("#[repr(i8)] enum Sign { Minus = -1, Zero, Plus }");
    assert!(out.contains("\"INTEGER CHECK ({col} IN (-1, 0, 1))\""));
    assert!(out.contains("-1i64 => ::std::result::Result::Ok(Self::Minus),"));
    assert!(out.contains("Self::Minus => -1i64,"));
}

#[test]
fn enum_accepts_every_integer_representation() {
    for repr in
        ["i8", "i16", "i32", "i64", "i128", "u8", "u16", "u32", "u64", "u128", "isize", "usize"]
    {
        assert!(expand(&format!("#[repr({repr})] enum E {{ A }}")).is_ok());
    }
}

#[test]
fn error_enum_missing_repr() {
    let err = run_err("pub enum Foo { A, B }");
    assert!(err.contains("#[repr(integer)]"));
}

#[test]
fn error_enum_other_repr() {
    for attr in ["#[repr(C)]", "#[repr(i64, C)]", "#[repr]", "#[repr = \"i64\"]", "#[other(i64)]"] {
        let error = expand(&format!("{attr} enum Foo {{ A }}")).unwrap_err();
        assert_eq!(error.site, Site::ItemName);
        assert_eq!(
            error.message,
            "derive(Column) on an enum requires #[repr(integer)], e.g. #[repr(i64)]"
        );
    }
}

#[test]
fn error_enum_without_variants() {
    let error = expand("#[repr(i64)] enum Foo {}").unwrap_err();
    assert_eq!(error.site, Site::ItemName);
    assert_eq!(error.message, "derive(Column) requires at least one variant");
}

#[test]
fn error_enum_non_unit_variant() {
    let err = run_err("#[repr(i64)] pub enum Foo { A = 0, B(i64) = 1 }");
    assert!(err.contains("unit variants"));
    let error = expand("#[repr(i64)] pub enum Foo { A = 0, B(i64) = 1 }").unwrap_err();
    assert_eq!(error.site, Site::Variant(1));
}

#[test]
fn error_enum_non_literal_discriminant() {
    let err = run_err("#[repr(i64)] pub enum Foo { A = SOME_CONST }");
    assert!(err.contains("integer literal"));
    let error = expand("#[repr(i64)] enum Foo { A, B = -SOME_CONST }").unwrap_err();
    assert_eq!(error.site, Site::Discriminant(1));
    assert_eq!(error.message, "discriminant must be an integer literal");
}

#[test]
fn error_enum_literal_out_of_range() {
    let error = expand("#[repr(i64)] enum Foo { A = 9223372036854775808 }").unwrap_err();
    assert_eq!(error.site, Site::Discriminant(0));
    assert_eq!(error.message, "number too large to fit in target type");
}

#[test]
fn error_enum_discriminant_overflow() {
    let error = expand("#[repr(i64)] enum Foo { A = 9223372036854775807 }").unwrap_err();
    assert_eq!(error.site, Site::ItemName);
    assert_eq!(error.message, "discriminant overflow");
}

#[test]
fn values_of_given_variants() {
    let variants = vec![
        variant("A", None),
        variant("B", Some(ExprForm::Int(Ok(7)))),
        variant("C", None),
        variant("D", Some(ExprForm::Negated(Ok(3)))),
        variant("E", None),
    ];
    let values = collect_values(&variants).unwrap();
    assert_eq!(values, vec![0, 7, 8, -3, -2]);
    assert_eq!(write_enum_type(&values), "INTEGER CHECK ({col} IN (0, 7, 8, -3, -2))");
    assert!(expand_enum("E", &Vec::new(), &variants).is_err());
}

#[test]
fn entry_point_reports_errors() {
    let out = balsaq::derive_column("pub enum Foo { A }");
    assert_eq!(
        out,
        ":: core :: compile_error ! { \"derive(Column) on an enum requires #[repr(integer)], e.g. #[repr(i64)]\" }"
    );
    let out = balsaq::derive_column("pub struct UserId(i64);");
    assert!(out.contains("impl ::balsaq::Column for UserId"));
}
