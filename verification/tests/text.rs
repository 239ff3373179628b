use balsaq::sql::{
    evaluate, evaluate_piece, write_piece, CatalogData, ColumnEntry, GroupEntry, Piece,
};
use balsaq::text::{
    chars_of, decimal, filled, filled1, join_all, replace_all, same, signed_decimal, without_raw,
};
use balsaq::{__nn_placeholder, __null_qualifier, Column};

fn strings(items: &[&str]) -> Vec<String> {
    items.iter().map(|item| (*item).to_owned()).collect()
}

#[test]
fn joining() {
    assert_eq!(join_all(&strings(&[]), ", "), "");
    assert_eq!(join_all(&strings(&["a"]), ", "), "a");
    assert_eq!(join_all(&strings(&["a", "", "c"]), ", "), "a, , c");
}

#[test]
fn filling() {
    assert_eq!(filled("$ and $", &strings(&["a$", "b"])), "a$ and b");
    assert_eq!(filled("$ and $", &strings(&["a"])), "a and $");
    assert_eq!(filled1("<$>", "x"), "<x>");
}

#[test]
fn replacing() {
    assert_eq!(replace_all("INTEGER CHECK ({col} IN (0, 1))", "{col}", "on"), "INTEGER CHECK (on IN (0, 1))");
    assert_eq!(replace_all("aaa", "aa", "b"), "ba");
    assert_eq!(replace_all("abc", "", "x"), "abc");
    assert_eq!(replace_all("{P}{P}", "{P}", "{P}x"), "{P}x{P}x");
}

#[test]
fn comparing() {
    assert!(same("", ""));
    assert!(same("añb", "añb"));
    assert!(!same("a", "b"));
    assert_eq!(chars_of("añb"), vec!['a', 'ñ', 'b']);
}

#[test]
fn raw_identifiers() {
    assert_eq!(without_raw("r#type"), "type");
    assert_eq!(without_raw("r"), "r");
    assert_eq!(without_raw("row"), "row");
}

#[test]
fn numerals() {
    assert_eq!(decimal(0), "0");
    assert_eq!(decimal(10), "10");
    assert_eq!(decimal(u64::MAX), "18446744073709551615");
    assert_eq!(signed_decimal(-1), "-1");
    assert_eq!(signed_decimal(i64::MIN), "-9223372036854775808");
    assert_eq!(signed_decimal(i64::MAX), "9223372036854775807");
}

#[test]
fn qualifiers() {
    assert_eq!(__null_qualifier(true), "");
    assert_eq!(__null_qualifier(false), " NOT NULL");
    assert_eq!(__nn_placeholder(true), "");
    assert_eq!(__nn_placeholder(false), "{NN}");
}

#[test]
fn column_types() {
    assert_eq!(<i32 as Column>::SQL_TYPE, "INTEGER");
    assert_eq!(<i64 as Column>::SQL_TYPE, "INTEGER");
    assert_eq!(<String as Column>::SQL_TYPE, "TEXT");
    assert_eq!(<Vec<u8> as Column>::SQL_TYPE, "BLOB");
    assert_eq!(<[u8; 9] as Column>::SQL_TYPE, "BLOB");
    assert_eq!(<bool as Column>::SQL_TYPE, "INTEGER CHECK ({col} IN (0, 1))");
    assert_eq!(<Option<bool> as Column>::SQL_TYPE, "INTEGER CHECK ({col} IN (0, 1))");
    assert!(<Option<i32> as Column>::NULLABLE);
    assert!(!<i32 as Column>::NULLABLE);
}

fn catalog() -> CatalogData {
    CatalogData {
        columns: vec![ColumnEntry {
            ty: "T".to_owned(),
            sql_type: "INT({col})".to_owned(),
            nullable: false,
        }],
        groups: vec![GroupEntry {
            ty: "G".to_owned(),
            ddl: "    {P}a INT{NN}".to_owned(),
            cols: "{P}a".to_owned(),
            vals: ":{P}a".to_owned(),
            nullable: true,
        }],
        tables: Vec::new(),
    }
}

#[test]
fn fixed_text_is_a_literal_with_its_value() {
    for text in ["", "a", "a\"b\\c", "line\nnext\ttab", "it's", "\0", "\u{301}é", "{col} = ?1"] {
        let code = write_piece(&Piece::Text(text.to_owned()));
        assert_ne!(code, text);
        assert_eq!(syn::parse_str::<syn::LitStr>(&code).unwrap().value(), text);
    }
    assert_eq!(write_piece(&Piece::Text("a\n\"b\"".to_owned())), "\"a\\n\\\"b\\\"\"");
}

#[test]
fn pieces_evaluate() {
    let catalog = catalog();
    let ty = || "T".to_owned();
    let group = || "G".to_owned();
    let prefix = || "g_".to_owned();
    let text = |piece: Piece<String>| evaluate_piece(&piece, &catalog).unwrap();
    assert_eq!(text(Piece::Text("x".to_owned())), "x");
    assert_eq!(text(Piece::ColumnType { ty: ty(), column: "c".to_owned() }), "INT(c)");
    assert_eq!(text(Piece::ColumnQualifier { ty: ty() }), " NOT NULL");
    assert_eq!(text(Piece::ColumnPlaceholder { ty: ty() }), "{NN}");
    assert_eq!(text(Piece::GroupDdl { ty: group(), prefix: prefix() }), "    g_a INT");
    assert_eq!(text(Piece::RequiredDdl { ty: group(), prefix: prefix() }), "    g_a INT NOT NULL");
    assert_eq!(text(Piece::GroupCols { ty: group(), prefix: prefix() }), "g_a");
    assert_eq!(text(Piece::GroupVals { ty: group(), prefix: prefix() }), ":g_a");
    assert!(evaluate_piece(&Piece::ColumnQualifier { ty: "U".to_owned() }, &catalog).is_none());
    assert!(evaluate_piece(&Piece::GroupCols { ty: ty(), prefix: prefix() }, &catalog).is_none());
    let pieces = vec![Piece::Text("a".to_owned()), Piece::ColumnQualifier { ty: "U".to_owned() }];
    assert!(evaluate(&pieces, &catalog).is_none());
}
