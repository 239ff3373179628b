use balsaq::args::{parse_table_args, read_tokens, TableArgs};
use balsaq::decl::read_struct;
use balsaq::derive_column::{make_enum_entry, make_newtype_entry};
use balsaq::expand_group::{make_group_entry, make_optional};
use balsaq::expand_schema::make_schema;
use balsaq::fields::{classify_all, sort_attrs};
use balsaq::sql::{
    entry_of, evaluate, CatalogData, ColumnEntry, GroupEntry, TableEntry,
};
use balsaq::table_sql::{make_create, make_get, make_get_by, make_insert, make_select};
use balsaq::rules::collect_keys;
use balsaq::{Column, ColumnGroup};
use quote::ToTokens;
use rusqlite::types::{FromSql, FromSqlError, FromSqlResult, Null, ToSql, ToSqlOutput, ValueRef};
use rusqlite::{Connection, Row};

// ── Columns ───────────────────────────────────────────────────────────────────

#[derive(Clone, Copy, PartialEq, Debug)]
pub struct Karma(i64);

#[derive(Clone, PartialEq, Debug)]
pub struct Label(String);

impl Column for Karma {
    const SQL_TYPE: &'static str = <i64 as Column>::SQL_TYPE;
    const NULLABLE: bool = <i64 as Column>::NULLABLE;
}

impl Column for Label {
    const SQL_TYPE: &'static str = <String as Column>::SQL_TYPE;
    const NULLABLE: bool = <String as Column>::NULLABLE;
}

impl ToSql for Karma {
    fn to_sql(&self) -> rusqlite::Result<ToSqlOutput<'_>> {
        self.0.to_sql()
    }
}

impl ToSql for Label {
    fn to_sql(&self) -> rusqlite::Result<ToSqlOutput<'_>> {
        self.0.to_sql()
    }
}

impl FromSql for Karma {
    fn column_result(value: ValueRef<'_>) -> FromSqlResult<Self> {
        <i64 as FromSql>::column_result(value).map(Self)
    }
}

impl FromSql for Label {
    fn column_result(value: ValueRef<'_>) -> FromSqlResult<Self> {
        <String as FromSql>::column_result(value).map(Self)
    }
}

#[derive(Clone, Copy, PartialEq, Debug)]
pub enum Status {
    Active,
    Deleted,
}

impl ToSql for Status {
    fn to_sql(&self) -> rusqlite::Result<ToSqlOutput<'_>> {
        let value: i64 = match self {
            Self::Active => 1,
            Self::Deleted => 3,
        };
        Ok(value.into())
    }
}

impl FromSql for Status {
    fn column_result(value: ValueRef<'_>) -> FromSqlResult<Self> {
        match <i64 as FromSql>::column_result(value)? {
            1 => Ok(Self::Active),
            3 => Ok(Self::Deleted),
            n => Err(FromSqlError::OutOfRange(n)),
        }
    }
}

#[derive(Clone, Copy, Debug, PartialEq, Eq)]
pub struct BlobId([u8; 4]);

impl BlobId {
    fn new(b: u8) -> Self {
        Self([b; 4])
    }
}

impl ToSql for BlobId {
    fn to_sql(&self) -> rusqlite::Result<ToSqlOutput<'_>> {
        Ok(ToSqlOutput::Borrowed(ValueRef::Blob(&self.0)))
    }
}

impl FromSql for BlobId {
    fn column_result(value: ValueRef<'_>) -> FromSqlResult<Self> {
        let bytes: Vec<u8> = Vec::column_result(value)?;
        let arr: [u8; 4] = bytes.try_into().map_err(|_| FromSqlError::InvalidType)?;
        Ok(Self(arr))
    }
}

impl Column for BlobId {
    const SQL_TYPE: &'static str = "BLOB";
    const NULLABLE: bool = false;
}

// ── Groups ────────────────────────────────────────────────────────────────────

type Params<'a> = Vec<(String, &'a (dyn ToSql + 'static))>;

fn absent(row: &Row<'_>, prefix: &str, names: &[&str]) -> rusqlite::Result<bool> {
    for name in names {
        if !matches!(row.get_ref(format!("{prefix}{name}").as_str())?, ValueRef::Null) {
            return Ok(false);
        }
    }
    Ok(true)
}

fn write_nulls<'a>(prefix: &str, names: &[&str], out: &mut Params<'a>) {
    for name in names {
        out.push((format!(":{prefix}{name}"), &Null));
    }
}

#[derive(Clone, PartialEq, Debug)]
pub struct AuthorInfo {
    pub name: String,
    pub karma: i64,
}

const AUTHOR_INFO: &str = "pub struct AuthorInfo { pub name: String, pub karma: i64 }";

impl<'r> ColumnGroup<Row<'r>, rusqlite::Error, dyn ToSql> for AuthorInfo {
    const DDL: &'static str = "    {P}name TEXT{NN},\n    {P}karma INTEGER{NN}";
    const COLS: &'static str = "{P}name, {P}karma";
    const VALS: &'static str = ":{P}name, :{P}karma";
    const NULLABLE: bool = false;

    fn cg_read(row: &Row<'r>, prefix: &str) -> rusqlite::Result<Self> {
        Ok(Self {
            name: row.get(format!("{prefix}name").as_str())?,
            karma: row.get(format!("{prefix}karma").as_str())?,
        })
    }

    fn cg_write<'a>(&'a self, prefix: &str, out: &mut Params<'a>) {
        out.push((format!(":{prefix}name"), &self.name));
        out.push((format!(":{prefix}karma"), &self.karma));
    }

    fn cg_read_optional(row: &Row<'r>, prefix: &str) -> rusqlite::Result<Option<Self>> {
        if absent(row, prefix, &["name", "karma"])? {
            Ok(None)
        } else {
            read(row, prefix).map(Some)
        }
    }

    fn cg_write_null<'a>(prefix: &str, out: &mut Params<'a>) {
        write_nulls(prefix, &["name", "karma"], out);
    }
}

#[derive(Clone, PartialEq, Debug)]
pub struct Sig {
    pub data: Vec<u8>,
    pub hash: Vec<u8>,
}

const SIG: &str = "pub struct Sig { pub data: Vec<u8>, pub hash: Vec<u8> }";

impl<'r> ColumnGroup<Row<'r>, rusqlite::Error, dyn ToSql> for Sig {
    const DDL: &'static str = "    {P}data BLOB{NN},\n    {P}hash BLOB{NN}";
    const COLS: &'static str = "{P}data, {P}hash";
    const VALS: &'static str = ":{P}data, :{P}hash";
    const NULLABLE: bool = false;

    fn cg_read(row: &Row<'r>, prefix: &str) -> rusqlite::Result<Self> {
        Ok(Self {
            data: row.get(format!("{prefix}data").as_str())?,
            hash: row.get(format!("{prefix}hash").as_str())?,
        })
    }

    fn cg_write<'a>(&'a self, prefix: &str, out: &mut Params<'a>) {
        out.push((format!(":{prefix}data"), &self.data));
        out.push((format!(":{prefix}hash"), &self.hash));
    }

    fn cg_read_optional(row: &Row<'r>, prefix: &str) -> rusqlite::Result<Option<Self>> {
        if absent(row, prefix, &["data", "hash"])? {
            Ok(None)
        } else {
            read(row, prefix).map(Some)
        }
    }

    fn cg_write_null<'a>(prefix: &str, out: &mut Params<'a>) {
        write_nulls(prefix, &["data", "hash"], out);
    }
}

#[derive(Clone, PartialEq, Debug)]
pub struct PartialPoint {
    pub x: i64,
    pub label: Option<String>,
}

const PARTIAL_POINT: &str = "pub struct PartialPoint { pub x: i64, pub label: Option<String> }";

impl<'r> ColumnGroup<Row<'r>, rusqlite::Error, dyn ToSql> for PartialPoint {
    const DDL: &'static str = "    {P}x INTEGER{NN},\n    {P}label TEXT";
    const COLS: &'static str = "{P}x, {P}label";
    const VALS: &'static str = ":{P}x, :{P}label";
    const NULLABLE: bool = false;

    fn cg_read(row: &Row<'r>, prefix: &str) -> rusqlite::Result<Self> {
        Ok(Self {
            x: row.get(format!("{prefix}x").as_str())?,
            label: row.get(format!("{prefix}label").as_str())?,
        })
    }

    fn cg_write<'a>(&'a self, prefix: &str, out: &mut Params<'a>) {
        out.push((format!(":{prefix}x"), &self.x));
        out.push((format!(":{prefix}label"), &self.label));
    }

    fn cg_read_optional(row: &Row<'r>, prefix: &str) -> rusqlite::Result<Option<Self>> {
        if absent(row, prefix, &["x", "label"])? {
            Ok(None)
        } else {
            read(row, prefix).map(Some)
        }
    }

    fn cg_write_null<'a>(prefix: &str, out: &mut Params<'a>) {
        write_nulls(prefix, &["x", "label"], out);
    }
}

#[derive(Clone, PartialEq, Debug)]
pub enum Value {
    Number(i64),
    Text(String),
}

pub struct ValueRaw {
    pub number: Option<i64>,
    pub text: Option<String>,
}

const VALUE_RAW: &str = "pub struct ValueRaw { pub number: Option<i64>, pub text: Option<String> }";

impl From<Value> for ValueRaw {
    fn from(v: Value) -> Self {
        match v {
            Value::Number(n) => Self { number: Some(n), text: None },
            Value::Text(s) => Self { number: None, text: Some(s) },
        }
    }
}

impl TryFrom<ValueRaw> for Value {
    type Error = rusqlite::Error;

    fn try_from(raw: ValueRaw) -> rusqlite::Result<Self> {
        match (raw.number, raw.text) {
            (Some(n), None) => Ok(Self::Number(n)),
            (None, Some(s)) => Ok(Self::Text(s)),
            _ => Err(rusqlite::Error::InvalidQuery),
        }
    }
}

impl<'r> ColumnGroup<Row<'r>, rusqlite::Error, dyn ToSql> for ValueRaw {
    const DDL: &'static str = "    {P}number INTEGER,\n    {P}text TEXT";
    const COLS: &'static str = "{P}number, {P}text";
    const VALS: &'static str = ":{P}number, :{P}text";
    const NULLABLE: bool = false;

    fn cg_read(row: &Row<'r>, prefix: &str) -> rusqlite::Result<Self> {
        Ok(Self {
            number: row.get(format!("{prefix}number").as_str())?,
            text: row.get(format!("{prefix}text").as_str())?,
        })
    }

    fn cg_write<'a>(&'a self, prefix: &str, out: &mut Params<'a>) {
        out.push((format!(":{prefix}number"), &self.number));
        out.push((format!(":{prefix}text"), &self.text));
    }

    fn cg_read_optional(row: &Row<'r>, prefix: &str) -> rusqlite::Result<Option<Self>> {
        if absent(row, prefix, &["number", "text"])? {
            Ok(None)
        } else {
            read(row, prefix).map(Some)
        }
    }

    fn cg_write_null<'a>(prefix: &str, out: &mut Params<'a>) {
        write_nulls(prefix, &["number", "text"], out);
    }
}

fn read<'r, T: ColumnGroup<Row<'r>, rusqlite::Error, dyn ToSql>>(
    row: &Row<'r>,
    prefix: &str,
) -> rusqlite::Result<T> {
    T::cg_read(row, prefix)
}

fn write<'a, T: ColumnGroup<Row<'static>, rusqlite::Error, dyn ToSql>>(
    value: &'a T,
    prefix: &str,
    out: &mut Params<'a>,
) {
    value.cg_write(prefix, out);
}

// ── SQL ───────────────────────────────────────────────────────────────────────

fn ty(text: &str) -> String {
    syn::parse_str::<syn::Type>(text).unwrap().to_token_stream().to_string()
}

fn column<T: Column>(text: &str) -> ColumnEntry<String> {
    entry_of::<T>(&ty(text))
}

fn add_group(catalog: &mut CatalogData, name: &str, item: &str) {
    let fields = read_struct(item).ok().unwrap().fields.unwrap();
    let entry = make_group_entry(name, &fields, catalog).unwrap();
    catalog.groups.push(make_optional(&ty(&format!("Option<{name}>")), &entry));
    catalog.groups.push(entry);
}

fn catalog() -> CatalogData {
    let status = vec![1, 2, 3];
    let mut catalog = CatalogData {
        columns: vec![
            column::<i64>("i64"),
            column::<String>("String"),
            column::<bool>("bool"),
            column::<Vec<u8>>("Vec<u8>"),
            column::<[u8; 4]>("[u8; 4]"),
            column::<BlobId>("BlobId"),
            column::<Option<i64>>("Option<i64>"),
            column::<Option<String>>("Option<String>"),
            column::<Option<bool>>("Option<bool>"),
            column::<Option<Vec<u8>>>("Option<Vec<u8>>"),
            make_enum_entry("Status", &status),
            ColumnEntry { nullable: true, ..make_enum_entry(&ty("Option<Status>"), &status) },
            ColumnEntry { ty: ty("f64"), sql_type: "REAL".to_owned(), nullable: false },
        ],
        groups: Vec::new(),
        tables: Vec::new(),
    };
    let karma = make_newtype_entry("Karma", "i64", &catalog).unwrap();
    let label = make_newtype_entry("Label", "String", &catalog).unwrap();
    catalog.columns.push(karma);
    catalog.columns.push(label);
    add_group(&mut catalog, "AuthorInfo", AUTHOR_INFO);
    add_group(&mut catalog, "Sig", SIG);
    add_group(&mut catalog, "PartialPoint", PARTIAL_POINT);
    add_group(&mut catalog, "ValueRaw", VALUE_RAW);
    catalog
}

struct Sql {
    create: String,
    select: String,
    insert: String,
    get: String,
    get_by: Vec<String>,
}

fn sql(attr: &str, item: &str) -> Sql {
    let catalog = catalog();
    let args = parse_table_args(&read_tokens(attr).ok().unwrap()).ok().unwrap();
    let decl = read_struct(item).ok().unwrap();
    let attrs = sort_attrs(&decl.attrs).ok().unwrap();
    let infos = classify_all(&decl.fields.unwrap()).ok().unwrap();
    let track_last_update = args.track_last_update || attrs.track;
    let args = TableArgs { track_last_update, ..args };
    let unique = collect_keys(&infos, true);
    let get_by = unique.iter().map(|key| {
        evaluate(&make_get_by(&args.table, &infos, key), &catalog).unwrap()
    });
    Sql {
        create: evaluate(&make_create(&args, &infos, &attrs.indexes), &catalog).unwrap(),
        select: evaluate(&make_select(&args, &infos), &catalog).unwrap(),
        insert: evaluate(&make_insert(&args, &infos), &catalog).unwrap(),
        get: evaluate(&make_get(&args, &infos), &catalog).unwrap(),
        get_by: get_by.collect(),
    }
}

fn assert_valid_ddl(sql: &str) {
    Connection::open_in_memory().unwrap().execute_batch(sql).unwrap();
}

fn open(sql: &Sql) -> Connection {
    let conn = Connection::open_in_memory().unwrap();
    conn.execute_batch(&sql.create).unwrap();
    conn
}

fn insert(conn: &Connection, sql: &Sql, params: &Params<'_>) {
    let params: Vec<(&str, &dyn ToSql)> = params.iter().map(|(k, v)| (k.as_str(), *v)).collect();
    conn.prepare_cached(&sql.insert).unwrap().execute(params.as_slice()).unwrap();
}

// ── Schema constant ───────────────────────────────────────────────────────────

fn alpha() -> Sql {
    sql("\"alpha\"", "pub struct Alpha { #[primary_key] pub id: i64 }")
}

fn beta() -> Sql {
    sql("\"beta\"", "pub struct Beta { #[primary_key] pub id: i64, pub label: String }")
}

#[test]
fn schema_constant_concatenates_create_tables() {
    let mut catalog = catalog();
    catalog.tables.push(TableEntry { ty: "Alpha".to_owned(), create_table: alpha().create });
    catalog.tables.push(TableEntry { ty: "Beta".to_owned(), create_table: beta().create });
    let pieces = make_schema(&vec!["Alpha".to_owned(), "Beta".to_owned()]);
    let schema = evaluate(&pieces, &catalog).unwrap();
    assert_eq!(
        schema,
        "CREATE TABLE IF NOT EXISTS alpha (\n    id INTEGER NOT NULL,\n    PRIMARY KEY (id)\n);\n\
         CREATE TABLE IF NOT EXISTS beta (\n    id INTEGER NOT NULL,\n    label TEXT NOT NULL,\n    PRIMARY KEY (id)\n);\n"
    );
    assert_valid_ddl(&schema);
}

// ── Widgets ───────────────────────────────────────────────────────────────────

struct Widget {
    id: BlobId,
    name: String,
}

impl Widget {
    fn sql() -> Sql {
        sql(
            "\"widgets\"",
            "#[index(name)] pub struct Widget { #[primary_key] pub id: BlobId, pub name: String }",
        )
    }

    fn from_row(row: &Row<'_>) -> rusqlite::Result<Self> {
        Ok(Self { id: row.get("id")?, name: row.get("name")? })
    }

    fn insert(self, conn: &Connection, sql: &Sql) {
        let params: Params<'_> = vec![(":id".to_owned(), &self.id), (":name".to_owned(), &self.name)];
        insert(conn, sql, &params);
    }
}

#[test]
fn widget_constants() {
    let sql = Widget::sql();
    assert_eq!(sql.select, "SELECT id, name FROM widgets");
    assert_eq!(
        sql.insert,
        "INSERT OR IGNORE INTO widgets (id, name) VALUES (:id, :name)"
    );
    assert_eq!(
        sql.create,
        "CREATE TABLE IF NOT EXISTS widgets (\n    id BLOB NOT NULL,\n    name TEXT NOT NULL,\n    PRIMARY KEY (id)\n);\n\
         CREATE INDEX IF NOT EXISTS idx_widgets_name ON widgets (name);\n"
    );
    assert_valid_ddl(&sql.create);
}

#[test]
fn widget_roundtrip() {
    let sql = Widget::sql();
    let conn = open(&sql);
    Widget { id: BlobId::new(1), name: "sprocket".to_owned() }.insert(&conn, &sql);
    let got = conn
        .prepare_cached(&format!("{} WHERE id = ?1", sql.select))
        .unwrap()
        .query_row((&BlobId::new(1),), Widget::from_row)
        .unwrap();
    assert_eq!(got.id, BlobId::new(1));
    assert_eq!(got.name, "sprocket");
}

#[test]
fn widget_insert_do_nothing() {
    let sql = Widget::sql();
    let conn = open(&sql);
    Widget { id: BlobId::new(2), name: "first".to_owned() }.insert(&conn, &sql);
    Widget { id: BlobId::new(2), name: "second".to_owned() }.insert(&conn, &sql);
    let got = conn
        .prepare_cached(&format!("{} WHERE id = ?1", sql.select))
        .unwrap()
        .query_row((&BlobId::new(2),), Widget::from_row)
        .unwrap();
    assert_eq!(got.name, "first");
}

#[test]
fn get_by_single_pk() {
    let sql = Widget::sql();
    let conn = open(&sql);
    Widget { id: BlobId::new(7), name: "bolt".to_owned() }.insert(&conn, &sql);
    assert_eq!(sql.get, "SELECT id, name FROM widgets WHERE id = ?1");
    let get = |id: BlobId| {
        conn.prepare_cached(&sql.get).unwrap().query_row((&id,), Widget::from_row)
    };
    let found = get(BlobId::new(7)).unwrap();
    assert_eq!(found.name, "bolt");
    assert!(matches!(get(BlobId::new(99)), Err(rusqlite::Error::QueryReturnedNoRows)));
}

// ── Posts ─────────────────────────────────────────────────────────────────────

struct Post {
    id: BlobId,
    title: String,
    author: AuthorInfo,
    sig: Option<Sig>,
}

impl Post {
    fn sql() -> Sql {
        sql(
            "\"posts\"",
            "#[index(title)]
            #[index(id, title, unique = true)]
            pub struct Post {
                #[primary_key]
                pub id: BlobId,
                pub title: String,
                #[group]
                pub author: AuthorInfo,
                #[group]
                pub sig: Option<Sig>,
            }",
        )
    }

    fn from_row(row: &Row<'_>) -> rusqlite::Result<Self> {
        Ok(Self {
            id: row.get("id")?,
            title: row.get("title")?,
            author: read(row, "author_")?,
            sig: read(row, "sig_")?,
        })
    }

    fn insert(self, conn: &Connection, sql: &Sql) {
        let mut params: Params<'_> =
            vec![(":id".to_owned(), &self.id), (":title".to_owned(), &self.title)];
        write(&self.author, "author_", &mut params);
        write(&self.sig, "sig_", &mut params);
        insert(conn, sql, &params);
    }
}

fn make_post(id: u8, with_sig: bool) -> Post {
    Post {
        id: BlobId::new(id),
        title: "Hello".to_owned(),
        author: AuthorInfo { name: "Alice".to_owned(), karma: 42 },
        sig: if with_sig {
            Some(Sig { data: vec![0xde, 0xad], hash: vec![0xbe, 0xef] })
        } else {
            None
        },
    }
}

fn fetch_post(conn: &Connection, sql: &Sql, id: u8) -> Post {
    conn.prepare_cached(&format!("{} WHERE id = ?1", sql.select))
        .unwrap()
        .query_row((&BlobId::new(id),), Post::from_row)
        .unwrap()
}

#[test]
fn post_schema_constants() {
    let sql = Post::sql();
    assert_eq!(
        sql.select,
        "SELECT id, title, author_name, author_karma, sig_data, sig_hash FROM posts"
    );
    assert_eq!(
        sql.insert,
        "INSERT OR IGNORE INTO posts (id, title, author_name, author_karma, sig_data, sig_hash) \
         VALUES (:id, :title, :author_name, :author_karma, :sig_data, :sig_hash)"
    );
    assert_eq!(
        sql.create,
        "CREATE TABLE IF NOT EXISTS posts (\n    id BLOB NOT NULL,\n    title TEXT NOT NULL,\n    \
         author_name TEXT NOT NULL,\n    author_karma INTEGER NOT NULL,\n    sig_data BLOB,\n    \
         sig_hash BLOB,\n    PRIMARY KEY (id)\n);\n\
         CREATE INDEX IF NOT EXISTS idx_posts_title ON posts (title);\n\
         CREATE UNIQUE INDEX IF NOT EXISTS idx_posts_id_title ON posts (id, title);\n"
    );
    assert_valid_ddl(&sql.create);
}

#[test]
fn post_roundtrip_with_sig() {
    let sql = Post::sql();
    let conn = open(&sql);
    make_post(1, true).insert(&conn, &sql);
    let got = fetch_post(&conn, &sql, 1);

    assert_eq!(got.id, BlobId::new(1));
    assert_eq!(got.title, "Hello");
    assert_eq!(got.author.name, "Alice");
    assert_eq!(got.author.karma, 42);

    let sig = got.sig.expect("sig should be Some");
    assert_eq!(sig.data, vec![0xde, 0xad]);
    assert_eq!(sig.hash, vec![0xbe, 0xef]);
}

#[test]
fn post_roundtrip_without_sig() {
    let sql = Post::sql();
    let conn = open(&sql);
    make_post(2, false).insert(&conn, &sql);
    let got = fetch_post(&conn, &sql, 2);

    assert_eq!(got.id, BlobId::new(2));
    assert_eq!(got.author.name, "Alice");
    assert!(got.sig.is_none());
}

#[test]
fn post_optional_sig_none_to_some_distinction() {
    let sql = Post::sql();
    let conn = open(&sql);
    make_post(3, true).insert(&conn, &sql);
    make_post(4, false).insert(&conn, &sql);

    assert!(fetch_post(&conn, &sql, 3).sig.is_some());
    assert!(fetch_post(&conn, &sql, 4).sig.is_none());
}

// ── Entries ───────────────────────────────────────────────────────────────────

fn entry_sql() -> Sql {
    sql(
        "\"entries\"",
        "pub struct Entry { #[primary_key] pub id: i64, #[group(via = ValueRaw)] pub value: Value }",
    )
}

#[test]
fn entry_schema_uses_raw_type_columns() {
    let sql = entry_sql();
    assert_eq!(sql.select, "SELECT id, value_number, value_text FROM entries");
    assert_eq!(
        sql.insert,
        "INSERT OR IGNORE INTO entries (id, value_number, value_text) \
         VALUES (:id, :value_number, :value_text)"
    );
    assert_eq!(
        sql.create,
        "CREATE TABLE IF NOT EXISTS entries (\n    id INTEGER NOT NULL,\n    value_number INTEGER,\n    \
         value_text TEXT,\n    PRIMARY KEY (id)\n);\n"
    );
    assert_valid_ddl(&sql.create);
}

#[test]
fn entry_via_roundtrip() {
    let sql = entry_sql();
    let conn = open(&sql);
    let put = |id: i64, value: Value| {
        let raw = ValueRaw::from(value);
        let mut params: Params<'_> = vec![(":id".to_owned(), &id)];
        write(&raw, "value_", &mut params);
        insert(&conn, &sql, &params);
    };
    put(1, Value::Number(42));
    put(2, Value::Text("hello".to_owned()));

    let fetch = |id: i64| {
        conn.prepare_cached(&format!("{} WHERE id = ?1", sql.select))
            .unwrap()
            .query_row((id,), |row| Value::try_from(read::<ValueRaw>(row, "value_")?))
            .unwrap()
    };

    assert_eq!(fetch(1), Value::Number(42));
    assert_eq!(fetch(2), Value::Text("hello".to_owned()));
}

// ── Derived columns ───────────────────────────────────────────────────────────

fn account_sql() -> Sql {
    sql(
        "\"accounts\"",
        "pub struct Account {
            #[primary_key]
            pub id: i64,
            pub status: Status,
            pub flags: Option<bool>,
            pub prev_status: Option<Status>,
        }",
    )
}

#[test]
fn enum_column_ddl() {
    let sql = account_sql();
    assert_eq!(
        sql.create,
        "CREATE TABLE IF NOT EXISTS accounts (\n    id INTEGER NOT NULL,\n    \
         status INTEGER CHECK (status IN (1, 2, 3)) NOT NULL,\n    \
         flags INTEGER CHECK (flags IN (0, 1)),\n    \
         prev_status INTEGER CHECK (prev_status IN (1, 2, 3)),\n    PRIMARY KEY (id)\n);\n"
    );
    assert_valid_ddl(&sql.create);
}

#[test]
fn enum_column_roundtrip() {
    let sql = account_sql();
    let conn = open(&sql);
    let put = |id: i64, status: Status, flags: Option<bool>, prev: Option<Status>| {
        let params: Params<'_> = vec![
            (":id".to_owned(), &id),
            (":status".to_owned(), &status),
            (":flags".to_owned(), &flags),
            (":prev_status".to_owned(), &prev),
        ];
        insert(&conn, &sql, &params);
    };
    put(1, Status::Active, Some(true), None);
    put(2, Status::Deleted, None, Some(Status::Active));

    let get = |id: i64| -> (Status, Option<bool>, Option<Status>) {
        conn.prepare_cached(&sql.get)
            .unwrap()
            .query_row((&id,), |row| {
                Ok((row.get("status")?, row.get("flags")?, row.get("prev_status")?))
            })
            .unwrap()
    };
    assert_eq!(get(1), (Status::Active, Some(true), None));
    assert_eq!(get(2), (Status::Deleted, None, Some(Status::Active)));
}

#[test]
fn newtype_column_roundtrip() {
    let sql = sql(
        "\"members\"",
        "pub struct Member { #[primary_key] pub id: i64, pub karma: Karma, pub label: Label }",
    );
    let conn = open(&sql);
    let (id, karma, label) = (1i64, Karma(42), Label("founder".to_owned()));
    let params: Params<'_> = vec![
        (":id".to_owned(), &id),
        (":karma".to_owned(), &karma),
        (":label".to_owned(), &label),
    ];
    insert(&conn, &sql, &params);
    let got: (Karma, Label) = conn
        .prepare_cached(&sql.get)
        .unwrap()
        .query_row((&1i64,), |row| Ok((row.get("karma")?, row.get("label")?)))
        .unwrap();
    assert_eq!(got.0, Karma(42));
    assert_eq!(got.1, Label("founder".to_owned()));
}

#[test]
fn newtype_column_sql_type_inherited() {
    assert_eq!(Karma::SQL_TYPE, i64::SQL_TYPE);
    assert_eq!(Label::SQL_TYPE, String::SQL_TYPE);
    let code = balsaq::derive_column("pub struct Karma(i64);");
    assert!(code.contains("SQL_TYPE: &'static str = < i64 as ::balsaq::Column>::SQL_TYPE;"));
    let code = balsaq::derive_column("pub struct Label(String);");
    assert!(code.contains("SQL_TYPE: &'static str = < String as ::balsaq::Column>::SQL_TYPE;"));
}

#[test]
fn newtype_entries_inherit() {
    let catalog = catalog();
    let entry = make_newtype_entry("N", &ty("Option<i64>"), &catalog).unwrap();
    assert_eq!(entry.ty, "N");
    assert_eq!(entry.sql_type, "INTEGER");
    assert!(entry.nullable);
    let entry = make_newtype_entry("N", "Label", &catalog).unwrap();
    assert_eq!(entry.sql_type, "TEXT");
    assert!(!entry.nullable);
    assert!(make_newtype_entry("N", "Unknown", &catalog).is_none());
}

// ── Quick start ───────────────────────────────────────────────────────────────

#[test]
fn quick_start_constants() {
    let sql = sql(
        "\"users\"",
        "pub struct User { #[primary_key] pub id: i64, pub name: String, pub score: f64 }",
    );
    assert_eq!(
        sql.create,
        "CREATE TABLE IF NOT EXISTS users (\n    id INTEGER NOT NULL,\n    name TEXT NOT NULL,\n    \
         score REAL NOT NULL,\n    PRIMARY KEY (id)\n);\n"
    );
    assert_eq!(sql.select, "SELECT id, name, score FROM users");
    assert_eq!(
        sql.insert,
        "INSERT OR IGNORE INTO users (id, name, score) VALUES (:id, :name, :score)"
    );
    let conn = open(&sql);
    let (id, name, score) = (1i64, "Alice".to_owned(), 9.5f64);
    let params: Params<'_> = vec![
        (":id".to_owned(), &id),
        (":name".to_owned(), &name),
        (":score".to_owned(), &score),
    ];
    insert(&conn, &sql, &params);
    let got: (String, f64) = conn
        .prepare_cached(&sql.get)
        .unwrap()
        .query_row((&1i64,), |row| Ok((row.get("name")?, row.get("score")?)))
        .unwrap();
    assert_eq!(got, ("Alice".to_owned(), 9.5));
}

// ── Nullability of groups ─────────────────────────────────────────────────────

fn partial_sql() -> Sql {
    sql(
        "\"partial_things\"",
        "pub struct PartialThing {
            #[primary_key]
            pub id: i64,
            #[group]
            pub point: PartialPoint,
            #[group]
            pub opt_point: Option<PartialPoint>,
        }",
    )
}

#[test]
fn group_nullability_ddl() {
    let sql = partial_sql();
    assert_eq!(
        sql.create,
        "CREATE TABLE IF NOT EXISTS partial_things (\n    id INTEGER NOT NULL,\n    \
         point_x INTEGER NOT NULL,\n    point_label TEXT,\n    opt_point_x INTEGER,\n    \
         opt_point_label TEXT,\n    PRIMARY KEY (id)\n);\n"
    );
    assert_valid_ddl(&sql.create);
}

#[test]
fn group_nullability_roundtrip() {
    let sql = partial_sql();
    let conn = open(&sql);
    let put = |id: i64, point: PartialPoint, opt_point: Option<PartialPoint>| {
        let mut params: Params<'_> = vec![(":id".to_owned(), &id)];
        write(&point, "point_", &mut params);
        write(&opt_point, "opt_point_", &mut params);
        insert(&conn, &sql, &params);
    };

    // Required group present, optional group absent.
    put(1, PartialPoint { x: 10, label: Some("hello".to_owned()) }, None);

    // Required group, optional field within it is None.
    put(
        2,
        PartialPoint { x: 20, label: None },
        Some(PartialPoint { x: 30, label: Some("world".to_owned()) }),
    );

    let get = |id: i64| -> (PartialPoint, Option<PartialPoint>) {
        conn.prepare_cached(&sql.get)
            .unwrap()
            .query_row((&id,), |row| Ok((read(row, "point_")?, read(row, "opt_point_")?)))
            .unwrap()
    };

    let (point, opt_point) = get(1);
    assert_eq!(point.x, 10);
    assert_eq!(point.label, Some("hello".to_owned()));
    assert!(opt_point.is_none());

    let (point, opt_point) = get(2);
    assert_eq!(point.x, 20);
    assert_eq!(point.label, None);
    let op = opt_point.unwrap();
    assert_eq!(op.x, 30);
    assert_eq!(op.label, Some("world".to_owned()));
}

#[test]
fn nested_optional_group_is_always_present() {
    let sql = partial_sql();
    let conn = open(&sql);
    let point = PartialPoint { x: 1, label: None };
    let nested: Option<Option<PartialPoint>> = Some(None);
    let id = 1i64;
    let mut params: Params<'_> = vec![(":id".to_owned(), &id)];
    write(&point, "point_", &mut params);
    write(&nested, "opt_point_", &mut params);
    insert(&conn, &sql, &params);
    let got: Option<Option<PartialPoint>> = conn
        .prepare_cached(&sql.get)
        .unwrap()
        .query_row((&1i64,), |row| read(row, "opt_point_"))
        .unwrap();
    assert_eq!(got, Some(None));
}

#[test]
fn blank_optional_group_reads_as_absent() {
    let sql = sql(
        "\"notes\"",
        "pub struct Note { #[primary_key] pub id: i64, #[group] pub value: Option<ValueRaw> }",
    );
    let conn = open(&sql);
    let put = |id: i64, value: Option<ValueRaw>| {
        let mut params: Params<'_> = vec![(":id".to_owned(), &id)];
        write(&value, "value_", &mut params);
        insert(&conn, &sql, &params);
    };
    put(1, Some(ValueRaw { number: None, text: None }));
    put(2, Some(ValueRaw { number: Some(5), text: None }));
    put(3, None);
    let get = |id: i64| -> Option<Option<i64>> {
        conn.prepare_cached(&sql.get)
            .unwrap()
            .query_row((&id,), |row| {
                Ok(read::<Option<ValueRaw>>(row, "value_")?.map(|value| value.number))
            })
            .unwrap()
    };
    assert_eq!(get(1), None);
    assert_eq!(get(2), Some(Some(5)));
    assert_eq!(get(3), None);
}

#[test]
fn partly_absent_group_is_an_error() {
    let sql = partial_sql();
    let conn = open(&sql);
    conn.execute("INSERT INTO partial_things VALUES (1, 1, NULL, NULL, 'label')", []).unwrap();
    let got = conn
        .prepare_cached(&sql.get)
        .unwrap()
        .query_row((&1i64,), |row| read::<Option<PartialPoint>>(row, "opt_point_"));
    assert!(got.is_err());
}

#[test]
fn optional_group_binds_the_same_parameters_when_absent() {
    let keys = |value: &Option<Sig>| -> Vec<String> {
        let mut params: Params<'_> = Vec::new();
        write(value, "sig_", &mut params);
        params.into_iter().map(|param| param.0).collect()
    };
    let present = Some(Sig { data: vec![1], hash: vec![2] });
    assert_eq!(keys(&present), vec![":sig_data", ":sig_hash"]);
    assert_eq!(keys(&None), keys(&present));
}

#[test]
fn group_entries_match_their_groups() {
    let catalog = catalog();
    let find = |name: &str| -> &GroupEntry<String> {
        catalog.groups.iter().find(|entry| entry.ty == ty(name)).unwrap()
    };
    fn consts<T: ColumnGroup<Row<'static>, rusqlite::Error, dyn ToSql>>() -> (&'static str, &'static str, &'static str, bool) {
        (T::DDL, T::COLS, T::VALS, T::NULLABLE)
    }
    let seen = |name: &str| {
        let entry = find(name);
        (entry.ddl.as_str(), entry.cols.as_str(), entry.vals.as_str(), entry.nullable)
    };
    assert_eq!(seen("AuthorInfo"), consts::<AuthorInfo>());
    assert_eq!(seen("Sig"), consts::<Sig>());
    assert_eq!(seen("Option<Sig>"), consts::<Option<Sig>>());
    assert_eq!(seen("PartialPoint"), consts::<PartialPoint>());
    assert_eq!(seen("ValueRaw"), consts::<ValueRaw>());
}

// ── Nullable columns ──────────────────────────────────────────────────────────

fn event_sql() -> Sql {
    sql(
        "\"events\"",
        "pub struct Event {
            #[primary_key]
            pub id: i64,
            pub description: Option<String>,
            pub payload: Option<Vec<u8>>,
        }",
    )
}

#[test]
fn nullable_column_ddl() {
    let sql = event_sql();
    assert_eq!(
        sql.create,
        "CREATE TABLE IF NOT EXISTS events (\n    id INTEGER NOT NULL,\n    description TEXT,\n    \
         payload BLOB,\n    PRIMARY KEY (id)\n);\n"
    );
    assert_valid_ddl(&sql.create);
}

#[test]
fn nullable_via_type_alias() {
    type MaybeText = Option<String>;
    const NULLABLE: bool = <MaybeText as Column>::NULLABLE;
    assert!(NULLABLE);
    assert_eq!(<MaybeText as Column>::SQL_TYPE, "TEXT");
}

#[test]
fn nullable_column_roundtrip() {
    let sql = event_sql();
    let conn = open(&sql);
    let put = |id: i64, description: Option<String>, payload: Option<Vec<u8>>| {
        let params: Params<'_> = vec![
            (":id".to_owned(), &id),
            (":description".to_owned(), &description),
            (":payload".to_owned(), &payload),
        ];
        insert(&conn, &sql, &params);
    };
    put(1, Some("hello".to_owned()), None);
    put(2, None, Some(vec![0xaa]));

    let get = |id: i64| -> (Option<String>, Option<Vec<u8>>) {
        conn.prepare_cached(&sql.get)
            .unwrap()
            .query_row((&id,), |row| Ok((row.get("description")?, row.get("payload")?)))
            .unwrap()
    };
    assert_eq!(get(1), (Some("hello".to_owned()), None));
    assert_eq!(get(2), (None, Some(vec![0xaa])));
}

// ── Byte arrays ───────────────────────────────────────────────────────────────

fn fingerprint_sql() -> Sql {
    sql(
        "\"fingerprints\"",
        "pub struct Fingerprint { #[primary_key] pub id: i64, pub digest: [u8; 4] }",
    )
}

#[test]
fn fixed_bytes_column_ddl() {
    let sql = fingerprint_sql();
    assert_eq!(
        sql.create,
        "CREATE TABLE IF NOT EXISTS fingerprints (\n    id INTEGER NOT NULL,\n    \
         digest BLOB NOT NULL,\n    PRIMARY KEY (id)\n);\n"
    );
    assert_valid_ddl(&sql.create);
}

#[test]
fn fixed_bytes_column_roundtrip() {
    let sql = fingerprint_sql();
    let conn = open(&sql);
    let (id, digest) = (1i64, [0xdeu8, 0xad, 0xbe, 0xef]);
    let params: Params<'_> = vec![(":id".to_owned(), &id), (":digest".to_owned(), &digest)];
    insert(&conn, &sql, &params);
    let got: [u8; 4] = conn
        .prepare_cached(&sql.get)
        .unwrap()
        .query_row((&1i64,), |row| row.get("digest"))
        .unwrap();
    assert_eq!(got, [0xde, 0xad, 0xbe, 0xef]);
}

// ── Compound keys ─────────────────────────────────────────────────────────────

struct CommitRootTree {
    commit_id: BlobId,
    position: i64,
    is_remove: bool,
    tree_id: BlobId,
    conflict_label: String,
}

impl CommitRootTree {
    fn sql() -> Sql {
        sql(
            "\"commit_root_trees\"",
            "pub struct CommitRootTree {
                #[primary_key]
                pub commit_id: BlobId,
                #[primary_key]
                pub position: i64,
                #[primary_key]
                pub is_remove: bool,
                pub tree_id: BlobId,
                pub conflict_label: String,
            }",
        )
    }

    fn from_row(row: &Row<'_>) -> rusqlite::Result<Self> {
        Ok(Self {
            commit_id: row.get("commit_id")?,
            position: row.get("position")?,
            is_remove: row.get("is_remove")?,
            tree_id: row.get("tree_id")?,
            conflict_label: row.get("conflict_label")?,
        })
    }

    fn insert(self, conn: &Connection, sql: &Sql) {
        let params: Params<'_> = vec![
            (":commit_id".to_owned(), &self.commit_id),
            (":position".to_owned(), &self.position),
            (":is_remove".to_owned(), &self.is_remove),
            (":tree_id".to_owned(), &self.tree_id),
            (":conflict_label".to_owned(), &self.conflict_label),
        ];
        insert(conn, sql, &params);
    }
}

const COMMIT_ROOT_TREES: &str = "CREATE TABLE IF NOT EXISTS commit_root_trees (\n    \
    commit_id BLOB NOT NULL,\n    position INTEGER NOT NULL,\n    \
    is_remove INTEGER CHECK (is_remove IN (0, 1)) NOT NULL,\n    tree_id BLOB NOT NULL,\n    \
    conflict_label TEXT NOT NULL,\n    PRIMARY KEY (commit_id, position, is_remove)\n);\n";

#[test]
fn commit_root_tree_compound_pk() {
    let sql = CommitRootTree::sql();
    assert_eq!(
        sql.select,
        "SELECT commit_id, position, is_remove, tree_id, conflict_label FROM commit_root_trees"
    );
    assert_eq!(sql.create, COMMIT_ROOT_TREES);
    assert_valid_ddl(&sql.create);
}

#[test]
fn bool_column_has_check_constraint() {
    let sql = CommitRootTree::sql();
    assert_eq!(sql.create, COMMIT_ROOT_TREES);
    assert_valid_ddl(&sql.create);
}

#[test]
fn get_by_compound_pk() {
    let sql = CommitRootTree::sql();
    let conn = open(&sql);
    CommitRootTree {
        commit_id: BlobId::new(9),
        position: 2,
        is_remove: true,
        tree_id: BlobId::new(42),
        conflict_label: "left".to_owned(),
    }
    .insert(&conn, &sql);

    let get = |pk: (&BlobId, &i64, &bool)| {
        conn.prepare_cached(&sql.get)
            .unwrap()
            .query_row((pk.0, pk.1, pk.2), CommitRootTree::from_row)
    };
    let got = get((&BlobId::new(9), &2i64, &true)).unwrap();
    assert_eq!(got.tree_id, BlobId::new(42));
    assert_eq!(got.conflict_label, "left");

    assert!(matches!(
        get((&BlobId::new(9), &2i64, &false)),
        Err(rusqlite::Error::QueryReturnedNoRows)
    ));
}

#[test]
fn commit_root_tree_roundtrip() {
    let sql = CommitRootTree::sql();
    let conn = open(&sql);
    let rows = vec![
        CommitRootTree {
            commit_id: BlobId::new(1),
            position: 0,
            is_remove: false,
            tree_id: BlobId::new(10),
            conflict_label: String::new(),
        },
        CommitRootTree {
            commit_id: BlobId::new(1),
            position: 1,
            is_remove: true,
            tree_id: BlobId::new(11),
            conflict_label: "base".to_owned(),
        },
    ];
    for row in rows {
        row.insert(&conn, &sql);
    }
    let got: Vec<CommitRootTree> = conn
        .prepare_cached(&format!(
            "{} WHERE commit_id = ?1 ORDER BY is_remove ASC, position ASC",
            sql.select
        ))
        .unwrap()
        .query_map((&BlobId::new(1),), CommitRootTree::from_row)
        .unwrap()
        .collect::<rusqlite::Result<_>>()
        .unwrap();

    assert_eq!(got.len(), 2);
    assert_eq!(got[0].commit_id, BlobId::new(1));
    assert_eq!(got[0].position, 0);
    assert_eq!(got[0].tree_id, BlobId::new(10));
    assert!(!got[0].is_remove);
    assert_eq!(got[1].tree_id, BlobId::new(11));
    assert!(got[1].is_remove);
    assert_eq!(got[1].conflict_label, "base");
}

// ── Time of the last write ────────────────────────────────────────────────────

fn item_sql() -> Sql {
    sql(
        "\"tracked_items\"",
        "#[track_last_update]
        pub struct TrackedItem { #[primary_key] pub id: i64, pub payload: String }",
    )
}

#[test]
fn track_last_update_constants() {
    let sql = item_sql();
    assert_eq!(sql.select, "SELECT id, payload FROM tracked_items");
    assert_eq!(
        sql.insert,
        "INSERT INTO tracked_items (id, payload) VALUES (:id, :payload) ON CONFLICT(id) \
         DO UPDATE SET __last_written_ms = MAX(__last_written_ms, unixepoch('now') * 1000)"
    );
    assert_eq!(
        sql.create,
        "CREATE TABLE IF NOT EXISTS tracked_items (\n    id INTEGER NOT NULL,\n    \
         payload TEXT NOT NULL,\n    \
         __last_written_ms INTEGER NOT NULL DEFAULT (unixepoch('now') * 1000),\n    \
         PRIMARY KEY (id)\n);\n"
    );
    assert_valid_ddl(&sql.create);
}

#[test]
fn track_last_update_roundtrip() {
    let sql = item_sql();
    let conn = open(&sql);
    let (id, payload) = (1i64, "hello".to_owned());
    let params: Params<'_> = vec![(":id".to_owned(), &id), (":payload".to_owned(), &payload)];
    insert(&conn, &sql, &params);

    // A second insert with the same key must not fail: it updates the time.
    insert(&conn, &sql, &params);

    let got: String = conn
        .prepare_cached(&sql.get)
        .unwrap()
        .query_row((&1i64,), |row| row.get("payload"))
        .unwrap();
    assert_eq!(got, "hello");

    let ms: i64 = conn
        .query_row("SELECT __last_written_ms FROM tracked_items WHERE id = ?1", [1i64], |r| r.get(0))
        .unwrap();
    assert!(ms > 0);
}

// ── Numbered rows ─────────────────────────────────────────────────────────────

#[test]
fn numbered_rows_return_their_number() {
    let sql = sql(
        "\"commits\", auto_primary_key",
        "pub struct Commit { #[unique] pub hash: BlobId, pub data: String }",
    );
    assert_eq!(
        sql.create,
        "CREATE TABLE IF NOT EXISTS commits (\n    row_id INTEGER PRIMARY KEY,\n    \
         hash BLOB NOT NULL UNIQUE,\n    data TEXT NOT NULL\n);\n"
    );
    assert_eq!(sql.get_by, vec!["SELECT hash, data, row_id FROM commits WHERE hash = ?1"]);
    let conn = open(&sql);
    let put = |hash: BlobId, data: &str| -> i64 {
        let data = data.to_owned();
        let params: Vec<(&str, &dyn ToSql)> = vec![(":hash", &hash), (":data", &data)];
        conn.prepare_cached(&sql.insert).unwrap().query_row(params.as_slice(), |r| r.get(0)).unwrap()
    };
    let first = put(BlobId::new(1), "one");
    let second = put(BlobId::new(2), "two");
    assert_ne!(first, second);
    assert_eq!(put(BlobId::new(1), "other"), first);
    let (id, data): (i64, String) = conn
        .prepare_cached(&sql.get_by[0])
        .unwrap()
        .query_row((&BlobId::new(1),), |row| Ok((row.get("row_id")?, row.get("data")?)))
        .unwrap();
    assert_eq!(id, first);
    assert_eq!(data, "one");
}

#[test]
fn numbered_rows_without_unique_columns() {
    let sql = sql("\"things\", auto_primary_key", "pub struct Thing { pub label: String }");
    let conn = open(&sql);
    let label = "x".to_owned();
    let params: Vec<(&str, &dyn ToSql)> = vec![(":label", &label)];
    let put = || -> i64 {
        conn.prepare_cached(&sql.insert).unwrap().query_row(params.as_slice(), |r| r.get(0)).unwrap()
    };
    assert_eq!(put(), 1);
    assert_eq!(put(), 2);
}

#[test]
fn unique_columns_and_the_time_of_the_last_write() {
    let sql = sql(
        "\"commits\", auto_primary_key, track_last_update",
        "pub struct Commit { #[unique] pub hash: BlobId, pub data: String }",
    );
    let conn = open(&sql);
    let (hash, data) = (BlobId::new(1), "one".to_owned());
    let params: Vec<(&str, &dyn ToSql)> = vec![(":hash", &hash), (":data", &data)];
    let put = || -> i64 {
        conn.prepare_cached(&sql.insert).unwrap().query_row(params.as_slice(), |r| r.get(0)).unwrap()
    };
    assert_eq!(put(), put());
}
