use balsaq::args::{
    check_via, finish_via, parse_group_args, parse_index_args, parse_table_args, read_tokens,
    GroupArgs,
};
use balsaq::decl::read_struct;
use balsaq::error::{Site, Spot};
use balsaq::expand_table::expand;
use balsaq::fields::{classify, FieldKind};
use balsaq::syntax::{Token, TypePrefix};

fn run(attr: &str, item: &str) -> String {
    let file: syn::File = syn::parse_str(&expand(attr, item).unwrap()).unwrap();
    prettyplease::unparse(&file)
}

/// The tokens of a source text one by one.
fn flat(text: &str) -> Vec<String> {
    let mut tokens = Vec::new();
    flatten(text.parse().unwrap(), &mut tokens);
    tokens
}

fn flatten(stream: proc_macro2::TokenStream, tokens: &mut Vec<String>) {
    for tree in stream {
        match tree {
            proc_macro2::TokenTree::Group(group) => {
                tokens.push(format!("{:?}", group.delimiter()));
                flatten(group.stream(), tokens);
                tokens.push("end".to_owned());
            },
            other => tokens.push(other.to_string()),
        }
    }
}

/// The parts in which the models of tables differ.
struct Expected {
    item: &'static str,
    row_id: &'static str,
    name: &'static str,
    create: &'static str,
    select: &'static str,
    insert: &'static str,
    key: &'static str,
    id: &'static str,
    reads: &'static str,
    converts: &'static str,
    writes: &'static str,
    end: &'static str,
    conn: &'static str,
    get: &'static str,
}

const NOTHING: &str = "conn.prepare_cached(Self::INSERT)?.execute(params_ref.as_slice())?;
    ::std::result::Result::Ok(())";

const NO_KEY: &str = "&'pk ::std::convert::Infallible";

fn assert_model(attr: &str, item: &str, e: Expected) {
    let Expected { item: stays, row_id, name, create, select, insert, key, id, reads, .. } = e;
    let Expected { converts, writes, end, conn, get, .. } = e;
    let expected = format!(
        "{stays}
        {row_id}
        impl ::balsaq::Model for {name} {{
            const CREATE_TABLE: &'static str = ::balsaq::__cf::concatcp!({create});
            const SELECT: &'static str = ::balsaq::__cf::concatcp!({select});
            const INSERT: &'static str = ::balsaq::__cf::concatcp!({insert});

            type PrimaryKey<'pk> = {key};
            type InsertId = {id};

            fn from_row(row: &::rusqlite::Row<'_>) -> ::rusqlite::Result<Self> {{
                Ok(Self {{ {reads} }})
            }}

            fn do_insert(
                self,
                conn: &::rusqlite::Connection,
            ) -> ::rusqlite::Result<Self::InsertId> {{
                {converts}
                let mut params: ::std::vec::Vec<(
                    ::std::string::String,
                    &dyn ::rusqlite::types::ToSql
                )> = ::std::vec::Vec::new();
                {writes}
                let params_ref: ::std::vec::Vec<(&str, &dyn ::rusqlite::types::ToSql)> =
                    params.iter().map(|(k, v)| (k.as_str(), *v)).collect();
                {end}
            }}

            fn get<'pk>(
                {conn}: &::rusqlite::Connection,
                pk: Self::PrimaryKey<'pk>,
            ) -> ::rusqlite::Result<Self> {{
                {get}
            }}
        }}"
    );
    assert_eq!(flat(&expand(attr, item).unwrap()), flat(&expected));
}

fn run_err(attr: &str, item: &str) -> String {
    expand(attr, item).unwrap_err().message
}

#[test]
fn single_column_no_pk_uses_do_nothing() {
    assert_model(
        "\"things\"",
        "pub struct Thing { pub name: String, }",
        Expected {
            item: "pub struct Thing { pub name: String }",
            row_id: "",
            name: "Thing",
            create: r#""CREATE TABLE IF NOT EXISTS things (\n",
                "    name ",
                ::balsaq::__cf::str_replace!(<String as ::balsaq::Column>::SQL_TYPE, "{col}", "name"),
                ::balsaq::__null_qualifier(<String as ::balsaq::Column>::NULLABLE),
                "\n);\n""#,
            select: r#""SELECT ", "name", " FROM things""#,
            insert: r#""INSERT INTO things (", "name", ") VALUES (", ":name",
                ") ON CONFLICT DO NOTHING""#,
            key: NO_KEY,
            id: "()",
            reads: r#"name: row.get("name")?,"#,
            converts: "",
            writes: r#"params.push((":name".to_owned(), &self.name as &dyn ::rusqlite::types::ToSql));"#,
            end: NOTHING,
            conn: "_conn",
            get: "match *pk {}",
        },
    );
}

#[test]
fn primary_key_annotation() {
    assert_model(
        "\"commit_root_trees\"",
        "pub struct CommitRootTree {
            #[primary_key]
            pub commit_id: CommitId,
            #[primary_key]
            pub position: i64,
            pub label: String,
        }",
        Expected {
            item: "pub struct CommitRootTree {
                pub commit_id: CommitId,
                pub position: i64,
                pub label: String
            }",
            row_id: "",
            name: "CommitRootTree",
            create: r#""CREATE TABLE IF NOT EXISTS commit_root_trees (\n",
                "    commit_id ",
                ::balsaq::__cf::str_replace!(
                    <CommitId as ::balsaq::Column>::SQL_TYPE, "{col}", "commit_id"
                ),
                ::balsaq::__null_qualifier(<CommitId as ::balsaq::Column>::NULLABLE),
                ",\n",
                "    position ",
                ::balsaq::__cf::str_replace!(<i64 as ::balsaq::Column>::SQL_TYPE, "{col}", "position"),
                ::balsaq::__null_qualifier(<i64 as ::balsaq::Column>::NULLABLE),
                ",\n",
                "    label ",
                ::balsaq::__cf::str_replace!(<String as ::balsaq::Column>::SQL_TYPE, "{col}", "label"),
                ::balsaq::__null_qualifier(<String as ::balsaq::Column>::NULLABLE),
                ",\n    PRIMARY KEY (commit_id, position)",
                "\n);\n""#,
            select: r#""SELECT ", "commit_id", ", ", "position", ", ", "label",
                " FROM commit_root_trees""#,
            insert: r#""INSERT OR IGNORE INTO commit_root_trees (",
                "commit_id", ", ", "position", ", ", "label",
                ") VALUES (",
                ":commit_id", ", ", ":position", ", ", ":label",
                ")""#,
            key: "(&'pk CommitId, &'pk i64)",
            id: "()",
            reads: r#"commit_id: row.get("commit_id")?,
                position: row.get("position")?,
                label: row.get("label")?,"#,
            converts: "",
            writes: r#"
                params.push((":commit_id".to_owned(), &self.commit_id as &dyn ::rusqlite::types::ToSql));
                params.push((":position".to_owned(), &self.position as &dyn ::rusqlite::types::ToSql));
                params.push((":label".to_owned(), &self.label as &dyn ::rusqlite::types::ToSql));"#,
            end: NOTHING,
            conn: "conn",
            get: r#"
                const SQL: &str = ::balsaq::__cf::concatcp!(
                    CommitRootTree::SELECT, " WHERE commit_id = ?1 AND position = ?2"
                );
                conn.prepare_cached(SQL)?.query_row((pk.0, pk.1,), Self::from_row)"#,
        },
    );
}

#[test]
fn group_field() {
    assert_model(
        "\"posts\"",
        "pub struct Post {
            #[primary_key]
            pub id: BlobId,
            #[group]
            pub author: AuthorInfo,
        }",
        Expected {
            item: "pub struct Post { pub id: BlobId, pub author: AuthorInfo }",
            row_id: "",
            name: "Post",
            create: r#""CREATE TABLE IF NOT EXISTS posts (\n",
                "    id ",
                ::balsaq::__cf::str_replace!(<BlobId as ::balsaq::Column>::SQL_TYPE, "{col}", "id"),
                ::balsaq::__null_qualifier(<BlobId as ::balsaq::Column>::NULLABLE),
                ",\n",
                ::balsaq::__cf::str_replace!(
                    ::balsaq::__cf::str_replace!(
                        <AuthorInfo as ::balsaq::ColumnGroup>::DDL, "{P}", "author_"
                    ),
                    "{NN}",
                    ::balsaq::__null_qualifier(<AuthorInfo as ::balsaq::ColumnGroup>::NULLABLE)
                ),
                ",\n    PRIMARY KEY (id)",
                "\n);\n""#,
            select: r#""SELECT ", "id", ", ",
                ::balsaq::__cf::str_replace!(
                    <AuthorInfo as ::balsaq::ColumnGroup>::COLS, "{P}", "author_"
                ),
                " FROM posts""#,
            insert: r#""INSERT OR IGNORE INTO posts (", "id", ", ",
                ::balsaq::__cf::str_replace!(
                    <AuthorInfo as ::balsaq::ColumnGroup>::COLS, "{P}", "author_"
                ),
                ") VALUES (", ":id", ", ",
                ::balsaq::__cf::str_replace!(
                    <AuthorInfo as ::balsaq::ColumnGroup>::VALS, "{P}", "author_"
                ),
                ")""#,
            key: "&'pk BlobId",
            id: "()",
            reads: r#"id: row.get("id")?,
                author: <AuthorInfo as ::balsaq::ColumnGroup>::cg_read(row, "author_")?,"#,
            converts: "",
            writes: r#"
                params.push((":id".to_owned(), &self.id as &dyn ::rusqlite::types::ToSql));
                <AuthorInfo as ::balsaq::ColumnGroup>::cg_write(&self.author, "author_", &mut params);"#,
            end: NOTHING,
            conn: "conn",
            get: r#"
                const SQL: &str = ::balsaq::__cf::concatcp!(Post::SELECT, " WHERE id = ?1");
                conn.prepare_cached(SQL)?.query_row((pk,), Self::from_row)"#,
        },
    );
}

#[test]
fn group_optional_field() {
    assert_model(
        "\"posts\"",
        "pub struct Post {
            #[primary_key]
            pub id: BlobId,
            #[group]
            pub sig: Option<SigInfo>,
        }",
        Expected {
            item: "pub struct Post { pub id: BlobId, pub sig: Option<SigInfo> }",
            row_id: "",
            name: "Post",
            create: r#""CREATE TABLE IF NOT EXISTS posts (\n",
                "    id ",
                ::balsaq::__cf::str_replace!(<BlobId as ::balsaq::Column>::SQL_TYPE, "{col}", "id"),
                ::balsaq::__null_qualifier(<BlobId as ::balsaq::Column>::NULLABLE),
                ",\n",
                ::balsaq::__cf::str_replace!(
                    ::balsaq::__cf::str_replace!(
                        <Option<SigInfo> as ::balsaq::ColumnGroup>::DDL, "{P}", "sig_"
                    ),
                    "{NN}",
                    ::balsaq::__null_qualifier(<Option<SigInfo> as ::balsaq::ColumnGroup>::NULLABLE)
                ),
                ",\n    PRIMARY KEY (id)",
                "\n);\n""#,
            select: r#""SELECT ", "id", ", ",
                ::balsaq::__cf::str_replace!(
                    <Option<SigInfo> as ::balsaq::ColumnGroup>::COLS, "{P}", "sig_"
                ),
                " FROM posts""#,
            insert: r#""INSERT OR IGNORE INTO posts (", "id", ", ",
                ::balsaq::__cf::str_replace!(
                    <Option<SigInfo> as ::balsaq::ColumnGroup>::COLS, "{P}", "sig_"
                ),
                ") VALUES (", ":id", ", ",
                ::balsaq::__cf::str_replace!(
                    <Option<SigInfo> as ::balsaq::ColumnGroup>::VALS, "{P}", "sig_"
                ),
                ")""#,
            key: "&'pk BlobId",
            id: "()",
            reads: r#"id: row.get("id")?,
                sig: <Option<SigInfo> as ::balsaq::ColumnGroup>::cg_read(row, "sig_")?,"#,
            converts: "",
            writes: r#"
                params.push((":id".to_owned(), &self.id as &dyn ::rusqlite::types::ToSql));
                <Option<SigInfo> as ::balsaq::ColumnGroup>::cg_write(&self.sig, "sig_", &mut params);"#,
            end: NOTHING,
            conn: "conn",
            get: r#"
                const SQL: &str = ::balsaq::__cf::concatcp!(Post::SELECT, " WHERE id = ?1");
                conn.prepare_cached(SQL)?.query_row((pk,), Self::from_row)"#,
        },
    );
}

#[test]
fn via_field_uses_try_from_and_from() {
    assert_model(
        "\"tree_entries\"",
        "pub struct TreeEntry {
            pub tree_id: TreeId,
            #[group(via = TreeValueRaw)]
            pub value: TreeValue,
        }",
        Expected {
            item: "pub struct TreeEntry { pub tree_id: TreeId, pub value: TreeValue }",
            row_id: "",
            name: "TreeEntry",
            create: r#""CREATE TABLE IF NOT EXISTS tree_entries (\n",
                "    tree_id ",
                ::balsaq::__cf::str_replace!(<TreeId as ::balsaq::Column>::SQL_TYPE, "{col}", "tree_id"),
                ::balsaq::__null_qualifier(<TreeId as ::balsaq::Column>::NULLABLE),
                ",\n",
                ::balsaq::__cf::str_replace!(
                    ::balsaq::__cf::str_replace!(
                        <TreeValueRaw as ::balsaq::ColumnGroup>::DDL, "{P}", "value_"
                    ),
                    "{NN}", " NOT NULL"
                ),
                "\n);\n""#,
            select: r#""SELECT ", "tree_id", ", ",
                ::balsaq::__cf::str_replace!(
                    <TreeValueRaw as ::balsaq::ColumnGroup>::COLS, "{P}", "value_"
                ),
                " FROM tree_entries""#,
            insert: r#""INSERT INTO tree_entries (", "tree_id", ", ",
                ::balsaq::__cf::str_replace!(
                    <TreeValueRaw as ::balsaq::ColumnGroup>::COLS, "{P}", "value_"
                ),
                ") VALUES (", ":tree_id", ", ",
                ::balsaq::__cf::str_replace!(
                    <TreeValueRaw as ::balsaq::ColumnGroup>::VALS, "{P}", "value_"
                ),
                ") ON CONFLICT DO NOTHING""#,
            key: NO_KEY,
            id: "()",
            reads: r#"tree_id: row.get("tree_id")?,
                value: {
                    let __raw = <TreeValueRaw as ::balsaq::ColumnGroup>::cg_read(row, "value_")?;
                    <TreeValue as ::std::convert::TryFrom<TreeValueRaw>>::try_from(__raw)?
                },"#,
            converts: "let __raw_value =
                <TreeValueRaw as ::std::convert::From<TreeValue>>::from(self.value);",
            writes: r#"
                params.push((":tree_id".to_owned(), &self.tree_id as &dyn ::rusqlite::types::ToSql));
                <TreeValueRaw as ::balsaq::ColumnGroup>::cg_write(&__raw_value, "value_", &mut params);"#,
            end: NOTHING,
            conn: "_conn",
            get: "match *pk {}",
        },
    );
}

#[test]
fn auto_primary_key_with_unique() {
    assert_model(
        "\"commits\", auto_primary_key",
        "pub struct Commit {
            #[unique]
            pub hash: BlobId,
            pub data: String,
        }",
        Expected {
            item: "pub struct Commit { pub hash: BlobId, pub data: String }",
            row_id: r#"
                #[derive(Clone, Copy, Debug, PartialEq, Eq, PartialOrd, Ord, Hash)]
                pub struct CommitRowId(pub i64);

                impl Commit {
                    pub fn get_by_hash(
                        conn: &::rusqlite::Connection,
                        val: &BlobId
                    ) -> ::rusqlite::Result<(CommitRowId, Self)> {
                        const SQL: &'static str = ::balsaq::__cf::concatcp!(
                            "SELECT ", "hash", ", ", "data", ", row_id FROM ", "commits",
                            " WHERE hash = ?1"
                        );
                        conn.prepare_cached(SQL)?.query_row((val,), |row| {
                            ::std::result::Result::Ok((
                                CommitRowId(row.get("row_id")?),
                                Self::from_row(row)?,
                            ))
                        })
                    }
                }"#,
            name: "Commit",
            create: r#""CREATE TABLE IF NOT EXISTS commits (\n",
                "    row_id INTEGER PRIMARY KEY",
                ",\n",
                "    hash ",
                ::balsaq::__cf::str_replace!(<BlobId as ::balsaq::Column>::SQL_TYPE, "{col}", "hash"),
                ::balsaq::__null_qualifier(<BlobId as ::balsaq::Column>::NULLABLE),
                " UNIQUE",
                ",\n",
                "    data ",
                ::balsaq::__cf::str_replace!(<String as ::balsaq::Column>::SQL_TYPE, "{col}", "data"),
                ::balsaq::__null_qualifier(<String as ::balsaq::Column>::NULLABLE),
                "\n);\n""#,
            select: r#""SELECT ", "hash", ", ", "data", " FROM commits""#,
            insert: r#""INSERT INTO commits (", "hash", ", ", "data", ") VALUES (",
                ":hash", ", ", ":data",
                ") ON CONFLICT(hash) DO UPDATE SET row_id = row_id RETURNING row_id""#,
            key: NO_KEY,
            id: "CommitRowId",
            reads: r#"hash: row.get("hash")?, data: row.get("data")?,"#,
            converts: "",
            writes: r#"
                params.push((":hash".to_owned(), &self.hash as &dyn ::rusqlite::types::ToSql));
                params.push((":data".to_owned(), &self.data as &dyn ::rusqlite::types::ToSql));"#,
            end: "let __row_id: i64 = conn
                    .prepare_cached(Self::INSERT)?
                    .query_row(params_ref.as_slice(), |r| r.get(0))?;
                ::std::result::Result::Ok(CommitRowId(__row_id))",
            conn: "_conn",
            get: "match *pk {}",
        },
    );
}

#[test]
fn auto_primary_key_with_unique_and_track() {
    assert_model(
        "\"commits\", auto_primary_key, track_last_update",
        "pub struct Commit {
            #[unique]
            pub hash: BlobId,
            pub data: String,
        }",
        Expected {
            item: "pub struct Commit { pub hash: BlobId, pub data: String }",
            row_id: r#"
                #[derive(Clone, Copy, Debug, PartialEq, Eq, PartialOrd, Ord, Hash)]
                pub struct CommitRowId(pub i64);

                impl Commit {
                    pub fn get_by_hash(
                        conn: &::rusqlite::Connection,
                        val: &BlobId
                    ) -> ::rusqlite::Result<(CommitRowId, Self)> {
                        const SQL: &'static str = ::balsaq::__cf::concatcp!(
                            "SELECT ", "hash", ", ", "data", ", row_id FROM ", "commits",
                            " WHERE hash = ?1"
                        );
                        conn.prepare_cached(SQL)?.query_row((val,), |row| {
                            ::std::result::Result::Ok((
                                CommitRowId(row.get("row_id")?),
                                Self::from_row(row)?,
                            ))
                        })
                    }
                }"#,
            name: "Commit",
            create: r#""CREATE TABLE IF NOT EXISTS commits (\n",
                "    row_id INTEGER PRIMARY KEY",
                ",\n",
                "    hash ",
                ::balsaq::__cf::str_replace!(<BlobId as ::balsaq::Column>::SQL_TYPE, "{col}", "hash"),
                ::balsaq::__null_qualifier(<BlobId as ::balsaq::Column>::NULLABLE),
                " UNIQUE",
                ",\n",
                "    data ",
                ::balsaq::__cf::str_replace!(<String as ::balsaq::Column>::SQL_TYPE, "{col}", "data"),
                ::balsaq::__null_qualifier(<String as ::balsaq::Column>::NULLABLE),
                ",\n    __last_written_ms INTEGER NOT NULL DEFAULT (unixepoch('now') * 1000)",
                "\n);\n""#,
            select: r#""SELECT ", "hash", ", ", "data", " FROM commits""#,
            insert: r#""INSERT INTO commits (", "hash", ", ", "data", ") VALUES (",
                ":hash", ", ", ":data",
                ") ON CONFLICT(hash) DO UPDATE SET __last_written_ms = MAX(__last_written_ms, unixepoch('now') * 1000) RETURNING row_id""#,
            key: NO_KEY,
            id: "CommitRowId",
            reads: r#"hash: row.get("hash")?, data: row.get("data")?,"#,
            converts: "",
            writes: r#"
                params.push((":hash".to_owned(), &self.hash as &dyn ::rusqlite::types::ToSql));
                params.push((":data".to_owned(), &self.data as &dyn ::rusqlite::types::ToSql));"#,
            end: "let __row_id: i64 = conn
                    .prepare_cached(Self::INSERT)?
                    .query_row(params_ref.as_slice(), |r| r.get(0))?;
                ::std::result::Result::Ok(CommitRowId(__row_id))",
            conn: "_conn",
            get: "match *pk {}",
        },
    );
}

#[test]
fn auto_primary_key_no_unique() {
    assert_model(
        "\"things\", auto_primary_key",
        "pub struct Thing { pub name: String, }",
        Expected {
            item: "pub struct Thing { pub name: String }",
            row_id: "
                #[derive(Clone, Copy, Debug, PartialEq, Eq, PartialOrd, Ord, Hash)]
                pub struct ThingRowId(pub i64);",
            name: "Thing",
            create: r#""CREATE TABLE IF NOT EXISTS things (\n",
                "    row_id INTEGER PRIMARY KEY",
                ",\n",
                "    name ",
                ::balsaq::__cf::str_replace!(<String as ::balsaq::Column>::SQL_TYPE, "{col}", "name"),
                ::balsaq::__null_qualifier(<String as ::balsaq::Column>::NULLABLE),
                "\n);\n""#,
            select: r#""SELECT ", "name", " FROM things""#,
            insert: r#""INSERT INTO things (", "name", ") VALUES (", ":name",
                ") ON CONFLICT DO NOTHING RETURNING row_id""#,
            key: NO_KEY,
            id: "ThingRowId",
            reads: r#"name: row.get("name")?,"#,
            converts: "",
            writes: r#"params.push((":name".to_owned(), &self.name as &dyn ::rusqlite::types::ToSql));"#,
            end: "let __row_id: i64 = conn
                    .prepare_cached(Self::INSERT)?
                    .query_row(params_ref.as_slice(), |r| r.get(0))?;
                ::std::result::Result::Ok(ThingRowId(__row_id))",
            conn: "_conn",
            get: "match *pk {}",
        },
    );
}

#[test]
fn error_via_extra_args_rejected() {
    let item = "pub struct Thing {
        #[primary_key]
        pub id: i64,
        #[group(via = ThingRaw, extra)]
        pub value: ThingDomain,
    }";
    let err = run_err("\"things\"", item);
    assert!(err.contains("no further arguments"));
    let error = expand("\"things\"", item).unwrap_err();
    assert_eq!(error.site, Site::FieldAttrArg(1, 0, Spot::FromEnd(2)));
}

#[test]
fn error_group_and_primary_key_on_same_field() {
    let err = run_err(
        "\"posts\"",
        "pub struct Post {
            #[group]
            #[primary_key]
            pub author: AuthorInfo,
        }",
    );
    assert!(err.contains("cannot be both #[group] and #[primary_key]"));
}

#[test]
fn error_group_and_unique_on_same_field() {
    let err = run_err(
        "\"posts\", auto_primary_key",
        "pub struct Post {
            #[group]
            #[unique]
            pub author: AuthorInfo,
        }",
    );
    assert!(err.contains("cannot be both #[group] and #[unique]"));
}

#[test]
fn error_primary_key_and_unique_on_same_field() {
    let err = run_err(
        "\"things\"",
        "pub struct Thing {
            #[primary_key]
            #[unique]
            pub id: i64,
        }",
    );
    assert!(err.contains("cannot be both #[primary_key] and #[unique]"));
}

#[test]
fn error_auto_primary_key_and_field_primary_key() {
    let err = run_err(
        "\"things\", auto_primary_key",
        "pub struct Thing {
            #[primary_key]
            pub id: i64,
        }",
    );
    assert!(err.contains("`auto_primary_key` and `#[primary_key]` cannot both be used"));
}

#[test]
fn error_unique_without_auto_primary_key() {
    let item = "pub struct Thing {
        pub other: i64,
        #[unique]
        pub id: i64,
    }";
    let err = run_err("\"things\"", "pub struct Thing { #[unique] pub id: i64, }");
    assert!(err.contains("`#[unique]` requires `auto_primary_key`"));
    assert_eq!(expand("\"things\"", item).unwrap_err().site, Site::Field(1));
}

#[test]
fn error_group_unknown_arg() {
    let err = run_err(
        "\"posts\"",
        "pub struct Post {
            #[group(optional)]
            pub sig: SigInfo,
        }",
    );
    assert!(err.contains("expected `via = Type`"));
}

#[test]
fn error_missing_table_arg() {
    let err = run_err("", "pub struct Foo { pub x: String, }");
    assert!(!err.is_empty());
    let error = expand("", "pub struct Foo { pub x: String, }").unwrap_err();
    assert_eq!(error.site, Site::Arg(Spot::End));
    assert_eq!(error.message, "unexpected end of input, expected string literal");
}

#[test]
fn expand_table_error_tuple_struct_rejected() {
    let err = run_err("\"things\"", "pub struct Thing(String);");
    assert!(err.contains("named fields"));
}

#[test]
fn single_index_generated() {
    let out = run(
        "\"widgets\"",
        "#[index(name)]
        pub struct Widget {
            #[primary_key]
            pub id: BlobId,
            pub name: String,
        }",
    );
    assert!(out.starts_with("pub struct Widget {\n    pub id: BlobId,\n    pub name: String,\n}\n"));
    assert!(out.contains("CREATE INDEX IF NOT EXISTS idx_widgets_name ON widgets (name);\\n"));
}

#[test]
fn unique_index_generated() {
    let out = run(
        "\"users\"",
        "#[index(email, unique = true)]
        pub struct User {
            #[primary_key]
            pub id: i64,
            pub email: String,
        }",
    );
    assert!(out.contains("CREATE UNIQUE INDEX IF NOT EXISTS idx_users_email ON users (email);\\n"));
}

#[test]
fn multi_column_index_generated() {
    let out = run(
        "\"posts\"",
        "#[index(author_id, created_at)]
        pub struct Post {
            #[primary_key]
            pub id: i64,
            pub author_id: i64,
            pub created_at: i64,
        }",
    );
    assert!(out.contains(
        "CREATE INDEX IF NOT EXISTS idx_posts_author_id_created_at ON posts (author_id, created_at);\\n"
    ));
}

#[test]
fn single_pk_generates_primary_key_type_and_get() {
    let out = run(
        "\"widgets\"",
        "pub struct Widget {
            #[primary_key]
            pub id: BlobId,
            pub name: String,
        }",
    );
    assert!(out.contains("type PrimaryKey<'pk> = &'pk BlobId;"));
    assert!(out.contains("type InsertId = ();"));
    assert!(out.contains("\"INSERT OR IGNORE INTO widgets (\""));
    assert!(!out.contains("ON CONFLICT"));
    assert!(out.contains("::balsaq::__cf::concatcp!(Widget::SELECT, \" WHERE id = ?1\")"));
    assert!(out.contains("conn.prepare_cached(SQL)?.query_row((pk,), Self::from_row)"));
}

#[test]
fn compound_pk_generates_tuple_type_and_get() {
    let out = run(
        "\"things\"",
        "pub struct Thing {
            #[primary_key]
            pub a: A,
            #[primary_key]
            pub b: i64,
            pub label: String,
        }",
    );
    assert!(out.contains("type PrimaryKey<'pk> = (&'pk A, &'pk i64);"));
    assert!(out.contains("\" WHERE a = ?1 AND b = ?2\""));
    assert!(out.contains("query_row((pk.0, pk.1), Self::from_row)"));
}

#[test]
fn no_pk_generates_infallible() {
    let out = run("\"things\"", "pub struct Thing { pub name: String, }");
    assert!(out.contains("type PrimaryKey<'pk> = &'pk ::std::convert::Infallible;"));
    assert!(out.contains("_conn: &::rusqlite::Connection"));
    assert!(out.contains("match *pk {}"));
}

#[test]
fn error_index_unknown_column() {
    let item = "#[index(nonexistent)] pub struct Thing { pub name: String, }";
    let err = run_err("\"things\"", item);
    assert!(err.contains("unknown column `nonexistent`"));
    let error = expand("\"things\"", item).unwrap_err();
    assert_eq!(error.site, Site::AttrArg(0, Spot::Token(0)));
    assert_eq!(error.message, "unknown column `nonexistent`; not a plain field of this struct");
}

#[test]
fn track_last_update_ddl_and_insert() {
    let out = run(
        "\"commits\", track_last_update",
        "pub struct Commit {
            #[primary_key]
            pub id: BlobId,
            pub data: String,
        }",
    );
    assert!(out.contains(
        "\",\\n    __last_written_ms INTEGER NOT NULL DEFAULT (unixepoch('now') * 1000)\""
    ));
    assert!(out.contains(
        "\") ON CONFLICT(id) DO UPDATE SET __last_written_ms = MAX(__last_written_ms, unixepoch('now') * 1000)\""
    ));
}

#[test]
fn track_last_update_compound_pk() {
    let out = run(
        "\"operation_parents\", track_last_update",
        "pub struct OperationParent {
            #[primary_key]
            pub operation_id: OpId,
            #[primary_key]
            pub position: i64,
            pub parent_id: OpId,
        }",
    );
    assert!(out.contains("\",\\n    PRIMARY KEY (operation_id, position)\""));
    assert!(out.contains("\") ON CONFLICT(operation_id, position) DO UPDATE SET"));
}

#[test]
fn error_track_last_update_without_pk() {
    let err =
        run_err("\"things\", track_last_update", "pub struct Thing { pub name: String, }");
    assert!(err.contains("`track_last_update` requires"));
}

#[test]
fn error_unknown_table_flag() {
    let err = run_err("\"things\", oops", "pub struct Thing { pub name: String, }");
    assert!(err.contains("unknown `#[table]` flag `oops`"));
    let error = expand("\"things\", oops", "pub struct Thing { pub name: String, }").unwrap_err();
    assert_eq!(error.site, Site::Arg(Spot::Token(2)));
}

#[test]
fn error_index_group_field() {
    let err = run_err(
        "\"posts\"",
        "#[index(author)]
        pub struct Post {
            #[primary_key]
            pub id: BlobId,
            #[group]
            pub author: AuthorInfo,
        }",
    );
    assert!(err.contains("#[group] field"));
    assert_eq!(err, "`author` is a #[group] field; only plain column fields can be indexed");
}

// Compile failures

#[test]
fn index_column_group_field() {
    let error = expand(
        "\"posts\"",
        "#[index(author)]
        pub struct Post {
            #[primary_key]
            pub id: Vec<u8>,
            #[group]
            pub author: AuthorInfo,
        }",
    )
    .unwrap_err();
    assert_eq!(error.site, Site::AttrArg(0, Spot::Token(0)));
}

#[test]
fn via_optional() {
    let err = run_err(
        "\"things\"",
        "pub struct Thing {
            #[primary_key]
            pub id: i64,
            #[group(via = Raw, extra)]
            pub value: i64,
        }",
    );
    assert_eq!(err, "#[group(via = ...)] takes no further arguments");
}

// Arguments

fn tokens(text: &str) -> Vec<Token<String>> {
    read_tokens(text).ok().unwrap()
}

#[test]
fn table_args_take_flags_in_any_order() {
    let args = parse_table_args(&tokens("\"t\", track_last_update, auto_primary_key,")).ok().unwrap();
    assert_eq!(args.table, "t");
    assert!(args.auto_primary_key);
    assert!(args.track_last_update);
    let args = parse_table_args(&tokens("\"a\\\"b\"")).ok().unwrap();
    assert_eq!(args.table, "a\"b");
    assert!(!args.auto_primary_key);
    assert!(!args.track_last_update);
}

#[test]
fn table_args_errors() {
    let error = |text: &str| parse_table_args(&tokens(text)).err().unwrap();
    assert_eq!(error("name").message, "expected string literal");
    assert_eq!(error("name").spot, Spot::Token(0));
    assert_eq!(error("\"t\" auto_primary_key").message, "unexpected token");
    assert_eq!(error("\"t\" auto_primary_key").spot, Spot::Token(1));
    assert_eq!(error("\"t\", 1").message, "expected identifier");
    assert_eq!(error("\"t\", 1").spot, Spot::Token(2));
    assert_eq!(error("\"t\", fn").message, "expected identifier, found keyword `fn`");
}

#[test]
fn index_args_take_columns_and_unique() {
    let args = parse_index_args(&tokens("a, unique = true, b,")).ok().unwrap();
    assert_eq!(args.columns.len(), 2);
    assert_eq!(args.columns[0].name, "a");
    assert_eq!(args.columns[1].name, "b");
    assert_eq!(args.columns[1].token, 6);
    assert!(args.unique);
    let args = parse_index_args(&tokens("unique, unique = true, unique = false")).ok().unwrap();
    assert_eq!(args.columns[0].name, "unique");
    assert!(!args.unique);
}

#[test]
fn index_args_errors() {
    let error = |text: &str| parse_index_args(&tokens(text)).err().unwrap();
    assert_eq!(error("").message, "#[index] requires at least one column name");
    assert_eq!(error("").spot, Spot::CallSite);
    assert_eq!(error("unique = true").message, "#[index] requires at least one column name");
    assert_eq!(error("a b").message, "expected `,`");
    assert_eq!(error("a, unique = 1").message, "expected boolean literal");
    assert_eq!(
        error("a, unique =").message,
        "unexpected end of input, expected boolean literal"
    );
    assert_eq!(error("\"a\"").message, "expected identifier");
}

#[test]
fn index_attribute_needs_arguments() {
    let error = expand("\"t\"", "#[index] struct T { a: i64 }").unwrap_err();
    assert_eq!(error.site, Site::Attr(0));
    assert_eq!(error.message, "expected attribute arguments in parentheses: #[index(...)]");
    let error = expand("\"t\"", "#[other] #[index = 1] struct T { a: i64 }").unwrap_err();
    assert_eq!(error.site, Site::Attr(1));
    assert_eq!(error.message, "expected parentheses: #[index(...)]");
}

#[test]
fn group_args_take_a_type() {
    let args = parse_group_args(&tokens("via = Vec<(u8, a::B)>")).ok().unwrap();
    match args {
        GroupArgs::Via(ty) => assert_eq!(ty, "Vec < (u8 , a :: B) >"),
        GroupArgs::Plain => panic!("no type"),
    }
}

#[test]
fn group_args_errors() {
    let error = |text: &str| parse_group_args(&tokens(text)).err().unwrap();
    assert_eq!(error("").message, "unexpected end of input, expected identifier");
    assert_eq!(error("via").message, "expected `=`");
    assert_eq!(error("via").spot, Spot::End);
    assert_eq!(error("via T").spot, Spot::Token(1));
    assert_eq!(error("via = T, more").spot, Spot::FromEnd(2));
    assert_eq!(error("via = ,").spot, Spot::Outside);
    assert!(check_via(&tokens("via = T")).is_none());
}

#[test]
fn via_of_a_given_type() {
    let parsed = Ok(TypePrefix { ty: "T".to_owned(), left: 0 });
    assert!(matches!(finish_via(parsed), Ok(GroupArgs::Via(ty)) if ty == "T"));
    let parsed = Ok(TypePrefix { ty: "T".to_owned(), left: 3 });
    assert_eq!(finish_via(parsed).err().unwrap().spot, Spot::FromEnd(3));
    let error = finish_via(Err("no type".to_owned())).err().unwrap();
    assert_eq!(error.message, "no type");
}

#[test]
fn group_attribute_with_a_value_is_refused() {
    let error = expand("\"t\"", "struct T { #[group = 1] a: G }").unwrap_err();
    assert_eq!(error.site, Site::FieldAttr(0, 0));
    assert_eq!(error.message, "unexpected attribute form");
}

#[test]
fn field_of_given_arguments() {
    let decl = read_struct("struct T { #[doc(hidden)] #[group(via = R)] pub v: V }").ok().unwrap();
    let fields = decl.fields.unwrap();
    let info = classify(0, &fields[0], Ok(GroupArgs::Via("Other".to_owned()))).unwrap_or_else(
        |_| panic!("refused"),
    );
    assert_eq!(info.name, "v");
    assert_eq!(info.code, "#[doc (hidden)] pub v: V");
    match info.kind {
        FieldKind::Via { raw_ty, field_ty, prefix } => {
            assert_eq!(raw_ty, "Other");
            assert_eq!(field_ty, "V");
            assert_eq!(prefix, "v_");
        },
        _ => panic!("not a converted group"),
    }
}

#[test]
fn raw_names_are_kept_in_columns_and_dropped_in_methods() {
    let out = run(
        "\"t\", auto_primary_key",
        "pub struct T { #[unique] pub r#type: i64, #[group(via = R)] pub r#in: V }",
    );
    assert!(out.contains("pub fn get_by_type("));
    assert!(out.contains("\" WHERE r#type = ?1\""));
    assert!(out.contains("let __raw_in = <R as ::std::convert::From<V>>::from(self.r#in);"));
    assert!(out.contains("r#type: row.get(\"r#type\")?"));
}

#[test]
fn struct_flag_keeps_the_time_of_the_last_write() {
    let out = run("\"t\"", "#[track_last_update] pub struct T { #[primary_key] pub id: i64 }");
    assert!(out.starts_with("pub struct T {\n    pub id: i64,\n}\n"));
    assert!(out.contains("__last_written_ms INTEGER NOT NULL"));
}

#[test]
fn other_attributes_stay() {
    let out = run(
        "\"t\"",
        "#[derive(Debug)] #[index(a)] #[other] struct T<X> where X: Copy { #[x] #[primary_key] a: i64 }",
    );
    assert!(out.starts_with(
        "#[derive(Debug)]\n#[other]\nstruct T<X>\nwhere\n    X: Copy,\n{\n    #[x]\n    a: i64,\n}\n"
    ));
}

#[test]
fn table_entry_point() {
    let out = balsaq::table("\"t\"", "struct T { a: i64 }");
    assert!(out.contains("impl ::balsaq::Model for T {"));
    let out = balsaq::table("", "struct T { a: i64 }");
    assert!(out.contains("compile_error"));
    assert!(out.contains("expected string literal"));
}
