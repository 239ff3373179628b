//! The expansion of `#[table]`.
use crate::args::{
    parse_table_args, read_tokens, table_args, tokens_of, TableArgs,
};
use crate::decl::{read_struct, struct_of, StructData, StructView};
use crate::error::{fail, failure, MacroError, Site};
use crate::fields::{
    attrs_code, classify_all, field_infos, sort_attrs, table_attrs, write_attrs, FieldInfo,
    TableAttrsData, TableAttrsView,
};
use crate::rules::{check_indexes, check_keys, indexes_fault, key_fault};
use crate::syntax::{seen, Chars};
use crate::table_code::{table_code, write_table};
use crate::text::{fill, filled, join, join_all, mapped, views};
use vstd::prelude::*;

verus! {

pub const TABLE: &'static str = "$ $ struct $ $ $ {
    $
}

$";

/// A table struct and the code that it comes with.
pub open spec fn table_item(
    decl: StructView,
    args: TableArgs<Chars>,
    attrs: TableAttrsView,
    infos: Seq<FieldInfo<Chars>>,
) -> Chars {
    fill(
        TABLE@,
        seq![
            attrs_code(attrs.kept),
            decl.vis,
            decl.name,
            decl.generics,
            decl.where_clause,
            join(infos.map_values(|info: FieldInfo<Chars>| info.code), ",\n    "@),
            table_code(decl.vis, decl.name, args, infos, attrs.indexes),
        ],
    )
}

/// The flags of a table: those among its arguments, and that among its attributes.
pub open spec fn all_flags(args: TableArgs<Chars>, track: bool) -> TableArgs<Chars> {
    TableArgs { track_last_update: args.track_last_update || track, ..args }
}

/// A table whose parts have their roles: an error if it breaks a rule, and else its code.
pub open spec fn checked_table(
    decl: StructView,
    args: TableArgs<Chars>,
    attrs: TableAttrsView,
    infos: Seq<FieldInfo<Chars>>,
) -> Result<Chars, MacroError<Chars>> {
    let flags = all_flags(args, attrs.track);
    match (key_fault(flags, infos), indexes_fault(infos, attrs.indexes)) {
        (Some(error), _) => Err(error),
        (None, Some(error)) => Err(error),
        (None, None) => Ok(table_item(decl, flags, attrs, infos)),
    }
}

/// Copies the code of a field.
fn copy_code(info: &FieldInfo<String>) -> (r: String)
    ensures
        r@ == info@.code,
{
    info.code.clone()
}

/// Writes a table struct and the code that it comes with.
fn write_item(
    decl: &StructData,
    args: &TableArgs<String>,
    attrs: &TableAttrsData,
    infos: &Vec<FieldInfo<String>>,
) -> (r: String)
    ensures
        r@ == table_item(decl@, args@, attrs@, views(infos@)),
{
    let codes = mapped(infos, copy_code);
    assert(views(codes@) =~= views(infos@).map_values(|info: FieldInfo<Chars>| info.code));
    let mut holes: Vec<String> = Vec::new();
    holes.push(write_attrs(&attrs.kept));
    holes.push(decl.vis.clone());
    holes.push(decl.name.clone());
    holes.push(decl.generics.clone());
    holes.push(decl.where_clause.clone());
    holes.push(join_all(&codes, ",\n    "));
    holes.push(
        write_table(decl.vis.as_str(), decl.name.as_str(), args, infos, &attrs.indexes),
    );
    assert(views(holes@) =~= seq![
        attrs_code(attrs@.kept),
        decl@.vis,
        decl@.name,
        decl@.generics,
        decl@.where_clause,
        join(views(infos@).map_values(|info: FieldInfo<Chars>| info.code), ",\n    "@),
        table_code(decl@.vis, decl@.name, args@, views(infos@), attrs@.indexes),
    ]);
    filled(TABLE, &holes)
}

/// Checks the rules of a table whose parts have their roles, and writes it.
pub fn check_table(
    decl: &StructData,
    args: TableArgs<String>,
    attrs: &TableAttrsData,
    infos: &Vec<FieldInfo<String>>,
) -> (r: Result<String, MacroError<String>>)
    ensures
        seen(r) == checked_table(decl@, args@, attrs@, views(infos@)),
{
    let flags = TableArgs {
        table: args.table,
        auto_primary_key: args.auto_primary_key,
        track_last_update: args.track_last_update || attrs.track,
    };
    match check_keys(&flags, infos) {
        Some(error) => return Err(error),
        None => {},
    }
    match check_indexes(infos, &attrs.indexes) {
        Some(error) => return Err(error),
        None => {},
    }
    Ok(write_item(decl, &flags, attrs, infos))
}

/// The code of a struct with the arguments of its `#[table]`.
pub open spec fn table_of(args: TableArgs<Chars>, decl: StructView) -> Result<
    Chars,
    MacroError<Chars>,
> {
    match table_attrs(decl.attrs) {
        Err(error) => Err(error),
        Ok(attrs) => match decl.fields {
            None => Err(
                failure(Site::ItemName, "#[table] only supports structs with named fields"@),
            ),
            Some(fields) => match field_infos(fields) {
                Err(error) => Err(error),
                Ok(infos) => checked_table(decl, args, attrs, infos),
            },
        },
    }
}

/// Expands a struct with the arguments of its `#[table]`.
pub fn expand_struct(args: TableArgs<String>, decl: &StructData) -> (r: Result<
    String,
    MacroError<String>,
>)
    ensures
        seen(r) == table_of(args@, decl@),
{
    let attrs = match sort_attrs(&decl.attrs) {
        Ok(attrs) => attrs,
        Err(error) => return Err(error),
    };
    match &decl.fields {
        None => Err(fail(Site::ItemName, "#[table] only supports structs with named fields")),
        Some(fields) => match classify_all(fields) {
            Err(error) => Err(error),
            Ok(infos) => check_table(decl, args, &attrs, &infos),
        },
    }
}

/// The code that stands for an item with `#[table]`, for the text of the attribute's arguments and
/// of the item.
pub open spec fn table_expansion(attr: Chars, item: Chars) -> Result<Chars, MacroError<Chars>> {
    match tokens_of(attr) {
        Err(message) => Err(failure(Site::Outside, message)),
        Ok(tokens) => match table_args(tokens) {
            Err(error) => Err(failure(Site::Arg(error.spot), error.message)),
            Ok(args) => match struct_of(item) {
                Err(message) => Err(failure(Site::Outside, message)),
                Ok(decl) => table_of(args, decl),
            },
        },
    }
}

/// Expands an item with `#[table]`.
pub fn expand(attr: &str, item: &str) -> (r: Result<String, MacroError<String>>)
    ensures
        seen(r) == table_expansion(attr@, item@),
{
    let tokens = match read_tokens(attr) {
        Ok(tokens) => tokens,
        Err(message) => return Err(MacroError { site: Site::Outside, message }),
    };
    let args = match parse_table_args(&tokens) {
        Ok(args) => args,
        Err(error) => return Err(
            MacroError { site: Site::Arg(error.spot), message: error.message },
        ),
    };
    match read_struct(item) {
        Ok(decl) => expand_struct(args, &decl),
        Err(message) => Err(MacroError { site: Site::Outside, message }),
    }
}

} // verus!
