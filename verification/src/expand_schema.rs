//! The expansion of `#[schema]`.
use crate::args::{read_tokens, tokens_of};
use crate::decl::{read_struct, struct_of, AttrData, AttrView, StructData, StructView};
use crate::error::{fail, failure, MacroError, Site};
use crate::outside::{parse_module, parsed_module};
use crate::sql::{pieces_code, write_pieces, Piece};
use crate::syntax::{seen, seen_text, Chars, ModuleAttr, ModuleSyntax};
use crate::text::{fill, filled, filled1, join, join_all, lemma_views_push, same, views};
use vstd::prelude::*;

verus! {

pub type ModuleView = ModuleSyntax<Chars, Seq<Chars>, Seq<ModuleAttr<Chars>>>;

pub type ModuleData = ModuleSyntax<String, Vec<String>, Vec<ModuleAttr<String>>>;

// ---------------------------------------------------------------------------
// Tables of a module
// ---------------------------------------------------------------------------

/// Whether the path of an attribute ends in `table`.
pub open spec fn marks_table(attr: AttrView) -> bool {
    attr.last == Some("table"@)
}

/// Whether the path of one of the attributes ends in `table`.
pub open spec fn has_mark(attrs: Seq<AttrView>) -> bool {
    exists|i: int| 0 <= i < attrs.len() && #[trigger] marks_table(attrs[i])
}

/// The name of the table struct that an item is, if it is one; an item that is no struct is given
/// as an error.
pub open spec fn table_name(item: Result<StructView, Chars>) -> Option<Chars> {
    match item {
        Err(_) => None,
        Ok(decl) => if has_mark(decl.attrs) {
            Some(decl.name)
        } else {
            None
        },
    }
}

/// Checks whether the path of an attribute ends in `table`.
fn check_mark(attr: &AttrData) -> (r: bool)
    ensures
        r == marks_table(attr@),
{
    match &attr.last {
        Some(segment) => same(segment.as_str(), "table"),
        None => false,
    }
}

/// Checks whether the path of one of the attributes ends in `table`.
fn check_marks(attrs: &Vec<AttrData>) -> (r: bool)
    ensures
        r == has_mark(views(attrs@)),
{
    let mut i: usize = 0;
    while i < attrs.len()
        invariant
            i <= attrs@.len(),
            forall|k: int| 0 <= k < i ==> !#[trigger] marks_table(views(attrs@)[k]),
        decreases attrs.len() - i,
    {
        assert(views(attrs@)[i as int] == attrs@[i as int]@);
        if check_mark(&attrs[i]) {
            return true;
        }
        i += 1;
    }
    false
}

/// Takes the name of the table struct that an item is.
pub fn take_table_name(item: &Result<StructData, String>) -> (r: Option<String>)
    ensures
        seen_text(r) == table_name(seen(*item)),
{
    match item {
        Err(_) => None,
        Ok(decl) => if check_marks(&decl.attrs) {
            Some(decl.name.clone())
        } else {
            None
        },
    }
}

/// The names of the table structs among items, in their order.
pub open spec fn table_names(items: Seq<Result<StructView, Chars>>) -> Seq<Chars>
    decreases items.len(),
{
    if items.len() == 0 {
        Seq::empty()
    } else {
        let front = table_names(items.drop_last());
        match table_name(items.last()) {
            Some(name) => front.push(name),
            None => front,
        }
    }
}

/// The items of a module as structs.
pub open spec fn structs_of(items: Seq<Chars>) -> Seq<Result<StructView, Chars>> {
    items.map_values(|item: Chars| struct_of(item))
}

/// Takes the names of the table structs among the items of a module.
fn take_table_names(items: &Vec<String>) -> (r: Vec<String>)
    ensures
        views(r@) == table_names(structs_of(views(items@))),
{
    let ghost all = structs_of(views(items@));
    let mut r: Vec<String> = Vec::new();
    let mut i: usize = 0;
    assert(views(r@) =~= table_names(all.take(0)));
    while i < items.len()
        invariant
            i <= items@.len(),
            all == structs_of(views(items@)),
            views(r@) == table_names(all.take(i as int)),
        decreases items.len() - i,
    {
        assert(all.take(i + 1).drop_last() =~= all.take(i as int));
        assert(all.take(i + 1).last() == struct_of(items@[i as int]@));
        match take_table_name(&read_struct(items[i].as_str())) {
            Some(name) => {
                proof {
                    lemma_views_push(r@, name);
                }
                r.push(name);
            },
            None => {},
        }
        i += 1;
    }
    assert(all.take(i as int) =~= all);
    r
}

// ---------------------------------------------------------------------------
// The constant
// ---------------------------------------------------------------------------

/// The schema: the statements that create the tables, one after the other.
pub open spec fn schema_pieces(names: Seq<Chars>) -> Seq<Piece<Chars>> {
    names.map_values(|ty: Chars| Piece::CreateTable { ty })
}

/// Makes the schema of tables.
pub fn make_schema(names: &Vec<String>) -> (r: Vec<Piece<String>>)
    ensures
        views(r@) == schema_pieces(views(names@)),
{
    let mut r: Vec<Piece<String>> = Vec::new();
    let mut i: usize = 0;
    while i < names.len()
        invariant
            i <= names@.len(),
            r@.len() == i,
            forall|k: int|
                0 <= k < i ==> (#[trigger] r@[k])@ == (Piece::CreateTable { ty: names@[k]@ }),
        decreases names.len() - i,
    {
        r.push(Piece::CreateTable { ty: names[i].clone() });
        i += 1;
    }
    assert(views(r@) =~= schema_pieces(views(names@)));
    r
}

pub const SCHEMA: &'static str =
    "pub const SCHEMA: &'static str = ::balsaq::__cf::concatcp!($);";

pub const MODULE: &'static str = "$ $ $ mod $ {
    $
    $
    $
}";

/// The attributes of a module that stand inside its braces, or else those before it.
pub open spec fn module_attrs(attrs: Seq<ModuleAttr<Chars>>, inner: bool) -> Seq<Chars>
    decreases attrs.len(),
{
    if attrs.len() == 0 {
        Seq::empty()
    } else {
        let front = module_attrs(attrs.drop_last(), inner);
        if attrs.last().inner == inner {
            front.push(attrs.last().text)
        } else {
            front
        }
    }
}

/// Copies the attributes of a module that stand inside its braces, or else those before it.
fn copy_module_attrs(attrs: &Vec<ModuleAttr<String>>, inner: bool) -> (r: Vec<String>)
    ensures
        views(r@) == module_attrs(views(attrs@), inner),
{
    let mut r: Vec<String> = Vec::new();
    let mut i: usize = 0;
    assert(views(r@) =~= Seq::empty());
    while i < attrs.len()
        invariant
            i <= attrs@.len(),
            views(r@) == module_attrs(views(attrs@).take(i as int), inner),
        decreases attrs.len() - i,
    {
        let ghost part = views(attrs@).take(i + 1);
        assert(part.drop_last() =~= views(attrs@).take(i as int));
        assert(part.last() == attrs@[i as int]@);
        if attrs[i].inner == inner {
            let text = attrs[i].text.clone();
            proof {
                lemma_views_push(r@, text);
            }
            r.push(text);
        }
        i += 1;
    }
    assert(views(attrs@).take(i as int) =~= views(attrs@));
    r
}

/// A module with its items and the constant `SCHEMA` behind them.
pub open spec fn schema_module(module: ModuleView, items: Seq<Chars>, names: Seq<Chars>) -> Chars {
    fill(
        MODULE@,
        seq![
            join(module_attrs(module.attrs, false), " "@),
            module.vis,
            module.unsafety,
            module.name,
            join(module_attrs(module.attrs, true), " "@),
            join(items, "\n"@),
            fill(SCHEMA@, seq![pieces_code(schema_pieces(names))]),
        ],
    )
}

/// Writes a module with its items and the constant `SCHEMA` behind them.
fn write_module(module: &ModuleData, items: &Vec<String>, names: &Vec<String>) -> (r: String)
    ensures
        r@ == schema_module(module@, views(items@), views(names@)),
{
    let mut holes: Vec<String> = Vec::new();
    holes.push(join_all(&copy_module_attrs(&module.attrs, false), " "));
    holes.push(module.vis.clone());
    holes.push(module.unsafety.clone());
    holes.push(module.name.clone());
    holes.push(join_all(&copy_module_attrs(&module.attrs, true), " "));
    holes.push(join_all(items, "\n"));
    holes.push(filled1(SCHEMA, write_pieces(&make_schema(names)).as_str()));
    assert(views(holes@) =~= seq![
        join(module_attrs(module@.attrs, false), " "@),
        module@.vis,
        module@.unsafety,
        module@.name,
        join(module_attrs(module@.attrs, true), " "@),
        join(views(items@), "\n"@),
        fill(SCHEMA@, seq![pieces_code(schema_pieces(views(names@)))]),
    ]);
    filled(MODULE, &holes)
}

/// The code of a module, for the names of the table structs among its items.
pub open spec fn named_schema(module: ModuleView, items: Seq<Chars>, names: Seq<Chars>) -> Result<
    Chars,
    MacroError<Chars>,
> {
    if names.len() == 0 {
        Err(failure(Site::ItemName, "#[schema] module contains no #[table] structs"@))
    } else {
        Ok(schema_module(module, items, names))
    }
}

/// Writes a module, for the names of the table structs among its items.
pub fn name_schema(module: &ModuleData, items: &Vec<String>, names: &Vec<String>) -> (r: Result<
    String,
    MacroError<String>,
>)
    ensures
        seen(r) == named_schema(module@, views(items@), views(names@)),
{
    assert(views(names@).len() == names@.len());
    if names.len() == 0 {
        Err(fail(Site::ItemName, "#[schema] module contains no #[table] structs"))
    } else {
        Ok(write_module(module, items, names))
    }
}

/// The code of a module with `#[schema]`.
pub open spec fn schema_of(module: ModuleView) -> Result<Chars, MacroError<Chars>> {
    match module.items {
        None => Err(
            failure(
                Site::ItemName,
                "#[schema] requires an inline module; `mod name;` form is not supported"@,
            ),
        ),
        Some(items) => named_schema(module, items, table_names(structs_of(items))),
    }
}

/// Expands a module with `#[schema]`.
pub fn expand_module(module: &ModuleData) -> (r: Result<String, MacroError<String>>)
    ensures
        seen(r) == schema_of(module@),
{
    match &module.items {
        None => Err(
            fail(
                Site::ItemName,
                "#[schema] requires an inline module; `mod name;` form is not supported",
            ),
        ),
        Some(items) => name_schema(module, items, &take_table_names(items)),
    }
}

/// The code that stands for an item with `#[schema]`.
pub open spec fn schema_expansion(attr: Chars, item: Chars) -> Result<Chars, MacroError<Chars>> {
    match tokens_of(attr) {
        Err(message) => Err(failure(Site::Outside, message)),
        Ok(tokens) => if tokens.len() > 0 {
            Err(failure(Site::Args, "#[schema] takes no arguments"@))
        } else {
            match parsed_module(item) {
                Err(message) => Err(failure(Site::Outside, message)),
                Ok(module) => schema_of(module),
            }
        },
    }
}

/// Expands an item with `#[schema]`.
pub fn expand(attr: &str, item: &str) -> (r: Result<String, MacroError<String>>)
    ensures
        seen(r) == schema_expansion(attr@, item@),
{
    let tokens = match read_tokens(attr) {
        Ok(tokens) => tokens,
        Err(message) => return Err(MacroError { site: Site::Outside, message }),
    };
    assert(views(tokens@).len() == tokens@.len());
    if tokens.len() > 0 {
        return Err(fail(Site::Args, "#[schema] takes no arguments"));
    }
    match parse_module(item) {
        Ok(module) => expand_module(&module),
        Err(message) => Err(MacroError { site: Site::Outside, message }),
    }
}

} // verus!
