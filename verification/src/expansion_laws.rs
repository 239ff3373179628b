//! What each macro makes of a whole item, and what it refuses.
use crate::args::{tokens_of, table_args, TableArgs};
use crate::decl::{
    attr_of, attrs_of, field_of, fields_of, struct_of, Attr, AttrView, FieldDecl, FieldView,
    StructDecl, StructView,
};
use crate::derive_column::{
    derive_expansion, derive_of, enum_contribution, enum_of, enum_sql_type, enum_values,
    enum_arm, enum_to_arm, has_integer_repr, is_integer_repr, is_integer_type,
    newtype_contribution, newtype_of, numerals, variant_of, variants_of, VariantView, ENUM,
    ENUM_ARM, ENUM_TO_ARM, NEWTYPE,
};
use crate::error::{MacroError, Site};
use crate::expand_group::{
    definition, field_names, group_cols, group_column, group_contribution, group_ddl,
    group_expansion, group_item, group_of, group_vals, optional_group,
};
use crate::expand_schema::{
    has_mark, marks_table, module_attrs, named_schema, schema_expansion, schema_of, schema_pieces,
    structs_of, table_name, table_names, ModuleView, MODULE, SCHEMA,
};
use crate::expand_table::{checked_table, table_expansion, table_of, TABLE};
use crate::fields::{field_infos, table_attrs, FieldInfo, TableAttrsView, ATTRIBUTE};
use crate::outside::{
    parsed_derive, parsed_expr, parsed_field, parsed_meta, parsed_module, parsed_struct,
    parsed_variant, string_literal,
};
use crate::role_laws::law_all_ok;
use crate::rules::{indexes_fault, key_fault};
use crate::sql::{
    column_entry, pieces_code, pieces_sql, CatalogView, ColumnEntry, GroupEntry, Piece,
};
use crate::syntax::{
    AttrForm, Chars, DataSyntax, DeriveSyntax, ExprForm, ModuleAttr, Token, Variant,
};
use crate::table_code::table_code;
use crate::text::{fill, join, signed_numeral};
use crate::{group_invocation, output};
use vstd::prelude::*;

verus! {

// ---------------------------------------------------------------------------
// Schemas
// ---------------------------------------------------------------------------

/// Whether the path of an attribute ends in `table`.
pub open spec fn ends_in_table(attr: AttrView) -> bool {
    attr.last == Some("table"@)
}

/// Whether an item is a struct with an attribute, in whatever place, whose path ends in `table`.
pub open spec fn is_table(item: Result<StructView, Chars>) -> bool {
    item matches Ok(decl) && exists|i: int|
        0 <= i < decl.attrs.len() && #[trigger] ends_in_table(decl.attrs[i])
}

/// The tables of a schema are the structs among its items that have an attribute whose path ends in
/// `table`, under their names and in their order; no other item is one.
pub proof fn law_schema_tables(items: Seq<Result<StructView, Chars>>)
    ensures
        table_names(items) == items.filter(
            |item: Result<StructView, Chars>| is_table(item),
        ).map_values(|item: Result<StructView, Chars>| item->Ok_0.name),
    decreases items.len(),
{
    reveal(Seq::filter);
    let table = |item: Result<StructView, Chars>| is_table(item);
    let name = |item: Result<StructView, Chars>| item->Ok_0.name;
    if items.len() == 0 {
        assert(items.filter(table).map_values(name) =~= Seq::empty());
    } else {
        let front = items.drop_last();
        let last = items.last();
        law_schema_tables(front);
        if let Ok(decl) = last {
            assert(has_mark(decl.attrs) == is_table(last)) by {
                if is_table(last) {
                    let i = choose|i: int|
                        0 <= i < decl.attrs.len() && #[trigger] ends_in_table(decl.attrs[i]);
                    assert(marks_table(decl.attrs[i]));
                }
                if has_mark(decl.attrs) {
                    let i = choose|i: int|
                        0 <= i < decl.attrs.len()
                            && #[trigger] marks_table(decl.attrs[i]);
                    assert(ends_in_table(decl.attrs[i]));
                }
            }
        }
        if is_table(last) {
            assert(items.filter(table) =~= front.filter(table).push(last));
            assert(items.filter(table).map_values(name) =~= front.filter(table).map_values(
                name,
            ).push(last->Ok_0.name));
        } else {
            assert(items.filter(table) =~= front.filter(table));
        }
    }
}

/// One struct is a table if one of its attributes says so, wherever it stands, and is none if none
/// does.
pub proof fn law_schema_mark(decl: StructView, at: int)
    ensures
        0 <= at < decl.attrs.len() && ends_in_table(decl.attrs[at]) ==> table_names(
            seq![Ok::<StructView, Chars>(decl)],
        ) == seq![decl.name] && table_name(Ok(decl)) == Some(decl.name),
        (forall|i: int| 0 <= i < decl.attrs.len() ==> !#[trigger] ends_in_table(decl.attrs[i]))
            ==> table_names(seq![Ok::<StructView, Chars>(decl)]) == Seq::<Chars>::empty()
            && table_name(Ok(decl)) is None,
        forall|message: Chars| #[trigger] table_name(Err(message)) is None,
{
    let item = Ok::<StructView, Chars>(decl);
    reveal_with_fuel(table_names, 2);
    assert(seq![item].drop_last() =~= Seq::empty());
    assert(table_names(seq![item].drop_last()) =~= Seq::empty());
    if 0 <= at < decl.attrs.len() && ends_in_table(decl.attrs[at]) {
        assert(marks_table(decl.attrs[at]));
        assert(table_names(seq![item]) =~= seq![decl.name]);
    }
    if has_mark(decl.attrs) {
        let i = choose|i: int| 0 <= i < decl.attrs.len() && #[trigger] marks_table(decl.attrs[i]);
        assert(ends_in_table(decl.attrs[i]));
    }
}

/// An attribute whose path does not end in `table`, put anywhere among the others, makes no
/// difference to the tables of a schema.
pub proof fn law_schema_other_attrs(decl: StructView, attr: AttrView, at: int)
    requires
        0 <= at <= decl.attrs.len(),
        !ends_in_table(attr),
    ensures
        table_names(
            seq![
                Ok::<StructView, Chars>(
                    StructDecl { attrs: decl.attrs.insert(at, attr), ..decl },
                ),
            ],
        ) == table_names(seq![Ok::<StructView, Chars>(decl)]),
{
    let more = StructDecl { attrs: decl.attrs.insert(at, attr), ..decl };
    if exists|i: int| 0 <= i < decl.attrs.len() && #[trigger] ends_in_table(decl.attrs[i]) {
        let i = choose|i: int| 0 <= i < decl.attrs.len() && #[trigger] ends_in_table(decl.attrs[i]);
        let j = if i < at {
            i
        } else {
            i + 1
        };
        assert(more.attrs[j] == decl.attrs[i]);
        law_schema_mark(decl, i);
        law_schema_mark(more, j);
    } else {
        assert forall|j: int| 0 <= j < more.attrs.len() implies !#[trigger] ends_in_table(
            more.attrs[j],
        ) by {
            if j < at {
                assert(more.attrs[j] == decl.attrs[j]);
            } else if j > at {
                assert(more.attrs[j] == decl.attrs[j - 1]);
            }
        }
        law_schema_mark(decl, 0);
        law_schema_mark(more, 0);
    }
}

/// The attributes of a module are parted into the outer and the inner ones, each in their order.
pub proof fn law_module_attrs(attrs: Seq<ModuleAttr<Chars>>, inner: bool)
    ensures
        module_attrs(attrs, inner) == attrs.filter(
            |attr: ModuleAttr<Chars>| attr.inner == inner,
        ).map_values(|attr: ModuleAttr<Chars>| attr.text),
    decreases attrs.len(),
{
    reveal(Seq::filter);
    let kept = |attr: ModuleAttr<Chars>| attr.inner == inner;
    let text = |attr: ModuleAttr<Chars>| attr.text;
    if attrs.len() == 0 {
        assert(attrs.filter(kept).map_values(text) =~= Seq::empty());
    } else {
        let front = attrs.drop_last();
        law_module_attrs(front, inner);
        if attrs.last().inner == inner {
            assert(attrs.filter(kept) =~= front.filter(kept).push(attrs.last()));
            assert(attrs.filter(kept).map_values(text) =~= front.filter(kept).map_values(
                text,
            ).push(attrs.last().text));
        } else {
            assert(attrs.filter(kept) =~= front.filter(kept));
        }
    }
}

/// A module that is a schema keeps its attributes, its visibility, its name and all its items as
/// they are, and ends with a constant that has the `CREATE_TABLE` of each table in turn. A module
/// without tables is refused.
pub proof fn law_schema_module(module: ModuleView, items: Seq<Chars>, names: Seq<Chars>)
    ensures
        named_schema(module, items, names) == if names.len() == 0 {
            Err(
                MacroError {
                    site: Site::ItemName,
                    message: "#[schema] module contains no #[table] structs"@,
                },
            )
        } else {
            Ok(
                fill(
                    MODULE@,
                    seq![
                        join(module_attrs(module.attrs, false), " "@),
                        module.vis,
                        module.unsafety,
                        module.name,
                        join(module_attrs(module.attrs, true), " "@),
                        join(items, "\n"@),
                        fill(
                            SCHEMA@,
                            seq![
                                pieces_code(
                                    Seq::new(
                                        names.len(),
                                        |i: int| Piece::CreateTable { ty: names[i] },
                                    ),
                                ),
                            ],
                        ),
                    ],
                ),
            )
        },
{
    assert(schema_pieces(names) =~= Seq::new(
        names.len(),
        |i: int| Piece::CreateTable { ty: names[i] },
    ));
}

/// The tables of a schema are found among the items of its module; a module whose items stand in
/// another file is refused.
pub proof fn law_schema_items(module: ModuleView)
    ensures
        module.items is None ==> schema_of(module) == Err::<Chars, MacroError<Chars>>(
            MacroError {
                site: Site::ItemName,
                message: "#[schema] requires an inline module; `mod name;` form is not supported"@,
            },
        ),
        module.items matches Some(items) ==> schema_of(module) == named_schema(
            module,
            items,
            table_names(Seq::new(items.len(), |i: int| struct_of(items[i]))),
        ),
{
    if let Some(items) = module.items {
        assert(structs_of(items) =~= Seq::new(items.len(), |i: int| struct_of(items[i])));
    }
}

// ---------------------------------------------------------------------------
// Enums
// ---------------------------------------------------------------------------

/// One more variant behind others that are accepted is accepted if it has no fields, its
/// discriminant is an integer literal with or without a minus sign or none, and the number is less
/// than the greatest `i64`. It adds its number. Each other variant is refused for what is wrong
/// with it, and variants behind a refused one change nothing.
pub proof fn law_enum_next(front: Seq<VariantView>, last: VariantView)
    ensures
        enum_values(Seq::<VariantView>::empty()) == Ok::<Seq<int>, MacroError<Chars>>(Seq::empty()),
        enum_values(front) is Err ==> enum_values(front.push(last)) == enum_values(front),
        enum_values(front) matches Ok(values) ==> {
            let i = front.len() as usize;
            let here = Site::Discriminant(i);
            let all = enum_values(front.push(last));
            let next: int = if values.len() == 0 {
                0
            } else {
                values[values.len() - 1] + 1
            };
            let refused = |site: Site, message: Chars|
                Err::<Seq<int>, MacroError<Chars>>(MacroError { site, message });
            let numbered = |value: int|
                if value >= i64::MAX {
                    refused(Site::ItemName, "discriminant overflow"@)
                } else {
                    Ok::<Seq<int>, MacroError<Chars>>(values.push(value))
                };
            if !last.unit {
                all == refused(
                    Site::Variant(i),
                    "derive(Column) on an enum requires unit variants (no fields)"@,
                )
            } else {
                match last.discriminant {
                    None => all == numbered(next),
                    Some(ExprForm::Int(Ok(value))) => all == numbered(value as int),
                    Some(ExprForm::Negated(Ok(value))) => all == numbered(-(value as int)),
                    Some(ExprForm::Int(Err(message))) => all == refused(here, message),
                    Some(ExprForm::Negated(Err(message))) => all == refused(here, message),
                    Some(_) => all == refused(here, "discriminant must be an integer literal"@),
                }
            }
        },
{
    assert(front.push(last).drop_last() =~= front);
}

/// The integer types of the language.
pub open spec fn integer_types() -> Seq<Chars> {
    seq![
        "i8"@,
        "i16"@,
        "i32"@,
        "i64"@,
        "i128"@,
        "isize"@,
        "u8"@,
        "u16"@,
        "u32"@,
        "u64"@,
        "u128"@,
        "usize"@,
    ]
}

/// Whether an attribute is `repr` with one integer type and nothing else.
pub open spec fn gives_integer(attr: AttrView) -> bool {
    attr.path == "repr"@ && (attr.form matches AttrForm::List(tokens) && tokens.len() == 1 && (
    tokens[0] matches Token::Word(word) && integer_types().contains(word)))
}

/// The words that are integer types are those of the list.
proof fn lemma_integer_types(word: Chars)
    ensures
        integer_types().contains(word) <==> is_integer_type(word),
{
    let words = integer_types();
    assert(words[0] == "i8"@ && words[1] == "i16"@ && words[2] == "i32"@ && words[3] == "i64"@);
    assert(words[4] == "i128"@ && words[5] == "isize"@ && words[6] == "u8"@ && words[7] == "u16"@);
    assert(words[8] == "u32"@ && words[9] == "u64"@ && words[10] == "u128"@);
    assert(words[11] == "usize"@);
}

/// An enum has an integer representation if any of its attributes, in whatever place, gives one.
pub proof fn law_integer_repr(attrs: Seq<AttrView>)
    ensures
        has_integer_repr(attrs) <==> exists|i: int|
            0 <= i < attrs.len() && #[trigger] gives_integer(attrs[i]),
{
    assert forall|i: int| 0 <= i < attrs.len() implies #[trigger] gives_integer(attrs[i])
        == is_integer_repr(attrs[i]) by {
        if let AttrForm::List(tokens) = attrs[i].form {
            if let Token::Word(word) = tokens[0] {
                lemma_integer_types(word);
            }
        }
    }
    if has_integer_repr(attrs) {
        let i = choose|i: int| 0 <= i < attrs.len() && #[trigger] is_integer_repr(attrs[i]);
        assert(gives_integer(attrs[i]));
    }
    if exists|i: int| 0 <= i < attrs.len() && #[trigger] gives_integer(attrs[i]) {
        let i = choose|i: int| 0 <= i < attrs.len() && #[trigger] gives_integer(attrs[i]);
        assert(is_integer_repr(attrs[i]));
    }
}

/// What a derive on an enum is told, in the order of its rules; the code has for each variant, in
/// order, an arm from its name to its number and one from its number to its name, and the SQL type
/// admits exactly the numbers.
pub proof fn law_enum_code(name: Chars, attrs: Seq<AttrView>, variants: Seq<VariantView>)
    ensures
        !has_integer_repr(attrs) ==> enum_of(name, attrs, variants) == Err::<
            Chars,
            MacroError<Chars>,
        >(
            MacroError {
                site: Site::ItemName,
                message: "derive(Column) on an enum requires #[repr(integer)], e.g. #[repr(i64)]"@,
            },
        ),
        has_integer_repr(attrs) && variants.len() == 0 ==> enum_of(name, attrs, variants) == Err::<
            Chars,
            MacroError<Chars>,
        >(
            MacroError {
                site: Site::ItemName,
                message: "derive(Column) requires at least one variant"@,
            },
        ),
        has_integer_repr(attrs) && variants.len() > 0 ==> enum_of(name, attrs, variants)
            == match enum_values(variants) {
            Err(error) => Err(error),
            Ok(values) => Ok(
                fill(
                    ENUM@,
                    seq![
                        name,
                        join(
                            Seq::new(
                                variants.len(),
                                |i: int|
                                    fill(
                                        ENUM_TO_ARM@,
                                        seq![variants[i].name, signed_numeral(values[i])],
                                    ),
                            ),
                            " "@,
                        ),
                        name,
                        join(
                            Seq::new(
                                variants.len(),
                                |i: int|
                                    fill(
                                        ENUM_ARM@,
                                        seq![signed_numeral(values[i]), variants[i].name],
                                    ),
                            ),
                            " "@,
                        ),
                        name,
                        string_literal(
                            "INTEGER CHECK ({col} IN ("@ + join(
                                Seq::new(values.len(), |i: int| signed_numeral(values[i])),
                                ", "@,
                            ) + "))"@,
                        ),
                    ],
                ),
            ),
        },
{
    if let Ok(values) = enum_values(variants) {
        law_enum_type(name, values);
        assert(Seq::new(
            variants.len(),
            |i: int| enum_arm(variants[i].name, values[i]),
        ) =~= Seq::new(
            variants.len(),
            |i: int| fill(ENUM_ARM@, seq![signed_numeral(values[i]), variants[i].name]),
        ));
        assert(Seq::new(
            variants.len(),
            |i: int| enum_to_arm(variants[i].name, values[i]),
        ) =~= Seq::new(
            variants.len(),
            |i: int| fill(ENUM_TO_ARM@, seq![variants[i].name, signed_numeral(values[i])]),
        ));
    }
}

/// A column with an enum in it is never absent, and its SQL type admits exactly the numbers.
pub proof fn law_enum_type(ty: Chars, values: Seq<int>)
    ensures
        enum_sql_type(values) == "INTEGER CHECK ({col} IN ("@ + join(
            Seq::new(values.len(), |i: int| signed_numeral(values[i])),
            ", "@,
        ) + "))"@,
        enum_contribution(ty, values) == (ColumnEntry {
            ty,
            sql_type: enum_sql_type(values),
            nullable: false,
        }),
{
    assert(numerals(values) =~= Seq::new(
        values.len(),
        |i: int| signed_numeral(values[i]),
    ));
}

// ---------------------------------------------------------------------------
// Derives
// ---------------------------------------------------------------------------

/// A struct with one field without a name is a column as that field is, under its own name; no
/// other struct may be a column.
pub proof fn law_newtype_code(
    name: Chars,
    types: Option<Seq<Chars>>,
    inner: Chars,
    catalog: CatalogView,
)
    ensures
        types == Some(seq![inner]) ==> newtype_of(name, types) == Ok::<Chars, MacroError<Chars>>(
            fill(NEWTYPE@, seq![name, name, inner, name, inner, inner]),
        ),
        !(types matches Some(list) && list.len() == 1) ==> newtype_of(name, types) == Err::<
            Chars,
            MacroError<Chars>,
        >(
            MacroError {
                site: Site::ItemName,
                message: "derive(Column) requires a single-field tuple struct"@,
            },
        ),
        newtype_contribution(name, inner, catalog) is Some <==> column_entry(
            catalog.columns,
            inner,
        ) is Some,
        column_entry(catalog.columns, inner) matches Some(entry) ==> newtype_contribution(
            name,
            inner,
            catalog,
        ) == Some(
            ColumnEntry { ty: name, sql_type: entry.sql_type, nullable: entry.nullable },
        ),
{
}

/// A derive goes by the kind of the item. The attributes of an enum are read before its variants,
/// and the first that cannot be read is what is reported.
pub proof fn law_derive(text: Chars, item: DeriveSyntax<Chars, Seq<Chars>>)
    ensures
        parsed_derive(text) matches Err(message) ==> derive_expansion(text) == Err::<
            Chars,
            MacroError<Chars>,
        >(MacroError { site: Site::Outside, message }),
        parsed_derive(text) == Ok::<DeriveSyntax<Chars, Seq<Chars>>, Chars>(item)
            ==> derive_expansion(text) == derive_of(item),
        derive_of(item) == match item.data {
            DataSyntax::Struct(types) => newtype_of(item.name, types),
            DataSyntax::Union => Err(
                MacroError {
                    site: Site::ItemName,
                    message:
                        "derive(Column) requires a single-field tuple struct or a C-like enum with #[repr(integer)]"@,
                },
            ),
            DataSyntax::Enum(texts) => if attrs_of(item.attrs) is Err {
                Err(MacroError { site: Site::Outside, message: attrs_of(item.attrs)->Err_0 })
            } else if variants_of(texts) is Err {
                Err(MacroError { site: Site::Outside, message: variants_of(texts)->Err_0 })
            } else {
                enum_of(item.name, attrs_of(item.attrs)->Ok_0, variants_of(texts)->Ok_0)
            },
        },
{
}

// ---------------------------------------------------------------------------
// Parts of items
// ---------------------------------------------------------------------------

/// The parts of a variant are those of its syntax, with the form of its discriminant.
pub proof fn law_variant(text: Chars)
    ensures
        match parsed_variant(text) {
            Err(message) => variant_of(text) == Err::<VariantView, Chars>(message),
            Ok(variant) => match variant.discriminant {
                None => variant_of(text) == Ok::<VariantView, Chars>(
                    Variant { name: variant.name, unit: variant.unit, discriminant: None },
                ),
                Some(expr) => match parsed_expr(expr) {
                    Err(message) => variant_of(text) == Err::<VariantView, Chars>(message),
                    Ok(form) => variant_of(text) == Ok::<VariantView, Chars>(
                        Variant {
                            name: variant.name,
                            unit: variant.unit,
                            discriminant: Some(form),
                        },
                    ),
                },
            },
        },
{
}

/// The parts of an attribute are those of its syntax, with its own text and the tokens of its
/// arguments.
pub proof fn law_attr(text: Chars)
    ensures
        match parsed_meta(text) {
            Err(message) => attr_of(text) == Err::<AttrView, Chars>(message),
            Ok(meta) => match meta.form {
                AttrForm::Path => attr_of(text) == Ok::<AttrView, Chars>(
                    Attr { text, path: meta.path, last: meta.last, form: AttrForm::Path },
                ),
                AttrForm::NameValue => attr_of(text) == Ok::<AttrView, Chars>(
                    Attr { text, path: meta.path, last: meta.last, form: AttrForm::NameValue },
                ),
                AttrForm::List(args) => match tokens_of(args) {
                    Err(message) => attr_of(text) == Err::<AttrView, Chars>(message),
                    Ok(tokens) => attr_of(text) == Ok::<AttrView, Chars>(
                        Attr {
                            text,
                            path: meta.path,
                            last: meta.last,
                            form: AttrForm::List(tokens),
                        },
                    ),
                },
            },
        },
{
}

/// The parts of a field are those of its syntax, with its attributes read.
pub proof fn law_field(text: Chars)
    ensures
        match parsed_field(text) {
            Err(message) => field_of(text) == Err::<FieldView, Chars>(message),
            Ok(field) => match attrs_of(field.attrs) {
                Err(message) => field_of(text) == Err::<FieldView, Chars>(message),
                Ok(attrs) => field_of(text) == Ok::<FieldView, Chars>(
                    FieldDecl { attrs, vis: field.vis, name: field.name, ty: field.ty },
                ),
            },
        },
{
}

/// The parts of a struct are those of its syntax, with its attributes and then its fields read.
pub proof fn law_struct(text: Chars)
    ensures
        match parsed_struct(text) {
            Err(message) => struct_of(text) == Err::<StructView, Chars>(message),
            Ok(item) => {
                &&& attrs_of(item.attrs) matches Err(message) ==> struct_of(text) == Err::<
                    StructView,
                    Chars,
                >(message)
                &&& attrs_of(item.attrs) matches Ok(attrs) ==> match item.fields {
                    None => struct_of(text) == Ok::<StructView, Chars>(
                        StructDecl {
                            attrs,
                            vis: item.vis,
                            name: item.name,
                            generics: item.generics,
                            where_clause: item.where_clause,
                            fields: None,
                        },
                    ),
                    Some(texts) => match fields_of(texts) {
                        Err(message) => struct_of(text) == Err::<StructView, Chars>(message),
                        Ok(fields) => struct_of(text) == Ok::<StructView, Chars>(
                            StructDecl {
                                attrs,
                                vis: item.vis,
                                name: item.name,
                                generics: item.generics,
                                where_clause: item.where_clause,
                                fields: Some(fields),
                            },
                        ),
                    },
                }
            },
        },
{
}

/// Attributes are read one for one, in their order, and the first that cannot be read is what is
/// reported.
pub proof fn law_attrs(texts: Seq<Chars>, at: int)
    requires
        0 <= at <= texts.len(),
        forall|i: int| 0 <= i < at ==> attr_of(#[trigger] texts[i]) is Ok,
        at < texts.len() ==> attr_of(texts[at]) is Err,
    ensures
        at < texts.len() ==> attrs_of(texts) == Err::<Seq<AttrView>, Chars>(
            attr_of(texts[at])->Err_0,
        ),
        at == texts.len() ==> attrs_of(texts) is Ok && attrs_of(texts)->Ok_0.len() == texts.len()
            && forall|i: int|
            0 <= i < texts.len() ==> attr_of(#[trigger] texts[i]) == Ok::<AttrView, Chars>(
                attrs_of(texts)->Ok_0[i],
            ),
{
    let outcomes = Seq::new(texts.len(), |i: int| attr_of(texts[i]));
    assert forall|i: int| 0 <= i < at implies (#[trigger] outcomes[i]) is Ok by {
        assert(attr_of(texts[i]) is Ok);
    }
    law_all_ok(outcomes, at);
    if at == texts.len() {
        assert forall|i: int| 0 <= i < texts.len() implies attr_of(#[trigger] texts[i]) == Ok::<
            AttrView,
            Chars,
        >(attrs_of(texts)->Ok_0[i]) by {
            assert(outcomes[i] == attr_of(texts[i]));
        }
    }
}

/// Fields are read one for one, in their order, and the first that cannot be read is what is
/// reported.
pub proof fn law_fields(texts: Seq<Chars>, at: int)
    requires
        0 <= at <= texts.len(),
        forall|i: int| 0 <= i < at ==> field_of(#[trigger] texts[i]) is Ok,
        at < texts.len() ==> field_of(texts[at]) is Err,
    ensures
        at < texts.len() ==> fields_of(texts) == Err::<Seq<FieldView>, Chars>(
            field_of(texts[at])->Err_0,
        ),
        at == texts.len() ==> fields_of(texts) is Ok && fields_of(texts)->Ok_0.len() == texts.len()
            && forall|i: int|
            0 <= i < texts.len() ==> field_of(#[trigger] texts[i]) == Ok::<FieldView, Chars>(
                fields_of(texts)->Ok_0[i],
            ),
{
    let outcomes = Seq::new(texts.len(), |i: int| field_of(texts[i]));
    assert forall|i: int| 0 <= i < at implies (#[trigger] outcomes[i]) is Ok by {
        assert(field_of(texts[i]) is Ok);
    }
    law_all_ok(outcomes, at);
    if at == texts.len() {
        assert forall|i: int| 0 <= i < texts.len() implies field_of(#[trigger] texts[i]) == Ok::<
            FieldView,
            Chars,
        >(fields_of(texts)->Ok_0[i]) by {
            assert(outcomes[i] == field_of(texts[i]));
        }
    }
}

/// Variants are read one for one, in their order, and the first that cannot be read is what is
/// reported.
pub proof fn law_variants(texts: Seq<Chars>, at: int)
    requires
        0 <= at <= texts.len(),
        forall|i: int| 0 <= i < at ==> variant_of(#[trigger] texts[i]) is Ok,
        at < texts.len() ==> variant_of(texts[at]) is Err,
    ensures
        at < texts.len() ==> variants_of(texts) == Err::<Seq<VariantView>, Chars>(
            variant_of(texts[at])->Err_0,
        ),
        at == texts.len() ==> variants_of(texts) is Ok && variants_of(texts)->Ok_0.len()
            == texts.len() && forall|i: int|
            0 <= i < texts.len() ==> variant_of(#[trigger] texts[i]) == Ok::<VariantView, Chars>(
                variants_of(texts)->Ok_0[i],
            ),
{
    let outcomes = texts.map_values(|text: Chars| variant_of(text));
    assert forall|i: int| 0 <= i < at implies (#[trigger] outcomes[i]) is Ok by {
        assert(variant_of(texts[i]) is Ok);
    }
    law_all_ok(outcomes, at);
    if at == texts.len() {
        assert forall|i: int| 0 <= i < texts.len() implies variant_of(#[trigger] texts[i]) == Ok::<
            VariantView,
            Chars,
        >(variants_of(texts)->Ok_0[i]) by {
            assert(outcomes[i] == variant_of(texts[i]));
        }
    }
}

// ---------------------------------------------------------------------------
// Groups
// ---------------------------------------------------------------------------

/// A group must be a struct with named fields, and with at least one.
pub proof fn law_group(item: Chars, decl: StructView)
    ensures
        decl.fields is None ==> group_of(item, decl) == Err::<Chars, MacroError<Chars>>(
            MacroError {
                site: Site::ItemName,
                message: "#[group] only supports structs with named fields"@,
            },
        ),
        decl.fields matches Some(fields) ==> group_of(item, decl) == if fields.len() == 0 {
            Err(
                MacroError {
                    site: Site::ItemName,
                    message: "#[group] struct must have at least one field"@,
                },
            )
        } else {
            Ok(group_item(item, decl.name, fields))
        },
        struct_of(item) == Ok::<StructView, Chars>(decl) ==> group_expansion(item) == group_of(
            item,
            decl,
        ),
        struct_of(item) matches Err(message) ==> group_expansion(item) == Err::<
            Chars,
            MacroError<Chars>,
        >(MacroError { site: Site::Outside, message }),
{
}

/// The columns of a group are the names of its fields behind a place for the prefix, its parameters
/// have a colon before that, and a definition is the column, its SQL type and a place for the
/// qualifier.
pub proof fn law_group_parts(fields: Seq<FieldView>)
    ensures
        field_names(fields).len() == fields.len(),
        forall|i: int| 0 <= i < fields.len() ==> #[trigger] field_names(fields)[i]
            == fields[i].name,
        group_cols(field_names(fields)) == join(
            Seq::new(fields.len(), |i: int| "{P}"@ + fields[i].name),
            ", "@,
        ),
        group_vals(field_names(fields)) == join(
            Seq::new(fields.len(), |i: int| ":"@ + ("{P}"@ + fields[i].name)),
            ", "@,
        ),
        group_ddl(fields) == join(
            Seq::new(
                fields.len(),
                |i: int|
                    seq![
                        Piece::Text("    "@ + ("{P}"@ + fields[i].name) + " "@),
                        Piece::ColumnType { ty: fields[i].ty, column: "{P}"@ + fields[i].name },
                        Piece::ColumnPlaceholder { ty: fields[i].ty },
                    ],
            ),
            seq![Piece::Text(",\n"@)],
        ),
{
    let names = field_names(fields);
    assert(names.map_values(|name: Chars| group_column(name)) =~= Seq::new(
        fields.len(),
        |i: int| "{P}"@ + fields[i].name,
    ));
    assert(names.map_values(|name: Chars| ":"@ + group_column(name))
        =~= Seq::new(fields.len(), |i: int| ":"@ + ("{P}"@ + fields[i].name)));
    assert(fields.map_values(|field: FieldView| definition(field)) =~= Seq::new(
        fields.len(),
        |i: int|
            seq![
                Piece::Text("    "@ + ("{P}"@ + fields[i].name) + " "@),
                Piece::ColumnType { ty: fields[i].ty, column: "{P}"@ + fields[i].name },
                Piece::ColumnPlaceholder { ty: fields[i].ty },
            ],
    ));
}

/// A group is entered under its own name with what it expands to, and must be present; as optional
/// it is entered under another name, is the same in all else and may be absent.
pub proof fn law_group_entered(
    ty: Chars,
    fields: Seq<FieldView>,
    catalog: CatalogView,
    entry: GroupEntry<Chars>,
)
    ensures
        pieces_sql(group_ddl(fields), catalog) is None <==> group_contribution(
            ty,
            fields,
            catalog,
        ) is None,
        pieces_sql(group_ddl(fields), catalog) matches Some(ddl) ==> group_contribution(
            ty,
            fields,
            catalog,
        ) == Some(
            GroupEntry {
                ty,
                ddl,
                cols: group_cols(field_names(fields)),
                vals: group_vals(field_names(fields)),
                nullable: false,
            },
        ),
        optional_group(ty, entry) == (GroupEntry {
            ty,
            ddl: entry.ddl,
            cols: entry.cols,
            vals: entry.vals,
            nullable: true,
        }),
{
}

// ---------------------------------------------------------------------------
// Tables
// ---------------------------------------------------------------------------

/// A table that is accepted is its struct, with the attributes that stay, its visibility, name,
/// generics and fields, and then the code of the table; the time of the last write is kept if an
/// argument or an attribute says so. Keys are checked before indexes.
pub proof fn law_table(
    decl: StructView,
    args: TableArgs<Chars>,
    attrs: TableAttrsView,
    infos: Seq<FieldInfo<Chars>>,
)
    ensures
        ({
            let flags = TableArgs {
                table: args.table,
                auto_primary_key: args.auto_primary_key,
                track_last_update: args.track_last_update || attrs.track,
            };
            let kept = Seq::new(attrs.kept.len(), |i: int| fill(ATTRIBUTE@, seq![attrs.kept[i]]));
            let fields = Seq::new(infos.len(), |i: int| infos[i].code);
            checked_table(decl, args, attrs, infos) == if key_fault(flags, infos) is Some {
                Err(key_fault(flags, infos)->Some_0)
            } else if indexes_fault(infos, attrs.indexes) is Some {
                Err(indexes_fault(infos, attrs.indexes)->Some_0)
            } else {
                Ok(
                    fill(
                        TABLE@,
                        seq![
                            join(kept, " "@),
                            decl.vis,
                            decl.name,
                            decl.generics,
                            decl.where_clause,
                            join(fields, ",\n    "@),
                            table_code(decl.vis, decl.name, flags, infos, attrs.indexes),
                        ],
                    ),
                )
            }
        }),
{
    assert(attrs.kept.map_values(|text: Chars| fill(ATTRIBUTE@, seq![text])) =~= Seq::new(
        attrs.kept.len(),
        |i: int| fill(ATTRIBUTE@, seq![attrs.kept[i]]),
    ));
    assert(infos.map_values(|info: FieldInfo<Chars>| info.code) =~= Seq::new(
        infos.len(),
        |i: int| infos[i].code,
    ));
}

/// The attributes of a struct are sorted before its fields are looked at; a table must be a struct
/// with named fields, and the first field that is refused decides.
pub proof fn law_table_order(args: TableArgs<Chars>, decl: StructView)
    ensures
        table_attrs(decl.attrs) matches Err(error) ==> table_of(args, decl) == Err::<
            Chars,
            MacroError<Chars>,
        >(error),
        table_attrs(decl.attrs) is Ok && decl.fields is None ==> table_of(args, decl) == Err::<
            Chars,
            MacroError<Chars>,
        >(
            MacroError {
                site: Site::ItemName,
                message: "#[table] only supports structs with named fields"@,
            },
        ),
        table_attrs(decl.attrs) matches Ok(attrs) ==> (decl.fields matches Some(fields)
            ==> table_of(args, decl) == match field_infos(fields) {
            Err(error) => Err(error),
            Ok(infos) => checked_table(decl, args, attrs, infos),
        }),
{
}

// ---------------------------------------------------------------------------
// Macros
// ---------------------------------------------------------------------------

/// `#[table]` reads its arguments, then its item, and then expands the struct.
pub proof fn law_table_macro(attr: Chars, item: Chars)
    ensures
        tokens_of(attr) matches Err(message) ==> table_expansion(attr, item) == Err::<
            Chars,
            MacroError<Chars>,
        >(MacroError { site: Site::Outside, message }),
        tokens_of(attr) matches Ok(tokens) ==> match table_args(tokens) {
            Err(error) => table_expansion(attr, item) == Err::<Chars, MacroError<Chars>>(
                MacroError { site: Site::Arg(error.spot), message: error.message },
            ),
            Ok(args) => match struct_of(item) {
                Err(message) => table_expansion(attr, item) == Err::<Chars, MacroError<Chars>>(
                    MacroError { site: Site::Outside, message },
                ),
                Ok(decl) => table_expansion(attr, item) == table_of(args, decl),
            },
        },
{
}

/// `#[schema]` and `#[group]` take no arguments.
pub proof fn law_no_arguments(attr: Chars, item: Chars)
    ensures
        tokens_of(attr) matches Err(message) ==> schema_expansion(attr, item) == Err::<
            Chars,
            MacroError<Chars>,
        >(MacroError { site: Site::Outside, message }) && group_invocation(attr, item) == Err::<
            Chars,
            MacroError<Chars>,
        >(MacroError { site: Site::Outside, message }),
        tokens_of(attr) matches Ok(tokens) ==> tokens.len() > 0 ==> schema_expansion(attr, item)
            == Err::<Chars, MacroError<Chars>>(
            MacroError { site: Site::Args, message: "#[schema] takes no arguments"@ },
        ) && group_invocation(attr, item) == Err::<Chars, MacroError<Chars>>(
            MacroError { site: Site::Args, message: "#[group] takes no arguments"@ },
        ),
        tokens_of(attr) matches Ok(tokens) ==> tokens.len() == 0 ==> group_invocation(attr, item)
            == group_expansion(item) && schema_expansion(attr, item) == match parsed_module(item) {
            Err(message) => Err(MacroError { site: Site::Outside, message }),
            Ok(module) => schema_of(module),
        },
{
}

/// What a macro gives to the compiler: the code, or an error that reports the message.
pub proof fn law_output(code: Chars, error: MacroError<Chars>)
    ensures
        output(Ok(code)) == code,
        output(Err(error)) == ":: core :: compile_error ! { "@ + string_literal(error.message)
            + " }"@,
{
}

} // verus!
