//! The expansion of `#[derive(Column)]`.
use crate::decl::{all_ok, attrs_of, lemma_all_ok_error, read_attrs, AttrData, AttrView};
use crate::error::{fail, failure, MacroError, Site};
use crate::outside::{
    parse_derive, parse_expr, parse_variant, parsed_derive, parsed_expr, parsed_variant,
    string_literal, write_string,
};
use crate::sql::{column_entry, find_column, CatalogData, CatalogView, ColumnEntry};
use crate::syntax::{
    seen, seen_all, AttrForm, Chars, DataSyntax, DeriveSyntax, ExprForm, Token, Variant,
};
use crate::text::{
    fill, filled, filled2, join, join_all, lemma_views_push, same, signed_decimal, signed_numeral,
    views,
};
use vstd::prelude::*;

verus! {

// ---------------------------------------------------------------------------
// Variants
// ---------------------------------------------------------------------------

pub type VariantView = Variant<Chars, ExprForm<Chars>>;

pub type VariantData = Variant<String, ExprForm<String>>;

/// The view of an optional discriminant.
pub open spec fn seen_form(form: Option<ExprForm<String>>) -> Option<ExprForm<Chars>> {
    match form {
        Some(form) => Some(form@),
        None => None,
    }
}

impl View for Variant<String, ExprForm<String>> {
    type V = Variant<Chars, ExprForm<Chars>>;

    open spec fn view(&self) -> Variant<Chars, ExprForm<Chars>> {
        Variant { name: self.name@, unit: self.unit, discriminant: seen_form(self.discriminant) }
    }
}

/// Whether a negated literal has a value that can be negated.
pub open spec fn negatable(variant: VariantView) -> bool {
    variant.discriminant matches Some(ExprForm::Negated(Ok(value))) ==> value >= 0
}

/// The variant that a source text is.
pub open spec fn variant_of(text: Chars) -> Result<VariantView, Chars> {
    match parsed_variant(text) {
        Err(message) => Err(message),
        Ok(variant) => match variant.discriminant {
            None => Ok(Variant { name: variant.name, unit: variant.unit, discriminant: None }),
            Some(expr) => match parsed_expr(expr) {
                Err(message) => Err(message),
                Ok(form) => Ok(
                    Variant { name: variant.name, unit: variant.unit, discriminant: Some(form) },
                ),
            },
        },
    }
}

/// Reads a variant.
fn read_variant(text: &str) -> (r: Result<VariantData, String>)
    ensures
        seen(r) == variant_of(text@),
        r matches Ok(variant) ==> negatable(variant@),
{
    let variant = match parse_variant(text) {
        Ok(variant) => variant,
        Err(message) => return Err(message),
    };
    let discriminant = match variant.discriminant {
        None => None,
        Some(expr) => match parse_expr(expr.as_str()) {
            Ok(form) => Some(form),
            Err(message) => return Err(message),
        },
    };
    Ok(Variant { name: variant.name, unit: variant.unit, discriminant })
}

/// The variants that source texts are.
pub open spec fn variants_of(texts: Seq<Chars>) -> Result<Seq<VariantView>, Chars> {
    all_ok(texts.map_values(|text: Chars| variant_of(text)))
}

/// Reads variants.
fn read_variants(texts: &Vec<String>) -> (r: Result<Vec<VariantData>, String>)
    ensures
        seen_all(r) == variants_of(views(texts@)),
        r matches Ok(variants) ==> forall|i: int|
            0 <= i < variants@.len() ==> negatable((#[trigger] variants@[i])@),
{
    let ghost read = views(texts@).map_values(|text: Chars| variant_of(text));
    let mut variants: Vec<VariantData> = Vec::new();
    let mut i: usize = 0;
    assert(views(variants@) =~= Seq::empty());
    assert(all_ok(read.take(0)) == Ok::<Seq<VariantView>, Chars>(Seq::empty()));
    while i < texts.len()
        invariant
            i <= texts@.len(),
            read == views(texts@).map_values(|text: Chars| variant_of(text)),
            all_ok(read.take(i as int)) == Ok::<Seq<VariantView>, Chars>(views(variants@)),
            forall|k: int| 0 <= k < variants@.len() ==> negatable((#[trigger] variants@[k])@),
        decreases texts.len() - i,
    {
        assert(read.take(i + 1).drop_last() =~= read.take(i as int));
        match read_variant(texts[i].as_str()) {
            Ok(variant) => {
                proof {
                    lemma_views_push(variants@, variant);
                }
                variants.push(variant);
            },
            Err(message) => {
                proof {
                    lemma_all_ok_error(read, i + 1);
                }
                return Err(message);
            },
        }
        i += 1;
    }
    assert(read.take(i as int) =~= read);
    Ok(variants)
}

// ---------------------------------------------------------------------------
// Discriminants
// ---------------------------------------------------------------------------

/// The value of an explicit discriminant: an integer literal, with or without a minus sign.
pub open spec fn explicit_value(i: int, form: ExprForm<Chars>) -> Result<int, MacroError<Chars>> {
    match form {
        ExprForm::Int(Ok(value)) => Ok(value as int),
        ExprForm::Int(Err(message)) => Err(failure(Site::Discriminant(i as usize), message)),
        ExprForm::Negated(Ok(value)) => Ok(-(value as int)),
        ExprForm::Negated(Err(message)) => Err(failure(Site::Discriminant(i as usize), message)),
        ExprForm::NegatedOther => Err(
            failure(
                Site::Discriminant(i as usize),
                "discriminant must be an integer literal"@,
            ),
        ),
        ExprForm::Other => Err(
            failure(
                Site::Discriminant(i as usize),
                "discriminant must be an integer literal"@,
            ),
        ),
    }
}

/// The discriminant of a variant that has none of its own: one more than that of the variant
/// before it, and zero for the first.
pub open spec fn implicit_value(values: Seq<int>) -> int {
    if values.len() == 0 {
        0
    } else {
        values.last() + 1
    }
}

/// The discriminants of the variants of an enum; each must leave room for the next.
pub open spec fn enum_values(variants: Seq<VariantView>) -> Result<Seq<int>, MacroError<Chars>>
    decreases variants.len(),
{
    if variants.len() == 0 {
        Ok(Seq::empty())
    } else {
        let i = variants.len() - 1;
        let variant = variants.last();
        match enum_values(variants.drop_last()) {
            Err(error) => Err(error),
            Ok(values) => if !variant.unit {
                Err(
                    failure(
                        Site::Variant(i as usize),
                        "derive(Column) on an enum requires unit variants (no fields)"@,
                    ),
                )
            } else {
                let value = match variant.discriminant {
                    None => Ok(implicit_value(values)),
                    Some(form) => explicit_value(i, form),
                };
                match value {
                    Err(error) => Err(error),
                    Ok(value) => if value >= i64::MAX {
                        Err(failure(Site::ItemName, "discriminant overflow"@))
                    } else {
                        Ok(values.push(value))
                    },
                }
            },
        }
    }
}

/// Integers in contracts.
pub open spec fn wide(values: Seq<i64>) -> Seq<int> {
    values.map_values(|value: i64| value as int)
}

/// Takes the value of an explicit discriminant.
fn parse_int_expr(i: usize, form: &ExprForm<String>) -> (r: Result<i64, MacroError<String>>)
    requires
        *form matches ExprForm::Negated(Ok(value)) ==> value >= 0,
    ensures
        r matches Ok(value) ==> explicit_value(i as int, form@) == Ok::<int, MacroError<Chars>>(
            value as int,
        ),
        r matches Err(error) ==> explicit_value(i as int, form@) == Err::<int, MacroError<Chars>>(
            error@,
        ),
{
    match form {
        ExprForm::Int(Ok(value)) => Ok(*value),
        ExprForm::Negated(Ok(value)) => Ok(-*value),
        ExprForm::Int(Err(message)) => Err(
            MacroError { site: Site::Discriminant(i), message: message.clone() },
        ),
        ExprForm::Negated(Err(message)) => Err(
            MacroError { site: Site::Discriminant(i), message: message.clone() },
        ),
        _ => Err(fail(Site::Discriminant(i), "discriminant must be an integer literal")),
    }
}

/// An error in a part of the variants is the outcome of the whole.
proof fn lemma_enum_values_error(variants: Seq<VariantView>, part: int)
    requires
        0 <= part <= variants.len(),
        enum_values(variants.take(part)) is Err,
    ensures
        enum_values(variants) == enum_values(variants.take(part)),
    decreases variants.len() - part,
{
    if part < variants.len() {
        assert(variants.take(part + 1).drop_last() =~= variants.take(part));
        lemma_enum_values_error(variants, part + 1);
    } else {
        assert(variants.take(part) =~= variants);
    }
}

/// Collects the discriminants of the variants of an enum.
pub fn collect_values(variants: &Vec<VariantData>) -> (r: Result<Vec<i64>, MacroError<String>>)
    requires
        forall|i: int| 0 <= i < variants@.len() ==> negatable((#[trigger] variants@[i])@),
    ensures
        r matches Ok(values) ==> enum_values(views(variants@)) == Ok::<
            Seq<int>,
            MacroError<Chars>,
        >(wide(values@)),
        r matches Err(error) ==> enum_values(views(variants@)) == Err::<
            Seq<int>,
            MacroError<Chars>,
        >(error@),
{
    let ghost all = views(variants@);
    let mut values: Vec<i64> = Vec::new();
    let mut next: i64 = 0;
    let mut i: usize = 0;
    assert(wide(values@) =~= Seq::empty());
    while i < variants.len()
        invariant
            i <= variants@.len(),
            all == views(variants@),
            forall|i: int| 0 <= i < variants@.len() ==> negatable((#[trigger] variants@[i])@),
            enum_values(all.take(i as int)) == Ok::<Seq<int>, MacroError<Chars>>(wide(values@)),
            next == implicit_value(wide(values@)),
        decreases variants.len() - i,
    {
        assert(all.take(i + 1).drop_last() =~= all.take(i as int));
        assert(all.take(i + 1).last() == variants@[i as int]@);
        if !variants[i].unit {
            proof {
                lemma_enum_values_error(all, i + 1);
            }
            return Err(
                fail(
                    Site::Variant(i),
                    "derive(Column) on an enum requires unit variants (no fields)",
                ),
            );
        }
        let value: i64 = match &variants[i].discriminant {
            None => next,
            Some(form) => {
                assert(negatable(variants@[i as int]@));
                match parse_int_expr(i, form) {
                    Ok(value) => value,
                    Err(error) => {
                        proof {
                            lemma_enum_values_error(all, i + 1);
                        }
                        return Err(error);
                    },
                }
            },
        };
        next = match value.checked_add(1) {
            Some(next) => next,
            None => {
                proof {
                    lemma_enum_values_error(all, i + 1);
                }
                return Err(fail(Site::ItemName, "discriminant overflow"));
            },
        };
        assert(wide(values@.push(value)) =~= wide(values@).push(value as int));
        values.push(value);
        i += 1;
    }
    assert(all.take(i as int) =~= all);
    Ok(values)
}

// ---------------------------------------------------------------------------
// Representation
// ---------------------------------------------------------------------------

/// Whether a word is the name of an integer type.
pub open spec fn is_integer_type(word: Chars) -> bool {
    ||| word == "i8"@
    ||| word == "i16"@
    ||| word == "i32"@
    ||| word == "i64"@
    ||| word == "i128"@
    ||| word == "u8"@
    ||| word == "u16"@
    ||| word == "u32"@
    ||| word == "u64"@
    ||| word == "u128"@
    ||| word == "isize"@
    ||| word == "usize"@
}

/// Checks whether a word is the name of an integer type.
fn check_integer_type(word: &str) -> (r: bool)
    ensures
        r == is_integer_type(word@),
{
    same(word, "i8") || same(word, "i16") || same(word, "i32") || same(word, "i64") || same(
        word,
        "i128",
    ) || same(word, "u8") || same(word, "u16") || same(word, "u32") || same(word, "u64") || same(
        word,
        "u128",
    ) || same(word, "isize") || same(word, "usize")
}

/// Whether an attribute is `#[repr(..)]` with an integer type and nothing else.
pub open spec fn is_integer_repr(attr: AttrView) -> bool {
    attr.path == "repr"@ && match attr.form {
        AttrForm::List(tokens) => tokens.len() == 1 && match tokens[0] {
            Token::Word(word) => is_integer_type(word),
            _ => false,
        },
        _ => false,
    }
}

/// Whether one of the attributes is `#[repr(..)]` with an integer type.
pub open spec fn has_integer_repr(attrs: Seq<AttrView>) -> bool {
    exists|i: int| 0 <= i < attrs.len() && #[trigger] is_integer_repr(attrs[i])
}

/// Checks whether an attribute is `#[repr(..)]` with an integer type and nothing else.
fn check_repr(attr: &AttrData) -> (r: bool)
    ensures
        r == is_integer_repr(attr@),
{
    if !same(attr.path.as_str(), "repr") {
        return false;
    }
    match &attr.form {
        AttrForm::List(tokens) => {
            assert(views(tokens@).len() == tokens@.len());
            if tokens.len() != 1 {
                return false;
            }
            assert(views(tokens@)[0] == tokens@[0]@);
            match &tokens[0] {
                Token::Word(word) => check_integer_type(word.as_str()),
                _ => false,
            }
        },
        _ => false,
    }
}

/// Requires that one of the attributes is `#[repr(..)]` with an integer type.
fn require_integer_repr(attrs: &Vec<AttrData>) -> (r: Result<(), MacroError<String>>)
    ensures
        r is Ok <==> has_integer_repr(views(attrs@)),
        r matches Err(error) ==> error@ == failure(
            Site::ItemName,
            "derive(Column) on an enum requires #[repr(integer)], e.g. #[repr(i64)]"@,
        ),
{
    let mut i: usize = 0;
    while i < attrs.len()
        invariant
            i <= attrs@.len(),
            forall|k: int| 0 <= k < i ==> !#[trigger] is_integer_repr(views(attrs@)[k]),
        decreases attrs.len() - i,
    {
        assert(views(attrs@)[i as int] == attrs@[i as int]@);
        if check_repr(&attrs[i]) {
            return Ok(());
        }
        i += 1;
    }
    Err(
        fail(
            Site::ItemName,
            "derive(Column) on an enum requires #[repr(integer)], e.g. #[repr(i64)]",
        ),
    )
}

// ---------------------------------------------------------------------------
// Newtypes
// ---------------------------------------------------------------------------

pub const NEWTYPE: &'static str =
    "impl ::rusqlite::types::ToSql for $ {
    fn to_sql(&self) -> ::rusqlite::Result<::rusqlite::types::ToSqlOutput<'_>> {
        self.0.to_sql()
    }
}

impl ::rusqlite::types::FromSql for $ {
    fn column_result(
        value: ::rusqlite::types::ValueRef<'_>,
    ) -> ::rusqlite::types::FromSqlResult<Self> {
        < $ as ::rusqlite::types::FromSql>::column_result(value).map(Self)
    }
}

impl ::balsaq::Column for $ {
    const SQL_TYPE: &'static str = < $ as ::balsaq::Column>::SQL_TYPE;
    const NULLABLE: bool = < $ as ::balsaq::Column>::NULLABLE;
}";

/// The code of a tuple struct, for the types of its fields if they have no names: it stands for
/// its one field.
pub open spec fn newtype_of(name: Chars, types: Option<Seq<Chars>>) -> Result<
    Chars,
    MacroError<Chars>,
> {
    match types {
        Some(types) if types.len() == 1 => Ok(
            fill(NEWTYPE@, seq![name, name, types[0], name, types[0], types[0]]),
        ),
        _ => Err(
            failure(Site::ItemName, "derive(Column) requires a single-field tuple struct"@),
        ),
    }
}

/// Expands a struct under `#[derive(Column)]`.
pub fn expand_newtype(name: &str, types: &Option<Vec<String>>) -> (r: Result<
    String,
    MacroError<String>,
>)
    ensures
        seen(r) == newtype_of(name@, crate::syntax::seen_list(*types)),
{
    match types {
        Some(types) => {
            assert(views(types@).len() == types@.len());
            if types.len() == 1 {
                assert(views(types@)[0] == types@[0]@);
                let mut holes: Vec<String> = Vec::new();
                holes.push(name.to_owned());
                holes.push(name.to_owned());
                holes.push(types[0].clone());
                holes.push(name.to_owned());
                holes.push(types[0].clone());
                holes.push(types[0].clone());
                assert(views(holes@) =~= seq![
                    name@,
                    name@,
                    types@[0]@,
                    name@,
                    types@[0]@,
                    types@[0]@,
                ]);
                return Ok(filled(NEWTYPE, &holes));
            }
        },
        None => {},
    }
    Err(fail(Site::ItemName, "derive(Column) requires a single-field tuple struct"))
}

/// What a newtype contributes to SQL text: what its inner type does, if the catalog has that.
pub open spec fn newtype_contribution(ty: Chars, inner: Chars, catalog: CatalogView) -> Option<
    ColumnEntry<Chars>,
> {
    match column_entry(catalog.columns, inner) {
        None => None,
        Some(entry) => Some(
            ColumnEntry { ty, sql_type: entry.sql_type, nullable: entry.nullable },
        ),
    }
}

/// Makes the entry of a newtype under a name.
pub fn make_newtype_entry(ty: &str, inner: &str, catalog: &CatalogData) -> (r: Option<
    ColumnEntry<String>,
>)
    ensures
        r is Some <==> newtype_contribution(ty@, inner@, catalog@) is Some,
        r matches Some(entry) ==> newtype_contribution(ty@, inner@, catalog@) == Some(entry@),
{
    match find_column(&catalog.columns, inner) {
        None => None,
        Some(entry) => Some(
            ColumnEntry {
                ty: ty.to_owned(),
                sql_type: entry.sql_type.clone(),
                nullable: entry.nullable,
            },
        ),
    }
}

// ---------------------------------------------------------------------------
// Enums
// ---------------------------------------------------------------------------

pub const ENUM_ARM: &'static str = "$i64 => ::std::result::Result::Ok(Self::$),";

pub const ENUM_TO_ARM: &'static str = "Self::$ => $i64,";

pub const ENUM: &'static str =
    "impl ::rusqlite::types::ToSql for $ {
    fn to_sql(&self) -> ::rusqlite::Result<::rusqlite::types::ToSqlOutput<'_>> {
        ::std::result::Result::Ok(match self { $ }.into())
    }
}

impl ::rusqlite::types::FromSql for $ {
    fn column_result(
        value: ::rusqlite::types::ValueRef<'_>,
    ) -> ::rusqlite::types::FromSqlResult<Self> {
        match <i64 as ::rusqlite::types::FromSql>::column_result(value)? {
            $
            n => ::std::result::Result::Err(::rusqlite::types::FromSqlError::OutOfRange(n)),
        }
    }
}

impl ::balsaq::Column for $ {
    const SQL_TYPE: &'static str = $;
    const NULLABLE: bool = false;
}";

/// The SQL type of an enum: an integer that is one of the discriminants.
pub open spec fn enum_sql_type(values: Seq<int>) -> Chars {
    "INTEGER CHECK ({col} IN ("@ + join(numerals(values), ", "@) + "))"@
}

/// The numerals of discriminants.
pub open spec fn numerals(values: Seq<int>) -> Seq<Chars> {
    values.map_values(|value: int| signed_numeral(value))
}

/// Writes the SQL type of an enum.
pub fn write_enum_type(values: &Vec<i64>) -> (r: String)
    ensures
        r@ == enum_sql_type(wide(values@)),
{
    let mut parts: Vec<String> = Vec::new();
    let mut i: usize = 0;
    while i < values.len()
        invariant
            i <= values@.len(),
            parts@.len() == i,
            forall|k: int|
                0 <= k < i ==> (#[trigger] parts@[k])@ == signed_numeral(values@[k] as int),
        decreases values.len() - i,
    {
        parts.push(signed_decimal(values[i]));
        i += 1;
    }
    assert(views(parts@) =~= numerals(wide(values@)));
    let mut r = "INTEGER CHECK ({col} IN (".to_owned();
    r.append(join_all(&parts, ", ").as_str());
    r.append("))");
    r
}

/// What an enum contributes to SQL text.
pub open spec fn enum_contribution(ty: Chars, values: Seq<int>) -> ColumnEntry<Chars> {
    ColumnEntry { ty, sql_type: enum_sql_type(values), nullable: false }
}

/// Makes the entry of an enum under a name.
pub fn make_enum_entry(ty: &str, values: &Vec<i64>) -> (r: ColumnEntry<String>)
    ensures
        r@ == enum_contribution(ty@, wide(values@)),
{
    ColumnEntry { ty: ty.to_owned(), sql_type: write_enum_type(values), nullable: false }
}

/// The arm that gives the variant with a discriminant.
pub open spec fn enum_arm(name: Chars, value: int) -> Chars {
    fill(ENUM_ARM@, seq![signed_numeral(value), name])
}

/// The arms that give the variants with all discriminants.
pub open spec fn enum_arms(variants: Seq<VariantView>, values: Seq<int>) -> Chars {
    join(
        Seq::new(variants.len(), |i: int| enum_arm(variants[i].name, values[i])),
        " "@,
    )
}

/// The arm that gives the discriminant of a variant.
pub open spec fn enum_to_arm(name: Chars, value: int) -> Chars {
    fill(ENUM_TO_ARM@, seq![name, signed_numeral(value)])
}

/// The arms that give the discriminants of all variants.
pub open spec fn enum_to_arms(variants: Seq<VariantView>, values: Seq<int>) -> Chars {
    join(
        Seq::new(variants.len(), |i: int| enum_to_arm(variants[i].name, values[i])),
        " "@,
    )
}

/// Writes the arms that give the discriminants of all variants.
fn write_to_arms(variants: &Vec<VariantData>, values: &Vec<i64>) -> (r: String)
    requires
        variants@.len() == values@.len(),
    ensures
        r@ == enum_to_arms(views(variants@), wide(values@)),
{
    let mut parts: Vec<String> = Vec::new();
    let mut i: usize = 0;
    while i < variants.len()
        invariant
            i <= variants@.len(),
            variants@.len() == values@.len(),
            parts@.len() == i,
            forall|k: int|
                0 <= k < i ==> (#[trigger] parts@[k])@ == enum_to_arm(
                    variants@[k]@.name,
                    values@[k] as int,
                ),
        decreases variants.len() - i,
    {
        parts.push(
            filled2(ENUM_TO_ARM, variants[i].name.as_str(), signed_decimal(values[i]).as_str()),
        );
        i += 1;
    }
    assert(views(parts@) =~= Seq::new(
        views(variants@).len(),
        |i: int| enum_to_arm(views(variants@)[i].name, wide(values@)[i]),
    ));
    join_all(&parts, " ")
}

/// Writes the arms that give the variants with all discriminants.
fn write_arms(variants: &Vec<VariantData>, values: &Vec<i64>) -> (r: String)
    requires
        variants@.len() == values@.len(),
    ensures
        r@ == enum_arms(views(variants@), wide(values@)),
{
    let mut parts: Vec<String> = Vec::new();
    let mut i: usize = 0;
    while i < variants.len()
        invariant
            i <= variants@.len(),
            variants@.len() == values@.len(),
            parts@.len() == i,
            forall|k: int|
                0 <= k < i ==> (#[trigger] parts@[k])@ == enum_arm(
                    variants@[k]@.name,
                    values@[k] as int,
                ),
        decreases variants.len() - i,
    {
        parts.push(
            filled2(ENUM_ARM, signed_decimal(values[i]).as_str(), variants[i].name.as_str()),
        );
        i += 1;
    }
    assert(views(parts@) =~= Seq::new(
        views(variants@).len(),
        |i: int| enum_arm(views(variants@)[i].name, wide(values@)[i]),
    ));
    join_all(&parts, " ")
}

/// The code of an enum.
pub open spec fn enum_code(name: Chars, variants: Seq<VariantView>, values: Seq<int>) -> Chars {
    fill(
        ENUM@,
        seq![
            name,
            enum_to_arms(variants, values),
            name,
            enum_arms(variants, values),
            name,
            string_literal(enum_sql_type(values)),
        ],
    )
}

/// The code of an enum under `#[derive(Column)]`.
pub open spec fn enum_of(name: Chars, attrs: Seq<AttrView>, variants: Seq<VariantView>) -> Result<
    Chars,
    MacroError<Chars>,
> {
    if !has_integer_repr(attrs) {
        Err(
            failure(
                Site::ItemName,
                "derive(Column) on an enum requires #[repr(integer)], e.g. #[repr(i64)]"@,
            ),
        )
    } else if variants.len() == 0 {
        Err(failure(Site::ItemName, "derive(Column) requires at least one variant"@))
    } else {
        match enum_values(variants) {
            Err(error) => Err(error),
            Ok(values) => Ok(enum_code(name, variants, values)),
        }
    }
}

/// Every variant has a discriminant.
pub proof fn lemma_enum_values_len(variants: Seq<VariantView>)
    requires
        enum_values(variants) is Ok,
    ensures
        enum_values(variants)->Ok_0.len() == variants.len(),
    decreases variants.len(),
{
    if variants.len() > 0 {
        lemma_enum_values_len(variants.drop_last());
    }
}

/// Expands an enum under `#[derive(Column)]`.
pub fn expand_enum(name: &str, attrs: &Vec<AttrData>, variants: &Vec<VariantData>) -> (r: Result<
    String,
    MacroError<String>,
>)
    requires
        forall|i: int| 0 <= i < variants@.len() ==> negatable((#[trigger] variants@[i])@),
    ensures
        seen(r) == enum_of(name@, views(attrs@), views(variants@)),
{
    match require_integer_repr(attrs) {
        Ok(_) => {},
        Err(error) => return Err(error),
    }
    assert(views(variants@).len() == variants@.len());
    if variants.len() == 0 {
        return Err(fail(Site::ItemName, "derive(Column) requires at least one variant"));
    }
    let values = match collect_values(variants) {
        Ok(values) => values,
        Err(error) => return Err(error),
    };
    proof {
        lemma_enum_values_len(views(variants@));
    }
    let mut holes: Vec<String> = Vec::new();
    holes.push(name.to_owned());
    holes.push(write_to_arms(variants, &values));
    holes.push(name.to_owned());
    holes.push(write_arms(variants, &values));
    holes.push(name.to_owned());
    holes.push(write_string(write_enum_type(&values).as_str()));
    assert(views(holes@) =~= seq![
        name@,
        enum_to_arms(views(variants@), wide(values@)),
        name@,
        enum_arms(views(variants@), wide(values@)),
        name@,
        string_literal(enum_sql_type(wide(values@))),
    ]);
    Ok(filled(ENUM, &holes))
}

// ---------------------------------------------------------------------------
// Items
// ---------------------------------------------------------------------------

/// The code of an item under `#[derive(Column)]`.
pub open spec fn derive_of(item: DeriveSyntax<Chars, Seq<Chars>>) -> Result<
    Chars,
    MacroError<Chars>,
> {
    match item.data {
        DataSyntax::Struct(types) => newtype_of(item.name, types),
        DataSyntax::Enum(texts) => match (attrs_of(item.attrs), variants_of(texts)) {
            (Err(message), _) => Err(failure(Site::Outside, message)),
            (Ok(_), Err(message)) => Err(failure(Site::Outside, message)),
            (Ok(attrs), Ok(variants)) => enum_of(item.name, attrs, variants),
        },
        DataSyntax::Union => Err(
            failure(
                Site::ItemName,
                "derive(Column) requires a single-field tuple struct or a C-like enum with #[repr(integer)]"@,
            ),
        ),
    }
}

/// Expands an item under `#[derive(Column)]` that is read.
fn expand_item(item: &DeriveSyntax<String, Vec<String>>) -> (r: Result<String, MacroError<String>>)
    ensures
        seen(r) == derive_of(item@),
{
    match &item.data {
        DataSyntax::Struct(types) => expand_newtype(item.name.as_str(), types),
        DataSyntax::Enum(texts) => {
            let attrs = match read_attrs(&item.attrs) {
                Ok(attrs) => attrs,
                Err(message) => return Err(MacroError { site: Site::Outside, message }),
            };
            let variants = match read_variants(texts) {
                Ok(variants) => variants,
                Err(message) => return Err(MacroError { site: Site::Outside, message }),
            };
            expand_enum(item.name.as_str(), &attrs, &variants)
        },
        DataSyntax::Union => Err(
            fail(
                Site::ItemName,
                "derive(Column) requires a single-field tuple struct or a C-like enum with #[repr(integer)]",
            ),
        ),
    }
}

/// The code that an item under `#[derive(Column)]` gets.
pub open spec fn derive_expansion(item: Chars) -> Result<Chars, MacroError<Chars>> {
    match parsed_derive(item) {
        Err(message) => Err(failure(Site::Outside, message)),
        Ok(item) => derive_of(item),
    }
}

/// Expands an item under `#[derive(Column)]`.
pub fn expand(item: &str) -> (r: Result<String, MacroError<String>>)
    ensures
        seen(r) == derive_expansion(item@),
{
    match parse_derive(item) {
        Ok(item) => expand_item(&item),
        Err(message) => Err(MacroError { site: Site::Outside, message }),
    }
}

} // verus!
