//! Rust syntax as plain data.
//!
//! Every type takes the kind of text it holds as a parameter: `String` in running code and
//! `Seq<char>` in contracts. A type that holds lists of text takes a second parameter for them.
//! The view of a value in running code is the same shape over `Seq<char>`.
use crate::text::views;
use vstd::prelude::*;

verus! {

/// Text in contracts.
pub type Chars = Seq<char>;

/// The view of a result.
pub open spec fn seen<T: View, E: View>(r: Result<T, E>) -> Result<T::V, E::V> {
    match r {
        Ok(value) => Ok(value@),
        Err(error) => Err(error@),
    }
}

/// The view of a result that holds a list.
pub open spec fn seen_all<T: View, E: View>(r: Result<Vec<T>, E>) -> Result<Seq<T::V>, E::V> {
    match r {
        Ok(items) => Ok(views(items@)),
        Err(error) => Err(error@),
    }
}

/// The view of an optional list.
pub open spec fn seen_list<T: View>(r: Option<Vec<T>>) -> Option<Seq<T::V>> {
    match r {
        Some(items) => Some(views(items@)),
        None => None,
    }
}

/// The view of an optional text.
pub open spec fn seen_text(r: Option<String>) -> Option<Chars> {
    match r {
        Some(text) => Some(text@),
        None => None,
    }
}

/// A token tree as the lexer gives it.
pub enum RawToken<S> {
    /// An identifier or a keyword.
    Ident(S),
    /// A punctuation character, and whether the next character belongs to the same operator.
    Punct(S, bool),
    /// A literal as it is written.
    Literal(S),
    /// A bracketed group as it is written.
    Group(S),
}

impl View for RawToken<String> {
    type V = RawToken<Chars>;

    open spec fn view(&self) -> RawToken<Chars> {
        match self {
            RawToken::Ident(name) => RawToken::Ident(name@),
            RawToken::Punct(c, joint) => RawToken::Punct(c@, *joint),
            RawToken::Literal(text) => RawToken::Literal(text@),
            RawToken::Group(text) => RawToken::Group(text@),
        }
    }
}

/// A token tree with keywords told from identifiers and string literals evaluated.
pub enum Token<S> {
    /// An identifier.
    Word(S),
    /// A keyword, and the message that refuses it as an identifier.
    Keyword(S, S),
    /// A punctuation character, and whether the next character belongs to the same operator.
    Punct(S, bool),
    /// A string literal as it is written, and its value.
    Str(S, S),
    /// Another literal as it is written.
    Literal(S),
    /// A bracketed group as it is written.
    Group(S),
}

impl View for Token<String> {
    type V = Token<Chars>;

    open spec fn view(&self) -> Token<Chars> {
        match self {
            Token::Word(name) => Token::Word(name@),
            Token::Keyword(word, refusal) => Token::Keyword(word@, refusal@),
            Token::Punct(c, joint) => Token::Punct(c@, *joint),
            Token::Str(text, value) => Token::Str(text@, value@),
            Token::Literal(text) => Token::Literal(text@),
            Token::Group(text) => Token::Group(text@),
        }
    }
}

/// What stands behind the path of an attribute; `A` is the form of an argument list.
pub enum AttrForm<A> {
    /// Nothing: `#[path]`.
    Path,
    /// Arguments: `#[path(...)]`.
    List(A),
    /// A value: `#[path = value]`.
    NameValue,
}

/// The content of an attribute, with its arguments as text.
pub struct MetaSyntax<S> {
    /// The path as it is written.
    pub path: S,
    /// The last segment of the path.
    pub last: Option<S>,
    pub form: AttrForm<S>,
}

impl View for MetaSyntax<String> {
    type V = MetaSyntax<Chars>;

    open spec fn view(&self) -> MetaSyntax<Chars> {
        MetaSyntax {
            path: self.path@,
            last: seen_text(self.last),
            form: match self.form {
                AttrForm::Path => AttrForm::Path,
                AttrForm::List(text) => AttrForm::List(text@),
                AttrForm::NameValue => AttrForm::NameValue,
            },
        }
    }
}

/// A struct item, with its attributes and fields as text.
pub struct StructSyntax<S, L> {
    /// The content of each attribute.
    pub attrs: L,
    pub vis: S,
    pub name: S,
    pub generics: S,
    pub where_clause: S,
    /// The fields, if they are named.
    pub fields: Option<L>,
}

impl View for StructSyntax<String, Vec<String>> {
    type V = StructSyntax<Chars, Seq<Chars>>;

    open spec fn view(&self) -> StructSyntax<Chars, Seq<Chars>> {
        StructSyntax {
            attrs: views(self.attrs@),
            vis: self.vis@,
            name: self.name@,
            generics: self.generics@,
            where_clause: self.where_clause@,
            fields: seen_list(self.fields),
        }
    }
}

/// A named field, with its attributes as text.
pub struct FieldSyntax<S, L> {
    /// The content of each attribute.
    pub attrs: L,
    pub vis: S,
    pub name: S,
    pub ty: S,
}

impl View for FieldSyntax<String, Vec<String>> {
    type V = FieldSyntax<Chars, Seq<Chars>>;

    open spec fn view(&self) -> FieldSyntax<Chars, Seq<Chars>> {
        FieldSyntax {
            attrs: views(self.attrs@),
            vis: self.vis@,
            name: self.name@,
            ty: self.ty@,
        }
    }
}

/// An attribute of a module: whether it stands inside the braces, and the attribute.
pub struct ModuleAttr<S> {
    pub inner: bool,
    pub text: S,
}

impl View for ModuleAttr<String> {
    type V = ModuleAttr<Chars>;

    open spec fn view(&self) -> ModuleAttr<Chars> {
        ModuleAttr { inner: self.inner, text: self.text@ }
    }
}

/// A module item; `A` is a list of attributes.
pub struct ModuleSyntax<S, L, A> {
    pub attrs: A,
    pub vis: S,
    pub unsafety: S,
    pub name: S,
    /// The items, if the module is inline.
    pub items: Option<L>,
}

impl View for ModuleSyntax<String, Vec<String>, Vec<ModuleAttr<String>>> {
    type V = ModuleSyntax<Chars, Seq<Chars>, Seq<ModuleAttr<Chars>>>;

    open spec fn view(&self) -> ModuleSyntax<Chars, Seq<Chars>, Seq<ModuleAttr<Chars>>> {
        ModuleSyntax {
            attrs: views(self.attrs@),
            vis: self.vis@,
            unsafety: self.unsafety@,
            name: self.name@,
            items: seen_list(self.items),
        }
    }
}

/// The body of an item under a derive.
pub enum DataSyntax<L> {
    /// A struct, with the types of its fields if they have no names.
    Struct(Option<L>),
    /// An enum, with its variants.
    Enum(L),
    Union,
}

/// An item under a derive.
pub struct DeriveSyntax<S, L> {
    /// The content of each attribute.
    pub attrs: L,
    pub name: S,
    pub data: DataSyntax<L>,
}

impl View for DeriveSyntax<String, Vec<String>> {
    type V = DeriveSyntax<Chars, Seq<Chars>>;

    open spec fn view(&self) -> DeriveSyntax<Chars, Seq<Chars>> {
        DeriveSyntax {
            attrs: views(self.attrs@),
            name: self.name@,
            data: match self.data {
                DataSyntax::Struct(types) => DataSyntax::Struct(seen_list(types)),
                DataSyntax::Enum(variants) => DataSyntax::Enum(views(variants@)),
                DataSyntax::Union => DataSyntax::Union,
            },
        }
    }
}

/// A variant of an enum; `D` is the form of a discriminant.
pub struct Variant<S, D> {
    pub name: S,
    /// Whether the variant has no fields.
    pub unit: bool,
    pub discriminant: Option<D>,
}

impl View for Variant<String, String> {
    type V = Variant<Chars, Chars>;

    open spec fn view(&self) -> Variant<Chars, Chars> {
        Variant { name: self.name@, unit: self.unit, discriminant: seen_text(self.discriminant) }
    }
}

/// What a discriminant expression is, with the value of an integer literal or the reason why it
/// has none.
pub enum ExprForm<S> {
    /// An integer literal.
    Int(Result<i64, S>),
    /// A minus sign before an integer literal.
    Negated(Result<i64, S>),
    /// A minus sign before something else.
    NegatedOther,
    /// Another expression.
    Other,
}

/// The view of a literal's value.
pub open spec fn seen_value(r: Result<i64, String>) -> Result<i64, Chars> {
    match r {
        Ok(value) => Ok(value),
        Err(message) => Err(message@),
    }
}

impl View for ExprForm<String> {
    type V = ExprForm<Chars>;

    open spec fn view(&self) -> ExprForm<Chars> {
        match self {
            ExprForm::Int(value) => ExprForm::Int(seen_value(*value)),
            ExprForm::Negated(value) => ExprForm::Negated(seen_value(*value)),
            ExprForm::NegatedOther => ExprForm::NegatedOther,
            ExprForm::Other => ExprForm::Other,
        }
    }
}

/// A type at the front of a token list, and how many tokens stand behind it.
pub struct TypePrefix<S> {
    pub ty: S,
    pub left: usize,
}

impl View for TypePrefix<String> {
    type V = TypePrefix<Chars>;

    open spec fn view(&self) -> TypePrefix<Chars> {
        TypePrefix { ty: self.ty@, left: self.left }
    }
}

} // verus!
