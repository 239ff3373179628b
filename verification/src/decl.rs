//! Declarations read from source text.
use crate::args::{read_tokens, tokens_of};
use crate::outside::{
    parse_field, parse_meta, parse_struct, parsed_field, parsed_meta, parsed_struct,
};
use crate::syntax::{seen, seen_all, seen_text, AttrForm, Chars, Token};
use crate::text::views;
use vstd::prelude::*;

verus! {

/// All the values, or the first error.
pub open spec fn all_ok<T, E>(items: Seq<Result<T, E>>) -> Result<Seq<T>, E>
    decreases items.len(),
{
    if items.len() == 0 {
        Ok(Seq::empty())
    } else {
        match all_ok(items.drop_last()) {
            Err(error) => Err(error),
            Ok(done) => match items.last() {
                Ok(value) => Ok(done.push(value)),
                Err(error) => Err(error),
            },
        }
    }
}

/// An error in a part of the list is the outcome of the whole.
pub proof fn lemma_all_ok_error<T, E>(items: Seq<Result<T, E>>, part: int)
    requires
        0 <= part <= items.len(),
        all_ok(items.take(part)) is Err,
    ensures
        all_ok(items) == all_ok(items.take(part)),
    decreases items.len() - part,
{
    if part < items.len() {
        assert(items.take(part + 1).drop_last() =~= items.take(part));
        lemma_all_ok_error(items, part + 1);
    } else {
        assert(items.take(part) =~= items);
    }
}

/// Each value of a list without errors.
pub proof fn lemma_all_ok_values<T, E>(items: Seq<Result<T, E>>)
    requires
        all_ok(items) is Ok,
    ensures
        all_ok(items)->Ok_0.len() == items.len(),
        forall|i: int|
            0 <= i < items.len() ==> #[trigger] items[i] == Ok::<T, E>(all_ok(items)->Ok_0[i]),
    decreases items.len(),
{
    if items.len() > 0 {
        lemma_all_ok_values(items.drop_last());
        assert forall|i: int| 0 <= i < items.len() implies #[trigger] items[i] == Ok::<T, E>(
            all_ok(items)->Ok_0[i],
        ) by {
            if i < items.len() - 1 {
                assert(items.drop_last()[i] == items[i]);
            }
        }
    }
}

/// An attribute with its arguments as tokens; `A` is a list of tokens.
pub struct Attr<S, A> {
    /// The content of the attribute as it is written.
    pub text: S,
    /// The path as it is written.
    pub path: S,
    /// The last segment of the path.
    pub last: Option<S>,
    pub form: AttrForm<A>,
}

pub type AttrView = Attr<Chars, Seq<Token<Chars>>>;

pub type AttrData = Attr<String, Vec<Token<String>>>;

impl View for Attr<String, Vec<Token<String>>> {
    type V = Attr<Chars, Seq<Token<Chars>>>;

    open spec fn view(&self) -> Attr<Chars, Seq<Token<Chars>>> {
        Attr {
            text: self.text@,
            path: self.path@,
            last: seen_text(self.last),
            form: match self.form {
                AttrForm::Path => AttrForm::Path,
                AttrForm::List(tokens) => AttrForm::List(views(tokens@)),
                AttrForm::NameValue => AttrForm::NameValue,
            },
        }
    }
}

/// The attribute that a source text is.
pub open spec fn attr_of(text: Chars) -> Result<AttrView, Chars> {
    match parsed_meta(text) {
        Err(message) => Err(message),
        Ok(meta) => match meta.form {
            AttrForm::Path => Ok(
                Attr { text, path: meta.path, last: meta.last, form: AttrForm::Path },
            ),
            AttrForm::NameValue => Ok(
                Attr { text, path: meta.path, last: meta.last, form: AttrForm::NameValue },
            ),
            AttrForm::List(args) => match tokens_of(args) {
                Err(message) => Err(message),
                Ok(tokens) => Ok(
                    Attr { text, path: meta.path, last: meta.last, form: AttrForm::List(tokens) },
                ),
            },
        },
    }
}

/// Reads an attribute.
pub fn read_attr(text: &str) -> (r: Result<AttrData, String>)
    ensures
        seen(r) == attr_of(text@),
{
    let meta = match parse_meta(text) {
        Ok(meta) => meta,
        Err(message) => return Err(message),
    };
    let form = match meta.form {
        AttrForm::Path => AttrForm::Path,
        AttrForm::NameValue => AttrForm::NameValue,
        AttrForm::List(args) => match read_tokens(args.as_str()) {
            Ok(tokens) => AttrForm::List(tokens),
            Err(message) => return Err(message),
        },
    };
    Ok(Attr { text: text.to_owned(), path: meta.path, last: meta.last, form })
}

/// The attributes that source texts are.
pub open spec fn attrs_of(texts: Seq<Chars>) -> Result<Seq<AttrView>, Chars> {
    all_ok(Seq::new(texts.len(), |i: int| attr_of(texts[i])))
}

/// Reads attributes.
pub fn read_attrs(texts: &Vec<String>) -> (r: Result<Vec<AttrData>, String>)
    ensures
        seen_all(r) == attrs_of(views(texts@)),
{
    let ghost read = Seq::new(texts@.len(), |i: int| attr_of(views(texts@)[i]));
    let mut attrs: Vec<AttrData> = Vec::new();
    let mut i: usize = 0;
    assert(views(attrs@) =~= Seq::empty());
    assert(all_ok(read.take(0)) == Ok::<Seq<AttrView>, Chars>(Seq::empty()));
    while i < texts.len()
        invariant
            i <= texts@.len(),
            read == Seq::new(texts@.len(), |i: int| attr_of(views(texts@)[i])),
            all_ok(read.take(i as int)) == Ok::<Seq<AttrView>, Chars>(views(attrs@)),
        decreases texts.len() - i,
    {
        assert(read.take(i + 1).drop_last() =~= read.take(i as int));
        match read_attr(texts[i].as_str()) {
            Ok(attr) => {
                proof {
                    crate::text::lemma_views_push(attrs@, attr);
                }
                attrs.push(attr);
            },
            Err(message) => {
                proof {
                    lemma_all_ok_error(read, i + 1);
                    assert(read =~= Seq::new(
                        views(texts@).len(),
                        |i: int| attr_of(views(texts@)[i]),
                    ));
                }
                return Err(message);
            },
        }
        i += 1;
    }
    assert(read.take(i as int) =~= Seq::new(
        views(texts@).len(),
        |i: int| attr_of(views(texts@)[i]),
    ));
    Ok(attrs)
}

/// A named field; `A` is a list of attributes.
pub struct FieldDecl<S, A> {
    pub attrs: A,
    pub vis: S,
    pub name: S,
    pub ty: S,
}

pub type FieldView = FieldDecl<Chars, Seq<AttrView>>;

pub type FieldData = FieldDecl<String, Vec<AttrData>>;

impl View for FieldDecl<String, Vec<AttrData>> {
    type V = FieldDecl<Chars, Seq<AttrView>>;

    open spec fn view(&self) -> FieldDecl<Chars, Seq<AttrView>> {
        FieldDecl {
            attrs: views(self.attrs@),
            vis: self.vis@,
            name: self.name@,
            ty: self.ty@,
        }
    }
}

/// The field that a source text is.
pub open spec fn field_of(text: Chars) -> Result<FieldView, Chars> {
    match parsed_field(text) {
        Err(message) => Err(message),
        Ok(field) => match attrs_of(field.attrs) {
            Err(message) => Err(message),
            Ok(attrs) => Ok(
                FieldDecl { attrs, vis: field.vis, name: field.name, ty: field.ty },
            ),
        },
    }
}

/// Reads a field.
pub fn read_field(text: &str) -> (r: Result<FieldData, String>)
    ensures
        seen(r) == field_of(text@),
{
    let field = match parse_field(text) {
        Ok(field) => field,
        Err(message) => return Err(message),
    };
    match read_attrs(&field.attrs) {
        Ok(attrs) => Ok(FieldDecl { attrs, vis: field.vis, name: field.name, ty: field.ty }),
        Err(message) => Err(message),
    }
}

/// The fields that source texts are.
pub open spec fn fields_of(texts: Seq<Chars>) -> Result<Seq<FieldView>, Chars> {
    all_ok(Seq::new(texts.len(), |i: int| field_of(texts[i])))
}

/// Reads fields.
pub fn read_fields(texts: &Vec<String>) -> (r: Result<Vec<FieldData>, String>)
    ensures
        seen_all(r) == fields_of(views(texts@)),
{
    let ghost read = Seq::new(texts@.len(), |i: int| field_of(views(texts@)[i]));
    let mut fields: Vec<FieldData> = Vec::new();
    let mut i: usize = 0;
    assert(views(fields@) =~= Seq::empty());
    assert(all_ok(read.take(0)) == Ok::<Seq<FieldView>, Chars>(Seq::empty()));
    while i < texts.len()
        invariant
            i <= texts@.len(),
            read == Seq::new(texts@.len(), |i: int| field_of(views(texts@)[i])),
            all_ok(read.take(i as int)) == Ok::<Seq<FieldView>, Chars>(views(fields@)),
        decreases texts.len() - i,
    {
        assert(read.take(i + 1).drop_last() =~= read.take(i as int));
        match read_field(texts[i].as_str()) {
            Ok(field) => {
                proof {
                    crate::text::lemma_views_push(fields@, field);
                }
                fields.push(field);
            },
            Err(message) => {
                proof {
                    lemma_all_ok_error(read, i + 1);
                    assert(read =~= Seq::new(
                        views(texts@).len(),
                        |i: int| field_of(views(texts@)[i]),
                    ));
                }
                return Err(message);
            },
        }
        i += 1;
    }
    assert(read.take(i as int) =~= Seq::new(
        views(texts@).len(),
        |i: int| field_of(views(texts@)[i]),
    ));
    Ok(fields)
}

/// A struct; `A` is a list of attributes and `F` a list of fields.
pub struct StructDecl<S, A, F> {
    pub attrs: A,
    pub vis: S,
    pub name: S,
    pub generics: S,
    pub where_clause: S,
    /// The fields, if they are named.
    pub fields: Option<F>,
}

pub type StructView = StructDecl<Chars, Seq<AttrView>, Seq<FieldView>>;

pub type StructData = StructDecl<String, Vec<AttrData>, Vec<FieldData>>;

/// The view of the fields of a struct.
pub open spec fn seen_fields(fields: Option<Vec<FieldData>>) -> Option<Seq<FieldView>> {
    match fields {
        Some(list) => Some(views(list@)),
        None => None,
    }
}

impl View for StructDecl<String, Vec<AttrData>, Vec<FieldData>> {
    type V = StructDecl<Chars, Seq<AttrView>, Seq<FieldView>>;

    open spec fn view(&self) -> StructDecl<Chars, Seq<AttrView>, Seq<FieldView>> {
        StructDecl {
            attrs: views(self.attrs@),
            vis: self.vis@,
            name: self.name@,
            generics: self.generics@,
            where_clause: self.where_clause@,
            fields: seen_fields(self.fields),
        }
    }
}

/// The struct that a source text is.
pub open spec fn struct_of(text: Chars) -> Result<StructView, Chars> {
    match parsed_struct(text) {
        Err(message) => Err(message),
        Ok(item) => match (attrs_of(item.attrs), item.fields) {
            (Err(message), _) => Err(message),
            (Ok(attrs), None) => Ok(
                StructDecl {
                    attrs,
                    vis: item.vis,
                    name: item.name,
                    generics: item.generics,
                    where_clause: item.where_clause,
                    fields: None,
                },
            ),
            (Ok(attrs), Some(texts)) => match fields_of(texts) {
                Err(message) => Err(message),
                Ok(fields) => Ok(
                    StructDecl {
                        attrs,
                        vis: item.vis,
                        name: item.name,
                        generics: item.generics,
                        where_clause: item.where_clause,
                        fields: Some(fields),
                    },
                ),
            },
        },
    }
}

/// Reads a struct.
pub fn read_struct(text: &str) -> (r: Result<StructData, String>)
    ensures
        seen(r) == struct_of(text@),
{
    let item = match parse_struct(text) {
        Ok(item) => item,
        Err(message) => return Err(message),
    };
    let attrs = match read_attrs(&item.attrs) {
        Ok(attrs) => attrs,
        Err(message) => return Err(message),
    };
    let fields = match &item.fields {
        None => None,
        Some(texts) => match read_fields(texts) {
            Ok(fields) => Some(fields),
            Err(message) => return Err(message),
        },
    };
    Ok(
        StructDecl {
            attrs,
            vis: item.vis,
            name: item.name,
            generics: item.generics,
            where_clause: item.where_clause,
            fields,
        },
    )
}

} // verus!
