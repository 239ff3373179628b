//! Errors of the macros: what is wrong, and which part of the input is to blame.
use crate::syntax::Chars;
use vstd::prelude::*;

verus! {

/// A position in a list of tokens.
#[derive(Clone, Copy, Debug, PartialEq, Eq, Structural)]
pub enum Spot {
    /// The token with this index.
    Token(usize),
    /// The end of the list.
    End,
    /// The token with this many tokens from it to the end, itself counted.
    FromEnd(usize),
    /// The invocation of the macro.
    CallSite,
    /// The position is known to the outside parser only.
    Outside,
}

/// The part of a macro's input that an error points at.
#[derive(Clone, Copy, Debug, PartialEq, Eq, Structural)]
pub enum Site {
    /// The invocation of the macro.
    CallSite,
    /// The name of the item.
    ItemName,
    /// The arguments of the macro as a whole.
    Args,
    /// A position in the arguments of the macro.
    Arg(Spot),
    /// An attribute of the item.
    Attr(usize),
    /// A position in the arguments of an attribute of the item.
    AttrArg(usize, Spot),
    /// The name of a field.
    Field(usize),
    /// An attribute of a field.
    FieldAttr(usize, usize),
    /// A position in the arguments of an attribute of a field.
    FieldAttrArg(usize, usize, Spot),
    /// The name of a variant.
    Variant(usize),
    /// The discriminant of a variant.
    Discriminant(usize),
    /// The position is known to the outside parser only.
    Outside,
}

/// An error in a list of tokens.
#[derive(Debug)]
pub struct ArgError<S> {
    pub spot: Spot,
    pub message: S,
}

impl View for ArgError<String> {
    type V = ArgError<Chars>;

    open spec fn view(&self) -> ArgError<Chars> {
        ArgError { spot: self.spot, message: self.message@ }
    }
}

/// An error of a macro.
#[derive(Debug)]
pub struct MacroError<S> {
    pub site: Site,
    pub message: S,
}

impl View for MacroError<String> {
    type V = MacroError<Chars>;

    open spec fn view(&self) -> MacroError<Chars> {
        MacroError { site: self.site, message: self.message@ }
    }
}

/// An error with a fixed message.
pub open spec fn failure(site: Site, message: Chars) -> MacroError<Chars> {
    MacroError { site, message }
}

/// Makes an error with a fixed message.
pub fn fail(site: Site, message: &str) -> (r: MacroError<String>)
    ensures
        r@ == failure(site, message@),
{
    MacroError { site, message: message.to_owned() }
}

} // verus!
