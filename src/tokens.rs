//! The input model: a struct definition with named fields, each field's type
//! expression and attributes, and the token trees inside an attribute.

use vstd::prelude::*;

verus! {

/// The delimiter of a token group.
#[derive(Clone, Copy, Debug, PartialEq, Eq)]
pub enum Delimiter {
    Parenthesis,
    Brace,
    Bracket,
    Invisible,
}

/// One token tree.
#[derive(Debug, PartialEq, Eq)]
pub enum Token {
    /// An identifier or keyword, by its text.
    Ident(String),
    /// A single punctuation character.
    Punct(char),
    /// A literal, by its source text (a string literal keeps its quotes).
    Literal(String),
    /// A delimited group and the tokens inside it.
    Group(Delimiter, Vec<Token>),
}

/// A type expression as written on a field.
#[derive(Debug, PartialEq, Eq)]
pub enum TypeExpr {
    /// A path such as `ProgramAccount<'info, Data>`.
    Path(Vec<PathSegment>),
    /// Any other type form (reference, tuple, array, ...), by its text.
    Other(String),
}

/// One segment of a path, with its generic arguments.
#[derive(Debug, PartialEq, Eq)]
pub struct PathSegment {
    pub ident: String,
    pub arguments: PathArguments,
}

#[derive(Debug, PartialEq, Eq)]
pub enum PathArguments {
    Plain,
    AngleBracketed(Vec<GenericArgument>),
    Parenthesized,
}

#[derive(Debug, PartialEq, Eq)]
pub enum GenericArgument {
    Lifetime(String),
    Type(TypeExpr),
    /// A const, binding or constraint argument.
    Other,
}

/// An attribute: its path segments and the tokens that follow the path.
#[derive(Debug, PartialEq, Eq)]
pub struct Attribute {
    pub path: Vec<String>,
    pub tokens: Vec<Token>,
}

/// One field of a struct with named fields.
#[derive(Debug, PartialEq, Eq)]
pub struct FieldDef {
    pub ident: String,
    pub ty: TypeExpr,
    pub attrs: Vec<Attribute>,
}

#[derive(Debug, PartialEq, Eq)]
pub enum Fields {
    Named(Vec<FieldDef>),
    /// Tuple-style fields, by their count.
    Unnamed(usize),
    Unit,
}

/// A struct definition.
#[derive(Debug, PartialEq, Eq)]
pub struct ItemStruct {
    pub ident: String,
    pub fields: Fields,
}

} // verus!
