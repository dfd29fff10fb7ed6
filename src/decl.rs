use vstd::prelude::*;
use crate::types::TypeExpr;

verus! {

/// One token of an attribute's argument list.
#[derive(Debug, Clone, PartialEq, Eq)]
pub enum AttrToken {
    /// An identifier, such as `each`.
    Ident(String),
    /// A punctuation character, such as `=` or `,`.
    Punct(char),
    /// A string literal, holding its value (quotes and escapes resolved).
    Str(String),
    /// Any other token or group, as text.
    Other(String),
}

/// An attribute on a field: its path (`builder` in `#[builder(...)]`) and,
/// when it is written in list form, the tokens between the parentheses.
#[derive(Debug, Clone, PartialEq, Eq)]
pub struct Attribute {
    pub path: Vec<String>,
    pub body: Option<Vec<AttrToken>>,
}

/// A named field of a record declaration.
#[derive(Debug, PartialEq, Eq)]
pub struct FieldDecl {
    pub name: String,
    pub ty: TypeExpr,
    pub attrs: Vec<Attribute>,
}

/// The body of a type declaration.
#[derive(Debug, PartialEq, Eq)]
pub enum DeclData {
    /// A record with named fields, in declaration order.
    Named(Vec<FieldDecl>),
    /// A record with positional fields.
    Tuple,
    /// A record with no fields and no braces.
    Unit,
    /// An enumeration.
    Enum,
    /// A union.
    Union,
}

/// A type declaration handed to the generator.
#[derive(Debug, PartialEq, Eq)]
pub struct TypeDeclaration {
    pub name: String,
    pub data: DeclData,
}

} // verus!
