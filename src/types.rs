use vstd::prelude::*;

verus! {

/// A type expression as written in a field declaration.
///
/// `text` is the type's source text. When the type is a plain path,
/// `segments` holds the names of its segments and `args` the angle-bracketed
/// arguments of its last segment (`None` when that segment has none, or has
/// parenthesized ones). Any other kind of type has no segments.
#[derive(Debug, PartialEq, Eq)]
pub struct TypeExpr {
    pub text: String,
    pub segments: Vec<String>,
    pub args: Option<Vec<TypeArg>>,
}

/// One generic argument of a path segment.
#[derive(Debug, PartialEq, Eq)]
pub enum TypeArg {
    /// A type argument.
    Type(TypeExpr),
    /// A lifetime, a constant, an associated binding or a constraint, as text.
    Other(String),
}

/// The argument of `ty` when `ty` is exactly `name<X>`: a path of one segment
/// named `name` with exactly one angle-bracketed argument, which is a type.
pub open spec fn inner_type_of(ty: TypeExpr, name: Seq<char>) -> Option<TypeExpr> {
    if ty.segments@.len() == 1 && ty.segments@[0]@ == name && ty.args is Some
        && ty.args->0@.len() == 1 && ty.args->0@[0] is Type {
        Some(ty.args->0@[0]->Type_0)
    } else {
        None
    }
}

/// Returns the wrapped type when `ty` is the single-argument application
/// `name<X>`, and `None` for every other shape.
pub fn get_inner_type<'a>(ty: &'a TypeExpr, name: &String) -> (r: Option<&'a TypeExpr>)
    ensures
        match r {
            Some(x) => inner_type_of(*ty, name@) == Some(*x),
            None => inner_type_of(*ty, name@) is None,
        },
{
    if ty.segments.len() != 1 {
        return None;
    }
    if ty.segments[0] != *name {
        return None;
    }
    match &ty.args {
        Some(args) => {
            if args.len() != 1 {
                return None;
            }
            match &args[0] {
                TypeArg::Type(inner) => Some(inner),
                TypeArg::Other(_) => None,
            }
        },
        None => None,
    }
}

} // verus!
