use vstd::prelude::*;
use vstd::utf8::is_ascii_chars;
use crate::decl::{AttrToken, Attribute, FieldDecl};

verus! {

/// The validated per-field directive: the name of the item-by-item setter.
#[derive(Debug, Clone, PartialEq, Eq)]
pub struct Directive {
    pub each: Option<String>,
}

impl View for Directive {
    type V = Option<Seq<char>>;

    open spec fn view(&self) -> Option<Seq<char>> {
        match self.each {
            Some(s) => Some(s@),
            None => None,
        }
    }
}

/// A field's `builder` attribute could not be read as `each = "<name>"`;
/// `attr` is that attribute's index among the field's attributes.
#[derive(Debug, Clone, PartialEq, Eq)]
pub struct DirectiveError {
    pub attr: usize,
}

/// What `syn` parses out of the ASCII text `s` as a single identifier: its
/// text, or `None` when `s` is not one identifier (a keyword, `_`, empty
/// text, several tokens).
pub uninterp spec fn ident_parse(s: Seq<char>) -> Option<Seq<char>>;

/// Relies on `syn::parse_str::<syn::Ident>`: the identifier's text when the
/// whole of `s` parses as one identifier that is not a keyword, else `None`.
/// Only ASCII text is read alike by the compiler's lexer and by
/// `proc_macro2`'s own: of other text nothing is stated.
#[verifier::external_body]
fn parse_ident(s: &str) -> (r: Option<String>)
    ensures
        is_ascii_chars(s@) ==> match r {
            Some(x) => ident_parse(s@) == Some(x@),
            None => ident_parse(s@) is None,
        },
{
    match syn::parse_str::<syn::Ident>(s) {
        Ok(i) => Some(i.to_string()),
        Err(_) => None,
    }
}

/// The attribute's path is exactly `builder`.
pub open spec fn is_builder_attr(a: Attribute) -> bool {
    a.path@.len() == 1 && a.path@[0]@ == "builder"@
}

/// The index of the first attribute of `attrs`, from `i` on, whose path is
/// exactly `builder`.
pub open spec fn builder_index_from(attrs: Seq<Attribute>, i: int) -> Option<int>
    decreases attrs.len() - i,
{
    if !(0 <= i < attrs.len()) {
        None
    } else if is_builder_attr(attrs[i]) {
        Some(i)
    } else {
        builder_index_from(attrs, i + 1)
    }
}

/// The index of the first attribute of `attrs` whose path is exactly `builder`.
pub open spec fn builder_index(attrs: Seq<Attribute>) -> Option<int> {
    builder_index_from(attrs, 0)
}

/// The string literal of an attribute body that reads exactly `each = "..."`,
/// with at most one trailing comma.
pub open spec fn each_literal_of(body: Seq<AttrToken>) -> Option<String> {
    if (body.len() == 3 || (body.len() == 4 && body[3] == AttrToken::Punct(',')))
        && body[0] is Ident && body[0]->Ident_0@ == "each"@
        && body[1] == AttrToken::Punct('=') && body[2] is Str {
        Some(body[2]->Str_0)
    } else {
        None
    }
}

/// What a field's attributes give as its directive.
pub enum DirectiveOutcome {
    /// The result is fixed by the attributes: no `each` name, an `each`
    /// name, or an error.
    Decided(Result<Option<Seq<char>>, ()>),
    /// The `each` literal is not ASCII: whether it is an identifier, and its
    /// text as one, is up to the lexer in use.
    SynDecides,
}

/// The directive a list of attributes gives: no `builder` attribute gives no
/// `each` name; a `builder` attribute must read `each = "<identifier>"`.
pub open spec fn directive_of(attrs: Seq<Attribute>) -> DirectiveOutcome {
    match builder_index(attrs) {
        None => DirectiveOutcome::Decided(Ok(None)),
        Some(k) => match attrs[k].body {
            None => DirectiveOutcome::Decided(Err(())),
            Some(b) => match each_literal_of(b@) {
                None => DirectiveOutcome::Decided(Err(())),
                Some(lit) => if is_ascii_chars(lit@) {
                    match ident_parse(lit@) {
                        None => DirectiveOutcome::Decided(Err(())),
                        Some(n) => DirectiveOutcome::Decided(Ok(Some(n))),
                    }
                } else {
                    DirectiveOutcome::SynDecides
                },
            },
        },
    }
}

/// `r` is a result that validation may give for `attrs`: the decided one,
/// or, for a literal up to the lexer, an error or some `each` name.
pub open spec fn directive_allows(attrs: Seq<Attribute>, r: Result<Option<Seq<char>>, ()>) -> bool {
    match directive_of(attrs) {
        DirectiveOutcome::Decided(x) => r == x,
        DirectiveOutcome::SynDecides => r is Err || (r is Ok && r->Ok_0 is Some),
    }
}

/// The attributes certainly make validation fail.
pub open spec fn directive_fails(attrs: Seq<Attribute>) -> bool {
    directive_of(attrs) == DirectiveOutcome::Decided(Err::<Option<Seq<char>>, ()>(()))
}

/// Returns the index of the first `builder` attribute of a field, if it has one.
pub fn builder_position(f: &FieldDecl) -> (r: Option<usize>)
    ensures
        match r {
            Some(k) => k < f.attrs@.len() && builder_index(f.attrs@) == Some(k as int),
            None => builder_index(f.attrs@) is None,
        },
{
    let key = "builder".to_owned();
    let mut i: usize = 0;
    while i < f.attrs.len()
        invariant
            i <= f.attrs@.len(),
            key@ == "builder"@,
            builder_index(f.attrs@) == builder_index_from(f.attrs@, i as int),
        decreases f.attrs@.len() - i,
    {
        let a = &f.attrs[i];
        if a.path.len() == 1 && a.path[0] == key {
            return Some(i);
        }
        i = i + 1;
    }
    None
}

/// Returns the first `builder` attribute of a field, if it has one.
pub fn builder_of(f: &FieldDecl) -> (r: Option<&Attribute>)
    ensures
        match r {
            Some(a) => builder_index(f.attrs@) is Some && f.attrs@[builder_index(f.attrs@)->0] == *a,
            None => builder_index(f.attrs@) is None,
        },
{
    match builder_position(f) {
        Some(k) => Some(&f.attrs[k]),
        None => None,
    }
}

/// Returns the string literal of an attribute body that reads exactly
/// `each = "..."`, with at most one trailing comma, and `None` for any
/// other body.
pub fn each_literal(body: &Vec<AttrToken>) -> (r: Option<&String>)
    ensures
        match r {
            Some(s) => each_literal_of(body@) == Some(*s),
            None => each_literal_of(body@) is None,
        },
{
    if body.len() != 3 && body.len() != 4 {
        return None;
    }
    if body.len() == 4 {
        let comma_ok = match &body[3] {
            AttrToken::Punct(c) => *c == ',',
            _ => false,
        };
        if !comma_ok {
            return None;
        }
    }
    let key = "each".to_owned();
    let first_ok = match &body[0] {
        AttrToken::Ident(k) => *k == key,
        _ => false,
    };
    let eq_ok = match &body[1] {
        AttrToken::Punct(c) => *c == '=',
        _ => false,
    };
    if !first_ok || !eq_ok {
        return None;
    }
    match &body[2] {
        AttrToken::Str(s) => Some(s),
        _ => None,
    }
}

/// Turns the identifier parsed out of an `each` literal into a directive:
/// a literal that is no identifier is an error at the attribute of index
/// `attr`.
pub fn directive_from_ident(parsed: Option<String>, attr: usize) -> (r: Result<Directive, DirectiveError>)
    ensures
        match r {
            Ok(d) => parsed is Some && d.each == parsed,
            Err(e) => parsed is None && e.attr == attr,
        },
{
    match parsed {
        Some(n) => Ok(Directive { each: Some(n) }),
        None => Err(DirectiveError { attr }),
    }
}

/// Validates the `builder` attribute of a field. A field without one has no
/// `each` name; one with a `builder` attribute that does not read
/// `each = "<identifier>"` is an error that names that attribute. An ASCII
/// literal is judged exactly; another is judged by the lexer in use.
pub fn validate(f: &FieldDecl) -> (r: Result<Directive, DirectiveError>)
    ensures
        match r {
            Ok(d) => directive_allows(f.attrs@, Ok(d@)),
            Err(e) => directive_allows(f.attrs@, Err(())) && builder_index(f.attrs@) == Some(e.attr as int),
        },
{
    match builder_position(f) {
        None => Ok(Directive { each: None }),
        Some(k) => match &f.attrs[k].body {
            None => Err(DirectiveError { attr: k }),
            Some(b) => match each_literal(b) {
                None => Err(DirectiveError { attr: k }),
                Some(lit) => directive_from_ident(parse_ident(lit.as_str()), k),
            },
        },
    }
}

} // verus!
