use vstd::prelude::*;
use crate::decl::{DeclData, FieldDecl, TypeDeclaration};
use crate::directive::{
    DirectiveOutcome, builder_index, directive_allows, directive_fails, directive_of, validate,
};
use crate::plan::{FieldPlan, FieldPlanView, StrategyView, classify, plan_of};

verus! {

/// Why no builder can be generated for a declaration.
#[derive(Debug, Clone, PartialEq, Eq)]
pub enum GenError {
    /// The declaration is not a record with named fields.
    UnsupportedShape,
    /// The `builder` attribute of index `attr` on the field of index
    /// `field` is malformed.
    BadDirective { field: usize, attr: usize },
}

impl GenError {
    /// The diagnostic text of the error.
    pub fn message(&self) -> (r: String)
        ensures
            r@ == gen_error_message(*self),
    {
        match self {
            GenError::UnsupportedShape => "expected a struct with named fields".to_owned(),
            GenError::BadDirective { .. } => "expected \"each = \\\"...\\\"\"".to_owned(),
        }
    }
}

pub open spec fn gen_error_message(e: GenError) -> Seq<char> {
    match e {
        GenError::UnsupportedShape => "expected a struct with named fields"@,
        GenError::BadDirective { .. } => "expected \"each = \\\"...\\\"\""@,
    }
}

/// The validated, classified form of a declaration from which a builder is
/// generated: the record's name and one plan per field, in declaration order.
#[derive(Debug, Clone, PartialEq, Eq)]
pub struct BuilderContext {
    pub name: String,
    pub fields: Vec<FieldPlan>,
}

/// A context as plain values.
pub struct BuilderContextView {
    pub name: Seq<char>,
    pub fields: Seq<FieldPlanView>,
}

impl View for BuilderContext {
    type V = BuilderContextView;

    open spec fn view(&self) -> BuilderContextView {
        BuilderContextView { name: self.name@, fields: self.fields@.map_values(|p: FieldPlan| p@) }
    }
}

/// The name of the `each` setter in a plan, if it is repeatable.
pub open spec fn repeat_name(p: FieldPlanView) -> Seq<char> {
    match p.strategy {
        StrategyView::Repeatable(_, e) => e,
        _ => Seq::empty(),
    }
}

/// `p` is a plan that classification may give for field `f`: the plan of
/// its decided directive, or, where the lexer decides, the plan of some
/// `each` name.
pub open spec fn plan_allowed(f: FieldDecl, p: FieldPlanView) -> bool {
    match directive_of(f.attrs@) {
        DirectiveOutcome::Decided(Ok(each)) => p == plan_of(f, each),
        DirectiveOutcome::Decided(Err(_)) => false,
        DirectiveOutcome::SynDecides => p == plan_of(f, Some(repeat_name(p))),
    }
}

/// No field of `fs` has a directive left to the lexer.
pub open spec fn directives_decided(fs: Seq<FieldDecl>) -> bool {
    forall|i: int| 0 <= i < fs.len() ==> (#[trigger] directive_of(fs[i].attrs@)) is Decided
}

/// `r` is what generation may make of a declaration. A declaration that is
/// not a record with named fields is refused. A record gives a context with
/// one allowed plan per field, in order, or the error of a field whose
/// directive is malformed, with no field before it certainly malformed: the
/// first malformed field wherever every directive is decided.
pub open spec fn context_allows(d: TypeDeclaration, r: Result<BuilderContextView, GenError>) -> bool {
    match d.data {
        DeclData::Named(fs) => match r {
            Ok(c) => {
                &&& c.name == d.name@
                &&& c.fields.len() == fs@.len()
                &&& forall|i: int| 0 <= i < fs@.len() ==> plan_allowed(fs@[i], #[trigger] c.fields[i])
            },
            Err(GenError::BadDirective { field, attr }) => {
                &&& field < fs@.len()
                &&& directive_allows(fs@[field as int].attrs@, Err(()))
                &&& builder_index(fs@[field as int].attrs@) == Some(attr as int)
                &&& forall|j: int| 0 <= j < field ==> !directive_fails(#[trigger] fs@[j].attrs@)
            },
            Err(GenError::UnsupportedShape) => false,
        },
        _ => r == Err::<BuilderContextView, GenError>(GenError::UnsupportedShape),
    }
}

impl BuilderContext {
    /// Validates and classifies a declaration. A declaration that is not a
    /// record with named fields, or a field whose `builder` attribute is
    /// malformed, is an error; the first such field in order is reported.
    pub fn new(input: TypeDeclaration) -> (r: Result<BuilderContext, GenError>)
        ensures
            match r {
                Ok(c) => context_allows(input, Ok(c@)),
                Err(e) => context_allows(input, Err(e)),
            },
    {
        let fs = match &input.data {
            DeclData::Named(fs) => fs,
            _ => return Err(GenError::UnsupportedShape),
        };
        let mut fields: Vec<FieldPlan> = Vec::new();
        let mut i: usize = 0;
        while i < fs.len()
            invariant
                i <= fs@.len(),
                input.data == DeclData::Named(*fs),
                fields@.len() == i,
                forall|j: int| 0 <= j < i ==> plan_allowed(fs@[j], (#[trigger] fields@[j])@),
            decreases fs@.len() - i,
        {
            let f = &fs[i];
            match validate(f) {
                Ok(d) => {
                    let p = classify(f, d);
                    assert(plan_allowed(fs@[i as int], p@));
                    fields.push(p);
                },
                Err(e) => {
                    assert forall|j: int| 0 <= j < i implies !directive_fails(#[trigger] fs@[j].attrs@) by {
                        assert(plan_allowed(fs@[j], fields@[j]@));
                    }
                    return Err(GenError::BadDirective { field: i, attr: e.attr });
                },
            }
            i = i + 1;
        }
        let c = BuilderContext { name: input.name.clone(), fields };
        assert forall|j: int| 0 <= j < fs@.len() implies plan_allowed(fs@[j], #[trigger] c@.fields[j]) by {
            assert(plan_allowed(fs@[j], c.fields@[j]@));
        }
        Ok(c)
    }
}

/// Where no field's directive is left to the lexer, generation has one
/// result: a declaration is accepted exactly when it is a record with named
/// fields whose `builder` attributes all read `each = "<identifier>"`, and
/// otherwise the error is fixed too.
pub proof fn lemma_context_decided(
    d: TypeDeclaration,
    r1: Result<BuilderContextView, GenError>,
    r2: Result<BuilderContextView, GenError>,
)
    requires
        d.data is Named ==> directives_decided(d.data->Named_0@),
        context_allows(d, r1),
        context_allows(d, r2),
    ensures
        r1 == r2,
{
    if let DeclData::Named(fs) = d.data {
        match (r1, r2) {
            (Ok(c1), Ok(c2)) => {
                assert forall|i: int| 0 <= i < fs@.len() implies c1.fields[i] == c2.fields[i] by {
                    assert(directive_of(fs@[i].attrs@) is Decided);
                    assert(plan_allowed(fs@[i], c1.fields[i]));
                    assert(plan_allowed(fs@[i], c2.fields[i]));
                }
                assert(c1.fields =~= c2.fields);
            },
            (Ok(c1), Err(GenError::BadDirective { field, attr })) => {
                assert(directive_of(fs@[field as int].attrs@) is Decided);
                assert(plan_allowed(fs@[field as int], c1.fields[field as int]));
            },
            (Err(GenError::BadDirective { field, attr }), Ok(c2)) => {
                assert(directive_of(fs@[field as int].attrs@) is Decided);
                assert(plan_allowed(fs@[field as int], c2.fields[field as int]));
            },
            (Err(GenError::BadDirective { field: f1, attr: a1 }), Err(GenError::BadDirective { field: f2, attr: a2 })) => {
                assert(directive_of(fs@[f1 as int].attrs@) is Decided);
                assert(directive_of(fs@[f2 as int].attrs@) is Decided);
                if f1 < f2 {
                    assert(!directive_fails(fs@[f1 as int].attrs@));
                } else if f2 < f1 {
                    assert(!directive_fails(fs@[f2 as int].attrs@));
                }
            },
            _ => {},
        }
    }
}

} // verus!
