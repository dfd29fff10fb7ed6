use vstd::prelude::*;
use crate::decl::FieldDecl;
use crate::directive::Directive;
use crate::types::{TypeExpr, get_inner_type, inner_type_of};

verus! {

/// How the builder constructs one field.
#[derive(Debug, Clone, PartialEq, Eq)]
pub enum Strategy {
    /// The field's type is `Option<inner>`; unset means `None`.
    Optional { inner: String },
    /// The field's type is `Vec<elem>` and it has an `each` name: items are
    /// appended one at a time by the setter called `each`.
    Repeatable { elem: String, each: String },
    /// Anything else: the value must be set before the record is built.
    Required,
}

/// A strategy as plain values: the inner type's text, or the element type's
/// text and the `each` name.
pub enum StrategyView {
    Optional(Seq<char>),
    Repeatable(Seq<char>, Seq<char>),
    Required,
}

impl View for Strategy {
    type V = StrategyView;

    open spec fn view(&self) -> StrategyView {
        match self {
            Strategy::Optional { inner } => StrategyView::Optional(inner@),
            Strategy::Repeatable { elem, each } => StrategyView::Repeatable(elem@, each@),
            Strategy::Required => StrategyView::Required,
        }
    }
}

/// A classified field: its name, the text of its declared type, and its strategy.
#[derive(Debug, Clone, PartialEq, Eq)]
pub struct FieldPlan {
    pub name: String,
    pub ty: String,
    pub strategy: Strategy,
}

/// A field plan as plain values.
pub struct FieldPlanView {
    pub name: Seq<char>,
    pub ty: Seq<char>,
    pub strategy: StrategyView,
}

impl View for FieldPlan {
    type V = FieldPlanView;

    open spec fn view(&self) -> FieldPlanView {
        FieldPlanView { name: self.name@, ty: self.ty@, strategy: self.strategy@ }
    }
}

/// The strategy of a field of type `ty` whose directive names `each`:
/// `Option<T>` is optional; `Vec<T>` with an `each` name is repeatable;
/// everything else, `Vec<T>` without an `each` name included, is required.
pub open spec fn strategy_of(ty: TypeExpr, each: Option<Seq<char>>) -> StrategyView {
    match inner_type_of(ty, "Option"@) {
        Some(t) => StrategyView::Optional(t.text@),
        None => match (inner_type_of(ty, "Vec"@), each) {
            (Some(t), Some(e)) => StrategyView::Repeatable(t.text@, e),
            _ => StrategyView::Required,
        },
    }
}

/// The plan of field `f` whose directive names `each`.
pub open spec fn plan_of(f: FieldDecl, each: Option<Seq<char>>) -> FieldPlanView {
    FieldPlanView { name: f.name@, ty: f.ty.text@, strategy: strategy_of(f.ty, each) }
}

/// Classifies a field by the shape of its type and its validated directive.
pub fn classify(f: &FieldDecl, d: Directive) -> (r: FieldPlan)
    ensures
        r@ == plan_of(*f, d@),
{
    let option = "Option".to_owned();
    let vec = "Vec".to_owned();
    let strategy = match get_inner_type(&f.ty, &option) {
        Some(inner) => Strategy::Optional { inner: inner.text.clone() },
        None => match (get_inner_type(&f.ty, &vec), d.each) {
            (Some(elem), Some(each)) => Strategy::Repeatable { elem: elem.text.clone(), each },
            _ => Strategy::Required,
        },
    };
    FieldPlan { name: f.name.clone(), ty: f.ty.text.clone(), strategy }
}

} // verus!
