use vstd::prelude::*;
use crate::context::{BuilderContext, BuilderContextView, GenError, context_allows};
use crate::decl::TypeDeclaration;
use crate::plan::{FieldPlan, FieldPlanView, Strategy, StrategyView};

verus! {

/// The pieces `f` gives for each plan of `ps`, one after the other.
pub open spec fn concat_map(
    ps: Seq<FieldPlanView>,
    f: spec_fn(FieldPlanView) -> Seq<char>,
) -> Seq<char>
    decreases ps.len(),
{
    if ps.len() == 0 {
        Seq::empty()
    } else {
        concat_map(ps.drop_last(), f) + f(ps.last())
    }
}

/// The builder's state slot for a field: an optional field keeps its type,
/// every other field is held in an `Option` of its type.
pub open spec fn slot_text(p: FieldPlanView) -> Seq<char> {
    match p.strategy {
        StrategyView::Optional(_) => "    "@ + p.name + ": "@ + p.ty + ",\n"@,
        _ => "    "@ + p.name + ": ::std::option::Option<"@ + p.ty + ">,\n"@,
    }
}

/// A setter named `setter` that stores a value convertible to `arg` in the
/// slot `slot`, replacing what it held.
pub open spec fn store_setter_text(setter: Seq<char>, slot: Seq<char>, arg: Seq<char>) -> Seq<char> {
    "    pub fn "@ + setter + "(&mut self, v: impl ::std::convert::Into<"@ + arg
        + ">) -> &mut Self {\n        self."@ + slot
        + " = ::std::option::Option::Some(v.into());\n        self\n    }\n"@
}

/// A setter named `setter` that appends one value convertible to `elem` to
/// the collection in slot `slot`, starting from an empty one.
pub open spec fn append_setter_text(setter: Seq<char>, slot: Seq<char>, elem: Seq<char>) -> Seq<char> {
    "    pub fn "@ + setter + "(&mut self, v: impl ::std::convert::Into<"@ + elem
        + ">) -> &mut Self {\n        let mut items = self."@ + slot
        + ".take().unwrap_or_default();\n        items.push(v.into());\n        self."@ + slot
        + " = ::std::option::Option::Some(items);\n        self\n    }\n"@
}

/// The setter of a field: named after the field, or after its `each` name
/// for a repeatable field.
pub open spec fn setter_text(p: FieldPlanView) -> Seq<char> {
    match p.strategy {
        StrategyView::Optional(inner) => store_setter_text(p.name, p.name, inner),
        StrategyView::Repeatable(elem, each) => append_setter_text(each, p.name, elem),
        StrategyView::Required => store_setter_text(p.name, p.name, p.ty),
    }
}

/// The initializer of a field in `build`: it takes the slot's value, an
/// empty collection for an untouched repeatable field, and fails naming the
/// field when a required one was never set.
pub open spec fn assign_text(p: FieldPlanView) -> Seq<char> {
    match p.strategy {
        StrategyView::Optional(_) => "            "@ + p.name + ": self."@ + p.name + ".take(),\n"@,
        StrategyView::Repeatable(_, _) => "            "@ + p.name + ": self."@ + p.name
            + ".take().unwrap_or_default(),\n"@,
        StrategyView::Required => "            "@ + p.name + ": self."@ + p.name
            + ".take().ok_or(\""@ + p.name + " needs to be set!\")?,\n"@,
    }
}

/// The complete source text generated for a context.
pub open spec fn artifact_text(c: BuilderContextView) -> Seq<char> {
    let b = c.name + "Builder"@;
    "#[derive(Debug, Default)]\npub struct "@ + b + " {\n"@
        + concat_map(c.fields, |p: FieldPlanView| slot_text(p))
        + "}\n\nimpl "@ + b + " {\n"@
        + concat_map(c.fields, |p: FieldPlanView| setter_text(p))
        + "\n    pub fn build(&mut self) -> ::std::result::Result<"@ + c.name
        + ", &'static str> {\n        ::std::result::Result::Ok("@ + c.name + " {\n"@
        + concat_map(c.fields, |p: FieldPlanView| assign_text(p))
        + "        })\n    }\n}\n\nimpl "@ + c.name + " {\n    pub fn builder() -> "@ + b
        + " {\n        ::std::default::Default::default()\n    }\n}\n"@
}

fn push_slot(out: &mut String, p: &FieldPlan)
    ensures
        final(out)@ == old(out)@ + slot_text(p@),
{
    out.append("    ");
    out.append(p.name.as_str());
    match p.strategy {
        Strategy::Optional { .. } => {
            out.append(": ");
            out.append(p.ty.as_str());
            out.append(",\n");
        },
        _ => {
            out.append(": ::std::option::Option<");
            out.append(p.ty.as_str());
            out.append(">,\n");
        },
    }
    assert(final(out)@ =~= old(out)@ + slot_text(p@));
}

fn push_store_setter(out: &mut String, setter: &String, slot: &String, arg: &String)
    ensures
        final(out)@ == old(out)@ + store_setter_text(setter@, slot@, arg@),
{
    out.append("    pub fn ");
    out.append(setter.as_str());
    out.append("(&mut self, v: impl ::std::convert::Into<");
    out.append(arg.as_str());
    out.append(">) -> &mut Self {\n        self.");
    out.append(slot.as_str());
    out.append(" = ::std::option::Option::Some(v.into());\n        self\n    }\n");
    assert(final(out)@ =~= old(out)@ + store_setter_text(setter@, slot@, arg@));
}

fn push_append_setter(out: &mut String, setter: &String, slot: &String, elem: &String)
    ensures
        final(out)@ == old(out)@ + append_setter_text(setter@, slot@, elem@),
{
    out.append("    pub fn ");
    out.append(setter.as_str());
    out.append("(&mut self, v: impl ::std::convert::Into<");
    out.append(elem.as_str());
    out.append(">) -> &mut Self {\n        let mut items = self.");
    out.append(slot.as_str());
    out.append(".take().unwrap_or_default();\n        items.push(v.into());\n        self.");
    out.append(slot.as_str());
    out.append(" = ::std::option::Option::Some(items);\n        self\n    }\n");
    assert(final(out)@ =~= old(out)@ + append_setter_text(setter@, slot@, elem@));
}

fn push_setter(out: &mut String, p: &FieldPlan)
    ensures
        final(out)@ == old(out)@ + setter_text(p@),
{
    match &p.strategy {
        Strategy::Optional { inner } => push_store_setter(out, &p.name, &p.name, inner),
        Strategy::Repeatable { elem, each } => push_append_setter(out, each, &p.name, elem),
        Strategy::Required => push_store_setter(out, &p.name, &p.name, &p.ty),
    }
}

fn push_assign(out: &mut String, p: &FieldPlan)
    ensures
        final(out)@ == old(out)@ + assign_text(p@),
{
    out.append("            ");
    out.append(p.name.as_str());
    out.append(": self.");
    out.append(p.name.as_str());
    match p.strategy {
        Strategy::Optional { .. } => {
            out.append(".take(),\n");
        },
        Strategy::Repeatable { .. } => {
            out.append(".take().unwrap_or_default(),\n");
        },
        Strategy::Required => {
            out.append(".take().ok_or(\"");
            out.append(p.name.as_str());
            out.append(" needs to be set!\")?,\n");
        },
    }
    assert(final(out)@ =~= old(out)@ + assign_text(p@));
}

proof fn lemma_concat_map_step(ps: Seq<FieldPlanView>, f: spec_fn(FieldPlanView) -> Seq<char>, i: int)
    requires
        0 <= i < ps.len(),
    ensures
        concat_map(ps.subrange(0, i + 1), f) == concat_map(ps.subrange(0, i), f) + f(ps[i]),
{
    assert(ps.subrange(0, i + 1).drop_last() =~= ps.subrange(0, i));
}

impl BuilderContext {
    /// The state slots of the builder type, one line per field.
    pub fn gen_optional_fields(&self) -> (r: String)
        ensures
            r@ == concat_map(self@.fields, |p: FieldPlanView| slot_text(p)),
    {
        let mut out = String::new();
        let mut i: usize = 0;
        while i < self.fields.len()
            invariant
                i <= self.fields@.len(),
                out@ == concat_map(self@.fields.subrange(0, i as int), |p: FieldPlanView| slot_text(p)),
            decreases self.fields@.len() - i,
        {
            push_slot(&mut out, &self.fields[i]);
            proof {
                lemma_concat_map_step(self@.fields, |p: FieldPlanView| slot_text(p), i as int);
            }
            i = i + 1;
        }
        assert(self@.fields.subrange(0, i as int) =~= self@.fields);
        out
    }

    /// The setters of the builder type, one per field.
    pub fn gen_methods(&self) -> (r: String)
        ensures
            r@ == concat_map(self@.fields, |p: FieldPlanView| setter_text(p)),
    {
        let mut out = String::new();
        let mut i: usize = 0;
        while i < self.fields.len()
            invariant
                i <= self.fields@.len(),
                out@ == concat_map(self@.fields.subrange(0, i as int), |p: FieldPlanView| setter_text(p)),
            decreases self.fields@.len() - i,
        {
            push_setter(&mut out, &self.fields[i]);
            proof {
                lemma_concat_map_step(self@.fields, |p: FieldPlanView| setter_text(p), i as int);
            }
            i = i + 1;
        }
        assert(self@.fields.subrange(0, i as int) =~= self@.fields);
        out
    }

    /// The field initializers of `build`, one per field.
    pub fn gen_assigns(&self) -> (r: String)
        ensures
            r@ == concat_map(self@.fields, |p: FieldPlanView| assign_text(p)),
    {
        let mut out = String::new();
        let mut i: usize = 0;
        while i < self.fields.len()
            invariant
                i <= self.fields@.len(),
                out@ == concat_map(self@.fields.subrange(0, i as int), |p: FieldPlanView| assign_text(p)),
            decreases self.fields@.len() - i,
        {
            push_assign(&mut out, &self.fields[i]);
            proof {
                lemma_concat_map_step(self@.fields, |p: FieldPlanView| assign_text(p), i as int);
            }
            i = i + 1;
        }
        assert(self@.fields.subrange(0, i as int) =~= self@.fields);
        out
    }

    /// The source text of the builder type `<Name>Builder`: its slots, its
    /// setters, its `build` operation, and `<Name>::builder()`.
    pub fn generate(&self) -> (r: String)
        ensures
            r@ == artifact_text(self@),
    {
        let mut b = self.name.clone();
        b.append("Builder");
        let mut out = String::new();
        out.append("#[derive(Debug, Default)]\npub struct ");
        out.append(b.as_str());
        out.append(" {\n");
        let slots = self.gen_optional_fields();
        out.append(slots.as_str());
        out.append("}\n\nimpl ");
        out.append(b.as_str());
        out.append(" {\n");
        let methods = self.gen_methods();
        out.append(methods.as_str());
        out.append("\n    pub fn build(&mut self) -> ::std::result::Result<");
        out.append(self.name.as_str());
        out.append(", &'static str> {\n        ::std::result::Result::Ok(");
        out.append(self.name.as_str());
        out.append(" {\n");
        let assigns = self.gen_assigns();
        out.append(assigns.as_str());
        out.append("        })\n    }\n}\n\nimpl ");
        out.append(self.name.as_str());
        out.append(" {\n    pub fn builder() -> ");
        out.append(b.as_str());
        out.append(" {\n        ::std::default::Default::default()\n    }\n}\n");
        assert(out@ =~= artifact_text(self@));
        out
    }
}

/// Runs the whole pass on a declaration: validation, classification and
/// synthesis of the builder's source text.
pub fn expand(input: TypeDeclaration) -> (r: Result<String, GenError>)
    ensures
        match r {
            Ok(t) => exists|c: BuilderContextView| #[trigger] context_allows(input, Ok(c)) && t@ == artifact_text(c),
            Err(e) => context_allows(input, Err(e)),
        },
{
    match BuilderContext::new(input) {
        Ok(c) => {
            let t = c.generate();
            assert(context_allows(input, Ok(c@)));
            Ok(t)
        },
        Err(e) => Err(e),
    }
}

} // verus!
