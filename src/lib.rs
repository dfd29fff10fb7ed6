//! Companion builder generation for record types.
//!
//! A declaration is described by plain values (`TypeDeclaration`); the
//! library validates its per-field directives, classifies every field and
//! renders the source text of a builder type for it.

mod context;
mod decl;
mod directive;
mod laws;
mod plan;
mod state;
mod synth;
mod types;

pub use decl::{AttrToken, Attribute, DeclData, FieldDecl, TypeDeclaration};
pub use directive::{
    Directive, DirectiveError, DirectiveOutcome, builder_index, builder_index_from, builder_of,
    builder_position, directive_allows, directive_fails, directive_from_ident, directive_of,
    each_literal, each_literal_of, ident_parse, is_builder_attr, validate,
};
pub use types::{TypeArg, TypeExpr, get_inner_type, inner_type_of};
pub use context::{
    BuilderContext, BuilderContextView, GenError, context_allows, directives_decided,
    gen_error_message, lemma_context_decided, plan_allowed, repeat_name,
};
pub use plan::{FieldPlan, FieldPlanView, Strategy, StrategyView, classify, plan_of, strategy_of};
pub use synth::{
    append_setter_text, artifact_text, assign_text, concat_map, expand, setter_text,
    slot_text, store_setter_text,
};
pub use state::{
    BuilderState, BuilderStateView, FieldValue, FieldValueView, Slot, SlotKind, SlotView,
    build_result, fresh_state, items_in, kind_of, missing, push_all, push_state, set_state,
    slot_fits, state_wf, value_of,
};
pub use laws::{
    lemma_build_result, lemma_generation_deterministic, lemma_push_all, lemma_repeatable_in_order,
    lemma_required_round_trip, lemma_unset_optional_is_none, lemma_unset_required_fails,
};
