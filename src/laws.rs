use vstd::prelude::*;
use crate::context::BuilderContextView;
use crate::state::{
    BuilderStateView, FieldValueView, SlotKind, SlotView, build_result, items_in, missing, push_all,
    push_state, set_state, slot_fits, state_wf, value_of,
};
use crate::synth::artifact_text;

verus! {

/// What `build` returns, field by field: it succeeds exactly when no
/// required slot is unset, with the value of every slot in order, and
/// otherwise fails with the first required field, in order, that is unset.
pub proof fn lemma_build_result<V>(kinds: Seq<SlotKind>, slots: Seq<SlotView<V>>)
    requires
        kinds.len() == slots.len(),
    ensures
        match build_result(kinds, slots) {
            Ok(vals) => {
                &&& forall|j: int| 0 <= j < kinds.len() ==> !missing(kinds[j], #[trigger] slots[j])
                &&& vals.len() == kinds.len()
                &&& forall|j: int| 0 <= j < kinds.len() ==> #[trigger] vals[j] == value_of(kinds[j], slots[j])
            },
            Err(e) => {
                &&& 0 <= e < kinds.len()
                &&& missing(kinds[e], slots[e])
                &&& forall|j: int| 0 <= j < e ==> !missing(kinds[j], #[trigger] slots[j])
            },
        },
    decreases kinds.len(),
{
    if kinds.len() > 0 {
        let n = kinds.len() - 1;
        let k2 = kinds.subrange(0, n);
        let s2 = slots.subrange(0, n);
        lemma_build_result(k2, s2);
        assert forall|j: int| 0 <= j < n implies k2[j] == kinds[j] && s2[j] == slots[j] by {}
        match build_result(k2, s2) {
            Ok(vals) => {
                if !missing(kinds[n], slots[n]) {
                    let all = vals.push(value_of(kinds[n], slots[n]));
                    assert forall|j: int| 0 <= j < kinds.len() implies #[trigger] all[j] == value_of(kinds[j], slots[j]) by {
                        if j < n {
                            assert(all[j] == vals[j]);
                        }
                    }
                    assert forall|j: int| 0 <= j < kinds.len() implies !missing(kinds[j], #[trigger] slots[j]) by {
                        if j < n {
                            assert(!missing(k2[j], s2[j]));
                        }
                    }
                }
            },
            Err(e) => {
                assert(missing(k2[e], s2[e]));
                assert forall|j: int| 0 <= j < e implies !missing(kinds[j], #[trigger] slots[j]) by {
                    assert(!missing(k2[j], s2[j]));
                }
            },
        }
    }
}

/// Generation is deterministic: the same classified schema always gives
/// the same source text, character for character.
pub proof fn lemma_generation_deterministic(a: BuilderContextView, b: BuilderContextView)
    requires
        a == b,
    ensures
        artifact_text(a) == artifact_text(b),
{
}

/// A required field left unset makes `build` fail naming that field, and
/// when several are unset the first of them in field order is named.
pub proof fn lemma_unset_required_fails<V>(s: BuilderStateView<V>, i: int)
    requires
        state_wf(s),
        0 <= i < s.kinds.len(),
        s.kinds[i] == SlotKind::Required,
        s.slots[i] is Unset,
        forall|j: int| 0 <= j < i ==> !missing(s.kinds[j], #[trigger] s.slots[j]),
    ensures
        build_result(s.kinds, s.slots) == Err::<Seq<FieldValueView<V>>, int>(i),
{
    lemma_build_result(s.kinds, s.slots);
    match build_result(s.kinds, s.slots) {
        Ok(vals) => {
            assert(!missing(s.kinds[i], s.slots[i]));
        },
        Err(e) => {
            if e < i {
                assert(!missing(s.kinds[e], s.slots[e]));
            } else if e > i {
                assert(!missing(s.kinds[i], s.slots[i]));
            }
        },
    }
}

/// An optional field left unset never makes `build` fail, and comes out
/// as `None`.
pub proof fn lemma_unset_optional_is_none<V>(s: BuilderStateView<V>, i: int)
    requires
        state_wf(s),
        0 <= i < s.kinds.len(),
        s.kinds[i] == SlotKind::Optional,
        s.slots[i] is Unset,
    ensures
        match build_result(s.kinds, s.slots) {
            Ok(vals) => vals[i] == FieldValueView::<V>::Optional(None),
            Err(e) => e != i && s.kinds[e] == SlotKind::Required,
        },
{
    lemma_build_result(s.kinds, s.slots);
}

/// Appending `vs` one by one to an untouched repeatable slot leaves the
/// kinds and the other slots alone, and the slot's items are exactly
/// `vs`, in call order.
pub proof fn lemma_push_all<V>(s: BuilderStateView<V>, i: int, vs: Seq<V>)
    requires
        state_wf(s),
        0 <= i < s.kinds.len(),
        s.kinds[i] == SlotKind::Repeatable,
        s.slots[i] is Unset,
    ensures
        state_wf(push_all(s, i, vs)),
        push_all(s, i, vs).kinds == s.kinds,
        items_in(push_all(s, i, vs).slots[i]) == vs,
        forall|j: int| 0 <= j < s.kinds.len() && j != i ==> #[trigger] push_all(s, i, vs).slots[j] == s.slots[j],
    decreases vs.len(),
{
    if vs.len() > 0 {
        lemma_push_all(s, i, vs.drop_last());
        let p = push_all(s, i, vs.drop_last());
        assert(vs.drop_last().push(vs.last()) =~= vs);
        let q = push_state(p, i, vs.last());
        assert forall|j: int| 0 <= j < q.kinds.len() implies slot_fits(q.kinds[j], #[trigger] q.slots[j]) by {
            if j != i {
                assert(q.slots[j] == p.slots[j]);
            }
        }
    }
}

/// Calling an `each` setter with `vs` in order and then `build` gives the
/// items `vs` in call order; with no call, an empty collection. The field
/// never makes `build` fail.
pub proof fn lemma_repeatable_in_order<V>(s: BuilderStateView<V>, i: int, vs: Seq<V>)
    requires
        state_wf(s),
        0 <= i < s.kinds.len(),
        s.kinds[i] == SlotKind::Repeatable,
        s.slots[i] is Unset,
    ensures
        match build_result(push_all(s, i, vs).kinds, push_all(s, i, vs).slots) {
            Ok(vals) => vals[i] == FieldValueView::Items(vs),
            Err(e) => e != i && s.kinds[e] == SlotKind::Required,
        },
{
    lemma_push_all(s, i, vs);
    let p = push_all(s, i, vs);
    lemma_build_result(p.kinds, p.slots);
}

/// Setting a required field to `v` and then building gives `v` for that
/// field; a failure of `build` then names another field that was unset.
pub proof fn lemma_required_round_trip<V>(s: BuilderStateView<V>, i: int, v: V)
    requires
        state_wf(s),
        0 <= i < s.kinds.len(),
        s.kinds[i] == SlotKind::Required,
    ensures
        match build_result(set_state(s, i, v).kinds, set_state(s, i, v).slots) {
            Ok(vals) => vals[i] == FieldValueView::Value(v),
            Err(e) => e != i && missing(s.kinds[e], s.slots[e]),
        },
{
    let p = set_state(s, i, v);
    lemma_build_result(p.kinds, p.slots);
    match build_result(p.kinds, p.slots) {
        Ok(vals) => {},
        Err(e) => {
            assert(p.slots[e] == s.slots[e]);
        },
    }
}

} // verus!
