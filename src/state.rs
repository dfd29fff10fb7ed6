use vstd::prelude::*;
use crate::context::BuilderContext;
use crate::plan::{Strategy, StrategyView};

verus! {

/// How a generated builder treats a field's slot.
#[derive(Debug, PartialEq, Eq, Structural, Clone, Copy)]
pub enum SlotKind {
    Optional,
    Repeatable,
    Required,
}

/// The slot kind of a field built with strategy `s`.
pub open spec fn kind_of(s: StrategyView) -> SlotKind {
    match s {
        StrategyView::Optional(_) => SlotKind::Optional,
        StrategyView::Repeatable(_, _) => SlotKind::Repeatable,
        StrategyView::Required => SlotKind::Required,
    }
}

/// The content of one slot of a generated builder.
#[derive(Debug, Clone, PartialEq, Eq)]
pub enum Slot<V> {
    Unset,
    Held(V),
    Items(Vec<V>),
}

/// A slot as plain values.
pub enum SlotView<V> {
    Unset,
    Held(V),
    Items(Seq<V>),
}

impl<V> View for Slot<V> {
    type V = SlotView<V>;

    open spec fn view(&self) -> SlotView<V> {
        match self {
            Slot::Unset => SlotView::Unset,
            Slot::Held(v) => SlotView::Held(*v),
            Slot::Items(vs) => SlotView::Items(vs@),
        }
    }
}

/// The value `build` hands out for one field.
#[derive(Debug, Clone, PartialEq, Eq)]
pub enum FieldValue<V> {
    /// An optional field: its value, or `None` when never set.
    Optional(Option<V>),
    /// A repeatable field: the appended items in call order.
    Items(Vec<V>),
    /// A required field: its value.
    Value(V),
}

/// A built value as plain values.
pub enum FieldValueView<V> {
    Optional(Option<V>),
    Items(Seq<V>),
    Value(V),
}

impl<V> View for FieldValue<V> {
    type V = FieldValueView<V>;

    open spec fn view(&self) -> FieldValueView<V> {
        match self {
            FieldValue::Optional(v) => FieldValueView::Optional(*v),
            FieldValue::Items(vs) => FieldValueView::Items(vs@),
            FieldValue::Value(v) => FieldValueView::Value(*v),
        }
    }
}

/// The state of a generated builder: one kind and one slot per field.
pub struct BuilderStateView<V> {
    pub kinds: Seq<SlotKind>,
    pub slots: Seq<SlotView<V>>,
}

/// A slot holds a single value only for an optional or required field, and
/// items only for a repeatable one.
pub open spec fn slot_fits<V>(k: SlotKind, s: SlotView<V>) -> bool {
    match s {
        SlotView::Unset => true,
        SlotView::Held(_) => k != SlotKind::Repeatable,
        SlotView::Items(_) => k == SlotKind::Repeatable,
    }
}

/// One slot per field, and each slot holds what its kind allows.
pub open spec fn state_wf<V>(s: BuilderStateView<V>) -> bool {
    &&& s.kinds.len() == s.slots.len()
    &&& forall|j: int| 0 <= j < s.kinds.len() ==> slot_fits(s.kinds[j], #[trigger] s.slots[j])
}

/// A builder with every slot unset.
pub open spec fn fresh_state<V>(kinds: Seq<SlotKind>) -> BuilderStateView<V> {
    BuilderStateView { kinds, slots: Seq::new(kinds.len(), |j: int| SlotView::Unset) }
}

/// The effect of a setter that stores `v` in slot `i`.
pub open spec fn set_state<V>(s: BuilderStateView<V>, i: int, v: V) -> BuilderStateView<V> {
    BuilderStateView { kinds: s.kinds, slots: s.slots.update(i, SlotView::Held(v)) }
}

/// The items a slot holds; none when it is unset.
pub open spec fn items_in<V>(s: SlotView<V>) -> Seq<V> {
    match s {
        SlotView::Items(vs) => vs,
        _ => Seq::empty(),
    }
}

/// The effect of an `each` setter that appends `v` to slot `i`.
pub open spec fn push_state<V>(s: BuilderStateView<V>, i: int, v: V) -> BuilderStateView<V> {
    BuilderStateView {
        kinds: s.kinds,
        slots: s.slots.update(i, SlotView::Items(items_in(s.slots[i]).push(v))),
    }
}

/// The effect of appending each of `vs` to slot `i`, in order.
pub open spec fn push_all<V>(s: BuilderStateView<V>, i: int, vs: Seq<V>) -> BuilderStateView<V>
    decreases vs.len(),
{
    if vs.len() == 0 {
        s
    } else {
        push_state(push_all(s, i, vs.drop_last()), i, vs.last())
    }
}

/// A required slot that was never set.
pub open spec fn missing<V>(k: SlotKind, s: SlotView<V>) -> bool {
    k == SlotKind::Required && s is Unset
}

/// What `build` makes of a slot that is not missing.
pub open spec fn value_of<V>(k: SlotKind, s: SlotView<V>) -> FieldValueView<V> {
    match k {
        SlotKind::Optional => FieldValueView::Optional(
            match s {
                SlotView::Held(v) => Some(v),
                _ => None,
            },
        ),
        SlotKind::Repeatable => FieldValueView::Items(items_in(s)),
        SlotKind::Required => FieldValueView::Value(s->Held_0),
    }
}

/// What `build` returns for the first `kinds.len()` fields: their values in
/// order, or the index of the first required field that was never set.
pub open spec fn build_result<V>(kinds: Seq<SlotKind>, slots: Seq<SlotView<V>>) -> Result<
    Seq<FieldValueView<V>>,
    int,
>
    decreases kinds.len(),
{
    if kinds.len() == 0 {
        Ok(Seq::empty())
    } else {
        let n = kinds.len() - 1;
        match build_result(kinds.subrange(0, n), slots.subrange(0, n)) {
            Err(i) => Err(i),
            Ok(vals) => if missing(kinds[n], slots[n]) {
                Err(n)
            } else {
                Ok(vals.push(value_of(kinds[n], slots[n])))
            },
        }
    }
}

/// The state of a builder generated for a context, held as plain values:
/// it runs the setters and the `build` operation that the generated text
/// spells out, on values of one type `V`.
pub struct BuilderState<V> {
    kinds: Vec<SlotKind>,
    slots: Vec<Slot<V>>,
}

impl<V> View for BuilderState<V> {
    type V = BuilderStateView<V>;

    closed spec fn view(&self) -> BuilderStateView<V> {
        BuilderStateView { kinds: self.kinds@, slots: self.slots@.map_values(|s: Slot<V>| s@) }
    }
}


proof fn lemma_build_prefix<V>(kinds: Seq<SlotKind>, slots: Seq<SlotView<V>>, i: int)
    requires
        0 <= i < kinds.len(),
        kinds.len() == slots.len(),
    ensures
        build_result(kinds.subrange(0, i + 1), slots.subrange(0, i + 1)) == match build_result(
            kinds.subrange(0, i),
            slots.subrange(0, i),
        ) {
            Err(e) => Err(e),
            Ok(vals) => if missing(kinds[i], slots[i]) {
                Err(i)
            } else {
                Ok(vals.push(value_of(kinds[i], slots[i])))
            },
        },
{
    assert(kinds.subrange(0, i + 1).subrange(0, i) =~= kinds.subrange(0, i));
    assert(slots.subrange(0, i + 1).subrange(0, i) =~= slots.subrange(0, i));
}

impl<V> BuilderState<V> {
    /// The builder's state is well formed.
    pub open spec fn wf(&self) -> bool {
        state_wf(self@)
    }

    /// A builder with one unset slot per kind.
    pub fn new(kinds: Vec<SlotKind>) -> (r: BuilderState<V>)
        ensures
            r@ == fresh_state::<V>(kinds@),
            r.wf(),
    {
        let mut slots: Vec<Slot<V>> = Vec::new();
        let mut i: usize = 0;
        while i < kinds.len()
            invariant
                i <= kinds@.len(),
                slots@.len() == i,
                forall|j: int| 0 <= j < i ==> (#[trigger] slots@[j]) is Unset,
            decreases kinds@.len() - i,
        {
            slots.push(Slot::Unset);
            i = i + 1;
        }
        let r = BuilderState { kinds, slots };
        assert(r@.slots =~= fresh_state::<V>(kinds@).slots);
        r
    }

    /// The number of fields.
    pub fn len(&self) -> (r: usize)
        ensures
            r == self@.kinds.len(),
    {
        self.kinds.len()
    }

    /// The kind of field `i`.
    pub fn kind(&self, i: usize) -> (r: SlotKind)
        requires
            i < self@.kinds.len(),
        ensures
            r == self@.kinds[i as int],
    {
        self.kinds[i]
    }

    /// The setter of an optional or required field: stores `v` in slot `i`,
    /// replacing what it held.
    pub fn set(&mut self, i: usize, v: V)
        requires
            old(self).wf(),
            i < old(self)@.kinds.len(),
            old(self)@.kinds[i as int] != SlotKind::Repeatable,
        ensures
            final(self)@ == set_state(old(self)@, i as int, v),
            final(self).wf(),
    {
        self.slots.set(i, Slot::Held(v));
        assert(self@.slots =~= set_state(old(self)@, i as int, v).slots);
    }

    /// The `each` setter of a repeatable field: appends `v` to the items of
    /// slot `i`, starting from none when the slot is unset.
    pub fn push(&mut self, i: usize, v: V)
        requires
            old(self).wf(),
            i < old(self)@.kinds.len(),
            old(self)@.kinds[i as int] == SlotKind::Repeatable,
        ensures
            final(self)@ == push_state(old(self)@, i as int, v),
            final(self).wf(),
    {
        let mut taken: Slot<V> = Slot::Unset;
        self.slots.set_and_swap(i, &mut taken);
        let mut items: Vec<V> = match taken {
            Slot::Items(vs) => vs,
            _ => Vec::new(),
        };
        assert(items@ == items_in(old(self)@.slots[i as int]));
        items.push(v);
        self.slots.set(i, Slot::Items(items));
        assert(self@.slots =~= push_state(old(self)@, i as int, v).slots);
    }

    /// The assembly operation: takes every slot in field order, leaving it
    /// unset, and returns the fields' values; fails with the index of the
    /// first required field that was never set, leaving the slots after it
    /// as they were.
    pub fn build(&mut self) -> (r: Result<Vec<FieldValue<V>>, usize>)
        requires
            old(self).wf(),
        ensures
            final(self)@.kinds == old(self)@.kinds,
            final(self).wf(),
            match r {
                Ok(vals) => build_result(old(self)@.kinds, old(self)@.slots) == Ok::<
                    Seq<FieldValueView<V>>,
                    int,
                >(vals@.map_values(|x: FieldValue<V>| x@)),
                Err(i) => build_result(old(self)@.kinds, old(self)@.slots) == Err::<
                    Seq<FieldValueView<V>>,
                    int,
                >(i as int),
            },
            forall|j: int|
                0 <= j < old(self)@.kinds.len() ==> (#[trigger] final(self)@.slots[j]) == if (
                r is Ok || j <= r->Err_0) {
                    SlotView::<V>::Unset
                } else {
                    old(self)@.slots[j]
                },
    {
        let ghost k0 = self@.kinds;
        let ghost s0 = self@.slots;
        let mut vals: Vec<FieldValue<V>> = Vec::new();
        let n = self.kinds.len();
        let mut i: usize = 0;
        assert(k0.subrange(0, 0) =~= Seq::<SlotKind>::empty());
        assert(s0.subrange(0, 0) =~= Seq::<SlotView<V>>::empty());
        assert(vals@.map_values(|x: FieldValue<V>| x@) =~= Seq::<FieldValueView<V>>::empty());
        while i < n
            invariant
                k0 == old(self)@.kinds,
                s0 == old(self)@.slots,
                n == k0.len(),
                i <= n,
                self@.kinds == k0,
                self.wf(),
                state_wf(BuilderStateView { kinds: k0, slots: s0 }),
                build_result(k0.subrange(0, i as int), s0.subrange(0, i as int)) == Ok::<
                    Seq<FieldValueView<V>>,
                    int,
                >(vals@.map_values(|x: FieldValue<V>| x@)),
                forall|j: int|
                    0 <= j < n ==> (#[trigger] self@.slots[j]) == if j < i {
                        SlotView::<V>::Unset
                    } else {
                        s0[j]
                    },
            decreases n - i,
        {
            proof {
                lemma_build_prefix(k0, s0, i as int);
            }
            assert(self@.slots[i as int] == s0[i as int]);
            assert(self.slots@[i as int]@ == s0[i as int]);
            let ghost prev = self@.slots;
            let mut taken: Slot<V> = Slot::Unset;
            self.slots.set_and_swap(i, &mut taken);
            assert(taken@ == s0[i as int]);
            assert(self@.slots =~= prev.update(i as int, SlotView::Unset));
            assert(slot_fits(k0[i as int], s0[i as int]));
            let k = self.kinds[i];
            let value = match k {
                SlotKind::Optional => match taken {
                    Slot::Held(v) => FieldValue::Optional(Some(v)),
                    _ => FieldValue::Optional(None),
                },
                SlotKind::Repeatable => match taken {
                    Slot::Items(vs) => FieldValue::Items(vs),
                    _ => FieldValue::Items(Vec::new()),
                },
                SlotKind::Required => match taken {
                    Slot::Held(v) => FieldValue::Value(v),
                    _ => {
                        assert forall|j: int| 0 <= j < n implies (#[trigger] self@.slots[j]) == if j <= i {
                            SlotView::<V>::Unset
                        } else {
                            s0[j]
                        } by {}
                        assert(k0.subrange(0, n as int) =~= k0);
                        assert(s0.subrange(0, n as int) =~= s0);
                        proof {
                            lemma_build_error_kept(k0, s0, i as int);
                        }
                        return Err(i);
                    },
                },
            };
            let ghost before = vals@.map_values(|x: FieldValue<V>| x@);
            vals.push(value);
            assert(vals@.map_values(|x: FieldValue<V>| x@) =~= before.push(value_of(k0[i as int], s0[i as int])));
            i = i + 1;
        }
        assert(k0.subrange(0, n as int) =~= k0);
        assert(s0.subrange(0, n as int) =~= s0);
        Ok(vals)
    }
}

/// An error in a prefix of the fields is the error of the whole.
proof fn lemma_build_error_kept<V>(kinds: Seq<SlotKind>, slots: Seq<SlotView<V>>, i: int)
    requires
        0 <= i < kinds.len(),
        kinds.len() == slots.len(),
        build_result(kinds.subrange(0, i + 1), slots.subrange(0, i + 1)) == Err::<Seq<FieldValueView<V>>, int>(i),
    ensures
        build_result(kinds, slots) == Err::<Seq<FieldValueView<V>>, int>(i),
{
    lemma_build_error_kept_at(kinds, slots, i, kinds.len() as int);
    assert(kinds.subrange(0, kinds.len() as int) =~= kinds);
    assert(slots.subrange(0, slots.len() as int) =~= slots);
}

proof fn lemma_build_error_kept_at<V>(kinds: Seq<SlotKind>, slots: Seq<SlotView<V>>, e: int, m: int)
    requires
        0 <= e < m <= kinds.len(),
        kinds.len() == slots.len(),
        build_result(kinds.subrange(0, e + 1), slots.subrange(0, e + 1)) == Err::<Seq<FieldValueView<V>>, int>(e),
    ensures
        build_result(kinds.subrange(0, m), slots.subrange(0, m)) == Err::<Seq<FieldValueView<V>>, int>(e),
    decreases m - e,
{
    if m > e + 1 {
        lemma_build_error_kept_at(kinds, slots, e, m - 1);
        lemma_build_prefix(kinds, slots, m - 1);
    }
}

impl BuilderContext {
    /// The slot kinds of the builder generated for this context, in field order.
    pub fn slot_kinds(&self) -> (r: Vec<SlotKind>)
        ensures
            r@.len() == self.fields@.len(),
            forall|j: int| 0 <= j < r@.len() ==> r@[j] == kind_of(#[trigger] self.fields@[j].strategy@),
    {
        let mut r: Vec<SlotKind> = Vec::new();
        let mut i: usize = 0;
        while i < self.fields.len()
            invariant
                i <= self.fields@.len(),
                r@.len() == i,
                forall|j: int| 0 <= j < i ==> r@[j] == kind_of(#[trigger] self.fields@[j].strategy@),
            decreases self.fields@.len() - i,
        {
            let k = match self.fields[i].strategy {
                Strategy::Optional { .. } => SlotKind::Optional,
                Strategy::Repeatable { .. } => SlotKind::Repeatable,
                Strategy::Required => SlotKind::Required,
            };
            r.push(k);
            i = i + 1;
        }
        r
    }
}

} // verus!
