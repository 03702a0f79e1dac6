//! The run-time semantics of the generated builder: a default-initialized
//! state, the chained setters and accumulators, and the fallible assembly
//! method, generic in the values the consuming program stores.

use vstd::prelude::*;
use vstd::pervasive::unreached;
use vstd::string::StringExecFns;
use crate::synthesize::{AssemblyStep, FieldMode};

verus! {

/// What one builder field holds between accessor calls.
#[derive(PartialEq, Eq, Debug)]
pub enum Slot<V> {
    /// An optional-wrapped storage field that was never set.
    Unset,
    /// An optional-wrapped storage field holding the last stored value.
    Filled(V),
    /// An always-present sequence field, possibly empty.
    Items(Vec<V>),
}

/// The value assembly yields for one field of the original record.
#[derive(PartialEq, Eq, Debug)]
pub enum FieldValue<V> {
    /// A required field's checked, unwrapped value.
    Single(V),
    /// An optional field's storage, read directly.
    Optional(Option<V>),
    /// An accumulated field's sequence, read directly.
    Repeated(Vec<V>),
}

/// The recoverable failure of assembly: the first required field, in
/// declaration order, that was never set.
#[derive(PartialEq, Eq, Debug)]
pub struct AssemblyError {
    pub field_name: String,
}

impl AssemblyError {
    /// The descriptive message of the failure, naming the missing field.
    pub fn message(&self) -> (r: String)
        ensures
            r@ == self.field_name@ + " is not set"@,
    {
        self.field_name.clone().concat(" is not set")
    }
}

/// A partially-constructed record: the assembly plan of its schema and
/// one storage slot per field, in field order.
#[derive(PartialEq, Eq, Debug)]
pub struct BuilderState<V> {
    pub plan: Vec<AssemblyStep>,
    pub slots: Vec<Slot<V>>,
}

/// Which slot forms a field's mode admits.
pub open spec fn slot_fits<V>(m: FieldMode, s: Slot<V>) -> bool {
    match m {
        FieldMode::Accumulated => s is Items,
        FieldMode::Required => s is Unset || s is Filled,
        FieldMode::Optional => s is Unset || s is Filled,
    }
}

/// The slot a field's mode starts out with: the empty sequence for an
/// accumulated field, an absent value for everything else.
pub open spec fn slot_is_default<V>(m: FieldMode, s: Slot<V>) -> bool {
    match m {
        FieldMode::Accumulated => s matches Slot::Items(xs) && xs@ == Seq::<V>::empty(),
        FieldMode::Required => s is Unset,
        FieldMode::Optional => s is Unset,
    }
}

/// A required field whose storage was never set.
pub open spec fn required_missing_at<V>(
    plan: Seq<AssemblyStep>,
    slots: Seq<Slot<V>>,
    j: int,
) -> bool {
    &&& 0 <= j < plan.len()
    &&& plan[j].mode == FieldMode::Required
    &&& slots[j] is Unset
}

/// The value assembly owes a field, given its mode and its slot.
pub open spec fn field_value_fits<V>(m: FieldMode, s: Slot<V>, v: FieldValue<V>) -> bool {
    match m {
        FieldMode::Required => s matches Slot::Filled(x) && v == FieldValue::Single(x),
        FieldMode::Optional => match s {
            Slot::Unset => v == FieldValue::Optional(Option::<V>::None),
            Slot::Filled(x) => v == FieldValue::Optional(Some(x)),
            Slot::Items(_) => false,
        },
        FieldMode::Accumulated => s matches Slot::Items(xs) && v == FieldValue::Repeated(xs),
    }
}

/// Everything assembly promises: it fails exactly when some required
/// field is unset; a failure names the first such field in declaration
/// order; success yields one value per field, each dictated by the
/// field's mode and slot.
pub open spec fn assemble_post<V>(
    plan: Seq<AssemblyStep>,
    slots: Seq<Slot<V>>,
    r: Result<Vec<FieldValue<V>>, AssemblyError>,
) -> bool {
    &&& ((exists|j: int| required_missing_at(plan, slots, j)) <==> r is Err)
    &&& (r matches Err(e) ==> exists|j: int|
        {
            &&& #[trigger] required_missing_at(plan, slots, j)
            &&& (forall|k: int| 0 <= k < j ==> !required_missing_at(plan, slots, k))
            &&& e.field_name == plan[j].field_name
        })
    &&& (r matches Ok(vals) ==> {
        &&& vals@.len() == plan.len()
        &&& forall|j: int| 0 <= j < plan.len() ==> field_value_fits(
            plan[j].mode,
            slots[j],
            #[trigger] vals@[j],
        )
    })
}

impl<V> BuilderState<V> {
    /// The slots line up with the plan.
    pub open spec fn wf(self) -> bool {
        &&& self.slots@.len() == self.plan@.len()
        &&& forall|i: int| 0 <= i < self.plan@.len() ==> slot_fits(
            self.plan@[i].mode,
            #[trigger] self.slots@[i],
        )
    }

    /// The factory method's result: a default-initialized builder state —
    /// every optional-wrapped storage field absent, every accumulated
    /// sequence field empty.
    #[verifier::loop_isolation(false)]
    pub fn fresh(plan: Vec<AssemblyStep>) -> (b: BuilderState<V>)
        ensures
            b.wf(),
            b.plan == plan,
            forall|i: int| 0 <= i < plan@.len() ==> slot_is_default(
                plan@[i].mode,
                #[trigger] b.slots@[i],
            ),
    {
        let mut slots: Vec<Slot<V>> = Vec::new();
        let mut i: usize = 0;
        while i < plan.len()
            invariant
                0 <= i <= plan@.len(),
                slots@.len() == i,
                forall|j: int| 0 <= j < i ==> slot_is_default(plan@[j].mode, #[trigger] slots@[j]),
            decreases plan@.len() - i,
        {
            let m = plan[i].mode;
            match m {
                FieldMode::Accumulated => slots.push(Slot::Items(Vec::new())),
                FieldMode::Required => slots.push(Slot::Unset),
                FieldMode::Optional => slots.push(Slot::Unset),
            }
            i = i + 1;
        }
        BuilderState { plan, slots }
    }

    /// A chained setter's effect: stores the present value into the
    /// storage field, replacing whatever was there.
    pub fn store(&mut self, i: usize, v: V)
        requires
            old(self).wf(),
            i < old(self).plan@.len(),
            old(self).plan@[i as int].mode != FieldMode::Accumulated,
        ensures
            final(self).wf(),
            final(self).plan == old(self).plan,
            final(self).slots@ == old(self).slots@.update(i as int, Slot::Filled(v)),
    {
        let _replaced = self.slots.remove(i);
        self.slots.insert(i, Slot::Filled(v));
        proof {
            assert(self.slots@ =~= old(self).slots@.update(i as int, Slot::Filled(v)));
        }
    }

    /// A chained accumulator's effect: appends the value to the
    /// always-present sequence field, leaving every other slot alone.
    pub fn accumulate(&mut self, i: usize, v: V)
        requires
            old(self).wf(),
            i < old(self).plan@.len(),
            old(self).plan@[i as int].mode == FieldMode::Accumulated,
        ensures
            final(self).wf(),
            final(self).plan == old(self).plan,
            final(self).slots@.len() == old(self).slots@.len(),
            forall|k: int| 0 <= k < old(self).slots@.len() && k != i ==> final(self).slots@[k]
                == #[trigger] old(self).slots@[k],
            old(self).slots@[i as int] matches Slot::Items(xs) ==> final(self).slots@[i as int]
                matches Slot::Items(ys) && ys@ == xs@.push(v),
    {
        let slot = self.slots.remove(i);
        match slot {
            Slot::Items(mut items) => {
                items.push(v);
                self.slots.insert(i, Slot::Items(items));
                proof {
                    assert(self.slots@ =~= old(self).slots@.update(
                        i as int,
                        self.slots@[i as int],
                    ));
                }
            },
            Slot::Unset => {
                proof {
                    assert(false);
                }
            },
            Slot::Filled(_) => {
                proof {
                    assert(false);
                }
            },
        }
    }

    /// The assembly method: walks the fields in declaration order; a
    /// required field whose storage is absent fails immediately with that
    /// field's name, before any later field is checked; otherwise one
    /// value per field is produced, in field order.
    #[verifier::loop_isolation(false)]
    pub fn assemble(self) -> (r: Result<Vec<FieldValue<V>>, AssemblyError>)
        requires
            self.wf(),
        ensures
            assemble_post(self.plan@, self.slots@, r),
    {
        let ghost plan0 = self.plan@;
        let ghost slots0 = self.slots@;
        let BuilderState { plan, mut slots } = self;
        let mut out: Vec<FieldValue<V>> = Vec::new();
        let mut i: usize = 0;
        proof {
            assert(slots0.skip(0) =~= slots0);
        }
        while i < plan.len()
            invariant
                0 <= i <= plan0.len(),
                plan@ == plan0,
                slots@ == slots0.skip(i as int),
                out@.len() == i,
                forall|j: int| 0 <= j < i ==> field_value_fits(
                    plan0[j].mode,
                    slots0[j],
                    #[trigger] out@[j],
                ),
                forall|j: int| 0 <= j < i ==> !required_missing_at(plan0, slots0, j),
            decreases plan0.len() - i,
        {
            proof {
                assert(slots0.skip(i as int)[0] == slots0[i as int]);
                assert(slots0.skip(i as int).remove(0) =~= slots0.skip(i as int + 1));
            }
            let m = plan[i].mode;
            let slot = slots.remove(0);
            match m {
                FieldMode::Required => {
                    match slot {
                        Slot::Filled(x) => out.push(FieldValue::Single(x)),
                        Slot::Unset => {
                            proof {
                                assert(required_missing_at(plan0, slots0, i as int));
                            }
                            return Err(AssemblyError { field_name: plan[i].field_name.clone() });
                        },
                        Slot::Items(_) => {
                            return unreached();
                        },
                    }
                },
                FieldMode::Optional => {
                    match slot {
                        Slot::Unset => out.push(FieldValue::Optional(None)),
                        Slot::Filled(x) => out.push(FieldValue::Optional(Some(x))),
                        Slot::Items(_) => {
                            return unreached();
                        },
                    }
                },
                FieldMode::Accumulated => {
                    match slot {
                        Slot::Items(xs) => out.push(FieldValue::Repeated(xs)),
                        Slot::Unset => {
                            return unreached();
                        },
                        Slot::Filled(_) => {
                            return unreached();
                        },
                    }
                },
            }
            i = i + 1;
        }
        Ok(out)
    }
}

/// The round trip: once every required field has been stored, assembly
/// succeeds, and yields per field the last stored value, the optional
/// storage as it stands, or the accumulated sequence in call order.
pub proof fn lemma_assembly_round_trip<V>(
    plan: Seq<AssemblyStep>,
    slots: Seq<Slot<V>>,
    r: Result<Vec<FieldValue<V>>, AssemblyError>,
)
    requires
        forall|j: int| 0 <= j < plan.len() && plan[j].mode == FieldMode::Required
            ==> #[trigger] slots[j] is Filled,
        assemble_post(plan, slots, r),
    ensures
        r is Ok,
        r matches Ok(vals) ==> vals@.len() == plan.len() && forall|j: int|
            0 <= j < plan.len() ==> field_value_fits(plan[j].mode, slots[j], #[trigger] vals@[j]),
{
    if r is Err {
        let j = choose|j: int| required_missing_at(plan, slots, j);
        assert(slots[j] is Filled);
        assert(false);
    }
}

/// For any required field left unset, assembly fails, and the failure
/// names exactly the first such field in declaration order.
pub proof fn lemma_missing_field_detection<V>(
    plan: Seq<AssemblyStep>,
    slots: Seq<Slot<V>>,
    r: Result<Vec<FieldValue<V>>, AssemblyError>,
    j: int,
)
    requires
        assemble_post(plan, slots, r),
        required_missing_at(plan, slots, j),
        forall|k: int| 0 <= k < j ==> !required_missing_at(plan, slots, k),
    ensures
        r is Err,
        r matches Err(e) ==> e.field_name == plan[j].field_name,
{
    match r {
        Err(e) => {
            let j2 = choose|j2: int|
                {
                    &&& #[trigger] required_missing_at(plan, slots, j2)
                    &&& (forall|k: int| 0 <= k < j2 ==> !required_missing_at(plan, slots, k))
                    &&& e.field_name == plan[j2].field_name
                };
            if j2 < j {
                assert(!required_missing_at(plan, slots, j2));
                assert(false);
            }
            if j < j2 {
                assert(!required_missing_at(plan, slots, j));
                assert(false);
            }
        },
        Ok(_) => {},
    }
}

/// A builder on which no accumulator call was made yields, upon assembly,
/// the empty sequence for that field, and never a missing-field failure:
/// a failure can only name a required field.
pub proof fn lemma_untouched_accumulator_stays_empty<V>(
    plan: Seq<AssemblyStep>,
    slots: Seq<Slot<V>>,
    r: Result<Vec<FieldValue<V>>, AssemblyError>,
    i: int,
)
    requires
        assemble_post(plan, slots, r),
        plan.len() == slots.len(),
        0 <= i < plan.len(),
        plan[i].mode == FieldMode::Accumulated,
        slots[i] matches Slot::Items(xs) && xs@ == Seq::<V>::empty(),
        forall|j: int| 0 <= j < plan.len() && j != i ==> (#[trigger] plan[j].field_name)@
            != plan[i].field_name@,
    ensures
        r matches Err(e) ==> e.field_name@ != plan[i].field_name@,
        r matches Ok(vals) ==> vals@[i] matches FieldValue::Repeated(ys) && ys@
            == Seq::<V>::empty(),
{
    match r {
        Err(e) => {
            let j2 = choose|j2: int|
                {
                    &&& #[trigger] required_missing_at(plan, slots, j2)
                    &&& (forall|k: int| 0 <= k < j2 ==> !required_missing_at(plan, slots, k))
                    &&& e.field_name == plan[j2].field_name
                };
            assert(j2 != i);
        },
        Ok(_) => {},
    }
}

/// One accessor invocation, as the consuming program makes it: a setter
/// call or an accumulator call, with the field's position and the value.
pub enum AccessorCall<V> {
    Store(usize, V),
    Accumulate(usize, V),
}

/// The mathematical image of a slot.
pub enum SlotView<V> {
    Unset,
    Filled(V),
    Items(Seq<V>),
}

/// The image of one slot.
pub open spec fn slot_view<V>(s: Slot<V>) -> SlotView<V> {
    match s {
        Slot::Unset => SlotView::Unset,
        Slot::Filled(v) => SlotView::Filled(v),
        Slot::Items(xs) => SlotView::Items(xs@),
    }
}

/// The image of a whole slot row.
pub open spec fn slot_views<V>(slots: Seq<Slot<V>>) -> Seq<SlotView<V>> {
    slots.map_values(|s: Slot<V>| slot_view(s))
}

/// The image of the factory default for a plan.
pub open spec fn default_views<V>(plan: Seq<AssemblyStep>) -> Seq<SlotView<V>> {
    Seq::new(
        plan.len(),
        |i: int|
            if plan[i].mode == FieldMode::Accumulated {
                SlotView::Items(Seq::<V>::empty())
            } else {
                SlotView::<V>::Unset
            },
    )
}

/// Whether a call addresses a field of the matching mode: setters touch
/// non-accumulated fields, accumulator calls touch accumulated ones.
pub open spec fn call_fits<V>(plan: Seq<AssemblyStep>, c: AccessorCall<V>) -> bool {
    match c {
        AccessorCall::Store(i, _) => 0 <= (i as int) < plan.len() && plan[i as int].mode
            != FieldMode::Accumulated,
        AccessorCall::Accumulate(i, _) => 0 <= (i as int) < plan.len() && plan[i as int].mode
            == FieldMode::Accumulated,
    }
}

/// What one accessor call does to the slot row: a setter replaces the
/// slot with the present value; an accumulator call appends to the
/// sequence.
pub open spec fn apply_call<V>(views: Seq<SlotView<V>>, c: AccessorCall<V>) -> Seq<SlotView<V>> {
    match c {
        AccessorCall::Store(i, v) => views.update(i as int, SlotView::Filled(v)),
        AccessorCall::Accumulate(i, v) => match views[i as int] {
            SlotView::Items(xs) => views.update(i as int, SlotView::Items(xs.push(v))),
            SlotView::Unset => views,
            SlotView::Filled(_) => views,
        },
    }
}

/// What a whole session of accessor calls does, first call first.
pub open spec fn apply_calls<V>(
    views: Seq<SlotView<V>>,
    calls: Seq<AccessorCall<V>>,
) -> Seq<SlotView<V>>
    decreases calls.len(),
{
    if calls.len() <= 0 {
        views
    } else {
        apply_call(apply_calls(views, calls.drop_last()), calls.last())
    }
}

/// The last value a session stores into field `i`, if any call does.
pub open spec fn last_stored<V>(calls: Seq<AccessorCall<V>>, i: int) -> Option<V>
    decreases calls.len(),
{
    if calls.len() <= 0 {
        None
    } else {
        match calls.last() {
            AccessorCall::Store(j, v) => if j as int == i {
                Some(v)
            } else {
                last_stored(calls.drop_last(), i)
            },
            AccessorCall::Accumulate(_, _) => last_stored(calls.drop_last(), i),
        }
    }
}

/// The values a session accumulates into field `i`, in call order.
pub open spec fn accumulated<V>(calls: Seq<AccessorCall<V>>, i: int) -> Seq<V>
    decreases calls.len(),
{
    if calls.len() <= 0 {
        Seq::empty()
    } else {
        match calls.last() {
            AccessorCall::Accumulate(j, v) => if j as int == i {
                accumulated(calls.drop_last(), i).push(v)
            } else {
                accumulated(calls.drop_last(), i)
            },
            AccessorCall::Store(_, _) => accumulated(calls.drop_last(), i),
        }
    }
}

/// A fitting session never changes the length of the slot row.
pub proof fn lemma_apply_calls_len<V>(
    plan: Seq<AssemblyStep>,
    views: Seq<SlotView<V>>,
    calls: Seq<AccessorCall<V>>,
)
    requires
        views.len() == plan.len(),
        forall|k: int| 0 <= k < calls.len() ==> call_fits(plan, #[trigger] calls[k]),
    ensures
        apply_calls(views, calls).len() == views.len(),
    decreases calls.len(),
{
    if calls.len() > 0 {
        let prefix = calls.drop_last();
        assert(forall|k: int| 0 <= k < prefix.len() ==> prefix[k] == #[trigger] calls[k]);
        lemma_apply_calls_len(plan, views, prefix);
        assert(call_fits(plan, calls[calls.len() - 1]));
    }
}

/// After any fitting session from the factory default, a non-accumulated
/// slot holds exactly the last value stored into it (and stays absent if
/// none was), and an accumulated slot holds exactly the values
/// accumulated into it, in call order.
pub proof fn lemma_trace_slots<V>(plan: Seq<AssemblyStep>, calls: Seq<AccessorCall<V>>, i: int)
    requires
        forall|k: int| 0 <= k < calls.len() ==> call_fits(plan, #[trigger] calls[k]),
        0 <= i < plan.len(),
    ensures
        plan[i].mode == FieldMode::Accumulated ==> apply_calls(default_views::<V>(plan), calls)[i]
            == SlotView::Items(accumulated(calls, i)),
        plan[i].mode != FieldMode::Accumulated ==> apply_calls(default_views::<V>(plan), calls)[i]
            == (match last_stored(calls, i) {
            Some(v) => SlotView::<V>::Filled(v),
            None => SlotView::<V>::Unset,
        }),
    decreases calls.len(),
{
    lemma_apply_calls_len(plan, default_views::<V>(plan), calls);
    if calls.len() > 0 {
        let prefix = calls.drop_last();
        assert(forall|k: int| 0 <= k < prefix.len() ==> prefix[k] == #[trigger] calls[k]);
        lemma_trace_slots::<V>(plan, prefix, i);
        lemma_apply_calls_len(plan, default_views::<V>(plan), prefix);
        let before = apply_calls(default_views::<V>(plan), prefix);
        match calls.last() {
            AccessorCall::Store(j, v) => {
                assert(call_fits(plan, calls[calls.len() - 1]));
                if j as int == i {
                } else {
                    assert(before.update(j as int, SlotView::Filled(v))[i] == before[i]);
                }
            },
            AccessorCall::Accumulate(j, v) => {
                assert(call_fits(plan, calls[calls.len() - 1]));
                if j as int == i {
                    lemma_trace_slots::<V>(plan, prefix, j as int);
                } else {
                }
            },
        }
    }
}

/// The assembly round trip over a whole session: starting from the
/// factory default, make any sequence of accessor calls that fits the
/// plan; if every required field was stored at least once, assembly
/// succeeds, and yields per field the last value stored into it, its
/// optional storage as the session left it, or the values accumulated
/// into it, in call order.
pub proof fn lemma_builder_round_trip<V>(
    plan: Seq<AssemblyStep>,
    calls: Seq<AccessorCall<V>>,
    slots: Seq<Slot<V>>,
    r: Result<Vec<FieldValue<V>>, AssemblyError>,
)
    requires
        plan.len() == slots.len(),
        forall|k: int| 0 <= k < calls.len() ==> call_fits(plan, #[trigger] calls[k]),
        slot_views(slots) == apply_calls(default_views::<V>(plan), calls),
        forall|i: int| 0 <= i < plan.len() && plan[i].mode == FieldMode::Required
            ==> (#[trigger] last_stored(calls, i)) is Some,
        assemble_post(plan, slots, r),
    ensures
        r is Ok,
        r matches Ok(vals) ==> vals@.len() == plan.len() && forall|i: int|
            0 <= i < plan.len() ==> {
                &&& (plan[i].mode == FieldMode::Required ==> (last_stored(calls, i) matches Some(v)
                    && #[trigger] vals@[i] == FieldValue::Single(v)))
                &&& (plan[i].mode == FieldMode::Optional ==> match last_stored(calls, i) {
                    Some(v) => vals@[i] == FieldValue::Optional(Some(v)),
                    None => vals@[i] == FieldValue::Optional(Option::<V>::None),
                })
                &&& (plan[i].mode == FieldMode::Accumulated ==> (vals@[i] matches
                    FieldValue::Repeated(xs) && xs@ == accumulated(calls, i)))
            },
{
    assert forall|i: int| 0 <= i < plan.len() implies {
        &&& (plan[i].mode == FieldMode::Accumulated ==> (slots[i] matches Slot::Items(xs) && xs@
            == accumulated(calls, i)))
        &&& (plan[i].mode != FieldMode::Accumulated ==> slots[i] == (match last_stored(calls, i) {
            Some(v) => Slot::<V>::Filled(v),
            None => Slot::<V>::Unset,
        }))
    } by {
        lemma_trace_slots::<V>(plan, calls, i);
        assert(slot_views(slots)[i] == slot_view(slots[i]));
        match slots[i] {
            Slot::Unset => {},
            Slot::Filled(_) => {},
            Slot::Items(_) => {},
        }
    }
    if r is Err {
        let j = choose|j: int| required_missing_at(plan, slots, j);
        assert(last_stored(calls, j) is Some);
        assert(false);
    }
}

/// The factory default realizes the default image.
pub proof fn lemma_default_slots_view<V>(plan: Seq<AssemblyStep>, slots: Seq<Slot<V>>)
    requires
        slots.len() == plan.len(),
        forall|i: int| 0 <= i < plan.len() ==> slot_is_default(plan[i].mode, #[trigger] slots[i]),
    ensures
        slot_views(slots) == default_views::<V>(plan),
{
    assert forall|i: int| 0 <= i < plan.len() implies slot_views(slots)[i]
        == default_views::<V>(plan)[i] by {
        assert(slot_views(slots)[i] == slot_view(slots[i]));
        match slots[i] {
            Slot::Unset => {},
            Slot::Filled(_) => {},
            Slot::Items(_) => {},
        }
    }
    assert(slot_views(slots) =~~= default_views::<V>(plan));
}

/// A setter's effect on the slot row realizes its trace step.
pub proof fn lemma_store_matches_call<V>(before: Seq<Slot<V>>, i: usize, v: V)
    requires
        (i as int) < before.len(),
    ensures
        slot_views(before.update(i as int, Slot::Filled(v))) == apply_call(
            slot_views(before),
            AccessorCall::Store(i, v),
        ),
{
    assert(slot_views(before.update(i as int, Slot::Filled(v))) =~~= apply_call(
        slot_views(before),
        AccessorCall::Store(i, v),
    ));
}

/// An accumulator call's effect on the slot row realizes its trace step.
pub proof fn lemma_accumulate_matches_call<V>(
    before: Seq<Slot<V>>,
    after: Seq<Slot<V>>,
    i: usize,
    v: V,
)
    requires
        (i as int) < before.len(),
        after.len() == before.len(),
        before[i as int] is Items,
        before[i as int] matches Slot::Items(xs) ==> (after[i as int] matches Slot::Items(ys)
            && ys@ == xs@.push(v)),
        forall|k: int| 0 <= k < before.len() && k != i ==> after[k] == #[trigger] before[k],
    ensures
        slot_views(after) == apply_call(slot_views(before), AccessorCall::Accumulate(i, v)),
{
    assert(slot_views(before)[i as int] == slot_view(before[i as int]));
    assert forall|k: int| 0 <= k < after.len() implies slot_views(after)[k] == apply_call(
        slot_views(before),
        AccessorCall::Accumulate(i, v),
    )[k] by {
        assert(slot_views(after)[k] == slot_view(after[k]));
        assert(slot_views(before)[k] == slot_view(before[k]));
    }
    assert(slot_views(after) =~~= apply_call(slot_views(before), AccessorCall::Accumulate(i, v)));
}

} // verus!
