//! Runtime semantics of a synthesized builder.  The synthesizer only emits
//! a *description* of the companion type; this module gives that
//! description executable meaning: a builder state holds one storage slot
//! per field, the generated methods are state transitions on it, and the
//! finalizer validates completeness, drains the storage and hands back the
//! field values in declaration order.

use crate::error::BuildError;
use crate::synth::StorageField;
use crate::synth::StorageKind;
use vstd::prelude::*;

verus! {

/// The storage of one builder slot over the element type `V`.
pub enum Slot<V> {
    /// A required scalar: unset until its setter runs; the finalizer fails
    /// while it is unset.
    Scalar(Option<V>),
    /// An optional value; missing is valid and finalizes to empty.
    Optional(Option<V>),
    /// A growable ordered sequence; never blocks finalization.
    Repeated(Vec<V>),
}

/// One named slot of the builder.
pub struct FieldSlot<V> {
    pub name: String,
    pub slot: Slot<V>,
}

/// A builder instance: the slots of all fields, in declaration order.
pub struct BuilderState<V> {
    pub slots: Vec<FieldSlot<V>>,
}

/// One finalized field value, as handed to the constructed record.
pub enum FieldValue<V> {
    Scalar(V),
    Optional(Option<V>),
    Repeated(Vec<V>),
}

// ---------------------------------------------------------------------------
// Spec-level vocabulary
// ---------------------------------------------------------------------------

/// A slot that blocks finalization: a required scalar still unset.
pub open spec fn slot_missing<V>(s: Slot<V>) -> bool {
    match s {
        Slot::Scalar(o) => o matches Option::None,
        _ => false,
    }
}

/// Finalization succeeds exactly when no slot is missing.
pub open spec fn all_filled<V>(slots: Seq<FieldSlot<V>>) -> bool {
    forall|i: int| 0 <= i < slots.len() ==> !slot_missing((#[trigger] slots[i]).slot)
}

/// `j` is the position of the first missing slot.
pub open spec fn is_first_missing<V>(slots: Seq<FieldSlot<V>>, j: int) -> bool {
    &&& 0 <= j < slots.len()
    &&& slot_missing(slots[j].slot)
    &&& (forall|k: int| 0 <= k < j ==> !slot_missing((#[trigger] slots[k]).slot))
}

/// The slot's storage matches its declared kind with every slot defaulted
/// (empty), as the zero-argument constructor leaves it.
pub open spec fn slot_defaulted<V>(kind: StorageKind, s: Slot<V>) -> bool {
    match (kind, s) {
        (StorageKind::Optional, Slot::Optional(o)) => o matches Option::None,
        (StorageKind::Repeated, Slot::Repeated(vs)) => vs@.len() == 0,
        (StorageKind::Scalar, Slot::Scalar(o)) => o matches Option::None,
        _ => false,
    }
}

/// What a setter leaves in a non-repeated slot: the supplied value, stored
/// as present, the slot's kind unchanged.
pub open spec fn slot_set<V>(before: Slot<V>, v: V, after: Slot<V>) -> bool {
    match (before, after) {
        (Slot::Scalar(_), Slot::Scalar(o)) => o matches Option::Some(w) && w == v,
        (Slot::Optional(_), Slot::Optional(o)) => o matches Option::Some(w) && w == v,
        _ => false,
    }
}

/// What the finalizer takes out of a slot: the scalar value, the optional
/// value as it stands, or the whole stored sequence in order.
pub open spec fn slot_taken<V>(before: Slot<V>, v: FieldValue<V>) -> bool {
    match (before, v) {
        (Slot::Scalar(o), FieldValue::Scalar(w)) => o matches Option::Some(x) && x == w,
        (Slot::Optional(o), FieldValue::Optional(p)) => o == p,
        (Slot::Repeated(vs), FieldValue::Repeated(ws)) => vs@ == ws@,
        _ => false,
    }
}

/// What the finalizer leaves behind in a slot it has consumed: the same
/// kind, emptied.
pub open spec fn slot_drained<V>(before: Slot<V>, after: Slot<V>) -> bool {
    match (before, after) {
        (Slot::Scalar(_), Slot::Scalar(o)) => o matches Option::None,
        (Slot::Optional(_), Slot::Optional(o)) => o matches Option::None,
        (Slot::Repeated(_), Slot::Repeated(vs)) => vs@.len() == 0,
        _ => false,
    }
}

/// `after` is `before` with every slot consumed by a successful
/// finalization: names kept, kinds kept, contents emptied.
pub open spec fn drained_state<V>(before: Seq<FieldSlot<V>>, after: Seq<FieldSlot<V>>) -> bool {
    &&& after.len() == before.len()
    &&& (forall|i: int| 0 <= i < before.len() ==> (#[trigger] after[i]).name == before[i].name)
    &&& (forall|i: int|
        0 <= i < before.len() ==> slot_drained(before[i].slot, (#[trigger] after[i]).slot))
}

// ---------------------------------------------------------------------------
// The builder's operations
// ---------------------------------------------------------------------------

impl<V> BuilderState<V> {
    /// What the synthesized zero-argument constructor returns: one slot per
    /// storage field, each defaulted per its kind.
    pub fn new(storage: &Vec<StorageField>) -> (b: BuilderState<V>)
        ensures
            b.slots@.len() == storage@.len(),
            forall|i: int|
                0 <= i < storage@.len() ==> (#[trigger] b.slots@[i]).name == storage@[i].name,
            forall|i: int|
                0 <= i < storage@.len() ==> slot_defaulted(
                    storage@[i].kind,
                    (#[trigger] b.slots@[i]).slot,
                ),
    {
        let n = storage.len();
        let mut slots: Vec<FieldSlot<V>> = Vec::new();
        let mut i: usize = 0;
        while i < n
            invariant
                0 <= i <= n,
                n == storage@.len(),
                slots@.len() == i,
                forall|k: int|
                    0 <= k < i ==> (#[trigger] slots@[k]).name == storage@[k].name,
                forall|k: int|
                    0 <= k < i ==> slot_defaulted(storage@[k].kind, (#[trigger] slots@[k]).slot),
            decreases n - i,
        {
            let sf = &storage[i];
            let slot: Slot<V> = match sf.kind {
                StorageKind::Optional => Slot::Optional(Option::None),
                StorageKind::Repeated => Slot::Repeated(Vec::new()),
                StorageKind::Scalar => Slot::Scalar(Option::None),
            };
            slots.push(FieldSlot { name: sf.name.clone(), slot });
            i += 1;
        }
        BuilderState { slots }
    }

    /// The plain setter of an optional or required-scalar field: store the
    /// supplied value as present.  Returns nothing; the generated method
    /// returns the builder itself for chaining.
    pub fn set(&mut self, i: usize, v: V)
        requires
            i < old(self).slots@.len(),
            !(old(self).slots@[i as int].slot matches Slot::Repeated(_)),
        ensures
            final(self).slots@.len() == old(self).slots@.len(),
            forall|k: int|
                0 <= k < old(self).slots@.len() && k != i ==> (#[trigger] final(self).slots@[k])
                    == old(self).slots@[k],
            final(self).slots@[i as int].name == old(self).slots@[i as int].name,
            slot_set(old(self).slots@[i as int].slot, v, final(self).slots@[i as int].slot),
    {
        let fs = &mut self.slots[i];
        match &mut fs.slot {
            Slot::Scalar(o) => {
                *o = Option::Some(v);
            },
            Slot::Optional(o) => {
                *o = Option::Some(v);
            },
            Slot::Repeated(_) => {},
        }
    }

    /// The plain setter of a repeated field: replace the stored sequence
    /// wholesale.
    pub fn set_elements(&mut self, i: usize, vs: Vec<V>)
        requires
            i < old(self).slots@.len(),
            old(self).slots@[i as int].slot matches Slot::Repeated(_),
        ensures
            final(self).slots@.len() == old(self).slots@.len(),
            forall|k: int|
                0 <= k < old(self).slots@.len() && k != i ==> (#[trigger] final(self).slots@[k])
                    == old(self).slots@[k],
            final(self).slots@[i as int].name == old(self).slots@[i as int].name,
            (final(self).slots@[i as int].slot matches Slot::Repeated(ws) && ws == vs),
    {
        let fs = &mut self.slots[i];
        match &mut fs.slot {
            Slot::Repeated(r) => {
                *r = vs;
            },
            _ => {},
        }
    }

    /// The accumulator of a repeated field: append one element to the
    /// stored sequence, keeping everything already there.
    pub fn accumulate(&mut self, i: usize, v: V)
        requires
            i < old(self).slots@.len(),
            old(self).slots@[i as int].slot matches Slot::Repeated(_),
        ensures
            final(self).slots@.len() == old(self).slots@.len(),
            forall|k: int|
                0 <= k < old(self).slots@.len() && k != i ==> (#[trigger] final(self).slots@[k])
                    == old(self).slots@[k],
            final(self).slots@[i as int].name == old(self).slots@[i as int].name,
            (old(self).slots@[i as int].slot matches Slot::Repeated(r0) && (final(self).slots@[i
                as int].slot matches Slot::Repeated(r) && r@ == r0@.push(v))),
    {
        let fs = &mut self.slots[i];
        match &mut fs.slot {
            Slot::Repeated(r) => {
                r.push(v);
            },
            _ => {},
        }
    }

    /// The finalizer.  Walks the slots in declaration order, taking each
    /// value out: an optional slot unconditionally (missing is valid and
    /// yields empty), a repeated slot wholesale with the storage reset to
    /// empty, a scalar slot only if set.  At the first unset scalar it
    /// stops with a recoverable error naming that field, leaving earlier
    /// slots already drained and later slots untouched.  On success every
    /// slot is left drained and the values come back in declaration order.
    pub fn build(&mut self) -> (r: Result<Vec<FieldValue<V>>, BuildError>)
        ensures
            final(self).slots@.len() == old(self).slots@.len(),
            forall|k: int|
                0 <= k < old(self).slots@.len() ==> (#[trigger] final(self).slots@[k]).name
                    == old(self).slots@[k].name,
            all_filled(old(self).slots@) <==> (r matches Ok(_)),
            (r matches Ok(vals) ==> vals@.len() == old(self).slots@.len() && (forall|k: int|
                0 <= k < old(self).slots@.len() ==> slot_taken(
                    (#[trigger] old(self).slots@[k]).slot,
                    vals@[k],
                )) && drained_state(old(self).slots@, final(self).slots@)),
            (r matches Err(e) ==> exists|j: int|
                #[trigger] is_first_missing(old(self).slots@, j) && (e
                    matches BuildError::MissingField { field } && field
                    == old(self).slots@[j].name) && (forall|k: int|
                    0 <= k < j ==> slot_drained(
                        old(self).slots@[k].slot,
                        (#[trigger] final(self).slots@[k]).slot,
                    )) && (forall|k: int|
                    j <= k < old(self).slots@.len() ==> (#[trigger] final(self).slots@[k])
                    == old(self).slots@[k])),
    {
        let n = self.slots.len();
        let mut vals: Vec<FieldValue<V>> = Vec::new();
        let mut i: usize = 0;
        while i < n
            invariant
                0 <= i <= n,
                n == self.slots@.len(),
                n == old(self).slots@.len(),
                vals@.len() == i,
                forall|k: int|
                    0 <= k < n ==> (#[trigger] self.slots@[k]).name == old(self).slots@[k].name,
                forall|k: int|
                    i <= k < n ==> (#[trigger] self.slots@[k]) == old(self).slots@[k],
                forall|k: int|
                    0 <= k < i ==> !slot_missing((#[trigger] old(self).slots@[k]).slot),
                forall|k: int|
                    0 <= k < i ==> slot_taken((#[trigger] old(self).slots@[k]).slot, vals@[k]),
                forall|k: int|
                    0 <= k < i ==> slot_drained(
                        old(self).slots@[k].slot,
                        (#[trigger] self.slots@[k]).slot,
                    ),
            decreases n - i,
        {
            let fs = &mut self.slots[i];
            match &mut fs.slot {
                Slot::Scalar(o) => {
                    let mut tmp: Option<V> = Option::None;
                    core::mem::swap(o, &mut tmp);
                    match tmp {
                        Option::Some(v) => {
                            vals.push(FieldValue::Scalar(v));
                        },
                        Option::None => {
                            let e = BuildError::MissingField { field: fs.name.clone() };
                            proof {
                                assert(is_first_missing(old(self).slots@, i as int));
                            }
                            return Result::Err(e);
                        },
                    }
                },
                Slot::Optional(o) => {
                    let mut tmp: Option<V> = Option::None;
                    core::mem::swap(o, &mut tmp);
                    vals.push(FieldValue::Optional(tmp));
                },
                Slot::Repeated(vs) => {
                    let mut tmp: Vec<V> = Vec::new();
                    core::mem::swap(vs, &mut tmp);
                    vals.push(FieldValue::Repeated(tmp));
                },
            }
            i += 1;
        }
        Result::Ok(vals)
    }
}

// ---------------------------------------------------------------------------
// Laws of the generated builder
// ---------------------------------------------------------------------------

/// Law: for a record with zero fields the finalizer always succeeds — an
/// empty builder state is trivially filled, so by [`BuilderState::build`]'s
/// contract the result is `Ok` with no field values: the default-shaped
/// instance.
pub proof fn lemma_empty_record_always_builds<V>(slots: Seq<FieldSlot<V>>)
    requires
        slots.len() == 0,
    ensures
        all_filled(slots),
{
}

/// Law: an unset scalar field blocks finalization — while any slot is a
/// scalar still holding nothing, the state is not filled, so the finalizer
/// returns the missing-field error rather than `Ok`.
pub proof fn lemma_unset_scalar_blocks<V>(slots: Seq<FieldSlot<V>>, j: int)
    requires
        0 <= j < slots.len(),
        (slots[j].slot matches Slot::Scalar(o) && o matches Option::None),
    ensures
        !all_filled(slots),
{
    assert(slot_missing(slots[j].slot));
}

/// Law: the position of the first missing slot is unique, so the
/// missing-field error of [`BuilderState::build`] names exactly the first
/// unset scalar field in declaration order.
pub proof fn lemma_first_missing_unique<V>(slots: Seq<FieldSlot<V>>, j1: int, j2: int)
    requires
        is_first_missing(slots, j1),
        is_first_missing(slots, j2),
    ensures
        j1 == j2,
{
    if j1 < j2 {
        assert(!slot_missing(slots[j1].slot));
    }
    if j2 < j1 {
        assert(!slot_missing(slots[j2].slot));
    }
}

/// Law: a slot the setter has just filled is never missing; with every
/// scalar field set, the state is filled and the finalizer succeeds.
pub proof fn lemma_set_fills<V>(before: Slot<V>, v: V, after: Slot<V>)
    requires
        slot_set(before, v, after),
    ensures
        !slot_missing(after),
{
}

/// Law: a scalar value round-trips through the finalizer unchanged — what
/// the finalizer takes out of a set scalar slot is exactly the value the
/// setter stored.
pub proof fn lemma_scalar_round_trips<V>(v: V, fv: FieldValue<V>)
    requires
        slot_taken(Slot::Scalar(Option::Some(v)), fv),
    ensures
        (fv matches FieldValue::Scalar(w) && w == v),
{
}

/// Law: an optional field never decides success — replacing an optional
/// slot's content by anything leaves the state exactly as filled as it
/// was, so the finalizer succeeds whether or not the setter was invoked.
pub proof fn lemma_optional_never_blocks<V>(slots: Seq<FieldSlot<V>>, j: int, o: Option<V>)
    requires
        0 <= j < slots.len(),
        slots[j].slot matches Slot::Optional(_),
    ensures
        all_filled(slots) <==> all_filled(
            slots.update(j, FieldSlot { name: slots[j].name, slot: Slot::Optional(o) }),
        ),
{
    let updated = slots.update(j, FieldSlot { name: slots[j].name, slot: Slot::Optional(o) });
    assert forall|k: int| 0 <= k < slots.len() implies (slot_missing(
        (#[trigger] slots[k]).slot,
    ) == slot_missing(updated[k].slot)) by {
        if k != j {
            assert(updated[k] == slots[k]);
        }
    }
    assert(all_filled(slots) ==> all_filled(updated));
    assert(all_filled(updated) ==> all_filled(slots));
}

/// Law: an optional value round-trips through the finalizer — a set
/// optional slot yields its stored value unchanged, an untouched one
/// yields empty.
pub proof fn lemma_optional_round_trips<V>(o: Option<V>, fv: FieldValue<V>)
    requires
        slot_taken(Slot::Optional(o), fv),
    ensures
        (fv matches FieldValue::Optional(p) && p == o),
{
}

/// Law: a repeated field's stored sequence round-trips through the
/// finalizer in order — finalizing after the wholesale setter stored
/// `vs` yields exactly `vs`.
pub proof fn lemma_repeated_round_trips<V>(vs: Vec<V>, fv: FieldValue<V>)
    requires
        slot_taken(Slot::Repeated(vs), fv),
    ensures
        (fv matches FieldValue::Repeated(ws) && ws@ == vs@),
{
}

/// Law: accumulating `a`, `b`, `c` one at a time into an initially empty
/// repeated slot leaves exactly the sequence the wholesale setter would
/// have stored for `[a, b, c]` — by [`BuilderState::accumulate`]'s
/// contract each call appends one element to what is already there.
pub proof fn lemma_accumulation_matches_wholesale<V>(a: V, b: V, c: V)
    ensures
        Seq::<V>::empty().push(a).push(b).push(c) =~= seq![a, b, c],
{
}

/// Law: a wholesale setter call followed by accumulator calls yields the
/// setter's sequence followed by the appended elements, in order.
pub proof fn lemma_setter_then_accumulator<V>(vs: Seq<V>, x: V)
    ensures
        vs.push(x) =~= vs + seq![x],
{
}

/// Law (idempotence of finalization): a successful finalization leaves
/// every slot drained, so a second finalization without intervening calls
/// yields the empty sequence for a repeated field and the empty value for
/// an optional field, and fails with missing-field as soon as the record
/// has any scalar field — that field's value was already taken.
pub proof fn lemma_second_finalize<V>(
    before: Seq<FieldSlot<V>>,
    after: Seq<FieldSlot<V>>,
    j: int,
)
    requires
        drained_state(before, after),
        0 <= j < before.len(),
    ensures
        (before[j].slot matches Slot::Scalar(_) ==> slot_missing(after[j].slot) && !all_filled(
            after,
        )),
        (before[j].slot matches Slot::Repeated(_) ==> (after[j].slot matches Slot::Repeated(vs)
            && vs@.len() == 0)),
        (before[j].slot matches Slot::Optional(_) ==> (after[j].slot matches Slot::Optional(o) && o
            matches Option::None)),
{
    assert(slot_drained(before[j].slot, after[j].slot));
}

} // verus!
