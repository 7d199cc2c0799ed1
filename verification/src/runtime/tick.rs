//! The end of a simulation tick: which primitive types changed, and so which
//! render proxies are published into.

use crate::component::primitive::{ETransformChangeType, Spawnable};
use vstd::prelude::*;

verus! {

/// An item that remembers which parts of its transform changed since it was
/// last cleared.
#[derive(Debug, Clone, Copy, PartialEq, Eq, Structural)]
pub struct ChangeRecord {
    pub position: bool,
    pub rotation: bool,
    pub scale: bool,
}

impl Default for ChangeRecord {
    fn default() -> (record: Self)
        ensures
            record == (ChangeRecord { position: false, rotation: false, scale: false }),
    {
        ChangeRecord { position: false, rotation: false, scale: false }
    }
}

impl Spawnable for ChangeRecord {
    open spec fn notified(&self, transform_type: ETransformChangeType, after: &Self) -> bool {
        *after == self.with_change(transform_type)
    }

    fn on_transform_changed(&mut self, transform_type: ETransformChangeType) {
        match transform_type {
            ETransformChangeType::Position => {
                self.position = true;
            },
            ETransformChangeType::Rotation => {
                self.rotation = true;
            },
            ETransformChangeType::Scale => {
                self.scale = true;
            },
            ETransformChangeType::All => {
                self.position = true;
                self.rotation = true;
                self.scale = true;
            },
        }
    }
}

impl ChangeRecord {
    /// The record with a change of the given kind added to it.
    pub open spec fn with_change(&self, transform_type: ETransformChangeType) -> ChangeRecord {
        match transform_type {
            ETransformChangeType::Position => ChangeRecord { position: true, ..*self },
            ETransformChangeType::Rotation => ChangeRecord { rotation: true, ..*self },
            ETransformChangeType::Scale => ChangeRecord { scale: true, ..*self },
            ETransformChangeType::All => ChangeRecord {
                position: true,
                rotation: true,
                scale: true,
            },
        }
    }

    /// Whether any part of the transform changed.
    pub open spec fn spec_changed(&self) -> bool {
        self.position || self.rotation || self.scale
    }

    #[verifier::when_used_as_spec(spec_changed)]
    pub fn changed(&self) -> (changed: bool)
        ensures
            changed == self.spec_changed(),
    {
        self.position || self.rotation || self.scale
    }

    /// Forgets every change.
    pub fn clear(&mut self)
        ensures
            *final(self) == (ChangeRecord { position: false, rotation: false, scale: false }),
    {
        self.position = false;
        self.rotation = false;
        self.scale = false;
    }
}

/// The primitive types that are marked in a list of marks, in rising order.
pub open spec fn changed_types(marks: Seq<bool>) -> Seq<usize>
    decreases marks.len(),
{
    if marks.len() == 0 {
        Seq::empty()
    } else if marks.last() {
        changed_types(marks.drop_last()).push((marks.len() - 1) as usize)
    } else {
        changed_types(marks.drop_last())
    }
}

/// The marks after the primitive type was marked. A type that the list does
/// not know leaves it as it is.
pub open spec fn marked(marks: Seq<bool>, primitive_type: usize) -> Seq<bool> {
    if primitive_type < marks.len() {
        marks.update(primitive_type as int, true)
    } else {
        marks
    }
}

/// The marks after each primitive type of a sequence of mutations was marked.
pub open spec fn marked_all(marks: Seq<bool>, mutations: Seq<usize>) -> Seq<bool>
    decreases mutations.len(),
{
    if mutations.len() == 0 {
        marks
    } else {
        marked(marked_all(marks, mutations.drop_last()), mutations.last())
    }
}

/// Marks for the given number of primitive types, none of them marked.
pub open spec fn unmarked(primitive_types: nat) -> Seq<bool> {
    Seq::new(primitive_types, |i: int| false)
}

/// The ledger of the simulation ticks: the number of the tick at hand, and
/// which of the registered primitive types had a transform mutated since it
/// began.
pub struct TickLedger {
    tick: u64,
    marks: Vec<bool>,
}

impl TickLedger {
    /// The number of the tick at hand, counted from zero.
    pub closed spec fn tick(&self) -> u64 {
        self.tick
    }

    /// One mark for each registered primitive type.
    pub closed spec fn marks(&self) -> Seq<bool> {
        self.marks@
    }

    /// A ledger for the given number of primitive types, at the start of the
    /// first tick.
    pub fn new(primitive_types: usize) -> (ledger: Self)
        ensures
            ledger.tick() == 0,
            ledger.marks() == unmarked(primitive_types as nat),
    {
        let mut marks: Vec<bool> = Vec::new();
        let mut i: usize = 0;
        while i < primitive_types
            invariant
                i <= primitive_types,
                marks@ == unmarked(i as nat),
            decreases primitive_types - i,
        {
            marks.push(false);
            assert(marks@ =~= unmarked((i + 1) as nat));
            i += 1;
        }
        TickLedger { tick: 0, marks }
    }

    #[verifier::when_used_as_spec(tick)]
    pub fn current_tick(&self) -> (tick: u64)
        ensures
            tick == self.tick(),
    {
        self.tick
    }

    /// The number of registered primitive types.
    pub fn primitive_types(&self) -> (count: usize)
        ensures
            count == self.marks().len(),
    {
        self.marks.len()
    }

    /// Takes note that a transform of the primitive type was mutated.
    /// Returns whether the type is a registered one.
    pub fn mark_changed(&mut self, primitive_type: usize) -> (known: bool)
        ensures
            known == (primitive_type < old(self).marks().len()),
            final(self).tick() == old(self).tick(),
            final(self).marks() == marked(old(self).marks(), primitive_type),
    {
        if primitive_type < self.marks.len() {
            self.marks.set(primitive_type, true);
            true
        } else {
            false
        }
    }

    /// Takes over what an item of the primitive type has recorded: where
    /// its transform changed, the type is marked; the record is cleared
    /// either way.
    pub fn take_changes(&mut self, primitive_type: usize, record: &mut ChangeRecord)
        ensures
            *final(record) == (ChangeRecord { position: false, rotation: false, scale: false }),
            final(self).tick() == old(self).tick(),
            final(self).marks() == if old(record).spec_changed() {
                marked(old(self).marks(), primitive_type)
            } else {
                old(self).marks()
            },
    {
        if record.changed() {
            let _ = self.mark_changed(primitive_type);
        }
        record.clear();
    }

    /// Ends the tick. Returns the primitive types to publish render data
    /// for, which are those that changed in the tick, each once and in
    /// rising order, and starts the next tick with nothing marked.
    pub fn end_tick(&mut self) -> (publish: Vec<usize>)
        requires
            old(self).tick() < u64::MAX,
        ensures
            publish@ == changed_types(old(self).marks()),
            final(self).tick() == old(self).tick() + 1,
            final(self).marks() == unmarked(old(self).marks().len()),
    {
        let mut publish: Vec<usize> = Vec::new();
        let ghost before = self.marks@;
        let mut i: usize = 0;
        while i < self.marks.len()
            invariant
                i <= self.marks@.len(),
                self.tick() == old(self).tick(),
                self.marks@.len() == before.len(),
                forall|j: int| 0 <= j < i ==> !self.marks@[j],
                forall|j: int| i <= j < before.len() ==> self.marks@[j] == before[j],
                publish@ == changed_types(before.take(i as int)),
            decreases self.marks.len() - i,
        {
            assert(before.take(i + 1).drop_last() =~= before.take(i as int));
            if self.marks[i] {
                publish.push(i);
                self.marks.set(i, false);
            }
            i += 1;
        }
        assert(before.take(before.len() as int) =~= before);
        assert(self.marks@ =~= unmarked(before.len()));
        self.tick = self.tick + 1;
        publish
    }
}

/// The marked primitive types are listed in rising order, and the list holds
/// a type exactly when its mark is set.
proof fn lemma_changed_types_are_the_marked(marks: Seq<bool>)
    requires
        marks.len() <= usize::MAX,
    ensures
        forall|i: int, j: int|
            0 <= i < j < changed_types(marks).len() ==> changed_types(marks)[i] < changed_types(
                marks,
            )[j],
        forall|t: usize|
            #![trigger changed_types(marks).contains(t)]
            #![trigger marks[t as int]]
            changed_types(marks).contains(t) <==> (t < marks.len() && marks[t as int]),
    decreases marks.len(),
{
    if marks.len() > 0 {
        let shorter = marks.drop_last();
        let last = (marks.len() - 1) as usize;
        lemma_changed_types_are_the_marked(shorter);
        let earlier = changed_types(shorter);
        let listed = changed_types(marks);
        assert(listed == if marks.last() {
            earlier.push(last)
        } else {
            earlier
        });
        assert forall|k: int| 0 <= k < earlier.len() implies earlier[k] < last by {
            let t = earlier[k];
            assert(earlier.contains(t));
            assert(t < shorter.len());
        }
        assert forall|t: usize| listed.contains(t) <==> (t < marks.len() && marks[t as int]) by {
            if listed.contains(t) {
                let k = choose|k: int| 0 <= k < listed.len() && listed[k] == t;
                if k < earlier.len() {
                    assert(earlier[k] == t);
                    assert(earlier.contains(t));
                    assert(shorter[t as int] == marks[t as int]);
                }
            }
            if t < marks.len() && marks[t as int] {
                if t == last {
                    assert(listed[earlier.len() as int] == t);
                } else {
                    assert(shorter[t as int] == marks[t as int]);
                    assert(earlier.contains(t));
                    let k = choose|k: int| 0 <= k < earlier.len() && earlier[k] == t;
                    assert(listed[k] == t);
                }
            }
        }
    }
}

/// After a sequence of mutations a mark is set exactly when it was set
/// before or a mutation touched its primitive type.
proof fn lemma_marks_follow_the_mutations(marks: Seq<bool>, mutations: Seq<usize>)
    ensures
        marked_all(marks, mutations).len() == marks.len(),
        forall|t: usize|
            #![trigger marked_all(marks, mutations)[t as int]]
            #![trigger mutations.contains(t)]
            t < marks.len() ==> marked_all(marks, mutations)[t as int] == (marks[t as int]
                || mutations.contains(t)),
    decreases mutations.len(),
{
    if mutations.len() > 0 {
        let earlier = mutations.drop_last();
        lemma_marks_follow_the_mutations(marks, earlier);
        assert forall|t: usize| t < marks.len() implies marked_all(marks, mutations)[t as int] == (
        marks[t as int] || mutations.contains(t)) by {
            if earlier.contains(t) {
                let k = choose|k: int| 0 <= k < earlier.len() && earlier[k] == t;
                assert(mutations[k] == t);
            }
            if mutations.contains(t) && mutations.last() != t {
                let k = choose|k: int| 0 <= k < mutations.len() && mutations[k] == t;
                assert(earlier[k] == t);
            }
            if mutations.last() == t {
                assert(mutations[mutations.len() - 1] == t);
            }
        }
    }
}

/// Whatever transforms are mutated within one tick, however often and in
/// whatever order, the tick ends with exactly one publication for each
/// registered primitive type that a mutation touched, and with none for any
/// other: no publication is missed and none is made twice.
pub proof fn lemma_one_publish_per_changed_type(primitive_types: usize, mutations: Seq<usize>)
    ensures
        ({
            let publish = changed_types(marked_all(unmarked(primitive_types as nat), mutations));
            &&& publish.no_duplicates()
            &&& forall|t: usize|
                #![trigger publish.contains(t)]
                #![trigger mutations.contains(t)]
                publish.contains(t) <==> (t < primitive_types && mutations.contains(t))
        }),
{
    let clean = unmarked(primitive_types as nat);
    let marks = marked_all(clean, mutations);
    lemma_marks_follow_the_mutations(clean, mutations);
    lemma_changed_types_are_the_marked(marks);
    let publish = changed_types(marks);
    assert forall|t: usize| publish.contains(t) <==> (t < primitive_types && mutations.contains(
        t,
    )) by {
        if t < primitive_types {
            assert(marks[t as int] == (clean[t as int] || mutations.contains(t)));
        }
    }
}

} // verus!
