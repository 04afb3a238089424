use crate::task::PileInfo;
use std::collections::HashMap;
use vstd::prelude::*;

verus! {

/// The abstract state of a registry: the next id to hand out, and the handle
/// of each live pile by id.
pub ghost struct RegistryView<H> {
    pub counter: nat,
    pub piles: Map<u32, H>,
}

impl<H> RegistryView<H> {
    /// Every registered id was handed out before: it lies below the counter.
    pub open spec fn wf(self) -> bool {
        &&& self.counter <= u32::MAX
        &&& forall|id: u32| #[trigger] self.piles.contains_key(id) ==> id < self.counter
    }

    /// The registry after a creation: the counter moves on whether or not
    /// the unit started, and a started unit is registered under the id.
    pub open spec fn created(self, started: Option<H>) -> RegistryView<H> {
        RegistryView {
            counter: self.counter + 1,
            piles: match started {
                Some(h) => self.piles.insert(self.counter as u32, h),
                None => self.piles,
            },
        }
    }

    /// The registry after `id` is deleted; nothing changes for an unknown id.
    pub open spec fn deleted(self, id: u32) -> RegistryView<H> {
        RegistryView { counter: self.counter, piles: self.piles.remove(id) }
    }

    /// What a lookup of `id` finds.
    pub open spec fn lookup(self, id: u32) -> Option<H> {
        if self.piles.contains_key(id) {
            Some(self.piles[id])
        } else {
            None
        }
    }
}

/// One operation that changes a registry: a creation, with the handle of
/// the unit if it started, or a deletion of an id.
pub ghost enum RegistryStep<H> {
    Create(Option<H>),
    Delete(u32),
}

impl<H> RegistryView<H> {
    /// The registry after one step.
    pub open spec fn step(self, s: RegistryStep<H>) -> RegistryView<H> {
        match s {
            RegistryStep::Create(started) => self.created(started),
            RegistryStep::Delete(id) => self.deleted(id),
        }
    }

    /// The registry after each of `steps`, in order.
    pub open spec fn run(self, steps: Seq<RegistryStep<H>>) -> RegistryView<H>
        decreases steps.len(),
    {
        if steps.len() == 0 {
            self
        } else {
            self.step(steps.first()).run(steps.drop_first())
        }
    }

    /// The ids that the creations among `steps` assign, in order.
    pub open spec fn assigned_ids(self, steps: Seq<RegistryStep<H>>) -> Seq<nat>
        decreases steps.len(),
    {
        if steps.len() == 0 {
            Seq::empty()
        } else {
            let rest = self.step(steps.first()).assigned_ids(steps.drop_first());
            match steps.first() {
                RegistryStep::Create(_) => seq![self.counter] + rest,
                RegistryStep::Delete(_) => rest,
            }
        }
    }
}

/// Over any run of creations and deletions, deleting the newest pile
/// included, the ids assigned grow strictly: none is below the counter the
/// run started from, none is at or above the counter it ends with, and none
/// repeats.
pub proof fn lemma_ids_strictly_increase<H>(v: RegistryView<H>, steps: Seq<RegistryStep<H>>)
    ensures
        forall|i: int, j: int|
            0 <= i < j < v.assigned_ids(steps).len() ==> #[trigger] v.assigned_ids(steps)[i]
                < #[trigger] v.assigned_ids(steps)[j],
        forall|i: int|
            0 <= i < v.assigned_ids(steps).len() ==> v.counter <= #[trigger] v.assigned_ids(
                steps,
            )[i] < v.run(steps).counter,
        v.counter <= v.run(steps).counter,
    decreases steps.len(),
{
    if steps.len() > 0 {
        let next = v.step(steps.first());
        let rest = steps.drop_first();
        lemma_ids_strictly_increase(next, rest);
        let ids = v.assigned_ids(steps);
        let tail = next.assigned_ids(rest);
        match steps.first() {
            RegistryStep::Create(_) => {
                assert(ids == seq![v.counter] + tail);
                assert forall|i: int, j: int| 0 <= i < j < ids.len() implies #[trigger] ids[i]
                    < #[trigger] ids[j] by {
                    assert(ids[j] == tail[j - 1]);
                    if i > 0 {
                        assert(ids[i] == tail[i - 1]);
                    }
                }
                assert forall|i: int| 0 <= i < ids.len() implies v.counter <= #[trigger] ids[i]
                    < v.run(steps).counter by {
                    if i > 0 {
                        assert(ids[i] == tail[i - 1]);
                    }
                }
            },
            RegistryStep::Delete(_) => {
                assert(ids == tail);
            },
        }
    }
}

/// A lookup finds nothing for an id that was never assigned, nor for one
/// that was just deleted.
pub proof fn lemma_lookup_absent<H>(v: RegistryView<H>, id: u32)
    requires
        v.wf(),
    ensures
        id >= v.counter ==> v.lookup(id).is_none(),
        v.deleted(id).lookup(id).is_none(),
{
}

/// A unit that was asked for could not be started.
#[derive(Debug, PartialEq, Eq)]
pub struct PileStartError;

/// The directory of piles: it assigns ids, which only ever grow, and keeps
/// the handle `H` of each live pile unit.
#[derive(Debug)]
pub struct PileRegistry<H> {
    counter: u32,
    piles: HashMap<u32, H>,
}

impl<H> View for PileRegistry<H> {
    type V = RegistryView<H>;

    closed spec fn view(&self) -> RegistryView<H> {
        RegistryView { counter: self.counter as nat, piles: self.piles@ }
    }
}

impl<H: Copy> PileRegistry<H> {
    /// A registry with no piles, whose first id is 0.
    pub fn new() -> (r: PileRegistry<H>)
        ensures
            r@.counter == 0,
            r@.piles == Map::<u32, H>::empty(),
            r@.wf(),
    {
        PileRegistry { counter: 0, piles: HashMap::new() }
    }

    /// The id that the next creation will assign.
    pub fn next_id(&self) -> (r: u32)
        ensures
            r == self@.counter,
    {
        self.counter
    }

    /// Assigns the next id, builds the descriptor and hands it to `start`,
    /// which starts the pile unit and returns its handle. A started unit is
    /// registered under the new id, and the descriptor and handle are
    /// returned; if `start` fails, so does the creation. The counter moves
    /// on in both cases, so a failed start leaves a gap in the ids.
    pub fn create_pile<F>(
        &mut self,
        name: String,
        description: String,
        is_stack: bool,
        start: F,
    ) -> (r: Result<(PileInfo, H), PileStartError>) where F: FnOnce(PileInfo) -> Result<H, PileStartError>
        requires
            old(self)@.wf(),
            old(self)@.counter < u32::MAX,
            forall|info: PileInfo| #[trigger] start.requires((info,)),
        ensures
            final(self)@.wf(),
            ({
                let info = PileInfo { id: old(self)@.counter as u32, name, description, is_stack };
                match r {
                    Ok((i, h)) => {
                        &&& i == info
                        &&& start.ensures((info,), Ok(h))
                        &&& final(self)@ == old(self)@.created(Some(h))
                    },
                    Err(e) => {
                        &&& start.ensures((info,), Err(e))
                        &&& final(self)@ == old(self)@.created(None)
                    },
                }
            }),
            !old(self)@.piles.contains_key(old(self)@.counter as u32),
    {
        let id = self.counter;
        self.counter = self.counter + 1;
        let info = PileInfo { id, name, description, is_stack };
        let started = start(info.clone());
        match started {
            Ok(handle) => {
                self.piles.insert(id, handle);
                assert forall|k: u32| #[trigger] self@.piles.contains_key(k) implies k < self@.counter by {
                    if k != id {
                        assert(old(self)@.piles.contains_key(k));
                    }
                }
                Ok((info, handle))
            },
            Err(e) => Err(e),
        }
    }

    /// The handle of the pile with this id, if it is live.
    pub fn get_pile(&self, pile_id: u32) -> (r: Option<H>)
        ensures
            r == self@.lookup(pile_id),
    {
        match self.piles.get(&pile_id) {
            Some(handle) => Some(*handle),
            None => None,
        }
    }

    /// Removes the pile with this id and returns its handle, so that the
    /// caller terminates the unit at once; an unknown id changes nothing.
    pub fn delete_pile(&mut self, pile_id: u32) -> (r: Option<H>)
        requires
            old(self)@.wf(),
        ensures
            final(self)@.wf(),
            r == old(self)@.lookup(pile_id),
            final(self)@ == old(self)@.deleted(pile_id),
    {
        self.piles.remove(&pile_id)
    }
}

} // verus!
