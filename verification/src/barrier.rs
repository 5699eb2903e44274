//! The executable barrier: a slot-table registry, handle and waiter tokens,
//! and the operations that drive one barrier through its lifecycle.

use crate::state::{
    clone_step, fresh_slot, poll_ready, poll_step, release_signal, release_step, slot_live,
    SlotModel,
};
use vstd::prelude::*;

verus! {

/// One barrier's shared state as stored: outstanding-handle count and the
/// single wake registration.
struct Slot {
    handles: u64,
    waker: Option<u64>,
}

impl View for Slot {
    type V = SlotModel;

    closed spec fn view(&self) -> SlotModel {
        SlotModel { handles: self.handles as nat, waker: self.waker }
    }
}

/// The slot table holding every barrier created through it. A completed
/// barrier's slot stays in the table with a count of zero, so a waiter can
/// still observe that the barrier is gone without keeping it alive.
pub struct Registry {
    slots: Vec<Slot>,
}

impl View for Registry {
    type V = Seq<SlotModel>;

    closed spec fn view(&self) -> Seq<SlotModel> {
        self.slots@.map_values(|s: Slot| s@)
    }
}

impl Registry {
    /// An empty slot table: no barrier exists yet.
    pub fn new() -> (r: Registry)
        ensures
            r@ == Seq::<SlotModel>::empty(),
    {
        let r = Registry { slots: Vec::new() };
        proof {
            assert(r@ =~= Seq::<SlotModel>::empty());
        }
        r
    }
}

/// A participant handle: one unit of outstanding work on the barrier whose
/// slot it names. Creating the barrier issues the first handle; cloning
/// issues more; each must eventually be released (or turned into a waiter),
/// and the barrier completes on the last release.
pub struct AwaitGroup {
    slot: usize,
}

/// The waiter: a non-owning observer of one barrier's slot. It never keeps
/// the barrier alive; dropping it has no effect on the slot at all.
pub struct AwaitGroupFuture {
    slot: usize,
}

/// What a waiter's check found: the barrier still has outstanding handles,
/// or it has completed.
pub enum PollState {
    Pending,
    Ready,
}

impl AwaitGroup {
    /// The index of the slot this handle belongs to.
    pub closed spec fn index(&self) -> int {
        self.slot as int
    }

    /// A live handle: its slot exists and still counts at least one
    /// outstanding handle. Every handle the library issues is live until
    /// released, so this is what holding a handle means in contracts.
    pub open spec fn valid(&self, r: Seq<SlotModel>) -> bool {
        &&& 0 <= self.index() < r.len()
        &&& slot_live(r[self.index()])
    }

    /// Create a new barrier: appends a fresh slot with one outstanding
    /// handle and no wake registration, and returns that first handle.
    /// Every other slot is untouched.
    pub fn new(reg: &mut Registry) -> (h: AwaitGroup)
        ensures
            final(reg)@ == old(reg)@.push(fresh_slot()),
            h.index() == old(reg)@.len(),
            h.valid(final(reg)@),
    {
        let idx = reg.slots.len();
        reg.slots.push(Slot { handles: 1, waker: None });
        let h = AwaitGroup { slot: idx };
        proof {
            assert(reg@ =~= old(reg)@.push(fresh_slot()));
        }
        h
    }

    /// Clone this handle: one more release now gates the barrier's
    /// completion. The new handle names the same barrier; every other slot
    /// is untouched.
    pub fn clone_handle(&self, reg: &mut Registry) -> (h: AwaitGroup)
        requires
            self.valid(old(reg)@),
            old(reg)@[self.index()].handles < u64::MAX,
        ensures
            final(reg)@ == old(reg)@.update(self.index(), clone_step(old(reg)@[self.index()])),
            h.index() == self.index(),
            h.valid(final(reg)@),
            self.valid(final(reg)@),
    {
        let n = reg.slots[self.slot].handles;
        let w = reg.slots[self.slot].waker;
        reg.slots.set(self.slot, Slot { handles: n + 1, waker: w });
        proof {
            assert(reg@ =~= old(reg)@.update(self.index(), clone_step(old(reg)@[self.index()])));
        }
        AwaitGroup { slot: self.slot }
    }

    /// Release this handle. The count drops by one; when this was the last
    /// outstanding handle the barrier completes, the wake slot is emptied,
    /// and the registered wake callback, if any, is returned to be fired —
    /// exactly the one time the count reaches zero. Every other slot is
    /// untouched.
    pub fn release(self, reg: &mut Registry) -> (w: Option<u64>)
        requires
            self.valid(old(reg)@),
        ensures
            final(reg)@ == old(reg)@.update(self.index(), release_step(old(reg)@[self.index()])),
            w == release_signal(old(reg)@[self.index()]),
    {
        let n = reg.slots[self.slot].handles;
        let wk = reg.slots[self.slot].waker;
        if n == 1 {
            reg.slots.set(self.slot, Slot { handles: 0, waker: None });
            proof {
                assert(reg@ =~= old(reg)@.update(
                    self.index(),
                    release_step(old(reg)@[self.index()]),
                ));
            }
            wk
        } else {
            reg.slots.set(self.slot, Slot { handles: n - 1, waker: wk });
            proof {
                assert(reg@ =~= old(reg)@.update(
                    self.index(),
                    release_step(old(reg)@[self.index()]),
                ));
            }
            None
        }
    }

    /// Consume this handle and return a waiter on the same barrier. The
    /// handle's ownership contribution is released exactly as by
    /// `release`, so consuming the last handle completes the barrier at
    /// once and returns the wake to fire, and the waiter's very first
    /// check will read `Ready`.
    pub fn into_waiter(self, reg: &mut Registry) -> (r: (AwaitGroupFuture, Option<u64>))
        requires
            self.valid(old(reg)@),
        ensures
            final(reg)@ == old(reg)@.update(self.index(), release_step(old(reg)@[self.index()])),
            r.1 == release_signal(old(reg)@[self.index()]),
            r.0.index() == self.index(),
    {
        let idx = self.slot;
        let w = self.release(reg);
        (AwaitGroupFuture { slot: idx }, w)
    }

    /// Whether this handle is still live in the registry. True for every
    /// handle the library issued that has not been released; lets an
    /// unverified caller check `valid` before releasing or cloning.
    pub fn is_live(&self, reg: &Registry) -> (b: bool)
        ensures
            b == self.valid(reg@),
    {
        self.slot < reg.slots.len() && reg.slots[self.slot].handles > 0
    }

    /// Whether this handle is live and its barrier can count one more
    /// handle: exactly the precondition of `clone_handle`.
    pub fn can_clone(&self, reg: &Registry) -> (b: bool)
        ensures
            b == (self.valid(reg@) && reg@[self.index()].handles < u64::MAX),
    {
        self.slot < reg.slots.len() && reg.slots[self.slot].handles > 0
            && reg.slots[self.slot].handles < u64::MAX
    }
}

impl AwaitGroupFuture {
    /// The index of the slot this waiter observes.
    pub closed spec fn index(&self) -> int {
        self.slot as int
    }

    /// The waiter names a slot of the registry. Unlike a handle's
    /// `valid`, this keeps holding after the barrier completes: a waiter
    /// observes the slot without keeping it alive.
    pub open spec fn in_range(&self, r: Seq<SlotModel>) -> bool {
        0 <= self.index() < r.len()
    }

    /// Exec check of `in_range`, for unverified callers.
    pub fn in_registry(&self, reg: &Registry) -> (b: bool)
        ensures
            b == self.in_range(reg@),
    {
        self.slot < reg.slots.len()
    }

    /// One check of the barrier. While handles are outstanding it
    /// registers `waker` as the wake callback — overwriting any earlier
    /// registration — and reports `Pending`; once the last handle is gone
    /// it reports `Ready` and changes nothing, so `Ready` is terminal and
    /// re-checking is idempotent. Every other slot is untouched.
    pub fn poll(&self, reg: &mut Registry, waker: u64) -> (r: PollState)
        requires
            self.in_range(old(reg)@),
        ensures
            final(reg)@ == old(reg)@.update(self.index(), poll_step(old(reg)@[self.index()], waker)),
            (r is Ready) == poll_ready(old(reg)@[self.index()]),
            (r is Pending) == !poll_ready(old(reg)@[self.index()]),
    {
        let n = reg.slots[self.slot].handles;
        if n == 0 {
            proof {
                assert(reg@ =~= old(reg)@.update(
                    self.index(),
                    poll_step(old(reg)@[self.index()], waker),
                ));
            }
            PollState::Ready
        } else {
            reg.slots.set(self.slot, Slot { handles: n, waker: Some(waker) });
            proof {
                assert(reg@ =~= old(reg)@.update(
                    self.index(),
                    poll_step(old(reg)@[self.index()], waker),
                ));
            }
            PollState::Pending
        }
    }
}

} // verus!
