//! Mathematical model of one barrier: a handle count plus the single wake
//! registration, and the transition each operation performs on it.

use vstd::prelude::*;

verus! {

/// Model of one barrier's shared state: how many handles are outstanding
/// and which wake callback (by caller-chosen identifier) is registered.
/// The shared state is alive exactly while `handles > 0`.
pub struct SlotModel {
    pub handles: nat,
    pub waker: Option<u64>,
}

/// The shared state still exists: at least one handle is outstanding.
pub open spec fn slot_live(s: SlotModel) -> bool {
    s.handles > 0
}

/// A waiter's check resolves once the shared state is gone.
pub open spec fn poll_ready(s: SlotModel) -> bool {
    !slot_live(s)
}

/// A barrier as created: one handle outstanding, no wake registered.
pub open spec fn fresh_slot() -> SlotModel {
    SlotModel { handles: 1, waker: None }
}

/// Cloning a handle: one more release now gates completion.
pub open spec fn clone_step(s: SlotModel) -> SlotModel {
    SlotModel { handles: s.handles + 1, waker: s.waker }
}

/// Releasing a handle: the count drops by one. When the last handle goes,
/// the shared state is destroyed and the wake slot is emptied (its
/// registration, if any, is taken to be fired; see `release_signal`).
pub open spec fn release_step(s: SlotModel) -> SlotModel {
    SlotModel {
        handles: (s.handles - 1) as nat,
        waker: if s.handles == 1 { None } else { s.waker },
    }
}

/// The wake that this release must fire: the registered callback when this
/// release is the last one, and none otherwise.
pub open spec fn release_signal(s: SlotModel) -> Option<u64> {
    if s.handles == 1 {
        s.waker
    } else {
        None
    }
}

/// A waiter's check: while the shared state is alive it registers the
/// current wake callback, overwriting any earlier registration
/// (single slot, last registrant wins); once dead it changes nothing.
pub open spec fn poll_step(s: SlotModel, w: u64) -> SlotModel {
    if slot_live(s) {
        SlotModel { handles: s.handles, waker: Some(w) }
    } else {
        s
    }
}

} // verus!
