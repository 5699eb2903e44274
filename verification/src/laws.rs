//! The laws of the barrier, proved over the model in `state`: completion
//! happens after, and only after, every handle is released; it fires exactly
//! one wake; a waiter that once read `Ready` reads `Ready` forever; and
//! distinct barriers never affect one another.

use crate::state::{
    clone_step, fresh_slot, poll_ready, poll_step, release_signal, release_step, SlotModel,
};
use vstd::prelude::*;

verus! {

/// `n` successive handle clones applied to one barrier.
pub open spec fn clones(s: SlotModel, n: nat) -> SlotModel
    decreases n,
{
    if n == 0 {
        s
    } else {
        clone_step(clones(s, (n - 1) as nat))
    }
}

/// `k` successive handle releases applied to one barrier.
pub open spec fn releases(s: SlotModel, k: nat) -> SlotModel
    decreases k,
{
    if k == 0 {
        s
    } else {
        release_step(releases(s, (k - 1) as nat))
    }
}

/// How many of the first `k` releases fire a wake.
pub open spec fn signals_fired(s: SlotModel, k: nat) -> nat
    decreases k,
{
    if k == 0 {
        0
    } else {
        signals_fired(s, (k - 1) as nat) + if release_signal(
            releases(s, (k - 1) as nat),
        ) is Some {
            1nat
        } else {
            0nat
        }
    }
}

/// `m` repeated checks by a waiter registering `w`.
pub open spec fn polls(s: SlotModel, w: u64, m: nat) -> SlotModel
    decreases m,
{
    if m == 0 {
        s
    } else {
        poll_step(polls(s, w, (m - 1) as nat), w)
    }
}

/// Cloning only counts: `n` clones raise the handle count by `n` and leave
/// the wake registration alone.
pub proof fn lemma_clones_shape(s: SlotModel, n: nat)
    ensures
        clones(s, n).handles == s.handles + n,
        clones(s, n).waker == s.waker,
    decreases n,
{
    if n > 0 {
        lemma_clones_shape(s, (n - 1) as nat);
    }
}

/// Releasing only counts down: `k` releases lower the handle count by `k`,
/// and keep the wake registration while the barrier is still incomplete.
pub proof fn lemma_releases_shape(s: SlotModel, k: nat)
    requires
        k <= s.handles,
    ensures
        releases(s, k).handles == s.handles - k,
        k < s.handles ==> releases(s, k).waker == s.waker,
    decreases k,
{
    if k > 0 {
        lemma_releases_shape(s, (k - 1) as nat);
    }
}

/// A barrier created with one handle and cloned `n` times resolves after,
/// and only after, all `n + 1` handles are released: a waiter's check reads
/// `Ready` exactly when no release is outstanding, whatever order the
/// releases came in (the model only counts them).
pub proof fn lemma_resolves_iff_all_released(n: nat, k: nat)
    requires
        k <= n + 1,
    ensures
        poll_ready(releases(clones(fresh_slot(), n), k)) <==> k == n + 1,
{
    lemma_clones_shape(fresh_slot(), n);
    lemma_releases_shape(clones(fresh_slot(), n), k);
}

/// Of the releases of one barrier, only the last can fire a wake, and it
/// fires the registered one exactly when one is registered.
pub proof fn lemma_signals_count(s: SlotModel, k: nat)
    requires
        k <= s.handles,
    ensures
        k == s.handles && s.handles > 0 && s.waker is Some ==> signals_fired(s, k) == 1,
        k < s.handles || s.waker is None ==> signals_fired(s, k) == 0,
    decreases k,
{
    if k > 0 {
        lemma_signals_count(s, (k - 1) as nat);
        lemma_releases_shape(s, (k - 1) as nat);
    }
}

/// A waiter that registered its wake callback `w` before any of the
/// `n + 1` outstanding handles was released is woken exactly once: one wake
/// fires over the whole run of releases, it is `w`, and it fires on the
/// very last release.
pub proof fn lemma_exactly_one_wake(n: nat, w: u64)
    ensures
        signals_fired(poll_step(clones(fresh_slot(), n), w), n + 1) == 1,
        release_signal(releases(poll_step(clones(fresh_slot(), n), w), n)) == Some(w),
{
    lemma_clones_shape(fresh_slot(), n);
    let s = poll_step(clones(fresh_slot(), n), w);
    lemma_signals_count(s, n + 1);
    lemma_releases_shape(s, n);
}

/// Converting the sole handle of a fresh barrier into a waiter completes
/// the barrier at once — the waiter's very first check reads `Ready` — and
/// fires no wake, since none was registered yet.
pub proof fn lemma_sole_handle_ready()
    ensures
        poll_ready(release_step(fresh_slot())),
        release_signal(fresh_slot()) == None::<u64>,
{
}

/// `Ready` is terminal: once a barrier has completed, any number of further
/// checks leave its slot exactly as it is and every one of them reads
/// `Ready` again.
pub proof fn lemma_ready_is_terminal(s: SlotModel, w: u64, m: nat)
    requires
        poll_ready(s),
    ensures
        polls(s, w, m) == s,
        poll_ready(polls(s, w, m)),
    decreases m,
{
    if m > 0 {
        lemma_ready_is_terminal(s, w, (m - 1) as nat);
    }
}

/// Registering a second wake callback overwrites the first: the wake slot
/// holds one registration and the last registrant wins.
pub proof fn lemma_last_registration_wins(s: SlotModel, w1: u64, w2: u64)
    ensures
        poll_step(poll_step(s, w1), w2) == poll_step(s, w2),
{
}

/// Barriers are isolated: every operation rewrites the one slot of the
/// barrier it acts on (each operation's contract says `update` at that
/// index, or `push`), and any other barrier's slot reads back unchanged.
pub proof fn lemma_barriers_isolated(r: Seq<SlotModel>, i: int, s: SlotModel, j: int)
    requires
        0 <= i < r.len(),
        0 <= j < r.len(),
        i != j,
    ensures
        r.update(i, s)[j] == r[j],
{
}

} // verus!
