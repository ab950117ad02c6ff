//! Exclusive access to the payload behind a shared `Arc`, severing weak
//! observers when they are the only obstacle.
//!
//! The one public operation, [`get_mut_drop_weak`], inspects the handle's
//! counters and acts on one of three states:
//!
//! * strong count 1, weak count 0: the caller already has exclusive access;
//!   a mutable reference into the existing cell is returned directly.
//! * strong count above 1: exclusivity is impossible; the caller's own handle
//!   reference is handed back as the failure value.
//! * strong count 1, weak count above 0: the payload is moved into a freshly
//!   allocated cell, so every weak handle created against the old cell is
//!   permanently severed, and a mutable reference into the new cell is
//!   returned. The move is arbitrated by an atomic take-if-sole-owner step,
//!   so a weak handle promoted concurrently turns this into an ordinary
//!   failure instead of a torn state.
//!
//! The failure value carries the caller's `&mut Arc<T>` back out. A caller
//! that only holds a mutable reference to the handle could otherwise not
//! re-borrow it after a failed call, because the returned borrow's lifetime
//! covers both outcomes.
//!
//! The module [`model`] states the counter state machine behind the
//! algorithm abstractly and proves its central invariants.

use vstd::prelude::*;

pub mod model;

verus! {

use std::sync::Arc;

/// Relies on `Arc::try_unwrap`: when the strong count is exactly 1 at the
/// atomic instant of the call, the payload is moved out and returned, and the
/// cell is left without an owner, so no weak handle can promote afterwards;
/// otherwise the same handle is handed back untouched. The payload's teardown
/// logic runs in neither case.
#[verifier::external_body]
fn arc_try_unwrap<T>(arc: Arc<T>) -> (r: Result<T, Arc<T>>)
    ensures
        match r {
            Ok(value) => value == arc,
            Err(original) => original == arc,
        },
{
    Arc::try_unwrap(arc)
}

/// Relies on `Arc::strong_count`: it returns the number of owning handles of
/// the cell, and the handle passed in is itself one of them, so the count is
/// at least 1. Under concurrency the count may change at any moment after the
/// read; nothing more is assumed of it.
#[verifier::external_body]
fn arc_strong_count<T>(arc: &Arc<T>) -> (n: usize)
    ensures
        n >= 1,
{
    Arc::strong_count(arc)
}

/// Relies on `Arc::get_mut`: it returns a mutable reference into the cell
/// exactly when the strong count is 1 and the weak count is 0 at the atomic
/// instant of the call. In that state the argument is the only handle of any
/// kind to the cell, so no other thread can touch its counters, and an
/// immediately repeated call succeeds again; the inner `unwrap` therefore
/// never panics. The double call stands in for the single-call shape that the
/// borrow checker rejects when one branch returns the borrow and the other
/// keeps using the handle.
#[verifier::external_body]
fn exclusive_or_back<T>(arc: &mut Arc<T>) -> (r: Result<&mut T, &mut Arc<T>>)
    ensures
        match r {
            Ok(payload) => *payload == *old(arc) && *final(arc) == *final(payload),
            Err(handle) => *handle == *old(arc) && *final(arc) == *final(handle),
        },
{
    if Arc::get_mut(arc).is_some() {
        Ok(Arc::get_mut(arc).unwrap())
    } else {
        Err(arc)
    }
}

/// One relocation attempt, by value: try to take the payload out of the cell
/// as its sole owner and move it into a freshly allocated cell.
///
/// On success the result is `true` together with a new handle that is the
/// only reference of any kind to the new cell; every weak handle of the old
/// cell is severed for good. On failure — the take-if-sole-owner step found
/// another owner, because a weak handle was promoted concurrently — the
/// result is `false` with the original handle, untouched. Either way the
/// payload value is preserved and its teardown logic does not run.
///
/// Allocation of the new cell is the only step that can fail, and such a
/// failure is fatal: the allocator aborts the process before any
/// caller-visible state exists to tear.
pub fn relocate_payload<T>(arc: Arc<T>) -> (r: (bool, Arc<T>))
    ensures
        r.1 == arc,
{
    match arc_try_unwrap(arc) {
        Ok(value) => (true, Arc::new(value)),
        Err(original) => (false, original),
    }
}

/// Runs [`relocate_payload`] on the handle stored behind `arc`, in place.
///
/// Relies on `replace_with::replace_with_or_abort_and_return`: it moves the
/// value out of `*arc`, applies the given function, stores the handle half of
/// the returned pair back into `*arc`, and returns the other half; if the
/// function were to unwind it would abort the process, so no torn slot is
/// ever observable. The function applied is the verified
/// [`relocate_payload`], whose contract gives the payload preservation stated
/// here.
#[verifier::external_body]
fn relocate_in_slot<T>(arc: &mut Arc<T>) -> (relocated: bool)
    ensures
        *final(arc) == *old(arc),
{
    replace_with::replace_with_or_abort_and_return(arc, relocate_payload)
}

/// Attempt to obtain a mutable reference to the payload behind `arc`.
///
/// With a strong count of 1 and a weak count of 0 the reference points into
/// the existing cell. With a strong count above 1 the call fails and hands
/// the caller's own `&mut Arc<T>` back as the error value. With a strong
/// count of 1 and a weak count above 0 the payload is moved into a fresh
/// cell, `*arc` is overwritten with the handle to it, every pre-existing
/// weak handle is permanently severed, and the reference points into the new
/// cell. A promotion racing with the move surfaces as the same failure as an
/// observed strong count above 1; the call never retries.
///
/// In every outcome the payload value read through the handle is unchanged,
/// and the failure value aliases `arc`, so writes through it land in the
/// caller's variable.
pub fn get_mut_drop_weak<T>(arc: &mut Arc<T>) -> (r: Result<&mut T, &mut Arc<T>>)
    ensures
        match r {
            Ok(payload) => *payload == *old(arc) && *final(arc) == *final(payload),
            Err(handle) => *handle == *old(arc) && *final(arc) == *final(handle),
        },
{
    let slot = match exclusive_or_back(arc) {
        Ok(payload) => {
            return Ok(payload);
        }
        Err(handle) => handle,
    };
    if arc_strong_count(slot) > 1 {
        return Err(slot);
    }
    // The strong count was observed at 1 and the cell is not exclusive, so
    // weak observers are present: relocate. The take-if-sole-owner step
    // inside arbitrates against a promotion that happened since the
    // observation.
    if relocate_in_slot(slot) {
        // The slot now holds the only handle of any kind to the fresh cell.
        exclusive_or_back(slot)
    } else {
        Err(slot)
    }
}

} // verus!
