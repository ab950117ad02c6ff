//! An abstract model of one shared cell's counter state machine.
//!
//! The runtime the library builds on keeps, for every cell, a strong and a
//! weak counter, moved by the handle operations; the extraction algorithm
//! adds one more move, the atomic take-if-sole-owner step that
//! [`crate::relocate_payload`] performs through `Arc::try_unwrap`. This
//! module states those moves over a mathematical state and proves the
//! invariants the algorithm's safety story rests on: a cell that lost its
//! owner never regains one, so severed weak handles can never promote again,
//! and the payload's teardown runs exactly once over the cell's whole life —
//! never while the payload is relocated away, and exactly when the last
//! owner leaves otherwise.

use vstd::prelude::*;

verus! {

/// The state of one cell: its two counters, whether the payload currently
/// lives in the cell, and how many times the payload's teardown logic has
/// run in this cell.
pub struct CellState {
    pub strong: nat,
    pub weak: nat,
    pub present: bool,
    pub torn_down: nat,
}

/// The moves the runtime and the extraction algorithm make against one cell.
pub enum CellEvent {
    /// A new owner handle is made from an existing one.
    CloneOwner,
    /// A new weak handle is made from an owner handle.
    Downgrade,
    /// A weak handle is promoted to an owner handle; this move exists only
    /// while an owner remains.
    PromoteWeak,
    /// An owner handle is dropped; the last one tears the payload down.
    DropOwner,
    /// A weak handle is dropped.
    DropWeak,
    /// The take-if-sole-owner step: the payload is moved out without running
    /// its teardown, and the cell is left without an owner.
    TakeSole,
}

/// The state of a freshly allocated cell holding a payload: one owner, no
/// weak observers. This is the state of the cell that a successful
/// relocation produces.
pub open spec fn fresh_cell() -> CellState {
    CellState { strong: 1, weak: 0, present: true, torn_down: 0 }
}

/// When a move can happen. Every move but dropping a weak handle needs an
/// owner to exist: making or promoting a handle goes through a live handle,
/// and the take-if-sole-owner step is the atomic arbiter that fires only
/// when the strong count is exactly 1.
pub open spec fn enabled(s: CellState, e: CellEvent) -> bool {
    match e {
        CellEvent::CloneOwner => s.strong >= 1,
        CellEvent::Downgrade => s.strong >= 1,
        CellEvent::PromoteWeak => s.weak >= 1 && s.strong >= 1,
        CellEvent::DropOwner => s.strong >= 1,
        CellEvent::DropWeak => s.weak >= 1,
        CellEvent::TakeSole => s.strong == 1,
    }
}

/// The effect of a move on the cell's state.
pub open spec fn step(s: CellState, e: CellEvent) -> CellState {
    match e {
        CellEvent::CloneOwner => CellState { strong: s.strong + 1, ..s },
        CellEvent::Downgrade => CellState { weak: s.weak + 1, ..s },
        CellEvent::PromoteWeak => CellState { strong: s.strong + 1, ..s },
        CellEvent::DropOwner => if s.strong == 1 {
            CellState { strong: 0, present: false, torn_down: s.torn_down + 1, ..s }
        } else {
            CellState { strong: (s.strong - 1) as nat, ..s }
        },
        CellEvent::DropWeak => CellState { weak: (s.weak - 1) as nat, ..s },
        CellEvent::TakeSole => CellState { strong: 0, present: false, ..s },
    }
}

/// The cell invariant: the payload lives in the cell exactly while an owner
/// exists, teardown has run at most once, and once it has run no owner is
/// left.
pub open spec fn inv(s: CellState) -> bool {
    &&& (s.present <==> s.strong >= 1)
    &&& s.torn_down <= 1
    &&& (s.torn_down == 1 ==> s.strong == 0)
}

/// Running a whole sequence of moves from a state.
pub open spec fn run(s: CellState, trace: Seq<CellEvent>) -> CellState
    decreases trace.len(),
{
    if trace.len() == 0 {
        s
    } else {
        run(step(s, trace[0]), trace.subrange(1, trace.len() as int))
    }
}

/// Every move of the sequence is enabled at its point.
pub open spec fn all_enabled(s: CellState, trace: Seq<CellEvent>) -> bool
    decreases trace.len(),
{
    trace.len() == 0 || (enabled(s, trace[0]) && all_enabled(
        step(s, trace[0]),
        trace.subrange(1, trace.len() as int),
    ))
}

/// Every enabled move preserves the cell invariant.
pub proof fn lemma_step_preserves_inv(s: CellState, e: CellEvent)
    requires
        inv(s),
        enabled(s, e),
    ensures
        inv(step(s, e)),
{
}

/// The cell invariant holds along every enabled sequence of moves.
pub proof fn lemma_run_preserves_inv(s: CellState, trace: Seq<CellEvent>)
    requires
        inv(s),
        all_enabled(s, trace),
    ensures
        inv(run(s, trace)),
    decreases trace.len(),
{
    if trace.len() > 0 {
        lemma_step_preserves_inv(s, trace[0]);
        lemma_run_preserves_inv(step(s, trace[0]), trace.subrange(1, trace.len() as int));
    }
}

/// Severance is permanent: once a cell has no owner — after a successful
/// take-if-sole-owner step, or after the last owner was dropped — no
/// sequence of enabled moves brings an owner back, the payload does not
/// reappear, and the teardown count never changes again. Only weak handles
/// can still be dropped.
pub proof fn lemma_severed_stays_severed(s: CellState, trace: Seq<CellEvent>)
    requires
        s.strong == 0,
        all_enabled(s, trace),
    ensures
        run(s, trace).strong == 0,
        run(s, trace).present == s.present,
        run(s, trace).torn_down == s.torn_down,
    decreases trace.len(),
{
    if trace.len() > 0 {
        lemma_severed_stays_severed(step(s, trace[0]), trace.subrange(1, trace.len() as int));
    }
}

/// No weak handle of a severed cell ever promotes again: after the cell lost
/// its owner, promotion is not enabled at any later point, whatever the
/// other threads do with their weak handles.
pub proof fn lemma_no_promotion_after_severance(s: CellState, trace: Seq<CellEvent>)
    requires
        s.strong == 0,
        all_enabled(s, trace),
    ensures
        !enabled(run(s, trace), CellEvent::PromoteWeak),
{
    lemma_severed_stays_severed(s, trace);
}

/// The payload's teardown runs at most once in a cell, whatever enabled
/// moves happen.
pub proof fn lemma_teardown_at_most_once(s: CellState, trace: Seq<CellEvent>)
    requires
        inv(s),
        all_enabled(s, trace),
    ensures
        run(s, trace).torn_down <= 1,
{
    lemma_run_preserves_inv(s, trace);
}

/// A cell whose payload was relocated away never runs the payload's
/// teardown: in any enabled sequence of moves that contains the
/// take-if-sole-owner step, teardown has not run when that step fires — the
/// step needs a sole owner, and teardown ends all ownership — and it never
/// runs afterwards, because the cell is severed.
pub proof fn lemma_relocated_cell_never_tears_down(s: CellState, trace: Seq<CellEvent>)
    requires
        inv(s),
        all_enabled(s, trace),
        trace.contains(CellEvent::TakeSole),
    ensures
        run(s, trace).torn_down == 0,
    decreases trace.len(),
{
    let rest = trace.subrange(1, trace.len() as int);
    if trace[0] == CellEvent::TakeSole {
        // Enabled means s.strong == 1, and the invariant then gives
        // s.torn_down == 0; the step leaves the cell severed.
        lemma_severed_stays_severed(step(s, trace[0]), rest);
    } else {
        let i = choose|i: int| 0 <= i < trace.len() && trace[i] == CellEvent::TakeSole;
        assert(rest[i - 1] == CellEvent::TakeSole);
        assert(rest.contains(CellEvent::TakeSole));
        lemma_step_preserves_inv(s, trace[0]);
        lemma_relocated_cell_never_tears_down(step(s, trace[0]), rest);
    }
}

/// Teardown happens exactly once for a cell that keeps its payload: along
/// any enabled sequence of moves from a state with owners, no teardown yet,
/// and no take-if-sole-owner step, reaching the ownerless state means the
/// teardown ran exactly one time — when the last owner was dropped.
pub proof fn lemma_teardown_exactly_once(s: CellState, trace: Seq<CellEvent>)
    requires
        s.strong >= 1,
        s.torn_down == 0,
        all_enabled(s, trace),
        !trace.contains(CellEvent::TakeSole),
        run(s, trace).strong == 0,
    ensures
        run(s, trace).torn_down == 1,
    decreases trace.len(),
{
    let rest = trace.subrange(1, trace.len() as int);
    let next = step(s, trace[0]);
    if next.strong == 0 {
        // Only the drop of the last owner reaches this state here, and it
        // tears the payload down; the severed cell then keeps the count.
        lemma_severed_stays_severed(next, rest);
    } else {
        assert(!rest.contains(CellEvent::TakeSole)) by {
            if rest.contains(CellEvent::TakeSole) {
                let i = choose|i: int| 0 <= i < rest.len() && rest[i] == CellEvent::TakeSole;
                assert(trace[i + 1] == CellEvent::TakeSole);
            }
        }
        lemma_teardown_exactly_once(next, rest);
    }
}

} // verus!
