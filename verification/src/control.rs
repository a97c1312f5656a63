//! The control task: one evaluation on every tick of its timer and on every
//! new setpoint, whichever comes first.
//!
//! The task waits on two sources at once. The timer is looked at first, so
//! a tick that is due wins; the setpoint cell is not touched then, and what
//! it holds stays pending for the next round. A setpoint is therefore taken
//! up by the first round in which no tick is due, and never lost.

use crate::cell::{BroadcastCell, CellView, Payload, Reader};
use vstd::prelude::*;

verus! {

/// The period of the control timer, in milliseconds.
pub const CONTROL_PERIOD_MS: u64 = 1000;

/// A desired control target: the depth, as the bits of a 32-bit IEEE 754
/// number. The task hands it on and never computes with it.
#[derive(Clone, Copy, Debug, PartialEq, Eq, Structural)]
pub struct Setpoint {
    pub depth_bits: u32,
}

impl Payload for Setpoint {
    open spec fn pack_spec(&self) -> u32 {
        self.depth_bits
    }

    open spec fn unpack_spec(word: u32) -> Self {
        Setpoint { depth_bits: word }
    }

    fn pack(&self) -> (word: u32) {
        self.depth_bits
    }

    fn unpack(word: u32) -> (value: Self) {
        Setpoint { depth_bits: word }
    }

    proof fn lemma_unpack_pack(value: Self) {
    }
}

/// What woke the task.
#[derive(Clone, Copy, Debug, PartialEq, Eq, Structural)]
pub enum ControlEvent {
    /// The timer fired.
    Tick,
    /// A new setpoint arrived.
    Update(Setpoint),
}

/// One evaluation of the control law: what caused it and the target that it
/// works towards, if any was ever given.
#[derive(Clone, Copy, Debug, PartialEq, Eq, Structural)]
pub struct Evaluation {
    pub cause: ControlEvent,
    pub target: Option<Setpoint>,
}

/// The state of the control task: the setpoint received last.
#[derive(Clone, Copy, Debug, PartialEq, Eq, Structural)]
pub struct Controller {
    pub target: Option<Setpoint>,
}

/// The target after an event: a new setpoint replaces it, a tick keeps it.
pub open spec fn target_after(target: Option<Setpoint>, event: ControlEvent) -> Option<Setpoint> {
    match event {
        ControlEvent::Tick => target,
        ControlEvent::Update(setpoint) => Some(setpoint),
    }
}

impl Controller {
    /// A controller that has no target yet.
    pub fn new() -> (controller: Self)
        ensures
            controller.target is None,
    {
        Controller { target: None }
    }

    /// Handles one event with one evaluation. A new setpoint becomes the
    /// target before the evaluation; a tick evaluates against the target
    /// that stands.
    pub fn handle(&mut self, event: ControlEvent) -> (evaluation: Evaluation)
        ensures
            final(self).target == target_after(old(self).target, event),
            evaluation == (Evaluation { cause: event, target: final(self).target }),
    {
        match event {
            ControlEvent::Tick => {},
            ControlEvent::Update(setpoint) => {
                self.target = Some(setpoint);
            },
        }
        Evaluation { cause: event, target: self.target }
    }
}

/// What one round of waiting yields, for a reader at `seen`: the tick if it
/// is due; else the setpoint if one was published since `seen`; else
/// nothing, and the task stays suspended.
pub open spec fn select_spec(tick_due: bool, cell: CellView<Setpoint>, seen: nat) -> Option<
    ControlEvent,
> {
    if tick_due {
        Some(ControlEvent::Tick)
    } else {
        match cell.changed(seen) {
            Some(setpoint) => Some(ControlEvent::Update(setpoint)),
            None => None,
        }
    }
}

/// The reader's cursor after one round: a tick leaves it alone.
pub open spec fn cursor_after_select(tick_due: bool, cell: CellView<Setpoint>, seen: nat) -> nat {
    if tick_due {
        seen
    } else {
        cell.cursor_after(seen)
    }
}

/// The reader's cursor after a run of rounds on a cell to which nothing
/// more is published meanwhile; `ticks` says for each round whether the
/// tick was due.
pub open spec fn cursor_after_rounds(ticks: Seq<bool>, cell: CellView<Setpoint>, seen: nat) -> nat
    decreases ticks.len(),
{
    if ticks.len() == 0 {
        seen
    } else {
        cursor_after_select(ticks.last(), cell, cursor_after_rounds(ticks.drop_last(), cell, seen))
    }
}

/// One round of the task, without suspending: looks at the timer first and
/// at the setpoint cell only if no tick is due.
pub fn select(tick_due: bool, cell: &BroadcastCell<Setpoint>, reader: &mut Reader) -> (event:
    Option<ControlEvent>)
    ensures
        event == select_spec(tick_due, cell@, old(reader).seen()),
        final(reader).seen() == cursor_after_select(tick_due, cell@, old(reader).seen()),
{
    if tick_due {
        Some(ControlEvent::Tick)
    } else {
        match cell.poll_change(reader) {
            Some(setpoint) => Some(ControlEvent::Update(setpoint)),
            None => None,
        }
    }
}

/// A published setpoint is never dropped. While a setpoint is pending, a
/// round in which the tick is due leaves it pending, and a round in which
/// no tick is due hands over the latest setpoint. Over any run of rounds,
/// the setpoint has been handed over as soon as one round found no tick
/// due, and is still pending otherwise.
pub proof fn lemma_setpoint_never_dropped(ticks: Seq<bool>, cell: CellView<Setpoint>, seen: nat)
    requires
        cell.wf(),
        seen < cell.version,
    ensures
        select_spec(true, cell, seen) == Some(ControlEvent::Tick),
        cursor_after_select(true, cell, seen) == seen,
        cell.value is Some,
        select_spec(false, cell, seen) == Some(ControlEvent::Update(cell.value->0)),
        cursor_after_select(false, cell, seen) == cell.version,
        (exists|i: int| 0 <= i < ticks.len() && !ticks[i]) ==> cursor_after_rounds(
            ticks,
            cell,
            seen,
        ) == cell.version,
        (forall|i: int| 0 <= i < ticks.len() ==> ticks[i]) ==> cursor_after_rounds(
            ticks,
            cell,
            seen,
        ) == seen,
    decreases ticks.len(),
{
    if ticks.len() > 0 {
        let front = ticks.drop_last();
        lemma_setpoint_never_dropped(front, cell, seen);
        if exists|i: int| 0 <= i < front.len() && !front[i] {
            let i = choose|i: int| 0 <= i < front.len() && !front[i];
            assert(!ticks[i]);
        } else {
            assert(forall|i: int| 0 <= i < front.len() ==> front[i]);
            if !ticks.last() {
                assert(!ticks[ticks.len() - 1]);
            } else {
                assert forall|i: int| 0 <= i < ticks.len() implies ticks[i] by {
                    if i < front.len() {
                        assert(front[i]);
                    }
                }
            }
        }
    }
}

} // verus!
