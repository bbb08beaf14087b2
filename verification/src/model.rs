//! The scheduler's mathematical model.
//!
//! The scheduler is a state machine over a ghost state (`Model`): a coarse
//! phase, the elapsed tick count, and the sequence of babies. One event
//! (`Event`) is consumed per step of the timer loop: a control signal pulled
//! from the channel, a tick (the no-signal branch: evaluate every baby, then
//! sleep and advance elapsed), or the failure of a baby's action, which
//! aborts the loop. `step_state` gives the next state, `step_fires` the
//! indices of the babies whose actions run at that step in registration
//! order, and `step_exits` whether the loop terminates. `run_state` folds a
//! whole trace; the laws in `laws` are proved over it.

use vstd::prelude::*;

use crate::baby::Baby;

verus! {

/// A control signal sent to the scheduler from any owning thread.
#[derive(Clone, Copy, Debug, PartialEq, Eq, Structural)]
pub enum Signal {
    /// Begin ticking. Only the first Start matters; later ones are ignored.
    Start,
    /// Set elapsed back to 0.
    Reset,
    /// Invoke every baby's action immediately, without advancing elapsed.
    Cry,
    /// Terminate the timer loop.
    Stop,
}

/// The scheduler's coarse lifecycle phase.
#[derive(Clone, Copy, Debug, PartialEq, Eq, Structural)]
pub enum Phase {
    /// Constructed; the loop is blocked waiting for the first signal.
    NotStarted,
    /// Start has been received; the loop ticks once per second.
    Running,
    /// The loop has terminated (Stop, a non-Start first signal, or a failed
    /// action); nothing fires any more.
    Stopped,
}

/// One step's worth of input to the timer loop.
pub enum Event {
    /// A pending control signal was received.
    Sig(Signal),
    /// No signal was pending: evaluate every baby at the current elapsed
    /// count, then sleep one tick and advance elapsed.
    Tick,
    /// A baby's action returned an error; the loop aborts.
    Fail,
}

/// The scheduler's ghost state.
pub struct Model {
    pub phase: Phase,
    pub elapsed: nat,
    pub babies: Seq<Baby>,
}

/// Elapsed after one tick: it advances by one, saturating at the machine
/// limit so the counter never wraps.
pub open spec fn tick_elapsed(elapsed: nat) -> nat {
    if elapsed < usize::MAX {
        elapsed + 1
    } else {
        elapsed
    }
}

/// The babies after one tick at the given elapsed count: each baby that
/// cries has a unit of budget consumed; the rest are unchanged.
pub open spec fn babies_after_tick(babies: Seq<Baby>, elapsed: nat) -> Seq<Baby> {
    Seq::new(
        babies.len(),
        |i: int| if babies[i].spec_cries(elapsed) {
            babies[i].spec_after_cry()
        } else {
            babies[i]
        },
    )
}

/// The indices, in registration order, of the babies that cry on a tick at
/// the given elapsed count.
pub open spec fn fire_indices(babies: Seq<Baby>, elapsed: nat) -> Seq<int>
    decreases babies.len(),
{
    if babies.len() == 0 {
        Seq::empty()
    } else {
        fire_indices(babies.drop_last(), elapsed) + if babies.last().spec_cries(elapsed) {
            seq![babies.len() - 1]
        } else {
            Seq::empty()
        }
    }
}

/// Every index below `n`, in order: a force-fire reaches every baby.
pub open spec fn all_indices(n: nat) -> Seq<int> {
    Seq::new(n, |i: int| i)
}

/// The state after consuming one event.
pub open spec fn step_state(m: Model, e: Event) -> Model {
    match m.phase {
        Phase::NotStarted => match e {
            // Only a first Start enters the running phase; any other first
            // signal makes the loop terminate without ever ticking.
            Event::Sig(Signal::Start) => Model { phase: Phase::Running, ..m },
            Event::Sig(_) => Model { phase: Phase::Stopped, ..m },
            _ => m,
        },
        Phase::Running => match e {
            Event::Sig(Signal::Start) => m,
            Event::Sig(Signal::Reset) => Model { elapsed: 0, ..m },
            Event::Sig(Signal::Cry) => m,
            Event::Sig(Signal::Stop) => Model { phase: Phase::Stopped, ..m },
            Event::Tick => Model {
                phase: m.phase,
                elapsed: tick_elapsed(m.elapsed),
                babies: babies_after_tick(m.babies, m.elapsed),
            },
            Event::Fail => Model { phase: Phase::Stopped, ..m },
        },
        Phase::Stopped => m,
    }
}

/// The babies whose actions run at this step, in registration order.
/// Nothing ever fires outside the running phase; a force-fire reaches every
/// baby unconditionally; a tick reaches exactly the babies that cry at the
/// current elapsed count.
pub open spec fn step_fires(m: Model, e: Event) -> Seq<int> {
    if m.phase is Running {
        match e {
            Event::Sig(Signal::Cry) => all_indices(m.babies.len()),
            Event::Tick => fire_indices(m.babies, m.elapsed),
            _ => Seq::empty(),
        }
    } else {
        Seq::empty()
    }
}

/// Whether the timer loop terminates at this step.
pub open spec fn step_exits(m: Model, e: Event) -> bool {
    match m.phase {
        Phase::NotStarted => match e {
            Event::Sig(Signal::Start) => false,
            Event::Sig(_) => true,
            _ => false,
        },
        Phase::Running => match e {
            Event::Sig(Signal::Stop) => true,
            Event::Fail => true,
            _ => false,
        },
        Phase::Stopped => true,
    }
}

/// The state after consuming a whole trace of events, oldest first.
pub open spec fn run_state(m: Model, es: Seq<Event>) -> Model
    decreases es.len(),
{
    if es.len() == 0 {
        m
    } else {
        run_state(step_state(m, es.first()), es.drop_first())
    }
}

/// How many times the baby at index `i` cries on the ticks of a trace.
/// Force-fires are out-of-band invocations and are not counted: they bypass
/// the baby's own decision and consume no budget.
pub open spec fn tick_cry_count(m: Model, es: Seq<Event>, i: int) -> nat
    decreases es.len(),
{
    if es.len() == 0 {
        0
    } else {
        let here: nat = if m.phase is Running && es.first() is Tick && 0 <= i < m.babies.len()
            && m.babies[i].spec_cries(m.elapsed) {
            1
        } else {
            0
        };
        here + tick_cry_count(step_state(m, es.first()), es.drop_first(), i)
    }
}

} // verus!
