//! A minimal deadline-callback scheduler core.
//!
//! A `Baby` is a unit of delayed behaviour: it cries (its action should run)
//! once the scheduler's elapsed tick count reaches its deadline, on every
//! tick thereafter until a reset, or — for the budgeted variant — until its
//! remaining cry budget runs out.
//!
//! A `Cradle` (in `scheduler`) is the scheduler's state machine: it owns the
//! babies, the elapsed tick count and the coarse phase, and decides for
//! every control signal and every tick which babies cry, whether the loop
//! goes on and whether it exits. The machine is pure: the timer thread, the
//! control channel and the babies' side-effecting actions live in the
//! embedding application, which consults the machine for every decision.
//!
//! `model` gives the machine's mathematical model — one step function over
//! a ghost state and an event — and `laws` proves the scheduler's
//! guarantees over whole event traces: nothing cries before start or after
//! stop, a reset suppresses deadline cries until elapsed climbs back, a
//! force-fire reaches every baby exactly once, and a cry budget is never
//! exceeded.

pub mod baby;
pub mod laws;
pub mod model;
pub mod scheduler;
