//! The cradle: the scheduler's executable state machine.
//!
//! The cradle owns the babies, the elapsed tick count and the coarse phase.
//! It is the decision core of the timer loop: the embedding application
//! delivers each received control signal to `signal`, calls `tick` for the
//! no-signal branch, and reports a failed action through `fail`; the
//! returned `Directive` and fire lists tell it what to do. Every operation
//! is proved to agree with the one-step model in `model`, so the trace laws
//! in `laws` hold of any loop driven this way.

use vstd::prelude::*;

use crate::baby::Baby;
use crate::model::Event;
use crate::model::Model;
use crate::model::Phase;
use crate::model::Signal;
use crate::model::all_indices;
use crate::model::babies_after_tick;
use crate::model::fire_indices;
use crate::model::step_exits;
use crate::model::step_fires;
use crate::model::step_state;

verus! {

/// What the timer loop must do after delivering a signal.
#[derive(Debug)]
pub enum Directive {
    /// Keep looping: poll for the next signal without ticking.
    Proceed,
    /// Invoke these babies' actions now, in order, then keep looping.
    Fire(Vec<usize>),
    /// Terminate the loop.
    Exit,
}

/// A cradle that holds babies.
pub struct Cradle {
    /// Lifecycle phase; nothing fires outside `Running`.
    pub phase: Phase,
    /// Ticks since Start or since the last Reset.
    pub elapsed: usize,
    /// The babies, in registration order; that order is the fire order
    /// within a tick.
    pub babies: Vec<Baby>,
}

impl Cradle {
    /// The cradle's ghost state, the subject of the model's step function.
    pub open spec fn model(self) -> Model {
        Model { phase: self.phase, elapsed: self.elapsed as nat, babies: self.babies@ }
    }

    /// Instantiates a new cradle: not yet started, no elapsed time, no
    /// babies.
    pub fn new() -> (c: Cradle)
        ensures
            c.phase is NotStarted,
            c.elapsed == 0,
            c.babies@ == Seq::<Baby>::empty(),
    {
        Cradle { phase: Phase::NotStarted, elapsed: 0, babies: Vec::new() }
    }

    /// Pushes a baby into the cradle. Registration is allowed both before
    /// and after Start; the new baby joins the end of the fire order.
    pub fn put_baby(&mut self, baby: Baby)
        ensures
            final(self).phase == old(self).phase,
            final(self).elapsed == old(self).elapsed,
            final(self).babies@ == old(self).babies@.push(baby),
    {
        self.babies.push(baby);
    }

    /// Whether the cradle is in its running phase: started and neither
    /// stopped nor aborted.
    pub fn is_running(&self) -> (r: bool)
        ensures
            r == (self.phase is Running),
    {
        match self.phase {
            Phase::Running => true,
            _ => false,
        }
    }

    /// Delivers one control signal and decides what the loop does next.
    ///
    /// The first Start enters the running phase; any other first signal
    /// terminates the loop without a single tick. While running, Reset sets
    /// elapsed back to 0, Cry demands an immediate out-of-band invocation of
    /// every baby — exactly once each, in registration order, with neither
    /// elapsed nor any baby's state changed — Stop terminates the loop, and
    /// a repeated Start is ignored.
    pub fn signal(&mut self, s: Signal) -> (d: Directive)
        ensures
            final(self).model() == step_state(old(self).model(), Event::Sig(s)),
            (d is Exit) == step_exits(old(self).model(), Event::Sig(s)),
            (d is Fire) == (old(self).phase is Running && s is Cry),
            (d matches Directive::Fire(v) ==> v@.map_values(|u: usize| u as int)
                == step_fires(old(self).model(), Event::Sig(s))),
    {
        match self.phase {
            Phase::NotStarted => match s {
                Signal::Start => {
                    self.phase = Phase::Running;
                    Directive::Proceed
                },
                _ => {
                    self.phase = Phase::Stopped;
                    Directive::Exit
                },
            },
            Phase::Running => match s {
                Signal::Start => Directive::Proceed,
                Signal::Reset => {
                    self.elapsed = 0;
                    Directive::Proceed
                },
                Signal::Cry => {
                    let mut fires: Vec<usize> = Vec::new();
                    let mut i: usize = 0;
                    let n: usize = self.babies.len();
                    while i < n
                        invariant
                            i <= n,
                            fires@.len() == i,
                            forall|j: int| 0 <= j < i ==> fires@[j] == j,
                        decreases n - i,
                    {
                        fires.push(i);
                        i = i + 1;
                    }
                    proof {
                        assert(fires@.map_values(|u: usize| u as int)
                            =~= all_indices(self.babies@.len()));
                    }
                    Directive::Fire(fires)
                },
                Signal::Stop => {
                    self.phase = Phase::Stopped;
                    Directive::Exit
                },
            },
            Phase::Stopped => Directive::Exit,
        }
    }

    /// One tick of the timer loop's default branch: every baby that cries
    /// at the current elapsed count is reported, in registration order, with
    /// its budget consumed; then elapsed advances by one (saturating at the
    /// machine limit).
    pub fn tick(&mut self) -> (fires: Vec<usize>)
        requires
            old(self).phase is Running,
        ensures
            final(self).model() == step_state(old(self).model(), Event::Tick),
            fires@.map_values(|u: usize| u as int) == step_fires(old(self).model(), Event::Tick),
    {
        let ghost e = self.elapsed as nat;
        let ghost orig = self.babies@;
        let mut fires: Vec<usize> = Vec::new();
        let mut i: usize = 0;
        let n: usize = self.babies.len();
        while i < n
            invariant
                i <= n,
                n == orig.len(),
                self.babies@.len() == orig.len(),
                self.phase is Running,
                self.elapsed as nat == e,
                forall|j: int| i <= j < orig.len() ==> self.babies@[j] == orig[j],
                forall|j: int| 0 <= j < i ==> self.babies@[j] == babies_after_tick(orig, e)[j],
                fires@.map_values(|u: usize| u as int) == fire_indices(orig.take(i as int), e),
                forall|j: int| 0 <= j < fires@.len() ==> fires@[j] < i,
            decreases n - i,
        {
            let ghost prefix = fires@;
            let mut b = self.babies[i];
            let elapsed_now = self.elapsed;
            let cried = b.cry(elapsed_now);
            if cried {
                self.babies.set(i, b);
                fires.push(i);
            }
            proof {
                assert(orig.take(i + 1 as int).drop_last() =~= orig.take(i as int));
                assert(orig.take(i + 1 as int).last() == orig[i as int]);
                if cried {
                    assert(fires@.map_values(|u: usize| u as int)
                        =~= prefix.map_values(|u: usize| u as int) + seq![i as int]);
                } else {
                    assert(fires@.map_values(|u: usize| u as int)
                        =~= fire_indices(orig.take(i + 1 as int), e));
                }
            }
            i = i + 1;
        }
        if self.elapsed < usize::MAX {
            self.elapsed = self.elapsed + 1;
        }
        proof {
            assert(orig.take(n as int) =~= orig);
            assert(self.babies@ =~= babies_after_tick(orig, e));
        }
        fires
    }

    /// Records that a baby's action returned an error: the loop aborts and
    /// the cradle is stopped for good.
    pub fn fail(&mut self)
        requires
            old(self).phase is Running,
        ensures
            final(self).model() == step_state(old(self).model(), Event::Fail),
    {
        self.phase = Phase::Stopped;
    }
}

impl Default for Cradle {
    /// The default cradle is a fresh one: not started, empty.
    fn default() -> (c: Cradle)
        ensures
            c.phase is NotStarted,
            c.elapsed == 0,
            c.babies@ == Seq::<Baby>::empty(),
    {
        Cradle::new()
    }
}

} // verus!
