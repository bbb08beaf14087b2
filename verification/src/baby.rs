//! Babies: the scheduler's triggers.
//!
//! A baby is identified by its behaviour alone: a deadline threshold in
//! ticks, and optionally a cry budget. A plain deadline baby (no budget)
//! cries on every tick whose elapsed count has reached the threshold, until
//! a reset brings elapsed back below it. A budgeted baby additionally stops
//! crying once its budget is spent; the budget is its own mutable state and
//! is consumed one unit per cry.

use vstd::prelude::*;

verus! {

/// A baby that cries after a certain time.
///
/// The side-effecting action attached to a baby lives in the embedding
/// application; the scheduler only decides *when* the baby cries.
#[derive(Clone, Copy, Debug)]
pub struct Baby {
    /// Deadline threshold: the baby cries once elapsed ticks reach this.
    pub time: usize,
    /// Remaining cry budget. `None` means unlimited (a plain deadline baby);
    /// `Some(n)` means the baby will cry at most `n` more times.
    pub budget: Option<usize>,
}

impl Baby {
    /// Whether the baby cries at the given elapsed tick count.
    pub open spec fn spec_cries(self, elapsed: nat) -> bool {
        elapsed >= self.time && match self.budget {
            Some(b) => b > 0,
            None => true,
        }
    }

    /// The baby's state after one cry: a budgeted baby has one unit less.
    pub open spec fn spec_after_cry(self) -> Baby {
        match self.budget {
            Some(b) => Baby { time: self.time, budget: Some(if b > 0 { (b - 1) as usize } else { 0usize }) },
            None => self,
        }
    }

    /// Instantiates a new baby with unlimited cries past its deadline.
    pub fn new(time: usize) -> (b: Baby)
        ensures
            b.time == time,
            b.budget is None,
    {
        Baby { time, budget: None }
    }

    /// Instantiates a baby that cries at most `budget` times in total.
    pub fn with_budget(time: usize, budget: usize) -> (b: Baby)
        ensures
            b.time == time,
            b.budget == Some(budget),
    {
        Baby { time, budget: Some(budget) }
    }

    /// Decides whether this baby cries at the given elapsed count, consuming
    /// one unit of budget when it does.
    pub fn cry(&mut self, elapsed: usize) -> (cried: bool)
        ensures
            cried == old(self).spec_cries(elapsed as nat),
            *final(self) == if cried { old(self).spec_after_cry() } else { *old(self) },
    {
        let wants = elapsed >= self.time && match self.budget {
            Some(b) => b > 0,
            None => true,
        };
        if wants {
            if let Some(b) = self.budget {
                self.budget = Some(b - 1);
            }
        }
        wants
    }
}

} // verus!
