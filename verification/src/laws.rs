//! The scheduler's guarantees, proved over whole event traces.
//!
//! Every executable operation of the cradle is proved to agree with the
//! one-step model in `model`, so these laws hold of any timer loop that
//! consults the cradle for its decisions.

use vstd::prelude::*;

use crate::baby::Baby;
use crate::model::Event;
use crate::model::Model;
use crate::model::Signal;
use crate::model::babies_after_tick;
use crate::model::fire_indices;
use crate::model::run_state;
use crate::model::step_fires;
use crate::model::step_state;
use crate::model::tick_cry_count;

verus! {

/// Running a trace extended by one event is one more step at its end.
pub proof fn lemma_run_snoc(m: Model, es: Seq<Event>, e: Event)
    ensures
        run_state(m, es.push(e)) == step_state(run_state(m, es), e),
    decreases es.len(),
{
    if es.len() == 0 {
        assert(es.push(e).first() == e);
        assert(es.push(e).drop_first() =~= Seq::<Event>::empty());
        assert(run_state(m, es.push(e))
            == run_state(step_state(m, e), es.push(e).drop_first()));
        assert(run_state(m, es) == m);
    } else {
        assert(es.push(e).first() == es.first());
        assert(es.push(e).drop_first() =~= es.drop_first().push(e));
        let m1 = step_state(m, es.first());
        assert(run_state(m, es.push(e)) == run_state(m1, es.drop_first().push(e)));
        lemma_run_snoc(m1, es.drop_first(), e);
        assert(run_state(m, es) == run_state(m1, es.drop_first()));
    }
}

/// A cradle that is not running, and sees no Start, never starts running.
pub proof fn lemma_dormant_stays(m: Model, es: Seq<Event>)
    requires
        !(m.phase is Running),
        forall|j: int| 0 <= j < es.len() ==> es[j] != Event::Sig(Signal::Start),
    ensures
        !(run_state(m, es).phase is Running),
    decreases es.len(),
{
    if es.len() > 0 {
        assert(es[0] != Event::Sig(Signal::Start));
        let m1 = step_state(m, es.first());
        assert(forall|j: int| 0 <= j < es.drop_first().len()
            ==> es.drop_first()[j] == es[j + 1] && es[j + 1] != Event::Sig(Signal::Start));
        lemma_dormant_stays(m1, es.drop_first());
    }
}

/// A stopped cradle stays stopped, whatever else happens.
pub proof fn lemma_stopped_stays(m: Model, es: Seq<Event>)
    requires
        m.phase is Stopped,
    ensures
        run_state(m, es).phase is Stopped,
    decreases es.len(),
{
    if es.len() > 0 {
        lemma_stopped_stays(step_state(m, es.first()), es.drop_first());
    }
}

/// A tick fires exactly the babies that cry at the current elapsed count:
/// membership in the fire list is crying, no more and no less.
pub proof fn lemma_fire_indices_contains(babies: Seq<Baby>, elapsed: nat, i: int)
    ensures
        fire_indices(babies, elapsed).contains(i) <==> (0 <= i < babies.len()
            && babies[i].spec_cries(elapsed)),
    decreases babies.len(),
{
    if babies.len() > 0 {
        let pre = babies.drop_last();
        lemma_fire_indices_contains(pre, elapsed, i);
        let head = fire_indices(pre, elapsed);
        let tail: Seq<int> = if babies.last().spec_cries(elapsed) {
            seq![babies.len() - 1]
        } else {
            Seq::empty()
        };
        let all = head + tail;
        assert(fire_indices(babies, elapsed) == all);
        if all.contains(i) {
            let j = choose|j: int| 0 <= j < all.len() && all[j] == i;
            if j < head.len() {
                assert(head[j] == i);
                assert(head.contains(i));
                assert(pre[i] == babies[i]);
            } else {
                assert(tail[j - head.len()] == i);
                assert(i == babies.len() - 1);
                assert(babies.last() == babies[i]);
            }
        }
        if 0 <= i < babies.len() && babies[i].spec_cries(elapsed) {
            if i < babies.len() - 1 {
                assert(pre[i] == babies[i]);
                assert(head.contains(i));
                let j = choose|j: int| 0 <= j < head.len() && head[j] == i;
                assert(all[j] == i);
                assert(all.contains(i));
            } else {
                assert(babies.last() == babies[i]);
                assert(tail[0] == i);
                assert(all[head.len() as int] == i);
                assert(all.contains(i));
            }
        }
    }
}

/// Every index a tick reports is a real baby: fire lists never point
/// outside the registered set.
pub proof fn lemma_fire_indices_range(babies: Seq<Baby>, elapsed: nat, j: int)
    requires
        0 <= j < fire_indices(babies, elapsed).len(),
    ensures
        0 <= fire_indices(babies, elapsed)[j] < babies.len(),
    decreases babies.len(),
{
    if babies.len() > 0 {
        let head = fire_indices(babies.drop_last(), elapsed);
        if j < head.len() {
            lemma_fire_indices_range(babies.drop_last(), elapsed, j);
            assert(fire_indices(babies, elapsed)[j] == head[j]);
        }
    }
}

/// Within one tick, the fire list is strictly increasing: babies fire in
/// registration order, each at most once per tick.
pub proof fn lemma_fire_indices_ordered(babies: Seq<Baby>, elapsed: nat, j: int, k: int)
    requires
        0 <= j < k < fire_indices(babies, elapsed).len(),
    ensures
        fire_indices(babies, elapsed)[j] < fire_indices(babies, elapsed)[k],
    decreases babies.len(),
{
    if babies.len() > 0 {
        let head = fire_indices(babies.drop_last(), elapsed);
        if k < head.len() {
            lemma_fire_indices_ordered(babies.drop_last(), elapsed, j, k);
            assert(fire_indices(babies, elapsed)[j] == head[j]);
            assert(fire_indices(babies, elapsed)[k] == head[k]);
        } else {
            // k names the last element, babies.len() - 1; j lands in head,
            // whose entries index into the shorter prefix.
            lemma_fire_indices_range(babies.drop_last(), elapsed, j);
            assert(fire_indices(babies, elapsed)[j] == head[j]);
        }
    }
}

/// Ticks advance elapsed one by one and never touch a baby's threshold:
/// after `k` ticks from a running state, the cradle is still running,
/// elapsed has grown by `k`, and every baby keeps its deadline.
pub proof fn lemma_ticks_advance(m: Model, ticks: Seq<Event>)
    requires
        m.phase is Running,
        forall|j: int| 0 <= j < ticks.len() ==> ticks[j] is Tick,
        m.elapsed + ticks.len() <= usize::MAX,
    ensures
        run_state(m, ticks).phase is Running,
        run_state(m, ticks).elapsed == m.elapsed + ticks.len(),
        run_state(m, ticks).babies.len() == m.babies.len(),
        forall|i: int| 0 <= i < m.babies.len()
            ==> run_state(m, ticks).babies[i].time == m.babies[i].time,
    decreases ticks.len(),
{
    if ticks.len() > 0 {
        assert(ticks[0] is Tick);
        let m1 = step_state(m, ticks.first());
        assert(m1.elapsed == m.elapsed + 1);
        assert(forall|i: int| 0 <= i < m.babies.len()
            ==> m1.babies[i].time == m.babies[i].time);
        assert(forall|j: int| 0 <= j < ticks.drop_first().len()
            ==> ticks.drop_first()[j] == ticks[j + 1] && ticks[j + 1] is Tick);
        lemma_ticks_advance(m1, ticks.drop_first());
    }
}

/// A deadline baby's action runs on exactly the ticks whose elapsed count
/// has reached its threshold: while the cradle runs, a tick fires the baby
/// if and only if elapsed is at or past its deadline.
pub proof fn lemma_deadline_cries(m: Model, i: int)
    requires
        m.phase is Running,
        0 <= i < m.babies.len(),
        m.babies[i].budget is None,
    ensures
        step_fires(m, Event::Tick).contains(i) <==> m.elapsed >= m.babies[i].time,
{
    lemma_fire_indices_contains(m.babies, m.elapsed, i);
}

/// Before Start is received, no baby's action ever runs: on a trace without
/// a Start signal, a not-yet-started cradle fires nothing at any step.
pub proof fn lemma_no_cry_before_start(m: Model, es: Seq<Event>, k: int)
    requires
        m.phase is NotStarted,
        forall|j: int| 0 <= j < es.len() ==> es[j] != Event::Sig(Signal::Start),
        0 <= k < es.len(),
    ensures
        step_fires(run_state(m, es.take(k)), es[k]) == Seq::<int>::empty(),
{
    assert(forall|j: int| 0 <= j < es.take(k).len() ==> es.take(k)[j] == es[j]);
    lemma_dormant_stays(m, es.take(k));
}

/// Once a Stop signal has been consumed, the cradle is stopped at every
/// later point of the trace.
pub proof fn lemma_stopped_after_stop(m: Model, es: Seq<Event>, j: int, k: int)
    requires
        0 <= j < k <= es.len(),
        es[j] == Event::Sig(Signal::Stop),
    ensures
        run_state(m, es.take(k)).phase is Stopped,
    decreases k,
{
    if k == j + 1 {
        assert(es.take(k) =~= es.take(j).push(es[j]));
        lemma_run_snoc(m, es.take(j), es[j]);
    } else {
        lemma_stopped_after_stop(m, es, j, k - 1);
        assert(es.take(k) =~= es.take(k - 1).push(es[k - 1]));
        lemma_run_snoc(m, es.take(k - 1), es[k - 1]);
    }
}

/// After Stop is consumed, no baby's action runs again: every later step of
/// the trace fires nothing, whatever events follow.
pub proof fn lemma_no_cry_after_stop(m: Model, es: Seq<Event>, j: int, k: int)
    requires
        0 <= j < k < es.len(),
        es[j] == Event::Sig(Signal::Stop),
    ensures
        step_fires(run_state(m, es.take(k)), es[k]) == Seq::<int>::empty(),
{
    lemma_stopped_after_stop(m, es, j, k);
}

/// A force-fire (Cry) invokes every registered baby's action exactly once,
/// immediately and in registration order, and changes nothing: neither
/// elapsed, nor any baby's state, nor the phase.
pub proof fn lemma_cry_fires_all(m: Model)
    requires
        m.phase is Running,
    ensures
        step_state(m, Event::Sig(Signal::Cry)) == m,
        step_fires(m, Event::Sig(Signal::Cry)).len() == m.babies.len(),
        forall|i: int| 0 <= i < m.babies.len()
            ==> step_fires(m, Event::Sig(Signal::Cry))[i] == i,
{
}

/// A Reset sets elapsed back to 0 and suppresses every deadline cry until
/// elapsed climbs back: for the first `t` ticks after a Reset, a baby whose
/// threshold is `t` or more does not fire.
pub proof fn lemma_reset_suppresses(m: Model, ticks: Seq<Event>, k: int, i: int)
    requires
        m.phase is Running,
        forall|j: int| 0 <= j < ticks.len() ==> ticks[j] is Tick,
        0 <= k < ticks.len(),
        0 <= i < m.babies.len(),
        k < m.babies[i].time,
    ensures
        step_state(m, Event::Sig(Signal::Reset)).elapsed == 0,
        !step_fires(
            run_state(step_state(m, Event::Sig(Signal::Reset)), ticks.take(k)),
            ticks[k],
        ).contains(i),
{
    let m0 = step_state(m, Event::Sig(Signal::Reset));
    assert(forall|j: int| 0 <= j < ticks.take(k).len()
        ==> ticks.take(k)[j] == ticks[j] && ticks[j] is Tick);
    lemma_ticks_advance(m0, ticks.take(k));
    let mk = run_state(m0, ticks.take(k));
    assert(mk.elapsed == k);
    assert(mk.babies[i].time == m.babies[i].time);
    lemma_fire_indices_contains(mk.babies, mk.elapsed, i);
    assert(ticks[k] is Tick);
}

/// Elapsed never decreases except through a Reset, which sets it to 0:
/// every other event leaves it alone or advances it.
pub proof fn lemma_elapsed_monotone(m: Model, e: Event)
    ensures
        e == Event::Sig(Signal::Reset) ==> step_state(m, e).elapsed == 0
            || step_state(m, e).elapsed == m.elapsed,
        e != Event::Sig(Signal::Reset) ==> step_state(m, e).elapsed >= m.elapsed,
{
}

/// A budgeted baby never cries more often than its budget allows: over any
/// trace whatsoever, the number of ticks on which it cries is at most its
/// remaining budget.
pub proof fn lemma_budget_bound(m: Model, es: Seq<Event>, i: int, bud: usize)
    requires
        0 <= i < m.babies.len(),
        m.babies[i].budget == Some(bud),
    ensures
        tick_cry_count(m, es, i) <= bud,
    decreases es.len(),
{
    if es.len() > 0 {
        let e = es.first();
        let m1 = step_state(m, e);
        if m.phase is Running && e is Tick {
            assert(m1.babies == babies_after_tick(m.babies, m.elapsed));
            assert(m1.babies[i] == if m.babies[i].spec_cries(m.elapsed) {
                m.babies[i].spec_after_cry()
            } else {
                m.babies[i]
            });
            if m.babies[i].spec_cries(m.elapsed) {
                assert(bud > 0);
                assert(m1.babies[i].budget == Some((bud - 1) as usize));
                lemma_budget_bound(m1, es.drop_first(), i, (bud - 1) as usize);
            } else {
                lemma_budget_bound(m1, es.drop_first(), i, bud);
            }
        } else {
            assert(m1.babies == m.babies);
            lemma_budget_bound(m1, es.drop_first(), i, bud);
        }
    }
}

} // verus!
