//! Tests that drive the cradle's state machine the way the timer loop does:
//! deliver a signal, or tick, and observe which babies fire.

use cradle::baby::Baby;
use cradle::model::Phase;
use cradle::model::Signal;
use cradle::scheduler::Cradle;
use cradle::scheduler::Directive;

/// Three deadline babies with thresholds 1, 2 and 3: after four ticks all
/// have fired at least once; after a Reset none fires until elapsed reaches
/// its threshold again.
#[test]
fn thresholds_fire_and_reset() {
    let mut c = Cradle::new();
    c.put_baby(Baby::new(1));
    c.put_baby(Baby::new(2));
    c.put_baby(Baby::new(3));
    assert!(matches!(c.signal(Signal::Start), Directive::Proceed));

    let mut seen = [false; 3];
    for _ in 0..4 {
        for i in c.tick() {
            seen[i] = true;
        }
    }
    assert!(seen.iter().all(|s| *s));
    assert_eq!(c.elapsed, 4);

    assert!(matches!(c.signal(Signal::Reset), Directive::Proceed));
    assert_eq!(c.elapsed, 0);
    // Tick by tick, exactly the babies whose threshold has been reached fire.
    assert_eq!(c.tick(), Vec::<usize>::new()); // elapsed 0: none
    assert_eq!(c.tick(), vec![0]); // elapsed 1: threshold 1
    assert_eq!(c.tick(), vec![0, 1]); // elapsed 2: thresholds 1, 2
    assert_eq!(c.tick(), vec![0, 1, 2]); // elapsed 3: all
}

/// A deadline baby re-fires on every tick past its threshold until a Reset.
#[test]
fn deadline_refires_every_tick() {
    let mut c = Cradle::new();
    c.put_baby(Baby::new(2));
    c.signal(Signal::Start);
    assert_eq!(c.tick(), Vec::<usize>::new()); // elapsed 0
    assert_eq!(c.tick(), Vec::<usize>::new()); // elapsed 1
    assert_eq!(c.tick(), vec![0]); // elapsed 2
    assert_eq!(c.tick(), vec![0]); // elapsed 3
    assert_eq!(c.tick(), vec![0]); // elapsed 4
    c.signal(Signal::Reset);
    assert_eq!(c.tick(), Vec::<usize>::new()); // elapsed 0 again
    assert_eq!(c.tick(), Vec::<usize>::new()); // elapsed 1
    assert_eq!(c.tick(), vec![0]); // elapsed 2
}

/// A baby with a cry budget of two never fires a third time, however long
/// the cradle runs.
#[test]
fn budget_baby_cries_at_most_twice() {
    let mut c = Cradle::new();
    c.put_baby(Baby::with_budget(0, 2));
    c.signal(Signal::Start);
    let mut total = 0;
    for _ in 0..100 {
        total += c.tick().len();
    }
    assert_eq!(total, 2);
}

/// A zero-budget baby never fires at all.
#[test]
fn zero_budget_never_cries() {
    let mut c = Cradle::new();
    c.put_baby(Baby::with_budget(0, 0));
    c.signal(Signal::Start);
    for _ in 0..5 {
        assert_eq!(c.tick(), Vec::<usize>::new());
    }
}

/// Cry (force-fire) reaches every baby exactly once, immediately, without
/// advancing elapsed or touching any baby's budget.
#[test]
fn cry_fires_every_baby_once() {
    let mut c = Cradle::new();
    c.put_baby(Baby::new(10));
    c.put_baby(Baby::with_budget(20, 2));
    c.put_baby(Baby::new(30));
    c.signal(Signal::Start);
    match c.signal(Signal::Cry) {
        Directive::Fire(fires) => assert_eq!(fires, vec![0, 1, 2]),
        _ => panic!("Cry must demand an immediate fire of every baby"),
    }
    assert_eq!(c.elapsed, 0);
    assert_eq!(c.babies[1].budget, Some(2));
    // Nothing has reached a threshold, so the next tick fires nobody.
    assert_eq!(c.tick(), Vec::<usize>::new());
}

/// An action failure aborts the loop for good: the cradle stops and every
/// later signal just tells the loop to exit — no baby fires again.
#[test]
fn failed_action_stops_everything() {
    let mut c = Cradle::new();
    c.put_baby(Baby::new(2));
    c.signal(Signal::Start);
    assert_eq!(c.tick(), Vec::<usize>::new()); // tick at elapsed 0
    assert_eq!(c.tick(), Vec::<usize>::new()); // tick at elapsed 1
    assert_eq!(c.tick(), vec![0]); // tick at elapsed 2: the action runs and errors
    c.fail();
    assert!(!c.is_running());
    assert!(matches!(c.signal(Signal::Cry), Directive::Exit));
    assert!(matches!(c.signal(Signal::Start), Directive::Exit));
}

/// After Stop, the cradle never fires again, whatever signals follow.
#[test]
fn stop_is_final() {
    let mut c = Cradle::new();
    c.put_baby(Baby::new(0));
    c.signal(Signal::Start);
    assert_eq!(c.tick(), vec![0]);
    assert!(matches!(c.signal(Signal::Stop), Directive::Exit));
    assert_eq!(c.phase, Phase::Stopped);
    assert!(matches!(c.signal(Signal::Start), Directive::Exit));
    assert!(matches!(c.signal(Signal::Cry), Directive::Exit));
}

/// The loop waits for Start as its first signal; any other first signal is
/// a run-to-completion no-op, so no baby ever fires.
#[test]
fn first_signal_other_than_start_exits() {
    let mut c = Cradle::new();
    c.put_baby(Baby::new(0));
    assert!(matches!(c.signal(Signal::Reset), Directive::Exit));
    assert!(!c.is_running());
    assert!(matches!(c.signal(Signal::Start), Directive::Exit));
}

/// Duplicate Starts after the first are ignored.
#[test]
fn start_is_idempotent() {
    let mut c = Cradle::new();
    c.signal(Signal::Start);
    assert_eq!(c.tick(), Vec::<usize>::new());
    assert!(matches!(c.signal(Signal::Start), Directive::Proceed));
    assert_eq!(c.elapsed, 1);
    assert!(c.is_running());
}

/// Babies may be registered after Start; a late baby joins the end of the
/// fire order and fires once its threshold is reached.
#[test]
fn put_baby_after_start() {
    let mut c = Cradle::new();
    c.put_baby(Baby::new(1));
    c.signal(Signal::Start);
    assert_eq!(c.tick(), Vec::<usize>::new()); // elapsed 0
    c.put_baby(Baby::new(0));
    assert_eq!(c.tick(), vec![0, 1]); // elapsed 1: both have reached theirs
}

/// An empty cradle ticks along without firing anything.
#[test]
fn empty_cradle_ticks() {
    let mut c = Cradle::new();
    c.signal(Signal::Start);
    for _ in 0..3 {
        assert_eq!(c.tick(), Vec::<usize>::new());
    }
    assert_eq!(c.elapsed, 3);
}

/// A fresh cradle is not yet running, has no elapsed time and no babies.
#[test]
fn new_cradle_is_dormant() {
    let c = Cradle::new();
    assert_eq!(c.phase, Phase::NotStarted);
    assert_eq!(c.elapsed, 0);
    assert!(c.babies.is_empty());
    assert!(!c.is_running());
}

/// The default cradle is a fresh one.
#[test]
fn default_cradle_is_fresh() {
    let c = Cradle::default();
    assert_eq!(c.phase, Phase::NotStarted);
    assert_eq!(c.elapsed, 0);
    assert!(c.babies.is_empty());
}

/// A new baby carries its deadline and, unless budgeted, no cry limit.
#[test]
fn baby_construction() {
    let b = Baby::new(5);
    assert_eq!(b.time, 5);
    assert_eq!(b.budget, None);
    let mut b2 = Baby::with_budget(3, 2);
    assert_eq!(b2.time, 3);
    assert_eq!(b2.budget, Some(2));
    // Crying consumes budget only when the deadline has been reached.
    assert!(!b2.cry(2));
    assert_eq!(b2.budget, Some(2));
    assert!(b2.cry(3));
    assert_eq!(b2.budget, Some(1));
}
