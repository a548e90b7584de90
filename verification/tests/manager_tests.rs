use std::cell::Cell;
use std::rc::Rc;

use game_loops::loops::{GameLoop, GameLoopKind, LoopError};
use game_loops::manager::{GameLoopManager, IterationOutcome, WaitPolicy, MAIN_THREAD_ID};
use game_loops::mode::{Mode, FREQ_BITS_ONE};
use game_loops::msg::ELGLMMsg;

struct CountingLoop {
    ticks: Rc<Cell<u64>>,
    fail: bool,
}

impl GameLoop for CountingLoop {
    fn tick(&mut self) -> Result<(), LoopError> {
        self.ticks.set(self.ticks.get() + 1);
        if self.fail {
            Err(LoopError)
        } else {
            Ok(())
        }
    }
}

fn counting_manager() -> (GameLoopManager<CountingLoop>, [Rc<Cell<u64>>; 3]) {
    let counters = [
        Rc::new(Cell::new(0)),
        Rc::new(Cell::new(0)),
        Rc::new(Cell::new(0)),
    ];
    let mgr = GameLoopManager::new(
        CountingLoop { ticks: counters[0].clone(), fail: false },
        CountingLoop { ticks: counters[1].clone(), fail: false },
        CountingLoop { ticks: counters[2].clone(), fail: false },
    );
    (mgr, counters)
}

fn all_kinds() -> [GameLoopKind; 3] {
    [GameLoopKind::Update, GameLoopKind::Render, GameLoopKind::Audio]
}

#[test]
fn fresh_manager_owns_everything_on_main_with_no_runner() {
    let (mgr, _counters) = counting_manager();
    for kind in all_kinds() {
        assert!(mgr.main_owns(kind));
    }
    for t in 0..3 {
        assert!(!mgr.has_runner(t));
    }
    let (thread_id, rf) = mgr.current_mode().get(GameLoopKind::Update);
    assert_eq!(thread_id, MAIN_THREAD_ID);
    assert_eq!(rf, FREQ_BITS_ONE);
}

#[test]
fn migration_to_unused_slot_creates_its_runner_which_owns_the_kind() {
    let (mut mgr, _counters) = counting_manager();
    assert!(!mgr.has_runner(1));
    let m = Mode::new().render(1, 2.0f64.to_bits());
    mgr.set_mode(m);
    assert!(mgr.has_runner(1));
    assert!(mgr.runner_owns(1, GameLoopKind::Render));
    assert!(!mgr.main_owns(GameLoopKind::Render));
    assert!(!mgr.runner_owns(0, GameLoopKind::Render));
    assert!(!mgr.runner_owns(2, GameLoopKind::Render));
    // the other kinds stayed on the main thread
    assert!(mgr.main_owns(GameLoopKind::Update));
    assert!(mgr.main_owns(GameLoopKind::Audio));
}

#[test]
fn ownership_follows_the_applied_mode_exactly() {
    let (mut mgr, _counters) = counting_manager();
    let m = Mode::new()
        .update(0, 1.0f64.to_bits())
        .render(1, 1.0f64.to_bits())
        .audio(2, 1.0f64.to_bits());
    mgr.set_mode(m);
    for (t, kind) in all_kinds().iter().enumerate() {
        assert!(!mgr.main_owns(*kind));
        for slot in 0..3 {
            assert_eq!(mgr.runner_owns(slot, *kind), slot == t);
        }
    }
    // and back again, intact
    let back = Mode::new()
        .update(MAIN_THREAD_ID, 1.0f64.to_bits())
        .render(MAIN_THREAD_ID, 1.0f64.to_bits())
        .audio(MAIN_THREAD_ID, 1.0f64.to_bits());
    mgr.set_mode(back);
    for kind in all_kinds() {
        assert!(mgr.main_owns(kind));
        for slot in 0..3 {
            assert!(!mgr.runner_owns(slot, kind));
        }
    }
}

#[test]
fn applying_the_same_mode_twice_changes_nothing_observable() {
    let (mut mgr, _counters) = counting_manager();
    let make_mode = || {
        Mode::new()
            .update(2, 3.0f64.to_bits())
            .frequency(2, 240.0f64.to_bits())
            .frequency(MAIN_THREAD_ID, 30.0f64.to_bits())
    };
    mgr.set_mode(make_mode());
    let owns_after_first: Vec<bool> = (0..3)
        .flat_map(|t| all_kinds().into_iter().map(move |k| (t, k)))
        .map(|(t, k)| mgr.runner_owns(t, k))
        .collect();
    mgr.set_mode(make_mode());
    let owns_after_second: Vec<bool> = (0..3)
        .flat_map(|t| all_kinds().into_iter().map(move |k| (t, k)))
        .map(|(t, k)| mgr.runner_owns(t, k))
        .collect();
    assert_eq!(owns_after_first, owns_after_second);
    assert!(mgr.runner_owns(2, GameLoopKind::Update));
    assert!(mgr.main_owns(GameLoopKind::Render));
    assert!(mgr.main_owns(GameLoopKind::Audio));
    assert_eq!(
        mgr.current_mode().thread_frequency(2),
        240.0f64.to_bits()
    );
    assert_eq!(mgr.main_thread_frequency(), 30.0f64.to_bits());
}

#[test]
fn any_mode_application_creates_all_runners_for_frequency_holding() {
    let (mut mgr, _counters) = counting_manager();
    mgr.set_mode(Mode::new());
    for t in 0..3 {
        assert!(mgr.has_runner(t));
        for kind in all_kinds() {
            assert!(!mgr.runner_owns(t, kind));
        }
    }
}

#[test]
fn frequency_push_reaches_every_runner() {
    let (mut mgr, _counters) = counting_manager();
    for t in 0..3 {
        assert_eq!(mgr.runner_frequency(t), None);
    }
    let m = Mode::new()
        .frequency(0, 120.0f64.to_bits())
        .frequency(2, 48.0f64.to_bits());
    mgr.set_mode(m);
    assert_eq!(mgr.runner_frequency(0), Some(120.0f64.to_bits()));
    assert_eq!(mgr.runner_frequency(1), Some(0.0f64.to_bits()));
    assert_eq!(mgr.runner_frequency(2), Some(48.0f64.to_bits()));
}

#[test]
fn new_moded_applies_the_mode_immediately() {
    let counter = Rc::new(Cell::new(0));
    let mgr = GameLoopManager::new_moded(
        CountingLoop { ticks: counter.clone(), fail: false },
        CountingLoop { ticks: counter.clone(), fail: false },
        CountingLoop { ticks: counter.clone(), fail: false },
        Mode::new().audio(0, 1.0f64.to_bits()),
    );
    assert!(mgr.runner_owns(0, GameLoopKind::Audio));
    assert!(!mgr.main_owns(GameLoopKind::Audio));
    assert!(mgr.main_owns(GameLoopKind::Update));
    assert_eq!(counter.get(), 0);
}

#[test]
fn wait_policy_is_idle_exactly_when_main_set_is_empty() {
    let (mut mgr, _counters) = counting_manager();
    assert_eq!(mgr.control_flow_request(), WaitPolicy::Poll);
    let away = Mode::new()
        .update(0, 1.0f64.to_bits())
        .render(0, 1.0f64.to_bits())
        .audio(1, 1.0f64.to_bits());
    mgr.set_mode(away);
    assert_eq!(mgr.control_flow_request(), WaitPolicy::IdleWait);
    let partial = Mode::new()
        .update(MAIN_THREAD_ID, 1.0f64.to_bits())
        .render(0, 1.0f64.to_bits())
        .audio(1, 1.0f64.to_bits());
    mgr.set_mode(partial);
    assert_eq!(mgr.control_flow_request(), WaitPolicy::Poll);
}

#[test]
fn pump_iteration_ticks_each_main_resident_loop_once() {
    let (mut mgr, counters) = counting_manager();
    let outcome = mgr.pump_iteration(Vec::new()).unwrap();
    assert_eq!(
        outcome,
        IterationOutcome { exit_requested: false, ticked: true }
    );
    assert_eq!(counters[0].get(), 1);
    assert_eq!(counters[1].get(), 1);
    assert_eq!(counters[2].get(), 1);
}

#[test]
fn pump_iteration_does_not_tick_worker_resident_loops() {
    let (mut mgr, counters) = counting_manager();
    mgr.set_mode(Mode::new().render(1, 1.0f64.to_bits()));
    let outcome = mgr.pump_iteration(Vec::new()).unwrap();
    assert!(outcome.ticked);
    assert_eq!(counters[0].get(), 1);
    assert_eq!(counters[1].get(), 0);
    assert_eq!(counters[2].get(), 1);
}

#[test]
fn burst_applies_modes_in_order_and_stop_suppresses_the_tick() {
    let (mut mgr, counters) = counting_manager();
    let mode_a = Mode::new().update(0, 1.0f64.to_bits());
    let mode_b = Mode::new()
        .update(1, 1.0f64.to_bits())
        .frequency(MAIN_THREAD_ID, 75.0f64.to_bits());
    let msgs = vec![
        ELGLMMsg::SetMode(mode_a),
        ELGLMMsg::SetMode(mode_b),
        ELGLMMsg::Stop,
    ];
    let outcome = mgr.pump_iteration(msgs).unwrap();
    assert_eq!(
        outcome,
        IterationOutcome { exit_requested: true, ticked: false }
    );
    // the iteration ended in mode B, not A
    assert_eq!(mgr.current_mode().get(GameLoopKind::Update).0, 1);
    assert!(mgr.runner_owns(1, GameLoopKind::Update));
    assert!(!mgr.runner_owns(0, GameLoopKind::Update));
    assert_eq!(mgr.main_thread_frequency(), 75.0f64.to_bits());
    // no tick ran after the stop was observed
    assert_eq!(counters[0].get(), 0);
    assert_eq!(counters[1].get(), 0);
    assert_eq!(counters[2].get(), 0);
}

#[test]
fn stop_alone_requests_exit_without_ticking() {
    let (mut mgr, counters) = counting_manager();
    let outcome = mgr.pump_iteration(vec![ELGLMMsg::Stop]).unwrap();
    assert!(outcome.exit_requested);
    assert!(!outcome.ticked);
    assert_eq!(counters[0].get(), 0);
}

#[test]
fn a_failing_tick_is_reported_as_an_error() {
    let counter = Rc::new(Cell::new(0));
    let mut mgr = GameLoopManager::new(
        CountingLoop { ticks: counter.clone(), fail: false },
        CountingLoop { ticks: counter.clone(), fail: true },
        CountingLoop { ticks: counter.clone(), fail: false },
    );
    let r = mgr.pump_iteration(Vec::new());
    assert_eq!(r, Err(LoopError));
    // the update loop ticked, the render loop failed, audio never ran
    assert_eq!(counter.get(), 2);
}

#[test]
fn empty_main_set_iteration_succeeds_even_with_failing_units() {
    let counter = Rc::new(Cell::new(0));
    let mut mgr = GameLoopManager::new(
        CountingLoop { ticks: counter.clone(), fail: true },
        CountingLoop { ticks: counter.clone(), fail: true },
        CountingLoop { ticks: counter.clone(), fail: true },
    );
    mgr.set_mode(
        Mode::new()
            .update(0, 1.0f64.to_bits())
            .render(0, 1.0f64.to_bits())
            .audio(1, 1.0f64.to_bits()),
    );
    let outcome = mgr.pump_iteration(Vec::new()).unwrap();
    assert!(!outcome.exit_requested);
    assert!(outcome.ticked);
    // nothing resides on the main thread, so nothing ran or failed
    assert_eq!(counter.get(), 0);
}

#[test]
fn migration_preserves_the_loop_unit_state_intact() {
    let (mut mgr, counters) = counting_manager();
    mgr.pump_iteration(Vec::new()).unwrap();
    assert_eq!(counters[0].get(), 1);
    // move the update loop away and back: its state must survive
    mgr.set_mode(Mode::new().update(2, 1.0f64.to_bits()));
    mgr.set_mode(Mode::new());
    mgr.pump_iteration(Vec::new()).unwrap();
    assert_eq!(counters[0].get(), 2);
}
