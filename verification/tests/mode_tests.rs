use game_loops::loops::GameLoopKind;
use game_loops::manager::{IDLE_WAIT_MILLIS, MAIN_THREAD_ID, MAX_RUNNERS, NUM_THREADS};
use game_loops::mode::{Mode, FREQ_BITS_ONE, FREQ_BITS_ZERO};

#[test]
fn freq_bits_constants_match_doubles() {
    assert_eq!(FREQ_BITS_ONE, 1.0f64.to_bits());
    assert_eq!(FREQ_BITS_ZERO, 0.0f64.to_bits());
}

#[test]
fn scheduler_constants() {
    assert_eq!(MAX_RUNNERS, 3);
    assert_eq!(MAIN_THREAD_ID, 3);
    assert_eq!(NUM_THREADS, 4);
    assert_eq!(IDLE_WAIT_MILLIS, 100);
}

#[test]
fn default_mode_assigns_everything_to_main() {
    let m = Mode::new();
    for kind in [GameLoopKind::Update, GameLoopKind::Render, GameLoopKind::Audio] {
        let (thread_id, rf) = m.get(kind);
        assert_eq!(thread_id, MAIN_THREAD_ID);
        assert_eq!(rf, 1.0f64.to_bits());
    }
    for t in 0..NUM_THREADS {
        assert_eq!(m.thread_frequency(t), 0.0f64.to_bits());
    }
}

#[test]
fn frequency_overwrites_earlier_value() {
    let m = Mode::new()
        .frequency(2, 30.0f64.to_bits())
        .frequency(2, 60.0f64.to_bits());
    assert_eq!(m.thread_frequency(2), 60.0f64.to_bits());
}

#[test]
fn chained_setters_overwrite_one_kind_each() {
    let m = Mode::new()
        .update(0, 2.0f64.to_bits())
        .render(1, 0.5f64.to_bits())
        .audio(MAIN_THREAD_ID, 1.0f64.to_bits())
        .frequency(0, 120.0f64.to_bits())
        .frequency(MAIN_THREAD_ID, 60.0f64.to_bits());
    assert_eq!(m.get(GameLoopKind::Update), (0, 2.0f64.to_bits()));
    assert_eq!(m.get(GameLoopKind::Render), (1, 0.5f64.to_bits()));
    assert_eq!(m.get(GameLoopKind::Audio), (MAIN_THREAD_ID, 1.0f64.to_bits()));
    assert_eq!(m.thread_frequency(0), 120.0f64.to_bits());
    assert_eq!(m.thread_frequency(1), 0.0f64.to_bits());
    assert_eq!(m.thread_frequency(MAIN_THREAD_ID), 60.0f64.to_bits());
}

#[test]
fn setters_later_in_the_chain_win() {
    let m = Mode::new().update(0, 2.0f64.to_bits()).update(2, 4.0f64.to_bits());
    assert_eq!(m.get(GameLoopKind::Update), (2, 4.0f64.to_bits()));
}

#[test]
fn kind_indices_are_stable() {
    assert_eq!(GameLoopKind::Update.index(), 0);
    assert_eq!(GameLoopKind::Render.index(), 1);
    assert_eq!(GameLoopKind::Audio.index(), 2);
}
