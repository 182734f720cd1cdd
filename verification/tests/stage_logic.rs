use pipeprogress::args::resolve_silent;
use pipeprogress::stats::{add_total, rate_bps, should_render, StatsState};
use pipeprogress::write::{after_write, on_chunk, ChunkAction, WriteErrorKind, WriteVerdict};

#[test]
fn broken_pipe_ends_writer_cleanly() {
    assert_eq!(
        after_write(Some(WriteErrorKind::BrokenPipe)),
        WriteVerdict::Done
    );
}

#[test]
fn other_write_error_is_fatal() {
    assert_eq!(after_write(Some(WriteErrorKind::Other)), WriteVerdict::Fatal);
}

#[test]
fn successful_write_continues() {
    assert_eq!(after_write(None), WriteVerdict::Continue);
}

#[test]
fn empty_chunk_is_the_sentinel() {
    match on_chunk(Vec::new()) {
        ChunkAction::Done => {}
        ChunkAction::Write(_) => panic!("the sentinel must end the stage"),
    }
}

#[test]
fn chunk_passes_through_unchanged() {
    match on_chunk(vec![1, 2, 3]) {
        ChunkAction::Write(c) => assert_eq!(c, vec![1, 2, 3]),
        ChunkAction::Done => panic!("a non-empty chunk must be written"),
    }
}

#[test]
fn stats_stage_ends_on_sentinel() {
    let mut state = StatsState::begin(true);
    assert!(!state.on_count(5));
    assert!(!state.on_count(16384));
    assert!(state.on_count(0));
    assert_eq!(state.total_bytes, 16389);
}

#[test]
fn silence_writes_nothing_and_keeps_ready() {
    let mut state = StatsState::begin(true);
    assert!(state.timer.ready);
    state.on_count(10);
    // Silent: the ready signal is never consumed, because nothing renders.
    assert!(state.timer.ready);
    state.finish();
}

#[test]
fn rendering_consumes_ready() {
    let mut state = StatsState::begin(false);
    assert!(state.timer.ready);
    state.on_count(10);
    assert!(!state.timer.ready);
    state.finish();
}

#[test]
fn silence_resolution() {
    assert!(resolve_silent(true, None));
    assert!(resolve_silent(true, Some("")));
    assert!(resolve_silent(false, Some("1")));
    assert!(!resolve_silent(false, Some("")));
    assert!(!resolve_silent(false, None));
}

#[test]
fn rate_is_bytes_per_second() {
    assert_eq!(rate_bps(500, 250), 2000);
    assert_eq!(rate_bps(16384, 1000), 16384);
    assert_eq!(rate_bps(1, 3), 333);
}

#[test]
fn zero_delta_rate_is_zero() {
    assert_eq!(rate_bps(500, 0), 0);
}

#[test]
fn total_saturates_instead_of_overflowing() {
    assert_eq!(add_total(5, 7), 12);
    assert_eq!(add_total(u64::MAX - 1, 5), u64::MAX);
}

#[test]
fn render_gate() {
    assert!(should_render(false, true));
    assert!(!should_render(true, true));
    assert!(!should_render(false, false));
    assert!(!should_render(true, false));
}
