use runcat_core::animator::AnimatorState;
use runcat_core::frame::advance_frame;
use runcat_core::latest::LatestCell;
use runcat_core::rate::CpuSample;
use runcat_core::MAX_RUN_ICON_INDEX;

#[test]
fn frame_cycle_from_zero() {
    let mut i: usize = 0;
    let mut seen: Vec<usize> = Vec::new();
    for _ in 0..10 {
        i = advance_frame(i);
        seen.push(i);
    }
    assert_eq!(seen, vec![1, 2, 3, 4, 0, 1, 2, 3, 4, 0]);
}

#[test]
fn frame_wraps_at_last_index() {
    assert_eq!(advance_frame(MAX_RUN_ICON_INDEX), 0);
    assert_eq!(advance_frame(0), 1);
}

#[test]
fn latest_value_wins() {
    let mut cell = LatestCell::new();
    cell.publish(CpuSample::new(1000)); // 10 %
    cell.publish(CpuSample::new(9000)); // 90 %
    let read = cell.try_read();
    assert_eq!(read, Some(CpuSample::new(9000)));
    assert_ne!(read, Some(CpuSample::new(1000)));
    // The slot held one value, not both.
    assert_eq!(cell.try_read(), None);
}

#[test]
fn no_update_idempotent() {
    let mut cell = LatestCell::new();
    assert_eq!(cell.try_read(), None);
    assert_eq!(cell.try_read(), None);

    // The consumer's cached value is untouched by empty reads.
    let mut animator = AnimatorState::new();
    let cached_before = animator.cached;
    animator.tick(cell.try_read());
    assert_eq!(animator.cached, cached_before);
}

#[test]
fn animator_advances_without_sampler() {
    // Liveness: no sampler ever publishes, yet every tick advances the
    // frame, paced by the initial idle sample at 200 ms per frame.
    let mut animator = AnimatorState::new();
    let mut frames: Vec<usize> = Vec::new();
    for _ in 0..12 {
        let tick = animator.tick(None);
        assert_eq!(tick.delay_ms, 200);
        frames.push(tick.frame);
    }
    assert_eq!(frames, vec![1, 2, 3, 4, 0, 1, 2, 3, 4, 0, 1, 2]);
}

#[test]
fn animator_follows_latest_sample() {
    let mut animator = AnimatorState::new();
    let tick = animator.tick(Some(CpuSample::new(10000)));
    assert_eq!(tick.delay_ms, 10);
    assert_eq!(tick.frame, 1);
    // No update: the cached sample keeps driving the pace.
    let tick = animator.tick(None);
    assert_eq!(tick.delay_ms, 10);
    assert_eq!(tick.frame, 2);
    // A slower sample slows the animation back down.
    let tick = animator.tick(Some(CpuSample::new(2000)));
    assert_eq!(tick.delay_ms, 50);
    assert_eq!(tick.frame, 3);
}

#[test]
fn animator_reads_cell_without_blocking() {
    let mut cell = LatestCell::new();
    let mut animator = AnimatorState::new();

    cell.publish(CpuSample::new(4000)); // 40 % -> 25 ms
    let tick = animator.tick(cell.try_read());
    assert_eq!(tick.delay_ms, 25);

    // Nothing new published: the animator still ticks, at the same pace.
    let tick = animator.tick(cell.try_read());
    assert_eq!(tick.delay_ms, 25);
    assert_eq!(tick.frame, 2);
}
