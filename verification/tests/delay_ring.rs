use ball_in_a_box::delay::DelayBuffer;
use ball_in_a_box::fx::Fx;
use ball_in_a_box::vec2::Vec2;

fn delta(x: i64, y: i64) -> Vec2 {
    Vec2::new(Fx { raw: x }, Fx { raw: y })
}

#[test]
fn starts_empty_and_replays_nothing() {
    let ring = DelayBuffer::new();
    assert_eq!(ring.len(), 0);
    let offset = ring.replay_offset();
    assert_eq!(offset.x.raw, 0);
    assert_eq!(offset.y.raw, 0);
}

#[test]
fn replay_is_the_sum_of_recorded_deltas() {
    let mut ring = DelayBuffer::new();
    ring.record(delta(1, 2));
    ring.record(delta(3, 4));
    ring.record(delta(5, 6));
    assert_eq!(ring.len(), 3);
    let offset = ring.replay_offset();
    assert_eq!(offset.x.raw, 9);
    assert_eq!(offset.y.raw, 12);
}

#[test]
fn a_saturated_ring_forgets_its_oldest_delta() {
    let mut ring = DelayBuffer::new();
    for i in 0..10 {
        ring.record(delta(i + 1, 0));
    }
    assert_eq!(ring.len(), 10);
    // Sum of 1..=10.
    assert_eq!(ring.replay_offset().x.raw, 55);
    ring.record(delta(100, 0));
    assert_eq!(ring.len(), 10);
    // The oldest delta (1) fell out: 55 - 1 + 100.
    assert_eq!(ring.replay_offset().x.raw, 154);
}

#[test]
fn retire_keeps_the_window_below_the_configured_frames() {
    let mut ring = DelayBuffer::new();
    for i in 0..5 {
        ring.record(delta(10 * (i + 1), 0));
    }
    ring.retire_over(3);
    // Two newest survive: 40 + 50.
    assert_eq!(ring.len(), 2);
    assert_eq!(ring.replay_offset().x.raw, 90);
    // Zero disables the ring: nothing retired.
    ring.retire_over(0);
    assert_eq!(ring.len(), 2);
}

#[test]
fn settle_replays_once_and_drains_when_spent() {
    let mut ring = DelayBuffer::new();
    ring.record(delta(7, -2));
    ring.record(delta(1, 1));
    let first = ring.settle().unwrap();
    assert_eq!(first.x.raw, 8);
    assert_eq!(first.y.raw, -1);
    // The trailing zero entry stays behind the live deltas.
    assert_eq!(ring.len(), 3);
    // Opposite deltas cancel: a zero sum drains the ring.
    let mut cancelling = DelayBuffer::new();
    cancelling.record(delta(5, -5));
    cancelling.record(delta(-5, 5));
    let offset = cancelling.settle().unwrap();
    assert_eq!(offset.x.raw, 0);
    assert_eq!(offset.y.raw, 0);
    assert_eq!(cancelling.len(), 0);
    // An empty ring yields nothing.
    assert!(cancelling.settle().is_none());
}

#[test]
fn clear_empties_the_ring() {
    let mut ring = DelayBuffer::new();
    ring.record(delta(3, 3));
    ring.clear();
    assert_eq!(ring.len(), 0);
}
