// The window stores sample values as ordered u64 keys; a non-negative f64
// maps onto that order through its IEEE-754 bit pattern.

use container_dash::max_sliding_window::MaxSlidingWindow;
use container_dash::monotonic_window::MaxSlidingWindow as MonotonicWindow;

#[test]
fn add_pushes_to_queue_and_updates_largest() {
    let mut max_sliding_window = MaxSlidingWindow::new(2);
    assert_eq!(None, max_sliding_window.get_max());
    max_sliding_window.add((1.0f64.to_bits(), 10.0f64.to_bits()));
    assert_eq!(10.0f64.to_bits(), max_sliding_window.get_max().unwrap());
    max_sliding_window.add((2.0f64.to_bits(), 30.0f64.to_bits()));
    assert_eq!(30.0f64.to_bits(), max_sliding_window.get_max().unwrap());
    max_sliding_window.add((3.0f64.to_bits(), 12.0f64.to_bits()));
    assert_eq!(30.0f64.to_bits(), max_sliding_window.get_max().unwrap());
    assert_eq!(2, max_sliding_window.data.len());
    max_sliding_window.add((4.0f64.to_bits(), 11.0f64.to_bits()));
    assert_eq!(12.0f64.to_bits(), max_sliding_window.get_max().unwrap());
}

#[test]
fn clear_removes_data() {
    let mut sliding_window = MaxSlidingWindow::new(1);
    sliding_window.add((1.0f64.to_bits(), 1.0f64.to_bits()));
    sliding_window.clear();
    assert!(sliding_window.data.is_empty());
    assert!(sliding_window.max_queue.is_empty());
}

#[test]
fn capacity_two_evicts_oldest_and_tracks_max() {
    let mut w = MaxSlidingWindow::new(2);
    w.add((1, 10));
    assert_eq!(Some(10), w.get_max());
    w.add((2, 30));
    assert_eq!(Some(30), w.get_max());
    w.add((3, 12));
    assert_eq!(Some(30), w.get_max());
    assert_eq!(2, w.data.len());
    w.add((4, 11));
    assert_eq!(Some(12), w.get_max());
    assert_eq!(2, w.data.len());
}

#[test]
fn length_never_exceeds_capacity() {
    let mut w = MaxSlidingWindow::new(3);
    for i in 0..100u64 {
        w.add((i, i % 7));
        assert!(w.data.len() <= 3);
    }
}

#[test]
fn equal_values_survive_one_eviction() {
    let mut w = MaxSlidingWindow::new(2);
    w.add((1, 5));
    w.add((2, 5));
    w.add((3, 1));
    // (1,5) was evicted, but the second 5 is still in the window.
    assert_eq!(Some(5), w.get_max());
    w.add((4, 1));
    assert_eq!(Some(1), w.get_max());
}

#[test]
fn default_window_is_empty() {
    let w = MaxSlidingWindow::default();
    assert_eq!(None, w.get_max());
    assert!(w.data.is_empty());
}

#[test]
fn monotonic_window_tracks_max_without_capacity() {
    let mut w = MonotonicWindow::new();
    assert_eq!(None, w.get_max());
    w.add(3);
    w.add(1);
    w.add(2);
    assert_eq!(Some(3), w.get_max());
    w.remove();
    assert_eq!(Some(2), w.get_max());
    w.remove();
    assert_eq!(Some(2), w.get_max());
    w.remove();
    assert_eq!(None, w.get_max());
}

#[test]
fn monotonic_window_remove_on_empty_is_noop() {
    let mut w = MonotonicWindow::new();
    w.remove();
    assert_eq!(None, w.get_max());
    w.add(7);
    assert_eq!(Some(7), w.get_max());
}
