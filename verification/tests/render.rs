//! The renderer's decision core: event hand-out order, completion, and
//! cancellation during pacing.

use rbonsai::render::Renderer;

#[test]
fn unpaced_render_completes_for_any_nonempty_sequence() {
    for total in [1usize, 2, 7, 100] {
        let mut r = Renderer::new(total, false);
        let mut painted = Vec::new();
        while let Some(i) = r.take_paint() {
            painted.push(i);
        }
        assert_eq!(painted, (0..total).collect::<Vec<_>>());
        assert!(r.completed());
    }
}

#[test]
fn empty_sequence_completes_immediately() {
    let mut r = Renderer::new(0, false);
    assert!(r.take_paint().is_none());
    assert!(r.completed());
}

#[test]
fn cancellation_stops_a_paced_render_early() {
    let mut r = Renderer::new(5, true);
    assert_eq!(r.take_paint(), Some(0));
    assert_eq!(r.take_paint(), Some(1));
    r.cancel();
    assert!(r.take_paint().is_none());
    assert!(!r.completed());
}

#[test]
fn cancellation_after_the_last_event_still_reports_incomplete() {
    // a key press during the delay after the final event means the caller
    // should skip any post-render overlay
    let mut r = Renderer::new(2, true);
    assert_eq!(r.take_paint(), Some(0));
    assert_eq!(r.take_paint(), Some(1));
    r.cancel();
    assert!(r.take_paint().is_none());
    assert!(!r.completed());
}

#[test]
fn paced_render_without_key_presses_completes() {
    let mut r = Renderer::new(3, true);
    let mut n = 0;
    while let Some(_) = r.take_paint() {
        n += 1;
    }
    assert_eq!(n, 3);
    assert!(r.completed());
}
