use webgl_torus::frame::{FrameAction, FrameComposer, DEGREES_PER_TICK, FULL_TURN_DEGREES};

#[test]
fn composer_starts_at_zero() {
    let c = FrameComposer::new(6144).unwrap();
    assert_eq!(c.angle(), 0);
    assert_eq!(c.index_count(), 6144);
}

#[test]
fn composer_rejects_oversized_index_count() {
    assert!(FrameComposer::new(i32::MAX as usize).is_some());
    assert!(FrameComposer::new(i32::MAX as usize + 1).is_none());
    assert!(FrameComposer::new(0).is_some());
}

#[test]
fn each_tick_advances_one_degree() {
    let mut c = FrameComposer::new(6).unwrap();
    assert_eq!(c.begin_frame(), 1);
    assert_eq!(c.begin_frame(), 2);
    assert_eq!(c.angle(), 2);
    assert_eq!(DEGREES_PER_TICK, 1);
}

#[test]
fn angle_wraps_at_full_turn() {
    let mut c = FrameComposer::new(6).unwrap();
    for _ in 0..359 {
        c.begin_frame();
    }
    assert_eq!(c.angle(), 359);
    assert_eq!(c.begin_frame(), 0);
    assert_eq!(c.begin_frame(), 1);
}

#[test]
fn full_turn_returns_to_start() {
    let mut c = FrameComposer::new(6).unwrap();
    let first: Vec<u32> = (0..5).map(|_| c.begin_frame()).collect();
    for _ in 0..(FULL_TURN_DEGREES - 5) {
        c.begin_frame();
    }
    assert_eq!(c.angle(), 0);
    let again: Vec<u32> = (0..5).map(|_| c.begin_frame()).collect();
    assert_eq!(first, again);
}

#[test]
fn inverted_model_is_drawn() {
    let c = FrameComposer::new(6144).unwrap();
    assert_eq!(c.finish_frame(true), FrameAction::Draw(6144));
}

#[test]
fn singular_model_skips_draw() {
    let mut c = FrameComposer::new(6144).unwrap();
    assert_eq!(c.finish_frame(false), FrameAction::Skip);
    // The loop carries on with the next tick.
    assert_eq!(c.begin_frame(), 1);
    assert_eq!(c.index_count(), 6144);
}
