//! Scenario tests for the gesture recognizer. Coordinates are in tenths of a
//! pixel: a motion of 25 pixels is written 250.

use topborder::gesture::{Gesture, Recognizer};

const WIDTH: u32 = 300;

#[test]
fn slide_left_emits_and_reanchors() {
    let mut r = Recognizer::new();
    r.on_down(1000, 100);
    let g = r.on_motion(750, 100, WIDTH);
    assert_eq!(g, Some(Gesture::SlideLeft(51)));
    assert_eq!(r.anchor, Some((750, 100)));
    let g2 = r.on_motion(500, 100, WIDTH);
    assert_eq!(g2, Some(Gesture::SlideLeft(51)));
    assert_eq!(r.anchor, Some((500, 100)));
}

#[test]
fn slide_right_emits() {
    let mut r = Recognizer::new();
    r.on_down(1000, 100);
    let g = r.on_motion(1250, 100, WIDTH);
    assert_eq!(g, Some(Gesture::SlideRight(51)));
    assert_eq!(r.anchor, Some((1250, 100)));
}

#[test]
fn slide_needs_near_horizontal_motion() {
    let mut r = Recognizer::new();
    r.on_down(1000, 100);
    let g = r.on_motion(750, 200, WIDTH);
    assert_eq!(g, None);
    assert_eq!(r.anchor, Some((1000, 100)));
}

#[test]
fn pull_left_emits_and_clears_anchor() {
    let mut r = Recognizer::new();
    r.on_down(500, 0);
    let g = r.on_motion(500, 850, WIDTH);
    assert_eq!(g, Some(Gesture::PullLeft));
    assert_eq!(r.anchor, None);
    let after = r.on_motion(500, 2000, WIDTH);
    assert_eq!(after, None);
}

#[test]
fn pull_mid_emits() {
    let mut r = Recognizer::new();
    r.on_down(1500, 0);
    let g = r.on_motion(1500, 850, WIDTH);
    assert_eq!(g, Some(Gesture::PullMid));
    assert_eq!(r.anchor, None);
}

#[test]
fn pull_right_emits() {
    let mut r = Recognizer::new();
    r.on_down(2500, 0);
    let g = r.on_motion(2500, 850, WIDTH);
    assert_eq!(g, Some(Gesture::PullRight));
    assert_eq!(r.anchor, None);
}

#[test]
fn pull_zone_boundaries_are_thirds() {
    // On a strip 300 pixels wide the boundaries sit at 100 and 200 pixels.
    let mut r = Recognizer::new();
    r.on_down(999, 0);
    assert_eq!(r.on_motion(999, 850, WIDTH), Some(Gesture::PullLeft));
    r.on_down(1000, 0);
    assert_eq!(r.on_motion(1000, 850, WIDTH), Some(Gesture::PullMid));
    r.on_down(1999, 0);
    assert_eq!(r.on_motion(1999, 850, WIDTH), Some(Gesture::PullMid));
    r.on_down(2000, 0);
    assert_eq!(r.on_motion(2000, 850, WIDTH), Some(Gesture::PullRight));
}

#[test]
fn dead_zone_motion_emits_nothing() {
    let mut r = Recognizer::new();
    r.on_down(1000, 100);
    let g = r.on_motion(1100, 600, WIDTH);
    assert_eq!(g, None);
    assert_eq!(r.anchor, Some((1000, 100)));
}

#[test]
fn diagonal_pull_within_tolerance_emits() {
    // 30 pixels across is outside the slide rule but inside the pull band.
    let mut r = Recognizer::new();
    r.on_down(500, 0);
    let g = r.on_motion(800, 850, WIDTH);
    assert_eq!(g, Some(Gesture::PullLeft));
}

#[test]
fn up_clears_anchor_without_gesture() {
    let mut r = Recognizer::new();
    r.on_down(1000, 100);
    r.on_motion(1100, 150, WIDTH);
    r.on_up();
    assert_eq!(r.anchor, None);
    assert_eq!(r.on_motion(100, 100, WIDTH), None);
}

#[test]
fn cancel_clears_anchor_without_gesture() {
    let mut r = Recognizer::new();
    r.on_down(1000, 100);
    r.on_cancel();
    assert_eq!(r.anchor, None);
}

#[test]
fn down_while_tracking_overwrites_anchor() {
    let mut r = Recognizer::new();
    r.on_down(1000, 100);
    r.on_down(2000, 200);
    assert_eq!(r.anchor, Some((2000, 200)));
}

#[test]
fn motion_before_any_down_is_ignored() {
    let mut r = Recognizer::new();
    assert_eq!(r.on_motion(1000, 1000, WIDTH), None);
    assert_eq!(r.anchor, None);
}

#[test]
fn slide_exactly_at_threshold_emits_minimum_magnitude() {
    // 20.0 pixels of travel is the threshold; the magnitude is 0.1 pixels.
    let mut r = Recognizer::new();
    r.on_down(1000, 100);
    assert_eq!(r.on_motion(800, 100, WIDTH), Some(Gesture::SlideLeft(1)));
    r.on_down(1000, 100);
    assert_eq!(r.on_motion(1199, 100, WIDTH), None);
}
