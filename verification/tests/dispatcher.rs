//! Tests for the action dispatcher's command lines and magnitude formatting.

use topborder::dispatch::{command_args, format_tenths};
use topborder::gesture::Gesture;

fn strings(v: &[&str]) -> Vec<String> {
    v.iter().map(|s| s.to_string()).collect()
}

#[test]
fn slide_left_command_line() {
    let args = command_args(&Gesture::SlideLeft(51));
    assert_eq!(args, strings(&["sh", "gestures.sh", "TopEdgeSlideLeft", "5.1"]));
}

#[test]
fn slide_right_command_line() {
    let args = command_args(&Gesture::SlideRight(51));
    assert_eq!(args, strings(&["sh", "gestures.sh", "TopEdgeSlideRight", "5.1"]));
}

#[test]
fn pull_command_lines() {
    assert_eq!(
        command_args(&Gesture::PullLeft),
        strings(&["sh", "gestures.sh", "TopEdgePullLeft"])
    );
    assert_eq!(
        command_args(&Gesture::PullMid),
        strings(&["sh", "gestures.sh", "TopEdgePullMid"])
    );
    assert_eq!(
        command_args(&Gesture::PullRight),
        strings(&["sh", "gestures.sh", "TopEdgePullRight"])
    );
}

#[test]
fn magnitudes_format_as_pixels() {
    assert_eq!(format_tenths(51), "5.1");
    assert_eq!(format_tenths(1), "0.1");
    assert_eq!(format_tenths(5), "0.5");
    assert_eq!(format_tenths(10), "1.0");
    assert_eq!(format_tenths(1234), "123.4");
    assert_eq!(format_tenths(0), "0.0");
}

#[test]
fn dispatch_twice_gives_identical_arguments() {
    let g = Gesture::SlideLeft(51);
    let first = command_args(&g);
    let second = command_args(&g);
    assert_eq!(first, second);
}
