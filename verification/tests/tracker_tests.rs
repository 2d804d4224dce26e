use ozpv::geometry::Point;
use ozpv::tracker::{EyeTracker, LEFT_EYE_X, LEFT_EYE_Y, RIGHT_EYE_X, RIGHT_EYE_Y};

#[test]
fn anchors_match_the_layout() {
    assert_eq!((RIGHT_EYE_X, RIGHT_EYE_Y), (260, 218));
    assert_eq!((LEFT_EYE_X, LEFT_EYE_Y), (386, 218));
}

#[test]
fn attached_tracker_updates_both_eyes() {
    let tracker = EyeTracker::new();
    let parent = Point { x: 0, y: 0 };
    let pointer = Point { x: 310, y: 218 };
    let (right, left) = tracker.pointer_moved(parent, pointer, true, true);
    // Right eye: delta (50, 0), full amplitude to the right.
    assert_eq!(right, Some(Point { x: 295, y: 218 }));
    // Left eye: delta (-76, 0), full amplitude to the left.
    assert_eq!(left, Some(Point { x: 351, y: 218 }));
}

#[test]
fn container_offset_shifts_the_anchors() {
    let tracker = EyeTracker::new();
    let parent = Point { x: 10, y: 20 };
    let pointer = Point { x: 320, y: 238 };
    // The absolute right anchor is (270, 238); the delta is again (50, 0).
    let (right, _) = tracker.pointer_moved(parent, pointer, true, true);
    assert_eq!(right, Some(Point { x: 295, y: 218 }));
}

#[test]
fn missing_eye_is_skipped_without_affecting_the_other() {
    let tracker = EyeTracker::new();
    let parent = Point { x: 0, y: 0 };
    let pointer = Point { x: 310, y: 218 };
    let (right, left) = tracker.pointer_moved(parent, pointer, false, true);
    assert_eq!(right, None);
    assert_eq!(left, Some(Point { x: 351, y: 218 }));
    let (right, left) = tracker.pointer_moved(parent, pointer, true, false);
    assert_eq!(right, Some(Point { x: 295, y: 218 }));
    assert_eq!(left, None);
}

#[test]
fn unmounted_tracker_never_updates() {
    let mut tracker = EyeTracker::new();
    tracker.unmount();
    let parent = Point { x: 0, y: 0 };
    let pointer = Point { x: 310, y: 218 };
    let (right, left) = tracker.pointer_moved(parent, pointer, true, true);
    assert_eq!(right, None);
    assert_eq!(left, None);
}
