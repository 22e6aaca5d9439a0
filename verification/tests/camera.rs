use bevy_support_misc::camera::camera_follows;

#[test]
fn camera_follows_one_locked_target() {
    assert!(camera_follows(1, false));
}

#[test]
fn camera_stays_when_target_is_free() {
    assert!(!camera_follows(1, true));
}

#[test]
fn camera_stays_without_a_single_target() {
    assert!(!camera_follows(0, false));
    assert!(!camera_follows(2, false));
}
