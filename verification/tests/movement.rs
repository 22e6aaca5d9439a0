use bevy_support_misc::transform::fading::{Fade, FadeSupport};
use bevy_support_misc::transform::movement::{arrive, Destination, Movement};

#[test]
fn circle_comes_back_to_the_start() {
    let start = vec![1, 2, 3, 4];
    let mut route = start.clone();
    arrive(&mut route, true);
    assert_eq!(route, vec![2, 3, 4, 1]);
    for _ in 1..start.len() {
        arrive(&mut route, true);
    }
    assert_eq!(route, start);
}

#[test]
fn line_shrinks() {
    let mut route = vec![1, 2, 3];
    arrive(&mut route, false);
    assert_eq!(route, vec![2, 3]);
    arrive(&mut route, false);
    arrive(&mut route, false);
    assert!(route.is_empty());
}

#[test]
fn movement_speed_and_freezing() {
    let mut m = Movement {
        velocity: 5u32,
        des: vec![Destination { pos: 1, custom_velocity: Some(9u32) }, Destination::from_pos(2)],
        circle: false,
        is_freezed: false,
    };
    assert_eq!(m.travel_speed(), Some(9));
    m.arrived();
    assert_eq!(m.travel_speed(), Some(5));
    m.freeze();
    assert_eq!(m.travel_speed(), None);
    m.go();
    assert_eq!(m.travel_speed(), Some(5));
    m.arrived();
    assert_eq!(m.travel_speed(), None);
}

#[test]
fn fades() {
    let mut f = FadeSupport::new(3u8, Fade::Out, true);
    assert!(!f.fade().shows_entity());
    assert!(f.despawn_on_finish());
    f.change(Fade::In);
    assert!(f.fade().shows_entity());
    *f.timer_mut() = 4;
    assert_eq!(*f.timer(), 4);
    assert_eq!(Fade::default(), Fade::In);
}
