use bevy_support_misc::easing::popout::PopoutEffect;
use bevy_support_misc::easing::scale::ScaleEasingEffect;
use bevy_support_misc::easing::translation::TranslationEasingEffect;

#[derive(Clone, Copy, Debug, PartialEq)]
struct V(i32);

#[derive(Clone, Copy, Debug, PartialEq)]
enum Ease {
    ElasticOut,
    Linear,
}

#[test]
fn popout_builder() {
    let e: ScaleEasingEffect<V, Ease> = ScaleEasingEffect::popout(V(1), 2000, Ease::ElasticOut);
    assert_eq!(e.duration_ms, 2000);
    assert_eq!(e.function, Some(Ease::ElasticOut));
    assert_eq!(e.orig_scale(), None);
    assert_eq!(e.elapsed(), 0);
    assert!(!e.repeat);
    let e = e.with_duration(10).with_scale_gap(V(3)).with_ease_function(Ease::Linear).with_repeat(true);
    assert_eq!(e.duration_ms, 10);
    assert_eq!(e.scale_gap, V(3));
    assert_eq!(e.function, Some(Ease::Linear));
    assert!(e.repeat);
}

#[test]
fn first_update_records_the_original_scale() {
    let mut e = ScaleEasingEffect::popout(V(1), 100, Ease::ElasticOut);
    assert_eq!(e.advance(V(5), 30), Some(V(5)));
    assert_eq!(e.orig_scale(), Some(V(5)));
    assert_eq!(e.elapsed(), 30);
    // later updates keep the start
    assert_eq!(e.advance(V(9), 30), Some(V(5)));
    assert_eq!(e.elapsed(), 60);
    assert!(e.finish().is_none());
}

#[test]
fn ended_easing_stops_or_repeats() {
    let mut e = ScaleEasingEffect::popout(V(1), 100, Ease::ElasticOut);
    e.advance(V(1), 150);
    let ended = e.finish().expect("end reported");
    assert_eq!(ended.0, Ease::ElasticOut);
    assert_eq!(e.elapsed(), 150);
    // past its duration it no longer runs
    assert_eq!(e.advance(V(1), 10), None);
    assert_eq!(e.elapsed(), 150);

    let mut r = ScaleEasingEffect::popout(V(1), 100, Ease::ElasticOut).with_repeat(true);
    r.advance(V(1), 100);
    assert!(r.finish().is_some());
    assert_eq!(r.elapsed(), 0);
    assert_eq!(r.advance(V(1), 10), Some(V(1)));
}

#[test]
fn effect_without_function_is_still() {
    let mut e: ScaleEasingEffect<V, Ease> = ScaleEasingEffect::new(V(0));
    assert_eq!(e.advance(V(4), 10), None);
    assert_eq!(e.orig_scale(), None);
    assert_eq!(e.elapsed(), 0);
}

#[test]
fn overflowing_update_is_detected() {
    let mut e = ScaleEasingEffect::popout(V(1), u128::MAX, Ease::Linear);
    e.advance(V(1), u128::MAX - 5);
    assert!(e.can_advance(5));
    assert!(!e.can_advance(6));
}

#[test]
fn shake_starts_below_the_original() {
    let mut t = TranslationEasingEffect::shake(V(2), V(10), V(8), 500, Ease::Linear);
    assert_eq!(t.orig_translation(), Some(V(10)));
    assert_eq!(t.advance(V(0), 100), Some(V(8)));
    assert_eq!(t.orig_translation(), Some(V(10)));
    assert_eq!(t.elapsed(), 100);
    let t = t.with_duration(50).with_translation_gap(V(1)).with_ease_function(Ease::ElasticOut);
    assert_eq!(t.duration_ms(), 50);
    assert_eq!(t.translation_gap(), V(1));
    assert_eq!(t.function(), Some(Ease::ElasticOut));
}

#[test]
fn popout_records_original_even_when_done() {
    let mut p = PopoutEffect::new(V(2), 100);
    assert_eq!(p.advance(V(1), 60), Some(V(1)));
    assert_eq!(p.advance(V(7), 60), Some(V(1)));
    assert_eq!(p.elapsed(), 120);
    assert_eq!(p.advance(V(7), 60), None);
    assert_eq!(p.elapsed(), 120);
    assert_eq!(p.orig_scale(), Some(V(1)));
    assert_eq!(p.target_scale(), V(2));

    let mut q = PopoutEffect::new(V(2), 0);
    q.advance(V(3), 1);
    let mut late = PopoutEffect::new(V(2), 0);
    late.advance(V(3), 1);
    assert_eq!(late.advance(V(4), 1), None);
    assert_eq!(late.orig_scale(), Some(V(3)));
}

#[test]
fn translation_end_follows_the_fraction() {
    let mut t = TranslationEasingEffect::shake(V(2), V(10), V(8), 100, Ease::Linear);
    t.advance(V(0), 99);
    assert!(!t.reached_end());
    t.advance(V(0), 1);
    assert!(t.reached_end());
    let z: TranslationEasingEffect<V, Ease> = TranslationEasingEffect::new(V(0));
    assert!(!z.reached_end());
}
