use bevy_rand::prelude::WyRand;
use bevy_support_misc::mini_event::{
    can_extend, extended_elapsed_ns, tick_signal, tick_target, MiniEventExtend, MiniEventSetting, MiniEventSignal,
    TickTarget, NANOS_PER_MILLI,
};
use rand::SeedableRng;

#[test]
fn gap_is_drawn_from_the_range() {
    let mut rng = WyRand::seed_from_u64(7);
    let setting = MiniEventSetting { min_gap: 500, max_gap: 1000 };
    for _ in 0..200 {
        let g = setting.next_gap_ms(&mut rng);
        assert!((500..1000).contains(&g));
    }
    let narrow = MiniEventSetting { min_gap: 41, max_gap: 42 };
    assert_eq!(narrow.next_gap_ms(&mut rng), 41);
}

#[test]
fn equal_bounds_give_that_gap() {
    let mut rng = WyRand::seed_from_u64(1);
    let setting = MiniEventSetting { min_gap: 300, max_gap: 300 };
    assert_eq!(setting.next_gap_ms(&mut rng), 300);
    assert_eq!(MiniEventSetting::default().next_gap_ms(&mut rng), 0);
}

#[test]
fn crossed_bounds_give_no_gap() {
    let mut rng = WyRand::seed_from_u64(1);
    let setting = MiniEventSetting { min_gap: 900, max_gap: 100 };
    assert_eq!(setting.next_gap_ms(&mut rng), 0);
    assert_eq!(setting.reschedule(&mut rng).next_gap_ms, 0);
}

#[test]
fn only_one_timer_ticks() {
    assert_eq!(tick_target(false, false), TickTarget::NextEvent);
    assert_eq!(tick_target(false, true), TickTarget::NextEvent);
    assert_eq!(tick_target(true, false), TickTarget::CurrentEvent);
    assert_eq!(tick_target(true, true), TickTarget::Idle);
}

#[test]
fn begin_is_reported_before_end() {
    assert_eq!(tick_signal(true, true), Some(MiniEventSignal::Begin));
    assert_eq!(tick_signal(true, false), Some(MiniEventSignal::Begin));
    assert_eq!(tick_signal(false, true), Some(MiniEventSignal::End));
    assert_eq!(tick_signal(false, false), None);
}

#[test]
fn extending_sets_the_timer_back() {
    let elapsed = 2_500 * NANOS_PER_MILLI;
    assert!(can_extend(elapsed, &MiniEventExtend(2_500)));
    assert!(!can_extend(elapsed, &MiniEventExtend(2_501)));
    assert_eq!(extended_elapsed_ns(elapsed, &MiniEventExtend(1_000)), 1_500 * NANOS_PER_MILLI);
    assert_eq!(extended_elapsed_ns(elapsed, &MiniEventExtend(2_500)), 0);
}

#[test]
fn gaps_vary() {
    let mut rng = WyRand::seed_from_u64(3);
    let setting = MiniEventSetting { min_gap: 0, max_gap: 1_000_000 };
    let gaps: Vec<u64> = (0..50).map(|_| setting.next_gap_ms(&mut rng)).collect();
    assert!(gaps.iter().any(|g| *g != gaps[0]));
    assert!(gaps.iter().any(|g| *g != 0));
}
