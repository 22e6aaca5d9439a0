use bevy_support_misc::easing::fraction::{f32_value, reached_end};

fn reference(e: u128, d: u128) -> bool {
    e as f32 / d as f32 >= 1.0
}

fn samples() -> Vec<u128> {
    let mut v: Vec<u128> = vec![0, 1, 2, 3, 999, 1000, 1001];
    for k in [23u32, 24, 25, 26, 30, 53, 64, 100, 103, 104, 126, 127] {
        let p = 1u128 << k;
        for off in [0u128, 1, 2, 3, 4, 5, 7, 8] {
            v.push(p + off);
            v.push(p - off.min(p));
        }
        v.push(p + p / 2);
        v.push(p + (p >> 24));
        v.push(p + (p >> 25));
    }
    let top = u128::MAX;
    for off in [0u128, 1, 1 << 103, (1 << 103) - 1, (1 << 103) + 1, 1 << 104] {
        v.push(top - off);
    }
    let mut x: u128 = 0x9E37_79B9_7F4A_7C15_F39C_C060_5CED_C834;
    for _ in 0..200 {
        x = x.wrapping_mul(0x2360_ED05_1FC6_5DA4_4385_DF64_9FCC_F645).wrapping_add(0x5851_F42D_4C95_7F2D);
        v.push(x >> (x % 100));
    }
    v
}

#[test]
fn end_matches_the_f32_fraction() {
    let s = samples();
    for &e in &s {
        for &d in &s {
            assert_eq!(reached_end(e, d), reference(e, d), "elapsed {e}, duration {d}");
        }
    }
}

#[test]
fn f32_values_round_like_the_cast() {
    for x in samples() {
        let f = x as f32;
        match f32_value(x) {
            Some(v) => assert_eq!(v as f32, f, "value of {x}"),
            None => assert!(f.is_infinite(), "value of {x}"),
        }
        if let Some(v) = f32_value(x) {
            // the value is exactly representable
            assert_eq!((v as f32) as u128, v);
        }
    }
}

#[test]
fn small_durations_end_at_the_duration() {
    assert!(!reached_end(99, 100));
    assert!(reached_end(100, 100));
    assert!(reached_end(101, 100));
    assert!(reached_end(1, 0));
    assert!(!reached_end(0, 0));
    // past 2^24 the rounding can end an easing a little early
    let d = (1u128 << 25) + 2;
    assert!(reached_end(d - 2, d));
    assert!(reached_end(d - 3, d));
    assert!(!reached_end(d - 5, d));
    assert_eq!(reached_end(d - 5, d), reference(d - 5, d));
}

#[test]
fn once_ended_stays_ended() {
    let s = samples();
    for &d in s.iter().step_by(7) {
        for &e1 in s.iter().step_by(3) {
            if reached_end(e1, d) {
                for &e2 in &s {
                    if e2 >= e1 {
                        assert!(reached_end(e2, d), "elapsed {e1} then {e2}, duration {d}");
                    }
                }
            }
        }
    }
}
