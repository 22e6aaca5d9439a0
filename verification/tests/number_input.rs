use bevy_support_misc::ui::number_input::NumberInput;

fn field() -> NumberInput {
    NumberInput { min: -10, max: 100 }
}

#[test]
fn edited_values_are_held_in_bounds() {
    let f = field();
    assert_eq!(f.clamp(50), 50);
    assert_eq!(f.clamp(150), 100);
    assert_eq!(f.clamp(-20), -10);
    assert_eq!(f.clamp(f.clamp(150)), f.clamp(150));
    assert_eq!(f.change_value("150"), Some("100".to_string()));
    assert_eq!(f.change_value("-11"), Some("-10".to_string()));
    assert_eq!(f.change_value("+7"), Some("7".to_string()));
    assert_eq!(f.change_value("abc"), None);
    assert_eq!(f.change_value(""), None);
    assert_eq!(f.change_value("-"), None);
    assert_eq!(f.change_value("99999999999"), None);
}

#[test]
fn crossed_bounds_hold_at_the_minimum() {
    let f = NumberInput { min: 10, max: 0 };
    assert_eq!(f.clamp(5), 10);
    assert_eq!(f.clamp(-5), 10);
}

#[test]
fn steps_stop_at_the_bounds() {
    let f = field();
    assert_eq!(f.increased(5), 6);
    assert_eq!(f.increased(100), 100);
    assert_eq!(f.increased(300), 100);
    assert_eq!(f.reduced(5), 4);
    assert_eq!(f.reduced(-10), -10);
    assert_eq!(f.increase("99"), Some("100".to_string()));
    assert_eq!(f.increase("100"), Some("100".to_string()));
    assert_eq!(f.reduce("-9"), Some("-10".to_string()));
    assert_eq!(f.reduce("-10"), Some("-10".to_string()));
    assert_eq!(f.increase("x"), None);
    assert_eq!(f.reduce("1.5"), None);
}

#[test]
fn steps_at_the_integer_limits_are_refused() {
    let f = NumberInput { min: i32::MIN, max: i32::MAX };
    assert!(!f.can_increase("2147483647"));
    assert!(f.can_increase("2147483646"));
    assert!(f.can_increase("nope"));
    assert!(!f.can_reduce("-2147483648"));
    assert!(f.can_reduce("0"));
    assert_eq!(f.increase("2147483646"), Some("2147483647".to_string()));
}

#[test]
fn stepped_text_reads_back_as_its_number() {
    let f = field();
    let up = f.increase("5").unwrap();
    assert_eq!(up.parse::<i32>(), Ok(6));
    let back = f.reduce(&up).unwrap();
    assert_eq!(back, "5");
    assert_eq!(f.change_value("-7"), Some("-7".to_string()));
}
