use bevy_support_misc::ui::button::{
    ButtonColorEffect, ButtonInteraction, ButtonToggleEffect, ButtonTransformEffect, ScaleChange, Tint,
};

#[test]
fn press_then_release_restores_scale() {
    let mut b = ButtonTransformEffect::new(9, 0, 10, 0);
    assert_eq!(b.on_interaction(ButtonInteraction::Pressed, 10, 0), ScaleChange::Press(10));
    assert_eq!(b.on_interaction(ButtonInteraction::Idle, 9, 0), ScaleChange::To(10));
    // resting again: the scale it rests at is recorded
    assert_eq!(b.on_interaction(ButtonInteraction::Idle, 12, 3), ScaleChange::Keep);
    assert_eq!(b.on_interaction(ButtonInteraction::Hovered, 12, 3), ScaleChange::To(12));
}

#[test]
fn hover_lights_and_leave_restores() {
    let mut c: ButtonColorEffect<u32, u8> = ButtonColorEffect::new(1, 0);
    // resting: the current colors become the resting ones
    let rest = c.on_interaction(ButtonInteraction::Idle, 40, Some(7));
    assert!(rest.background.is_none() && rest.image.is_none());
    assert_eq!(c.orig_bg_color(), 40);
    assert_eq!(c.orig_img_color(), 7);
    let hover = c.on_interaction(ButtonInteraction::Hovered, 40, Some(7));
    assert_eq!(hover.background, Some(Tint::Lighter(40)));
    assert_eq!(hover.image, Some(Tint::Lighter(7)));
    let press = c.on_interaction(ButtonInteraction::Pressed, 41, Some(8));
    assert!(press.background.is_none() && press.image.is_none());
    let leave = c.on_interaction(ButtonInteraction::Idle, 41, Some(8));
    assert_eq!(leave.background, Some(Tint::Plain(40)));
    assert_eq!(c.orig_bg_color(), 40);
    assert_eq!(c.orig_img_color(), 8);
    c.set_orig_bg_color(99);
    assert_eq!(c.orig_bg_color(), 99);
}

#[test]
fn toggle_switches_text_and_color() {
    let mut t = ButtonToggleEffect::new(1u8, 2u8);
    assert_eq!(t.on_text, "On");
    assert_eq!(t.off_text, "Off");
    assert!(!t.enabled);
    assert_eq!(t.press(), ("On".to_string(), 1));
    assert!(t.enabled);
    assert_eq!(t.press(), ("Off".to_string(), 2));
    assert!(!t.enabled);
}
