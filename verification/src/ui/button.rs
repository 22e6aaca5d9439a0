//! Button effects: shrinking when pressed, lighting up when hovered, toggling on press.
//! Vectors (`V`), offsets (`T`), colors (`C`) and lightening amounts (`L`) are carried, not
//! read; what is done with them is computed where the button is drawn.
use vstd::prelude::*;
use vstd::string::*;

verus! {

/// How the pointer is on a button.
#[derive(PartialEq, Eq, Structural, Debug, Clone, Copy)]
pub enum ButtonInteraction {
    Pressed,
    Hovered,
    Idle,
}

/// How the scale of a button changes.
#[derive(PartialEq, Eq, Structural, Debug)]
pub enum ScaleChange<V> {
    /// It stays as it is.
    Keep,
    /// It becomes the given original scale times the pressed scale of the effect.
    Press(V),
    /// It becomes the given scale.
    To(V),
}

/// How a color of a button changes.
#[derive(PartialEq, Eq, Structural, Debug)]
pub enum Tint<C> {
    /// It becomes the given color made lighter by the effect's amount.
    Lighter(C),
    /// It becomes the given color.
    Plain(C),
}

/// How the background and image colors of a button change; `None` leaves one as it is.
pub struct ColorChange<C> {
    pub background: Option<Tint<C>>,
    pub image: Option<Tint<C>>,
}

/// The state of a pressed-scale effect, field by field.
pub struct ButtonTransformState<V, T> {
    pub scale: V,
    pub translation: T,
    pub orig_scale: V,
    pub orig_translation: T,
    pub in_effect: bool,
}

impl<V, T> ButtonTransformState<V, T> {
    /// The state after the pointer changed to `interaction` on a button at `current_scale`
    /// and `current_translation`, with the change of scale it makes. Pressing shrinks the
    /// button from its resting scale, hovering brings it back to its resting scale, and
    /// leaving restores it if an effect was on; when the pointer leaves, the scale the button
    /// then has and its offset become its resting ones.
    pub open spec fn step(self, interaction: ButtonInteraction, current_scale: V, current_translation: T) -> (
        ButtonTransformState<V, T>,
        ScaleChange<V>,
    ) {
        match interaction {
            ButtonInteraction::Pressed => (
                ButtonTransformState { in_effect: true, ..self },
                ScaleChange::Press(self.orig_scale),
            ),
            ButtonInteraction::Hovered => (
                ButtonTransformState { in_effect: true, ..self },
                ScaleChange::To(self.orig_scale),
            ),
            ButtonInteraction::Idle => (
                ButtonTransformState {
                    orig_scale: if self.in_effect {
                        self.orig_scale
                    } else {
                        current_scale
                    },
                    orig_translation: current_translation,
                    in_effect: false,
                    ..self
                },
                if self.in_effect {
                    ScaleChange::To(self.orig_scale)
                } else {
                    ScaleChange::Keep
                },
            ),
        }
    }
}

/// A button that shrinks to `scale` times its size while pressed.
pub struct ButtonTransformEffect<V, T> {
    pub scale: V,
    pub translation: T,
    orig_scale: V,
    orig_translation: T,
    in_effect: bool,
}

impl<V, T> View for ButtonTransformEffect<V, T> {
    type V = ButtonTransformState<V, T>;

    closed spec fn view(&self) -> ButtonTransformState<V, T> {
        ButtonTransformState {
            scale: self.scale,
            translation: self.translation,
            orig_scale: self.orig_scale,
            orig_translation: self.orig_translation,
            in_effect: self.in_effect,
        }
    }
}

impl<V: Copy, T: Copy> ButtonTransformEffect<V, T> {
    /// An effect that is not in progress, with the given pressed scale and offset and the
    /// button's resting scale and offset.
    pub fn new(scale: V, translation: T, orig_scale: V, orig_translation: T) -> (r: Self)
        ensures
            r@ == (ButtonTransformState { scale, translation, orig_scale, orig_translation, in_effect: false }),
    {
        ButtonTransformEffect { scale, translation, orig_scale, orig_translation, in_effect: false }
    }

    /// The pointer changed to `interaction` on a button at `current_scale` and
    /// `current_translation`. Pressing shrinks it from its resting scale, hovering brings it
    /// back to its resting scale, and leaving restores it if an effect was on; when the
    /// pointer leaves, the scale it then has and its offset become its resting ones.
    pub fn on_interaction(&mut self, interaction: ButtonInteraction, current_scale: V, current_translation: T) -> (r:
        ScaleChange<V>)
        ensures
            (final(self)@, r) == old(self)@.step(interaction, current_scale, current_translation),
            interaction == ButtonInteraction::Pressed ==> r == ScaleChange::Press(old(self)@.orig_scale),
            interaction == ButtonInteraction::Hovered ==> r == ScaleChange::To(old(self)@.orig_scale),
            interaction != ButtonInteraction::Idle ==> {
                &&& final(self)@.in_effect
                &&& final(self)@.orig_scale == old(self)@.orig_scale
                &&& final(self)@.orig_translation == old(self)@.orig_translation
            },
    {
        match interaction {
            ButtonInteraction::Pressed => {
                self.in_effect = true;
                ScaleChange::Press(self.orig_scale)
            },
            ButtonInteraction::Hovered => {
                self.in_effect = true;
                ScaleChange::To(self.orig_scale)
            },
            ButtonInteraction::Idle => {
                let change = if self.in_effect {
                    self.in_effect = false;
                    ScaleChange::To(self.orig_scale)
                } else {
                    self.orig_scale = current_scale;
                    ScaleChange::Keep
                };
                self.orig_translation = current_translation;
                change
            },
        }
    }
}

/// The state of a hover-light effect, field by field.
pub struct ButtonColorState<C, L> {
    pub lighter: L,
    pub orig_bg_color: C,
    pub orig_img_color: C,
    pub in_effect: bool,
}

impl<C, L> ButtonColorState<C, L> {
    /// The state after the pointer changed to `interaction` on a button with background
    /// `current_bg` and, if it has an image, image color `current_img`, with the change of
    /// colors it makes. Hovering lights the resting background and the current image up;
    /// leaving restores the background if an effect was on, and the colors the button then
    /// has become its resting ones; pressing changes nothing.
    pub open spec fn step(self, interaction: ButtonInteraction, current_bg: C, current_img: Option<C>) -> (
        ButtonColorState<C, L>,
        ColorChange<C>,
    ) {
        match interaction {
            ButtonInteraction::Pressed => (self, ColorChange { background: None, image: None }),
            ButtonInteraction::Hovered => (
                ButtonColorState { in_effect: true, ..self },
                ColorChange {
                    background: Some(Tint::Lighter(self.orig_bg_color)),
                    image: match current_img {
                        Some(c) => Some(Tint::Lighter(c)),
                        None => None,
                    },
                },
            ),
            ButtonInteraction::Idle => (
                ButtonColorState {
                    orig_bg_color: if self.in_effect {
                        self.orig_bg_color
                    } else {
                        current_bg
                    },
                    orig_img_color: match current_img {
                        Some(c) => c,
                        None => self.orig_img_color,
                    },
                    in_effect: false,
                    ..self
                },
                ColorChange {
                    background: if self.in_effect {
                        Some(Tint::Plain(self.orig_bg_color))
                    } else {
                        None
                    },
                    image: None,
                },
            ),
        }
    }
}

/// A button that lights up by `lighter` while hovered.
pub struct ButtonColorEffect<C, L> {
    pub lighter: L,
    orig_bg_color: C,
    orig_img_color: C,
    in_effect: bool,
}

impl<C, L> View for ButtonColorEffect<C, L> {
    type V = ButtonColorState<C, L>;

    closed spec fn view(&self) -> ButtonColorState<C, L> {
        ButtonColorState {
            lighter: self.lighter,
            orig_bg_color: self.orig_bg_color,
            orig_img_color: self.orig_img_color,
            in_effect: self.in_effect,
        }
    }
}

impl<C: Copy, L: Copy> ButtonColorEffect<C, L> {
    /// An effect that is not in progress, lighting by `lighter`, with both resting colors
    /// `none` (the transparent color in the game).
    pub fn new(lighter: L, none: C) -> (r: Self)
        ensures
            r@ == (ButtonColorState { lighter, orig_bg_color: none, orig_img_color: none, in_effect: false }),
    {
        ButtonColorEffect { lighter, orig_bg_color: none, orig_img_color: none, in_effect: false }
    }

    /// The resting background color.
    pub fn orig_bg_color(&self) -> (r: C)
        ensures
            r == self@.orig_bg_color,
    {
        self.orig_bg_color
    }

    /// The resting image color.
    pub fn orig_img_color(&self) -> (r: C)
        ensures
            r == self@.orig_img_color,
    {
        self.orig_img_color
    }

    /// The resting background color becomes `color` (a toggle changed it).
    pub fn set_orig_bg_color(&mut self, color: C)
        ensures
            final(self)@ == (ButtonColorState { orig_bg_color: color, ..old(self)@ }),
    {
        self.orig_bg_color = color;
    }

    /// The pointer changed to `interaction` on a button with background `current_bg` and,
    /// if it has an image, image color `current_img`. Hovering lights the resting background
    /// and the current image up; leaving restores the background if an effect was on, and
    /// the colors the button then has become its resting ones; pressing changes nothing.
    pub fn on_interaction(&mut self, interaction: ButtonInteraction, current_bg: C, current_img: Option<C>) -> (r:
        ColorChange<C>)
        ensures
            (final(self)@, r) == old(self)@.step(interaction, current_bg, current_img),
            interaction == ButtonInteraction::Hovered ==> {
                &&& r.background == Some(Tint::Lighter(old(self)@.orig_bg_color))
                &&& final(self)@.in_effect
            },
            interaction == ButtonInteraction::Pressed ==> r.background is None && r.image is None,
            interaction != ButtonInteraction::Idle ==> final(self)@.orig_bg_color == old(self)@.orig_bg_color,
    {
        match interaction {
            ButtonInteraction::Pressed => ColorChange { background: None, image: None },
            ButtonInteraction::Hovered => {
                self.in_effect = true;
                let image = match current_img {
                    Some(c) => Some(Tint::Lighter(c)),
                    None => None,
                };
                ColorChange { background: Some(Tint::Lighter(self.orig_bg_color)), image }
            },
            ButtonInteraction::Idle => {
                let background = if self.in_effect {
                    self.in_effect = false;
                    Some(Tint::Plain(self.orig_bg_color))
                } else {
                    self.orig_bg_color = current_bg;
                    None
                };
                if let Some(c) = current_img {
                    self.orig_img_color = c;
                }
                ColorChange { background, image: None }
            },
        }
    }
}

/// A button that switches between an "on" and an "off" text and color when pressed.
pub struct ButtonToggleEffect<C> {
    pub on_text: String,
    pub off_text: String,
    pub on_color: C,
    pub off_color: C,
    pub enabled: bool,
}

impl<C: Copy> ButtonToggleEffect<C> {
    /// A toggle that is off, reading "On" and "Off", with the given colors.
    pub fn new(on_color: C, off_color: C) -> (r: Self)
        ensures
            r.on_text@ == "On"@,
            r.off_text@ == "Off"@,
            r.on_color == on_color,
            r.off_color == off_color,
            !r.enabled,
    {
        ButtonToggleEffect {
            on_text: String::from_str("On"),
            off_text: String::from_str("Off"),
            on_color,
            off_color,
            enabled: false,
        }
    }

    /// The button was pressed: it switches, and gives the text and color it now shows.
    pub fn press(&mut self) -> (r: (String, C))
        ensures
            final(self).enabled == !old(self).enabled,
            final(self).on_text == old(self).on_text,
            final(self).off_text == old(self).off_text,
            final(self).on_color == old(self).on_color,
            final(self).off_color == old(self).off_color,
            r.0@ == (if final(self).enabled { old(self).on_text@ } else { old(self).off_text@ }),
            r.1 == (if final(self).enabled { old(self).on_color } else { old(self).off_color }),
    {
        self.enabled = !self.enabled;
        if self.enabled {
            (self.on_text.clone(), self.on_color)
        } else {
            (self.off_text.clone(), self.off_color)
        }
    }
}

/// Pressing or hovering a button and then letting go puts it back at the resting scale it
/// had, which stays its resting scale, and ends the effect.
pub proof fn lemma_transform_release_restores<V, T>(
    state: ButtonTransformState<V, T>,
    first: ButtonInteraction,
    scale_between: V,
    translation_between: T,
    scale_after: V,
    translation_after: T,
)
    requires
        first != ButtonInteraction::Idle,
    ensures
        ({
            let (mid, _) = state.step(first, scale_between, translation_between);
            let (end, change) = mid.step(ButtonInteraction::Idle, scale_after, translation_after);
            &&& change == ScaleChange::To(state.orig_scale)
            &&& end.orig_scale == state.orig_scale
            &&& !end.in_effect
        }),
{
}

/// Hovering a button and then letting go puts the resting background back, which stays
/// the resting background, and ends the effect.
pub proof fn lemma_color_release_restores<C, L>(
    state: ButtonColorState<C, L>,
    bg_between: C,
    img_between: Option<C>,
    bg_after: C,
    img_after: Option<C>,
)
    ensures
        ({
            let (mid, _) = state.step(ButtonInteraction::Hovered, bg_between, img_between);
            let (end, change) = mid.step(ButtonInteraction::Idle, bg_after, img_after);
            &&& change.background == Some(Tint::Plain(state.orig_bg_color))
            &&& end.orig_bg_color == state.orig_bg_color
            &&& !end.in_effect
        }),
{
}

/// Pressing never changes the colors of a button.
pub proof fn lemma_color_press_is_inert<C, L>(state: ButtonColorState<C, L>, bg: C, img: Option<C>)
    ensures
        state.step(ButtonInteraction::Pressed, bg, img).0 == state,
        state.step(ButtonInteraction::Pressed, bg, img).1.background is None,
        state.step(ButtonInteraction::Pressed, bg, img).1.image is None,
{
}

/// Pressing shrinks a button from its resting scale whatever came before: right after a
/// hover or a press, a press gives `Press` of the resting scale that the button had before
/// them, as a press on a button at rest does.
pub proof fn lemma_press_shrinks_from_rest<V, T>(
    state: ButtonTransformState<V, T>,
    before: ButtonInteraction,
    scale_before: V,
    translation_before: T,
    scale_pressed: V,
    translation_pressed: T,
)
    requires
        before != ButtonInteraction::Idle,
    ensures
        state.step(ButtonInteraction::Pressed, scale_pressed, translation_pressed).1 == ScaleChange::Press(
            state.orig_scale,
        ),
        ({
            let (mid, _) = state.step(before, scale_before, translation_before);
            let (end, change) = mid.step(ButtonInteraction::Pressed, scale_pressed, translation_pressed);
            &&& change == ScaleChange::Press(state.orig_scale)
            &&& end.orig_scale == state.orig_scale
            &&& end.in_effect
        }),
{
}

/// Every hover lights up the resting background, not the color the button has then: a
/// hover, a press and a second hover light the same color, so clicks never brighten a
/// button step by step.
pub proof fn lemma_hover_lights_the_resting_color<C, L>(
    state: ButtonColorState<C, L>,
    bg1: C,
    img1: Option<C>,
    bg2: C,
    img2: Option<C>,
    bg3: C,
    img3: Option<C>,
)
    ensures
        ({
            let (s1, c1) = state.step(ButtonInteraction::Hovered, bg1, img1);
            let (s2, _) = s1.step(ButtonInteraction::Pressed, bg2, img2);
            let (s3, c3) = s2.step(ButtonInteraction::Hovered, bg3, img3);
            &&& c1.background == Some(Tint::Lighter(state.orig_bg_color))
            &&& c3.background == Some(Tint::Lighter(state.orig_bg_color))
            &&& s3.orig_bg_color == state.orig_bg_color
        }),
{
}

} // verus!
