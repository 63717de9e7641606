//! How shown text looks, and the terminal styles that stand for it.
use vstd::prelude::*;
use cursive::theme::{BaseColor, Effect, Style};

verus! {

/// A style of the terminal library: the effects and the colors that are applied to a text.
#[verifier::external_type_specification]
#[verifier::external_body]
pub struct ExStyle(Style);

/// The light colors that are used.
#[derive(Clone, Copy, Debug, PartialEq, Eq, Structural)]
pub enum LightColor {
    Red,
    Green,
    Yellow,
}

/// The effects that the terminal library knows.
#[derive(Clone, Copy, Debug, PartialEq, Eq, Structural)]
pub enum TextEffect {
    Simple,
    Reverse,
    Dim,
    Bold,
    Italic,
    Strikethrough,
    Underline,
    Blink,
}

/// A color that a style asks for.
pub enum Paint {
    Light(LightColor),
    /// Any color that is not used here.
    Other,
}

/// The effects that a style applies.
pub uninterp spec fn style_effects(style: Style) -> Set<TextEffect>;

/// The color in which a style paints the text, unless it keeps the color around it.
pub uninterp spec fn style_front(style: Style) -> Option<Paint>;

/// The color in which a style paints the background, unless it keeps the color around it.
pub uninterp spec fn style_back(style: Style) -> Option<Paint>;

/// `Style::from` of the color that `BaseColor::light` gives: the style has no effect, paints the
/// text in the light color, and keeps the background.
#[verifier::external_body]
fn light_style(color: LightColor) -> (style: Style)
    ensures
        style_effects(style) == Set::<TextEffect>::empty(),
        style_front(style) == Some(Paint::Light(color)),
        style_back(style) == None::<Paint>,
{
    match color {
        LightColor::Red => Style::from(BaseColor::Red.light()),
        LightColor::Green => Style::from(BaseColor::Green.light()),
        LightColor::Yellow => Style::from(BaseColor::Yellow.light()),
    }
}

/// `Style::from` of an effect: the style has this effect alone, and keeps both colors.
#[verifier::external_body]
fn effect_style(effect: TextEffect) -> (style: Style)
    ensures
        style_effects(style) == set![effect],
        style_front(style) == None::<Paint>,
        style_back(style) == None::<Paint>,
{
    match effect {
        TextEffect::Simple => Style::from(Effect::Simple),
        TextEffect::Reverse => Style::from(Effect::Reverse),
        TextEffect::Dim => Style::from(Effect::Dim),
        TextEffect::Bold => Style::from(Effect::Bold),
        TextEffect::Italic => Style::from(Effect::Italic),
        TextEffect::Strikethrough => Style::from(Effect::Strikethrough),
        TextEffect::Underline => Style::from(Effect::Underline),
        TextEffect::Blink => Style::from(Effect::Blink),
    }
}

/// The effects of any of the styles.
pub open spec fn all_effects(styles: Seq<Style>) -> Set<TextEffect> {
    Set::new(
        |effect: TextEffect|
            exists|i: int|
                0 <= i < styles.len() && (#[trigger] style_effects(styles[i])).contains(effect),
    )
}

/// The last color that is asked for.
pub open spec fn last_paint(paints: Seq<Option<Paint>>) -> Option<Paint>
    decreases paints.len(),
{
    if paints.len() == 0 {
        None
    } else if paints.last() is Some {
        paints.last()
    } else {
        last_paint(paints.drop_last())
    }
}

/// `Style::merge` combines all effects, and takes the last front and the last back color that one
/// of the styles asks for.
pub assume_specification[ Style::merge ](styles: &[Style]) -> (merged: Style)
    ensures
        style_effects(merged) == all_effects(styles@),
        style_front(merged) == last_paint(styles@.map_values(|style: Style| style_front(style))),
        style_back(merged) == last_paint(styles@.map_values(|style: Style| style_back(style))),
;

/// The looks that text is shown in.
#[derive(Clone, Copy, Debug, PartialEq, Eq, Structural)]
pub enum TextStyle {
    /// A test that passed.
    Success,
    /// A test that failed.
    Failure,
    /// A test that could not be run.
    Skipped,
    /// Emphasis.
    Bold,
    /// An error of the program itself.
    Error,
}

impl TextStyle {
    /// The light color of the text, if it has one of its own.
    pub open spec fn color(self) -> Option<LightColor> {
        match self {
            TextStyle::Success => Some(LightColor::Green),
            TextStyle::Failure | TextStyle::Error => Some(LightColor::Red),
            TextStyle::Skipped => Some(LightColor::Yellow),
            TextStyle::Bold => None,
        }
    }

    /// Whether the text is bold.
    pub open spec fn is_bold(self) -> bool {
        self != TextStyle::Error
    }

    /// The terminal style for this look.
    pub fn to_style(self) -> (style: Style)
        ensures
            style_effects(style) == if self.is_bold() {
                set![TextEffect::Bold]
            } else {
                Set::<TextEffect>::empty()
            },
            style_front(style) == match self.color() {
                Some(color) => Some(Paint::Light(color)),
                None => None,
            },
            style_back(style) == None::<Paint>,
    {
        match self {
            TextStyle::Success => bold_style(LightColor::Green),
            TextStyle::Failure => bold_style(LightColor::Red),
            TextStyle::Skipped => bold_style(LightColor::Yellow),
            TextStyle::Bold => effect_style(TextEffect::Bold),
            TextStyle::Error => light_style(LightColor::Red),
        }
    }
}

/// Bold text in a light color.
fn bold_style(color: LightColor) -> (style: Style)
    ensures
        style_effects(style) == set![TextEffect::Bold],
        style_front(style) == Some(Paint::Light(color)),
        style_back(style) == None::<Paint>,
{
    let styles: [Style; 2] = [light_style(color), effect_style(TextEffect::Bold)];
    let merged = Style::merge(&styles);
    proof {
        reveal_with_fuel(last_paint, 3);
        assert(style_effects(styles@[1]).contains(TextEffect::Bold));
        assert(all_effects(styles@) =~= set![TextEffect::Bold]);
    }
    merged
}

/// Results are bold, in light green if the test passed, in light red if it failed, and in light
/// yellow if it was skipped. Emphasis is bold in the color around it, and an error of the program is
/// light red without being bold.
pub proof fn law_looks(look: TextStyle)
    ensures
        look.color() == Some(LightColor::Green) <==> look == TextStyle::Success,
        look.color() == Some(LightColor::Red) <==> look == TextStyle::Failure || look
            == TextStyle::Error,
        look.color() == Some(LightColor::Yellow) <==> look == TextStyle::Skipped,
        look.color() is None <==> look == TextStyle::Bold,
        look.is_bold() <==> look == TextStyle::Success || look == TextStyle::Failure || look
            == TextStyle::Skipped || look == TextStyle::Bold,
{
}

/// A color that is followed only by styles that keep the color around them is the last one.
pub proof fn law_last_paint(paints: Seq<Option<Paint>>, i: int)
    requires
        0 <= i < paints.len(),
        paints[i] is Some,
        forall|j: int| i < j < paints.len() ==> #[trigger] paints[j] is None,
    ensures
        last_paint(paints) == paints[i],
    decreases paints.len(),
{
    if i < paints.len() - 1 {
        assert(paints.last() is None);
        law_last_paint(paints.drop_last(), i);
    }
}

/// Two styles together have the effects of the one and of the other, and no more.
pub proof fn law_merged_effects(a: Style, b: Style)
    ensures
        all_effects(seq![a, b]) == style_effects(a).union(style_effects(b)),
{
    let styles = seq![a, b];
    assert(styles[0] == a && styles[1] == b);
    assert forall|effect: TextEffect|
        style_effects(a).contains(effect) || style_effects(b).contains(effect) implies all_effects(
        styles,
    ).contains(effect) by {
        if style_effects(a).contains(effect) {
            assert(style_effects(styles[0]).contains(effect));
        } else {
            assert(style_effects(styles[1]).contains(effect));
        }
    }
    assert(all_effects(styles) =~= style_effects(a).union(style_effects(b)));
}

} // verus!
