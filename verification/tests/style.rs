use branchless_test::style::TextStyle;
use cursive::theme::{BaseColor, Effect, Style};

#[test]
fn styles_of_results_are_bold_and_light() {
    assert_eq!(
        TextStyle::Success.to_style(),
        Style::merge(&[BaseColor::Green.light().into(), Effect::Bold.into()])
    );
    assert_eq!(
        TextStyle::Failure.to_style(),
        Style::merge(&[BaseColor::Red.light().into(), Effect::Bold.into()])
    );
    assert_eq!(
        TextStyle::Skipped.to_style(),
        Style::merge(&[BaseColor::Yellow.light().into(), Effect::Bold.into()])
    );
}

#[test]
fn bold_style_has_no_color() {
    let style = TextStyle::Bold.to_style();
    assert_eq!(style, Style::from(Effect::Bold));
    assert!(style.effects.contains(Effect::Bold));
    assert_eq!(style.color, Style::none().color);
}

#[test]
fn error_style_is_not_bold() {
    let style = TextStyle::Error.to_style();
    assert_eq!(style, Style::from(BaseColor::Red.light()));
    assert!(style.effects.is_empty());
}

#[test]
fn merged_style_has_effect_and_color() {
    let style = TextStyle::Success.to_style();
    assert_eq!(style.effects.len(), 1);
    assert!(style.effects.contains(Effect::Bold));
    assert_eq!(style.color, Style::from(BaseColor::Green.light()).color);
}
