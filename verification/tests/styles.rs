use prompt_toolkit::color::{AnsiColor, Color};
use prompt_toolkit::style::{
    Attrs, AttrSetting, DummyStyle, DynamicStyle, StandardStyle, Style, StyleSource,
};

struct SomeDummy;

impl StyleSource for SomeDummy {
    fn get_style(&self) -> Option<Box<dyn Style>> {
        Some(Box::new(DummyStyle))
    }
}

struct NoStyle;

impl StyleSource for NoStyle {
    fn get_style(&self) -> Option<Box<dyn Style>> {
        None
    }
}

#[test]
fn test_dummy_style() {
    let dummy = DummyStyle;
    let default_attrs = Attrs::default();
    let attrs = Attrs::default();

    assert_eq!(dummy.get_attrs("any_style", attrs), default_attrs);
    assert!(dummy.style_rules().is_empty());
    assert_eq!(dummy.invalidation_hash(), 1);
}

#[test]
fn test_dynamic_style() {
    let dynamic = DynamicStyle::new(Box::new(SomeDummy));
    let default_attrs = Attrs::default();
    let attrs = Attrs::default();

    assert_eq!(dynamic.get_attrs("any_style", attrs), default_attrs);
    assert!(dynamic.style_rules().is_empty());
    assert_eq!(dynamic.invalidation_hash(), 1);
}

#[test]
fn test_dynamic_style_none() {
    let dynamic = DynamicStyle::new(Box::new(NoStyle));
    let default_attrs = Attrs::default();
    let attrs = Attrs::default();

    assert_eq!(dynamic.get_attrs("any_style", attrs), default_attrs);
    assert!(dynamic.style_rules().is_empty());
    assert_eq!(dynamic.invalidation_hash(), 1);
}

#[test]
fn test_attr_setting_merge() {
    assert_eq!(AttrSetting::Automatic.merge(AttrSetting::Enabled), AttrSetting::Enabled);
    assert_eq!(AttrSetting::Automatic.merge(AttrSetting::Disabled), AttrSetting::Disabled);
    assert_eq!(AttrSetting::Automatic.merge(AttrSetting::Automatic), AttrSetting::Automatic);

    assert_eq!(AttrSetting::Enabled.merge(AttrSetting::Automatic), AttrSetting::Enabled);
    assert_eq!(AttrSetting::Enabled.merge(AttrSetting::Disabled), AttrSetting::Enabled);
    assert_eq!(AttrSetting::Disabled.merge(AttrSetting::Enabled), AttrSetting::Disabled);
}

#[test]
fn test_attrs_merge() {
    let attr1 = Attrs {
        color: Some(Color::Ansi(AnsiColor::Red)),
        background_color: None,
        bold: AttrSetting::Enabled,
        underline: AttrSetting::Automatic,
        strike: AttrSetting::Disabled,
        italic: AttrSetting::Automatic,
        blink: AttrSetting::Disabled,
        reverse: AttrSetting::Automatic,
        hidden: AttrSetting::Automatic,
    };

    let attr2 = Attrs {
        color: None,
        background_color: Some(Color::Ansi(AnsiColor::Blue)),
        bold: AttrSetting::Automatic,
        underline: AttrSetting::Enabled,
        strike: AttrSetting::Enabled,
        italic: AttrSetting::Disabled,
        blink: AttrSetting::Automatic,
        reverse: AttrSetting::Automatic,
        hidden: AttrSetting::Automatic,
    };

    let merged = Attrs::merge(&[attr1, attr2]);

    assert_eq!(merged.color, Some(Color::Ansi(AnsiColor::Red)));
    assert_eq!(merged.background_color, Some(Color::Ansi(AnsiColor::Blue)));
    assert_eq!(merged.bold, AttrSetting::Enabled);
    assert_eq!(merged.underline, AttrSetting::Enabled);
    assert_eq!(merged.strike, AttrSetting::Enabled);
    assert_eq!(merged.italic, AttrSetting::Disabled);
    assert_eq!(merged.blink, AttrSetting::Disabled);
    assert_eq!(merged.reverse, AttrSetting::Disabled);
    assert_eq!(merged.hidden, AttrSetting::Disabled);
}

#[test]
fn test_attr_setting_is_on() {
    assert!(AttrSetting::Enabled.is_on());
    assert!(!AttrSetting::Disabled.is_on());
    assert!(!AttrSetting::Automatic.is_on());
}

#[test]
fn test_merge_single_complete_record() {
    let x = Attrs {
        color: Some(Color::Hex(1, 2, 3)),
        background_color: Some(Color::Default),
        bold: AttrSetting::Enabled,
        underline: AttrSetting::Disabled,
        strike: AttrSetting::Disabled,
        italic: AttrSetting::Enabled,
        blink: AttrSetting::Disabled,
        reverse: AttrSetting::Disabled,
        hidden: AttrSetting::Disabled,
    };
    assert_eq!(Attrs::merge(&[x]), x);
}

#[test]
fn test_from_style_string_flags_and_colors() {
    let a = Attrs::from_style_string("bold fg:#ff0000 bg:ansiblue underline");
    assert_eq!(a.bold, AttrSetting::Enabled);
    assert_eq!(a.underline, AttrSetting::Enabled);
    assert_eq!(a.color, Some(Color::Hex(0xff, 0, 0)));
    assert_eq!(a.background_color, Some(Color::Ansi(AnsiColor::Blue)));
    assert_eq!(a.italic, AttrSetting::Automatic);
}

#[test]
fn test_from_style_string_noinherit() {
    let a = Attrs::from_style_string("noinherit italic");
    assert_eq!(a.italic, AttrSetting::Enabled);
    assert_eq!(a.bold, AttrSetting::Disabled);
    assert_eq!(a.color, Some(Color::Default));
}

#[test]
fn test_from_style_string_ignores_unknown_tokens() {
    let a = Attrs::from_style_string("red fg:notacolor shiny");
    assert_eq!(a, Attrs::empty());
}

#[test]
fn test_standard_style_compiles_rules() {
    let rules = vec![
        ("window title".to_string(), "bold fg:ansired".to_string()),
        ("".to_string(), "italic".to_string()),
    ];
    let style = StandardStyle::new(rules).expect("rules should compile");

    // No class context: only the rule with no class names applies.
    let got = style.get_attrs("underline", Attrs::default());
    assert_eq!(got.bold, AttrSetting::Disabled);
    assert_eq!(got.underline, AttrSetting::Enabled);
    assert_eq!(got.color, Some(Color::Default));
    assert_eq!(got.italic, AttrSetting::Enabled);

    // A context naming both classes brings the first rule in.
    let got = style.get_attrs("class:window,title underline", Attrs::default());
    assert_eq!(got.bold, AttrSetting::Enabled);
    assert_eq!(got.underline, AttrSetting::Enabled);
    assert_eq!(got.color, Some(Color::Ansi(AnsiColor::Red)));
    assert_eq!(got.italic, AttrSetting::Enabled);

    // A partial context does not: the rule needs all of its class names.
    let got = style.get_attrs("class:window", Attrs::default());
    assert_eq!(got.bold, AttrSetting::Disabled);
    assert_eq!(got.color, Some(Color::Default));
}

#[test]
fn test_standard_style_class_context_folds_case() {
    let rules = vec![("pane".to_string(), "bold".to_string())];
    let style = StandardStyle::new(rules).expect("valid");
    let got = style.get_attrs("class:PANE,other", Attrs::default());
    assert_eq!(got.bold, AttrSetting::Enabled);
    let got = style.get_attrs("class:other", Attrs::default());
    assert_eq!(got.bold, AttrSetting::Disabled);
}

#[test]
fn test_standard_style_rejects_bad_class_names() {
    let rules = vec![("Window!".to_string(), "bold".to_string())];
    let err = StandardStyle::new(rules);
    assert!(err.is_err());
}

#[test]
fn test_standard_style_hash_is_stable() {
    let rules = vec![("pane".to_string(), "bold".to_string())];
    let s1 = StandardStyle::new(rules.clone()).expect("valid");
    let s2 = StandardStyle::new(rules).expect("valid");
    assert_eq!(s1.invalidation_hash(), s2.invalidation_hash());
}
