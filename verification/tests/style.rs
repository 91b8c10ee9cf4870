use ansi_style::AnsiStyle;
use ansi_style::Color;
use ansi_style::PaletteColor;

#[test]
fn new_style_is_plain() {
    let style = AnsiStyle::new();

    assert!(style.is_plain(), "Not plain")
}

#[test]
fn flag_positions() {
    let style = AnsiStyle {
        flags: 0b101,
        ..Default::default()
    };

    assert!(style.g_bold(), "Style should be bold");
    assert!(!style.g_italic(), "Style shouldn't be italic");
    assert!(style.g_underline(), "Style should be underlined");
    assert!(!style.g_strikethrough(), "Style shouldn't be strikethrough");
}

#[test]
fn mutate_flags() {
    let mut style = AnsiStyle::new();
    assert_eq!(style.flags, 0, "flags should be 0");

    style.m_bold(true);
    assert_eq!(style.flags, 1, "flags should be 1");

    style.m_italic(true);
    assert_eq!(style.flags, 3, "flags should be 3");

    style.m_underline(true);
    assert_eq!(style.flags, 7, "flags should be 7");

    style.m_strikethrough(true);
    assert_eq!(style.flags, 15, "flags should be 15");
}

#[test]
fn plain_m_apply_shouldnt_modify() {
    let plain_style = AnsiStyle::new();
    let mut text = String::from("Hello world!");

    plain_style.m_apply(&mut text);

    assert_eq!(
        &text[..],
        "Hello world!",
        "String was modified by a plain style, got {text}"
    );

    plain_style.m_apply_with_reset(&mut text);

    assert_eq!(
        &text[..],
        "Hello world!",
        "String was modified by a plain style, got {text}"
    )
}

#[test]
fn m_apply_modify() {
    let style = AnsiStyle {
        flags: 0b1,
        ..Default::default()
    };
    let mut text = String::from("Hello world!");
    let expected = "\x1b[1mHello world!";

    assert_eq!(
        &text[..],
        "Hello world!" // "String doesn't equal Hello world?"
    );

    style.m_apply(&mut text);

    assert_eq!(
        &text[..],
        expected,
        "Expected: {:3?}\nGot: {:3?}",
        expected.as_bytes(),
        text.as_bytes()
    );
}

#[test]
fn plain_apply_shouldnt_differ() {
    let style = AnsiStyle::new();
    let input_text = String::from("Hello world!");

    assert_eq!(
        &input_text[..],
        "Hello world!" // "String doesn't equal Hello world?"
    );

    let output_text = style.apply(&input_text);

    assert_eq!(
        output_text,
        input_text // "Output text doesn't match input text"
    )
}

#[test]
fn setter_true_then_false_restores_all_clear() {
    let mut style = AnsiStyle::new();

    style.m_underline(true);
    assert!(style.g_underline());
    style.m_underline(false);
    assert!(!style.g_underline());
    assert_eq!(style.flags, 0);
    assert!(style.is_plain());
}

#[test]
fn setter_twice_equals_once() {
    let mut once = AnsiStyle::new();
    once.m_blinking(true);

    let mut twice = AnsiStyle::new();
    twice.m_blinking(true);
    twice.m_blinking(true);

    assert_eq!(once.flags, twice.flags);

    let mut cleared_once = AnsiStyle::new();
    cleared_once.m_blinking(true);
    cleared_once.m_blinking(false);

    let mut cleared_twice = AnsiStyle::new();
    cleared_twice.m_blinking(true);
    cleared_twice.m_blinking(false);
    cleared_twice.m_blinking(false);

    assert_eq!(cleared_once.flags, cleared_twice.flags);
}

#[test]
fn setters_leave_other_flags_untouched() {
    let mut style = AnsiStyle::new();
    style.m_bold(true);
    style.m_hidden(true);

    style.m_dim(true);
    style.m_dim(false);

    assert!(style.g_bold());
    assert!(style.g_hidden());
    assert!(!style.g_dim());
    assert!(!style.g_italic());
    assert_eq!(style.flags, 0b1000_0001);
}

#[test]
fn builder_mutators_chain() {
    let mut style = AnsiStyle::new();
    style.m_bold(true).m_underline(true).m_reverse(true);

    assert_eq!(style.flags, 0b100_0101);
}

#[test]
fn bm_builders_move_and_set() {
    let style = AnsiStyle::new().bm_bold(true).bm_italic(true).bm_bold(false);

    assert!(!style.g_bold());
    assert!(style.g_italic());
    assert_eq!(style.flags, 0b10);
}

#[test]
fn derived_copies_keep_other_attributes() {
    let base = AnsiStyle::new()
        .bm_fg(Some(Color::Palette(PaletteColor::Green)))
        .bm_bold(true);

    let derived = base.underline();
    assert!(derived.g_bold(), "the bold flag must carry over");
    assert!(derived.g_underline());
    assert!(matches!(
        derived.foreground,
        Some(Color::Palette(PaletteColor::Green))
    ));
    assert!(derived.background.is_none());

    let recolored = base.bg(Color::Fixed8bit(17));
    assert!(recolored.g_bold(), "the bold flag must carry over");
    assert!(matches!(
        recolored.foreground,
        Some(Color::Palette(PaletteColor::Green))
    ));
    assert!(matches!(recolored.background, Some(Color::Fixed8bit(17))));
}

#[test]
fn m_fg_m_bg_set_and_clear_colors() {
    let mut style = AnsiStyle::new();
    style.m_fg(Some(Color::Fixed8bit(7)));
    style.m_bg(Some(Color::Rgb24bit(1, 2, 3)));
    assert!(!style.is_plain());
    assert!(matches!(style.foreground, Some(Color::Fixed8bit(7))));
    assert!(matches!(style.background, Some(Color::Rgb24bit(1, 2, 3))));

    style.m_fg(None);
    style.m_bg(None);
    assert!(style.is_plain());
}
