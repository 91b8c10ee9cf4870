use ansi_style::AnsiStyle;
use ansi_style::Color;
use ansi_style::PaletteColor;

#[test]
fn plain_style_renders_nothing() {
    let style = AnsiStyle::new();

    assert_eq!(style.render(), "");
    assert_eq!(style.apply("some text"), "some text");
    assert_eq!(style.apply_with_reset("some text"), "some text");
}

#[test]
fn single_flag_renders_its_fixed_code() {
    let cases: [(fn(AnsiStyle, bool) -> AnsiStyle, &str); 8] = [
        (AnsiStyle::bm_bold, "\x1b[1m"),
        (AnsiStyle::bm_italic, "\x1b[3m"),
        (AnsiStyle::bm_underline, "\x1b[4m"),
        (AnsiStyle::bm_strikethrough, "\x1b[9m"),
        (AnsiStyle::bm_dim, "\x1b[2m"),
        (AnsiStyle::bm_blinking, "\x1b[5m"),
        (AnsiStyle::bm_reverse, "\x1b[7m"),
        (AnsiStyle::bm_hidden, "\x1b[8m"),
    ];

    for (set, expected) in cases {
        let style = set(AnsiStyle::new(), true);
        assert_eq!(style.render(), expected);
    }
}

#[test]
fn weight_and_underline_render_in_fixed_order() {
    let style = AnsiStyle::new().bm_bold(true).bm_underline(true);

    assert_eq!(style.render(), "\x1b[1;4m");
}

#[test]
fn all_flags_render_in_fixed_order() {
    let style = AnsiStyle {
        flags: 0xff,
        ..Default::default()
    };

    assert_eq!(style.render(), "\x1b[1;3;4;9;2;5;7;8m");
}

#[test]
fn color_only_style_renders() {
    let fg_only = AnsiStyle::new().bm_fg(Some(Color::Palette(PaletteColor::Blue)));
    assert_eq!(fg_only.render(), "\x1b[34m");

    let bg_only = AnsiStyle::new().bm_bg(Some(Color::Palette(PaletteColor::Blue)));
    assert_eq!(bg_only.render(), "\x1b[44m");
}

#[test]
fn flags_and_both_colors_render_together() {
    let style = AnsiStyle::new()
        .bm_bold(true)
        .bm_underline(true)
        .bm_fg(Some(Color::Fixed8bit(100)))
        .bm_bg(Some(Color::Palette(PaletteColor::Red)));

    assert_eq!(style.render(), "\x1b[1;4;38;5;100;41m");
}

#[test]
fn apply_with_reset_brackets_the_text() {
    let style = AnsiStyle::new().bm_reverse(true);
    let rendered = style.render();
    let out = style.apply_with_reset("payload");

    assert!(out.starts_with(&rendered));
    assert!(out.ends_with("\x1b[0m"));
    assert_eq!(out, "\x1b[7mpayload\x1b[0m");

    let plain_out = AnsiStyle::new().apply_with_reset("payload");
    assert!(!plain_out.ends_with("\x1b[0m"));
    assert_eq!(plain_out, "payload");
}

#[test]
fn m_apply_with_reset_wraps_in_place() {
    let style = AnsiStyle::new().bm_dim(true);
    let mut text = String::from("x");

    style.m_apply_with_reset(&mut text);

    assert_eq!(text, "\x1b[2mx\x1b[0m");
}

#[test]
fn bold_red_hello_world_end_to_end() {
    let mut style = AnsiStyle::new();
    style.m_bold(true);
    style.m_fg(Some(Color::Palette(PaletteColor::Red)));

    assert_eq!(
        style.apply_with_reset("Hello world!"),
        "\x1b[1;31mHello world!\x1b[0m"
    );
}

#[test]
fn apply_prepends_to_empty_text() {
    let style = AnsiStyle::new().bm_bold(true);

    assert_eq!(style.apply(""), "\x1b[1m");
    assert_eq!(style.apply_with_reset(""), "\x1b[1m\x1b[0m");
}

#[test]
fn escape_code_constants() {
    assert_eq!(ansi_style::codes::BELL, "\x07");
    assert_eq!(ansi_style::codes::RESET, "\x1b[0m");
    assert_eq!(ansi_style::codes::HOME, "\x1b[H");
    assert_eq!(ansi_style::codes::erase::SCREEN, "\x1b[2J");
    assert_eq!(ansi_style::codes::erase::CURSOR_TO_END_SCREEN, "\x1b[0J");
    assert_eq!(ansi_style::codes::erase::CURSOR_TO_START_SCREEN, "\x1b[1J");
    assert_eq!(ansi_style::codes::erase::LINE, "\x1b[2K");
    assert_eq!(ansi_style::codes::erase::CURSOR_TO_END_LN, "\x1b[0K");
    assert_eq!(ansi_style::codes::erase::CURSOR_TO_START_LN, "\x1b[0K");
}
