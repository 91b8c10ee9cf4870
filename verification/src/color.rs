//! The color model: the sixteen legacy palette colors, the 256-entry indexed
//! table, and 24-bit RGB, each with its SGR parameter encoding.

use vstd::prelude::*;
use vstd::string::StringExecFns;

verus! {

/// Used to specify the color in `Color::Palette`.
///
/// Each of the sixteen colors carries a fixed foreground SGR code:
/// `30`–`37` for the eight standard colors, `90`–`97` for the bright variants.
#[derive(Clone, Copy)]
pub enum PaletteColor {
    /// Color #0, may display as the terminal's default background color.
    Black,
    /// Color #1
    Red,
    /// Color #2
    Green,
    /// Color #3
    Yellow,
    /// Color #4
    Blue,
    /// Color #5
    Magenta,
    /// Color #6
    Cyan,
    /// Color #7
    White,
    /// Color #8, Gray
    BrightBlack,
    /// Color #9
    BrightRed,
    /// Color #10
    BrightGreen,
    /// Color #11
    BrightYellow,
    /// Color #12
    BrightBlue,
    /// Color #13
    BrightMagenta,
    /// Color #14
    BrightCyan,
    /// Color #15
    BrightWhite,
}

impl PaletteColor {
    /// The fixed foreground SGR code of this palette color.
    pub open spec fn spec_code(&self) -> u8 {
        match self {
            PaletteColor::Black => 30,
            PaletteColor::Red => 31,
            PaletteColor::Green => 32,
            PaletteColor::Yellow => 33,
            PaletteColor::Blue => 34,
            PaletteColor::Magenta => 35,
            PaletteColor::Cyan => 36,
            PaletteColor::White => 37,
            PaletteColor::BrightBlack => 90,
            PaletteColor::BrightRed => 91,
            PaletteColor::BrightGreen => 92,
            PaletteColor::BrightYellow => 93,
            PaletteColor::BrightBlue => 94,
            PaletteColor::BrightMagenta => 95,
            PaletteColor::BrightCyan => 96,
            PaletteColor::BrightWhite => 97,
        }
    }

    fn get_code(&self) -> (c: u8)
        ensures
            c == self.spec_code(),
    {
        match self {
            PaletteColor::Black => 30,
            PaletteColor::Red => 31,
            PaletteColor::Green => 32,
            PaletteColor::Yellow => 33,
            PaletteColor::Blue => 34,
            PaletteColor::Magenta => 35,
            PaletteColor::Cyan => 36,
            PaletteColor::White => 37,
            PaletteColor::BrightBlack => 90,
            PaletteColor::BrightRed => 91,
            PaletteColor::BrightGreen => 92,
            PaletteColor::BrightYellow => 93,
            PaletteColor::BrightBlue => 94,
            PaletteColor::BrightMagenta => 95,
            PaletteColor::BrightCyan => 96,
            PaletteColor::BrightWhite => 97,
        }
    }
}

/// The decimal digit `d` (at most 9) as a character.
pub open spec fn spec_digit(d: nat) -> char {
    if d == 0 {
        '0'
    } else if d == 1 {
        '1'
    } else if d == 2 {
        '2'
    } else if d == 3 {
        '3'
    } else if d == 4 {
        '4'
    } else if d == 5 {
        '5'
    } else if d == 6 {
        '6'
    } else if d == 7 {
        '7'
    } else if d == 8 {
        '8'
    } else {
        '9'
    }
}

/// The decimal numeral of `n`: most significant digit first, no leading
/// zeros, a single `'0'` for zero.
pub open spec fn spec_decimal(n: nat) -> Seq<char>
    decreases n,
{
    if n < 10 {
        seq![spec_digit(n)]
    } else {
        spec_decimal(n / 10) + seq![spec_digit(n % 10)]
    }
}

fn digit_str(d: u8) -> (r: &'static str)
    requires
        d < 10,
    ensures
        r@ == seq![spec_digit(d as nat)],
{
    proof {
        reveal_strlit("0");
        reveal_strlit("1");
        reveal_strlit("2");
        reveal_strlit("3");
        reveal_strlit("4");
        reveal_strlit("5");
        reveal_strlit("6");
        reveal_strlit("7");
        reveal_strlit("8");
        reveal_strlit("9");
    }
    match d {
        0 => "0",
        1 => "1",
        2 => "2",
        3 => "3",
        4 => "4",
        5 => "5",
        6 => "6",
        7 => "7",
        8 => "8",
        _ => "9",
    }
}

/// Renders `n` as its decimal numeral.
fn u8_to_decimal(n: u8) -> (r: String)
    ensures
        r@ == spec_decimal(n as nat),
    decreases n,
{
    if n < 10 {
        digit_str(n).to_owned()
    } else {
        proof {
            assert(n / 10 < n) by (nonlinear_arith)
                requires
                    10 <= n,
            ;
        }
        let mut s = u8_to_decimal(n / 10);
        s.append(digit_str(n % 10));
        s
    }
}

/// The parameter family that introduces a non-palette color: `38` selects the
/// foreground, `48` the background.
pub open spec fn spec_sq_start(is_bg: bool) -> Seq<char> {
    if is_bg {
        "48"@
    } else {
        "38"@
    }
}

fn sq_start(is_bg: bool) -> (r: &'static str)
    ensures
        r@ == spec_sq_start(is_bg),
{
    if is_bg {
        "48"
    } else {
        "38"
    }
}

/// Used for specifying the color to set the background or foreground of an `AnsiStyle`.
#[derive(Clone, Copy)]
pub enum Color {
    /// One of the predefined colors in the `PaletteColor` enum.
    ///
    /// These are identical to the colors from `Fixed8bit(0-15)`, but are
    /// encoded with the legacy direct codes (`XX`) instead of the
    /// `38;5;XX` family (color may vary depending on terminal!).
    Palette(PaletteColor),
    /// A color from a predefined 256 color table:
    ///
    /// - 0-7: standard palette colors `Black` through `White`
    /// - 8-15: brighter palette colors `BrightBlack` through `BrightWhite`
    /// - 16-231: colors inside a 6x6x6 cube `16 + (36 * red) + (6 * green) + blue`
    /// - 232-255: grayscale from black to white in 24 steps
    ///
    /// The byte is passed through unvalidated and uninterpreted; reading a
    /// structure into it is the terminal's business.
    Fixed8bit(u8),
    /// A 24-bit RGB color.
    Rgb24bit(u8, u8, u8),
}

impl Color {
    /// The SGR parameter fragment that selects this color.
    ///
    /// A palette color encodes as its fixed code alone — the foreground code,
    /// or that code plus 10 for the background. The other variants are
    /// prefixed by the `38`/`48` family: `38;5;n` for a table index and
    /// `38;2;r;g;b` for an RGB triple.
    pub open spec fn spec_sequence(&self, background: bool) -> Seq<char> {
        match self {
            Color::Palette(palette) => spec_decimal(
                palette.spec_code() as nat + if background {
                    10nat
                } else {
                    0nat
                },
            ),
            Color::Fixed8bit(code) => spec_sq_start(background) + ";5;"@ + spec_decimal(
                *code as nat,
            ),
            Color::Rgb24bit(r, g, b) => spec_sq_start(background) + ";2;"@ + spec_decimal(
                *r as nat,
            ) + ";"@ + spec_decimal(*g as nat) + ";"@ + spec_decimal(*b as nat),
        }
    }

    /// Renders the parameter fragment of this color.
    pub fn gen_sequence(&self, background: bool) -> (r: String)
        ensures
            r@ == self.spec_sequence(background),
    {
        match self {
            Color::Palette(palette) => {
                let mut code = palette.get_code();
                if background {
                    code += 10;
                }
                u8_to_decimal(code)
            },
            Color::Fixed8bit(code) => {
                let mut s = sq_start(background).to_owned();
                s.append(";5;");
                let num = u8_to_decimal(*code);
                s.append(num.as_str());
                proof {
                    assert(s@ =~= self.spec_sequence(background));
                }
                s
            },
            Color::Rgb24bit(r, g, b) => {
                let mut s = sq_start(background).to_owned();
                s.append(";2;");
                let num_r = u8_to_decimal(*r);
                s.append(num_r.as_str());
                s.append(";");
                let num_g = u8_to_decimal(*g);
                s.append(num_g.as_str());
                s.append(";");
                let num_b = u8_to_decimal(*b);
                s.append(num_b.as_str());
                proof {
                    assert(s@ =~= self.spec_sequence(background));
                }
                s
            },
        }
    }
}

/// A palette color's foreground fragment is its fixed base code written in
/// decimal, and its background fragment is the base code plus 10: the one
/// color value encodes differently under the two contexts, by construction.
pub proof fn lemma_palette_encoding(p: PaletteColor)
    ensures
        Color::Palette(p).spec_sequence(false) == spec_decimal(p.spec_code() as nat),
        Color::Palette(p).spec_sequence(true) == spec_decimal((p.spec_code() + 10) as nat),
{
}

} // verus!

