//! The style object: a bitset of text-attribute flags plus an optional
//! foreground and background color, with getter/setter/builder accessors.

use crate::color::Color;
use vstd::prelude::*;

verus! {

const BOLD: u8 = 0x01;

const ITALIC: u8 = 0x02;

const UNDERLINE: u8 = 0x04;

const STRIKETHROUGH: u8 = 0x08;

const DIM: u8 = 0x10;

const BLINKING: u8 = 0x20;

const REVERSE: u8 = 0x40;

const HIDDEN: u8 = 0x80;

/// Contains data and methods for easily configuring ANSI format sequences.
#[derive(Clone, Copy)]
pub struct AnsiStyle {
    pub foreground: Option<Color>,
    pub background: Option<Color>,
    pub flags: u8,
}

/// `s` with exactly the flag bits of `mask` set (when `enabled`) or cleared
/// (when not), every other flag bit and both colors untouched.
pub open spec fn spec_with_flag(s: AnsiStyle, mask: u8, enabled: bool) -> AnsiStyle {
    AnsiStyle {
        foreground: s.foreground,
        background: s.background,
        flags: if enabled {
            s.flags | mask
        } else {
            s.flags & !mask
        },
    }
}

impl AnsiStyle {
    /// Whether the weight (bold) flag, bit `0x01`, is set.
    pub open spec fn spec_bold(&self) -> bool {
        self.flags & 0x01u8 == 0x01u8
    }

    /// Whether the italic flag, bit `0x02`, is set.
    pub open spec fn spec_italic(&self) -> bool {
        self.flags & 0x02u8 == 0x02u8
    }

    /// Whether the underline flag, bit `0x04`, is set.
    pub open spec fn spec_underline(&self) -> bool {
        self.flags & 0x04u8 == 0x04u8
    }

    /// Whether the strikethrough flag, bit `0x08`, is set.
    pub open spec fn spec_strikethrough(&self) -> bool {
        self.flags & 0x08u8 == 0x08u8
    }

    /// Whether the dim flag, bit `0x10`, is set.
    pub open spec fn spec_dim(&self) -> bool {
        self.flags & 0x10u8 == 0x10u8
    }

    /// Whether the blinking flag, bit `0x20`, is set.
    pub open spec fn spec_blinking(&self) -> bool {
        self.flags & 0x20u8 == 0x20u8
    }

    /// Whether the reverse-video flag, bit `0x40`, is set.
    pub open spec fn spec_reverse(&self) -> bool {
        self.flags & 0x40u8 == 0x40u8
    }

    /// Whether the hidden flag, bit `0x80`, is set.
    pub open spec fn spec_hidden(&self) -> bool {
        self.flags & 0x80u8 == 0x80u8
    }

    /// A plain style has no flag set and neither color present; it renders to
    /// no bytes at all.
    pub open spec fn spec_is_plain(&self) -> bool {
        self.flags == 0 && self.foreground is None && self.background is None
    }

    /// Returns a new plain `AnsiStyle`.
    pub fn new() -> (s: Self)
        ensures
            s == (AnsiStyle { foreground: None, background: None, flags: 0u8 }),
            s.spec_is_plain(),
    {
        Self::default()
    }

    /// Returns whether the bold flag is set.
    pub fn g_bold(&self) -> (r: bool)
        ensures
            r == self.spec_bold(),
    {
        self.flags & BOLD == BOLD
    }

    /// Returns whether the italic flag is set.
    pub fn g_italic(&self) -> (r: bool)
        ensures
            r == self.spec_italic(),
    {
        self.flags & ITALIC == ITALIC
    }

    /// Returns whether the underline flag is set.
    pub fn g_underline(&self) -> (r: bool)
        ensures
            r == self.spec_underline(),
    {
        self.flags & UNDERLINE == UNDERLINE
    }

    /// Returns whether the strikethrough flag is set.
    pub fn g_strikethrough(&self) -> (r: bool)
        ensures
            r == self.spec_strikethrough(),
    {
        self.flags & STRIKETHROUGH == STRIKETHROUGH
    }

    /// Returns whether the dim flag is set.
    pub fn g_dim(&self) -> (r: bool)
        ensures
            r == self.spec_dim(),
    {
        self.flags & DIM == DIM
    }

    /// Returns whether the blinking flag is set.
    pub fn g_blinking(&self) -> (r: bool)
        ensures
            r == self.spec_blinking(),
    {
        self.flags & BLINKING == BLINKING
    }

    /// Returns whether the reverse flag is set.
    pub fn g_reverse(&self) -> (r: bool)
        ensures
            r == self.spec_reverse(),
    {
        self.flags & REVERSE == REVERSE
    }

    /// Returns whether the hidden flag is set.
    pub fn g_hidden(&self) -> (r: bool)
        ensures
            r == self.spec_hidden(),
    {
        self.flags & HIDDEN == HIDDEN
    }

    fn set_flags(&mut self, mask: u8, enabled: bool) -> (ret: &mut Self)
        ensures
            *ret == spec_with_flag(*old(self), mask, enabled),
            *final(self) == *final(ret),
    {
        if enabled {
            self.flags |= mask;
        } else {
            self.flags &= !mask;
        }
        self
    }

    fn b_set_flags(self, mask: u8, enabled: bool) -> (ret: Self)
        ensures
            ret == spec_with_flag(self, mask, enabled),
    {
        let mut s = self;
        s.set_flags(mask, enabled);
        s
    }

    /// Returns whether the `AnsiStyle` will be applied.
    pub fn is_plain(&self) -> (r: bool)
        ensures
            r == self.spec_is_plain(),
    {
        !((self.flags != 0) || self.foreground.is_some() || self.background.is_some())
    }

    /// Modifies the `AnsiStyle`'s bold flag, must be mutable.
    pub fn m_bold(&mut self, enabled: bool) -> (ret: &mut Self)
        ensures
            *ret == spec_with_flag(*old(self), 0x01u8, enabled),
            *final(self) == *final(ret),
    {
        self.set_flags(BOLD, enabled)
    }

    /// Modifies the `AnsiStyle`'s italic flag, must be mutable.
    pub fn m_italic(&mut self, enabled: bool) -> (ret: &mut Self)
        ensures
            *ret == spec_with_flag(*old(self), 0x02u8, enabled),
            *final(self) == *final(ret),
    {
        self.set_flags(ITALIC, enabled)
    }

    /// Modifies the `AnsiStyle`'s underline flag, must be mutable.
    pub fn m_underline(&mut self, enabled: bool) -> (ret: &mut Self)
        ensures
            *ret == spec_with_flag(*old(self), 0x04u8, enabled),
            *final(self) == *final(ret),
    {
        self.set_flags(UNDERLINE, enabled)
    }

    /// Modifies the `AnsiStyle`'s strikethrough flag, must be mutable.
    pub fn m_strikethrough(&mut self, enabled: bool) -> (ret: &mut Self)
        ensures
            *ret == spec_with_flag(*old(self), 0x08u8, enabled),
            *final(self) == *final(ret),
    {
        self.set_flags(STRIKETHROUGH, enabled)
    }

    /// Modifies the `AnsiStyle`'s dim flag, must be mutable.
    pub fn m_dim(&mut self, enabled: bool) -> (ret: &mut Self)
        ensures
            *ret == spec_with_flag(*old(self), 0x10u8, enabled),
            *final(self) == *final(ret),
    {
        self.set_flags(DIM, enabled)
    }

    /// Modifies the `AnsiStyle`'s blinking flag, must be mutable.
    pub fn m_blinking(&mut self, enabled: bool) -> (ret: &mut Self)
        ensures
            *ret == spec_with_flag(*old(self), 0x20u8, enabled),
            *final(self) == *final(ret),
    {
        self.set_flags(BLINKING, enabled)
    }

    /// Modifies the `AnsiStyle`'s reverse flag, must be mutable.
    pub fn m_reverse(&mut self, enabled: bool) -> (ret: &mut Self)
        ensures
            *ret == spec_with_flag(*old(self), 0x40u8, enabled),
            *final(self) == *final(ret),
    {
        self.set_flags(REVERSE, enabled)
    }

    /// Modifies the `AnsiStyle`'s hidden flag, must be mutable.
    pub fn m_hidden(&mut self, enabled: bool) -> (ret: &mut Self)
        ensures
            *ret == spec_with_flag(*old(self), 0x80u8, enabled),
            *final(self) == *final(ret),
    {
        self.set_flags(HIDDEN, enabled)
    }

    /// Modifies the `AnsiStyle`'s foreground color, must be mutable.
    pub fn m_fg(&mut self, foreground: Option<Color>) -> (ret: &mut Self)
        ensures
            *ret == (AnsiStyle {
                foreground,
                background: old(self).background,
                flags: old(self).flags,
            }),
            *final(self) == *final(ret),
    {
        self.foreground = foreground;
        self
    }

    /// Modifies the `AnsiStyle`'s background color, must be mutable.
    pub fn m_bg(&mut self, background: Option<Color>) -> (ret: &mut Self)
        ensures
            *ret == (AnsiStyle {
                foreground: old(self).foreground,
                background,
                flags: old(self).flags,
            }),
            *final(self) == *final(ret),
    {
        self.background = background;
        self
    }

    /// Borrows and modifies the `AnsiStyle`'s bold flag.
    pub fn bm_bold(self, enabled: bool) -> (ret: Self)
        ensures
            ret == spec_with_flag(self, 0x01u8, enabled),
    {
        self.b_set_flags(BOLD, enabled)
    }

    /// Borrows and modifies the `AnsiStyle`'s italic flag.
    pub fn bm_italic(self, enabled: bool) -> (ret: Self)
        ensures
            ret == spec_with_flag(self, 0x02u8, enabled),
    {
        self.b_set_flags(ITALIC, enabled)
    }

    /// Borrows and modifies the `AnsiStyle`'s underline flag.
    pub fn bm_underline(self, enabled: bool) -> (ret: Self)
        ensures
            ret == spec_with_flag(self, 0x04u8, enabled),
    {
        self.b_set_flags(UNDERLINE, enabled)
    }

    /// Borrows and modifies the `AnsiStyle`'s strikethrough flag.
    pub fn bm_strikethrough(self, enabled: bool) -> (ret: Self)
        ensures
            ret == spec_with_flag(self, 0x08u8, enabled),
    {
        self.b_set_flags(STRIKETHROUGH, enabled)
    }

    /// Borrows and modifies the `AnsiStyle`'s dim flag.
    pub fn bm_dim(self, enabled: bool) -> (ret: Self)
        ensures
            ret == spec_with_flag(self, 0x10u8, enabled),
    {
        self.b_set_flags(DIM, enabled)
    }

    /// Borrows and modifies the `AnsiStyle`'s blinking flag.
    pub fn bm_blinking(self, enabled: bool) -> (ret: Self)
        ensures
            ret == spec_with_flag(self, 0x20u8, enabled),
    {
        self.b_set_flags(BLINKING, enabled)
    }

    /// Borrows and modifies the `AnsiStyle`'s reverse flag.
    pub fn bm_reverse(self, enabled: bool) -> (ret: Self)
        ensures
            ret == spec_with_flag(self, 0x40u8, enabled),
    {
        self.b_set_flags(REVERSE, enabled)
    }

    /// Borrows and modifies the `AnsiStyle`'s hidden flag.
    pub fn bm_hidden(self, enabled: bool) -> (ret: Self)
        ensures
            ret == spec_with_flag(self, 0x80u8, enabled),
    {
        self.b_set_flags(HIDDEN, enabled)
    }

    /// Borrows and modifies the `AnsiStyle`'s foreground color.
    pub fn bm_fg(self, foreground: Option<Color>) -> (ret: Self)
        ensures
            ret == (AnsiStyle { foreground, background: self.background, flags: self.flags }),
    {
        let mut s = self;
        s.foreground = foreground;
        s
    }

    /// Borrows and modifies the `AnsiStyle`'s background color.
    pub fn bm_bg(self, background: Option<Color>) -> (ret: Self)
        ensures
            ret == (AnsiStyle { foreground: self.foreground, background, flags: self.flags }),
    {
        let mut s = self;
        s.background = background;
        s
    }

    /// Returns a new `AnsiStyle` derived from this one with the bold flag set
    /// to `true`.
    pub fn bold(&self) -> (ret: Self)
        ensures
            ret == spec_with_flag(*self, 0x01u8, true),
    {
        self.b_set_flags(BOLD, true)
    }

    /// Returns a new `AnsiStyle` derived from this one with the italic flag
    /// set to `true`.
    pub fn italic(&self) -> (ret: Self)
        ensures
            ret == spec_with_flag(*self, 0x02u8, true),
    {
        self.b_set_flags(ITALIC, true)
    }

    /// Returns a new `AnsiStyle` derived from this one with the underline
    /// flag set to `true`.
    pub fn underline(&self) -> (ret: Self)
        ensures
            ret == spec_with_flag(*self, 0x04u8, true),
    {
        self.b_set_flags(UNDERLINE, true)
    }

    /// Returns a new `AnsiStyle` derived from this one with the strikethrough
    /// flag set to `true`.
    pub fn strikethrough(&self) -> (ret: Self)
        ensures
            ret == spec_with_flag(*self, 0x08u8, true),
    {
        self.b_set_flags(STRIKETHROUGH, true)
    }

    /// Returns a new `AnsiStyle` derived from this one with the dim flag set
    /// to `true`.
    pub fn dim(&self) -> (ret: Self)
        ensures
            ret == spec_with_flag(*self, 0x10u8, true),
    {
        self.b_set_flags(DIM, true)
    }

    /// Returns a new `AnsiStyle` derived from this one with the blinking flag
    /// set to `true`.
    pub fn blinking(&self) -> (ret: Self)
        ensures
            ret == spec_with_flag(*self, 0x20u8, true),
    {
        self.b_set_flags(BLINKING, true)
    }

    /// Returns a new `AnsiStyle` derived from this one with the reverse flag
    /// set to `true`.
    pub fn reverse(&self) -> (ret: Self)
        ensures
            ret == spec_with_flag(*self, 0x40u8, true),
    {
        self.b_set_flags(REVERSE, true)
    }

    /// Returns a new `AnsiStyle` derived from this one with the hidden flag
    /// set to `true`.
    pub fn hidden(&self) -> (ret: Self)
        ensures
            ret == spec_with_flag(*self, 0x80u8, true),
    {
        self.b_set_flags(HIDDEN, true)
    }

    /// Returns a new `AnsiStyle` derived from this one with the foreground
    /// set to the specified `Color`.
    pub fn fg(&self, foreground: Color) -> (ret: Self)
        ensures
            ret == (AnsiStyle {
                foreground: Some(foreground),
                background: self.background,
                flags: self.flags,
            }),
    {
        AnsiStyle { foreground: Some(foreground), background: self.background, flags: self.flags }
    }

    /// Returns a new `AnsiStyle` derived from this one with the background
    /// set to the specified `Color`.
    pub fn bg(&self, background: Color) -> (ret: Self)
        ensures
            ret == (AnsiStyle {
                foreground: self.foreground,
                background: Some(background),
                flags: self.flags,
            }),
    {
        AnsiStyle { foreground: self.foreground, background: Some(background), flags: self.flags }
    }
}

impl Default for AnsiStyle {
    /// The plain style: no flags, no colors.
    fn default() -> (s: Self)
        ensures
            s == (AnsiStyle { foreground: None, background: None, flags: 0u8 }),
    {
        AnsiStyle { foreground: None, background: None, flags: 0 }
    }
}

/// Setting one flag touches nothing else: after `spec_with_flag(s, mask,
/// enabled)` with a single-bit `mask`, the addressed flag reads back as
/// `enabled`, the seven other flags read back as they did in `s`, and both
/// colors are those of `s`.
pub proof fn lemma_with_flag_isolates(s: AnsiStyle, mask: u8, enabled: bool)
    requires
        mask == 0x01u8 || mask == 0x02u8 || mask == 0x04u8 || mask == 0x08u8 || mask == 0x10u8
            || mask == 0x20u8 || mask == 0x40u8 || mask == 0x80u8,
    ensures
        spec_with_flag(s, mask, enabled).spec_bold() == if mask == 0x01u8 {
            enabled
        } else {
            s.spec_bold()
        },
        spec_with_flag(s, mask, enabled).spec_italic() == if mask == 0x02u8 {
            enabled
        } else {
            s.spec_italic()
        },
        spec_with_flag(s, mask, enabled).spec_underline() == if mask == 0x04u8 {
            enabled
        } else {
            s.spec_underline()
        },
        spec_with_flag(s, mask, enabled).spec_strikethrough() == if mask == 0x08u8 {
            enabled
        } else {
            s.spec_strikethrough()
        },
        spec_with_flag(s, mask, enabled).spec_dim() == if mask == 0x10u8 {
            enabled
        } else {
            s.spec_dim()
        },
        spec_with_flag(s, mask, enabled).spec_blinking() == if mask == 0x20u8 {
            enabled
        } else {
            s.spec_blinking()
        },
        spec_with_flag(s, mask, enabled).spec_reverse() == if mask == 0x40u8 {
            enabled
        } else {
            s.spec_reverse()
        },
        spec_with_flag(s, mask, enabled).spec_hidden() == if mask == 0x80u8 {
            enabled
        } else {
            s.spec_hidden()
        },
        spec_with_flag(s, mask, enabled).foreground == s.foreground,
        spec_with_flag(s, mask, enabled).background == s.background,
{
    let f = s.flags;
    let g = if enabled {
        f | mask
    } else {
        f & !mask
    };
    assert((g & 0x01u8 == 0x01u8) == if mask == 0x01u8 {
        enabled
    } else {
        f & 0x01u8 == 0x01u8
    } && (g & 0x02u8 == 0x02u8) == if mask == 0x02u8 {
        enabled
    } else {
        f & 0x02u8 == 0x02u8
    } && (g & 0x04u8 == 0x04u8) == if mask == 0x04u8 {
        enabled
    } else {
        f & 0x04u8 == 0x04u8
    } && (g & 0x08u8 == 0x08u8) == if mask == 0x08u8 {
        enabled
    } else {
        f & 0x08u8 == 0x08u8
    } && (g & 0x10u8 == 0x10u8) == if mask == 0x10u8 {
        enabled
    } else {
        f & 0x10u8 == 0x10u8
    } && (g & 0x20u8 == 0x20u8) == if mask == 0x20u8 {
        enabled
    } else {
        f & 0x20u8 == 0x20u8
    } && (g & 0x40u8 == 0x40u8) == if mask == 0x40u8 {
        enabled
    } else {
        f & 0x40u8 == 0x40u8
    } && (g & 0x80u8 == 0x80u8) == if mask == 0x80u8 {
        enabled
    } else {
        f & 0x80u8 == 0x80u8
    }) by (bit_vector)
        requires
            mask == 0x01u8 || mask == 0x02u8 || mask == 0x04u8 || mask == 0x08u8 || mask == 0x10u8
                || mask == 0x20u8 || mask == 0x40u8 || mask == 0x80u8,
            g == if enabled {
                f | mask
            } else {
                f & !mask
            },
    ;
}

/// Toggling a flag on and back off restores a style in which that flag was
/// clear — in particular, the plain style comes back unchanged.
pub proof fn lemma_flag_toggle_restores(s: AnsiStyle, mask: u8)
    requires
        s.flags & mask == 0,
    ensures
        spec_with_flag(spec_with_flag(s, mask, true), mask, false) == s,
{
    let f = s.flags;
    assert((f | mask) & !mask == f) by (bit_vector)
        requires
            f & mask == 0,
    ;
}

/// Setting a flag to the same value twice is the same as setting it once.
pub proof fn lemma_flag_set_idempotent(s: AnsiStyle, mask: u8, enabled: bool)
    ensures
        spec_with_flag(spec_with_flag(s, mask, enabled), mask, enabled) == spec_with_flag(
            s,
            mask,
            enabled,
        ),
{
    let f = s.flags;
    assert((f | mask) | mask == f | mask) by (bit_vector);
    assert((f & !mask) & !mask == f & !mask) by (bit_vector);
}

} // verus!
