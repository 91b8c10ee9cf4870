//! The sequence renderer and the text application layer: a style becomes one
//! SGR escape sequence, which is spliced around a text payload.

use crate::style::AnsiStyle;
use vstd::prelude::*;
use vstd::string::StringExecFns;

verus! {

/// The reset sequence appended after styled text: `ESC [ 0 m`.
pub open spec fn spec_reset() -> Seq<char> {
    "\x1b[0m"@
}

/// The parameter fragments a style emits, in the fixed order: the numeric
/// code of each active flag — weight `1`, italic `3`, underline `4`,
/// strikethrough `9`, dim `2`, blinking `5`, reverse `7`, hidden `8` — then
/// the foreground fragment, then the background fragment.
pub open spec fn spec_params(s: AnsiStyle) -> Seq<Seq<char>> {
    let ps = Seq::<Seq<char>>::empty();
    let ps = if s.spec_bold() {
        ps.push("1"@)
    } else {
        ps
    };
    let ps = if s.spec_italic() {
        ps.push("3"@)
    } else {
        ps
    };
    let ps = if s.spec_underline() {
        ps.push("4"@)
    } else {
        ps
    };
    let ps = if s.spec_strikethrough() {
        ps.push("9"@)
    } else {
        ps
    };
    let ps = if s.spec_dim() {
        ps.push("2"@)
    } else {
        ps
    };
    let ps = if s.spec_blinking() {
        ps.push("5"@)
    } else {
        ps
    };
    let ps = if s.spec_reverse() {
        ps.push("7"@)
    } else {
        ps
    };
    let ps = if s.spec_hidden() {
        ps.push("8"@)
    } else {
        ps
    };
    let ps = match s.foreground {
        Some(c) => ps.push(c.spec_sequence(false)),
        None => ps,
    };
    let ps = match s.background {
        Some(c) => ps.push(c.spec_sequence(true)),
        None => ps,
    };
    ps
}

/// The fragments joined into one parameter list, a `;` between each pair.
pub open spec fn spec_join_params(ps: Seq<Seq<char>>) -> Seq<char>
    decreases ps.len(),
{
    if ps.len() == 0 {
        Seq::empty()
    } else if ps.len() == 1 {
        ps[0]
    } else {
        spec_join_params(ps.drop_last()) + ";"@ + ps.last()
    }
}

/// What a style renders to: nothing at all when it is plain, else the
/// introducer `ESC [`, the joined parameter list, and the finalizer `m`.
pub open spec fn spec_render(s: AnsiStyle) -> Seq<char> {
    if s.spec_is_plain() {
        Seq::empty()
    } else {
        "\x1b["@ + spec_join_params(spec_params(s)) + "m"@
    }
}

/// Applying a style prepends its rendered sequence to the text.
pub open spec fn spec_apply(s: AnsiStyle, text: Seq<char>) -> Seq<char> {
    spec_render(s) + text
}

/// Applying a style with reset leaves the text of a plain style untouched —
/// no reset suffix is ever appended to an already-plain result — and
/// otherwise wraps it between the rendered sequence and the reset sequence.
pub open spec fn spec_apply_with_reset(s: AnsiStyle, text: Seq<char>) -> Seq<char> {
    if s.spec_is_plain() {
        text
    } else {
        spec_render(s) + text + spec_reset()
    }
}

/// Joining one more fragment appends it after a `;` separator, except onto an
/// empty list, where it stands alone.
proof fn lemma_join_params_push(ps: Seq<Seq<char>>, p: Seq<char>)
    ensures
        spec_join_params(ps.push(p)) == if ps.len() == 0 {
            p
        } else {
            spec_join_params(ps) + ";"@ + p
        },
{
    let q = ps.push(p);
    if ps.len() == 0 {
        assert(q[0] == p);
    } else {
        assert(q.drop_last() =~= ps);
        assert(q.last() == p);
    }
}

/// Appends one parameter fragment, separated from a previous one by `;`.
fn append_param(out: &mut String, wrote: bool, param: &str)
    ensures
        final(out)@ == old(out)@ + (if wrote {
            ";"@
        } else {
            Seq::<char>::empty()
        }) + param@,
{
    if wrote {
        out.append(";");
    }
    out.append(param);
    proof {
        assert(out@ =~= old(out)@ + (if wrote {
            ";"@
        } else {
            Seq::<char>::empty()
        }) + param@);
    }
}

/// Emits one parameter fragment when `active`, keeping the accumulator `out`
/// one `;`-joined list of the fragments gathered in `ps` after the introducer
/// `intro`.
fn emit_param(
    out: &mut String,
    wrote: bool,
    active: bool,
    param: &str,
    Ghost(intro): Ghost<Seq<char>>,
    Ghost(ps): Ghost<Seq<Seq<char>>>,
) -> (res: (bool, Ghost<Seq<Seq<char>>>))
    requires
        old(out)@ == intro + spec_join_params(ps),
        wrote == (ps.len() > 0),
    ensures
        res.1@ == (if active {
            ps.push(param@)
        } else {
            ps
        }),
        res.0 == (res.1@.len() > 0),
        final(out)@ == intro + spec_join_params(res.1@),
{
    if active {
        append_param(out, wrote, param);
        proof {
            lemma_join_params_push(ps, param@);
            assert(out@ =~= intro + spec_join_params(ps.push(param@)));
        }
        (true, Ghost(ps.push(param@)))
    } else {
        (wrote, Ghost(ps))
    }
}

impl AnsiStyle {
    /// Renders the escape sequence this style stands for.
    ///
    /// A plain style yields the empty string: no escape bytes at all, not
    /// even an empty parameter list. Any other style yields `ESC [`, the
    /// active flag codes and color fragments in the fixed order, `;` between
    /// every two parameters, and the finalizer `m`.
    pub fn render(&self) -> (r: String)
        ensures
            r@ == spec_render(*self),
    {
        if self.is_plain() {
            return String::new();
        }
        let ghost intro: Seq<char> = "\x1b["@;
        let mut out = "\x1b[".to_owned();
        let mut wrote: bool = false;
        let ghost mut ps: Seq<Seq<char>> = Seq::empty();
        proof {
            assert(out@ =~= intro + spec_join_params(ps));
        }

        let r = emit_param(&mut out, wrote, self.g_bold(), "1", Ghost(intro), Ghost(ps));
        wrote = r.0;
        proof {
            ps = r.1@;
        }

        let r = emit_param(&mut out, wrote, self.g_italic(), "3", Ghost(intro), Ghost(ps));
        wrote = r.0;
        proof {
            ps = r.1@;
        }

        let r = emit_param(&mut out, wrote, self.g_underline(), "4", Ghost(intro), Ghost(ps));
        wrote = r.0;
        proof {
            ps = r.1@;
        }

        let r = emit_param(&mut out, wrote, self.g_strikethrough(), "9", Ghost(intro), Ghost(ps));
        wrote = r.0;
        proof {
            ps = r.1@;
        }

        let r = emit_param(&mut out, wrote, self.g_dim(), "2", Ghost(intro), Ghost(ps));
        wrote = r.0;
        proof {
            ps = r.1@;
        }

        let r = emit_param(&mut out, wrote, self.g_blinking(), "5", Ghost(intro), Ghost(ps));
        wrote = r.0;
        proof {
            ps = r.1@;
        }

        let r = emit_param(&mut out, wrote, self.g_reverse(), "7", Ghost(intro), Ghost(ps));
        wrote = r.0;
        proof {
            ps = r.1@;
        }

        let r = emit_param(&mut out, wrote, self.g_hidden(), "8", Ghost(intro), Ghost(ps));
        wrote = r.0;
        proof {
            ps = r.1@;
        }

        match &self.foreground {
            Some(color) => {
                let frag = color.gen_sequence(false);
                let r = emit_param(&mut out, wrote, true, frag.as_str(), Ghost(intro), Ghost(ps));
                wrote = r.0;
                proof {
                    ps = r.1@;
                }
            },
            None => {},
        }

        match &self.background {
            Some(color) => {
                let frag = color.gen_sequence(true);
                let r = emit_param(&mut out, wrote, true, frag.as_str(), Ghost(intro), Ghost(ps));
                wrote = r.0;
                proof {
                    ps = r.1@;
                }
            },
            None => {},
        }

        out.append("m");
        proof {
            assert(ps == spec_params(*self));
            assert(out@ =~= spec_render(*self));
        }
        out
    }

    /// Modifies the passed `String` by applying the `AnsiStyle`: the rendered
    /// sequence is prepended, so a plain style leaves the text untouched.
    pub fn m_apply(&self, text: &mut String)
        ensures
            final(text)@ == spec_apply(*self, old(text)@),
    {
        let mut s = self.render();
        s.append(text.as_str());
        *text = s;
    }

    /// Modifies the passed `String` by applying the `AnsiStyle` with an
    /// `\x1b[0m` suffix; a plain style leaves the text untouched, with no
    /// reset suffix either.
    pub fn m_apply_with_reset(&self, text: &mut String)
        ensures
            final(text)@ == spec_apply_with_reset(*self, old(text)@),
    {
        if self.is_plain() {
            return;
        }
        self.m_apply(text);
        text.append(crate::codes::RESET);
    }

    /// Returns a cloned `String` of the passed in text with the `AnsiStyle`
    /// applied.
    pub fn apply(&self, text: &str) -> (r: String)
        ensures
            r@ == spec_apply(*self, text@),
    {
        let mut new_text = text.to_owned();
        self.m_apply(&mut new_text);
        new_text
    }

    /// Returns a cloned `String` of the passed in text with the `AnsiStyle`
    /// applied and an `\x1b[0m` suffix.
    pub fn apply_with_reset(&self, text: &str) -> (r: String)
        ensures
            r@ == spec_apply_with_reset(*self, text@),
    {
        let mut new_text = text.to_owned();
        self.m_apply_with_reset(&mut new_text);
        new_text
    }
}

/// A single-bit flag mask's fixed numeric parameter code.
pub open spec fn spec_flag_code(mask: u8) -> char {
    if mask == 0x01u8 {
        '1'
    } else if mask == 0x02u8 {
        '3'
    } else if mask == 0x04u8 {
        '4'
    } else if mask == 0x08u8 {
        '9'
    } else if mask == 0x10u8 {
        '2'
    } else if mask == 0x20u8 {
        '5'
    } else if mask == 0x40u8 {
        '7'
    } else {
        '8'
    }
}

/// A plain style is invisible everywhere: it renders to the empty sequence,
/// and both apply operations return the text unchanged — in particular, no
/// reset suffix is appended to an already-plain result.
pub proof fn lemma_plain_style_is_identity(s: AnsiStyle, text: Seq<char>)
    requires
        s.spec_is_plain(),
    ensures
        spec_render(s) == Seq::<char>::empty(),
        spec_apply(s, text) == text,
        spec_apply_with_reset(s, text) == text,
{
    assert(spec_apply(s, text) =~= text);
}

/// A style with exactly one flag bit set and no colors renders exactly one
/// numeric parameter, that flag's fixed code, between the introducer and the
/// finalizer `m`.
pub proof fn lemma_single_flag_render(s: AnsiStyle)
    requires
        s.flags == 0x01u8 || s.flags == 0x02u8 || s.flags == 0x04u8 || s.flags == 0x08u8
            || s.flags == 0x10u8 || s.flags == 0x20u8 || s.flags == 0x40u8 || s.flags == 0x80u8,
        s.foreground is None,
        s.background is None,
    ensures
        spec_params(s) == seq![seq![spec_flag_code(s.flags)]],
        spec_render(s) == seq!['\x1b', '[', spec_flag_code(s.flags), 'm'],
{
    let f = s.flags;
    assert((f & 0x01u8 == 0x01u8) == (f == 0x01u8) && (f & 0x02u8 == 0x02u8) == (f == 0x02u8) && (f
        & 0x04u8 == 0x04u8) == (f == 0x04u8) && (f & 0x08u8 == 0x08u8) == (f == 0x08u8) && (f
        & 0x10u8 == 0x10u8) == (f == 0x10u8) && (f & 0x20u8 == 0x20u8) == (f == 0x20u8) && (f
        & 0x40u8 == 0x40u8) == (f == 0x40u8) && (f & 0x80u8 == 0x80u8) == (f == 0x80u8))
        by (bit_vector)
        requires
            f == 0x01u8 || f == 0x02u8 || f == 0x04u8 || f == 0x08u8 || f == 0x10u8 || f == 0x20u8
                || f == 0x40u8 || f == 0x80u8,
    ;
    reveal_strlit("1");
    reveal_strlit("3");
    reveal_strlit("4");
    reveal_strlit("9");
    reveal_strlit("2");
    reveal_strlit("5");
    reveal_strlit("7");
    reveal_strlit("8");
    reveal_strlit("\x1b[");
    reveal_strlit("m");
    let c = spec_flag_code(f);
    assert(spec_params(s) =~~= seq![seq![c]]);
    assert(spec_join_params(spec_params(s)) == seq![c]);
    assert(spec_render(s) =~= seq!['\x1b', '[', c, 'm']);
}

/// The flag order is fixed: a style with the weight and underline flags set —
/// and nothing else — renders its parameters as `1;4`, never `4;1`.
pub proof fn lemma_weight_underline_order(s: AnsiStyle)
    requires
        s.flags == 0x05u8,
        s.foreground is None,
        s.background is None,
    ensures
        spec_render(s) == seq!['\x1b', '[', '1', ';', '4', 'm'],
{
    let f = s.flags;
    assert(f & 0x01u8 == 0x01u8 && (f & 0x02u8 == 0x02u8) == false && f & 0x04u8 == 0x04u8 && (f
        & 0x08u8 == 0x08u8) == false && (f & 0x10u8 == 0x10u8) == false && (f & 0x20u8 == 0x20u8)
        == false && (f & 0x40u8 == 0x40u8) == false && (f & 0x80u8 == 0x80u8) == false)
        by (bit_vector)
        requires
            f == 0x05u8,
    ;
    reveal_strlit("1");
    reveal_strlit("4");
    reveal_strlit(";");
    reveal_strlit("\x1b[");
    reveal_strlit("m");
    assert(spec_params(s) =~= seq!["1"@, "4"@]);
    assert(spec_params(s).drop_last() =~= seq!["1"@]);
    assert(spec_join_params(spec_params(s)) == spec_join_params(seq!["1"@]) + ";"@ + "4"@);
    assert(spec_render(s) =~= seq!['\x1b', '[', '1', ';', '4', 'm']);
}

/// Applying a non-plain style with reset always yields text that begins with
/// the rendered sequence and ends with the literal reset sequence.
pub proof fn lemma_apply_with_reset_brackets(s: AnsiStyle, text: Seq<char>)
    requires
        !s.spec_is_plain(),
    ensures
        spec_apply_with_reset(s, text).len() == spec_render(s).len() + text.len() + 4,
        spec_apply_with_reset(s, text).take(spec_render(s).len() as int) == spec_render(s),
        spec_apply_with_reset(s, text).skip(spec_render(s).len() + text.len() as int)
            == spec_reset(),
{
    reveal_strlit("\x1b[0m");
    let r = spec_apply_with_reset(s, text);
    assert(r.take(spec_render(s).len() as int) =~= spec_render(s));
    assert(r.skip(spec_render(s).len() + text.len() as int) =~= spec_reset());
}

} // verus!
