use vstd::prelude::*;
use colored::Colorize;
use crate::width::{codes_removed_from, escape_after, lemma_codes_removed_concat, lemma_no_codes, lemma_width_concat, visible_width, width_from, without_codes};

verus! {

// ---------------------------------------------------------------------------
// Terminal colours, from the `colored` crate. Whether colour codes are
// written at all depends on the environment (`CLICOLOR`, `NO_COLOR`,
// `CLICOLOR_FORCE`) and on whether standard output is a terminal. Either
// way, a text that holds no reset code `ESC [0m` comes back unchanged or
// between the opening code `ESC [ codes m` of its colour and the reset
// code. The codes are fixed by colored's source: the style numbers first
// (bold 1, dimmed 2, strikethrough 9, in that order, joined by `;`), then
// the colour (red 31, green 32, yellow 33, white 37). This rests on the
// colouring switch staying the same while one text is written; nothing in
// this program changes it.
// ---------------------------------------------------------------------------

/// `text` between an opening colour code with `codes` and the reset code.
pub open spec fn colour_wrapped(codes: Seq<char>, text: Seq<char>) -> Seq<char> {
    "\x1b["@ + codes + "m"@ + text + "\x1b[0m"@
}

/// `shown` is `text` as `colored` writes it with the colour codes `codes`:
/// unchanged when colours are off, wrapped in those codes when they are on.
pub open spec fn shown_with(codes: Seq<char>, text: Seq<char>, shown: Seq<char>) -> bool {
    shown == text || shown == colour_wrapped(codes, text)
}

/// `s` holds the reset code `ESC [0m` somewhere.
pub open spec fn holds_reset(s: Seq<char>) -> bool {
    exists|i: int| 0 <= i && i + 4 <= s.len() && #[trigger] s.subrange(i, i + 4) == "\x1b[0m"@
}

/// `shown` is `text`, unchanged or wrapped in some colour codes that hold
/// no `m`.
pub open spec fn painted_as(text: Seq<char>, shown: Seq<char>) -> bool {
    ||| shown == text
    ||| exists|codes: Seq<char>| !codes.contains('m') && shown == #[trigger] colour_wrapped(codes, text)
}

/// Calls `Colorize::green` and `Colorize::bold` on a string slice and writes
/// the result with `ToString::to_string`. Trusted: by the crate's source a
/// text without a reset code comes back unchanged or wrapped in the codes
/// `1;32`.
#[verifier::external_body]
pub(crate) fn green_bold(s: &str) -> (r: String)
    ensures
        !holds_reset(s@) ==> shown_with("1;32"@, s@, r@),
{
    s.green().bold().to_string()
}

/// Calls `Colorize::white` on a string slice and writes the result with
/// `ToString::to_string`. Trusted, as [`green_bold`], with the code `37`.
#[verifier::external_body]
pub(crate) fn white(s: &str) -> (r: String)
    ensures
        !holds_reset(s@) ==> shown_with("37"@, s@, r@),
{
    s.white().to_string()
}

/// Calls `Colorize::red` and `Colorize::bold` on a string slice and writes
/// the result with `ToString::to_string`. Trusted, as [`green_bold`], with
/// the codes `1;31`.
#[verifier::external_body]
pub(crate) fn red_bold(s: &str) -> (r: String)
    ensures
        !holds_reset(s@) ==> shown_with("1;31"@, s@, r@),
{
    s.red().bold().to_string()
}

/// Calls `Colorize::red` on a string slice and writes the result with
/// `ToString::to_string`. Trusted, as [`green_bold`], with the code `31`.
#[verifier::external_body]
pub(crate) fn red(s: &str) -> (r: String)
    ensures
        !holds_reset(s@) ==> shown_with("31"@, s@, r@),
{
    s.red().to_string()
}

/// Calls `Colorize::yellow` on a string slice and writes the result with
/// `ToString::to_string`. Trusted, as [`green_bold`], with the code `33`.
#[verifier::external_body]
pub(crate) fn yellow(s: &str) -> (r: String)
    ensures
        !holds_reset(s@) ==> shown_with("33"@, s@, r@),
{
    s.yellow().to_string()
}

/// Calls `Colorize::normal` on a string slice and writes the result with
/// `ToString::to_string`. Trusted: by the crate's source a text without
/// colour or style is written unchanged.
#[verifier::external_body]
pub(crate) fn normal(s: &str) -> (r: String)
    ensures
        r@ == s@,
{
    s.normal().to_string()
}

/// Calls `Colorize::strikethrough` and `Colorize::dimmed` on a string slice
/// and writes the result with `ToString::to_string`. Trusted, as
/// [`green_bold`], with the codes `2;9`.
#[verifier::external_body]
pub(crate) fn strikethrough_dimmed(s: &str) -> (r: String)
    ensures
        !holds_reset(s@) ==> shown_with("2;9"@, s@, r@),
{
    s.strikethrough().dimmed().to_string()
}

/// Calls `Colorize::bold` on a string slice and writes the result with
/// `ToString::to_string`. Trusted, as [`green_bold`], with the code `1`.
#[verifier::external_body]
pub(crate) fn bold(s: &str) -> (r: String)
    ensures
        !holds_reset(s@) ==> shown_with("1"@, s@, r@),
{
    s.bold().to_string()
}

/// A text without ESC characters holds no reset code.
pub proof fn lemma_no_esc_no_reset(s: Seq<char>)
    requires
        !s.contains('\x1b'),
    ensures
        !holds_reset(s),
{
    if holds_reset(s) {
        let i = choose|i: int| 0 <= i && i + 4 <= s.len() && #[trigger] s.subrange(i, i + 4) == "\x1b[0m"@;
        reveal_strlit("\x1b[0m");
        assert(s.subrange(i, i + 4)[0] == '\x1b');
        assert(s[i] == '\x1b');
    }
}

/// Text shown with codes that hold no `m` is painted.
pub proof fn lemma_shown_is_painted(codes: Seq<char>, text: Seq<char>, shown: Seq<char>)
    requires
        shown_with(codes, text, shown),
        !codes.contains('m'),
    ensures
        painted_as(text, shown),
{
    if shown != text {
        assert(shown == colour_wrapped(codes, text));
    }
}

/// The colour codes this program uses hold no `m`.
pub proof fn lemma_used_codes_have_no_m()
    ensures
        !"1;32"@.contains('m'),
        !"37"@.contains('m'),
        !"1;31"@.contains('m'),
        !"31"@.contains('m'),
        !"33"@.contains('m'),
        !"2;9"@.contains('m'),
        !"1"@.contains('m'),
{
    reveal_strlit("1;32");
    reveal_strlit("37");
    reveal_strlit("1;31");
    reveal_strlit("31");
    reveal_strlit("33");
    reveal_strlit("2;9");
    reveal_strlit("1");
}

/// A text without ESC characters opens no escape sequence.
pub proof fn lemma_no_escape_char(s: Seq<char>)
    requires
        !s.contains('\x1b'),
    ensures
        !escape_after(s, false),
    decreases s.len(),
{
    if s.len() > 0 {
        assert(s[0] != '\x1b');
        assert forall|i: int| 0 <= i < s.drop_first().len() implies s.drop_first()[i] != '\x1b' by {
            assert(s.drop_first()[i] == s[i + 1]);
        }
        lemma_no_escape_char(s.drop_first());
    }
}

/// Inside an escape sequence, characters other than `m` take no columns and
/// keep the sequence open.
proof fn lemma_inside_escape(codes: Seq<char>)
    requires
        !codes.contains('m'),
    ensures
        width_from(codes, true) == 0,
        escape_after(codes, true),
    decreases codes.len(),
{
    if codes.len() > 0 {
        assert(codes[0] != 'm');
        assert forall|i: int| 0 <= i < codes.drop_first().len() implies codes.drop_first()[i] != 'm' by {
            assert(codes.drop_first()[i] == codes[i + 1]);
        }
        lemma_inside_escape(codes.drop_first());
    }
}

/// Colour codes take no columns: a painted text is as wide as the text and,
/// like it, leaves no escape sequence open.
pub proof fn lemma_painted_keeps_width(text: Seq<char>, shown: Seq<char>)
    requires
        painted_as(text, shown),
        !text.contains('\x1b'),
    ensures
        visible_width(shown) == visible_width(text),
        !escape_after(shown, false),
        !escape_after(text, false),
{
    lemma_no_escape_char(text);
    if shown != text {
        let codes = choose|codes: Seq<char>| !codes.contains('m') && shown == #[trigger] colour_wrapped(codes, text);
        reveal_strlit("\x1b[");
        reveal_strlit("m");
        reveal_strlit("\x1b[0m");
        let open = "\x1b["@ + codes + "m"@;
        lemma_inside_escape(codes);
        reveal_with_fuel(width_from, 5);
        reveal_with_fuel(escape_after, 5);
        lemma_width_concat("\x1b["@, codes, false);
        assert(width_from("\x1b["@, false) == 0 && escape_after("\x1b["@, false));
        lemma_width_concat("\x1b["@ + codes, "m"@, false);
        lemma_width_concat(open, text, false);
        lemma_width_concat(open + text, "\x1b[0m"@, false);
        assert(width_from("\x1b[0m"@, false) == 0 && !escape_after("\x1b[0m"@, false));
    }
}

/// Removing the colour codes from a painted text gives the text back.
pub proof fn lemma_painted_codes_removed(text: Seq<char>, shown: Seq<char>)
    requires
        painted_as(text, shown),
        !text.contains('\x1b'),
    ensures
        without_codes(shown) == text,
{
    lemma_no_codes(text);
    lemma_no_escape_char(text);
    if shown != text {
        let codes = choose|codes: Seq<char>| !codes.contains('m') && shown == #[trigger] colour_wrapped(codes, text);
        reveal_strlit("\x1b[");
        reveal_strlit("m");
        reveal_strlit("\x1b[0m");
        let open = "\x1b["@ + codes + "m"@;
        lemma_inside_escape(codes);
        lemma_inside_codes_removed(codes);
        reveal_with_fuel(codes_removed_from, 5);
        reveal_with_fuel(escape_after, 5);
        lemma_width_concat("\x1b["@, codes, false);
        lemma_codes_removed_concat("\x1b["@, codes, false);
        lemma_width_concat("\x1b["@ + codes, "m"@, false);
        lemma_codes_removed_concat("\x1b["@ + codes, "m"@, false);
        lemma_width_concat(open, text, false);
        lemma_codes_removed_concat(open, text, false);
        lemma_codes_removed_concat(open + text, "\x1b[0m"@, false);
        assert(codes_removed_from(open, false) =~= Seq::<char>::empty());
        assert(codes_removed_from("\x1b[0m"@, false) =~= Seq::<char>::empty());
        assert(without_codes(shown) =~= text);
    }
}

/// Inside an escape sequence, characters other than `m` show nothing.
proof fn lemma_inside_codes_removed(codes: Seq<char>)
    requires
        !codes.contains('m'),
    ensures
        codes_removed_from(codes, true) == Seq::<char>::empty(),
    decreases codes.len(),
{
    if codes.len() > 0 {
        assert(codes[0] != 'm');
        assert forall|i: int| 0 <= i < codes.drop_first().len() implies codes.drop_first()[i] != 'm' by {
            assert(codes.drop_first()[i] == codes[i + 1]);
        }
        lemma_inside_codes_removed(codes.drop_first());
    }
}

} // verus!
