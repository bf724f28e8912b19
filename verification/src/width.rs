use vstd::prelude::*;
use vstd::utf8::{encode_scalar, encode_utf8};
use unicode_width::UnicodeWidthChar;

verus! {

/// How many terminal columns `UnicodeWidthChar::width` gives a character
/// (`None` for a control character).
pub uninterp spec fn unicode_width(c: char) -> Option<usize>;

/// Calls `UnicodeWidthChar::width`. Trusted: the width is a function of the
/// character, named `unicode_width`; the crate's source shows that printable
/// ASCII takes one column, that the control ranges below U+0020 and from
/// U+007F to U+009F have no width, that no character takes more than three
/// columns, and none below U+0800 more than two; its tables give the
/// box-drawing characters U+2500 to U+257F one column each.
#[verifier::external_body]
fn char_width(c: char) -> (r: Option<usize>)
    ensures
        r == unicode_width(c),
        0x20 <= c as u32 && (c as u32) < 0x7f ==> r == Some(1usize),
        (c as u32) < 0x20 || (0x7f <= c as u32 && (c as u32) < 0xa0) ==> r is None,
        r is Some ==> r->0 <= 3,
        (r is Some && (c as u32) < 0x800) ==> r->0 <= 2,
        0x2500 <= c as u32 && (c as u32) < 0x2580 ==> r == Some(1usize),
{
    UnicodeWidthChar::width(c)
}

/// The columns a character takes on a terminal; control characters take
/// none, printable ASCII and box-drawing characters one.
pub open spec fn cell_width(c: char) -> nat {
    if 0x20 <= c as u32 && (c as u32) < 0x7f {
        1
    } else if 0x2500 <= c as u32 && (c as u32) < 0x2580 {
        1
    } else if (c as u32) < 0x20 || (0x7f <= c as u32 && (c as u32) < 0xa0) {
        0
    } else {
        match unicode_width(c) {
            Some(w) => w as nat,
            None => 0,
        }
    }
}

/// The columns that `s` takes on a terminal, starting inside an escape
/// sequence when `in_escape` holds. An escape sequence runs from an ESC
/// character up to the next `m` and takes no columns.
pub open spec fn width_from(s: Seq<char>, in_escape: bool) -> nat
    decreases s.len(),
{
    if s.len() == 0 {
        0
    } else {
        let c = s[0];
        if c == '\x1b' {
            width_from(s.drop_first(), true)
        } else if in_escape {
            width_from(s.drop_first(), c != 'm')
        } else {
            cell_width(c) + width_from(s.drop_first(), false)
        }
    }
}

/// Whether reading `s`, starting inside an escape sequence when `in_escape`
/// holds, ends inside one.
pub open spec fn escape_after(s: Seq<char>, in_escape: bool) -> bool
    decreases s.len(),
{
    if s.len() == 0 {
        in_escape
    } else {
        let c = s[0];
        if c == '\x1b' {
            escape_after(s.drop_first(), true)
        } else if in_escape {
            escape_after(s.drop_first(), c != 'm')
        } else {
            escape_after(s.drop_first(), false)
        }
    }
}

/// The columns that `s` takes on a terminal, colour codes left out.
pub open spec fn visible_width(s: Seq<char>) -> nat {
    width_from(s, false)
}

proof fn lemma_scalar_bytes(c: char)
    ensures
        encode_scalar(c as u32).len() >= 1,
        (c as u32) >= 0x80 ==> encode_scalar(c as u32).len() >= 2,
        (c as u32) >= 0x800 ==> encode_scalar(c as u32).len() >= 3,
{
}

/// The columns that `s` takes on a terminal, colour codes left out.
pub fn visible_len(s: &str) -> (n: usize)
    ensures
        n == visible_width(s@),
{
    let bytes = s.as_bytes();
    let ghost all = s@;
    let byte_count = bytes.len();
    proof {
        assert(bytes@.len() == byte_count);
        assert(all.skip(0) =~= all);
    }
    let mut len: usize = 0;
    let mut in_escape = false;
    for c in it: s.chars()
        invariant
            it.seq() == all,
            all == s@,
            bytes@ == encode_utf8(all),
            bytes@.len() <= usize::MAX,
            len + width_from(all.skip(it.index() as int), in_escape) == width_from(all, false),
            len + encode_utf8(all.skip(it.index() as int)).len() <= encode_utf8(all).len(),
    {
        let ghost i = it.index() as int;
        let ghost rest = all.skip(i);
        proof {
            assert(rest[0] == c);
            assert(rest.drop_first() =~= all.skip(i + 1));
            lemma_scalar_bytes(c);
        }
        if c == '\x1b' {
            in_escape = true;
        } else if in_escape {
            if c == 'm' {
                in_escape = false;
            }
        } else {
            let w = match char_width(c) {
                Some(w) => w,
                None => 0,
            };
            assert(w == cell_width(c));
            len = len + w;
        }
    }
    proof {
        assert(all.skip(all.len() as int) =~= Seq::<char>::empty());
    }
    len
}

/// Widths add up over a concatenation, the second part read in the escape
/// state that the first part ends in.
pub proof fn lemma_width_concat(a: Seq<char>, b: Seq<char>, e: bool)
    ensures
        width_from(a + b, e) == width_from(a, e) + width_from(b, escape_after(a, e)),
        escape_after(a + b, e) == escape_after(b, escape_after(a, e)),
    decreases a.len(),
{
    if a.len() == 0 {
        assert(a + b =~= b);
    } else {
        assert((a + b)[0] == a[0]);
        assert((a + b).drop_first() =~= a.drop_first() + b);
        let c = a[0];
        if c == '\x1b' {
            lemma_width_concat(a.drop_first(), b, true);
        } else if e {
            lemma_width_concat(a.drop_first(), b, c != 'm');
        } else {
            lemma_width_concat(a.drop_first(), b, false);
        }
    }
}

/// Printable ASCII text takes one column per character and opens no escape
/// sequence.
pub proof fn lemma_printable_width(s: Seq<char>)
    requires
        forall|i: int| 0 <= i < s.len() ==> 0x20 <= #[trigger] s[i] as u32 && (s[i] as u32) < 0x7f,
    ensures
        width_from(s, false) == s.len(),
        !escape_after(s, false),
    decreases s.len(),
{
    if s.len() > 0 {
        assert(0x20 <= s[0] as u32);
        assert forall|i: int| 0 <= i < s.drop_first().len() implies
            0x20 <= #[trigger] s.drop_first()[i] as u32 && (s.drop_first()[i] as u32) < 0x7f by {
            assert(s.drop_first()[i] == s[i + 1]);
        }
        lemma_printable_width(s.drop_first());
    }
}

/// The characters of `s` that show on a terminal, read from the state
/// `in_escape`: escape sequences (from ESC up to the next `m`) left out.
pub open spec fn codes_removed_from(s: Seq<char>, in_escape: bool) -> Seq<char>
    decreases s.len(),
{
    if s.len() == 0 {
        Seq::empty()
    } else {
        let c = s[0];
        if c == '\x1b' {
            codes_removed_from(s.drop_first(), true)
        } else if in_escape {
            codes_removed_from(s.drop_first(), c != 'm')
        } else {
            seq![c] + codes_removed_from(s.drop_first(), false)
        }
    }
}

/// `s` with its colour codes removed.
pub open spec fn without_codes(s: Seq<char>) -> Seq<char> {
    codes_removed_from(s, false)
}

/// Removing codes works part by part, the second part read in the escape
/// state that the first part ends in.
pub proof fn lemma_codes_removed_concat(a: Seq<char>, b: Seq<char>, e: bool)
    ensures
        codes_removed_from(a + b, e) == codes_removed_from(a, e) + codes_removed_from(b, escape_after(a, e)),
    decreases a.len(),
{
    if a.len() == 0 {
        assert(a + b =~= b);
        assert(codes_removed_from(a, e) =~= Seq::<char>::empty());
        assert(Seq::<char>::empty() + codes_removed_from(b, e) =~= codes_removed_from(b, e));
    } else {
        assert((a + b)[0] == a[0]);
        assert((a + b).drop_first() =~= a.drop_first() + b);
        let c = a[0];
        if c == '\x1b' {
            lemma_codes_removed_concat(a.drop_first(), b, true);
        } else if e {
            lemma_codes_removed_concat(a.drop_first(), b, c != 'm');
        } else {
            lemma_codes_removed_concat(a.drop_first(), b, false);
            let r1 = codes_removed_from(a.drop_first(), false);
            let r2 = codes_removed_from(b, escape_after(a.drop_first(), false));
            assert(seq![c] + (r1 + r2) =~= (seq![c] + r1) + r2);
        }
    }
}

/// A text without ESC characters has no codes to remove.
pub proof fn lemma_no_codes(s: Seq<char>)
    requires
        !s.contains('\x1b'),
    ensures
        without_codes(s) == s,
    decreases s.len(),
{
    if s.len() > 0 {
        assert(s[0] != '\x1b');
        assert forall|i: int| 0 <= i < s.drop_first().len() implies s.drop_first()[i] != '\x1b' by {
            assert(s.drop_first()[i] == s[i + 1]);
        }
        lemma_no_codes(s.drop_first());
        assert(seq![s[0]] + s.drop_first() =~= s);
    }
}

} // verus!
