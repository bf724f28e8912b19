use vstd::prelude::*;

verus! {

/// Whether two string slices hold the same characters.
pub fn same_text(a: &str, b: &str) -> (r: bool)
    ensures
        r == (a@ == b@),
{
    let n = a.unicode_len();
    if n != b.unicode_len() {
        return false;
    }
    let mut i: usize = 0;
    while i < n
        invariant
            n == a@.len(),
            n == b@.len(),
            i <= n,
            forall|j: int| 0 <= j < i ==> a@[j] == b@[j],
        decreases n - i,
    {
        if a.get_char(i) != b.get_char(i) {
            return false;
        }
        i = i + 1;
    }
    assert(a@ =~= b@);
    true
}

/// The decimal digits, in order.
pub open spec fn digit(d: nat) -> char {
    "0123456789"@[d as int]
}

/// The decimal form of `n`, without leading zeros.
pub open spec fn decimal(n: nat) -> Seq<char>
    decreases n,
{
    if n < 10 {
        seq![digit(n)]
    } else {
        decimal(n / 10).push(digit(n % 10))
    }
}

/// `piece` written `n` times in a row.
pub open spec fn repeated(piece: Seq<char>, n: nat) -> Seq<char>
    decreases n,
{
    if n == 0 {
        Seq::empty()
    } else {
        repeated(piece, (n - 1) as nat) + piece
    }
}

/// The decimal form of `n`, as `format!("{}", n)` writes it.
pub fn decimal_text(n: u64) -> (r: String)
    ensures
        r@ == decimal(n as nat),
    decreases n,
{
    let digits = "0123456789";
    proof {
        reveal_strlit("0123456789");
    }
    let d = (n % 10) as usize;
    let one = digits.substring_char(d, d + 1);
    let mut s = if n < 10 {
        String::new()
    } else {
        decimal_text(n / 10)
    };
    s.append(one);
    proof {
        assert(one@ =~= seq![digit(n as nat % 10)]);
        if n < 10 {
            assert(s@ =~= decimal(n as nat));
        } else {
            assert(s@ =~= decimal(n as nat));
        }
    }
    s
}

/// `piece` written `n` times in a row, as `str::repeat` gives it.
pub fn repeat_text(piece: &str, n: usize) -> (r: String)
    ensures
        r@ == repeated(piece@, n as nat),
{
    let mut s = String::new();
    let mut i: usize = 0;
    while i < n
        invariant
            i <= n,
            s@ == repeated(piece@, i as nat),
        decreases n - i,
    {
        s.append(piece);
        i = i + 1;
    }
    s
}

/// Every character of `s` is printable ASCII.
pub open spec fn printable(s: Seq<char>) -> bool {
    forall|i: int| 0 <= i < s.len() ==> 0x20 <= #[trigger] s[i] as u32 && (s[i] as u32) < 0x7f
}

pub proof fn lemma_printable_concat(a: Seq<char>, b: Seq<char>)
    requires
        printable(a),
        printable(b),
    ensures
        printable(a + b),
{
    assert forall|i: int| 0 <= i < (a + b).len() implies 0x20 <= #[trigger] (a + b)[i] as u32 && ((a + b)[i] as u32) < 0x7f by {
        if i < a.len() {
            assert((a + b)[i] == a[i]);
        } else {
            assert((a + b)[i] == b[i - a.len()]);
        }
    }
}

pub proof fn lemma_blanks_printable(n: nat)
    ensures
        printable(repeated(" "@, n)),
        repeated(" "@, n).len() == n,
    decreases n,
{
    reveal_strlit(" ");
    if n > 0 {
        lemma_blanks_printable((n - 1) as nat);
        lemma_printable_concat(repeated(" "@, (n - 1) as nat), " "@);
    }
}

pub proof fn lemma_decimal_printable(n: nat)
    ensures
        printable(decimal(n)),
    decreases n,
{
    reveal_strlit("0123456789");
    if n >= 10 {
        lemma_decimal_printable(n / 10);
        assert(printable(seq![digit(n % 10)]));
        assert(decimal(n) =~= decimal(n / 10) + seq![digit(n % 10)]);
        lemma_printable_concat(decimal(n / 10), seq![digit(n % 10)]);
    }
}

/// A printable ASCII text holds no ESC character.
pub proof fn lemma_printable_has_no_esc(s: Seq<char>)
    requires
        printable(s),
    ensures
        !s.contains('\x1b'),
{
    if s.contains('\x1b') {
        let k = choose|k: int| 0 <= k < s.len() && s[k] == '\x1b';
        assert(0x20 <= s[k] as u32);
    }
}

} // verus!
