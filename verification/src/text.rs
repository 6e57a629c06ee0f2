//! Character sequences: the small vocabulary every module speaks in.
use vstd::prelude::*;

verus! {

/// The characters of a string slice, in order.
pub fn chars_of(s: &str) -> (v: Vec<char>)
    ensures
        v@ == s@,
{
    broadcast use vstd::string::axiom_spec_iter;
    let mut v: Vec<char> = Vec::new();
    for c in iter: s.chars()
        invariant
            v@ == iter.seq().take(iter.index() as int),
    {
        v.push(c);
    }
    v
}

/// The string made of these characters, in order.
#[verifier::external_body]
pub(crate) fn string_of(chars: &[char]) -> (s: String)
    ensures
        s@ == chars@,
{
    String::from_iter(chars.iter())
}

/// Unicode `White_Space`, the set `char::is_whitespace` tests.
pub open spec fn is_white(c: char) -> bool {
    ||| c == '\t' || c == '\n' || c == '\u{0B}' || c == '\u{0C}' || c == '\r' || c == ' '
    ||| c == '\u{85}' || c == '\u{A0}' || c == '\u{1680}'
    ||| ('\u{2000}' <= c && c <= '\u{200A}')
    ||| c == '\u{2028}' || c == '\u{2029}' || c == '\u{202F}' || c == '\u{205F}'
    ||| c == '\u{3000}'
}

pub fn white(c: char) -> (r: bool)
    ensures
        r == is_white(c),
{
    c == '\t' || c == '\n' || c == '\u{0B}' || c == '\u{0C}' || c == '\r' || c == ' '
        || c == '\u{85}' || c == '\u{A0}' || c == '\u{1680}' || ('\u{2000}' <= c && c
        <= '\u{200A}') || c == '\u{2028}' || c == '\u{2029}' || c == '\u{202F}' || c
        == '\u{205F}' || c == '\u{3000}'
}

/// The sequence without its leading white space.
pub open spec fn trim_start(s: Seq<char>) -> Seq<char>
    decreases s.len(),
{
    if s.len() > 0 && is_white(s[0]) {
        trim_start(s.drop_first())
    } else {
        s
    }
}

/// The sequence without its trailing white space.
pub open spec fn trim_end(s: Seq<char>) -> Seq<char>
    decreases s.len(),
{
    if s.len() > 0 && is_white(s.last()) {
        trim_end(s.drop_last())
    } else {
        s
    }
}

/// What `str::trim` leaves of a sequence.
pub open spec fn trim(s: Seq<char>) -> Seq<char> {
    trim_end(trim_start(s))
}

proof fn lemma_trim_start_skip(s: Seq<char>, i: int)
    requires
        0 <= i <= s.len(),
        forall|k: int| 0 <= k < i ==> is_white(#[trigger] s[k]),
        i == s.len() || !is_white(s[i]),
    ensures
        trim_start(s) == s.skip(i),
    decreases i,
{
    if i > 0 {
        assert(s.drop_first().skip(i - 1) =~= s.skip(i));
        lemma_trim_start_skip(s.drop_first(), i - 1);
    } else {
        assert(s.skip(0) =~= s);
    }
}

proof fn lemma_trim_end_take(s: Seq<char>, j: int)
    requires
        0 <= j <= s.len(),
        forall|k: int| j <= k < s.len() ==> is_white(#[trigger] s[k]),
        j == 0 || !is_white(s[j - 1]),
    ensures
        trim_end(s) == s.take(j),
    decreases s.len() - j,
{
    if j < s.len() {
        assert(s.drop_last().take(j) =~= s.take(j));
        lemma_trim_end_take(s.drop_last(), j);
    } else {
        assert(s.take(j) =~= s);
    }
}

/// `str::trim` on characters.
pub fn trimmed(s: &[char]) -> (r: Vec<char>)
    ensures
        r@ == trim(s@),
{
    let mut i: usize = 0;
    while i < s.len() && white(s[i])
        invariant
            0 <= i <= s.len(),
            forall|k: int| 0 <= k < i ==> is_white(#[trigger] s@[k]),
        decreases s.len() - i,
    {
        i = i + 1;
    }
    proof {
        lemma_trim_start_skip(s@, i as int);
    }
    let mut j: usize = s.len();
    while j > i && white(s[j - 1])
        invariant
            i <= j <= s.len(),
            forall|k: int| j <= k < s.len() ==> is_white(#[trigger] s@[k]),
        decreases j,
    {
        j = j - 1;
    }
    proof {
        let t = s@.skip(i as int);
        assert forall|k: int| j - i <= k < t.len() implies is_white(#[trigger] t[k]) by {
            assert(t[k] == s@[k + i]);
        }
        if j > i {
            assert(t[j - i - 1] == s@[j - 1]);
        }
        lemma_trim_end_take(t, (j - i) as int);
        assert(t.take((j - i) as int) =~= s@.subrange(i as int, j as int));
    }
    let mut r: Vec<char> = Vec::new();
    let mut k: usize = i;
    while k < j
        invariant
            i <= k <= j <= s.len(),
            r@ =~= s@.subrange(i as int, k as int),
        decreases j - k,
    {
        r.push(s[k]);
        k = k + 1;
    }
    r
}

/// Whether two texts are the same, character by character.
pub fn same_text(a: &str, b: &str) -> (r: bool)
    ensures
        r == (a@ == b@),
{
    a.to_owned() == b.to_owned()
}

/// Whether `p` begins `s`.
pub open spec fn has_prefix(s: Seq<char>, p: Seq<char>) -> bool {
    p.len() <= s.len() && s.take(p.len() as int) == p
}

pub fn starts_with(s: &[char], p: &[char]) -> (r: bool)
    ensures
        r == has_prefix(s@, p@),
{
    if p.len() > s.len() {
        return false;
    }
    let mut i: usize = 0;
    while i < p.len()
        invariant
            p.len() <= s.len(),
            0 <= i <= p.len(),
            forall|k: int| 0 <= k < i ==> s@[k] == p@[k],
        decreases p.len() - i,
    {
        if s[i] != p[i] {
            assert(s@.take(p.len() as int)[i as int] != p@[i as int]);
            return false;
        }
        i = i + 1;
    }
    assert(s@.take(p.len() as int) =~= p@);
    true
}

/// `char::to_ascii_uppercase`.
pub open spec fn upper(c: char) -> char {
    if 'a' <= c && c <= 'z' {
        ((c as u32) - 32) as char
    } else {
        c
    }
}

pub fn upper_char(c: char) -> (r: char)
    ensures
        r == upper(c),
{
    if 'a' <= c && c <= 'z' {
        let n: u8 = (c as u8) - 32;
        n as char
    } else {
        c
    }
}

} // verus!

verus! {

/// A hexadecimal digit, lower case.
pub open spec fn hex_digit(d: int) -> char {
    if d < 10 {
        (d + 48) as char
    } else {
        (d + 87) as char
    }
}

pub open spec fn pow16(w: nat) -> nat
    decreases w,
{
    if w == 0 {
        1
    } else {
        16 * pow16((w - 1) as nat)
    }
}

/// The `w` lowest hexadecimal digits of `n`, most significant first.
pub open spec fn hex(n: nat, w: nat) -> Seq<char>
    decreases w,
{
    if w == 0 {
        Seq::empty()
    } else {
        hex(n / 16, (w - 1) as nat).push(hex_digit((n % 16) as int))
    }
}

proof fn lemma_hex_len(n: nat, w: nat)
    ensures
        hex(n, w).len() == w,
    decreases w,
{
    if w > 0 {
        lemma_hex_len(n / 16, (w - 1) as nat);
    }
}

/// Two numbers below `16^w` never share their `w` hexadecimal digits.
pub proof fn lemma_hex_injective(n: nat, m: nat, w: nat)
    requires
        n < pow16(w),
        m < pow16(w),
        hex(n, w) == hex(m, w),
    ensures
        n == m,
    decreases w,
{
    if w == 0 {
    } else {
        lemma_hex_len(n / 16, (w - 1) as nat);
        lemma_hex_len(m / 16, (w - 1) as nat);
        let a = hex(n, w);
        let b = hex(m, w);
        assert(a.last() == b.last());
        assert(a.drop_last() =~= hex(n / 16, (w - 1) as nat));
        assert(b.drop_last() =~= hex(m / 16, (w - 1) as nat));
        assert(n % 16 == m % 16) by {
            let x = (n % 16) as int;
            let y = (m % 16) as int;
            assert(hex_digit(x) == hex_digit(y));
            assert(0 <= x < 16 && 0 <= y < 16);
            assert((x < 10 ==> (hex_digit(x) as int) == x + 48) && (x >= 10 ==> (hex_digit(x) as int) == x + 87));
            assert((y < 10 ==> (hex_digit(y) as int) == y + 48) && (y >= 10 ==> (hex_digit(y) as int) == y + 87));
        }
        assert(n / 16 < pow16((w - 1) as nat)) by (nonlinear_arith)
            requires
                n < pow16(w),
                pow16(w) == 16 * pow16((w - 1) as nat),
        ;
        assert(m / 16 < pow16((w - 1) as nat)) by (nonlinear_arith)
            requires
                m < pow16(w),
                pow16(w) == 16 * pow16((w - 1) as nat),
        ;
        lemma_hex_injective(n / 16, m / 16, (w - 1) as nat);
        assert(n == 16 * (n / 16) + n % 16) by (nonlinear_arith);
        assert(m == 16 * (m / 16) + m % 16) by (nonlinear_arith);
    }
}

pub proof fn lemma_pow16_bound(w: nat)
    ensures
        w >= 16 ==> pow16(w) > u64::MAX,
    decreases w,
{
    if w > 0 {
        lemma_pow16_bound((w - 1) as nat);
    }
    if w == 16 {
        reveal_with_fuel(pow16, 17);
    }
    if w > 16 {
        assert(pow16(w) >= pow16((w - 1) as nat));
    }
}

/// The `w` lowest hexadecimal digits of `n`.
pub fn hex_of(n: u64, w: usize) -> (r: Vec<char>)
    ensures
        r@ == hex(n as nat, w as nat),
    decreases w,
{
    if w == 0 {
        Vec::new()
    } else {
        let mut r = hex_of(n / 16, w - 1);
        let d: u64 = n % 16;
        let c: char = if d < 10 {
            ((d as u8) + 48) as char
        } else {
            ((d as u8) + 87) as char
        };
        r.push(c);
        r
    }
}

} // verus!

verus! {

/// The decimal digits of `n`, most significant first.
pub open spec fn decimal(n: nat) -> Seq<char>
    decreases n,
{
    if n < 10 {
        seq![((n + 48) as int) as char]
    } else {
        decimal(n / 10).push(((n % 10 + 48) as int) as char)
    }
}

/// The decimal digits of `n`.
pub fn decimal_of(n: usize) -> (r: Vec<char>)
    ensures
        r@ == decimal(n as nat),
    decreases n,
{
    if n < 10 {
        let d: u8 = n as u8;
        let mut r: Vec<char> = Vec::new();
        r.push((d + 48) as char);
        r
    } else {
        let mut r = decimal_of(n / 10);
        let d: u8 = (n % 10) as u8;
        r.push((d + 48) as char);
        r
    }
}

} // verus!
