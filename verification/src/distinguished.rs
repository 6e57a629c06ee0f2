//! Distinguished names as RFC 4514 writes them: the attribute pairs, the
//! holder, the pseudonym mark and the issuing authority.
use vstd::prelude::*;

use crate::text::{chars_of, has_prefix, starts_with, string_of, trim, trimmed, upper, upper_char};

verus! {

/// How many backslashes stand right before position `i`.
pub open spec fn backslashes_before(s: Seq<char>, i: int) -> nat
    decreases i,
{
    if 0 < i <= s.len() && s[i - 1] == '\\' {
        1 + backslashes_before(s, i - 1)
    } else {
        0
    }
}

/// A comma that separates two pairs: one not escaped by an odd run of
/// backslashes.
pub open spec fn is_separator(s: Seq<char>, i: int) -> bool {
    s[i] == ',' && backslashes_before(s, i) % 2 == 0
}

/// The pairs closed by the separators among the first `n` characters, and
/// where the pair still open begins.
pub open spec fn split_upto(s: Seq<char>, n: nat) -> (Seq<Seq<char>>, int)
    decreases n,
{
    if n == 0 {
        (Seq::empty(), 0)
    } else {
        let (done, start) = split_upto(s, (n - 1) as nat);
        if is_separator(s, n - 1) {
            (done.push(s.subrange(start, n - 1)), n as int)
        } else {
            (done, start)
        }
    }
}

/// The text between the separators, still escaped.
pub open spec fn raw_pairs(s: Seq<char>) -> Seq<Seq<char>> {
    let (done, start) = split_upto(s, s.len());
    done.push(s.subrange(start, s.len() as int))
}

/// A value with every `\x` read as `x`.
pub open spec fn unescaped(v: Seq<char>) -> Seq<char>
    decreases v.len(),
{
    if v.len() == 0 {
        Seq::empty()
    } else if v[0] == '\\' && v.len() >= 2 {
        seq![v[1]] + unescaped(v.skip(2))
    } else {
        seq![v[0]] + unescaped(v.skip(1))
    }
}

/// The attribute pairs of a distinguished name, unescaped.
pub open spec fn pairs_of(s: Seq<char>) -> Seq<Seq<char>> {
    raw_pairs(s).map_values(|p: Seq<char>| unescaped(p))
}

/// The value of the first pair that begins with `name` once trimmed, or
/// nothing.
pub open spec fn value_after(pairs: Seq<Seq<char>>, name: Seq<char>) -> Seq<char>
    decreases pairs.len(),
{
    if pairs.len() == 0 {
        Seq::empty()
    } else if has_prefix(trim(pairs[0]), name) {
        trim(pairs[0]).skip(name.len() as int)
    } else {
        value_after(pairs.drop_first(), name)
    }
}

/// The value of attribute `name` (written with its `=`) in a distinguished
/// name.
pub open spec fn attribute_of(name: Seq<char>, dn: Seq<char>) -> Seq<char> {
    value_after(pairs_of(dn), name)
}

proof fn lemma_run(s: Seq<char>, i: int, b: int)
    requires
        0 <= b <= i <= s.len(),
        forall|k: int| i - b <= k < i ==> s[k] == '\\',
    ensures
        backslashes_before(s, i) == b + backslashes_before(s, i - b),
    decreases b,
{
    if b > 0 {
        lemma_run(s, i - 1, b - 1);
    }
}

/// Whether the comma at `index` is escaped by an odd number of backslashes.
fn comma_is_escaped(s: &[char], index: usize) -> (r: bool)
    requires
        index <= s.len(),
    ensures
        r == (backslashes_before(s@, index as int) % 2 == 1),
{
    let mut backslashes: usize = 0;
    while index > backslashes && s[index - 1 - backslashes] == '\\'
        invariant
            backslashes <= index <= s.len(),
            forall|k: int| index - backslashes <= k < index ==> s@[k] == '\\',
        decreases index - backslashes,
    {
        backslashes = backslashes + 1;
    }
    proof {
        lemma_run(s@, index as int, backslashes as int);
    }
    backslashes % 2 == 1
}

/// `\x` read as `x`, as RFC 4514 escapes.
fn unescape(v: &[char]) -> (r: Vec<char>)
    ensures
        r@ == unescaped(v@),
{
    let mut r: Vec<char> = Vec::new();
    let mut i: usize = 0;
    assert(v@.skip(0) =~= v@);
    while i < v.len()
        invariant
            0 <= i <= v.len(),
            unescaped(v@) == r@ + unescaped(v@.skip(i as int)),
        decreases v.len() - i,
    {
        let rest = Ghost(v@.skip(i as int));
        if v[i] == '\\' && i + 1 < v.len() {
            assert(rest@[0] == v@[i as int] && rest@[1] == v@[i + 1]);
            assert(rest@.skip(2) =~= v@.skip(i + 2));
            r.push(v[i + 1]);
            assert(r@ + unescaped(v@.skip(i + 2)) =~= r@.drop_last() + (seq![v@[i + 1]]
                + unescaped(v@.skip(i + 2))));
            i = i + 2;
        } else {
            assert(rest@[0] == v@[i as int]);
            assert(rest@.skip(1) =~= v@.skip(i + 1));
            r.push(v[i]);
            assert(r@ + unescaped(v@.skip(i + 1)) =~= r@.drop_last() + (seq![v@[i as int]]
                + unescaped(v@.skip(i + 1))));
            i = i + 1;
        }
    }
    assert(unescaped(v@.skip(i as int)) =~= Seq::<char>::empty());
    assert(r@ + Seq::<char>::empty() =~= r@);
    r
}

fn slice_of(s: &[char], from: usize, to: usize) -> (r: Vec<char>)
    requires
        from <= to <= s.len(),
    ensures
        r@ == s@.subrange(from as int, to as int),
{
    let mut r: Vec<char> = Vec::new();
    let mut k: usize = from;
    while k < to
        invariant
            from <= k <= to <= s.len(),
            r@ =~= s@.subrange(from as int, k as int),
        decreases to - k,
    {
        r.push(s[k]);
        k = k + 1;
    }
    r
}

/// The attribute=value pairs of a distinguished name, with escaped commas
/// kept inside their value (RFC 4514).
fn attribute_pairs(s: &[char]) -> (r: Vec<Vec<char>>)
    ensures
        r.len() == pairs_of(s@).len(),
        forall|k: int| 0 <= k < r.len() ==> #[trigger] r[k]@ == pairs_of(s@)[k],
{
    let mut pairs: Vec<Vec<char>> = Vec::new();
    let mut start: usize = 0;
    let mut i: usize = 0;
    while i < s.len()
        invariant
            0 <= start <= i <= s.len(),
            split_upto(s@, i as nat).1 == start,
            pairs.len() == split_upto(s@, i as nat).0.len(),
            forall|k: int|
                0 <= k < pairs.len() ==> #[trigger] pairs[k]@ == unescaped(
                    split_upto(s@, i as nat).0[k],
                ),
        decreases s.len() - i,
    {
        let escaped = comma_is_escaped(s, i);
        if s[i] == ',' && !escaped {
            let piece = slice_of(s, start, i);
            let value = unescape(&piece);
            pairs.push(value);
            start = i + 1;
        }
        i = i + 1;
    }
    let piece = slice_of(s, start, s.len());
    let value = unescape(&piece);
    pairs.push(value);
    pairs
}

/// Extracts the value of an attribute (`name` carries its `=`) from a
/// distinguished name; empty when no pair carries it.
pub fn attribute(name: &str, distinguished_name: &str) -> (r: String)
    ensures
        r@ == attribute_of(name@, distinguished_name@),
{
    let dn = chars_of(distinguished_name);
    let wanted = chars_of(name);
    let pairs = attribute_pairs(&dn);
    assert(pairs@.map_values(|p: Vec<char>| p@) =~= pairs_of(dn@));
    let r = value_in(&pairs, &wanted);
    string_of(&r)
}

fn value_in(pairs: &Vec<Vec<char>>, name: &[char]) -> (r: Vec<char>)
    ensures
        r@ == value_after(pairs@.map_values(|p: Vec<char>| p@), name@),
{
    let ghost all = pairs@.map_values(|p: Vec<char>| p@);
    let mut k: usize = 0;
    assert(all.skip(0) =~= all);
    while k < pairs.len()
        invariant
            0 <= k <= pairs.len(),
            all == pairs@.map_values(|p: Vec<char>| p@),
            value_after(all, name@) == value_after(all.skip(k as int), name@),
        decreases pairs.len() - k,
    {
        let t = trimmed(&pairs[k]);
        let rest = Ghost(all.skip(k as int));
        assert(rest@[0] == pairs[k as int]@);
        assert(rest@.drop_first() =~= all.skip(k + 1));
        if starts_with(&t, name) {
            return slice_of(&t, name.len(), t.len());
        }
        k = k + 1;
    }
    assert(all.skip(k as int).len() == 0);
    Vec::new()
}


/// What an absent name reads as: the empty name.
pub open spec fn or_empty(name: Option<&str>) -> Seq<char> {
    match name {
        Some(s) => s@,
        None => Seq::empty(),
    }
}

/// The common name (CN) and the serial number of the holder's subject.
pub fn holder_of(subject: Option<&str>) -> (r: (String, String))
    ensures
        r.0@ == attribute_of("CN="@, or_empty(subject)),
        r.1@ == attribute_of("SERIALNUMBER="@, or_empty(subject)),
{
    let text_of: &str = match subject {
        Some(s) => s,
        None => "",
    };
    proof {
        reveal_strlit("");
        if subject.is_none() {
            assert(text_of@ =~= Seq::<char>::empty());
        }
    }
    assert(text_of@ == or_empty(subject));
    (attribute("CN=", text_of), attribute("SERIALNUMBER=", text_of))
}

/// A pair that names the pseudonym attribute (2.5.4.65), in any of its
/// spellings and in any case.
pub open spec fn names_a_pseudonym(pair: Seq<char>) -> bool {
    let u = trim(pair).map_values(|c: char| upper(c));
    ||| has_prefix(u, "2.5.4.65="@)
    ||| has_prefix(u, "OID.2.5.4.65="@)
    ||| has_prefix(u, "PSEUDONYM="@)
}

/// Whether a subject carries the pseudonym attribute.
pub open spec fn is_pseudonym_subject(subject: Seq<char>) -> bool {
    exists|k: int| 0 <= k < pairs_of(subject).len() && names_a_pseudonym(#[trigger] pairs_of(subject)[k])
}

fn uppercased(s: &[char]) -> (r: Vec<char>)
    ensures
        r@ == s@.map_values(|c: char| upper(c)),
{
    let mut r: Vec<char> = Vec::new();
    let mut k: usize = 0;
    while k < s.len()
        invariant
            0 <= k <= s.len(),
            r@ =~= s@.take(k as int).map_values(|c: char| upper(c)),
        decreases s.len() - k,
    {
        r.push(upper_char(s[k]));
        k = k + 1;
    }
    assert(s@.take(k as int) =~= s@);
    r
}

/// Whether the certificate is a pseudonym one, by the RDN 2.5.4.65.
pub fn is_pseudonym(subject: Option<&str>) -> (r: bool)
    ensures
        r == is_pseudonym_subject(or_empty(subject)),
{
    let text_of: &str = match subject {
        Some(s) => s,
        None => "",
    };
    proof {
        reveal_strlit("");
        if subject.is_none() {
            assert(text_of@ =~= Seq::<char>::empty());
        }
    }
    assert(text_of@ == or_empty(subject));
    let dn = chars_of(text_of);
    let pairs = attribute_pairs(&dn);
    let numeric = chars_of("2.5.4.65=");
    let prefixed = chars_of("OID.2.5.4.65=");
    let named = chars_of("PSEUDONYM=");
    let mut k: usize = 0;
    while k < pairs.len()
        invariant
            0 <= k <= pairs.len(),
            dn@ == or_empty(subject),
            numeric@ == "2.5.4.65="@,
            prefixed@ == "OID.2.5.4.65="@,
            named@ == "PSEUDONYM="@,
            pairs.len() == pairs_of(dn@).len(),
            forall|j: int| 0 <= j < pairs.len() ==> #[trigger] pairs[j]@ == pairs_of(dn@)[j],
            forall|j: int| 0 <= j < k ==> !names_a_pseudonym(#[trigger] pairs_of(dn@)[j]),
        decreases pairs.len() - k,
    {
        let t = trimmed(&pairs[k]);
        let u = uppercased(&t);
        if starts_with(&u, &numeric) || starts_with(&u, &prefixed) || starts_with(&u, &named) {
            assert(names_a_pseudonym(pairs_of(dn@)[k as int]));
            return true;
        }
        k = k + 1;
    }
    false
}

/// The issuing authority as the listing shows it: its CN, else its O, else
/// the whole issuer.
pub open spec fn authority_of(issuer: Seq<char>) -> Seq<char> {
    let t = trim(issuer);
    let cn = attribute_of("CN="@, t);
    let o = attribute_of("O="@, t);
    if cn.len() > 0 {
        cn
    } else if o.len() > 0 {
        o
    } else {
        t
    }
}

/// Extracts the name of the issuing authority from the certificate's issuer.
pub fn issuer_of(issuer: Option<&str>) -> (r: String)
    ensures
        r@ == authority_of(or_empty(issuer)),
{
    let text_of: &str = match issuer {
        Some(s) => s,
        None => "",
    };
    proof {
        reveal_strlit("");
        if issuer.is_none() {
            assert(text_of@ =~= Seq::<char>::empty());
        }
    }
    assert(text_of@ == or_empty(issuer));
    let t = trimmed(&chars_of(text_of));
    let text = string_of(&t);
    let common_name = attribute("CN=", &text);
    if !common_name.as_str().is_empty() {
        return common_name;
    }
    let organisation = attribute("O=", &text);
    if !organisation.as_str().is_empty() {
        return organisation;
    }
    text
}

} // verus!
