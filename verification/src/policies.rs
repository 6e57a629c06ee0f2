//! The signature policy a site declares: expanded by the bridge, and
//! combined with the parameters of the application's own.
use vstd::prelude::*;

use crate::situations::BridgeError;
use crate::text::{chars_of, same_text, string_of};

verus! {

/// The format the policies are expanded for.
pub const PADES: &'static str = "pades";

/// Whoever expands the policy a site declared: the bridge in production, a
/// double in the tests.
pub trait PolicyEngine {
    /// The declared parameters, as Java properties, with the policy expanded.
    fn expand(&self, extra_params: &str, format: &str) -> Result<String, BridgeError>;
}

/// The parameters as a map: a later pair takes the place of an earlier one
/// with the same key.
pub open spec fn map_of(pairs: Seq<(String, String)>) -> Map<Seq<char>, Seq<char>>
    decreases pairs.len(),
{
    if pairs.len() == 0 {
        Map::empty()
    } else {
        map_of(pairs.drop_last()).insert(pairs.last().0@, pairs.last().1@)
    }
}

/// Reading two lists of parameters one after the other is the union of
/// their maps, the second one's values winning.
proof fn lemma_map_of_concat(first: Seq<(String, String)>, second: Seq<(String, String)>)
    ensures
        map_of(first + second) == map_of(first).union_prefer_right(map_of(second)),
    decreases second.len(),
{
    if second.len() == 0 {
        assert(first + second =~= first);
        assert(map_of(first).union_prefer_right(map_of(second)) =~= map_of(first));
    } else {
        lemma_map_of_concat(first, second.drop_last());
        assert((first + second).drop_last() =~= first + second.drop_last());
        assert(map_of(first + second) =~= map_of(first).union_prefer_right(map_of(second)));
    }
}

/// The value of a key, taken out of the parameters: every pair with that
/// key goes, and the value returned is the one the map held.
pub fn remove_key(pairs: Vec<(String, String)>, key: &str) -> (r: (Vec<(String, String)>, Option<String>))
    ensures
        map_of(r.0@) == map_of(pairs@).remove(key@),
        match r.1 {
            Some(v) => map_of(pairs@).contains_key(key@) && map_of(pairs@)[key@] == v@,
            None => !map_of(pairs@).contains_key(key@),
        },
{
    let mut kept: Vec<(String, String)> = Vec::new();
    let mut found: Option<String> = None;
    let mut k: usize = 0;
    while k < pairs.len()
        invariant
            0 <= k <= pairs.len(),
            map_of(kept@) == map_of(pairs@.take(k as int)).remove(key@),
            match found {
                Some(v) => map_of(pairs@.take(k as int)).contains_key(key@) && map_of(pairs@.take(k as int))[key@]
                    == v@,
                None => !map_of(pairs@.take(k as int)).contains_key(key@),
            },
        decreases pairs.len() - k,
    {
        assert(pairs@.take(k + 1).drop_last() =~= pairs@.take(k as int));
        if same_text(pairs[k].0.as_str(), key) {
            found = Some(pairs[k].1.clone());
            assert(map_of(kept@) =~= map_of(pairs@.take(k + 1)).remove(key@));
        } else {
            let ghost before = kept@;
            kept.push((pairs[k].0.clone(), pairs[k].1.clone()));
            assert(kept@.drop_last() =~= before);
            assert(map_of(kept@) =~= map_of(pairs@.take(k + 1)).remove(key@));
        }
        k = k + 1;
    }
    assert(pairs@.take(k as int) =~= pairs@);
    (kept, found)
}

/// A copy of the parameters.
pub fn copy_pairs(pairs: &Vec<(String, String)>) -> (r: Vec<(String, String)>)
    ensures
        r@ == pairs@,
{
    let mut r: Vec<(String, String)> = Vec::new();
    let mut k: usize = 0;
    while k < pairs.len()
        invariant
            0 <= k <= pairs.len(),
            r@ == pairs@.take(k as int),
        decreases pairs.len() - k,
    {
        r.push((pairs[k].0.clone(), pairs[k].1.clone()));
        assert(r@ =~= pairs@.take(k + 1));
        k = k + 1;
    }
    assert(pairs@.take(k as int) =~= pairs@);
    r
}

/// The value the parameters give a key, if they name it.
pub fn value_of(pairs: &Vec<(String, String)>, key: &str) -> (found: Option<String>)
    ensures
        match found {
            Some(v) => map_of(pairs@).contains_key(key@) && map_of(pairs@)[key@] == v@,
            None => !map_of(pairs@).contains_key(key@),
        },
{
    let mut found: Option<String> = None;
    let mut k: usize = 0;
    while k < pairs.len()
        invariant
            0 <= k <= pairs.len(),
            match found {
                Some(v) => map_of(pairs@.take(k as int)).contains_key(key@) && map_of(pairs@.take(k as int))[key@]
                    == v@,
                None => !map_of(pairs@.take(k as int)).contains_key(key@),
            },
        decreases pairs.len() - k,
    {
        assert(pairs@.take(k + 1).drop_last() =~= pairs@.take(k as int));
        if same_text(pairs[k].0.as_str(), key) {
            found = Some(pairs[k].1.clone());
        }
        k = k + 1;
    }
    assert(pairs@.take(k as int) =~= pairs@);
    found
}

/// What the site declared with what the application sets on top: on a key
/// both name, the application's value is the one that stays.
pub fn merged_with(from_the_site: Vec<(String, String)>, ours: Vec<(String, String)>) -> (merged: Vec<(
    String,
    String,
)>)
    ensures
        map_of(merged@) == map_of(from_the_site@).union_prefer_right(map_of(ours@)),
{
    let ghost site = from_the_site@;
    let ghost mine = ours@;
    let mut merged = from_the_site;
    let mut ours = ours;
    merged.append(&mut ours);
    proof {
        lemma_map_of_concat(site, mine);
    }
    merged
}

/// Merging is the union that prefers the application: every key of either
/// side is there, with the application's value where both name it.
pub proof fn what_is_ours_wins(
    from_the_site: Seq<(String, String)>,
    ours: Seq<(String, String)>,
    merged: Seq<(String, String)>,
    key: Seq<char>,
)
    requires
        map_of(merged) == map_of(from_the_site).union_prefer_right(map_of(ours)),
    ensures
        map_of(ours).contains_key(key) ==> map_of(merged).contains_key(key) && map_of(merged)[key]
            == map_of(ours)[key],
        !map_of(ours).contains_key(key) ==> (map_of(merged).contains_key(key) <==> map_of(
            from_the_site,
        ).contains_key(key)),
        !map_of(ours).contains_key(key) && map_of(from_the_site).contains_key(key) ==> map_of(
            merged,
        )[key] == map_of(from_the_site)[key],
{
}

/// The pairs as Java properties, one `key=value` per line.
pub open spec fn properties_of(pairs: Seq<(String, String)>) -> Seq<char>
    decreases pairs.len(),
{
    if pairs.len() == 0 {
        Seq::empty()
    } else {
        properties_of(pairs.drop_last()) + pairs.last().0@ + "="@ + pairs.last().1@ + "\n"@
    }
}

/// The pairs written as Java properties.
pub fn to_java_properties(pairs: &Vec<(String, String)>) -> (text: String)
    ensures
        text@ == properties_of(pairs@),
{
    let mut text: Vec<char> = Vec::new();
    let mut k: usize = 0;
    while k < pairs.len()
        invariant
            0 <= k <= pairs.len(),
            text@ == properties_of(pairs@.take(k as int)),
        decreases pairs.len() - k,
    {
        assert(pairs@.take(k + 1).drop_last() =~= pairs@.take(k as int));
        let mut key = chars_of(pairs[k].0.as_str());
        let mut equals = chars_of("=");
        let mut value = chars_of(pairs[k].1.as_str());
        let mut end = chars_of("\n");
        text.append(&mut key);
        text.append(&mut equals);
        text.append(&mut value);
        text.append(&mut end);
        k = k + 1;
    }
    assert(pairs@.take(k as int) =~= pairs@);
    string_of(&text)
}

/// The lines of a text, split at each `\n`; the last one may be empty.
pub open spec fn lines_of(text: Seq<char>) -> Seq<Seq<char>>
    decreases text.len(),
{
    if text.len() == 0 {
        seq![Seq::empty()]
    } else {
        let init = lines_of(text.drop_last());
        if text.last() == '\n' {
            init.push(Seq::empty())
        } else {
            init.update(init.len() - 1, init.last().push(text.last()))
        }
    }
}

/// Where the first `=` of a line is, at or after `from`; the line's length
/// when there is none.
pub open spec fn first_equals(line: Seq<char>, from: int) -> int
    decreases line.len() - from,
{
    if from < 0 || from >= line.len() {
        line.len() as int
    } else if line[from] == '=' {
        from
    } else {
        first_equals(line, from + 1)
    }
}

/// The pair a line of Java properties holds: the key before the first `=`
/// and the value after it; none for a line without `=` or a comment.
pub open spec fn pair_in(line: Seq<char>) -> Option<(Seq<char>, Seq<char>)> {
    let at = first_equals(line, 0);
    if line.len() == 0 || line[0] == '#' || line[0] == '!' || at >= line.len() {
        None
    } else {
        Some((line.take(at), line.skip(at + 1)))
    }
}

/// The pairs of a text of Java properties, in order.
pub open spec fn pairs_in(lines: Seq<Seq<char>>) -> Seq<(Seq<char>, Seq<char>)>
    decreases lines.len(),
{
    if lines.len() == 0 {
        Seq::empty()
    } else {
        match pair_in(lines.last()) {
            Some(p) => pairs_in(lines.drop_last()).push(p),
            None => pairs_in(lines.drop_last()),
        }
    }
}

proof fn lemma_first_equals(line: Seq<char>, from: int)
    requires
        0 <= from <= line.len(),
    ensures
        from <= first_equals(line, from) <= line.len(),
        first_equals(line, from) < line.len() ==> line[first_equals(line, from)] == '=',
    decreases line.len() - from,
{
    if from < line.len() && line[from] != '=' {
        lemma_first_equals(line, from + 1);
    }
}

/// The pair of one line.
fn pair_of_line(line: &Vec<char>) -> (r: Option<(String, String)>)
    ensures
        match pair_in(line@) {
            Some(p) => r matches Some(q) && q.0@ == p.0 && q.1@ == p.1,
            None => r is None,
        },
{
    if line.len() == 0 || line[0] == '#' || line[0] == '!' {
        return None;
    }
    let mut at: usize = 0;
    while at < line.len() && line[at] != '='
        invariant
            0 <= at <= line.len(),
            first_equals(line@, 0) == first_equals(line@, at as int),
        decreases line.len() - at,
    {
        at = at + 1;
    }
    proof {
        lemma_first_equals(line@, at as int);
    }
    if at == line.len() {
        return None;
    }
    let mut key: Vec<char> = Vec::new();
    let mut value: Vec<char> = Vec::new();
    let mut k: usize = 0;
    while k < line.len()
        invariant
            0 <= at < line.len(),
            0 <= k <= line.len(),
            k <= at ==> key@ == line@.take(k as int) && value@.len() == 0,
            k > at ==> key@ == line@.take(at as int) && value@ == line@.subrange(at + 1, k as int),
        decreases line.len() - k,
    {
        if k < at {
            key.push(line[k]);
            assert(key@ =~= line@.take(k + 1));
        } else if k > at {
            value.push(line[k]);
            assert(value@ =~= line@.subrange(at + 1, k + 1));
        } else {
            assert(value@ =~= line@.subrange(at + 1, k + 1));
        }
        k = k + 1;
    }
    assert(value@ =~= line@.skip(at + 1));
    Some((string_of(&key), string_of(&value)))
}

proof fn lemma_lines_nonempty(text: Seq<char>)
    ensures
        lines_of(text).len() >= 1,
    decreases text.len(),
{
    if text.len() > 0 {
        lemma_lines_nonempty(text.drop_last());
    }
}

/// The pairs a text of Java properties holds, in order.
pub fn pairs_of(text: &str) -> (pairs: Vec<(String, String)>)
    ensures
        pairs@.len() == pairs_in(lines_of(text@)).len(),
        forall|i: int| 0 <= i < pairs@.len() ==> (#[trigger] pairs@[i]).0@ == pairs_in(lines_of(text@))[i].0
            && pairs@[i].1@ == pairs_in(lines_of(text@))[i].1,
{
    let chars = chars_of(text);
    let mut pairs: Vec<(String, String)> = Vec::new();
    let mut line: Vec<char> = Vec::new();
    let mut k: usize = 0;
    proof {
        assert(chars@.take(0) =~= Seq::<char>::empty());
    }
    while k < chars.len()
        invariant
            chars@ == text@,
            0 <= k <= chars.len(),
            lines_of(chars@.take(k as int)).len() >= 1,
            lines_of(chars@.take(k as int)).last() == line@,
            pairs@.len() == pairs_in(lines_of(chars@.take(k as int)).drop_last()).len(),
            forall|i: int| 0 <= i < pairs@.len() ==> (#[trigger] pairs@[i]).0@ == pairs_in(
                lines_of(chars@.take(k as int)).drop_last(),
            )[i].0 && pairs@[i].1@ == pairs_in(lines_of(chars@.take(k as int)).drop_last())[i].1,
        decreases chars.len() - k,
    {
        let ghost prefix = chars@.take(k as int);
        let ghost done = lines_of(prefix);
        let ghost next = chars@.take(k + 1);
        assert(next.drop_last() =~= prefix);
        if chars[k] == '\n' {
            let ghost before = pairs@;
            match pair_of_line(&line) {
                Some(p) => {
                    pairs.push(p);
                },
                None => {},
            }
            line = Vec::new();
            proof {
                assert(lines_of(next) == done.push(Seq::empty()));
                assert(lines_of(next).drop_last() =~= done);
                assert(done =~= done.drop_last().push(done.last()));
                assert forall|i: int| 0 <= i < pairs@.len() implies (#[trigger] pairs@[i]).0@ == pairs_in(
                    lines_of(next).drop_last(),
                )[i].0 && pairs@[i].1@ == pairs_in(lines_of(next).drop_last())[i].1 by {
                    if i < before.len() {
                        assert(pairs@[i] == before[i]);
                    }
                }
            }
        } else {
            line.push(chars[k]);
            proof {
                assert(lines_of(next) == done.update(done.len() - 1, done.last().push(chars@[k as int])));
                assert(lines_of(next).drop_last() =~= done.drop_last());
            }
        }
        k = k + 1;
    }
    assert(chars@.take(k as int) =~= chars@);
    let ghost all = lines_of(chars@);
    let ghost before = pairs@;
    match pair_of_line(&line) {
        Some(p) => {
            pairs.push(p);
        },
        None => {},
    }
    proof {
        assert(all =~= all.drop_last().push(all.last()));
        assert forall|i: int| 0 <= i < pairs@.len() implies (#[trigger] pairs@[i]).0@ == pairs_in(all)[i].0
            && pairs@[i].1@ == pairs_in(all)[i].1 by {
            if i < before.len() {
                assert(pairs@[i] == before[i]);
            }
        }
    }
    pairs
}

/// The pairs are those a text of Java properties holds, in its order.
pub open spec fn parsed_from(pairs: Seq<(String, String)>, text: Seq<char>) -> bool {
    &&& pairs.len() == pairs_in(lines_of(text)).len()
    &&& forall|i: int| 0 <= i < pairs.len() ==> (#[trigger] pairs[i]).0@ == pairs_in(lines_of(text))[i].0
        && pairs[i].1@ == pairs_in(lines_of(text))[i].1
}

/// What the engine's answer gives: the pairs of the text it expanded, in
/// order, or its error as it came.
pub fn pairs_expanded(answered: Result<String, BridgeError>) -> (r: Result<Vec<(String, String)>, BridgeError>)
    ensures
        match answered {
            Ok(text) => r matches Ok(pairs) && parsed_from(pairs@, text@),
            Err(e) => r == Err::<Vec<(String, String)>, BridgeError>(e),
        },
{
    match answered {
        Ok(text) => Ok(pairs_of(text.as_str())),
        Err(e) => Err(e),
    }
}

/// The text of the pairs a site's policy expands into, as `expand` may
/// have answered for these declared parameters in the PAdES format.
pub open spec fn expanded_as<X: Fn(&str, &str) -> Result<String, BridgeError>>(
    expand: X,
    declared: Seq<(String, String)>,
    answer: Result<String, BridgeError>,
) -> bool {
    exists|e: &str, f: &str| e@ == properties_of(declared) && f@ == "pades"@ && #[trigger] expand.ensures((e, f), answer)
}

/// Whether these are the pairs the engine's answer gives.
pub open spec fn pairs_as(answer: Result<String, BridgeError>, r: Result<Vec<(String, String)>, BridgeError>) -> bool {
    match answer {
        Ok(text) => r matches Ok(pairs) && parsed_from(pairs@, text@),
        Err(e) => r == Err::<Vec<(String, String)>, BridgeError>(e),
    }
}

/// The parameters the site declared, with the policy it names expanded
/// through `expand`: the declared ones cross as Java properties, in the
/// PAdES format, and what comes back is the pairs of its answer.
pub fn expanded_through<X>(expand: &X, declared: &Vec<(String, String)>) -> (r: Result<
    Vec<(String, String)>,
    BridgeError,
>) where X: Fn(&str, &str) -> Result<String, BridgeError>,
    requires
        forall|e: &str, f: &str| expand.requires((e, f)),
    ensures
        exists|answer: Result<String, BridgeError>| expanded_as(*expand, declared@, answer) && pairs_as(answer, r),
{
    let block = to_java_properties(declared);
    let e = block.as_str();
    let f = PADES;
    let answer = expand(e, f);
    assert(expand.ensures((e, f), answer));
    proof {
        reveal_strlit("pades");
    }
    let ghost answered = answer;
    let r = pairs_expanded(answer);
    assert(expanded_as(*expand, declared@, answered));
    assert(pairs_as(answered, r));
    r
}

/// The parameters the site declared, with the policy it names expanded by
/// the engine, each key once.
pub fn expanded_for_the_site<E: PolicyEngine>(engine: &E, declared: &Vec<(String, String)>) -> (r: Result<
    Vec<(String, String)>,
    BridgeError,
>)
    ensures
        r matches Ok(expanded) ==> exists|text: Seq<char>| #[trigger] parsed_from(expanded@, text),
{
    let block = to_java_properties(declared);
    let answered = engine.expand(block.as_str(), PADES);
    let ghost text = if answered is Ok {
        answered->Ok_0@
    } else {
        Seq::<char>::empty()
    };
    let r = pairs_expanded(answered);
    assert(r is Ok ==> parsed_from(r->Ok_0@, text));
    r
}


proof fn lemma_no_equals_before(line: Seq<char>, from: int)
    requires
        0 <= from <= line.len(),
    ensures
        from <= first_equals(line, from) <= line.len(),
        forall|i: int| from <= i < first_equals(line, from) ==> line[i] != '=',
        first_equals(line, from) < line.len() ==> line[first_equals(line, from)] == '=',
    decreases line.len() - from,
{
    if from < line.len() && line[from] != '=' {
        lemma_no_equals_before(line, from + 1);
    }
}

/// A line of Java properties is split at its first `=`: the key holds no
/// `=`, and the key, the `=` and the value are the whole line again. Every
/// line that holds an `=` and is not a comment gives a pair.
pub proof fn a_pair_is_split_at_its_first_equals(line: Seq<char>)
    ensures
        pair_in(line) matches Some(p) ==> !p.0.contains('=') && line == p.0 + "="@ + p.1,
        line.contains('=') && line[0] != '#' && line[0] != '!' ==> pair_in(line) is Some,
{
    reveal_strlit("=");
    lemma_no_equals_before(line, 0);
    let at = first_equals(line, 0);
    if let Some(p) = pair_in(line) {
        assert(p.0 == line.take(at));
        assert forall|i: int| 0 <= i < p.0.len() implies p.0[i] != '=' by {
            assert(p.0[i] == line[i]);
        }
        assert(line =~= p.0 + "="@ + p.1);
    }
    if line.contains('=') {
        let j = choose|j: int| 0 <= j < line.len() && line[j] == '=';
        assert(at <= j);
    }
}

/// A key that Java properties can carry: no `=`, no line break, and not
/// the mark of a comment at its start.
pub open spec fn plain_key(key: Seq<char>) -> bool {
    &&& !key.contains('=')
    &&& !key.contains('\n')
    &&& key.len() > 0 ==> key[0] != '#' && key[0] != '!'
}

/// The pairs as plain values.
pub open spec fn pairs_view(pairs: Seq<(String, String)>) -> Seq<(Seq<char>, Seq<char>)> {
    pairs.map_values(|p: (String, String)| (p.0@, p.1@))
}

/// The line each pair is written as.
pub open spec fn property_lines(pairs: Seq<(String, String)>) -> Seq<Seq<char>> {
    pairs.map_values(|p: (String, String)| p.0@ + "="@ + p.1@)
}

proof fn lemma_lines_of_plain(text: Seq<char>, s: Seq<char>)
    requires
        !s.contains('\n'),
    ensures
        lines_of(text + s) == lines_of(text).update(
            lines_of(text).len() - 1,
            lines_of(text).last() + s,
        ),
    decreases s.len(),
{
    lemma_lines_nonempty(text);
    if s.len() == 0 {
        assert(text + s =~= text);
        assert(lines_of(text).last() + s =~= lines_of(text).last());
        assert(lines_of(text).update(lines_of(text).len() - 1, lines_of(text).last()) =~= lines_of(text));
    } else {
        let shorter = s.drop_last();
        assert(!shorter.contains('\n')) by {
            if shorter.contains('\n') {
                let j = choose|j: int| 0 <= j < shorter.len() && shorter[j] == '\n';
                assert(s[j] == '\n');
            }
        }
        lemma_lines_of_plain(text, shorter);
        assert((text + s).drop_last() =~= text + shorter);
        assert((text + s).last() == s.last());
        assert(s.last() != '\n') by {
            assert(s[s.len() - 1] == s.last());
        }
        lemma_lines_nonempty(text + shorter);
        let init = lines_of(text + shorter);
        assert(init.last() == lines_of(text).last() + shorter);
        assert((lines_of(text).last() + shorter).push(s.last()) =~= lines_of(text).last() + s);
        assert(init.update(init.len() - 1, init.last().push(s.last())) =~= lines_of(text).update(
            lines_of(text).len() - 1,
            lines_of(text).last() + s,
        ));
    }
}

proof fn lemma_lines_of_properties(pairs: Seq<(String, String)>)
    requires
        forall|k: int| 0 <= k < pairs.len() ==> !(#[trigger] pairs[k]).0@.contains('\n') && !pairs[k].1@.contains('\n'),
    ensures
        lines_of(properties_of(pairs)) == property_lines(pairs).push(Seq::<char>::empty()),
    decreases pairs.len(),
{
    reveal_strlit("=");
    reveal_strlit("\n");
    if pairs.len() == 0 {
        assert(lines_of(properties_of(pairs)) =~= seq![Seq::<char>::empty()]);
        assert(property_lines(pairs) =~= Seq::<Seq<char>>::empty());
        assert(property_lines(pairs).push(Seq::<char>::empty()) =~= seq![Seq::<char>::empty()]);
    } else {
        let before = pairs.drop_last();
        lemma_lines_of_properties(before);
        let p = pairs.last();
        assert(p == pairs[pairs.len() - 1]);
        let line = p.0@ + "="@ + p.1@;
        assert(!line.contains('\n')) by {
            if line.contains('\n') {
                let j = choose|j: int| 0 <= j < line.len() && line[j] == '\n';
                if j < p.0@.len() {
                    assert(p.0@[j] == '\n');
                } else if j == p.0@.len() {
                    assert(line[j] == '=');
                } else {
                    assert(p.1@[j - p.0@.len() - 1] == '\n');
                }
            }
        }
        let head = properties_of(before);
        assert(properties_of(pairs) =~= (head + line) + "\n"@);
        assert((head + line + "\n"@).drop_last() =~= head + line);
        lemma_lines_of_plain(head, line);
        lemma_lines_nonempty(head + line);
        assert(lines_of(head).last() == Seq::<char>::empty());
        assert(Seq::<char>::empty() + line =~= line);
        assert(property_lines(before).push(Seq::<char>::empty()).update(
            property_lines(before).len() as int,
            line,
        ) =~= property_lines(before).push(line));
        assert(property_lines(pairs) =~= property_lines(before).push(line));
    }
}

proof fn lemma_first_equals_at(key: Seq<char>, value: Seq<char>, from: int)
    requires
        !key.contains('='),
        0 <= from <= key.len(),
    ensures
        first_equals(key + "="@ + value, from) == key.len(),
    decreases key.len() - from,
{
    reveal_strlit("=");
    let line = key + "="@ + value;
    if from < key.len() {
        assert(line[from] == key[from]);
        lemma_first_equals_at(key, value, from + 1);
    } else {
        assert(line[from] == '=');
    }
}

proof fn lemma_pairs_in_lines(pairs: Seq<(String, String)>)
    requires
        forall|k: int| 0 <= k < pairs.len() ==> plain_key(#[trigger] pairs[k].0@),
    ensures
        pairs_in(property_lines(pairs)) == pairs_view(pairs),
    decreases pairs.len(),
{
    reveal_strlit("=");
    if pairs.len() == 0 {
        assert(pairs_view(pairs) =~= Seq::<(Seq<char>, Seq<char>)>::empty());
    } else {
        let before = pairs.drop_last();
        lemma_pairs_in_lines(before);
        let p = pairs.last();
        assert(p == pairs[pairs.len() - 1]);
        assert(plain_key(p.0@));
        let line = p.0@ + "="@ + p.1@;
        assert(property_lines(pairs).drop_last() =~= property_lines(before));
        assert(property_lines(pairs).last() == line);
        lemma_first_equals_at(p.0@, p.1@, 0);
        assert(line.len() > 0);
        if p.0@.len() > 0 {
            assert(line[0] == p.0@[0]);
        } else {
            assert(line[0] == '=');
        }
        assert(line.take(p.0@.len() as int) =~= p.0@);
        assert(line.skip((p.0@.len() + 1) as int) =~= p.1@);
        assert(pair_in(line) == Some((p.0@, p.1@)));
        assert(pairs_view(pairs) =~= pairs_view(before).push((p.0@, p.1@)));
    }
}

/// Pairs written as Java properties read back as the same pairs, in the
/// same order, whatever `=` their values hold: the key is what precedes the
/// first `=` of its line and the value is the whole rest of it.
pub proof fn properties_read_back_as_written(pairs: Seq<(String, String)>)
    requires
        forall|k: int| 0 <= k < pairs.len() ==> plain_key(#[trigger] pairs[k].0@) && !pairs[k].1@.contains('\n'),
    ensures
        pairs_in(lines_of(properties_of(pairs))) == pairs_view(pairs),
{
    assert forall|k: int| 0 <= k < pairs.len() implies !(#[trigger] pairs[k]).0@.contains('\n')
        && !pairs[k].1@.contains('\n') by {
        assert(plain_key(pairs[k].0@));
    }
    lemma_lines_of_properties(pairs);
    lemma_pairs_in_lines(pairs);
    let lines = property_lines(pairs).push(Seq::<char>::empty());
    assert(lines.drop_last() =~= property_lines(pairs));
    assert(pair_in(lines.last()) is None);
}

} // verus!
