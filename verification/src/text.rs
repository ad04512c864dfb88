//! Texts: white space around them, and texts inside texts.
use vstd::prelude::*;

verus! {

/// The characters with the Unicode property White_Space.
pub open spec fn is_white_space(c: char) -> bool {
    let u = c as u32;
    ||| 0x0009 <= u <= 0x000d
    ||| u == 0x0020
    ||| u == 0x0085
    ||| u == 0x00a0
    ||| u == 0x1680
    ||| 0x2000 <= u <= 0x200a
    ||| u == 0x2028
    ||| u == 0x2029
    ||| u == 0x202f
    ||| u == 0x205f
    ||| u == 0x3000
}

/// `s` from its first character on that is not white space.
pub open spec fn trimmed_start(s: Seq<char>) -> Seq<char>
    decreases s.len(),
{
    if s.len() > 0 && is_white_space(s[0]) {
        trimmed_start(s.drop_first())
    } else {
        s
    }
}

/// `s` up to its last character that is not white space.
pub open spec fn trimmed_end(s: Seq<char>) -> Seq<char>
    decreases s.len(),
{
    if s.len() > 0 && is_white_space(s.last()) {
        trimmed_end(s.drop_last())
    } else {
        s
    }
}

/// `s` without the white space at its two ends.
pub open spec fn trimmed(s: Seq<char>) -> Seq<char> {
    trimmed_end(trimmed_start(s))
}

/// A text with nothing in it but white space.
pub open spec fn is_blank(s: Seq<char>) -> bool {
    forall|i: int| 0 <= i < s.len() ==> is_white_space(s[i])
}

/// Does `pattern` stand somewhere in `s`?
pub open spec fn contains_text(s: Seq<char>, pattern: Seq<char>) -> bool {
    exists|i: int|
        0 <= i <= s.len() - pattern.len() && #[trigger] s.subrange(i, i + pattern.len()) == pattern
}

/// Calls `str::trim`, which takes the characters with the Unicode property White_Space off both
/// ends of a text.
#[verifier::external_body]
pub(crate) fn trim(s: &str) -> (r: &str)
    ensures
        r@ == trimmed(s@),
{
    s.trim()
}

/// Calls `str::contains` with a text as the pattern: is it a sub-slice of `s`?
#[verifier::external_body]
pub(crate) fn text_contains(s: &str, pattern: &str) -> (r: bool)
    ensures
        r == contains_text(s@, pattern@),
{
    s.contains(pattern)
}

/// Is `s` the text of `other`?
pub fn text_is(s: &String, other: &str) -> (r: bool)
    ensures
        r == (s@ == other@),
{
    *s == other.to_owned()
}

proof fn lemma_trimmed_start(s: Seq<char>)
    ensures
        trimmed_start(s).len() <= s.len(),
        trimmed_start(s) == s.skip(s.len() - trimmed_start(s).len()),
        is_blank(s.take(s.len() - trimmed_start(s).len())),
        trimmed_start(s).len() > 0 ==> !is_white_space(trimmed_start(s)[0]),
    decreases s.len(),
{
    if s.len() > 0 && is_white_space(s[0]) {
        let rest = s.drop_first();
        lemma_trimmed_start(rest);
        let n = s.len() - trimmed_start(s).len();
        assert(trimmed_start(s) =~= s.skip(n));
        assert forall|i: int| 0 <= i < n implies is_white_space(#[trigger] s.take(n)[i]) by {
            if i > 0 {
                assert(s.take(n)[i] == rest.take(n - 1)[i - 1]);
            }
        }
    } else {
        assert(s =~= s.skip(0));
    }
}

proof fn lemma_trimmed_end(s: Seq<char>)
    ensures
        trimmed_end(s).len() <= s.len(),
        trimmed_end(s) == s.take(trimmed_end(s).len() as int),
        is_blank(s.skip(trimmed_end(s).len() as int)),
        trimmed_end(s).len() > 0 ==> !is_white_space(trimmed_end(s).last()),
    decreases s.len(),
{
    if s.len() > 0 && is_white_space(s.last()) {
        let rest = s.drop_last();
        lemma_trimmed_end(rest);
        let n = trimmed_end(s).len() as int;
        assert(trimmed_end(s) =~= s.take(n));
        assert forall|i: int| 0 <= i < s.len() - n implies is_white_space(
            #[trigger] s.skip(n)[i],
        ) by {
            if i < s.len() - n - 1 {
                assert(s.skip(n)[i] == rest.skip(n)[i]);
            }
        }
    } else {
        assert(s =~= s.take(s.len() as int));
    }
}

/// Trimming takes white space off the two ends and nothing else: what is left neither begins nor
/// ends with white space, and nothing is left exactly where there was nothing but white space.
pub proof fn law_trimming(s: Seq<char>)
    ensures
        exists|before: Seq<char>, after: Seq<char>|
            #![auto]
            is_blank(before) && is_blank(after) && s == before + trimmed(s) + after,
        trimmed(s).len() > 0 ==> !is_white_space(trimmed(s)[0]) && !is_white_space(
            trimmed(s).last(),
        ),
        trimmed(s).len() == 0 <==> is_blank(s),
{
    let t = trimmed_start(s);
    lemma_trimmed_start(s);
    lemma_trimmed_end(t);
    let before = s.take(s.len() - t.len());
    let after = t.skip(trimmed(s).len() as int);
    assert(s =~= before + trimmed(s) + after);
    assert(is_blank(before) && is_blank(after) && s == before + trimmed(s) + after);
    if trimmed(s).len() == 0 {
        assert forall|i: int| 0 <= i < s.len() implies is_white_space(s[i]) by {
            if i < before.len() {
                assert(s[i] == before[i]);
            } else {
                assert(s[i] == after[i - before.len()]);
            }
        }
    } else {
        assert(s[before.len() as int] == trimmed(s)[0]);
    }
}

/// Trimming twice is trimming once.
pub proof fn law_trimming_is_idempotent(s: Seq<char>)
    ensures
        trimmed(trimmed(s)) == trimmed(s),
{
    law_trimming(s);
}

proof fn lemma_trimmed_start_of_padded(before: Seq<char>, s: Seq<char>)
    requires
        is_blank(before),
    ensures
        trimmed_start(before + s) == trimmed_start(s),
    decreases before.len(),
{
    if before.len() == 0 {
        assert(before + s =~= s);
    } else {
        lemma_trimmed_start_of_padded(before.drop_first(), s);
        assert((before + s).drop_first() =~= before.drop_first() + s);
    }
}

proof fn lemma_trimmed_end_of_padded(s: Seq<char>, after: Seq<char>)
    requires
        is_blank(after),
    ensures
        trimmed_end(s + after) == trimmed_end(s),
    decreases after.len(),
{
    if after.len() == 0 {
        assert(s + after =~= s);
    } else {
        lemma_trimmed_end_of_padded(s, after.drop_last());
        assert((s + after).drop_last() =~= s + after.drop_last());
    }
}

proof fn lemma_trimmed_start_before_padding(s: Seq<char>, after: Seq<char>)
    ensures
        is_blank(s) ==> trimmed_start(s + after) == trimmed_start(after),
        !is_blank(s) ==> trimmed_start(s + after) == trimmed_start(s) + after,
    decreases s.len(),
{
    if is_blank(s) {
        lemma_trimmed_start_of_padded(s, after);
    } else if is_white_space(s[0]) {
        let rest = s.drop_first();
        assert((s + after).drop_first() =~= rest + after);
        if is_blank(rest) {
            assert forall|i: int| 0 <= i < s.len() implies is_white_space(s[i]) by {
                if i > 0 {
                    assert(s[i] == rest[i - 1]);
                }
            }
        }
        lemma_trimmed_start_before_padding(rest, after);
    } else {
        assert((s + after)[0] == s[0]);
    }
}

/// White space around a text changes nothing of what is left of it.
pub proof fn law_trimming_ignores_padding(before: Seq<char>, s: Seq<char>, after: Seq<char>)
    requires
        is_blank(before),
        is_blank(after),
    ensures
        trimmed(before + s + after) == trimmed(s),
{
    assert(before + s + after =~= before + (s + after));
    lemma_trimmed_start_of_padded(before, s + after);
    lemma_trimmed_start_before_padding(s, after);
    if is_blank(s) {
        law_trimming(s);
        law_trimming(after);
    } else {
        lemma_trimmed_end_of_padded(trimmed_start(s), after);
    }
}

/// A text stands in every text that has it somewhere between two others.
pub proof fn lemma_contains_infix(before: Seq<char>, pattern: Seq<char>, after: Seq<char>)
    ensures
        contains_text(before + pattern + after, pattern),
{
    let s = before + pattern + after;
    let i = before.len() as int;
    assert(s.subrange(i, i + pattern.len()) =~= pattern);
}

/// A text stands in another exactly where the other is it with something before and after it.
pub proof fn law_containing(s: Seq<char>, pattern: Seq<char>)
    ensures
        contains_text(s, pattern) <==> exists|before: Seq<char>, after: Seq<char>|
            s == #[trigger] (before + pattern + after),
{
    if contains_text(s, pattern) {
        let i = choose|i: int|
            0 <= i <= s.len() - pattern.len() && #[trigger] s.subrange(i, i + pattern.len())
                == pattern;
        assert(s =~= s.take(i) + s.subrange(i, i + pattern.len()) + s.skip(i + pattern.len()));
        assert(s == s.take(i) + pattern + s.skip(i + pattern.len()));
    }
    if exists|before: Seq<char>, after: Seq<char>| s == #[trigger] (before + pattern + after) {
        let (before, after) = choose|before: Seq<char>, after: Seq<char>|
            s == #[trigger] (before + pattern + after);
        lemma_contains_infix(before, pattern, after);
    }
}

} // verus!
