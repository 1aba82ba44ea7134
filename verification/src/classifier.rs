use vstd::prelude::*;
use vstd::string::*;
use crate::vibe::Vibe;

verus! {

/// Lower-casing of one character, for the ASCII letters the keyword sets use.
pub open spec fn lower_char_spec(c: char) -> char {
    match c {
        'A' => 'a',
        'B' => 'b',
        'C' => 'c',
        'D' => 'd',
        'E' => 'e',
        'F' => 'f',
        'G' => 'g',
        'H' => 'h',
        'I' => 'i',
        'J' => 'j',
        'K' => 'k',
        'L' => 'l',
        'M' => 'm',
        'N' => 'n',
        'O' => 'o',
        'P' => 'p',
        'Q' => 'q',
        'R' => 'r',
        'S' => 's',
        'T' => 't',
        'U' => 'u',
        'V' => 'v',
        'W' => 'w',
        'X' => 'x',
        'Y' => 'y',
        'Z' => 'z',
        _ => c,
    }
}

/// A text, normalized character by character to lower case.
pub open spec fn lower_seq(s: Seq<char>) -> Seq<char> {
    Seq::new(s.len(), |i: int| lower_char_spec(s[i]))
}

/// `pat` occurs somewhere in `hay` as a contiguous run.
pub open spec fn contains_seq(hay: Seq<char>, pat: Seq<char>) -> bool {
    exists|i: int| 0 <= i && i + pat.len() <= hay.len() && #[trigger] hay.subrange(
        i,
        i + pat.len(),
    ) == pat
}

/// The text explicitly declares that there is no reading.
pub open spec fn is_no_reading(t: Seq<char>) -> bool {
    contains_seq(t, "no reading"@) || contains_seq(t, "no new reading"@)
}

/// The text carries a negative keyword.
pub open spec fn is_no_bones(t: Seq<char>) -> bool {
    ||| contains_seq(t, "#nobonesday"@)
    ||| contains_seq(t, "no bones"@)
    ||| contains_seq(t, "does not have bones"@)
    ||| contains_seq(t, "not a bones day"@)
}

/// The text carries a positive keyword.
pub open spec fn is_bones(t: Seq<char>) -> bool {
    ||| contains_seq(t, "#bonesday"@)
    ||| contains_seq(t, "has bones"@)
    ||| contains_seq(t, "bones day"@)
}

/// What classification a text receives: first match wins over a fixed
/// priority chain — an explicit skip beats a negative keyword, which beats a
/// positive keyword; with no match the outcome is indeterminate. Negative
/// phrasing is the more specific (a negative phrase can contain a positive
/// keyword as a substring), hence its precedence.
pub open spec fn spec_classify(text: Seq<char>) -> Vibe {
    let t = lower_seq(text);
    if is_no_reading(t) {
        Vibe::NoReading
    } else if is_no_bones(t) {
        Vibe::NoBonesDay
    } else if is_bones(t) {
        Vibe::BonesDay
    } else {
        Vibe::Error
    }
}

fn lower_char(c: char) -> (r: char)
    ensures
        r == lower_char_spec(c),
{
    match c {
        'A' => 'a',
        'B' => 'b',
        'C' => 'c',
        'D' => 'd',
        'E' => 'e',
        'F' => 'f',
        'G' => 'g',
        'H' => 'h',
        'I' => 'i',
        'J' => 'j',
        'K' => 'k',
        'L' => 'l',
        'M' => 'm',
        'N' => 'n',
        'O' => 'o',
        'P' => 'p',
        'Q' => 'q',
        'R' => 'r',
        'S' => 's',
        'T' => 't',
        'U' => 'u',
        'V' => 'v',
        'W' => 'w',
        'X' => 'x',
        'Y' => 'y',
        'Z' => 'z',
        _ => c,
    }
}

fn lower_chars(text: &str) -> (lowered: Vec<char>)
    ensures
        lowered@ == lower_seq(text@),
{
    let n = text.unicode_len();
    let mut lowered: Vec<char> = Vec::new();
    let mut i: usize = 0;
    while i < n
        invariant
            n == text@.len(),
            i <= n,
            lowered@.len() == i as int,
            forall|j: int| 0 <= j < i ==> lowered@[j] == lower_char_spec(text@[j]),
        decreases n - i,
    {
        let c = text.get_char(i);
        lowered.push(lower_char(c));
        i = i + 1;
    }
    proof {
        assert(lowered@ =~= lower_seq(text@));
    }
    lowered
}

fn match_at(hay: &Vec<char>, pat: &str, s: usize) -> (b: bool)
    requires
        s + pat@.len() <= hay@.len(),
    ensures
        b == (hay@.subrange(s as int, s + pat@.len()) == pat@),
{
    let m = pat.unicode_len();
    let n = hay.len();
    let mut j: usize = 0;
    while j < m
        invariant
            m == pat@.len(),
            n == hay@.len(),
            s + m <= n,
            j <= m,
            forall|q: int| 0 <= q < j ==> hay@[s + q] == pat@[q],
        decreases m - j,
    {
        if hay[s + j] != pat.get_char(j) {
            proof {
                assert(hay@.subrange(s as int, s + pat@.len())[j as int] == hay@[s + j]);
            }
            return false;
        }
        j = j + 1;
    }
    proof {
        assert(hay@.subrange(s as int, s + pat@.len()) =~= pat@);
    }
    true
}

fn contains_pat(hay: &Vec<char>, pat: &str) -> (found: bool)
    ensures
        found == contains_seq(hay@, pat@),
{
    let m = pat.unicode_len();
    let n = hay.len();
    if m > n {
        return false;
    }
    if m == 0 {
        proof {
            assert(hay@.subrange(0int, 0int + pat@.len()) =~= pat@);
        }
        return true;
    }
    let mut s: usize = 0;
    while s <= n - m
        invariant
            m == pat@.len(),
            n == hay@.len(),
            1 <= m <= n,
            s <= n - m + 1,
            forall|k: int| 0 <= k < s ==> #[trigger] hay@.subrange(k, k + pat@.len()) != pat@,
        decreases n - m + 1 - s,
    {
        if match_at(hay, pat, s) {
            return true;
        }
        s = s + 1;
    }
    false
}

/// Classify a free-form text: lower-case it, then apply the priority chain of
/// keyword rules. Pure, deterministic and total.
pub fn parse_text(text: &str) -> (v: Vibe)
    ensures
        v == spec_classify(text@),
{
    let lowered = lower_chars(text);
    let no_reading = contains_pat(&lowered, "no reading") || contains_pat(
        &lowered,
        "no new reading",
    );
    let no_bones = contains_pat(&lowered, "#nobonesday") || contains_pat(&lowered, "no bones")
        || contains_pat(&lowered, "does not have bones") || contains_pat(
        &lowered,
        "not a bones day",
    );
    let bones = contains_pat(&lowered, "#bonesday") || contains_pat(&lowered, "has bones")
        || contains_pat(&lowered, "bones day");
    if no_reading {
        Vibe::NoReading
    } else if no_bones {
        Vibe::NoBonesDay
    } else if bones {
        Vibe::BonesDay
    } else {
        Vibe::Error
    }
}

/// A text with an explicit skip keyword is classified as a skipped reading,
/// whatever other keywords it also carries.
pub proof fn lemma_skip_wins(text: Seq<char>)
    requires
        is_no_reading(lower_seq(text)),
    ensures
        spec_classify(text) == Vibe::NoReading,
{
}

/// A text with both a negative and a positive keyword, and no skip keyword,
/// is classified as negative: the negative rule takes precedence.
pub proof fn lemma_negative_beats_positive(text: Seq<char>)
    requires
        !is_no_reading(lower_seq(text)),
        is_no_bones(lower_seq(text)),
        is_bones(lower_seq(text)),
    ensures
        spec_classify(text) == Vibe::NoBonesDay,
{
}

/// A text with a positive keyword and no higher-priority keyword is
/// classified as positive.
pub proof fn lemma_positive_alone(text: Seq<char>)
    requires
        !is_no_reading(lower_seq(text)),
        !is_no_bones(lower_seq(text)),
        is_bones(lower_seq(text)),
    ensures
        spec_classify(text) == Vibe::BonesDay,
{
}

/// A text matching none of the keyword sets is classified as indeterminate —
/// a normal outcome, not a failure.
pub proof fn lemma_no_match_indeterminate(text: Seq<char>)
    requires
        !is_no_reading(lower_seq(text)),
        !is_no_bones(lower_seq(text)),
        !is_bones(lower_seq(text)),
    ensures
        spec_classify(text) == Vibe::Error,
{
}

/// Lower-casing is idempotent, character by character.
pub proof fn lemma_lower_idempotent(s: Seq<char>)
    ensures
        lower_seq(lower_seq(s)) == lower_seq(s),
{
    assert forall|i: int| 0 <= i < s.len() implies lower_char_spec(lower_char_spec(s[i]))
        == lower_char_spec(s[i]) by {}
    assert(lower_seq(lower_seq(s)) =~= lower_seq(s));
}

/// Classification is case-insensitive: a text and its lower-cased form are
/// classified alike.
pub proof fn lemma_case_insensitive(text: Seq<char>)
    ensures
        spec_classify(lower_seq(text)) == spec_classify(text),
{
    lemma_lower_idempotent(text);
}

} // verus!
