//! Title text: what counts as blank, what trimming leaves, and the two
//! operations of `str` that titles are normalized with.
use vstd::prelude::*;

verus! {

/// Whether `c` is white space: one of the 25 characters that carry the Unicode
/// property `White_Space`.
pub open spec fn is_whitespace(c: char) -> bool {
    let n = c as u32;
    ||| 0x0009 <= n <= 0x000D
    ||| n == 0x0020
    ||| n == 0x0085
    ||| n == 0x00A0
    ||| n == 0x1680
    ||| 0x2000 <= n <= 0x200A
    ||| n == 0x2028
    ||| n == 0x2029
    ||| n == 0x202F
    ||| n == 0x205F
    ||| n == 0x3000
}

/// A text is blank when it holds nothing but white space; the empty text is blank.
pub open spec fn is_blank(s: Seq<char>) -> bool {
    forall|i: int| 0 <= i < s.len() ==> is_whitespace(#[trigger] s[i])
}

/// `s` without its leading white space.
pub open spec fn trim_start(s: Seq<char>) -> Seq<char>
    decreases s.len(),
{
    if s.len() > 0 && is_whitespace(s.first()) {
        trim_start(s.drop_first())
    } else {
        s
    }
}

/// `s` without its trailing white space.
pub open spec fn trim_end(s: Seq<char>) -> Seq<char>
    decreases s.len(),
{
    if s.len() > 0 && is_whitespace(s.last()) {
        trim_end(s.drop_last())
    } else {
        s
    }
}

/// `s` without its leading and trailing white space.
pub open spec fn trimmed(s: Seq<char>) -> Seq<char> {
    trim_end(trim_start(s))
}

/// A text is tight when it is not empty and neither starts nor ends with white
/// space: the shape of every stored title.
pub open spec fn is_tight(s: Seq<char>) -> bool {
    &&& s.len() > 0
    &&& !is_whitespace(s.first())
    &&& !is_whitespace(s.last())
}

/// `s` with every occurrence of the character `from` replaced by `to`.
pub open spec fn substituted(s: Seq<char>, from: char, to: char) -> Seq<char> {
    Seq::new(
        s.len(),
        |i: int|
            if s[i] == from {
                to
            } else {
                s[i]
            },
    )
}

/// Trimming at the front drops a run of white space and nothing else: the
/// result is a suffix of `s` that does not start with white space.
pub proof fn lemma_trim_start(s: Seq<char>)
    ensures
        trim_start(s).len() <= s.len(),
        trim_start(s) == s.skip(s.len() - trim_start(s).len()),
        is_blank(s.take(s.len() - trim_start(s).len())),
        trim_start(s).len() > 0 ==> !is_whitespace(trim_start(s).first()),
    decreases s.len(),
{
    if s.len() > 0 && is_whitespace(s.first()) {
        let rest = s.drop_first();
        lemma_trim_start(rest);
        let cut = s.len() - trim_start(s).len();
        assert(rest.skip(cut - 1) =~= s.skip(cut));
        assert forall|i: int| 0 <= i < cut implies is_whitespace(#[trigger] s.take(cut)[i]) by {
            if i > 0 {
                assert(s.take(cut)[i] == rest.take(cut - 1)[i - 1]);
            }
        }
    } else {
        assert(s.skip(0) =~= s);
    }
}

/// Trimming at the back drops a run of white space and nothing else: the
/// result is a prefix of `s` that does not end with white space.
pub proof fn lemma_trim_end(s: Seq<char>)
    ensures
        trim_end(s).len() <= s.len(),
        trim_end(s) == s.take(trim_end(s).len() as int),
        is_blank(s.skip(trim_end(s).len() as int)),
        trim_end(s).len() > 0 ==> !is_whitespace(trim_end(s).last()),
    decreases s.len(),
{
    if s.len() > 0 && is_whitespace(s.last()) {
        let rest = s.drop_last();
        lemma_trim_end(rest);
        let keep = trim_end(s).len() as int;
        assert(rest.take(keep) =~= s.take(keep));
        assert forall|i: int| 0 <= i < s.len() - keep implies is_whitespace(
            #[trigger] s.skip(keep)[i],
        ) by {
            if i < s.len() - keep - 1 {
                assert(s.skip(keep)[i] == rest.skip(keep)[i]);
            }
        }
    } else {
        assert(s.take(s.len() as int) =~= s);
    }
}

/// Trimming leaves nothing exactly of the blank texts.
pub proof fn lemma_trimmed_empty_iff_blank(s: Seq<char>)
    ensures
        trimmed(s).len() == 0 <==> is_blank(s),
{
    lemma_trim_start(s);
    let front = trim_start(s);
    lemma_trim_end(front);
    let cut = s.len() - front.len();
    if trimmed(s).len() == 0 {
        assert(front.skip(0) =~= front);
        assert forall|i: int| 0 <= i < s.len() implies is_whitespace(#[trigger] s[i]) by {
            if i < cut {
                assert(s[i] == s.take(cut)[i]);
            } else {
                assert(s[i] == front[i - cut]);
            }
        }
    }
    if is_blank(s) {
        if trimmed(s).len() > 0 {
            let last = trimmed(s).len() - 1;
            assert(trimmed(s)[last] == s[cut + last]);
        }
    }
}

/// Trimming a text that is not blank leaves a tight text.
pub proof fn lemma_trimmed_is_tight(s: Seq<char>)
    requires
        !is_blank(s),
    ensures
        is_tight(trimmed(s)),
{
    lemma_trimmed_empty_iff_blank(s);
    lemma_trim_start(s);
    lemma_trim_end(trim_start(s));
}

/// Trimming changes nothing in a tight text, so trimming twice is trimming once.
pub proof fn lemma_trimmed_of_tight(s: Seq<char>)
    requires
        is_tight(s),
    ensures
        trimmed(s) == s,
        !is_blank(s),
{
    assert(trim_start(s) == s);
    assert(trim_end(s) == s);
}

/// A tight text stays tight when one character that is not white space is
/// put in the place of another.
pub proof fn lemma_substituted_tight(s: Seq<char>, from: char, to: char)
    requires
        is_tight(s),
        !is_whitespace(to),
    ensures
        is_tight(substituted(s, from, to)),
        substituted(s, from, to).len() == s.len(),
{
}

/// What `str::trim` returns: the text without the white space at its two ends,
/// white space being the characters with the Unicode property `White_Space`.
#[verifier::external_body]
pub(crate) fn trim(s: &str) -> (t: &str)
    ensures
        t@ == trimmed(s@),
{
    s.trim()
}

/// What `str::replace` returns where the pattern and the replacement are one
/// character each: the text with every occurrence of the one character
/// replaced by the other.
#[verifier::external_body]
pub(crate) fn replace(s: &str, from: &str, to: &str) -> (r: String)
    requires
        from@.len() == 1,
        to@.len() == 1,
    ensures
        r@ == substituted(s@, from@[0], to@[0]),
{
    s.replace(from, to)
}

} // verus!
