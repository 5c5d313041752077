//! Text helpers on `str` and `String`, stated over the character sequences
//! that the strings view as.

use vstd::prelude::*;

verus! {

/// Whether `c` has the Unicode White_Space property (PropList.txt of the
/// Unicode Character Database): the controls U+0009 to U+000D, the space
/// U+0020, NEL U+0085, the no-break space U+00A0, the Ogham space mark
/// U+1680, the spaces U+2000 to U+200A, the line and paragraph separators
/// U+2028 and U+2029, the narrow no-break space U+202F, the medium
/// mathematical space U+205F and the ideographic space U+3000.
pub open spec fn is_white_space(c: char) -> bool {
    let u = c as u32;
    ||| 0x09 <= u <= 0x0d
    ||| u == 0x20
    ||| u == 0x85
    ||| u == 0xa0
    ||| u == 0x1680
    ||| 0x2000 <= u <= 0x200a
    ||| u == 0x2028
    ||| u == 0x2029
    ||| u == 0x202f
    ||| u == 0x205f
    ||| u == 0x3000
}

/// Whether `c` is white space, as `char::is_whitespace` of std defines it:
/// whether it has the Unicode White_Space property.
fn char_is_whitespace(c: char) -> (b: bool)
    ensures
        b == is_white_space(c),
{
    let u = c as u32;
    (0x09 <= u && u <= 0x0d) || u == 0x20 || u == 0x85 || u == 0xa0 || u == 0x1680 || (0x2000 <= u
        && u <= 0x200a) || u == 0x2028 || u == 0x2029 || u == 0x202f || u == 0x205f || u == 0x3000
}

/// `String::push` of std: appends `c` at the end of `s`.
#[verifier::external_body]
pub(crate) fn string_push(s: &mut String, c: char)
    ensures
        final(s)@ == old(s)@.push(c),
{
    s.push(c)
}

/// `s` without its leading white space.
pub open spec fn trim_start_view(s: Seq<char>) -> Seq<char>
    decreases s.len(),
{
    if s.len() > 0 && is_white_space(s[0]) {
        trim_start_view(s.subrange(1, s.len() as int))
    } else {
        s
    }
}

/// `s` without its trailing white space.
pub open spec fn trim_end_view(s: Seq<char>) -> Seq<char>
    decreases s.len(),
{
    if s.len() > 0 && is_white_space(s.last()) {
        trim_end_view(s.drop_last())
    } else {
        s
    }
}

/// `s` without its leading and trailing white space, as `str::trim` gives it.
pub open spec fn trim_view(s: Seq<char>) -> Seq<char> {
    trim_end_view(trim_start_view(s))
}

/// The part of `s` between its leading and its trailing white space.
pub fn trim(s: &str) -> (t: &str)
    ensures
        t@ == trim_view(s@),
{
    let n = s.unicode_len();
    let mut start: usize = 0;
    assert(s@.subrange(0, n as int) =~= s@);
    while start < n && char_is_whitespace(s.get_char(start))
        invariant
            n == s@.len(),
            start <= n,
            trim_start_view(s@) == trim_start_view(s@.subrange(start as int, n as int)),
        decreases n - start,
    {
        assert(s@.subrange(start as int, n as int).subrange(1, (n - start) as int)
            =~= s@.subrange(start + 1, n as int));
        start = start + 1;
    }
    let ghost rest = s@.subrange(start as int, n as int);
    assert(trim_start_view(s@) == rest);
    let mut end: usize = n;
    while end > start && char_is_whitespace(s.get_char(end - 1))
        invariant
            n == s@.len(),
            start <= end <= n,
            rest == s@.subrange(start as int, n as int),
            trim_end_view(rest) == trim_end_view(s@.subrange(start as int, end as int)),
        decreases end - start,
    {
        assert(s@.subrange(start as int, end as int).drop_last()
            =~= s@.subrange(start as int, end - 1));
        end = end - 1;
    }
    s.substring_char(start, end)
}

/// The whole of `input`, as an owned string.
pub fn jp(input: &str) -> (text: String)
    ensures
        text@ == input@,
{
    String::from_str(input)
}

/// Dropping leading white space drops a prefix of white space and stops at
/// the first other character.
proof fn lemma_trim_start_drops_prefix(s: Seq<char>) -> (start: int)
    ensures
        0 <= start <= s.len(),
        trim_start_view(s) == s.subrange(start, s.len() as int),
        forall|i: int| 0 <= i < start ==> is_white_space(#[trigger] s[i]),
        start < s.len() ==> !is_white_space(s[start]),
    decreases s.len(),
{
    if s.len() > 0 && is_white_space(s[0]) {
        let rest = s.subrange(1, s.len() as int);
        let k = lemma_trim_start_drops_prefix(rest);
        assert(rest.subrange(k, rest.len() as int) =~= s.subrange(k + 1, s.len() as int));
        assert forall|i: int| 0 <= i < k + 1 implies is_white_space(#[trigger] s[i]) by {
            if i > 0 {
                assert(s[i] == rest[i - 1]);
            }
        }
        k + 1
    } else {
        assert(s.subrange(0, s.len() as int) =~= s);
        0
    }
}

/// Dropping trailing white space drops a suffix of white space and stops at
/// the last other character.
proof fn lemma_trim_end_drops_suffix(s: Seq<char>) -> (end: int)
    ensures
        0 <= end <= s.len(),
        trim_end_view(s) == s.subrange(0, end),
        forall|i: int| end <= i < s.len() ==> is_white_space(#[trigger] s[i]),
        end > 0 ==> !is_white_space(s[end - 1]),
    decreases s.len(),
{
    if s.len() > 0 && is_white_space(s.last()) {
        let rest = s.drop_last();
        let k = lemma_trim_end_drops_suffix(rest);
        assert(rest.subrange(0, k) =~= s.subrange(0, k));
        assert forall|i: int| k <= i < s.len() implies is_white_space(#[trigger] s[i]) by {
            if i < s.len() - 1 {
                assert(s[i] == rest[i]);
            }
        }
        k
    } else {
        assert(s.subrange(0, s.len() as int) =~= s);
        s.len() as int
    }
}

/// Trimming keeps a contiguous part of the text, drops only white space
/// around it, and leaves no white space at either end; trimming again
/// changes nothing.
pub proof fn lemma_trim_keeps_the_middle(s: Seq<char>)
    ensures
        exists|a: int, b: int|
            {
                &&& 0 <= a <= b <= s.len()
                &&& trim_view(s) == s.subrange(a, b)
                &&& forall|i: int| 0 <= i < a ==> is_white_space(#[trigger] s[i])
                &&& forall|i: int| b <= i < s.len() ==> is_white_space(#[trigger] s[i])
            },
        trim_view(s).len() > 0 ==> !is_white_space(trim_view(s)[0]) && !is_white_space(
            trim_view(s).last(),
        ),
        trim_view(trim_view(s)) == trim_view(s),
{
    let a = lemma_trim_start_drops_prefix(s);
    let t = trim_start_view(s);
    let e = lemma_trim_end_drops_suffix(t);
    let r = trim_view(s);
    assert(r =~= s.subrange(a, a + e));
    assert forall|i: int| a + e <= i < s.len() implies is_white_space(#[trigger] s[i]) by {
        assert(s[i] == t[i - a]);
    }
    if r.len() > 0 {
        assert(r[0] == t[0]);
        if e < t.len() {
            assert(!is_white_space(t[0]));
        } else {
            assert(r =~= t);
        }
    }
    let a2 = lemma_trim_start_drops_prefix(r);
    if r.len() > 0 {
        assert(a2 == 0);
        assert(trim_start_view(r) =~= r);
        let e2 = lemma_trim_end_drops_suffix(r);
        assert(e2 == r.len());
        assert(trim_end_view(r) =~= r);
    } else {
        assert(trim_start_view(r) =~= r);
        assert(trim_end_view(r) == r);
    }
}

} // verus!
