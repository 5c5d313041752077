//! Text renderings of whole amounts of yen and of decimal numbers.
//!
//! Amounts come in here as whole numbers: truncating a floating-point amount
//! to an `i64` is the caller's part.

use vstd::prelude::*;

use crate::text::string_push;

verus! {

/// The decimal digit character for `d`, for `0 <= d < 10`.
pub open spec fn digit_char(d: int) -> char {
    if d == 0 { '0' }
    else if d == 1 { '1' }
    else if d == 2 { '2' }
    else if d == 3 { '3' }
    else if d == 4 { '4' }
    else if d == 5 { '5' }
    else if d == 6 { '6' }
    else if d == 7 { '7' }
    else if d == 8 { '8' }
    else { '9' }
}

/// The value of a decimal digit character (0 for any other character).
pub open spec fn digit_value(c: char) -> int {
    if c == '1' { 1 }
    else if c == '2' { 2 }
    else if c == '3' { 3 }
    else if c == '4' { 4 }
    else if c == '5' { 5 }
    else if c == '6' { 6 }
    else if c == '7' { 7 }
    else if c == '8' { 8 }
    else if c == '9' { 9 }
    else { 0 }
}

/// Whether `c` is one of the ten decimal digits.
pub open spec fn is_digit(c: char) -> bool {
    c == '0' || c == '1' || c == '2' || c == '3' || c == '4' || c == '5' || c == '6'
        || c == '7' || c == '8' || c == '9'
}

/// The decimal notation of `n`, most significant digit first.
pub open spec fn digits_of(n: nat) -> Seq<char>
    decreases n,
{
    if n < 10 {
        seq![digit_char(n as int)]
    } else {
        digits_of(n / 10).push(digit_char((n % 10) as int))
    }
}

/// The number that a sequence of decimal digits denotes.
pub open spec fn value_of_digits(s: Seq<char>) -> int
    decreases s.len(),
{
    if s.len() == 0 {
        0
    } else {
        value_of_digits(s.drop_last()) * 10 + digit_value(s.last())
    }
}

/// The absolute value of `v`.
pub open spec fn magnitude(v: int) -> nat {
    if v < 0 { (-v) as nat } else { v as nat }
}

/// The sign of `v` as text: `-` for a negative number, nothing otherwise.
pub open spec fn sign_text(v: int) -> Seq<char> {
    if v < 0 { seq!['-'] } else { seq![] }
}

/// `v` in decimal notation, with a leading `-` when it is negative.
pub open spec fn integer_text(v: int) -> Seq<char> {
    sign_text(v) + digits_of(magnitude(v))
}

/// `d` with a comma before each group of three characters, counted from the
/// right.
pub open spec fn with_thousands_separators(d: Seq<char>) -> Seq<char>
    decreases d.len(),
{
    if d.len() <= 3 {
        d
    } else {
        with_thousands_separators(d.subrange(0, d.len() - 3)) + seq![','] + d.subrange(
            d.len() - 3,
            d.len() as int,
        )
    }
}

/// `v` in decimal notation with thousands separators.
pub open spec fn grouped_text(v: int) -> Seq<char> {
    sign_text(v) + with_thousands_separators(digits_of(magnitude(v)))
}

/// `s` with every comma left out.
pub open spec fn without_commas(s: Seq<char>) -> Seq<char>
    decreases s.len(),
{
    if s.len() == 0 {
        s
    } else if s.last() == ',' {
        without_commas(s.drop_last())
    } else {
        without_commas(s.drop_last()).push(s.last())
    }
}

/// The digit character for `d`.
fn digit_to_char(d: u64) -> (c: char)
    requires
        d < 10,
    ensures
        c == digit_char(d as int),
{
    if d == 0 { '0' }
    else if d == 1 { '1' }
    else if d == 2 { '2' }
    else if d == 3 { '3' }
    else if d == 4 { '4' }
    else if d == 5 { '5' }
    else if d == 6 { '6' }
    else if d == 7 { '7' }
    else if d == 8 { '8' }
    else { '9' }
}

/// Appends the decimal digits of `n` to `out`.
fn push_digits(out: &mut String, n: u64)
    ensures
        final(out)@ == old(out)@ + digits_of(n as nat),
    decreases n,
{
    if n >= 10 {
        push_digits(out, n / 10);
    }
    let c = digit_to_char(n % 10);
    string_push(out, c);
    proof {
        if n >= 10 {
            assert(old(out)@ + digits_of(n as nat) =~= old(out)@ + digits_of((n / 10) as nat) + seq![c]);
        } else {
            assert(old(out)@ + digits_of(n as nat) =~= old(out)@.push(c));
        }
    }
}

/// The absolute value of `value`.
fn magnitude_of(value: i64) -> (m: u64)
    ensures
        m as nat == magnitude(value as int),
{
    if value < 0 {
        let wide: i128 = 0 - (value as i128);
        wide as u64
    } else {
        value as u64
    }
}

/// `value` in decimal notation: digits, with `-` in front of a negative
/// number, and no thousands separators.
pub fn integer_string(value: i64) -> (text: String)
    ensures
        text@ == integer_text(value as int),
{
    let mut text = String::new();
    if value < 0 {
        string_push(&mut text, '-');
    }
    assert(text@ == sign_text(value as int));
    push_digits(&mut text, magnitude_of(value));
    text
}

/// Appends the first `end` characters of `digits`, with a comma before each
/// group of three counted from the right.
fn push_grouped(out: &mut String, digits: &str, end: usize)
    requires
        end <= digits@.len(),
    ensures
        final(out)@ == old(out)@ + with_thousands_separators(digits@.subrange(0, end as int)),
    decreases end,
{
    let ghost d = digits@.subrange(0, end as int);
    if end <= 3 {
        out.append(digits.substring_char(0, end));
    } else {
        push_grouped(out, digits, end - 3);
        string_push(out, ',');
        out.append(digits.substring_char(end - 3, end));
        assert(d.subrange(0, d.len() - 3) =~= digits@.subrange(0, end - 3));
        assert(d.subrange(d.len() - 3, d.len() as int) =~= digits@.subrange(end - 3, end as int));
        assert(final(out)@ =~= old(out)@ + with_thousands_separators(d));
    }
}

/// `value` in decimal notation with a comma between each group of three
/// digits, counted from the right, and `-` in front of a negative number.
pub fn format_number(value: i64) -> (text: String)
    ensures
        text@ == grouped_text(value as int),
{
    let mut digits = String::new();
    push_digits(&mut digits, magnitude_of(value));
    assert(digits@ =~= digits_of(magnitude(value as int)));
    let mut text = String::new();
    if value < 0 {
        string_push(&mut text, '-');
    }
    assert(text@ == sign_text(value as int));
    let len = digits.as_str().unicode_len();
    push_grouped(&mut text, digits.as_str(), len);
    assert(digits@.subrange(0, len as int) =~= digits@);
    text
}

/// `value` as an amount of yen: the grouped number followed by `円`.
pub fn format_yen(value: i64) -> (text: String)
    ensures
        text@ == grouped_text(value as int) + "円"@,
{
    let mut text = format_number(value);
    text.append("円");
    text
}

/// `t` without the zeros at its end, as long as it holds a decimal point.
pub open spec fn without_fraction_zeros(t: Seq<char>) -> Seq<char>
    decreases t.len(),
{
    if t.contains('.') && t.len() > 0 && t.last() == '0' {
        without_fraction_zeros(t.drop_last())
    } else {
        t
    }
}

/// `t` without trailing zeros after its decimal point, and without the
/// decimal point itself when nothing is left after it.
pub open spec fn trailing_zero_trimmed(t: Seq<char>) -> Seq<char> {
    let u = without_fraction_zeros(t);
    if u.len() > 0 && u.last() == '.' {
        u.drop_last()
    } else {
        u
    }
}

/// The decimal text `text` (a number rendered with a fixed count of
/// fraction digits) without the zeros that end its fraction, and without the
/// decimal point when the whole fraction is gone.
pub fn trim_trailing_zero(text: &str) -> (trimmed: String)
    ensures
        trimmed@ == trailing_zero_trimmed(text@),
{
    let n = text.unicode_len();
    let mut has_dot = false;
    let mut i: usize = 0;
    while i < n
        invariant
            n == text@.len(),
            i <= n,
            has_dot <==> exists|k: int| 0 <= k < i && text@[k] == '.',
        decreases n - i,
    {
        if text.get_char(i) == '.' {
            has_dot = true;
        }
        i = i + 1;
    }
    assert(has_dot == text@.contains('.'));
    let mut end: usize = n;
    assert(text@.subrange(0, n as int) =~= text@);
    if has_dot {
        while end > 0 && text.get_char(end - 1) == '0'
            invariant
                n == text@.len(),
                end <= n,
                text@.subrange(0, end as int).contains('.'),
                without_fraction_zeros(text@) == without_fraction_zeros(
                    text@.subrange(0, end as int),
                ),
            decreases end,
        {
            let ghost u = text@.subrange(0, end as int);
            assert(u.drop_last() =~= text@.subrange(0, end - 1));
            let ghost k = choose|k: int| 0 <= k < u.len() && u[k] == '.';
            assert(u.drop_last()[k] == '.');
            end = end - 1;
        }
    }
    assert(without_fraction_zeros(text@) == text@.subrange(0, end as int));
    if end > 0 && text.get_char(end - 1) == '.' {
        assert(text@.subrange(0, end as int).drop_last() =~= text@.subrange(0, end - 1));
        end = end - 1;
    }
    String::from_str(text.substring_char(0, end))
}

/// The digit characters stand for their own values.
proof fn lemma_digit_char_value(d: int)
    requires
        0 <= d < 10,
    ensures
        is_digit(digit_char(d)),
        digit_value(digit_char(d)) == d,
        digit_char(d) == '0' <==> d == 0,
{
}

/// `integer_string` writes the canonical decimal notation: its digits are
/// decimal digits, they denote the magnitude of the number, and they start
/// with `0` only for zero itself.
pub proof fn lemma_digits_of_is_decimal_notation(n: nat)
    ensures
        digits_of(n).len() >= 1,
        forall|i: int| 0 <= i < digits_of(n).len() ==> is_digit(#[trigger] digits_of(n)[i]),
        value_of_digits(digits_of(n)) == n,
        digits_of(n)[0] == '0' <==> n == 0,
    decreases n,
{
    if n < 10 {
        lemma_digit_char_value(n as int);
        let d = digits_of(n);
        assert(d.drop_last() =~= Seq::<char>::empty());
        assert(value_of_digits(Seq::<char>::empty()) == 0);
        assert(value_of_digits(d) == value_of_digits(d.drop_last()) * 10 + digit_value(d.last()));
    } else {
        lemma_digits_of_is_decimal_notation(n / 10);
        lemma_digit_char_value((n % 10) as int);
        let d = digits_of(n);
        assert(d.drop_last() =~= digits_of(n / 10));
        assert(value_of_digits(d) == value_of_digits(d.drop_last()) * 10 + digit_value(d.last()));
        assert(value_of_digits(d) == (n / 10) * 10 + n % 10);
        assert forall|i: int| 0 <= i < d.len() implies is_digit(#[trigger] d[i]) by {
            if i < d.len() - 1 {
                assert(d[i] == digits_of(n / 10)[i]);
            }
        }
        assert(d[0] == digits_of(n / 10)[0]);
    }
}

/// Leaving out the commas of a concatenation leaves them out of each part.
proof fn lemma_without_commas_concat(a: Seq<char>, b: Seq<char>)
    ensures
        without_commas(a + b) == without_commas(a) + without_commas(b),
    decreases b.len(),
{
    if b.len() == 0 {
        assert(a + b =~= a);
        assert(without_commas(a) + without_commas(b) =~= without_commas(a));
    } else {
        lemma_without_commas_concat(a, b.drop_last());
        assert((a + b).drop_last() =~= a + b.drop_last());
        assert((a + b).last() == b.last());
        if b.last() != ',' {
            assert(without_commas(a) + without_commas(b.drop_last()).push(b.last())
                =~= (without_commas(a) + without_commas(b.drop_last())).push(b.last()));
        }
    }
}

/// A text without commas is left as it is.
proof fn lemma_without_commas_plain(s: Seq<char>)
    requires
        forall|i: int| 0 <= i < s.len() ==> #[trigger] s[i] != ',',
    ensures
        without_commas(s) == s,
    decreases s.len(),
{
    if s.len() > 0 {
        assert(s[s.len() - 1] != ',');
        lemma_without_commas_plain(s.drop_last());
        assert(s.drop_last().push(s.last()) =~= s);
    }
}

/// The separators are the only thing that grouping adds to a comma-free text.
pub proof fn lemma_separators_only_add_commas(d: Seq<char>)
    requires
        forall|i: int| 0 <= i < d.len() ==> #[trigger] d[i] != ',',
    ensures
        without_commas(with_thousands_separators(d)) == d,
    decreases d.len(),
{
    if d.len() <= 3 {
        lemma_without_commas_plain(d);
    } else {
        let head = d.subrange(0, d.len() - 3);
        let tail = d.subrange(d.len() - 3, d.len() as int);
        assert forall|i: int| 0 <= i < head.len() implies #[trigger] head[i] != ',' by {
            assert(head[i] == d[i]);
        }
        assert forall|i: int| 0 <= i < tail.len() implies #[trigger] tail[i] != ',' by {
            assert(tail[i] == d[d.len() - 3 + i]);
        }
        lemma_separators_only_add_commas(head);
        lemma_without_commas_plain(tail);
        lemma_without_commas_concat(with_thousands_separators(head) + seq![','], tail);
        lemma_without_commas_concat(with_thousands_separators(head), seq![',']);
        let comma = seq![','];
        assert(comma.drop_last() =~= Seq::<char>::empty());
        assert(comma.last() == ',');
        assert(without_commas(Seq::<char>::empty()) == Seq::<char>::empty());
        assert(without_commas(comma) == without_commas(comma.drop_last()));
        assert(without_commas(comma) =~= Seq::<char>::empty());
        assert(head + tail =~= d);
        assert(without_commas(with_thousands_separators(head)) + Seq::<char>::empty()
            =~= without_commas(with_thousands_separators(head)));
    }
}

/// `format_number` differs from `integer_string` by its commas alone: left
/// out, they give back the plain decimal notation.
pub proof fn lemma_format_number_without_commas_is_integer_string(v: int)
    ensures
        without_commas(grouped_text(v)) == integer_text(v),
{
    let d = digits_of(magnitude(v));
    lemma_digits_of_is_decimal_notation(magnitude(v));
    assert forall|i: int| 0 <= i < d.len() implies #[trigger] d[i] != ',' by {
        assert(is_digit(d[i]));
    }
    lemma_separators_only_add_commas(d);
    lemma_without_commas_concat(sign_text(v), with_thousands_separators(d));
    if v < 0 {
        lemma_without_commas_plain(seq!['-']);
    } else {
        assert(sign_text(v) =~= Seq::<char>::empty());
    }
}

/// Each comma that grouping adds comes after at least one digit, and exactly
/// three characters separate it from the next comma or from the end.
pub proof fn lemma_commas_split_groups_of_three(d: Seq<char>, i: int)
    requires
        forall|k: int| 0 <= k < d.len() ==> #[trigger] d[k] != ',',
        0 <= i < with_thousands_separators(d).len(),
        with_thousands_separators(d)[i] == ',',
    ensures
        i >= 1,
        i + 3 < with_thousands_separators(d).len(),
        with_thousands_separators(d)[i + 1] != ',',
        with_thousands_separators(d)[i + 2] != ',',
        with_thousands_separators(d)[i + 3] != ',',
        i + 4 == with_thousands_separators(d).len() || with_thousands_separators(d)[i + 4] == ',',
    decreases d.len(),
{
    let g = with_thousands_separators(d);
    if d.len() <= 3 {
        assert(g[i] == d[i]);
    } else {
        let head = d.subrange(0, d.len() - 3);
        let tail = d.subrange(d.len() - 3, d.len() as int);
        let gh = with_thousands_separators(head);
        assert forall|k: int| 0 <= k < head.len() implies #[trigger] head[k] != ',' by {
            assert(head[k] == d[k]);
        }
        lemma_group_length(head);
        assert(g == gh + seq![','] + tail);
        if i < gh.len() {
            assert(g[i] == gh[i]);
            lemma_commas_split_groups_of_three(head, i);
            assert(g[i + 1] == gh[i + 1]);
            assert(g[i + 2] == gh[i + 2]);
            assert(g[i + 3] == gh[i + 3]);
            if i + 4 < gh.len() {
                assert(g[i + 4] == gh[i + 4]);
            }
        } else if i > gh.len() {
            assert(g[i] == tail[i - gh.len() - 1]);
            assert(tail[i - gh.len() - 1] == d[d.len() - 3 + (i - gh.len() - 1)]);
        } else {
            assert(g[i + 1] == d[d.len() - 3]);
            assert(g[i + 2] == d[d.len() - 2]);
            assert(g[i + 3] == d[d.len() - 1]);
        }
    }
}

/// Grouping a non-empty text keeps it non-empty and adds one comma for every
/// full group of three beyond the first group.
pub proof fn lemma_group_length(d: Seq<char>)
    ensures
        with_thousands_separators(d).len() == d.len() + (if d.len() == 0 { 0 } else { (d.len() - 1) / 3 }),
    decreases d.len(),
{
    if d.len() > 3 {
        lemma_group_length(d.subrange(0, d.len() - 3));
    }
}

/// Dropping zeros from the end of a text with a decimal point keeps a prefix
/// of it, drops nothing but zeros, keeps the decimal point, and stops at the
/// first character from the end that is not a zero.
proof fn lemma_without_fraction_zeros_shape(t: Seq<char>)
    ensures
        without_fraction_zeros(t).len() <= t.len(),
        without_fraction_zeros(t) == t.subrange(0, without_fraction_zeros(t).len() as int),
        forall|i: int|
            without_fraction_zeros(t).len() <= i < t.len() ==> #[trigger] t[i] == '0',
        without_fraction_zeros(t).contains('.') == t.contains('.'),
        without_fraction_zeros(t).contains('.') ==> without_fraction_zeros(t).last() != '0',
    decreases t.len(),
{
    if t.contains('.') && t.len() > 0 && t.last() == '0' {
        let s = t.drop_last();
        lemma_without_fraction_zeros_shape(s);
        let k = choose|k: int| 0 <= k < t.len() && t[k] == '.';
        assert(k < t.len() - 1);
        assert(s[k] == '.');
        let u = without_fraction_zeros(s);
        assert(u == t.subrange(0, u.len() as int)) by {
            assert(s.subrange(0, u.len() as int) =~= t.subrange(0, u.len() as int));
        }
        assert forall|i: int| u.len() <= i < t.len() implies #[trigger] t[i] == '0' by {
            if i < s.len() {
                assert(s[i] == t[i]);
            }
        }
    } else {
        assert(t.subrange(0, t.len() as int) =~= t);
        if t.contains('.') {
            assert(t.len() > 0);
        }
    }
}

/// For a text with at most one decimal point, `trim_trailing_zero` keeps a
/// prefix of it and drops nothing but zeros and the decimal point; what is
/// left ends neither in a zero of the fraction nor in a bare decimal point.
pub proof fn lemma_trailing_zero_trimmed_shape(t: Seq<char>)
    requires
        forall|i: int, j: int| 0 <= i < t.len() && 0 <= j < t.len() && t[i] == '.' && t[j] == '.' ==> i == j,
    ensures
        trailing_zero_trimmed(t).len() <= t.len(),
        trailing_zero_trimmed(t) == t.subrange(0, trailing_zero_trimmed(t).len() as int),
        forall|i: int|
            trailing_zero_trimmed(t).len() <= i < t.len() ==> #[trigger] t[i] == '0' || t[i] == '.',
        trailing_zero_trimmed(t).contains('.') ==> trailing_zero_trimmed(t).last() != '0'
            && trailing_zero_trimmed(t).last() != '.',
{
    lemma_without_fraction_zeros_shape(t);
    let u = without_fraction_zeros(t);
    let r = trailing_zero_trimmed(t);
    if u.len() > 0 && u.last() == '.' {
        assert(r == u.drop_last());
        assert(r =~= t.subrange(0, r.len() as int));
        assert forall|i: int| r.len() <= i < t.len() implies #[trigger] t[i] == '0' || t[i] == '.' by {
            if i == r.len() {
                assert(t[i] == u[i]);
            }
        }
        if r.contains('.') {
            let k = choose|k: int| 0 <= k < r.len() && r[k] == '.';
            assert(t[k] == '.');
            assert(t[u.len() - 1] == '.');
        }
    } else {
        assert(r == u);
        if r.contains('.') {
            assert(u.len() > 0);
        }
    }
}

} // verus!
