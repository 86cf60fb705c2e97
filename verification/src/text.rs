//! Character-level helpers for the text values that the answer-file rules
//! produce: literal substring replacement and decimal rendering.

use vstd::prelude::*;

verus! {

/// `String::push` appends exactly one character to the end of the string.
pub assume_specification[ String::push ](s: &mut String, c: char)
    ensures
        final(s)@ == old(s)@.push(c),
;

/// `pat` occurs in `s` starting at position `at`.
pub open spec fn occurs_at(s: Seq<char>, pat: Seq<char>, at: int) -> bool {
    &&& 0 <= at
    &&& at + pat.len() <= s.len()
    &&& s.subrange(at, at + pat.len()) == pat
}

/// `pat` occurs somewhere in `s`.
pub open spec fn contains(s: Seq<char>, pat: Seq<char>) -> bool {
    exists|at: int| occurs_at(s, pat, at)
}

/// `s` with every occurrence of `pat` replaced by `with`, scanning from the
/// left and resuming after each replaced occurrence, so that occurrences
/// never overlap. An empty `pat` replaces nothing.
pub open spec fn replace_all(s: Seq<char>, pat: Seq<char>, with: Seq<char>) -> Seq<char>
    decreases s.len(),
{
    if pat.len() == 0 || s.len() < pat.len() {
        s
    } else if s.subrange(0, pat.len() as int) == pat {
        with + replace_all(s.subrange(pat.len() as int, s.len() as int), pat, with)
    } else {
        seq![s[0]] + replace_all(s.subrange(1, s.len() as int), pat, with)
    }
}

/// The character that stands for the decimal digit `d`.
pub open spec fn digit_char(d: int) -> char {
    if d == 0 {
        '0'
    } else if d == 1 {
        '1'
    } else if d == 2 {
        '2'
    } else if d == 3 {
        '3'
    } else if d == 4 {
        '4'
    } else if d == 5 {
        '5'
    } else if d == 6 {
        '6'
    } else if d == 7 {
        '7'
    } else if d == 8 {
        '8'
    } else {
        '9'
    }
}

/// The decimal numeral of `n`, without sign or leading zeros.
pub open spec fn decimal(n: nat) -> Seq<char>
    decreases n,
{
    if n < 10 {
        seq![digit_char(n as int)]
    } else {
        decimal(n / 10).push(digit_char((n % 10) as int))
    }
}

/// A text without the pattern is left as it is.
pub proof fn lemma_replace_all_without_pattern(s: Seq<char>, pat: Seq<char>, with: Seq<char>)
    requires
        !contains(s, pat),
    ensures
        replace_all(s, pat, with) == s,
    decreases s.len(),
{
    if pat.len() == 0 || s.len() < pat.len() {
    } else {
        assert(!occurs_at(s, pat, 0));
        let rest = s.subrange(1, s.len() as int);
        assert(!contains(rest, pat)) by {
            if contains(rest, pat) {
                let at = choose|at: int| occurs_at(rest, pat, at);
                assert(rest.subrange(at, at + pat.len()) == s.subrange(at + 1, at + 1 + pat.len()));
                assert(occurs_at(s, pat, at + 1));
            }
        }
        lemma_replace_all_without_pattern(rest, pat, with);
        assert(seq![s[0]] + rest == s);
    }
}

/// Replacing a pattern by itself changes nothing.
pub proof fn lemma_replace_all_by_itself(s: Seq<char>, pat: Seq<char>)
    ensures
        replace_all(s, pat, pat) == s,
    decreases s.len(),
{
    if pat.len() == 0 || s.len() < pat.len() {
    } else if s.subrange(0, pat.len() as int) == pat {
        let rest = s.subrange(pat.len() as int, s.len() as int);
        lemma_replace_all_by_itself(rest, pat);
        assert(s.subrange(0, pat.len() as int) + rest == s);
    } else {
        let rest = s.subrange(1, s.len() as int);
        lemma_replace_all_by_itself(rest, pat);
        assert(seq![s[0]] + rest == s);
    }
}

/// The characters of `s`, in order.
pub fn to_chars(s: &str) -> (out: Vec<char>)
    ensures
        out@ == s@,
{
    let mut out: Vec<char> = Vec::new();
    for c in it: s.chars()
        invariant
            out@ == it.seq().take(it.index() as int),
            it.seq() == s@,
    {
        out.push(c);
    }
    out
}

/// The string made of the characters of `chars`, in order.
pub fn from_chars(chars: &Vec<char>) -> (out: String)
    ensures
        out@ == chars@,
{
    let mut out = String::new();
    let mut i: usize = 0;
    while i < chars.len()
        invariant
            i <= chars.len(),
            out@ == chars@.take(i as int),
        decreases chars.len() - i,
    {
        out.push(chars[i]);
        assert(chars@.take(i + 1) =~= chars@.take(i as int).push(chars@[i as int]));
        i += 1;
    }
    assert(chars@.take(chars.len() as int) =~= chars@);
    out
}

/// Tells whether `pat` occurs in `s` at position `at`.
pub(crate) fn matches_at(s: &Vec<char>, pat: &Vec<char>, at: usize) -> (found: bool)
    requires
        at <= s.len(),
    ensures
        found == occurs_at(s@, pat@, at as int),
{
    if pat.len() > s.len() - at {
        return false;
    }
    let mut k: usize = 0;
    while k < pat.len()
        invariant
            k <= pat.len(),
            at + pat.len() <= s.len(),
            forall|j: int| 0 <= j < k ==> s@[at + j] == pat@[j],
        decreases pat.len() - k,
    {
        if s[at + k] != pat[k] {
            assert(s@.subrange(at as int, at + pat.len())[k as int] != pat@[k as int]);
            return false;
        }
        k += 1;
    }
    assert(s@.subrange(at as int, at + pat.len()) =~= pat@);
    true
}

/// Replaces every occurrence of `pat` in `s` by `with`, from the left and
/// without overlap. An empty `pat` leaves `s` as it is.
pub fn replace_all_in(s: &str, pat: &str, with: &str) -> (out: String)
    ensures
        out@ == replace_all(s@, pat@, with@),
{
    let text = to_chars(s);
    let pattern = to_chars(pat);
    let mut out = String::new();
    let mut i: usize = 0;
    proof {
        assert(text@.subrange(0, text.len() as int) =~= text@);
        assert(out@ + replace_all(text@, pattern@, with@) =~= replace_all(text@, pattern@, with@));
    }
    while i < text.len()
        invariant
            i <= text.len(),
            text@ == s@,
            pattern@ == pat@,
            out@ + replace_all(text@.subrange(i as int, text.len() as int), pattern@, with@)
                == replace_all(text@, pattern@, with@),
        decreases text.len() - i,
    {
        let ghost rest = text@.subrange(i as int, text.len() as int);
        if pattern.len() > 0 && matches_at(&text, &pattern, i) {
            proof {
                assert(rest.subrange(0, pattern.len() as int) =~= text@.subrange(
                    i as int,
                    i + pattern.len(),
                ));
                assert(rest.subrange(pattern.len() as int, rest.len() as int) =~= text@.subrange(
                    i + pattern.len(),
                    text.len() as int,
                ));
                assert((out@ + with@) + replace_all(
                    text@.subrange(i + pattern.len(), text.len() as int),
                    pattern@,
                    with@,
                ) =~= out@ + replace_all(rest, pattern@, with@));
            }
            out.append(with);
            i += pattern.len();
        } else {
            proof {
                if pattern.len() > 0 && rest.len() >= pattern.len() {
                    assert(rest.subrange(0, pattern.len() as int) =~= text@.subrange(
                        i as int,
                        i + pattern.len(),
                    ));
                }
                assert(rest.subrange(1, rest.len() as int) =~= text@.subrange(
                    i + 1,
                    text.len() as int,
                ));
                assert(out@.push(text@[i as int]) + replace_all(
                    text@.subrange(i + 1, text.len() as int),
                    pattern@,
                    with@,
                ) =~= out@ + replace_all(rest, pattern@, with@));
            }
            out.push(text[i]);
            i += 1;
        }
    }
    proof {
        assert(text@.subrange(text.len() as int, text.len() as int) =~= Seq::<char>::empty());
        assert(out@ + Seq::<char>::empty() =~= out@);
    }
    out
}

/// The character of one decimal digit.
fn digit_of(d: u64) -> (c: char)
    requires
        d < 10,
    ensures
        c == digit_char(d as int),
{
    if d == 0 {
        '0'
    } else if d == 1 {
        '1'
    } else if d == 2 {
        '2'
    } else if d == 3 {
        '3'
    } else if d == 4 {
        '4'
    } else if d == 5 {
        '5'
    } else if d == 6 {
        '6'
    } else if d == 7 {
        '7'
    } else if d == 8 {
        '8'
    } else {
        '9'
    }
}

/// The decimal numeral of `n`.
pub fn decimal_string(n: u64) -> (out: String)
    ensures
        out@ == decimal(n as nat),
{
    // Digits from the least significant one up; the leading digit stays in `m`.
    let mut low: Vec<char> = Vec::new();
    let mut m: u64 = n;
    while m >= 10
        invariant
            decimal(n as nat) == decimal(m as nat) + low@.reverse(),
        decreases m,
    {
        let c = digit_of(m % 10);
        proof {
            assert(decimal(m as nat) == decimal((m / 10) as nat).push(c));
            assert(low@.push(c).reverse() =~= seq![c] + low@.reverse());
            assert(decimal((m / 10) as nat).push(c) + low@.reverse() =~= decimal((m / 10) as nat)
                + (seq![c] + low@.reverse()));
        }
        low.push(c);
        m = m / 10;
    }
    let mut out = String::new();
    out.push(digit_of(m));
    let mut k: usize = low.len();
    while k > 0
        invariant
            k <= low.len(),
            out@ == decimal(m as nat) + low@.reverse().take(low.len() - k),
        decreases k,
    {
        k -= 1;
        proof {
            let r = low@.reverse();
            assert(r.take(low.len() - k) =~= r.take(low.len() - k - 1).push(low@[k as int]));
            assert(decimal(m as nat) + r.take(low.len() - k - 1).push(low@[k as int]) =~= (
            decimal(m as nat) + r.take(low.len() - k - 1)).push(low@[k as int]));
        }
        out.push(low[k]);
    }
    proof {
        assert(low@.reverse().take(low.len() as int) =~= low@.reverse());
    }
    out
}

/// Whether `c` is one of the digits `0` to `9`.
pub open spec fn is_digit(c: char) -> bool {
    0x30 <= c as u32 <= 0x39
}

/// Whether `s` is made of digits only.
pub open spec fn all_digits(s: Seq<char>) -> bool {
    forall|i: int| 0 <= i < s.len() ==> is_digit(#[trigger] s[i])
}

/// The number that the digits `s` write in decimal.
pub open spec fn digits_value(s: Seq<char>) -> nat
    decreases s.len(),
{
    if s.len() == 0 {
        0
    } else {
        (digits_value(s.drop_last()) * 10 + (s.last() as u32 - 0x30)) as nat
    }
}

/// The number that `s` writes, as `u64::from_str` reads it: one or more
/// digits, with a plus sign before them if one likes, and a value that fits.
pub open spec fn parsed_u64(s: Seq<char>) -> Option<u64> {
    let body = if s.len() > 0 && s[0] == '+' {
        s.drop_first()
    } else {
        s
    };
    if body.len() == 0 || !all_digits(body) || digits_value(body) > u64::MAX {
        None
    } else {
        Some(digits_value(body) as u64)
    }
}

/// More digits do not write a smaller number.
proof fn lemma_digits_value_grows(s: Seq<char>, n: int)
    requires
        all_digits(s),
        0 <= n <= s.len(),
    ensures
        digits_value(s.take(n)) <= digits_value(s),
    decreases s.len() - n,
{
    if n < s.len() {
        lemma_digits_value_grows(s, n + 1);
        assert(s.take(n + 1).drop_last() =~= s.take(n));
        assert(is_digit(s[n]));
    } else {
        assert(s.take(n) =~= s);
    }
}

/// Reads `s` as a number in decimal, or returns `None` if `s` does not
/// write one that fits.
pub fn parse_u64(s: &str) -> (value: Option<u64>)
    ensures
        value == parsed_u64(s@),
{
    let text = to_chars(s);
    let first: usize = if text.len() > 0 && text[0] == '+' {
        1
    } else {
        0
    };
    let ghost body = text@.subrange(first as int, text.len() as int);
    assert(body =~= if s@.len() > 0 && s@[0] == '+' {
        s@.drop_first()
    } else {
        s@
    });
    if first == text.len() {
        return None;
    }
    let mut total: u64 = 0;
    let mut i: usize = first;
    assert(body.take(0) =~= Seq::<char>::empty());
    while i < text.len()
        invariant
            first <= i <= text.len(),
            body == text@.subrange(first as int, text.len() as int),
            body == (if s@.len() > 0 && s@[0] == '+' {
                s@.drop_first()
            } else {
                s@
            }),
            all_digits(body.take(i - first)),
            total == digits_value(body.take(i - first)),
        decreases text.len() - i,
    {
        let c = text[i];
        let code: u32 = c as u32;
        let ghost seen = body.take(i - first);
        let ghost more = body.take(i - first + 1);
        proof {
            assert(more.drop_last() =~= seen);
            assert(more.last() == c);
        }
        if !(0x30 <= code && code <= 0x39) {
            assert(!is_digit(body[i - first]));
            return None;
        }
        assert(all_digits(more)) by {
            assert forall|j: int| 0 <= j < more.len() implies is_digit(#[trigger] more[j]) by {
                if j < seen.len() {
                    assert(more[j] == seen[j]);
                }
            }
        }
        let digit: u64 = (code - 0x30) as u64;
        let next = match total.checked_mul(10) {
            Some(tens) => tens.checked_add(digit),
            None => None,
        };
        match next {
            Some(next) => {
                total = next;
            },
            None => {
                proof {
                    assert(digits_value(more) > u64::MAX);
                    if all_digits(body) {
                        lemma_digits_value_grows(body, i - first + 1);
                    }
                }
                return None;
            },
        }
        i += 1;
    }
    assert(body.take(text.len() - first) =~= body);
    Some(total)
}

/// Whether `c` is white space, by Unicode's `White_Space` property.
pub open spec fn is_space(c: char) -> bool {
    let code = c as u32;
    ||| 0x09 <= code <= 0x0d
    ||| code == 0x20
    ||| code == 0x85
    ||| code == 0xa0
    ||| code == 0x1680
    ||| 0x2000 <= code <= 0x200a
    ||| code == 0x2028
    ||| code == 0x2029
    ||| code == 0x202f
    ||| code == 0x205f
    ||| code == 0x3000
}

/// Tells whether `c` is white space.
pub fn is_space_char(c: char) -> (space: bool)
    ensures
        space == is_space(c),
{
    let code: u32 = c as u32;
    (0x09 <= code && code <= 0x0d) || code == 0x20 || code == 0x85 || code == 0xa0 || code
        == 0x1680 || (0x2000 <= code && code <= 0x200a) || code == 0x2028 || code == 0x2029
        || code == 0x202f || code == 0x205f || code == 0x3000
}

/// The characters of `s` from `from` up to `to`.
pub fn copy_range(s: &Vec<char>, from: usize, to: usize) -> (out: Vec<char>)
    requires
        from <= to <= s.len(),
    ensures
        out@ == s@.subrange(from as int, to as int),
{
    let mut out: Vec<char> = Vec::new();
    let mut i: usize = from;
    while i < to
        invariant
            from <= i <= to <= s.len(),
            out@ == s@.subrange(from as int, i as int),
        decreases to - i,
    {
        out.push(s[i]);
        assert(s@.subrange(from as int, i + 1) =~= s@.subrange(from as int, i as int).push(
            s@[i as int],
        ));
        i += 1;
    }
    out
}

/// `s` begins with `prefix`.
pub open spec fn starts_with(s: Seq<char>, prefix: Seq<char>) -> bool {
    occurs_at(s, prefix, 0)
}

/// `s` ends with `suffix`.
pub open spec fn ends_with(s: Seq<char>, suffix: Seq<char>) -> bool {
    occurs_at(s, suffix, s.len() - suffix.len())
}

/// `s` without the white space at its end.
pub open spec fn trimmed_end(s: Seq<char>) -> Seq<char>
    decreases s.len(),
{
    if s.len() > 0 && is_space(s.last()) {
        trimmed_end(s.drop_last())
    } else {
        s
    }
}

/// The length of `s` without the white space at its end.
pub fn trimmed_end_len(s: &Vec<char>) -> (len: usize)
    ensures
        len <= s.len(),
        s@.take(len as int) == trimmed_end(s@),
{
    let mut len: usize = s.len();
    assert(s@.take(len as int) =~= s@);
    while len > 0 && is_space_char(s[len - 1])
        invariant
            len <= s.len(),
            trimmed_end(s@.take(len as int)) == trimmed_end(s@),
        decreases len,
    {
        assert(s@.take(len as int).drop_last() =~= s@.take(len - 1));
        len -= 1;
    }
    len
}

} // verus!
