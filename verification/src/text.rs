use vstd::prelude::*;

verus! {

/// The characters of `s`, in order.
pub fn chars_of(s: &str) -> (res: Vec<char>)
    ensures
        res@ == s@,
{
    let mut it = s.chars();
    let mut res: Vec<char> = Vec::new();
    loop
        invariant
            res@ + vstd::std_specs::iter::IteratorSpec::remaining(&it) == s@,
            vstd::std_specs::iter::IteratorSpec::decrease(&it) is Some,
        decreases vstd::std_specs::iter::IteratorSpec::decrease(&it)->0,
    {
        match it.next() {
            Some(c) => {
                res.push(c);
            },
            None => {
                return res;
            },
        }
    }
}

/// `needle` occurs in `hay` starting at position `i`.
pub open spec fn occurs_at(hay: Seq<char>, needle: Seq<char>, i: int) -> bool {
    0 <= i && i + needle.len() <= hay.len() && hay.subrange(i, i + needle.len()) == needle
}

/// `needle` occurs somewhere in `hay`.
pub open spec fn contains_text(hay: Seq<char>, needle: Seq<char>) -> bool {
    exists|i: int| occurs_at(hay, needle, i)
}

/// Whether `needle` occurs in `hay` at `i`, with `i + needle.len() <= hay.len()`.
fn matches_at(hay: &Vec<char>, needle: &Vec<char>, i: usize) -> (res: bool)
    requires
        i + needle.len() <= hay.len(),
    ensures
        res == occurs_at(hay@, needle@, i as int),
{
    let n = needle.len();
    let mut j: usize = 0;
    while j < n
        invariant
            j <= n,
            n == needle.len(),
            i + n <= hay.len(),
            forall|k: int| 0 <= k < j ==> hay@[i + k] == needle@[k],
        decreases n - j,
    {
        if hay[i + j] != needle[j] {
            assert(hay@.subrange(i as int, i + n)[j as int] != needle@[j as int]);
            return false;
        }
        j = j + 1;
    }
    assert(hay@.subrange(i as int, i + n) =~= needle@);
    true
}

/// `s` begins with `prefix`.
pub open spec fn starts_with_text(s: Seq<char>, prefix: Seq<char>) -> bool {
    occurs_at(s, prefix, 0)
}

/// Whether `s` begins with `prefix`, as `str::starts_with` answers it.
pub fn starts_with(s: &str, prefix: &str) -> (res: bool)
    ensures
        res == starts_with_text(s@, prefix@),
{
    let h = chars_of(s);
    let p = chars_of(prefix);
    if p.len() > h.len() {
        return false;
    }
    matches_at(&h, &p, 0)
}

/// Whether `needle` occurs in `hay`, as `str::contains` answers it.
pub fn contains(hay: &str, needle: &str) -> (res: bool)
    ensures
        res == contains_text(hay@, needle@),
{
    let h = chars_of(hay);
    let n = chars_of(needle);
    if n.len() == 0 {
        assert(occurs_at(hay@, needle@, 0)) by {
            assert(hay@.subrange(0, 0) =~= needle@);
        }
        return true;
    }
    if n.len() > h.len() {
        assert forall|i: int| !occurs_at(hay@, needle@, i) by {}
        return false;
    }
    let last = h.len() - n.len();
    let mut i: usize = 0;
    while i <= last
        invariant
            last == h.len() - n.len(),
            h@ == hay@,
            n@ == needle@,
            1 <= n.len() <= h.len(),
            forall|k: int| 0 <= k < i ==> !occurs_at(hay@, needle@, k),
        decreases last + 1 - i,
    {
        if matches_at(&h, &n, i) {
            return true;
        }
        i = i + 1;
    }
    assert forall|k: int| !occurs_at(hay@, needle@, k) by {
        if 0 <= k && k + needle@.len() <= hay@.len() {
            assert(k < i);
        }
    }
    false
}

/// `c` is white space in the sense of `char::is_whitespace`: it has the
/// Unicode `White_Space` property.
pub open spec fn is_white_space(c: char) -> bool {
    let u = c as u32;
    ||| 0x9 <= u <= 0xd
    ||| u == 0x20
    ||| u == 0x85
    ||| u == 0xa0
    ||| u == 0x1680
    ||| 0x2000 <= u <= 0x200a
    ||| u == 0x2028
    ||| u == 0x2029
    ||| u == 0x202f
    ||| u == 0x205f
    ||| u == 0x3000
}

/// `s` without its leading white space.
pub open spec fn trim_start_text(s: Seq<char>) -> Seq<char>
    decreases s.len(),
{
    if s.len() > 0 && is_white_space(s[0]) {
        trim_start_text(s.drop_first())
    } else {
        s
    }
}

/// `s` without its trailing white space.
pub open spec fn trim_end_text(s: Seq<char>) -> Seq<char>
    decreases s.len(),
{
    if s.len() > 0 && is_white_space(s.last()) {
        trim_end_text(s.drop_last())
    } else {
        s
    }
}

/// `s` without leading and trailing white space, as `str::trim` gives it.
pub open spec fn trimmed(s: Seq<char>) -> Seq<char> {
    trim_end_text(trim_start_text(s))
}

/// Whether `c` is white space, decided by its code point.
pub fn is_white_space_char(c: char) -> (res: bool)
    ensures
        res == is_white_space(c),
{
    let u = c as u32;
    (0x9 <= u && u <= 0xd) || u == 0x20 || u == 0x85 || u == 0xa0 || u == 0x1680 || (0x2000 <= u
        && u <= 0x200a) || u == 0x2028 || u == 0x2029 || u == 0x202f || u == 0x205f || u == 0x3000
}

proof fn lemma_trim_start(s: Seq<char>, i: int)
    requires
        0 <= i <= s.len(),
        forall|k: int| 0 <= k < i ==> is_white_space(#[trigger] s[k]),
        i == s.len() || !is_white_space(s[i]),
    ensures
        trim_start_text(s) == s.subrange(i, s.len() as int),
    decreases i,
{
    if i == 0 {
        assert(s.subrange(0, s.len() as int) =~= s);
    } else {
        let t = s.drop_first();
        assert forall|k: int| 0 <= k < i - 1 implies is_white_space(#[trigger] t[k]) by {
            assert(t[k] == s[k + 1]);
        }
        lemma_trim_start(t, i - 1);
        assert(t.subrange(i - 1, t.len() as int) =~= s.subrange(i, s.len() as int));
    }
}

proof fn lemma_trim_end(s: Seq<char>, e: int)
    requires
        0 <= e <= s.len(),
        forall|k: int| e <= k < s.len() ==> is_white_space(#[trigger] s[k]),
        e == 0 || !is_white_space(s[e - 1]),
    ensures
        trim_end_text(s) == s.subrange(0, e),
    decreases s.len() - e,
{
    if e == s.len() {
        assert(s.subrange(0, e) =~= s);
    } else {
        let t = s.drop_last();
        assert forall|k: int| e <= k < t.len() implies is_white_space(#[trigger] t[k]) by {
            assert(t[k] == s[k]);
        }
        lemma_trim_end(t, e);
        assert(t.subrange(0, e) =~= s.subrange(0, e));
    }
}

/// The bounds `(start, end)` of `trimmed(v@)` inside `v`.
pub fn trim_bounds(v: &Vec<char>) -> (res: (usize, usize))
    ensures
        res.0 <= res.1 <= v.len(),
        trimmed(v@) == v@.subrange(res.0 as int, res.1 as int),
{
    let len = v.len();
    let mut start: usize = 0;
    while start < len && is_white_space_char(v[start])
        invariant
            start <= len,
            len == v.len(),
            forall|k: int| 0 <= k < start ==> is_white_space(#[trigger] v@[k]),
        decreases len - start,
    {
        start = start + 1;
    }
    let mut end: usize = len;
    while end > start && is_white_space_char(v[end - 1])
        invariant
            start <= end <= len,
            len == v.len(),
            forall|k: int| end <= k < len ==> is_white_space(#[trigger] v@[k]),
        decreases end - start,
    {
        end = end - 1;
    }
    proof {
        lemma_trim_start(v@, start as int);
        let t = v@.subrange(start as int, len as int);
        assert forall|k: int| (end - start) <= k < t.len() implies is_white_space(#[trigger] t[k]) by {
            assert(t[k] == v@[start + k]);
        }
        lemma_trim_end(t, end - start);
        assert(t.subrange(0, end - start) =~= v@.subrange(start as int, end as int));
    }
    (start, end)
}

/// `c` is an ASCII decimal digit.
pub open spec fn is_digit(c: char) -> bool {
    '0' <= c <= '9'
}

/// The value of the ASCII digit `c`.
pub open spec fn digit_value(c: char) -> int {
    (c as u32) - ('0' as u32)
}

/// The value of a string of decimal digits, most significant first.
pub open spec fn digits_value(d: Seq<char>) -> int
    decreases d.len(),
{
    if d.len() == 0 {
        0
    } else {
        digits_value(d.drop_last()) * 10 + digit_value(d.last())
    }
}

/// Every character of `d` is a decimal digit.
pub open spec fn all_digits(d: Seq<char>) -> bool {
    forall|i: int| 0 <= i < d.len() ==> is_digit(#[trigger] d[i])
}

/// The digits of an unsigned number: an optional leading `+` is skipped.
pub open spec fn unsigned_digits(s: Seq<char>) -> Seq<char> {
    if s.len() > 0 && s[0] == '+' {
        s.drop_first()
    } else {
        s
    }
}

/// What `s.parse::<u32>()` gives: an optional `+`, then at least one
/// decimal digit and nothing else, with a value that fits in a `u32`.
pub open spec fn parse_u32_text(s: Seq<char>) -> Option<u32> {
    let d = unsigned_digits(s);
    if d.len() > 0 && all_digits(d) && digits_value(d) <= u32::MAX {
        Some(digits_value(d) as u32)
    } else {
        None
    }
}

proof fn lemma_digits_value_nonneg(d: Seq<char>)
    requires
        all_digits(d),
    ensures
        digits_value(d) >= 0,
    decreases d.len(),
{
    if d.len() > 0 {
        assert(all_digits(d.drop_last())) by {
            assert forall|i: int| 0 <= i < d.drop_last().len() implies is_digit(
                #[trigger] d.drop_last()[i],
            ) by {
                assert(d.drop_last()[i] == d[i]);
            }
        }
        lemma_digits_value_nonneg(d.drop_last());
        assert(is_digit(d[d.len() - 1]));
    }
}

proof fn lemma_digits_value_prefix(d: Seq<char>, k: int)
    requires
        all_digits(d),
        0 <= k <= d.len(),
    ensures
        digits_value(d.take(k)) <= digits_value(d),
    decreases d.len(),
{
    if k == d.len() {
        assert(d.take(k) =~= d);
    } else {
        let p = d.drop_last();
        assert(all_digits(p)) by {
            assert forall|i: int| 0 <= i < p.len() implies is_digit(#[trigger] p[i]) by {
                assert(p[i] == d[i]);
            }
        }
        lemma_digits_value_prefix(p, k);
        assert(p.take(k) =~= d.take(k));
        lemma_digits_value_nonneg(p);
        assert(is_digit(d[d.len() - 1]));
    }
}

/// The count that `s.trim().parse::<u32>()` reads from the characters
/// `v[start..end]` after trimming; `None` where it fails.
fn parse_u32_chars(v: &Vec<char>, start: usize, end: usize) -> (res: Option<u32>)
    requires
        start <= end <= v.len(),
    ensures
        res == parse_u32_text(v@.subrange(start as int, end as int)),
{
    let ghost s = v@.subrange(start as int, end as int);
    let mut i = start;
    if i < end && v[i] == '+' {
        i = i + 1;
    }
    let ghost d = v@.subrange(i as int, end as int);
    assert(unsigned_digits(s) =~= d);
    if i == end {
        return None;
    }
    let first = i;
    let mut acc: u64 = 0;
    while i < end
        invariant
            first <= i <= end <= v.len(),
            d == v@.subrange(first as int, end as int),
            s == v@.subrange(start as int, end as int),
            unsigned_digits(s) == d,
            acc <= u32::MAX,
            all_digits(d.take(i - first)),
            acc == digits_value(d.take(i - first)),
        decreases end - i,
    {
        let c = v[i];
        if !('0' <= c && c <= '9') {
            assert(d[i - first] == c);
            assert(!all_digits(d));
            return None;
        }
        let digit = ((c as u32) - ('0' as u32)) as u64;
        let ghost k = i - first;
        assert(d.take(k + 1).drop_last() =~= d.take(k));
        assert(d.take(k + 1).last() == c);
        acc = acc * 10 + digit;
        i = i + 1;
        assert(acc == digits_value(d.take(i - first)));
        assert(all_digits(d.take(i - first))) by {
            assert forall|j: int| 0 <= j < d.take(k + 1).len() implies is_digit(
                #[trigger] d.take(k + 1)[j],
            ) by {
                if j < k {
                    assert(d.take(k + 1)[j] == d.take(k)[j]);
                }
            }
        }
        if acc > 0xffff_ffff {
            proof {
                if all_digits(d) {
                    lemma_digits_value_prefix(d, i - first);
                }
            }
            return None;
        }
    }
    assert(d.take(end - first) =~= d);
    Some(acc as u32)
}

/// The count typed on a line: what `line.trim().parse::<u32>()` gives,
/// `None` where that fails.
pub fn parse_count(line: &str) -> (res: Option<u32>)
    ensures
        res == parse_u32_text(trimmed(line@)),
{
    let v = chars_of(line);
    let (start, end) = trim_bounds(&v);
    parse_u32_chars(&v, start, end)
}


/// The decimal digit for `d`, for `0 <= d < 10`.
pub open spec fn digit_char(d: int) -> char {
    if d == 0 {
        '0'
    } else if d == 1 {
        '1'
    } else if d == 2 {
        '2'
    } else if d == 3 {
        '3'
    } else if d == 4 {
        '4'
    } else if d == 5 {
        '5'
    } else if d == 6 {
        '6'
    } else if d == 7 {
        '7'
    } else if d == 8 {
        '8'
    } else {
        '9'
    }
}

/// The decimal form of `n`, with no leading zero.
pub open spec fn decimal_text(n: nat) -> Seq<char>
    decreases n,
{
    if n < 10 {
        seq![digit_char(n as int)]
    } else {
        decimal_text(n / 10).push(digit_char((n % 10) as int))
    }
}

/// The decimal form of a signed number, as `i64::to_string` writes it: a
/// `-` before the digits of a negative number.
pub open spec fn integer_text(n: int) -> Seq<char> {
    if n < 0 {
        seq!['-'] + decimal_text((-n) as nat)
    } else {
        decimal_text(n as nat)
    }
}

/// Appends `c` to `s`.
///
/// Calls `String::push`, which appends one character to the string.
#[verifier::external_body]
fn push_char(s: &mut String, c: char)
    ensures
        final(s)@ == old(s)@.push(c),
{
    s.push(c);
}

fn digit_char_of(d: u64) -> (c: char)
    requires
        d < 10,
    ensures
        c == digit_char(d as int),
{
    if d == 0 {
        '0'
    } else if d == 1 {
        '1'
    } else if d == 2 {
        '2'
    } else if d == 3 {
        '3'
    } else if d == 4 {
        '4'
    } else if d == 5 {
        '5'
    } else if d == 6 {
        '6'
    } else if d == 7 {
        '7'
    } else if d == 8 {
        '8'
    } else {
        '9'
    }
}

fn push_decimal(s: &mut String, n: u64)
    ensures
        final(s)@ == old(s)@ + decimal_text(n as nat),
    decreases n,
{
    if n >= 10 {
        push_decimal(s, n / 10);
    }
    push_char(s, digit_char_of(n % 10));
    assert(s@ =~= old(s)@ + decimal_text(n as nat));
}

/// `n` in decimal, as `n.to_string()` writes an `i64`.
pub fn integer_to_text(n: i64) -> (res: String)
    ensures
        res@ == integer_text(n as int),
{
    let mut s = String::new();
    if n < 0 {
        push_char(&mut s, '-');
        let magnitude: u64 = if n == i64::MIN {
            0x8000_0000_0000_0000u64
        } else {
            (0 - n) as u64
        };
        push_decimal(&mut s, magnitude);
        assert(s@ =~= integer_text(n as int));
    } else {
        push_decimal(&mut s, n as u64);
        assert(s@ =~= integer_text(n as int));
    }
    s
}

/// `b` as `bool::to_string` writes it.
pub open spec fn bool_text(b: bool) -> Seq<char> {
    if b {
        seq!['t', 'r', 'u', 'e']
    } else {
        seq!['f', 'a', 'l', 's', 'e']
    }
}

/// `b` as text: `true` or `false`.
pub fn bool_to_text(b: bool) -> (res: String)
    ensures
        res@ == bool_text(b),
{
    let mut s = String::new();
    if b {
        push_char(&mut s, 't');
        push_char(&mut s, 'r');
        push_char(&mut s, 'u');
        push_char(&mut s, 'e');
    } else {
        push_char(&mut s, 'f');
        push_char(&mut s, 'a');
        push_char(&mut s, 'l');
        push_char(&mut s, 's');
        push_char(&mut s, 'e');
    }
    assert(s@ =~= bool_text(b));
    s
}

proof fn lemma_digit_char(d: int)
    requires
        0 <= d < 10,
    ensures
        is_digit(digit_char(d)),
        digit_value(digit_char(d)) == d,
{
}

proof fn lemma_decimal_digits(n: nat)
    ensures
        decimal_text(n).len() > 0,
        all_digits(decimal_text(n)),
        digits_value(decimal_text(n)) == n,
    decreases n,
{
    let t = decimal_text(n);
    lemma_digit_char((n % 10) as int);
    if n >= 10 {
        lemma_decimal_digits(n / 10);
        let p = decimal_text(n / 10);
        assert(t.drop_last() =~= p);
        assert(t.last() == digit_char((n % 10) as int));
        assert forall|i: int| 0 <= i < t.len() implies is_digit(#[trigger] t[i]) by {
            if i < p.len() {
                assert(t[i] == p[i]);
            }
        }
        assert(digits_value(t) == digits_value(p) * 10 + digit_value(t.last()));
        assert((n / 10) * 10 + n % 10 == n);
    } else {
        assert(t.drop_last() =~= Seq::<char>::empty());
        assert(t.last() == digit_char((n % 10) as int));
        assert(digits_value(t) == digits_value(t.drop_last()) * 10 + digit_value(t.last()));
    }
}

/// A count written in decimal reads back as the same count: what
/// `parse_count` gives of the text of `n` is `n`.
pub proof fn law_count_text_round_trip(n: u32)
    ensures
        parse_u32_text(trimmed(decimal_text(n as nat))) == Some(n),
{
    let t = decimal_text(n as nat);
    lemma_decimal_digits(n as nat);
    assert(is_digit(t[0]));
    assert(is_digit(t.last()));
    assert(trim_start_text(t) == t);
    assert(trim_end_text(t) == t);
    assert(unsigned_digits(t) == t);
}

} // verus!
