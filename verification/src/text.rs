//! Text as the command line and the web page need it: trimming, prefixes,
//! fields between commas, and numbers in decimal.

use vstd::prelude::*;
use vstd::string::*;

verus! {

/// Whether a character is white space.
pub open spec fn is_space(c: char) -> bool {
    let u = c as u32;
    (0x09 <= u <= 0x0d) || u == 0x20 || u == 0x85 || u == 0xa0 || u == 0x1680 || (0x2000 <= u
        <= 0x200a) || u == 0x2028 || u == 0x2029 || u == 0x202f || u == 0x205f || u == 0x3000
}

/// The text without the white space in front of it.
pub open spec fn trim_start_spec(s: Seq<char>) -> Seq<char>
    decreases s.len(),
{
    if s.len() > 0 && is_space(s[0]) {
        trim_start_spec(s.drop_first())
    } else {
        s
    }
}

/// The text without the white space behind it.
pub open spec fn trim_end_spec(s: Seq<char>) -> Seq<char>
    decreases s.len(),
{
    if s.len() > 0 && is_space(s.last()) {
        trim_end_spec(s.drop_last())
    } else {
        s
    }
}

/// The text without the white space around it.
pub open spec fn trim_spec(s: Seq<char>) -> Seq<char> {
    trim_end_spec(trim_start_spec(s))
}

/// The code of a character, with the small letters of ASCII taken for their
/// capitals.
pub open spec fn fold_case(c: char) -> u32 {
    let u = c as u32;
    if 0x61 <= u <= 0x7a {
        (u - 0x20) as u32
    } else {
        u
    }
}

/// Whether two texts are the same but for the case of ASCII letters.
pub open spec fn eq_ignore_case_spec(a: Seq<char>, b: Seq<char>) -> bool {
    a.len() == b.len() && forall|i: int| 0 <= i < a.len() ==> fold_case(a[i]) == fold_case(b[i])
}

/// Whether `s` begins with `prefix`.
pub open spec fn starts_with_spec(s: Seq<char>, prefix: Seq<char>) -> bool {
    s.len() >= prefix.len() && s.subrange(0, prefix.len() as int) == prefix
}

/// The first place at which `c` stands in `s` from `from` on, or the length
/// of `s`.
pub open spec fn find_char_spec(s: Seq<char>, c: char, from: int) -> int
    decreases s.len() - from,
{
    if from >= s.len() {
        s.len() as int
    } else if s[from] == c {
        from
    } else {
        find_char_spec(s, c, from + 1)
    }
}

/// The digit of a number below ten.
pub open spec fn digit_char(d: nat) -> char
    recommends
        d < 10,
{
    (0x30 + d) as char
}

/// A number in decimal, without leading zeros.
pub open spec fn decimal_text(n: nat) -> Seq<char>
    decreases n,
{
    if n < 10 {
        seq![digit_char(n)]
    } else {
        decimal_text(n / 10).push(digit_char(n % 10))
    }
}

/// Whether a character is a decimal digit.
pub open spec fn is_digit(c: char) -> bool {
    0x30 <= c as u32 <= 0x39
}

/// The number that a run of digits stands for.
pub open spec fn digits_value(s: Seq<char>) -> nat
    decreases s.len(),
{
    if s.len() == 0 {
        0
    } else {
        digits_value(s.drop_last()) * 10 + (s.last() as u32 - 0x30) as nat
    }
}

/// Whether every character is a decimal digit.
pub open spec fn all_digits(s: Seq<char>) -> bool {
    forall|i: int| 0 <= i < s.len() ==> is_digit(#[trigger] s[i])
}

/// The number that a text stands for: an optional `+`, then digits only and
/// one at least, and no more than `max` in value.
pub open spec fn parse_number_spec(s: Seq<char>, max: nat) -> Option<nat> {
    let digits = if s.len() > 0 && s[0] == '+' {
        s.drop_first()
    } else {
        s
    };
    if digits.len() > 0 && all_digits(digits) && digits_value(digits) <= max {
        Some(digits_value(digits))
    } else {
        None
    }
}

/// Tells white space from the rest.
pub fn char_is_space(c: char) -> (b: bool)
    ensures
        b == is_space(c),
{
    let u: u32 = c as u32;
    (0x09 <= u && u <= 0x0d) || u == 0x20 || u == 0x85 || u == 0xa0 || u == 0x1680 || (0x2000 <= u
        && u <= 0x200a) || u == 0x2028 || u == 0x2029 || u == 0x202f || u == 0x205f || u == 0x3000
}

/// The code of a character with small ASCII letters taken for capitals.
pub fn char_fold_case(c: char) -> (u: u32)
    ensures
        u == fold_case(c),
{
    let u: u32 = c as u32;
    if 0x61 <= u && u <= 0x7a {
        u - 0x20
    } else {
        u
    }
}

/// White space in front of a text can be dropped one character at a time.
pub proof fn lemma_trim_start_skip(s: Seq<char>, i: int)
    requires
        0 <= i <= s.len(),
        forall|j: int| 0 <= j < i ==> is_space(s[j]),
    ensures
        trim_start_spec(s) == trim_start_spec(s.skip(i)),
    decreases i,
{
    if i == 0 {
        assert(s.skip(0) =~= s);
    } else {
        lemma_trim_start_skip(s, i - 1);
        let t = s.skip(i - 1);
        assert(t[0] == s[i - 1]);
        assert(t.drop_first() =~= s.skip(i));
    }
}

/// White space behind a text can be dropped one character at a time.
pub proof fn lemma_trim_end_take(s: Seq<char>, j: int)
    requires
        0 <= j <= s.len(),
        forall|k: int| j <= k < s.len() ==> is_space(s[k]),
    ensures
        trim_end_spec(s) == trim_end_spec(s.take(j)),
    decreases s.len() - j,
{
    if j == s.len() {
        assert(s.take(j) =~= s);
    } else {
        assert(is_space(s.last()));
        lemma_trim_end_take(s.drop_last(), j);
        assert(s.drop_last().take(j) =~= s.take(j));
    }
}

/// The text without the white space around it.
pub fn trim(s: &str) -> (t: &str)
    ensures
        t@ == trim_spec(s@),
{
    let n: usize = s.unicode_len();
    let mut i: usize = 0;
    while i < n && char_is_space(s.get_char(i))
        invariant
            n == s@.len(),
            i <= n,
            forall|j: int| 0 <= j < i ==> is_space(s@[j]),
        decreases n - i,
    {
        i += 1;
    }
    let mut j: usize = n;
    while j > i && char_is_space(s.get_char(j - 1))
        invariant
            n == s@.len(),
            i <= j <= n,
            forall|k: int| j <= k < n ==> is_space(s@[k]),
        decreases j,
    {
        j -= 1;
    }
    proof {
        lemma_trim_start_skip(s@, i as int);
        let head = s@.skip(i as int);
        if i < n {
            assert(head[0] == s@[i as int]);
        }
        assert(trim_start_spec(s@) == head);
        let k = j - i;
        assert forall|m: int| k <= m < head.len() implies is_space(head[m]) by {
            assert(head[m] == s@[m + i]);
        }
        lemma_trim_end_take(head, k);
        let body = head.take(k);
        if k > 0 {
            assert(body.last() == s@[j - 1]);
        }
        assert(trim_end_spec(body) == body);
        assert(body =~= s@.subrange(i as int, j as int));
    }
    s.substring_char(i, j)
}

/// Whether two texts are the same but for the case of ASCII letters.
pub fn eq_ignore_ascii_case(a: &str, b: &str) -> (r: bool)
    ensures
        r == eq_ignore_case_spec(a@, b@),
{
    let n: usize = a.unicode_len();
    if b.unicode_len() != n {
        return false;
    }
    let mut i: usize = 0;
    while i < n
        invariant
            n == a@.len(),
            n == b@.len(),
            i <= n,
            forall|j: int| 0 <= j < i ==> fold_case(a@[j]) == fold_case(b@[j]),
        decreases n - i,
    {
        if char_fold_case(a.get_char(i)) != char_fold_case(b.get_char(i)) {
            return false;
        }
        i += 1;
    }
    true
}

/// Whether `s` begins with `prefix`.
pub fn starts_with(s: &str, prefix: &str) -> (r: bool)
    ensures
        r == starts_with_spec(s@, prefix@),
{
    let n: usize = prefix.unicode_len();
    if s.unicode_len() < n {
        return false;
    }
    let mut i: usize = 0;
    while i < n
        invariant
            n == prefix@.len(),
            n <= s@.len(),
            i <= n,
            s@.subrange(0, i as int) =~= prefix@.subrange(0, i as int),
        decreases n - i,
    {
        if s.get_char(i) != prefix.get_char(i) {
            proof {
                if s@.subrange(0, n as int) == prefix@ {
                    assert(s@.subrange(0, n as int)[i as int] == prefix@[i as int]);
                }
            }
            return false;
        }
        assert(s@.subrange(0, i + 1) =~= s@.subrange(0, i as int).push(s@[i as int]));
        assert(prefix@.subrange(0, i + 1) =~= prefix@.subrange(0, i as int).push(prefix@[i as int]));
        i += 1;
    }
    assert(prefix@.subrange(0, n as int) =~= prefix@);
    true
}

/// What follows `prefix` in `s`, where `s` begins with it.
pub fn strip_prefix<'a>(s: &'a str, prefix: &str) -> (r: Option<&'a str>)
    ensures
        r is Some == starts_with_spec(s@, prefix@),
        r matches Some(rest) ==> rest@ == s@.skip(prefix@.len() as int),
{
    if starts_with(s, prefix) {
        let n = prefix.unicode_len();
        let total = s.unicode_len();
        assert(s@.subrange(n as int, total as int) =~= s@.skip(n as int));
        Some(s.substring_char(n, total))
    } else {
        None
    }
}

/// The first place at which `c` stands in `s` from `from` on, or the length
/// of `s`.
pub fn find_char(s: &str, c: char, from: usize) -> (at: usize)
    requires
        from <= s@.len(),
    ensures
        at == find_char_spec(s@, c, from as int),
        from <= at <= s@.len(),
        at < s@.len() ==> s@[at as int] == c,
        forall|j: int| from <= j < at ==> s@[j] != c,
{
    let n: usize = s.unicode_len();
    let mut i: usize = from;
    while i < n && s.get_char(i) != c
        invariant
            n == s@.len(),
            from <= i <= n,
            find_char_spec(s@, c, from as int) == find_char_spec(s@, c, i as int),
            forall|j: int| from <= j < i ==> s@[j] != c,
        decreases n - i,
    {
        i += 1;
    }
    i
}

/// The text of one digit.
fn digit_str(d: u64) -> (s: &'static str)
    requires
        d < 10,
    ensures
        s@ == seq![digit_char(d as nat)],
{
    proof {
        reveal_strlit("0");
        reveal_strlit("1");
        reveal_strlit("2");
        reveal_strlit("3");
        reveal_strlit("4");
        reveal_strlit("5");
        reveal_strlit("6");
        reveal_strlit("7");
        reveal_strlit("8");
        reveal_strlit("9");
    }
    let s = if d == 0 {
        "0"
    } else if d == 1 {
        "1"
    } else if d == 2 {
        "2"
    } else if d == 3 {
        "3"
    } else if d == 4 {
        "4"
    } else if d == 5 {
        "5"
    } else if d == 6 {
        "6"
    } else if d == 7 {
        "7"
    } else if d == 8 {
        "8"
    } else {
        "9"
    };
    assert(s@ =~= seq![digit_char(d as nat)]);
    s
}

/// Writes a number in decimal.
pub fn decimal_string(n: u64) -> (s: String)
    ensures
        s@ == decimal_text(n as nat),
    decreases n,
{
    if n < 10 {
        String::from_str(digit_str(n))
    } else {
        let mut s = decimal_string(n / 10);
        s.append(digit_str(n % 10));
        assert(s@ =~= decimal_text((n / 10) as nat).push(digit_char((n % 10) as nat)));
        s
    }
}

/// More digits make a number no smaller.
pub proof fn lemma_digits_value_grows(s: Seq<char>, k: int)
    requires
        0 <= k <= s.len(),
        all_digits(s),
    ensures
        digits_value(s.take(k)) <= digits_value(s),
    decreases s.len() - k,
{
    if k == s.len() {
        assert(s.take(k) =~= s);
    } else {
        assert(all_digits(s.drop_last())) by {
            assert forall|i: int| 0 <= i < s.drop_last().len() implies is_digit(
                #[trigger] s.drop_last()[i],
            ) by {
                assert(s.drop_last()[i] == s[i]);
            }
        }
        lemma_digits_value_grows(s.drop_last(), k);
        assert(s.drop_last().take(k) =~= s.take(k));
        assert(is_digit(s[s.len() - 1]));
    }
}

/// Reads a number in decimal that is no greater than `max`.
pub fn parse_number(s: &str, max: u32) -> (r: Option<u32>)
    ensures
        match r {
            Some(v) => parse_number_spec(s@, max as nat) == Some(v as nat),
            None => parse_number_spec(s@, max as nat) is None,
        },
{
    let n: usize = s.unicode_len();
    let start: usize = if n > 0 && s.get_char(0) == '+' {
        1
    } else {
        0
    };
    let ghost digits = s@.skip(start as int);
    assert(digits =~= if s@.len() > 0 && s@[0] == '+' {
        s@.drop_first()
    } else {
        s@
    });
    if start == n {
        return None;
    }
    let mut acc: u64 = 0;
    let mut i: usize = start;
    while i < n
        invariant
            n == s@.len(),
            start <= i <= n,
            start < n,
            digits == s@.skip(start as int),
            digits == if s@.len() > 0 && s@[0] == '+' {
                s@.drop_first()
            } else {
                s@
            },
            all_digits(digits.take(i - start)),
            acc == digits_value(digits.take(i - start)),
            acc <= max,
        decreases n - i,
    {
        let c: u32 = s.get_char(i) as u32;
        let ghost before = digits.take(i - start);
        let ghost after = digits.take(i - start + 1);
        proof {
            assert(digits[i - start] == s@[i as int]);
            assert(after.drop_last() =~= before);
            assert(after.last() == s@[i as int]);
        }
        if c < 0x30 || c > 0x39 {
            proof {
                if all_digits(digits) {
                    assert(is_digit(digits[i - start]));
                }
            }
            return None;
        }
        assert(all_digits(after)) by {
            assert forall|j: int| 0 <= j < after.len() implies is_digit(#[trigger] after[j]) by {
                if j < after.len() - 1 {
                    assert(after[j] == before[j]);
                }
            }
        }
        let next: u64 = acc * 10 + (c - 0x30) as u64;
        if next > max as u64 {
            proof {
                if all_digits(digits) {
                    lemma_digits_value_grows(digits, i - start + 1);
                }
            }
            return None;
        }
        acc = next;
        i += 1;
    }
    assert(digits.take(n - start) =~= digits);
    Some(acc as u32)
}

/// The fields of `s` between commas: `limit` at most, of which the last
/// keeps the commas that follow it.
pub open spec fn split_spec(s: Seq<char>, limit: nat) -> Seq<Seq<char>>
    decreases limit,
{
    let at = find_char_spec(s, ',', 0);
    if limit <= 1 || at >= s.len() {
        seq![s]
    } else {
        seq![s.take(at)] + split_spec(s.skip(at + 1), (limit - 1) as nat)
    }
}

/// The texts of a list of fields.
pub open spec fn fields_view(fields: Seq<&str>) -> Seq<Seq<char>> {
    Seq::new(fields.len(), |i: int| fields[i]@)
}

/// Splits `s` at its commas into `limit` fields at most.
pub fn split_commas<'a>(s: &'a str, limit: usize) -> (fields: Vec<&'a str>)
    ensures
        fields_view(fields@) == split_spec(s@, limit as nat),
        fields@.len() >= 1,
    decreases limit,
{
    let n: usize = s.unicode_len();
    let at = find_char(s, ',', 0);
    let mut fields: Vec<&'a str> = Vec::new();
    if limit <= 1 || at >= n {
        fields.push(s);
        assert(fields_view(fields@) =~= seq![s@]);
        fields
    } else {
        let head = s.substring_char(0, at);
        let tail = s.substring_char(at + 1, n);
        assert(head@ =~= s@.take(at as int));
        assert(tail@ =~= s@.skip(at + 1));
        fields.push(head);
        let mut rest = split_commas(tail, limit - 1);
        let ghost rest_view = fields_view(rest@);
        let ghost rest_seq = rest@;
        fields.append(&mut rest);
        assert(fields_view(fields@) =~= seq![head@] + rest_view) by {
            assert(fields@ =~= seq![head] + rest_seq);
        }
        fields
    }
}

/// Whether two texts are the same.
pub fn str_eq(a: &str, b: &str) -> (r: bool)
    ensures
        r == (a@ == b@),
{
    let n: usize = a.unicode_len();
    if b.unicode_len() != n {
        return false;
    }
    let mut i: usize = 0;
    while i < n
        invariant
            n == a@.len(),
            n == b@.len(),
            i <= n,
            forall|j: int| 0 <= j < i ==> a@[j] == b@[j],
        decreases n - i,
    {
        if a.get_char(i) != b.get_char(i) {
            return false;
        }
        i += 1;
    }
    assert(a@ =~= b@);
    true
}

/// Two texts in a row.
pub fn concat2(a: &str, b: &str) -> (r: String)
    ensures
        r@ == a@ + b@,
{
    let mut r = String::from_str(a);
    r.append(b);
    r
}

/// Three texts in a row.
pub fn concat3(a: &str, b: &str, c: &str) -> (r: String)
    ensures
        r@ == a@ + b@ + c@,
{
    let mut r = String::from_str(a);
    r.append(b);
    r.append(c);
    r
}

/// Whether `pattern` stands in `s` at `at`.
pub open spec fn occurs_at(s: Seq<char>, pattern: Seq<char>, at: int) -> bool {
    0 <= at && at + pattern.len() <= s.len() && s.subrange(at, at + pattern.len()) == pattern
}

/// The first place from `from` on at which `pattern` stands in `s`.
pub open spec fn find_spec(s: Seq<char>, pattern: Seq<char>, from: int) -> Option<int>
    decreases s.len() - from,
{
    if from < 0 || from + pattern.len() > s.len() {
        None
    } else if occurs_at(s, pattern, from) {
        Some(from)
    } else if from >= s.len() {
        None
    } else {
        find_spec(s, pattern, from + 1)
    }
}

/// The first place from `from` on at which a character stands that is no
/// decimal digit, or the length of `s`.
pub open spec fn digits_end_spec(s: Seq<char>, from: int) -> int
    decreases s.len() - from,
{
    if from >= s.len() || !is_digit(s[from]) {
        if from >= s.len() {
            s.len() as int
        } else {
            from
        }
    } else {
        digits_end_spec(s, from + 1)
    }
}

/// Whether `pattern` stands in `s` at `at`.
pub fn matches_at(s: &str, pattern: &str, at: usize) -> (r: bool)
    ensures
        r == occurs_at(s@, pattern@, at as int),
{
    let n: usize = s.unicode_len();
    let m: usize = pattern.unicode_len();
    if at > n || m > n - at {
        return false;
    }
    let mut i: usize = 0;
    while i < m
        invariant
            n == s@.len(),
            m == pattern@.len(),
            at + m <= n,
            i <= m,
            s@.subrange(at as int, at + i) =~= pattern@.subrange(0, i as int),
        decreases m - i,
    {
        if s.get_char(at + i) != pattern.get_char(i) {
            proof {
                if s@.subrange(at as int, at + m) == pattern@ {
                    assert(s@.subrange(at as int, at + m)[i as int] == pattern@[i as int]);
                }
            }
            return false;
        }
        assert(s@.subrange(at as int, at + i + 1) =~= s@.subrange(at as int, at + i).push(
            s@[at + i],
        ));
        assert(pattern@.subrange(0, i + 1) =~= pattern@.subrange(0, i as int).push(
            pattern@[i as int],
        ));
        i += 1;
    }
    assert(pattern@.subrange(0, m as int) =~= pattern@);
    true
}

/// The first place from `from` on at which `pattern` stands in `s`.
pub fn find_text(s: &str, pattern: &str, from: usize) -> (r: Option<usize>)
    ensures
        match r {
            Some(at) => find_spec(s@, pattern@, from as int) == Some(at as int) && occurs_at(
                s@,
                pattern@,
                at as int,
            ) && from <= at,
            None => find_spec(s@, pattern@, from as int) is None,
        },
{
    let n: usize = s.unicode_len();
    let m: usize = pattern.unicode_len();
    if m > n || from > n - m {
        return None;
    }
    let last: usize = n - m;
    let mut i: usize = from;
    loop
        invariant
            n == s@.len(),
            m == pattern@.len(),
            last == n - m,
            from <= i <= last,
            find_spec(s@, pattern@, from as int) == find_spec(s@, pattern@, i as int),
        decreases last - i,
    {
        if matches_at(s, pattern, i) {
            return Some(i);
        }
        if i == last {
            assert(find_spec(s@, pattern@, i + 1) is None);
            return None;
        }
        i += 1;
    }
}

/// The text without the white space in front of it.
pub fn trim_start(s: &str) -> (t: &str)
    ensures
        t@ == trim_start_spec(s@),
{
    let n: usize = s.unicode_len();
    let mut i: usize = 0;
    while i < n && char_is_space(s.get_char(i))
        invariant
            n == s@.len(),
            i <= n,
            forall|j: int| 0 <= j < i ==> is_space(s@[j]),
        decreases n - i,
    {
        i += 1;
    }
    proof {
        lemma_trim_start_skip(s@, i as int);
        let head = s@.skip(i as int);
        if i < n {
            assert(head[0] == s@[i as int]);
        }
        assert(head =~= s@.subrange(i as int, n as int));
    }
    s.substring_char(i, n)
}

/// The first place from `from` on at which a character stands that is no
/// decimal digit, or the length of `s`.
pub fn digits_end(s: &str, from: usize) -> (end: usize)
    requires
        from <= s@.len(),
    ensures
        end == digits_end_spec(s@, from as int),
        from <= end <= s@.len(),
        all_digits(s@.subrange(from as int, end as int)),
{
    let n: usize = s.unicode_len();
    let mut i: usize = from;
    while i < n && 0x30 <= s.get_char(i) as u32 && s.get_char(i) as u32 <= 0x39
        invariant
            n == s@.len(),
            from <= i <= n,
            digits_end_spec(s@, from as int) == digits_end_spec(s@, i as int),
            forall|j: int| from <= j < i ==> is_digit(s@[j]),
        decreases n - i,
    {
        i += 1;
    }
    assert forall|j: int| 0 <= j < s@.subrange(from as int, i as int).len() implies is_digit(
        #[trigger] s@.subrange(from as int, i as int)[j],
    ) by {
        assert(s@.subrange(from as int, i as int)[j] == s@[from + j]);
    }
    i
}

/// The part of `s` from `from` up to `to`.
pub fn slice<'a>(s: &'a str, from: usize, to: usize) -> (t: &'a str)
    requires
        from <= to <= s@.len(),
    ensures
        t@ == s@.subrange(from as int, to as int),
{
    s.substring_char(from, to)
}

/// The part of `s` from `from` on.
pub fn tail<'a>(s: &'a str, from: usize) -> (t: &'a str)
    requires
        from <= s@.len(),
    ensures
        t@ == s@.skip(from as int),
{
    let n: usize = s.unicode_len();
    assert(s@.subrange(from as int, n as int) =~= s@.skip(from as int));
    s.substring_char(from, n)
}

/// The first place from `from` on at which white space stands, or the
/// length of `s`.
pub open spec fn find_space_spec(s: Seq<char>, from: int) -> int
    decreases s.len() - from,
{
    if from >= s.len() {
        s.len() as int
    } else if is_space(s[from]) {
        from
    } else {
        find_space_spec(s, from + 1)
    }
}

/// The first word of a text: what stands between the white space in front
/// and the next white space.
pub open spec fn first_word_spec(s: Seq<char>) -> Seq<char> {
    trim_start_spec(s).take(find_space_spec(trim_start_spec(s), 0))
}

/// The first place from `from` on at which white space stands, or the
/// length of `s`.
pub fn find_space(s: &str, from: usize) -> (at: usize)
    requires
        from <= s@.len(),
    ensures
        at == find_space_spec(s@, from as int),
        from <= at <= s@.len(),
{
    let n: usize = s.unicode_len();
    let mut i: usize = from;
    while i < n && !char_is_space(s.get_char(i))
        invariant
            n == s@.len(),
            from <= i <= n,
            find_space_spec(s@, from as int) == find_space_spec(s@, i as int),
        decreases n - i,
    {
        i += 1;
    }
    i
}

/// The first word of a text.
pub fn first_word(s: &str) -> (w: &str)
    ensures
        w@ == first_word_spec(s@),
{
    let t = trim_start(s);
    let end = find_space(t, 0);
    assert(t@.subrange(0, end as int) =~= t@.take(end as int));
    slice(t, 0, end)
}

} // verus!
