//! Character-level text utilities with exact specifications.
//!
//! Strings are handled as sequences of Unicode scalar values (`Seq<char>`),
//! which is what `str`'s view is in Verus.
use vstd::prelude::*;

verus! {

/// The characters of a string slice, in order.
pub fn chars_of(s: &str) -> (r: Vec<char>)
    ensures
        r@ == s@,
{
    let mut out: Vec<char> = Vec::new();
    for c in it: s.chars()
        invariant
            out@ == it.seq().subrange(0, it.index() as int),
    {
        out.push(c);
    }
    out
}

/// Builds a `String` holding exactly the given characters
/// (`String::from_iter` over the slice's characters).
#[verifier::external_body]
pub(crate) fn string_from_chars(cs: &[char]) -> (r: String)
    ensures
        r@ == cs@,
{
    String::from_iter(cs.iter())
}

/// The characters `s[from..to]` as a new vector.
pub fn slice_chars(s: &Vec<char>, from: usize, to: usize) -> (r: Vec<char>)
    requires
        from <= to <= s@.len(),
    ensures
        r@ == s@.subrange(from as int, to as int),
{
    let mut out: Vec<char> = Vec::new();
    let mut i = from;
    while i < to
        invariant
            from <= i <= to <= s@.len(),
            out@ == s@.subrange(from as int, i as int),
        decreases to - i,
    {
        out.push(s[i]);
        i += 1;
    }
    out
}

/// A string holding `s[from..to]`.
pub fn substring(s: &Vec<char>, from: usize, to: usize) -> (r: String)
    requires
        from <= to <= s@.len(),
    ensures
        r@ == s@.subrange(from as int, to as int),
{
    let v = slice_chars(s, from, to);
    string_from_chars(v.as_slice())
}

/// Unicode `White_Space` property, as used by `char::is_whitespace`.
pub open spec fn is_ws(c: char) -> bool {
    let u = c as u32;
    ||| 0x9 <= u <= 0xD
    ||| u == 0x20
    ||| u == 0x85
    ||| u == 0xA0
    ||| u == 0x1680
    ||| 0x2000 <= u <= 0x200A
    ||| u == 0x2028
    ||| u == 0x2029
    ||| u == 0x202F
    ||| u == 0x205F
    ||| u == 0x3000
}

/// Whether `c` is Unicode white space.
pub fn is_whitespace(c: char) -> (r: bool)
    ensures
        r == is_ws(c),
{
    let u = c as u32;
    (0x9 <= u && u <= 0xD) || u == 0x20 || u == 0x85 || u == 0xA0 || u == 0x1680 || (0x2000
        <= u && u <= 0x200A) || u == 0x2028 || u == 0x2029 || u == 0x202F || u == 0x205F || u
        == 0x3000
}

/// `s` without its leading white space.
pub open spec fn trim_start(s: Seq<char>) -> Seq<char>
    decreases s.len(),
{
    if s.len() > 0 && is_ws(s[0]) {
        trim_start(s.drop_first())
    } else {
        s
    }
}

/// `s` without its trailing white space.
pub open spec fn trim_end(s: Seq<char>) -> Seq<char>
    decreases s.len(),
{
    if s.len() > 0 && is_ws(s.last()) {
        trim_end(s.drop_last())
    } else {
        s
    }
}

/// `s` without leading and trailing white space (`str::trim`).
pub open spec fn trim(s: Seq<char>) -> Seq<char> {
    trim_end(trim_start(s))
}

/// Index of the first character of `s` that is not white space (or `s.len()`).
pub fn trim_start_index(s: &Vec<char>) -> (i: usize)
    ensures
        i <= s@.len(),
        s@.subrange(i as int, s@.len() as int) == trim_start(s@),
{
    let n = s.len();
    let mut i: usize = 0;
    proof {
        assert(s@.subrange(0, n as int) =~= s@);
    }
    while i < n && is_whitespace(s[i])
        invariant
            i <= n == s@.len(),
            trim_start(s@) == trim_start(s@.subrange(i as int, n as int)),
        decreases n - i,
    {
        proof {
            assert(s@.subrange(i as int, n as int).drop_first() =~= s@.subrange(
                i + 1,
                n as int,
            ));
        }
        i += 1;
    }
    i
}

/// Index one past the last non-white-space character of `s[from..]`.
pub fn trim_end_index(s: &Vec<char>, from: usize) -> (j: usize)
    requires
        from <= s@.len(),
    ensures
        from <= j <= s@.len(),
        s@.subrange(from as int, j as int) == trim_end(s@.subrange(from as int, s@.len() as int)),
{
    let n = s.len();
    let mut j: usize = n;
    while j > from && is_whitespace(s[j - 1])
        invariant
            from <= j <= n == s@.len(),
            trim_end(s@.subrange(from as int, n as int)) == trim_end(
                s@.subrange(from as int, j as int),
            ),
        decreases j - from,
    {
        proof {
            assert(s@.subrange(from as int, j as int).drop_last() =~= s@.subrange(
                from as int,
                j - 1,
            ));
        }
        j -= 1;
    }
    j
}

/// Bounds of the trimmed part of `s`.
pub fn trim_bounds(s: &Vec<char>) -> (r: (usize, usize))
    ensures
        r.0 <= r.1 <= s@.len(),
        s@.subrange(r.0 as int, r.1 as int) == trim(s@),
{
    let i = trim_start_index(s);
    let j = trim_end_index(s, i);
    (i, j)
}

/// The characters of `s` without leading and trailing white space.
pub fn trim_chars(s: &Vec<char>) -> (r: Vec<char>)
    ensures
        r@ == trim(s@),
{
    let (i, j) = trim_bounds(s);
    slice_chars(s, i, j)
}

/// `str::trim` as an owned string.
pub fn trim_str(s: &str) -> (r: String)
    ensures
        r@ == trim(s@),
{
    let cs = chars_of(s);
    let (i, j) = trim_bounds(&cs);
    substring(&cs, i, j)
}


/// Whether two character slices are equal.
pub fn chars_eq(a: &[char], b: &[char]) -> (r: bool)
    ensures
        r == (a@ == b@),
{
    if a.len() != b.len() {
        return false;
    }
    let mut i: usize = 0;
    while i < a.len()
        invariant
            i <= a@.len() == b@.len(),
            forall|k: int| 0 <= k < i ==> a@[k] == b@[k],
        decreases a@.len() - i,
    {
        if a[i] != b[i] {
            return false;
        }
        i += 1;
    }
    assert(a@ =~= b@);
    true
}

/// Whether the characters `cs` spell the string `s`.
pub fn chars_eq_str(cs: &[char], s: &str) -> (r: bool)
    ensures
        r == (cs@ == s@),
{
    let v = chars_of(s);
    chars_eq(cs, v.as_slice())
}

/// Whether two string slices are equal.
pub fn str_eq(a: &str, b: &str) -> (r: bool)
    ensures
        r == (a@ == b@),
{
    let va = chars_of(a);
    let vb = chars_of(b);
    chars_eq(va.as_slice(), vb.as_slice())
}

/// Whether `s` begins with `p`.
pub open spec fn has_prefix(s: Seq<char>, p: Seq<char>) -> bool {
    p.len() <= s.len() && s.subrange(0, p.len() as int) == p
}

/// Whether `s` ends with `p`.
pub open spec fn has_suffix(s: Seq<char>, p: Seq<char>) -> bool {
    p.len() <= s.len() && s.subrange(s.len() - p.len(), s.len() as int) == p
}

/// Whether `p` occurs in `s` starting at index `i`.
pub open spec fn occurs_at(s: Seq<char>, p: Seq<char>, i: int) -> bool {
    0 <= i && i + p.len() <= s.len() && s.subrange(i, i + p.len()) == p
}

/// Whether `p` occurs at index `at` of `s`.
pub fn matches_at(s: &[char], p: &[char], at: usize) -> (r: bool)
    ensures
        r == occurs_at(s@, p@, at as int),
{
    if at > s.len() || p.len() > s.len() - at {
        return false;
    }
    let mut k: usize = 0;
    while k < p.len()
        invariant
            at + p@.len() <= s.len(),
            k <= p@.len(),
            forall|m: int| 0 <= m < k ==> s@[at + m] == p@[m],
        decreases p@.len() - k,
    {
        if s[at + k] != p[k] {
            assert(s@.subrange(at as int, at + p@.len())[k as int] != p@[k as int]);
            return false;
        }
        k += 1;
    }
    assert(s@.subrange(at as int, at + p@.len()) =~= p@);
    true
}

/// Whether `s` starts with `p`.
pub fn starts_with(s: &[char], p: &[char]) -> (r: bool)
    ensures
        r == has_prefix(s@, p@),
{
    matches_at(s, p, 0)
}

/// Whether `s` ends with `p`.
pub fn ends_with(s: &[char], p: &[char]) -> (r: bool)
    ensures
        r == has_suffix(s@, p@),
{
    if p.len() > s.len() {
        false
    } else {
        matches_at(s, p, s.len() - p.len())
    }
}

/// Index of the first occurrence of `p` in `s` at or after `from`.
pub open spec fn first_occurrence_from(s: Seq<char>, p: Seq<char>, from: int) -> Option<int> {
    if exists|i: int| from <= i && occurs_at(s, p, i) {
        Some(choose|i: int| from <= i && occurs_at(s, p, i) && (forall|j: int| from <= j < i ==> !occurs_at(s, p, j)))
    } else {
        None
    }
}

/// Finds the first index `i >= from` at which `p` occurs in `s`.
pub fn find_from(s: &[char], p: &[char], from: usize) -> (r: Option<usize>)
    requires
        from <= s@.len(),
    ensures
        match r {
            Some(i) => from <= i && occurs_at(s@, p@, i as int) && forall|j: int|
                from <= j < i ==> !occurs_at(s@, p@, j),
            None => forall|j: int| from <= j ==> !occurs_at(s@, p@, j),
        },
{
    let mut i = from;
    while i < s.len()
        invariant
            from <= i <= s@.len(),
            forall|j: int| from <= j < i ==> !occurs_at(s@, p@, j),
        decreases s@.len() - i,
    {
        if matches_at(s, p, i) {
            return Some(i);
        }
        i += 1;
    }
    if matches_at(s, p, i) {
        return Some(i);
    }
    assert forall|j: int| from <= j implies !occurs_at(s@, p@, j) by {
        if j > s@.len() {
        }
    }
    None
}

/// Whether `p` occurs somewhere in `s`.
pub open spec fn contains_seq(s: Seq<char>, p: Seq<char>) -> bool {
    exists|i: int| occurs_at(s, p, i)
}

/// Whether `p` occurs in `s`.
pub fn contains(s: &[char], p: &[char]) -> (r: bool)
    ensures
        r == contains_seq(s@, p@),
{
    match find_from(s, p, 0) {
        Some(i) => true,
        None => {
            assert forall|j: int| !occurs_at(s@, p@, j) by {
                if j < 0 {
                }
            }
            false
        },
    }
}

/// ASCII lower-casing of one character (`char::to_ascii_lowercase`).
pub open spec fn ascii_lower(c: char) -> char {
    if 'A' <= c && c <= 'Z' {
        ((c as u32) + 32) as char
    } else {
        c
    }
}

/// Exec ASCII lower-casing of one character.
pub fn to_ascii_lower(c: char) -> (r: char)
    ensures
        r == ascii_lower(c),
{
    if 'A' <= c && c <= 'Z' {
        ((c as u8) + 32) as char
    } else {
        c
    }
}

/// Equality up to ASCII case (`str::eq_ignore_ascii_case`).
pub open spec fn eq_ignore_ascii_case(a: Seq<char>, b: Seq<char>) -> bool {
    a.len() == b.len() && forall|i: int| 0 <= i < a.len() ==> ascii_lower(a[i]) == ascii_lower(b[i])
}

/// Whether `a` and `b` are equal up to ASCII case.
pub fn chars_eq_ignore_ascii_case(a: &[char], b: &[char]) -> (r: bool)
    ensures
        r == eq_ignore_ascii_case(a@, b@),
{
    if a.len() != b.len() {
        return false;
    }
    let mut i: usize = 0;
    while i < a.len()
        invariant
            i <= a@.len() == b@.len(),
            forall|k: int| 0 <= k < i ==> ascii_lower(a@[k]) == ascii_lower(b@[k]),
        decreases a@.len() - i,
    {
        if to_ascii_lower(a[i]) != to_ascii_lower(b[i]) {
            return false;
        }
        i += 1;
    }
    true
}


/// Whether `c` is an ASCII decimal digit.
pub open spec fn is_digit(c: char) -> bool {
    '0' <= c && c <= '9'
}

/// The value of a decimal digit character.
pub open spec fn digit_value(c: char) -> nat {
    ((c as u32) - ('0' as u32)) as nat
}

/// The value of a sequence of decimal digits.
pub open spec fn digits_value(s: Seq<char>) -> nat
    decreases s.len(),
{
    if s.len() == 0 {
        0
    } else {
        digits_value(s.drop_last()) * 10 + digit_value(s.last())
    }
}

/// Whether every character of `s` is a decimal digit.
pub open spec fn all_digits(s: Seq<char>) -> bool {
    forall|i: int| 0 <= i < s.len() ==> is_digit(s[i])
}

/// The result of parsing an unsigned integer with upper bound `max` the way
/// `str::parse` does: an optional `+`, then at least one decimal digit and
/// nothing else, with a value of at most `max`.
pub open spec fn parse_unsigned_spec(s: Seq<char>, max: nat) -> Option<nat> {
    let d = if s.len() > 0 && s[0] == '+' {
        s.drop_first()
    } else {
        s
    };
    if d.len() > 0 && all_digits(d) && digits_value(d) <= max {
        Some(digits_value(d))
    } else {
        None
    }
}

/// The result of `str::parse::<usize>`.
pub open spec fn parse_usize_spec(s: Seq<char>) -> Option<usize> {
    match parse_unsigned_spec(s, usize::MAX as nat) {
        Some(v) => Some(v as usize),
        None => None,
    }
}

/// The result of `str::parse::<u64>`.
pub open spec fn parse_u64_spec(s: Seq<char>) -> Option<u64> {
    match parse_unsigned_spec(s, u64::MAX as nat) {
        Some(v) => Some(v as u64),
        None => None,
    }
}

proof fn lemma_digits_value_monotone(s: Seq<char>, k: int)
    requires
        0 <= k <= s.len(),
    ensures
        digits_value(s.subrange(0, k)) <= digits_value(s),
    decreases s.len() - k,
{
    if k < s.len() {
        lemma_digits_value_monotone(s, k + 1);
        assert(s.subrange(0, k + 1).drop_last() =~= s.subrange(0, k));
    } else {
        assert(s.subrange(0, k) =~= s);
    }
}

/// Parses an unsigned decimal of at most `max`, exactly as `str::parse`
/// does for an unsigned type whose largest value is `max`.
pub fn parse_unsigned(s: &[char], max: u64) -> (r: Option<u64>)
    ensures
        match r {
            Some(v) => parse_unsigned_spec(s@, max as nat) == Some(v as nat),
            None => parse_unsigned_spec(s@, max as nat) is None,
        },
{
    let start: usize = if s.len() > 0 && s[0] == '+' {
        1
    } else {
        0
    };
    let ghost d = if s@.len() > 0 && s@[0] == '+' {
        s@.drop_first()
    } else {
        s@
    };
    assert(d =~= s@.subrange(start as int, s@.len() as int));
    if start >= s.len() {
        return None;
    }
    let mut value: u64 = 0;
    let mut i = start;
    while i < s.len()
        invariant
            start <= i <= s@.len(),
            d == s@.subrange(start as int, s@.len() as int),
            d == (if s@.len() > 0 && s@[0] == '+' {
                s@.drop_first()
            } else {
                s@
            }),
            all_digits(s@.subrange(start as int, i as int)),
            value as nat == digits_value(s@.subrange(start as int, i as int)),
            value <= max,
        decreases s@.len() - i,
    {
        let c = s[i];
        if !('0' <= c && c <= '9') {
            assert(d[i - start] == c);
            assert(!is_digit(d[i - start]));
            assert(!all_digits(d));
            return None;
        }
        let dv = (c as u32 - '0' as u32) as u64;
        proof {
            assert(s@.subrange(start as int, i + 1).drop_last() =~= s@.subrange(
                start as int,
                i as int,
            ));
            lemma_digits_value_monotone(d, i + 1 - start);
            assert(d.subrange(0, i + 1 - start) =~= s@.subrange(start as int, i + 1));
        }
        if dv > max || value > (max - dv) / 10 {
            proof {
                assert(digits_value(s@.subrange(start as int, i + 1)) == value * 10 + dv);
                if dv <= max {
                    assert(value * 10 + dv > max) by (nonlinear_arith)
                        requires
                            value > (max - dv) / 10,
                            dv <= max,
                    ;
                }
                assert(digits_value(d.subrange(0, i + 1 - start)) <= digits_value(d));
                assert(digits_value(d) > max);
            }
            return None;
        }
        proof {
            assert(value * 10 + dv <= max) by (nonlinear_arith)
                requires
                    value <= (max - dv) / 10,
                    dv <= max,
            ;
        }
        value = value * 10 + dv;
        i += 1;
    }
    assert(s@.subrange(start as int, s@.len() as int) =~= d);
    Some(value)
}

/// Parses a decimal `usize` exactly as `str::parse::<usize>` does.
pub fn parse_usize(s: &[char]) -> (r: Option<usize>)
    ensures
        r == parse_usize_spec(s@),
{
    match parse_unsigned(s, usize::MAX as u64) {
        Some(v) => Some(v as usize),
        None => None,
    }
}

/// Parses a decimal `u64` exactly as `str::parse::<u64>` does.
pub fn parse_u64(s: &[char]) -> (r: Option<u64>)
    ensures
        r == parse_u64_spec(s@),
{
    parse_unsigned(s, u64::MAX)
}

/// The characters of an optional string.
pub open spec fn opt_view(o: Option<String>) -> Option<Seq<char>> {
    match o {
        Some(s) => Some(s@),
        None => None,
    }
}

/// Copies an optional string.
pub fn clone_opt(o: &Option<String>) -> (r: Option<String>)
    ensures
        opt_view(r) == opt_view(*o),
{
    match o {
        Some(s) => Some(String::from_str(s.as_str())),
        None => None,
    }
}

/// Copies a string.
pub fn clone_string(s: &String) -> (r: String)
    ensures
        r@ == s@,
{
    String::from_str(s.as_str())
}

/// Copies a list of strings.
pub fn clone_strings(v: &Vec<String>) -> (r: Vec<String>)
    ensures
        r@.len() == v@.len(),
        forall|i: int| 0 <= i < v@.len() ==> #[trigger] r@[i]@ == v@[i]@,
{
    let mut out: Vec<String> = Vec::new();
    let mut i: usize = 0;
    while i < v.len()
        invariant
            i <= v@.len(),
            out@.len() == i,
            forall|k: int| 0 <= k < i ==> #[trigger] out@[k]@ == v@[k]@,
        decreases v@.len() - i,
    {
        out.push(clone_string(&v[i]));
        i += 1;
    }
    out
}

/// The decimal digit character for `d < 10`.
pub open spec fn digit_char(d: nat) -> char {
    ((d + ('0' as u32)) as u32) as char
}

/// The decimal representation of `n` (as produced by `Display` for integers).
pub open spec fn decimal(n: nat) -> Seq<char>
    decreases n,
{
    if n < 10 {
        seq![digit_char(n)]
    } else {
        decimal(n / 10).push(digit_char(n % 10))
    }
}

/// The decimal text of a number is digits only, and reads back as the number.
pub proof fn lemma_decimal_digits(n: nat)
    ensures
        decimal(n).len() > 0,
        all_digits(decimal(n)),
        digits_value(decimal(n)) == n,
    decreases n,
{
    if n < 10 {
        assert(digit_value(digit_char(n)) == n);
        assert(decimal(n).drop_last() =~= Seq::<char>::empty());
        assert(digits_value(decimal(n)) == digits_value(Seq::<char>::empty()) * 10 + digit_value(digit_char(n)));
        assert(digits_value(decimal(n)) == n);
    } else {
        lemma_decimal_digits(n / 10);
        let d = decimal(n);
        assert(d.drop_last() =~= decimal(n / 10));
        assert(digit_value(digit_char(n % 10)) == n % 10);
        assert(d.last() == digit_char(n % 10));
        assert((n / 10) * 10 + n % 10 == n) by (nonlinear_arith);
        assert(digits_value(d) == digits_value(d.drop_last()) * 10 + digit_value(d.last()));
        assert(digits_value(d) == n);
        assert forall|i: int| 0 <= i < d.len() implies is_digit(d[i]) by {
            if i < d.len() - 1 {
                assert(d[i] == decimal(n / 10)[i]);
            }
        }
    }
}

/// Parsing the decimal text of a `u64` gives the number back.
pub proof fn lemma_parse_decimal(n: u64)
    ensures
        parse_u64_spec(decimal(n as nat)) == Some(n),
{
    lemma_decimal_digits(n as nat);
    assert(is_digit(decimal(n as nat)[0]));
}

/// Appends the decimal digits of `n` to `out`.
pub fn push_decimal(out: &mut Vec<char>, n: u64)
    ensures
        final(out)@ == old(out)@ + decimal(n as nat),
    decreases n,
{
    if n >= 10 {
        push_decimal(out, n / 10);
    }
    let d = (n % 10) as u8;
    let c = (d + 48u8) as char;
    proof {
        assert(c == digit_char((n % 10) as nat));
    }
    out.push(c);
    proof {
        if n >= 10 {
            assert(decimal(n as nat) == decimal((n / 10) as nat).push(digit_char((n % 10) as nat)));
        }
    }
}

/// The decimal representation of `n` as a string.
pub fn decimal_string(n: u64) -> (r: String)
    ensures
        r@ == decimal(n as nat),
{
    let mut v: Vec<char> = Vec::new();
    push_decimal(&mut v, n);
    assert(v@ =~= decimal(n as nat));
    string_from_chars(v.as_slice())
}


/// The first index at which `p` occurs in `s`, if any.
pub open spec fn first_occurrence(s: Seq<char>, p: Seq<char>) -> Option<int> {
    first_occurrence_from(s, p, 0)
}

/// `i` is the first occurrence of `p` in `s` when it occurs there and
/// nowhere before.
pub proof fn lemma_first_occurrence_is(s: Seq<char>, p: Seq<char>, i: int)
    requires
        0 <= i,
        occurs_at(s, p, i),
        forall|j: int| 0 <= j < i ==> !occurs_at(s, p, j),
    ensures
        first_occurrence(s, p) == Some(i),
{
    let k = choose|k: int| 0 <= k && occurs_at(s, p, k) && (forall|j: int| 0 <= j < k ==> !occurs_at(s, p, j));
    assert(0 <= i && occurs_at(s, p, i) && (forall|j: int| 0 <= j < i ==> !occurs_at(s, p, j)));
    if k < i {
        assert(!occurs_at(s, p, k));
    } else if k > i {
        assert(!occurs_at(s, p, i));
    }
}

proof fn lemma_occurs_skip(s: Seq<char>, p: Seq<char>, pos: int, j: int)
    requires
        0 <= pos <= s.len(),
    ensures
        occurs_at(s.subrange(pos, s.len() as int), p, j) == (0 <= j && occurs_at(s, p, j + pos)),
{
    let t = s.subrange(pos, s.len() as int);
    if 0 <= j && j + p.len() <= t.len() {
        assert(t.subrange(j, j + p.len()) =~= s.subrange(j + pos, j + pos + p.len()));
    }
}

/// `s` split at every (non-overlapping, left-to-right) occurrence of a
/// non-empty separator, as `str::split` does.
#[verifier::opaque]
pub open spec fn split_seq(s: Seq<char>, sep: Seq<char>) -> Seq<Seq<char>>
    decreases s.len(),
{
    if sep.len() == 0 {
        seq![s]
    } else {
        match first_occurrence(s, sep) {
            None => seq![s],
            Some(i) => if 0 <= i && i + sep.len() <= s.len() {
                seq![s.subrange(0, i)] + split_seq(s.subrange(i + sep.len(), s.len() as int), sep)
            } else {
                seq![s]
            },
        }
    }
}

proof fn lemma_split_step(s: Seq<char>, sep: Seq<char>, pos: int, i: int)
    requires
        sep.len() > 0,
        0 <= pos <= i,
        occurs_at(s, sep, i),
        forall|j: int| pos <= j < i ==> !occurs_at(s, sep, j),
    ensures
        split_seq(s.subrange(pos, s.len() as int), sep) == seq![s.subrange(pos, i)] + split_seq(
            s.subrange(i + sep.len(), s.len() as int),
            sep,
        ),
{
    reveal(split_seq);
    let t = s.subrange(pos, s.len() as int);
    lemma_occurs_skip(s, sep, pos, i - pos);
    assert forall|j: int| 0 <= j < i - pos implies !occurs_at(t, sep, j) by {
        lemma_occurs_skip(s, sep, pos, j);
    }
    lemma_first_occurrence_is(t, sep, i - pos);
    assert(t.subrange(0, i - pos) =~= s.subrange(pos, i));
    assert(t.subrange(i - pos + sep.len(), t.len() as int) =~= s.subrange(
        i + sep.len(),
        s.len() as int,
    ));
}

proof fn lemma_split_last(s: Seq<char>, sep: Seq<char>, pos: int)
    requires
        sep.len() > 0,
        0 <= pos <= s.len(),
        forall|j: int| pos <= j ==> !occurs_at(s, sep, j),
    ensures
        split_seq(s.subrange(pos, s.len() as int), sep) == seq![s.subrange(pos, s.len() as int)],
{
    reveal(split_seq);
    let t = s.subrange(pos, s.len() as int);
    assert forall|j: int| 0 <= j implies !occurs_at(t, sep, j) by {
        lemma_occurs_skip(s, sep, pos, j);
    }
    assert(first_occurrence(t, sep) is None);
}

/// Pieces joined with `sep` between each two.
pub open spec fn join_on(ts: Seq<Seq<char>>, sep: Seq<char>) -> Seq<char>
    decreases ts.len(),
{
    if ts.len() == 0 {
        Seq::empty()
    } else if ts.len() == 1 {
        ts[0]
    } else {
        join_on(ts.drop_last(), sep) + sep + ts.last()
    }
}

proof fn lemma_join_on_cons(a: Seq<char>, ts: Seq<Seq<char>>, sep: Seq<char>)
    requires
        ts.len() > 0,
    ensures
        join_on(seq![a] + ts, sep) == a + sep + join_on(ts, sep),
    decreases ts.len(),
{
    let all = seq![a] + ts;
    if ts.len() == 1 {
        assert(all.drop_last() =~= seq![a]);
        assert(join_on(seq![a], sep) == a);
        assert(all.last() == ts[0]);
        assert(join_on(ts, sep) == ts[0]);
        assert(join_on(all, sep) == join_on(all.drop_last(), sep) + sep + all.last());
        assert(join_on(all, sep) =~= a + sep + join_on(ts, sep));
    } else {
        lemma_join_on_cons(a, ts.drop_last(), sep);
        assert(all.drop_last() =~= seq![a] + ts.drop_last());
        assert(all.last() == ts.last());
        assert(join_on(all, sep) == join_on(all.drop_last(), sep) + sep + all.last());
        assert(join_on(ts, sep) == join_on(ts.drop_last(), sep) + sep + ts.last());
        assert(join_on(all, sep) =~= a + sep + join_on(ts, sep));
    }
}

proof fn lemma_join_split_scan(s: Seq<char>, sep: Seq<char>, pos: int, k: int)
    requires
        sep.len() > 0,
        0 <= pos <= k,
        pos <= s.len(),
        forall|j: int| pos <= j < k ==> !occurs_at(s, sep, j),
    ensures
        join_on(split_seq(s.subrange(pos, s.len() as int), sep), sep) == s.subrange(pos, s.len() as int),
    decreases s.len() - pos, s.len() + 1 - k,
{
    if k + sep.len() > s.len() {
        assert forall|j: int| pos <= j implies !occurs_at(s, sep, j) by {
            if j >= k {
                assert(!(j + sep.len() <= s.len()));
            }
        }
        lemma_split_last(s, sep, pos);
    } else if occurs_at(s, sep, k) {
        lemma_split_step(s, sep, pos, k);
        let rest = s.subrange(k + sep.len(), s.len() as int);
        lemma_join_split_scan(s, sep, k + sep.len(), k + sep.len());
        lemma_split_nonempty(rest, sep);
        lemma_join_on_cons(s.subrange(pos, k), split_seq(rest, sep), sep);
        assert(s.subrange(k, k + sep.len()) == sep);
        assert(s.subrange(pos, k) + sep + rest =~= s.subrange(pos, s.len() as int));
    } else {
        lemma_join_split_scan(s, sep, pos, k + 1);
    }
}

/// Joining the pieces of a split with the separator gives the text back.
pub proof fn lemma_join_split(s: Seq<char>, sep: Seq<char>)
    requires
        sep.len() > 0,
    ensures
        join_on(split_seq(s, sep), sep) == s,
{
    lemma_join_split_scan(s, sep, 0, 0);
    assert(s.subrange(0, s.len() as int) =~= s);
}

/// Splits `s` at every occurrence of the non-empty separator `sep`.
pub fn split_by(s: &Vec<char>, sep: &[char]) -> (r: Vec<Vec<char>>)
    requires
        sep@.len() > 0,
    ensures
        r.deep_view() == split_seq(s@, sep@),
{
    let mut out: Vec<Vec<char>> = Vec::new();
    let mut pos: usize = 0;
    proof {
        assert(s@.subrange(0, s@.len() as int) =~= s@);
        assert(out.deep_view() + split_seq(s@, sep@) =~= split_seq(s@, sep@));
    }
    loop
        invariant
            sep@.len() > 0,
            pos <= s@.len(),
            out.deep_view() + split_seq(s@.subrange(pos as int, s@.len() as int), sep@) == split_seq(s@, sep@),
        decreases s@.len() - pos,
    {
        let found = find_from(s.as_slice(), sep, pos);
        match found {
            None => {
                proof {
                    lemma_split_last(s@, sep@, pos as int);
                }
                let piece = slice_chars(s, pos, s.len());
                let ghost old_dv = out.deep_view();
                out.push(piece);
                proof {
                    assert(out@.last().deep_view() =~= piece@);
                    assert(out.deep_view() =~= old_dv.push(piece@));
                    assert(old_dv.push(piece@) =~= old_dv + seq![piece@]);
                }
                return out;
            },
            Some(i) => {
                proof {
                    lemma_split_step(s@, sep@, pos as int, i as int);
                }
                let piece = slice_chars(s, pos, i);
                let ghost old_dv = out.deep_view();
                out.push(piece);
                proof {
                    assert(out@.last().deep_view() =~= piece@);
                    assert(out.deep_view() =~= old_dv.push(piece@));
                    assert(old_dv.push(piece@) + split_seq(s@.subrange(i + sep@.len(), s@.len() as int), sep@)
                        =~= old_dv + (seq![piece@] + split_seq(s@.subrange(i + sep@.len(), s@.len() as int), sep@)));
                }
                assert(i + sep@.len() <= s.len());
                pos = i + sep.len();
            },
        }
    }
}

/// A line without its trailing carriage return, if any.
pub open spec fn strip_cr(l: Seq<char>) -> Seq<char> {
    if l.len() > 0 && l.last() == '\r' {
        l.drop_last()
    } else {
        l
    }
}

/// The lines of `s` as `str::lines` yields them: split at `\n`, a `\r`
/// directly before a `\n` removed, and no final empty line after a
/// trailing `\n`.
pub open spec fn lines(s: Seq<char>) -> Seq<Seq<char>> {
    if s.len() == 0 {
        seq![]
    } else {
        let parts = split_seq(s, seq!['\n']);
        let stripped = parts.drop_last().map_values(|l: Seq<char>| strip_cr(l));
        if s.last() == '\n' {
            stripped
        } else {
            stripped.push(parts.last())
        }
    }
}

proof fn lemma_split_nonempty(s: Seq<char>, sep: Seq<char>)
    ensures
        split_seq(s, sep).len() > 0,
    decreases s.len(),
{
    reveal(split_seq);
}

/// The characters of `l` without a trailing carriage return.
pub fn strip_cr_chars(l: Vec<char>) -> (r: Vec<char>)
    ensures
        r@ == strip_cr(l@),
{
    let mut l = l;
    if l.len() > 0 && l[l.len() - 1] == '\r' {
        l.pop();
    }
    l
}

/// Splits `s` into lines exactly as `str::lines` does.
pub fn lines_of(s: &Vec<char>) -> (r: Vec<Vec<char>>)
    ensures
        r.deep_view() == lines(s@),
{
    let mut out: Vec<Vec<char>> = Vec::new();
    if s.len() == 0 {
        assert(out.deep_view() =~= lines(s@));
        return out;
    }
    let nl = ['\n'];
    assert(nl@ =~= seq!['\n']);
    let mut parts = split_by(s, &nl);
    let ghost pv = parts.deep_view();
    proof {
        lemma_split_nonempty(s@, seq!['\n']);
    }
    let last = parts.pop().unwrap();
    assert(last@ =~= pv.last());
    let ghost stripped = pv.drop_last().map_values(|l: Seq<char>| strip_cr(l));
    let mut i: usize = 0;
    while i < parts.len()
        invariant
            parts@.len() == pv.len() - 1,
            forall|k: int| 0 <= k < parts@.len() ==> parts@[k]@ == pv[k],
            i <= parts@.len(),
            out.deep_view() == stripped.subrange(0, i as int),
            stripped.len() == pv.len() - 1,
            forall|k: int| 0 <= k < stripped.len() ==> stripped[k] == strip_cr(pv[k]),
        decreases parts@.len() - i,
    {
        let c = parts[i].clone();
        assert(c@ =~= parts@[i as int]@);
        let l = strip_cr_chars(c);
        assert(l@ == stripped[i as int]);
        let ghost old_dv = out.deep_view();
        out.push(l);
        proof {
            assert(out@.last().deep_view() =~= l@);
            assert(out.deep_view() =~= old_dv.push(l@));
            assert(old_dv.push(l@) =~= stripped.subrange(0, i + 1));
        }
        i += 1;
    }
    assert(stripped.subrange(0, i as int) =~= stripped);
    if s[s.len() - 1] != '\n' {
        let ghost old_dv = out.deep_view();
        out.push(last);
        proof {
            assert(out@.last().deep_view() =~= last@);
            assert(out.deep_view() =~= old_dv.push(pv.last()));
        }
    }
    out
}

/// The white-space separated words of `s` (`str::split_whitespace`).
pub open spec fn words(s: Seq<char>) -> Seq<Seq<char>>
    decreases s.len(),
{
    if s.len() == 0 {
        seq![]
    } else {
        let w = words(s.drop_last());
        let c = s.last();
        if is_ws(c) {
            w
        } else if s.len() >= 2 && !is_ws(s[s.len() - 2]) {
            w.update(w.len() - 1, w.last().push(c))
        } else {
            w.push(seq![c])
        }
    }
}

/// Splits `s` into its white-space separated words.
pub fn words_of(s: &Vec<char>) -> (r: Vec<Vec<char>>)
    ensures
        r.deep_view() == words(s@),
{
    let mut out: Vec<Vec<char>> = Vec::new();
    let mut cur: Vec<char> = Vec::new();
    let mut i: usize = 0;
    proof {
        assert(s@.subrange(0, 0) =~= Seq::<char>::empty());
        assert(out.deep_view() =~= Seq::<Seq<char>>::empty());
    }
    while i < s.len()
        invariant
            i <= s@.len(),
            words(s@.subrange(0, i as int)) == (if cur@.len() > 0 {
                out.deep_view().push(cur@)
            } else {
                out.deep_view()
            }),
            cur@.len() > 0 <==> (i > 0 && !is_ws(s@[i - 1])),
        decreases s@.len() - i,
    {
        let c = s[i];
        let ghost prev = s@.subrange(0, i as int);
        assert(s@.subrange(0, i + 1).drop_last() =~= prev);
        if is_whitespace(c) {
            if cur.len() > 0 {
                let ghost old_dv = out.deep_view();
                out.push(cur);
                cur = Vec::new();
                proof {
                    assert(out@.last().deep_view() =~= out@.last()@);
                    assert(out.deep_view() =~= old_dv.push(out@.last()@));
                }
            }
        } else {
            let ghost old_cur = cur@;
            let ghost old_dv = out.deep_view();
            cur.push(c);
            proof {
                if old_cur.len() > 0 {
                    assert(old_dv.push(old_cur).update(old_dv.len() as int, old_cur.push(c)) =~= old_dv.push(cur@));
                } else {
                    assert(cur@ =~= seq![c]);
                }
            }
        }
        i += 1;
    }
    assert(s@.subrange(0, i as int) =~= s@);
    if cur.len() > 0 {
        let ghost old_dv = out.deep_view();
        let ghost cv = cur@;
        out.push(cur);
        proof {
            assert(out@.last().deep_view() =~= cv);
            assert(out.deep_view() =~= old_dv.push(cv));
        }
    }
    out
}

/// Lower-case mapping of a string as `str::to_lowercase` computes it
/// (Unicode full lower-case mapping; locale independent).
pub uninterp spec fn lowercase(s: Seq<char>) -> Seq<char>;

/// Whether every character is ASCII.
pub open spec fn all_ascii(s: Seq<char>) -> bool {
    forall|i: int| 0 <= i < s.len() ==> (#[trigger] s[i] as u32) < 128
}

/// Text in lower case: on ASCII text `A`..`Z` become `a`..`z` and every other
/// character stays; other text is lower-cased by the Unicode mapping.
pub open spec fn lower_text(s: Seq<char>) -> Seq<char> {
    if all_ascii(s) {
        s.map_values(|c: char| ascii_lower(c))
    } else {
        lowercase(s)
    }
}

/// `str::to_lowercase`: the Unicode lower-case mapping, named; on ASCII
/// text it maps `A`..`Z` to `a`..`z` and keeps every other character.
#[verifier::external_body]
pub(crate) fn to_lowercase(s: &str) -> (r: String)
    ensures
        r@ == lowercase(s@),
        all_ascii(s@) ==> r@ == s@.map_values(|c: char| ascii_lower(c)),
{
    s.to_lowercase()
}


/// A copy of a byte slice.
pub fn bytes_to_vec(s: &[u8]) -> (r: Vec<u8>)
    ensures
        r@ == s@,
{
    let mut out: Vec<u8> = Vec::new();
    let mut i: usize = 0;
    while i < s.len()
        invariant
            i <= s@.len(),
            out@ == s@.subrange(0, i as int),
        decreases s@.len() - i,
    {
        out.push(s[i]);
        i += 1;
    }
    assert(out@ =~= s@);
    out
}

/// The bytes `v[from..to]`.
pub fn byte_range(v: &Vec<u8>, from: usize, to: usize) -> (r: Vec<u8>)
    requires
        from <= to <= v@.len(),
    ensures
        r@ == v@.subrange(from as int, to as int),
{
    let mut out: Vec<u8> = Vec::new();
    let mut i = from;
    while i < to
        invariant
            from <= i <= to <= v@.len(),
            out@ == v@.subrange(from as int, i as int),
        decreases to - i,
    {
        out.push(v[i]);
        i += 1;
    }
    out
}

} // verus!
