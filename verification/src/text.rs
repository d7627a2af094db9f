use vstd::prelude::*;
use vstd::string::*;

verus! {

// ---------------------------------------------------------------------------
// Characters and case
// ---------------------------------------------------------------------------

/// ASCII lower-casing of one character; every other character is left as is.
pub open spec fn ascii_lower(c: char) -> char {
    if 'A' <= c && c <= 'Z' {
        ((c as u32) + 32) as char
    } else {
        c
    }
}

/// ASCII lower-casing of a whole text (what `to_ascii_lowercase` yields).
pub open spec fn lower_seq(s: Seq<char>) -> Seq<char> {
    s.map_values(|c: char| ascii_lower(c))
}

/// Two texts are equal when ASCII case is ignored.
pub open spec fn eq_ignore_case(a: Seq<char>, b: Seq<char>) -> bool {
    lower_seq(a) == lower_seq(b)
}

/// `needle` occurs in `hay` starting at position `i`.
pub open spec fn occurs_at(hay: Seq<char>, needle: Seq<char>, i: int) -> bool {
    0 <= i && i + needle.len() <= hay.len() && hay.subrange(i, i + needle.len()) == needle
}

/// `needle` occurs somewhere in `hay`.
pub open spec fn seq_contains(hay: Seq<char>, needle: Seq<char>) -> bool {
    exists|i: int| occurs_at(hay, needle, i)
}

/// Lower-cases one character the way `char::to_ascii_lowercase` does.
pub fn lower_char(c: char) -> (r: char)
    ensures
        r == ascii_lower(c),
{
    if 'A' <= c && c <= 'Z' {
        let code: u8 = (c as u8) + 32;
        code as char
    } else {
        c
    }
}

/// The characters of a text, in order.
pub fn chars_of(s: &str) -> (v: Vec<char>)
    ensures
        v@ == s@,
{
    let n = s.unicode_len();
    let mut v: Vec<char> = Vec::new();
    let mut i: usize = 0;
    while i < n
        invariant
            n == s@.len(),
            i <= n,
            v@ == s@.subrange(0, i as int),
        decreases n - i,
    {
        v.push(s.get_char(i));
        i = i + 1;
    }
    v
}

/// The characters of a text, lower-cased.
pub fn lowered_chars(s: &str) -> (v: Vec<char>)
    ensures
        v@ == lower_seq(s@),
{
    let n = s.unicode_len();
    let mut v: Vec<char> = Vec::new();
    let mut i: usize = 0;
    while i < n
        invariant
            n == s@.len(),
            i <= n,
            v@ == lower_seq(s@.subrange(0, i as int)),
        decreases n - i,
    {
        let c = lower_char(s.get_char(i));
        proof {
            assert(lower_seq(s@.subrange(0, i + 1)) =~= lower_seq(s@.subrange(0, i as int)).push(c));
        }
        v.push(c);
        i = i + 1;
    }
    proof {
        assert(s@.subrange(0, n as int) =~= s@);
    }
    v
}

/// Compares two character sequences for equality.
pub fn chars_equal(a: &Vec<char>, b: &Vec<char>) -> (r: bool)
    ensures
        r == (a@ == b@),
{
    if a.len() != b.len() {
        return false;
    }
    let mut i: usize = 0;
    while i < a.len()
        invariant
            a@.len() == b@.len(),
            i <= a@.len(),
            forall|j: int| 0 <= j < i ==> a@[j] == b@[j],
        decreases a@.len() - i,
    {
        if a[i] != b[i] {
            return false;
        }
        i = i + 1;
    }
    assert(a@ =~= b@);
    true
}

/// Whether the characters `v` spell `word`.
pub fn is_word(v: &Vec<char>, word: &str) -> (r: bool)
    ensures
        r == (v@ == word@),
{
    let w = chars_of(word);
    chars_equal(v, &w)
}

/// `str::eq_ignore_ascii_case`: equal once both sides are ASCII lower-cased.
pub fn eq_ignore_ascii_case(a: &str, b: &str) -> (r: bool)
    ensures
        r == eq_ignore_case(a@, b@),
{
    let la = lowered_chars(a);
    let lb = lowered_chars(b);
    chars_equal(&la, &lb)
}

/// Whether `needle` occurs in `hay`.
pub fn contains_chars(hay: &Vec<char>, needle: &Vec<char>) -> (r: bool)
    ensures
        r == seq_contains(hay@, needle@),
{
    let n = needle.len();
    let h = hay.len();
    if n > h {
        assert(!seq_contains(hay@, needle@));
        return false;
    }
    let mut i: usize = 0;
    while i <= h - n
        invariant
            n == needle@.len(),
            h == hay@.len(),
            n <= h,
            i <= h - n + 1,
            forall|k: int| 0 <= k < i ==> !occurs_at(hay@, needle@, k),
        decreases h - n + 1 - i,
    {
        let mut j: usize = 0;
        let mut matched = true;
        while j < n
            invariant
                n == needle@.len(),
                h == hay@.len(),
                i + n <= h,
                j <= n,
                matched == (forall|m: int| 0 <= m < j ==> hay@[i + m] == needle@[m]),
            decreases n - j,
        {
            if hay[i + j] != needle[j] {
                matched = false;
            }
            j = j + 1;
        }
        if matched {
            assert(hay@.subrange(i as int, i + n) =~= needle@);
            assert(occurs_at(hay@, needle@, i as int));
            return true;
        }
        assert(!occurs_at(hay@, needle@, i as int)) by {
            if hay@.subrange(i as int, i + n) == needle@ {
                assert forall|m: int| 0 <= m < n implies hay@[i + m] == needle@[m] by {
                    assert(hay@.subrange(i as int, i + n)[m] == hay@[i + m]);
                }
            }
        }
        i = i + 1;
    }
    assert forall|k: int| !occurs_at(hay@, needle@, k) by {
        if 0 <= k && k + n <= h {
            assert(k < i);
        }
    }
    false
}

// ---------------------------------------------------------------------------
// Splitting
// ---------------------------------------------------------------------------

/// Position of the last occurrence of `c` in `s`, or -1.
pub open spec fn rfind(s: Seq<char>, c: char) -> int
    decreases s.len(),
{
    if s.len() == 0 {
        -1
    } else if s.last() == c {
        s.len() - 1
    } else {
        rfind(s.drop_last(), c)
    }
}

/// What `s.rsplit(c).next()` yields: the text after the last `c`, or all of `s`.
pub open spec fn after_last(s: Seq<char>, c: char) -> Seq<char> {
    s.subrange(rfind(s, c) + 1, s.len() as int)
}

proof fn lemma_rfind_prefix(s: Seq<char>, c: char, i: int)
    requires
        0 <= i <= s.len(),
        forall|j: int| i <= j < s.len() ==> s[j] != c,
    ensures
        rfind(s, c) == rfind(s.subrange(0, i), c),
    decreases s.len() - i,
{
    if i < s.len() {
        assert(s.drop_last().subrange(0, i) =~= s.subrange(0, i));
        lemma_rfind_prefix(s.drop_last(), c, i);
    } else {
        assert(s.subrange(0, i) =~= s);
    }
}

/// The text after the last `c` in `s`, or `s` itself when `c` does not occur.
pub fn after_last_char(s: &str, c: char) -> (r: String)
    ensures
        r@ == after_last(s@, c),
{
    let v = chars_of(s);
    let n = v.len();
    let mut i: usize = n;
    while i > 0 && v[i - 1] != c
        invariant
            n == s@.len(),
            v@ == s@,
            i <= n,
            forall|j: int| i <= j < n ==> s@[j] != c,
        decreases i,
    {
        i = i - 1;
    }
    proof {
        lemma_rfind_prefix(s@, c, i as int);
        if i > 0 {
            assert(s@.subrange(0, i as int).last() == c);
        } else {
            assert(s@.subrange(0, 0) =~= Seq::<char>::empty());
        }
    }
    let part = s.substring_char(i, n);
    String::from_str(part)
}

// ---------------------------------------------------------------------------
// Decimal numbers
// ---------------------------------------------------------------------------

pub open spec fn is_digit(c: char) -> bool {
    '0' <= c && c <= '9'
}

pub open spec fn digit_value(c: char) -> nat {
    ((c as u32) - ('0' as u32)) as nat
}

pub open spec fn all_digits(s: Seq<char>) -> bool {
    forall|i: int| 0 <= i < s.len() ==> is_digit(s[i])
}

/// The number that a run of decimal digits spells.
pub open spec fn digits_value(s: Seq<char>) -> nat
    decreases s.len(),
{
    if s.len() == 0 {
        0
    } else {
        digits_value(s.drop_last()) * 10 + digit_value(s.last())
    }
}

/// What `str::parse` accepts for an unsigned integer no larger than `max`:
/// an optional `+`, then one or more ASCII digits.
pub open spec fn parse_unsigned(s: Seq<char>, max: nat) -> Option<nat> {
    let body = if s.len() > 0 && s[0] == '+' { s.drop_first() } else { s };
    if body.len() > 0 && all_digits(body) && digits_value(body) <= max {
        Some(digits_value(body))
    } else {
        None
    }
}

/// What `str::parse::<i32>` accepts: an optional `+` or `-`, then one or more
/// ASCII digits, with the value in the range of `i32`.
pub open spec fn parse_i32_spec(s: Seq<char>) -> Option<int> {
    if s.len() > 0 && s[0] == '-' {
        let body = s.drop_first();
        if body.len() > 0 && all_digits(body) && digits_value(body) <= 0x8000_0000 {
            Some(-(digits_value(body) as int))
        } else {
            None
        }
    } else {
        match parse_unsigned(s, 0x7fff_ffff) {
            Some(v) => Some(v as int),
            None => None,
        }
    }
}

proof fn lemma_digits_value_monotone(s: Seq<char>, i: int, j: int)
    requires
        0 <= i <= j <= s.len(),
        all_digits(s),
    ensures
        digits_value(s.subrange(0, i)) <= digits_value(s.subrange(0, j)),
    decreases j - i,
{
    if i < j {
        lemma_digits_value_monotone(s, i, j - 1);
        assert(s.subrange(0, j).drop_last() =~= s.subrange(0, j - 1));
    }
}

/// Reads the digits of `v` from position `start` on, as `str::parse` does for
/// an unsigned number bounded by `max`.
fn digits_from(v: &Vec<char>, start: usize, max: u64) -> (r: Option<u64>)
    requires
        start <= v@.len(),
    ensures
        ({
            let body = v@.subrange(start as int, v@.len() as int);
            match r {
                Some(x) => body.len() > 0 && all_digits(body) && digits_value(body) <= max
                    && x == digits_value(body),
                None => !(body.len() > 0 && all_digits(body) && digits_value(body) <= max),
            }
        }),
{
    let ghost body = v@.subrange(start as int, v@.len() as int);
    let n = v.len();
    if start == n {
        return None;
    }
    let mut acc: u64 = 0;
    let mut i: usize = start;
    while i < n
        invariant
            start < n,
            n == v@.len(),
            start <= i <= n,
            body == v@.subrange(start as int, n as int),
            all_digits(body.subrange(0, i - start)),
            acc == digits_value(body.subrange(0, i - start)),
            acc <= max,
        decreases n - i,
    {
        let c = v[i];
        if !('0' <= c && c <= '9') {
            assert(!all_digits(body)) by {
                assert(body[i - start] == c);
            }
            return None;
        }
        let d: u64 = (c as u32 - '0' as u32) as u64;
        assert(body.subrange(0, i + 1 - start).drop_last() =~= body.subrange(0, i - start));
        if d > max || acc > (max - d) / 10 {
            proof {
                if d <= max {
                    assert(acc * 10 + d > max) by (nonlinear_arith)
                        requires acc > (max - d) / 10, d <= max;
                }
                if all_digits(body) {
                    lemma_digits_value_monotone(body, i + 1 - start, body.len() as int);
                    assert(body.subrange(0, body.len() as int) =~= body);
                }
            }
            return None;
        }
        assert(acc * 10 + d <= max) by (nonlinear_arith)
            requires acc <= (max - d) / 10, d <= max;
        acc = acc * 10 + d;
        i = i + 1;
    }
    assert(body.subrange(0, n - start) =~= body);
    Some(acc)
}

/// `str::parse` for an unsigned integer type whose largest value is `max`,
/// on the characters of the text.
pub fn parse_unsigned_chars(v: &Vec<char>, max: u64) -> (r: Option<u64>)
    ensures
        match parse_unsigned(v@, max as nat) {
            Some(x) => r == Some(x as u64),
            None => r is None,
        },
{
    let start: usize = if v.len() > 0 && v[0] == '+' { 1 } else { 0 };
    proof {
        if start == 1 {
            assert(v@.subrange(1, v@.len() as int) =~= v@.drop_first());
        } else {
            assert(v@.subrange(0, v@.len() as int) =~= v@);
        }
    }
    digits_from(v, start, max)
}

/// `str::parse` for an unsigned integer type whose largest value is `max`.
pub fn parse_unsigned_bounded(s: &str, max: u64) -> (r: Option<u64>)
    ensures
        match parse_unsigned(s@, max as nat) {
            Some(x) => r == Some(x as u64),
            None => r is None,
        },
{
    let v = chars_of(s);
    parse_unsigned_chars(&v, max)
}

/// The characters of `v` from position `a` up to (not including) `b`.
pub fn sub_chars(v: &Vec<char>, a: usize, b: usize) -> (r: Vec<char>)
    requires
        a <= b <= v@.len(),
    ensures
        r@ == v@.subrange(a as int, b as int),
{
    let mut r: Vec<char> = Vec::new();
    let mut i: usize = a;
    while i < b
        invariant
            a <= i <= b,
            b <= v@.len(),
            r@ == v@.subrange(a as int, i as int),
        decreases b - i,
    {
        r.push(v[i]);
        i = i + 1;
    }
    r
}

/// `str::parse::<u64>`.
pub fn parse_u64(s: &str) -> (r: Option<u64>)
    ensures
        match parse_unsigned(s@, u64::MAX as nat) {
            Some(x) => r == Some(x as u64),
            None => r is None,
        },
{
    parse_unsigned_bounded(s, u64::MAX)
}

/// `str::parse::<u8>`.
pub fn parse_u8(s: &str) -> (r: Option<u8>)
    ensures
        match parse_unsigned(s@, u8::MAX as nat) {
            Some(x) => r == Some(x as u8),
            None => r is None,
        },
{
    match parse_unsigned_bounded(s, 255) {
        Some(x) => Some(x as u8),
        None => None,
    }
}

/// `str::parse::<i32>`.
pub fn parse_i32(s: &str) -> (r: Option<i32>)
    ensures
        match parse_i32_spec(s@) {
            Some(x) => r == Some(x as i32),
            None => r is None,
        },
{
    let v = chars_of(s);
    if v.len() > 0 && v[0] == '-' {
        assert(v@.subrange(1, v@.len() as int) =~= s@.drop_first());
        match digits_from(&v, 1, 0x8000_0000) {
            Some(x) => {
                let neg: i64 = 0i64 - (x as i64);
                Some(neg as i32)
            },
            None => None,
        }
    } else {
        match parse_unsigned_bounded(s, 0x7fff_ffff) {
            Some(x) => Some(x as i32),
            None => None,
        }
    }
}


/// The decimal digit character for `d` (`d < 10`).
pub open spec fn digit_char(d: nat) -> char {
    ((d + 48) as u32) as char
}

/// The decimal spelling of `n`, without sign or leading zeros.
pub open spec fn decimal(n: nat) -> Seq<char>
    decreases n,
{
    if n < 10 {
        seq![digit_char(n)]
    } else {
        decimal(n / 10).push(digit_char(n % 10))
    }
}

/// Appends one character to a string (`String::push`).
#[verifier::external_body]
pub fn push_char(s: &mut String, c: char)
    ensures
        final(s)@ == old(s)@.push(c),
{
    s.push(c);
}

/// Appends the decimal spelling of `n` to `out`.
pub fn push_decimal(out: &mut String, n: u64)
    ensures
        final(out)@ == old(out)@ + decimal(n as nat),
    decreases n,
{
    if n >= 10 {
        push_decimal(out, n / 10);
    }
    let d: u8 = (n % 10) as u8;
    let c: char = (d + 48) as char;
    push_char(out, c);
    proof {
        if n >= 10 {
            assert(decimal(n as nat) == decimal((n / 10) as nat).push(digit_char((n % 10) as nat)));
        }
    }
    assert(final(out)@ =~= old(out)@ + decimal(n as nat));
}

/// The decimal spelling of `n` (what `n.to_string()` gives).
pub fn format_u64(n: u64) -> (r: String)
    ensures
        r@ == decimal(n as nat),
{
    let mut out = String::new();
    push_decimal(&mut out, n);
    assert(out@ =~= decimal(n as nat));
    out
}

/// The lower-case hexadecimal digit for `d` (`d < 16`).
pub open spec fn hex_digit(d: nat) -> char {
    if d < 10 {
        ((d + 48) as u32) as char
    } else {
        ((d + 87) as u32) as char
    }
}

/// Lower-case hexadecimal spelling of bytes, two digits per byte (`{:x}`).
pub open spec fn hex_lower(bytes: Seq<u8>) -> Seq<char>
    decreases bytes.len(),
{
    if bytes.len() == 0 {
        Seq::empty()
    } else {
        hex_lower(bytes.drop_last()) + seq![
            hex_digit((bytes.last() / 16) as nat),
            hex_digit((bytes.last() % 16) as nat),
        ]
    }
}

fn hex_digit_char(d: u8) -> (c: char)
    requires
        d < 16,
    ensures
        c == hex_digit(d as nat),
{
    if d < 10 {
        (d + 48) as char
    } else {
        (d + 87) as char
    }
}

/// Lower-case hexadecimal spelling of `bytes`.
pub fn to_hex_lower(bytes: &Vec<u8>) -> (r: String)
    ensures
        r@ == hex_lower(bytes@),
        r@.len() == 2 * bytes@.len(),
{
    let mut out = String::new();
    let mut i: usize = 0;
    while i < bytes.len()
        invariant
            i <= bytes@.len(),
            out@ == hex_lower(bytes@.subrange(0, i as int)),
            out@.len() == 2 * i,
        decreases bytes@.len() - i,
    {
        let b = bytes[i];
        let hi = hex_digit_char(b / 16);
        let lo = hex_digit_char(b % 16);
        push_char(&mut out, hi);
        push_char(&mut out, lo);
        proof {
            let pre = bytes@.subrange(0, i + 1);
            assert(pre.drop_last() =~= bytes@.subrange(0, i as int));
            assert(pre.last() == b);
        }
        assert(out@ =~= hex_lower(bytes@.subrange(0, i + 1)));
        i = i + 1;
    }
    assert(bytes@.subrange(0, i as int) =~= bytes@);
    out
}

/// Position of the first occurrence of `c` in `s`, or -1.
pub open spec fn find(s: Seq<char>, c: char) -> int
    decreases s.len(),
{
    if s.len() == 0 {
        -1
    } else if s[0] == c {
        0
    } else {
        let k = find(s.drop_first(), c);
        if k < 0 { -1 } else { k + 1 }
    }
}

pub proof fn lemma_find_scan(s: Seq<char>, c: char, i: int)
    requires
        0 <= i <= s.len(),
        forall|j: int| 0 <= j < i ==> s[j] != c,
    ensures
        i < s.len() && s[i] == c ==> find(s, c) == i,
        i == s.len() ==> find(s, c) == -1,
    decreases i,
{
    if i > 0 {
        lemma_find_scan(s.drop_first(), c, i - 1);
    } else if s.len() == 0 {
    }
}

/// Position of the first `c` in `s`, if any.
pub fn find_char(s: &Vec<char>, c: char) -> (r: Option<usize>)
    ensures
        match r {
            Some(k) => find(s@, c) == k && k < s@.len() && s@[k as int] == c,
            None => find(s@, c) == -1 && !s@.contains(c),
        },
{
    let mut i: usize = 0;
    while i < s.len()
        invariant
            i <= s@.len(),
            forall|j: int| 0 <= j < i ==> s@[j] != c,
        decreases s@.len() - i,
    {
        if s[i] == c {
            proof { lemma_find_scan(s@, c, i as int); }
            return Some(i);
        }
        i = i + 1;
    }
    proof { lemma_find_scan(s@, c, i as int); }
    None
}

/// A decimal spelling is made of digits and spells its number.
pub proof fn lemma_decimal_digits(n: nat)
    ensures
        decimal(n).len() > 0,
        all_digits(decimal(n)),
        digits_value(decimal(n)) == n,
    decreases n,
{
    if n >= 10 {
        lemma_decimal_digits(n / 10);
        let p = decimal(n / 10);
        let d = decimal(n);
        assert(d.drop_last() =~= p);
        assert(d.last() == digit_char(n % 10));
        assert(digit_value(digit_char(n % 10)) == n % 10);
        assert(digits_value(d) == digits_value(d.drop_last()) * 10 + digit_value(d.last()));
        assert((n / 10) * 10 + n % 10 == n);
        assert forall|i: int| 0 <= i < d.len() implies is_digit(d[i]) by {
            if i < p.len() {
                assert(d[i] == p[i]);
            }
        }
    } else {
        let d = decimal(n);
        assert(digit_value(digit_char(n)) == n);
        assert(d.drop_last() =~= Seq::<char>::empty());
        assert(digits_value(d.drop_last()) == 0);
        assert(digits_value(d) == digits_value(d.drop_last()) * 10 + digit_value(d.last()));
    }
}

/// `str::parse` reads a decimal spelling back as its number.
pub proof fn lemma_decimal_parses(n: nat, max: nat)
    requires
        n <= max,
    ensures
        parse_unsigned(decimal(n), max) == Some(n),
{
    lemma_decimal_digits(n);
    assert(is_digit(decimal(n)[0]));
}

/// A text that reads as an unsigned number holds neither `-` nor `,`.
pub proof fn lemma_parsed_has_no_sign_or_comma(s: Seq<char>, max: nat)
    requires
        parse_unsigned(s, max) is Some,
    ensures
        forall|i: int| 0 <= i < s.len() ==> s[i] != '-' && s[i] != ',',
{
    let body = if s.len() > 0 && s[0] == '+' { s.drop_first() } else { s };
    assert forall|i: int| 0 <= i < s.len() implies s[i] != '-' && s[i] != ',' by {
        if s.len() > 0 && s[0] == '+' {
            if i > 0 {
                assert(s[i] == body[i - 1]);
                assert(is_digit(body[i - 1]));
            }
        } else {
            assert(is_digit(body[i]));
        }
    }
}

} // verus!
