use vstd::prelude::*;

verus! {

/// The characters with the Unicode `White_Space` property, which is what
/// `char::is_whitespace` tests.
pub open spec fn is_white_space(c: char) -> bool {
    let n = c as u32;
    ||| 0x09 <= n <= 0x0D
    ||| n == 0x20
    ||| n == 0x85
    ||| n == 0xA0
    ||| n == 0x1680
    ||| 0x2000 <= n <= 0x200A
    ||| n == 0x2028
    ||| n == 0x2029
    ||| n == 0x202F
    ||| n == 0x205F
    ||| n == 0x3000
}

/// `s` without its leading white space.
pub open spec fn trim_start(s: Seq<char>) -> Seq<char>
    decreases s.len(),
{
    if s.len() > 0 && is_white_space(s[0]) {
        trim_start(s.drop_first())
    } else {
        s
    }
}

/// `s` without its trailing white space.
pub open spec fn trim_end(s: Seq<char>) -> Seq<char>
    decreases s.len(),
{
    if s.len() > 0 && is_white_space(s.last()) {
        trim_end(s.drop_last())
    } else {
        s
    }
}

/// `s` without leading and trailing white space, as `str::trim` gives it.
pub open spec fn trim(s: Seq<char>) -> Seq<char> {
    trim_end(trim_start(s))
}

/// The code of `c` after ASCII upper-casing: `'a'..='z'` become
/// `'A'..='Z'`, every other character keeps its code.
pub open spec fn ascii_upper_code(c: char) -> u32 {
    let n = c as u32;
    if 0x61 <= n <= 0x7A {
        (n - 32) as u32
    } else {
        n
    }
}

/// Whether `s`, upper-cased in ASCII, is exactly `name`.
pub open spec fn upper_equals(s: Seq<char>, name: Seq<char>) -> bool {
    &&& s.len() == name.len()
    &&& forall|i: int| 0 <= i < s.len() ==> ascii_upper_code(#[trigger] s[i]) == name[i] as u32
}

/// Whether `a` and `b` are equal once both are upper-cased in ASCII.
pub open spec fn equal_ignoring_ascii_case(a: Seq<char>, b: Seq<char>) -> bool {
    &&& a.len() == b.len()
    &&& forall|i: int| 0 <= i < a.len() ==> ascii_upper_code(#[trigger] a[i]) == ascii_upper_code(b[i])
}

/// Sequences equal up to ASCII case spell the same upper-case names.
pub proof fn lemma_upper_equals_ignores_case(a: Seq<char>, b: Seq<char>)
    requires
        equal_ignoring_ascii_case(a, b),
    ensures
        forall|name: Seq<char>| upper_equals(a, name) == upper_equals(b, name),
{
    assert forall|name: Seq<char>| upper_equals(a, name) implies upper_equals(b, name) by {
        assert forall|i: int| 0 <= i < b.len() implies ascii_upper_code(#[trigger] b[i])
            == name[i] as u32 by {
            assert(ascii_upper_code(a[i]) == ascii_upper_code(b[i]));
        }
    }
    assert forall|name: Seq<char>| upper_equals(b, name) implies upper_equals(a, name) by {
        assert forall|i: int| 0 <= i < a.len() implies ascii_upper_code(#[trigger] a[i])
            == name[i] as u32 by {
            assert(ascii_upper_code(a[i]) == ascii_upper_code(b[i]));
        }
    }
}

/// `trim_start` leaves a sequence that is empty or starts with a character
/// that is not white space.
proof fn lemma_trim_start_head(s: Seq<char>)
    ensures
        trim_start(s).len() == 0 || !is_white_space(trim_start(s)[0]),
    decreases s.len(),
{
    if s.len() > 0 && is_white_space(s[0]) {
        lemma_trim_start_head(s.drop_first());
    }
}

/// `trim_end` keeps a head that is not white space.
proof fn lemma_trim_end_keeps_head(s: Seq<char>)
    requires
        s.len() == 0 || !is_white_space(s[0]),
    ensures
        trim_end(s).len() == 0 || !is_white_space(trim_end(s)[0]),
    decreases s.len(),
{
    if s.len() > 0 && is_white_space(s.last()) {
        lemma_trim_end_keeps_head(s.drop_last());
    }
}

/// Trimming the end twice is trimming it once.
proof fn lemma_trim_end_idempotent(s: Seq<char>)
    ensures
        trim_end(trim_end(s)) == trim_end(s),
    decreases s.len(),
{
    if s.len() > 0 && is_white_space(s.last()) {
        lemma_trim_end_idempotent(s.drop_last());
    }
}

/// Trimming twice is trimming once.
pub proof fn lemma_trim_idempotent(s: Seq<char>)
    ensures
        trim(trim(s)) == trim(s),
{
    let x = trim_start(s);
    lemma_trim_start_head(s);
    lemma_trim_end_keeps_head(x);
    lemma_trim_end_idempotent(x);
}

/// Whether every character of `s` is white space.
pub open spec fn all_white_space(s: Seq<char>) -> bool {
    forall|i: int| 0 <= i < s.len() ==> is_white_space(#[trigger] s[i])
}

/// Leading white space is dropped by `trim_start`.
proof fn lemma_trim_start_skips(pad: Seq<char>, s: Seq<char>)
    requires
        all_white_space(pad),
    ensures
        trim_start(pad + s) == trim_start(s),
    decreases pad.len(),
{
    if pad.len() > 0 {
        assert((pad + s)[0] == pad[0]);
        assert((pad + s).drop_first() =~= pad.drop_first() + s);
        assert forall|i: int| 0 <= i < pad.drop_first().len() implies is_white_space(
            #[trigger] pad.drop_first()[i],
        ) by {
            assert(pad.drop_first()[i] == pad[i + 1]);
        }
        lemma_trim_start_skips(pad.drop_first(), s);
    } else {
        assert(pad + s =~= s);
    }
}

/// Trailing white space is dropped by `trim_end`.
proof fn lemma_trim_end_skips(s: Seq<char>, pad: Seq<char>)
    requires
        all_white_space(pad),
    ensures
        trim_end(s + pad) == trim_end(s),
    decreases pad.len(),
{
    if pad.len() > 0 {
        assert((s + pad).last() == pad.last());
        assert((s + pad).drop_last() =~= s + pad.drop_last());
        assert forall|i: int| 0 <= i < pad.drop_last().len() implies is_white_space(
            #[trigger] pad.drop_last()[i],
        ) by {
            assert(pad.drop_last()[i] == pad[i]);
        }
        lemma_trim_end_skips(s, pad.drop_last());
    } else {
        assert(s + pad =~= s);
    }
}

/// `trim` removes exactly the white space around a text: any white space
/// before and after, and nothing of a text that starts and ends with other
/// characters.
pub proof fn lemma_trim_removes_surrounding_white_space(
    before: Seq<char>,
    text: Seq<char>,
    after: Seq<char>,
)
    requires
        all_white_space(before),
        all_white_space(after),
        text.len() == 0 || (!is_white_space(text[0]) && !is_white_space(text.last())),
    ensures
        trim(before + text + after) == text,
{
    assert(before + text + after =~= before + (text + after));
    lemma_trim_start_skips(before, text + after);
    if text.len() == 0 {
        assert(text + after =~= Seq::<char>::empty() + after);
        lemma_trim_start_skips(after, Seq::<char>::empty());
        assert(Seq::<char>::empty() + after =~= after);
        assert(after + Seq::<char>::empty() =~= after);
        assert(trim_start(Seq::<char>::empty()) == Seq::<char>::empty());
        assert(trim_end(Seq::<char>::empty()) == Seq::<char>::empty());
    } else {
        assert((text + after)[0] == text[0]);
        assert(trim_start(text + after) == text + after);
        lemma_trim_end_skips(text, after);
        assert(trim_end(text) == text);
    }
}

/// Tests a character for the Unicode `White_Space` property.
pub fn is_white_space_char(c: char) -> (b: bool)
    ensures
        b == is_white_space(c),
{
    let n = c as u32;
    (0x09 <= n && n <= 0x0D) || n == 0x20 || n == 0x85 || n == 0xA0 || n == 0x1680 || (0x2000
        <= n && n <= 0x200A) || n == 0x2028 || n == 0x2029 || n == 0x202F || n == 0x205F || n
        == 0x3000
}

/// The characters of `s`, in order.
pub fn chars_of(s: &str) -> (v: Vec<char>)
    ensures
        v@ == s@,
{
    let n = s.unicode_len();
    let mut v: Vec<char> = Vec::new();
    let mut i: usize = 0;
    while i < n
        invariant
            n == s@.len(),
            i <= n,
            v@ == s@.subrange(0, i as int),
        decreases n - i,
    {
        v.push(s.get_char(i));
        i = i + 1;
    }
    v
}

/// `s` with leading and trailing white space removed.
pub fn trim_str(s: &str) -> (t: &str)
    ensures
        t@ == trim(s@),
{
    let chars = chars_of(s);
    let n = chars.len();
    let mut lo: usize = 0;
    assert(s@.subrange(0, n as int) =~= s@);
    while lo < n && is_white_space_char(chars[lo])
        invariant
            n == s@.len(),
            chars@ == s@,
            lo <= n,
            trim_start(s@) == trim_start(s@.subrange(lo as int, n as int)),
        decreases n - lo,
    {
        assert(s@.subrange(lo as int, n as int).drop_first() =~= s@.subrange(
            lo + 1,
            n as int,
        ));
        lo = lo + 1;
    }
    let ghost rest = s@.subrange(lo as int, n as int);
    assert(trim_start(s@) == rest);
    let mut hi: usize = n;
    while hi > lo && is_white_space_char(chars[hi - 1])
        invariant
            n == s@.len(),
            chars@ == s@,
            lo <= hi <= n,
            rest == s@.subrange(lo as int, n as int),
            trim_end(rest) == trim_end(s@.subrange(lo as int, hi as int)),
        decreases hi - lo,
    {
        assert(s@.subrange(lo as int, hi as int).drop_last() =~= s@.subrange(
            lo as int,
            hi - 1,
        ));
        hi = hi - 1;
    }
    s.substring_char(lo, hi)
}

/// Whether `chars`, upper-cased in ASCII, spell `name`.
pub fn upper_equals_str(chars: &Vec<char>, name: &str) -> (b: bool)
    ensures
        b == upper_equals(chars@, name@),
{
    let n = name.unicode_len();
    if chars.len() != n {
        return false;
    }
    let mut i: usize = 0;
    while i < n
        invariant
            n == name@.len(),
            chars@.len() == n,
            i <= n,
            forall|j: int| 0 <= j < i ==> ascii_upper_code(#[trigger] chars@[j]) == name@[j] as u32,
        decreases n - i,
    {
        let n = chars[i] as u32;
        let code: u32 = if 0x61 <= n && n <= 0x7A {
            n - 32
        } else {
            n
        };
        if code != name.get_char(i) as u32 {
            return false;
        }
        i = i + 1;
    }
    true
}

/// Whether `c` is one of the ASCII digits `0` to `9`.
pub open spec fn is_ascii_digit(c: char) -> bool {
    0x30 <= c as u32 <= 0x39
}

/// Whether every character of `s` is an ASCII digit.
pub open spec fn all_digits(s: Seq<char>) -> bool {
    forall|i: int| 0 <= i < s.len() ==> is_ascii_digit(#[trigger] s[i])
}

/// The value of the decimal digits `s`.
pub open spec fn decimal_value(s: Seq<char>) -> nat
    decreases s.len(),
{
    if s.len() == 0 {
        0
    } else {
        decimal_value(s.drop_last()) * 10 + (s.last() as u32 - 0x30) as nat
    }
}

/// What `str::parse::<u64>` gives for `s`: an optional `+`, then one or
/// more ASCII digits whose value fits in a `u64`.
pub open spec fn u64_from_str(s: Seq<char>) -> Option<u64> {
    let digits = if s.len() > 0 && s[0] == '+' {
        s.drop_first()
    } else {
        s
    };
    if digits.len() > 0 && all_digits(digits) && decimal_value(digits) <= u64::MAX {
        Some(decimal_value(digits) as u64)
    } else {
        None
    }
}

/// The ASCII digit for `d` (below ten).
pub open spec fn digit_char(d: nat) -> char {
    ((d + 0x30) as u32) as char
}

/// The decimal digits of `n`, with no leading zero.
pub open spec fn decimal_digits(n: nat) -> Seq<char>
    decreases n,
{
    if n < 10 {
        seq![digit_char(n)]
    } else {
        decimal_digits(n / 10).push(digit_char(n % 10))
    }
}

/// The decimal digits of `n` are ASCII digits, start with no `+`, and are
/// worth `n`.
proof fn lemma_decimal_digits(n: nat)
    ensures
        decimal_digits(n).len() > 0,
        all_digits(decimal_digits(n)),
        decimal_value(decimal_digits(n)) == n,
    decreases n,
{
    let d = n % 10;
    assert(digit_char(d) as u32 == d + 0x30);
    let s = decimal_digits(n);
    if n >= 10 {
        lemma_decimal_digits(n / 10);
        let prefix = decimal_digits(n / 10);
        assert(s.drop_last() =~= prefix);
        assert(s.last() == digit_char(d));
        assert(decimal_value(s) == n / 10 * 10 + d);
        assert(n / 10 * 10 + n % 10 == n) by (nonlinear_arith);
        assert forall|i: int| 0 <= i < s.len() implies is_ascii_digit(#[trigger] s[i]) by {
            if i < prefix.len() {
                assert(s[i] == prefix[i]);
            }
        }
    } else {
        assert(is_ascii_digit(s[0]));
        assert(s.drop_last() =~= Seq::<char>::empty());
        assert(decimal_value(Seq::<char>::empty()) == 0);
        assert(s.last() == digit_char(n));
        assert(decimal_value(s) == n);
    }
}

/// Parsing the decimal digits of a number gives that number back.
pub proof fn lemma_parse_decimal_digits(n: u64)
    ensures
        u64_from_str(decimal_digits(n as nat)) == Some(n),
{
    lemma_decimal_digits(n as nat);
    let s = decimal_digits(n as nat);
    assert(is_ascii_digit(s[0]));
}

/// A leading `+` before the digits does not change what is parsed.
pub proof fn lemma_parse_plus_sign(s: Seq<char>)
    requires
        s.len() > 0,
        s[0] != '+',
    ensures
        u64_from_str(seq!['+'] + s) == u64_from_str(s),
{
    assert((seq!['+'] + s).drop_first() =~= s);
}

/// A prefix of digits is worth no more than the whole.
proof fn lemma_decimal_prefix_le(d: Seq<char>, j: int)
    requires
        0 <= j <= d.len(),
        forall|i: int| 0 <= i < d.len() ==> is_ascii_digit(#[trigger] d[i]),
    ensures
        decimal_value(d.subrange(0, j)) <= decimal_value(d),
    decreases d.len(),
{
    if j < d.len() {
        let shorter = d.drop_last();
        assert(shorter.subrange(0, j) =~= d.subrange(0, j));
        assert forall|i: int| 0 <= i < shorter.len() implies is_ascii_digit(#[trigger] shorter[i]) by {
            assert(shorter[i] == d[i]);
        }
        lemma_decimal_prefix_le(shorter, j);
    } else {
        assert(d.subrange(0, j) =~= d);
    }
}

/// Parses `s` as `str::parse::<u64>` does.
pub fn parse_u64(s: &str) -> (value: Option<u64>)
    ensures
        value == u64_from_str(s@),
{
    let chars = chars_of(s);
    let n = chars.len();
    let start: usize = if n > 0 && chars[0] == '+' {
        1
    } else {
        0
    };
    let ghost digits = s@.subrange(start as int, n as int);
    assert(digits =~= (if s@.len() > 0 && s@[0] == '+' {
        s@.drop_first()
    } else {
        s@
    }));
    if start >= n {
        return None;
    }
    let mut acc: u64 = 0;
    let mut i: usize = start;
    assert(s@.subrange(start as int, start as int) =~= Seq::<char>::empty());
    while i < n
        invariant
            n == s@.len(),
            chars@ == s@,
            start <= i <= n,
            digits == s@.subrange(start as int, n as int),
            digits == (if s@.len() > 0 && s@[0] == '+' {
                s@.drop_first()
            } else {
                s@
            }),
            digits.len() > 0,
            forall|k: int| start <= k < i ==> is_ascii_digit(#[trigger] s@[k]),
            acc == decimal_value(s@.subrange(start as int, i as int)),
        decreases n - i,
    {
        let c = chars[i] as u32;
        if c < 0x30 || c > 0x39 {
            assert(!is_ascii_digit(digits[i - start]));
            assert(!all_digits(digits));
            return None;
        }
        let d: u64 = (c - 0x30) as u64;
        let ghost next = s@.subrange(start as int, i + 1);
        assert(next.drop_last() =~= s@.subrange(start as int, i as int));
        let grown = match acc.checked_mul(10) {
            Some(t) => t.checked_add(d),
            None => None,
        };
        match grown {
            Some(v) => {
                acc = v;
                i = i + 1;
            },
            None => {
                proof {
                    if all_digits(digits) {
                        assert(digits.subrange(0, i + 1 - start) =~= next);
                        lemma_decimal_prefix_le(digits, i + 1 - start);
                    }
                }
                return None;
            },
        }
    }
    assert(digits =~= s@.subrange(start as int, i as int));
    assert forall|k: int| 0 <= k < digits.len() implies is_ascii_digit(#[trigger] digits[k]) by {
        assert(digits[k] == s@[k + start]);
    }
    assert(all_digits(digits));
    Some(acc)
}

} // verus!
