use sanitizer::prelude::StringSanitizer;
use vstd::prelude::*;

verus! {

/// An ASCII decimal digit.
pub open spec fn is_digit(c: char) -> bool {
    '0' <= c && c <= '9'
}

/// The ASCII digits of `s`, in order.
pub open spec fn ascii_digits(s: Seq<char>) -> Seq<char>
    decreases s.len(),
{
    if s.len() == 0 {
        seq![]
    } else if is_digit(s.last()) {
        ascii_digits(s.drop_last()).push(s.last())
    } else {
        ascii_digits(s.drop_last())
    }
}

/// `s` without its leading zeros, keeping the last character.
pub open spec fn strip_zeros(s: Seq<char>) -> Seq<char>
    decreases s.len(),
{
    if s.len() > 1 && s[0] == '0' {
        strip_zeros(s.drop_first())
    } else {
        s
    }
}

/// The first `n` characters of `s`, or all of it if it is shorter.
pub open spec fn clamp_len(s: Seq<char>, n: nat) -> Seq<char> {
    if s.len() > n {
        s.take(n as int)
    } else {
        s
    }
}

/// What the numeric-field sanitiser makes of `s`: its digits, without
/// leading zeros (one digit is kept), or "0" where it holds no digit, at most
/// `n` characters long.
pub open spec fn sanitized(s: Seq<char>, n: nat) -> Seq<char> {
    clamp_len(
        if ascii_digits(s).len() == 0 {
            seq!['0']
        } else {
            strip_zeros(ascii_digits(s))
        },
        n,
    )
}

/// What sanitizer's `StringSanitizer::numeric` keeps of a string: the
/// characters that have a Unicode number category.
pub uninterp spec fn numeric_part(s: Seq<char>) -> Seq<char>;

/// Relies on sanitizer's `StringSanitizer::numeric`, which keeps the characters
/// of the string for which `char::is_numeric` holds, in order; every ASCII digit
/// is such a character, so the ASCII digits of the result are those of `s`.
#[verifier::external_body]
fn keep_numeric(s: &str) -> (r: String)
    ensures
        r@ == numeric_part(s@),
        ascii_digits(r@) == ascii_digits(s@),
{
    let mut sanitizer = StringSanitizer::from(s);
    sanitizer.numeric();
    sanitizer.get()
}

proof fn lemma_ascii_digits_take(s: Seq<char>, i: int)
    requires
        0 <= i < s.len(),
    ensures
        ascii_digits(s.take(i + 1)) == (if is_digit(s[i]) {
            ascii_digits(s.take(i)).push(s[i])
        } else {
            ascii_digits(s.take(i))
        }),
{
    assert(s.take(i + 1).drop_last() == s.take(i));
}

/// The ASCII digits of `s`.
fn digits_only(s: &str) -> (r: String)
    ensures
        r@ == ascii_digits(s@),
{
    let n = s.unicode_len();
    let mut out = String::new();
    let mut i: usize = 0;
    while i < n
        invariant
            n == s@.len(),
            i <= n,
            out@ == ascii_digits(s@.take(i as int)),
        decreases n - i,
    {
        let c = s.get_char(i);
        proof {
            lemma_ascii_digits_take(s@, i as int);
        }
        if '0' <= c && c <= '9' {
            out.append(s.substring_char(i, i + 1));
            assert(s@.subrange(i as int, i + 1) == seq![c]);
        }
        i = i + 1;
    }
    assert(s@.take(n as int) == s@);
    out
}

/// `s` without its leading zeros, keeping the last character.
fn without_leading_zeros(s: &str) -> (r: String)
    ensures
        r@ == strip_zeros(s@),
{
    let n = s.unicode_len();
    let mut k: usize = 0;
    assert(s@.subrange(0, n as int) == s@);
    while k + 1 < n && s.get_char(k) == '0'
        invariant
            n == s@.len(),
            k <= n,
            n == 0 || k < n,
            strip_zeros(s@.subrange(k as int, n as int)) == strip_zeros(s@),
        decreases n - k,
    {
        assert(s@.subrange(k as int, n as int).drop_first() == s@.subrange(k + 1, n as int));
        k = k + 1;
    }
    let r = String::from_str(s.substring_char(k, n));
    proof {
        let t = s@.subrange(k as int, n as int);
        assert(!(t.len() > 1 && t[0] == '0'));
    }
    r
}

/// Cuts `string` down to its first `max_length` characters if it is longer.
pub fn truncate_string(string: &mut String, max_length: usize)
    ensures
        final(string)@ == clamp_len(old(string)@, max_length as nat),
{
    if string.as_str().unicode_len() >= max_length {
        let cut = String::from_str(string.as_str().substring_char(0, max_length));
        *string = cut;
    }
}

/// Sanitises a numeric text field in place: only its ASCII digits are kept,
/// leading zeros are dropped (one digit stays), a field with no digit
/// becomes "0", and it is cut to `max_length` characters.
pub fn sanitize_string(string: &mut String, max_length: usize)
    ensures
        final(string)@ == sanitized(old(string)@, max_length as nat),
{
    let numeric = keep_numeric(string.as_str());
    let digits = digits_only(numeric.as_str());
    if digits.as_str().unicode_len() == 0 {
        proof {
            reveal_strlit("0");
        }
        *string = String::from_str("0");
    } else {
        *string = without_leading_zeros(digits.as_str());
    }
    truncate_string(string, max_length);
}

/// The value of an ASCII digit.
pub open spec fn digit_value(c: char) -> nat {
    ((c as u32) - ('0' as u32)) as nat
}

/// Every character of `s` is an ASCII digit.
pub open spec fn all_digits(s: Seq<char>) -> bool {
    forall|i: int| 0 <= i < s.len() ==> is_digit(#[trigger] s[i])
}

/// The value of a string of ASCII digits read in base ten.
pub open spec fn digits_value(s: Seq<char>) -> nat
    decreases s.len(),
{
    if s.len() == 0 {
        0
    } else {
        digits_value(s.drop_last()) * 10 + digit_value(s.last())
    }
}

/// The value of `s` if it is one or more ASCII digits whose value is at most `bound`.
pub open spec fn bounded_digits(s: Seq<char>, bound: nat) -> Option<nat> {
    if s.len() > 0 && all_digits(s) && digits_value(s) <= bound {
        Some(digits_value(s))
    } else {
        None
    }
}

/// `s` without a leading `+`.
pub open spec fn unsigned_body(s: Seq<char>) -> Seq<char> {
    if s.len() > 0 && s[0] == '+' {
        s.drop_first()
    } else {
        s
    }
}

/// Rust's text form of a `u64`: an optional `+`, then one or more ASCII
/// digits, with the value in range.
pub open spec fn parse_u64_text(s: Seq<char>) -> Option<u64> {
    match bounded_digits(unsigned_body(s), u64::MAX as nat) {
        Some(v) => Some(v as u64),
        None => None,
    }
}

/// Rust's text form of an `i64`: an optional `+` or `-`, then one or more
/// ASCII digits, with the value in range.
pub open spec fn parse_i64_text(s: Seq<char>) -> Option<i64> {
    if s.len() > 0 && s[0] == '-' {
        match bounded_digits(s.drop_first(), 0x8000_0000_0000_0000) {
            Some(v) => Some((-v) as i64),
            None => None,
        }
    } else {
        match bounded_digits(unsigned_body(s), i64::MAX as nat) {
            Some(v) => Some(v as i64),
            None => None,
        }
    }
}

/// The `u64` that `s` spells, or 0 where it spells none.
pub open spec fn u64_or_zero(s: Seq<char>) -> u64 {
    match parse_u64_text(s) {
        Some(v) => v,
        None => 0,
    }
}

/// The `i64` that `s` spells, or 0 where it spells none.
pub open spec fn i64_or_zero(s: Seq<char>) -> i64 {
    match parse_i64_text(s) {
        Some(v) => v,
        None => 0,
    }
}

proof fn lemma_digits_value_grows(s: Seq<char>, j: int)
    requires
        all_digits(s),
        0 <= j <= s.len(),
    ensures
        digits_value(s.take(j)) <= digits_value(s),
    decreases s.len(),
{
    if j < s.len() {
        assert(all_digits(s.drop_last()));
        assert(s.drop_last().take(j) == s.take(j));
        lemma_digits_value_grows(s.drop_last(), j);
    } else {
        assert(s.take(j) == s);
    }
}

/// The value of the digits of `s` from `start` on, if they are one or more
/// ASCII digits whose value is at most `bound`.
fn parse_digits(s: &str, start: usize, bound: u128) -> (r: Option<u128>)
    requires
        start <= s@.len(),
        bound <= u64::MAX,
    ensures
        r == (match bounded_digits(s@.subrange(start as int, s@.len() as int), bound as nat) {
            Some(v) => Some(v as u128),
            None => None::<u128>,
        }),
{
    let n = s.unicode_len();
    let ghost body = s@.subrange(start as int, n as int);
    if start == n {
        return None;
    }
    let mut acc: u128 = 0;
    let mut i: usize = start;
    while i < n
        invariant
            n == s@.len(),
            start <= i <= n,
            body == s@.subrange(start as int, n as int),
            acc == digits_value(body.take(i - start)),
            acc <= bound,
            bound <= u64::MAX,
            forall|j: int| 0 <= j < i - start ==> is_digit(#[trigger] body[j]),
        decreases n - i,
    {
        let c = s.get_char(i);
        assert(body[i - start] == c);
        if !('0' <= c && c <= '9') {
            assert(!all_digits(body));
            return None;
        }
        let ghost prefix = body.take(i - start + 1);
        assert(prefix.drop_last() == body.take(i - start));
        let next: u128 = acc * 10 + (c as u32 - '0' as u32) as u128;
        assert(next == digits_value(prefix));
        if next > bound {
            proof {
                if all_digits(body) {
                    lemma_digits_value_grows(body, i - start + 1);
                }
            }
            return None;
        }
        acc = next;
        i = i + 1;
    }
    assert(body.take(n - start) == body);
    Some(acc)
}

/// The `u64` that `s` spells in Rust's text form (an optional `+`, then
/// digits), or 0 where it spells none; never fails.
pub fn parse_u64_or_zero(s: &str) -> (r: u64)
    ensures
        r == u64_or_zero(s@),
{
    let n = s.unicode_len();
    let start: usize = if n > 0 && s.get_char(0) == '+' { 1 } else { 0 };
    assert(s@.subrange(start as int, n as int) == unsigned_body(s@));
    match parse_digits(s, start, u64::MAX as u128) {
        Some(v) => v as u64,
        None => 0,
    }
}

/// The `i64` that `s` spells in Rust's text form (an optional `+` or `-`,
/// then digits), or 0 where it spells none; never fails.
pub fn parse_i64_or_zero(s: &str) -> (r: i64)
    ensures
        r == i64_or_zero(s@),
{
    let n = s.unicode_len();
    if n > 0 && s.get_char(0) == '-' {
        assert(s@.subrange(1, n as int) == s@.drop_first());
        match parse_digits(s, 1, 0x8000_0000_0000_0000) {
            Some(v) => (-(v as i128)) as i64,
            None => 0,
        }
    } else {
        let start: usize = if n > 0 && s.get_char(0) == '+' { 1 } else { 0 };
        assert(s@.subrange(start as int, n as int) == unsigned_body(s@));
        match parse_digits(s, start, i64::MAX as u128) {
            Some(v) => v as i64,
            None => 0,
        }
    }
}

/// A character with the Unicode `White_Space` property, which is what
/// `str::trim` removes.
pub open spec fn is_space(c: char) -> bool {
    ||| '\t' <= c && c <= '\r'
    ||| c == ' '
    ||| c == '\u{85}'
    ||| c == '\u{A0}'
    ||| c == '\u{1680}'
    ||| '\u{2000}' <= c && c <= '\u{200A}'
    ||| c == '\u{2028}'
    ||| c == '\u{2029}'
    ||| c == '\u{202F}'
    ||| c == '\u{205F}'
    ||| c == '\u{3000}'
}

/// `s` without its leading white space.
pub open spec fn trim_start(s: Seq<char>) -> Seq<char>
    decreases s.len(),
{
    if s.len() > 0 && is_space(s[0]) {
        trim_start(s.drop_first())
    } else {
        s
    }
}

/// `s` without its trailing white space.
pub open spec fn trim_end(s: Seq<char>) -> Seq<char>
    decreases s.len(),
{
    if s.len() > 0 && is_space(s.last()) {
        trim_end(s.drop_last())
    } else {
        s
    }
}

/// `s` without its leading and trailing white space.
pub open spec fn trimmed(s: Seq<char>) -> Seq<char> {
    trim_end(trim_start(s))
}

/// The ASCII digit for `d`, which is below ten.
pub open spec fn digit_char(d: nat) -> char {
    seq!['0', '1', '2', '3', '4', '5', '6', '7', '8', '9'][d as int]
}

/// `n` in base ten, without leading zeros.
pub open spec fn nat_text(n: nat) -> Seq<char>
    decreases n,
{
    if n < 10 {
        seq![digit_char(n)]
    } else {
        nat_text(n / 10).push(digit_char(n % 10))
    }
}

/// `v` in base ten, with a `-` in front when it is negative.
pub open spec fn decimal_text(v: int) -> Seq<char> {
    if v < 0 {
        seq!['-'] + nat_text((-v) as nat)
    } else {
        nat_text(v as nat)
    }
}

/// What the coordinate-field sanitiser makes of `s`: the `i64` that `s`
/// spells once white space is trimmed (0 where it spells none), written in
/// base ten and cut to `n` characters.
pub open spec fn sanitized_i64(s: Seq<char>, n: nat) -> Seq<char> {
    clamp_len(decimal_text(i64_or_zero(trimmed(s)) as int), n)
}

fn is_space_char(c: char) -> (r: bool)
    ensures
        r == is_space(c),
{
    ('\t' <= c && c <= '\r') || c == ' ' || c == '\u{85}' || c == '\u{A0}' || c == '\u{1680}'
        || ('\u{2000}' <= c && c <= '\u{200A}') || c == '\u{2028}' || c == '\u{2029}' || c
        == '\u{202F}' || c == '\u{205F}' || c == '\u{3000}'
}

/// `s` without its leading and trailing white space.
fn trim_text(s: &str) -> (r: &str)
    ensures
        r@ == trimmed(s@),
{
    let n = s.unicode_len();
    let mut k: usize = 0;
    assert(s@.subrange(0, n as int) == s@);
    while k < n && is_space_char(s.get_char(k))
        invariant
            n == s@.len(),
            k <= n,
            trim_start(s@.subrange(k as int, n as int)) == trim_start(s@),
        decreases n - k,
    {
        assert(s@.subrange(k as int, n as int).drop_first() == s@.subrange(k + 1, n as int));
        k = k + 1;
    }
    assert(trim_start(s@) == s@.subrange(k as int, n as int));
    let mut e: usize = n;
    while e > k && is_space_char(s.get_char(e - 1))
        invariant
            n == s@.len(),
            k <= e <= n,
            trim_end(s@.subrange(k as int, e as int)) == trimmed(s@),
        decreases e,
    {
        assert(s@.subrange(k as int, e as int).drop_last() == s@.subrange(k as int, e - 1));
        e = e - 1;
    }
    s.substring_char(k, e)
}

/// Appends `n` in base ten to `out`.
fn push_nat_text(out: &mut String, n: u64)
    ensures
        final(out)@ == old(out)@ + nat_text(n as nat),
    decreases n,
{
    let digits = "0123456789";
    proof {
        reveal_strlit("0123456789");
    }
    if n < 10 {
        let d = n as usize;
        out.append(digits.substring_char(d, d + 1));
        assert(digits@.subrange(d as int, d + 1) == seq![digit_char(n as nat)]);
    } else {
        push_nat_text(out, n / 10);
        let d = (n % 10) as usize;
        let ghost mid = out@;
        out.append(digits.substring_char(d, d + 1));
        assert(digits@.subrange(d as int, d + 1) == seq![digit_char((n % 10) as nat)]);
        assert(mid + seq![digit_char((n % 10) as nat)] == mid.push(digit_char((n % 10) as nat)));
    }
}

/// `v` in base ten, with a `-` in front when it is negative.
pub(crate) fn decimal_string(v: i64) -> (r: String)
    ensures
        r@ == decimal_text(v as int),
{
    let mut out = String::new();
    if v < 0 {
        proof {
            reveal_strlit("-");
        }
        out.append("-");
        let magnitude: u64 = (-(v as i128)) as u64;
        push_nat_text(&mut out, magnitude);
    } else {
        push_nat_text(&mut out, v as u64);
        assert(Seq::<char>::empty() + nat_text(v as nat) == nat_text(v as nat));
    }
    out
}

/// Sanitises a coordinate field in place: white space around it is trimmed,
/// it is read as an `i64` (0 where it is not one), written back in base ten,
/// and cut to `max_length` characters. Never fails.
pub fn sanitize_i64_string(string: &mut String, max_length: usize)
    ensures
        final(string)@ == sanitized_i64(old(string)@, max_length as nat),
{
    let value = parse_i64_or_zero(trim_text(string.as_str()));
    *string = decimal_string(value);
    truncate_string(string, max_length);
}

/// Ten to the power `k`.
pub open spec fn pow10(k: nat) -> nat
    decreases k,
{
    if k == 0 {
        1
    } else {
        10 * pow10((k - 1) as nat)
    }
}

proof fn lemma_ascii_digits_are_digits(s: Seq<char>)
    ensures
        all_digits(ascii_digits(s)),
        ascii_digits(s).len() <= s.len(),
    decreases s.len(),
{
    if s.len() > 0 {
        lemma_ascii_digits_are_digits(s.drop_last());
    }
}

proof fn lemma_strip_zeros_shape(s: Seq<char>)
    requires
        all_digits(s),
    ensures
        all_digits(strip_zeros(s)),
        strip_zeros(s).len() <= s.len(),
        s.len() > 0 ==> strip_zeros(s).len() > 0,
        strip_zeros(s).len() > 1 ==> strip_zeros(s)[0] != '0',
    decreases s.len(),
{
    if s.len() > 1 && s[0] == '0' {
        assert(all_digits(s.drop_first()));
        lemma_strip_zeros_shape(s.drop_first());
    }
}

proof fn lemma_digits_value_below(s: Seq<char>)
    requires
        all_digits(s),
    ensures
        digits_value(s) < pow10(s.len()),
    decreases s.len(),
{
    if s.len() > 0 {
        let t = s.drop_last();
        assert(all_digits(t));
        lemma_digits_value_below(t);
        let v = digits_value(t);
        let p = pow10(t.len());
        let d = digit_value(s.last());
        assert(is_digit(s[s.len() - 1]));
        assert(d <= 9);
        assert(v * 10 + d < 10 * p) by (nonlinear_arith)
            requires
                v < p,
                d <= 9,
        ;
    }
}

proof fn lemma_pow10_grows(a: nat, b: nat)
    requires
        a <= b,
    ensures
        pow10(a) <= pow10(b),
    decreases b,
{
    if a < b {
        lemma_pow10_grows(a, (b - 1) as nat);
    }
}

/// Whatever text goes in, the numeric-field sanitiser gives a canonical
/// decimal and reading it back never fails: the result holds at most
/// `n` characters, all ASCII digits, with no leading zero unless it is "0"
/// alone; it is empty only where `n` is 0; it is "0" where the input holds
/// no digit; and up to 19 digits it reads back as exactly its value.
pub proof fn lemma_sanitized_is_decimal(s: Seq<char>, n: nat)
    ensures
        sanitized(s, n).len() <= n,
        all_digits(sanitized(s, n)),
        sanitized(s, n).len() > 1 ==> sanitized(s, n)[0] != '0',
        sanitized(s, n).len() == 0 <==> n == 0,
        ascii_digits(s).len() == 0 && n > 0 ==> sanitized(s, n) == seq!['0'],
        sanitized(s, n).len() > 0 && n <= 19 ==> u64_or_zero(sanitized(s, n)) == digits_value(
            sanitized(s, n),
        ),
{
    let d = ascii_digits(s);
    lemma_ascii_digits_are_digits(s);
    lemma_strip_zeros_shape(d);
    let z = if d.len() == 0 {
        seq!['0']
    } else {
        strip_zeros(d)
    };
    let r = sanitized(s, n);
    assert(all_digits(z));
    assert(all_digits(r));
    if r.len() > 1 {
        assert(r[0] == z[0]);
    }
    if r.len() > 0 && n <= 19 {
        lemma_digits_value_below(r);
        lemma_pow10_grows(r.len(), 19);
        reveal_with_fuel(pow10, 20);
        assert(pow10(19) == 10_000_000_000_000_000_000);
        assert(is_digit(r[0]));
        assert(unsigned_body(r) == r);
    }
}

} // verus!
