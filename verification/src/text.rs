//! Decimal rendering and UTF-8 decoding shared by the textual forms of the library's values.
use vstd::prelude::*;
use vstd::utf8::*;

verus! {

/// The ASCII decimal digits of `n`, most significant first, without leading zeros (`0` is `"0"`).
pub open spec fn decimal_digits(n: nat) -> Seq<u8>
    decreases n,
{
    if n < 10 {
        seq![(48 + n) as u8]
    } else {
        decimal_digits(n / 10).push((48 + n % 10) as u8)
    }
}

/// The decimal rendering of `n`.
pub open spec fn decimal(n: nat) -> Seq<char> {
    ascii_chars(decimal_digits(n))
}

/// The decimal form of a signed integer: a minus sign before the digits of a negative one.
pub open spec fn signed_decimal(i: int) -> Seq<char> {
    if i < 0 {
        seq!['-'] + decimal((-i) as nat)
    } else {
        decimal(i as nat)
    }
}

/// Bytes that are all ASCII.
pub open spec fn ascii_bytes(b: Seq<u8>) -> bool {
    forall|i: int| 0 <= i < b.len() ==> #[trigger] b[i] < 128
}

/// The characters that ASCII bytes stand for.
pub open spec fn ascii_chars(b: Seq<u8>) -> Seq<char> {
    b.map_values(|x: u8| x as char)
}

/// ASCII bytes are valid UTF-8 and decode one character per byte.
pub proof fn lemma_ascii_decode(b: Seq<u8>)
    requires
        ascii_bytes(b),
    ensures
        valid_utf8(b),
        decode_utf8(b) == ascii_chars(b),
{
    let c = ascii_chars(b);
    assert forall|i| 0 <= i < c.len() implies '\0' <= #[trigger] c[i] <= '\u{7f}' by {
        assert(b[i] < 128);
    }
    is_ascii_chars_encode_utf8(c);
    assert forall|i| 0 <= i < b.len() implies #[trigger] encode_utf8(c)[i] == b[i] by {
        let x = b[i];
        assert(c[i] == x as char);
        assert((x as char) as u8 == x);
    }
    assert(encode_utf8(c) =~= b);
    encode_utf8_valid_utf8(c);
    encode_utf8_decode_utf8(c);
}

/// `String::from_utf8`: `Some` exactly when the bytes are valid UTF-8, holding the characters they
/// encode.
#[verifier::external_body]
pub(crate) fn string_from_utf8(bytes: Vec<u8>) -> (r: Option<String>)
    ensures
        r is Some <==> valid_utf8(bytes@),
        r matches Some(s) ==> s@ == decode_utf8(bytes@),
{
    String::from_utf8(bytes).ok()
}

/// Appends the decimal digits of `n` as ASCII bytes.
pub fn push_decimal(out: &mut Vec<u8>, n: u64)
    ensures
        final(out)@ == old(out)@ + decimal_digits(n as nat),
    decreases n,
{
    if n >= 10 {
        push_decimal(out, n / 10);
    }
    let d: u8 = (n % 10) as u8;
    out.push(48 + d);
}

/// Every byte of a decimal rendering is an ASCII digit.
pub proof fn lemma_decimal_digits(n: nat)
    ensures
        forall|i: int| 0 <= i < decimal_digits(n).len() ==> 48 <= #[trigger] decimal_digits(n)[i] <= 57,
        decimal_digits(n).len() >= 1,
    decreases n,
{
    if n >= 10 {
        lemma_decimal_digits(n / 10);
    }
}

/// The decimal digits of `n` as a `String`.
pub fn decimal_string(n: u64) -> (s: String)
    ensures
        s@ == decimal(n as nat),
{
    let mut bytes: Vec<u8> = Vec::new();
    push_decimal(&mut bytes, n);
    proof {
        lemma_decimal_digits(n as nat);
        assert(bytes@ =~= decimal_digits(n as nat));
        lemma_ascii_decode(bytes@);
    }
    match string_from_utf8(bytes) {
        Some(s) => s,
        None => String::new(),
    }
}

/// The decimal form of a signed integer as a `String`.
pub fn signed_decimal_string(i: i64) -> (s: String)
    ensures
        s@ == signed_decimal(i as int),
{
    if i < 0 {
        let magnitude: u64 = if i == i64::MIN { 0x8000_0000_0000_0000u64 } else { (-i) as u64 };
        let mut s = String::from_str("-");
        let digits = decimal_string(magnitude);
        s.append(digits.as_str());
        proof {
            reveal_strlit("-");
        }
        s
    } else {
        decimal_string(i as u64)
    }
}

/// The bytes of a zero-terminated buffer before its first zero byte (all of it when it has none).
pub open spec fn until_nul(s: Seq<u8>) -> Seq<u8>
    decreases s.len(),
{
    if s.len() == 0 || s[0] == 0 {
        Seq::empty()
    } else {
        seq![s[0]] + until_nul(s.drop_first())
    }
}

/// When the first zero byte of `s` is at `i` (or `s` has none and `i` is its length), the bytes
/// before the first zero are the first `i` bytes.
pub proof fn lemma_until_nul(s: Seq<u8>, i: int)
    requires
        0 <= i <= s.len(),
        forall|j: int| 0 <= j < i ==> #[trigger] s[j] != 0,
        i == s.len() || s[i] == 0,
    ensures
        until_nul(s) == s.subrange(0, i),
    decreases i,
{
    if i > 0 {
        let t = s.drop_first();
        assert forall|j: int| 0 <= j < i - 1 implies #[trigger] t[j] != 0 by {
            assert(s[j + 1] != 0);
        }
        lemma_until_nul(t, i - 1);
        assert(seq![s[0]] + t.subrange(0, i - 1) =~= s.subrange(0, i));
    } else {
        assert(s.subrange(0, 0) =~= Seq::<u8>::empty());
    }
}

/// The text held in a zero-terminated buffer: its bytes before the first zero, decoded as UTF-8.
pub fn text_until_nul(raw: &[u8]) -> (s: String)
    requires
        valid_utf8(until_nul(raw@)),
    ensures
        s@ == decode_utf8(until_nul(raw@)),
{
    let mut bytes: Vec<u8> = Vec::new();
    let mut i: usize = 0;
    while i < raw.len() && raw[i] != 0
        invariant
            i <= raw@.len(),
            forall|j: int| 0 <= j < i ==> #[trigger] raw@[j] != 0,
            bytes@ == raw@.subrange(0, i as int),
        decreases raw.len() - i,
    {
        bytes.push(raw[i]);
        i = i + 1;
    }
    proof {
        lemma_until_nul(raw@, i as int);
    }
    match string_from_utf8(bytes) {
        Some(s) => s,
        None => String::new(),
    }
}

/// The characters Unicode gives the `White_Space` property.
pub open spec fn is_white_space(c: char) -> bool {
    ||| '\u{9}' <= c <= '\u{d}'
    ||| c == ' '
    ||| c == '\u{85}'
    ||| c == '\u{a0}'
    ||| c == '\u{1680}'
    ||| '\u{2000}' <= c <= '\u{200a}'
    ||| c == '\u{2028}'
    ||| c == '\u{2029}'
    ||| c == '\u{202f}'
    ||| c == '\u{205f}'
    ||| c == '\u{3000}'
}

/// `s` without its leading white space.
pub open spec fn trim_start(s: Seq<char>) -> Seq<char>
    decreases s.len(),
{
    if s.len() > 0 && is_white_space(s[0]) {
        trim_start(s.drop_first())
    } else {
        s
    }
}

/// `s` without its trailing white space.
pub open spec fn trim_end(s: Seq<char>) -> Seq<char>
    decreases s.len(),
{
    if s.len() > 0 && is_white_space(s.last()) {
        trim_end(s.drop_last())
    } else {
        s
    }
}

/// `s` without leading and trailing white space.
pub open spec fn trimmed(s: Seq<char>) -> Seq<char> {
    trim_end(trim_start(s))
}

/// Trimming the start drops the leading run of white space and nothing else: the result is `s`
/// from the first character that is not white space on (or empty where there is none).
pub proof fn lemma_trim_start_run(s: Seq<char>) -> (a: int)
    ensures
        0 <= a <= s.len(),
        trim_start(s) == s.subrange(a, s.len() as int),
        forall|j: int| 0 <= j < a ==> is_white_space(#[trigger] s[j]),
        a < s.len() ==> !is_white_space(s[a]),
    decreases s.len(),
{
    if s.len() > 0 && is_white_space(s[0]) {
        let t = s.drop_first();
        let b = lemma_trim_start_run(t);
        assert(t.subrange(b, t.len() as int) =~= s.subrange(b + 1, s.len() as int));
        assert forall|j: int| 0 <= j < b + 1 implies is_white_space(#[trigger] s[j]) by {
            if j > 0 {
                assert(s[j] == t[j - 1]);
            }
        }
        b + 1
    } else {
        assert(s.subrange(0, s.len() as int) =~= s);
        0
    }
}

/// Trimming the end drops the trailing run of white space and nothing else: the result is `s` up
/// to and including its last character that is not white space (or empty where there is none).
pub proof fn lemma_trim_end_run(s: Seq<char>) -> (b: int)
    ensures
        0 <= b <= s.len(),
        trim_end(s) == s.subrange(0, b),
        forall|j: int| b <= j < s.len() ==> is_white_space(#[trigger] s[j]),
        b > 0 ==> !is_white_space(s[b - 1]),
    decreases s.len(),
{
    if s.len() > 0 && is_white_space(s.last()) {
        let t = s.drop_last();
        let b = lemma_trim_end_run(t);
        assert(t.subrange(0, b) =~= s.subrange(0, b));
        assert forall|j: int| b <= j < s.len() implies is_white_space(#[trigger] s[j]) by {
            if j < s.len() - 1 {
                assert(s[j] == t[j]);
            }
        }
        b
    } else {
        assert(s.subrange(0, s.len() as int) =~= s);
        s.len() as int
    }
}

/// Trimming keeps the text between the first and the last character that is not white space,
/// whole and in order (inner white space, such as line breaks, included), and drops only the
/// white space before and after it: the result is the run `s[a..b]`, everything outside it is
/// white space, and a non-empty result neither begins nor ends with white space.
pub proof fn lemma_trimmed_inner_run(s: Seq<char>) -> (r: (int, int))
    ensures
        0 <= r.0 <= r.1 <= s.len(),
        trimmed(s) == s.subrange(r.0, r.1),
        forall|j: int| 0 <= j < r.0 ==> is_white_space(#[trigger] s[j]),
        forall|j: int| r.1 <= j < s.len() ==> is_white_space(#[trigger] s[j]),
        r.0 < r.1 ==> !is_white_space(s[r.0]) && !is_white_space(s[r.1 - 1]),
{
    let a = lemma_trim_start_run(s);
    let t = s.subrange(a, s.len() as int);
    let b = lemma_trim_end_run(t);
    assert(t.subrange(0, b) =~= s.subrange(a, a + b));
    assert forall|j: int| a + b <= j < s.len() implies is_white_space(#[trigger] s[j]) by {
        assert(s[j] == t[j - a]);
    }
    if b > 0 {
        assert(s[a + b - 1] == t[b - 1]);
    }
    (a, a + b)
}

/// Text that neither begins nor ends with white space is left as it is by trimming.
pub proof fn lemma_trimmed_keeps_bare_text(s: Seq<char>)
    requires
        s.len() > 0,
        !is_white_space(s[0]),
        !is_white_space(s.last()),
    ensures
        trimmed(s) == s,
{
    let r = lemma_trimmed_inner_run(s);
    let n = s.len() as int;
    assert(r.0 == 0) by {
        if r.0 > 0 {
            assert(is_white_space(s[0]));
        }
    }
    assert(r.1 == n) by {
        if r.1 < n {
            assert(is_white_space(s[n - 1]));
        }
    }
    assert(s.subrange(0, n) =~= s);
}

/// `str::trim`: the string without leading and trailing white space, white space being the
/// characters with Unicode's `White_Space` property.
#[verifier::external_body]
pub(crate) fn trim(s: &str) -> (r: &str)
    ensures
        r@ == trimmed(s@),
{
    s.trim()
}

} // verus!
