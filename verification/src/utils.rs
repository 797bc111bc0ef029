//! The cursor codec: an unsigned 64-bit offset is rendered as its decimal
//! digit string and wrapped in URL-safe, unpadded base64; decoding reverses
//! the two steps and reports exactly where a foreign token went wrong.

use vstd::prelude::*;
use vstd::utf8::valid_utf8;
use vstd::utf8::decode_utf8;
use crate::error::Error;
use base64::Engine;

verus! {

// ---------------------------------------------------------------------------
// Decimal digit strings
// ---------------------------------------------------------------------------

/// The decimal digit bytes of `n`, most significant first, no sign and no
/// leading zero (`0` itself is the single byte `48`).
pub open spec fn dec_rep(n: nat) -> Seq<u8>
    decreases n,
{
    if n < 10 {
        seq![(n + 48) as u8]
    } else {
        dec_rep(n / 10) + seq![(n % 10 + 48) as u8]
    }
}

/// The byte is an ASCII decimal digit.
pub open spec fn is_dec_digit(b: u8) -> bool {
    48 <= b <= 57
}

pub open spec fn all_dec_digits(s: Seq<u8>) -> bool {
    forall|i: int| 0 <= i < s.len() ==> is_dec_digit(s[i])
}

/// The value of a digit string read in base 10, most significant digit first.
pub open spec fn digits_value(s: Seq<u8>) -> int
    decreases s.len(),
{
    if s.len() == 0 {
        0
    } else {
        digits_value(s.drop_last()) * 10 + (s.last() - 48)
    }
}

/// What parsing a byte string as an unsigned 64-bit decimal integer yields:
/// an optional leading `+` (byte 43), then at least one digit, and a value
/// that fits in 64 bits; anything else is rejected.
pub open spec fn parse_dec(s: Seq<u8>) -> Option<u64> {
    let t = if s.len() > 0 && s[0] == 43 {
        s.drop_first()
    } else {
        s
    };
    if t.len() > 0 && all_dec_digits(t) && digits_value(t) <= u64::MAX {
        Some(digits_value(t) as u64)
    } else {
        None
    }
}

/// Writes `n` in decimal, matching `dec_rep`.
pub fn u64_to_dec(n: u64) -> (r: Vec<u8>)
    ensures
        r@ == dec_rep(n as nat),
    decreases n,
{
    if n < 10 {
        let mut v: Vec<u8> = Vec::new();
        v.push((n as u8) + 48);
        proof {
            assert(v@ =~= dec_rep(n as nat));
        }
        v
    } else {
        let mut v = u64_to_dec(n / 10);
        v.push(((n % 10) as u8) + 48);
        proof {
            assert(v@ =~= dec_rep(n as nat));
        }
        v
    }
}

/// The character of a single decimal digit.
pub open spec fn dec_digit_char(d: nat) -> char {
    if d == 0 {
        '0'
    } else if d == 1 {
        '1'
    } else if d == 2 {
        '2'
    } else if d == 3 {
        '3'
    } else if d == 4 {
        '4'
    } else if d == 5 {
        '5'
    } else if d == 6 {
        '6'
    } else if d == 7 {
        '7'
    } else if d == 8 {
        '8'
    } else {
        '9'
    }
}

/// The decimal digit characters of `n`, most significant first.
pub open spec fn dec_chars(n: nat) -> Seq<char>
    decreases n,
{
    if n < 10 {
        seq![dec_digit_char(n)]
    } else {
        dec_chars(n / 10) + seq![dec_digit_char(n % 10)]
    }
}

fn digit_str(d: u64) -> (r: &'static str)
    requires
        d < 10,
    ensures
        r@ == seq![dec_digit_char(d as nat)],
{
    let r: &'static str = if d == 0 {
        "0"
    } else if d == 1 {
        "1"
    } else if d == 2 {
        "2"
    } else if d == 3 {
        "3"
    } else if d == 4 {
        "4"
    } else if d == 5 {
        "5"
    } else if d == 6 {
        "6"
    } else if d == 7 {
        "7"
    } else if d == 8 {
        "8"
    } else {
        "9"
    };
    proof {
        reveal_strlit("0");
        reveal_strlit("1");
        reveal_strlit("2");
        reveal_strlit("3");
        reveal_strlit("4");
        reveal_strlit("5");
        reveal_strlit("6");
        reveal_strlit("7");
        reveal_strlit("8");
        reveal_strlit("9");
        assert(r@ =~= seq![dec_digit_char(d as nat)]);
    }
    r
}

/// Writes `n` in decimal, matching `dec_chars`.
pub fn u64_to_string(n: u64) -> (r: String)
    ensures
        r@ == dec_chars(n as nat),
    decreases n,
{
    if n < 10 {
        digit_str(n).to_owned()
    } else {
        let mut s = u64_to_string(n / 10);
        s.append(digit_str(n % 10));
        s
    }
}

proof fn lemma_digits_value_nonneg(s: Seq<u8>)
    requires
        all_dec_digits(s),
    ensures
        digits_value(s) >= 0,
    decreases s.len(),
{
    if s.len() > 0 {
        assert(all_dec_digits(s.drop_last()));
        lemma_digits_value_nonneg(s.drop_last());
    }
}

/// A digit string is worth at least any of its prefixes: appending digits can
/// only grow the value.
proof fn lemma_digits_value_prefix(s: Seq<u8>, j: int)
    requires
        all_dec_digits(s),
        0 <= j <= s.len(),
    ensures
        digits_value(s) >= digits_value(s.take(j)),
    decreases s.len() - j,
{
    if j < s.len() {
        lemma_digits_value_prefix(s, j + 1);
        assert(s.take(j + 1).drop_last() =~= s.take(j));
        assert(all_dec_digits(s.take(j)));
        lemma_digits_value_nonneg(s.take(j));
    } else {
        assert(s.take(j) =~= s);
    }
}

/// The digit string of `n` is nonempty, all digits, and reads back as `n`.
proof fn lemma_dec_rep_props(n: nat)
    ensures
        dec_rep(n).len() >= 1,
        all_dec_digits(dec_rep(n)),
        digits_value(dec_rep(n)) == n,
    decreases n,
{
    if n < 10 {
        assert(dec_rep(n) =~= seq![(n + 48) as u8]);
        assert(dec_rep(n).drop_last() =~= Seq::<u8>::empty());
        assert(digits_value(Seq::<u8>::empty()) == 0);
        assert(dec_rep(n).last() == (n + 48) as u8);
        assert(digits_value(dec_rep(n)) == 0 * 10 + ((n + 48) as u8 - 48));
    } else {
        lemma_dec_rep_props(n / 10);
        assert(dec_rep(n).drop_last() =~= dec_rep(n / 10));
        assert(dec_rep(n).last() == (n % 10 + 48) as u8);
        assert(digits_value(dec_rep(n)) == digits_value(dec_rep(n / 10)) * 10 + ((n % 10 + 48) as u8
            - 48));
        vstd::arithmetic::div_mod::lemma_fundamental_div_mod(n as int, 10);
    }
}

pub open spec fn pow10(k: nat) -> nat
    decreases k,
{
    if k == 0 {
        1
    } else {
        10 * pow10((k - 1) as nat)
    }
}

proof fn lemma_dec_rep_len(n: nat, k: nat)
    requires
        k >= 1,
        n < pow10(k),
    ensures
        dec_rep(n).len() <= k,
    decreases n,
{
    if n >= 10 {
        assert(pow10(k) == 10 * pow10((k - 1) as nat));
        lemma_dec_rep_len(n / 10, (k - 1) as nat);
    }
}

/// Every `u64` has at most 20 decimal digits.
proof fn lemma_dec_rep_len_u64(n: u64)
    ensures
        dec_rep(n as nat).len() <= 20,
{
    assert(pow10(20) == 0x56bc75e2d63100000) by {
        reveal_with_fuel(pow10, 21);
    }
    lemma_dec_rep_len(n as nat, 20);
}

/// Reading the digit string of `n` back yields `n` again.
pub proof fn lemma_parse_dec_rep(n: u64)
    ensures
        parse_dec(dec_rep(n as nat)) == Some(n),
{
    lemma_dec_rep_props(n as nat);
    assert(is_dec_digit(dec_rep(n as nat)[0]));
}

/// A sequence of ASCII bytes is valid UTF-8.
proof fn lemma_ascii_valid_utf8(bytes: Seq<u8>)
    requires
        forall|i: int| 0 <= i < bytes.len() ==> bytes[i] < 128,
    ensures
        valid_utf8(bytes),
    decreases bytes.len(),
{
    if bytes.len() > 0 {
        let b = bytes[0];
        assert(vstd::utf8::is_leading_byte_width_1(b));
        assert(vstd::utf8::length_of_first_scalar(bytes) == 1);
        assert(b & 0x7f == b) by (bit_vector)
            requires
                b < 128,
        ;
        assert(vstd::utf8::decode_first_codepoint(bytes) == b as u32);
        assert(vstd::utf8::valid_first_scalar(bytes));
        let rest = vstd::utf8::pop_first_scalar(bytes);
        assert(rest =~= bytes.subrange(1, bytes.len() as int));
        lemma_ascii_valid_utf8(rest);
    }
}

// ---------------------------------------------------------------------------
// The base64 boundary
// ---------------------------------------------------------------------------

/// What base64's URL-safe unpadded engine produces for the given bytes.
pub uninterp spec fn b64_of(bytes: Seq<u8>) -> Seq<char>;

/// What base64's URL-safe unpadded engine decodes the given text to: `None`
/// when the text is not valid base64 for that alphabet.
pub uninterp spec fn b64_decode_of(s: Seq<char>) -> Option<Seq<u8>>;

/// Relies on base64's `Engine::encode` with the `URL_SAFE_NO_PAD` engine: the
/// result is a pure function of the input bytes, and `decode` inverts it.
#[verifier::external_body]
fn b64_encode(input: &[u8]) -> (r: String)
    ensures
        r@ == b64_of(input@),
        b64_decode_of(r@) == Some(input@),
{
    base64::engine::general_purpose::URL_SAFE_NO_PAD.encode(input)
}

/// Relies on base64's `Engine::decode_slice` with the `URL_SAFE_NO_PAD` engine
/// and a 32-byte buffer: it succeeds exactly when the token is valid URL-safe
/// unpadded base64 whose decoding holds at most 32 bytes, and then writes that
/// decoding.
#[verifier::external_body]
fn b64_decode_32(s: &str) -> (r: Option<Vec<u8>>)
    ensures
        r matches Some(v) ==> b64_decode_of(s@) == Some(v@) && v@.len() <= 32,
        r is Some <==> (b64_decode_of(s@) matches Some(b) && b.len() <= 32),
{
    let mut buf = [0u8; 32];
    match base64::engine::general_purpose::URL_SAFE_NO_PAD.decode_slice(s, &mut buf) {
        Ok(len) => Some(buf[..len].to_vec()),
        Err(_) => None,
    }
}

/// Relies on std's `str::from_utf8`: it succeeds exactly on valid UTF-8 bytes
/// and then returns the text they encode.
#[verifier::external_body]
fn bytes_as_str(v: &[u8]) -> (r: Option<&str>)
    ensures
        r is Some <==> valid_utf8(v@),
        r matches Some(t) ==> t@ == decode_utf8(v@),
{
    std::str::from_utf8(v).ok()
}

/// The base64 step of decoding: the token's decoding, provided it exists and
/// fits the codec's 32-byte buffer.
pub open spec fn b64_fit(s: Seq<char>) -> Option<Seq<u8>> {
    match b64_decode_of(s) {
        Some(b) => if b.len() <= 32 {
            Some(b)
        } else {
            None
        },
        None => None,
    }
}

/// The offset a cursor token stands for, if every decoding step succeeds:
/// base64, then UTF-8, then decimal parsing.
pub open spec fn decoded_offset(s: Seq<char>) -> Option<u64> {
    match b64_fit(s) {
        Some(b) => if valid_utf8(b) {
            parse_dec(b)
        } else {
            None
        },
        None => None,
    }
}

// ---------------------------------------------------------------------------
// The public codec
// ---------------------------------------------------------------------------

/// Encodes an offset as an opaque URL-safe token: the decimal digits of `n`,
/// base64-encoded. Decoding the token yields `n` again.
pub fn encode_u64(n: u64) -> (r: String)
    ensures
        r@ == b64_of(dec_rep(n as nat)),
        decoded_offset(r@) == Some(n),
{
    let digits = u64_to_dec(n);
    let r = b64_encode(digits.as_slice());
    proof {
        lemma_dec_rep_props(n as nat);
        lemma_dec_rep_len_u64(n);
        assert(forall|i: int| 0 <= i < dec_rep(n as nat).len() ==> dec_rep(n as nat)[i] < 128);
        lemma_ascii_valid_utf8(dec_rep(n as nat));
        lemma_parse_dec_rep(n);
    }
    r
}

/// Parses a byte string as an unsigned 64-bit decimal integer, matching
/// `parse_dec`: an optional leading `+`, then digits, rejecting overflow.
#[verifier::loop_isolation(false)]
pub fn parse_dec_u64(bytes: &Vec<u8>) -> (r: Option<u64>)
    ensures
        r == parse_dec(bytes@),
{
    let len = bytes.len();
    let start: usize = if len > 0 && bytes[0] == 43 {
        1
    } else {
        0
    };
    let ghost t = if bytes@.len() > 0 && bytes@[0] == 43 {
        bytes@.drop_first()
    } else {
        bytes@
    };
    proof {
        assert(t =~= bytes@.subrange(start as int, len as int));
    }
    if start >= len {
        return None;
    }
    let mut acc: u64 = 0;
    let mut i: usize = start;
    while i < len
        invariant
            start <= i <= len,
            len == bytes@.len(),
            t == bytes@.subrange(start as int, len as int),
            all_dec_digits(t.take(i - start)),
            acc == digits_value(t.take(i - start)),
        decreases len - i,
    {
        let b = bytes[i];
        proof {
            assert(t.len() == len - start);
            assert(t[i - start] == bytes@[i as int]);
        }
        if b < 48 || b > 57 {
            proof {
                assert(!is_dec_digit(t[i - start]));
                assert(!all_dec_digits(t));
            }
            return None;
        }
        let d = b - 48;
        proof {
            assert(t.take(i + 1 - start).drop_last() =~= t.take(i - start));
            assert(t.take(i + 1 - start).last() == b);
            assert(digits_value(t.take(i + 1 - start)) == digits_value(t.take(i - start)) * 10 + (b
                - 48));
            lemma_digits_value_nonneg(t.take(i - start));
        }
        if acc > (u64::MAX - (d as u64)) / 10 {
            proof {
                let full = t.take(i + 1 - start);
                vstd::arithmetic::div_mod::lemma_fundamental_div_mod((u64::MAX - d) as int, 10);
                assert(digits_value(full) == acc * 10 + d);
                assert(digits_value(full) > u64::MAX);
                if all_dec_digits(t) && digits_value(t) <= u64::MAX {
                    lemma_digits_value_prefix(t, i + 1 - start);
                    assert(false);
                }
            }
            return None;
        }
        acc = acc * 10 + (d as u64);
        i = i + 1;
    }
    proof {
        assert(t.take(i - start) =~= t);
        lemma_digits_value_nonneg(t);
    }
    Some(acc)
}

/// Decodes an opaque cursor token back to its offset. Each failing step yields
/// its own error: `Base64Decode` when the token is not base64 of the codec's
/// alphabet (or its decoding overruns the buffer), `InvalidUtf8` when the
/// decoded bytes are not text, `InvalidNumber` when the text is not an
/// unsigned 64-bit decimal integer.
pub fn decode_u64(s: &str) -> (r: Result<u64, Error>)
    ensures
        r is Ok <==> decoded_offset(s@) is Some,
        r matches Ok(v) ==> decoded_offset(s@) == Some(v),
        r matches Err(e) ==> match e {
            Error::Base64Decode { s: t } => b64_fit(s@) is None && t@ == s@,
            Error::InvalidUtf8 => (b64_fit(s@) matches Some(b) && !valid_utf8(b)),
            Error::InvalidNumber { s: t } => (b64_fit(s@) matches Some(b) && valid_utf8(b)
                && parse_dec(b) is None && t@ == decode_utf8(b)),
            _ => false,
        },
{
    let bytes = match b64_decode_32(s) {
        Some(b) => b,
        None => {
            return Err(Error::Base64Decode { s: s.to_owned() });
        },
    };
    let text = match bytes_as_str(bytes.as_slice()) {
        Some(t) => t,
        None => {
            return Err(Error::InvalidUtf8);
        },
    };
    match parse_dec_u64(&bytes) {
        Some(v) => Ok(v),
        None => Err(Error::InvalidNumber { s: text.to_owned() }),
    }
}

} // verus!
