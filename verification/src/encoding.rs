//! Hex text, `0x` prefixes, ASCII case folding and decimal ports.
use vstd::prelude::*;

verus! {

/// The lower-case hex digit of a value below 16.
pub open spec fn hex_digit(n: int) -> char {
    if n < 10 {
        (48 + n) as char
    } else {
        (87 + n) as char
    }
}

/// Lower-case hex text of a byte sequence, two digits per byte, high nibble first.
pub open spec fn hex_lower(bytes: Seq<u8>) -> Seq<char>
    decreases bytes.len(),
{
    if bytes.len() == 0 {
        Seq::empty()
    } else {
        hex_lower(bytes.drop_last()) + seq![
            hex_digit(bytes.last() as int / 16),
            hex_digit(bytes.last() as int % 16),
        ]
    }
}

/// Hex text has two digits per byte.
pub proof fn lemma_hex_lower_len(bytes: Seq<u8>)
    ensures
        hex_lower(bytes).len() == 2 * bytes.len(),
    decreases bytes.len(),
{
    if bytes.len() > 0 {
        lemma_hex_lower_len(bytes.drop_last());
    }
}

/// The bytes of a text made of ASCII characters.
pub open spec fn ascii_bytes(chars: Seq<char>) -> Seq<u8> {
    Seq::new(chars.len(), |i: int| chars[i] as u8)
}

/// The value of a hex digit byte (`0-9`, `a-f`, `A-F`).
pub open spec fn hex_value(c: u8) -> Option<int> {
    if 48 <= c <= 57 {
        Some(c - 48)
    } else if 97 <= c <= 102 {
        Some(c - 87)
    } else if 65 <= c <= 70 {
        Some(c - 55)
    } else {
        None
    }
}

/// Decoding of hex text: defined on even-length text made only of hex digits.
pub open spec fn hex_decode_spec(text: Seq<u8>) -> Option<Seq<u8>>
    decreases text.len(),
{
    if text.len() % 2 != 0 {
        None
    } else if text.len() == 0 {
        Some(Seq::empty())
    } else {
        match (
            hex_decode_spec(text.take(text.len() - 2)),
            hex_value(text[text.len() - 2]),
            hex_value(text[text.len() - 1]),
        ) {
            (Some(prefix), Some(hi), Some(lo)) => Some(prefix.push((hi * 16 + lo) as u8)),
            _ => None,
        }
    }
}

/// Decodes hex text with `hex::decode`.
///
/// Trusted: `hex::decode` rejects odd-length input and any byte that is not a
/// hex digit of either case, and otherwise turns each pair of digits, high
/// nibble first, into one byte; the error value is dropped.
#[verifier::external_body]
pub(crate) fn hex_decode(text: &[u8]) -> (r: Option<Vec<u8>>)
    ensures
        r matches Some(v) ==> hex_decode_spec(text@) == Some(v@),
        r is None ==> hex_decode_spec(text@) is None,
{
    hex::decode(text).ok()
}

/// Decoding the lower-case hex text of any bytes gives those bytes back.
pub proof fn lemma_hex_roundtrip(bytes: Seq<u8>)
    ensures
        hex_decode_spec(ascii_bytes(hex_lower(bytes))) == Some(bytes),
    decreases bytes.len(),
{
    lemma_hex_lower_len(bytes);
    if bytes.len() > 0 {
        let prefix = bytes.drop_last();
        let b = bytes.last();
        lemma_hex_roundtrip(prefix);
        lemma_hex_lower_len(prefix);
        let t = ascii_bytes(hex_lower(bytes));
        assert(t.take(t.len() - 2) =~= ascii_bytes(hex_lower(prefix)));
        let hi = b as int / 16;
        let lo = b as int % 16;
        assert(t[t.len() - 2] == hex_digit(hi) as u8);
        assert(t[t.len() - 1] == hex_digit(lo) as u8);
        assert(hex_value(hex_digit(hi) as u8) == Some(hi));
        assert(hex_value(hex_digit(lo) as u8) == Some(lo));
        assert((hi * 16 + lo) as u8 == b);
        assert(prefix.push(b) =~= bytes);
    } else {
        assert(ascii_bytes(hex_lower(bytes)) =~= Seq::<u8>::empty());
    }
}

/// Hex text is ASCII.
pub proof fn lemma_hex_lower_ascii(bytes: Seq<u8>)
    ensures
        vstd::utf8::is_ascii_chars(hex_lower(bytes)),
    decreases bytes.len(),
{
    if bytes.len() > 0 {
        lemma_hex_lower_ascii(bytes.drop_last());
        let h = hex_lower(bytes);
        let p = hex_lower(bytes.drop_last());
        assert forall|i: int| 0 <= i < h.len() implies '\0' <= #[trigger] h[i] <= '\u{7f}' by {
            if i < p.len() {
                assert(h[i] == p[i]);
            }
        }
    }
}

/// Removing leading `0x`s twice removes no more than once.
pub proof fn lemma_strip_hex_prefixes_idempotent(s: Seq<u8>)
    ensures
        strip_hex_prefixes(strip_hex_prefixes(s)) == strip_hex_prefixes(s),
    decreases s.len(),
{
    if s.len() >= 2 && s[0] == 48 && s[1] == 120 {
        lemma_strip_hex_prefixes_idempotent(s.skip(2));
    }
}

/// Case-insensitive equality is reflexive and symmetric.
pub proof fn lemma_eq_ignore_ascii_case_equivalence(a: Seq<u8>, b: Seq<u8>)
    ensures
        eq_ignore_ascii_case_spec(a, a),
        eq_ignore_ascii_case_spec(a, b) == eq_ignore_ascii_case_spec(b, a),
{
}

/// Appends a character to a string with `String::push`.
///
/// Trusted: `String::push` appends the character at the end.
#[verifier::external_body]
pub(crate) fn push_char(s: &mut String, c: char)
    ensures
        final(s)@ == old(s)@.push(c),
{
    s.push(c);
}

/// The lower-case hex digit of `n`.
pub fn hex_digit_char(n: u8) -> (c: char)
    requires
        n < 16,
    ensures
        c == hex_digit(n as int),
{
    if n < 10 {
        (48u8 + n) as char
    } else {
        (87u8 + n) as char
    }
}

/// Appends the lower-case hex text of `bytes` to `out`.
pub fn push_hex_lower(out: &mut String, bytes: &[u8])
    ensures
        final(out)@ == old(out)@ + hex_lower(bytes@),
{
    let mut i: usize = 0;
    while i < bytes.len()
        invariant
            i <= bytes.len(),
            out@ == old(out)@ + hex_lower(bytes@.take(i as int)),
        decreases bytes.len() - i,
    {
        assert(bytes@.take(i + 1).drop_last() =~= bytes@.take(i as int));
        let b = bytes[i];
        push_char(out, hex_digit_char(b / 16));
        push_char(out, hex_digit_char(b % 16));
        assert(out@ =~= old(out)@ + hex_lower(bytes@.take(i + 1)));
        i += 1;
    }
    assert(bytes@.take(bytes.len() as int) =~= bytes@);
}

/// The lower-case hex text of `bytes`.
pub fn to_hex_lower(bytes: &[u8]) -> (r: String)
    ensures
        r@ == hex_lower(bytes@),
{
    let mut s = String::new();
    push_hex_lower(&mut s, bytes);
    assert(s@ =~= hex_lower(bytes@));
    s
}

/// `s` with every leading `0x` removed, as `str::trim_start_matches("0x")` does.
pub open spec fn strip_hex_prefixes(s: Seq<u8>) -> Seq<u8>
    decreases s.len(),
{
    if s.len() >= 2 && s[0] == 48 && s[1] == 120 {
        strip_hex_prefixes(s.skip(2))
    } else {
        s
    }
}

/// Removes every leading `0x` from text given as bytes.
pub fn trim_hex_prefixes(s: &[u8]) -> (r: &[u8])
    ensures
        r@ == strip_hex_prefixes(s@),
{
    let mut i: usize = 0;
    assert(s@.skip(0) =~= s@);
    while i < s.len() && s.len() - i >= 2 && s[i] == 48 && s[i + 1] == 120
        invariant
            i <= s.len(),
            strip_hex_prefixes(s@) == strip_hex_prefixes(s@.skip(i as int)),
        decreases s.len() - i,
    {
        assert(s@.skip(i as int).skip(2) =~= s@.skip(i + 2));
        i += 2;
    }
    let r = &s[i..s.len()];
    assert(r@ =~= s@.skip(i as int));
    r
}

/// ASCII upper-case letters mapped to lower case; other bytes unchanged.
pub open spec fn ascii_lower(c: u8) -> u8 {
    if 65 <= c <= 90 {
        (c + 32) as u8
    } else {
        c
    }
}

/// Equality of two byte texts up to ASCII case.
pub open spec fn eq_ignore_ascii_case_spec(a: Seq<u8>, b: Seq<u8>) -> bool {
    a.len() == b.len() && forall|i: int| 0 <= i < a.len() ==> ascii_lower(a[i]) == ascii_lower(b[i])
}

/// Whether two texts are equal up to ASCII case, as `str::eq_ignore_ascii_case` decides.
pub fn eq_ignore_ascii_case(a: &str, b: &str) -> (r: bool)
    ensures
        r == eq_ignore_ascii_case_spec(vstd::utf8::encode_utf8(a@), vstd::utf8::encode_utf8(b@)),
{
    let x = a.as_bytes();
    let y = b.as_bytes();
    if x.len() != y.len() {
        return false;
    }
    let mut i: usize = 0;
    while i < x.len()
        invariant
            i <= x.len(),
            x.len() == y.len(),
            x@ == vstd::utf8::encode_utf8(a@),
            y@ == vstd::utf8::encode_utf8(b@),
            forall|j: int| 0 <= j < i ==> ascii_lower(x@[j]) == ascii_lower(y@[j]),
        decreases x.len() - i,
    {
        let cx = if 65 <= x[i] && x[i] <= 90 {
            x[i] + 32
        } else {
            x[i]
        };
        let cy = if 65 <= y[i] && y[i] <= 90 {
            y[i] + 32
        } else {
            y[i]
        };
        if cx != cy {
            assert(ascii_lower(x@[i as int]) != ascii_lower(y@[i as int]));
            return false;
        }
        i += 1;
    }
    true
}

/// Whether every byte is an ASCII decimal digit.
pub open spec fn all_digits(s: Seq<u8>) -> bool {
    forall|i: int| 0 <= i < s.len() ==> 48 <= #[trigger] s[i] <= 57
}

/// The number written by decimal digits.
pub open spec fn decimal_value(s: Seq<u8>) -> int
    decreases s.len(),
{
    if s.len() == 0 {
        0
    } else {
        decimal_value(s.drop_last()) * 10 + (s.last() - 48)
    }
}

/// `str::parse::<u16>`: an optional `+`, then at least one decimal digit,
/// for a value that fits 16 bits.
pub open spec fn parse_u16_spec(s: Seq<u8>) -> Option<u16> {
    let digits = if s.len() > 0 && s[0] == 43 {
        s.skip(1)
    } else {
        s
    };
    if digits.len() > 0 && all_digits(digits) && decimal_value(digits) <= u16::MAX {
        Some(decimal_value(digits) as u16)
    } else {
        None
    }
}

proof fn lemma_decimal_value_nonneg(s: Seq<u8>)
    requires
        all_digits(s),
    ensures
        decimal_value(s) >= 0,
    decreases s.len(),
{
    if s.len() > 0 {
        lemma_decimal_value_nonneg(s.drop_last());
    }
}

proof fn lemma_decimal_value_grows(s: Seq<u8>, t: Seq<u8>)
    requires
        all_digits(t),
        s.len() <= t.len(),
        s == t.take(s.len() as int),
    ensures
        decimal_value(s) <= decimal_value(t),
    decreases t.len(),
{
    if s.len() < t.len() {
        assert(t.drop_last().take(s.len() as int) =~= s);
        lemma_decimal_value_grows(s, t.drop_last());
        lemma_decimal_value_nonneg(t.drop_last());
        assert(decimal_value(t.drop_last()) <= decimal_value(t)) by (nonlinear_arith)
            requires
                decimal_value(t) == decimal_value(t.drop_last()) * 10 + (t.last() - 48),
                48 <= t.last(),
                decimal_value(t.drop_last()) >= 0,
        ;
    } else {
        assert(s =~= t);
    }
}

/// Parses a decimal `u16` as `str::parse::<u16>` does.
pub fn parse_u16(text: &str) -> (r: Option<u16>)
    ensures
        r == parse_u16_spec(vstd::utf8::encode_utf8(text@)),
{
    let s = text.as_bytes();
    let start: usize = if s.len() > 0 && s[0] == 43 {
        1
    } else {
        0
    };
    let ghost digits = s@.skip(start as int);
    assert(digits =~= (if s@.len() > 0 && s@[0] == 43 {
        s@.skip(1)
    } else {
        s@
    }));
    if start >= s.len() {
        assert(digits.len() == 0);
        return None;
    }
    let mut value: u32 = 0;
    let mut i: usize = start;
    while i < s.len()
        invariant
            start <= i <= s.len(),
            start < s.len(),
            start == 0 || start == 1,
            s@ == vstd::utf8::encode_utf8(text@),
            start == 1 <==> (s@.len() > 0 && s@[0] == 43),
            digits == s@.skip(start as int),
            digits == (if s@.len() > 0 && s@[0] == 43 {
                s@.skip(1)
            } else {
                s@
            }),
            all_digits(s@.subrange(start as int, i as int)),
            value == decimal_value(s@.subrange(start as int, i as int)),
            value <= u16::MAX,
        decreases s.len() - i,
    {
        let c = s[i];
        assert(s@.subrange(start as int, i + 1).drop_last() =~= s@.subrange(
            start as int,
            i as int,
        ));
        if c < 48 || c > 57 {
            assert(digits[i - start] == c);
            return None;
        }
        let next: u32 = value * 10 + (c - 48) as u32;
        if next > 65535 {
            proof {
                assert(all_digits(s@.subrange(start as int, i + 1)));
                assert(decimal_value(s@.subrange(start as int, i + 1)) == next);
                assert(digits == s@.skip(start as int));
                if all_digits(digits) {
                    assert(digits.take(i + 1 - start) =~= s@.subrange(start as int, i + 1));
                    lemma_decimal_value_grows(s@.subrange(start as int, i + 1), digits);
                }
            }
            return None;
        }
        value = next;
        i += 1;
    }
    assert(s@.subrange(start as int, s.len() as int) =~= digits);
    Some(value as u16)
}

} // verus!
