//! Percent-encoding of arbitrary bytes for a URL query component.
//!
//! A search phrase may contain spaces, `&`, `#`, `%` or non-ASCII text; the
//! builder escapes it byte by byte so that the resulting URL is well formed
//! and the original value can be recovered exactly.

use vstd::prelude::*;

verus! {

/// A byte that stands for itself inside a percent-encoded query component:
/// an ASCII letter, a digit, or one of `-`, `.`, `_`, `~`.
pub open spec fn is_unreserved_byte(b: u8) -> bool {
    (48 <= b && b <= 57)  // '0' ..= '9'
    || (65 <= b && b <= 90)  // 'A' ..= 'Z'
    || (97 <= b && b <= 122)  // 'a' ..= 'z'
    || b == 45  // '-'
    || b == 46  // '.'
    || b == 95  // '_'
    || b == 126  // '~'
}

/// The uppercase hexadecimal digit character for a value below 16.
pub open spec fn hex_char(d: u8) -> char
    recommends
        d < 16,
{
    if d < 10 {
        ((48 + d) as u8) as char
    } else {
        ((55 + d) as u8) as char
    }
}

/// The numeric value of an uppercase hexadecimal digit character, if it is one.
pub open spec fn hex_val(c: char) -> Option<u8> {
    if '0' <= c && c <= '9' {
        Some((c as u32 - 48) as u8)
    } else if 'A' <= c && c <= 'F' {
        Some((c as u32 - 55) as u8)
    } else {
        None
    }
}

/// How one byte is written in a percent-encoded component: an unreserved byte
/// stands for itself, every other byte becomes `%` and two hex digits.
pub open spec fn pct_encode_byte(b: u8) -> Seq<char> {
    if is_unreserved_byte(b) {
        seq![b as char]
    } else {
        seq!['%', hex_char(b / 16), hex_char(b % 16)]
    }
}

/// The percent-encoding of a whole byte sequence.
pub open spec fn pct_encode(bytes: Seq<u8>) -> Seq<char>
    decreases bytes.len(),
{
    if bytes.len() == 0 {
        Seq::empty()
    } else {
        pct_encode_byte(bytes[0]) + pct_encode(bytes.drop_first())
    }
}

/// The inverse reading of a percent-encoded component: `%XY` yields the byte
/// with hex value `XY`, any other ASCII character yields its own code, and
/// anything else (a stray `%`, a non-hex digit, a non-ASCII character) fails.
pub open spec fn pct_decode(s: Seq<char>) -> Option<Seq<u8>>
    decreases s.len(),
{
    if s.len() == 0 {
        Some(Seq::empty())
    } else if s[0] == '%' {
        if s.len() >= 3 {
            match (hex_val(s[1]), hex_val(s[2])) {
                (Some(hi), Some(lo)) => match pct_decode(s.skip(3)) {
                    Some(rest) => Some(seq![(hi * 16 + lo) as u8] + rest),
                    None => None,
                },
                _ => None,
            }
        } else {
            None
        }
    } else if (s[0] as u32) < 128 {
        match pct_decode(s.drop_first()) {
            Some(rest) => Some(seq![(s[0] as u32) as u8] + rest),
            None => None,
        }
    } else {
        None
    }
}

/// Decoding a percent-encoded byte sequence yields the original bytes back.
pub proof fn lemma_pct_round_trip(bytes: Seq<u8>)
    ensures
        pct_decode(pct_encode(bytes)) == Some(bytes),
    decreases bytes.len(),
{
    if bytes.len() == 0 {
        assert(pct_decode(pct_encode(bytes)) == Some(Seq::<u8>::empty()));
        assert(bytes =~= Seq::<u8>::empty());
    } else {
        let b = bytes[0];
        let rest = bytes.drop_first();
        lemma_pct_round_trip(rest);
        let enc = pct_encode(bytes);
        if is_unreserved_byte(b) {
            assert(enc =~= seq![b as char] + pct_encode(rest));
            assert(enc[0] == b as char);
            assert((b as char) as u32 == b);
            assert(enc[0] != '%');
            assert(enc.drop_first() =~= pct_encode(rest));
            assert(pct_decode(enc) == Some(seq![b] + rest));
        } else {
            assert(enc =~= seq!['%', hex_char(b / 16), hex_char(b % 16)] + pct_encode(rest));
            assert(enc[0] == '%');
            assert(enc.len() >= 3);
            lemma_hex_char_val(b / 16);
            lemma_hex_char_val(b % 16);
            assert(enc[1] == hex_char(b / 16));
            assert(enc[2] == hex_char(b % 16));
            assert(enc.skip(3) =~= pct_encode(rest));
            assert((b / 16) * 16 + (b % 16) == b) by (nonlinear_arith);
            assert(pct_decode(enc) == Some(seq![b] + rest));
        }
        assert(seq![b] + rest =~= bytes);
    }
}

/// Reading back the digit character of a hex value below 16 gives that value.
proof fn lemma_hex_char_val(d: u8)
    requires
        d < 16,
    ensures
        hex_val(hex_char(d)) == Some(d),
{
}

/// Every character of a percent-encoded component is an unreserved character,
/// a `%`, or an uppercase hex digit; in particular the separators `&`, `=`,
/// `#` and the space never occur, so the component never bleeds into the
/// surrounding URL.
pub proof fn lemma_pct_encode_chars(bytes: Seq<u8>)
    ensures
        forall|i: int|
            0 <= i < pct_encode(bytes).len() ==> is_component_char(#[trigger] pct_encode(bytes)[i]),
    decreases bytes.len(),
{
    if bytes.len() > 0 {
        let b = bytes[0];
        let rest = bytes.drop_first();
        lemma_pct_encode_chars(rest);
        assert(pct_encode(bytes) =~= pct_encode_byte(b) + pct_encode(rest));
        assert(forall|i: int|
            0 <= i < pct_encode_byte(b).len() ==> is_component_char(#[trigger] pct_encode_byte(
                b,
            )[i]));
    }
}

/// A character that may appear in an encoded component.
pub open spec fn is_component_char(c: char) -> bool {
    is_unreserved_byte(c as u32 as u8) && (c as u32) < 128 || c == '%' || ('A' <= c && c <= 'F')
}

/// The separators of the query string never appear in an encoded component.
pub proof fn lemma_component_char_no_separator(c: char)
    requires
        is_component_char(c),
    ensures
        c != '&' && c != '=' && c != '#' && c != ' ',
{
}

/// Percent-encodes a byte sequence into a freshly built ASCII string.
pub fn percent_encode(bytes: &[u8]) -> (r: String)
    ensures
        r@ == pct_encode(bytes@),
{
    let mut out: Vec<u8> = Vec::new();
    proof {
        assert(ascii_chars(out@) =~= pct_encode(bytes@.take(0)));
    }
    let mut i: usize = 0;
    while i < bytes.len()
        invariant
            i <= bytes@.len(),
            all_ascii(out@),
            ascii_chars(out@) == pct_encode(bytes@.take(i as int)),
        decreases bytes@.len() - i,
    {
        let b = bytes[i];
        let ghost before = out@;
        if (48 <= b && b <= 57) || (65 <= b && b <= 90) || (97 <= b && b <= 122) || b == 45 || b
            == 46 || b == 95 || b == 126 {
            out.push(b);
            proof {
                assert(ascii_chars(out@) =~= ascii_chars(before) + seq![b as char]);
                assert(ascii_chars(out@) =~= ascii_chars(before) + pct_encode_byte(b));
            }
        } else {
            out.push(37);  // '%'
            out.push(hex_digit(b / 16));
            out.push(hex_digit(b % 16));
            proof {
                assert(ascii_chars(out@) =~= ascii_chars(before) + seq![
                    '%',
                    hex_char(b / 16),
                    hex_char(b % 16),
                ]);
                assert(ascii_chars(out@) =~= ascii_chars(before) + pct_encode_byte(b));
            }
        }
        proof {
            assert(bytes@.take(i + 1).drop_last() =~= bytes@.take(i as int));
            assert(bytes@.take(i + 1).last() == b);
            lemma_pct_encode_snoc(bytes@.take(i + 1));
            assert(ascii_chars(out@) =~= pct_encode(bytes@.take(i + 1)));
        }
        i = i + 1;
    }
    proof {
        assert(bytes@.take(bytes@.len() as int) =~= bytes@);
    }
    ascii_to_string(out)
}

/// The encoding of a sequence with its last byte split off.
proof fn lemma_pct_encode_snoc(bytes: Seq<u8>)
    requires
        bytes.len() > 0,
    ensures
        pct_encode(bytes) == pct_encode(bytes.drop_last()) + pct_encode_byte(bytes.last()),
    decreases bytes.len(),
{
    if bytes.len() == 1 {
        assert(bytes.drop_last() =~= Seq::<u8>::empty());
        assert(pct_encode(bytes.drop_last()) =~= Seq::<char>::empty());
        assert(bytes.drop_first() =~= Seq::<u8>::empty());
        assert(pct_encode(bytes) =~= pct_encode_byte(bytes[0]));
        assert(pct_encode(bytes) =~= pct_encode(bytes.drop_last()) + pct_encode_byte(bytes.last()));
    } else {
        let rest = bytes.drop_first();
        lemma_pct_encode_snoc(rest);
        assert(rest.drop_last() =~= bytes.drop_last().drop_first());
        assert(rest.last() == bytes.last());
        assert(pct_encode(bytes.drop_last()) =~= pct_encode_byte(bytes[0]) + pct_encode(
            bytes.drop_last().drop_first(),
        ));
        assert(pct_encode(bytes) =~= pct_encode(bytes.drop_last()) + pct_encode_byte(bytes.last()));
    }
}

/// The uppercase hexadecimal digit for a value below 16, as an ASCII byte.
fn hex_digit(d: u8) -> (r: u8)
    requires
        d < 16,
    ensures
        r as char == hex_char(d),
        r < 128,
{
    if d < 10 {
        48 + d
    } else {
        55 + d
    }
}

/// The characters that a sequence of ASCII bytes spells.
pub open spec fn ascii_chars(bytes: Seq<u8>) -> Seq<char> {
    bytes.map_values(|b: u8| b as char)
}

/// Every byte of the sequence is ASCII.
pub open spec fn all_ascii(bytes: Seq<u8>) -> bool {
    forall|i: int| 0 <= i < bytes.len() ==> #[trigger] bytes[i] < 128
}

/// Relies on `String::from_utf8`: a sequence of bytes below 128 is valid
/// UTF-8, and the resulting string holds one character per byte, with the
/// byte's own code. The fallback arm is unreachable under the precondition.
#[verifier::external_body]
fn ascii_to_string(bytes: Vec<u8>) -> (r: String)
    requires
        all_ascii(bytes@),
    ensures
        r@ == ascii_chars(bytes@),
{
    String::from_utf8(bytes).unwrap_or_default()
}

} // verus!
