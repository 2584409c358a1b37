//! Percent-encoding of parameter values.
use vstd::prelude::*;
use vstd::utf8::{decode_utf8, encode_utf8, encode_utf8_decode_utf8};

verus! {

/// Whether a byte stands for itself in an encoded value: a letter, a digit,
/// or one of `-`, `.`, `_`, `~`.
pub open spec fn is_unreserved(b: u8) -> bool {
    ||| 65 <= b <= 90
    ||| 97 <= b <= 122
    ||| 48 <= b <= 57
    ||| b == 45
    ||| b == 46
    ||| b == 95
    ||| b == 126
}

/// The upper-case hexadecimal digit of a number below 16.
pub open spec fn hex_digit(n: u8) -> char {
    if n < 10 {
        (48 + n) as u8 as char
    } else {
        (55 + n) as u8 as char
    }
}

/// The number that a hexadecimal digit stands for.
pub open spec fn hex_value(c: char) -> u8 {
    if 48 <= c as u8 <= 57 {
        (c as u8 - 48) as u8
    } else if 65 <= c as u8 <= 70 {
        (c as u8 - 55) as u8
    } else {
        (c as u8 - 87) as u8
    }
}

/// A byte as it is written in an encoded value.
pub open spec fn encode_byte(b: u8) -> Seq<char> {
    if is_unreserved(b) {
        seq![b as char]
    } else {
        seq!['%', hex_digit(b / 16), hex_digit(b % 16)]
    }
}

/// Bytes as they are written in an encoded value: a byte that is not
/// unreserved becomes `%` and its two hexadecimal digits.
pub open spec fn percent_encoded(bs: Seq<u8>) -> Seq<char>
    decreases bs.len(),
{
    if bs.len() == 0 {
        Seq::empty()
    } else {
        encode_byte(bs[0]) + percent_encoded(bs.subrange(1, bs.len() as int))
    }
}

/// The bytes that an encoded value stands for.
pub open spec fn percent_decoded(t: Seq<char>) -> Seq<u8>
    decreases t.len(),
{
    if t.len() == 0 {
        Seq::empty()
    } else if t[0] == '%' && t.len() >= 3 {
        seq![((hex_value(t[1]) as int) * 16 + hex_value(t[2]) as int) as u8] + percent_decoded(
            t.subrange(3, t.len() as int),
        )
    } else {
        seq![t[0] as u8] + percent_decoded(t.subrange(1, t.len() as int))
    }
}

/// A text as it is written as the value of a parameter: its UTF-8 bytes,
/// percent-encoded.
pub open spec fn encoded_text(s: Seq<char>) -> Seq<char> {
    percent_encoded(encode_utf8(s))
}

/// The text that an encoded value stands for.
pub open spec fn decoded_text(t: Seq<char>) -> Seq<char> {
    decode_utf8(percent_decoded(t))
}

/// Whether a character can appear in an encoded value.
pub open spec fn is_encoded_char(c: char) -> bool {
    ||| c == '%'
    ||| (65 <= c as u32 <= 90)
    ||| (97 <= c as u32 <= 122)
    ||| (48 <= c as u32 <= 57)
    ||| c == '-'
    ||| c == '.'
    ||| c == '_'
    ||| c == '~'
}

proof fn lemma_hex_digit(n: u8)
    requires
        n < 16,
    ensures
        hex_value(hex_digit(n)) == n,
        is_encoded_char(hex_digit(n)),
        hex_digit(n) != '%',
{
}

/// Encoding one more byte adds its encoding at the end.
proof fn lemma_encoded_push(bs: Seq<u8>, b: u8)
    ensures
        percent_encoded(bs.push(b)) == percent_encoded(bs) + encode_byte(b),
    decreases bs.len(),
{
    let t = bs.push(b);
    if bs.len() == 0 {
        assert(t.subrange(1, 1) =~= Seq::<u8>::empty());
        assert(percent_encoded(Seq::<u8>::empty()) =~= Seq::<char>::empty());
        assert(bs =~= Seq::<u8>::empty());
        assert(t[0] == b);
        assert(percent_encoded(t) =~= percent_encoded(bs) + encode_byte(b));
    } else {
        let rest = bs.subrange(1, bs.len() as int);
        lemma_encoded_push(rest, b);
        assert(t.subrange(1, t.len() as int) =~= rest.push(b));
        assert(percent_encoded(t) =~= percent_encoded(bs) + encode_byte(b));
    }
}

/// Every character of an encoded value is a letter, a digit, `%`, `-`, `.`,
/// `_` or `~`.
pub proof fn lemma_encoded_chars(bs: Seq<u8>)
    ensures
        forall|i: int|
            0 <= i < percent_encoded(bs).len() ==> is_encoded_char(
                #[trigger] percent_encoded(bs)[i],
            ),
    decreases bs.len(),
{
    if bs.len() > 0 {
        let rest = bs.subrange(1, bs.len() as int);
        lemma_encoded_chars(rest);
        let b = bs[0];
        if !is_unreserved(b) {
            lemma_hex_digit(b / 16);
            lemma_hex_digit(b % 16);
        }
        let e = encode_byte(b);
        let t = percent_encoded(bs);
        assert(t == e + percent_encoded(rest));
        assert forall|i: int| 0 <= i < t.len() implies is_encoded_char(#[trigger] t[i]) by {
            if i >= e.len() {
                assert(t[i] == percent_encoded(rest)[i - e.len()]);
            }
        }
    }
}

/// Decoding an encoded value gives back the bytes.
pub proof fn lemma_decode_encoded(bs: Seq<u8>)
    ensures
        percent_decoded(percent_encoded(bs)) == bs,
    decreases bs.len(),
{
    if bs.len() > 0 {
        let b = bs[0];
        let rest = bs.subrange(1, bs.len() as int);
        lemma_decode_encoded(rest);
        let t = percent_encoded(bs);
        let e = encode_byte(b);
        assert(t == e + percent_encoded(rest));
        if is_unreserved(b) {
            assert(t[0] == b as char);
            assert(t.subrange(1, t.len() as int) =~= percent_encoded(rest));
        } else {
            lemma_hex_digit(b / 16);
            lemma_hex_digit(b % 16);
            assert(t.subrange(3, t.len() as int) =~= percent_encoded(rest));
            assert(((b / 16) as int) * 16 + (b % 16) as int == b as int) by (nonlinear_arith);
        }
        assert(percent_decoded(t) =~= bs);
    }
}

/// The value that a text is written as stands for the text again.
pub proof fn lemma_text_round_trip(s: Seq<char>)
    ensures
        decoded_text(encoded_text(s)) == s,
{
    lemma_decode_encoded(encode_utf8(s));
    encode_utf8_decode_utf8(s);
}

/// Relies on `String::push`: the character is added at the end.
#[verifier::external_body]
fn push_char(s: &mut String, c: char)
    ensures
        final(s)@ == old(s)@.push(c),
{
    s.push(c)
}

fn hex_digit_of(n: u8) -> (c: char)
    requires
        n < 16,
    ensures
        c == hex_digit(n),
{
    if n < 10 {
        (48 + n) as char
    } else {
        (55 + n) as char
    }
}

/// Percent-encodes a text for use as the value of a parameter: letters,
/// digits, `-`, `.`, `_` and `~` stand for themselves, and every other byte
/// of the text's UTF-8 form becomes `%` and two upper-case hexadecimal digits.
pub fn encode_value(s: &str) -> (r: String)
    ensures
        r@ == encoded_text(s@),
{
    let bytes = s.as_bytes();
    let mut out = String::new();
    let mut i: usize = 0;
    while i < bytes.len()
        invariant
            i <= bytes@.len(),
            bytes@ == encode_utf8(s@),
            out@ == percent_encoded(bytes@.subrange(0, i as int)),
        decreases bytes.len() - i,
    {
        let b = bytes[i];
        let unreserved = (65 <= b && b <= 90) || (97 <= b && b <= 122) || (48 <= b && b <= 57)
            || b == 45 || b == 46 || b == 95 || b == 126;
        if unreserved {
            push_char(&mut out, b as char);
        } else {
            push_char(&mut out, '%');
            push_char(&mut out, hex_digit_of(b / 16));
            push_char(&mut out, hex_digit_of(b % 16));
        }
        proof {
            lemma_encoded_push(bytes@.subrange(0, i as int), b);
            assert(bytes@.subrange(0, i + 1) =~= bytes@.subrange(0, i as int).push(b));
            assert(out@ =~= percent_encoded(bytes@.subrange(0, i as int)) + encode_byte(b));
        }
        i = i + 1;
    }
    assert(bytes@.subrange(0, bytes@.len() as int) =~= bytes@);
    out
}

} // verus!
