//! Base64, as the agent configuration is carried in the user data.

use base64::Engine;
use vstd::prelude::*;
use vstd::utf8::*;

verus! {

/// The digit that stands for a value below 64: `A` to `Z`, `a` to `z`, `0` to `9`, `+`, `/`.
pub open spec fn base64_digit(value: int) -> char {
    if value < 26 {
        ('A' as int + value) as char
    } else if value < 52 {
        ('a' as int + (value - 26)) as char
    } else if value < 62 {
        ('0' as int + (value - 52)) as char
    } else if value == 62 {
        '+'
    } else {
        '/'
    }
}

/// The standard base64 text of bytes: four digits for each three bytes, six bits a digit, and `=`
/// in the place of the digits that a last, shorter group lacks.
pub open spec fn base64_text(bytes: Seq<u8>) -> Seq<char>
    decreases bytes.len(),
{
    if bytes.len() == 0 {
        Seq::empty()
    } else if bytes.len() == 1 {
        seq![base64_digit(bytes[0] as int / 4), base64_digit(bytes[0] % 4 * 16), '=', '=']
    } else if bytes.len() == 2 {
        seq![
            base64_digit(bytes[0] as int / 4),
            base64_digit(bytes[0] % 4 * 16 + bytes[1] / 16),
            base64_digit(bytes[1] % 16 * 4),
            '=',
        ]
    } else {
        seq![
            base64_digit(bytes[0] as int / 4),
            base64_digit(bytes[0] % 4 * 16 + bytes[1] / 16),
            base64_digit(bytes[1] % 16 * 4 + bytes[2] / 64),
            base64_digit(bytes[2] as int % 64),
        ] + base64_text(bytes.skip(3))
    }
}

/// Calls `encode` of the `base64` crate's `STANDARD` engine on the UTF-8 bytes of a text.
///
/// Claimed of it: it returns the base64 text of those bytes, in the standard alphabet and padded.
/// Its check that the length of the result fits a `usize` holds for every text, since a text has
/// at most `isize::MAX` bytes. Running out of memory is left aside, as it is wherever a text grows.
#[verifier::external_body]
pub(crate) fn encode_base64(text: &str) -> (encoded: String)
    ensures
        encoded@ == base64_text(encode_utf8(text@)),
{
    base64::engine::general_purpose::STANDARD.encode(text)
}

proof fn lemma_digit_decides_value(a: int, b: int)
    requires
        0 <= a < 64,
        0 <= b < 64,
        base64_digit(a) == base64_digit(b),
    ensures
        a == b,
{
}

proof fn lemma_digit_is_no_padding(a: int)
    requires
        0 <= a < 64,
    ensures
        base64_digit(a) != '=',
{
}

/// Nothing is lost in base64: bytes with the same text are the same bytes.
pub proof fn law_base64_decides_bytes(a: Seq<u8>, b: Seq<u8>)
    requires
        base64_text(a) == base64_text(b),
    ensures
        a == b,
    decreases a.len(),
{
    let s = base64_text(a);
    let t = base64_text(b);
    lemma_base64_shape(a);
    lemma_base64_shape(b);
    if a.len() > 0 && b.len() > 0 {
        assert(s[0] == t[0] && s[1] == t[1] && s[2] == t[2] && s[3] == t[3]);
        lemma_digit_decides_value(a[0] as int / 4, b[0] as int / 4);
        if a.len() >= 3 && b.len() >= 3 {
            lemma_digit_decides_value(a[0] % 4 * 16 + a[1] / 16, b[0] % 4 * 16 + b[1] / 16);
            lemma_digit_decides_value(a[1] % 16 * 4 + a[2] / 64, b[1] % 16 * 4 + b[2] / 64);
            lemma_digit_decides_value(a[2] as int % 64, b[2] as int % 64);
            assert(s.skip(4) =~= base64_text(a.skip(3)));
            assert(t.skip(4) =~= base64_text(b.skip(3)));
            law_base64_decides_bytes(a.skip(3), b.skip(3));
            assert(a =~= seq![a[0], a[1], a[2]] + a.skip(3));
            assert(b =~= seq![b[0], b[1], b[2]] + b.skip(3));
        } else {
            if a.len() == 1 && b.len() == 1 {
                lemma_digit_decides_value(a[0] % 4 * 16, b[0] % 4 * 16);
            } else if a.len() == 2 && b.len() == 2 {
                lemma_digit_decides_value(a[0] % 4 * 16 + a[1] / 16, b[0] % 4 * 16 + b[1] / 16);
                lemma_digit_decides_value(a[1] % 16 * 4, b[1] % 16 * 4);
            }
            assert(a =~= b);
        }
    } else {
        assert(a =~= b);
    }
}

/// The value that a character of the standard alphabet stands for; none where it is not in that.
pub open spec fn base64_value(c: char) -> Option<int> {
    if 'A' <= c <= 'Z' {
        Some(c as int - 'A' as int)
    } else if 'a' <= c <= 'z' {
        Some(c as int - 'a' as int + 26)
    } else if '0' <= c <= '9' {
        Some(c as int - '0' as int + 52)
    } else if c == '+' {
        Some(62)
    } else if c == '/' {
        Some(63)
    } else {
        None
    }
}

/// Base64 can be decoded, group by group: each four characters stand for three bytes, of which the
/// last group may lack one or two. Read as one number in digits of six bits they give the number
/// that the bytes make in digits of eight bits. Where bytes are lacking, zeros stand for them and `=`
/// for the characters that hold nothing else; there is no other padding.
pub proof fn law_base64_is_decoded(bytes: Seq<u8>, group: int)
    ensures
        base64_text(bytes).len() == (bytes.len() + 2) / 3 * 4,
        0 <= 3 * group < bytes.len() ==> {
            let text = base64_text(bytes);
            let left = bytes.len() - 3 * group;
            let a = text[4 * group];
            let b = text[4 * group + 1];
            let c = text[4 * group + 2];
            let d = text[4 * group + 3];
            let byte = |k: int|
                if k < left {
                    bytes[3 * group + k] as int
                } else {
                    0
                };
            let value = |digit: char|
                if digit == '=' {
                    0
                } else {
                    base64_value(digit)->Some_0
                };
            &&& 4 * group + 4 <= text.len()
            &&& base64_value(a) is Some && base64_value(b) is Some
            &&& if left >= 2 {
                base64_value(c) is Some
            } else {
                c == '='
            }
            &&& if left >= 3 {
                base64_value(d) is Some
            } else {
                d == '='
            }
            &&& ((value(a) * 64 + value(b)) * 64 + value(c)) * 64 + value(d) == (byte(0) * 256
                + byte(1)) * 256 + byte(2)
        },
    decreases bytes.len(),
{
    if bytes.len() > 3 {
        let rest = bytes.skip(3);
        law_base64_is_decoded(rest, group - 1);
        if group > 0 && 3 * group < bytes.len() {
            let text = base64_text(bytes);
            let rest_text = base64_text(rest);
            assert(text[4 * group] == rest_text[4 * (group - 1)]);
            assert(text[4 * group + 1] == rest_text[4 * (group - 1) + 1]);
            assert(text[4 * group + 2] == rest_text[4 * (group - 1) + 2]);
            assert(text[4 * group + 3] == rest_text[4 * (group - 1) + 3]);
            let left = bytes.len() - 3 * group;
            assert(bytes[3 * group] == rest[3 * (group - 1)]);
            assert(left > 1 ==> bytes[3 * group + 1] == rest[3 * (group - 1) + 1]);
            assert(left > 2 ==> bytes[3 * group + 2] == rest[3 * (group - 1) + 2]);
        }
    } else if bytes.len() == 3 {
        assert(base64_text(bytes.skip(3)).len() == 0);
    }
    if bytes.len() > 0 {
        lemma_digit_is_read_back(bytes[0] as int / 4);
        if bytes.len() == 1 {
            lemma_digit_is_read_back(bytes[0] % 4 * 16);
        } else {
            lemma_digit_is_read_back(bytes[0] % 4 * 16 + bytes[1] / 16);
            if bytes.len() == 2 {
                lemma_digit_is_read_back(bytes[1] % 16 * 4);
            } else {
                lemma_digit_is_read_back(bytes[1] % 16 * 4 + bytes[2] / 64);
                lemma_digit_is_read_back(bytes[2] as int % 64);
            }
        }
    }
}

proof fn lemma_digit_is_read_back(value: int)
    requires
        0 <= value < 64,
    ensures
        base64_value(base64_digit(value)) == Some(value),
        base64_digit(value) != '=',
{
}

/// A text that is not empty has four digits at the least, and its padding tells the length of a
/// group that is not full.
proof fn lemma_base64_shape(bytes: Seq<u8>)
    ensures
        bytes.len() == 0 <==> base64_text(bytes).len() == 0,
        bytes.len() > 0 ==> base64_text(bytes).len() >= 4,
        bytes.len() > 0 ==> base64_text(bytes)[0] == base64_digit(bytes[0] as int / 4),
        bytes.len() >= 2 ==> base64_text(bytes)[1] == base64_digit(
            bytes[0] % 4 * 16 + bytes[1] / 16,
        ),
        bytes.len() == 1 ==> base64_text(bytes)[2] == '=',
        bytes.len() >= 2 ==> base64_text(bytes)[2] != '=',
        bytes.len() == 2 ==> base64_text(bytes)[3] == '=',
        bytes.len() >= 3 ==> base64_text(bytes)[3] != '=',
{
    if bytes.len() == 2 {
        lemma_digit_is_no_padding(bytes[1] % 16 * 4);
    } else if bytes.len() >= 3 {
        lemma_digit_is_no_padding(bytes[1] % 16 * 4 + bytes[2] / 64);
        lemma_digit_is_no_padding(bytes[2] as int % 64);
    }
}

} // verus!
