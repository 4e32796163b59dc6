use vstd::prelude::*;

use crate::error::{ErrorDetail, ErrorKind};

verus! {

/// A color as three 8-bit channels.
#[derive(Clone, Copy, Debug, PartialEq, Eq, Structural)]
pub struct Rgb {
    pub r: u8,
    pub g: u8,
    pub b: u8,
}

/// Whether `c` is an ASCII hexadecimal digit, either case.
pub open spec fn is_hex_digit(c: char) -> bool {
    ('0' <= c && c <= '9') || ('A' <= c && c <= 'F') || ('a' <= c && c <= 'f')
}

/// The numeric value of a hexadecimal digit.
pub open spec fn hex_val(c: char) -> nat
    recommends
        is_hex_digit(c),
{
    if '0' <= c && c <= '9' {
        (c as u32 - 48) as nat
    } else if 'A' <= c && c <= 'F' {
        (c as u32 - 55) as nat
    } else {
        (c as u32 - 87) as nat
    }
}

/// The bytes an even-length hexadecimal string denotes, one byte per
/// digit pair, high nibble first.
pub open spec fn hex_bytes(s: Seq<char>) -> Seq<u8>
    recommends
        s.len() % 2 == 0,
{
    Seq::new((s.len() / 2) as nat, |i: int| (hex_val(s[2 * i]) * 16 + hex_val(s[2 * i + 1])) as u8)
}

/// Relies on hex::decode: it reads the string's bytes (the characters,
/// for an ASCII string), succeeds exactly when the length is even and
/// every character is a hexadecimal digit, and then yields one byte per
/// digit pair, high nibble first.
#[verifier::external_body]
fn hex_decode(s: &str) -> (r: Option<Vec<u8>>)
    requires
        s.is_ascii(),
    ensures
        r is Some <==> (s@.len() % 2 == 0 && forall|i: int|
            0 <= i < s@.len() ==> is_hex_digit(s@[i])),
        r is Some ==> r->0@ == hex_bytes(s@),
{
    hex::decode(s).ok()
}

/// Whether `s` is a well-formed `#RRGGBB` color string: exactly seven
/// characters, a leading `#`, then six hexadecimal digits.
pub open spec fn color_text_ok(s: Seq<char>) -> bool {
    s.len() == 7 && s[0] == '#' && forall|i: int| 1 <= i < 7 ==> is_hex_digit(#[trigger] s[i])
}

/// The color a well-formed `#RRGGBB` string denotes.
pub open spec fn color_of_text(s: Seq<char>) -> Rgb
    recommends
        color_text_ok(s),
{
    Rgb {
        r: (hex_val(s[1]) * 16 + hex_val(s[2])) as u8,
        g: (hex_val(s[3]) * 16 + hex_val(s[4])) as u8,
        b: (hex_val(s[5]) * 16 + hex_val(s[6])) as u8,
    }
}

/// Parse a `#RRGGBB` color string into its three channels. Succeeds
/// exactly on well-formed input; anything else, including a wrong
/// length, is rejected with a decode error rather than a crash.
pub fn parse_hex_color(s: &str) -> (r: Result<Rgb, ErrorDetail>)
    ensures
        r is Ok <==> color_text_ok(s@),
        r is Ok ==> r->Ok_0 == color_of_text(s@),
        r is Err ==> r->Err_0.kind == ErrorKind::Decode,
{
    let len: usize = s.unicode_len();
    if len != 7 {
        return Err(ErrorDetail::decode(String::from_str("color must be 7 characters, #RRGGBB")));
    }
    if !s.is_ascii() {
        proof {
            assert(!color_text_ok(s@)) by {
                if color_text_ok(s@) {
                    assert(forall|i: int|
                        0 <= i < s@.len() ==> '\0' <= #[trigger] s@[i] <= '\u{7f}') by {
                        assert forall|i: int|
                            0 <= i < s@.len() implies '\0' <= #[trigger] s@[i] <= '\u{7f}' by {
                            if i == 0 {
                                assert(s@[0] == '#');
                            } else {
                                assert(is_hex_digit(s@[i]));
                            }
                        }
                    }
                }
            }
        }
        return Err(ErrorDetail::decode(String::from_str("color holds a non-hex character")));
    }
    if s.get_char(0) != '#' {
        return Err(ErrorDetail::decode(String::from_str("color must begin with #")));
    }
    let body = s.substring_ascii(1, 7);
    match hex_decode(body) {
        None => {
            proof {
                assert(body@.len() == 6);
                let j = choose|j: int| 0 <= j < body@.len() && !is_hex_digit(body@[j]);
                assert(body@[j] == s@[j + 1]);
            }
            Err(ErrorDetail::decode(String::from_str("color holds a non-hex character")))
        },
        Some(bytes) => {
            proof {
                assert(bytes@.len() == 3);
                assert(bytes@[0] == (hex_val(body@[0]) * 16 + hex_val(body@[1])) as u8);
                assert(bytes@[1] == (hex_val(body@[2]) * 16 + hex_val(body@[3])) as u8);
                assert(bytes@[2] == (hex_val(body@[4]) * 16 + hex_val(body@[5])) as u8);
                assert(forall|i: int| 0 <= i < 6 ==> body@[i] == s@[i + 1]);
            }
            Ok(Rgb { r: bytes[0], g: bytes[1], b: bytes[2] })
        },
    }
}

/// A string of the wrong length, or one holding any character that is
/// not a hexadecimal digit where one is expected, never denotes a color.
pub proof fn lemma_malformed_color_rejected(s: Seq<char>)
    requires
        s.len() != 7 || exists|i: int| 1 <= i < 7 && !is_hex_digit(#[trigger] s[i]),
    ensures
        !color_text_ok(s),
{
}

} // verus!
