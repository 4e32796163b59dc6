use vstd::prelude::*;

use crate::color::Rgb;
use crate::numbers::{dec_rep, dec_val, is_digit};

verus! {

// The wire format of a user record, as this application speaks it: a
// JSON object with a `name` string and a `color` object of three byte
// channels, in either field order, with insignificant whitespace
// between tokens. String values hold no escapes: any character except
// the quote, the backslash and the control range stands for itself.

/// JSON insignificant whitespace.
pub open spec fn is_ws(c: char) -> bool {
    c == ' ' || c == '\t' || c == '\n' || c == '\r'
}

/// A character that stands for itself inside a string value.
pub open spec fn is_plain(c: char) -> bool {
    c != '"' && c != '\\' && ' ' <= c
}

/// The first position at or after `i` holding no whitespace.
pub open spec fn skip_ws(s: Seq<char>, i: int) -> int
    recommends
        0 <= i <= s.len(),
    decreases s.len() - i, 0int,
        when 0 <= i <= s.len()
{
    if i < s.len() && is_ws(s[i]) {
        skip_ws(s, i + 1)
    } else {
        i
    }
}

/// Skip whitespace then require the character `c`; the position just
/// after it on success.
pub open spec fn expect_char(s: Seq<char>, i: int, c: char) -> Option<int>
    recommends
        0 <= i <= s.len(),
{
    let j = skip_ws(s, i);
    if j < s.len() && s[j] == c {
        Some(j + 1)
    } else {
        None
    }
}

/// The position of the closing quote of a string value opened just
/// before `i`, if every character up to it stands for itself.
pub open spec fn find_close(s: Seq<char>, i: int) -> Option<int>
    recommends
        0 <= i <= s.len(),
    decreases s.len() - i, 0int,
        when 0 <= i <= s.len()
{
    if i >= s.len() {
        None
    } else if s[i] == '"' {
        Some(i)
    } else if is_plain(s[i]) {
        find_close(s, i + 1)
    } else {
        None
    }
}

/// A string value at `i`: an opening quote, characters standing for
/// themselves, a closing quote. Yields the content and the position
/// after the closing quote.
pub open spec fn parse_jstring(s: Seq<char>, i: int) -> Option<(Seq<char>, int)>
    recommends
        0 <= i <= s.len(),
{
    if 0 <= i < s.len() && s[i] == '"' {
        match find_close(s, i + 1) {
            Some(j) => Some((s.subrange(i + 1, j), j + 1)),
            None => None,
        }
    } else {
        None
    }
}

/// The first position at or after `i` holding no decimal digit.
pub open spec fn digits_end(s: Seq<char>, i: int) -> int
    recommends
        0 <= i <= s.len(),
    decreases s.len() - i, 0int,
        when 0 <= i <= s.len()
{
    if i < s.len() && is_digit(s[i]) {
        digits_end(s, i + 1)
    } else {
        i
    }
}

proof fn lemma_digits_end_bounds(s: Seq<char>, i: int)
    requires
        0 <= i <= s.len(),
    ensures
        i <= digits_end(s, i) <= s.len(),
        forall|k: int| i <= k < digits_end(s, i) ==> is_digit(#[trigger] s[k]),
    decreases s.len() - i,
{
    if i < s.len() && is_digit(s[i]) {
        lemma_digits_end_bounds(s, i + 1);
    }
}

/// A byte-sized number at `i`: decimal digits without a leading zero
/// (except the numeral `0` itself), with a value of at most 255.
pub open spec fn parse_byte_num(s: Seq<char>, i: int) -> Option<(u8, int)>
    recommends
        0 <= i <= s.len(),
{
    if 0 <= i < s.len() && is_digit(s[i]) {
        if s[i] == '0' {
            Some((0u8, i + 1))
        } else {
            let j = digits_end(s, i);
            let v = dec_val(s.subrange(i, j));
            if v <= 255 {
                Some((v as u8, j))
            } else {
                None
            }
        }
    } else {
        None
    }
}

/// One member of the color object: a key string, a colon, a byte value.
pub open spec fn parse_member(s: Seq<char>, i: int) -> Option<(Seq<char>, u8, int)>
    recommends
        0 <= i <= s.len(),
{
    match parse_jstring(s, skip_ws(s, i)) {
        Some((k, i1)) => match expect_char(s, i1, ':') {
            Some(i2) => match parse_byte_num(s, skip_ws(s, i2)) {
                Some((v, i3)) => Some((k, v, i3)),
                None => None,
            },
            None => None,
        },
        None => None,
    }
}

/// Whether three member keys name the three channels, one each.
pub open spec fn channel_keys_ok(k1: Seq<char>, k2: Seq<char>, k3: Seq<char>) -> bool {
    k1 != k2 && k1 != k3 && k2 != k3 && (k1 == "r"@ || k1 == "g"@ || k1 == "b"@) && (k2 == "r"@
        || k2 == "g"@ || k2 == "b"@) && (k3 == "r"@ || k3 == "g"@ || k3 == "b"@)
}

/// The value of the member whose key is `key`.
pub open spec fn channel_val(
    key: Seq<char>,
    k1: Seq<char>,
    v1: u8,
    k2: Seq<char>,
    v2: u8,
    v3: u8,
) -> u8 {
    if k1 == key {
        v1
    } else if k2 == key {
        v2
    } else {
        v3
    }
}

/// The color three members denote, when their keys are `r`, `g` and `b`
/// in some order.
pub open spec fn rgb_of_members(
    k1: Seq<char>,
    v1: u8,
    k2: Seq<char>,
    v2: u8,
    k3: Seq<char>,
    v3: u8,
) -> Option<Rgb> {
    if channel_keys_ok(k1, k2, k3) {
        Some(
            Rgb {
                r: channel_val("r"@, k1, v1, k2, v2, v3),
                g: channel_val("g"@, k1, v1, k2, v2, v3),
                b: channel_val("b"@, k1, v1, k2, v2, v3),
            },
        )
    } else {
        None
    }
}

/// A color object at `i`: three members keyed `r`, `g`, `b` in some
/// order, braces around them, commas between them.
pub open spec fn parse_color_obj(s: Seq<char>, i: int) -> Option<(Rgb, int)>
    recommends
        0 <= i <= s.len(),
{
    match expect_char(s, i, '{') {
        Some(i1) => match parse_member(s, i1) {
            Some((k1, v1, i2)) => match expect_char(s, i2, ',') {
                Some(i3) => match parse_member(s, i3) {
                    Some((k2, v2, i4)) => match expect_char(s, i4, ',') {
                        Some(i5) => match parse_member(s, i5) {
                            Some((k3, v3, i6)) => match expect_char(s, i6, '}') {
                                Some(i7) => match rgb_of_members(k1, v1, k2, v2, k3, v3) {
                                    Some(c) => Some((c, i7)),
                                    None => None,
                                },
                                None => None,
                            },
                            None => None,
                        },
                        None => None,
                    },
                    None => None,
                },
                None => None,
            },
            None => None,
        },
        None => None,
    }
}

/// What follows the name field when it came first, or precedes it when
/// the color came first, joined at the top level of the user object.
pub open spec fn parse_user_doc(s: Seq<char>) -> Option<(Seq<char>, Rgb)>
{
    match expect_char(s, 0, '{') {
        Some(i1) => match parse_jstring(s, skip_ws(s, i1)) {
            Some((k1, i2)) => match expect_char(s, i2, ':') {
                Some(i3) => if k1 == "name"@ {
                    match parse_jstring(s, skip_ws(s, i3)) {
                        Some((nm, i4)) => match expect_char(s, i4, ',') {
                            Some(i5) => match parse_jstring(s, skip_ws(s, i5)) {
                                Some((k2, i6)) => if k2 == "color"@ {
                                    match expect_char(s, i6, ':') {
                                        Some(i7) => match parse_color_obj(s, i7) {
                                            Some((c, i8)) => match expect_char(s, i8, '}') {
                                                Some(i9) => if skip_ws(s, i9) == s.len() {
                                                    Some((nm, c))
                                                } else {
                                                    None
                                                },
                                                None => None,
                                            },
                                            None => None,
                                        },
                                        None => None,
                                    }
                                } else {
                                    None
                                },
                                None => None,
                            },
                            None => None,
                        },
                        None => None,
                    }
                } else if k1 == "color"@ {
                    match parse_color_obj(s, i3) {
                        Some((c, i4)) => match expect_char(s, i4, ',') {
                            Some(i5) => match parse_jstring(s, skip_ws(s, i5)) {
                                Some((k2, i6)) => if k2 == "name"@ {
                                    match expect_char(s, i6, ':') {
                                        Some(i7) => match parse_jstring(s, skip_ws(s, i7)) {
                                            Some((nm, i8)) => match expect_char(s, i8, '}') {
                                                Some(i9) => if skip_ws(s, i9) == s.len() {
                                                    Some((nm, c))
                                                } else {
                                                    None
                                                },
                                                None => None,
                                            },
                                            None => None,
                                        },
                                        None => None,
                                    }
                                } else {
                                    None
                                },
                                None => None,
                            },
                            None => None,
                        },
                        None => None,
                    }
                } else {
                    None
                },
                None => None,
            },
            None => None,
        },
        None => None,
    }
}

// ---------------------------------------------------------------------
// Executable scanners, each proved to compute the spec parse above.
// ---------------------------------------------------------------------

fn ws_char(c: char) -> (r: bool)
    ensures
        r == is_ws(c),
{
    c == ' ' || c == '\t' || c == '\n' || c == '\r'
}

fn plain_char(c: char) -> (r: bool)
    ensures
        r == is_plain(c),
{
    c != '"' && c != '\\' && c >= ' '
}

fn digit_char(c: char) -> (r: bool)
    ensures
        r == is_digit(c),
{
    let u = c as u32;
    48 <= u && u <= 57
}

fn ws_end(s: &str, len: usize, i: usize) -> (r: usize)
    requires
        len == s@.len(),
        i <= len,
    ensures
        r as int == skip_ws(s@, i as int),
        i <= r <= len,
{
    let mut j = i;
    while j < len && ws_char(s.get_char(j))
        invariant
            i <= j <= len,
            len == s@.len(),
            skip_ws(s@, i as int) == skip_ws(s@, j as int),
        decreases len - j,
    {
        j = j + 1;
    }
    j
}

fn expect_char_at(s: &str, len: usize, i: usize, c: char) -> (r: Option<usize>)
    requires
        len == s@.len(),
        i <= len,
    ensures
        r is Some <==> expect_char(s@, i as int, c) is Some,
        r is Some ==> r->0 as int == expect_char(s@, i as int, c)->0 && i < r->0 <= len,
{
    let j = ws_end(s, len, i);
    if j < len && s.get_char(j) == c {
        Some(j + 1)
    } else {
        None
    }
}

fn scan_jstring(s: &str, len: usize, i: usize) -> (r: Option<(String, usize)>)
    requires
        len == s@.len(),
        i <= len,
    ensures
        r is Some <==> parse_jstring(s@, i as int) is Some,
        r matches Some(p) ==> (parse_jstring(s@, i as int) matches Some(q) && p.0@ == q.0
            && p.1 as int == q.1 && i < p.1 <= len),
{
    if i == len || s.get_char(i) != '"' {
        return None;
    }
    let mut j = i + 1;
    while j < len && plain_char(s.get_char(j))
        invariant
            i + 1 <= j <= len,
            len == s@.len(),
            find_close(s@, i + 1) == find_close(s@, j as int),
        decreases len - j,
    {
        j = j + 1;
    }
    if j == len {
        return None;
    }
    if s.get_char(j) != '"' {
        return None;
    }
    let content = s.substring_char(i + 1, j);
    Some((String::from_str(content), j + 1))
}

fn scan_byte_num(s: &str, len: usize, i: usize) -> (r: Option<(u8, usize)>)
    requires
        len == s@.len(),
        i <= len,
    ensures
        r is Some <==> parse_byte_num(s@, i as int) is Some,
        r matches Some(p) ==> (parse_byte_num(s@, i as int) matches Some(q) && p.0 == q.0
            && p.1 as int == q.1 && i < p.1 <= len),
{
    if i == len || !digit_char(s.get_char(i)) {
        return None;
    }
    if s.get_char(i) == '0' {
        return Some((0u8, i + 1));
    }
    proof {
        lemma_digits_end_bounds(s@, i as int);
        lemma_digits_end_bounds(s@, i + 1);
        assert(digits_end(s@, i as int) == digits_end(s@, i + 1));
    }
    let ghost de = digits_end(s@, i as int);
    let mut j = i;
    let mut acc: u32 = 0;
    while j < len && digit_char(s.get_char(j))
        invariant
            i <= j <= len,
            i < len,
            len == s@.len(),
            is_digit(s@[i as int]),
            s@[i as int] != '0',
            digits_end(s@, i as int) == digits_end(s@, j as int),
            de == digits_end(s@, i as int),
            i <= de <= len,
            j <= de,
            forall|k: int| i <= k < de ==> is_digit(#[trigger] s@[k]),
            acc == dec_val(s@.subrange(i as int, j as int)),
            acc <= 255,
        decreases len - j,
    {
        let c = s.get_char(j);
        let d: u32 = c as u32 - 48;
        proof {
            assert(digits_end(s@, j as int) == digits_end(s@, j + 1));
            lemma_digits_end_bounds(s@, j + 1);
            assert(s@.subrange(i as int, j + 1).drop_last() =~= s@.subrange(i as int, j as int));
            assert(s@.subrange(i as int, j + 1).last() == s@[j as int]);
        }
        let next: u32 = acc * 10 + d;
        if next > 255 {
            proof {
                let whole = s@.subrange(i as int, de);
                crate::numbers::lemma_dec_val_prefix_le(whole, j + 1 - i);
                assert(whole.subrange(0, j + 1 - i) =~= s@.subrange(i as int, j + 1));
                assert(dec_val(s@.subrange(i as int, j + 1)) == acc * 10 + crate::numbers::digit_val(
                    s@[j as int]));
                assert(crate::numbers::digit_val(s@[j as int]) == d);
                assert(dec_val(s@.subrange(i as int, de)) >= next);
            }
            return None;
        }
        acc = next;
        j = j + 1;
    }
    proof {
        assert(j == de);
    }
    Some((acc as u8, j))
}

pub(crate) fn str_eq(a: &str, b: &str) -> (r: bool)
    ensures
        r == (a@ == b@),
{
    let sa = String::from_str(a);
    let sb = String::from_str(b);
    sa == sb
}

fn scan_member(s: &str, len: usize, i: usize) -> (r: Option<(String, u8, usize)>)
    requires
        len == s@.len(),
        i <= len,
    ensures
        r is Some <==> parse_member(s@, i as int) is Some,
        r matches Some(p) ==> (parse_member(s@, i as int) matches Some(q) && p.0@ == q.0
            && p.1 == q.1 && p.2 as int == q.2 && i < p.2 <= len),
{
    let j = ws_end(s, len, i);
    let (k, i1) = match scan_jstring(s, len, j) {
        Some(p) => p,
        None => {
            return None;
        },
    };
    let i2 = match expect_char_at(s, len, i1, ':') {
        Some(p) => p,
        None => {
            return None;
        },
    };
    let j2 = ws_end(s, len, i2);
    match scan_byte_num(s, len, j2) {
        Some((v, i3)) => Some((k, v, i3)),
        None => None,
    }
}

fn scan_color_obj(s: &str, len: usize, i: usize) -> (r: Option<(Rgb, usize)>)
    requires
        len == s@.len(),
        i <= len,
    ensures
        r is Some <==> parse_color_obj(s@, i as int) is Some,
        r matches Some(p) ==> (parse_color_obj(s@, i as int) matches Some(q) && p.0 == q.0
            && p.1 as int == q.1 && i < p.1 <= len),
{
    let i1 = match expect_char_at(s, len, i, '{') {
        Some(p) => p,
        None => {
            return None;
        },
    };
    let (k1, v1, i2) = match scan_member(s, len, i1) {
        Some(p) => p,
        None => {
            return None;
        },
    };
    let i3 = match expect_char_at(s, len, i2, ',') {
        Some(p) => p,
        None => {
            return None;
        },
    };
    let (k2, v2, i4) = match scan_member(s, len, i3) {
        Some(p) => p,
        None => {
            return None;
        },
    };
    let i5 = match expect_char_at(s, len, i4, ',') {
        Some(p) => p,
        None => {
            return None;
        },
    };
    let (k3, v3, i6) = match scan_member(s, len, i5) {
        Some(p) => p,
        None => {
            return None;
        },
    };
    let i7 = match expect_char_at(s, len, i6, '}') {
        Some(p) => p,
        None => {
            return None;
        },
    };
    let distinct = !str_eq(k1.as_str(), k2.as_str()) && !str_eq(k1.as_str(), k3.as_str())
        && !str_eq(k2.as_str(), k3.as_str());
    let named = (str_eq(k1.as_str(), "r") || str_eq(k1.as_str(), "g") || str_eq(k1.as_str(), "b"))
        && (str_eq(k2.as_str(), "r") || str_eq(k2.as_str(), "g") || str_eq(k2.as_str(), "b"))
        && (str_eq(k3.as_str(), "r") || str_eq(k3.as_str(), "g") || str_eq(k3.as_str(), "b"));
    if !(distinct && named) {
        return None;
    }
    let r = if str_eq(k1.as_str(), "r") {
        v1
    } else if str_eq(k2.as_str(), "r") {
        v2
    } else {
        v3
    };
    let g = if str_eq(k1.as_str(), "g") {
        v1
    } else if str_eq(k2.as_str(), "g") {
        v2
    } else {
        v3
    };
    let b = if str_eq(k1.as_str(), "b") {
        v1
    } else if str_eq(k2.as_str(), "b") {
        v2
    } else {
        v3
    };
    Some((Rgb { r, g, b }, i7))
}

/// Decode the body text of a user document. Succeeds exactly when the
/// text is a well-formed user object, and then yields its name and
/// color.
pub fn decode_user_text(s: &str) -> (r: Option<(String, Rgb)>)
    ensures
        r is Some <==> parse_user_doc(s@) is Some,
        r matches Some(p) ==> (parse_user_doc(s@) matches Some(q) && p.0@ == q.0 && p.1 == q.1),
{
    let len = s.unicode_len();
    let i1 = match expect_char_at(s, len, 0, '{') {
        Some(p) => p,
        None => {
            return None;
        },
    };
    let j1 = ws_end(s, len, i1);
    let (k1, i2) = match scan_jstring(s, len, j1) {
        Some(p) => p,
        None => {
            return None;
        },
    };
    let i3 = match expect_char_at(s, len, i2, ':') {
        Some(p) => p,
        None => {
            return None;
        },
    };
    if str_eq(k1.as_str(), "name") {
        let j3 = ws_end(s, len, i3);
        let (nm, i4) = match scan_jstring(s, len, j3) {
            Some(p) => p,
            None => {
                return None;
            },
        };
        let i5 = match expect_char_at(s, len, i4, ',') {
            Some(p) => p,
            None => {
                return None;
            },
        };
        let j5 = ws_end(s, len, i5);
        let (k2, i6) = match scan_jstring(s, len, j5) {
            Some(p) => p,
            None => {
                return None;
            },
        };
        if !str_eq(k2.as_str(), "color") {
            return None;
        }
        let i7 = match expect_char_at(s, len, i6, ':') {
            Some(p) => p,
            None => {
                return None;
            },
        };
        let (c, i8) = match scan_color_obj(s, len, i7) {
            Some(p) => p,
            None => {
                return None;
            },
        };
        let i9 = match expect_char_at(s, len, i8, '}') {
            Some(p) => p,
            None => {
                return None;
            },
        };
        if ws_end(s, len, i9) != len {
            return None;
        }
        Some((nm, c))
    } else if str_eq(k1.as_str(), "color") {
        let (c, i4) = match scan_color_obj(s, len, i3) {
            Some(p) => p,
            None => {
                return None;
            },
        };
        let i5 = match expect_char_at(s, len, i4, ',') {
            Some(p) => p,
            None => {
                return None;
            },
        };
        let j5 = ws_end(s, len, i5);
        let (k2, i6) = match scan_jstring(s, len, j5) {
            Some(p) => p,
            None => {
                return None;
            },
        };
        if !str_eq(k2.as_str(), "name") {
            return None;
        }
        let i7 = match expect_char_at(s, len, i6, ':') {
            Some(p) => p,
            None => {
                return None;
            },
        };
        let j7 = ws_end(s, len, i7);
        let (nm, i8) = match scan_jstring(s, len, j7) {
            Some(p) => p,
            None => {
                return None;
            },
        };
        let i9 = match expect_char_at(s, len, i8, '}') {
            Some(p) => p,
            None => {
                return None;
            },
        };
        if ws_end(s, len, i9) != len {
            return None;
        }
        Some((nm, c))
    } else {
        None
    }
}

// ---------------------------------------------------------------------
// Encoding.
// ---------------------------------------------------------------------

/// Whether every character of `s` may stand inside a string value.
pub open spec fn encodable_text(s: Seq<char>) -> bool {
    forall|i: int| 0 <= i < s.len() ==> is_plain(#[trigger] s[i])
}

/// The canonical document for a user record: name first, then the three
/// channels in `r`, `g`, `b` order, no whitespace.
pub open spec fn user_doc_text(name: Seq<char>, c: Rgb) -> Seq<char> {
    "{\"name\":\""@ + name + "\",\"color\":{\"r\":"@ + dec_rep(c.r as nat) + ",\"g\":"@ + dec_rep(
        c.g as nat,
    ) + ",\"b\":"@ + dec_rep(c.b as nat) + "}}"@
}

/// Encode a user record as its canonical document. Fails exactly when
/// the name holds a character that cannot stand in a string value.
pub fn encode_user_text(name: &str, color: Rgb) -> (r: Option<String>)
    ensures
        r is Some <==> encodable_text(name@),
        r is Some ==> r->0@ == user_doc_text(name@, color),
{
    let nlen = name.unicode_len();
    let mut i: usize = 0;
    while i < nlen
        invariant
            0 <= i <= nlen,
            nlen == name@.len(),
            forall|k: int| 0 <= k < i ==> is_plain(#[trigger] name@[k]),
        decreases nlen - i,
    {
        if !plain_char(name.get_char(i)) {
            return None;
        }
        i = i + 1;
    }
    let mut out = String::from_str("{\"name\":\"");
    out.append(name);
    out.append("\",\"color\":{\"r\":");
    out.append(crate::numbers::u32_string(color.r as u32).as_str());
    out.append(",\"g\":");
    out.append(crate::numbers::u32_string(color.g as u32).as_str());
    out.append(",\"b\":");
    out.append(crate::numbers::u32_string(color.b as u32).as_str());
    out.append("}}");
    proof {
        assert(out@ =~= user_doc_text(name@, color));
    }
    Some(out)
}

} // verus!
