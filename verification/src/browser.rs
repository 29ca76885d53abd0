//! Percent-encoding and the web translator link shown to users.

use vstd::prelude::*;
use vstd::utf8::encode_utf8;
use crate::text::{owned, push_char};

verus! {

/// Bytes that URLs carry as they are.
pub open spec fn is_unreserved(b: u8) -> bool {
    (65 <= b <= 90) || (97 <= b <= 122) || (48 <= b <= 57) || b == 45 || b == 95 || b == 46
        || b == 126
}

/// Percent-encoding of the UTF-8 form of a text.
pub open spec fn encode_text(s: Seq<char>) -> Seq<char> {
    encode_bytes(encode_utf8(s))
}

/// Upper-case hexadecimal digit for a value below sixteen.
pub open spec fn hex_digit(n: u8) -> char {
    if n < 10 {
        ((48 + n) as u8) as char
    } else {
        ((55 + n) as u8) as char
    }
}

/// How one byte is written in a URL.
pub open spec fn encode_byte(b: u8) -> Seq<char> {
    if is_unreserved(b) {
        seq![b as char]
    } else {
        seq!['%', hex_digit(b / 16), hex_digit(b % 16)]
    }
}

/// Percent-encoding of a byte string.
pub open spec fn encode_bytes(bs: Seq<u8>) -> Seq<char>
    decreases bs.len(),
{
    if bs.len() == 0 {
        Seq::empty()
    } else {
        encode_byte(bs[0]) + encode_bytes(bs.drop_first())
    }
}

/// The value of a hexadecimal digit character.
pub open spec fn hex_value(c: char) -> int {
    if '0' <= c <= '9' {
        c as int - 48
    } else if 'A' <= c <= 'F' {
        c as int - 55
    } else if 'a' <= c <= 'f' {
        c as int - 87
    } else {
        -1
    }
}

/// Percent-decoding: `%` and two hex digits give a byte; any other
/// character stands for its own code.
pub open spec fn decode_chars(s: Seq<char>) -> Seq<u8>
    decreases s.len(),
{
    if s.len() == 0 {
        Seq::empty()
    } else if s.len() >= 3 && s[0] == '%' && hex_value(s[1]) >= 0 && hex_value(s[2]) >= 0 {
        seq![(hex_value(s[1]) * 16 + hex_value(s[2])) as u8] + decode_chars(s.skip(3))
    } else {
        seq![s[0] as u8] + decode_chars(s.skip(1))
    }
}

proof fn lemma_encode_append(a: Seq<u8>, b: Seq<u8>)
    ensures
        encode_bytes(a + b) == encode_bytes(a) + encode_bytes(b),
    decreases a.len(),
{
    if a.len() == 0 {
        assert(a + b =~= b);
    } else {
        assert((a + b).drop_first() =~= a.drop_first() + b);
        lemma_encode_append(a.drop_first(), b);
    }
}

proof fn lemma_encode_snoc(a: Seq<u8>, b: u8)
    ensures
        encode_bytes(a.push(b)) == encode_bytes(a) + encode_byte(b),
{
    lemma_encode_append(a, seq![b]);
    assert(a + seq![b] =~= a.push(b));
    assert(seq![b].drop_first() =~= Seq::<u8>::empty());
    assert(encode_bytes(Seq::<u8>::empty()) == Seq::<char>::empty());
    assert(encode_bytes(seq![b]) == encode_byte(b) + encode_bytes(Seq::<u8>::empty()));
    assert(encode_byte(b) + Seq::<char>::empty() =~= encode_byte(b));
}

proof fn lemma_hex_digit(n: u8)
    requires
        n < 16,
    ensures
        hex_value(hex_digit(n)) == n,
        hex_digit(n) != '%',
        ('0' <= hex_digit(n) <= '9') || ('A' <= hex_digit(n) <= 'F'),
        (hex_digit(n) as u32) < 128,
{
}

/// Percent-decoding undoes the encoding: the bytes come back unchanged.
pub proof fn lemma_decode_encode(bs: Seq<u8>)
    ensures
        decode_chars(encode_bytes(bs)) == bs,
    decreases bs.len(),
{
    if bs.len() > 0 {
        let b = bs[0];
        let rest = bs.drop_first();
        lemma_decode_encode(rest);
        let e = encode_bytes(bs);
        assert(e == encode_byte(b) + encode_bytes(rest));
        if is_unreserved(b) {
            assert(e[0] == b as char);
            assert(e[0] != '%');
            assert(e.skip(1) =~= encode_bytes(rest));
            assert(decode_chars(e) == seq![e[0] as u8] + decode_chars(e.skip(1)));
        } else {
            lemma_hex_digit(b / 16);
            lemma_hex_digit(b % 16);
            assert(e.len() >= 3);
            assert(e[0] == '%');
            assert(e[1] == hex_digit(b / 16));
            assert(e[2] == hex_digit(b % 16));
            assert(e.skip(3) =~= encode_bytes(rest));
            assert(decode_chars(e) == seq![(hex_value(e[1]) * 16 + hex_value(e[2])) as u8]
                + decode_chars(e.skip(3)));
            assert((hex_value(e[1]) * 16 + hex_value(e[2])) as u8 == b);
        }
        assert(bs =~= seq![b] + rest);
    }
}

/// Percent-decoding an encoded text and reading the bytes as UTF-8 gives
/// the text back.
pub proof fn law_encode_round_trip(s: Seq<char>)
    ensures
        decode_chars(encode_text(s)) == encode_utf8(s),
        vstd::utf8::decode_utf8(decode_chars(encode_text(s))) == s,
{
    lemma_decode_encode(encode_utf8(s));
    vstd::utf8::encode_utf8_decode_utf8(s);
}

/// The characters an encoding may hold: ASCII letters and digits, `-`,
/// `_`, `.`, `~`, and `%` to start an escape.
pub open spec fn url_char(c: char) -> bool {
    ('A' <= c <= 'Z') || ('a' <= c <= 'z') || ('0' <= c <= '9') || c == '-' || c == '_' || c == '.'
        || c == '~' || c == '%'
}

/// Every character of an encoding is an ASCII letter or digit, one of
/// `-`, `_`, `.`, `~`, or part of a `%XX` escape.
pub proof fn lemma_encode_is_url_safe(bs: Seq<u8>)
    ensures
        forall|i: int| 0 <= i < encode_bytes(bs).len() ==> {
            let c = #[trigger] encode_bytes(bs)[i];
            &&& url_char(c)
            &&& (c as u32) < 128 && c != ' ' && c != '&' && c != '=' && c != '?' && c != '#'
        },
    decreases bs.len(),
{
    if bs.len() > 0 {
        let b = bs[0];
        lemma_encode_is_url_safe(bs.drop_first());
        if !is_unreserved(b) {
            lemma_hex_digit(b / 16);
            lemma_hex_digit(b % 16);
        }
        let e = encode_bytes(bs);
        let h = encode_byte(b);
        let t = encode_bytes(bs.drop_first());
        assert forall|i: int| 0 <= i < e.len() implies {
            let c = #[trigger] e[i];
            &&& url_char(c)
            &&& (c as u32) < 128 && c != ' ' && c != '&' && c != '=' && c != '?' && c != '#'
        } by {
            if i < h.len() {
                assert(e[i] == h[i]);
            } else {
                assert(e[i] == t[i - h.len()]);
            }
        }
    }
}

/// A text's encoding holds only URL-safe characters: letters, digits,
/// `-`, `_`, `.`, `~` and `%` escapes; in particular no `+`, which a query
/// decoder would read as a space, and no `&`, `=`, `?`, `#` or space.
pub proof fn law_encode_is_url_safe(s: Seq<char>)
    ensures
        forall|i: int| 0 <= i < encode_text(s).len() ==> url_char(#[trigger] encode_text(s)[i]),
        forall|i: int| 0 <= i < encode_text(s).len() ==> #[trigger] encode_text(s)[i] != '+',
{
    lemma_encode_is_url_safe(encode_utf8(s));
}

proof fn lemma_encode_unreserved(bs: Seq<u8>)
    requires
        forall|i: int| 0 <= i < bs.len() ==> is_unreserved(#[trigger] bs[i]),
    ensures
        encode_bytes(bs) == bs.map_values(|b: u8| b as char),
    decreases bs.len(),
{
    if bs.len() > 0 {
        let rest = bs.drop_first();
        assert forall|i: int| 0 <= i < rest.len() implies is_unreserved(#[trigger] rest[i]) by {
            assert(rest[i] == bs[i + 1]);
        }
        lemma_encode_unreserved(rest);
        assert(is_unreserved(bs[0]));
        assert(encode_bytes(bs) =~= bs.map_values(|b: u8| b as char));
    }
}

/// A text made only of ASCII letters, digits, `-`, `_`, `.` and `~` is
/// left exactly as it is.
pub proof fn law_unreserved_text_is_unchanged(s: Seq<char>)
    requires
        forall|i: int|
            0 <= i < s.len() ==> {
                let c = #[trigger] s[i];
                ('A' <= c <= 'Z') || ('a' <= c <= 'z') || ('0' <= c <= '9') || c == '-' || c == '_'
                    || c == '.' || c == '~'
            },
    ensures
        encode_text(s) == s,
{
    assert(vstd::utf8::is_ascii_chars(s));
    vstd::utf8::is_ascii_chars_encode_utf8(s);
    let bs = encode_utf8(s);
    assert forall|i: int| 0 <= i < bs.len() implies is_unreserved(#[trigger] bs[i]) by {
        assert(s[i] as u8 == bs[i]);
    }
    lemma_encode_unreserved(bs);
    let m = bs.map_values(|b: u8| b as char);
    assert(m =~= s) by {
        assert forall|i: int| 0 <= i < s.len() implies #[trigger] m[i] == s[i] by {
            assert(s[i] as u8 == bs[i]);
            let c = s[i];
            assert((c as u8) as char == c) by {
                assert((c as u32) < 128);
            }
        }
    }
}

fn hex_digit_exec(n: u8) -> (c: char)
    requires
        n < 16,
    ensures
        c == hex_digit(n),
{
    if n < 10 {
        let b: u8 = 48 + n;
        b as char
    } else {
        let b: u8 = 55 + n;
        b as char
    }
}

/// Percent-encodes the UTF-8 bytes of `input`, leaving `A-Z a-z 0-9 - _ . ~`
/// as they are.
pub fn encode(input: &str) -> (r: String)
    ensures
        r@ == encode_text(input@),
{
    let bytes = input.as_bytes();
    let n = bytes.len();
    let mut out = String::new();
    let mut i: usize = 0;
    while i < n
        invariant
            n == bytes@.len(),
            bytes@ == encode_utf8(input@),
            i <= n,
            out@ == encode_bytes(bytes@.take(i as int)),
        decreases n - i,
    {
        let b = bytes[i];
        proof {
            assert(bytes@.take(i + 1) =~= bytes@.take(i as int).push(b));
            lemma_encode_snoc(bytes@.take(i as int), b);
        }
        if (65 <= b && b <= 90) || (97 <= b && b <= 122) || (48 <= b && b <= 57) || b == 45
            || b == 95 || b == 46 || b == 126 {
            push_char(&mut out, b as char);
        } else {
            push_char(&mut out, '%');
            push_char(&mut out, hex_digit_exec(b / 16));
            push_char(&mut out, hex_digit_exec(b % 16));
        }
        i = i + 1;
    }
    assert(bytes@.take(n as int) =~= bytes@);
    out
}

/// The Google Translate web page for a query.
pub open spec fn translate_url_of(sl: Seq<char>, tl: Seq<char>, text: Seq<char>) -> Seq<char> {
    "https://translate.google.com/?sl="@ + encode_text(sl) + "&tl="@ + encode_text(tl) + "&text="@
        + encode_text(text) + "&op=translate"@
}

pub fn translate_url(sl: &str, tl: &str, text: &str) -> (r: String)
    ensures
        r@ == translate_url_of(sl@, tl@, text@),
{
    let mut out = owned("https://translate.google.com/?sl=");
    out.append(encode(sl).as_str());
    out.append("&tl=");
    out.append(encode(tl).as_str());
    out.append("&text=");
    out.append(encode(text).as_str());
    out.append("&op=translate");
    out
}

} // verus!
