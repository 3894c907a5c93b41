//! The directory that a file location names.
//!
//! The path of a URL is percent-encoded: a byte that the URL cannot hold as
//! it is written as `%` and two hexadecimal digits. The directory is named
//! by the path with those bytes put back.
//!
//! Whether a path such as `/C:/data` names the directory `C:/data` on a
//! drive, or a directory `C:` under the root, depends on the platform. The
//! caller says which: nothing here looks at the machine.

use vstd::prelude::*;
use vstd::string::*;
use vstd::utf8::*;

verus! {

/// The value of a hexadecimal digit, for a byte that is one.
pub open spec fn hex_value(digit: u8) -> Option<u8> {
    if 0x30 <= digit <= 0x39 {
        Some((digit - 0x30) as u8)
    } else if 0x41 <= digit <= 0x46 {
        Some((digit - 0x41 + 10) as u8)
    } else if 0x61 <= digit <= 0x66 {
        Some((digit - 0x61 + 10) as u8)
    } else {
        None
    }
}

/// Whether `bytes` start with an escape: `%` and two hexadecimal digits.
pub open spec fn starts_with_escape(bytes: Seq<u8>) -> bool {
    &&& bytes.len() >= 3
    &&& bytes[0] == 0x25
    &&& hex_value(bytes[1]) is Some
    &&& hex_value(bytes[2]) is Some
}

/// `bytes` with every escape replaced by the byte that it writes. A `%`
/// that starts no escape stands for itself.
pub open spec fn unescaped(bytes: Seq<u8>) -> Seq<u8>
    decreases bytes.len(),
{
    if bytes.len() == 0 {
        bytes
    } else if starts_with_escape(bytes) {
        seq![(16 * hex_value(bytes[1])->0 + hex_value(bytes[2])->0) as u8] + unescaped(
            bytes.skip(3),
        )
    } else {
        seq![bytes[0]] + unescaped(bytes.skip(1))
    }
}

/// The text that a percent-encoded path stands for: its bytes without the
/// escapes, read as text. Where those bytes are no text, it stands for
/// none.
pub open spec fn unescaped_text(path: Seq<char>) -> Option<Seq<char>> {
    let bytes = unescaped(encode_utf8(path));
    if valid_utf8(bytes) {
        Some(decode_utf8(bytes))
    } else {
        None
    }
}

/// The digit that writes a value below sixteen in hexadecimal, in upper
/// case.
pub open spec fn hex_digit(value: u8) -> u8 {
    if value < 10 {
        (0x30 + value) as u8
    } else {
        (0x41 + value - 10) as u8
    }
}

/// `bytes` percent-encoded: a byte that `keep` holds is written as it is,
/// any other as `%` and its two hexadecimal digits.
pub open spec fn escaped(keep: spec_fn(u8) -> bool, bytes: Seq<u8>) -> Seq<u8>
    decreases bytes.len(),
{
    if bytes.len() == 0 {
        bytes
    } else if keep(bytes[0]) {
        seq![bytes[0]] + escaped(keep, bytes.skip(1))
    } else {
        seq![0x25u8, hex_digit(bytes[0] / 16), hex_digit(bytes[0] % 16)] + escaped(
            keep,
            bytes.skip(1),
        )
    }
}

/// `text` as the path of a URL holds it: its bytes percent-encoded, each
/// as one ASCII character.
pub open spec fn escaped_text(keep: spec_fn(u8) -> bool, text: Seq<char>) -> Seq<char> {
    let bytes = escaped(keep, encode_utf8(text));
    Seq::new(bytes.len(), |i: int| bytes[i] as char)
}

/// Whether `c` is a letter of the ASCII alphabet.
pub open spec fn is_letter(c: char) -> bool {
    'a' <= c <= 'z' || 'A' <= c <= 'Z'
}

/// Whether a path starts with a drive: a slash, a letter and a colon, with
/// nothing or a slash behind them.
pub open spec fn names_drive(path: Seq<char>) -> bool {
    &&& path.len() >= 3
    &&& path[0] == '/'
    &&& is_letter(path[1])
    &&& path[2] == ':'
    &&& (path.len() == 3 || path[3] == '/')
}

/// `path` without the slash before a drive, and as it is where it starts
/// with none.
pub open spec fn without_drive_slash(path: Seq<char>) -> Seq<char> {
    if names_drive(path) {
        path.skip(1)
    } else {
        path
    }
}

/// The path of the directory that the path of a file URL names, if it
/// names one: the text that the path stands for, absolute as it is. Where
/// paths start with `drives`, the slash before a drive is no part of it.
pub open spec fn path_named(path: Seq<char>, drives: bool) -> Option<Seq<char>> {
    match unescaped_text(path) {
        Some(text) => if drives {
            Some(without_drive_slash(text))
        } else {
            Some(text)
        },
        None => None,
    }
}

/// Bytes without a `%` hold no escape, and stand for themselves.
pub proof fn lemma_no_escape(bytes: Seq<u8>)
    requires
        forall|i: int| 0 <= i < bytes.len() ==> bytes[i] != 0x25,
    ensures
        unescaped(bytes) == bytes,
    decreases bytes.len(),
{
    if bytes.len() > 0 {
        lemma_no_escape(bytes.skip(1));
        assert(seq![bytes[0]] + bytes.skip(1) =~= bytes);
    }
}

/// A path of ASCII characters without a `%` stands for itself.
pub proof fn law_plain_path_stands_for_itself(path: Seq<char>)
    requires
        is_ascii_chars(path),
        forall|i: int| 0 <= i < path.len() ==> path[i] != '%',
    ensures
        unescaped_text(path) == Some(path),
{
    let bytes = encode_utf8(path);
    is_ascii_chars_encode_utf8(path);
    assert forall|i: int| 0 <= i < bytes.len() implies bytes[i] != 0x25 by {
        assert(path[i] as u8 == bytes[i]);
        assert(path[i] != '%');
    }
    lemma_no_escape(bytes);
    encode_utf8_valid_utf8(path);
    encode_utf8_decode_utf8(path);
}

/// Unescaping undoes escaping, whichever bytes the escaping keeps, as long
/// as it does not keep `%` itself.
pub proof fn law_unescaping_undoes_escaping(keep: spec_fn(u8) -> bool, bytes: Seq<u8>)
    requires
        !keep(0x25),
    ensures
        unescaped(escaped(keep, bytes)) == bytes,
    decreases bytes.len(),
{
    if bytes.len() > 0 {
        let first = bytes[0];
        let rest = escaped(keep, bytes.skip(1));
        law_unescaping_undoes_escaping(keep, bytes.skip(1));
        if keep(first) {
            let whole = seq![first] + rest;
            assert(whole.skip(1) =~= rest);
            assert(!starts_with_escape(whole));
        } else {
            let high = first / 16;
            let low = first % 16;
            let whole = seq![0x25u8, hex_digit(high), hex_digit(low)] + rest;
            assert(hex_value(hex_digit(high)) == Some(high));
            assert(hex_value(hex_digit(low)) == Some(low));
            assert(whole.skip(3) =~= rest);
            assert(starts_with_escape(whole));
            assert(16 * high + low == first);
        }
        assert(seq![first] + bytes.skip(1) =~= bytes);
    }
}

/// Every byte of an escaped text is ASCII, where the escaping keeps ASCII
/// bytes only.
proof fn lemma_escaped_is_ascii(keep: spec_fn(u8) -> bool, bytes: Seq<u8>)
    requires
        forall|b: u8| #[trigger] keep(b) ==> b < 0x80,
    ensures
        forall|i: int| 0 <= i < escaped(keep, bytes).len() ==> escaped(keep, bytes)[i] < 0x80,
    decreases bytes.len(),
{
    if bytes.len() > 0 {
        lemma_escaped_is_ascii(keep, bytes.skip(1));
        let rest = escaped(keep, bytes.skip(1));
        let whole = escaped(keep, bytes);
        let piece = (whole.len() - rest.len()) as int;
        assert forall|i: int| 0 <= i < whole.len() implies whole[i] < 0x80 by {
            if i >= piece {
                assert(whole[i] == rest[i - piece]);
            }
        }
    }
}

/// The path that a URL holds for a text stands for that text: whatever
/// the text, with its spaces and its letters beyond ASCII, and whichever
/// ASCII bytes but `%` the URL keeps as they are.
pub proof fn law_escaped_text_stands_for_the_text(keep: spec_fn(u8) -> bool, text: Seq<char>)
    requires
        !keep(0x25),
        forall|b: u8| #[trigger] keep(b) ==> b < 0x80,
    ensures
        is_ascii_chars(escaped_text(keep, text)),
        unescaped_text(escaped_text(keep, text)) == Some(text),
        path_named(escaped_text(keep, text), false) == Some(text),
{
    let bytes = escaped(keep, encode_utf8(text));
    let path = escaped_text(keep, text);
    lemma_escaped_is_ascii(keep, encode_utf8(text));
    assert(is_ascii_chars(path)) by {
        assert forall|i: int| 0 <= i < path.len() implies '\0' <= #[trigger] path[i] <= '\u{7f}' by {
            assert(path[i] == bytes[i] as char);
            assert(bytes[i] < 0x80);
        }
    }
    is_ascii_chars_encode_utf8(path);
    assert(encode_utf8(path) =~= bytes) by {
        assert forall|i: int| 0 <= i < bytes.len() implies encode_utf8(path)[i] == bytes[i] by {
            assert(path[i] as u8 == encode_utf8(path)[i]);
            assert(path[i] == bytes[i] as char);
        }
    }
    law_unescaping_undoes_escaping(keep, encode_utf8(text));
    encode_utf8_valid_utf8(text);
    encode_utf8_decode_utf8(text);
}

/// The value of a hexadecimal digit, for a byte that is one.
fn hex(digit: u8) -> (value: Option<u8>)
    ensures
        value == hex_value(digit),
{
    if 0x30 <= digit && digit <= 0x39 {
        Some(digit - 0x30)
    } else if 0x41 <= digit && digit <= 0x46 {
        Some(digit - 0x41 + 10)
    } else if 0x61 <= digit && digit <= 0x66 {
        Some(digit - 0x61 + 10)
    } else {
        None
    }
}

/// `bytes` with every escape replaced by the byte that it writes.
pub fn unescape(bytes: &[u8]) -> (plain: Vec<u8>)
    ensures
        plain@ == unescaped(bytes@),
{
    let n: usize = bytes.len();
    let mut plain: Vec<u8> = Vec::new();
    let mut i: usize = 0;
    assert(bytes@.skip(0) =~= bytes@);
    while i < n
        invariant
            i <= n,
            n == bytes@.len(),
            unescaped(bytes@) == plain@ + unescaped(bytes@.skip(i as int)),
        decreases n - i,
    {
        let ghost rest = bytes@.skip(i as int);
        let ghost before = plain@;
        let mut escaped: Option<u8> = None;
        if bytes[i] == 0x25 && n - i >= 3 {
            escaped = match hex(bytes[i + 1]) {
                Some(high) => match hex(bytes[i + 2]) {
                    Some(low) => Some(16 * high + low),
                    None => None,
                },
                None => None,
            };
        }
        match escaped {
            Some(byte) => {
                assert(starts_with_escape(rest));
                assert(rest.skip(3) =~= bytes@.skip(i + 3));
                plain.push(byte);
                assert(plain@ + unescaped(bytes@.skip(i + 3)) =~= before + unescaped(rest));
                i += 3;
            },
            None => {
                assert(!starts_with_escape(rest));
                assert(rest.skip(1) =~= bytes@.skip(i + 1));
                plain.push(bytes[i]);
                assert(plain@ + unescaped(bytes@.skip(i + 1)) =~= before + unescaped(rest));
                i += 1;
            },
        }
    }
    assert(plain@ + unescaped(bytes@.skip(n as int)) =~= plain@);
    plain
}

/// `String::from_utf8` reads bytes as text. It gives the text that the
/// bytes encode where they are valid UTF-8, and refuses them where they are
/// not.
#[verifier::external_body]
fn text_of_bytes(bytes: Vec<u8>) -> (text: Option<String>)
    ensures
        text matches Some(t) ==> valid_utf8(bytes@) && t@ == decode_utf8(bytes@),
        text is None ==> !valid_utf8(bytes@),
{
    match String::from_utf8(bytes) {
        Ok(text) => Some(text),
        Err(_) => None,
    }
}

/// Whether `c` is a letter of the ASCII alphabet.
fn letter(c: char) -> (r: bool)
    ensures
        r == is_letter(c),
{
    ('a' <= c && c <= 'z') || ('A' <= c && c <= 'Z')
}

/// The path of the directory that the path of a file URL names, if it
/// names one. `drives` says whether paths start with a drive on this
/// platform.
pub fn local_path(path: &str, drives: bool) -> (local: Option<String>)
    ensures
        match local {
            Some(text) => path_named(path@, drives) == Some(text@),
            None => path_named(path@, drives) is None,
        },
{
    let text = match text_of_bytes(unescape(path.as_bytes())) {
        Some(text) => text,
        None => {
            return None;
        },
    };
    if !drives {
        return Some(text);
    }
    let n: usize = text.as_str().unicode_len();
    if n >= 3 && text.as_str().get_char(0) == '/' && letter(text.as_str().get_char(1))
        && text.as_str().get_char(2) == ':' && (n == 3 || text.as_str().get_char(3) == '/') {
        Some(text.as_str().substring_char(1, n).to_owned())
    } else {
        Some(text)
    }
}

} // verus!
