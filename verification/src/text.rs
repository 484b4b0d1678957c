//! Texts: how they are compared, and how numbers and texts are written into a URL.

use vstd::prelude::*;
use vstd::string::*;
use vstd::utf8::*;

verus! {

/// Whether two texts hold the same characters.
pub fn same_text(a: &str, b: &str) -> (same: bool)
    ensures
        same == (a@ == b@),
{
    let left = a.as_bytes();
    let right = b.as_bytes();
    proof {
        encode_utf8_decode_utf8(a@);
        encode_utf8_decode_utf8(b@);
    }
    if left.len() != right.len() {
        return false;
    }
    let mut i: usize = 0;
    while i < left.len()
        invariant
            i <= left@.len(),
            left@.len() == right@.len(),
            left@ == a.spec_bytes(),
            right@ == b.spec_bytes(),
            forall|k: int| 0 <= k < i ==> left@[k] == right@[k],
        decreases left@.len() - i,
    {
        if left[i] != right[i] {
            return false;
        }
        i += 1;
    }
    assert(left@ =~= right@);
    true
}

/// The lower-case form of an ASCII capital; any other character as it is.
pub open spec fn lower(c: char) -> char {
    if 'A' <= c <= 'Z' {
        ((c as u8) + 32) as char
    } else {
        c
    }
}

/// Whether two names are the same but for the case of their ASCII letters.
pub open spec fn same_name(a: Seq<char>, b: Seq<char>) -> bool {
    a.len() == b.len() && forall|i: int| 0 <= i < a.len() ==> lower(#[trigger] a[i]) == lower(b[i])
}

fn lower_byte(b: u8) -> (l: u8)
    ensures
        b < 128 ==> l == lower(b as char) as u8 && l < 128,
{
    if 65 <= b && b <= 90 {
        b + 32
    } else {
        b
    }
}

fn lower_char(c: char) -> (l: char)
    ensures
        l == lower(c),
{
    if 'A' <= c && c <= 'Z' {
        ((c as u8) + 32) as char
    } else {
        c
    }
}

/// Whether two names are the same but for the case of their ASCII letters.
pub fn names_match(a: &str, b: &str) -> (same: bool)
    ensures
        same == same_name(a@, b@),
{
    if a.is_ascii() && b.is_ascii() {
        let left = a.as_bytes();
        let right = b.as_bytes();
        proof {
            is_ascii_spec_bytes(a);
            is_ascii_spec_bytes(b);
        }
        if left.len() != right.len() {
            return false;
        }
        let mut i: usize = 0;
        while i < left.len()
            invariant
                i <= left@.len(),
                left@.len() == right@.len(),
                left@.len() == a@.len(),
                right@.len() == b@.len(),
                is_ascii(a),
                is_ascii(b),
                forall|k: int| 0 <= k < a@.len() ==> left@[k] == (#[trigger] a@[k]) as u8,
                forall|k: int| 0 <= k < b@.len() ==> right@[k] == (#[trigger] b@[k]) as u8,
                forall|k: int| 0 <= k < i ==> lower(#[trigger] a@[k]) == lower(b@[k]),
            decreases left@.len() - i,
        {
            let x = lower_byte(left[i]);
            let y = lower_byte(right[i]);
            assert(a@[i as int] <= '\u{7f}' && b@[i as int] <= '\u{7f}');
            if x != y {
                return false;
            }
            i += 1;
        }
        true
    } else {
        let n = a.unicode_len();
        if n != b.unicode_len() {
            return false;
        }
        let mut i: usize = 0;
        while i < n
            invariant
                i <= n,
                n == a@.len(),
                n == b@.len(),
                forall|k: int| 0 <= k < i ==> lower(#[trigger] a@[k]) == lower(b@[k]),
            decreases n - i,
        {
            if lower_char(a.get_char(i)) != lower_char(b.get_char(i)) {
                return false;
            }
            i += 1;
        }
        true
    }
}

/// Calls `String::push`, which appends the character to the end of the text.
#[verifier::external_body]
fn push_char(text: &mut String, c: char)
    ensures
        final(text)@ == old(text)@.push(c),
{
    text.push(c)
}

/// The digit that stands for a number below sixteen: `0` to `9`, then `A` to `F`.
pub open spec fn digit(d: int) -> char {
    if d < 10 {
        ((48 + d) as u8) as char
    } else {
        ((55 + d) as u8) as char
    }
}

/// A number in decimal digits.
pub open spec fn decimal(n: nat) -> Seq<char>
    decreases n,
{
    if n < 10 {
        seq![digit(n as int)]
    } else {
        decimal(n / 10).push(digit((n % 10) as int))
    }
}

fn digit_char(d: u8) -> (c: char)
    requires
        d < 16,
    ensures
        c == digit(d as int),
{
    if d < 10 {
        (48 + d) as char
    } else {
        (55 + d) as char
    }
}

/// Appends a number in decimal digits.
pub fn push_decimal(text: &mut String, n: u64)
    ensures
        final(text)@ == old(text)@ + decimal(n as nat),
    decreases n,
{
    if n >= 10 {
        push_decimal(text, n / 10);
    }
    push_char(text, digit_char((n % 10) as u8));
    assert(text@ =~= old(text)@ + decimal(n as nat));
}

/// Whether a byte may stand in a URL as it is, whatever the place: a letter or a digit
/// of ASCII, or one of `-`, `.`, `_` and `~`.
pub open spec fn is_unreserved(byte: u8) -> bool {
    (65 <= byte <= 90) || (97 <= byte <= 122) || (48 <= byte <= 57) || byte == 45 || byte == 46
        || byte == 95 || byte == 126
}

/// A byte as it is written in a URL: as it is where it may stand there, and else as `%`
/// and its two digits to the base sixteen.
pub open spec fn escaped_byte(byte: u8) -> Seq<char> {
    if is_unreserved(byte) {
        seq![byte as char]
    } else {
        seq!['%', digit(byte as int / 16), digit(byte as int % 16)]
    }
}

/// Bytes as they are written in a URL, one after the other.
pub open spec fn escaped_bytes(bytes: Seq<u8>) -> Seq<char>
    decreases bytes.len(),
{
    if bytes.len() == 0 {
        Seq::empty()
    } else {
        escaped_bytes(bytes.drop_last()) + escaped_byte(bytes.last())
    }
}

/// A text as it is written in a URL: the bytes of its UTF-8 form, one after the other.
pub open spec fn escaped(text: Seq<char>) -> Seq<char> {
    escaped_bytes(encode_utf8(text))
}

/// Whether a character may stand in a URL whatever the place, or is the `%` that starts
/// the two digits of a byte.
pub open spec fn is_plain(c: char) -> bool {
    c == '%' || ((c as u32) < 128 && is_unreserved(c as u8))
}

/// What is written for bytes holds nothing that could end the part of the URL in which
/// it stands: no `&`, `=`, `#`, `?` or `/`, no blank, nothing outside ASCII.
pub proof fn escaped_bytes_are_plain(bytes: Seq<u8>)
    ensures
        forall|i: int|
            0 <= i < escaped_bytes(bytes).len() ==> is_plain(#[trigger] escaped_bytes(bytes)[i]),
    decreases bytes.len(),
{
    if bytes.len() > 0 {
        escaped_bytes_are_plain(bytes.drop_last());
        let before = escaped_bytes(bytes.drop_last());
        let last = escaped_byte(bytes.last());
        assert forall|i: int| 0 <= i < last.len() implies is_plain(#[trigger] last[i]) by {
            let byte = bytes.last();
            if !is_unreserved(byte) {
                assert(0 <= byte as int / 16 < 16 && 0 <= byte as int % 16 < 16);
            }
        }
        assert forall|i: int| 0 <= i < escaped_bytes(bytes).len() implies is_plain(
            #[trigger] escaped_bytes(bytes)[i],
        ) by {
            if i < before.len() {
                assert(escaped_bytes(bytes)[i] == before[i]);
            } else {
                assert(escaped_bytes(bytes)[i] == last[i - before.len()]);
            }
        }
    }
}

/// Appends a text as it is written in a URL.
pub fn push_escaped(out: &mut String, text: &str)
    ensures
        final(out)@ == old(out)@ + escaped(text@),
{
    let bytes = text.as_bytes();
    let mut i: usize = 0;
    assert(bytes@.take(0) =~= Seq::empty());
    assert(out@ =~= old(out)@ + escaped_bytes(bytes@.take(0)));
    while i < bytes.len()
        invariant
            i <= bytes@.len(),
            out@ == old(out)@ + escaped_bytes(bytes@.take(i as int)),
        decreases bytes@.len() - i,
    {
        let byte = bytes[i];
        let ghost before = out@;
        proof {
            let upto = bytes@.take(i + 1);
            assert(upto.drop_last() =~= bytes@.take(i as int));
            assert(upto.last() == byte);
        }
        let plain = (65 <= byte && byte <= 90) || (97 <= byte && byte <= 122) || (48 <= byte
            && byte <= 57) || byte == 45 || byte == 46 || byte == 95 || byte == 126;
        if plain {
            push_char(out, byte as char);
        } else {
            push_char(out, '%');
            push_char(out, digit_char(byte / 16));
            push_char(out, digit_char(byte % 16));
        }
        assert(out@ =~= before + escaped_byte(byte));
        assert(out@ =~= old(out)@ + escaped_bytes(bytes@.take(i + 1)));
        i += 1;
    }
    assert(bytes@.take(i as int) =~= bytes@);
}

} // verus!
