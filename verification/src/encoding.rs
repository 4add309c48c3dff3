use vstd::prelude::*;
use vstd::string::StringSliceAdditionalSpecFns;

verus! {

/// A byte a percent-encoded URL keeps as itself: the ASCII alphanumerics and
/// `-`, `.`, `_`, `~`.
pub open spec fn is_url_safe_byte(b: u8) -> bool {
    (48 <= b && b <= 57)  // '0' ..= '9'
     || (65 <= b && b <= 90)  // 'A' ..= 'Z'
     || (97 <= b && b <= 122)  // 'a' ..= 'z'
     || b == 45 || b == 46 || b == 95 || b == 126  // '-' '.' '_' '~'
}

/// The upper-case hexadecimal digit character for a value below sixteen.
pub open spec fn hex_digit(d: u8) -> char {
    if d == 0 {
        '0'
    } else if d == 1 {
        '1'
    } else if d == 2 {
        '2'
    } else if d == 3 {
        '3'
    } else if d == 4 {
        '4'
    } else if d == 5 {
        '5'
    } else if d == 6 {
        '6'
    } else if d == 7 {
        '7'
    } else if d == 8 {
        '8'
    } else if d == 9 {
        '9'
    } else if d == 10 {
        'A'
    } else if d == 11 {
        'B'
    } else if d == 12 {
        'C'
    } else if d == 13 {
        'D'
    } else if d == 14 {
        'E'
    } else {
        'F'
    }
}

/// One byte of percent-encoded output: kept when URL-safe, otherwise `%`
/// followed by the byte's two upper-case hexadecimal digits.
pub open spec fn encode_byte(b: u8) -> Seq<char> {
    if is_url_safe_byte(b) {
        seq![b as char]
    } else {
        seq!['%', hex_digit(b / 16), hex_digit(b % 16)]
    }
}

/// The percent-encoding of a byte sequence, byte by byte in order.
pub open spec fn percent_encode(bytes: Seq<u8>) -> Seq<char>
    decreases bytes.len(),
{
    if bytes.len() == 0 {
        Seq::empty()
    } else {
        encode_byte(bytes[0]) + percent_encode(bytes.skip(1))
    }
}

/// Relies on `urlencoding::encode`: it percent-encodes every byte of the
/// string's UTF-8 form except ASCII alphanumerics and `-`, `.`, `_`, `~`,
/// writing each escaped byte as `%` plus two upper-case hex digits.
#[verifier::external_body]
pub(crate) fn url_encode(s: &str) -> (r: String)
    ensures
        r@ == percent_encode(s.spec_bytes()),
{
    urlencoding::encode(s).into_owned()
}

} // verus!
