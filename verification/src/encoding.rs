//! Notations for text and bytes, and fresh identifiers.

use vstd::prelude::*;
use vstd::utf8::{decode_utf8, encode_utf8, valid_utf8};

verus! {

/// A byte that percent-encoding leaves as it is.
pub open spec fn is_unreserved(b: u8) -> bool {
    ||| 0x30 <= b <= 0x39
    ||| 0x41 <= b <= 0x5a
    ||| 0x61 <= b <= 0x7a
    ||| b == 0x2d
    ||| b == 0x2e
    ||| b == 0x5f
    ||| b == 0x7e
}

/// The upper-case hexadecimal digit for a number below sixteen.
pub open spec fn hex_digit(n: int) -> char {
    if n < 10 {
        (0x30 + n) as char
    } else {
        (0x41 + n - 10) as char
    }
}

/// The percent-encoding of some bytes.
pub open spec fn percent_encoded(bytes: Seq<u8>) -> Seq<char>
    decreases bytes.len(),
{
    if bytes.len() == 0 {
        Seq::empty()
    } else {
        let b = bytes.last();
        let piece = if is_unreserved(b) {
            seq![b as char]
        } else {
            seq!['%', hex_digit(b as int / 16), hex_digit(b as int % 16)]
        };
        percent_encoded(bytes.drop_last()) + piece
    }
}

/// The text that a string has in Rust's debug notation: quoted, with escapes.
pub uninterp spec fn debug_text(s: Seq<char>) -> Seq<char>;

/// The text of some bytes read as UTF-8, with replacement characters where
/// they are no UTF-8.
pub uninterp spec fn lossy_text(bytes: Seq<u8>) -> Seq<char>;

/// Whether the text is a random UUID in lower-case hyphenated form.
pub open spec fn is_uuid_v4(s: Seq<char>) -> bool {
    &&& s.len() == 36
    &&& forall|i: int|
        0 <= i < 36 ==> if i == 8 || i == 13 || i == 18 || i == 23 {
            s[i] == '-'
        } else {
            '0' <= #[trigger] s[i] <= '9' || 'a' <= s[i] <= 'f'
        }
    &&& s[14] == '4'
    &&& s[19] == '8' || s[19] == '9' || s[19] == 'a' || s[19] == 'b'
}

/// `urlencoding::encode`: every byte of the UTF-8 form except letters, digits
/// and `-`, `_`, `.`, `~` becomes a percent sign and two upper-case digits.
#[verifier::external_body]
pub(crate) fn percent_encode(s: &str) -> (r: String)
    ensures
        r@ == percent_encoded(encode_utf8(s@)),
{
    urlencoding::encode(s).into_owned()
}

/// `Uuid::new_v4` and its text: a random version 4 UUID. Which one is left to
/// chance.
#[verifier::external_body]
pub(crate) fn fresh_uuid() -> (r: String)
    ensures
        is_uuid_v4(r@),
{
    uuid::Uuid::new_v4().to_string()
}

/// The `Debug` notation that std gives a `str`.
#[verifier::external_body]
pub(crate) fn debug_notation(s: &str) -> (r: String)
    ensures
        r@ == debug_text(s@),
{
    format!("{:?}", s)
}

/// `String::from_utf8_lossy` of std: valid UTF-8 gives the text that it encodes.
/// What stands in place of other bytes has a name and no more.
#[verifier::external_body]
pub(crate) fn text_of_bytes(bytes: &[u8]) -> (r: String)
    ensures
        r@ == lossy_text(bytes@),
        valid_utf8(bytes@) ==> r@ == decode_utf8(bytes@),
{
    String::from_utf8_lossy(bytes).into_owned()
}

/// Letters, digits and four marks stay as they are in percent-encoding; every other byte
/// is written as a percent sign and two digits, and bytes are written one after the other.
pub proof fn bytes_are_encoded_one_by_one(bytes: Seq<u8>, b: u8)
    ensures
        percent_encoded(Seq::empty()) == Seq::<char>::empty(),
        'a' as u8 <= b <= 'z' as u8 || 'A' as u8 <= b <= 'Z' as u8 || '0' as u8 <= b <= '9' as u8 || b
            == '-' as u8 || b == '_' as u8 || b == '.' as u8 || b == '~' as u8 ==> percent_encoded(
            bytes.push(b),
        ) == percent_encoded(bytes) + seq![b as char],
        b == 0x20 ==> percent_encoded(bytes.push(b)) == percent_encoded(bytes) + seq!['%', '2', '0'],
        b == 0x2f ==> percent_encoded(bytes.push(b)) == percent_encoded(bytes) + seq!['%', '2', 'F'],
        b == 0x26 ==> percent_encoded(bytes.push(b)) == percent_encoded(bytes) + seq!['%', '2', '6'],
        b >= 0x80 ==> percent_encoded(bytes.push(b)).len() == percent_encoded(bytes).len() + 3,
{
    assert(bytes.push(b).drop_last() =~= bytes);
}

} // verus!
