//! Identifiers: what they hold and how they are written.

use vstd::prelude::*;

verus! {

/// `uuid::Uuid`: an identifier of 128 bits.
#[verifier::external_type_specification]
#[verifier::external_body]
pub struct ExUuid(uuid::Uuid);

/// `Clone::clone` of `uuid::Uuid`, a `Copy` type: the clone is the value
/// itself.
pub assume_specification[ <uuid::Uuid as Clone>::clone ](id: &uuid::Uuid) -> (r: uuid::Uuid)
    ensures
        r == *id,
;

/// The bytes that a `uuid::Uuid` holds, as `uuid::Uuid::as_bytes` gives
/// them.
pub uninterp spec fn uuid_bytes(id: uuid::Uuid) -> Seq<u8>;

/// Number of bytes in an identifier.
pub const IDENTIFIER_BYTES: usize = 16;

/// The lowercase hexadecimal digit for a value below sixteen.
pub open spec fn hex_digit(value: int) -> char {
    seq!['0', '1', '2', '3', '4', '5', '6', '7', '8', '9', 'a', 'b', 'c', 'd', 'e', 'f'][value]
}

/// The bytes in lowercase hexadecimal, two digits to the byte, the high
/// half first.
pub open spec fn hex_text(bytes: Seq<u8>) -> Seq<char> {
    Seq::new(
        2 * bytes.len(),
        |i: int|
            if i % 2 == 0 {
                hex_digit(bytes[i / 2] as int / 16)
            } else {
                hex_digit(bytes[i / 2] as int % 16)
            },
    )
}

/// The text of an identifier of sixteen bytes: its 32 hexadecimal digits
/// in groups of 8, 4, 4, 4 and 12, with hyphens in between.
pub open spec fn hyphenated(bytes: Seq<u8>) -> Seq<char> {
    let digits = hex_text(bytes);
    digits.subrange(0, 8) + seq!['-'] + digits.subrange(8, 12) + seq!['-'] + digits.subrange(
        12,
        16,
    ) + seq!['-'] + digits.subrange(16, 20) + seq!['-'] + digits.subrange(20, 32)
}

/// A lowercase hexadecimal digit.
pub open spec fn is_lower_hex(c: char) -> bool {
    ('0' <= c && c <= '9') || ('a' <= c && c <= 'f')
}

/// The shape of the text of an identifier: 36 characters, hyphens at
/// positions 8, 13, 18 and 23, lowercase hexadecimal digits elsewhere.
pub open spec fn is_hyphenated(s: Seq<char>) -> bool {
    &&& s.len() == 36
    &&& forall|i: int|
        0 <= i < 36 ==> if i == 8 || i == 13 || i == 18 || i == 23 {
            #[trigger] s[i] == '-'
        } else {
            is_lower_hex(s[i])
        }
}

/// Every value below sixteen has a lowercase hexadecimal digit.
pub proof fn lemma_hex_digit(value: int)
    requires
        0 <= value < 16,
    ensures
        is_lower_hex(hex_digit(value)),
{
}

/// The text of sixteen bytes has the shape of an identifier's text.
pub proof fn lemma_hyphenated_shape(bytes: Seq<u8>)
    requires
        bytes.len() == IDENTIFIER_BYTES,
    ensures
        is_hyphenated(hyphenated(bytes)),
{
    let digits = hex_text(bytes);
    let text = hyphenated(bytes);
    assert forall|k: int| 0 <= k < 32 implies is_lower_hex(#[trigger] digits[k]) by {
        let byte = bytes[k / 2] as int;
        lemma_hex_digit(byte / 16);
        lemma_hex_digit(byte % 16);
    }
    assert(text.len() == 36);
    assert forall|i: int| 0 <= i < 36 implies if i == 8 || i == 13 || i == 18 || i == 23 {
        #[trigger] text[i] == '-'
    } else {
        is_lower_hex(text[i])
    } by {
        if i < 8 {
            assert(text[i] == digits[i]);
        } else if i == 8 {
        } else if i < 13 {
            assert(text[i] == digits[i - 1]);
        } else if i == 13 {
        } else if i < 18 {
            assert(text[i] == digits[i - 2]);
        } else if i == 18 {
        } else if i < 23 {
            assert(text[i] == digits[i - 3]);
        } else if i == 23 {
        } else {
            assert(text[i] == digits[i - 4]);
        }
    }
}

/// `text` writes out an identifier that holds `bytes`: there are sixteen
/// of them, and the text is their hyphenated form.
pub open spec fn is_text_of(text: Seq<char>, bytes: Seq<u8>) -> bool {
    bytes.len() == IDENTIFIER_BYTES && text == hyphenated(bytes)
}

/// `uuid::Uuid::new_v4`: a random identifier.
#[verifier::external_body]
pub(crate) fn new_uuid() -> uuid::Uuid {
    uuid::Uuid::new_v4()
}

/// The `Display` of `uuid::Uuid`: the sixteen bytes of the identifier in
/// lowercase hexadecimal, hyphenated.
#[verifier::external_body]
pub(crate) fn uuid_to_string(id: &uuid::Uuid) -> (text: String)
    ensures
        is_text_of(text@, uuid_bytes(*id)),
{
    id.to_string()
}

/// The text of an identifier.
pub open spec fn uuid_text(id: uuid::Uuid) -> Seq<char> {
    hyphenated(uuid_bytes(id))
}

/// Writes an identifier as text.
pub fn identifier_text(id: &uuid::Uuid) -> (text: String)
    ensures
        text@ == uuid_text(*id),
        is_hyphenated(text@),
{
    let text = uuid_to_string(id);
    proof {
        lemma_hyphenated_shape(uuid_bytes(*id));
    }
    text
}

} // verus!
