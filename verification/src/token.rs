//! The session token: two secrets joined by a delimiter, carried in a
//! cookie. The first part is the handle a session is looked up by; the
//! second is compared in constant time against the stored secret.

use vstd::prelude::*;
use vstd::string::StrSliceExecFns;
use vstd::string::StringExecFns;
use vstd::utf8::encode_utf8;
use vstd::utf8::is_ascii_chars;
use vstd::utf8::is_ascii_chars_encode_utf8;
use vstd::utf8::encode_utf8_decode_utf8;

use crate::identifiers::identifier_text;
use crate::identifiers::is_hyphenated;
use crate::identifiers::is_lower_hex;
use crate::identifiers::new_uuid;

verus! {

/// Name of the cookie that carries the session token.
pub const SESSION_COOKIE_NAME: &'static str = "session_token";

/// The character that joins the two parts of a session token.
pub const TOKEN_DELIMITER: char = '_';

/// Length in bytes of a session secret.
pub const SECRET_LENGTH: usize = 36;

/// What follows the token in the `Set-Cookie` header: the cookie is sent
/// to every path of this host only, is kept from scripts, travels over
/// secure transport only and is never sent across sites.
pub const COOKIE_ATTRIBUTES: &'static str = "; path=/; httponly; secure; samesite=strict";

/// The shape of a freshly generated secret: the text of a random
/// identifier.
pub open spec fn is_session_secret(s: Seq<char>) -> bool {
    is_hyphenated(s)
}

/// No character of `s` is the delimiter.
pub open spec fn is_delimiter_free(s: Seq<char>) -> bool {
    forall|i: int| 0 <= i < s.len() ==> #[trigger] s[i] != TOKEN_DELIMITER
}

/// The token that joins handle `p1` and secret `p2`.
pub open spec fn cookie_value(p1: Seq<char>, p2: Seq<char>) -> Seq<char> {
    p1 + seq![TOKEN_DELIMITER] + p2
}

/// The value of the `Set-Cookie` header that hands `token` to the browser.
pub open spec fn set_cookie_header(token: Seq<char>) -> Seq<char> {
    SESSION_COOKIE_NAME@ + seq!['='] + token + COOKIE_ATTRIBUTES@
}

/// Position `i` holds the only delimiter of `value`.
pub open spec fn is_sole_delimiter(value: Seq<char>, i: int) -> bool {
    &&& 0 <= i < value.len()
    &&& value[i] == TOKEN_DELIMITER
    &&& forall|j: int| 0 <= j < value.len() && j != i ==> #[trigger] value[j] != TOKEN_DELIMITER
}

/// The two parts of a token: what stands before and after its delimiter,
/// provided it holds exactly one.
pub open spec fn token_parts(value: Seq<char>) -> Option<(Seq<char>, Seq<char>)> {
    if exists|i: int| is_sole_delimiter(value, i) {
        let i = choose|i: int| is_sole_delimiter(value, i);
        Some((value.take(i), value.skip(i + 1)))
    } else {
        None
    }
}

/// Whether `presented` proves possession of the `stored` secret: the
/// stored secret has the declared length and the two agree byte for byte.
pub open spec fn secret_matches(presented: Seq<char>, stored: Seq<char>) -> bool {
    &&& encode_utf8(stored).len() == SECRET_LENGTH
    &&& encode_utf8(presented) == encode_utf8(stored)
}

/// `constant_time_eq::constant_time_eq_n`: whether two byte arrays of one
/// length are equal. That the answer takes the same time wherever the
/// arrays differ is that crate's promise; nothing here states it.
pub assume_specification<const N: usize>[ constant_time_eq::constant_time_eq_n::<N> ](
    a: &[u8; N],
    b: &[u8; N],
) -> (r: bool)
    ensures
        r == (a@ == b@),
;

/// Draws a session secret: the text of a fresh random identifier.
pub fn new_session_secret() -> (secret: String)
    ensures
        is_session_secret(secret@),
{
    let id = new_uuid();
    identifier_text(&id)
}

/// A generated secret holds no delimiter and takes one byte per character.
pub proof fn lemma_session_secret_shape(s: Seq<char>)
    requires
        is_session_secret(s),
    ensures
        is_delimiter_free(s),
        is_ascii_chars(s),
        encode_utf8(s).len() == SECRET_LENGTH,
{
    assert forall|i: int| 0 <= i < s.len() implies #[trigger] s[i] != TOKEN_DELIMITER && '\0'
        <= s[i] && s[i] <= '\u{7f}' by {
        if i == 8 || i == 13 || i == 18 || i == 23 {
            assert(s[i] == '-');
        } else {
            assert(is_lower_hex(s[i]));
        }
    }
    is_ascii_chars_encode_utf8(s);
}

/// The position of a sole delimiter is unique, and splits the token into
/// the parts that [`token_parts`] gives.
pub proof fn lemma_sole_delimiter(value: Seq<char>, i: int)
    requires
        is_sole_delimiter(value, i),
    ensures
        token_parts(value) == Some((value.take(i), value.skip(i + 1))),
{
    let k = choose|k: int| is_sole_delimiter(value, k);
    if k != i {
        assert(value[k] != TOKEN_DELIMITER);
    }
}

/// Joining two delimiter-free parts and splitting the result gives the
/// parts back.
pub proof fn lemma_split_of_join(p1: Seq<char>, p2: Seq<char>)
    requires
        is_delimiter_free(p1),
        is_delimiter_free(p2),
    ensures
        token_parts(cookie_value(p1, p2)) == Some((p1, p2)),
{
    let value = cookie_value(p1, p2);
    let i = p1.len() as int;
    assert forall|j: int| 0 <= j < value.len() && j != i implies #[trigger] value[j]
        != TOKEN_DELIMITER by {
        if j < i {
            assert(value[j] == p1[j]);
        } else {
            assert(value[j] == p2[j - i - 1]);
        }
    }
    assert(is_sole_delimiter(value, i));
    lemma_sole_delimiter(value, i);
    assert(value.take(i) =~= p1);
    assert(value.skip(i + 1) =~= p2);
}

/// Joins a handle and a secret into the token that the cookie carries.
pub fn session_token(p1: &str, p2: &str) -> (token: String)
    ensures
        token@ == cookie_value(p1@, p2@),
{
    proof {
        reveal_strlit("_");
    }
    let token = p1.to_owned().concat("_").concat(p2);
    assert(token@ =~= cookie_value(p1@, p2@));
    token
}

/// The `Set-Cookie` header value for a token.
pub fn set_cookie(token: &str) -> (header: String)
    ensures
        header@ == set_cookie_header(token@),
{
    proof {
        reveal_strlit("=");
    }
    let header = SESSION_COOKIE_NAME.to_owned().concat("=").concat(token).concat(
        COOKIE_ATTRIBUTES,
    );
    assert(header@ =~= set_cookie_header(token@));
    header
}

/// Splits a cookie value into handle and secret. A value without a
/// delimiter, or with more than one, has no parts.
pub fn parse_session_token(value: &str) -> (parts: Option<(String, String)>)
    ensures
        match parts {
            Some((p1, p2)) => token_parts(value@) == Some((p1@, p2@)),
            None => token_parts(value@) is None,
        },
{
    let n = value.unicode_len();
    let mut found: Option<usize> = None;
    let mut i: usize = 0;
    for c in it: value.chars()
        invariant
            i == it.index(),
            it.seq() == value@,
            value@.len() == n,
            match found {
                Some(f) => f < i && is_sole_delimiter(value@.take(i as int), f as int),
                None => is_delimiter_free(value@.take(i as int)),
            },
    {
        let ghost before = value@.take(i as int);
        let ghost after = value@.take(i + 1);
        assert(forall|j: int| 0 <= j < i ==> before[j] == after[j]);
        assert(after[i as int] == c);
        if c == TOKEN_DELIMITER {
            match found {
                Some(f) => {
                    proof {
                        assert forall|k: int| !is_sole_delimiter(value@, k) by {
                            if is_sole_delimiter(value@, k) {
                                assert(before[f as int] == TOKEN_DELIMITER);
                                assert(value@[f as int] == TOKEN_DELIMITER);
                                assert(value@[i as int] == TOKEN_DELIMITER);
                            }
                        }
                    }
                    return None;
                },
                None => {
                    found = Some(i);
                    assert forall|j: int| 0 <= j < after.len() && j != i implies #[trigger] after[j]
                        != TOKEN_DELIMITER by {
                        assert(before[j] != TOKEN_DELIMITER);
                    }
                },
            }
        } else {
            match found {
                Some(f) => {
                    assert forall|j: int| 0 <= j < after.len() && j != f implies #[trigger] after[j]
                        != TOKEN_DELIMITER by {
                        if j < i {
                            assert(before[j] != TOKEN_DELIMITER);
                        }
                    }
                },
                None => {
                    assert forall|j: int| 0 <= j < after.len() implies #[trigger] after[j]
                        != TOKEN_DELIMITER by {
                        if j < i {
                            assert(before[j] != TOKEN_DELIMITER);
                        }
                    }
                },
            }
        }
        i = i + 1;
    }
    assert(value@.take(i as int) =~= value@);
    match found {
        Some(f) => {
            let p1 = value.substring_char(0, f).to_owned();
            let p2 = value.substring_char(f + 1, n).to_owned();
            proof {
                lemma_sole_delimiter(value@, f as int);
                assert(value@.take(f as int) =~= value@.subrange(0, f as int));
                assert(value@.skip(f + 1) =~= value@.subrange(f + 1, n as int));
            }
            Some((p1, p2))
        },
        None => {
            proof {
                assert forall|k: int| !is_sole_delimiter(value@, k) by {
                    if is_sole_delimiter(value@, k) {
                        assert(value@[k] != TOKEN_DELIMITER);
                    }
                }
            }
            None
        },
    }
}

/// The bytes of a slice as an array of the length of a secret, where the
/// slice has that length.
fn secret_bytes(bytes: &[u8]) -> (array: Option<[u8; 36]>)
    ensures
        array is Some <==> bytes@.len() == SECRET_LENGTH,
        array matches Some(a) ==> a@ == bytes@,
{
    if bytes.len() != SECRET_LENGTH {
        return None;
    }
    let mut array = [0u8; 36];
    let mut i: usize = 0;
    while i < SECRET_LENGTH
        invariant
            i <= SECRET_LENGTH,
            bytes@.len() == SECRET_LENGTH,
            forall|j: int| 0 <= j < i ==> array@[j] == bytes@[j],
        decreases SECRET_LENGTH - i,
    {
        array[i] = bytes[i];
        i = i + 1;
    }
    assert(array@ =~= bytes@);
    Some(array)
}

/// Compares the secret that a cookie presents with the stored one. Both
/// must have the declared length; the comparison then runs over all of it
/// whatever the first difference.
pub fn secrets_match(presented: &str, stored: &str) -> (matches: bool)
    ensures
        matches == secret_matches(presented@, stored@),
{
    match secret_bytes(stored.as_bytes()) {
        Some(stored_bytes) => match secret_bytes(presented.as_bytes()) {
            Some(presented_bytes) => constant_time_eq::constant_time_eq_n::<36>(
                &presented_bytes,
                &stored_bytes,
            ),
            None => false,
        },
        None => false,
    }
}

/// A secret of the declared length matches itself. Nothing else matches
/// it: not a text whose bytes differ in number, nor one of equal length
/// that differs in any byte. In particular no other text matches it.
pub proof fn law_secret_comparison(stored: Seq<char>, other: Seq<char>)
    requires
        encode_utf8(stored).len() == SECRET_LENGTH,
    ensures
        secret_matches(stored, stored),
        encode_utf8(other).len() != encode_utf8(stored).len() ==> !secret_matches(other, stored),
        (exists|i: int|
            0 <= i < encode_utf8(stored).len() && i < encode_utf8(other).len() && encode_utf8(
                other,
            )[i] != encode_utf8(stored)[i]) ==> !secret_matches(other, stored),
        other != stored ==> !secret_matches(other, stored),
{
    if other != stored && secret_matches(other, stored) {
        encode_utf8_decode_utf8(other);
        encode_utf8_decode_utf8(stored);
    }
}

} // verus!
