//! The continuity token: a session identifier written as a small JSON
//! document and sealed as a compact JWS under an HMAC-SHA256 key.

use crate::proto::{OperationError, SessionId};
use compact_jwt::jws::JwsBuilder;
use compact_jwt::{JwsCompact, JwsHs256Signer, JwsSigner, JwsVerifier, JwtError};
use std::str::FromStr;
use vstd::prelude::*;

verus! {

#[verifier::external_type_specification]
#[verifier::external_body]
pub struct ExJwtError(JwtError);

/// The ASCII code of the lower-case hexadecimal digit of `n`, for `n` below 16.
pub open spec fn hex_digit(n: int) -> u8 {
    if n < 10 {
        (48 + n) as u8
    } else {
        (87 + n) as u8
    }
}

/// Whether `c` is the ASCII code of `0`..`9` or `a`..`f`.
pub open spec fn is_hex_digit(c: u8) -> bool {
    (48 <= c <= 57) || (97 <= c <= 102)
}

/// The number that the hexadecimal digit `c` stands for.
pub open spec fn hex_value(c: u8) -> int {
    if c <= 57 {
        c - 48
    } else {
        c - 87
    }
}

/// Whether a hyphen stands at place `k` of an identifier's text.
pub open spec fn is_hyphen_at(k: int) -> bool {
    k == 8 || k == 13 || k == 18 || k == 23
}

/// How many hyphens stand before place `k` of an identifier's text.
pub open spec fn hyphens_before(k: int) -> int {
    (if k > 8 { 1int } else { 0 }) + (if k > 13 { 1int } else { 0 }) + (if k > 18 { 1int } else { 0 })
        + (if k > 23 { 1int } else { 0 })
}

/// The place in an identifier's text of the first digit of byte `i`.
pub open spec fn text_offset(i: int) -> int {
    2 * i + (if i >= 4 { 1int } else { 0 }) + (if i >= 6 { 1int } else { 0 }) + (if i >= 8 { 1int } else { 0 })
        + (if i >= 10 { 1int } else { 0 })
}

/// The character at place `k` of an identifier's text: a hyphen, or the high
/// or low digit of the byte that the place belongs to.
pub open spec fn text_byte(id: Seq<u8>, k: int) -> u8 {
    if is_hyphen_at(k) {
        45
    } else {
        let j = k - hyphens_before(k);
        if j % 2 == 0 {
            hex_digit(id[j / 2] as int / 16)
        } else {
            hex_digit(id[j / 2] as int % 16)
        }
    }
}

/// An identifier as text: 32 lower-case hexadecimal digits in groups of 8, 4,
/// 4, 4 and 12, with hyphens between.
pub open spec fn session_text(id: Seq<u8>) -> Seq<u8> {
    Seq::new(36, |k: int| text_byte(id, k))
}

/// The bytes of `{"sessionid":"`.
pub open spec fn payload_prefix() -> Seq<u8> {
    seq![123u8, 34, 115, 101, 115, 115, 105, 111, 110, 105, 100, 34, 58, 34]
}

/// The bytes of `"}`.
pub open spec fn payload_suffix() -> Seq<u8> {
    seq![34u8, 125]
}

/// The document that a token carries for an identifier: a JSON object whose
/// one member, `sessionid`, is the identifier's text.
pub open spec fn session_payload(id: Seq<u8>) -> Seq<u8> {
    payload_prefix() + session_text(id) + payload_suffix()
}

/// Whether `bytes` is such a document for some identifier.
pub open spec fn is_session_payload(bytes: Seq<u8>) -> bool {
    &&& bytes.len() == 52
    &&& bytes.subrange(0, 14) == payload_prefix()
    &&& bytes.subrange(50, 52) == payload_suffix()
    &&& forall|k: int|
        0 <= k < 36 ==> if is_hyphen_at(k) {
            #[trigger] bytes[14 + k] == 45
        } else {
            is_hex_digit(bytes[14 + k])
        }
}

/// The identifier that the digits of a document spell.
pub open spec fn payload_session(bytes: Seq<u8>) -> Seq<u8> {
    Seq::new(
        16,
        |i: int|
            (hex_value(bytes[14 + text_offset(i)]) * 16 + hex_value(bytes[15 + text_offset(i)])) as u8,
    )
}

/// The identifier of a document, if it is one.
pub open spec fn parse_session_payload(bytes: Seq<u8>) -> Option<Seq<u8>> {
    if is_session_payload(bytes) {
        Some(payload_session(bytes))
    } else {
        None
    }
}

/// Reading the document written for an identifier gives that identifier back.
pub proof fn lemma_payload_round_trip(id: Seq<u8>)
    requires
        id.len() == 16,
    ensures
        parse_session_payload(session_payload(id)) == Some(id),
{
    let bytes = session_payload(id);
    assert(bytes.len() == 52);
    assert(bytes.subrange(0, 14) =~= payload_prefix());
    assert(bytes.subrange(50, 52) =~= payload_suffix());
    assert forall|k: int| 0 <= k < 36 implies bytes[14 + k] == text_byte(id, k) by {
        assert(bytes[14 + k] == session_text(id)[k]);
    }
    assert(is_session_payload(bytes));
    assert forall|i: int| 0 <= i < 16 implies payload_session(bytes)[i] == id[i] by {
        let k = text_offset(i);
        assert(bytes[14 + k] == text_byte(id, k));
        assert(bytes[14 + (k + 1)] == text_byte(id, k + 1));
        assert(k - hyphens_before(k) == 2 * i);
        assert(k + 1 - hyphens_before(k + 1) == 2 * i + 1);
    }
    assert(payload_session(bytes) =~= id);
}

/// A document is the one written for the identifier that is read from it, so
/// no two documents give the same identifier.
pub proof fn lemma_payload_unique(bytes: Seq<u8>)
    requires
        is_session_payload(bytes),
    ensures
        payload_session(bytes).len() == 16,
        session_payload(payload_session(bytes)) == bytes,
{
    let id = payload_session(bytes);
    let again = session_payload(id);
    assert forall|m: int| 0 <= m < 52 implies again[m] == bytes[m] by {
        if m < 14 {
            assert(bytes.subrange(0, 14)[m] == bytes[m]);
        } else if m >= 50 {
            assert(bytes.subrange(50, 52)[m - 50] == bytes[m]);
        } else {
            let k = m - 14;
            assert(again[m] == session_text(id)[k]);
            assert(bytes[14 + k] == bytes[m]);
            if !is_hyphen_at(k) {
                let j = k - hyphens_before(k);
                let i = j / 2;
                assert(0 <= i < 16);
                let off = text_offset(i);
                assert(is_hex_digit(bytes[14 + off]));
                assert(is_hex_digit(bytes[14 + (off + 1)]));
                assert(k == off || k == off + 1);
            }
        }
    }
    assert(again =~= bytes);
}

/// The hexadecimal digit of a number below 16.
fn hex_digit_of(n: u8) -> (c: u8)
    requires
        n < 16,
    ensures
        c == hex_digit(n as int),
{
    if n < 10 {
        48 + n
    } else {
        87 + n
    }
}

/// The number of a hexadecimal digit, if `c` is one.
fn hex_value_of(c: u8) -> (n: Option<u8>)
    ensures
        n is Some <==> is_hex_digit(c),
        n matches Some(v) ==> v == hex_value(c) && v < 16,
{
    if 48 <= c && c <= 57 {
        Some(c - 48)
    } else if 97 <= c && c <= 102 {
        Some(c - 87)
    } else {
        None
    }
}

/// Writes the document that a token carries for `sessionid`.
pub fn encode_session_payload(sessionid: &SessionId) -> (payload: Vec<u8>)
    ensures
        payload@ == session_payload(sessionid@),
{
    let prefix: [u8; 14] = [123, 34, 115, 101, 115, 115, 105, 111, 110, 105, 100, 34, 58, 34];
    let mut payload: Vec<u8> = Vec::new();
    payload.extend_from_slice(prefix.as_slice());
    assert(payload@ =~= payload_prefix());
    let mut k: usize = 0;
    while k < 36
        invariant
            k <= 36,
            payload@.len() == 14 + k,
            payload@.subrange(0, 14) == payload_prefix(),
            forall|m: int| 0 <= m < k ==> payload@[14 + m] == text_byte(sessionid@, m),
        decreases 36 - k,
    {
        let ghost before = payload@;
        if k == 8 || k == 13 || k == 18 || k == 23 {
            payload.push(45);
        } else {
            let hyphens: usize = if k > 23 {
                4
            } else if k > 18 {
                3
            } else if k > 13 {
                2
            } else if k > 8 {
                1
            } else {
                0
            };
            let j: usize = k - hyphens;
            let byte: u8 = sessionid.sessionid[j / 2];
            if j % 2 == 0 {
                payload.push(hex_digit_of(byte / 16));
            } else {
                payload.push(hex_digit_of(byte % 16));
            }
        }
        assert(payload@.subrange(0, 14) =~= before.subrange(0, 14));
        assert forall|m: int| 0 <= m < k + 1 implies payload@[14 + m] == text_byte(
            sessionid@,
            m,
        ) by {
            if m < k {
                assert(payload@[14 + m] == before[14 + m]);
            }
        }
        k += 1;
    }
    payload.push(34);
    payload.push(125);
    assert(payload@ =~= session_payload(sessionid@));
    payload
}

/// Reads a document back: the identifier it was written for, or nothing where
/// the bytes are not such a document.
pub fn decode_session_payload(bytes: &[u8]) -> (sessionid: Option<SessionId>)
    ensures
        match sessionid {
            Some(id) => parse_session_payload(bytes@) == Some(id@),
            None => parse_session_payload(bytes@) is None,
        },
{
    if bytes.len() != 52 {
        return None;
    }
    let prefix: [u8; 14] = [123, 34, 115, 101, 115, 115, 105, 111, 110, 105, 100, 34, 58, 34];
    let mut p: usize = 0;
    while p < 14
        invariant
            p <= 14,
            bytes@.len() == 52,
            prefix@ == payload_prefix(),
            forall|m: int| 0 <= m < p ==> bytes@[m] == payload_prefix()[m],
        decreases 14 - p,
    {
        if bytes[p] != prefix[p] {
            assert(bytes@.subrange(0, 14)[p as int] == bytes@[p as int]);
            return None;
        }
        p += 1;
    }
    assert(bytes@.subrange(0, 14) =~= payload_prefix());
    if bytes[50] != 34 || bytes[51] != 125 {
        assert(bytes@.subrange(50, 52)[0] == bytes@[50]);
        assert(bytes@.subrange(50, 52)[1] == bytes@[51]);
        return None;
    }
    assert(bytes@.subrange(50, 52) =~= payload_suffix());
    let mut k: usize = 0;
    while k < 36
        invariant
            k <= 36,
            bytes@.len() == 52,
            forall|m: int|
                0 <= m < k ==> if is_hyphen_at(m) {
                    #[trigger] bytes@[14 + m] == 45
                } else {
                    is_hex_digit(bytes@[14 + m])
                },
        decreases 36 - k,
    {
        let c: u8 = bytes[14 + k];
        if k == 8 || k == 13 || k == 18 || k == 23 {
            if c != 45 {
                assert(is_hyphen_at(k as int));
                assert(bytes@[14 + k as int] != 45);
                return None;
            }
        } else if hex_value_of(c).is_none() {
            assert(!is_hyphen_at(k as int));
            assert(!is_hex_digit(bytes@[14 + k as int]));
            return None;
        }
        k += 1;
    }
    assert(is_session_payload(bytes@));
    let mut id: [u8; 16] = [0u8; 16];
    let mut i: usize = 0;
    while i < 16
        invariant
            i <= 16,
            is_session_payload(bytes@),
            forall|m: int| 0 <= m < i ==> id@[m] == payload_session(bytes@)[m],
        decreases 16 - i,
    {
        let hyphens: usize = if i >= 10 {
            4
        } else if i >= 8 {
            3
        } else if i >= 6 {
            2
        } else if i >= 4 {
            1
        } else {
            0
        };
        let off: usize = 2 * i + hyphens;
        assert(off == text_offset(i as int));
        assert(!is_hyphen_at(off as int) && !is_hyphen_at(off + 1));
        assert(is_hex_digit(bytes@[14 + off as int]));
        assert(is_hex_digit(bytes@[14 + (off + 1)]));
        let high: u8 = match hex_value_of(bytes[14 + off]) {
            Some(v) => v,
            None => 0,
        };
        let low: u8 = match hex_value_of(bytes[15 + off]) {
            Some(v) => v,
            None => 0,
        };
        id[i] = high * 16 + low;
        i += 1;
    }
    let sessionid = SessionId { sessionid: id };
    assert(sessionid@ =~= payload_session(bytes@));
    Some(sessionid)
}

/// The compact JWS that signing `payload` under the HMAC-SHA256 key `key`
/// gives, where it gives one.
pub uninterp spec fn hs256_signed(key: Seq<u8>, payload: Seq<u8>) -> Option<Seq<char>>;

/// The payload that `token` releases when it is a compact JWS whose signature
/// holds under the HMAC-SHA256 key `key`.
pub uninterp spec fn hs256_opened(key: Seq<u8>, token: Seq<char>) -> Option<Seq<u8>>;

/// `JwsHs256Signer::try_from` on the key, `JwsBuilder::from` and `build` on
/// the payload, then `JwsSigner::sign` and the signed value's text. The text
/// depends on key and payload alone, the same key opens it to the payload
/// it was made from, and a key of fewer than 32 bytes is refused.
#[verifier::external_body]
fn hs256_sign(key: &[u8], payload: &[u8]) -> (token: Result<String, JwtError>)
    ensures
        token is Ok <==> hs256_signed(key@, payload@) is Some,
        key@.len() < 32 ==> token is Err,
        token matches Ok(t) ==> hs256_signed(key@, payload@) == Some(t@) && hs256_opened(
            key@,
            t@,
        ) == Some(payload@),
{
    let signer = JwsHs256Signer::try_from(key)?;
    let jws = JwsBuilder::from(payload.to_vec()).build();
    signer.sign(&jws).map(|signed| signed.to_string())
}

/// `JwsHs256Signer::try_from` on the key, `JwsCompact::from_str` on the
/// token, then `JwsVerifier::verify` and the payload of what it releases. The
/// outcome depends on key and token alone, and a key of fewer than 32 bytes
/// is refused.
#[verifier::external_body]
fn hs256_open(key: &[u8], token: &str) -> (payload: Result<Vec<u8>, JwtError>)
    ensures
        payload is Ok <==> hs256_opened(key@, token@) is Some,
        key@.len() < 32 ==> payload is Err,
        payload matches Ok(p) ==> hs256_opened(key@, token@) == Some(p@),
{
    let signer = JwsHs256Signer::try_from(key)?;
    let compact = JwsCompact::from_str(token)?;
    signer.verify(&compact).map(|jws| jws.payload().to_vec())
}

/// The token for an identifier under a key, where signing gives one.
pub open spec fn encode_spec(key: Seq<u8>, id: Seq<u8>) -> Option<Seq<char>> {
    hs256_signed(key, session_payload(id))
}

/// The identifier that a cookie value stands for under a key: the one whose
/// document the value releases, if its signature holds and it carries one.
pub open spec fn decode_spec(key: Seq<u8>, raw: Seq<char>) -> Option<Seq<u8>> {
    match hs256_opened(key, raw) {
        Some(payload) => parse_session_payload(payload),
        None => None,
    }
}

/// What signing came to: the token, or the fault that a failed signing is.
pub fn token_or_fault(signed: Result<String, JwtError>) -> (token: Result<String, OperationError>)
    ensures
        match signed {
            Ok(t) => token == Ok::<String, OperationError>(t),
            Err(_) => token == Err::<String, OperationError>(OperationError::InvalidSessionState),
        },
{
    match signed {
        Ok(t) => Ok(t),
        Err(_) => Err(OperationError::InvalidSessionState),
    }
}

/// What opening came to: the identifier of the released document, or nothing
/// where nothing was released or it is no such document.
pub fn session_or_nothing(opened: Result<Vec<u8>, JwtError>) -> (sessionid: Option<SessionId>)
    ensures
        match opened {
            Ok(payload) => match sessionid {
                Some(id) => parse_session_payload(payload@) == Some(id@),
                None => parse_session_payload(payload@) is None,
            },
            Err(_) => sessionid is None,
        },
{
    match opened {
        Ok(payload) => decode_session_payload(payload.as_slice()),
        Err(_) => None,
    }
}

/// Seals an identifier into a cookie value. What `decode` reads from that
/// value under the same key is the identifier again. Sealing fails only
/// where the signer does, as it does with a key of fewer than 32 bytes.
pub fn encode(key: &[u8], sessionid: &SessionId) -> (token: Result<String, OperationError>)
    ensures
        key@.len() < 32 ==> token is Err,
        match token {
            Ok(t) => encode_spec(key@, sessionid@) == Some(t@) && decode_spec(key@, t@) == Some(
                sessionid@,
            ),
            Err(e) => e == OperationError::InvalidSessionState && encode_spec(key@, sessionid@)
                is None,
        },
{
    let payload = encode_session_payload(sessionid);
    proof {
        lemma_payload_round_trip(sessionid@);
    }
    token_or_fault(hs256_sign(key, payload.as_slice()))
}

/// Reads a cookie value: the identifier it was sealed for, or nothing where
/// the value is malformed, not signed under `key`, or carries another
/// document.
pub fn decode(key: &[u8], raw: &str) -> (sessionid: Option<SessionId>)
    ensures
        key@.len() < 32 ==> sessionid is None,
        match sessionid {
            Some(id) => decode_spec(key@, raw@) == Some(id@),
            None => decode_spec(key@, raw@) is None,
        },
{
    session_or_nothing(hs256_open(key, raw))
}

/// A cookie value is read as an identifier only where it releases, under the
/// key, exactly the document written for that identifier: no value stands
/// for two identifiers, and none for an identifier whose document it does not
/// carry.
pub proof fn law_decoded_values_carry_their_document(key: Seq<u8>, raw: Seq<char>, id: Seq<u8>)
    requires
        decode_spec(key, raw) == Some(id),
    ensures
        id.len() == 16,
        hs256_opened(key, raw) == Some(session_payload(id)),
{
    lemma_payload_unique(hs256_opened(key, raw)->Some_0);
}

} // verus!
