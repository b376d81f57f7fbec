use base64::Engine;
use base64::prelude::BASE64_STANDARD;
use vstd::prelude::*;

use crate::sign::{MAX_PLAINTEXT, NONCE_LEN, Sign, SignError, sealed_blob};
use crate::token::{Token, claims_of_token, is_expired, json_of_claims, unix_now};

verus! {

/// The standard, padded base64 text of a byte string.
pub uninterp spec fn base64_of(b: Seq<u8>) -> Seq<char>;

/// The bytes that a text decodes to as standard, padded base64, if any.
pub uninterp spec fn bytes_of_base64(s: Seq<char>) -> Option<Seq<u8>>;

/// Relies on `base64`'s `BASE64_STANDARD.encode`: padded standard base64.
#[verifier::external_body]
fn base64_encode(b: &[u8]) -> (r: String)
    ensures
        r@ == base64_of(b@),
{
    BASE64_STANDARD.encode(b)
}

/// Relies on `base64`'s `BASE64_STANDARD.decode`: the result depends on the
/// text alone, and the text that `encode` writes decodes to its bytes.
#[verifier::external_body]
fn base64_decode(s: &str) -> (r: Option<Vec<u8>>)
    ensures
        r matches Some(b) ==> bytes_of_base64(s@) == Some(b@),
        r is None ==> bytes_of_base64(s@) is None,
        forall|b: Seq<u8>| #![trigger base64_of(b)] base64_of(b) == s@ ==> (r is Some && r->Some_0@ == b),
{
    BASE64_STANDARD.decode(s.as_bytes()).ok()
}

/// What a cookie value holds: the claims of the sealed token that it encodes.
pub open spec fn claims_of_cookie(key: Seq<u8>, value: Seq<char>) -> Option<(Seq<char>, int)> {
    match bytes_of_base64(value) {
        Some(blob) => claims_of_token(key, blob),
        None => None,
    }
}

/// The cookie value that carries `token`: its sealed form in base64. Fails
/// only when the token's payload is too long to seal.
pub fn token_cookie(token: &Token, sign: &Sign) -> (r: Result<String, SignError>)
    requires
        sign.key().len() == 32,
    ensures
        r is Ok <==> json_of_claims(token.subject(), token.due_at()).len() <= MAX_PLAINTEXT,
        r matches Ok(v) ==> exists|nonce: Seq<u8>|
            nonce.len() == NONCE_LEN && v@ == base64_of(
                sealed_blob(sign.key(), nonce, json_of_claims(token.subject(), token.due_at())),
            ),
{
    match token.encode(sign) {
        Ok(blob) => {
            let v = base64_encode(blob.as_slice());
            assert(blob@.take(NONCE_LEN as int).len() == NONCE_LEN);
            Ok(v)
        },
        Err(e) => Err(e),
    }
}

/// The token that a cookie value carries. Text that is not base64, a blob
/// that does not authenticate and a payload that is not a token all give
/// the same `SignError`.
pub fn token_from_cookie(sign: &Sign, value: &str) -> (r: Result<Token, SignError>)
    requires
        sign.key().len() == 32,
    ensures
        r is Err <==> claims_of_cookie(sign.key(), value@) is None,
        r matches Ok(t) ==> claims_of_cookie(sign.key(), value@) == Some((t.subject(), t.due_at())),
        forall|nonce: Seq<u8>, id: Seq<char>, due: i64|
            #![trigger base64_of(sealed_blob(sign.key(), nonce, json_of_claims(id, due as int)))]
            nonce.len() == NONCE_LEN && json_of_claims(id, due as int).len() <= MAX_PLAINTEXT
                && base64_of(sealed_blob(sign.key(), nonce, json_of_claims(id, due as int)))
                == value@ ==> (r is Ok && r->Ok_0.subject() == id && r->Ok_0.due_at() == due),
{
    match base64_decode(value) {
        Some(blob) => {
            let r = Token::decode(sign, blob.as_slice());
            assert forall|nonce: Seq<u8>, id: Seq<char>, due: i64|
                nonce.len() == NONCE_LEN && json_of_claims(id, due as int).len() <= MAX_PLAINTEXT
                    && #[trigger] base64_of(
                    sealed_blob(sign.key(), nonce, json_of_claims(id, due as int)),
                ) == value@ implies (r is Ok && r->Ok_0.subject() == id && r->Ok_0.due_at()
                == due) by {
                assert(blob@ == sealed_blob(sign.key(), nonce, json_of_claims(id, due as int)));
            }
            r
        },
        None => Err(SignError),
    }
}

/// The session that a cookie value carries at time `now`: its token, when
/// the value decodes to one that is not yet expired.
pub fn session_at(sign: &Sign, value: &str, now: i64) -> (r: Option<Token>)
    requires
        sign.key().len() == 32,
    ensures
        r is Some <==> (claims_of_cookie(sign.key(), value@) matches Some(c) && !is_expired(
            c.1,
            now as int,
        )),
        r matches Some(t) ==> claims_of_cookie(sign.key(), value@) == Some((t.subject(), t.due_at())),
{
    match token_from_cookie(sign, value) {
        Ok(token) => {
            if token.expired_at(now) {
                None
            } else {
                Some(token)
            }
        },
        Err(_) => None,
    }
}

/// The session that a cookie value carries now: a token that decodes and
/// was not expired at the time read.
pub fn session(sign: &Sign, value: &str) -> (r: Option<Token>)
    requires
        sign.key().len() == 32,
    ensures
        r matches Some(t) ==> claims_of_cookie(sign.key(), value@) == Some((t.subject(), t.due_at())),
        r matches Some(t) ==> exists|now: i64| !is_expired(t.due_at(), now as int),
        claims_of_cookie(sign.key(), value@) is None ==> r is None,
{
    session_at(sign, value, unix_now())
}

} // verus!
