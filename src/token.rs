use vstd::prelude::*;

use crate::sign::{MAX_PLAINTEXT, NONCE_LEN, Sign, SignError, open_blob, sealed_blob};
use crate::user::User;

verus! {

/// Seconds for which a freshly issued token stays valid (24 hours).
pub const TOKEN_LIFETIME: i64 = 86400;

/// The JSON text that `serde_json` writes for the pair `(id, due)`.
pub uninterp spec fn json_of_claims(id: Seq<char>, due: int) -> Seq<u8>;

/// The pair `(id, due)` that `serde_json` reads from a byte string, if any.
pub uninterp spec fn claims_of_json(b: Seq<u8>) -> Option<(Seq<char>, int)>;

/// Relies on `chrono::Utc::now` and `DateTime::timestamp`: the current time
/// in seconds since the Unix epoch.
#[verifier::external_body]
pub(crate) fn unix_now() -> (r: i64) {
    chrono::Utc::now().timestamp()
}

/// Relies on `serde_json::to_vec` of a `(&str, i64)` pair: the JSON text of
/// that pair; writing a string and an integer into a `Vec` does not fail.
#[verifier::external_body]
fn claims_to_json(id: &str, due: i64) -> (r: Option<Vec<u8>>)
    ensures
        r is Some,
        r matches Some(b) ==> b@ == json_of_claims(id@, due as int),
{
    serde_json::to_vec(&(id, due)).ok()
}

/// Relies on `serde_json::from_slice` into a `(String, i64)` pair: the result
/// depends on the bytes alone, and the text that `to_vec` writes for a pair
/// reads back as that pair.
#[verifier::external_body]
fn claims_from_json(b: &[u8]) -> (r: Option<(String, i64)>)
    ensures
        r matches Some(p) ==> claims_of_json(b@) == Some((p.0@, p.1 as int)),
        r is None ==> claims_of_json(b@) is None,
        forall|id: Seq<char>, due: i64|
            #![trigger json_of_claims(id, due as int)]
            json_of_claims(id, due as int) == b@ ==> (r is Some && r->Some_0.0@ == id
                && r->Some_0.1 == due),
{
    serde_json::from_slice::<(String, i64)>(b).ok()
}

/// The expiry of a token issued at `now`: `TOKEN_LIFETIME` seconds later,
/// held at the largest `i64` where that would not fit.
pub open spec fn due_after(now: int) -> int {
    if now + TOKEN_LIFETIME <= i64::MAX {
        now + TOKEN_LIFETIME
    } else {
        i64::MAX as int
    }
}

/// A token is expired from its due time on; it is valid strictly before.
pub open spec fn is_expired(due: int, now: int) -> bool {
    now >= due
}

/// What a sealed token opens to: the subject and the expiry in its payload.
pub open spec fn claims_of_token(key: Seq<u8>, blob: Seq<u8>) -> Option<(Seq<char>, int)> {
    match open_blob(key, blob) {
        Some(payload) => claims_of_json(payload),
        None => None,
    }
}

/// The payload of a session: who it is for and until when (Unix seconds).
#[derive(Debug)]
pub struct Token {
    id: String,
    due: i64,
}

impl Token {
    /// The subject's user id.
    pub closed spec fn subject(&self) -> Seq<char> {
        self.id@
    }

    /// The expiry time in Unix seconds.
    pub closed spec fn due_at(&self) -> int {
        self.due as int
    }

    /// A token for `user` issued at time `now`.
    pub fn issued_at(user: &User, now: i64) -> (r: Token)
        ensures
            r.subject() == user.id_view(),
            r.due_at() == due_after(now as int),
    {
        let due = if now <= i64::MAX - TOKEN_LIFETIME {
            now + TOKEN_LIFETIME
        } else {
            i64::MAX
        };
        Token { id: user.id().to_owned(), due }
    }

    /// A token for `user` issued now.
    pub fn new(user: &User) -> (r: Token)
        ensures
            r.subject() == user.id_view(),
            exists|now: i64| r.due_at() == due_after(now as int),
    {
        Token::issued_at(user, unix_now())
    }

    /// The subject's user id.
    pub fn id(&self) -> (r: &str)
        ensures
            r@ == self.subject(),
    {
        self.id.as_str()
    }

    /// The expiry time in Unix seconds.
    pub fn due(&self) -> (r: i64)
        ensures
            r == self.due_at(),
    {
        self.due
    }

    /// Whether the token is expired at time `now`.
    pub fn expired_at(&self, now: i64) -> (r: bool)
        ensures
            r == is_expired(self.due_at(), now as int),
    {
        now >= self.due
    }

    /// Whether the token is expired now.
    pub fn expired(&self) -> (r: bool)
        ensures
            exists|now: i64| r == is_expired(self.due_at(), now as int),
    {
        self.expired_at(unix_now())
    }

    /// Seals the token's payload, its JSON text, under `sign`. Fails only
    /// when that text is too long to seal.
    pub fn encode(&self, sign: &Sign) -> (r: Result<Vec<u8>, SignError>)
        requires
            sign.key().len() == 32,
        ensures
            r is Ok <==> json_of_claims(self.subject(), self.due_at()).len() <= MAX_PLAINTEXT,
            r matches Ok(b) ==> b@.len() >= NONCE_LEN && b@ == sealed_blob(
                sign.key(),
                b@.take(NONCE_LEN as int),
                json_of_claims(self.subject(), self.due_at()),
            ),
    {
        match claims_to_json(self.id.as_str(), self.due) {
            Some(payload) => sign.encrypt(payload.as_slice()),
            None => Err(SignError),
        }
    }

    /// Opens a sealed token. A blob that does not authenticate under `sign`,
    /// and a payload that is not the JSON of a token, both give `SignError`.
    pub fn decode(sign: &Sign, value: &[u8]) -> (r: Result<Token, SignError>)
        requires
            sign.key().len() == 32,
        ensures
            r is Err <==> claims_of_token(sign.key(), value@) is None,
            r matches Ok(t) ==> claims_of_token(sign.key(), value@) == Some(
                (t.subject(), t.due_at()),
            ),
            forall|nonce: Seq<u8>, id: Seq<char>, due: i64|
                #![trigger sealed_blob(sign.key(), nonce, json_of_claims(id, due as int))]
                nonce.len() == NONCE_LEN && json_of_claims(id, due as int).len() <= MAX_PLAINTEXT
                    && sealed_blob(sign.key(), nonce, json_of_claims(id, due as int)) == value@
                    ==> (r is Ok && r->Ok_0.subject() == id && r->Ok_0.due_at() == due),
    {
        let r = match sign.decrypt(value) {
            Ok(payload) => match claims_from_json(payload.as_slice()) {
                Some((id, due)) => Ok(Token { id, due }),
                None => Err(SignError),
            },
            Err(e) => Err(e),
        };
        r
    }
}

/// A token issued at `t` is valid an hour later and expired 25 hours later.
pub proof fn lemma_expiry_boundary(t: int)
    requires
        i64::MIN <= t,
        t + 25 * 3600 <= i64::MAX,
    ensures
        !is_expired(due_after(t), t + 3600),
        is_expired(due_after(t), t + 25 * 3600),
{
}

} // verus!
