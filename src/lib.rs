//! Session tokens sealed with AES-256-GCM, password verifiers, and the
//! user-record logic of a small web service.

mod cookie;
mod digest;
mod sign;
mod token;
mod statement;
mod user;

pub use cookie::{
    base64_of, bytes_of_base64, claims_of_cookie, session, session_at, token_cookie, token_from_cookie,
};
pub use digest::{lemma_verifier_deterministic, password_verifier, sha3_256_of, sha3_512_of, verifier_of};
pub use sign::{
    MAX_PLAINTEXT, NONCE_LEN, Sign, SignError, TAG_LEN, aead_open, aead_seal, open_blob,
    sealed_blob,
};
pub use token::{
    TOKEN_LIFETIME, Token, claims_of_json, claims_of_token, due_after, is_expired, json_of_claims,
    lemma_expiry_boundary,
};
pub use statement::{
    CREATE_TABLE, ColumnType, DELETE_USER, INSERT_USER, SELECT_USER, UPDATE_USER, UserStatement,
};
pub use user::{SigninOutcome, User, UserCreateInfo, UserInfo, check_signin, same_identity};
