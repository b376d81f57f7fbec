use vstd::prelude::*;

use crate::digest::{password_verifier, verifier_of};

verus! {

/// A stored user: id, display name and password verifier (never the
/// plaintext password).
#[derive(Debug)]
pub struct User {
    id: String,
    name: String,
    password: Vec<u8>,
}

/// What a visitor submits to sign up or sign in.
pub struct UserCreateInfo {
    pub id: String,
    pub name: String,
    pub password: String,
}

/// The public part of a user.
pub struct UserInfo {
    pub id: String,
    pub name: String,
}

/// The answer to a sign-in attempt.
#[derive(Debug, Clone, Copy, PartialEq, Eq, Structural)]
pub enum SigninOutcome {
    /// The id is known and the password matches.
    Accepted,
    /// No user has that id.
    UnknownUser,
    /// The id is known and the password does not match.
    WrongPassword,
}

impl User {
    /// The user's id.
    pub closed spec fn id_view(&self) -> Seq<char> {
        self.id@
    }

    /// The display name.
    pub closed spec fn name_view(&self) -> Seq<char> {
        self.name@
    }

    /// The stored password verifier.
    pub closed spec fn verifier_view(&self) -> Seq<u8> {
        self.password@
    }

    /// A user built from submitted data: the password is replaced by its
    /// verifier here, before anything else sees it.
    pub fn from_info(info: UserCreateInfo) -> (r: User)
        ensures
            r.id_view() == info.id@,
            r.name_view() == info.name@,
            r.verifier_view() == verifier_of(info.password@),
            r.verifier_view().len() == 64,
    {
        let password = password_verifier(info.password.as_str());
        User { id: info.id, name: info.name, password }
    }

    /// A user as stored: the verifier is taken as it is.
    pub fn from_stored(id: String, name: String, password: Vec<u8>) -> (r: User)
        ensures
            r.id_view() == id@,
            r.name_view() == name@,
            r.verifier_view() == password@,
    {
        User { id, name, password }
    }

    /// The user's id.
    pub fn id(&self) -> (r: &str)
        ensures
            r@ == self.id_view(),
    {
        self.id.as_str()
    }

    /// The display name.
    pub fn name(&self) -> (r: &str)
        ensures
            r@ == self.name_view(),
    {
        self.name.as_str()
    }

    /// The password verifier.
    pub fn password(&self) -> (r: &[u8])
        ensures
            r@ == self.verifier_view(),
    {
        self.password.as_slice()
    }
}

impl UserInfo {
    /// The public part of `user`: its id and name.
    pub fn from_user(user: User) -> (r: UserInfo)
        ensures
            r.id@ == user.id_view(),
            r.name@ == user.name_view(),
    {
        UserInfo { id: user.id, name: user.name }
    }
}

/// Whether two byte strings are equal, compared in full.
fn bytes_equal(a: &[u8], b: &[u8]) -> (r: bool)
    ensures
        r == (a@ == b@),
{
    if a.len() != b.len() {
        return false;
    }
    let mut i: usize = 0;
    while i < a.len()
        invariant
            a@.len() == b@.len(),
            0 <= i <= a@.len(),
            a@.take(i as int) == b@.take(i as int),
        decreases a@.len() - i,
    {
        if a[i] != b[i] {
            assert(a@[i as int] != b@[i as int]);
            return false;
        }
        assert(a@.take(i + 1) =~= a@.take(i as int).push(a@[i as int]));
        assert(b@.take(i + 1) =~= b@.take(i as int).push(b@[i as int]));
        i = i + 1;
    }
    assert(a@ =~= a@.take(i as int));
    assert(b@ =~= b@.take(i as int));
    true
}

/// Decides a sign-in attempt by `candidate` against the stored record with
/// the same id, if there is one: the verifiers must match.
pub fn check_signin(candidate: &User, stored: Option<&User>) -> (r: SigninOutcome)
    ensures
        stored is None ==> r == SigninOutcome::UnknownUser,
        stored matches Some(s) ==> r == (if s.verifier_view() == candidate.verifier_view() {
            SigninOutcome::Accepted
        } else {
            SigninOutcome::WrongPassword
        }),
{
    match stored {
        None => SigninOutcome::UnknownUser,
        Some(s) => {
            if bytes_equal(candidate.password.as_slice(), s.password.as_slice()) {
                SigninOutcome::Accepted
            } else {
                SigninOutcome::WrongPassword
            }
        },
    }
}

/// Whether `new` may replace `old`: an update never changes the id.
pub fn same_identity(old: &User, new: &User) -> (r: bool)
    ensures
        r == (old.id_view() == new.id_view()),
{
    old.id == new.id
}

} // verus!
