//! Users: how a password is hashed when an account is made, and how a log-in
//! is checked against the stored hash.

use vstd::prelude::*;
use crate::model::User;

verus! {

/// An error of the bcrypt hasher. Opaque: the service only tells an error
/// from a result.
#[verifier::external_type_specification]
#[verifier::external_body]
pub struct ExBcryptError(bcrypt::BcryptError);

/// What `bcrypt::verify` answers for a password and a stored hash: `None`
/// when it fails (the hash is malformed), else whether the password matches.
/// It depends on these two texts alone.
pub uninterp spec fn bcrypt_verify_outcome(password: Seq<char>, hash: Seq<char>) -> Option<bool>;

/// Calls `bcrypt::hash` with `bcrypt::DEFAULT_COST` (12), which draws a random
/// salt and hashes the password with it. States what holds of every hash it
/// gives back: it reads "$2b$12$" followed by 53 characters of salt and
/// digest, and `bcrypt::verify` accepts the same password against it (it
/// hashes the password again with the stored cost and salt). When it fails
/// (the system gave no randomness) is left unstated.
#[verifier::external_body]
pub(crate) fn hash_password(password: &str) -> (res: Result<String, bcrypt::BcryptError>)
    ensures
        res matches Ok(h) ==> {
            &&& h@.len() == 60
            &&& h@.subrange(0, 7) == "$2b$12$"@
            &&& bcrypt_verify_outcome(password@, h@) == Some(true)
        },
{
    bcrypt::hash(password, bcrypt::DEFAULT_COST)
}

/// Calls `bcrypt::verify`, which reads the cost and salt out of `hash`,
/// hashes `password` with them and compares. Its answer is named
/// `bcrypt_verify_outcome`.
#[verifier::external_body]
fn bcrypt_verify(password: &str, hash: &str) -> (res: Result<bool, bcrypt::BcryptError>)
    ensures
        match res {
            Ok(b) => bcrypt_verify_outcome(password@, hash@) == Some(b),
            Err(_) => bcrypt_verify_outcome(password@, hash@) is None,
        },
{
    bcrypt::verify(password, hash)
}

/// A password matches a stored hash when bcrypt says so; a hash bcrypt
/// cannot read matches no password.
pub open spec fn password_matches(password: Seq<char>, hash: Seq<char>) -> bool {
    bcrypt_verify_outcome(password, hash) == Some(true)
}

/// Whether `password` matches the stored `hash`.
pub fn verify_password(password: &str, hash: &str) -> (res: bool)
    ensures
        res == password_matches(password@, hash@),
{
    match bcrypt_verify(password, hash) {
        Ok(b) => b,
        Err(_) => false,
    }
}

/// A stored account as the log-in looks it up.
pub struct UserRecord {
    pub id: i32,
    pub username: String,
    pub password_hash: String,
}

/// The user that a log-in with `password` yields, given the account found
/// under the requested name.
pub open spec fn authenticated(record: Option<UserRecord>, password: Seq<char>) -> Option<(i32, Seq<char>)> {
    match record {
        Some(r) => if password_matches(password, r.password_hash@) {
            Some((r.id, r.username@))
        } else {
            None
        },
        None => None,
    }
}

/// The user a log-in yields: the account found under the requested name,
/// when there is one and `password` matches its hash; else none.
pub fn authenticate_user(record: Option<UserRecord>, password: &str) -> (res: Option<User>)
    ensures
        match authenticated(record, password@) {
            Some((id, name)) => res matches Some(u) && u.id == id && u.username@ == name,
            None => res is None,
        },
{
    match record {
        Some(r) => {
            if verify_password(password, r.password_hash.as_str()) {
                Some(User { id: r.id, username: r.username })
            } else {
                None
            }
        },
        None => None,
    }
}

/// The message a new account fails with when its password cannot be hashed.
pub open spec fn hash_failure_message() -> Seq<char> {
    "failed to hash password"@
}

/// An account about to be stored: its name and the hash of its password.
pub struct NewUser {
    pub username: String,
    pub password_hash: String,
}

/// The account that a registration stores, given what the hasher answered
/// for its password: a hash makes the account with the requested name and
/// exactly that hash; a failed hash makes no account, and the error says so.
pub fn new_user_from_hash(username: &str, hashed: Result<String, bcrypt::BcryptError>) -> (res: Result<NewUser, String>)
    ensures
        match hashed {
            Ok(h) => res matches Ok(u) && u.username@ == username@ && u.password_hash == h,
            Err(_) => res matches Err(m) && m@ == hash_failure_message(),
        },
{
    match hashed {
        Ok(h) => Ok(NewUser { username: String::from_str(username), password_hash: h }),
        Err(_) => Err(String::from_str("failed to hash password")),
    }
}

/// The account that a registration stores: the requested name, and a bcrypt
/// hash of the password. Whatever the hash is, a log-in with the same
/// password against the stored account succeeds. When hashing fails, the
/// account cannot be made and the error says so.
pub fn create_user(username: &str, password: &str) -> (res: Result<NewUser, String>)
    ensures
        match res {
            Ok(u) => {
                &&& u.username@ == username@
                &&& u.password_hash@.len() == 60
                &&& u.password_hash@.subrange(0, 7) == "$2b$12$"@
                &&& password_matches(password@, u.password_hash@)
                &&& forall|id: i32|
                    #[trigger] authenticated(
                        Some(UserRecord { id, username: u.username, password_hash: u.password_hash }),
                        password@,
                    ) == Some((id, username@))
            },
            Err(msg) => msg@ == hash_failure_message(),
        },
{
    new_user_from_hash(username, hash_password(password))
}

/// The account a registration made, given what storing it answered and
/// whether a failure was a clash with a name already taken: the stored
/// account; no account when the name was taken; any other failure as it is.
pub fn user_unless_taken(created: Result<User, sqlx::Error>, name_taken: bool) -> (res: Result<Option<User>, sqlx::Error>)
    ensures
        match created {
            Ok(u) => res == Ok::<Option<User>, sqlx::Error>(Some(u)),
            Err(e) => if name_taken {
                res == Ok::<Option<User>, sqlx::Error>(None)
            } else {
                res == Err::<Option<User>, sqlx::Error>(e)
            },
        },
{
    match created {
        Ok(u) => Ok(Some(u)),
        Err(e) => if name_taken {
            Ok(None)
        } else {
            Err(e)
        },
    }
}

/// A password logs in the account it was stored for: a log-in with
/// `password` against an account whose stored hash bcrypt matches with
/// `password` yields that account.
pub proof fn lemma_registered_password_logs_in(id: i32, name: String, password: Seq<char>, hash: String)
    ensures
        password_matches(password, hash@) ==> authenticated(
            Some(UserRecord { id, username: name, password_hash: hash }),
            password,
        ) == Some((id, name@)),
{
}

/// A log-in never yields an account without a matching password: whatever
/// the stored record, a log-in that succeeds names that record's account,
/// and its password matches the record's hash.
pub proof fn lemma_login_needs_matching_password(record: Option<UserRecord>, password: Seq<char>)
    ensures
        authenticated(record, password) matches Some((id, name)) ==> {
            &&& record matches Some(r)
            &&& r.id == id
            &&& r.username@ == name
            &&& password_matches(password, r.password_hash@)
        },
{
}

} // verus!
