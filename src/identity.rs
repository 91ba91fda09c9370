//! The account behind a request's session, in the two shapes that handlers
//! ask for: one that must be present and one that may be absent.
use vstd::prelude::*;

verus! {

/// What the host's session lookup yields for a signed-in account.
pub struct UserRecord {
    pub id: i64,
    /// The account's identity string, shown as its username.
    pub identity: String,
    pub name: String,
    pub email: String,
    pub verified_email: bool,
}

/// The signed-in account of a request that cannot go on without one.
#[derive(Debug, Clone, Default)]
pub struct RequiredUser {
    pub user_id: i64,
    pub username: String,
    pub email: String,
    pub email_is_verified: bool,
    pub name: String,
}

/// The account of a request that may be anonymous; an anonymous one has
/// `is_logged_in` false and every other field empty.
#[derive(Debug, Clone)]
pub struct OptionalUser {
    pub user_id: i64,
    pub username: String,
    pub name: String,
    pub is_logged_in: bool,
}

/// Why a required account could not be had.
#[derive(Debug, Clone, Copy, PartialEq, Eq, Structural)]
pub enum AuthError {
    /// The request carries no valid session.
    NotAuthenticated,
}

/// The required account made from a session's record, field for field.
pub open spec fn required_of(u: UserRecord) -> RequiredUser {
    RequiredUser {
        user_id: u.id,
        username: u.identity,
        email: u.email,
        email_is_verified: u.verified_email,
        name: u.name,
    }
}

/// The optional account made from a session's record: the fields it shares
/// with the record, marked as logged in.
pub open spec fn optional_of(u: UserRecord) -> OptionalUser {
    OptionalUser { user_id: u.id, username: u.identity, name: u.name, is_logged_in: true }
}

impl OptionalUser {
    /// The anonymous account.
    pub open spec fn is_anonymous(&self) -> bool {
        &&& !self.is_logged_in
        &&& self.user_id == 0
        &&& self.username@.len() == 0
        &&& self.name@.len() == 0
    }
}

impl Default for OptionalUser {
    fn default() -> (r: OptionalUser)
        ensures
            r.is_anonymous(),
    {
        OptionalUser { user_id: 0, username: String::new(), name: String::new(), is_logged_in: false }
    }
}

/// The account of a request that must be signed in: the session's record,
/// or `NotAuthenticated` where the request has no valid session.
pub fn resolve_required(record: Option<UserRecord>) -> (r: Result<RequiredUser, AuthError>)
    ensures
        record is None ==> r == Err::<RequiredUser, AuthError>(AuthError::NotAuthenticated),
        record is Some ==> r == Ok::<RequiredUser, AuthError>(required_of(record->0)),
{
    match record {
        Some(u) => Ok(
            RequiredUser {
                user_id: u.id,
                username: u.identity,
                email: u.email,
                email_is_verified: u.verified_email,
                name: u.name,
            },
        ),
        None => Err(AuthError::NotAuthenticated),
    }
}

/// The account of a request that may be anonymous: the session's record, or
/// the anonymous account where the request has no valid session.
pub fn resolve_optional(record: Option<UserRecord>) -> (r: OptionalUser)
    ensures
        record is None ==> r.is_anonymous(),
        record is Some ==> r == optional_of(record->0),
{
    match record {
        Some(u) => OptionalUser { user_id: u.id, username: u.identity, name: u.name, is_logged_in: true },
        None => OptionalUser::default(),
    }
}

/// For one session, the required and the optional account agree on the
/// fields they share: the username, the name and the account's id.
pub proof fn lemma_shared_fields_agree(record: UserRecord)
    ensures
        required_of(record).username == optional_of(record).username,
        required_of(record).name == optional_of(record).name,
        required_of(record).user_id == optional_of(record).user_id,
        optional_of(record).is_logged_in,
{
}

} // verus!
