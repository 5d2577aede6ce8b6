use vstd::prelude::*;

verus! {

/// The credentials that a client presents at login.
#[derive(Debug, Clone, PartialEq, Eq)]
pub struct AuthData {
    pub email: String,
    pub password: String,
}

/// A user as the persistent store holds it.
#[derive(Debug, Clone, PartialEq, Eq)]
pub struct UserRecord {
    pub email: String,
    /// The encoded argon2 hash of the password, salted and peppered.
    pub hash: String,
}

/// The authenticated principal: the fields of a user that may travel in a session.
#[derive(Debug, Clone, PartialEq, Eq)]
pub struct SlimUser {
    pub email: String,
}

/// The principal of a request that carries a valid session.
pub type LoggedUser = SlimUser;

impl SlimUser {
    /// The principal built from a stored record: every field but the hash.
    pub open spec fn of_record(u: UserRecord) -> SlimUser {
        SlimUser { email: u.email }
    }

    pub fn from_record(u: &UserRecord) -> (r: SlimUser)
        ensures
            r == SlimUser::of_record(*u),
    {
        SlimUser { email: u.email.clone() }
    }
}

} // verus!
