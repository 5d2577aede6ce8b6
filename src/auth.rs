use vstd::prelude::*;

use crate::codec::{encode, framed, json_of};
use crate::credential::{argon2_verdict, verify};
use crate::directory::{
    find_by_email, lemma_records_for_complete, lemma_records_for_sound, lookup, records_for,
};
use crate::errors::ServiceError;
use crate::models::{AuthData, SlimUser, UserRecord};

verus! {

/// The record that authenticates `email` with `password`: the one record stored
/// for that email, provided the password checks out against its hash.
pub open spec fn authenticate(
    dir: Seq<UserRecord>,
    email: Seq<char>,
    password: Seq<char>,
    pepper: Seq<char>,
) -> Option<UserRecord> {
    match lookup(dir, email) {
        Some(u) => if argon2_verdict(u.hash@, password, pepper) == Some(true) {
            Some(u)
        } else {
            None
        },
        None => None,
    }
}

/// The outcome of a login attempt: the principal of the authenticated record,
/// or `Unauthorized` whatever the reason for refusing.
pub open spec fn query_spec(
    dir: Seq<UserRecord>,
    email: Seq<char>,
    password: Seq<char>,
    pepper: Seq<char>,
) -> Result<SlimUser, ServiceError> {
    match authenticate(dir, email, password, pepper) {
        Some(u) => Ok(SlimUser::of_record(u)),
        None => Err(ServiceError::Unauthorized),
    }
}

/// Checks the credentials against the records that the store returned and
/// yields the authenticated principal.
pub fn query(auth_data: &AuthData, records: &Vec<UserRecord>, pepper: &str) -> (r: Result<
    SlimUser,
    ServiceError,
>)
    ensures
        r == query_spec(records@, auth_data.email@, auth_data.password@, pepper@),
{
    match find_by_email(records, &auth_data.email) {
        Some(i) => {
            let user = &records[i];
            match verify(user.hash.as_str(), auth_data.password.as_str(), pepper) {
                Ok(true) => Ok(SlimUser::from_record(user)),
                _ => Err(ServiceError::Unauthorized),
            }
        },
        None => Err(ServiceError::Unauthorized),
    }
}

/// Authenticates the credentials and issues the session token of the principal.
pub fn login(auth_data: &AuthData, records: &Vec<UserRecord>, pepper: &str) -> (r: Result<
    String,
    ServiceError,
>)
    ensures
        match authenticate(records@, auth_data.email@, auth_data.password@, pepper@) {
            Some(u) => r is Ok && r->Ok_0@ == framed(json_of(u.email@)),
            None => r == Err::<String, ServiceError>(ServiceError::Unauthorized),
        },
{
    let user = query(auth_data, records, pepper)?;
    Ok(encode(&user))
}

impl SlimUser {
    /// The principal of a request, from what its session yielded: the principal
    /// that was read from the session token, or nothing where the request has no
    /// session or its token does not read as a principal.
    pub fn from_request(read: Option<SlimUser>) -> (r: Result<SlimUser, ServiceError>)
        ensures
            match read {
                Some(p) => r == Ok::<SlimUser, ServiceError>(p),
                None => r == Err::<SlimUser, ServiceError>(ServiceError::Unauthorized),
            },
    {
        match read {
            Some(p) => Ok(p),
            None => Err(ServiceError::Unauthorized),
        }
    }
}

/// A stored record whose password checks out logs its owner in, as long as no
/// other record shares its email; the principal carries the record's email.
pub proof fn lemma_login_succeeds(
    dir: Seq<UserRecord>,
    u: UserRecord,
    password: Seq<char>,
    pepper: Seq<char>,
)
    requires
        dir.contains(u),
        records_for(dir, u.email@).len() <= 1,
        argon2_verdict(u.hash@, password, pepper) == Some(true),
    ensures
        authenticate(dir, u.email@, password, pepper) == Some(u),
        query_spec(dir, u.email@, password, pepper) == Ok::<SlimUser, ServiceError>(
            SlimUser::of_record(u),
        ),
        SlimUser::of_record(u).email == u.email,
{
    let i = choose|i: int| 0 <= i < dir.len() && dir[i] == u;
    lemma_records_for_complete(dir, u.email@, i);
}

/// Logins are independent: a login depends on its own credentials and the
/// store alone, so each of any number of logins with valid credentials of a
/// record whose email no other record carries yields the principal of its own
/// record.
pub proof fn lemma_logins_independent(
    dir: Seq<UserRecord>,
    users: Seq<UserRecord>,
    passwords: Seq<Seq<char>>,
    pepper: Seq<char>,
)
    requires
        users.len() == passwords.len(),
        forall|i: int| 0 <= i < users.len() ==> dir.contains(#[trigger] users[i]),
        forall|i: int|
            0 <= i < users.len() ==> records_for(dir, (#[trigger] users[i]).email@).len() <= 1,
        forall|i: int|
            0 <= i < users.len() ==> argon2_verdict(
                (#[trigger] users[i]).hash@,
                passwords[i],
                pepper,
            ) == Some(true),
    ensures
        forall|i: int|
            0 <= i < users.len() ==> query_spec(dir, (#[trigger] users[i]).email@, passwords[i], pepper)
                == Ok::<SlimUser, ServiceError>(SlimUser::of_record(users[i])),
{
    assert forall|i: int| 0 <= i < users.len() implies query_spec(
        dir,
        (#[trigger] users[i]).email@,
        passwords[i],
        pepper,
    ) == Ok::<SlimUser, ServiceError>(SlimUser::of_record(users[i])) by {
        lemma_login_succeeds(dir, users[i], passwords[i], pepper);
    }
}

/// A password that checks out against no record stored for the email is
/// refused as unauthorized.
pub proof fn lemma_wrong_password_refused(
    dir: Seq<UserRecord>,
    email: Seq<char>,
    password: Seq<char>,
    pepper: Seq<char>,
)
    requires
        forall|i: int|
            0 <= i < dir.len() && (#[trigger] dir[i]).email@ == email ==> argon2_verdict(
                dir[i].hash@,
                password,
                pepper,
            ) != Some(true),
    ensures
        query_spec(dir, email, password, pepper) == Err::<SlimUser, ServiceError>(
            ServiceError::Unauthorized,
        ),
{
    lemma_records_for_sound(dir, email);
    if records_for(dir, email).len() == 1 {
        let u = records_for(dir, email)[0];
        let j = choose|j: int| 0 <= j < dir.len() && dir[j] == u;
        assert(dir[j].email@ == email);
    }
}

/// An email that no record carries is refused exactly as a wrong password is:
/// both attempts yield the same error.
pub proof fn lemma_unknown_email_like_wrong_password(
    dir: Seq<UserRecord>,
    unknown: Seq<char>,
    password: Seq<char>,
    email: Seq<char>,
    wrong_password: Seq<char>,
    pepper: Seq<char>,
)
    requires
        forall|i: int| 0 <= i < dir.len() ==> (#[trigger] dir[i]).email@ != unknown,
        forall|i: int|
            0 <= i < dir.len() && (#[trigger] dir[i]).email@ == email ==> argon2_verdict(
                dir[i].hash@,
                wrong_password,
                pepper,
            ) != Some(true),
    ensures
        query_spec(dir, unknown, password, pepper) == Err::<SlimUser, ServiceError>(
            ServiceError::Unauthorized,
        ),
        query_spec(dir, unknown, password, pepper) == query_spec(
            dir,
            email,
            wrong_password,
            pepper,
        ),
{
    lemma_records_for_sound(dir, unknown);
    if records_for(dir, unknown).len() > 0 {
        let u = records_for(dir, unknown)[0];
        let j = choose|j: int| 0 <= j < dir.len() && dir[j] == u;
        assert(dir[j].email@ == unknown);
    }
    lemma_wrong_password_refused(dir, email, wrong_password, pepper);
}

} // verus!
