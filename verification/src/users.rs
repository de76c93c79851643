//! The users that the service shows, as its clients see them.

use vstd::prelude::*;
use crate::error::ApiError;

verus! {

/// A user's stored record, as far as the service reads it.
pub struct UserModel {
    pub username: String,
    pub email: String,
}

/// A user as the service shows it: its name and email.
pub struct User {
    pub name: String,
    pub email: String,
}

impl From<UserModel> for User {
    /// The shown user of a stored record: the record's user name becomes the
    /// shown name, and the email is kept.
    fn from(value: UserModel) -> (user: Self) {
        Self { name: value.username, email: value.email }
    }
}

impl vstd::std_specs::convert::FromSpecImpl<UserModel> for User {
    open spec fn obeys_from_spec() -> bool {
        true
    }

    open spec fn from_spec(value: UserModel) -> Self {
        User { name: value.username, email: value.email }
    }
}

} // verus!

verus! {

/// The database could not answer a query.
#[derive(Debug, Clone, Copy, PartialEq, Eq, Structural)]
pub struct DatabaseFailure;

/// A shown user has the stored record's user name as its name, and its email.
pub open spec fn shows(user: User, record: UserModel) -> bool {
    user.name@ == record.username@ && user.email@ == record.email@
}

/// The answer to a listing of all users: every stored record shown, in order;
/// a failed query is a server error.
pub fn list_users_response(lookup: Result<Vec<UserModel>, DatabaseFailure>) -> (res: Result<
    Vec<User>,
    ApiError,
>)
    ensures
        match lookup {
            Ok(records) => res matches Ok(users) && users@.len() == records@.len() && forall|i: int|
                0 <= i < records@.len() ==> shows(#[trigger] users@[i], records@[i]),
            Err(_) => res == Err::<Vec<User>, ApiError>(ApiError::InternalServerError),
        },
{
    match lookup {
        Ok(records) => {
            let mut users: Vec<User> = Vec::new();
            let n = records.len();
            let mut i: usize = 0;
            while i < n
                invariant
                    n == records@.len(),
                    i <= n,
                    users@.len() == i,
                    forall|j: int| 0 <= j < i ==> shows(#[trigger] users@[j], records@[j]),
                decreases n - i,
            {
                let record = &records[i];
                users.push(
                    User::from(
                        UserModel { username: record.username.clone(), email: record.email.clone() },
                    ),
                );
                i = i + 1;
            }
            Ok(users)
        },
        Err(_) => Err(ApiError::InternalServerError),
    }
}

/// The answer to a lookup of one user: the stored record shown; no record is
/// not found, and a failed query is a server error.
pub fn get_user_response(lookup: Result<Option<UserModel>, DatabaseFailure>) -> (res: Result<
    User,
    ApiError,
>)
    ensures
        match lookup {
            Ok(Some(record)) => res matches Ok(user) && shows(user, record),
            Ok(None) => res == Err::<User, ApiError>(ApiError::NotFound),
            Err(_) => res == Err::<User, ApiError>(ApiError::InternalServerError),
        },
{
    match lookup {
        Ok(Some(record)) => Ok(User::from(record)),
        Ok(None) => Err(ApiError::NotFound),
        Err(_) => Err(ApiError::InternalServerError),
    }
}

} // verus!
