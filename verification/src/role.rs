use vstd::prelude::*;
use crate::auth::UserExtractError;
use crate::user::User;

verus! {

/// What a registered user is allowed to do beyond editing.
#[derive(PartialEq, Eq, Structural, Copy, Clone, Debug)]
pub enum Role {
    Administrator,
}

/// Why a request that needs a role was turned away.
#[derive(Debug, PartialEq, Eq, Structural, Clone, Copy)]
pub enum Error {
    UserExtract(UserExtractError),
    Unauthorised(Role),
}

impl Error {
    /// The HTTP status that answers the error.
    pub fn status(&self) -> (code: u16)
        ensures
            code == (if *self is Unauthorised { 401u16 } else { 500u16 }),
    {
        match self {
            Error::Unauthorised(_) => 401,
            Error::UserExtract(_) => 500,
        }
    }
}

/// A user who is known to hold the role that a request needs.
#[derive(Debug, PartialEq, Eq)]
pub struct Is(pub User);

impl Is {
    /// Lets `user` through where they hold `role`.
    pub fn check(user: User, role: Role) -> (result: Result<Is, Error>)
        ensures
            match result {
                Ok(is) => user.roles@.contains(role) && is.0 == user,
                Err(error) => !user.roles@.contains(role) && error == Error::Unauthorised(role),
            },
    {
        if user.has_role(role) {
            return Ok(Is(user));
        }
        Err(Error::Unauthorised(role))
    }
}

} // verus!
