use vstd::prelude::*;
use vstd::string::*;
use crate::route::{percent_decode, percent_decoded};
use crate::user::{User, UserDb, UserKey, UserKeyError, UserView};

verus! {

/// What the identity provider hands back with an authorisation code.
#[derive(Debug, PartialEq, Eq)]
pub struct Params {
    pub code: String,
    pub state: String,
}

/// A field of a profile.
#[derive(Debug, PartialEq, Eq, Structural, Clone, Copy)]
pub enum Field {
    Email,
    Name,
    Url,
}

impl Field {
    /// The field's name, as the profile spells it.
    pub fn name(&self) -> (name: &'static str)
        ensures
            name@ == match self {
                Field::Email => "email"@,
                Field::Name => "name"@,
                Field::Url => "url"@,
            },
    {
        match self {
            Field::Email => "email",
            Field::Name => "name",
            Field::Url => "url",
        }
    }
}

/// Why a sign-in failed.
#[derive(Debug, PartialEq, Eq, Structural, Clone, Copy)]
pub enum Error {
    Utf8,
    MissingAuthEndpoint,
    MissingTokenEndpoint,
    /// The profile lacks this field.
    MissingField(Field),
}

impl Error {
    /// The HTTP status that answers the error.
    pub fn status(&self) -> (code: u16)
        ensures
            code == 400,
    {
        400
    }
}

/// Why no user could be made out behind a request.
#[derive(Debug, PartialEq, Eq, Structural, Clone, Copy)]
pub enum UserExtractError {
    UserKey(UserKeyError),
    UserCookie,
    Utf8,
    Unauthorised,
}

impl UserExtractError {
    /// The HTTP status that answers the error.
    pub fn status(&self) -> (code: u16)
        ensures
            code == (if *self is Unauthorised { 401u16 } else { 500u16 }),
    {
        match self {
            UserExtractError::Unauthorised => 401,
            _ => 500,
        }
    }
}

/// The value of the session cookie, percent-decoded.
pub fn cookie_value(value: &str) -> (decoded: Result<String, Error>)
    ensures
        match decoded {
            Ok(text) => percent_decoded(value@) == Some(text@),
            Err(error) => percent_decoded(value@) is None && error == Error::Utf8,
        },
{
    match percent_decode(value) {
        Some(text) => Ok(text),
        None => Err(Error::Utf8),
    }
}

/// The value of the session cookie that came with a request,
/// percent-decoded; an error where none came.
pub fn session_cookie(cookie: Option<&str>) -> (decoded: Result<String, UserExtractError>)
    ensures
        match decoded {
            Ok(text) => cookie matches Some(value) && percent_decoded(value@) == Some(text@),
            Err(error) => match cookie {
                None => error == UserExtractError::UserCookie,
                Some(value) => percent_decoded(value@) is None && error
                    == UserExtractError::Utf8,
            },
        },
{
    match cookie {
        None => Err(UserExtractError::UserCookie),
        Some(value) => match percent_decode(value) {
            Some(text) => Ok(text),
            None => Err(UserExtractError::Utf8),
        },
    }
}

/// The user behind a session: the one registered under the key that the
/// session carries.
pub fn user_of_session(session: Result<UserKey, UserKeyError>, users: &UserDb) -> (result: Result<
    User,
    UserExtractError,
>)
    requires
        users.wf(),
    ensures
        match result {
            Ok(user) => session matches Ok(key) && users@.contains_key(key@) && users@[key@]
                == user@,
            Err(error) => match session {
                Ok(key) => !users@.contains_key(key@) && error == UserExtractError::Unauthorised,
                Err(missing) => error == UserExtractError::UserKey(missing),
            },
        },
{
    match session {
        Ok(key) => match users.get(&key) {
            Some(user) => Ok(user.clone()),
            None => Err(UserExtractError::Unauthorised),
        },
        Err(missing) => Err(UserExtractError::UserKey(missing)),
    }
}

/// What is known of the session that came with a sign-in callback.
#[derive(Debug, PartialEq, Eq, Structural, Clone, Copy)]
pub struct SessionState {
    pub destroyed: bool,
    pub expired: bool,
    /// The session carries the state of a sign-in that was begun.
    pub has_login: bool,
}

/// What to do with a sign-in callback.
#[derive(Debug, PartialEq, Eq, Structural, Clone, Copy)]
pub enum CallbackStep {
    /// Destroy the session, drop its cookie and send to the sign-in page.
    StartOver,
    /// There is no session: drop the cookie, if any, and send to the front page.
    Home,
    /// Complete the sign-in.
    Complete,
}

/// Decides what to do with a sign-in callback, given the session that came
/// with it: only a live session of a sign-in that was begun is completed.
pub fn callback_step(session: Option<SessionState>) -> (step: CallbackStep)
    ensures
        step == match session {
            None => CallbackStep::Home,
            Some(s) => if s.destroyed || s.expired || !s.has_login {
                CallbackStep::StartOver
            } else {
                CallbackStep::Complete
            },
        },
{
    match session {
        None => CallbackStep::Home,
        Some(s) => {
            if s.destroyed || s.expired {
                return CallbackStep::StartOver;
            }
            if !s.has_login {
                return CallbackStep::StartOver;
            }
            CallbackStep::Complete
        },
    }
}

/// The address that the identity provider sends back to, for the client
/// with id `client_id`.
pub fn redirect_uri(client_id: &str) -> (uri: String)
    ensures
        uri@ == client_id@ + "/meta/login-callback"@,
{
    let mut uri: String = crate::text::owned(client_id);
    uri.append("/meta/login-callback");
    uri
}

/// The first of the endpoints that discovery found.
fn first_endpoint(found: &Option<Vec<String>>) -> (first: Option<String>)
    ensures
        match first {
            Some(endpoint) => found matches Some(list) && list@.len() > 0 && endpoint@
                == list@[0]@,
            None => found matches Some(list) ==> list@.len() == 0,
        },
{
    match found {
        Some(list) => {
            if list.len() > 0 {
                Some(list[0].clone())
            } else {
                None
            }
        },
        None => None,
    }
}

/// The authorisation endpoint to use: the first that discovery found.
pub fn authorization_endpoint(found: &Option<Vec<String>>) -> (result: Result<String, Error>)
    ensures
        match result {
            Ok(endpoint) => found matches Some(list) && list@.len() > 0 && endpoint@
                == list@[0]@,
            Err(error) => error == Error::MissingAuthEndpoint && (found matches Some(list)
                ==> list@.len() == 0),
        },
{
    match first_endpoint(found) {
        Some(endpoint) => Ok(endpoint),
        None => Err(Error::MissingAuthEndpoint),
    }
}

/// The token endpoint to use: the first that discovery found.
pub fn token_endpoint(found: &Option<Vec<String>>) -> (result: Result<String, Error>)
    ensures
        match result {
            Ok(endpoint) => found matches Some(list) && list@.len() > 0 && endpoint@
                == list@[0]@,
            Err(error) => error == Error::MissingTokenEndpoint && (found matches Some(list)
                ==> list@.len() == 0),
        },
{
    match first_endpoint(found) {
        Some(endpoint) => Ok(endpoint),
        None => Err(Error::MissingTokenEndpoint),
    }
}

/// What a profile says of the person who signed in.
#[derive(Debug, PartialEq, Eq)]
pub struct Profile {
    pub email: Option<String>,
    pub name: Option<String>,
    pub url: Option<String>,
}

/// The user that a complete profile stands for: whoever is registered under
/// its email, under the profile's name and address, or else a new user who
/// is not approved and holds no role.
pub open spec fn signed_in(
    users: Map<Seq<char>, UserView>,
    email: Seq<char>,
    name: Seq<char>,
    url: Seq<char>,
) -> UserView {
    if users.contains_key(email) {
        UserView { name, email, url, approved: users[email].approved, roles: users[email].roles }
    } else {
        UserView { name, email, url, approved: false, roles: Seq::empty() }
    }
}

/// Registers whoever signed in with `profile`, and says whether the
/// registry changed by it. A profile without email, name or address is
/// refused, for the first of them that is missing, and changes nothing.
pub fn sign_in(users: &mut UserDb, profile: Profile) -> (result: Result<(User, bool), Error>)
    requires
        old(users).wf(),
    ensures
        final(users).wf(),
        match result {
            Ok((user, changed)) => {
                &&& profile.email matches Some(email)
                &&& profile.name matches Some(name)
                &&& profile.url matches Some(url)
                &&& user@ == signed_in(old(users)@, email@, name@, url@)
                &&& final(users)@ == old(users)@.insert(email@, user@)
                &&& changed == (final(users)@ != old(users)@)
            },
            Err(error) => {
                &&& final(users)@ == old(users)@
                &&& error == (if profile.email is None {
                    Error::MissingField(Field::Email)
                } else if profile.name is None {
                    Error::MissingField(Field::Name)
                } else {
                    Error::MissingField(Field::Url)
                })
                &&& profile.email is None || profile.name is None || profile.url is None
            },
        },
{
    let email: String = match profile.email {
        Some(email) => email,
        None => {
            return Err(Error::MissingField(Field::Email));
        },
    };
    let name: String = match profile.name {
        Some(name) => name,
        None => {
            return Err(Error::MissingField(Field::Name));
        },
    };
    let url: String = match profile.url {
        Some(url) => url,
        None => {
            return Err(Error::MissingField(Field::Url));
        },
    };
    let key = UserKey::new(email.clone());
    let ghost before = users@;
    let (user, changed): (User, bool) = match users.get(&key) {
        Some(known) => {
            let user = User {
                name,
                email,
                url,
                approved: known.approved,
                roles: known.clone().roles,
            };
            let changed: bool = !user.same(known);
            (user, changed)
        },
        None => (User { name, email, url, approved: false, roles: Vec::new() }, true),
    };
    if changed {
        users.set(user.clone());
        proof {
            if before.contains_key(user.email@) {
                assert(users@[user.email@] != before[user.email@]);
            } else {
                assert(users@.contains_key(user.email@));
            }
        }
    } else {
        assert(before.insert(user.email@, user@) =~= before);
    }
    Ok((user, changed))
}

} // verus!
