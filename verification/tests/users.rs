use gitalite::auth::{sign_in, user_of_session, Error, Field, Profile, UserExtractError};
use gitalite::config::InitialUser;
use gitalite::error::ErrorPage;
use gitalite::role::{Is, Role};
use gitalite::user::{User, UserDb, UserKey, UserKeyError};

fn user(name: &str, email: &str) -> User {
    User {
        name: name.to_string(),
        email: email.to_string(),
        url: format!("https://{name}.example.org/"),
        approved: false,
        roles: vec![],
    }
}

fn key(email: &str) -> UserKey {
    UserKey::new(email.to_string())
}

fn profile(email: Option<&str>, name: Option<&str>, url: Option<&str>) -> Profile {
    Profile {
        email: email.map(|s| s.to_string()),
        name: name.map(|s| s.to_string()),
        url: url.map(|s| s.to_string()),
    }
}

#[test]
fn key_gives_its_email() {
    assert_eq!(key("ada@example.org").email(), "ada@example.org");
    assert_eq!(user("ada", "ada@example.org").key(), key("ada@example.org"));
}

#[test]
fn empty_registry_knows_nobody() {
    let users = UserDb::new();
    assert_eq!(users.get(&key("ada@example.org")), None);
    assert!(users.entries().is_empty());
}

#[test]
fn set_then_get_gives_the_user() {
    let mut users = UserDb::new();
    users.set(user("ada", "ada@example.org"));
    users.set(user("bob", "bob@example.org"));
    assert_eq!(users.get(&key("ada@example.org")), Some(&user("ada", "ada@example.org")));
    assert_eq!(users.get(&key("bob@example.org")), Some(&user("bob", "bob@example.org")));
    assert_eq!(users.get(&key("eve@example.org")), None);
}

#[test]
fn set_replaces_the_user_under_the_same_email() {
    let mut users = UserDb::new();
    users.set(user("ada", "ada@example.org"));
    users.set(user("bob", "bob@example.org"));
    users.set(user("countess", "ada@example.org"));
    assert_eq!(users.get(&key("ada@example.org")), Some(&user("countess", "ada@example.org")));
    assert_eq!(users.entries().len(), 2);
}

#[test]
fn fresh_registry_holds_the_initial_administrator() {
    let initial = InitialUser {
        name: "Root".to_string(),
        email: "root@example.org".to_string(),
        url: "https://example.org/".to_string(),
    };
    let users = UserDb::starting_with(&initial);
    assert_eq!(
        users.entries(),
        vec![User {
            name: "Root".to_string(),
            email: "root@example.org".to_string(),
            url: "https://example.org/".to_string(),
            approved: true,
            roles: vec![Role::Administrator],
        }]
    );
}

#[test]
fn users_are_compared_field_by_field() {
    let ada = user("ada", "ada@example.org");
    assert!(ada.same(&ada.clone()));
    let mut other = ada.clone();
    other.approved = true;
    assert!(!ada.same(&other));
    let mut admin = ada.clone();
    admin.roles.push(Role::Administrator);
    assert!(!ada.same(&admin));
    assert!(admin.has_role(Role::Administrator));
    assert!(!ada.has_role(Role::Administrator));
}

#[test]
fn role_check_lets_holders_through() {
    let mut admin = user("ada", "ada@example.org");
    admin.roles.push(Role::Administrator);
    assert_eq!(Is::check(admin.clone(), Role::Administrator), Ok(Is(admin)));
    assert_eq!(
        Is::check(user("bob", "bob@example.org"), Role::Administrator),
        Err(gitalite::role::Error::Unauthorised(Role::Administrator))
    );
    assert_eq!(gitalite::role::Error::Unauthorised(Role::Administrator).status(), 401);
    assert_eq!(gitalite::role::Error::UserExtract(UserExtractError::UserCookie).status(), 500);
}

#[test]
fn session_without_key_or_user_is_turned_away() {
    let mut users = UserDb::new();
    users.set(user("ada", "ada@example.org"));
    assert_eq!(user_of_session(Ok(key("ada@example.org")), &users), Ok(user("ada", "ada@example.org")));
    assert_eq!(user_of_session(Ok(key("bob@example.org")), &users), Err(UserExtractError::Unauthorised));
    assert_eq!(user_of_session(Err(UserKeyError), &users), Err(UserExtractError::UserKey(UserKeyError)));
    assert_eq!(UserExtractError::Unauthorised.status(), 401);
    assert_eq!(UserExtractError::UserCookie.status(), 500);
    assert_eq!(UserExtractError::Utf8.status(), 500);
    assert_eq!(UserKeyError.message(), "Session doesn't contain `data` key.");
}

#[test]
fn first_sign_in_registers_an_unapproved_user() {
    let mut users = UserDb::new();
    let result = sign_in(&mut users, profile(Some("ada@example.org"), Some("Ada"), Some("https://ada/")));
    let expected = User {
        name: "Ada".to_string(),
        email: "ada@example.org".to_string(),
        url: "https://ada/".to_string(),
        approved: false,
        roles: vec![],
    };
    assert_eq!(result, Ok((expected.clone(), true)));
    assert_eq!(users.get(&key("ada@example.org")), Some(&expected));
}

#[test]
fn later_sign_in_updates_name_and_address_only() {
    let mut users = UserDb::new();
    let mut known = user("ada", "ada@example.org");
    known.approved = true;
    known.roles.push(Role::Administrator);
    users.set(known.clone());

    let same = sign_in(&mut users, profile(Some("ada@example.org"), Some("ada"), Some("https://ada.example.org/")));
    assert_eq!(same, Ok((known.clone(), false)));

    let renamed = sign_in(&mut users, profile(Some("ada@example.org"), Some("Ada L."), Some("https://new/")));
    let expected = User {
        name: "Ada L.".to_string(),
        email: "ada@example.org".to_string(),
        url: "https://new/".to_string(),
        approved: true,
        roles: vec![Role::Administrator],
    };
    assert_eq!(renamed, Ok((expected.clone(), true)));
    assert_eq!(users.get(&key("ada@example.org")), Some(&expected));
    assert_eq!(users.entries().len(), 1);
}

#[test]
fn incomplete_profile_names_the_first_missing_field() {
    let mut users = UserDb::new();
    assert_eq!(sign_in(&mut users, profile(None, None, None)), Err(Error::MissingField(Field::Email)));
    assert_eq!(sign_in(&mut users, profile(Some("a@b"), None, None)), Err(Error::MissingField(Field::Name)));
    assert_eq!(sign_in(&mut users, profile(Some("a@b"), Some("A"), None)), Err(Error::MissingField(Field::Url)));
    assert_eq!(sign_in(&mut users, profile(None, Some("A"), Some("u"))), Err(Error::MissingField(Field::Email)));
    assert!(users.entries().is_empty());
    assert_eq!(Field::Email.name(), "email");
    assert_eq!(Field::Name.name(), "name");
    assert_eq!(Field::Url.name(), "url");
    assert_eq!(Error::MissingField(Field::Url).status(), 400);
}

#[test]
fn unreadable_error_query_is_unknown() {
    assert_eq!(ErrorPage::from_query(None), ErrorPage::Unknown);
    assert_eq!(
        ErrorPage::from_query(Some(ErrorPage::ReservedPage { url: "/meta/x".to_string() })),
        ErrorPage::ReservedPage { url: "/meta/x".to_string() }
    );
}
