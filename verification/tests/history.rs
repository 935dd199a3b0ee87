use gitalite::git::{Author, Commit, Error, Git, RawCommit, Signature};
use gitalite::history::AuthorWalk;
use gitalite::role::Role;
use gitalite::user::{User, UserDb, UserKey};

fn store() -> Git {
    Git::new(
        "/srv/wiki".to_string(),
        gitalite::config::Git {
            repository: "git@example.org:wiki.git".to_string(),
            private_key: "/keys/id".to_string(),
            public_key: None,
        },
    )
}

fn ada() -> User {
    User {
        name: "Ada".to_string(),
        email: "ada@example.org".to_string(),
        url: "https://ada.example.org/".to_string(),
        approved: true,
        roles: vec![Role::Administrator],
    }
}

fn registry() -> UserDb {
    let mut users = UserDb::new();
    users.set(ada());
    users
}

fn raw(id: &str, seconds: i64, message: &str, email: Option<&str>, parents: usize, changed: &[&str]) -> RawCommit {
    RawCommit {
        id: id.to_string(),
        seconds,
        message: message.to_string(),
        author: Signature { name: Some("Someone".to_string()), email: email.map(|e| e.to_string()) },
        parents,
        changed: changed.iter().map(|p| p.to_string()).collect(),
    }
}

fn walk() -> Vec<RawCommit> {
    vec![
        raw("d4", 1_546_300_900, "[update] home", Some("ada@example.org"), 1, &["home.md"]),
        raw("c3", 1_546_300_860, "[create] notes/home", Some("bob@example.org"), 1, &["notes/home.md", "home.md.bak"]),
        raw("b2", 1_546_300_860, "[update] home", Some("bob@example.org"), 1, &["about.md", "home.md"]),
        raw("a1", 1_546_300_800, "initial", Some("ada@example.org"), 0, &["home.md"]),
    ]
}

#[test]
fn registered_email_resolves_to_the_user() {
    let signature = Signature { name: Some("A. L.".to_string()), email: Some("ada@example.org".to_string()) };
    assert_eq!(Author::from_signature(&signature, &registry()), Author::User(ada()));
}

#[test]
fn unregistered_email_keeps_the_signature() {
    let signature = Signature { name: Some("Bob".to_string()), email: Some("bob@example.org".to_string()) };
    assert_eq!(
        Author::from_signature(&signature, &registry()),
        Author::NonUser { name: "Bob".to_string(), email: Some("bob@example.org".to_string()) }
    );
}

#[test]
fn signature_without_name_or_email_is_unknown() {
    let signature = Signature { name: None, email: None };
    assert_eq!(
        Author::from_signature(&signature, &registry()),
        Author::NonUser { name: "Unknown".to_string(), email: None }
    );
}

#[test]
fn email_match_is_exact() {
    let signature = Signature { name: Some("Ada".to_string()), email: Some("Ada@example.org".to_string()) };
    assert_eq!(
        Author::from_signature(&signature, &registry()),
        Author::NonUser { name: "Ada".to_string(), email: Some("Ada@example.org".to_string()) }
    );
}

#[test]
fn author_email_of_both_kinds() {
    assert_eq!(Author::User(ada()).email(), Some("ada@example.org"));
    assert_eq!(Author::NonUser { name: "x".to_string(), email: None }.email(), None);
    assert_eq!(
        Author::NonUser { name: "x".to_string(), email: Some("x@y".to_string()) }.email(),
        Some("x@y")
    );
}

#[test]
fn resolution_follows_the_registry_as_it_is() {
    let signature = Signature { name: Some("Bob".to_string()), email: Some("bob@example.org".to_string()) };
    let mut users = registry();
    assert!(matches!(Author::from_signature(&signature, &users), Author::NonUser { .. }));
    let bob = User {
        name: "Robert".to_string(),
        email: "bob@example.org".to_string(),
        url: "https://bob.example.org/".to_string(),
        approved: false,
        roles: vec![],
    };
    users.set(bob.clone());
    assert_eq!(Author::from_signature(&signature, &users), Author::User(bob));
}

#[test]
fn entry_carries_an_rfc3339_date() {
    let commit = Commit::from_raw(&walk()[3], &registry()).unwrap();
    assert_eq!(commit.date, "2019-01-01T00:00:00Z");
    assert_eq!(commit.hash, "a1");
    assert_eq!(commit.message, "initial");
    assert_eq!(commit.author, Author::User(ada()));
}

#[test]
fn epoch_is_formatted_in_utc() {
    let commit = Commit::from_raw(&raw("e", 0, "m", None, 0, &[]), &registry()).unwrap();
    assert_eq!(commit.date, "1970-01-01T00:00:00Z");
    let later = Commit::from_raw(&raw("e", 86_399, "m", None, 0, &[]), &registry()).unwrap();
    assert_eq!(later.date, "1970-01-01T23:59:59Z");
}

#[test]
fn time_without_a_date_gives_no_entry() {
    assert_eq!(Commit::from_raw(&raw("e", i64::MAX, "m", None, 0, &[]), &registry()), None);
    assert_eq!(Commit::from_raw(&raw("e", i64::MIN, "m", None, 0, &[]), &registry()), None);
}

#[test]
fn assemble_takes_the_date_as_given() {
    let commit = Commit::assemble(&walk()[0], "today".to_string(), &registry());
    assert_eq!(
        commit,
        Commit {
            author: Author::User(ada()),
            hash: "d4".to_string(),
            date: "today".to_string(),
            message: "[update] home".to_string(),
            files: vec!["home.md".to_string()],
        }
    );
}

#[test]
fn root_commit_touches_nothing() {
    let commit = Commit::from_raw(&walk()[3], &registry()).unwrap();
    assert!(commit.files.is_empty());
}

#[test]
fn file_history_keeps_exact_path_matches_in_walk_order() {
    let history = store().file_history(&walk(), "home.md", &registry()).unwrap();
    let hashes: Vec<&str> = history.iter().map(|c| c.hash.as_str()).collect();
    assert_eq!(hashes, vec!["d4", "b2"]);
    assert_eq!(history[0].message, "[update] home");
    assert_eq!(history[0].date, "2019-01-01T00:01:40Z");
    assert_eq!(history[1].date, "2019-01-01T00:01:00Z");
    assert_eq!(history[1].files, vec!["about.md".to_string(), "home.md".to_string()]);
}

#[test]
fn file_history_dates_never_increase() {
    let history = store().file_history(&walk(), "home.md", &registry()).unwrap();
    for pair in history.windows(2) {
        assert!(pair[0].date >= pair[1].date);
    }
}

#[test]
fn file_history_does_not_match_prefixes() {
    let history = store().file_history(&walk(), "home", &registry()).unwrap();
    assert!(history.is_empty());
    let nested = store().file_history(&walk(), "notes/home.md", &registry()).unwrap();
    assert_eq!(nested.len(), 1);
    assert_eq!(nested[0].hash, "c3");
}

#[test]
fn file_history_of_an_empty_walk_is_empty() {
    assert_eq!(store().file_history(&vec![], "home.md", &registry()), Ok(vec![]));
}

#[test]
fn file_history_resolves_unregistered_authors() {
    let history = store().file_history(&walk(), "home.md", &registry()).unwrap();
    assert_eq!(
        history[1].author,
        Author::NonUser { name: "Someone".to_string(), email: Some("bob@example.org".to_string()) }
    );
}

#[test]
fn file_history_fails_on_the_first_undatable_commit() {
    let mut commits = walk();
    commits.insert(1, raw("bad", i64::MAX, "m", None, 1, &["other.md"]));
    commits.push(raw("worse", i64::MIN, "m", None, 1, &["home.md"]));
    assert_eq!(
        store().file_history(&commits, "home.md", &registry()),
        Err(Error::Date { hash: "bad".to_string() })
    );
}

#[test]
fn user_history_keeps_the_author_s_commits() {
    let key = UserKey::new("ada@example.org".to_string());
    let history = store().user_history(&walk(), &key, None, &registry()).unwrap();
    let hashes: Vec<&str> = history.iter().map(|c| c.hash.as_str()).collect();
    assert_eq!(hashes, vec!["d4", "a1"]);
    for commit in &history {
        assert_eq!(commit.author.email(), Some("ada@example.org"));
    }
}

#[test]
fn user_history_stops_at_the_limit() {
    let key = UserKey::new("bob@example.org".to_string());
    let one = store().user_history(&walk(), &key, Some(1), &registry()).unwrap();
    assert_eq!(one.len(), 1);
    assert_eq!(one[0].hash, "c3");
    let many = store().user_history(&walk(), &key, Some(10), &registry()).unwrap();
    assert_eq!(many.len(), 2);
    let none = store().user_history(&walk(), &key, Some(0), &registry()).unwrap();
    assert!(none.is_empty());
}

#[test]
fn user_history_does_not_visit_past_the_limit() {
    let mut commits = walk();
    commits.push(raw("bad", i64::MAX, "m", None, 1, &[]));
    let key = UserKey::new("ada@example.org".to_string());
    let limited = store().user_history(&commits, &key, Some(2), &registry()).unwrap();
    assert_eq!(limited.len(), 2);
    assert_eq!(
        store().user_history(&commits, &key, Some(3), &registry()),
        Err(Error::Date { hash: "bad".to_string() })
    );
    assert_eq!(
        store().user_history(&commits, &key, None, &registry()),
        Err(Error::Date { hash: "bad".to_string() })
    );
}

#[test]
fn user_history_of_a_stranger_is_empty() {
    let key = UserKey::new("nobody@example.org".to_string());
    assert_eq!(store().user_history(&walk(), &key, Some(10), &registry()), Ok(vec![]));
}

#[test]
fn author_walk_takes_commits_one_by_one() {
    let key = UserKey::new("bob@example.org".to_string());
    let users = registry();
    let commits = walk();
    let mut listing = AuthorWalk::new(&key, Some(1));
    assert!(!listing.is_full());
    assert_eq!(listing.visit(&commits[0], &users), Ok(()));
    assert!(listing.kept.is_empty());
    assert_eq!(listing.visit(&commits[1], &users), Ok(()));
    assert!(listing.is_full());
    assert_eq!(listing.visit(&commits[2], &users), Ok(()));
    assert_eq!(listing.visit(&raw("bad", i64::MAX, "m", None, 1, &[]), &users), Ok(()));
    let kept = listing.finish();
    assert_eq!(kept.len(), 1);
    assert_eq!(kept[0].hash, "c3");
}

#[test]
fn author_walk_reports_an_undatable_commit_and_keeps_its_entries() {
    let key = UserKey::new("ada@example.org".to_string());
    let users = registry();
    let mut listing = AuthorWalk::new(&key, None);
    assert_eq!(listing.visit(&walk()[0], &users), Ok(()));
    assert_eq!(
        listing.visit(&raw("bad", i64::MIN, "m", Some("ada@example.org"), 1, &[]), &users),
        Err(Error::Date { hash: "bad".to_string() })
    );
    assert!(!listing.is_full());
    assert_eq!(listing.finish().len(), 1);
}
