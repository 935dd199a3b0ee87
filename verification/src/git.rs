use vstd::prelude::*;
use vstd::string::*;
use vstd::utf8::{encode_utf8, valid_utf8};
use crate::config;
use crate::date::{format_timestamp, rfc3339_utc};
use crate::history;
use crate::history::{commit_views, file_history_of, raw_views, user_history_of};
use crate::oid::{oid_of, parse_oid};
use crate::utf8::text_from_utf8;
use crate::text::{copy_list, copy_optional, owned, text_of, texts_of};
use crate::user::{User, UserDb, UserKey, UserView};

verus! {

/// The kind of subsystem a repository failure came from, as far as the
/// store's decisions read it.
#[derive(Debug, PartialEq, Eq, Structural, Clone, Copy)]
pub enum ErrorClass {
    Os,
    Repository,
    Other,
}

/// What went wrong in a repository operation, as far as the store's
/// decisions read it.
#[derive(Debug, PartialEq, Eq, Structural, Clone, Copy)]
pub enum ErrorCode {
    NotFound,
    GenericError,
    Other,
}

/// A failed repository operation.
#[derive(Debug, PartialEq, Eq)]
pub struct GitFailure {
    pub class: ErrorClass,
    pub code: ErrorCode,
    pub message: String,
}

pub struct GitFailureView {
    pub class: ErrorClass,
    pub code: ErrorCode,
    pub message: Seq<char>,
}

impl View for GitFailure {
    type V = GitFailureView;

    open spec fn view(&self) -> GitFailureView {
        GitFailureView { class: self.class, code: self.code, message: self.message@ }
    }
}

impl Clone for GitFailure {
    fn clone(&self) -> (copy: GitFailure)
        ensures
            copy@ == self@,
    {
        GitFailure { class: self.class, code: self.code, message: self.message.clone() }
    }
}

/// Why a repository-level request failed.
#[derive(Debug, PartialEq, Eq)]
pub enum Error {
    /// A repository operation failed.
    Git(GitFailure),
    /// A file's bytes at some revision are not UTF-8 text.
    Utf8,
    /// The commit with this hash has a time that no RFC 3339 date expresses.
    Date { hash: String },
}

pub enum ErrorView {
    Git(GitFailureView),
    Utf8,
    Date { hash: Seq<char> },
}

impl View for Error {
    type V = ErrorView;

    open spec fn view(&self) -> ErrorView {
        match self {
            Error::Git(failure) => ErrorView::Git(failure@),
            Error::Utf8 => ErrorView::Utf8,
            Error::Date { hash } => ErrorView::Date { hash: hash@ },
        }
    }
}

impl Clone for Error {
    fn clone(&self) -> (copy: Error)
        ensures
            copy@ == self@,
    {
        match self {
            Error::Git(failure) => Error::Git(failure.clone()),
            Error::Utf8 => Error::Utf8,
            Error::Date { hash } => Error::Date { hash: hash.clone() },
        }
    }
}

/// The identity that a commit records: a name and an email, either of which
/// may be missing.
#[derive(Debug, PartialEq, Eq)]
pub struct Signature {
    pub name: Option<String>,
    pub email: Option<String>,
}

pub struct SignatureView {
    pub name: Option<Seq<char>>,
    pub email: Option<Seq<char>>,
}

impl View for Signature {
    type V = SignatureView;

    open spec fn view(&self) -> SignatureView {
        SignatureView { name: text_of(self.name), email: text_of(self.email) }
    }
}

/// Who wrote a commit: a registered user, or the bare signature where the
/// registry knows nobody by that email.
#[derive(Debug, PartialEq, Eq)]
pub enum Author {
    User(User),
    NonUser { name: String, email: Option<String> },
}

pub enum AuthorView {
    User(UserView),
    NonUser { name: Seq<char>, email: Option<Seq<char>> },
}

impl View for Author {
    type V = AuthorView;

    open spec fn view(&self) -> AuthorView {
        match self {
            Author::User(user) => AuthorView::User(user@),
            Author::NonUser { name, email } => AuthorView::NonUser {
                name: name@,
                email: text_of(*email),
            },
        }
    }
}

/// The name given to an author whose signature carries none.
pub open spec fn unknown_name() -> Seq<char> {
    "Unknown"@
}

/// The author that a signature stands for, given the registry as it is now.
pub open spec fn resolve(signature: SignatureView, users: Map<Seq<char>, UserView>) -> AuthorView {
    if signature.email is Some && users.contains_key(signature.email.unwrap()) {
        AuthorView::User(users[signature.email.unwrap()])
    } else {
        AuthorView::NonUser {
            name: match signature.name {
                Some(name) => name,
                None => unknown_name(),
            },
            email: signature.email,
        }
    }
}

/// The email of an author, where there is one.
pub open spec fn author_email(author: AuthorView) -> Option<Seq<char>> {
    match author {
        AuthorView::User(user) => Some(user.email),
        AuthorView::NonUser { email, .. } => email,
    }
}

impl Author {
    /// Looks the signature's email up in the registry. A match gives a copy
    /// of the registered user; anything else gives the signature as it is,
    /// under the name "Unknown" where it has none.
    pub fn from_signature(signature: &Signature, users: &UserDb) -> (author: Author)
        requires
            users.wf(),
        ensures
            author@ == resolve(signature@, users@),
    {
        match &signature.email {
            Some(email) => {
                let key = UserKey::new(email.clone());
                match users.get(&key) {
                    Some(user) => {
                        return Author::User(user.clone());
                    },
                    None => {},
                }
            },
            None => {},
        }
        let name: String = match &signature.name {
            Some(name) => name.clone(),
            None => owned("Unknown"),
        };
        Author::NonUser { name, email: copy_optional(&signature.email) }
    }

    pub fn email(&self) -> (email: Option<&str>)
        ensures
            match email {
                Some(e) => author_email(self@) == Some(e@),
                None => author_email(self@) is None,
            },
    {
        match self {
            Author::User(user) => Some(user.email.as_str()),
            Author::NonUser { email, .. } => match email {
                Some(e) => Some(e.as_str()),
                None => None,
            },
        }
    }
}

/// A commit as the repository hands it out, before any decision is taken
/// on it.
#[derive(Debug, PartialEq, Eq)]
pub struct RawCommit {
    /// The full commit hash.
    pub id: String,
    /// The commit time, in seconds since the Unix epoch.
    pub seconds: i64,
    pub message: String,
    pub author: Signature,
    /// How many parents the commit has.
    pub parents: usize,
    /// The paths on the new side of the diff against the first parent, in
    /// the diff's order. Read only where there is a parent.
    pub changed: Vec<String>,
}

pub struct RawCommitView {
    pub id: Seq<char>,
    pub seconds: i64,
    pub message: Seq<char>,
    pub author: SignatureView,
    pub parents: nat,
    pub changed: Seq<Seq<char>>,
}

impl View for RawCommit {
    type V = RawCommitView;

    open spec fn view(&self) -> RawCommitView {
        RawCommitView {
            id: self.id@,
            seconds: self.seconds,
            message: self.message@,
            author: self.author@,
            parents: self.parents as nat,
            changed: texts_of(self.changed@),
        }
    }
}

/// One entry of a history listing.
#[derive(Debug, PartialEq, Eq)]
pub struct Commit {
    pub author: Author,
    pub hash: String,
    pub date: String,
    pub message: String,
    pub files: Vec<String>,
}

pub struct CommitView {
    pub author: AuthorView,
    pub hash: Seq<char>,
    pub date: Seq<char>,
    pub message: Seq<char>,
    pub files: Seq<Seq<char>>,
}

impl View for Commit {
    type V = CommitView;

    open spec fn view(&self) -> CommitView {
        CommitView {
            author: self.author@,
            hash: self.hash@,
            date: self.date@,
            message: self.message@,
            files: texts_of(self.files@),
        }
    }
}

/// The files a commit touched: none for a commit without a parent, else the
/// paths of its diff against the first parent.
pub open spec fn touched(raw: RawCommitView) -> Seq<Seq<char>> {
    if raw.parents == 0 {
        Seq::empty()
    } else {
        raw.changed
    }
}

/// The history entry for `raw`, dated `date`.
pub open spec fn entry(raw: RawCommitView, date: Seq<char>, users: Map<Seq<char>, UserView>) -> CommitView {
    CommitView {
        author: resolve(raw.author, users),
        hash: raw.id,
        date,
        message: raw.message,
        files: touched(raw),
    }
}

/// The history entry for `raw`, where its commit time can be written as an
/// RFC 3339 date.
pub open spec fn materialize(raw: RawCommitView, users: Map<Seq<char>, UserView>) -> Option<
    CommitView,
> {
    match rfc3339_utc(raw.seconds) {
        Some(date) => Some(entry(raw, date, users)),
        None => None,
    }
}

impl Commit {
    /// Builds the history entry for `raw` from its formatted commit time.
    pub fn assemble(raw: &RawCommit, date: String, users: &UserDb) -> (commit: Commit)
        requires
            users.wf(),
        ensures
            commit@ == entry(raw@, date@, users@),
    {
        let files: Vec<String> = if raw.parents == 0 {
            Vec::new()
        } else {
            copy_list(&raw.changed)
        };
        proof {
            assert(texts_of(files@) =~= touched(raw@));
        }
        Commit {
            author: Author::from_signature(&raw.author, users),
            hash: raw.id.clone(),
            date,
            message: raw.message.clone(),
            files,
        }
    }

    /// Builds the history entry for `raw`; `None` exactly where its commit
    /// time has no RFC 3339 form.
    pub fn from_raw(raw: &RawCommit, users: &UserDb) -> (commit: Option<Commit>)
        requires
            users.wf(),
        ensures
            match commit {
                Some(c) => materialize(raw@, users@) == Some(c@),
                None => materialize(raw@, users@) is None,
            },
    {
        match format_timestamp(raw.seconds) {
            Some(date) => Some(Commit::assemble(raw, date, users)),
            None => None,
        }
    }
}

/// The versioned store behind the pages: the working tree's root and the
/// remote it is synchronised with.
#[derive(Debug, PartialEq, Eq)]
pub struct Git {
    pub pages_directory: String,
    pub remote: config::Git,
}

/// What follows an attempt to open the repository at the pages' directory.
#[derive(Debug, PartialEq, Eq)]
pub enum Opening {
    /// The repository is there and open.
    Opened,
    /// No repository is there: clone it from `url` into `into`.
    Clone { url: String, into: String },
    /// The attempt failed for good.
    Failed(Error),
}

pub enum OpeningView {
    Opened,
    Clone { url: Seq<char>, into: Seq<char> },
    Failed(ErrorView),
}

impl View for Opening {
    type V = OpeningView;

    open spec fn view(&self) -> OpeningView {
        match self {
            Opening::Opened => OpeningView::Opened,
            Opening::Clone { url, into } => OpeningView::Clone { url: url@, into: into@ },
            Opening::Failed(error) => OpeningView::Failed(error@),
        }
    }
}

/// A commit that is to be written.
#[derive(Debug, PartialEq, Eq)]
pub struct CommitRequest {
    /// The reference that is moved to the new commit.
    pub update_ref: String,
    pub author: Signature,
    pub committer: Signature,
    pub message: String,
    /// The hashes of the new commit's parents.
    pub parents: Vec<String>,
}

pub struct CommitRequestView {
    pub update_ref: Seq<char>,
    pub author: SignatureView,
    pub committer: SignatureView,
    pub message: Seq<char>,
    pub parents: Seq<Seq<char>>,
}

impl View for CommitRequest {
    type V = CommitRequestView;

    open spec fn view(&self) -> CommitRequestView {
        CommitRequestView {
            update_ref: self.update_ref@,
            author: self.author@,
            committer: self.committer@,
            message: self.message@,
            parents: texts_of(self.parents@),
        }
    }
}

/// The failure reported where the branch has no commit to build on.
pub open spec fn no_commit() -> GitFailureView {
    GitFailureView {
        class: ErrorClass::Other,
        code: ErrorCode::GenericError,
        message: "Couldn't find commit"@,
    }
}

/// A failure that says that no repository, or nothing at all, is at the
/// place that was opened.
pub open spec fn nothing_there(failure: GitFailureView) -> bool {
    failure.code == ErrorCode::NotFound && (failure.class == ErrorClass::Os || failure.class
        == ErrorClass::Repository)
}

/// The refspec that pushes `branch` to the branch of the same name.
pub open spec fn refspec_of(branch: Seq<char>) -> Seq<char> {
    "refs/heads/"@ + branch + ":refs/heads/"@ + branch
}

/// The failure reported where `HEAD` names no branch.
pub open spec fn no_branch() -> GitFailureView {
    GitFailureView {
        class: ErrorClass::Repository,
        code: ErrorCode::NotFound,
        message: "reference 'HEAD' doesn't point to a branch?"@,
    }
}

impl Git {
    pub fn new(pages_directory: String, remote: config::Git) -> (git: Git)
        ensures
            git.pages_directory == pages_directory,
            git.remote == remote,
    {
        Git { pages_directory, remote }
    }

    /// Decides what follows an attempt to open the repository: an open
    /// repository is used as it is, a missing one is cloned from the remote,
    /// and any other failure is final.
    pub fn opening(&self, attempt: Result<(), GitFailure>) -> (next: Opening)
        ensures
            next@ == match attempt {
                Ok(_) => OpeningView::Opened,
                Err(failure) => if nothing_there(failure@) {
                    OpeningView::Clone { url: self.remote.repository@, into: self.pages_directory@ }
                } else {
                    OpeningView::Failed(ErrorView::Git(failure@))
                },
            },
    {
        match attempt {
            Ok(_) => Opening::Opened,
            Err(failure) => {
                let missing: bool = failure.code == ErrorCode::NotFound && (failure.class
                    == ErrorClass::Os || failure.class == ErrorClass::Repository);
                if missing {
                    Opening::Clone {
                        url: self.remote.repository.clone(),
                        into: self.pages_directory.clone(),
                    }
                } else {
                    Opening::Failed(Error::Git(failure))
                }
            },
        }
    }

    /// The commit that records the index under `subject` in the name of
    /// `user`: it moves `HEAD`, has `user` as author and as committer, and
    /// the branch's tip `tip` as its one parent. Fails where the branch has
    /// no commit yet.
    pub fn commit(&self, subject: &str, user: &User, tip: Option<String>) -> (request: Result<
        CommitRequest,
        Error,
    >)
        ensures
            match request {
                Ok(r) => tip matches Some(parent) && r@ == (CommitRequestView {
                    update_ref: "HEAD"@,
                    author: SignatureView { name: Some(user.name@), email: Some(user.email@) },
                    committer: SignatureView { name: Some(user.name@), email: Some(user.email@) },
                    message: subject@,
                    parents: seq![parent@],
                }),
                Err(error) => tip is None && error@ == ErrorView::Git(no_commit()),
            },
    {
        match tip {
            Some(parent) => {
                let mut parents: Vec<String> = Vec::new();
                parents.push(parent);
                assert(texts_of(parents@) =~= seq![parent@]);
                Ok(
                    CommitRequest {
                        update_ref: owned("HEAD"),
                        author: Signature {
                            name: Some(user.name.clone()),
                            email: Some(user.email.clone()),
                        },
                        committer: Signature {
                            name: Some(user.name.clone()),
                            email: Some(user.email.clone()),
                        },
                        message: owned(subject),
                        parents,
                    },
                )
            },
            None => Err(
                Error::Git(
                    GitFailure {
                        class: ErrorClass::Other,
                        code: ErrorCode::GenericError,
                        message: owned("Couldn't find commit"),
                    },
                ),
            ),
        }
    }

    /// The refspec to push to the remote `origin`, given the short name of
    /// the branch that `HEAD` resolves to; fails where it resolves to none.
    pub fn push(&self, branch: Option<&str>) -> (refspec: Result<String, Error>)
        ensures
            match refspec {
                Ok(spec) => branch matches Some(name) && spec@ == refspec_of(name@),
                Err(error) => branch is None && error@ == ErrorView::Git(no_branch()),
            },
    {
        match branch {
            Some(name) => {
                let mut spec: String = owned("refs/heads/");
                spec.append(name);
                spec.append(":refs/heads/");
                spec.append(name);
                Ok(spec)
            },
            None => Err(
                Error::Git(
                    GitFailure {
                        class: ErrorClass::Repository,
                        code: ErrorCode::NotFound,
                        message: owned("reference 'HEAD' doesn't point to a branch?"),
                    },
                ),
            ),
        }
    }

    /// Reads the remote's verdict on a pushed reference: a status message
    /// means that the update was rejected, and becomes the failure's text.
    pub fn push_update_reference(status: Option<String>) -> (verdict: Result<(), GitFailure>)
        ensures
            match verdict {
                Ok(_) => status is None,
                Err(failure) => status matches Some(message) && failure@ == (GitFailureView {
                    class: ErrorClass::Repository,
                    code: ErrorCode::GenericError,
                    message: message@,
                }),
            },
    {
        match status {
            Some(message) => Err(
                GitFailure {
                    class: ErrorClass::Repository,
                    code: ErrorCode::GenericError,
                    message,
                },
            ),
            None => Ok(()),
        }
    }

    /// Reads a revision as the id of a commit, written out in full. A text
    /// that spells no object id is an error of the repository.
    pub fn revision(&self, revision: &str) -> (id: Result<String, Error>)
        ensures
            match id {
                Ok(hex) => oid_of(revision@) == Some(hex@),
                Err(error) => oid_of(revision@) is None && error@ is Git,
            },
    {
        match parse_oid(revision) {
            Ok(hex) => Ok(hex),
            Err(failure) => Err(Error::Git(failure)),
        }
    }

    /// The text of a file's bytes at some revision. Bytes that are not
    /// UTF-8 are an error; nothing is replaced.
    pub fn get_file(&self, blob: Vec<u8>) -> (contents: Result<String, Error>)
        ensures
            match contents {
                Ok(text) => valid_utf8(blob@) && encode_utf8(text@) == blob@,
                Err(error) => !valid_utf8(blob@) && error@ == ErrorView::Utf8,
            },
    {
        match text_from_utf8(blob) {
            Some(text) => Ok(text),
            None => Err(Error::Utf8),
        }
    }

    /// The commits of `walk` that touched `path`, newest first as the walk
    /// is. `walk` is the traversal from the branch tip, sorted by time
    /// descending; `path` is relative to the pages' directory.
    pub fn file_history(&self, walk: &Vec<RawCommit>, path: &str, users: &UserDb) -> (result:
        Result<Vec<Commit>, Error>)
        requires
            users.wf(),
        ensures
            match result {
                Ok(list) => file_history_of(raw_views(walk@), path@, users@) == Ok::<
                    Seq<CommitView>,
                    Seq<char>,
                >(commit_views(list@)),
                Err(error) => error@ is Date && file_history_of(raw_views(walk@), path@, users@)
                    == Err::<Seq<CommitView>, Seq<char>>(error@->hash),
            },
    {
        history::file_history(walk, path, users)
    }

    /// The commits of `walk` written by the user under `user`, newest
    /// first, and no more than `limit` of them where a limit is given.
    pub fn user_history(
        &self,
        walk: &Vec<RawCommit>,
        user: &UserKey,
        limit: Option<usize>,
        users: &UserDb,
    ) -> (result: Result<Vec<Commit>, Error>)
        requires
            users.wf(),
        ensures
            match result {
                Ok(list) => user_history_of(raw_views(walk@), user@, limit, users@) == Ok::<
                    Seq<CommitView>,
                    Seq<char>,
                >(commit_views(list@)),
                Err(error) => error@ is Date && user_history_of(
                    raw_views(walk@),
                    user@,
                    limit,
                    users@,
                ) == Err::<Seq<CommitView>, Seq<char>>(error@->hash),
            },
    {
        history::user_history(walk, user, limit, users)
    }
}

} // verus!
