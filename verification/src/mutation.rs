use vstd::prelude::*;
use vstd::string::*;
use crate::page::{create_message, relative_to, update_message, Error, ErrorView, Page};
use crate::pandoc::Format;
use crate::text::{is_prefix, owned, text_of};
use crate::git::{touched, RawCommitView};
use crate::history::{file_history_begins_with_newest, file_history_of};
use crate::user::{User, UserView};

verus! {

/// Whether a mutation makes a new page or edits one that exists.
#[derive(Debug, Clone, Copy, PartialEq, Eq, Structural)]
pub enum Kind {
    Create,
    Update,
}

/// Where a mutation stands: the step whose outcome it waits for, or how it
/// ended.
#[derive(Debug, PartialEq, Eq)]
pub enum Step {
    Rendering,
    Reading,
    Writing,
    Staging,
    Committing,
    Pushing,
    /// Recording failed with `cause`; the file is being put back.
    Restoring { cause: Error },
    /// The edit is committed and pushed.
    Committed,
    /// The mutation failed with `cause`.
    RolledBack { cause: Error },
}

pub enum StepView {
    Rendering,
    Reading,
    Writing,
    Staging,
    Committing,
    Pushing,
    Restoring { cause: ErrorView },
    Committed,
    RolledBack { cause: ErrorView },
}

impl View for Step {
    type V = StepView;

    open spec fn view(&self) -> StepView {
        match self {
            Step::Rendering => StepView::Rendering,
            Step::Reading => StepView::Reading,
            Step::Writing => StepView::Writing,
            Step::Staging => StepView::Staging,
            Step::Committing => StepView::Committing,
            Step::Pushing => StepView::Pushing,
            Step::Restoring { cause } => StepView::Restoring { cause: cause@ },
            Step::Committed => StepView::Committed,
            Step::RolledBack { cause } => StepView::RolledBack { cause: cause@ },
        }
    }
}

/// What the caller is to do next for a mutation.
#[derive(Debug, PartialEq, Eq)]
pub enum Action {
    /// Render `contents` in `format`, to see that it renders.
    Render { contents: String, format: Option<Format> },
    /// Read the file, whose contents are kept for a rollback.
    Read { filepath: String },
    /// Overwrite the file with the new contents.
    Write { filepath: String, contents: String },
    /// Overwrite the file with what it held before the mutation.
    Restore { filepath: String, contents: String },
    /// Add `path`, relative to the repository's root, to the index.
    Stage { path: String },
    /// Commit the index with `name` and `email` as author and committer.
    Commit { message: String, name: String, email: String },
    /// Push the current branch to the remote.
    Push,
    /// Nothing more: the mutation ended so.
    Finish(Result<(), Error>),
}

pub enum ActionView {
    Render { contents: Seq<char>, format: Option<Format> },
    Read { filepath: Seq<char> },
    Write { filepath: Seq<char>, contents: Seq<char> },
    Restore { filepath: Seq<char>, contents: Seq<char> },
    Stage { path: Seq<char> },
    Commit { message: Seq<char>, name: Seq<char>, email: Seq<char> },
    Push,
    Finish(Result<(), ErrorView>),
}

impl View for Action {
    type V = ActionView;

    open spec fn view(&self) -> ActionView {
        match self {
            Action::Render { contents, format } => ActionView::Render {
                contents: contents@,
                format: *format,
            },
            Action::Read { filepath } => ActionView::Read { filepath: filepath@ },
            Action::Write { filepath, contents } => ActionView::Write {
                filepath: filepath@,
                contents: contents@,
            },
            Action::Restore { filepath, contents } => ActionView::Restore {
                filepath: filepath@,
                contents: contents@,
            },
            Action::Stage { path } => ActionView::Stage { path: path@ },
            Action::Commit { message, name, email } => ActionView::Commit {
                message: message@,
                name: name@,
                email: email@,
            },
            Action::Push => ActionView::Push,
            Action::Finish(result) => ActionView::Finish(
                match result {
                    Ok(_) => Ok(()),
                    Err(error) => Err(error@),
                },
            ),
        }
    }
}

/// One creation or edit of a page on its way through validation, the write
/// to disk, the commit and the push.
#[derive(Debug, PartialEq, Eq)]
pub struct Mutation {
    pub kind: Kind,
    pub step: Step,
    pub filepath: String,
    pub contents: String,
    pub format: Option<Format>,
    /// The file's path relative to the repository's root, where it lies there.
    pub relative: Option<String>,
    pub message: String,
    pub name: String,
    pub email: String,
    /// What the file held before the write, once that has been read.
    pub previous: Option<String>,
}

pub struct MutationView {
    pub kind: Kind,
    pub step: StepView,
    pub filepath: Seq<char>,
    pub contents: Seq<char>,
    pub format: Option<Format>,
    pub relative: Option<Seq<char>>,
    pub message: Seq<char>,
    pub name: Seq<char>,
    pub email: Seq<char>,
    pub previous: Option<Seq<char>>,
}

impl View for Mutation {
    type V = MutationView;

    open spec fn view(&self) -> MutationView {
        MutationView {
            kind: self.kind,
            step: self.step@,
            filepath: self.filepath@,
            contents: self.contents@,
            format: self.format,
            relative: text_of(self.relative),
            message: self.message@,
            name: self.name@,
            email: self.email@,
            previous: text_of(self.previous),
        }
    }
}

/// What an action came to, as the caller reports it: the text read, for a
/// read, or the error.
pub open spec fn outcome_view(outcome: Result<String, Error>) -> Result<Seq<char>, ErrorView> {
    match outcome {
        Ok(text) => Ok(text@),
        Err(error) => Err(error@),
    }
}

/// A mutation as it begins, and the rendering that validates it.
pub open spec fn begin(
    kind: Kind,
    path: Seq<char>,
    filepath: Seq<char>,
    format: Option<Format>,
    contents: Seq<char>,
    name: Seq<char>,
    email: Seq<char>,
    pages_directory: Seq<char>,
) -> (MutationView, ActionView) {
    (
        MutationView {
            kind,
            step: StepView::Rendering,
            filepath,
            contents,
            format,
            relative: relative_to(filepath, pages_directory),
            message: match kind {
                Kind::Create => create_message(path),
                Kind::Update => update_message(path),
            },
            name,
            email,
            previous: None,
        },
        ActionView::Render { contents, format },
    )
}

/// The mutation ends with `cause`, and nothing is put back.
pub open spec fn fail(m: MutationView, cause: ErrorView) -> (MutationView, ActionView) {
    (MutationView { step: StepView::RolledBack { cause }, ..m }, ActionView::Finish(Err(cause)))
}

/// Recording failed with `cause` after the file was written: where the
/// file's earlier contents were kept they are put back, else the mutation
/// ends and the written file stays.
pub open spec fn fail_recording(m: MutationView, cause: ErrorView) -> (MutationView, ActionView) {
    match m.previous {
        Some(contents) => (
            MutationView { step: StepView::Restoring { cause }, ..m },
            ActionView::Restore { filepath: m.filepath, contents },
        ),
        None => fail(m, cause),
    }
}

/// The mutation after `outcome`, which is what its last action came to, and
/// the action that follows.
pub open spec fn advance_of(m: MutationView, outcome: Result<Seq<char>, ErrorView>) -> (
    MutationView,
    ActionView,
) {
    match m.step {
        StepView::Rendering => match outcome {
            Ok(_) => match m.kind {
                Kind::Update => (
                    MutationView { step: StepView::Reading, ..m },
                    ActionView::Read { filepath: m.filepath },
                ),
                Kind::Create => (
                    MutationView { step: StepView::Writing, ..m },
                    ActionView::Write { filepath: m.filepath, contents: m.contents },
                ),
            },
            Err(cause) => fail(m, cause),
        },
        StepView::Reading => match outcome {
            Ok(text) => (
                MutationView { step: StepView::Writing, previous: Some(text), ..m },
                ActionView::Write { filepath: m.filepath, contents: m.contents },
            ),
            Err(cause) => fail(m, cause),
        },
        StepView::Writing => match outcome {
            Ok(_) => match m.relative {
                Some(path) => (
                    MutationView { step: StepView::Staging, ..m },
                    ActionView::Stage { path },
                ),
                None => fail_recording(m, ErrorView::MakeRelativeError),
            },
            Err(cause) => fail(m, cause),
        },
        StepView::Staging => match outcome {
            Ok(_) => (
                MutationView { step: StepView::Committing, ..m },
                ActionView::Commit { message: m.message, name: m.name, email: m.email },
            ),
            Err(cause) => fail_recording(m, cause),
        },
        StepView::Committing => match outcome {
            Ok(_) => (MutationView { step: StepView::Pushing, ..m }, ActionView::Push),
            Err(cause) => fail_recording(m, cause),
        },
        StepView::Pushing => match outcome {
            Ok(_) => (
                MutationView { step: StepView::Committed, ..m },
                ActionView::Finish(Ok(())),
            ),
            Err(cause) => fail_recording(m, cause),
        },
        StepView::Restoring { cause } => match outcome {
            Ok(_) => fail(m, cause),
            Err(other) => fail(m, other),
        },
        StepView::Committed => (m, ActionView::Finish(Ok(()))),
        StepView::RolledBack { cause } => (m, ActionView::Finish(Err(cause))),
    }
}

impl Mutation {
    /// Starts a mutation of `page` to `contents` in the name of `user`.
    pub fn begin(kind: Kind, page: &Page, contents: String, user: &User, pages_directory: &str) -> (started:
        (Mutation, Action))
        ensures
            (started.0@, started.1@) == begin(
                kind,
                page.path@,
                page.filepath@,
                page.format,
                contents@,
                user.name@,
                user.email@,
                pages_directory@,
            ),
    {
        let relative: Option<String> = match page.relative_path(pages_directory) {
            Ok(path) => Some(path),
            Err(_) => None,
        };
        let mut message: String = match kind {
            Kind::Create => owned("[create] "),
            Kind::Update => owned("[update] "),
        };
        message.append(page.path.as_str());
        let action = Action::Render { contents: contents.clone(), format: page.format };
        let mutation = Mutation {
            kind,
            step: Step::Rendering,
            filepath: page.filepath.clone(),
            contents,
            format: page.format,
            relative,
            message,
            name: user.name.clone(),
            email: user.email.clone(),
            previous: None,
        };
        (mutation, action)
    }

    fn fail(self, cause: Error) -> (next: (Mutation, Action))
        ensures
            (next.0@, next.1@) == fail(self@, cause@),
    {
        let mut m = self;
        let action = Action::Finish(Err(cause.clone()));
        m.step = Step::RolledBack { cause };
        (m, action)
    }

    fn fail_recording(self, cause: Error) -> (next: (Mutation, Action))
        ensures
            (next.0@, next.1@) == fail_recording(self@, cause@),
    {
        let mut m = self;
        match &m.previous {
            Some(contents) => {
                let action = Action::Restore {
                    filepath: m.filepath.clone(),
                    contents: contents.clone(),
                };
                m.step = Step::Restoring { cause };
                (m, action)
            },
            None => m.fail(cause),
        }
    }

    /// Takes what the last action came to and says what to do next. For a
    /// read, `outcome` holds the text that was read; for any other action
    /// its text is not looked at.
    pub fn advance(self, outcome: Result<String, Error>) -> (next: (Mutation, Action))
        ensures
            (next.0@, next.1@) == advance_of(self@, outcome_view(outcome)),
    {
        let mut m = self;
        match m.step {
            Step::Rendering => match outcome {
                Ok(_) => match m.kind {
                    Kind::Update => {
                        let action = Action::Read { filepath: m.filepath.clone() };
                        m.step = Step::Reading;
                        (m, action)
                    },
                    Kind::Create => {
                        let action = Action::Write {
                            filepath: m.filepath.clone(),
                            contents: m.contents.clone(),
                        };
                        m.step = Step::Writing;
                        (m, action)
                    },
                },
                Err(cause) => m.fail(cause),
            },
            Step::Reading => match outcome {
                Ok(text) => {
                    let action = Action::Write {
                        filepath: m.filepath.clone(),
                        contents: m.contents.clone(),
                    };
                    m.step = Step::Writing;
                    m.previous = Some(text);
                    (m, action)
                },
                Err(cause) => m.fail(cause),
            },
            Step::Writing => match outcome {
                Ok(_) => match &m.relative {
                    Some(path) => {
                        let action = Action::Stage { path: path.clone() };
                        m.step = Step::Staging;
                        (m, action)
                    },
                    None => m.fail_recording(Error::MakeRelativeError),
                },
                Err(cause) => m.fail(cause),
            },
            Step::Staging => match outcome {
                Ok(_) => {
                    let action = Action::Commit {
                        message: m.message.clone(),
                        name: m.name.clone(),
                        email: m.email.clone(),
                    };
                    m.step = Step::Committing;
                    (m, action)
                },
                Err(cause) => m.fail_recording(cause),
            },
            Step::Committing => match outcome {
                Ok(_) => {
                    m.step = Step::Pushing;
                    (m, Action::Push)
                },
                Err(cause) => m.fail_recording(cause),
            },
            Step::Pushing => match outcome {
                Ok(_) => {
                    m.step = Step::Committed;
                    (m, Action::Finish(Ok(())))
                },
                Err(cause) => m.fail_recording(cause),
            },
            Step::Restoring { cause } => match outcome {
                Ok(_) => {
                    let action = Action::Finish(Err(cause.clone()));
                    m.step = Step::RolledBack { cause };
                    (m, action)
                },
                Err(other) => {
                    let action = Action::Finish(Err(other.clone()));
                    m.step = Step::RolledBack { cause: other };
                    (m, action)
                },
            },
            Step::Committed => {
                m.step = Step::Committed;
                (m, Action::Finish(Ok(())))
            },
            Step::RolledBack { cause } => {
                let action = Action::Finish(Err(cause.clone()));
                m.step = Step::RolledBack { cause };
                (m, action)
            },
        }
    }
}

impl Page {
    /// Starts the creation of this page with `contents`, written by `user`:
    /// the contents are validated, written, staged, committed as
    /// `[create] <path>` and pushed. Nothing is put back where that fails.
    pub fn create(&self, contents: String, user: &User, pages_directory: &str) -> (started: (
        Mutation,
        Action,
    ))
        ensures
            (started.0@, started.1@) == begin(
                Kind::Create,
                self.path@,
                self.filepath@,
                self.format,
                contents@,
                user.name@,
                user.email@,
                pages_directory@,
            ),
    {
        Mutation::begin(Kind::Create, self, contents, user, pages_directory)
    }

    /// Starts an edit of this page to `contents`, written by `user`: the
    /// contents are validated, the file is read and overwritten, and the
    /// edit is staged, committed as `[update] <path>` and pushed. Where
    /// staging, the commit or the push fails, the file is put back.
    pub fn update(&self, contents: String, user: &User, pages_directory: &str) -> (started: (
        Mutation,
        Action,
    ))
        ensures
            (started.0@, started.1@) == begin(
                Kind::Update,
                self.path@,
                self.filepath@,
                self.format,
                contents@,
                user.name@,
                user.email@,
                pages_directory@,
            ),
    {
        Mutation::begin(Kind::Update, self, contents, user, pages_directory)
    }
}

/// What the files of the working tree hold, by path.
pub struct Disk {
    pub files: Map<Seq<char>, Seq<char>>,
    /// No write has failed so far.
    pub intact: bool,
}

/// What `action` comes to on `disk` and what it leaves there, where `fault`
/// is the error that the step meets, if it meets one. A read gives what the
/// file holds; a write that succeeds replaces it; of a write that fails
/// nothing is known but that it failed.
pub open spec fn perform(action: ActionView, disk: Disk, fault: Option<ErrorView>) -> (
    Result<Seq<char>, ErrorView>,
    Disk,
) {
    match fault {
        Some(error) => (
            Err(error),
            Disk {
                files: disk.files,
                intact: disk.intact && !(action is Write) && !(action is Restore),
            },
        ),
        None => match action {
            ActionView::Read { filepath } => (Ok(disk.files[filepath]), disk),
            ActionView::Write { filepath, contents } => (
                Ok(Seq::empty()),
                Disk { files: disk.files.insert(filepath, contents), ..disk },
            ),
            ActionView::Restore { filepath, contents } => (
                Ok(Seq::empty()),
                Disk { files: disk.files.insert(filepath, contents), ..disk },
            ),
            _ => (Ok(Seq::empty()), disk),
        },
    }
}

/// The mutation `m`, about to take `action`, carried on through the steps
/// from `at` on: each action is performed on the disk, meets the fault that
/// `faults` holds for its step, and its outcome is handed back, until the
/// mutation finishes or `faults` ends.
pub open spec fn run_from(
    m: MutationView,
    action: ActionView,
    faults: Seq<Option<ErrorView>>,
    at: int,
    disk: Disk,
) -> (MutationView, ActionView, Disk)
    decreases faults.len() - at,
{
    if at < 0 || at >= faults.len() || action is Finish {
        (m, action, disk)
    } else {
        let (outcome, after) = perform(action, disk, faults[at]);
        let (next, following) = advance_of(m, outcome);
        run_from(next, following, faults, at + 1, after)
    }
}

/// Every mutation is finished after seven outcomes at the most, and
/// finishes either committed, with success, or rolled back, with the error
/// that it keeps.
pub proof fn mutation_finishes(
    kind: Kind,
    path: Seq<char>,
    filepath: Seq<char>,
    format: Option<Format>,
    contents: Seq<char>,
    name: Seq<char>,
    email: Seq<char>,
    pages_directory: Seq<char>,
    files: Map<Seq<char>, Seq<char>>,
    faults: Seq<Option<ErrorView>>,
)
    requires
        faults.len() >= 7,
    ensures
        ({
            let (m, first) = begin(
                kind,
                path,
                filepath,
                format,
                contents,
                name,
                email,
                pages_directory,
            );
            let (end, last, disk) = run_from(m, first, faults, 0, Disk { files, intact: true });
            match last {
                ActionView::Finish(Ok(_)) => end.step == StepView::Committed,
                ActionView::Finish(Err(cause)) => end.step == (StepView::RolledBack { cause }),
                _ => false,
            }
        }),
{
    reveal_with_fuel(run_from, 10);
}

/// A creation that finishes in success leaves the file with the contents
/// that were to be written, whatever else happened on the way.
pub proof fn created_page_holds_contents(
    path: Seq<char>,
    filepath: Seq<char>,
    format: Option<Format>,
    contents: Seq<char>,
    name: Seq<char>,
    email: Seq<char>,
    pages_directory: Seq<char>,
    files: Map<Seq<char>, Seq<char>>,
    faults: Seq<Option<ErrorView>>,
)
    ensures
        ({
            let (m, first) = begin(
                Kind::Create,
                path,
                filepath,
                format,
                contents,
                name,
                email,
                pages_directory,
            );
            let (end, last, disk) = run_from(m, first, faults, 0, Disk { files, intact: true });
            last == ActionView::Finish(Ok(())) ==> {
                &&& end.step == StepView::Committed
                &&& disk.files.contains_key(filepath)
                &&& disk.files[filepath] == contents
            }
        }),
{
    reveal_with_fuel(run_from, 8);
}

/// An edit of a file that is there, once finished without a failed write,
/// leaves the file with the new contents where it succeeded, and with
/// exactly what it held before where it failed: at the rendering, at
/// staging, at the commit or at the push.
pub proof fn finished_update_is_all_or_nothing(
    path: Seq<char>,
    filepath: Seq<char>,
    format: Option<Format>,
    contents: Seq<char>,
    name: Seq<char>,
    email: Seq<char>,
    pages_directory: Seq<char>,
    files: Map<Seq<char>, Seq<char>>,
    faults: Seq<Option<ErrorView>>,
)
    requires
        files.contains_key(filepath),
    ensures
        ({
            let (m, first) = begin(
                Kind::Update,
                path,
                filepath,
                format,
                contents,
                name,
                email,
                pages_directory,
            );
            let (end, last, disk) = run_from(m, first, faults, 0, Disk { files, intact: true });
            disk.intact ==> match last {
                ActionView::Finish(Ok(_)) => end.step == StepView::Committed
                    && disk.files[filepath] == contents,
                ActionView::Finish(Err(cause)) => end.step == (StepView::RolledBack { cause })
                    && disk.files[filepath] == files[filepath],
                _ => true,
            }
        }),
{
    reveal_with_fuel(run_from, 10);
}

/// The message that records an edit begins with `[update]`, and the one
/// that records a new page with `[create]`.
pub proof fn messages_are_tagged(path: Seq<char>)
    ensures
        is_prefix("[update]"@, update_message(path)),
        is_prefix("[create]"@, create_message(path)),
{
    reveal_strlit("[update]");
    reveal_strlit("[update] ");
    reveal_strlit("[create]");
    reveal_strlit("[create] ");
    assert(update_message(path).subrange(0, 8) =~= "[update]"@);
    assert(create_message(path).subrange(0, 8) =~= "[create]"@);
}

/// Once an edit of the page at `page_path` is recorded as the newest commit
/// of the walk, touching `file`, every history of `file` that succeeds
/// begins with that commit, whose message begins with `[update]`.
pub proof fn recorded_update_heads_history(
    page_path: Seq<char>,
    file: Seq<char>,
    newest: RawCommitView,
    older: Seq<RawCommitView>,
    users: Map<Seq<char>, UserView>,
)
    requires
        newest.message == update_message(page_path),
        touched(newest).contains(file),
        file_history_of(seq![newest] + older, file, users) is Ok,
    ensures
        ({
            let list = file_history_of(seq![newest] + older, file, users)->Ok_0;
            &&& list.len() > 0
            &&& list[0].hash == newest.id
            &&& list[0].message == update_message(page_path)
            &&& is_prefix("[update]"@, list[0].message)
        }),
{
    file_history_begins_with_newest(newest, older, file, users);
    messages_are_tagged(page_path);
}

} // verus!
