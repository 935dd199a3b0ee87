use vstd::prelude::*;
use crate::git::{
    author_email, materialize, touched, AuthorView, Commit, CommitView, Error, RawCommit,
    RawCommitView, resolve, unknown_name,
};
use crate::text::{list_contains, owned, same_text};
use crate::user::{UserDb, UserKey, UserView};

verus! {

/// The commits of a walk, as mathematical values.
pub open spec fn raw_views(walk: Seq<RawCommit>) -> Seq<RawCommitView> {
    walk.map_values(|raw: RawCommit| raw@)
}

/// The entries of a listing, as mathematical values.
pub open spec fn commit_views(list: Seq<Commit>) -> Seq<CommitView> {
    list.map_values(|commit: Commit| commit@)
}

/// The history of `path` over `walk`, a traversal from the branch tip with
/// the newest commit first: every commit is turned into an entry, and those
/// whose touched files hold exactly `path` are kept, in the walk's order.
/// Fails with the hash of the first commit whose time has no date.
pub open spec fn file_history_of(
    walk: Seq<RawCommitView>,
    path: Seq<char>,
    users: Map<Seq<char>, UserView>,
) -> Result<Seq<CommitView>, Seq<char>>
    decreases walk.len(),
{
    if walk.len() == 0 {
        Ok(Seq::empty())
    } else {
        match file_history_of(walk.drop_last(), path, users) {
            Err(hash) => Err(hash),
            Ok(earlier) => match materialize(walk.last(), users) {
                None => Err(walk.last().id),
                Some(commit) => Ok(
                    if commit.files.contains(path) {
                        earlier.push(commit)
                    } else {
                        earlier
                    },
                ),
            },
        }
    }
}

/// Whether a listing of `kept` entries has reached `limit`.
pub open spec fn reached(limit: Option<usize>, kept: nat) -> bool {
    match limit {
        Some(most) => most as nat == kept,
        None => false,
    }
}

/// An author's listing of `kept` entries after it has come to the commit
/// `raw`: a listing that has reached its limit is left as it is, without a
/// look at the commit; else the commit is turned into an entry, which is
/// kept where its resolved author has exactly the email asked for. Fails
/// with the commit's hash where its time has no date.
pub open spec fn visit_of(
    kept: Seq<CommitView>,
    email: Seq<char>,
    limit: Option<usize>,
    raw: RawCommitView,
    users: Map<Seq<char>, UserView>,
) -> Result<Seq<CommitView>, Seq<char>> {
    if reached(limit, kept.len()) {
        Ok(kept)
    } else {
        match materialize(raw, users) {
            None => Err(raw.id),
            Some(commit) => Ok(
                if author_email(commit.author) == Some(email) {
                    kept.push(commit)
                } else {
                    kept
                },
            ),
        }
    }
}

/// The history of the author with `email` over `walk`, a traversal from the
/// branch tip with the newest commit first: the listing that has come to
/// each commit of the walk in turn.
pub open spec fn user_history_of(
    walk: Seq<RawCommitView>,
    email: Seq<char>,
    limit: Option<usize>,
    users: Map<Seq<char>, UserView>,
) -> Result<Seq<CommitView>, Seq<char>>
    decreases walk.len(),
{
    if walk.len() == 0 {
        Ok(Seq::empty())
    } else {
        match user_history_of(walk.drop_last(), email, limit, users) {
            Err(hash) => Err(hash),
            Ok(earlier) => visit_of(earlier, email, limit, walk.last(), users),
        }
    }
}

/// A file history that failed on a prefix of the walk fails the same way on
/// the whole walk.
proof fn file_history_failure_stays(
    walk: Seq<RawCommitView>,
    n: int,
    path: Seq<char>,
    users: Map<Seq<char>, UserView>,
)
    requires
        0 <= n <= walk.len(),
        file_history_of(walk.take(n), path, users) is Err,
    ensures
        file_history_of(walk, path, users) == file_history_of(walk.take(n), path, users),
    decreases walk.len(),
{
    if n == walk.len() {
        assert(walk.take(n) =~= walk);
    } else {
        assert(walk.drop_last().take(n) =~= walk.take(n));
        file_history_failure_stays(walk.drop_last(), n, path, users);
    }
}

/// An author history that failed or reached its limit on a prefix of the
/// walk is the same on the whole walk.
proof fn user_history_settled(
    walk: Seq<RawCommitView>,
    n: int,
    email: Seq<char>,
    limit: Option<usize>,
    users: Map<Seq<char>, UserView>,
)
    requires
        0 <= n <= walk.len(),
        match user_history_of(walk.take(n), email, limit, users) {
            Err(_) => true,
            Ok(kept) => reached(limit, kept.len()),
        },
    ensures
        user_history_of(walk, email, limit, users) == user_history_of(
            walk.take(n),
            email,
            limit,
            users,
        ),
    decreases walk.len(),
{
    if n == walk.len() {
        assert(walk.take(n) =~= walk);
    } else {
        assert(walk.drop_last().take(n) =~= walk.take(n));
        user_history_settled(walk.drop_last(), n, email, limit, users);
    }
}

/// The positions in `walk` of the commits that touched `path`, ascending.
pub open spec fn file_picks(walk: Seq<RawCommitView>, path: Seq<char>) -> Seq<int>
    decreases walk.len(),
{
    if walk.len() == 0 {
        Seq::empty()
    } else {
        let earlier = file_picks(walk.drop_last(), path);
        if touched(walk.last()).contains(path) {
            earlier.push(walk.len() - 1)
        } else {
            earlier
        }
    }
}

/// A walk whose commit times never increase from one commit to the next.
pub open spec fn newest_first(walk: Seq<RawCommitView>) -> bool {
    forall|i: int, j: int| 0 <= i <= j < walk.len() ==> walk[i].seconds >= walk[j].seconds
}

/// A file history that succeeds holds one entry for each commit of the walk
/// that touched the path, no other, and in the walk's order: entry `k` is
/// the entry of the commit at the `k`-th such position.
pub proof fn file_history_follows_walk(
    walk: Seq<RawCommitView>,
    path: Seq<char>,
    users: Map<Seq<char>, UserView>,
)
    requires
        file_history_of(walk, path, users) is Ok,
    ensures
        ({
            let list = file_history_of(walk, path, users)->Ok_0;
            let picks = file_picks(walk, path);
            &&& list.len() == picks.len()
            &&& forall|k: int|
                0 <= k < picks.len() ==> 0 <= #[trigger] picks[k] < walk.len() && touched(
                    walk[picks[k]],
                ).contains(path) && materialize(walk[picks[k]], users) == Some(list[k])
            &&& forall|k: int, l: int|
                0 <= k < l < picks.len() ==> #[trigger] picks[k] < #[trigger] picks[l]
            &&& forall|i: int|
                0 <= i < walk.len() && touched(#[trigger] walk[i]).contains(path)
                    ==> picks.contains(i)
        }),
    decreases walk.len(),
{
    if walk.len() > 0 {
        let shorter = walk.drop_last();
        file_history_follows_walk(shorter, path, users);
        let earlier = file_picks(shorter, path);
        let picks = file_picks(walk, path);
        let last = walk.len() - 1;
        assert forall|i: int|
            0 <= i < walk.len() && touched(#[trigger] walk[i]).contains(path) implies picks.contains(
            i,
        ) by {
            if i < last {
                assert(shorter[i] == walk[i]);
                assert(earlier.contains(i));
                let k = choose|k: int| 0 <= k < earlier.len() && earlier[k] == i;
                assert(picks[k] == i);
            } else {
                assert(picks[picks.len() - 1] == i);
            }
        }
        assert forall|k: int| 0 <= k < picks.len() implies 0 <= #[trigger] picks[k] < walk.len()
            && touched(walk[picks[k]]).contains(path) && materialize(walk[picks[k]], users)
            == Some(file_history_of(walk, path, users)->Ok_0[k]) by {
            if k < earlier.len() {
                assert(shorter[earlier[k]] == walk[earlier[k]]);
            }
        }
    }
}

/// Over a walk in non-increasing time order, a file history is in
/// non-increasing time order too: of two entries, the commit behind the
/// earlier one is no older than the commit behind the later one.
pub proof fn file_history_newest_first(
    walk: Seq<RawCommitView>,
    path: Seq<char>,
    users: Map<Seq<char>, UserView>,
)
    requires
        newest_first(walk),
        file_history_of(walk, path, users) is Ok,
    ensures
        ({
            let list = file_history_of(walk, path, users)->Ok_0;
            let picks = file_picks(walk, path);
            forall|k: int, l: int|
                0 <= k <= l < list.len() ==> {
                    &&& materialize(walk[#[trigger] picks[k]], users) == Some(list[k])
                    &&& materialize(walk[#[trigger] picks[l]], users) == Some(list[l])
                    &&& walk[picks[k]].seconds >= walk[picks[l]].seconds
                }
        }),
{
    file_history_follows_walk(walk, path, users);
}

/// A file history that succeeds over a walk whose newest commit touched the
/// path begins with that commit's entry, message and all.
pub proof fn file_history_begins_with_newest(
    newest: RawCommitView,
    older: Seq<RawCommitView>,
    path: Seq<char>,
    users: Map<Seq<char>, UserView>,
)
    requires
        touched(newest).contains(path),
        file_history_of(seq![newest] + older, path, users) is Ok,
    ensures
        ({
            let list = file_history_of(seq![newest] + older, path, users)->Ok_0;
            &&& list.len() > 0
            &&& materialize(newest, users) == Some(list[0])
            &&& list[0].message == newest.message
        }),
    decreases older.len(),
{
    let walk = seq![newest] + older;
    if older.len() == 0 {
        assert(walk.drop_last() =~= Seq::<RawCommitView>::empty());
        assert(walk.last() == newest);
        assert(file_history_of(walk.drop_last(), path, users) == Ok::<
            Seq<CommitView>,
            Seq<char>,
        >(Seq::empty()));
    } else {
        assert(walk.drop_last() =~= seq![newest] + older.drop_last());
        file_history_begins_with_newest(newest, older.drop_last(), path, users);
    }
}

/// An author history never holds more entries than its limit, and the
/// resolved author of each entry has the email asked for.
pub proof fn user_history_within_limit(
    walk: Seq<RawCommitView>,
    email: Seq<char>,
    limit: Option<usize>,
    users: Map<Seq<char>, UserView>,
)
    ensures
        match user_history_of(walk, email, limit, users) {
            Ok(list) => {
                &&& limit matches Some(most) ==> list.len() <= most
                &&& forall|k: int|
                    0 <= k < list.len() ==> author_email((#[trigger] list[k]).author) == Some(
                        email,
                    )
            },
            Err(_) => true,
        },
    decreases walk.len(),
{
    if walk.len() > 0 {
        user_history_within_limit(walk.drop_last(), email, limit, users);
    }
}

/// A commit whose author email is missing or registered to nobody gets an
/// untracked author that carries the signature's own name and email, and
/// the name "Unknown" where the signature has none.
pub proof fn unregistered_author_is_untracked(
    raw: RawCommitView,
    users: Map<Seq<char>, UserView>,
)
    requires
        raw.author.email matches Some(email) ==> !users.contains_key(email),
    ensures
        resolve(raw.author, users) == (AuthorView::NonUser {
            name: match raw.author.name {
                Some(name) => name,
                None => unknown_name(),
            },
            email: raw.author.email,
        }),
        materialize(raw, users) matches Some(commit) ==> commit.author == resolve(
            raw.author,
            users,
        ),
{
}

/// The commits of `walk` that touched `path`, newest first as the walk is.
/// `walk` is the traversal from the branch tip, sorted by time descending.
pub(crate) fn file_history(walk: &Vec<RawCommit>, path: &str, users: &UserDb) -> (result: Result<
    Vec<Commit>,
    Error,
>)
    requires
        users.wf(),
    ensures
        match result {
            Ok(list) => file_history_of(raw_views(walk@), path@, users@) == Ok::<
                Seq<CommitView>,
                Seq<char>,
            >(commit_views(list@)),
            Err(error) => error@ is Date && file_history_of(raw_views(walk@), path@, users@)
                == Err::<Seq<CommitView>, Seq<char>>(error@->hash),
        },
{
    let ghost views = raw_views(walk@);
    let mut commits: Vec<Commit> = Vec::new();
    let mut i: usize = 0;
    proof {
        assert(views.take(0).len() == 0);
        assert(commit_views(commits@) =~= Seq::<CommitView>::empty());
    }
    while i < walk.len()
        invariant
            users.wf(),
            i <= walk.len(),
            views == raw_views(walk@),
            file_history_of(views.take(i as int), path@, users@) == Ok::<
                Seq<CommitView>,
                Seq<char>,
            >(commit_views(commits@)),
        decreases walk.len() - i,
    {
        proof {
            assert(views.take(i + 1).drop_last() =~= views.take(i as int));
            assert(views.take(i + 1).last() == walk@[i as int]@);
        }
        match Commit::from_raw(&walk[i], users) {
            None => {
                proof {
                    file_history_failure_stays(views, i + 1, path@, users@);
                }
                return Err(Error::Date { hash: walk[i].id.clone() });
            },
            Some(commit) => {
                if list_contains(&commit.files, path) {
                    let ghost before = commits@;
                    commits.push(commit);
                    assert(commit_views(commits@) =~= commit_views(before).push(commit@));
                }
            },
        }
        i = i + 1;
    }
    assert(views.take(walk.len() as int) =~= views);
    Ok(commits)
}

/// An author's history in the making: the entries kept so far of a walk
/// that is fed in commit by commit, newest first.
#[derive(Debug, PartialEq, Eq)]
pub struct AuthorWalk {
    pub email: String,
    pub limit: Option<usize>,
    pub kept: Vec<Commit>,
}

impl AuthorWalk {
    /// An empty listing for the user under `user`, of at most `limit`
    /// entries where a limit is given.
    pub fn new(user: &UserKey, limit: Option<usize>) -> (walk: AuthorWalk)
        ensures
            walk.email@ == user@,
            walk.limit == limit,
            walk.kept@.len() == 0,
    {
        AuthorWalk { email: owned(user.email()), limit, kept: Vec::new() }
    }

    /// Whether the listing has reached its limit, so that the walk can end.
    pub fn is_full(&self) -> (full: bool)
        ensures
            full == reached(self.limit, self.kept@.len()),
    {
        match self.limit {
            Some(most) => most == self.kept.len(),
            None => false,
        }
    }

    /// Takes the next commit of the walk. A commit whose time has no date
    /// is an error and leaves the listing as it was.
    pub fn visit(&mut self, raw: &RawCommit, users: &UserDb) -> (result: Result<(), Error>)
        requires
            users.wf(),
        ensures
            final(self).email == old(self).email,
            final(self).limit == old(self).limit,
            match result {
                Ok(_) => visit_of(
                    commit_views(old(self).kept@),
                    old(self).email@,
                    old(self).limit,
                    raw@,
                    users@,
                ) == Ok::<Seq<CommitView>, Seq<char>>(commit_views(final(self).kept@)),
                Err(error) => error@ is Date && final(self).kept == old(self).kept && visit_of(
                    commit_views(old(self).kept@),
                    old(self).email@,
                    old(self).limit,
                    raw@,
                    users@,
                ) == Err::<Seq<CommitView>, Seq<char>>(error@->hash),
            },
    {
        if self.is_full() {
            return Ok(());
        }
        match Commit::from_raw(raw, users) {
            None => Err(Error::Date { hash: raw.id.clone() }),
            Some(commit) => {
                let written: bool = match commit.author.email() {
                    Some(email) => same_text(email, self.email.as_str()),
                    None => false,
                };
                if written {
                    let ghost before = self.kept@;
                    self.kept.push(commit);
                    assert(commit_views(self.kept@) =~= commit_views(before).push(commit@));
                }
                Ok(())
            },
        }
    }

    /// The listing as it stands.
    pub fn finish(self) -> (list: Vec<Commit>)
        ensures
            list == self.kept,
    {
        self.kept
    }
}

/// The commits of `walk` written by the user under `user`, newest first, and
/// no more than `limit` of them where a limit is given.
pub(crate) fn user_history(
    walk: &Vec<RawCommit>,
    user: &UserKey,
    limit: Option<usize>,
    users: &UserDb,
) -> (result: Result<Vec<Commit>, Error>)
    requires
        users.wf(),
    ensures
        match result {
            Ok(list) => user_history_of(raw_views(walk@), user@, limit, users@) == Ok::<
                Seq<CommitView>,
                Seq<char>,
            >(commit_views(list@)),
            Err(error) => error@ is Date && user_history_of(raw_views(walk@), user@, limit, users@)
                == Err::<Seq<CommitView>, Seq<char>>(error@->hash),
        },
{
    let ghost views = raw_views(walk@);
    let mut listing = AuthorWalk::new(user, limit);
    let mut i: usize = 0;
    proof {
        assert(views.take(0).len() == 0);
        assert(commit_views(listing.kept@) =~= Seq::<CommitView>::empty());
    }
    while i < walk.len()
        invariant
            users.wf(),
            i <= walk.len(),
            views == raw_views(walk@),
            listing.email@ == user@,
            listing.limit == limit,
            user_history_of(views.take(i as int), user@, limit, users@) == Ok::<
                Seq<CommitView>,
                Seq<char>,
            >(commit_views(listing.kept@)),
        decreases walk.len() - i,
    {
        if listing.is_full() {
            proof {
                user_history_settled(views, i as int, user@, limit, users@);
            }
            return Ok(listing.finish());
        }
        proof {
            assert(views.take(i + 1).drop_last() =~= views.take(i as int));
            assert(views.take(i + 1).last() == walk@[i as int]@);
        }
        match listing.visit(&walk[i], users) {
            Err(error) => {
                proof {
                    user_history_settled(views, i + 1, user@, limit, users@);
                }
                return Err(error);
            },
            Ok(_) => {},
        }
        i = i + 1;
    }
    assert(views.take(walk.len() as int) =~= views);
    Ok(listing.finish())
}

} // verus!
