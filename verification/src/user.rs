use vstd::prelude::*;
use crate::config::InitialUser;
use crate::role::Role;

verus! {

/// The key under which a user is registered: the contact email.
#[derive(Debug, PartialEq, Eq)]
pub struct UserKey(String);

impl View for UserKey {
    type V = Seq<char>;

    closed spec fn view(&self) -> Seq<char> {
        self.0@
    }
}

impl UserKey {
    /// The key for `email`.
    pub fn new(email: String) -> (key: UserKey)
        ensures
            key@ == email@,
    {
        UserKey(email)
    }

    pub fn email(&self) -> (email: &str)
        ensures
            email@ == self@,
    {
        self.0.as_str()
    }
}

/// A session that carries no user key.
#[derive(Debug, PartialEq, Eq, Structural, Clone, Copy)]
pub struct UserKeyError;

impl UserKeyError {
    pub fn message(&self) -> (text: &'static str)
        ensures
            text@ == "Session doesn't contain `data` key."@,
    {
        "Session doesn't contain `data` key."
    }
}

/// A registered identity.
#[derive(Debug, PartialEq, Eq)]
pub struct User {
    pub name: String,
    pub email: String,
    pub url: String,
    pub approved: bool,
    pub roles: Vec<Role>,
}

/// What a `User` holds, as mathematical values.
pub struct UserView {
    pub name: Seq<char>,
    pub email: Seq<char>,
    pub url: Seq<char>,
    pub approved: bool,
    pub roles: Seq<Role>,
}

impl View for User {
    type V = UserView;

    open spec fn view(&self) -> UserView {
        UserView {
            name: self.name@,
            email: self.email@,
            url: self.url@,
            approved: self.approved,
            roles: self.roles@,
        }
    }
}

impl Clone for User {
    fn clone(&self) -> (copy: User)
        ensures
            copy@ == self@,
    {
        let mut roles: Vec<Role> = Vec::new();
        let mut i: usize = 0;
        while i < self.roles.len()
            invariant
                i <= self.roles.len(),
                roles@ == self.roles@.subrange(0, i as int),
            decreases self.roles.len() - i,
        {
            roles.push(self.roles[i]);
            assert(roles@ == self.roles@.subrange(0, i + 1));
            i = i + 1;
        }
        assert(roles@ == self.roles@);
        User {
            name: self.name.clone(),
            email: self.email.clone(),
            url: self.url.clone(),
            approved: self.approved,
            roles,
        }
    }
}

impl User {
    pub fn key(&self) -> (key: UserKey)
        ensures
            key@ == self.email@,
    {
        UserKey::new(self.email.clone())
    }

    /// Whether two users agree in every field.
    pub fn same(&self, other: &User) -> (equal: bool)
        ensures
            equal == (self@ == other@),
    {
        if self.name != other.name || self.email != other.email || self.url != other.url
            || self.approved != other.approved || self.roles.len() != other.roles.len() {
            return false;
        }
        let mut i: usize = 0;
        while i < self.roles.len()
            invariant
                i <= self.roles.len(),
                self.roles.len() == other.roles.len(),
                forall|j: int| 0 <= j < i ==> self.roles@[j] == other.roles@[j],
            decreases self.roles.len() - i,
        {
            if self.roles[i] != other.roles[i] {
                return false;
            }
            i = i + 1;
        }
        assert(self.roles@ =~= other.roles@);
        true
    }

    /// Whether the user holds `role`.
    pub fn has_role(&self, role: Role) -> (held: bool)
        ensures
            held == self.roles@.contains(role),
    {
        let mut i: usize = 0;
        while i < self.roles.len()
            invariant
                i <= self.roles.len(),
                forall|j: int| 0 <= j < i ==> self.roles@[j] != role,
            decreases self.roles.len() - i,
        {
            if self.roles[i] == role {
                return true;
            }
            i = i + 1;
        }
        false
    }
}

/// The user registry: at most one user for each email.
pub struct UserDb {
    users: Vec<User>,
}

impl UserDb {
    /// No two entries share an email.
    pub closed spec fn wf(&self) -> bool {
        forall|i: int, j: int|
            0 <= i < j < self.users@.len() ==> (#[trigger] self.users@[i]).email@ != (
            #[trigger] self.users@[j]).email@
    }

    /// The registry as a map from email to user.
    pub closed spec fn view(&self) -> Map<Seq<char>, UserView> {
        Map::new(
            |email: Seq<char>| self.position(email) is Some,
            |email: Seq<char>| self.users@[self.position(email).unwrap()]@,
        )
    }

    spec fn holds_at(&self, email: Seq<char>, i: int) -> bool {
        0 <= i < self.users@.len() && self.users@[i].email@ == email
    }

    spec fn position(&self, email: Seq<char>) -> Option<int> {
        if exists|i: int| self.holds_at(email, i) {
            Some(choose|i: int| self.holds_at(email, i))
        } else {
            None
        }
    }

    proof fn position_is(&self, email: Seq<char>, i: int)
        requires
            self.wf(),
            self.holds_at(email, i),
        ensures
            self.position(email) == Some(i),
    {
        let j = choose|j: int| self.holds_at(email, j);
        if j < i {
            assert(self.users@[j].email@ != self.users@[i].email@);
        } else if i < j {
            assert(self.users@[i].email@ != self.users@[j].email@);
        }
    }

    /// An empty registry.
    pub fn new() -> (db: UserDb)
        ensures
            db.wf(),
            db@ == Map::<Seq<char>, UserView>::empty(),
    {
        let db = UserDb { users: Vec::new() };
        assert(db@ =~= Map::<Seq<char>, UserView>::empty());
        db
    }

    /// A registry that holds the initial user alone: approved, and an
    /// administrator.
    pub fn starting_with(initial: &InitialUser) -> (db: UserDb)
        ensures
            db.wf(),
            db@ == Map::<Seq<char>, UserView>::empty().insert(
                initial.email@,
                UserView {
                    name: initial.name@,
                    email: initial.email@,
                    url: initial.url@,
                    approved: true,
                    roles: seq![Role::Administrator],
                },
            ),
    {
        let mut roles: Vec<Role> = Vec::new();
        roles.push(Role::Administrator);
        assert(roles@ =~= seq![Role::Administrator]);
        let user = User {
            name: initial.name.clone(),
            email: initial.email.clone(),
            url: initial.url.clone(),
            approved: true,
            roles,
        };
        let mut db = UserDb::new();
        db.set(user);
        db
    }

    /// The registered users, one entry for each email.
    pub fn entries(&self) -> (list: Vec<User>)
        requires
            self.wf(),
        ensures
            forall|i: int|
                0 <= i < list@.len() ==> self@.contains_key((#[trigger] list@[i]).email@)
                    && self@[list@[i].email@] == list@[i]@,
            forall|email: Seq<char>|
                self@.contains_key(email) ==> exists|i: int|
                    0 <= i < list@.len() && (#[trigger] list@[i]).email@ == email,
            forall|i: int, j: int|
                0 <= i < j < list@.len() ==> (#[trigger] list@[i]).email@ != (
                #[trigger] list@[j]).email@,
    {
        let mut list: Vec<User> = Vec::new();
        let mut i: usize = 0;
        while i < self.users.len()
            invariant
                self.wf(),
                i <= self.users.len(),
                list@.len() == i,
                forall|j: int| 0 <= j < i ==> (#[trigger] list@[j])@ == self.users@[j]@,
            decreases self.users.len() - i,
        {
            list.push(self.users[i].clone());
            i = i + 1;
        }
        proof {
            assert forall|k: int| 0 <= k < list@.len() implies self@.contains_key(
                (#[trigger] list@[k]).email@,
            ) && self@[list@[k].email@] == list@[k]@ by {
                assert(self.holds_at(list@[k].email@, k));
                self.position_is(list@[k].email@, k);
            }
            assert forall|email: Seq<char>| self@.contains_key(email) implies exists|k: int|
                0 <= k < list@.len() && (#[trigger] list@[k]).email@ == email by {
                let p = self.position(email).unwrap();
                assert(self.holds_at(email, p));
                assert(list@[p].email@ == email);
            }
            assert forall|a: int, b: int| 0 <= a < b < list@.len() implies (
            #[trigger] list@[a]).email@ != (#[trigger] list@[b]).email@ by {
                assert(self.users@[a].email@ != self.users@[b].email@);
            }
        }
        list
    }

    /// The user registered under `key`, if there is one.
    pub fn get(&self, key: &UserKey) -> (found: Option<&User>)
        requires
            self.wf(),
        ensures
            match found {
                Some(user) => self@.contains_key(key@) && self@[key@] == user@,
                None => !self@.contains_key(key@),
            },
    {
        let mut i: usize = 0;
        while i < self.users.len()
            invariant
                self.wf(),
                i <= self.users.len(),
                forall|j: int| 0 <= j < i ==> !self.holds_at(key@, j),
            decreases self.users.len() - i,
        {
            if self.users[i].email == key.0 {
                proof {
                    assert(self.holds_at(key@, i as int));
                    self.position_is(key@, i as int);
                }
                return Some(&self.users[i]);
            }
            i = i + 1;
        }
        None
    }

    /// Registers `user` under its email, in place of whoever was there.
    pub fn set(&mut self, user: User)
        requires
            old(self).wf(),
        ensures
            final(self).wf(),
            final(self)@ == old(self)@.insert(user.email@, user@),
    {
        let ghost before = *self;
        let ghost added = user@;
        let mut i: usize = 0;
        while i < self.users.len()
            invariant
                i <= self.users.len(),
                *self == before,
                before == *old(self),
                before.wf(),
                added == user@,
                forall|j: int| 0 <= j < i ==> !self.holds_at(user.email@, j),
            decreases self.users.len() - i,
        {
            if self.users[i].email == user.email {
                assert(before.holds_at(added.email, i as int));
                self.users[i] = user;
                proof {
                    let after = *self;
                    assert(after.users@ == before.users@.update(i as int, user));
                    assert(after.wf()) by {
                        assert forall|a: int, b: int| 0 <= a < b < after.users@.len() implies (
                        #[trigger] after.users@[a]).email@ != (#[trigger] after.users@[b]).email@ by {
                            assert(before.users@[a].email@ != before.users@[b].email@);
                        }
                    }
                    assert forall|email: Seq<char>| #[trigger]
                        after@.contains_key(email) == before@.insert(
                            added.email,
                            added,
                        ).contains_key(email) && (after@.contains_key(email) ==> after@[email]
                            == before@.insert(added.email, added)[email]) by {
                        if before.position(email) is Some {
                            let p = before.position(email).unwrap();
                            assert(before.holds_at(email, p));
                            assert(after.holds_at(email, p));
                            after.position_is(email, p);
                            if email == added.email {
                                before.position_is(email, i as int);
                            }
                        } else if after.position(email) is Some {
                            let p = after.position(email).unwrap();
                            assert(after.holds_at(email, p));
                            assert(before.holds_at(email, p));
                        }
                    }
                    assert(after@ =~= before@.insert(added.email, added));
                }
                return ;
            }
            i = i + 1;
        }
        self.users.push(user);
        proof {
            let after = *self;
            let n = before.users@.len() as int;
            assert(after.users@ == before.users@.push(user));
            assert(after.wf()) by {
                assert forall|a: int, b: int| 0 <= a < b < after.users@.len() implies (
                #[trigger] after.users@[a]).email@ != (#[trigger] after.users@[b]).email@ by {
                    if b < n {
                        assert(before.users@[a].email@ != before.users@[b].email@);
                    } else {
                        assert(!before.holds_at(added.email, a));
                    }
                }
            }
            assert(after.holds_at(added.email, n));
            after.position_is(added.email, n);
            assert forall|email: Seq<char>| #[trigger]
                after@.contains_key(email) == before@.insert(added.email, added).contains_key(
                    email,
                ) && (after@.contains_key(email) ==> after@[email] == before@.insert(
                    added.email,
                    added,
                )[email]) by {
                if before.position(email) is Some {
                    let p = before.position(email).unwrap();
                    assert(before.holds_at(email, p));
                    assert(after.holds_at(email, p));
                    after.position_is(email, p);
                } else if after.position(email) is Some {
                    let p = after.position(email).unwrap();
                    assert(after.holds_at(email, p));
                    if p < n {
                        assert(before.holds_at(email, p));
                    }
                }
            }
            assert(after@ =~= before@.insert(added.email, added));
        }
    }
}

} // verus!
