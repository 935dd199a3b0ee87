use vstd::prelude::*;
use crate::text::text_of;

verus! {

/// Where the pages' repository is synchronised with, and the SSH key pair
/// that authenticates there.
#[derive(Debug, PartialEq, Eq)]
pub struct Git {
    pub repository: String,
    pub private_key: String,
    pub public_key: Option<String>,
}

pub struct GitView {
    pub repository: Seq<char>,
    pub private_key: Seq<char>,
    pub public_key: Option<Seq<char>>,
}

impl View for Git {
    type V = GitView;

    open spec fn view(&self) -> GitView {
        GitView {
            repository: self.repository@,
            private_key: self.private_key@,
            public_key: text_of(self.public_key),
        }
    }
}

/// The user that a fresh registry starts with.
#[derive(Debug, PartialEq, Eq)]
pub struct InitialUser {
    pub name: String,
    pub email: String,
    pub url: String,
}

} // verus!
