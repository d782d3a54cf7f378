//! Host-neutral pieces of the forge integration.
//!
//! How an access token for a host is obtained differs between hosts (a GitHub
//! installation access token, a GitLab project access token, ...); callers see
//! a token source, implemented outside this library, and the neutral
//! [`Repository`] identifier defined here.
use vstd::prelude::*;
use crate::text::concat3;

verus! {

/// A host-neutral repository identifier (`owner/name`).
#[derive(Debug, Clone, PartialEq, Eq, Hash)]
pub struct Repository {
    pub owner: String,
    pub name: String,
}

impl Repository {
    pub fn new(owner: String, name: String) -> (r: Self)
        ensures
            r.owner@ == owner@,
            r.name@ == name@,
    {
        Repository { owner, name }
    }

    /// The `owner/name` form of the repository (what `Display` prints).
    pub fn to_string(&self) -> (s: String)
        ensures
            s@ == self.owner@ + seq!['/'] + self.name@,
    {
        let s = concat3(self.owner.as_str(), "/", self.name.as_str());
        proof {
            reveal_strlit("/");
        }
        s
    }
}

} // verus!
