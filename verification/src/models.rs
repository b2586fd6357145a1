//! Reference data as the tracker reports it.

use vstd::prelude::*;

verus! {

/// A named workflow state of the tracker. Identity is `id`; `name` is what
/// users type and what the resolver matches against.
#[derive(Debug, PartialEq, Eq)]
pub struct IssueStatus {
    pub id: u32,
    pub name: String,
}

impl View for IssueStatus {
    type V = (u32, Seq<char>);

    open spec fn view(&self) -> (u32, Seq<char>) {
        (self.id, self.name@)
    }
}

impl Clone for IssueStatus {
    fn clone(&self) -> (copy: IssueStatus)
        ensures
            copy == *self,
    {
        IssueStatus { id: self.id, name: self.name.clone() }
    }
}

impl IssueStatus {
    pub fn new(id: u32, name: String) -> (status: IssueStatus)
        ensures
            status.id == id,
            status.name == name,
    {
        IssueStatus { id, name }
    }

    /// Splits the status into the `(id, name)` pair the resolver works on.
    pub fn into_pair(self) -> (pair: (u32, String))
        ensures
            pair.0 == self.id,
            pair.1 == self.name,
    {
        (self.id, self.name)
    }
}

/// A tracker account. Cached next to the statuses; no command reads it yet.
#[derive(Debug, PartialEq, Eq)]
pub struct User {
    pub id: u32,
    pub login: String,
    pub firstname: String,
    pub lastname: String,
}

/// Mathematical model of a [`User`].
pub struct UserView {
    pub id: u32,
    pub login: Seq<char>,
    pub firstname: Seq<char>,
    pub lastname: Seq<char>,
}

impl View for User {
    type V = UserView;

    open spec fn view(&self) -> UserView {
        UserView {
            id: self.id,
            login: self.login@,
            firstname: self.firstname@,
            lastname: self.lastname@,
        }
    }
}

impl Clone for User {
    fn clone(&self) -> (copy: User)
        ensures
            copy == *self,
    {
        User {
            id: self.id,
            login: self.login.clone(),
            firstname: self.firstname.clone(),
            lastname: self.lastname.clone(),
        }
    }
}

impl User {
    pub fn new(id: u32, login: String, firstname: String, lastname: String) -> (user: User)
        ensures
            user.id == id,
            user.login == login,
            user.firstname == firstname,
            user.lastname == lastname,
    {
        User { id, login, firstname, lastname }
    }
}

} // verus!
