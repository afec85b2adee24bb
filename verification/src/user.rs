//! The users of etcd and the changes that can be asked for them.

use vstd::prelude::*;
use vstd::string::*;
use crate::role::{texts, Role, RoleView};

verus! {

/// A list of roles as mathematical values.
pub open spec fn role_views(roles: Seq<Role>) -> Seq<RoleView> {
    Seq::new(roles.len(), |i: int| roles[i]@)
}

/// A list of texts that may be absent, as sequences of characters.
pub open spec fn listed(list: Option<Vec<String>>) -> Option<Seq<Seq<char>>> {
    match list {
        Some(texts_) => Some(texts(texts_@)),
        None => None,
    }
}

/// A text that may be absent, as a sequence of characters.
pub open spec fn worded(text: Option<String>) -> Option<Seq<char>> {
    match text {
        Some(t) => Some(t@),
        None => None,
    }
}

/// A list with one more text at its end; the list of that text alone where there was none.
pub open spec fn with_text(list: Option<Seq<Seq<char>>>, text: Seq<char>) -> Option<
    Seq<Seq<char>>,
> {
    match list {
        Some(texts_) => Some(texts_.push(text)),
        None => Some(seq![text]),
    }
}

/// Puts a text at the end of a list, and makes the list where there is none.
fn add_text(list: &mut Option<Vec<String>>, text: &str)
    ensures
        listed(*final(list)) == with_text(listed(*old(list)), text@),
{
    match list.take() {
        Some(mut texts_) => {
            texts_.push(text.to_owned());
            *list = Some(texts_);
        },
        None => {
            let mut texts_: Vec<String> = Vec::new();
            texts_.push(text.to_owned());
            *list = Some(texts_);
        },
    }
}

/// An existing etcd user.
#[derive(Debug, Clone, PartialEq, Eq, Hash)]
pub struct User {
    /// The user's name.
    name: String,
    /// Roles granted to the user.
    roles: Vec<Role>,
}

/// A user as mathematical values.
pub struct UserView {
    /// The user's name.
    pub name: Seq<char>,
    /// The roles granted to the user.
    pub roles: Seq<RoleView>,
}

impl View for User {
    type V = UserView;

    closed spec fn view(&self) -> UserView {
        UserView { name: self.name@, roles: role_views(self.roles@) }
    }
}

impl User {
    /// Makes the record of a user out of its name and the roles granted to it.
    pub fn new(name: &str, roles: Vec<Role>) -> (r: User)
        ensures
            r@ == (UserView { name: name@, roles: role_views(roles@) }),
    {
        User { name: name.to_owned(), roles }
    }

    /// Returns the user's name.
    pub fn name(&self) -> (r: &str)
        ensures
            r@ == self@.name,
    {
        self.name.as_str()
    }

    /// Returns the roles granted to the user.
    pub fn roles(&self) -> (r: &[Role])
        ensures
            role_views(r@) == self@.roles,
    {
        self.roles.as_slice()
    }
}

/// Paramters used to create a new etcd user.
#[derive(Debug, Clone, PartialEq, Eq, Hash)]
pub struct NewUser {
    /// The user's name.
    name: String,
    /// The user's password.
    password: String,
    /// An initial set of roles granted to the user.
    roles: Option<Vec<String>>,
}

/// A new user as mathematical values.
pub struct NewUserView {
    /// The user's name.
    pub name: Seq<char>,
    /// The user's password.
    pub password: Seq<char>,
    /// The roles granted to the user from the start, if any was named.
    pub roles: Option<Seq<Seq<char>>>,
}

impl View for NewUser {
    type V = NewUserView;

    closed spec fn view(&self) -> NewUserView {
        NewUserView { name: self.name@, password: self.password@, roles: listed(self.roles) }
    }
}

impl NewUser {
    /// Creates a new user.
    pub fn new(name: &str, password: &str) -> (r: NewUser)
        ensures
            r@ == (NewUserView { name: name@, password: password@, roles: None }),
    {
        NewUser { name: name.to_owned(), password: password.to_owned(), roles: None }
    }

    /// Grants a role to the new user.
    pub fn add_role(&mut self, role: &str)
        ensures
            final(self)@ == (NewUserView {
                roles: with_text(old(self)@.roles, role@),
                ..old(self)@
            }),
    {
        add_text(&mut self.roles, role)
    }

    /// Returns the user's name.
    pub fn name(&self) -> (r: &str)
        ensures
            r@ == self@.name,
    {
        self.name.as_str()
    }

    /// Returns the user's password.
    pub fn password(&self) -> (r: &str)
        ensures
            r@ == self@.password,
    {
        self.password.as_str()
    }

    /// Returns the roles granted to the user from the start, if any was named.
    pub fn roles(&self) -> (r: &Option<Vec<String>>)
        ensures
            listed(*r) == self@.roles,
    {
        &self.roles
    }
}

/// Parameters used to update an existing etcd user.
#[derive(Debug, Clone, PartialEq, Eq, Hash)]
pub struct UserUpdate {
    /// The user's name.
    name: String,
    /// A new password for the user.
    password: Option<String>,
    /// Roles being granted to the user.
    grants: Option<Vec<String>>,
    /// Roles being revoked from the user.
    revocations: Option<Vec<String>>,
}

/// An update of a user as mathematical values.
pub struct UserUpdateView {
    /// The user's name.
    pub name: Seq<char>,
    /// The new password, if one was set.
    pub password: Option<Seq<char>>,
    /// The roles being granted, if any was named.
    pub grants: Option<Seq<Seq<char>>>,
    /// The roles being revoked, if any was named.
    pub revocations: Option<Seq<Seq<char>>>,
}

impl View for UserUpdate {
    type V = UserUpdateView;

    closed spec fn view(&self) -> UserUpdateView {
        UserUpdateView {
            name: self.name@,
            password: worded(self.password),
            grants: listed(self.grants),
            revocations: listed(self.revocations),
        }
    }
}

impl UserUpdate {
    /// Creates a new `UserUpdate` for the given user.
    pub fn new(name: &str) -> (r: UserUpdate)
        ensures
            r@ == (UserUpdateView {
                name: name@,
                password: None,
                grants: None,
                revocations: None,
            }),
    {
        UserUpdate { name: name.to_owned(), password: None, grants: None, revocations: None }
    }

    /// Updates the user's password.
    pub fn update_password(&mut self, password: &str)
        ensures
            final(self)@ == (UserUpdateView { password: Some(password@), ..old(self)@ }),
    {
        self.password = Some(password.to_owned());
    }

    /// Grants the given role to the user.
    pub fn grant_role(&mut self, role: &str)
        ensures
            final(self)@ == (UserUpdateView {
                grants: with_text(old(self)@.grants, role@),
                ..old(self)@
            }),
    {
        add_text(&mut self.grants, role)
    }

    /// Revokes the given role from the user.
    pub fn revoke_role(&mut self, role: &str)
        ensures
            final(self)@ == (UserUpdateView {
                revocations: with_text(old(self)@.revocations, role@),
                ..old(self)@
            }),
    {
        add_text(&mut self.revocations, role)
    }

    /// Returns the user's name.
    pub fn name(&self) -> (r: &str)
        ensures
            r@ == self@.name,
    {
        self.name.as_str()
    }

    /// Returns the new password, if one was set.
    pub fn password(&self) -> (r: &Option<String>)
        ensures
            worded(*r) == self@.password,
    {
        &self.password
    }

    /// Returns the roles being granted, if any was named.
    pub fn grants(&self) -> (r: &Option<Vec<String>>)
        ensures
            listed(*r) == self@.grants,
    {
        &self.grants
    }

    /// Returns the roles being revoked, if any was named.
    pub fn revocations(&self) -> (r: &Option<Vec<String>>)
        ensures
            listed(*r) == self@.revocations,
    {
        &self.revocations
    }
}

} // verus!
