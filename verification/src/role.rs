//! Authorization roles and the changes that can be asked for them.

use vstd::prelude::*;
use vstd::string::*;

verus! {

/// A list of texts as sequences of characters.
pub open spec fn texts(list: Seq<String>) -> Seq<Seq<char>> {
    Seq::new(list.len(), |i: int| list[i]@)
}

/// Puts a text at the end of a list.
fn push_text(list: &mut Vec<String>, text: &str)
    ensures
        texts(final(list)@) == texts(old(list)@).push(text@),
{
    list.push(text.to_owned());
}

/// Takes the first occurrence of a text out of a list, if it occurs there.
fn remove_text(list: &mut Vec<String>, text: &str)
    ensures
        texts(final(list)@) == texts(old(list)@).remove_value(text@),
{
    let wanted = text.to_owned();
    let ghost before = texts(list@);
    let mut i: usize = 0;
    while i < list.len()
        invariant
            i <= list.len(),
            *list == *old(list),
            before == texts(list@),
            wanted@ == text@,
            forall|j: int| 0 <= j < i ==> before[j] != text@,
        decreases list.len() - i,
    {
        assert(before[i as int] == list@[i as int]@);
        if list[i] == wanted {
            proof {
                before.index_of_first_ensures(text@);
            }
            list.remove(i);
            return ;
        }
        i = i + 1;
    }
    proof {
        before.index_of_first_ensures(text@);
    }
}

/// A set of read and write access permissions for etcd resources.
#[derive(Debug, Clone, PartialEq, Eq, Hash)]
struct Permission {
    /// Resources allowed to be read.
    read: Vec<String>,
    /// Resources allowed to be written.
    write: Vec<String>,
}

impl Permission {
    /// Creates a new permission record.
    fn new() -> (r: Permission)
        ensures
            r.read@.len() == 0,
            r.write@.len() == 0,
    {
        Permission { read: Vec::new(), write: Vec::new() }
    }

    /// Grants read access to a resource.
    fn add_read_permission(&mut self, key: &str)
        ensures
            texts(final(self).read@) == texts(old(self).read@).push(key@),
            final(self).write == old(self).write,
    {
        push_text(&mut self.read, key)
    }

    /// Grants write access to a resource.
    fn add_write_permission(&mut self, key: &str)
        ensures
            texts(final(self).write@) == texts(old(self).write@).push(key@),
            final(self).read == old(self).read,
    {
        push_text(&mut self.write, key)
    }

    /// Revokes read access to a resource.
    fn remove_read_permission(&mut self, key: &str)
        ensures
            texts(final(self).read@) == texts(old(self).read@).remove_value(key@),
            final(self).write == old(self).write,
    {
        remove_text(&mut self.read, key)
    }

    /// Revokes write access to a resource.
    fn remove_write_permission(&mut self, key: &str)
        ensures
            texts(final(self).write@) == texts(old(self).write@).remove_value(key@),
            final(self).read == old(self).read,
    {
        remove_text(&mut self.write, key)
    }
}

/// The access permissions granted to a role.
#[derive(Debug, Clone, PartialEq, Eq, Hash)]
struct Permissions {
    /// Permissions for etcd's key-value store.
    kv: Permission,
}

impl Permissions {
    /// Creates a new set of permissions.
    fn new() -> (r: Permissions)
        ensures
            r.kv.read@.len() == 0,
            r.kv.write@.len() == 0,
    {
        Permissions { kv: Permission::new() }
    }
}

/// An authorization role.
#[derive(Debug, Clone, PartialEq, Eq, Hash)]
pub struct Role {
    /// The name of the role.
    name: String,
    /// Permissions granted to the role.
    permissions: Permissions,
}

/// A role as mathematical values.
pub struct RoleView {
    /// The name of the role.
    pub name: Seq<char>,
    /// The keys that the role may read, in the order in which they were granted.
    pub kv_read: Seq<Seq<char>>,
    /// The keys that the role may write, in the order in which they were granted.
    pub kv_write: Seq<Seq<char>>,
}

impl View for Role {
    type V = RoleView;

    closed spec fn view(&self) -> RoleView {
        RoleView {
            name: self.name@,
            kv_read: texts(self.permissions.kv.read@),
            kv_write: texts(self.permissions.kv.write@),
        }
    }
}

impl Role {
    /// Creates a new role.
    pub fn new(name: &str) -> (r: Role)
        ensures
            r@ == (RoleView { name: name@, kv_read: Seq::empty(), kv_write: Seq::empty() }),
    {
        let role = Role { name: name.to_owned(), permissions: Permissions::new() };
        assert(role@.kv_read =~= Seq::empty());
        assert(role@.kv_write =~= Seq::empty());
        role
    }

    /// Returns the name of the role.
    pub fn name(&self) -> (r: &str)
        ensures
            r@ == self@.name,
    {
        self.name.as_str()
    }

    /// Grants read permission for a key in etcd's key-value store to this role.
    pub fn add_kv_read_permission(&mut self, key: &str)
        ensures
            final(self)@ == (RoleView {
                kv_read: old(self)@.kv_read.push(key@),
                ..old(self)@
            }),
    {
        self.permissions.kv.add_read_permission(key)
    }

    /// Grants write permission for a key in etcd's key-value store to this role.
    pub fn add_kv_write_permission(&mut self, key: &str)
        ensures
            final(self)@ == (RoleView {
                kv_write: old(self)@.kv_write.push(key@),
                ..old(self)@
            }),
    {
        self.permissions.kv.add_write_permission(key)
    }

    /// Returns a list of keys in etcd's key-value store that this role is allowed to read.
    pub fn kv_read_permissions(&self) -> (r: &[String])
        ensures
            texts(r@) == self@.kv_read,
    {
        self.permissions.kv.read.as_slice()
    }

    /// Returns a list of keys in etcd's key-value store that this role is allowed to write.
    pub fn kv_write_permissions(&self) -> (r: &[String])
        ensures
            texts(r@) == self@.kv_write,
    {
        self.permissions.kv.write.as_slice()
    }
}

/// Parameters used to update an existing authorization role.
#[derive(Debug, Clone, PartialEq, Eq, Hash)]
pub struct RoleUpdate {
    /// The name of the role.
    name: String,
    /// Permissions being added to the role.
    grants: Permissions,
    /// Permissions being removed from the role.
    revocations: Permissions,
}

/// An update of a role as mathematical values.
pub struct RoleUpdateView {
    /// The name of the role.
    pub name: Seq<char>,
    /// The keys for which read permission is granted.
    pub granted_read: Seq<Seq<char>>,
    /// The keys for which write permission is granted.
    pub granted_write: Seq<Seq<char>>,
    /// The keys for which read permission is revoked.
    pub revoked_read: Seq<Seq<char>>,
    /// The keys for which write permission is revoked.
    pub revoked_write: Seq<Seq<char>>,
}

impl View for RoleUpdate {
    type V = RoleUpdateView;

    closed spec fn view(&self) -> RoleUpdateView {
        RoleUpdateView {
            name: self.name@,
            granted_read: texts(self.grants.kv.read@),
            granted_write: texts(self.grants.kv.write@),
            revoked_read: texts(self.revocations.kv.read@),
            revoked_write: texts(self.revocations.kv.write@),
        }
    }
}

impl RoleUpdate {
    /// Creates a new `RoleUpdate` for the given role.
    pub fn new(role: &str) -> (r: RoleUpdate)
        ensures
            r@ == (RoleUpdateView {
                name: role@,
                granted_read: Seq::empty(),
                granted_write: Seq::empty(),
                revoked_read: Seq::empty(),
                revoked_write: Seq::empty(),
            }),
    {
        let update = RoleUpdate {
            name: role.to_owned(),
            grants: Permissions::new(),
            revocations: Permissions::new(),
        };
        assert(update@.granted_read =~= Seq::empty());
        assert(update@.granted_write =~= Seq::empty());
        assert(update@.revoked_read =~= Seq::empty());
        assert(update@.revoked_write =~= Seq::empty());
        update
    }

    /// Returns the name of the role.
    pub fn name(&self) -> (r: &str)
        ensures
            r@ == self@.name,
    {
        self.name.as_str()
    }

    /// Returns the keys for which read permission is granted.
    pub fn granted_kv_read_permissions(&self) -> (r: &[String])
        ensures
            texts(r@) == self@.granted_read,
    {
        self.grants.kv.read.as_slice()
    }

    /// Returns the keys for which write permission is granted.
    pub fn granted_kv_write_permissions(&self) -> (r: &[String])
        ensures
            texts(r@) == self@.granted_write,
    {
        self.grants.kv.write.as_slice()
    }

    /// Returns the keys for which read permission is revoked.
    pub fn revoked_kv_read_permissions(&self) -> (r: &[String])
        ensures
            texts(r@) == self@.revoked_read,
    {
        self.revocations.kv.read.as_slice()
    }

    /// Returns the keys for which write permission is revoked.
    pub fn revoked_kv_write_permissions(&self) -> (r: &[String])
        ensures
            texts(r@) == self@.revoked_write,
    {
        self.revocations.kv.write.as_slice()
    }

    /// Grants read permission for a key in etcd's key-value store to this role.
    pub fn grant_kv_read_permission(&mut self, key: &str)
        ensures
            final(self)@ == (RoleUpdateView {
                granted_read: old(self)@.granted_read.push(key@),
                ..old(self)@
            }),
    {
        self.grants.kv.add_read_permission(key)
    }

    /// Grants write permission for a key in etcd's key-value store to this role.
    pub fn grant_kv_write_permission(&mut self, key: &str)
        ensures
            final(self)@ == (RoleUpdateView {
                granted_write: old(self)@.granted_write.push(key@),
                ..old(self)@
            }),
    {
        self.grants.kv.add_write_permission(key)
    }

    /// Revokes read permission for a key in etcd's key-value store from this role.
    ///
    /// The key leaves the list of revoked read permissions, where it stands there.
    pub fn revoke_kv_read_permission(&mut self, key: &str)
        ensures
            final(self)@ == (RoleUpdateView {
                revoked_read: old(self)@.revoked_read.remove_value(key@),
                ..old(self)@
            }),
    {
        self.revocations.kv.remove_read_permission(key)
    }

    /// Revokes write permission for a key in etcd's key-value store from this role.
    ///
    /// The key leaves the list of revoked write permissions, where it stands there.
    pub fn revoke_kv_write_permission(&mut self, key: &str)
        ensures
            final(self)@ == (RoleUpdateView {
                revoked_write: old(self)@.revoked_write.remove_value(key@),
                ..old(self)@
            }),
    {
        self.revocations.kv.remove_write_permission(key)
    }
}

} // verus!
