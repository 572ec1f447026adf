//! A named, directory-resolved holder of a permission set. Roles are
//! created administratively and looked up read-only by the pipeline.

use vstd::prelude::*;

use crate::permissions::{PermSet, Permission};

verus! {

/// Mathematical view of a role.
pub ghost struct RoleView {
    pub id: int,
    pub name: Seq<char>,
    pub permissions: PermSet,
    pub description: Option<Seq<char>>,
    pub created_at: int,
}

/// A role: a name, its capability mask, and bookkeeping fields.
#[derive(Debug)]
pub struct Role {
    id: i32,
    name: String,
    permissions: Permission,
    description: Option<String>,
    created_at: i64,
}

impl View for Role {
    type V = RoleView;

    closed spec fn view(&self) -> RoleView {
        RoleView {
            id: self.id as int,
            name: self.name@,
            permissions: self.permissions@,
            description: match self.description {
                Some(d) => Some(d@),
                None => None,
            },
            created_at: self.created_at as int,
        }
    }
}

impl Role {
    /// Builds a role record field by field; `created_at` is a Unix
    /// timestamp in seconds.
    pub fn new(
        id: i32,
        name: &str,
        permissions: Permission,
        description: Option<&str>,
        created_at: i64,
    ) -> (r: Role)
        ensures
            r@ == (RoleView {
                id: id as int,
                name: name@,
                permissions: permissions@,
                description: description.deep_view(),
                created_at: created_at as int,
            }),
    {
        Role {
            id,
            name: name.to_owned(),
            permissions,
            description: match description {
                Some(d) => Some(d.to_owned()),
                None => None,
            },
            created_at,
        }
    }

    /// The role's identifier.
    pub fn id(&self) -> (r: i32)
        ensures
            r as int == self@.id,
    {
        self.id
    }

    /// The role's name.
    pub fn name(&self) -> (r: &str)
        ensures
            r@ == self@.name,
    {
        self.name.as_str()
    }

    /// The role's capability mask.
    pub fn permissions(&self) -> (r: &Permission)
        ensures
            r@ == self@.permissions,
    {
        &self.permissions
    }

    /// The role's description, where one was recorded.
    pub fn description(&self) -> (r: Option<&str>)
        ensures
            r.deep_view() == self@.description,
    {
        match &self.description {
            Some(d) => Some(d.as_str()),
            None => None,
        }
    }

    /// When the role was created, as a Unix timestamp in seconds.
    pub fn created_at(&self) -> (r: i64)
        ensures
            r as int == self@.created_at,
    {
        self.created_at
    }

    /// Whether the role grants the read capability.
    pub fn can_read(&self) -> (r: bool)
        ensures
            r == self@.permissions.read,
    {
        self.permissions.can_read()
    }

    /// Whether the role grants the write capability.
    pub fn can_write(&self) -> (r: bool)
        ensures
            r == self@.permissions.write,
    {
        self.permissions.can_write()
    }

    /// Whether the role grants the delete capability.
    pub fn can_delete(&self) -> (r: bool)
        ensures
            r == self@.permissions.delete,
    {
        self.permissions.can_delete()
    }

    /// Whether the role grants the manage-users capability.
    pub fn can_manage_users(&self) -> (r: bool)
        ensures
            r == self@.permissions.manage_users,
    {
        self.permissions.can_manage_users()
    }
}

} // verus!
