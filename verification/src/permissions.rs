//! Capability bitmask attached to a role: read, write, delete and
//! manage-users bits, with an "all" shortcut, and its sparse JSON view.

use vstd::prelude::*;

verus! {

/// Bit for the read capability.
pub const PERMISSION_READ: u8 = 0x1;
/// Bit for the write capability.
pub const PERMISSION_WRITE: u8 = 0x2;
/// Bit for the delete capability.
pub const PERMISSION_DELETE: u8 = 0x4;
/// Bit for the manage-users capability.
pub const PERMISSION_MANAGE_USERS: u8 = 0x8;
/// All four capability bits at once.
pub const PERMISSION_ALL: u8 = 0xF;

/// Mathematical view of a `Permission`: one flag per capability.
pub ghost struct PermSet {
    pub read: bool,
    pub write: bool,
    pub delete: bool,
    pub manage_users: bool,
}

impl PermSet {
    /// The view of the mask that grants every capability.
    pub open spec fn full() -> PermSet {
        PermSet { read: true, write: true, delete: true, manage_users: true }
    }

    /// The view of the empty mask.
    pub open spec fn empty() -> PermSet {
        PermSet { read: false, write: false, delete: false, manage_users: false }
    }
}

/// Capability bitmask of a role.
#[derive(Debug, Clone)]
pub struct Permission {
    permissions: u8,
}

impl View for Permission {
    type V = PermSet;

    closed spec fn view(&self) -> PermSet {
        PermSet {
            read: self.permissions & PERMISSION_READ == PERMISSION_READ,
            write: self.permissions & PERMISSION_WRITE == PERMISSION_WRITE,
            delete: self.permissions & PERMISSION_DELETE == PERMISSION_DELETE,
            manage_users: self.permissions & PERMISSION_MANAGE_USERS == PERMISSION_MANAGE_USERS,
        }
    }
}

impl Permission {
    /// An empty permission set: no capability granted.
    pub fn new() -> (r: Permission)
        ensures
            r@ == PermSet::empty(),
    {
        let r = Permission { permissions: 0 };
        proof {
            assert(0u8 & PERMISSION_READ != PERMISSION_READ) by (bit_vector);
            assert(0u8 & PERMISSION_WRITE != PERMISSION_WRITE) by (bit_vector);
            assert(0u8 & PERMISSION_DELETE != PERMISSION_DELETE) by (bit_vector);
            assert(0u8 & PERMISSION_MANAGE_USERS != PERMISSION_MANAGE_USERS) by (bit_vector);
        }
        r
    }

    /// Builds the set whose mask is exactly `bits`.
    pub fn from_bits(bits: u8) -> (r: Permission)
        ensures
            r@.read == (bits & PERMISSION_READ == PERMISSION_READ),
            r@.write == (bits & PERMISSION_WRITE == PERMISSION_WRITE),
            r@.delete == (bits & PERMISSION_DELETE == PERMISSION_DELETE),
            r@.manage_users == (bits & PERMISSION_MANAGE_USERS == PERMISSION_MANAGE_USERS),
    {
        Permission { permissions: bits }
    }

    fn has_permission(&self, flag: u8) -> (r: bool)
        ensures
            r == (self.permissions & flag == flag),
    {
        self.permissions & flag == flag
    }

    fn set_permission(&mut self, flag: u8, value: bool)
        ensures
            final(self).permissions == if value {
                old(self).permissions | flag
            } else {
                old(self).permissions & !flag
            },
    {
        if value {
            self.permissions = self.permissions | flag;
        } else {
            self.permissions = self.permissions & !flag;
        }
    }

    /// Whether the read capability is granted.
    pub fn can_read(&self) -> (r: bool)
        ensures
            r == self@.read,
    {
        self.has_permission(PERMISSION_READ)
    }

    /// Grants or withdraws the read capability, leaving the others unchanged.
    pub fn set_read(&mut self, value: bool)
        ensures
            final(self)@ == (PermSet { read: value, ..old(self)@ }),
    {
        let ghost m0 = self.permissions;
        self.set_permission(PERMISSION_READ, value);
        proof {
            assert((m0 | 0x1u8) & 0x1u8 == 0x1u8 && ((m0 | 0x1u8) & 0x2u8 == 0x2u8) == (m0 & 0x2u8
                == 0x2u8) && ((m0 | 0x1u8) & 0x4u8 == 0x4u8) == (m0 & 0x4u8 == 0x4u8) && ((m0
                | 0x1u8) & 0x8u8 == 0x8u8) == (m0 & 0x8u8 == 0x8u8)) by (bit_vector);
            assert((m0 & !0x1u8) & 0x1u8 != 0x1u8 && ((m0 & !0x1u8) & 0x2u8 == 0x2u8) == (m0
                & 0x2u8 == 0x2u8) && ((m0 & !0x1u8) & 0x4u8 == 0x4u8) == (m0 & 0x4u8 == 0x4u8) && (
            (m0 & !0x1u8) & 0x8u8 == 0x8u8) == (m0 & 0x8u8 == 0x8u8)) by (bit_vector);
        }
    }

    /// Whether the write capability is granted.
    pub fn can_write(&self) -> (r: bool)
        ensures
            r == self@.write,
    {
        self.has_permission(PERMISSION_WRITE)
    }

    /// Grants or withdraws the write capability, leaving the others unchanged.
    pub fn set_write(&mut self, value: bool)
        ensures
            final(self)@ == (PermSet { write: value, ..old(self)@ }),
    {
        let ghost m0 = self.permissions;
        self.set_permission(PERMISSION_WRITE, value);
        proof {
            assert((m0 | 0x2u8) & 0x2u8 == 0x2u8 && ((m0 | 0x2u8) & 0x1u8 == 0x1u8) == (m0 & 0x1u8
                == 0x1u8) && ((m0 | 0x2u8) & 0x4u8 == 0x4u8) == (m0 & 0x4u8 == 0x4u8) && ((m0
                | 0x2u8) & 0x8u8 == 0x8u8) == (m0 & 0x8u8 == 0x8u8)) by (bit_vector);
            assert((m0 & !0x2u8) & 0x2u8 != 0x2u8 && ((m0 & !0x2u8) & 0x1u8 == 0x1u8) == (m0
                & 0x1u8 == 0x1u8) && ((m0 & !0x2u8) & 0x4u8 == 0x4u8) == (m0 & 0x4u8 == 0x4u8) && (
            (m0 & !0x2u8) & 0x8u8 == 0x8u8) == (m0 & 0x8u8 == 0x8u8)) by (bit_vector);
        }
    }

    /// Whether the delete capability is granted.
    pub fn can_delete(&self) -> (r: bool)
        ensures
            r == self@.delete,
    {
        self.has_permission(PERMISSION_DELETE)
    }

    /// Grants or withdraws the delete capability, leaving the others unchanged.
    pub fn set_delete(&mut self, value: bool)
        ensures
            final(self)@ == (PermSet { delete: value, ..old(self)@ }),
    {
        let ghost m0 = self.permissions;
        self.set_permission(PERMISSION_DELETE, value);
        proof {
            assert((m0 | 0x4u8) & 0x4u8 == 0x4u8 && ((m0 | 0x4u8) & 0x1u8 == 0x1u8) == (m0 & 0x1u8
                == 0x1u8) && ((m0 | 0x4u8) & 0x2u8 == 0x2u8) == (m0 & 0x2u8 == 0x2u8) && ((m0
                | 0x4u8) & 0x8u8 == 0x8u8) == (m0 & 0x8u8 == 0x8u8)) by (bit_vector);
            assert((m0 & !0x4u8) & 0x4u8 != 0x4u8 && ((m0 & !0x4u8) & 0x1u8 == 0x1u8) == (m0
                & 0x1u8 == 0x1u8) && ((m0 & !0x4u8) & 0x2u8 == 0x2u8) == (m0 & 0x2u8 == 0x2u8) && (
            (m0 & !0x4u8) & 0x8u8 == 0x8u8) == (m0 & 0x8u8 == 0x8u8)) by (bit_vector);
        }
    }

    /// Whether the manage-users capability is granted.
    pub fn can_manage_users(&self) -> (r: bool)
        ensures
            r == self@.manage_users,
    {
        self.has_permission(PERMISSION_MANAGE_USERS)
    }

    /// Grants or withdraws the manage-users capability, leaving the others
    /// unchanged.
    pub fn set_manage_users(&mut self, value: bool)
        ensures
            final(self)@ == (PermSet { manage_users: value, ..old(self)@ }),
    {
        let ghost m0 = self.permissions;
        self.set_permission(PERMISSION_MANAGE_USERS, value);
        proof {
            assert((m0 | 0x8u8) & 0x8u8 == 0x8u8 && ((m0 | 0x8u8) & 0x1u8 == 0x1u8) == (m0 & 0x1u8
                == 0x1u8) && ((m0 | 0x8u8) & 0x2u8 == 0x2u8) == (m0 & 0x2u8 == 0x2u8) && ((m0
                | 0x8u8) & 0x4u8 == 0x4u8) == (m0 & 0x4u8 == 0x4u8)) by (bit_vector);
            assert((m0 & !0x8u8) & 0x8u8 != 0x8u8 && ((m0 & !0x8u8) & 0x1u8 == 0x1u8) == (m0
                & 0x1u8 == 0x1u8) && ((m0 & !0x8u8) & 0x2u8 == 0x2u8) == (m0 & 0x2u8 == 0x2u8) && (
            (m0 & !0x8u8) & 0x4u8 == 0x4u8) == (m0 & 0x4u8 == 0x4u8)) by (bit_vector);
        }
    }

    /// Whether every capability is granted at once.
    pub fn has_all_permissions(&self) -> (r: bool)
        ensures
            r == (self@ == PermSet::full()),
    {
        let r = self.permissions & PERMISSION_ALL == PERMISSION_ALL;
        proof {
            let m = self.permissions;
            assert((m & 0xFu8 == 0xFu8) == (m & 0x1u8 == 0x1u8 && m & 0x2u8 == 0x2u8 && m & 0x4u8
                == 0x4u8 && m & 0x8u8 == 0x8u8)) by (bit_vector);
        }
        r
    }

    /// Grants every capability, or withdraws them all.
    pub fn set_all(&mut self, value: bool)
        ensures
            final(self)@ == if value {
                PermSet::full()
            } else {
                PermSet::empty()
            },
    {
        if value {
            self.permissions = PERMISSION_ALL;
            proof {
                assert(0xFu8 & 0x1u8 == 0x1u8 && 0xFu8 & 0x2u8 == 0x2u8 && 0xFu8 & 0x4u8 == 0x4u8
                    && 0xFu8 & 0x8u8 == 0x8u8) by (bit_vector);
            }
        } else {
            self.permissions = 0;
            proof {
                assert(0u8 & 0x1u8 != 0x1u8 && 0u8 & 0x2u8 != 0x2u8 && 0u8 & 0x4u8 != 0x4u8 && 0u8
                    & 0x8u8 != 0x8u8) by (bit_vector);
            }
        }
    }

    /// The administrator permission set: every capability granted.
    pub fn admin() -> (r: Permission)
        ensures
            r@ == PermSet::full(),
    {
        let mut r = Permission::new();
        r.set_all(true);
        r
    }
}

/// Sparse JSON form of a permission mask: `all`, when present and true,
/// stands for every capability and suppresses the individual keys.
#[derive(Debug, Clone)]
pub struct PermissionJson {
    /// The `all` shortcut key, absent unless the mask is full.
    pub all: Option<bool>,
    /// The `read` key.
    pub read: Option<bool>,
    /// The `write` key.
    pub write: Option<bool>,
    /// The `delete` key.
    pub delete: Option<bool>,
    /// The `manage_users` key.
    pub manage_users: Option<bool>,
}

/// What `Permission::to_json` produces for a mask with view `p`: the bare
/// `all` shortcut for the full mask, else the four individual keys.
pub open spec fn spec_to_json(p: PermSet) -> PermissionJson {
    if p == PermSet::full() {
        PermissionJson {
            all: Some(true),
            read: None,
            write: None,
            delete: None,
            manage_users: None,
        }
    } else {
        PermissionJson {
            all: None,
            read: Some(p.read),
            write: Some(p.write),
            delete: Some(p.delete),
            manage_users: Some(p.manage_users),
        }
    }
}

/// What `Permission::from_json` reads out of a JSON form: `all: true`
/// short-circuits every capability to granted; otherwise each capability is
/// granted exactly when its key is present and true.
pub open spec fn spec_from_json(j: PermissionJson) -> PermSet {
    if j.all == Some(true) {
        PermSet::full()
    } else {
        PermSet {
            read: j.read == Some(true),
            write: j.write == Some(true),
            delete: j.delete == Some(true),
            manage_users: j.manage_users == Some(true),
        }
    }
}

impl Permission {
    /// Serialises the mask to its sparse JSON view.
    pub fn to_json(&self) -> (r: PermissionJson)
        ensures
            r == spec_to_json(self@),
    {
        if self.has_all_permissions() {
            PermissionJson { all: Some(true), read: None, write: None, delete: None, manage_users: None }
        } else {
            PermissionJson {
                all: None,
                read: Some(self.can_read()),
                write: Some(self.can_write()),
                delete: Some(self.can_delete()),
                manage_users: Some(self.can_manage_users()),
            }
        }
    }

    /// Reads a mask back from its sparse JSON view.
    pub fn from_json(j: &PermissionJson) -> (r: Permission)
        ensures
            r@ == spec_from_json(*j),
    {
        let mut permission = Permission::new();
        if let Some(true) = j.all {
            permission.set_all(true);
            return permission;
        }
        if let Some(value) = j.read {
            permission.set_read(value);
        }
        if let Some(value) = j.write {
            permission.set_write(value);
        }
        if let Some(value) = j.delete {
            permission.set_delete(value);
        }
        if let Some(value) = j.manage_users {
            permission.set_manage_users(value);
        }
        permission
    }
}

/// Serialising any permission mask to its JSON view and reading it back
/// yields the same mask; and the JSON view of the full mask carries only the
/// `all` shortcut, never an individual capability key.
pub proof fn lemma_permission_json_round_trip(p: PermSet)
    ensures
        spec_from_json(spec_to_json(p)) == p,
        p == PermSet::full() ==> spec_to_json(p).read is None && spec_to_json(p).write is None
            && spec_to_json(p).delete is None && spec_to_json(p).manage_users is None,
{
}

impl Default for Permission {
    /// An empty permission set, as `new` builds it.
    fn default() -> (r: Permission)
        ensures
            r@ == PermSet::empty(),
    {
        Permission::new()
    }
}

} // verus!
