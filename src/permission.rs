use vstd::prelude::*;

verus! {

pub const SHARE: u8 = 1;

pub const WRITE_OWNED: u8 = 2;

pub const READ_ALL: u8 = 4;

pub const WRITE_ALL: u8 = 8;

pub const READ_USERS: u8 = 16;

pub const WRITE_USERS: u8 = 32;

/// Every capability bit (`SHARE | WRITE_OWNED | READ_ALL | WRITE_ALL |
/// READ_USERS | WRITE_USERS`); any other bit is invalid.
pub const ADMIN: u8 = 0x3f;

/// `SHARE | WRITE_OWNED | READ_USERS`.
pub const UNPRIVILEGED: u8 = 0x13;

/// A read-only grant on a single object.
pub const SINGLE_FILE_R: u8 = 0;

/// Owned writes on a single object.
pub const SINGLE_FILE_RW: u8 = WRITE_OWNED;

/// A set of capability bits, persisted in tokens and in metadata rows:
/// the numeric value of each bit never changes.
#[derive(Clone, Copy, Debug, PartialEq, Eq, Structural)]
pub struct Permission {
    pub bits: u8,
}

impl Permission {
    pub open spec fn view(self) -> u8 {
        self.bits
    }

    /// Every bit of `mask` is set in `self`.
    pub open spec fn has(self, mask: u8) -> bool {
        self.bits & mask == mask
    }

    pub open spec fn can_share(self) -> bool {
        self.has(SHARE)
    }

    pub open spec fn can_read_all(self) -> bool {
        self.has(READ_ALL)
    }

    /// A broader write capability implies the narrower one.
    pub open spec fn can_write_owned(self) -> bool {
        self.has(WRITE_OWNED) || self.has(WRITE_ALL)
    }

    pub open spec fn can_write_all(self) -> bool {
        self.has(WRITE_ALL)
    }

    pub open spec fn can_read_users(self) -> bool {
        self.has(READ_USERS)
    }

    pub open spec fn can_write_users(self) -> bool {
        self.has(WRITE_USERS)
    }

    pub open spec fn well_formed(self) -> bool {
        self.bits & !ADMIN == 0
    }

    pub fn bits(&self) -> (r: u8)
        ensures
            r == self@,
    {
        self.bits
    }

    /// The set with exactly these bits, or `None` where a bit outside the
    /// named capabilities is set.
    pub fn from_bits(bits: u8) -> (r: Option<Permission>)
        ensures
            r is Some <==> bits & !ADMIN == 0,
            r matches Some(p) ==> p@ == bits && p.well_formed(),
    {
        if bits & !ADMIN == 0 {
            Some(Permission { bits })
        } else {
            None
        }
    }

    pub fn empty() -> (r: Permission)
        ensures
            r@ == 0,
    {
        Permission { bits: 0 }
    }

    pub fn all() -> (r: Permission)
        ensures
            r@ == ADMIN,
    {
        Permission { bits: ADMIN }
    }

    /// The set of every capability.
    pub fn admin() -> (r: Permission)
        ensures
            r@ == ADMIN,
    {
        Permission { bits: ADMIN }
    }

    /// The set given to ordinary users.
    pub fn unprivileged() -> (r: Permission)
        ensures
            r@ == UNPRIVILEGED,
    {
        Permission { bits: UNPRIVILEGED }
    }

    pub fn contains(&self, other: Permission) -> (r: bool)
        ensures
            r == self.has(other@),
    {
        self.bits & other.bits == other.bits
    }

    pub fn union(self, other: Permission) -> (r: Permission)
        ensures
            r@ == self@ | other@,
    {
        Permission { bits: self.bits | other.bits }
    }

    pub fn intersection(self, other: Permission) -> (r: Permission)
        ensures
            r@ == self@ & other@,
    {
        Permission { bits: self.bits & other.bits }
    }

    /// The bits of `self` that are not in `other`.
    pub fn difference(self, other: Permission) -> (r: Permission)
        ensures
            r@ == self@ & !other@,
    {
        Permission { bits: self.bits & !other.bits }
    }
}

/// The composite sets grant what their definitions say: `ADMIN` every
/// predicate, `UNPRIVILEGED` sharing, owned writes and reading users but
/// not writing all objects, and `WRITE_ALL` alone implies owned writes.
pub proof fn lemma_permission_algebra(admin: Permission, unprivileged: Permission, p: Permission)
    requires
        admin@ == ADMIN,
        unprivileged@ == UNPRIVILEGED,
    ensures
        admin.can_share(),
        admin.can_read_all(),
        admin.can_write_owned(),
        admin.can_write_all(),
        admin.can_read_users(),
        admin.can_write_users(),
        unprivileged.can_share(),
        unprivileged.can_write_owned(),
        unprivileged.can_read_users(),
        !unprivileged.can_write_all(),
        p.has(WRITE_ALL) ==> p.can_write_owned(),
{
    assert(0x3fu8 & 1u8 == 1u8) by (bit_vector);
    assert(0x3fu8 & 2u8 == 2u8) by (bit_vector);
    assert(0x3fu8 & 4u8 == 4u8) by (bit_vector);
    assert(0x3fu8 & 8u8 == 8u8) by (bit_vector);
    assert(0x3fu8 & 16u8 == 16u8) by (bit_vector);
    assert(0x3fu8 & 32u8 == 32u8) by (bit_vector);
    assert(0x13u8 & 1u8 == 1u8) by (bit_vector);
    assert(0x13u8 & 2u8 == 2u8) by (bit_vector);
    assert(0x13u8 & 16u8 == 16u8) by (bit_vector);
    assert(0x13u8 & 8u8 != 8u8) by (bit_vector);
}

} // verus!
