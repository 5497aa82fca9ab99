//! Decoders for the on-disk persistence format of a ZooKeeper-style
//! coordination service: its write-ahead transaction log ("txnlog") and its
//! periodic state snapshots.
//!
//! Both file kinds share a small header and a custom, non-self-describing
//! binary encoding ("Jute"): big-endian fixed-width integers, length-prefixed
//! strings and byte buffers, count-prefixed sequences and maps, structs laid
//! out as plain field tuples, and enumerations whose integer discriminants are
//! resolved through a per-session registry.
//!
//! The crate is organised leaf-first: [`codec`] holds the binary decoding
//! engine and the enum discriminant registry, [`txn`] the transaction record
//! shapes and their decoders, [`persistence`] the two file-level readers, and
//! [`proto`] the protocol's code tables and message catalogue. This root
//! module holds the small tagged scalar types shared by all of them.

use vstd::prelude::*;

pub mod codec;
pub mod error;
pub mod persistence;
pub mod proto;
pub mod txn;

verus! {

/// Transaction id of a committed state change; non-decreasing across a log.
#[derive(Debug, Copy, Clone, PartialEq, Eq, Structural)]
pub struct Zxid(pub i64);

/// Wall-clock time in milliseconds, as the server recorded it.
#[derive(Debug, Copy, Clone, PartialEq, Eq, Structural)]
pub struct Timestamp(pub u64);

/// A time span in milliseconds, such as a session timeout.
#[derive(Debug, Copy, Clone, PartialEq, Eq, Structural)]
pub struct Duration(pub i32);

/// Version counter of a node's data, children or ACL.
#[derive(Debug, Copy, Clone, PartialEq, Eq, Structural)]
pub struct Version(pub i32);

/// The version value that matches any version in a conditional operation.
pub fn any_version() -> (r: Version)
    ensures
        r.0 == -1,
{
    Version(-1)
}

/// A version that may be absent (negative when absent).
#[derive(Debug, Copy, Clone, PartialEq, Eq, Structural)]
pub struct OptionalVersion(pub i32);

/// Server-assigned identifier of a client session.
#[derive(Debug, Copy, Clone, PartialEq, Eq, Structural)]
pub struct SessionId(pub i64);

/// Exchange id, a correlation id sent by a request and returned in its
/// response. It starts at 1, but can be negative for server-generated
/// notifications.
#[derive(Debug, Copy, Clone, PartialEq, Eq, Structural)]
pub struct Xid(pub i32);

/// Permissions associated to an ACL, one bit per permission.
#[derive(Debug, Copy, Clone, PartialEq, Eq, Structural)]
pub struct Perms(pub u32);

impl Perms {
    /// Checks that `self` grants all permissions granted by `perm`.
    pub fn has(&self, perm: Perms) -> (r: bool)
        ensures
            r == (self.0 & perm.0 == perm.0),
    {
        proof {
            let a: u32 = self.0;
            let b: u32 = perm.0;
            assert((a & b) ^ b == 0 <==> a & b == b) by (bit_vector);
        }
        (self.0 & perm.0) ^ perm.0 == 0
    }

    /// The permission set granting everything `self` or `other` grants.
    pub fn union(self, other: Perms) -> (r: Perms)
        ensures
            r.0 == self.0 | other.0,
    {
        Perms(self.0 | other.0)
    }
}

/// Permission to read a node's data and list its children.
pub fn perm_read() -> (r: Perms)
    ensures
        r.0 == 0x01,
{
    Perms(0x01)
}

/// Permission to set a node's data.
pub fn perm_write() -> (r: Perms)
    ensures
        r.0 == 0x02,
{
    Perms(0x02)
}

/// Permission to create children.
pub fn perm_create() -> (r: Perms)
    ensures
        r.0 == 0x04,
{
    Perms(0x04)
}

/// Permission to delete children.
pub fn perm_delete() -> (r: Perms)
    ensures
        r.0 == 0x08,
{
    Perms(0x08)
}

/// Permission to set permissions.
pub fn perm_admin() -> (r: Perms)
    ensures
        r.0 == 0x10,
{
    Perms(0x10)
}

/// The union of all five permissions.
pub fn perm_all() -> (r: Perms)
    ensures
        r.0 == 0x1f,
{
    Perms(0x1f)
}

/// How a node is created: whether it outlives its creator's session, whether
/// its name gets a sequence suffix, and whether it is a container or carries
/// a time-to-live.
#[derive(Debug, Copy, Clone, PartialEq, Eq, Structural)]
pub enum CreateMode {
    Persistent,
    Ephemeral,
    PersistentSequential,
    EphemeralSequential,
    Container,
    PersistentWithTTL,
    PersistentSequentialWithTTL,
}

impl CreateMode {
    /// Whether nodes of this mode are deleted when the owning session closes.
    pub fn is_ephemeral(&self) -> (r: bool)
        ensures
            r == (self is Ephemeral || self is EphemeralSequential),
    {
        match self {
            CreateMode::Ephemeral | CreateMode::EphemeralSequential => true,
            _ => false,
        }
    }

    /// Whether nodes of this mode get a monotonically increasing name suffix.
    pub fn is_sequential(&self) -> (r: bool)
        ensures
            r == (self is PersistentSequential || self is EphemeralSequential),
    {
        match self {
            CreateMode::PersistentSequential | CreateMode::EphemeralSequential => true,
            _ => false,
        }
    }

    /// Whether nodes of this mode are containers, reaped once childless.
    pub fn is_container(&self) -> (r: bool)
        ensures
            r == (self is Container),
    {
        match self {
            CreateMode::Container => true,
            _ => false,
        }
    }

    /// Whether nodes of this mode carry a time-to-live.
    pub fn is_ttl(&self) -> (r: bool)
        ensures
            r == (self is PersistentWithTTL || self is PersistentSequentialWithTTL),
    {
        match self {
            CreateMode::PersistentWithTTL | CreateMode::PersistentSequentialWithTTL => true,
            _ => false,
        }
    }
}

/// An identity an ACL refers to: an authentication scheme and an id within it.
#[derive(Debug, Clone, PartialEq, Eq)]
pub struct Id {
    pub scheme: String,
    pub id: String,
}

/// One access-control entry: a permission set granted to an identity.
#[derive(Debug, Clone, PartialEq, Eq)]
pub struct ACL {
    pub perms: Perms,
    pub id: Id,
}

/// Information about a node shared with clients.
#[derive(Debug, Copy, Clone, PartialEq, Eq, Structural)]
pub struct Stat {
    /// Created zxid
    pub czxid: Zxid,
    /// Last modified zxid
    pub mzxid: Zxid,
    /// Created time
    pub ctime: Timestamp,
    /// Last modified time
    pub mtime: Timestamp,
    /// Version
    pub version: Version,
    /// Child version
    pub cversion: Version,
    /// ACL version
    pub aversion: Version,
    /// Owner id if ephemeral, 0 otherwise
    pub ephemeral_owner: SessionId,
    /// Length of the data in the node
    pub data_length: i32,
    /// Number of children of this node
    pub num_children: i32,
    /// Last modified children
    pub pzxid: Zxid,
}

/// The part of a node's information the server stores persistently.
#[derive(Debug, Copy, Clone, PartialEq, Eq, Structural)]
pub struct StatPersisted {
    /// created zxid
    pub czxid: Zxid,
    /// last modified zxid
    pub mzxid: Zxid,
    /// created
    pub ctime: Timestamp,
    /// last modified
    pub mtime: Timestamp,
    /// version
    pub version: Version,
    /// child version
    pub cversion: Version,
    /// acl version
    pub aversion: Version,
    /// owner id if ephemeral, 0 otherwise
    pub ephemeral_owner: SessionId,
    /// last modified children
    pub pzxid: Zxid,
}

} // verus!
