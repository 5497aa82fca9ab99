//! The snapshot reader: a strict forward-only four-phase reader over one
//! snapshot file — header, then sessions, then the ACL cache, then data
//! nodes.
//!
//! Each phase owns the stream exclusively and is its own typestate:
//! advancing to the next phase consumes the reader and first drains whatever
//! the caller left unread in the current section, so the cursor always lands
//! exactly where consuming the whole section would put it. Once any decode
//! inside a phase fails, the reader is errored and every further call fails:
//! a garbled section never silently appears complete.

use vstd::prelude::*;
use vstd::string::StringSliceAdditionalSpecFns;
use vstd::string::StrSliceExecFns;
use vstd::utf8::encode_utf8;

use crate::codec::decode_elems;
use crate::codec::decode_parser;
use crate::codec::from_reader;
use crate::codec::lemma_elems_split;
use crate::codec::spec_buffer;
use crate::codec::spec_count;
use crate::codec::spec_counted;
use crate::codec::spec_elems;
use crate::codec::spec_i32;
use crate::codec::spec_i64;
use crate::codec::spec_string;
use crate::codec::spec_u64;
use crate::codec::Decode;
use crate::codec::Deserializer;
use crate::codec::EnumMappingView;
use crate::error::Error;
use crate::persistence::spec_zxid_from_path;
use crate::persistence::zxid_from_path;
use crate::persistence::FileHeader;
use crate::persistence::SNAP_MAGIC;
use crate::txn::ACLView;
use crate::Duration;
use crate::SessionId;
use crate::StatPersisted;
use crate::Timestamp;
use crate::Version;
use crate::Zxid;
use crate::ACL;

verus! {

/// A reference into the ACL cache, stored by data nodes in place of their
/// access-control list.
#[derive(Debug, Copy, Clone, PartialEq, Eq, Structural)]
pub struct ACLRef(pub i64);

/// One client session held open at capture time.
#[derive(Debug, Copy, Clone, PartialEq, Eq, Structural)]
pub struct Session {
    pub id: SessionId,
    pub timeout: Duration,
}

impl View for Session {
    type V = Session;

    open spec fn view(&self) -> Session {
        *self
    }
}

impl Decode for Session {
    open spec fn spec_decode(reg: Seq<EnumMappingView>, s: Seq<u8>) -> Result<
        (Session, Seq<u8>),
        Error,
    > {
        match spec_i64(s) {
            Err(e) => Err(e),
            Ok((id, s1)) => match spec_i32(s1) {
                Err(e) => Err(e),
                Ok((timeout, s2)) => Ok(
                    ((Session { id: SessionId(id), timeout: Duration(timeout) }), s2),
                ),
            },
        }
    }

    fn decode(d: &mut Deserializer) -> (r: Result<Session, Error>) {
        let id = match d.read_i64() {
            Ok(v) => v,
            Err(e) => { return Err(e) },
        };
        let timeout = match d.read_i32() {
            Ok(v) => v,
            Err(e) => { return Err(e) },
        };
        Ok(Session { id: SessionId(id), timeout: Duration(timeout) })
    }
}

/// One entry of the deduplicated ACL table that data nodes refer into.
#[derive(Debug, Clone, PartialEq, Eq)]
pub struct ACLCacheEntry {
    pub entry_id: ACLRef,
    pub acl: Vec<ACL>,
}

/// The mathematical content of an [`ACLCacheEntry`].
#[verifier::ext_equal]
pub struct ACLCacheEntryView {
    pub entry_id: ACLRef,
    pub acl: Seq<ACLView>,
}

impl View for ACLCacheEntry {
    type V = ACLCacheEntryView;

    open spec fn view(&self) -> ACLCacheEntryView {
        ACLCacheEntryView { entry_id: self.entry_id, acl: crate::codec::seq_view(self.acl@) }
    }
}

impl Decode for ACLCacheEntry {
    open spec fn spec_decode(reg: Seq<EnumMappingView>, s: Seq<u8>) -> Result<
        (ACLCacheEntryView, Seq<u8>),
        Error,
    > {
        match spec_i64(s) {
            Err(e) => Err(e),
            Ok((id, s1)) => match spec_counted(decode_parser::<ACL>(reg), s1) {
                Err(e) => Err(e),
                Ok((acl, s2)) => Ok(((ACLCacheEntryView { entry_id: ACLRef(id), acl }), s2)),
            },
        }
    }

    fn decode(d: &mut Deserializer) -> (r: Result<ACLCacheEntry, Error>) {
        let id = match d.read_i64() {
            Ok(v) => v,
            Err(e) => { return Err(e) },
        };
        let acl = match crate::codec::decode_vec::<ACL>(d) {
            Ok(v) => v,
            Err(e) => { return Err(e) },
        };
        Ok(ACLCacheEntry { entry_id: ACLRef(id), acl })
    }
}

impl View for StatPersisted {
    type V = StatPersisted;

    open spec fn view(&self) -> StatPersisted {
        *self
    }
}

impl Decode for StatPersisted {
    open spec fn spec_decode(reg: Seq<EnumMappingView>, s: Seq<u8>) -> Result<
        (StatPersisted, Seq<u8>),
        Error,
    > {
        match spec_i64(s) {
            Err(e) => Err(e),
            Ok((czxid, s1)) => match spec_i64(s1) {
                Err(e) => Err(e),
                Ok((mzxid, s2)) => match spec_u64(s2) {
                    Err(e) => Err(e),
                    Ok((ctime, s3)) => match spec_u64(s3) {
                        Err(e) => Err(e),
                        Ok((mtime, s4)) => match spec_i32(s4) {
                            Err(e) => Err(e),
                            Ok((version, s5)) => match spec_i32(s5) {
                                Err(e) => Err(e),
                                Ok((cversion, s6)) => match spec_i32(s6) {
                                    Err(e) => Err(e),
                                    Ok((aversion, s7)) => match spec_i64(s7) {
                                        Err(e) => Err(e),
                                        Ok((owner, s8)) => match spec_i64(s8) {
                                            Err(e) => Err(e),
                                            Ok((pzxid, s9)) => Ok(
                                                (
                                                    (StatPersisted {
                                                        czxid: Zxid(czxid),
                                                        mzxid: Zxid(mzxid),
                                                        ctime: Timestamp(ctime),
                                                        mtime: Timestamp(mtime),
                                                        version: Version(version),
                                                        cversion: Version(cversion),
                                                        aversion: Version(aversion),
                                                        ephemeral_owner: SessionId(owner),
                                                        pzxid: Zxid(pzxid),
                                                    }),
                                                    s9,
                                                ),
                                            ),
                                        },
                                    },
                                },
                            },
                        },
                    },
                },
            },
        }
    }

    fn decode(d: &mut Deserializer) -> (r: Result<StatPersisted, Error>) {
        let czxid = match d.read_i64() {
            Ok(v) => v,
            Err(e) => { return Err(e) },
        };
        let mzxid = match d.read_i64() {
            Ok(v) => v,
            Err(e) => { return Err(e) },
        };
        let ctime = match d.read_u64() {
            Ok(v) => v,
            Err(e) => { return Err(e) },
        };
        let mtime = match d.read_u64() {
            Ok(v) => v,
            Err(e) => { return Err(e) },
        };
        let version = match d.read_i32() {
            Ok(v) => v,
            Err(e) => { return Err(e) },
        };
        let cversion = match d.read_i32() {
            Ok(v) => v,
            Err(e) => { return Err(e) },
        };
        let aversion = match d.read_i32() {
            Ok(v) => v,
            Err(e) => { return Err(e) },
        };
        let owner = match d.read_i64() {
            Ok(v) => v,
            Err(e) => { return Err(e) },
        };
        let pzxid = match d.read_i64() {
            Ok(v) => v,
            Err(e) => { return Err(e) },
        };
        Ok(StatPersisted {
            czxid: Zxid(czxid),
            mzxid: Zxid(mzxid),
            ctime: Timestamp(ctime),
            mtime: Timestamp(mtime),
            version: Version(version),
            cversion: Version(cversion),
            aversion: Version(aversion),
            ephemeral_owner: SessionId(owner),
            pzxid: Zxid(pzxid),
        })
    }
}

/// One stored node: its raw data, a reference into the ACL cache, and its
/// persisted information.
#[derive(Debug, Clone, PartialEq, Eq)]
pub struct DataNode {
    pub data: Vec<u8>,
    pub acl: ACLRef,
    pub stat: StatPersisted,
}

/// The mathematical content of a [`DataNode`].
#[verifier::ext_equal]
pub struct DataNodeView {
    pub data: Seq<u8>,
    pub acl: ACLRef,
    pub stat: StatPersisted,
}

impl View for DataNode {
    type V = DataNodeView;

    open spec fn view(&self) -> DataNodeView {
        DataNodeView { data: self.data@, acl: self.acl, stat: self.stat }
    }
}

impl Decode for DataNode {
    open spec fn spec_decode(reg: Seq<EnumMappingView>, s: Seq<u8>) -> Result<
        (DataNodeView, Seq<u8>),
        Error,
    > {
        match spec_buffer(s) {
            Err(e) => Err(e),
            Ok((data, s1)) => match spec_i64(s1) {
                Err(e) => Err(e),
                Ok((acl, s2)) => match StatPersisted::spec_decode(reg, s2) {
                    Err(e) => Err(e),
                    Ok((stat, s3)) => Ok(((DataNodeView { data, acl: ACLRef(acl), stat }), s3)),
                },
            },
        }
    }

    fn decode(d: &mut Deserializer) -> (r: Result<DataNode, Error>) {
        let data = match d.read_buffer() {
            Ok(v) => v,
            Err(e) => { return Err(e) },
        };
        let acl = match d.read_i64() {
            Ok(v) => v,
            Err(e) => { return Err(e) },
        };
        let stat = match StatPersisted::decode(d) {
            Ok(v) => v,
            Err(e) => { return Err(e) },
        };
        Ok(DataNode { data, acl: ACLRef(acl), stat })
    }
}

/// The phase in which the header has been read and nothing else.
pub struct InitState {
    zxid: Zxid,
}

/// The phase that iterates the session section.
pub struct SessionsState {}

/// The phase that iterates the ACL cache section.
pub struct ACLCacheState {}

/// The phase that iterates the data node section.
pub struct DataNodesState {}

/// A snapshot file in one of its four phases. After the initial header, a
/// snapshot is a counted session section, a counted ACL cache section, and a
/// sentinel-terminated data node section; each phase owns the decoder
/// exclusively and hands it to the next phase on transition.
pub struct SnapshotFile<S> {
    deser: Deserializer,
    count: usize,
    errored: bool,
    state: S,
}

impl<S> SnapshotFile<S> {
    /// The cursor is within the stream.
    pub closed spec fn wf(&self) -> bool {
        self.deser.wf()
    }

    /// The bytes not yet consumed.
    pub closed spec fn remaining(&self) -> Seq<u8> {
        self.deser.remaining()
    }

    /// The reader's registry (a snapshot registers no enum types).
    pub closed spec fn registry(&self) -> Seq<EnumMappingView> {
        self.deser.registry()
    }

    /// How many values of the current counted section are still unread.
    pub closed spec fn spec_count(&self) -> usize {
        self.count
    }

    /// Whether a decode in this file has already failed. Once set, every
    /// further call fails: a partial section never appears complete.
    pub closed spec fn spec_errored(&self) -> bool {
        self.errored
    }
}

/// Pure parser for opening a snapshot: the file header, which must carry
/// the snapshot magic number and version 2.
pub open spec fn spec_snap_open(s: Seq<u8>) -> Result<(FileHeader, Seq<u8>), Error> {
    match FileHeader::spec_decode(Seq::empty(), s) {
        Err(e) => Err(e),
        Ok((h, rest)) => if h.magic != SNAP_MAGIC || h.version != 2 {
            Err(Error::FormatMismatch)
        } else {
            Ok((h, rest))
        },
    }
}

/// Reads one value of a counted section: nothing once the section is
/// exhausted or the reader errored; otherwise the next value, counting it
/// off, and marking the reader errored when the decode fails.
fn next_item<T: Decode, S>(snap: &mut SnapshotFile<S>) -> (r: Option<Result<T, Error>>)
    requires
        old(snap).wf(),
    ensures
        final(snap).wf(),
        final(snap).registry() == old(snap).registry(),
        (old(snap).spec_count() == 0 || old(snap).spec_errored()) ==> r is None && *final(snap) == *old(snap),
        !(old(snap).spec_count() == 0 || old(snap).spec_errored()) ==> final(snap).spec_count()
            == old(snap).spec_count() - 1 && match T::spec_decode(
            old(snap).registry(),
            old(snap).remaining(),
        ) {
            Ok((v, rest)) => r matches Some(Ok(x)) && x@ == v && final(snap).remaining() == rest
                && !final(snap).spec_errored(),
            Err(e) => r == Some(Err::<T, Error>(e)) && final(snap).spec_errored(),
        },
{
    if snap.count == 0 || snap.errored {
        return None;
    }
    snap.count = snap.count - 1;
    match T::decode(&mut snap.deser) {
        Ok(v) => Some(Ok(v)),
        Err(e) => {
            snap.errored = true;
            Some(Err(e))
        },
    }
}

impl SnapshotFile<InitState> {
    /// The transaction id current when this snapshot was captured, parsed
    /// from its file name.
    pub closed spec fn spec_zxid(&self) -> Zxid {
        self.state.zxid
    }

    /// Opens a snapshot held in memory: parses the capture transaction id
    /// from the file name and reads and validates the header.
    pub fn new(path: &str, data: Vec<u8>) -> (r: Result<SnapshotFile<InitState>, Error>)
        ensures
            match spec_zxid_from_path(path.spec_bytes()) {
                None => r == Err::<SnapshotFile<InitState>, Error>(Error::FormatMismatch),
                Some(z) => match spec_snap_open(data@) {
                    Err(e) => r == Err::<SnapshotFile<InitState>, Error>(e),
                    Ok((_h, rest)) => r matches Ok(f) && f.wf() && f.spec_zxid().0 as int == z
                        && !f.spec_errored() && f.remaining() == rest && f.registry()
                        == Seq::<EnumMappingView>::empty(),
                },
            },
    {
        let zxid = match zxid_from_path(path) {
            Some(z) => z,
            None => { return Err(Error::FormatMismatch) },
        };
        let mut deser = from_reader(data);
        let header = match FileHeader::decode(&mut deser) {
            Ok(h) => h,
            Err(e) => { return Err(e) },
        };
        if header.magic != SNAP_MAGIC {
            return Err(Error::FormatMismatch);
        }
        if header.version != 2 {
            return Err(Error::FormatMismatch);
        }
        Ok(SnapshotFile { deser, count: 0, errored: false, state: InitState { zxid } })
    }

    /// The transaction id for this snapshot.
    pub fn zxid(&self) -> (r: Zxid)
        ensures
            r == self.spec_zxid(),
    {
        self.state.zxid
    }

    /// Moves to the session section: reads the session count.
    pub fn sessions(self) -> (r: Result<SnapshotFile<SessionsState>, Error>)
        requires
            self.wf(),
        ensures
            match spec_count(self.remaining()) {
                Err(e) => r == Err::<SnapshotFile<SessionsState>, Error>(e),
                Ok((n, rest)) => r matches Ok(f) && f.wf() && f.spec_count() == n && !f
                    .spec_errored() && f.remaining() == rest && f.registry() == self.registry(),
            },
    {
        let mut deser = self.deser;
        let count = match deser.read_count() {
            Ok(v) => v,
            Err(e) => { return Err(e) },
        };
        Ok(SnapshotFile { deser, count, errored: false, state: SessionsState {  } })
    }
}

impl SnapshotFile<SessionsState> {
    /// Hands out the next session of the section, or nothing once all are
    /// read or the reader errored.
    pub fn next_session(&mut self) -> (r: Option<Result<Session, Error>>)
        requires
            old(self).wf(),
        ensures
            final(self).wf(),
            final(self).registry() == old(self).registry(),
            (old(self).spec_count() == 0 || old(self).spec_errored()) ==> r is None && *final(self) == *old(self),
            !(old(self).spec_count() == 0 || old(self).spec_errored()) ==> final(self).spec_count()
                == old(self).spec_count() - 1 && match Session::spec_decode(
                old(self).registry(),
                old(self).remaining(),
            ) {
                Ok((v, rest)) => r matches Some(Ok(x)) && x@ == v && final(self).remaining()
                    == rest && !final(self).spec_errored(),
                Err(e) => r == Some(Err::<Session, Error>(e)) && final(self).spec_errored(),
            },
    {
        next_item::<Session, SessionsState>(self)
    }

    /// Moves to the ACL cache section. Any sessions not yet read are first
    /// drained, so the cursor lands exactly where reading all of them would
    /// have put it; then the entry count is read. Fails with
    /// `SectionErrored` when the reader had already errored or the drain
    /// itself hits a decode error.
    pub fn acls(self) -> (r: Result<SnapshotFile<ACLCacheState>, Error>)
        requires
            self.wf(),
        ensures
            self.spec_errored() ==> r == Err::<SnapshotFile<ACLCacheState>, Error>(
                Error::SectionErrored,
            ),
            !self.spec_errored() ==> match spec_elems(
                decode_parser::<Session>(self.registry()),
                self.spec_count() as nat,
                self.remaining(),
            ) {
                Err(_) => r == Err::<SnapshotFile<ACLCacheState>, Error>(Error::SectionErrored),
                Ok((_items, rest)) => match spec_count(rest) {
                    Err(e) => r == Err::<SnapshotFile<ACLCacheState>, Error>(e),
                    Ok((n, rest2)) => r matches Ok(f) && f.wf() && f.spec_count() == n && !f
                        .spec_errored() && f.remaining() == rest2 && f.registry()
                        == self.registry(),
                },
            },
    {
        if self.errored {
            return Err(Error::SectionErrored);
        }
        let mut deser = self.deser;
        match decode_elems::<Session>(&mut deser, self.count) {
            Ok(_) => {},
            Err(_) => { return Err(Error::SectionErrored) },
        }
        let count = match deser.read_count() {
            Ok(v) => v,
            Err(e) => { return Err(e) },
        };
        Ok(SnapshotFile { deser, count, errored: false, state: ACLCacheState {  } })
    }
}

impl SnapshotFile<ACLCacheState> {
    /// Hands out the next ACL cache entry of the section, or nothing once
    /// all are read or the reader errored.
    pub fn next_acl_entry(&mut self) -> (r: Option<Result<ACLCacheEntry, Error>>)
        requires
            old(self).wf(),
        ensures
            final(self).wf(),
            final(self).registry() == old(self).registry(),
            (old(self).spec_count() == 0 || old(self).spec_errored()) ==> r is None && *final(self) == *old(self),
            !(old(self).spec_count() == 0 || old(self).spec_errored()) ==> final(self).spec_count()
                == old(self).spec_count() - 1 && match ACLCacheEntry::spec_decode(
                old(self).registry(),
                old(self).remaining(),
            ) {
                Ok((v, rest)) => r matches Some(Ok(x)) && x@ == v && final(self).remaining()
                    == rest && !final(self).spec_errored(),
                Err(e) => r == Some(Err::<ACLCacheEntry, Error>(e)) && final(self).spec_errored(),
            },
    {
        next_item::<ACLCacheEntry, ACLCacheState>(self)
    }

    /// Moves to the data node section, draining unread ACL cache entries
    /// first, with the same discipline as [`SnapshotFile::acls`]. The data
    /// node section carries no count: it ends at the sentinel path `/`.
    pub fn data_nodes(self) -> (r: Result<SnapshotFile<DataNodesState>, Error>)
        requires
            self.wf(),
        ensures
            self.spec_errored() ==> r == Err::<SnapshotFile<DataNodesState>, Error>(
                Error::SectionErrored,
            ),
            !self.spec_errored() ==> match spec_elems(
                decode_parser::<ACLCacheEntry>(self.registry()),
                self.spec_count() as nat,
                self.remaining(),
            ) {
                Err(_) => r == Err::<SnapshotFile<DataNodesState>, Error>(Error::SectionErrored),
                Ok((_items, rest)) => r matches Ok(f) && f.wf() && f.spec_active() && f.remaining()
                    == rest && f.registry() == self.registry(),
            },
    {
        if self.errored {
            return Err(Error::SectionErrored);
        }
        let mut deser = self.deser;
        match decode_elems::<ACLCacheEntry>(&mut deser, self.count) {
            Ok(_) => {},
            Err(_) => { return Err(Error::SectionErrored) },
        }
        Ok(SnapshotFile { deser, count: 1, errored: false, state: DataNodesState {  } })
    }
}

/// Pure parser for one step of the data node section: a path, then, unless
/// the path is the sentinel `/` closing the section, the node stored under
/// it.
pub open spec fn spec_data_node_step(reg: Seq<EnumMappingView>, s: Seq<u8>) -> Result<
    (Option<(Seq<char>, DataNodeView)>, Seq<u8>),
    Error,
> {
    match spec_string(s) {
        Err(e) => Err(e),
        Ok((path, s1)) => if path == "/"@ {
            Ok((None, s1))
        } else {
            match DataNode::spec_decode(reg, s1) {
                Err(e) => Err(e),
                Ok((node, s2)) => Ok((Some((path, node)), s2)),
            }
        },
    }
}

impl SnapshotFile<DataNodesState> {
    /// Whether the section can still hand out nodes: the sentinel has not
    /// been seen and no decode has failed.
    pub closed spec fn spec_active(&self) -> bool {
        self.count != 0 && !self.errored
    }

    /// Hands out the next path and node pair, or nothing at the sentinel
    /// closing the section (which is not handed out itself) and on every
    /// call after the section ended or errored.
    pub fn next_data_node(&mut self) -> (r: Option<Result<(String, DataNode), Error>>)
        requires
            old(self).wf(),
        ensures
            final(self).wf(),
            final(self).registry() == old(self).registry(),
            !old(self).spec_active() ==> r is None && *final(self) == *old(self),
            old(self).spec_active() ==> match spec_data_node_step(
                old(self).registry(),
                old(self).remaining(),
            ) {
                Err(e) => r == Some(Err::<(String, DataNode), Error>(e)) && !final(self).spec_active(),
                Ok((None, rest)) => r is None && !final(self).spec_active() && final(self).remaining() == rest,
                Ok((Some((p, nv)), rest)) => r matches Some(Ok(pair)) && pair.0@ == p && pair.1@
                    == nv && final(self).remaining() == rest && final(self).spec_active(),
            },
    {
        if self.count == 0 || self.errored {
            return None;
        }
        let path = match self.deser.read_string() {
            Ok(v) => v,
            Err(e) => {
                self.errored = true;
                return Some(Err(e));
            },
        };
        if path == "/".to_owned() {
            self.count = 0;
            return None;
        }
        let node = match DataNode::decode(&mut self.deser) {
            Ok(v) => v,
            Err(e) => {
                self.errored = true;
                return Some(Err(e));
            },
        };
        Some(Ok((path, node)))
    }
}

/// Law (mandatory drain): a counted section read in two goes — any `k`
/// values first, then the `n - k` left — hands out the same values and
/// lands the cursor at the same place as reading all `n` at once. This is
/// why advancing a snapshot phase behaves identically whether or not the
/// caller consumed the whole section first.
pub proof fn lemma_drain_lands_at_section_end<T: Decode>(
    reg: Seq<EnumMappingView>,
    n: nat,
    k: nat,
    s: Seq<u8>,
)
    requires
        k <= n,
        spec_elems(decode_parser::<T>(reg), n, s) is Ok,
    ensures
        spec_elems(decode_parser::<T>(reg), k, s) is Ok,
        spec_elems(
            decode_parser::<T>(reg),
            (n - k) as nat,
            spec_elems(decode_parser::<T>(reg), k, s)->Ok_0.1,
        ) is Ok,
        spec_elems(
            decode_parser::<T>(reg),
            (n - k) as nat,
            spec_elems(decode_parser::<T>(reg), k, s)->Ok_0.1,
        )->Ok_0.1 == spec_elems(decode_parser::<T>(reg), n, s)->Ok_0.1,
        spec_elems(decode_parser::<T>(reg), k, s)->Ok_0.0 + spec_elems(
            decode_parser::<T>(reg),
            (n - k) as nat,
            spec_elems(decode_parser::<T>(reg), k, s)->Ok_0.1,
        )->Ok_0.0 == spec_elems(decode_parser::<T>(reg), n, s)->Ok_0.0,
{
    lemma_elems_split(decode_parser::<T>(reg), k, (n - k) as nat, s);
}

/// The bytes of the prefix that snapshot names carry, "snapshot.".
pub open spec fn snapshot_prefix() -> Seq<u8> {
    seq![115u8, 110u8, 97u8, 112u8, 115u8, 104u8, 111u8, 116u8, 46u8]
}

/// Whether a file name carries the snapshot prefix.
pub open spec fn is_snapshot_name(name: Seq<char>) -> bool {
    crate::persistence::txnlog::has_prefix(encode_utf8(name), snapshot_prefix())
}

/// Byte-wise lexicographic order: `a` at or before `b`.
pub open spec fn bytes_le(a: Seq<u8>, b: Seq<u8>) -> bool
    decreases a.len(),
{
    if a.len() == 0 {
        true
    } else if b.len() == 0 {
        false
    } else if a[0] < b[0] {
        true
    } else if a[0] > b[0] {
        false
    } else {
        bytes_le(a.skip(1), b.skip(1))
    }
}

/// The byte-wise order is total: of two byte strings, one is at or before
/// the other.
proof fn lemma_bytes_le_total(a: Seq<u8>, b: Seq<u8>)
    ensures
        bytes_le(a, b) || bytes_le(b, a),
    decreases a.len(),
{
    if a.len() > 0 && b.len() > 0 && a[0] == b[0] {
        lemma_bytes_le_total(a.skip(1), b.skip(1));
    }
}

/// The byte-wise order is transitive.
proof fn lemma_bytes_le_trans(a: Seq<u8>, b: Seq<u8>, c: Seq<u8>)
    requires
        bytes_le(a, b),
        bytes_le(b, c),
    ensures
        bytes_le(a, c),
    decreases a.len(),
{
    if a.len() > 0 && b.len() > 0 && c.len() > 0 && a[0] == b[0] && b[0] == c[0] {
        lemma_bytes_le_trans(a.skip(1), b.skip(1), c.skip(1));
    }
}

/// Whether `a` is at or before `b` in byte-wise lexicographic order.
fn str_le(a: &str, b: &str) -> (r: bool)
    ensures
        r == bytes_le(a.spec_bytes(), b.spec_bytes()),
{
    let ab = a.as_bytes_vec();
    let bb = b.as_bytes_vec();
    let mut i: usize = 0;
    proof {
        assert(ab@.skip(0) =~= ab@);
        assert(bb@.skip(0) =~= bb@);
    }
    loop
        invariant
            i <= ab@.len(),
            i <= bb@.len(),
            ab@ == a.spec_bytes(),
            bb@ == b.spec_bytes(),
            bytes_le(ab@, bb@) == bytes_le(ab@.skip(i as int), bb@.skip(i as int)),
        decreases ab@.len() - i,
    {
        proof {
            assert(ab@.skip(i as int).len() == ab@.len() - i);
            if i < ab.len() && i < bb.len() {
                assert(ab@.skip(i as int)[0] == ab@[i as int]);
                assert(bb@.skip(i as int)[0] == bb@[i as int]);
                assert(ab@.skip(i as int).skip(1) =~= ab@.skip(i + 1));
                assert(bb@.skip(i as int).skip(1) =~= bb@.skip(i + 1));
            }
        }
        if i >= ab.len() {
            return true;
        }
        if i >= bb.len() {
            return false;
        }
        if ab[i] < bb[i] {
            return true;
        }
        if ab[i] > bb[i] {
            return false;
        }
        i = i + 1;
    }
}

/// Whether a file name carries the snapshot prefix.
fn starts_with_snapshot(name: &str) -> (r: bool)
    ensures
        r == is_snapshot_name(name@),
{
    let bytes = name.as_bytes_vec();
    if bytes.len() < 9 {
        return false;
    }
    let r = bytes[0] == 115 && bytes[1] == 110 && bytes[2] == 97 && bytes[3] == 112 && bytes[4]
        == 115 && bytes[5] == 104 && bytes[6] == 111 && bytes[7] == 116 && bytes[8] == 46;
    proof {
        if r {
            assert(bytes@.subrange(0, 9) =~= snapshot_prefix());
        } else {
            if is_snapshot_name(name@) {
                assert(forall|j: int| 0 <= j < 9 ==> bytes@.subrange(0, 9)[j] == bytes@[j]);
            }
        }
    }
    r
}

impl SnapshotFile<InitState> {
    /// Picks the most recent snapshot in a directory: of the file names
    /// that carry the snapshot prefix, the lexicographically last; nothing
    /// when there is none.
    pub fn most_recent_snapshot(names: &Vec<String>) -> (r: Option<String>)
        ensures
            match r {
                None => forall|k: int| 0 <= k < names@.len() ==> !is_snapshot_name(names@[k]@),
                Some(best) => names@.contains(best) && is_snapshot_name(best@) && forall|k: int|
                    0 <= k < names@.len() && is_snapshot_name(#[trigger] names@[k]@) ==> bytes_le(
                        encode_utf8(names@[k]@),
                        encode_utf8(best@),
                    ),
            },
    {
        let mut best: Option<String> = None;
        let mut i: usize = 0;
        while i < names.len()
            invariant
                i <= names@.len(),
                match best {
                    None => forall|k: int| 0 <= k < i ==> !is_snapshot_name(names@[k]@),
                    Some(b) => names@.contains(b) && is_snapshot_name(b@) && forall|k: int|
                        0 <= k < i && is_snapshot_name(#[trigger] names@[k]@) ==> bytes_le(
                            encode_utf8(names@[k]@),
                            encode_utf8(b@),
                        ),
                },
            decreases names@.len() - i,
        {
            let name = &names[i];
            if starts_with_snapshot(name.as_str()) {
                let replace: bool = match &best {
                    None => true,
                    Some(b) => str_le(b.as_str(), name.as_str()),
                };
                if replace {
                    let ghost prior = best;
                    best = Some(name.clone());
                    proof {
                        assert(names@.contains(names@[i as int]));
                        assert forall|k: int|
                            0 <= k < i + 1 && is_snapshot_name(
                                #[trigger] names@[k]@,
                            ) implies bytes_le(
                            encode_utf8(names@[k]@),
                            encode_utf8(names@[i as int]@),
                        ) by {
                            if k < i {
                                match prior {
                                    Some(b) => {
                                        lemma_bytes_le_trans(
                                            encode_utf8(names@[k]@),
                                            encode_utf8(b@),
                                            encode_utf8(names@[i as int]@),
                                        );
                                    },
                                    None => {},
                                }
                            } else {
                                lemma_bytes_le_total(
                                    encode_utf8(names@[k]@),
                                    encode_utf8(names@[k]@),
                                );
                            }
                        }
                    }
                } else {
                    proof {
                        let b = best->Some_0;
                        lemma_bytes_le_total(encode_utf8(names@[i as int]@), encode_utf8(b@));
                    }
                }
            }
            i = i + 1;
        }
        best
    }
}

} // verus!
