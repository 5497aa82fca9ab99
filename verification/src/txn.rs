//! The transaction record shapes and their decoders.
//!
//! A transaction record's payload is a [`Txn`]: a [`TxnHeader`] followed by a
//! [`TxnOperation`]. Since the wire format stores no field names, every
//! struct is decoded as a plain ordered tuple of its declared fields, and the
//! two operation enums are decoded through the enum discriminant registry
//! under the names `"TxnOperation"` and `"MultiTxnOperation"`, with
//! `"ErrorCode"` for the field-less error code enum.
//!
//! Each shape's `spec_decode` is the pure parser the executable decoder is
//! held to; shapes whose fields are all plain scalars are their own
//! mathematical content, the others have a view type holding sequences in
//! place of strings, buffers and vectors.

use vstd::prelude::*;

use crate::codec::decode_parser;
use crate::codec::i32_to_be;
use crate::codec::i64_to_be;
use crate::codec::lemma_be_i32_round_trip;
use crate::codec::lemma_be_i64_round_trip;
use crate::codec::lemma_be_u64_round_trip;
use crate::codec::u64_to_be;
use crate::codec::decode_vec;
use crate::codec::seq_view;
use crate::codec::spec_bool;
use crate::codec::spec_buffer;
use crate::codec::spec_byte_seq;
use crate::codec::spec_count;
use crate::codec::spec_counted;
use crate::codec::spec_discriminant;
use crate::codec::spec_elems;
use crate::codec::spec_i32;
use crate::codec::spec_i64;
use crate::codec::spec_string;
use crate::codec::spec_u32;
use crate::codec::spec_u64;
use crate::codec::Decode;
use crate::codec::Deserializer;
use crate::codec::EnumMappingView;
use crate::error::Error;
use crate::proto::ErrorCode;
use crate::Duration;
use crate::Perms;
use crate::SessionId;
use crate::Timestamp;
use crate::Version;
use crate::Xid;
use crate::Zxid;
use crate::ACL;
use crate::Id;

verus! {

/// The mathematical content of an [`Id`].
#[verifier::ext_equal]
pub struct IdView {
    pub scheme: Seq<char>,
    pub id: Seq<char>,
}

impl View for Id {
    type V = IdView;

    open spec fn view(&self) -> IdView {
        IdView { scheme: self.scheme@, id: self.id@ }
    }
}

impl Decode for Id {
    open spec fn spec_decode(reg: Seq<EnumMappingView>, s: Seq<u8>) -> Result<
        (IdView, Seq<u8>),
        Error,
    > {
        match spec_string(s) {
            Err(e) => Err(e),
            Ok((scheme, s1)) => match spec_string(s1) {
                Err(e) => Err(e),
                Ok((id, s2)) => Ok((IdView { scheme, id }, s2)),
            },
        }
    }

    fn decode(d: &mut Deserializer) -> (r: Result<Id, Error>) {
        let scheme = match d.read_string() {
            Ok(v) => v,
            Err(e) => { return Err(e) },
        };
        let id = match d.read_string() {
            Ok(v) => v,
            Err(e) => { return Err(e) },
        };
        Ok(Id { scheme, id })
    }
}

/// The mathematical content of an [`ACL`].
#[verifier::ext_equal]
pub struct ACLView {
    pub perms: Perms,
    pub id: IdView,
}

impl View for ACL {
    type V = ACLView;

    open spec fn view(&self) -> ACLView {
        ACLView { perms: self.perms, id: self.id@ }
    }
}

impl Decode for ACL {
    open spec fn spec_decode(reg: Seq<EnumMappingView>, s: Seq<u8>) -> Result<
        (ACLView, Seq<u8>),
        Error,
    > {
        match spec_u32(s) {
            Err(e) => Err(e),
            Ok((bits, s1)) => match Id::spec_decode(reg, s1) {
                Err(e) => Err(e),
                Ok((id, s2)) => Ok((ACLView { perms: Perms(bits), id }, s2)),
            },
        }
    }

    fn decode(d: &mut Deserializer) -> (r: Result<ACL, Error>) {
        let bits = match d.read_u32() {
            Ok(v) => v,
            Err(e) => { return Err(e) },
        };
        let id = match Id::decode(d) {
            Ok(v) => v,
            Err(e) => { return Err(e) },
        };
        Ok(ACL { perms: Perms(bits), id })
    }
}

/// Transaction header: one per record.
///
/// Compared to the wire schema it does not carry the operation type, which
/// the [`TxnOperation`] variant encodes instead.
#[derive(Debug, Copy, Clone, PartialEq, Eq, Structural)]
pub struct TxnHeader {
    pub client_id: SessionId,
    pub cxid: Xid,
    pub zxid: Zxid,
    pub time: Timestamp,
}

impl View for TxnHeader {
    type V = TxnHeader;

    open spec fn view(&self) -> TxnHeader {
        *self
    }
}

impl Decode for TxnHeader {
    open spec fn spec_decode(reg: Seq<EnumMappingView>, s: Seq<u8>) -> Result<
        (TxnHeader, Seq<u8>),
        Error,
    > {
        match spec_i64(s) {
            Err(e) => Err(e),
            Ok((client_id, s1)) => match spec_i32(s1) {
                Err(e) => Err(e),
                Ok((cxid, s2)) => match spec_i64(s2) {
                    Err(e) => Err(e),
                    Ok((zxid, s3)) => match spec_u64(s3) {
                        Err(e) => Err(e),
                        Ok((time, s4)) => Ok(
                            (
                                (TxnHeader {
                                    client_id: SessionId(client_id),
                                    cxid: Xid(cxid),
                                    zxid: Zxid(zxid),
                                    time: Timestamp(time),
                                }),
                                s4,
                            ),
                        ),
                    },
                },
            },
        }
    }

    fn decode(d: &mut Deserializer) -> (r: Result<TxnHeader, Error>) {
        let client_id = match d.read_i64() {
            Ok(v) => v,
            Err(e) => { return Err(e) },
        };
        let cxid = match d.read_i32() {
            Ok(v) => v,
            Err(e) => { return Err(e) },
        };
        let zxid = match d.read_i64() {
            Ok(v) => v,
            Err(e) => { return Err(e) },
        };
        let time = match d.read_u64() {
            Ok(v) => v,
            Err(e) => { return Err(e) },
        };
        Ok(TxnHeader {
            client_id: SessionId(client_id),
            cxid: Xid(cxid),
            zxid: Zxid(zxid),
            time: Timestamp(time),
        })
    }
}

/// Creates a node (the data field is stored as a counted byte sequence).
#[derive(Debug, Clone, PartialEq, Eq)]
pub struct CreateTxn {
    pub path: String,
    pub data: Vec<u8>,
    pub acl: Vec<ACL>,
    pub ephemeral: bool,
    pub parent_c_version: Version,
}

/// The mathematical content of a [`CreateTxn`].
#[verifier::ext_equal]
pub struct CreateTxnView {
    pub path: Seq<char>,
    pub data: Seq<u8>,
    pub acl: Seq<ACLView>,
    pub ephemeral: bool,
    pub parent_c_version: Version,
}

impl View for CreateTxn {
    type V = CreateTxnView;

    open spec fn view(&self) -> CreateTxnView {
        CreateTxnView {
            path: self.path@,
            data: self.data@,
            acl: seq_view(self.acl@),
            ephemeral: self.ephemeral,
            parent_c_version: self.parent_c_version,
        }
    }
}

impl Decode for CreateTxn {
    open spec fn spec_decode(reg: Seq<EnumMappingView>, s: Seq<u8>) -> Result<
        (CreateTxnView, Seq<u8>),
        Error,
    > {
        match spec_string(s) {
            Err(e) => Err(e),
            Ok((path, s1)) => match spec_byte_seq(s1) {
                Err(e) => Err(e),
                Ok((data, s2)) => match spec_counted(decode_parser::<ACL>(reg), s2) {
                    Err(e) => Err(e),
                    Ok((acl, s3)) => match spec_bool(s3) {
                        Err(e) => Err(e),
                        Ok((ephemeral, s4)) => match spec_i32(s4) {
                            Err(e) => Err(e),
                            Ok((pcv, s5)) => Ok(
                                (
                                    (CreateTxnView {
                                        path,
                                        data,
                                        acl,
                                        ephemeral,
                                        parent_c_version: Version(pcv),
                                    }),
                                    s5,
                                ),
                            ),
                        },
                    },
                },
            },
        }
    }

    fn decode(d: &mut Deserializer) -> (r: Result<CreateTxn, Error>) {
        let path = match d.read_string() {
            Ok(v) => v,
            Err(e) => { return Err(e) },
        };
        let data = match d.read_byte_seq() {
            Ok(v) => v,
            Err(e) => { return Err(e) },
        };
        let acl = match decode_vec::<ACL>(d) {
            Ok(v) => v,
            Err(e) => { return Err(e) },
        };
        let ephemeral = match d.read_bool() {
            Ok(v) => v,
            Err(e) => { return Err(e) },
        };
        let pcv = match d.read_i32() {
            Ok(v) => v,
            Err(e) => { return Err(e) },
        };
        Ok(CreateTxn { path, data, acl, ephemeral, parent_c_version: Version(pcv) })
    }
}

/// Creates a container node (the data field is stored as a raw buffer).
#[derive(Debug, Clone, PartialEq, Eq)]
pub struct CreateContainerTxn {
    pub path: String,
    pub data: Vec<u8>,
    pub acl: Vec<ACL>,
    pub parent_c_version: Version,
}

/// The mathematical content of a [`CreateContainerTxn`].
#[verifier::ext_equal]
pub struct CreateContainerTxnView {
    pub path: Seq<char>,
    pub data: Seq<u8>,
    pub acl: Seq<ACLView>,
    pub parent_c_version: Version,
}

impl View for CreateContainerTxn {
    type V = CreateContainerTxnView;

    open spec fn view(&self) -> CreateContainerTxnView {
        CreateContainerTxnView {
            path: self.path@,
            data: self.data@,
            acl: seq_view(self.acl@),
            parent_c_version: self.parent_c_version,
        }
    }
}

impl Decode for CreateContainerTxn {
    open spec fn spec_decode(reg: Seq<EnumMappingView>, s: Seq<u8>) -> Result<
        (CreateContainerTxnView, Seq<u8>),
        Error,
    > {
        match spec_string(s) {
            Err(e) => Err(e),
            Ok((path, s1)) => match spec_buffer(s1) {
                Err(e) => Err(e),
                Ok((data, s2)) => match spec_counted(decode_parser::<ACL>(reg), s2) {
                    Err(e) => Err(e),
                    Ok((acl, s3)) => match spec_i32(s3) {
                        Err(e) => Err(e),
                        Ok((pcv, s4)) => Ok(
                            (
                                (CreateContainerTxnView {
                                    path,
                                    data,
                                    acl,
                                    parent_c_version: Version(pcv),
                                }),
                                s4,
                            ),
                        ),
                    },
                },
            },
        }
    }

    fn decode(d: &mut Deserializer) -> (r: Result<CreateContainerTxn, Error>) {
        let path = match d.read_string() {
            Ok(v) => v,
            Err(e) => { return Err(e) },
        };
        let data = match d.read_buffer() {
            Ok(v) => v,
            Err(e) => { return Err(e) },
        };
        let acl = match decode_vec::<ACL>(d) {
            Ok(v) => v,
            Err(e) => { return Err(e) },
        };
        let pcv = match d.read_i32() {
            Ok(v) => v,
            Err(e) => { return Err(e) },
        };
        Ok(CreateContainerTxn { path, data, acl, parent_c_version: Version(pcv) })
    }
}

/// Creates a node with a time-to-live.
#[derive(Debug, Clone, PartialEq, Eq)]
pub struct CreateTTLTxn {
    pub path: String,
    pub data: Vec<u8>,
    pub acl: Vec<ACL>,
    pub parent_c_version: Version,
    pub ttl: i64,
}

/// The mathematical content of a [`CreateTTLTxn`].
#[verifier::ext_equal]
pub struct CreateTTLTxnView {
    pub path: Seq<char>,
    pub data: Seq<u8>,
    pub acl: Seq<ACLView>,
    pub parent_c_version: Version,
    pub ttl: i64,
}

impl View for CreateTTLTxn {
    type V = CreateTTLTxnView;

    open spec fn view(&self) -> CreateTTLTxnView {
        CreateTTLTxnView {
            path: self.path@,
            data: self.data@,
            acl: seq_view(self.acl@),
            parent_c_version: self.parent_c_version,
            ttl: self.ttl,
        }
    }
}

impl Decode for CreateTTLTxn {
    open spec fn spec_decode(reg: Seq<EnumMappingView>, s: Seq<u8>) -> Result<
        (CreateTTLTxnView, Seq<u8>),
        Error,
    > {
        match spec_string(s) {
            Err(e) => Err(e),
            Ok((path, s1)) => match spec_buffer(s1) {
                Err(e) => Err(e),
                Ok((data, s2)) => match spec_counted(decode_parser::<ACL>(reg), s2) {
                    Err(e) => Err(e),
                    Ok((acl, s3)) => match spec_i32(s3) {
                        Err(e) => Err(e),
                        Ok((pcv, s4)) => match spec_i64(s4) {
                            Err(e) => Err(e),
                            Ok((ttl, s5)) => Ok(
                                (
                                    (CreateTTLTxnView {
                                        path,
                                        data,
                                        acl,
                                        parent_c_version: Version(pcv),
                                        ttl,
                                    }),
                                    s5,
                                ),
                            ),
                        },
                    },
                },
            },
        }
    }

    fn decode(d: &mut Deserializer) -> (r: Result<CreateTTLTxn, Error>) {
        let path = match d.read_string() {
            Ok(v) => v,
            Err(e) => { return Err(e) },
        };
        let data = match d.read_buffer() {
            Ok(v) => v,
            Err(e) => { return Err(e) },
        };
        let acl = match decode_vec::<ACL>(d) {
            Ok(v) => v,
            Err(e) => { return Err(e) },
        };
        let pcv = match d.read_i32() {
            Ok(v) => v,
            Err(e) => { return Err(e) },
        };
        let ttl = match d.read_i64() {
            Ok(v) => v,
            Err(e) => { return Err(e) },
        };
        Ok(CreateTTLTxn { path, data, acl, parent_c_version: Version(pcv), ttl })
    }
}

/// Deletes a node.
#[derive(Debug, Clone, PartialEq, Eq)]
pub struct DeleteTxn {
    pub path: String,
}

/// The mathematical content of a [`DeleteTxn`].
#[verifier::ext_equal]
pub struct DeleteTxnView {
    pub path: Seq<char>,
}

impl View for DeleteTxn {
    type V = DeleteTxnView;

    open spec fn view(&self) -> DeleteTxnView {
        DeleteTxnView { path: self.path@ }
    }
}

impl Decode for DeleteTxn {
    open spec fn spec_decode(reg: Seq<EnumMappingView>, s: Seq<u8>) -> Result<
        (DeleteTxnView, Seq<u8>),
        Error,
    > {
        match spec_string(s) {
            Err(e) => Err(e),
            Ok((path, s1)) => Ok(((DeleteTxnView { path }), s1)),
        }
    }

    fn decode(d: &mut Deserializer) -> (r: Result<DeleteTxn, Error>) {
        let path = match d.read_string() {
            Ok(v) => v,
            Err(e) => { return Err(e) },
        };
        Ok(DeleteTxn { path })
    }
}

/// Sets a node's data.
#[derive(Debug, Clone, PartialEq, Eq)]
pub struct SetDataTxn {
    pub path: String,
    pub data: Vec<u8>,
    pub version: Version,
}

/// The mathematical content of a [`SetDataTxn`].
#[verifier::ext_equal]
pub struct SetDataTxnView {
    pub path: Seq<char>,
    pub data: Seq<u8>,
    pub version: Version,
}

impl View for SetDataTxn {
    type V = SetDataTxnView;

    open spec fn view(&self) -> SetDataTxnView {
        SetDataTxnView { path: self.path@, data: self.data@, version: self.version }
    }
}

impl Decode for SetDataTxn {
    open spec fn spec_decode(reg: Seq<EnumMappingView>, s: Seq<u8>) -> Result<
        (SetDataTxnView, Seq<u8>),
        Error,
    > {
        match spec_string(s) {
            Err(e) => Err(e),
            Ok((path, s1)) => match spec_buffer(s1) {
                Err(e) => Err(e),
                Ok((data, s2)) => match spec_i32(s2) {
                    Err(e) => Err(e),
                    Ok((version, s3)) => Ok(
                        ((SetDataTxnView { path, data, version: Version(version) }), s3),
                    ),
                },
            },
        }
    }

    fn decode(d: &mut Deserializer) -> (r: Result<SetDataTxn, Error>) {
        let path = match d.read_string() {
            Ok(v) => v,
            Err(e) => { return Err(e) },
        };
        let data = match d.read_buffer() {
            Ok(v) => v,
            Err(e) => { return Err(e) },
        };
        let version = match d.read_i32() {
            Ok(v) => v,
            Err(e) => { return Err(e) },
        };
        Ok(SetDataTxn { path, data, version: Version(version) })
    }
}

/// Checks a node's version inside a multi operation.
#[derive(Debug, Clone, PartialEq, Eq)]
pub struct CheckVersionTxn {
    pub path: String,
    pub version: Version,
}

/// The mathematical content of a [`CheckVersionTxn`].
#[verifier::ext_equal]
pub struct CheckVersionTxnView {
    pub path: Seq<char>,
    pub version: Version,
}

impl View for CheckVersionTxn {
    type V = CheckVersionTxnView;

    open spec fn view(&self) -> CheckVersionTxnView {
        CheckVersionTxnView { path: self.path@, version: self.version }
    }
}

impl Decode for CheckVersionTxn {
    open spec fn spec_decode(reg: Seq<EnumMappingView>, s: Seq<u8>) -> Result<
        (CheckVersionTxnView, Seq<u8>),
        Error,
    > {
        match spec_string(s) {
            Err(e) => Err(e),
            Ok((path, s1)) => match spec_i32(s1) {
                Err(e) => Err(e),
                Ok((version, s2)) => Ok(
                    ((CheckVersionTxnView { path, version: Version(version) }), s2),
                ),
            },
        }
    }

    fn decode(d: &mut Deserializer) -> (r: Result<CheckVersionTxn, Error>) {
        let path = match d.read_string() {
            Ok(v) => v,
            Err(e) => { return Err(e) },
        };
        let version = match d.read_i32() {
            Ok(v) => v,
            Err(e) => { return Err(e) },
        };
        Ok(CheckVersionTxn { path, version: Version(version) })
    }
}

/// Replaces a node's access-control list.
#[derive(Debug, Clone, PartialEq, Eq)]
pub struct SetACLTxn {
    pub path: String,
    pub acl: Vec<ACL>,
    pub version: Version,
}

/// The mathematical content of a [`SetACLTxn`].
#[verifier::ext_equal]
pub struct SetACLTxnView {
    pub path: Seq<char>,
    pub acl: Seq<ACLView>,
    pub version: Version,
}

impl View for SetACLTxn {
    type V = SetACLTxnView;

    open spec fn view(&self) -> SetACLTxnView {
        SetACLTxnView { path: self.path@, acl: seq_view(self.acl@), version: self.version }
    }
}

impl Decode for SetACLTxn {
    open spec fn spec_decode(reg: Seq<EnumMappingView>, s: Seq<u8>) -> Result<
        (SetACLTxnView, Seq<u8>),
        Error,
    > {
        match spec_string(s) {
            Err(e) => Err(e),
            Ok((path, s1)) => match spec_counted(decode_parser::<ACL>(reg), s1) {
                Err(e) => Err(e),
                Ok((acl, s2)) => match spec_i32(s2) {
                    Err(e) => Err(e),
                    Ok((version, s3)) => Ok(
                        ((SetACLTxnView { path, acl, version: Version(version) }), s3),
                    ),
                },
            },
        }
    }

    fn decode(d: &mut Deserializer) -> (r: Result<SetACLTxn, Error>) {
        let path = match d.read_string() {
            Ok(v) => v,
            Err(e) => { return Err(e) },
        };
        let acl = match decode_vec::<ACL>(d) {
            Ok(v) => v,
            Err(e) => { return Err(e) },
        };
        let version = match d.read_i32() {
            Ok(v) => v,
            Err(e) => { return Err(e) },
        };
        Ok(SetACLTxn { path, acl, version: Version(version) })
    }
}

/// Sets a node's maximum child count. Part of the wire schema, but no
/// transaction log operation carries it.
#[derive(Debug, Clone, PartialEq, Eq)]
pub struct SetMaxChildrenTxn {
    pub path: String,
    pub max: i32,
}

/// Opens a client session.
#[derive(Debug, Copy, Clone, PartialEq, Eq, Structural)]
pub struct CreateSessionTxn {
    pub time_out: Duration,
}

impl View for CreateSessionTxn {
    type V = CreateSessionTxn;

    open spec fn view(&self) -> CreateSessionTxn {
        *self
    }
}

impl Decode for CreateSessionTxn {
    open spec fn spec_decode(reg: Seq<EnumMappingView>, s: Seq<u8>) -> Result<
        (CreateSessionTxn, Seq<u8>),
        Error,
    > {
        match spec_i32(s) {
            Err(e) => Err(e),
            Ok((t, s1)) => Ok(((CreateSessionTxn { time_out: Duration(t) }), s1)),
        }
    }

    fn decode(d: &mut Deserializer) -> (r: Result<CreateSessionTxn, Error>) {
        let t = match d.read_i32() {
            Ok(v) => v,
            Err(e) => { return Err(e) },
        };
        Ok(CreateSessionTxn { time_out: Duration(t) })
    }
}

/// Records that an operation failed, with its error code. The code is
/// decoded through the registry entry named `"ErrorCode"`.
#[derive(Debug, Copy, Clone, PartialEq, Eq, Structural)]
pub struct ErrorTxn {
    pub err: ErrorCode,
}

impl View for ErrorTxn {
    type V = ErrorTxn;

    open spec fn view(&self) -> ErrorTxn {
        *self
    }
}

impl Decode for ErrorTxn {
    open spec fn spec_decode(reg: Seq<EnumMappingView>, s: Seq<u8>) -> Result<
        (ErrorTxn, Seq<u8>),
        Error,
    > {
        match spec_discriminant(reg, "ErrorCode"@, s) {
            Err(e) => Err(e),
            Ok((code, s1)) => match ErrorCode::spec_from_code(code) {
                Some(err) => Ok(((ErrorTxn { err }), s1)),
                None => Err(Error::UnknownDiscriminant(code)),
            },
        }
    }

    fn decode(d: &mut Deserializer) -> (r: Result<ErrorTxn, Error>) {
        let code = match d.read_enum_discriminant("ErrorCode") {
            Ok(v) => v,
            Err(e) => { return Err(e) },
        };
        match ErrorCode::from_code(code) {
            Some(err) => Ok(ErrorTxn { err }),
            None => Err(Error::UnknownDiscriminant(code)),
        }
    }
}

/// One operation inside a multi transaction: a restricted subset of the
/// transaction operations, each carrying its own discriminant and length
/// pair on the wire.
#[derive(Debug, Clone, PartialEq, Eq)]
pub enum MultiTxnOperation {
    Create(CreateTxn),
    Create2(CreateTxn),
    CreateTTL(CreateTTLTxn),
    CreateContainer(CreateContainerTxn),
    Delete(DeleteTxn),
    DeleteContainer(DeleteTxn),
    SetData(SetDataTxn),
    Error(ErrorTxn),
    Check(CheckVersionTxn),
}

/// The mathematical content of a [`MultiTxnOperation`].
#[verifier::ext_equal]
pub enum MultiTxnOperationView {
    Create(CreateTxnView),
    Create2(CreateTxnView),
    CreateTTL(CreateTTLTxnView),
    CreateContainer(CreateContainerTxnView),
    Delete(DeleteTxnView),
    DeleteContainer(DeleteTxnView),
    SetData(SetDataTxnView),
    Error(ErrorTxn),
    Check(CheckVersionTxnView),
}

impl View for MultiTxnOperation {
    type V = MultiTxnOperationView;

    open spec fn view(&self) -> MultiTxnOperationView {
        match self {
            MultiTxnOperation::Create(t) => MultiTxnOperationView::Create(t@),
            MultiTxnOperation::Create2(t) => MultiTxnOperationView::Create2(t@),
            MultiTxnOperation::CreateTTL(t) => MultiTxnOperationView::CreateTTL(t@),
            MultiTxnOperation::CreateContainer(t) => MultiTxnOperationView::CreateContainer(t@),
            MultiTxnOperation::Delete(t) => MultiTxnOperationView::Delete(t@),
            MultiTxnOperation::DeleteContainer(t) => MultiTxnOperationView::DeleteContainer(t@),
            MultiTxnOperation::SetData(t) => MultiTxnOperationView::SetData(t@),
            MultiTxnOperation::Error(t) => MultiTxnOperationView::Error(t@),
            MultiTxnOperation::Check(t) => MultiTxnOperationView::Check(t@),
        }
    }
}

impl Decode for MultiTxnOperation {
    open spec fn spec_decode(reg: Seq<EnumMappingView>, s: Seq<u8>) -> Result<
        (MultiTxnOperationView, Seq<u8>),
        Error,
    > {
        match spec_discriminant(reg, "MultiTxnOperation"@, s) {
            Err(e) => Err(e),
            Ok((code, s1)) => if code == 1i32 {
                match CreateTxn::spec_decode(reg, s1) {
                    Err(e) => Err(e),
                    Ok((t, s2)) => Ok((MultiTxnOperationView::Create(t), s2)),
                }
            } else if code == 15i32 {
                match CreateTxn::spec_decode(reg, s1) {
                    Err(e) => Err(e),
                    Ok((t, s2)) => Ok((MultiTxnOperationView::Create2(t), s2)),
                }
            } else if code == 21i32 {
                match CreateTTLTxn::spec_decode(reg, s1) {
                    Err(e) => Err(e),
                    Ok((t, s2)) => Ok((MultiTxnOperationView::CreateTTL(t), s2)),
                }
            } else if code == 19i32 {
                match CreateContainerTxn::spec_decode(reg, s1) {
                    Err(e) => Err(e),
                    Ok((t, s2)) => Ok((MultiTxnOperationView::CreateContainer(t), s2)),
                }
            } else if code == 2i32 {
                match DeleteTxn::spec_decode(reg, s1) {
                    Err(e) => Err(e),
                    Ok((t, s2)) => Ok((MultiTxnOperationView::Delete(t), s2)),
                }
            } else if code == 20i32 {
                match DeleteTxn::spec_decode(reg, s1) {
                    Err(e) => Err(e),
                    Ok((t, s2)) => Ok((MultiTxnOperationView::DeleteContainer(t), s2)),
                }
            } else if code == 5i32 {
                match SetDataTxn::spec_decode(reg, s1) {
                    Err(e) => Err(e),
                    Ok((t, s2)) => Ok((MultiTxnOperationView::SetData(t), s2)),
                }
            } else if code == -1i32 {
                match ErrorTxn::spec_decode(reg, s1) {
                    Err(e) => Err(e),
                    Ok((t, s2)) => Ok((MultiTxnOperationView::Error(t), s2)),
                }
            } else if code == 13i32 {
                match CheckVersionTxn::spec_decode(reg, s1) {
                    Err(e) => Err(e),
                    Ok((t, s2)) => Ok((MultiTxnOperationView::Check(t), s2)),
                }
            } else {
                Err(Error::UnknownDiscriminant(code))
            },
        }
    }

    fn decode(d: &mut Deserializer) -> (r: Result<MultiTxnOperation, Error>) {
        let code = match d.read_enum_discriminant("MultiTxnOperation") {
            Ok(v) => v,
            Err(e) => { return Err(e) },
        };
        if code == 1 {
            match CreateTxn::decode(d) {
                Ok(t) => Ok(MultiTxnOperation::Create(t)),
                Err(e) => Err(e),
            }
        } else if code == 15 {
            match CreateTxn::decode(d) {
                Ok(t) => Ok(MultiTxnOperation::Create2(t)),
                Err(e) => Err(e),
            }
        } else if code == 21 {
            match CreateTTLTxn::decode(d) {
                Ok(t) => Ok(MultiTxnOperation::CreateTTL(t)),
                Err(e) => Err(e),
            }
        } else if code == 19 {
            match CreateContainerTxn::decode(d) {
                Ok(t) => Ok(MultiTxnOperation::CreateContainer(t)),
                Err(e) => Err(e),
            }
        } else if code == 2 {
            match DeleteTxn::decode(d) {
                Ok(t) => Ok(MultiTxnOperation::Delete(t)),
                Err(e) => Err(e),
            }
        } else if code == 20 {
            match DeleteTxn::decode(d) {
                Ok(t) => Ok(MultiTxnOperation::DeleteContainer(t)),
                Err(e) => Err(e),
            }
        } else if code == 5 {
            match SetDataTxn::decode(d) {
                Ok(t) => Ok(MultiTxnOperation::SetData(t)),
                Err(e) => Err(e),
            }
        } else if code == -1 {
            match ErrorTxn::decode(d) {
                Ok(t) => Ok(MultiTxnOperation::Error(t)),
                Err(e) => Err(e),
            }
        } else if code == 13 {
            match CheckVersionTxn::decode(d) {
                Ok(t) => Ok(MultiTxnOperation::Check(t)),
                Err(e) => Err(e),
            }
        } else {
            Err(Error::UnknownDiscriminant(code))
        }
    }
}

/// A batch of operations committed atomically.
#[derive(Debug, Clone, PartialEq, Eq)]
pub struct MultiTxn {
    pub txns: Vec<MultiTxnOperation>,
}

/// The mathematical content of a [`MultiTxn`].
#[verifier::ext_equal]
pub struct MultiTxnView {
    pub txns: Seq<MultiTxnOperationView>,
}

impl View for MultiTxn {
    type V = MultiTxnView;

    open spec fn view(&self) -> MultiTxnView {
        MultiTxnView { txns: seq_view(self.txns@) }
    }
}

impl Decode for MultiTxn {
    open spec fn spec_decode(reg: Seq<EnumMappingView>, s: Seq<u8>) -> Result<
        (MultiTxnView, Seq<u8>),
        Error,
    > {
        match spec_counted(decode_parser::<MultiTxnOperation>(reg), s) {
            Err(e) => Err(e),
            Ok((txns, s1)) => Ok(((MultiTxnView { txns }), s1)),
        }
    }

    fn decode(d: &mut Deserializer) -> (r: Result<MultiTxn, Error>) {
        let txns = match decode_vec::<MultiTxnOperation>(d) {
            Ok(v) => v,
            Err(e) => { return Err(e) },
        };
        Ok(MultiTxn { txns })
    }
}

/// A transaction operation, decoded through the registry entry named
/// `"TxnOperation"`.
#[derive(Debug, Clone, PartialEq, Eq)]
pub enum TxnOperation {
    CreateSession(CreateSessionTxn),
    CloseSession,
    Create(CreateTxn),
    Create2(CreateTxn),
    CreateTTL(CreateTTLTxn),
    CreateContainer(CreateContainerTxn),
    Delete(DeleteTxn),
    DeleteContainer(DeleteTxn),
    Reconfig(SetDataTxn),
    SetData(SetDataTxn),
    SetACL(SetACLTxn),
    Error(ErrorTxn),
    Multi(MultiTxn),
}

/// The mathematical content of a [`TxnOperation`].
#[verifier::ext_equal]
pub enum TxnOperationView {
    CreateSession(CreateSessionTxn),
    CloseSession,
    Create(CreateTxnView),
    Create2(CreateTxnView),
    CreateTTL(CreateTTLTxnView),
    CreateContainer(CreateContainerTxnView),
    Delete(DeleteTxnView),
    DeleteContainer(DeleteTxnView),
    Reconfig(SetDataTxnView),
    SetData(SetDataTxnView),
    SetACL(SetACLTxnView),
    Error(ErrorTxn),
    Multi(MultiTxnView),
}

impl View for TxnOperation {
    type V = TxnOperationView;

    open spec fn view(&self) -> TxnOperationView {
        match self {
            TxnOperation::CreateSession(t) => TxnOperationView::CreateSession(t@),
            TxnOperation::CloseSession => TxnOperationView::CloseSession,
            TxnOperation::Create(t) => TxnOperationView::Create(t@),
            TxnOperation::Create2(t) => TxnOperationView::Create2(t@),
            TxnOperation::CreateTTL(t) => TxnOperationView::CreateTTL(t@),
            TxnOperation::CreateContainer(t) => TxnOperationView::CreateContainer(t@),
            TxnOperation::Delete(t) => TxnOperationView::Delete(t@),
            TxnOperation::DeleteContainer(t) => TxnOperationView::DeleteContainer(t@),
            TxnOperation::Reconfig(t) => TxnOperationView::Reconfig(t@),
            TxnOperation::SetData(t) => TxnOperationView::SetData(t@),
            TxnOperation::SetACL(t) => TxnOperationView::SetACL(t@),
            TxnOperation::Error(t) => TxnOperationView::Error(t@),
            TxnOperation::Multi(t) => TxnOperationView::Multi(t@),
        }
    }
}

impl Decode for TxnOperation {
    open spec fn spec_decode(reg: Seq<EnumMappingView>, s: Seq<u8>) -> Result<
        (TxnOperationView, Seq<u8>),
        Error,
    > {
        match spec_discriminant(reg, "TxnOperation"@, s) {
            Err(e) => Err(e),
            Ok((code, s1)) => if code == -10i32 {
                match CreateSessionTxn::spec_decode(reg, s1) {
                    Err(e) => Err(e),
                    Ok((t, s2)) => Ok((TxnOperationView::CreateSession(t), s2)),
                }
            } else if code == -11i32 {
                Ok((TxnOperationView::CloseSession, s1))
            } else if code == 1i32 {
                match CreateTxn::spec_decode(reg, s1) {
                    Err(e) => Err(e),
                    Ok((t, s2)) => Ok((TxnOperationView::Create(t), s2)),
                }
            } else if code == 15i32 {
                match CreateTxn::spec_decode(reg, s1) {
                    Err(e) => Err(e),
                    Ok((t, s2)) => Ok((TxnOperationView::Create2(t), s2)),
                }
            } else if code == 21i32 {
                match CreateTTLTxn::spec_decode(reg, s1) {
                    Err(e) => Err(e),
                    Ok((t, s2)) => Ok((TxnOperationView::CreateTTL(t), s2)),
                }
            } else if code == 19i32 {
                match CreateContainerTxn::spec_decode(reg, s1) {
                    Err(e) => Err(e),
                    Ok((t, s2)) => Ok((TxnOperationView::CreateContainer(t), s2)),
                }
            } else if code == 2i32 {
                match DeleteTxn::spec_decode(reg, s1) {
                    Err(e) => Err(e),
                    Ok((t, s2)) => Ok((TxnOperationView::Delete(t), s2)),
                }
            } else if code == 20i32 {
                match DeleteTxn::spec_decode(reg, s1) {
                    Err(e) => Err(e),
                    Ok((t, s2)) => Ok((TxnOperationView::DeleteContainer(t), s2)),
                }
            } else if code == 16i32 {
                match SetDataTxn::spec_decode(reg, s1) {
                    Err(e) => Err(e),
                    Ok((t, s2)) => Ok((TxnOperationView::Reconfig(t), s2)),
                }
            } else if code == 5i32 {
                match SetDataTxn::spec_decode(reg, s1) {
                    Err(e) => Err(e),
                    Ok((t, s2)) => Ok((TxnOperationView::SetData(t), s2)),
                }
            } else if code == 7i32 {
                match SetACLTxn::spec_decode(reg, s1) {
                    Err(e) => Err(e),
                    Ok((t, s2)) => Ok((TxnOperationView::SetACL(t), s2)),
                }
            } else if code == -1i32 {
                match ErrorTxn::spec_decode(reg, s1) {
                    Err(e) => Err(e),
                    Ok((t, s2)) => Ok((TxnOperationView::Error(t), s2)),
                }
            } else if code == 14i32 {
                match MultiTxn::spec_decode(reg, s1) {
                    Err(e) => Err(e),
                    Ok((t, s2)) => Ok((TxnOperationView::Multi(t), s2)),
                }
            } else {
                Err(Error::UnknownDiscriminant(code))
            },
        }
    }

    #[verifier::rlimit(60)]
    fn decode(d: &mut Deserializer) -> (r: Result<TxnOperation, Error>) {
        let code = match d.read_enum_discriminant("TxnOperation") {
            Ok(v) => v,
            Err(e) => { return Err(e) },
        };
        if code == -10 {
            match CreateSessionTxn::decode(d) {
                Ok(t) => Ok(TxnOperation::CreateSession(t)),
                Err(e) => Err(e),
            }
        } else if code == -11 {
            Ok(TxnOperation::CloseSession)
        } else if code == 1 {
            match CreateTxn::decode(d) {
                Ok(t) => Ok(TxnOperation::Create(t)),
                Err(e) => Err(e),
            }
        } else if code == 15 {
            match CreateTxn::decode(d) {
                Ok(t) => Ok(TxnOperation::Create2(t)),
                Err(e) => Err(e),
            }
        } else if code == 21 {
            match CreateTTLTxn::decode(d) {
                Ok(t) => Ok(TxnOperation::CreateTTL(t)),
                Err(e) => Err(e),
            }
        } else if code == 19 {
            match CreateContainerTxn::decode(d) {
                Ok(t) => Ok(TxnOperation::CreateContainer(t)),
                Err(e) => Err(e),
            }
        } else if code == 2 {
            match DeleteTxn::decode(d) {
                Ok(t) => Ok(TxnOperation::Delete(t)),
                Err(e) => Err(e),
            }
        } else if code == 20 {
            match DeleteTxn::decode(d) {
                Ok(t) => Ok(TxnOperation::DeleteContainer(t)),
                Err(e) => Err(e),
            }
        } else if code == 16 {
            match SetDataTxn::decode(d) {
                Ok(t) => Ok(TxnOperation::Reconfig(t)),
                Err(e) => Err(e),
            }
        } else if code == 5 {
            match SetDataTxn::decode(d) {
                Ok(t) => Ok(TxnOperation::SetData(t)),
                Err(e) => Err(e),
            }
        } else if code == 7 {
            match SetACLTxn::decode(d) {
                Ok(t) => Ok(TxnOperation::SetACL(t)),
                Err(e) => Err(e),
            }
        } else if code == -1 {
            match ErrorTxn::decode(d) {
                Ok(t) => Ok(TxnOperation::Error(t)),
                Err(e) => Err(e),
            }
        } else if code == 14 {
            match MultiTxn::decode(d) {
                Ok(t) => Ok(TxnOperation::Multi(t)),
                Err(e) => Err(e),
            }
        } else {
            Err(Error::UnknownDiscriminant(code))
        }
    }
}

/// A transaction, composed of its header and operation.
#[derive(Debug, Clone, PartialEq, Eq)]
pub struct Txn {
    pub header: TxnHeader,
    pub op: TxnOperation,
}

/// The mathematical content of a [`Txn`].
#[verifier::ext_equal]
pub struct TxnView {
    pub header: TxnHeader,
    pub op: TxnOperationView,
}

impl View for Txn {
    type V = TxnView;

    open spec fn view(&self) -> TxnView {
        TxnView { header: self.header, op: self.op@ }
    }
}

impl Decode for Txn {
    open spec fn spec_decode(reg: Seq<EnumMappingView>, s: Seq<u8>) -> Result<
        (TxnView, Seq<u8>),
        Error,
    > {
        match TxnHeader::spec_decode(reg, s) {
            Err(e) => Err(e),
            Ok((header, s1)) => match TxnOperation::spec_decode(reg, s1) {
                Err(e) => Err(e),
                Ok((op, s2)) => Ok(((TxnView { header, op }), s2)),
            },
        }
    }

    fn decode(d: &mut Deserializer) -> (r: Result<Txn, Error>) {
        let header = match TxnHeader::decode(d) {
            Ok(v) => v,
            Err(e) => { return Err(e) },
        };
        let op = match TxnOperation::decode(d) {
            Ok(v) => v,
            Err(e) => { return Err(e) },
        };
        Ok(Txn { header, op })
    }
}

/// Decoding an `Id` never hands back more bytes than it was given.
proof fn lemma_id_le(reg: Seq<EnumMappingView>, s: Seq<u8>)
    ensures
        Id::spec_decode(reg, s) is Ok ==> Id::spec_decode(reg, s)->Ok_0.1.len() <= s.len(),
{
}

/// Decoding an `ACL` never hands back more bytes than it was given.
proof fn lemma_acl_le(reg: Seq<EnumMappingView>, s: Seq<u8>)
    ensures
        ACL::spec_decode(reg, s) is Ok ==> ACL::spec_decode(reg, s)->Ok_0.1.len() <= s.len(),
{
    match spec_u32(s) {
        Err(_) => {},
        Ok((_bits, s1)) => {
            lemma_id_le(reg, s1);
        },
    }
}

/// Reading `n` values never hands back more bytes than it was given, as long
/// as each single read does not.
proof fn lemma_elems_le<T>(
    elem: spec_fn(Seq<u8>) -> Result<(T, Seq<u8>), Error>,
    n: nat,
    s: Seq<u8>,
)
    requires
        forall|t: Seq<u8>| (#[trigger] elem(t)) is Ok ==> elem(t)->Ok_0.1.len() <= t.len(),
    ensures
        spec_elems(elem, n, s) is Ok ==> spec_elems(elem, n, s)->Ok_0.1.len() <= s.len(),
    decreases n,
{
    if n > 0 {
        match elem(s) {
            Err(_) => {},
            Ok((_v, rest)) => {
                lemma_elems_le(elem, (n - 1) as nat, rest);
            },
        }
    }
}

/// Decoding a counted ACL list never hands back more bytes than given.
proof fn lemma_acl_vec_le(reg: Seq<EnumMappingView>, s: Seq<u8>)
    ensures
        spec_counted(decode_parser::<ACL>(reg), s) is Ok ==> spec_counted(
            decode_parser::<ACL>(reg),
            s,
        )->Ok_0.1.len() <= s.len(),
{
    assert forall|t: Seq<u8>| (#[trigger] decode_parser::<ACL>(reg)(t)) is Ok implies decode_parser::<
        ACL,
    >(reg)(t)->Ok_0.1.len() <= t.len() by {
        lemma_acl_le(reg, t);
    }
    match spec_count(s) {
        Err(_) => {},
        Ok((n, rest)) => {
            lemma_elems_le(decode_parser::<ACL>(reg), n as nat, rest);
        },
    }
}

/// Decoding a `CreateTxn` never hands back more bytes than given.
proof fn lemma_create_le(reg: Seq<EnumMappingView>, s: Seq<u8>)
    ensures
        CreateTxn::spec_decode(reg, s) is Ok ==> CreateTxn::spec_decode(reg, s)->Ok_0.1.len()
            <= s.len(),
{
    match spec_string(s) {
        Err(_) => {},
        Ok((_path, s1)) => match spec_byte_seq(s1) {
            Err(_) => {},
            Ok((_data, s2)) => {
                lemma_acl_vec_le(reg, s2);
            },
        },
    }
}

/// Decoding a `CreateContainerTxn` never hands back more bytes than given.
proof fn lemma_create_container_le(reg: Seq<EnumMappingView>, s: Seq<u8>)
    ensures
        CreateContainerTxn::spec_decode(reg, s) is Ok ==> CreateContainerTxn::spec_decode(
            reg,
            s,
        )->Ok_0.1.len() <= s.len(),
{
    match spec_string(s) {
        Err(_) => {},
        Ok((_path, s1)) => match spec_buffer(s1) {
            Err(_) => {},
            Ok((_data, s2)) => {
                lemma_acl_vec_le(reg, s2);
            },
        },
    }
}

/// Decoding a `CreateTTLTxn` never hands back more bytes than given.
proof fn lemma_create_ttl_le(reg: Seq<EnumMappingView>, s: Seq<u8>)
    ensures
        CreateTTLTxn::spec_decode(reg, s) is Ok ==> CreateTTLTxn::spec_decode(reg, s)->Ok_0.1.len()
            <= s.len(),
{
    match spec_string(s) {
        Err(_) => {},
        Ok((_path, s1)) => match spec_buffer(s1) {
            Err(_) => {},
            Ok((_data, s2)) => {
                lemma_acl_vec_le(reg, s2);
            },
        },
    }
}

/// Decoding a `SetACLTxn` never hands back more bytes than given.
proof fn lemma_set_acl_le(reg: Seq<EnumMappingView>, s: Seq<u8>)
    ensures
        SetACLTxn::spec_decode(reg, s) is Ok ==> SetACLTxn::spec_decode(reg, s)->Ok_0.1.len()
            <= s.len(),
{
    match spec_string(s) {
        Err(_) => {},
        Ok((_path, s1)) => {
            lemma_acl_vec_le(reg, s1);
        },
    }
}

/// Decoding one multi-operation never hands back more bytes than given.
proof fn lemma_multi_op_le(reg: Seq<EnumMappingView>, s: Seq<u8>)
    ensures
        MultiTxnOperation::spec_decode(reg, s) is Ok ==> MultiTxnOperation::spec_decode(
            reg,
            s,
        )->Ok_0.1.len() <= s.len(),
{
    match spec_discriminant(reg, "MultiTxnOperation"@, s) {
        Err(_) => {},
        Ok((_code, s1)) => {
            lemma_create_le(reg, s1);
            lemma_create_ttl_le(reg, s1);
            lemma_create_container_le(reg, s1);
        },
    }
}

/// Decoding a `MultiTxn` never hands back more bytes than given.
proof fn lemma_multi_le(reg: Seq<EnumMappingView>, s: Seq<u8>)
    ensures
        MultiTxn::spec_decode(reg, s) is Ok ==> MultiTxn::spec_decode(reg, s)->Ok_0.1.len()
            <= s.len(),
{
    assert forall|t: Seq<u8>| (#[trigger] decode_parser::<MultiTxnOperation>(reg)(t))
        is Ok implies decode_parser::<MultiTxnOperation>(reg)(t)->Ok_0.1.len() <= t.len() by {
        lemma_multi_op_le(reg, t);
    }
    match spec_count(s) {
        Err(_) => {},
        Ok((n, rest)) => {
            lemma_elems_le(decode_parser::<MultiTxnOperation>(reg), n as nat, rest);
        },
    }
}

/// Decoding a `TxnOperation` never hands back more bytes than given.
proof fn lemma_txn_op_le(reg: Seq<EnumMappingView>, s: Seq<u8>)
    ensures
        TxnOperation::spec_decode(reg, s) is Ok ==> TxnOperation::spec_decode(reg, s)->Ok_0.1.len()
            <= s.len(),
{
    match spec_discriminant(reg, "TxnOperation"@, s) {
        Err(_) => {},
        Ok((_code, s1)) => {
            lemma_create_le(reg, s1);
            lemma_create_ttl_le(reg, s1);
            lemma_create_container_le(reg, s1);
            lemma_set_acl_le(reg, s1);
            lemma_multi_le(reg, s1);
        },
    }
}

/// Decoding a whole `Txn` never hands back more bytes than it was given.
/// This bounds a record's tail and lets a whole log be read record by
/// record.
pub proof fn lemma_txn_le(reg: Seq<EnumMappingView>, s: Seq<u8>)
    ensures
        Txn::spec_decode(reg, s) is Ok ==> Txn::spec_decode(reg, s)->Ok_0.1.len() <= s.len(),
{
    match TxnHeader::spec_decode(reg, s) {
        Err(_) => {},
        Ok((_h, s1)) => {
            lemma_txn_op_le(reg, s1);
        },
    }
}

/// The bytes a transaction header occupies on the wire.
pub open spec fn txn_header_to_be(h: TxnHeader) -> Seq<u8> {
    i64_to_be(h.client_id.0) + i32_to_be(h.cxid.0) + i64_to_be(h.zxid.0) + u64_to_be(h.time.0)
}

/// Law: a transaction header's encoding decodes back to the very header,
/// leaving exactly the payload that follows it — the header round-trips
/// through encode and decode.
pub proof fn lemma_txn_header_round_trip(reg: Seq<EnumMappingView>, h: TxnHeader, rest: Seq<u8>)
    ensures
        TxnHeader::spec_decode(reg, txn_header_to_be(h) + rest) == Ok::<_, Error>((h, rest)),
{
    lemma_be_i64_round_trip(h.client_id.0);
    lemma_be_i32_round_trip(h.cxid.0);
    lemma_be_i64_round_trip(h.zxid.0);
    lemma_be_u64_round_trip(h.time.0);
    let s = txn_header_to_be(h) + rest;
    assert(s.subrange(0, 8) =~= i64_to_be(h.client_id.0));
    let s1 = s.skip(8);
    assert(s1 =~= i32_to_be(h.cxid.0) + i64_to_be(h.zxid.0) + u64_to_be(h.time.0) + rest);
    assert(s1.subrange(0, 4) =~= i32_to_be(h.cxid.0));
    let s2 = s1.skip(4);
    assert(s2 =~= i64_to_be(h.zxid.0) + u64_to_be(h.time.0) + rest);
    assert(s2.subrange(0, 8) =~= i64_to_be(h.zxid.0));
    let s3 = s2.skip(8);
    assert(s3 =~= u64_to_be(h.time.0) + rest);
    assert(s3.subrange(0, 8) =~= u64_to_be(h.time.0));
    assert(s3.skip(8) =~= rest);
}

} // verus!
