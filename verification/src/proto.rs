//! The protocol's code enumerations and its catalogue of request and
//! response message shapes.
//!
//! The decoders only consume [`OpCode`] and [`ErrorCode`]: their tables are
//! what the file readers register with the enum discriminant registry. The
//! message shapes are plain data schemas that callers of the decoding engine
//! describe field by field; they carry no decoding logic of their own.

use vstd::prelude::*;

use crate::codec::table_view;
use crate::CreateMode;
use crate::Duration;
use crate::OptionalVersion;
use crate::Perms;
use crate::SessionId;
use crate::Stat;
use crate::Version;
use crate::Xid;
use crate::Zxid;
use crate::ACL;

verus! {

/// The `Request` trait names the response type a request is answered with,
/// so that callers can pair the two.
pub trait Request {
    type Response;
}

/// A protocol code enumeration: a closed set of named variants, each carrying
/// an integer code on the wire. The tables it yields feed the enum
/// discriminant registry.
pub trait OpCodeEnum {
    /// The (code, canonical name) pairs, in declaration order.
    spec fn spec_codes() -> Seq<(i32, Seq<char>)>;

    /// The code-to-name table handed to the discriminant registry.
    fn codes_to_names() -> (r: Vec<(i32, String)>)
        ensures
            table_view(r@) == Self::spec_codes(),
    ;

    /// The same table with each pair turned around.
    fn names_to_codes() -> (r: Vec<(String, i32)>)
        ensures
            name_code_view(r@) == flip_table(Self::spec_codes()),
    ;
}

/// The mathematical content of a name-to-code table.
pub open spec fn name_code_view(t: Seq<(String, i32)>) -> Seq<(Seq<char>, i32)> {
    t.map_values(|p: (String, i32)| (p.0@, p.1))
}

/// A code table with each pair turned around.
pub open spec fn flip_table(t: Seq<(i32, Seq<char>)>) -> Seq<(Seq<char>, i32)> {
    t.map_values(|q: (i32, Seq<char>)| (q.1, q.0))
}

/// Turns a code-to-name table around.
fn swap_table(t: &Vec<(i32, String)>) -> (r: Vec<(String, i32)>)
    ensures
        name_code_view(r@) == flip_table(table_view(t@)),
{
    let mut r: Vec<(String, i32)> = Vec::new();
    let mut i: usize = 0;
    while i < t.len()
        invariant
            i <= t@.len(),
            r@.len() == i,
            forall|j: int|
                0 <= j < i ==> (#[trigger] r@[j]).0@ == t@[j].1@ && r@[j].1 == t@[j].0,
        decreases t@.len() - i,
    {
        let name = t[i].1.clone();
        let code = t[i].0;
        r.push((name, code));
        i = i + 1;
    }
    proof {
        assert forall|j: int| 0 <= j < t@.len() implies name_code_view(r@)[j] == flip_table(
            table_view(t@),
        )[j] by {
            assert(r@[j].0@ == t@[j].1@);
        }
        assert(name_code_view(r@) =~= flip_table(table_view(t@)));
    }
    r
}

/// The operation codes the server stamps on requests and transactions.
#[derive(Debug, Copy, Clone, PartialEq, Eq, Structural)]
pub enum OpCode {
    Notification,
    Create,
    Delete,
    Exists,
    GetData,
    SetData,
    GetACL,
    SetACL,
    GetChildren,
    Sync,
    Ping,
    GetChildren2,
    Check,
    Multi,
    Create2,
    Reconfig,
    CheckWatches,
    RemoveWatches,
    CreateContainer,
    DeleteContainer,
    CreateTTL,
    Auth,
    SetWatches,
    Sasl,
    CreateSession,
    CloseSession,
    Error,
}

impl OpCode {
    /// The integer code of this operation on the wire.
    pub open spec fn spec_code(self) -> i32 {
        match self {
            OpCode::Notification => 0i32,
            OpCode::Create => 1i32,
            OpCode::Delete => 2i32,
            OpCode::Exists => 3i32,
            OpCode::GetData => 4i32,
            OpCode::SetData => 5i32,
            OpCode::GetACL => 6i32,
            OpCode::SetACL => 7i32,
            OpCode::GetChildren => 8i32,
            OpCode::Sync => 9i32,
            OpCode::Ping => 11i32,
            OpCode::GetChildren2 => 12i32,
            OpCode::Check => 13i32,
            OpCode::Multi => 14i32,
            OpCode::Create2 => 15i32,
            OpCode::Reconfig => 16i32,
            OpCode::CheckWatches => 17i32,
            OpCode::RemoveWatches => 18i32,
            OpCode::CreateContainer => 19i32,
            OpCode::DeleteContainer => 20i32,
            OpCode::CreateTTL => 21i32,
            OpCode::Auth => 100i32,
            OpCode::SetWatches => 101i32,
            OpCode::Sasl => 102i32,
            OpCode::CreateSession => -10i32,
            OpCode::CloseSession => -11i32,
            OpCode::Error => -1i32,
        }
    }

    /// The integer code of this operation on the wire.
    #[verifier::when_used_as_spec(spec_code)]
    pub fn code(self) -> (r: i32)
        ensures
            r == self.spec_code(),
    {
        match self {
            OpCode::Notification => 0i32,
            OpCode::Create => 1i32,
            OpCode::Delete => 2i32,
            OpCode::Exists => 3i32,
            OpCode::GetData => 4i32,
            OpCode::SetData => 5i32,
            OpCode::GetACL => 6i32,
            OpCode::SetACL => 7i32,
            OpCode::GetChildren => 8i32,
            OpCode::Sync => 9i32,
            OpCode::Ping => 11i32,
            OpCode::GetChildren2 => 12i32,
            OpCode::Check => 13i32,
            OpCode::Multi => 14i32,
            OpCode::Create2 => 15i32,
            OpCode::Reconfig => 16i32,
            OpCode::CheckWatches => 17i32,
            OpCode::RemoveWatches => 18i32,
            OpCode::CreateContainer => 19i32,
            OpCode::DeleteContainer => 20i32,
            OpCode::CreateTTL => 21i32,
            OpCode::Auth => 100i32,
            OpCode::SetWatches => 101i32,
            OpCode::Sasl => 102i32,
            OpCode::CreateSession => -10i32,
            OpCode::CloseSession => -11i32,
            OpCode::Error => -1i32,
        }
    }

    /// The canonical name of this operation.
    pub open spec fn spec_name(self) -> Seq<char> {
        match self {
            OpCode::Notification => "Notification"@,
            OpCode::Create => "Create"@,
            OpCode::Delete => "Delete"@,
            OpCode::Exists => "Exists"@,
            OpCode::GetData => "GetData"@,
            OpCode::SetData => "SetData"@,
            OpCode::GetACL => "GetACL"@,
            OpCode::SetACL => "SetACL"@,
            OpCode::GetChildren => "GetChildren"@,
            OpCode::Sync => "Sync"@,
            OpCode::Ping => "Ping"@,
            OpCode::GetChildren2 => "GetChildren2"@,
            OpCode::Check => "Check"@,
            OpCode::Multi => "Multi"@,
            OpCode::Create2 => "Create2"@,
            OpCode::Reconfig => "Reconfig"@,
            OpCode::CheckWatches => "CheckWatches"@,
            OpCode::RemoveWatches => "RemoveWatches"@,
            OpCode::CreateContainer => "CreateContainer"@,
            OpCode::DeleteContainer => "DeleteContainer"@,
            OpCode::CreateTTL => "CreateTTL"@,
            OpCode::Auth => "Auth"@,
            OpCode::SetWatches => "SetWatches"@,
            OpCode::Sasl => "Sasl"@,
            OpCode::CreateSession => "CreateSession"@,
            OpCode::CloseSession => "CloseSession"@,
            OpCode::Error => "Error"@,
        }
    }

    /// The canonical name of this operation.
    pub fn name(self) -> (r: &'static str)
        ensures
            r@ == self.spec_name(),
    {
        match self {
            OpCode::Notification => "Notification",
            OpCode::Create => "Create",
            OpCode::Delete => "Delete",
            OpCode::Exists => "Exists",
            OpCode::GetData => "GetData",
            OpCode::SetData => "SetData",
            OpCode::GetACL => "GetACL",
            OpCode::SetACL => "SetACL",
            OpCode::GetChildren => "GetChildren",
            OpCode::Sync => "Sync",
            OpCode::Ping => "Ping",
            OpCode::GetChildren2 => "GetChildren2",
            OpCode::Check => "Check",
            OpCode::Multi => "Multi",
            OpCode::Create2 => "Create2",
            OpCode::Reconfig => "Reconfig",
            OpCode::CheckWatches => "CheckWatches",
            OpCode::RemoveWatches => "RemoveWatches",
            OpCode::CreateContainer => "CreateContainer",
            OpCode::DeleteContainer => "DeleteContainer",
            OpCode::CreateTTL => "CreateTTL",
            OpCode::Auth => "Auth",
            OpCode::SetWatches => "SetWatches",
            OpCode::Sasl => "Sasl",
            OpCode::CreateSession => "CreateSession",
            OpCode::CloseSession => "CloseSession",
            OpCode::Error => "Error",
        }
    }

    /// Every operation code, in declaration order.
    pub open spec fn spec_all() -> Seq<OpCode> {
        seq![
            OpCode::Notification,
            OpCode::Create,
            OpCode::Delete,
            OpCode::Exists,
            OpCode::GetData,
            OpCode::SetData,
            OpCode::GetACL,
            OpCode::SetACL,
            OpCode::GetChildren,
            OpCode::Sync,
            OpCode::Ping,
            OpCode::GetChildren2,
            OpCode::Check,
            OpCode::Multi,
            OpCode::Create2,
            OpCode::Reconfig,
            OpCode::CheckWatches,
            OpCode::RemoveWatches,
            OpCode::CreateContainer,
            OpCode::DeleteContainer,
            OpCode::CreateTTL,
            OpCode::Auth,
            OpCode::SetWatches,
            OpCode::Sasl,
            OpCode::CreateSession,
            OpCode::CloseSession,
            OpCode::Error,
        ]
    }

    /// Every operation code, in declaration order.
    pub fn all() -> (r: Vec<OpCode>)
        ensures
            r@ == Self::spec_all(),
    {
        let r = vec![
            OpCode::Notification,
            OpCode::Create,
            OpCode::Delete,
            OpCode::Exists,
            OpCode::GetData,
            OpCode::SetData,
            OpCode::GetACL,
            OpCode::SetACL,
            OpCode::GetChildren,
            OpCode::Sync,
            OpCode::Ping,
            OpCode::GetChildren2,
            OpCode::Check,
            OpCode::Multi,
            OpCode::Create2,
            OpCode::Reconfig,
            OpCode::CheckWatches,
            OpCode::RemoveWatches,
            OpCode::CreateContainer,
            OpCode::DeleteContainer,
            OpCode::CreateTTL,
            OpCode::Auth,
            OpCode::SetWatches,
            OpCode::Sasl,
            OpCode::CreateSession,
            OpCode::CloseSession,
            OpCode::Error,
        ];
        proof {
            assert(r@ =~= Self::spec_all());
        }
        r
    }
}

impl OpCodeEnum for OpCode {
    open spec fn spec_codes() -> Seq<(i32, Seq<char>)> {
        OpCode::spec_all().map_values(|op: OpCode| (op.spec_code(), op.spec_name()))
    }

    fn codes_to_names() -> (r: Vec<(i32, String)>) {
        let ops = OpCode::all();
        let mut r: Vec<(i32, String)> = Vec::new();
        let mut i: usize = 0;
        while i < ops.len()
            invariant
                i <= ops@.len(),
                ops@ == OpCode::spec_all(),
                r@.len() == i,
                forall|j: int|
                    0 <= j < i ==> (#[trigger] r@[j]).0 == OpCode::spec_all()[j].spec_code()
                        && r@[j].1@ == OpCode::spec_all()[j].spec_name(),
            decreases ops@.len() - i,
        {
            let op = ops[i];
            r.push((op.code(), op.name().to_owned()));
            i = i + 1;
        }
        proof {
            assert forall|j: int| 0 <= j < r@.len() implies table_view(r@)[j]
                == Self::spec_codes()[j] by {
                assert(r@[j].0 == OpCode::spec_all()[j].spec_code());
                assert(r@[j].1@ == OpCode::spec_all()[j].spec_name());
            }
            assert(table_view(r@) =~= Self::spec_codes());
        }
        r
    }

    fn names_to_codes() -> (r: Vec<(String, i32)>) {
        swap_table(&Self::codes_to_names())
    }
}

/// The error codes the server answers failed operations with.
#[derive(Debug, Copy, Clone, PartialEq, Eq, Structural)]
pub enum ErrorCode {
    /// Everything is OK (canonical wire name "Ok")
    Okay,
    /// Never sent by the server; marks the lower edge of the system-error
    /// range: codes below this and above `APIError` are system errors.
    SystemError,
    /// A runtime inconsistency was found
    RuntimeInconsistency,
    /// A data inconsistency was found
    DataInconsistency,
    /// Connection to the server has been lost
    ConnectionLoss,
    /// Error while marshalling or unmarshalling data
    MarshallingError,
    /// Operation is unimplemented
    Unimplemented,
    /// Operation timeout
    OperationTimeout,
    /// Invalid arguments
    BadArguments,
    /// No quorum of the new configuration is connected and up to date
    NewConfigNoQuorum,
    /// Another reconfiguration is already in progress
    ReconfigInProgress,
    /// Unknown session (internal server use only)
    UnknownSession,
    /// Never sent by the server; marks the upper edge of the API-error range:
    /// codes below this are API errors.
    APIError,
    /// Node does not exist
    NoNode,
    /// Not authenticated
    NoAuth,
    /// Version conflict
    BadVersion,
    /// Ephemeral nodes may not have children
    NoChildrenForEphemerals,
    /// The node already exists
    NodeExists,
    /// The node has children
    NotEmpty,
    /// The session has been expired by the server
    SessionExpired,
    /// Invalid callback specified
    InvalidCallback,
    /// Invalid ACL specified
    InvalidACL,
    /// Client authentication failed
    AuthFailed,
    /// Session moved to another server, so operation is ignored
    SessionMoved,
    /// A state-changing request reached a read-only server
    NotReadOnly,
    /// Attempt to create an ephemeral node on a local session
    EphemeralOnLocalSession,
    /// Attempt to remove a watcher that is not there
    NoWatcher,
    /// Reconfiguration requested while the feature is disabled
    ReconfigDisabled,
}

impl ErrorCode {
    /// The integer code of this error on the wire.
    pub open spec fn spec_code(self) -> i32 {
        match self {
            ErrorCode::Okay => 0i32,
            ErrorCode::SystemError => -1i32,
            ErrorCode::RuntimeInconsistency => -2i32,
            ErrorCode::DataInconsistency => -3i32,
            ErrorCode::ConnectionLoss => -4i32,
            ErrorCode::MarshallingError => -5i32,
            ErrorCode::Unimplemented => -6i32,
            ErrorCode::OperationTimeout => -7i32,
            ErrorCode::BadArguments => -8i32,
            ErrorCode::NewConfigNoQuorum => -13i32,
            ErrorCode::ReconfigInProgress => -14i32,
            ErrorCode::UnknownSession => -12i32,
            ErrorCode::APIError => -100i32,
            ErrorCode::NoNode => -101i32,
            ErrorCode::NoAuth => -102i32,
            ErrorCode::BadVersion => -103i32,
            ErrorCode::NoChildrenForEphemerals => -108i32,
            ErrorCode::NodeExists => -110i32,
            ErrorCode::NotEmpty => -111i32,
            ErrorCode::SessionExpired => -112i32,
            ErrorCode::InvalidCallback => -113i32,
            ErrorCode::InvalidACL => -114i32,
            ErrorCode::AuthFailed => -115i32,
            ErrorCode::SessionMoved => -118i32,
            ErrorCode::NotReadOnly => -119i32,
            ErrorCode::EphemeralOnLocalSession => -120i32,
            ErrorCode::NoWatcher => -121i32,
            ErrorCode::ReconfigDisabled => -123i32,
        }
    }

    /// The integer code of this error on the wire.
    #[verifier::when_used_as_spec(spec_code)]
    pub fn code(self) -> (r: i32)
        ensures
            r == self.spec_code(),
    {
        match self {
            ErrorCode::Okay => 0i32,
            ErrorCode::SystemError => -1i32,
            ErrorCode::RuntimeInconsistency => -2i32,
            ErrorCode::DataInconsistency => -3i32,
            ErrorCode::ConnectionLoss => -4i32,
            ErrorCode::MarshallingError => -5i32,
            ErrorCode::Unimplemented => -6i32,
            ErrorCode::OperationTimeout => -7i32,
            ErrorCode::BadArguments => -8i32,
            ErrorCode::NewConfigNoQuorum => -13i32,
            ErrorCode::ReconfigInProgress => -14i32,
            ErrorCode::UnknownSession => -12i32,
            ErrorCode::APIError => -100i32,
            ErrorCode::NoNode => -101i32,
            ErrorCode::NoAuth => -102i32,
            ErrorCode::BadVersion => -103i32,
            ErrorCode::NoChildrenForEphemerals => -108i32,
            ErrorCode::NodeExists => -110i32,
            ErrorCode::NotEmpty => -111i32,
            ErrorCode::SessionExpired => -112i32,
            ErrorCode::InvalidCallback => -113i32,
            ErrorCode::InvalidACL => -114i32,
            ErrorCode::AuthFailed => -115i32,
            ErrorCode::SessionMoved => -118i32,
            ErrorCode::NotReadOnly => -119i32,
            ErrorCode::EphemeralOnLocalSession => -120i32,
            ErrorCode::NoWatcher => -121i32,
            ErrorCode::ReconfigDisabled => -123i32,
        }
    }

    /// The canonical name of this error.
    pub open spec fn spec_name(self) -> Seq<char> {
        match self {
            ErrorCode::Okay => "Ok"@,
            ErrorCode::SystemError => "SystemError"@,
            ErrorCode::RuntimeInconsistency => "RuntimeInconsistency"@,
            ErrorCode::DataInconsistency => "DataInconsistency"@,
            ErrorCode::ConnectionLoss => "ConnectionLoss"@,
            ErrorCode::MarshallingError => "MarshallingError"@,
            ErrorCode::Unimplemented => "Unimplemented"@,
            ErrorCode::OperationTimeout => "OperationTimeout"@,
            ErrorCode::BadArguments => "BadArguments"@,
            ErrorCode::NewConfigNoQuorum => "NewConfigNoQuorum"@,
            ErrorCode::ReconfigInProgress => "ReconfigInProgress"@,
            ErrorCode::UnknownSession => "UnknownSession"@,
            ErrorCode::APIError => "APIError"@,
            ErrorCode::NoNode => "NoNode"@,
            ErrorCode::NoAuth => "NoAuth"@,
            ErrorCode::BadVersion => "BadVersion"@,
            ErrorCode::NoChildrenForEphemerals => "NoChildrenForEphemerals"@,
            ErrorCode::NodeExists => "NodeExists"@,
            ErrorCode::NotEmpty => "NotEmpty"@,
            ErrorCode::SessionExpired => "SessionExpired"@,
            ErrorCode::InvalidCallback => "InvalidCallback"@,
            ErrorCode::InvalidACL => "InvalidACL"@,
            ErrorCode::AuthFailed => "AuthFailed"@,
            ErrorCode::SessionMoved => "SessionMoved"@,
            ErrorCode::NotReadOnly => "NotReadOnly"@,
            ErrorCode::EphemeralOnLocalSession => "EphemeralOnLocalSession"@,
            ErrorCode::NoWatcher => "NoWatcher"@,
            ErrorCode::ReconfigDisabled => "ReconfigDisabled"@,
        }
    }

    /// The canonical name of this error.
    pub fn name(self) -> (r: &'static str)
        ensures
            r@ == self.spec_name(),
    {
        match self {
            ErrorCode::Okay => "Ok",
            ErrorCode::SystemError => "SystemError",
            ErrorCode::RuntimeInconsistency => "RuntimeInconsistency",
            ErrorCode::DataInconsistency => "DataInconsistency",
            ErrorCode::ConnectionLoss => "ConnectionLoss",
            ErrorCode::MarshallingError => "MarshallingError",
            ErrorCode::Unimplemented => "Unimplemented",
            ErrorCode::OperationTimeout => "OperationTimeout",
            ErrorCode::BadArguments => "BadArguments",
            ErrorCode::NewConfigNoQuorum => "NewConfigNoQuorum",
            ErrorCode::ReconfigInProgress => "ReconfigInProgress",
            ErrorCode::UnknownSession => "UnknownSession",
            ErrorCode::APIError => "APIError",
            ErrorCode::NoNode => "NoNode",
            ErrorCode::NoAuth => "NoAuth",
            ErrorCode::BadVersion => "BadVersion",
            ErrorCode::NoChildrenForEphemerals => "NoChildrenForEphemerals",
            ErrorCode::NodeExists => "NodeExists",
            ErrorCode::NotEmpty => "NotEmpty",
            ErrorCode::SessionExpired => "SessionExpired",
            ErrorCode::InvalidCallback => "InvalidCallback",
            ErrorCode::InvalidACL => "InvalidACL",
            ErrorCode::AuthFailed => "AuthFailed",
            ErrorCode::SessionMoved => "SessionMoved",
            ErrorCode::NotReadOnly => "NotReadOnly",
            ErrorCode::EphemeralOnLocalSession => "EphemeralOnLocalSession",
            ErrorCode::NoWatcher => "NoWatcher",
            ErrorCode::ReconfigDisabled => "ReconfigDisabled",
        }
    }

    /// Every error code, in declaration order.
    pub open spec fn spec_all() -> Seq<ErrorCode> {
        seq![
            ErrorCode::Okay,
            ErrorCode::SystemError,
            ErrorCode::RuntimeInconsistency,
            ErrorCode::DataInconsistency,
            ErrorCode::ConnectionLoss,
            ErrorCode::MarshallingError,
            ErrorCode::Unimplemented,
            ErrorCode::OperationTimeout,
            ErrorCode::BadArguments,
            ErrorCode::NewConfigNoQuorum,
            ErrorCode::ReconfigInProgress,
            ErrorCode::UnknownSession,
            ErrorCode::APIError,
            ErrorCode::NoNode,
            ErrorCode::NoAuth,
            ErrorCode::BadVersion,
            ErrorCode::NoChildrenForEphemerals,
            ErrorCode::NodeExists,
            ErrorCode::NotEmpty,
            ErrorCode::SessionExpired,
            ErrorCode::InvalidCallback,
            ErrorCode::InvalidACL,
            ErrorCode::AuthFailed,
            ErrorCode::SessionMoved,
            ErrorCode::NotReadOnly,
            ErrorCode::EphemeralOnLocalSession,
            ErrorCode::NoWatcher,
            ErrorCode::ReconfigDisabled,
        ]
    }

    /// Every error code, in declaration order.
    pub fn all() -> (r: Vec<ErrorCode>)
        ensures
            r@ == Self::spec_all(),
    {
        let r = vec![
            ErrorCode::Okay,
            ErrorCode::SystemError,
            ErrorCode::RuntimeInconsistency,
            ErrorCode::DataInconsistency,
            ErrorCode::ConnectionLoss,
            ErrorCode::MarshallingError,
            ErrorCode::Unimplemented,
            ErrorCode::OperationTimeout,
            ErrorCode::BadArguments,
            ErrorCode::NewConfigNoQuorum,
            ErrorCode::ReconfigInProgress,
            ErrorCode::UnknownSession,
            ErrorCode::APIError,
            ErrorCode::NoNode,
            ErrorCode::NoAuth,
            ErrorCode::BadVersion,
            ErrorCode::NoChildrenForEphemerals,
            ErrorCode::NodeExists,
            ErrorCode::NotEmpty,
            ErrorCode::SessionExpired,
            ErrorCode::InvalidCallback,
            ErrorCode::InvalidACL,
            ErrorCode::AuthFailed,
            ErrorCode::SessionMoved,
            ErrorCode::NotReadOnly,
            ErrorCode::EphemeralOnLocalSession,
            ErrorCode::NoWatcher,
            ErrorCode::ReconfigDisabled,
        ];
        proof {
            assert(r@ =~= Self::spec_all());
        }
        r
    }

    /// The error a code stands for, if the code is defined.
    pub open spec fn spec_from_code(code: i32) -> Option<ErrorCode> {
        if code == 0 {
            Some(ErrorCode::Okay)
        } else if code == -1 {
            Some(ErrorCode::SystemError)
        } else if code == -2 {
            Some(ErrorCode::RuntimeInconsistency)
        } else if code == -3 {
            Some(ErrorCode::DataInconsistency)
        } else if code == -4 {
            Some(ErrorCode::ConnectionLoss)
        } else if code == -5 {
            Some(ErrorCode::MarshallingError)
        } else if code == -6 {
            Some(ErrorCode::Unimplemented)
        } else if code == -7 {
            Some(ErrorCode::OperationTimeout)
        } else if code == -8 {
            Some(ErrorCode::BadArguments)
        } else if code == -13 {
            Some(ErrorCode::NewConfigNoQuorum)
        } else if code == -14 {
            Some(ErrorCode::ReconfigInProgress)
        } else if code == -12 {
            Some(ErrorCode::UnknownSession)
        } else if code == -100 {
            Some(ErrorCode::APIError)
        } else if code == -101 {
            Some(ErrorCode::NoNode)
        } else if code == -102 {
            Some(ErrorCode::NoAuth)
        } else if code == -103 {
            Some(ErrorCode::BadVersion)
        } else if code == -108 {
            Some(ErrorCode::NoChildrenForEphemerals)
        } else if code == -110 {
            Some(ErrorCode::NodeExists)
        } else if code == -111 {
            Some(ErrorCode::NotEmpty)
        } else if code == -112 {
            Some(ErrorCode::SessionExpired)
        } else if code == -113 {
            Some(ErrorCode::InvalidCallback)
        } else if code == -114 {
            Some(ErrorCode::InvalidACL)
        } else if code == -115 {
            Some(ErrorCode::AuthFailed)
        } else if code == -118 {
            Some(ErrorCode::SessionMoved)
        } else if code == -119 {
            Some(ErrorCode::NotReadOnly)
        } else if code == -120 {
            Some(ErrorCode::EphemeralOnLocalSession)
        } else if code == -121 {
            Some(ErrorCode::NoWatcher)
        } else if code == -123 {
            Some(ErrorCode::ReconfigDisabled)
        } else {
            None
        }
    }

    /// The error a code stands for, if the code is defined.
    pub fn from_code(code: i32) -> (r: Option<ErrorCode>)
        ensures
            r == Self::spec_from_code(code),
    {
        if code == 0 {
            Some(ErrorCode::Okay)
        } else if code == -1 {
            Some(ErrorCode::SystemError)
        } else if code == -2 {
            Some(ErrorCode::RuntimeInconsistency)
        } else if code == -3 {
            Some(ErrorCode::DataInconsistency)
        } else if code == -4 {
            Some(ErrorCode::ConnectionLoss)
        } else if code == -5 {
            Some(ErrorCode::MarshallingError)
        } else if code == -6 {
            Some(ErrorCode::Unimplemented)
        } else if code == -7 {
            Some(ErrorCode::OperationTimeout)
        } else if code == -8 {
            Some(ErrorCode::BadArguments)
        } else if code == -13 {
            Some(ErrorCode::NewConfigNoQuorum)
        } else if code == -14 {
            Some(ErrorCode::ReconfigInProgress)
        } else if code == -12 {
            Some(ErrorCode::UnknownSession)
        } else if code == -100 {
            Some(ErrorCode::APIError)
        } else if code == -101 {
            Some(ErrorCode::NoNode)
        } else if code == -102 {
            Some(ErrorCode::NoAuth)
        } else if code == -103 {
            Some(ErrorCode::BadVersion)
        } else if code == -108 {
            Some(ErrorCode::NoChildrenForEphemerals)
        } else if code == -110 {
            Some(ErrorCode::NodeExists)
        } else if code == -111 {
            Some(ErrorCode::NotEmpty)
        } else if code == -112 {
            Some(ErrorCode::SessionExpired)
        } else if code == -113 {
            Some(ErrorCode::InvalidCallback)
        } else if code == -114 {
            Some(ErrorCode::InvalidACL)
        } else if code == -115 {
            Some(ErrorCode::AuthFailed)
        } else if code == -118 {
            Some(ErrorCode::SessionMoved)
        } else if code == -119 {
            Some(ErrorCode::NotReadOnly)
        } else if code == -120 {
            Some(ErrorCode::EphemeralOnLocalSession)
        } else if code == -121 {
            Some(ErrorCode::NoWatcher)
        } else if code == -123 {
            Some(ErrorCode::ReconfigDisabled)
        } else {
            None
        }
    }

    /// Whether this code lies in the system-error range: strictly between
    /// `APIError` and `SystemError`.
    pub fn is_system_error(&self) -> (r: bool)
        ensures
            r == (self.spec_code() < -1 && self.spec_code() > -100),
    {
        let c = self.code();
        c < -1 && c > -100
    }

    /// Whether this code lies in the API-error range: strictly below
    /// `APIError`.
    pub fn is_api_error(&self) -> (r: bool)
        ensures
            r == (self.spec_code() < -100),
    {
        self.code() < -100
    }
}

impl OpCodeEnum for ErrorCode {
    open spec fn spec_codes() -> Seq<(i32, Seq<char>)> {
        ErrorCode::spec_all().map_values(|c: ErrorCode| (c.spec_code(), c.spec_name()))
    }

    fn codes_to_names() -> (r: Vec<(i32, String)>) {
        let all = ErrorCode::all();
        let mut r: Vec<(i32, String)> = Vec::new();
        let mut i: usize = 0;
        while i < all.len()
            invariant
                i <= all@.len(),
                all@ == ErrorCode::spec_all(),
                r@.len() == i,
                forall|j: int|
                    0 <= j < i ==> (#[trigger] r@[j]).0 == ErrorCode::spec_all()[j].spec_code()
                        && r@[j].1@ == ErrorCode::spec_all()[j].spec_name(),
            decreases all@.len() - i,
        {
            let c = all[i];
            r.push((c.code(), c.name().to_owned()));
            i = i + 1;
        }
        proof {
            assert forall|j: int| 0 <= j < r@.len() implies table_view(r@)[j]
                == Self::spec_codes()[j] by {
                assert(r@[j].0 == ErrorCode::spec_all()[j].spec_code());
                assert(r@[j].1@ == ErrorCode::spec_all()[j].spec_name());
            }
            assert(table_view(r@) =~= Self::spec_codes());
        }
        r
    }

    fn names_to_codes() -> (r: Vec<(String, i32)>) {
        swap_table(&Self::codes_to_names())
    }
}

/// The first packet a client sends when connecting.
#[derive(Debug, Clone, PartialEq, Eq)]
pub struct ConnectRequest {
    pub protocol_version: i32,
    pub last_zxid_seen: Zxid,
    pub time_out: Duration,
    pub session_id: SessionId,
    pub passwd: Vec<u8>,
}

impl Request for ConnectRequest {
    type Response = ConnectResponse;
}

/// The server's answer to a connection request.
#[derive(Debug, Clone, PartialEq, Eq)]
pub struct ConnectResponse {
    pub protocol_version: i32,
    pub time_out: Duration,
    pub session_id: SessionId,
    pub passwd: Vec<u8>,
}

/// Re-registers a client's watches after a reconnect.
#[derive(Debug, Clone, PartialEq, Eq)]
pub struct SetWatches {
    pub relative_zxid: Zxid,
    pub data_watches: Vec<String>,
    pub exist_watches: Vec<String>,
    pub child_watches: Vec<String>,
}

/// The header preceding every request body.
#[derive(Debug, Copy, Clone, PartialEq, Eq, Structural)]
pub struct RequestHeader {
    pub xid: Xid,
    pub typ: i32,
}

/// The header preceding each part of a multi operation.
#[derive(Debug, Copy, Clone, PartialEq, Eq, Structural)]
pub struct MultiHeader {
    pub typ: i32,
    pub done: bool,
    pub err: i32,
}

/// Credentials a client presents for an authentication scheme.
#[derive(Debug, Clone, PartialEq, Eq)]
pub struct AuthPacket {
    pub typ: i32,
    pub scheme: String,
    pub buffer: Vec<u8>,
}

/// The header preceding every response body.
#[derive(Debug, Copy, Clone, PartialEq, Eq, Structural)]
pub struct ReplyHeader {
    pub xid: Xid,
    pub zxid: Zxid,
    pub err: i32,
}

/// Asks for a node's data.
#[derive(Debug, Clone, PartialEq, Eq)]
pub struct GetDataRequest {
    pub path: String,
    pub watch: bool,
}

impl Request for GetDataRequest {
    type Response = GetDataResponse;
}

/// Sets a node's data if the version matches.
#[derive(Debug, Clone, PartialEq, Eq)]
pub struct SetDataRequest {
    pub path: String,
    pub data: Vec<u8>,
    pub version: Version,
}

impl Request for SetDataRequest {
    type Response = SetDataResponse;
}

/// Asks the ensemble to change its membership.
#[derive(Debug, Clone, PartialEq, Eq)]
pub struct ReconfigRequest {
    pub joining_servers: String,
    pub leaving_servers: String,
    pub new_members: String,
    pub cur_config_id: i64,
}

impl Request for ReconfigRequest {
    type Response = GetDataResponse;
}

/// The answer to a set-data request.
#[derive(Debug, Copy, Clone, PartialEq, Eq, Structural)]
pub struct SetDataResponse {
    pub stat: Stat,
}

/// Fetches a SASL token from the server.
#[derive(Debug, Clone, PartialEq, Eq)]
pub struct GetSASLRequest {
    pub token: Vec<u8>,
}

impl Request for GetSASLRequest {
    type Response = SetSASLResponse;
}

/// Hands a SASL token to the server.
#[derive(Debug, Clone, PartialEq, Eq)]
pub struct SetSASLRequest {
    pub token: Vec<u8>,
}

impl Request for SetSASLRequest {
    type Response = SetSASLResponse;
}

/// The SASL token the server answers with.
#[derive(Debug, Clone, PartialEq, Eq)]
pub struct SetSASLResponse {
    pub token: Vec<u8>,
}

/// Creates a node.
#[derive(Debug, Clone, PartialEq, Eq)]
pub struct CreateRequest {
    pub path: String,
    pub data: Vec<u8>,
    pub acl: Vec<ACL>,
    pub flags: CreateMode,
}

impl Request for CreateRequest {
    type Response = CreateResponse;
}

/// Deletes a node if the version matches.
#[derive(Debug, Clone, PartialEq, Eq)]
pub struct DeleteRequest {
    pub path: String,
    pub version: OptionalVersion,
}

impl Request for DeleteRequest {
    type Response = ();
}

/// Lists a node's children.
#[derive(Debug, Clone, PartialEq, Eq)]
pub struct GetChildrenRequest {
    pub path: String,
    pub watch: bool,
}

impl Request for GetChildrenRequest {
    type Response = GetChildrenResponse;
}

/// Lists a node's children together with the node's information.
#[derive(Debug, Clone, PartialEq, Eq)]
pub struct GetChildren2Request {
    pub path: String,
    pub watch: bool,
}

impl Request for GetChildren2Request {
    type Response = GetChildren2Response;
}

/// Checks a node's version inside a multi operation.
#[derive(Debug, Clone, PartialEq, Eq)]
pub struct CheckVersionRequest {
    pub path: String,
    pub version: Version,
}

impl Request for CheckVersionRequest {
    type Response = ();
}

/// Asks for a node's maximum child count.
#[derive(Debug, Clone, PartialEq, Eq)]
pub struct GetMaxChildrenRequest {
    pub path: String,
}

impl Request for GetMaxChildrenRequest {
    type Response = GetMaxChildrenResponse;
}

/// The maximum child count the server answers with.
#[derive(Debug, Copy, Clone, PartialEq, Eq, Structural)]
pub struct GetMaxChildrenResponse {
    pub max: i32,
}

/// Sets a node's maximum child count.
#[derive(Debug, Clone, PartialEq, Eq)]
pub struct SetMaxChildrenRequest {
    pub path: String,
    pub max: i32,
}

impl Request for SetMaxChildrenRequest {
    type Response = ();
}

/// Flushes the leader's channel to this node's replica.
#[derive(Debug, Clone, PartialEq, Eq)]
pub struct SyncRequest {
    pub path: String,
}

impl Request for SyncRequest {
    type Response = SyncResponse;
}

/// The answer to a sync request.
#[derive(Debug, Clone, PartialEq, Eq)]
pub struct SyncResponse {
    pub path: String,
}

/// Asks for a node's access-control list.
#[derive(Debug, Clone, PartialEq, Eq)]
pub struct GetACLRequest {
    pub path: String,
}

impl Request for GetACLRequest {
    type Response = GetACLResponse;
}

/// Replaces a node's access-control list if the version matches.
#[derive(Debug, Clone, PartialEq, Eq)]
pub struct SetACLRequest {
    pub path: String,
    pub acl: Vec<ACL>,
    pub version: OptionalVersion,
}

impl Request for SetACLRequest {
    type Response = SetACLResponse;
}

/// The answer to a set-ACL request.
#[derive(Debug, Copy, Clone, PartialEq, Eq, Structural)]
pub struct SetACLResponse {
    pub stat: Stat,
}

/// What happened to a watched node.
#[derive(Debug, Copy, Clone, PartialEq, Eq, Structural)]
pub enum WatcherEventType {
    NoEvent,
    NodeCreated,
    NodeDeleted,
    NodeDataChanged,
    NodeChildrenChanged,
    DataWatchRemoved,
    ChildWatchRemoved,
}

/// The connection state a watcher event was delivered under.
#[derive(Debug, Copy, Clone, PartialEq, Eq, Structural)]
pub enum KeeperState {
    /// Not connected to any server in the ensemble.
    Disconnected,
    /// Connected to a server in the ensemble.
    SyncConnected,
    /// Authentication failed.
    AuthFailed,
    /// Connected to a read-only server: one not currently connected to the
    /// majority. Only read operations are allowed in this state.
    ConnectedReadOnly,
    /// SASL authentication completed; operations run with the SASL-authorized
    /// permissions.
    SaslAuthenticated,
    /// The cluster has expired this session; a new connection must be made.
    Expired,
}

/// A notification that a watched node changed.
#[derive(Debug, Clone, PartialEq, Eq)]
pub struct WatcherEvent {
    pub typ: WatcherEventType,
    /// State of the client's connection when the event fired.
    pub state: KeeperState,
    pub path: String,
}

/// The answer to a failed request.
#[derive(Debug, Copy, Clone, PartialEq, Eq, Structural)]
pub struct ErrorResponse {
    pub err: ErrorCode,
}

/// The answer to a create request.
#[derive(Debug, Clone, PartialEq, Eq)]
pub struct CreateResponse {
    pub path: String,
}

/// The answer to a create request that also reports the node's information.
#[derive(Debug, Clone, PartialEq, Eq)]
pub struct Create2Response {
    pub path: String,
    pub stat: Stat,
}

/// Asks whether a node exists.
#[derive(Debug, Clone, PartialEq, Eq)]
pub struct ExistsRequest {
    pub path: String,
    pub watch: bool,
}

impl Request for ExistsRequest {
    type Response = ExistsResponse;
}

/// The answer to an exists request.
#[derive(Debug, Copy, Clone, PartialEq, Eq, Structural)]
pub struct ExistsResponse {
    pub stat: Stat,
}

/// The answer to a get-data request.
#[derive(Debug, Clone, PartialEq, Eq)]
pub struct GetDataResponse {
    pub data: Vec<u8>,
    pub stat: Stat,
}

/// The answer to a get-children request.
#[derive(Debug, Clone, PartialEq, Eq)]
pub struct GetChildrenResponse {
    /// Names of the children (not their full paths).
    pub children: Vec<String>,
}

/// The answer to a get-children request that also reports the node's
/// information.
#[derive(Debug, Clone, PartialEq, Eq)]
pub struct GetChildren2Response {
    pub children: Vec<String>,
    pub stat: Stat,
}

/// The answer to a get-ACL request.
#[derive(Debug, Clone, PartialEq, Eq)]
pub struct GetACLResponse {
    pub acl: Vec<ACL>,
    pub stat: Stat,
}

/// Which kind of watch an operation addresses.
#[derive(Debug, Copy, Clone, PartialEq, Eq, Structural)]
pub enum WatcherType {
    Children,
    Data,
    Any,
}

/// Checks that a watch of the given kind exists on a path.
#[derive(Debug, Clone, PartialEq, Eq)]
pub struct CheckWatchesRequest {
    pub path: String,
    pub typ: WatcherType,
}

impl Request for CheckWatchesRequest {
    type Response = ();
}

/// Removes a watch of the given kind from a path.
#[derive(Debug, Clone, PartialEq, Eq)]
pub struct RemoveWatchesRequest {
    pub path: String,
    pub typ: WatcherType,
}

impl Request for RemoveWatchesRequest {
    type Response = ();
}

} // verus!
