//! Error taxonomy of the node: network-logic, connection-level, RPC,
//! storage-engine and permission (lock-protocol) failures, and the
//! `WSResult` alias every fallible operation returns.

use vstd::prelude::*;

use crate::msg_pack::{MsgId, NodeID, TaskId};

verus! {

pub type WSResult<T> = Result<T, WSError>;

/// A node was asked to play a role it does not have.
#[derive(Debug)]
pub enum NotMatchNodeErr {
    NotRaft(String),
}

/// Logic-level network faults: a message that cannot be decoded or cannot be
/// dispatched to any registered handler.
#[derive(Debug)]
pub enum WsNetworkLogicErr {
    DecodeError,
    MsgIdNotDispatchable(MsgId),
    InvaidNodeID(NodeID),
    TaskJoinError,
}

/// Connection-level faults surfaced to the caller of an RPC.
#[derive(Debug)]
pub enum WsNetworkConnErr {
    EndPointError,
    SendError,
    ConnectionNotEstablished(NodeID),
    RPCTimout(NodeID),
    ConnectionExpired(NodeID),
}

/// RPC-level faults; a message whose structural validity check failed is
/// rejected here, before any handler runs.
#[derive(Debug)]
pub enum WsRpcErr {
    InvalidMsgData { msg_id: MsgId },
}

/// Storage-engine faults, wrapped with the context of the failed operation.
#[derive(Debug)]
pub enum WsDataError {
    KvEngineInnerError { context: String },
    KvEngineWriteLockReqiured { context: String },
    KvEngineReadLockReqiured { context: String },
}

#[derive(Debug)]
pub enum WsFormatErr {
    KeyPatternFormatErr { key_pattern: String },
}

/// Permission faults, including the lock protocol's: a release whose
/// credentials do not match the recorded holder is refused with
/// `NotLockOwner` rather than satisfied or retried.
#[derive(Debug)]
pub enum WsPermissionErr {
    AccessKeyPermissionDenied { app: String, func: String, access_key: Vec<u8> },
    NotLockOwner { key: Vec<u8>, node: NodeID, release_id: TaskId },
}

#[derive(Debug)]
pub enum WSError {
    WsNetworkLogicErr(WsNetworkLogicErr),
    WsNetworkConnErr(WsNetworkConnErr),
    WsPermissionErr(WsPermissionErr),
    WsFormatErr(WsFormatErr),
    WsRpcErr(WsRpcErr),
    WsDataError(WsDataError),
    NotImplemented,
}

impl From<WsNetworkLogicErr> for WSError {
    fn from(e: WsNetworkLogicErr) -> (r: Self) {
        WSError::WsNetworkLogicErr(e)
    }
}

impl vstd::std_specs::convert::FromSpecImpl<WsNetworkLogicErr> for WSError {
    open spec fn obeys_from_spec() -> bool {
        true
    }

    open spec fn from_spec(e: WsNetworkLogicErr) -> Self {
        WSError::WsNetworkLogicErr(e)
    }
}

impl From<WsNetworkConnErr> for WSError {
    fn from(e: WsNetworkConnErr) -> (r: Self) {
        WSError::WsNetworkConnErr(e)
    }
}

impl vstd::std_specs::convert::FromSpecImpl<WsNetworkConnErr> for WSError {
    open spec fn obeys_from_spec() -> bool {
        true
    }

    open spec fn from_spec(e: WsNetworkConnErr) -> Self {
        WSError::WsNetworkConnErr(e)
    }
}

impl From<WsPermissionErr> for WSError {
    fn from(e: WsPermissionErr) -> (r: Self) {
        WSError::WsPermissionErr(e)
    }
}

impl vstd::std_specs::convert::FromSpecImpl<WsPermissionErr> for WSError {
    open spec fn obeys_from_spec() -> bool {
        true
    }

    open spec fn from_spec(e: WsPermissionErr) -> Self {
        WSError::WsPermissionErr(e)
    }
}

impl From<WsRpcErr> for WSError {
    fn from(e: WsRpcErr) -> (r: Self) {
        WSError::WsRpcErr(e)
    }
}

impl vstd::std_specs::convert::FromSpecImpl<WsRpcErr> for WSError {
    open spec fn obeys_from_spec() -> bool {
        true
    }

    open spec fn from_spec(e: WsRpcErr) -> Self {
        WSError::WsRpcErr(e)
    }
}

impl From<WsDataError> for WSError {
    fn from(e: WsDataError) -> (r: Self) {
        WSError::WsDataError(e)
    }
}

impl vstd::std_specs::convert::FromSpecImpl<WsDataError> for WSError {
    open spec fn obeys_from_spec() -> bool {
        true
    }

    open spec fn from_spec(e: WsDataError) -> Self {
        WSError::WsDataError(e)
    }
}

/// A converter from a collaborator's error value to the node's own taxonomy.
pub struct ErrCvt<T>(pub T);

impl ErrCvt<WsNetworkLogicErr> {
    pub fn to_ws_network_logic_err(self) -> (r: WSError)
        ensures
            r == WSError::WsNetworkLogicErr(self.0),
    {
        WSError::WsNetworkLogicErr(self.0)
    }
}

impl ErrCvt<WsNetworkConnErr> {
    pub fn to_ws_network_conn_err(self) -> (r: WSError)
        ensures
            r == WSError::WsNetworkConnErr(self.0),
    {
        WSError::WsNetworkConnErr(self.0)
    }
}

/// Marks a result whose error case is noted but deliberately not yet acted
/// on; the value itself passes through unchanged.
pub trait WSResultExt: Sized {
    fn todo_handle(self, err_comment: &str) -> (r: Self)
        ensures
            r == self,
    ;
}

impl<T> WSResultExt for WSResult<T> {
    fn todo_handle(self, _err_comment: &str) -> (r: Self)
        ensures
            r == self,
    {
        self
    }
}

impl WSResultExt for WSError {
    fn todo_handle(self, _err_comment: &str) -> (r: Self)
        ensures
            r == self,
    {
        self
    }
}

} // verus!
