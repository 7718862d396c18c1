//! The typed RPC message registry: every message kind carries a stable
//! numeric identifier, a structural-validity predicate checked before the
//! message reaches any handler, and — for request kinds — the one canonical
//! response kind the transport must answer with.
//!
//! Identifiers are positional: the last-declared kind gets identifier 0 and
//! every earlier kind gets the count of kinds declared after it, so the
//! identifiers of one build are dense, contiguous and unique. Only strictly
//! appending new kinds at the end keeps existing identifiers stable.

use vstd::prelude::*;

verus! {

/// Cluster-wide unique identifier of a peer process.
pub type NodeID = u32;

/// Per-request correlation token distinguishing concurrent in-flight calls.
pub type TaskId = u32;

/// Numeric identifier of a message kind on the wire.
pub type MsgId = u32;

/// Every message kind of the protocol, in declaration order.
#[derive(Clone, Copy, Debug, PartialEq, Eq, Structural)]
pub enum MsgKind {
    VoteRequest,
    VoteResponse,
    AppendEntriesRequest,
    AppendEntriesResponse,
    DistributeTaskReq,
    DistributeTaskResp,
    RscMetric,
    KvRequests,
    KvResponses,
    GetDirContentReq,
    GetDirContentResp,
    RunCmdReq,
    RunCmdResp,
    DataVersionScheduleRequest,
    DataVersionScheduleResponse,
    WriteOneDataRequest,
    WriteOneDataResponse,
    DataMetaUpdateRequest,
    DataMetaUpdateResponse,
    DataMetaGetRequest,
    DataMetaGetResponse,
    GetOneDataRequest,
    GetOneDataResponse,
    KvLockRequest,
    KvLockResponse,
    BatchDataRequest,
    BatchDataResponse,
}

/// How many message kinds this build declares.
pub const MSG_KIND_COUNT: u32 = 27;

/// The position of a kind in declaration order, counting from 0.
pub open spec fn kind_position(k: MsgKind) -> int {
    match k {
        MsgKind::VoteRequest => 0,
        MsgKind::VoteResponse => 1,
        MsgKind::AppendEntriesRequest => 2,
        MsgKind::AppendEntriesResponse => 3,
        MsgKind::DistributeTaskReq => 4,
        MsgKind::DistributeTaskResp => 5,
        MsgKind::RscMetric => 6,
        MsgKind::KvRequests => 7,
        MsgKind::KvResponses => 8,
        MsgKind::GetDirContentReq => 9,
        MsgKind::GetDirContentResp => 10,
        MsgKind::RunCmdReq => 11,
        MsgKind::RunCmdResp => 12,
        MsgKind::DataVersionScheduleRequest => 13,
        MsgKind::DataVersionScheduleResponse => 14,
        MsgKind::WriteOneDataRequest => 15,
        MsgKind::WriteOneDataResponse => 16,
        MsgKind::DataMetaUpdateRequest => 17,
        MsgKind::DataMetaUpdateResponse => 18,
        MsgKind::DataMetaGetRequest => 19,
        MsgKind::DataMetaGetResponse => 20,
        MsgKind::GetOneDataRequest => 21,
        MsgKind::GetOneDataResponse => 22,
        MsgKind::KvLockRequest => 23,
        MsgKind::KvLockResponse => 24,
        MsgKind::BatchDataRequest => 25,
        MsgKind::BatchDataResponse => 26,
    }
}

/// The positional identifier of a kind: the count of kinds declared after
/// it, so the last-declared kind gets 0.
pub open spec fn id_of(k: MsgKind) -> MsgId {
    (MSG_KIND_COUNT - 1 - kind_position(k)) as MsgId
}

/// The kind holding a given identifier; inverse of `id_of` on identifiers
/// below `MSG_KIND_COUNT`.
pub open spec fn kind_with_id(i: MsgId) -> MsgKind {
    if i == 0 {
        MsgKind::BatchDataResponse
    } else if i == 1 {
        MsgKind::BatchDataRequest
    } else if i == 2 {
        MsgKind::KvLockResponse
    } else if i == 3 {
        MsgKind::KvLockRequest
    } else if i == 4 {
        MsgKind::GetOneDataResponse
    } else if i == 5 {
        MsgKind::GetOneDataRequest
    } else if i == 6 {
        MsgKind::DataMetaGetResponse
    } else if i == 7 {
        MsgKind::DataMetaGetRequest
    } else if i == 8 {
        MsgKind::DataMetaUpdateResponse
    } else if i == 9 {
        MsgKind::DataMetaUpdateRequest
    } else if i == 10 {
        MsgKind::WriteOneDataResponse
    } else if i == 11 {
        MsgKind::WriteOneDataRequest
    } else if i == 12 {
        MsgKind::DataVersionScheduleResponse
    } else if i == 13 {
        MsgKind::DataVersionScheduleRequest
    } else if i == 14 {
        MsgKind::RunCmdResp
    } else if i == 15 {
        MsgKind::RunCmdReq
    } else if i == 16 {
        MsgKind::GetDirContentResp
    } else if i == 17 {
        MsgKind::GetDirContentReq
    } else if i == 18 {
        MsgKind::KvResponses
    } else if i == 19 {
        MsgKind::KvRequests
    } else if i == 20 {
        MsgKind::RscMetric
    } else if i == 21 {
        MsgKind::DistributeTaskResp
    } else if i == 22 {
        MsgKind::DistributeTaskReq
    } else if i == 23 {
        MsgKind::AppendEntriesResponse
    } else if i == 24 {
        MsgKind::AppendEntriesRequest
    } else if i == 25 {
        MsgKind::VoteResponse
    } else {
        MsgKind::VoteRequest
    }
}

/// The canonical response kind of each request kind; `None` for kinds that
/// are not requests.
pub open spec fn resp_kind_of(k: MsgKind) -> Option<MsgKind> {
    match k {
        MsgKind::VoteRequest => Some(MsgKind::VoteResponse),
        MsgKind::AppendEntriesRequest => Some(MsgKind::AppendEntriesResponse),
        MsgKind::DistributeTaskReq => Some(MsgKind::DistributeTaskResp),
        MsgKind::KvRequests => Some(MsgKind::KvResponses),
        MsgKind::GetDirContentReq => Some(MsgKind::GetDirContentResp),
        MsgKind::RunCmdReq => Some(MsgKind::RunCmdResp),
        MsgKind::DataVersionScheduleRequest => Some(MsgKind::DataVersionScheduleResponse),
        MsgKind::WriteOneDataRequest => Some(MsgKind::WriteOneDataResponse),
        MsgKind::DataMetaUpdateRequest => Some(MsgKind::DataMetaUpdateResponse),
        MsgKind::DataMetaGetRequest => Some(MsgKind::DataMetaGetResponse),
        MsgKind::GetOneDataRequest => Some(MsgKind::GetOneDataResponse),
        MsgKind::KvLockRequest => Some(MsgKind::KvLockResponse),
        MsgKind::BatchDataRequest => Some(MsgKind::BatchDataResponse),
        _ => None,
    }
}

/// Identifiers stay below the number of declared kinds.
pub proof fn lemma_identifier_bounded(k: MsgKind)
    ensures
        id_of(k) < MSG_KIND_COUNT,
{
}

/// `kind_with_id` inverts `id_of`: each kind is recovered from its own
/// identifier.
pub proof fn lemma_kind_of_own_identifier(k: MsgKind)
    ensures
        kind_with_id(id_of(k)) == k,
{
}

/// No two message kinds of one build share an identifier.
pub proof fn lemma_identifier_unique(a: MsgKind, b: MsgKind)
    requires
        id_of(a) == id_of(b),
    ensures
        a == b,
{
    lemma_kind_of_own_identifier(a);
    lemma_kind_of_own_identifier(b);
}

/// Identifiers are dense and contiguous: every value below
/// `MSG_KIND_COUNT` is the identifier of exactly one kind.
pub proof fn lemma_identifier_dense(i: MsgId)
    requires
        i < MSG_KIND_COUNT,
    ensures
        id_of(kind_with_id(i)) == i,
{
}

/// One message of the protocol: it knows its kind's identifier and checks
/// its own structural validity before dispatch.
pub trait MsgPack: Sized {
    /// The registry kind of this message type.
    spec fn kind() -> MsgKind;

    /// The structural-validity predicate of this message type.
    spec fn valid(&self) -> bool;

    /// The positional identifier of this message type's kind.
    fn msg_id(&self) -> (id: MsgId)
        ensures
            id == id_of(Self::kind()),
    ;

    /// Decides `valid` before the message is handed to any handler.
    fn verify(&self) -> (ok: bool)
        ensures
            ok == self.valid(),
    ;
}

/// A request kind together with its one canonical response kind; the
/// pairing obligation is discharged once per kind, never per call.
pub trait RPCReq: MsgPack + Default {
    type Resp: MsgPack + Default;

    proof fn pairing()
        ensures
            resp_kind_of(<Self as MsgPack>::kind())
                == Some(<Self::Resp as MsgPack>::kind()),
    ;
}

/// One key/value pair of the coordination service's key space.
#[derive(Clone, Debug)]
pub struct KvPair {
    pub key: Vec<u8>,
    pub value: Vec<u8>,
}

/// A key range; the protocol's KV operations use only the start bound, as
/// point lookups.
#[derive(Clone, Debug)]
pub struct KeyRange {
    pub start: Vec<u8>,
    pub end: Vec<u8>,
}

#[derive(Clone, Debug)]
pub struct KvPutRequest {
    pub kv: Option<KvPair>,
}

#[derive(Clone, Debug)]
pub struct KvGetRequest {
    pub range: Option<KeyRange>,
}

#[derive(Clone, Debug)]
pub struct KvDeleteRequest {
    pub range: Option<KeyRange>,
}

/// A lock request: `read_0_write_1_unlock_2` is the mode field; a non-empty
/// `release_id` makes it a release of the lock acquired under that task
/// identity, an empty one an acquire.
#[derive(Clone, Debug, Default)]
pub struct KvLockRequest {
    pub read_0_write_1_unlock_2: u32,
    pub range: Option<KeyRange>,
    pub release_id: Vec<TaskId>,
}

/// One KV operation of a batch.
#[derive(Clone, Debug)]
pub enum KvRequestOp {
    Put(KvPutRequest),
    Get(KvGetRequest),
    Delete(KvDeleteRequest),
    Lock(KvLockRequest),
}

#[derive(Clone, Debug)]
pub struct KvRequest {
    pub op: Option<KvRequestOp>,
}

/// An ordered batch of KV operations served in one RPC round-trip.
#[derive(Clone, Debug, Default)]
pub struct KvRequests {
    pub requests: Vec<KvRequest>,
}

impl KvRequestOp {
    /// Every operation must carry its mandatory sub-payload: a Set its
    /// key/value pair, a Get/Delete/Lock its key range.
    pub open spec fn payload_valid(&self) -> bool {
        match self {
            KvRequestOp::Put(set) => set.kv is Some,
            KvRequestOp::Get(get) => get.range is Some,
            KvRequestOp::Delete(delete) => delete.range is Some,
            KvRequestOp::Lock(lock) => lock.range is Some,
        }
    }
}

impl KvRequest {
    pub open spec fn op_valid(&self) -> bool {
        match self.op {
            Some(op) => op.payload_valid(),
            None => false,
        }
    }
}

/// The response to one KV operation: either the looked-up pairs (empty
/// where nothing was found or nothing is returned) or a granted lock's task
/// identity.
#[derive(Clone, Debug)]
pub enum KvResponse {
    CommonKvs(Vec<KvPair>),
    LockId(TaskId),
}

impl KvResponse {
    pub fn new_common(kvs: Vec<KvPair>) -> (r: KvResponse)
        ensures
            r == KvResponse::CommonKvs(kvs),
    {
        KvResponse::CommonKvs(kvs)
    }

    pub fn new_lock(task: TaskId) -> (r: KvResponse)
        ensures
            r == KvResponse::LockId(task),
    {
        KvResponse::LockId(task)
    }
}

/// The ordered responses of one batch, one per operation.
#[derive(Clone, Debug, Default)]
pub struct KvResponses {
    pub responses: Vec<KvResponse>,
}

/// The mathematical shape of one KV response.
pub enum KvResponseModel {
    Common(Seq<(Seq<u8>, Seq<u8>)>),
    Lock(TaskId),
}

impl View for KvPair {
    type V = (Seq<u8>, Seq<u8>);

    open spec fn view(&self) -> (Seq<u8>, Seq<u8>) {
        (self.key@, self.value@)
    }
}

impl View for KvResponse {
    type V = KvResponseModel;

    open spec fn view(&self) -> KvResponseModel {
        match self {
            KvResponse::CommonKvs(kvs) => KvResponseModel::Common(
                kvs@.map_values(|p: KvPair| p@),
            ),
            KvResponse::LockId(t) => KvResponseModel::Lock(*t),
        }
    }
}

impl View for KvResponses {
    type V = Seq<KvResponseModel>;

    open spec fn view(&self) -> Seq<KvResponseModel> {
        self.responses@.map_values(|r: KvResponse| r@)
    }
}

/// The key/value pair a Set operation carries, as plain sequences.
pub open spec fn kv_view(kv: Option<KvPair>) -> Option<(Seq<u8>, Seq<u8>)> {
    match kv {
        Some(p) => Some((p.key@, p.value@)),
        None => None,
    }
}

/// A key range's bounds, as plain sequences.
pub open spec fn range_view(range: Option<KeyRange>) -> Option<(Seq<u8>, Seq<u8>)> {
    match range {
        Some(r) => Some((r.start@, r.end@)),
        None => None,
    }
}

/// The scheduling context a data-version-schedule request must carry.
#[derive(Clone, Debug)]
pub struct ScheduleContext {
    pub ops: Vec<u32>,
}

#[derive(Clone, Debug, Default)]
pub struct DataVersionScheduleRequest {
    pub context: Option<ScheduleContext>,
}

/// The concrete payload variant of one data item.
#[derive(Clone, Debug)]
pub enum DataItemDispatch {
    File(Vec<u8>),
    RawBytes(Vec<u8>),
}

#[derive(Clone, Debug)]
pub struct DataItem {
    pub data_item_dispatch: Option<DataItemDispatch>,
}

#[derive(Clone, Debug)]
pub struct DataItemWithIdx {
    pub idx: u32,
    pub data: Option<DataItem>,
}

#[derive(Clone, Debug, Default)]
pub struct WriteOneDataRequest {
    pub unique_id: Vec<u8>,
    pub data: Vec<DataItemWithIdx>,
}

impl DataItemWithIdx {
    pub open spec fn payload_valid(&self) -> bool {
        match self.data {
            Some(item) => item.data_item_dispatch is Some,
            None => false,
        }
    }
}

/// Identifies one batch-transfer request for tracking.
#[derive(Clone, Copy, Debug, PartialEq, Eq, Structural)]
pub struct BatchRequestId {
    pub node_id: NodeID,
    pub sequence: u32,
}

#[derive(Clone, Debug, Default)]
pub struct BatchDataRequest {
    pub request_id: Option<BatchRequestId>,
    pub unique_id: Vec<u8>,
    pub data: Vec<u8>,
}

#[derive(Clone, Debug, Default)]
pub struct VoteRequest {}

#[derive(Clone, Debug, Default)]
pub struct VoteResponse {}

#[derive(Clone, Debug, Default)]
pub struct AppendEntriesRequest {}

#[derive(Clone, Debug, Default)]
pub struct AppendEntriesResponse {}

#[derive(Clone, Debug, Default)]
pub struct DistributeTaskReq {}

#[derive(Clone, Debug, Default)]
pub struct DistributeTaskResp {}

#[derive(Clone, Debug)]
pub struct RscMetric {}

#[derive(Clone, Debug, Default)]
pub struct GetDirContentReq {}

#[derive(Clone, Debug, Default)]
pub struct GetDirContentResp {}

#[derive(Clone, Debug, Default)]
pub struct RunCmdReq {}

#[derive(Clone, Debug, Default)]
pub struct RunCmdResp {}

#[derive(Clone, Debug, Default)]
pub struct DataVersionScheduleResponse {}

#[derive(Clone, Debug, Default)]
pub struct WriteOneDataResponse {}

#[derive(Clone, Debug, Default)]
pub struct DataMetaUpdateRequest {}

#[derive(Clone, Debug, Default)]
pub struct DataMetaUpdateResponse {}

#[derive(Clone, Debug, Default)]
pub struct DataMetaGetRequest {}

#[derive(Clone, Debug, Default)]
pub struct DataMetaGetResponse {}

#[derive(Clone, Debug, Default)]
pub struct GetOneDataRequest {}

#[derive(Clone, Debug, Default)]
pub struct GetOneDataResponse {}

#[derive(Clone, Debug, Default)]
pub struct KvLockResponse {}

#[derive(Clone, Debug, Default)]
pub struct BatchDataResponse {}

impl MsgPack for VoteRequest {
    open spec fn kind() -> MsgKind {
        MsgKind::VoteRequest
    }

    open spec fn valid(&self) -> bool {
        true
    }

    fn msg_id(&self) -> (id: MsgId) {
        26
    }

    fn verify(&self) -> (ok: bool) {
        true
    }
}

impl MsgPack for VoteResponse {
    open spec fn kind() -> MsgKind {
        MsgKind::VoteResponse
    }

    open spec fn valid(&self) -> bool {
        true
    }

    fn msg_id(&self) -> (id: MsgId) {
        25
    }

    fn verify(&self) -> (ok: bool) {
        true
    }
}

impl MsgPack for AppendEntriesRequest {
    open spec fn kind() -> MsgKind {
        MsgKind::AppendEntriesRequest
    }

    open spec fn valid(&self) -> bool {
        true
    }

    fn msg_id(&self) -> (id: MsgId) {
        24
    }

    fn verify(&self) -> (ok: bool) {
        true
    }
}

impl MsgPack for AppendEntriesResponse {
    open spec fn kind() -> MsgKind {
        MsgKind::AppendEntriesResponse
    }

    open spec fn valid(&self) -> bool {
        true
    }

    fn msg_id(&self) -> (id: MsgId) {
        23
    }

    fn verify(&self) -> (ok: bool) {
        true
    }
}

impl MsgPack for DistributeTaskReq {
    open spec fn kind() -> MsgKind {
        MsgKind::DistributeTaskReq
    }

    open spec fn valid(&self) -> bool {
        true
    }

    fn msg_id(&self) -> (id: MsgId) {
        22
    }

    fn verify(&self) -> (ok: bool) {
        true
    }
}

impl MsgPack for DistributeTaskResp {
    open spec fn kind() -> MsgKind {
        MsgKind::DistributeTaskResp
    }

    open spec fn valid(&self) -> bool {
        true
    }

    fn msg_id(&self) -> (id: MsgId) {
        21
    }

    fn verify(&self) -> (ok: bool) {
        true
    }
}

impl MsgPack for RscMetric {
    open spec fn kind() -> MsgKind {
        MsgKind::RscMetric
    }

    open spec fn valid(&self) -> bool {
        true
    }

    fn msg_id(&self) -> (id: MsgId) {
        20
    }

    fn verify(&self) -> (ok: bool) {
        true
    }
}

impl MsgPack for KvRequests {
    open spec fn kind() -> MsgKind {
        MsgKind::KvRequests
    }

    /// A KV batch is valid only if every contained operation carries its
    /// mandatory sub-payload.
    open spec fn valid(&self) -> bool {
        forall|i: int| 0 <= i < self.requests@.len() ==> (#[trigger] self.requests@[i]).op_valid()
    }

    fn msg_id(&self) -> (id: MsgId) {
        19
    }

    fn verify(&self) -> (ok: bool) {
        let mut i: usize = 0;
        while i < self.requests.len()
            invariant
                0 <= i <= self.requests@.len(),
                forall|j: int| 0 <= j < i ==> (#[trigger] self.requests@[j]).op_valid(),
            decreases self.requests@.len() - i,
        {
            let ok = match &self.requests[i].op {
                Some(KvRequestOp::Put(set)) => set.kv.is_some(),
                Some(KvRequestOp::Get(get)) => get.range.is_some(),
                Some(KvRequestOp::Delete(delete)) => delete.range.is_some(),
                Some(KvRequestOp::Lock(lock)) => lock.range.is_some(),
                None => false,
            };
            if !ok {
                return false;
            }
            i = i + 1;
        }
        true
    }
}

impl MsgPack for KvResponses {
    open spec fn kind() -> MsgKind {
        MsgKind::KvResponses
    }

    open spec fn valid(&self) -> bool {
        true
    }

    fn msg_id(&self) -> (id: MsgId) {
        18
    }

    fn verify(&self) -> (ok: bool) {
        true
    }
}

impl MsgPack for GetDirContentReq {
    open spec fn kind() -> MsgKind {
        MsgKind::GetDirContentReq
    }

    open spec fn valid(&self) -> bool {
        true
    }

    fn msg_id(&self) -> (id: MsgId) {
        17
    }

    fn verify(&self) -> (ok: bool) {
        true
    }
}

impl MsgPack for GetDirContentResp {
    open spec fn kind() -> MsgKind {
        MsgKind::GetDirContentResp
    }

    open spec fn valid(&self) -> bool {
        true
    }

    fn msg_id(&self) -> (id: MsgId) {
        16
    }

    fn verify(&self) -> (ok: bool) {
        true
    }
}

impl MsgPack for RunCmdReq {
    open spec fn kind() -> MsgKind {
        MsgKind::RunCmdReq
    }

    open spec fn valid(&self) -> bool {
        true
    }

    fn msg_id(&self) -> (id: MsgId) {
        15
    }

    fn verify(&self) -> (ok: bool) {
        true
    }
}

impl MsgPack for RunCmdResp {
    open spec fn kind() -> MsgKind {
        MsgKind::RunCmdResp
    }

    open spec fn valid(&self) -> bool {
        true
    }

    fn msg_id(&self) -> (id: MsgId) {
        14
    }

    fn verify(&self) -> (ok: bool) {
        true
    }
}

impl MsgPack for DataVersionScheduleRequest {
    open spec fn kind() -> MsgKind {
        MsgKind::DataVersionScheduleRequest
    }

    /// Valid only if it carries a scheduling context.
    open spec fn valid(&self) -> bool {
        self.context is Some
    }

    fn msg_id(&self) -> (id: MsgId) {
        13
    }

    fn verify(&self) -> (ok: bool) {
        self.context.is_some()
    }
}

impl MsgPack for DataVersionScheduleResponse {
    open spec fn kind() -> MsgKind {
        MsgKind::DataVersionScheduleResponse
    }

    open spec fn valid(&self) -> bool {
        true
    }

    fn msg_id(&self) -> (id: MsgId) {
        12
    }

    fn verify(&self) -> (ok: bool) {
        true
    }
}

impl MsgPack for WriteOneDataRequest {
    open spec fn kind() -> MsgKind {
        MsgKind::WriteOneDataRequest
    }

    /// Valid only if the data list is non-empty and every item carries a
    /// concrete payload variant.
    open spec fn valid(&self) -> bool {
        &&& self.data@.len() > 0
        &&& forall|i: int|
            0 <= i < self.data@.len() ==> (#[trigger] self.data@[i]).payload_valid()
    }

    fn msg_id(&self) -> (id: MsgId) {
        11
    }

    fn verify(&self) -> (ok: bool) {
        if self.data.len() == 0 {
            return false;
        }
        let mut i: usize = 0;
        while i < self.data.len()
            invariant
                0 <= i <= self.data@.len(),
                forall|j: int| 0 <= j < i ==> (#[trigger] self.data@[j]).payload_valid(),
            decreases self.data@.len() - i,
        {
            let ok = match &self.data[i].data {
                Some(item) => item.data_item_dispatch.is_some(),
                None => false,
            };
            if !ok {
                return false;
            }
            i = i + 1;
        }
        true
    }
}

impl MsgPack for WriteOneDataResponse {
    open spec fn kind() -> MsgKind {
        MsgKind::WriteOneDataResponse
    }

    open spec fn valid(&self) -> bool {
        true
    }

    fn msg_id(&self) -> (id: MsgId) {
        10
    }

    fn verify(&self) -> (ok: bool) {
        true
    }
}

impl MsgPack for DataMetaUpdateRequest {
    open spec fn kind() -> MsgKind {
        MsgKind::DataMetaUpdateRequest
    }

    open spec fn valid(&self) -> bool {
        true
    }

    fn msg_id(&self) -> (id: MsgId) {
        9
    }

    fn verify(&self) -> (ok: bool) {
        true
    }
}

impl MsgPack for DataMetaUpdateResponse {
    open spec fn kind() -> MsgKind {
        MsgKind::DataMetaUpdateResponse
    }

    open spec fn valid(&self) -> bool {
        true
    }

    fn msg_id(&self) -> (id: MsgId) {
        8
    }

    fn verify(&self) -> (ok: bool) {
        true
    }
}

impl MsgPack for DataMetaGetRequest {
    open spec fn kind() -> MsgKind {
        MsgKind::DataMetaGetRequest
    }

    open spec fn valid(&self) -> bool {
        true
    }

    fn msg_id(&self) -> (id: MsgId) {
        7
    }

    fn verify(&self) -> (ok: bool) {
        true
    }
}

impl MsgPack for DataMetaGetResponse {
    open spec fn kind() -> MsgKind {
        MsgKind::DataMetaGetResponse
    }

    open spec fn valid(&self) -> bool {
        true
    }

    fn msg_id(&self) -> (id: MsgId) {
        6
    }

    fn verify(&self) -> (ok: bool) {
        true
    }
}

impl MsgPack for GetOneDataRequest {
    open spec fn kind() -> MsgKind {
        MsgKind::GetOneDataRequest
    }

    open spec fn valid(&self) -> bool {
        true
    }

    fn msg_id(&self) -> (id: MsgId) {
        5
    }

    fn verify(&self) -> (ok: bool) {
        true
    }
}

impl MsgPack for GetOneDataResponse {
    open spec fn kind() -> MsgKind {
        MsgKind::GetOneDataResponse
    }

    open spec fn valid(&self) -> bool {
        true
    }

    fn msg_id(&self) -> (id: MsgId) {
        4
    }

    fn verify(&self) -> (ok: bool) {
        true
    }
}

impl MsgPack for KvLockRequest {
    open spec fn kind() -> MsgKind {
        MsgKind::KvLockRequest
    }

    /// Valid only if the mode field is one of read = 0, write = 1,
    /// unlock = 2.
    open spec fn valid(&self) -> bool {
        self.read_0_write_1_unlock_2 == 0 || self.read_0_write_1_unlock_2 == 1
            || self.read_0_write_1_unlock_2 == 2
    }

    fn msg_id(&self) -> (id: MsgId) {
        3
    }

    fn verify(&self) -> (ok: bool) {
        self.read_0_write_1_unlock_2 == 0 || self.read_0_write_1_unlock_2 == 1
            || self.read_0_write_1_unlock_2 == 2
    }
}

impl MsgPack for KvLockResponse {
    open spec fn kind() -> MsgKind {
        MsgKind::KvLockResponse
    }

    open spec fn valid(&self) -> bool {
        true
    }

    fn msg_id(&self) -> (id: MsgId) {
        2
    }

    fn verify(&self) -> (ok: bool) {
        true
    }
}

impl MsgPack for BatchDataRequest {
    open spec fn kind() -> MsgKind {
        MsgKind::BatchDataRequest
    }

    /// Valid only if it carries a request identifier, a non-empty unique
    /// identifier and a non-empty data payload.
    open spec fn valid(&self) -> bool {
        &&& self.request_id is Some
        &&& self.unique_id@.len() > 0
        &&& self.data@.len() > 0
    }

    fn msg_id(&self) -> (id: MsgId) {
        1
    }

    fn verify(&self) -> (ok: bool) {
        self.request_id.is_some() && self.unique_id.len() > 0 && self.data.len() > 0
    }
}

impl MsgPack for BatchDataResponse {
    open spec fn kind() -> MsgKind {
        MsgKind::BatchDataResponse
    }

    open spec fn valid(&self) -> bool {
        true
    }

    fn msg_id(&self) -> (id: MsgId) {
        0
    }

    fn verify(&self) -> (ok: bool) {
        true
    }
}

impl RPCReq for VoteRequest {
    type Resp = VoteResponse;

    proof fn pairing() {
    }
}

impl RPCReq for AppendEntriesRequest {
    type Resp = AppendEntriesResponse;

    proof fn pairing() {
    }
}

impl RPCReq for DistributeTaskReq {
    type Resp = DistributeTaskResp;

    proof fn pairing() {
    }
}

impl RPCReq for KvRequests {
    type Resp = KvResponses;

    proof fn pairing() {
    }
}

impl RPCReq for GetDirContentReq {
    type Resp = GetDirContentResp;

    proof fn pairing() {
    }
}

impl RPCReq for RunCmdReq {
    type Resp = RunCmdResp;

    proof fn pairing() {
    }
}

impl RPCReq for DataVersionScheduleRequest {
    type Resp = DataVersionScheduleResponse;

    proof fn pairing() {
    }
}

impl RPCReq for WriteOneDataRequest {
    type Resp = WriteOneDataResponse;

    proof fn pairing() {
    }
}

impl RPCReq for DataMetaUpdateRequest {
    type Resp = DataMetaUpdateResponse;

    proof fn pairing() {
    }
}

impl RPCReq for DataMetaGetRequest {
    type Resp = DataMetaGetResponse;

    proof fn pairing() {
    }
}

impl RPCReq for GetOneDataRequest {
    type Resp = GetOneDataResponse;

    proof fn pairing() {
    }
}

impl RPCReq for KvLockRequest {
    type Resp = KvLockResponse;

    proof fn pairing() {
    }
}

impl RPCReq for BatchDataRequest {
    type Resp = BatchDataResponse;

    proof fn pairing() {
    }
}

} // verus!
