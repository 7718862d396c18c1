use wskv::msg_pack::{
    AppendEntriesRequest, AppendEntriesResponse, BatchDataRequest, BatchDataResponse,
    BatchRequestId, DataItem, DataItemDispatch, DataItemWithIdx, DataMetaGetRequest,
    DataMetaGetResponse, DataMetaUpdateRequest, DataMetaUpdateResponse,
    DataVersionScheduleRequest, DataVersionScheduleResponse, DistributeTaskReq,
    DistributeTaskResp, GetDirContentReq, GetDirContentResp, GetOneDataRequest,
    GetOneDataResponse, KeyRange, KvGetRequest, KvLockRequest, KvLockResponse, KvPair,
    KvPutRequest, KvRequest, KvRequestOp, KvRequests, KvResponses, MsgPack, RscMetric,
    RunCmdReq, RunCmdResp, ScheduleContext, VoteRequest, VoteResponse, WriteOneDataRequest,
    WriteOneDataResponse,
};

fn all_msg_ids() -> Vec<u32> {
    vec![
        VoteRequest {}.msg_id(),
        VoteResponse {}.msg_id(),
        AppendEntriesRequest {}.msg_id(),
        AppendEntriesResponse {}.msg_id(),
        DistributeTaskReq {}.msg_id(),
        DistributeTaskResp {}.msg_id(),
        RscMetric {}.msg_id(),
        KvRequests { requests: vec![] }.msg_id(),
        KvResponses { responses: vec![] }.msg_id(),
        GetDirContentReq {}.msg_id(),
        GetDirContentResp {}.msg_id(),
        RunCmdReq {}.msg_id(),
        RunCmdResp {}.msg_id(),
        DataVersionScheduleRequest { context: None }.msg_id(),
        DataVersionScheduleResponse {}.msg_id(),
        WriteOneDataRequest { unique_id: vec![], data: vec![] }.msg_id(),
        WriteOneDataResponse {}.msg_id(),
        DataMetaUpdateRequest {}.msg_id(),
        DataMetaUpdateResponse {}.msg_id(),
        DataMetaGetRequest {}.msg_id(),
        DataMetaGetResponse {}.msg_id(),
        GetOneDataRequest {}.msg_id(),
        GetOneDataResponse {}.msg_id(),
        KvLockRequest { read_0_write_1_unlock_2: 0, range: None, release_id: vec![] }.msg_id(),
        KvLockResponse {}.msg_id(),
        BatchDataRequest { request_id: None, unique_id: vec![], data: vec![] }.msg_id(),
        BatchDataResponse {}.msg_id(),
    ]
}

#[test]
fn identifiers_positional_dense_and_unique() {
    let ids = all_msg_ids();
    assert_eq!(ids.len(), 27);
    // Positional: the first-declared kind carries the count of kinds after
    // it, the last-declared kind carries 0.
    for (pos, id) in ids.iter().enumerate() {
        assert_eq!(*id as usize, 26 - pos);
    }
    // Dense, contiguous and unique.
    let mut sorted = ids.clone();
    sorted.sort();
    for (i, id) in sorted.iter().enumerate() {
        assert_eq!(*id as usize, i);
    }
}

#[test]
fn identifiers_stable_across_calls() {
    let a = VoteRequest {};
    assert_eq!(a.msg_id(), a.msg_id());
    let b = KvRequests { requests: vec![] };
    assert_eq!(b.msg_id(), b.msg_id());
    let c = KvRequests { requests: vec![] };
    assert_eq!(b.msg_id(), c.msg_id());
}

fn range(start: &[u8]) -> Option<KeyRange> {
    Some(KeyRange { start: start.to_vec(), end: vec![] })
}

#[test]
fn kv_batch_set_without_pair_is_invalid() {
    let reqs = KvRequests {
        requests: vec![KvRequest { op: Some(KvRequestOp::Put(KvPutRequest { kv: None })) }],
    };
    assert!(!reqs.verify());
}

#[test]
fn kv_batch_well_formed_is_valid() {
    let reqs = KvRequests {
        requests: vec![
            KvRequest {
                op: Some(KvRequestOp::Put(KvPutRequest {
                    kv: Some(KvPair { key: b"k".to_vec(), value: b"v".to_vec() }),
                })),
            },
            KvRequest { op: Some(KvRequestOp::Get(KvGetRequest { range: range(b"k") })) },
        ],
    };
    assert!(reqs.verify());
}

#[test]
fn kv_batch_op_missing_is_invalid() {
    let reqs = KvRequests { requests: vec![KvRequest { op: None }] };
    assert!(!reqs.verify());
}

#[test]
fn write_one_data_empty_list_is_invalid() {
    let req = WriteOneDataRequest { unique_id: b"id".to_vec(), data: vec![] };
    assert!(!req.verify());
}

#[test]
fn write_one_data_with_payloads_is_valid() {
    let req = WriteOneDataRequest {
        unique_id: b"id".to_vec(),
        data: vec![DataItemWithIdx {
            idx: 0,
            data: Some(DataItem {
                data_item_dispatch: Some(DataItemDispatch::RawBytes(b"x".to_vec())),
            }),
        }],
    };
    assert!(req.verify());
}

#[test]
fn write_one_data_item_without_payload_is_invalid() {
    let req = WriteOneDataRequest {
        unique_id: b"id".to_vec(),
        data: vec![DataItemWithIdx { idx: 0, data: Some(DataItem { data_item_dispatch: None }) }],
    };
    assert!(!req.verify());
}

#[test]
fn lock_request_mode_three_is_invalid() {
    let req = KvLockRequest { read_0_write_1_unlock_2: 3, range: range(b"k"), release_id: vec![] };
    assert!(!req.verify());
}

#[test]
fn lock_request_modes_zero_one_two_are_valid() {
    for mode in 0..3u32 {
        let req = KvLockRequest {
            read_0_write_1_unlock_2: mode,
            range: range(b"k"),
            release_id: vec![],
        };
        assert!(req.verify());
    }
}

#[test]
fn batch_data_missing_request_id_is_invalid() {
    let req = BatchDataRequest { request_id: None, unique_id: b"u".to_vec(), data: b"d".to_vec() };
    assert!(!req.verify());
}

#[test]
fn batch_data_well_formed_is_valid() {
    let req = BatchDataRequest {
        request_id: Some(BatchRequestId { node_id: 1, sequence: 7 }),
        unique_id: b"u".to_vec(),
        data: b"d".to_vec(),
    };
    assert!(req.verify());
}

#[test]
fn batch_data_empty_unique_id_or_data_is_invalid() {
    let no_uid = BatchDataRequest {
        request_id: Some(BatchRequestId { node_id: 1, sequence: 7 }),
        unique_id: vec![],
        data: b"d".to_vec(),
    };
    assert!(!no_uid.verify());
    let no_data = BatchDataRequest {
        request_id: Some(BatchRequestId { node_id: 1, sequence: 7 }),
        unique_id: b"u".to_vec(),
        data: vec![],
    };
    assert!(!no_data.verify());
}

#[test]
fn schedule_request_needs_context() {
    let without = DataVersionScheduleRequest { context: None };
    assert!(!without.verify());
    let with = DataVersionScheduleRequest { context: Some(ScheduleContext { ops: vec![] }) };
    assert!(with.verify());
}

#[test]
fn default_kinds_are_always_valid() {
    assert!(VoteRequest {}.verify());
    assert!(AppendEntriesResponse {}.verify());
    assert!(RscMetric {}.verify());
    assert!(KvResponses { responses: vec![] }.verify());
    assert!(BatchDataResponse {}.verify());
}
