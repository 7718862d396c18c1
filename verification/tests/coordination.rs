use wskv::master_kv::{BatchStep, LockStepResult, MasterKv};
use wskv::msg_pack::{
    KeyRange, KvDeleteRequest, KvGetRequest, KvLockRequest, KvPair, KvPutRequest, KvRequest,
    KvRequestOp, KvRequests, KvResponse,
};
use wskv::result::{WSError, WsPermissionErr, WsRpcErr};

fn range(start: &[u8]) -> Option<KeyRange> {
    Some(KeyRange { start: start.to_vec(), end: vec![] })
}

fn put(key: &[u8], value: &[u8]) -> KvPutRequest {
    KvPutRequest { kv: Some(KvPair { key: key.to_vec(), value: value.to_vec() }) }
}

fn got_pairs(resp: KvResponse) -> Vec<KvPair> {
    match resp {
        KvResponse::CommonKvs(kvs) => kvs,
        KvResponse::LockId(t) => panic!("expected a common response, got lock id {}", t),
    }
}

#[test]
fn set_then_get_round_trip() {
    let mut kv = MasterKv::inner_new(1);
    let resp = kv.handle_kv_set(put(b"k", b"v"), 2);
    assert!(got_pairs(resp).is_empty());
    let resp = kv.handle_kv_get(KvGetRequest { range: range(b"k") });
    let pairs = got_pairs(resp);
    assert_eq!(pairs.len(), 1);
    assert_eq!(pairs[0].key, b"k".to_vec());
    assert_eq!(pairs[0].value, b"v".to_vec());
}

#[test]
fn last_write_wins_on_same_key() {
    let mut kv = MasterKv::inner_new(1);
    let _ = kv.handle_kv_set(put(b"x", b"1"), 2);
    let _ = kv.handle_kv_set(put(b"x", b"2"), 3);
    let resp = kv.handle_kv_get(KvGetRequest { range: range(b"x") });
    let pairs = got_pairs(resp);
    assert_eq!(pairs.len(), 1);
    assert_eq!(pairs[0].value, b"2".to_vec());
}

#[test]
fn delete_makes_get_empty_and_is_idempotent() {
    let mut kv = MasterKv::inner_new(1);
    let _ = kv.handle_kv_set(put(b"k", b"v"), 2);
    let resp = kv.handle_kv_delete(KvDeleteRequest { range: range(b"k") });
    assert!(got_pairs(resp).is_empty());
    let resp = kv.handle_kv_get(KvGetRequest { range: range(b"k") });
    assert!(got_pairs(resp).is_empty());
    // Deleting an absent key succeeds silently.
    let resp = kv.handle_kv_delete(KvDeleteRequest { range: range(b"k") });
    assert!(got_pairs(resp).is_empty());
}

#[test]
fn get_missing_key_is_empty_not_error() {
    let mut kv = MasterKv::inner_new(1);
    let reqs = KvRequests {
        requests: vec![KvRequest {
            op: Some(KvRequestOp::Get(KvGetRequest { range: range(b"missing") })),
        }],
    };
    match kv.handle_kv_requests(reqs, 2, 10) {
        Ok(BatchStep::Done(responses)) => {
            assert_eq!(responses.responses.len(), 1);
            match &responses.responses[0] {
                KvResponse::CommonKvs(kvs) => assert!(kvs.is_empty()),
                KvResponse::LockId(_) => panic!("expected a common response"),
            }
        },
        _ => panic!("a batch of one Get must complete"),
    }
}

fn acquire(key: &[u8]) -> KvLockRequest {
    KvLockRequest { read_0_write_1_unlock_2: 1, range: range(key), release_id: vec![] }
}

fn release(key: &[u8], rid: u32) -> KvLockRequest {
    KvLockRequest { read_0_write_1_unlock_2: 2, range: range(key), release_id: vec![rid] }
}

#[test]
fn lock_scenario_grant_wait_release_regrant() {
    let mut kv = MasterKv::inner_new(1);
    // Client A (node 2, task 100) acquires "foo" and is granted task id 100.
    let t1 = match kv.handle_kv_lock(acquire(b"foo"), 2, 100) {
        Ok(LockStepResult::Resp(KvResponse::LockId(t))) => t,
        _ => panic!("first acquire on a free key must be granted"),
    };
    assert_eq!(t1, 100);
    // Client B (node 3, task 200) acquires "foo" concurrently and suspends.
    match kv.handle_kv_lock(acquire(b"foo"), 3, 200) {
        Ok(LockStepResult::Wait) => {},
        _ => panic!("an acquire on a held key must wait"),
    }
    // A releases with the granted task id; the release succeeds.
    match kv.handle_kv_lock(release(b"foo", t1), 2, 101) {
        Ok(LockStepResult::Resp(KvResponse::CommonKvs(kvs))) => assert!(kvs.is_empty()),
        _ => panic!("the recorded holder's release must succeed"),
    }
    // B retries acquisition from scratch and, absent a third racer, wins.
    match kv.handle_kv_lock(acquire(b"foo"), 3, 201) {
        Ok(LockStepResult::Resp(KvResponse::LockId(t))) => assert_eq!(t, 201),
        _ => panic!("the retried acquire on the freed key must be granted"),
    }
}

#[test]
fn mutual_exclusion_one_immediate_grant() {
    let mut kv = MasterKv::inner_new(1);
    let first = kv.handle_kv_lock(acquire(b"key"), 2, 10);
    let second = kv.handle_kv_lock(acquire(b"key"), 3, 20);
    assert!(matches!(first, Ok(LockStepResult::Resp(KvResponse::LockId(10)))));
    assert!(matches!(second, Ok(LockStepResult::Wait)));
}

#[test]
fn release_with_wrong_credentials_is_refused() {
    let mut kv = MasterKv::inner_new(1);
    let _ = kv.handle_kv_lock(acquire(b"key"), 2, 10);
    // Wrong node.
    match kv.handle_kv_lock(release(b"key", 10), 3, 30) {
        Err(WSError::WsPermissionErr(WsPermissionErr::NotLockOwner {
            key,
            node,
            release_id,
        })) => {
            assert_eq!(key, b"key".to_vec());
            assert_eq!(node, 3);
            assert_eq!(release_id, 10);
        },
        _ => panic!("a release from the wrong node must be refused"),
    }
    // Wrong task identity.
    assert!(matches!(
        kv.handle_kv_lock(release(b"key", 11), 2, 31),
        Err(WSError::WsPermissionErr(WsPermissionErr::NotLockOwner { .. }))
    ));
    // The key stayed held: the recorded holder's release still succeeds.
    assert!(matches!(
        kv.handle_kv_lock(release(b"key", 10), 2, 32),
        Ok(LockStepResult::Resp(KvResponse::CommonKvs(_)))
    ));
}

#[test]
fn batch_runs_operations_in_order() {
    let mut kv = MasterKv::inner_new(1);
    let reqs = KvRequests {
        requests: vec![
            KvRequest { op: Some(KvRequestOp::Put(put(b"x", b"1"))) },
            KvRequest { op: Some(KvRequestOp::Put(put(b"x", b"2"))) },
            KvRequest { op: Some(KvRequestOp::Get(KvGetRequest { range: range(b"x") })) },
        ],
    };
    match kv.handle_kv_requests(reqs, 2, 10) {
        Ok(BatchStep::Done(responses)) => {
            assert_eq!(responses.responses.len(), 3);
            match &responses.responses[2] {
                KvResponse::CommonKvs(kvs) => {
                    assert_eq!(kvs.len(), 1);
                    assert_eq!(kvs[0].value, b"2".to_vec());
                },
                KvResponse::LockId(_) => panic!("expected a common response"),
            }
        },
        _ => panic!("the batch must complete"),
    }
}

#[test]
fn batch_blocks_only_later_operations() {
    let mut kv = MasterKv::inner_new(1);
    // Someone else holds "l".
    let _ = kv.handle_kv_lock(acquire(b"l"), 9, 90);
    let reqs = KvRequests {
        requests: vec![
            KvRequest { op: Some(KvRequestOp::Put(put(b"a", b"1"))) },
            KvRequest { op: Some(KvRequestOp::Lock(acquire(b"l"))) },
            KvRequest { op: Some(KvRequestOp::Put(put(b"b", b"2"))) },
        ],
    };
    match kv.handle_kv_requests(reqs, 2, 10) {
        Ok(BatchStep::Blocked { done, at }) => {
            assert_eq!(at, 1);
            assert_eq!(done.len(), 1);
        },
        _ => panic!("the batch must block at the held lock"),
    }
    // The operation before the blocking one took effect.
    let resp = kv.handle_kv_get(KvGetRequest { range: range(b"a") });
    match resp {
        KvResponse::CommonKvs(kvs) => assert_eq!(kvs[0].value, b"1".to_vec()),
        KvResponse::LockId(_) => panic!("expected a common response"),
    }
}

#[test]
fn dispatch_rejects_malformed_batch_before_any_operation() {
    let mut kv = MasterKv::inner_new(1);
    let reqs = KvRequests {
        requests: vec![
            KvRequest { op: Some(KvRequestOp::Put(put(b"a", b"1"))) },
            KvRequest { op: Some(KvRequestOp::Put(KvPutRequest { kv: None })) },
        ],
    };
    match kv.dispatch_kv_requests(reqs, 2, 10) {
        Err(WSError::WsRpcErr(WsRpcErr::InvalidMsgData { msg_id })) => assert_eq!(msg_id, 19),
        _ => panic!("a malformed batch must be rejected before dispatch"),
    }
    // No operation ran: "a" is absent.
    let resp = kv.handle_kv_get(KvGetRequest { range: range(b"a") });
    match resp {
        KvResponse::CommonKvs(kvs) => assert!(kvs.is_empty()),
        KvResponse::LockId(_) => panic!("expected a common response"),
    }
}

#[test]
fn dispatch_serves_well_formed_batch() {
    let mut kv = MasterKv::inner_new(1);
    let reqs = KvRequests {
        requests: vec![KvRequest { op: Some(KvRequestOp::Put(put(b"a", b"1"))) }],
    };
    assert!(matches!(kv.dispatch_kv_requests(reqs, 2, 10), Ok(BatchStep::Done(_))));
}
