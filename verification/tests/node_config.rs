use wskv::config::{NodeConfig, NodesConfig};
use wskv::master_kv::{node_id_to_bytes, position_key, value_key};
use wskv::result::{ErrCvt, WSError, WSResult, WSResultExt, WsNetworkConnErr, WsNetworkLogicErr};

fn node(addr: &str, tags: &[&str]) -> NodeConfig {
    NodeConfig {
        addr: addr.to_owned(),
        specs: tags.iter().map(|t| (*t).to_owned()).collect(),
    }
}

#[test]
fn role_queries_read_the_tags() {
    let master = node("127.0.0.1:2500", &["master", "meta"]);
    assert!(master.is_master());
    assert!(!master.is_worker());
    let worker = node("127.0.0.1:2501", &["worker"]);
    assert!(!worker.is_master());
    assert!(worker.is_worker());
}

#[test]
fn meta_kv_nodes_are_the_meta_tagged_peers() {
    let cfg = NodesConfig {
        peers: vec![
            (2, node("127.0.0.1:2502", &["worker"])),
            (3, node("127.0.0.1:2503", &["meta", "worker"])),
            (4, node("127.0.0.1:2504", &["meta"])),
        ],
        this: (1, node("127.0.0.1:2501", &["master"])),
    };
    assert_eq!(cfg.get_meta_kv_nodes(), vec![3, 4]);
}

#[test]
fn from_parsed_splits_this_node_from_peers() {
    let nodes = vec![
        (1, node("127.0.0.1:2501", &["master"])),
        (2, node("127.0.0.1:2502", &["worker"])),
    ];
    let cfg = NodesConfig::from_parsed(2, nodes).expect("id 2 has an entry");
    assert_eq!(cfg.this.0, 2);
    assert!(cfg.this.1.is_worker());
    assert_eq!(cfg.peers.len(), 1);
    assert_eq!(cfg.peers[0].0, 1);
}

#[test]
fn from_parsed_without_own_entry_is_none() {
    let nodes = vec![(1, node("127.0.0.1:2501", &["master"]))];
    assert!(NodesConfig::from_parsed(9, nodes).is_none());
}

#[test]
fn namespace_keys_are_prefixed_and_disjoint() {
    let k = b"key".to_vec();
    let vk = value_key(&k);
    let pk = position_key(&k);
    assert_eq!(vk, vec![1, b'k', b'e', b'y']);
    assert_eq!(pk, vec![2, b'k', b'e', b'y']);
    assert_ne!(vk, pk);
}

#[test]
fn node_identity_encodes_little_endian() {
    assert_eq!(node_id_to_bytes(0x0102_0304), vec![4, 3, 2, 1]);
    assert_eq!(node_id_to_bytes(7), vec![7, 0, 0, 0]);
}

#[test]
fn err_cvt_wraps_into_the_taxonomy() {
    let e = ErrCvt(WsNetworkLogicErr::MsgIdNotDispatchable(42)).to_ws_network_logic_err();
    assert!(matches!(
        e,
        WSError::WsNetworkLogicErr(WsNetworkLogicErr::MsgIdNotDispatchable(42))
    ));
    let e = ErrCvt(WsNetworkConnErr::RPCTimout(3)).to_ws_network_conn_err();
    assert!(matches!(e, WSError::WsNetworkConnErr(WsNetworkConnErr::RPCTimout(3))));
}

#[test]
fn todo_handle_passes_the_result_through() {
    let ok: WSResult<u32> = Ok(5);
    assert!(matches!(ok.todo_handle("noted"), Ok(5)));
    let err: WSResult<u32> = Err(WSError::NotImplemented);
    assert!(matches!(err.todo_handle("noted"), Err(WSError::NotImplemented)));
}
