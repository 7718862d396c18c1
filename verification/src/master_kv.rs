//! The coordination service ("MasterKv"): durable key/value storage plus a
//! cluster-wide advisory lock table, served one request batch at a time.
//!
//! The durable engine is modelled by [`KvStoreEngine`]: a key/value space
//! with a ghost durable snapshot that `flush` brings up to date. Two logical
//! namespaces share its key space — values and position markers — told
//! apart by a one-byte prefix on the raw key.

use vstd::prelude::*;

use crate::msg_pack::{
    id_of, kv_view, range_view, KeyRange, KvDeleteRequest, KvGetRequest, KvLockRequest, KvPair,
    KvPutRequest, KvRequest, KvRequestOp, KvRequests, KvResponse, KvResponseModel, KvResponses,
    MsgKind, MsgPack, NodeID, TaskId,
};
use crate::result::{WSError, WSResult, WsPermissionErr, WsRpcErr};

verus! {

/// Prefix byte of the value namespace.
pub const KEY_TYPE_KV: u8 = 1;

/// Prefix byte of the position namespace, which records for each key the
/// node that authoritatively holds its value.
pub const KEY_TYPE_KV_POSITION: u8 = 2;

/// The engine key under which a key's value is stored.
pub open spec fn value_key_spec(k: Seq<u8>) -> Seq<u8> {
    seq![KEY_TYPE_KV].add(k)
}

/// The engine key under which a key's position marker is stored.
pub open spec fn position_key_spec(k: Seq<u8>) -> Seq<u8> {
    seq![KEY_TYPE_KV_POSITION].add(k)
}

/// Distinct keys never collide inside one namespace.
pub proof fn lemma_value_key_injective(a: Seq<u8>, b: Seq<u8>)
    requires
        value_key_spec(a) == value_key_spec(b),
    ensures
        a == b,
{
    assert(a =~= value_key_spec(a).subrange(1, value_key_spec(a).len() as int));
    assert(b =~= value_key_spec(b).subrange(1, value_key_spec(b).len() as int));
}

/// The two namespaces are disjoint: a value entry and a position entry
/// never share an engine key.
pub proof fn lemma_namespaces_disjoint(a: Seq<u8>, b: Seq<u8>)
    ensures
        value_key_spec(a) != position_key_spec(b),
{
    assert(value_key_spec(a)[0] == KEY_TYPE_KV);
    assert(position_key_spec(b)[0] == KEY_TYPE_KV_POSITION);
}

fn prefixed_key(prefix: u8, k: &Vec<u8>) -> (r: Vec<u8>)
    ensures
        r@ == seq![prefix].add(k@),
{
    let mut r: Vec<u8> = Vec::new();
    r.push(prefix);
    let mut i: usize = 0;
    while i < k.len()
        invariant
            0 <= i <= k@.len(),
            r@ == seq![prefix].add(k@.take(i as int)),
        decreases k@.len() - i,
    {
        r.push(k[i]);
        assert(r@ =~= seq![prefix].add(k@.take(i + 1)));
        i = i + 1;
    }
    assert(r@ =~= seq![prefix].add(k@));
    r
}

/// Builds the value-namespace engine key of `k`.
pub fn value_key(k: &Vec<u8>) -> (r: Vec<u8>)
    ensures
        r@ == value_key_spec(k@),
{
    prefixed_key(KEY_TYPE_KV, k)
}

/// Builds the position-namespace engine key of `k`.
pub fn position_key(k: &Vec<u8>) -> (r: Vec<u8>)
    ensures
        r@ == position_key_spec(k@),
{
    prefixed_key(KEY_TYPE_KV_POSITION, k)
}

/// The byte encoding of a node identity, little-endian.
pub open spec fn node_id_bytes(n: NodeID) -> Seq<u8> {
    seq![
        (n & 0xff) as u8,
        ((n >> 8) & 0xff) as u8,
        ((n >> 16) & 0xff) as u8,
        ((n >> 24) & 0xff) as u8,
    ]
}

/// The node identity a position entry's bytes decode to.
pub open spec fn node_id_of_bytes(b: Seq<u8>) -> NodeID {
    ((b[0] as u32) | ((b[1] as u32) << 8) | ((b[2] as u32) << 16) | ((b[3] as u32) << 24)) as NodeID
}

/// Encoding a node identity and decoding it gives it back.
pub proof fn lemma_node_id_round_trip(n: NodeID)
    ensures
        node_id_of_bytes(node_id_bytes(n)) == n,
{
    assert(((n & 0xff) as u8 as u32) | (((n >> 8) & 0xff) as u8 as u32) << 8
        | (((n >> 16) & 0xff) as u8 as u32) << 16 | (((n >> 24) & 0xff) as u8 as u32) << 24
        == n) by (bit_vector);
}

/// Encodes a node identity for the position namespace.
pub fn node_id_to_bytes(n: NodeID) -> (r: Vec<u8>)
    ensures
        r@ == node_id_bytes(n),
{
    let mut r: Vec<u8> = Vec::new();
    r.push((n & 0xff) as u8);
    r.push(((n >> 8) & 0xff) as u8);
    r.push(((n >> 16) & 0xff) as u8);
    r.push(((n >> 24) & 0xff) as u8);
    assert(r@ =~= node_id_bytes(n));
    r
}

/// Byte-sequence equality, decided element by element.
pub fn bytes_eq(a: &Vec<u8>, b: &Vec<u8>) -> (r: bool)
    ensures
        r == (a@ == b@),
{
    if a.len() != b.len() {
        return false;
    }
    let mut i: usize = 0;
    while i < a.len()
        invariant
            a@.len() == b@.len(),
            0 <= i <= a@.len(),
            forall|j: int| 0 <= j < i ==> a@[j] == b@[j],
        decreases a@.len() - i,
    {
        if a[i] != b[i] {
            return false;
        }
        i = i + 1;
    }
    proof {
        assert(a@ =~= b@);
    }
    true
}

/// Copies a byte sequence.
pub fn clone_bytes(v: &Vec<u8>) -> (r: Vec<u8>)
    ensures
        r@ == v@,
{
    let mut r: Vec<u8> = Vec::new();
    let mut i: usize = 0;
    while i < v.len()
        invariant
            0 <= i <= v@.len(),
            r@ == v@.take(i as int),
        decreases v@.len() - i,
    {
        r.push(v[i]);
        assert(r@ =~= v@.take(i + 1));
        i = i + 1;
    }
    assert(r@ =~= v@);
    r
}

/// The mathematical contents of an association list, later bindings of a
/// key shadowing earlier ones.
pub open spec fn assoc_entries_map<V: View>(s: Seq<(Vec<u8>, V)>) -> Map<Seq<u8>, V::V>
    decreases s.len(),
{
    if s.len() == 0 {
        Map::empty()
    } else {
        assoc_entries_map(s.drop_last()).insert(s.last().0@, s.last().1@)
    }
}

/// No key is bound twice.
pub open spec fn assoc_unique_keys<V>(s: Seq<(Vec<u8>, V)>) -> bool {
    forall|i: int, j: int| #![trigger s[i], s[j]] 0 <= i < j < s.len() ==> s[i].0@ != s[j].0@
}

proof fn lemma_assoc_contains<V: View>(s: Seq<(Vec<u8>, V)>, k: Seq<u8>)
    ensures
        assoc_entries_map(s).contains_key(k) <==> (exists|i: int|
            0 <= i < s.len() && (#[trigger] s[i]).0@ == k),
    decreases s.len(),
{
    if s.len() > 0 {
        let dl = s.drop_last();
        lemma_assoc_contains(dl, k);
        assert(forall|i: int| 0 <= i < dl.len() ==> #[trigger] dl[i] == s[i]);
        if assoc_entries_map(s).contains_key(k) {
            if s.last().0@ == k {
                assert(s[s.len() - 1].0@ == k);
            }
        }
        if exists|i: int| 0 <= i < s.len() && (#[trigger] s[i]).0@ == k {
            let i = choose|i: int| 0 <= i < s.len() && (#[trigger] s[i]).0@ == k;
            if i < s.len() - 1 {
                assert(dl[i].0@ == k);
            } else {
                assert(s.last().0@ == k);
            }
        }
    }
}

proof fn lemma_assoc_value<V: View>(s: Seq<(Vec<u8>, V)>, i: int)
    requires
        assoc_unique_keys(s),
        0 <= i < s.len(),
    ensures
        assoc_entries_map(s).contains_key(s[i].0@),
        assoc_entries_map(s)[s[i].0@] == s[i].1@,
    decreases s.len(),
{
    let dl = s.drop_last();
    if i == s.len() - 1 {
        assert(s.last() == s[i]);
    } else {
        assert(forall|j: int| 0 <= j < dl.len() ==> #[trigger] dl[j] == s[j]);
        lemma_assoc_value(dl, i);
        assert(s.last().0@ != s[i].0@);
    }
}

proof fn lemma_assoc_update<V: View>(s: Seq<(Vec<u8>, V)>, i: int, key: Vec<u8>, value: V)
    requires
        assoc_unique_keys(s),
        0 <= i < s.len(),
        s[i].0@ == key@,
    ensures
        assoc_entries_map(s.update(i, (key, value))) == assoc_entries_map(s).insert(
            key@,
            value@,
        ),
        assoc_unique_keys(s.update(i, (key, value))),
    decreases s.len(),
{
    let s2 = s.update(i, (key, value));
    assert(forall|j: int| 0 <= j < s.len() && j != i ==> #[trigger] s2[j] == s[j]);
    assert(s2[i].0@ == s[i].0@);
    assert(assoc_unique_keys(s2));
    let dl = s.drop_last();
    if i == s.len() - 1 {
        assert(s2.drop_last() =~= dl);
        assert(s2.last() == (key, value));
        assert(assoc_entries_map(s2) == assoc_entries_map(dl).insert(key@, value@));
        assert(s.last().0@ == key@);
        assert(assoc_entries_map(dl).insert(key@, s.last().1@).insert(key@, value@)
            =~= assoc_entries_map(dl).insert(key@, value@));
    } else {
        assert(forall|j: int| 0 <= j < dl.len() ==> #[trigger] dl[j] == s[j]);
        assert(s2.drop_last() =~= dl.update(i, (key, value)));
        assert(s2.last() == s.last());
        lemma_assoc_update(dl, i, key, value);
        let lk = s.last().0@;
        let lv = s.last().1@;
        assert(lk != key@);
        assert(assoc_entries_map(dl).insert(key@, value@).insert(lk, lv)
            =~= assoc_entries_map(dl).insert(lk, lv).insert(key@, value@));
    }
}

proof fn lemma_assoc_push<V: View>(s: Seq<(Vec<u8>, V)>, key: Vec<u8>, value: V)
    requires
        assoc_unique_keys(s),
        forall|i: int| 0 <= i < s.len() ==> (#[trigger] s[i]).0@ != key@,
    ensures
        assoc_entries_map(s.push((key, value))) == assoc_entries_map(s).insert(key@, value@),
        assoc_unique_keys(s.push((key, value))),
{
    let s2 = s.push((key, value));
    assert(s2.drop_last() =~= s);
    assert(s2.last() == (key, value));
    assert(forall|j: int| 0 <= j < s.len() ==> #[trigger] s2[j] == s[j]);
    assert(assoc_unique_keys(s2));
}

proof fn lemma_assoc_remove<V: View>(s: Seq<(Vec<u8>, V)>, i: int)
    requires
        assoc_unique_keys(s),
        0 <= i < s.len(),
    ensures
        assoc_entries_map(s.remove(i)) == assoc_entries_map(s).remove(s[i].0@),
        assoc_unique_keys(s.remove(i)),
    decreases s.len(),
{
    let s2 = s.remove(i);
    assert(forall|j: int| 0 <= j < i ==> #[trigger] s2[j] == s[j]);
    assert(forall|j: int| i <= j < s2.len() ==> #[trigger] s2[j] == s[j + 1]);
    assert(assoc_unique_keys(s2));
    let dl = s.drop_last();
    assert(forall|j: int| 0 <= j < dl.len() ==> #[trigger] dl[j] == s[j]);
    let k = s[i].0@;
    if i == s.len() - 1 {
        assert(s2 =~= dl);
        lemma_assoc_contains(dl, k);
        assert(forall|j: int| 0 <= j < dl.len() ==> (#[trigger] dl[j]).0@ != k);
        assert(!assoc_entries_map(dl).contains_key(k));
        assert(assoc_entries_map(dl).insert(k, s.last().1@).remove(k)
            =~= assoc_entries_map(dl));
    } else {
        lemma_assoc_remove(dl, i);
        assert(s2.drop_last() =~= dl.remove(i));
        assert(s2.last() == s.last());
        let lk = s.last().0@;
        let lv = s.last().1@;
        assert(lk != k);
        assert(assoc_entries_map(dl).remove(k).insert(lk, lv)
            =~= assoc_entries_map(dl).insert(lk, lv).remove(k));
    }
}

/// A map from byte-sequence keys to values, held as an association list
/// with unique keys.
pub struct AssocMap<V> {
    entries: Vec<(Vec<u8>, V)>,
}

impl<V: View> AssocMap<V> {
    /// The mathematical map this value holds.
    pub closed spec fn m(&self) -> Map<Seq<u8>, V::V> {
        assoc_entries_map(self.entries@)
    }

    /// Each key bound at most once.
    pub closed spec fn wf(&self) -> bool {
        assoc_unique_keys(self.entries@)
    }

    pub fn new() -> (r: Self)
        ensures
            r.wf(),
            r.m() == Map::<Seq<u8>, V::V>::empty(),
    {
        AssocMap { entries: Vec::new() }
    }

    fn find_index(&self, key: &Vec<u8>) -> (r: Option<usize>)
        ensures
            match r {
                Some(i) => 0 <= i < self.entries@.len() && self.entries@[i as int].0@ == key@,
                None => forall|i: int|
                    0 <= i < self.entries@.len() ==> (#[trigger] self.entries@[i]).0@ != key@,
            },
    {
        let mut i: usize = 0;
        while i < self.entries.len()
            invariant
                0 <= i <= self.entries@.len(),
                forall|j: int| 0 <= j < i ==> (#[trigger] self.entries@[j]).0@ != key@,
            decreases self.entries@.len() - i,
        {
            if bytes_eq(&self.entries[i].0, key) {
                return Some(i);
            }
            i = i + 1;
        }
        None
    }

    /// Whether `key` is bound.
    pub fn contains(&self, key: &Vec<u8>) -> (r: bool)
        requires
            self.wf(),
        ensures
            r == self.m().contains_key(key@),
    {
        let found = self.find_index(key);
        proof {
            lemma_assoc_contains(self.entries@, key@);
        }
        found.is_some()
    }

    /// The value bound to `key`, if any.
    pub fn get<'a>(&'a self, key: &Vec<u8>) -> (r: Option<&'a V>)
        requires
            self.wf(),
        ensures
            match r {
                Some(v) => self.m().contains_key(key@) && v@ == self.m()[key@],
                None => !self.m().contains_key(key@),
            },
    {
        proof {
            lemma_assoc_contains(self.entries@, key@);
        }
        match self.find_index(key) {
            Some(i) => {
                proof {
                    lemma_assoc_value(self.entries@, i as int);
                }
                Some(&self.entries[i].1)
            },
            None => None,
        }
    }

    /// Binds `key` to `value`, overwriting any earlier binding.
    pub fn set(&mut self, key: Vec<u8>, value: V)
        requires
            old(self).wf(),
        ensures
            final(self).wf(),
            final(self).m() == old(self).m().insert(key@, value@),
    {
        match self.find_index(&key) {
            Some(i) => {
                proof {
                    lemma_assoc_update(self.entries@, i as int, key, value);
                }
                self.entries.set(i, (key, value));
            },
            None => {
                proof {
                    lemma_assoc_push(self.entries@, key, value);
                }
                self.entries.push((key, value));
            },
        }
    }

    /// Unbinds `key`; a no-op where it was not bound.
    pub fn remove(&mut self, key: &Vec<u8>)
        requires
            old(self).wf(),
        ensures
            final(self).wf(),
            final(self).m() == old(self).m().remove(key@),
    {
        match self.find_index(key) {
            Some(i) => {
                proof {
                    lemma_assoc_remove(self.entries@, i as int);
                }
                let _ = self.entries.remove(i);
            },
            None => {
                proof {
                    lemma_assoc_contains(self.entries@, key@);
                    assert(self.m().remove(key@) =~= self.m());
                }
            },
        }
    }
}

/// The durable KV engine's narrow interface: get, set, delete and flush
/// over one byte-keyed space, with a ghost durable snapshot standing for
/// what a crash would preserve.
pub struct KvStoreEngine {
    store: AssocMap<Vec<u8>>,
    durable: Ghost<Map<Seq<u8>, Seq<u8>>>,
}

impl KvStoreEngine {
    /// The engine's current contents.
    pub closed spec fn contents(&self) -> Map<Seq<u8>, Seq<u8>> {
        self.store.m()
    }

    /// What has been made durable: the contents as of the last flush.
    pub closed spec fn durable(&self) -> Map<Seq<u8>, Seq<u8>> {
        self.durable@
    }

    pub closed spec fn wf(&self) -> bool {
        self.store.wf()
    }

    pub fn new() -> (r: Self)
        ensures
            r.wf(),
            r.contents() == Map::<Seq<u8>, Seq<u8>>::empty(),
            r.durable() == Map::<Seq<u8>, Seq<u8>>::empty(),
    {
        KvStoreEngine { store: AssocMap::new(), durable: Ghost(Map::empty()) }
    }

    pub fn set(&mut self, key: Vec<u8>, value: Vec<u8>)
        requires
            old(self).wf(),
        ensures
            final(self).wf(),
            final(self).contents() == old(self).contents().insert(key@, value@),
            final(self).durable() == old(self).durable(),
    {
        self.store.set(key, value);
    }

    pub fn get<'a>(&'a self, key: &Vec<u8>) -> (r: Option<&'a Vec<u8>>)
        requires
            self.wf(),
        ensures
            match r {
                Some(v) => self.contents().contains_key(key@) && v@ == self.contents()[key@],
                None => !self.contents().contains_key(key@),
            },
    {
        self.store.get(key)
    }

    pub fn del(&mut self, key: &Vec<u8>)
        requires
            old(self).wf(),
        ensures
            final(self).wf(),
            final(self).contents() == old(self).contents().remove(key@),
            final(self).durable() == old(self).durable(),
    {
        self.store.remove(key);
    }

    /// The durability barrier: everything set so far becomes recoverable.
    pub fn flush(&mut self)
        ensures
            final(self).wf() == old(self).wf(),
            final(self).contents() == old(self).contents(),
            final(self).durable() == old(self).contents(),
    {
        self.durable = Ghost(self.store.m());
    }
}

/// The holder of one lock: the node and the task that acquired it. The
/// task identity doubles as the release credential.
#[derive(Clone, Copy, Debug, PartialEq, Eq, Structural)]
pub struct LockHolder {
    pub node: NodeID,
    pub task: TaskId,
}

impl View for LockHolder {
    type V = LockHolder;

    open spec fn view(&self) -> LockHolder {
        *self
    }
}

/// The coordination service's whole visible state: the engine's current
/// and durable contents, and the lock table.
#[verifier::ext_equal]
pub struct SpecState {
    pub store: Map<Seq<u8>, Seq<u8>>,
    pub durable: Map<Seq<u8>, Seq<u8>>,
    pub locks: Map<Seq<u8>, LockHolder>,
}

/// What a Set does: writes the value, records this node as the value's
/// position, and flushes, so both entries are durable when the response is
/// sent. A Set without a pair changes nothing.
pub open spec fn spec_handle_set(
    s: SpecState,
    kv: Option<(Seq<u8>, Seq<u8>)>,
    this_node: NodeID,
) -> SpecState {
    match kv {
        Some(p) => {
            let st = s.store.insert(value_key_spec(p.0), p.1).insert(
                position_key_spec(p.0),
                node_id_bytes(this_node),
            );
            SpecState { store: st, durable: st, locks: s.locks }
        },
        None => s,
    }
}

/// What a Get returns: the pair stored under the range's start key, or
/// nothing — an absent key is an empty result, not an error.
pub open spec fn spec_get_result(s: SpecState, k: Seq<u8>) -> Seq<(Seq<u8>, Seq<u8>)> {
    if s.store.contains_key(value_key_spec(k)) {
        seq![(k, s.store[value_key_spec(k)])]
    } else {
        Seq::empty()
    }
}

/// What a Delete does: removes the position marker and the value, then
/// flushes. Deleting an absent key is a silent no-op.
pub open spec fn spec_handle_delete(s: SpecState, k: Seq<u8>) -> SpecState {
    let st = s.store.remove(position_key_spec(k)).remove(value_key_spec(k));
    SpecState { store: st, durable: st, locks: s.locks }
}

/// The outcome of one lock-request step.
#[derive(Clone, Copy, Debug, PartialEq, Eq, Structural)]
pub enum LockStep {
    /// The key was free; the requester now holds it under the granted
    /// task identity.
    Granted(TaskId),
    /// The matching holder released the key; it is free again.
    Released,
    /// The key is held by someone else; the requester must wait for a
    /// release and then re-attempt acquisition from scratch.
    Wait,
    /// A release whose credentials do not match the recorded holder; the
    /// lock table is left untouched.
    NotOwner,
}

/// The release credential a lock request carries, if any: its presence
/// makes the request a release, its absence an acquire.
pub open spec fn spec_release_of(release_id: Seq<TaskId>) -> Option<TaskId> {
    if release_id.len() > 0 {
        Some(release_id[0])
    } else {
        None
    }
}

/// One step of the per-key lock state machine.
pub open spec fn spec_handle_lock(
    s: SpecState,
    k: Seq<u8>,
    release: Option<TaskId>,
    from: NodeID,
    task: TaskId,
) -> (SpecState, LockStep) {
    match release {
        Some(rid) => {
            if s.locks.contains_key(k) && s.locks[k].node == from && s.locks[k].task == rid {
                (
                    SpecState { store: s.store, durable: s.durable, locks: s.locks.remove(k) },
                    LockStep::Released,
                )
            } else {
                (s, LockStep::NotOwner)
            }
        },
        None => {
            if s.locks.contains_key(k) {
                (s, LockStep::Wait)
            } else {
                (
                    SpecState {
                        store: s.store,
                        durable: s.durable,
                        locks: s.locks.insert(k, LockHolder { node: from, task }),
                    },
                    LockStep::Granted(task),
                )
            }
        },
    }
}

/// What one lock request produced: a response to send, or the instruction
/// to wait for a release and retry.
pub enum LockStepResult {
    Resp(KvResponse),
    Wait,
}

/// How far one batch got: every operation served, or suspended at the
/// operation that must wait for a lock release, or refused at a release
/// whose credentials did not match the recorded holder.
#[verifier::ext_equal]
pub enum BatchOutcomeModel {
    Done { end: SpecState, resps: Seq<KvResponseModel> },
    Blocked { end: SpecState, resps: Seq<KvResponseModel>, at: int },
    Failed {
        end: SpecState,
        resps: Seq<KvResponseModel>,
        at: int,
        key: Seq<u8>,
        node: NodeID,
        release_id: TaskId,
    },
}

/// Shifts a batch outcome behind the responses already produced.
pub open spec fn batch_prepend_all(
    prefix: Seq<KvResponseModel>,
    o: BatchOutcomeModel,
) -> BatchOutcomeModel {
    match o {
        BatchOutcomeModel::Done { end, resps } => BatchOutcomeModel::Done {
            end,
            resps: prefix.add(resps),
        },
        BatchOutcomeModel::Blocked { end, resps, at } => BatchOutcomeModel::Blocked {
            end,
            resps: prefix.add(resps),
            at: at + prefix.len(),
        },
        BatchOutcomeModel::Failed { end, resps, at, key, node, release_id } =>
            BatchOutcomeModel::Failed {
            end,
            resps: prefix.add(resps),
            at: at + prefix.len(),
            key,
            node,
            release_id,
        },
    }
}

proof fn lemma_batch_prepend_push(
    prefix: Seq<KvResponseModel>,
    resp: KvResponseModel,
    o: BatchOutcomeModel,
)
    ensures
        batch_prepend_all(prefix, batch_prepend_all(seq![resp], o)) == batch_prepend_all(
            prefix.push(resp),
            o,
        ),
{
    assert(batch_prepend_all(prefix, batch_prepend_all(seq![resp], o)) =~~= batch_prepend_all(
        prefix.push(resp),
        o,
    ));
}

/// Runs a batch of operations in order against the model, one state step
/// per operation. Only valid batches are ever run, so every operation
/// carries its payload; an operation without one ends the batch.
pub open spec fn spec_run_batch(
    s: SpecState,
    reqs: Seq<KvRequest>,
    this_node: NodeID,
    from: NodeID,
    task: TaskId,
) -> BatchOutcomeModel
    decreases reqs.len(),
{
    if reqs.len() == 0 {
        BatchOutcomeModel::Done { end: s, resps: Seq::empty() }
    } else {
        match reqs[0].op {
            None => BatchOutcomeModel::Done { end: s, resps: Seq::empty() },
            Some(op) => match op {
                KvRequestOp::Put(set) => {
                    let s2 = spec_handle_set(s, kv_view(set.kv), this_node);
                    batch_prepend_all(
                        seq![KvResponseModel::Common(Seq::empty())],
                        spec_run_batch(s2, reqs.drop_first(), this_node, from, task),
                    )
                },
                KvRequestOp::Get(get) => batch_prepend_all(
                    seq![KvResponseModel::Common(spec_get_result(s, get.range->Some_0.start@))],
                    spec_run_batch(s, reqs.drop_first(), this_node, from, task),
                ),
                KvRequestOp::Delete(del) => {
                    let s2 = spec_handle_delete(s, del.range->Some_0.start@);
                    batch_prepend_all(
                        seq![KvResponseModel::Common(Seq::empty())],
                        spec_run_batch(s2, reqs.drop_first(), this_node, from, task),
                    )
                },
                KvRequestOp::Lock(l) => {
                    let k = l.range->Some_0.start@;
                    let release = spec_release_of(l.release_id@);
                    let step = spec_handle_lock(s, k, release, from, task);
                    match step.1 {
                        LockStep::Granted(t) => batch_prepend_all(
                            seq![KvResponseModel::Lock(t)],
                            spec_run_batch(step.0, reqs.drop_first(), this_node, from, task),
                        ),
                        LockStep::Released => batch_prepend_all(
                            seq![KvResponseModel::Common(Seq::empty())],
                            spec_run_batch(step.0, reqs.drop_first(), this_node, from, task),
                        ),
                        LockStep::Wait => BatchOutcomeModel::Blocked {
                            end: s,
                            resps: Seq::empty(),
                            at: 0,
                        },
                        LockStep::NotOwner => BatchOutcomeModel::Failed {
                            end: s,
                            resps: Seq::empty(),
                            at: 0,
                            key: k,
                            node: from,
                            release_id: release->Some_0,
                        },
                    }
                },
            },
        }
    }
}

/// How far one batch got, executably: the full responses, or the
/// responses before the operation that must wait, with its index.
pub enum BatchStep {
    Done(KvResponses),
    Blocked { done: Vec<KvResponse>, at: usize },
}

/// Whether an executable batch result `r`, ending in service state
/// `end_state`, is the one the model outcome `o` calls for.
pub open spec fn batch_result_matches(
    o: BatchOutcomeModel,
    end_state: SpecState,
    r: WSResult<BatchStep>,
) -> bool {
    match o {
        BatchOutcomeModel::Done { end, resps } => end_state == end && (r matches Ok(
            BatchStep::Done(rs),
        ) && rs@ == resps),
        BatchOutcomeModel::Blocked { end, resps, at } => end_state == end && (r matches Ok(
            BatchStep::Blocked { done, at: blocked_at },
        ) && done@.map_values(|x: KvResponse| x@) == resps && blocked_at as int == at),
        BatchOutcomeModel::Failed { end, resps: _, at: _, key, node, release_id } => end_state
            == end && (r matches Err(WSError::WsPermissionErr(WsPermissionErr::NotLockOwner {
            key: k2,
            node: n2,
            release_id: rid2,
        })) && k2@ == key && n2 == node && rid2 == release_id),
    }
}

fn clone_option_range(range: &Option<KeyRange>) -> (c: Option<KeyRange>)
    ensures
        range_view(c) == range_view(*range),
{
    match range {
        Some(kr) => Some(KeyRange { start: clone_bytes(&kr.start), end: clone_bytes(&kr.end) }),
        None => None,
    }
}

fn clone_put_request(set: &KvPutRequest) -> (c: KvPutRequest)
    ensures
        kv_view(c.kv) == kv_view(set.kv),
{
    match &set.kv {
        Some(p) => KvPutRequest {
            kv: Some(KvPair { key: clone_bytes(&p.key), value: clone_bytes(&p.value) }),
        },
        None => KvPutRequest { kv: None },
    }
}

fn clone_task_ids(v: &Vec<TaskId>) -> (r: Vec<TaskId>)
    ensures
        r@ == v@,
{
    let mut r: Vec<TaskId> = Vec::new();
    let mut i: usize = 0;
    while i < v.len()
        invariant
            0 <= i <= v@.len(),
            r@ == v@.take(i as int),
        decreases v@.len() - i,
    {
        r.push(v[i]);
        assert(r@ =~= v@.take(i + 1));
        i = i + 1;
    }
    assert(r@ =~= v@);
    r
}

fn clone_lock_request(l: &KvLockRequest) -> (c: KvLockRequest)
    ensures
        range_view(c.range) == range_view(l.range),
        c.release_id@ == l.release_id@,
        c.read_0_write_1_unlock_2 == l.read_0_write_1_unlock_2,
{
    KvLockRequest {
        read_0_write_1_unlock_2: l.read_0_write_1_unlock_2,
        range: clone_option_range(&l.range),
        release_id: clone_task_ids(&l.release_id),
    }
}

/// The coordination service: the durable engine, the lock table, and this
/// node's own identity (recorded as the position of every value it
/// stores).
pub struct MasterKv {
    kv_store_engine: KvStoreEngine,
    lock_notifiers: AssocMap<LockHolder>,
    this_node: NodeID,
}

impl MasterKv {
    pub closed spec fn wf(&self) -> bool {
        self.kv_store_engine.wf() && self.lock_notifiers.wf()
    }

    /// The service's visible state.
    pub closed spec fn state(&self) -> SpecState {
        SpecState {
            store: self.kv_store_engine.contents(),
            durable: self.kv_store_engine.durable(),
            locks: self.lock_notifiers.m(),
        }
    }

    /// The serving node's identity.
    pub closed spec fn node(&self) -> NodeID {
        self.this_node
    }

    /// A fresh service on `this_node`: empty store, empty lock table.
    pub fn inner_new(this_node: NodeID) -> (r: Self)
        ensures
            r.wf(),
            r.node() == this_node,
            r.state().store == Map::<Seq<u8>, Seq<u8>>::empty(),
            r.state().durable == Map::<Seq<u8>, Seq<u8>>::empty(),
            r.state().locks == Map::<Seq<u8>, LockHolder>::empty(),
    {
        MasterKv {
            kv_store_engine: KvStoreEngine::new(),
            lock_notifiers: AssocMap::new(),
            this_node,
        }
    }

    /// The serving node's identity.
    pub fn this_node(&self) -> (n: NodeID)
        ensures
            n == self.node(),
    {
        self.this_node
    }

    /// Serves one Set: overwrite semantics, position recorded, durable
    /// before the response exists.
    pub fn handle_kv_set(&mut self, set: KvPutRequest, _from: NodeID) -> (resp: KvResponse)
        requires
            old(self).wf(),
        ensures
            final(self).wf(),
            final(self).node() == old(self).node(),
            final(self).state() == spec_handle_set(
                old(self).state(),
                kv_view(set.kv),
                old(self).node(),
            ),
            resp@ == KvResponseModel::Common(Seq::<(Seq<u8>, Seq<u8>)>::empty()),
    {
        match set.kv {
            Some(kv) => {
                let vk = value_key(&kv.key);
                let pk = position_key(&kv.key);
                let pos = node_id_to_bytes(self.this_node);
                self.kv_store_engine.set(vk, kv.value);
                self.kv_store_engine.set(pk, pos);
                self.kv_store_engine.flush();
            },
            None => {},
        }
        let resp = KvResponse::new_common(Vec::new());
        proof {
            assert(Seq::<KvPair>::empty().map_values(|p: KvPair| p@) =~= Seq::<
                (Seq<u8>, Seq<u8>),
            >::empty());
        }
        resp
    }

    /// Serves one Get: a point lookup on the range's start key.
    pub fn handle_kv_get(&self, get: KvGetRequest) -> (resp: KvResponse)
        requires
            self.wf(),
            get.range is Some,
        ensures
            resp@ == KvResponseModel::Common(
                spec_get_result(self.state(), get.range->Some_0.start@),
            ),
    {
        let mut kvs: Vec<KvPair> = Vec::new();
        match get.range {
            Some(range) => {
                let vk = value_key(&range.start);
                match self.kv_store_engine.get(&vk) {
                    Some(v) => {
                        let value = clone_bytes(v);
                        kvs.push(KvPair { key: range.start, value });
                        proof {
                            assert(kvs@.map_values(|p: KvPair| p@) =~= spec_get_result(
                                self.state(),
                                get.range->Some_0.start@,
                            ));
                        }
                    },
                    None => {
                        proof {
                            assert(kvs@.map_values(|p: KvPair| p@) =~= spec_get_result(
                                self.state(),
                                get.range->Some_0.start@,
                            ));
                        }
                    },
                }
            },
            None => {},
        }
        KvResponse::new_common(kvs)
    }

    /// Serves one Delete: value and position marker both go, durably;
    /// always succeeds.
    pub fn handle_kv_delete(&mut self, delete: KvDeleteRequest) -> (resp: KvResponse)
        requires
            old(self).wf(),
            delete.range is Some,
        ensures
            final(self).wf(),
            final(self).node() == old(self).node(),
            final(self).state() == spec_handle_delete(
                old(self).state(),
                delete.range->Some_0.start@,
            ),
            resp@ == KvResponseModel::Common(Seq::<(Seq<u8>, Seq<u8>)>::empty()),
    {
        match delete.range {
            Some(range) => {
                let pk = position_key(&range.start);
                self.kv_store_engine.del(&pk);
                let vk = value_key(&range.start);
                self.kv_store_engine.del(&vk);
                self.kv_store_engine.flush();
            },
            None => {},
        }
        let resp = KvResponse::new_common(Vec::new());
        proof {
            assert(Seq::<KvPair>::empty().map_values(|p: KvPair| p@) =~= Seq::<
                (Seq<u8>, Seq<u8>),
            >::empty());
        }
        resp
    }

    /// Serves one lock request: an acquire is granted at once on a free
    /// key and told to wait on a held one; a release is checked against
    /// the recorded holder and refused with a distinct "not lock owner"
    /// error where the credentials do not match.
    pub fn handle_kv_lock(&mut self, lock: KvLockRequest, from: NodeID, task: TaskId) -> (r:
        WSResult<LockStepResult>)
        requires
            old(self).wf(),
            lock.range is Some,
        ensures
            final(self).wf(),
            final(self).node() == old(self).node(),
            ({
                let k = lock.range->Some_0.start@;
                let step = spec_handle_lock(
                    old(self).state(),
                    k,
                    spec_release_of(lock.release_id@),
                    from,
                    task,
                );
                &&& final(self).state() == step.0
                &&& match step.1 {
                    LockStep::Granted(t) => r matches Ok(LockStepResult::Resp(resp))
                        && resp@ == KvResponseModel::Lock(t),
                    LockStep::Released => r matches Ok(LockStepResult::Resp(resp))
                        && resp@ == KvResponseModel::Common(Seq::<(Seq<u8>, Seq<u8>)>::empty()),
                    LockStep::Wait => r matches Ok(LockStepResult::Wait),
                    LockStep::NotOwner => r matches Err(e)
                        && e matches WSError::WsPermissionErr(WsPermissionErr::NotLockOwner {
                            key,
                            node,
                            release_id,
                        })
                        && key@ == k
                        && node == from
                        && release_id == spec_release_of(lock.release_id@)->Some_0,
                }
            }),
    {
        let range = match lock.range {
            Some(range) => range,
            None => {
                return Err(WSError::NotImplemented);
            },
        };
        if lock.release_id.len() > 0 {
            let rid = lock.release_id[0];
            let is_owner = match self.lock_notifiers.get(&range.start) {
                Some(h) => h.node == from && h.task == rid,
                None => false,
            };
            if is_owner {
                self.lock_notifiers.remove(&range.start);
                let resp = KvResponse::new_common(Vec::new());
                proof {
                    assert(Seq::<KvPair>::empty().map_values(|p: KvPair| p@) =~= Seq::<
                        (Seq<u8>, Seq<u8>),
                    >::empty());
                }
                Ok(LockStepResult::Resp(resp))
            } else {
                Err(
                    WSError::WsPermissionErr(
                        WsPermissionErr::NotLockOwner { key: range.start, node: from, release_id: rid },
                    ),
                )
            }
        } else {
            if self.lock_notifiers.contains(&range.start) {
                Ok(LockStepResult::Wait)
            } else {
                self.lock_notifiers.set(range.start, LockHolder { node: from, task });
                Ok(LockStepResult::Resp(KvResponse::new_lock(task)))
            }
        }
    }

    /// Serves one batch: the operations run sequentially in their declared
    /// order, one response per operation in the same order. An operation
    /// that must wait for a lock stalls only the operations after it in
    /// this batch; a release with wrong credentials fails the batch with
    /// the distinct "not lock owner" error.
    pub fn handle_kv_requests(&mut self, reqs: KvRequests, from: NodeID, task: TaskId) -> (r:
        WSResult<BatchStep>)
        requires
            old(self).wf(),
            reqs.valid(),
        ensures
            final(self).wf(),
            final(self).node() == old(self).node(),
            batch_result_matches(
                spec_run_batch(old(self).state(), reqs.requests@, old(self).node(), from, task),
                final(self).state(),
                r,
            ),
    {
        let ghost all = reqs.requests@;
        let ghost total = spec_run_batch(old(self).state(), all, old(self).node(), from, task);
        let mut responses: Vec<KvResponse> = Vec::new();
        let mut i: usize = 0;
        proof {
            assert(all.skip(0) =~= all);
            assert(responses@.map_values(|x: KvResponse| x@) =~= Seq::<KvResponseModel>::empty());
            assert(batch_prepend_all(Seq::empty(), total) =~~= total);
        }
        while i < reqs.requests.len()
            invariant
                self.wf(),
                self.node() == old(self).node(),
                reqs.valid(),
                all == reqs.requests@,
                0 <= i <= all.len(),
                responses@.len() == i,
                total == spec_run_batch(old(self).state(), all, old(self).node(), from, task),
                total == batch_prepend_all(
                    responses@.map_values(|x: KvResponse| x@),
                    spec_run_batch(self.state(), all.skip(i as int), self.node(), from, task),
                ),
            decreases all.len() - i,
        {
            let ghost prefix = responses@.map_values(|x: KvResponse| x@);
            let ghost s_here = self.state();
            let ghost rest = all.skip(i as int);
            proof {
                assert(rest.len() > 0);
                assert(rest[0] == all[i as int]);
                assert(rest.drop_first() =~= all.skip(i as int + 1));
                assert(reqs.requests@[i as int].op_valid());
            }
            match &reqs.requests[i].op {
                Some(KvRequestOp::Put(set)) => {
                    let set2 = clone_put_request(set);
                    let resp = self.handle_kv_set(set2, from);
                    proof {
                        lemma_batch_prepend_push(prefix, resp@, spec_run_batch(
                            self.state(),
                            rest.drop_first(),
                            self.node(),
                            from,
                            task,
                        ));
                        assert(responses@.push(resp).map_values(|x: KvResponse| x@)
                            =~= prefix.push(resp@));
                    }
                    responses.push(resp);
                },
                Some(KvRequestOp::Get(get)) => {
                    let get2 = KvGetRequest { range: clone_option_range(&get.range) };
                    let resp = self.handle_kv_get(get2);
                    proof {
                        lemma_batch_prepend_push(prefix, resp@, spec_run_batch(
                            self.state(),
                            rest.drop_first(),
                            self.node(),
                            from,
                            task,
                        ));
                        assert(responses@.push(resp).map_values(|x: KvResponse| x@)
                            =~= prefix.push(resp@));
                    }
                    responses.push(resp);
                },
                Some(KvRequestOp::Delete(del)) => {
                    let del2 = KvDeleteRequest { range: clone_option_range(&del.range) };
                    let resp = self.handle_kv_delete(del2);
                    proof {
                        lemma_batch_prepend_push(prefix, resp@, spec_run_batch(
                            self.state(),
                            rest.drop_first(),
                            self.node(),
                            from,
                            task,
                        ));
                        assert(responses@.push(resp).map_values(|x: KvResponse| x@)
                            =~= prefix.push(resp@));
                    }
                    responses.push(resp);
                },
                Some(KvRequestOp::Lock(l)) => {
                    let l2 = clone_lock_request(l);
                    let lr = self.handle_kv_lock(l2, from, task);
                    match lr {
                        Ok(LockStepResult::Resp(resp)) => {
                            proof {
                                lemma_batch_prepend_push(prefix, resp@, spec_run_batch(
                                    self.state(),
                                    rest.drop_first(),
                                    self.node(),
                                    from,
                                    task,
                                ));
                                assert(responses@.push(resp).map_values(|x: KvResponse| x@)
                                    =~= prefix.push(resp@));
                            }
                            responses.push(resp);
                        },
                        Ok(LockStepResult::Wait) => {
                            return Ok(BatchStep::Blocked { done: responses, at: i });
                        },
                        Err(e) => {
                            return Err(e);
                        },
                    }
                },
                None => {
                    proof {
                        assert(false);
                    }
                    return Err(WSError::NotImplemented);
                },
            }
            i = i + 1;
        }
        proof {
            assert(all.skip(all.len() as int) =~= Seq::<KvRequest>::empty());
        }
        Ok(BatchStep::Done(KvResponses { responses }))
    }

    /// The dispatch boundary: the batch's structural validity is decided
    /// first, and an invalid batch is rejected as a malformed message
    /// before any operation runs.
    pub fn dispatch_kv_requests(&mut self, reqs: KvRequests, from: NodeID, task: TaskId) -> (r:
        WSResult<BatchStep>)
        requires
            old(self).wf(),
        ensures
            final(self).wf(),
            final(self).node() == old(self).node(),
            reqs.valid() ==> batch_result_matches(
                spec_run_batch(old(self).state(), reqs.requests@, old(self).node(), from, task),
                final(self).state(),
                r,
            ),
            !reqs.valid() ==> {
                &&& final(self).state() == old(self).state()
                &&& r matches Err(WSError::WsRpcErr(WsRpcErr::InvalidMsgData { msg_id }))
                    && msg_id == id_of(MsgKind::KvRequests)
            },
    {
        if !reqs.verify() {
            let msg_id = reqs.msg_id();
            return Err(WSError::WsRpcErr(WsRpcErr::InvalidMsgData { msg_id }));
        }
        self.handle_kv_requests(reqs, from, task)
    }
}

/// Round trip: a Set of `(k, v)` followed by a Get of `k` returns exactly
/// `(k, v)`, whatever else the store held, absent intervening mutation of
/// `k`.
pub proof fn lemma_set_then_get_round_trip(s: SpecState, k: Seq<u8>, v: Seq<u8>, n: NodeID)
    ensures
        spec_get_result(spec_handle_set(s, Some((k, v)), n), k) == seq![(k, v)],
{
    lemma_namespaces_disjoint(k, k);
}

/// A Set makes its value durable before the response exists: the durable
/// snapshot holds it.
pub proof fn lemma_set_durable(s: SpecState, k: Seq<u8>, v: Seq<u8>, n: NodeID)
    ensures
        spec_handle_set(s, Some((k, v)), n).durable == spec_handle_set(s, Some((k, v)), n).store,
        spec_handle_set(s, Some((k, v)), n).durable[value_key_spec(k)] == v,
{
    lemma_namespaces_disjoint(k, k);
}

/// Tombstone: a Delete of `k` followed by a Get of `k` returns the empty
/// result, and a second Delete of `k` changes nothing more — Delete is
/// idempotent.
pub proof fn lemma_delete_tombstone(s: SpecState, k: Seq<u8>)
    ensures
        spec_get_result(spec_handle_delete(s, k), k) == Seq::<(Seq<u8>, Seq<u8>)>::empty(),
        spec_handle_delete(spec_handle_delete(s, k), k) == spec_handle_delete(s, k),
{
    let s1 = spec_handle_delete(s, k);
    assert(spec_handle_delete(s1, k).store =~= s1.store);
    assert(spec_handle_delete(s1, k) =~= s1);
}

/// Mutual exclusion: on a free key the first acquire is granted at once
/// and records the acquirer as holder; a second acquire — from any other
/// or even the same credentials — then observes suspension, not a grant.
pub proof fn lemma_mutual_exclusion(
    s: SpecState,
    k: Seq<u8>,
    n1: NodeID,
    t1: TaskId,
    n2: NodeID,
    t2: TaskId,
)
    requires
        !s.locks.contains_key(k),
    ensures
        ({
            let first = spec_handle_lock(s, k, None, n1, t1);
            &&& first.1 == LockStep::Granted(t1)
            &&& first.0.locks[k] == LockHolder { node: n1, task: t1 }
            &&& spec_handle_lock(first.0, k, None, n2, t2).1 == LockStep::Wait
            &&& spec_handle_lock(first.0, k, None, n2, t2).0 == first.0
        }),
{
}

/// Release authorization: a release whose (node, task) does not match the
/// recorded holder leaves the key held and the whole state untouched, and
/// a later release with the recorded credentials still succeeds and frees
/// the key.
pub proof fn lemma_release_authorization(
    s: SpecState,
    k: Seq<u8>,
    from: NodeID,
    rid: TaskId,
    task: TaskId,
)
    requires
        s.locks.contains_key(k),
        !(s.locks[k].node == from && s.locks[k].task == rid),
    ensures
        ({
            let wrong = spec_handle_lock(s, k, Some(rid), from, task);
            let right = spec_handle_lock(s, k, Some(s.locks[k].task), s.locks[k].node, task);
            &&& wrong.1 == LockStep::NotOwner
            &&& wrong.0 == s
            &&& right.1 == LockStep::Released
            &&& !right.0.locks.contains_key(k)
        }),
{
}

/// One response per operation, in the batch's order: a completed batch
/// answers every operation, and a blocked one answers exactly the
/// operations before the blocking index.
pub proof fn lemma_batch_one_response_per_op(
    s: SpecState,
    reqs: Seq<KvRequest>,
    this_node: NodeID,
    from: NodeID,
    task: TaskId,
)
    requires
        forall|i: int| 0 <= i < reqs.len() ==> (#[trigger] reqs[i]).op_valid(),
    ensures
        ({
            let o = spec_run_batch(s, reqs, this_node, from, task);
            match o {
                BatchOutcomeModel::Done { end: _, resps } => resps.len() == reqs.len(),
                BatchOutcomeModel::Blocked { end: _, resps, at } => resps.len() == at && 0 <= at
                    < reqs.len(),
                BatchOutcomeModel::Failed { end: _, resps, at, .. } => resps.len() == at && 0
                    <= at < reqs.len(),
            }
        }),
    decreases reqs.len(),
{
    if reqs.len() > 0 {
        assert(reqs[0].op_valid());
        let rest = reqs.drop_first();
        assert(forall|i: int| 0 <= i < rest.len() ==> #[trigger] rest[i] == reqs[i + 1]);
        match reqs[0].op {
            None => {},
            Some(op) => match op {
                KvRequestOp::Put(set) => {
                    lemma_batch_one_response_per_op(
                        spec_handle_set(s, kv_view(set.kv), this_node),
                        rest,
                        this_node,
                        from,
                        task,
                    );
                },
                KvRequestOp::Get(_) => {
                    lemma_batch_one_response_per_op(s, rest, this_node, from, task);
                },
                KvRequestOp::Delete(del) => {
                    lemma_batch_one_response_per_op(
                        spec_handle_delete(s, del.range->Some_0.start@),
                        rest,
                        this_node,
                        from,
                        task,
                    );
                },
                KvRequestOp::Lock(l) => {
                    let k = l.range->Some_0.start@;
                    let release = spec_release_of(l.release_id@);
                    let step = spec_handle_lock(s, k, release, from, task);
                    match step.1 {
                        LockStep::Granted(_) => {
                            lemma_batch_one_response_per_op(step.0, rest, this_node, from, task);
                        },
                        LockStep::Released => {
                            lemma_batch_one_response_per_op(step.0, rest, this_node, from, task);
                        },
                        LockStep::Wait => {},
                        LockStep::NotOwner => {},
                    }
                },
            },
        }
    }
}

} // verus!
