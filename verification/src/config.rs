//! Node configuration: which peers exist, their addresses, and which roles
//! ("master", "worker", "meta") each one plays. Reading and parsing the
//! configuration file is the shell's job; this module holds the parsed
//! shape and the role queries on it.

use vstd::prelude::*;

use crate::msg_pack::NodeID;

verus! {

/// One node's configuration: its address text and its role tags.
pub struct NodeConfig {
    pub addr: String,
    pub specs: Vec<String>,
}

/// Whether a configuration carries the role tag `tag`.
pub open spec fn has_tag(c: NodeConfig, tag: Seq<char>) -> bool {
    exists|i: int| 0 <= i < c.specs@.len() && (#[trigger] c.specs@[i])@ == tag
}

fn contains_tag(specs: &Vec<String>, tag: &String) -> (r: bool)
    ensures
        r == exists|i: int| 0 <= i < specs@.len() && (#[trigger] specs@[i])@ == tag@,
{
    let mut i: usize = 0;
    while i < specs.len()
        invariant
            0 <= i <= specs@.len(),
            forall|j: int| 0 <= j < i ==> (#[trigger] specs@[j])@ != tag@,
        decreases specs@.len() - i,
    {
        if specs[i].eq(tag) {
            return true;
        }
        i = i + 1;
    }
    false
}

impl NodeConfig {
    /// Whether this node plays the master role.
    pub fn is_master(&self) -> (r: bool)
        ensures
            r == has_tag(*self, "master"@),
    {
        let tag: String = "master".to_owned();
        contains_tag(&self.specs, &tag)
    }

    /// Whether this node plays the worker role.
    pub fn is_worker(&self) -> (r: bool)
        ensures
            r == has_tag(*self, "worker"@),
    {
        let tag: String = "worker".to_owned();
        contains_tag(&self.specs, &tag)
    }
}

/// The whole cluster's configuration as this node sees it: its own entry
/// and its peers.
pub struct NodesConfig {
    pub peers: Vec<(NodeID, NodeConfig)>,
    pub this: (NodeID, NodeConfig),
}

/// The peers of `s` that carry the "meta" tag, in configuration order.
pub open spec fn meta_kv_nodes_of(s: Seq<(NodeID, NodeConfig)>) -> Seq<NodeID>
    decreases s.len(),
{
    if s.len() == 0 {
        Seq::empty()
    } else {
        let rest = meta_kv_nodes_of(s.drop_last());
        if has_tag(s.last().1, "meta"@) {
            rest.push(s.last().0)
        } else {
            rest
        }
    }
}

impl NodesConfig {
    /// The identities of the peers that serve the metadata KV role.
    pub fn get_meta_kv_nodes(&self) -> (r: Vec<NodeID>)
        ensures
            r@ == meta_kv_nodes_of(self.peers@),
    {
        let mut r: Vec<NodeID> = Vec::new();
        let mut i: usize = 0;
        while i < self.peers.len()
            invariant
                0 <= i <= self.peers@.len(),
                r@ == meta_kv_nodes_of(self.peers@.take(i as int)),
            decreases self.peers@.len() - i,
        {
            proof {
                assert(self.peers@.take(i + 1).drop_last() =~= self.peers@.take(i as int));
                assert(self.peers@.take(i + 1).last() == self.peers@[i as int]);
            }
            let tag: String = "meta".to_owned();
            if contains_tag(&self.peers[i].1.specs, &tag) {
                r.push(self.peers[i].0);
            }
            i = i + 1;
        }
        proof {
            assert(self.peers@.take(self.peers@.len() as int) =~= self.peers@);
        }
        r
    }

    /// Splits a parsed node table into this node's own entry and its
    /// peers; `None` exactly when `this_id` has no entry.
    pub fn from_parsed(this_id: NodeID, nodes: Vec<(NodeID, NodeConfig)>) -> (r: Option<
        NodesConfig,
    >)
        requires
            forall|i: int, j: int|
                #![trigger nodes@[i], nodes@[j]]
                0 <= i < j < nodes@.len() ==> nodes@[i].0 != nodes@[j].0,
        ensures
            match r {
                Some(c) => {
                    &&& c.this.0 == this_id
                    &&& exists|i: int|
                        0 <= i < nodes@.len() && (#[trigger] nodes@[i]).0 == this_id
                            && c.this.1 == nodes@[i].1 && c.peers@ == nodes@.remove(i)
                },
                None => forall|i: int|
                    0 <= i < nodes@.len() ==> (#[trigger] nodes@[i]).0 != this_id,
            },
    {
        let mut remaining = nodes;
        let mut i: usize = 0;
        while i < remaining.len()
            invariant
                remaining@ == nodes@,
                0 <= i <= nodes@.len(),
                forall|j: int| 0 <= j < i ==> (#[trigger] nodes@[j]).0 != this_id,
            decreases remaining@.len() - i,
        {
            if remaining[i].0 == this_id {
                let entry = remaining.remove(i);
                let c = NodesConfig { peers: remaining, this: entry };
                proof {
                    assert((#[trigger] nodes@[i as int]).0 == this_id);
                    assert(c.this.1 == nodes@[i as int].1);
                    assert(c.peers@ == nodes@.remove(i as int));
                }
                return Some(c);
            }
            i = i + 1;
        }
        None
    }
}

} // verus!
