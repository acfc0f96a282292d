//! The cluster view: the local node, the round-robin partition assignment, the
//! partition summary and the leader.

use vstd::prelude::*;
use crate::common::now_millis;
use crate::error::ApiError;
use crate::security::{require_sys_admin, SecurityContext};
use crate::text::{concat_str, str_eq};

verus! {

/// Partitions each node holds.
pub open spec fn partitions_per_node() -> int {
    8
}

/// The cluster views are for system administrators only.
pub fn cluster_access(ctx: &SecurityContext) -> (r: Result<(), ApiError>)
    ensures
        ctx.sys_admin() <==> r is Ok,
        r matches Err(e) ==> (e matches ApiError::Forbidden(m) && m@ == "SYS_ADMIN authority required"@),
{
    require_sys_admin(ctx, "SYS_ADMIN authority required")
}

/// A node of the cluster.
pub struct ClusterNode {
    pub node_id: String,
    pub host: String,
    pub port: i32,
    pub status: String,
    pub service_type: String,
    pub last_heartbeat: i64,
    pub joined_at: i64,
    pub metadata: serde_json::Value,
    pub is_leader: bool,
    pub grpc_port: i32,
    pub leader_epoch: i64,
}

/// `serde_json::Value::Object` with no member.
#[verifier::external_body]
pub(crate) fn empty_json_object() -> (r: serde_json::Value)
{
    serde_json::Value::Object(serde_json::Map::new())
}

/// Position of the first node with the given id.
pub open spec fn node_position(nodes: Seq<ClusterNode>, id: Seq<char>) -> Option<int> {
    if exists|i: int| 0 <= i < nodes.len() && nodes[i].node_id@ == id {
        Some(choose|i: int| 0 <= i < nodes.len() && nodes[i].node_id@ == id
            && forall|j: int| 0 <= j < i ==> nodes[j].node_id@ != id)
    } else {
        None
    }
}

pub fn find_node(nodes: &Vec<ClusterNode>, id: &str) -> (r: Option<usize>)
    ensures
        r matches Some(i) ==> i < nodes@.len() && nodes@[i as int].node_id@ == id@
            && forall|j: int| 0 <= j < i ==> nodes@[j].node_id@ != id@,
        r is None ==> forall|j: int| 0 <= j < nodes@.len() ==> nodes@[j].node_id@ != id@,
{
    let mut i: usize = 0;
    while i < nodes.len()
        invariant
            i <= nodes@.len(),
            forall|j: int| 0 <= j < i ==> nodes@[j].node_id@ != id@,
        decreases nodes@.len() - i,
    {
        if str_eq(nodes[i].node_id.as_str(), id) {
            return Some(i);
        }
        i = i + 1;
    }
    None
}

/// The node entry shown for the local node when it has not registered yet: active,
/// a monolith, seen now, with no metadata, not leader, epoch 0.
pub fn synthetic_local_node(node_id: String, host: String, port: i32, grpc_port: i32) -> (n: ClusterNode)
    ensures
        n.node_id == node_id && n.host == host && n.port == port && n.grpc_port == grpc_port,
        n.status@ == "ACTIVE"@ && n.service_type@ == "MONOLITH"@,
        !n.is_leader && n.leader_epoch == 0,
{
    let heartbeat = now_millis();
    let joined = now_millis();
    ClusterNode {
        node_id,
        host,
        port,
        status: "ACTIVE".to_owned(),
        service_type: "MONOLITH".to_owned(),
        last_heartbeat: heartbeat,
        joined_at: joined,
        metadata: empty_json_object(),
        is_leader: false,
        grpc_port,
        leader_epoch: 0,
    }
}

/// The number of nodes partitions are spread over: at least one.
pub open spec fn spread_count(len: int) -> int {
    if len < 1 { 1 } else { len }
}

/// The partitions of node `index` out of `count` nodes, `8 * count` partitions in all,
/// assigned round-robin: those whose number leaves remainder `index` modulo `count`.
pub open spec fn assigned_upto(count: int, index: int, upto: int) -> Seq<int>
    decreases upto,
{
    if upto <= 0 {
        Seq::<int>::empty()
    } else {
        let init = assigned_upto(count, index, upto - 1);
        if (upto - 1) % count == index { init.push(upto - 1) } else { init }
    }
}

pub open spec fn assigned(count: int, index: int) -> Seq<int> {
    assigned_upto(count, index, partitions_per_node() * count)
}

/// The partition layout of the local node.
pub struct PartitionLayout {
    pub total_partitions: i32,
    pub local_index: i32,
    pub assigned_partitions: Vec<i32>,
}

pub fn partition_layout(node_count_raw: usize, local_position: Option<usize>) -> (r: PartitionLayout)
    requires
        node_count_raw * 8 <= i32::MAX,
        local_position matches Some(i) ==> i < node_count_raw,
    ensures
        r.total_partitions == partitions_per_node() * spread_count(node_count_raw as int),
        r.local_index == (match local_position { Some(i) => i as int, None => 0 }),
        r.assigned_partitions@.len() == assigned(spread_count(node_count_raw as int), r.local_index as int).len(),
        forall|k: int| 0 <= k < r.assigned_partitions@.len() ==>
            #[trigger] r.assigned_partitions@[k] == assigned(spread_count(node_count_raw as int), r.local_index as int)[k],
{
    let count: i32 = if node_count_raw < 1 { 1 } else { node_count_raw as i32 };
    let total: i32 = count * 8;
    let index: i32 = match local_position {
        Some(i) => i as i32,
        None => 0,
    };
    assert(index >= 0);
    let ghost c = count as int;
    let mut out: Vec<i32> = Vec::new();
    let mut p: i32 = 0;
    while p < total
        invariant
            0 <= p <= total,
            total == 8 * c,
            c == spread_count(node_count_raw as int),
            c >= 1,
            count as int == c,
            0 <= index,
            out@.len() == assigned_upto(c, index as int, p as int).len(),
            forall|k: int| 0 <= k < out@.len() ==> #[trigger] out@[k] == assigned_upto(c, index as int, p as int)[k],
        decreases total - p,
    {
        if p % count == index {
            out.push(p);
        }
        p = p + 1;
    }
    PartitionLayout { total_partitions: total, local_index: index, assigned_partitions: out }
}

proof fn lemma_assigned_upto_members(count: int, index: int, upto: int)
    requires
        count >= 1,
    ensures
        forall|k: int| 0 <= k < assigned_upto(count, index, upto).len() ==> {
            let p = #[trigger] assigned_upto(count, index, upto)[k];
            0 <= p < upto && p % count == index
        },
        forall|p: int| 0 <= p < upto && p % count == index ==> assigned_upto(count, index, upto).contains(p),
    decreases upto,
{
    if upto > 0 {
        lemma_assigned_upto_members(count, index, upto - 1);
        let init = assigned_upto(count, index, upto - 1);
        if (upto - 1) % count == index {
            assert forall|p: int| 0 <= p < upto && p % count == index implies assigned_upto(count, index, upto).contains(p) by {
                if p == upto - 1 {
                    assert(init.push(upto - 1)[init.len() as int] == p);
                } else {
                    assert(init.contains(p));
                    let j = choose|j: int| 0 <= j < init.len() && init[j] == p;
                    assert(init.push(upto - 1)[j] == p);
                }
            }
        }
    }
}

proof fn lemma_assigned_upto_len(count: int, index: int, blocks: int)
    requires
        count >= 1,
        0 <= index < count,
        blocks >= 0,
    ensures
        assigned_upto(count, index, blocks * count).len() == blocks,
    decreases blocks,
{
    if blocks > 0 {
        let b = blocks - 1;
        lemma_assigned_upto_len(count, index, b);
        lemma_block_step(count, index, b, count);
        let x = b * count;
        assert(x + count == blocks * count) by (nonlinear_arith)
            requires
                x == b * count,
                b == blocks - 1,
        ;
        assert(assigned_upto(count, index, x + count).len() == b + 1);
    } else {
        assert(blocks * count == 0) by (nonlinear_arith)
            requires
                blocks == 0,
        ;
    }
}

/// Within one block of `count` consecutive partitions, exactly one has remainder `index`.
proof fn lemma_block_step(count: int, index: int, b: int, j: int)
    requires
        count >= 1,
        0 <= index < count,
        b >= 0,
        0 <= j <= count,
    ensures
        assigned_upto(count, index, b * count + j).len() == assigned_upto(count, index, b * count).len()
            + (if index < j { 1int } else { 0int }),
    decreases j,
{
    if j > 0 {
        lemma_block_step(count, index, b, j - 1);
        let p = b * count + j - 1;
        assert(b * count >= 0) by (nonlinear_arith) requires b >= 0, count >= 1;
        vstd::arithmetic::div_mod::lemma_fundamental_div_mod_converse(p, count, b, j - 1);
        assert(p % count == j - 1);
    }
}

/// Round-robin assignment: every node of the cluster holds exactly eight
/// partitions, each of them with the node's remainder, and every partition with
/// that remainder is among them.
pub proof fn lemma_round_robin_assignment(count: int, index: int)
    requires
        count >= 1,
        0 <= index < count,
    ensures
        assigned(count, index).len() == partitions_per_node(),
        forall|k: int| 0 <= k < assigned(count, index).len() ==> {
            let p = #[trigger] assigned(count, index)[k];
            0 <= p < partitions_per_node() * count && p % count == index
        },
        forall|p: int| 0 <= p < partitions_per_node() * count && p % count == index ==> assigned(count, index).contains(p),
{
    lemma_assigned_upto_len(count, index, 8);
    assert(8 * count == partitions_per_node() * count);
    lemma_assigned_upto_members(count, index, partitions_per_node() * count);
}

/// The summary of the partition table: at least one partition and one node.
pub fn partitions_summary(assignments: usize, active_nodes: usize) -> (r: (i32, i32))
    requires
        assignments <= i32::MAX,
        active_nodes <= i32::MAX,
    ensures
        r.0 == spread_count(assignments as int),
        r.1 == spread_count(active_nodes as int),
{
    let t: i32 = if assignments < 1 { 1 } else { assignments as i32 };
    let n: i32 = if active_nodes < 1 { 1 } else { active_nodes as i32 };
    (t, n)
}

/// The not-found answer for a node id.
pub fn node_not_found(node_id: &str) -> (e: ApiError)
    ensures
        e matches ApiError::NotFound(m) && m@ == "Cluster node '"@ + node_id@ + "' not found"@,
{
    let a = concat_str("Cluster node '", node_id);
    ApiError::NotFound(concat_str(a.as_str(), "' not found"))
}

/// What the cluster knows of its leader.
pub struct ClusterLeaderInfo {
    pub leader_node_id: Option<String>,
    pub host: Option<String>,
    pub grpc_port: Option<i32>,
    pub leader_epoch: i64,
    pub is_local: bool,
}

/// The leader as seen from the local node: whether it is the local node; with no
/// leader, an empty record.
pub fn leader_view(leader: Option<ClusterLeaderInfo>, local_id: &str) -> (r: ClusterLeaderInfo)
    ensures
        leader matches Some(l) ==> {
            &&& r.leader_node_id == l.leader_node_id && r.host == l.host
            &&& r.grpc_port == l.grpc_port && r.leader_epoch == l.leader_epoch
            &&& r.is_local == (match l.leader_node_id { Some(x) => x@ == local_id@, None => false })
        },
        leader is None ==> r.leader_node_id is None && r.host is None && r.grpc_port is None
            && r.leader_epoch == 0 && !r.is_local,
{
    match leader {
        Some(l) => {
            let local = match &l.leader_node_id {
                Some(x) => str_eq(x.as_str(), local_id),
                None => false,
            };
            ClusterLeaderInfo {
                leader_node_id: l.leader_node_id,
                host: l.host,
                grpc_port: l.grpc_port,
                leader_epoch: l.leader_epoch,
                is_local: local,
            }
        },
        None => ClusterLeaderInfo {
            leader_node_id: None,
            host: None,
            grpc_port: None,
            leader_epoch: 0,
            is_local: false,
        },
    }
}

} // verus!
