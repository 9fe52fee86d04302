//! The relay's registry of fleet nodes: a pulse replaces known nodes by id and adds new ones.
use vstd::prelude::*;

use crate::fleet_types::FleetNode;

verus! {

/// The index of the first node in `nodes` whose id is `id`, if there is one.
pub open spec fn position_of(nodes: Seq<FleetNode>, id: Seq<char>) -> Option<int>
    decreases nodes.len(),
{
    if nodes.len() == 0 {
        None
    } else {
        match position_of(nodes.drop_last(), id) {
            Some(i) => Some(i),
            None => if nodes.last().id@ == id {
                Some(nodes.len() - 1)
            } else {
                None
            },
        }
    }
}

/// The node that a lookup by `id` finds: the first one with that id.
pub open spec fn lookup(nodes: Seq<FleetNode>, id: Seq<char>) -> Option<FleetNode> {
    match position_of(nodes, id) {
        Some(i) => Some(nodes[i]),
        None => None,
    }
}

/// `nodes` after `node` is recorded: it replaces the first node with its id, or is appended.
pub open spec fn upserted(nodes: Seq<FleetNode>, node: FleetNode) -> Seq<FleetNode> {
    match position_of(nodes, node.id@) {
        Some(i) => nodes.update(i, node),
        None => nodes.push(node),
    }
}

/// `nodes` after each node of `batch` is recorded in turn.
pub open spec fn merged(nodes: Seq<FleetNode>, batch: Seq<FleetNode>) -> Seq<FleetNode>
    decreases batch.len(),
{
    if batch.len() == 0 {
        nodes
    } else {
        upserted(merged(nodes, batch.drop_last()), batch.last())
    }
}

/// The last node of `batch` with id `id`, if there is one.
pub open spec fn last_with_id(batch: Seq<FleetNode>, id: Seq<char>) -> Option<FleetNode>
    decreases batch.len(),
{
    if batch.len() == 0 {
        None
    } else if batch.last().id@ == id {
        Some(batch.last())
    } else {
        last_with_id(batch.drop_last(), id)
    }
}

/// No two nodes share an id.
pub open spec fn ids_unique(nodes: Seq<FleetNode>) -> bool {
    forall|i: int, j: int|
        0 <= i < j < nodes.len() ==> (#[trigger] nodes[i]).id@ != (#[trigger] nodes[j]).id@
}

/// What `position_of` finds: the first node with the id, or no node with the id at all.
pub proof fn position_of_facts(nodes: Seq<FleetNode>, id: Seq<char>)
    ensures
        match position_of(nodes, id) {
            Some(i) => {
                &&& 0 <= i < nodes.len()
                &&& nodes[i].id@ == id
                &&& forall|j: int| 0 <= j < i ==> (#[trigger] nodes[j]).id@ != id
            },
            None => forall|j: int| 0 <= j < nodes.len() ==> (#[trigger] nodes[j]).id@ != id,
        },
    decreases nodes.len(),
{
    if nodes.len() > 0 {
        let init = nodes.drop_last();
        position_of_facts(init, id);
        match position_of(init, id) {
            Some(i) => {
                assert forall|j: int| 0 <= j < i implies (#[trigger] nodes[j]).id@ != id by {
                    assert(nodes[j] == init[j]);
                }
            },
            None => {
                assert forall|j: int| 0 <= j < nodes.len() - 1 implies (#[trigger] nodes[j]).id@
                    != id by {
                    assert(nodes[j] == init[j]);
                }
            },
        }
    }
}

/// Two sequences of nodes with the same ids, slot by slot, give the same positions.
proof fn position_of_same_ids(a: Seq<FleetNode>, b: Seq<FleetNode>, id: Seq<char>)
    requires
        a.len() == b.len(),
        forall|i: int| 0 <= i < a.len() ==> (#[trigger] a[i]).id@ == b[i].id@,
    ensures
        position_of(a, id) == position_of(b, id),
    decreases a.len(),
{
    if a.len() > 0 {
        assert forall|i: int| 0 <= i < a.drop_last().len() implies (#[trigger] a.drop_last()[i]).id@
            == b.drop_last()[i].id@ by {
            assert(a.drop_last()[i] == a[i]);
            assert(b.drop_last()[i] == b[i]);
        }
        position_of_same_ids(a.drop_last(), b.drop_last(), id);
    }
}

/// A position found in a prefix is the position in the whole sequence.
proof fn position_of_prefix(nodes: Seq<FleetNode>, k: int, id: Seq<char>)
    requires
        0 <= k <= nodes.len(),
        position_of(nodes.take(k), id) is Some,
    ensures
        position_of(nodes, id) == position_of(nodes.take(k), id),
    decreases nodes.len(),
{
    if k == nodes.len() {
        assert(nodes.take(k) =~= nodes);
    } else {
        assert(nodes.drop_last().take(k) =~= nodes.take(k));
        position_of_prefix(nodes.drop_last(), k, id);
    }
}

/// Find the index of the first node whose id is `id`.
pub fn node_position(nodes: &[FleetNode], id: &String) -> (pos: Option<usize>)
    ensures
        match pos {
            Some(i) => position_of(nodes@, id@) == Some(i as int),
            None => position_of(nodes@, id@) is None,
        },
{
    let mut i: usize = 0;
    while i < nodes.len()
        invariant
            i <= nodes@.len(),
            position_of(nodes@.take(i as int), id@) is None,
        decreases nodes@.len() - i,
    {
        assert(nodes@.take(i + 1).drop_last() =~= nodes@.take(i as int));
        assert(nodes@.take(i + 1).last() == nodes@[i as int]);
        if nodes[i].id == *id {
            proof {
                position_of_prefix(nodes@, i + 1, id@);
            }
            return Some(i);
        }
        i = i + 1;
    }
    assert(nodes@.take(i as int) =~= nodes@);
    None
}

/// Record one node: replace the first node with the same id, or append it when its id is new.
pub fn upsert_node(nodes: &mut Vec<FleetNode>, node: FleetNode)
    ensures
        final(nodes)@ == upserted(old(nodes)@, node),
{
    proof {
        position_of_facts(nodes@, node.id@);
    }
    match node_position(nodes.as_slice(), &node.id) {
        Some(i) => {
            nodes.set(i, node);
        },
        None => {
            nodes.push(node);
        },
    }
}

/// Record a batch of node updates in order: known nodes are replaced by id, new ones added.
pub fn merge_nodes(nodes: &mut Vec<FleetNode>, batch: Vec<FleetNode>)
    ensures
        final(nodes)@ == merged(old(nodes)@, batch@),
{
    let ghost start = nodes@;
    let ghost all = batch@;
    let mut rest = batch;
    let ghost mut k: int = 0;
    while rest.len() > 0
        invariant
            0 <= k <= all.len(),
            rest@ == all.skip(k),
            nodes@ == merged(start, all.take(k)),
        decreases rest@.len(),
    {
        let node = rest.remove(0);
        proof {
            assert(node == all[k]);
            assert(all.take(k + 1).drop_last() =~= all.take(k));
            assert(rest@ =~= all.skip(k + 1));
        }
        upsert_node(nodes, node);
        proof {
            k = k + 1;
        }
    }
    assert(all.take(k) =~= all);
}

/// Read after write: once `node` is recorded, a lookup of its id finds exactly `node`, and a
/// lookup of any other id finds what it found before.
pub proof fn lookup_after_upsert(nodes: Seq<FleetNode>, node: FleetNode, id: Seq<char>)
    ensures
        lookup(upserted(nodes, node), node.id@) == Some(node),
        id != node.id@ ==> lookup(upserted(nodes, node), id) == lookup(nodes, id),
{
    let after = upserted(nodes, node);
    position_of_facts(nodes, node.id@);
    position_of_facts(nodes, id);
    match position_of(nodes, node.id@) {
        Some(i) => {
            assert forall|j: int| 0 <= j < nodes.len() implies (#[trigger] nodes[j]).id@
                == after[j].id@ by {}
            position_of_same_ids(nodes, after, node.id@);
            position_of_same_ids(nodes, after, id);
        },
        None => {
            assert(after.drop_last() =~= nodes);
        },
    }
}

/// After a batch is recorded, a lookup of an id that the batch carries finds the last node
/// the batch gave for it; a lookup of any other id finds what it found before.
pub proof fn lookup_after_merge(nodes: Seq<FleetNode>, batch: Seq<FleetNode>, id: Seq<char>)
    ensures
        lookup(merged(nodes, batch), id) == match last_with_id(batch, id) {
            Some(n) => Some(n),
            None => lookup(nodes, id),
        },
    decreases batch.len(),
{
    if batch.len() > 0 {
        lookup_after_merge(nodes, batch.drop_last(), id);
        lookup_after_upsert(merged(nodes, batch.drop_last()), batch.last(), id);
    }
}

/// Recording a node keeps ids unique, and never moves or renames the nodes already there.
pub proof fn upsert_keeps_registry(nodes: Seq<FleetNode>, node: FleetNode)
    ensures
        upserted(nodes, node).len() >= nodes.len(),
        forall|i: int| 0 <= i < nodes.len() ==> (#[trigger] upserted(nodes, node)[i]).id@
            == nodes[i].id@,
        ids_unique(nodes) ==> ids_unique(upserted(nodes, node)),
{
    let after = upserted(nodes, node);
    position_of_facts(nodes, node.id@);
    if ids_unique(nodes) {
        assert forall|i: int, j: int| 0 <= i < j < after.len() implies (#[trigger] after[i]).id@
            != (#[trigger] after[j]).id@ by {
            if j == nodes.len() {
                assert(after[i] == nodes[i]);
            } else {
                assert(after[i].id@ == nodes[i].id@);
                assert(after[j].id@ == nodes[j].id@);
            }
        }
    }
}

/// Recording a batch keeps ids unique, and never moves or renames the nodes already there.
pub proof fn merge_keeps_registry(nodes: Seq<FleetNode>, batch: Seq<FleetNode>)
    ensures
        merged(nodes, batch).len() >= nodes.len(),
        forall|i: int| 0 <= i < nodes.len() ==> (#[trigger] merged(nodes, batch)[i]).id@
            == nodes[i].id@,
        ids_unique(nodes) ==> ids_unique(merged(nodes, batch)),
    decreases batch.len(),
{
    if batch.len() > 0 {
        let mid = merged(nodes, batch.drop_last());
        merge_keeps_registry(nodes, batch.drop_last());
        upsert_keeps_registry(mid, batch.last());
        assert forall|i: int| 0 <= i < nodes.len() implies (#[trigger] merged(nodes, batch)[i]).id@
            == nodes[i].id@ by {
            assert(mid[i].id@ == nodes[i].id@);
        }
    }
}

} // verus!
