use crate::config::{DeviceConfig, DeviceTree};
use vstd::prelude::*;

verus! {

/// Number of devices in the tree.
pub open spec fn node_count(t: DeviceTree) -> nat
    decreases t, 1nat,
{
    1 + forest_count(t.children)
}

/// Number of devices in a sequence of trees.
pub open spec fn forest_count(ts: Seq<DeviceTree>) -> nat
    decreases ts, 0nat,
{
    if ts.len() == 0 {
        0
    } else {
        forest_count(ts.drop_last()) + node_count(ts.last())
    }
}

/// The device ids of the tree in pre-order: a device, then the subtrees of
/// its children from first to last.
pub open spec fn flatten(t: DeviceTree) -> Seq<Seq<char>>
    decreases t, 1nat,
{
    seq![t.id] + flatten_forest(t.children)
}

/// The pre-order ids of a sequence of trees, one tree after the other.
pub open spec fn flatten_forest(ts: Seq<DeviceTree>) -> Seq<Seq<char>>
    decreases ts, 0nat,
{
    if ts.len() == 0 {
        Seq::empty()
    } else {
        flatten_forest(ts.drop_last()) + flatten(ts.last())
    }
}

/// The parent-child pairs of the tree in pre-order: the pair of a child
/// comes right before the pairs inside that child's subtree.
pub open spec fn edges(t: DeviceTree) -> Seq<(Seq<char>, Seq<char>)>
    decreases t, 1nat,
{
    child_edges(t.id, t.children)
}

/// The pairs that link `parent` to each tree of `ts`, each followed by the
/// pairs inside that tree.
pub open spec fn child_edges(parent: Seq<char>, ts: Seq<DeviceTree>) -> Seq<(Seq<char>, Seq<char>)>
    decreases ts, 0nat,
{
    if ts.len() == 0 {
        Seq::empty()
    } else {
        child_edges(parent, ts.drop_last()) + seq![(parent, ts.last().id)] + edges(ts.last())
    }
}

/// Some entry of `nodes` before position `upto` is `id`.
pub open spec fn occurs_before(nodes: Seq<Seq<char>>, upto: int, id: Seq<char>) -> bool {
    exists|i: int| 0 <= i < upto && i < nodes.len() && #[trigger] nodes[i] == id
}

/// The pre-order list has one entry per device, the first of them the root.
pub proof fn lemma_flatten_len(t: DeviceTree)
    ensures
        flatten(t).len() == node_count(t),
        flatten(t)[0] == t.id,
    decreases t, 1nat,
{
    lemma_flatten_forest_len(t.children);
}

/// The pre-order list of a sequence of trees has one entry per device.
pub proof fn lemma_flatten_forest_len(ts: Seq<DeviceTree>)
    ensures
        flatten_forest(ts).len() == forest_count(ts),
    decreases ts, 0nat,
{
    if ts.len() > 0 {
        lemma_flatten_forest_len(ts.drop_last());
        lemma_flatten_len(ts.last());
    }
}

/// A tree has one parent-child pair less than it has devices.
pub proof fn lemma_edges_len(t: DeviceTree)
    ensures
        edges(t).len() == node_count(t) - 1,
    decreases t, 1nat,
{
    lemma_child_edges_len(t.id, t.children);
}

/// Below one parent there is one pair per device.
pub proof fn lemma_child_edges_len(parent: Seq<char>, ts: Seq<DeviceTree>)
    ensures
        child_edges(parent, ts).len() == forest_count(ts),
    decreases ts, 0nat,
{
    if ts.len() > 0 {
        lemma_child_edges_len(parent, ts.drop_last());
        lemma_edges_len(ts.last());
    }
}

/// Below one parent, the child of the pair at position `k` is the device at
/// position `k` of the pre-order list, and the pair's parent is either the
/// given parent or a device listed before position `k`.
pub proof fn lemma_child_edges_order(parent: Seq<char>, ts: Seq<DeviceTree>, k: int)
    requires
        0 <= k < child_edges(parent, ts).len(),
    ensures
        k < flatten_forest(ts).len(),
        child_edges(parent, ts)[k].1 == flatten_forest(ts)[k],
        child_edges(parent, ts)[k].0 == parent || occurs_before(
            flatten_forest(ts),
            k,
            child_edges(parent, ts)[k].0,
        ),
    decreases ts, 0nat,
{
    lemma_child_edges_len(parent, ts);
    lemma_flatten_forest_len(ts);
    let init = ts.drop_last();
    let last = ts.last();
    lemma_child_edges_len(parent, init);
    lemma_flatten_forest_len(init);
    lemma_flatten_len(last);
    lemma_edges_len(last);
    let n = child_edges(parent, init).len() as int;
    let nodes = flatten_forest(ts);
    let pairs = child_edges(parent, ts);
    assert(nodes == flatten_forest(init) + flatten(last));
    assert(pairs == child_edges(parent, init) + seq![(parent, last.id)] + edges(last));
    if k < n {
        lemma_child_edges_order(parent, init, k);
        let p = pairs[k].0;
        if p != parent {
            let i = choose|i: int|
                0 <= i < k && i < flatten_forest(init).len() && #[trigger] flatten_forest(init)[i]
                    == p;
            assert(nodes[i] == p);
        }
    } else if k == n {
        assert(pairs[k] == (parent, last.id));
    } else {
        let j = k - n - 1;
        assert(pairs[k] == edges(last)[j]);
        assert(edges(last) == child_edges(last.id, last.children));
        lemma_child_edges_order(last.id, last.children, j);
        assert(flatten(last) == seq![last.id] + flatten_forest(last.children));
        assert(nodes[k] == flatten(last)[j + 1]);
        let p = pairs[k].0;
        if p == last.id {
            assert(nodes[n] == p);
        } else {
            let i = choose|i: int|
                0 <= i < j && i < flatten_forest(last.children).len()
                    && #[trigger] flatten_forest(last.children)[i] == p;
            assert(nodes[n + 1 + i] == p);
        }
    }
}

/// Walking a tree covers it: the pre-order list has one entry per device
/// and starts with the root; there is one parent-child pair less than there
/// are devices; the child of the pair at position `k` is the device at
/// position `k + 1` of the list, and the pair's parent is listed at or before
/// position `k`, so before its child.
pub proof fn lemma_walk_covers_tree(t: DeviceTree)
    ensures
        flatten(t).len() == node_count(t),
        flatten(t)[0] == t.id,
        edges(t).len() == node_count(t) - 1,
        forall|k: int|
            0 <= k < edges(t).len() ==> (#[trigger] edges(t)[k]).1 == flatten(t)[k + 1],
        forall|k: int|
            0 <= k < edges(t).len() ==> occurs_before(flatten(t), k + 1, (#[trigger] edges(t)[k]).0),
{
    lemma_flatten_len(t);
    lemma_edges_len(t);
    let nodes = flatten(t);
    let below = flatten_forest(t.children);
    assert(nodes == seq![t.id] + below);
    assert forall|k: int| 0 <= k < edges(t).len() implies (#[trigger] edges(t)[k]).1 == nodes[k + 1]
        && occurs_before(nodes, k + 1, edges(t)[k].0) by {
        lemma_child_edges_order(t.id, t.children, k);
        let p = edges(t)[k].0;
        if p == t.id {
            assert(nodes[0] == p);
        } else {
            let i = choose|i: int|
                0 <= i < k && i < below.len() && #[trigger] below[i] == p;
            assert(nodes[i + 1] == p);
        }
    }
}

/// The ids of all devices of the tree, the device itself first and every
/// subtree in configuration order.
pub fn flatten_devices<'a>(device: &'a DeviceConfig) -> (result: Vec<&'a str>)
    ensures
        result.deep_view() == flatten(device@),
    decreases device,
{
    proof {
        device.lemma_view();
    }
    let mut result: Vec<&str> = Vec::new();
    result.push(device.device_id.as_str());
    assert(result.deep_view() =~= seq![device@.id]);
    let mut i: usize = 0;
    while i < device.children.len()
        invariant
            i <= device.children.len(),
            device@.children.len() == device.children@.len(),
            forall|k: int|
                0 <= k < device.children@.len() ==> #[trigger] device@.children[k]
                    == device.children@[k]@,
            result.deep_view() == seq![device@.id] + flatten_forest(device@.children.take(i as int)),
        decreases device.children.len() - i,
    {
        let ghost before = result.deep_view();
        let mut sub = flatten_devices(&device.children[i]);
        let ghost sub_ids = sub.deep_view();
        result.append(&mut sub);
        proof {
            let done = device@.children.take(i as int);
            let next = device@.children.take(i + 1);
            assert(next.drop_last() =~= done);
            assert(next.last() == device.children@[i as int]@);
            assert(result.deep_view() =~= before + sub_ids);
        }
        i += 1;
    }
    assert(device@.children.take(i as int) =~= device@.children);
    result
}

} // verus!
