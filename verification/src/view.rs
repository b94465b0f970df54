//! Decisions of the display fragments: indicator strings, badge classes,
//! and the keyed render plan for the recent-thoughts feed.
//!
//! Fragments are pure functions of the store values they read; the only
//! stateful piece is [`ThoughtFeed`], which keeps one render node per
//! thought `id` so that an item present across two snapshots keeps its node
//! instead of being recreated.

use vstd::prelude::*;

use crate::metrics::ThoughtSummary;

verus! {

/// The connectivity indicator's text.
pub fn status_text(connected: bool) -> (r: &'static str)
    ensures
        connected ==> r@ == "Connected"@,
        !connected ==> r@ == "Disconnected"@,
{
    if connected {
        "Connected"
    } else {
        "Disconnected"
    }
}

/// The connectivity indicator's style class.
pub fn status_class(connected: bool) -> (r: &'static str)
    ensures
        connected ==> r@ == "status"@,
        !connected ==> r@ == "status error"@,
{
    if connected {
        "status"
    } else {
        "status error"
    }
}

/// The style class of an actor badge: marked dead when the actor is not
/// alive.
pub fn actor_class(alive: bool) -> (r: &'static str)
    ensures
        alive ==> r@ == "actor"@,
        !alive ==> r@ == "actor dead"@,
{
    if alive {
        "actor"
    } else {
        "actor dead"
    }
}

/// The render node held for one thought `id`.
pub struct ThoughtNode {
    /// The thought's unique identity.
    pub id: String,
    /// Opaque identity of the render node bound to this `id`.
    pub node: u64,
}

/// Pairwise-distinct ids in a delivered thought list.
pub open spec fn thought_ids_unique(ts: Seq<ThoughtSummary>) -> bool {
    forall|i: int, j: int| 0 <= i < j < ts.len() ==> ts[i].id@ != ts[j].id@
}

/// The keyed mapping from thought `id` to render node, reused across
/// updates so that re-rendering never recreates a surviving item's node.
pub struct ThoughtFeed {
    nodes: Vec<ThoughtNode>,
    next_node: u64,
}

impl ThoughtFeed {
    /// The nodes currently rendered, in display order.
    pub closed spec fn spec_nodes(self) -> Seq<ThoughtNode> {
        self.nodes@
    }

    /// The identity the next freshly created render node will get; every
    /// node handed out so far lies below it.
    pub closed spec fn spec_next_node(self) -> u64 {
        self.next_node
    }

    /// Well-formedness: ids are unique, node identities are pairwise
    /// distinct and all below the next fresh identity.
    pub open spec fn wf(self) -> bool {
        &&& forall|i: int, j: int|
            0 <= i < j < self.spec_nodes().len() ==> self.spec_nodes()[i].id@
                != self.spec_nodes()[j].id@
        &&& forall|i: int, j: int|
            0 <= i < j < self.spec_nodes().len() ==> self.spec_nodes()[i].node
                != self.spec_nodes()[j].node
        &&& forall|i: int|
            0 <= i < self.spec_nodes().len() ==> self.spec_nodes()[i].node
                < self.spec_next_node()
    }

    /// An empty feed.
    pub fn new() -> (f: Self)
        ensures
            f.wf(),
            f.spec_nodes().len() == 0,
            f.spec_next_node() == 0,
    {
        ThoughtFeed { nodes: Vec::new(), next_node: 0 }
    }

    /// Read access to the rendered nodes.
    pub fn nodes(&self) -> (r: &Vec<ThoughtNode>)
        ensures
            r@ == self.spec_nodes(),
    {
        &self.nodes
    }

    fn find_node(nodes: &Vec<ThoughtNode>, id: &String) -> (r: Option<u64>)
        ensures
            match r {
                Some(n) => exists|j: int|
                    0 <= j < nodes@.len() && nodes@[j].id@ == id@ && nodes@[j].node == n,
                None => forall|j: int| 0 <= j < nodes@.len() ==> nodes@[j].id@ != id@,
            },
    {
        let mut j: usize = 0;
        while j < nodes.len()
            invariant
                j <= nodes@.len(),
                forall|k: int| 0 <= k < j ==> nodes@[k].id@ != id@,
            decreases nodes@.len() - j,
        {
            if nodes[j].id == *id {
                return Some(nodes[j].node);
            }
            j = j + 1;
        }
        None
    }

    /// Rebuilds the feed for a newly delivered thought list, in delivered
    /// order. An `id` already rendered keeps its render node — the item is
    /// updated, never recreated — and an `id` not seen in the previous list
    /// gets a fresh node, distinct from every node handed out before.
    pub fn update(&mut self, thoughts: &Vec<ThoughtSummary>)
        requires
            old(self).wf(),
            thought_ids_unique(thoughts@),
            old(self).spec_next_node() + thoughts@.len() <= u64::MAX,
        ensures
            final(self).wf(),
            final(self).spec_nodes().len() == thoughts@.len(),
            forall|i: int|
                0 <= i < thoughts@.len() ==> final(self).spec_nodes()[i].id@
                    == thoughts@[i].id@,
            forall|i: int, j: int|
                0 <= i < thoughts@.len() && 0 <= j < old(self).spec_nodes().len() && old(
                    self,
                ).spec_nodes()[j].id@ == thoughts@[i].id@ ==> final(self).spec_nodes()[i].node
                    == old(self).spec_nodes()[j].node,
            forall|i: int|
                0 <= i < thoughts@.len() && (forall|j: int|
                    0 <= j < old(self).spec_nodes().len() ==> old(self).spec_nodes()[j].id@
                        != thoughts@[i].id@) ==> final(self).spec_nodes()[i].node >= old(
                    self,
                ).spec_next_node(),
    {
        let ghost old_nodes = self.nodes@;
        let ghost old_next = self.next_node;
        let mut new_nodes: Vec<ThoughtNode> = Vec::new();
        let mut k: usize = 0;
        while k < thoughts.len()
            invariant
                k <= thoughts@.len(),
                thought_ids_unique(thoughts@),
                self.nodes@ == old_nodes,
                old_next + thoughts@.len() <= u64::MAX,
                // old-feed well-formedness, restated over the saved state
                forall|i: int, j: int|
                    0 <= i < j < old_nodes.len() ==> old_nodes[i].id@ != old_nodes[j].id@,
                forall|i: int, j: int|
                    0 <= i < j < old_nodes.len() ==> old_nodes[i].node != old_nodes[j].node,
                forall|i: int| 0 <= i < old_nodes.len() ==> old_nodes[i].node < old_next,
                old_next <= self.next_node,
                self.next_node <= old_next + k,
                new_nodes@.len() == k,
                forall|i: int| 0 <= i < k ==> new_nodes@[i].id@ == thoughts@[i].id@,
                forall|i: int, j: int|
                    0 <= i < k && 0 <= j < old_nodes.len() && old_nodes[j].id@
                        == thoughts@[i].id@ ==> new_nodes@[i].node == old_nodes[j].node,
                forall|i: int|
                    0 <= i < k && (forall|j: int|
                        0 <= j < old_nodes.len() ==> old_nodes[j].id@ != thoughts@[i].id@)
                        ==> new_nodes@[i].node >= old_next,
                forall|i: int| 0 <= i < k ==> new_nodes@[i].node < self.next_node,
                forall|i: int, j: int|
                    0 <= i < j < k ==> new_nodes@[i].node != new_nodes@[j].node,
            decreases thoughts@.len() - k,
        {
            let t = &thoughts[k];
            match Self::find_node(&self.nodes, &t.id) {
                Some(n) => {
                    new_nodes.push(ThoughtNode { id: t.id.clone(), node: n });
                    proof {
                        let j0 = choose|j: int|
                            0 <= j < old_nodes.len() && old_nodes[j].id@ == t.id@
                                && old_nodes[j].node == n;
                        assert forall|i: int, j: int|
                            0 <= i < k + 1 && 0 <= j < old_nodes.len() && old_nodes[j].id@
                                == thoughts@[i].id@ implies new_nodes@[i].node
                            == old_nodes[j].node by {
                            if i == k {
                                assert(old_nodes[j].id@ == old_nodes[j0].id@);
                                if j != j0 {
                                    assert(old_nodes[j].id@ != old_nodes[j0].id@);
                                }
                            }
                        }
                        assert forall|i: int, j: int| 0 <= i < j < k + 1 implies new_nodes@[i].node
                            != new_nodes@[j].node by {
                            if j == k {
                                if exists|j2: int|
                                    0 <= j2 < old_nodes.len() && old_nodes[j2].id@
                                        == thoughts@[i].id@ {
                                    let j2 = choose|j2: int|
                                        0 <= j2 < old_nodes.len() && old_nodes[j2].id@
                                            == thoughts@[i].id@;
                                    assert(new_nodes@[i].node == old_nodes[j2].node);
                                    assert(thoughts@[i].id@ != thoughts@[k as int].id@);
                                    if j2 != j0 {
                                        assert(old_nodes[j2].id@ != old_nodes[j0].id@);
                                    }
                                } else {
                                    assert(new_nodes@[i].node >= old_next);
                                }
                            }
                        }
                    }
                },
                None => {
                    let n = self.next_node;
                    self.next_node = self.next_node + 1;
                    new_nodes.push(ThoughtNode { id: t.id.clone(), node: n });
                },
            }
            k = k + 1;
        }
        self.nodes = new_nodes;
    }
}

} // verus!
