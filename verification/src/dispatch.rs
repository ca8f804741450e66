//! The event-dispatch discipline shared by the focus-scope (keyboard)
//! and mouse-area (pointer) capabilities.
//!
//! An event enters at the root and is first forwarded along the chain of
//! focused children down to the deepest focused leaf; on the way back up
//! each node whose subtree did not consume the event gets exactly one
//! attempt with its own handler, and dispatch stops at the first
//! consumer. The chain of a dispatch is abstracted here as the sequence
//! of "own handler consumes the event" bits along the focus path, root
//! first, deepest focused leaf last. The concrete `submit` methods of
//! the user-interface nodes each implement one step of this scheme.

use vstd::prelude::*;

verus! {

/// Whether dispatch into the subtree rooted at `depth` reports the event
/// handled: the focused child's subtree consumes it, or, failing that,
/// the node's own handler does.
pub open spec fn subtree_handled(chain: Seq<bool>, depth: int) -> bool
    decreases chain.len() - depth,
{
    if depth < 0 || depth >= chain.len() {
        false
    } else {
        subtree_handled(chain, depth + 1) || chain[depth]
    }
}

/// Whether the own handler of the node at `depth` runs at all: it is
/// attempted exactly when no deeper node consumed the event.
pub open spec fn handler_attempted(chain: Seq<bool>, depth: int) -> bool {
    !subtree_handled(chain, depth + 1)
}

/// A subtree reports the event handled exactly when some node in it
/// would consume the event.
pub proof fn lemma_subtree_handled_iff_consumer(chain: Seq<bool>, depth: int)
    requires
        0 <= depth <= chain.len(),
    ensures
        subtree_handled(chain, depth) <==> exists|j: int|
            depth <= j < chain.len() && chain[j],
    decreases chain.len() - depth,
{
    if depth < chain.len() {
        lemma_subtree_handled_iff_consumer(chain, depth + 1);
        if chain[depth] {
            assert(depth <= depth < chain.len() && chain[depth]);
        }
    }
}

/// If the deepest focused leaf's own handler consumes the event, no
/// ancestor's own handler runs.
pub proof fn lemma_deepest_consumer_blocks_ancestors(chain: Seq<bool>)
    requires
        chain.len() > 0,
        chain.last(),
    ensures
        forall|depth: int| 0 <= depth < chain.len() - 1 ==> !handler_attempted(chain, depth),
        subtree_handled(chain, 0),
{
    assert forall|depth: int| 0 <= depth < chain.len() - 1 implies !handler_attempted(
        chain,
        depth,
    ) by {
        lemma_subtree_handled_iff_consumer(chain, depth + 1);
        assert(depth + 1 <= chain.len() - 1 < chain.len() && chain[chain.len() - 1]);
    }
    lemma_subtree_handled_iff_consumer(chain, 0);
    assert(0 <= chain.len() - 1 < chain.len() && chain[chain.len() - 1]);
}

/// If the deepest consumer sits at depth `k`, then exactly the nodes from
/// the leaf up to and including `k` attempt the event, dispatch stops at
/// `k`, and the event is reported handled.
pub proof fn lemma_bubble_up_stops_at_first_consumer(chain: Seq<bool>, k: int)
    requires
        0 <= k < chain.len(),
        chain[k],
        forall|j: int| k < j < chain.len() ==> !chain[j],
    ensures
        forall|depth: int| 0 <= depth < chain.len() ==> (handler_attempted(chain, depth) <==> k
            <= depth),
        subtree_handled(chain, 0),
{
    assert forall|depth: int| 0 <= depth < chain.len() implies (handler_attempted(chain, depth)
        <==> k <= depth) by {
        lemma_subtree_handled_iff_consumer(chain, depth + 1);
        if depth < k {
            assert(depth + 1 <= k < chain.len() && chain[k]);
        }
    }
    lemma_subtree_handled_iff_consumer(chain, 0);
    assert(0 <= k < chain.len() && chain[k]);
}

/// Below a prepended root, dispatch depths shift by one.
pub proof fn lemma_subtree_handled_shift(head: bool, rest: Seq<bool>, depth: int)
    requires
        0 <= depth <= rest.len(),
    ensures
        subtree_handled(seq![head] + rest, depth + 1) == subtree_handled(rest, depth),
    decreases rest.len() - depth,
{
    let chain = seq![head] + rest;
    if depth < rest.len() {
        lemma_subtree_handled_shift(head, rest, depth + 1);
        assert(chain[depth + 1] == rest[depth]);
    }
}

/// Dispatch at a node reports the event handled when its focused
/// child's subtree consumes it or, failing that, its own handler does.
pub proof fn lemma_subtree_handled_cons(head: bool, rest: Seq<bool>)
    ensures
        subtree_handled(seq![head] + rest, 0) == (subtree_handled(rest, 0) || head),
{
    lemma_subtree_handled_shift(head, rest, 0);
    assert((seq![head] + rest)[0] == head);
}

/// A chain of one node is handled exactly by that node's own handler.
pub proof fn lemma_subtree_handled_single(own: bool)
    ensures
        subtree_handled(seq![own], 0) == own,
{
    assert(subtree_handled(seq![own], 1) == false);
}

/// If no node's own handler consumes the event, every node along the
/// chain attempts it once and dispatch reports it unhandled.
pub proof fn lemma_all_miss(chain: Seq<bool>)
    requires
        forall|j: int| 0 <= j < chain.len() ==> !chain[j],
    ensures
        forall|depth: int| 0 <= depth < chain.len() ==> handler_attempted(chain, depth),
        !subtree_handled(chain, 0),
{
    assert forall|depth: int| 0 <= depth < chain.len() implies handler_attempted(chain, depth) by {
        lemma_subtree_handled_iff_consumer(chain, depth + 1);
    }
    lemma_subtree_handled_iff_consumer(chain, 0);
}

} // verus!
