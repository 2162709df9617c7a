use vstd::prelude::*;
use crate::commands::{spawn_count, spawns_numbered, Command, Commands};
use crate::entity::{component_map, lemma_component_map_concat, Component, Entity, Observer, ObserverScope};
use crate::world::{apply_command, exists_in, flush, fresh_node, NodeView};

verus! {

/// Flushing a queue made for `w` creates exactly one entity per spawn.
pub proof fn lemma_flush_len(w: Seq<NodeView>, q: Seq<Command>, base: nat)
    requires
        w.len() == base,
        spawns_numbered(q, base),
    ensures
        flush(w, q).len() == base + spawn_count(q),
    decreases q.len(),
{
    if q.len() > 0 {
        lemma_flush_len(w, q.drop_last(), base);
    }
}

/// Flushing one more command applies it to the graph the others left.
pub proof fn lemma_flush_push(w: Seq<NodeView>, q: Seq<Command>, c: Command)
    ensures
        flush(w, q.push(c)) == apply_command(flush(w, q), c),
{
    assert(q.push(c).drop_last() =~= q);
}

/// Spawning from the root through a builder on the queue `q` adds, once `q`
/// is flushed into the graph it was made for, exactly one entity: the one at the returned handle, holding
/// exactly the spawned components and nothing else.
pub proof fn lemma_root_spawn(w: Seq<NodeView>, q: Commands, bundle: Vec<Component>)
    requires
        q.wf(),
        q.base == w.len(),
    ensures
        ({
            let e = Entity { index: q.next };
            let before = flush(w, q@);
            let after = flush(w, q@.push(Command::Spawn { entity: e, bundle }));
            &&& e.index == before.len()
            &&& after == before.push(fresh_node(bundle@))
            &&& component_map(after[e.index as int].components) == component_map(bundle@)
        }),
{
    let e = Entity { index: q.next };
    lemma_flush_len(w, q@, w.len());
    lemma_flush_push(w, q@, Command::Spawn { entity: e, bundle });
}

/// Spawning from a builder bound to an entity `h` of the graph, on the queue
/// `q`, adds, once flushed, exactly one
/// entity, which holds the spawned components and is a child of `h`; the
/// creation and the parent link are applied together.
pub proof fn lemma_child_spawn(w: Seq<NodeView>, q: Commands, h: Entity, bundle: Vec<Component>)
    requires
        q.wf(),
        q.base == w.len(),
        exists_in(flush(w, q@), h),
    ensures
        ({
            let child = Entity { index: q.next };
            let before = flush(w, q@);
            let after = flush(
                w,
                q@.push(Command::Spawn { entity: child, bundle }).push(
                    Command::AddChild { parent: h, child },
                ),
            );
            &&& child.index == before.len()
            &&& after == before.push(NodeView { parent: Some(h), ..fresh_node(bundle@) })
        }),
{
    let child = Entity { index: q.next };
    let q = q@;
    let spawn = Command::Spawn { entity: child, bundle };
    lemma_flush_len(w, q, w.len());
    lemma_flush_push(w, q, spawn);
    lemma_flush_push(w, q.push(spawn), Command::AddChild { parent: h, child });
    let before = flush(w, q);
    assert(flush(w, q.push(spawn)) == before.push(fresh_node(bundle@)));
    assert(flush(w, q.push(spawn).push(Command::AddChild { parent: h, child })) =~= before.push(
        NodeView { parent: Some(h), ..fresh_node(bundle@) },
    ));
}

/// One insert command per bundle, all on `e`, in order.
pub open spec fn insert_commands(e: Entity, bundles: Seq<Vec<Component>>) -> Seq<Command> {
    bundles.map_values(|bundle: Vec<Component>| Command::Insert { entity: e, bundle })
}

/// The components `m` after each bundle of `bundles` is attached in turn,
/// a later bundle overwriting the kinds it shares with an earlier one.
pub open spec fn overlay(m: Map<u64, u64>, bundles: Seq<Vec<Component>>) -> Map<u64, u64>
    decreases bundles.len(),
{
    if bundles.len() == 0 {
        m
    } else {
        overlay(m, bundles.drop_last()).union_prefer_right(component_map(bundles.last()@))
    }
}

/// Chained inserts on an entity of the graph leave, after the flush, its
/// components overlaid by each inserted bundle in turn.
pub proof fn lemma_inserts_overlay(
    w: Seq<NodeView>,
    q: Seq<Command>,
    e: Entity,
    bundles: Seq<Vec<Component>>,
)
    requires
        exists_in(flush(w, q), e),
    ensures
        exists_in(flush(w, q + insert_commands(e, bundles)), e),
        component_map(flush(w, q + insert_commands(e, bundles))[e.index as int].components)
            == overlay(component_map(flush(w, q)[e.index as int].components), bundles),
    decreases bundles.len(),
{
    if bundles.len() == 0 {
        assert(q + insert_commands(e, bundles) =~= q);
    } else {
        let rest = bundles.drop_last();
        lemma_inserts_overlay(w, q, e, rest);
        let c = Command::Insert { entity: e, bundle: bundles.last() };
        assert(q + insert_commands(e, bundles) =~= (q + insert_commands(e, rest)).push(c));
        lemma_flush_push(w, q + insert_commands(e, rest), c);
        let mid = flush(w, q + insert_commands(e, rest));
        lemma_component_map_concat(mid[e.index as int].components, bundles.last()@);
    }
}

/// The value `overlay` gives a kind is that of the last bundle holding it.
pub proof fn lemma_overlay_last(m: Map<u64, u64>, bundles: Seq<Vec<Component>>, j: int, k: u64)
    requires
        0 <= j < bundles.len(),
        component_map(bundles[j]@).contains_key(k),
        forall|i: int| j < i < bundles.len() ==> !#[trigger] component_map(bundles[i]@).contains_key(k),
    ensures
        overlay(m, bundles).contains_key(k),
        overlay(m, bundles)[k] == component_map(bundles[j]@)[k],
    decreases bundles.len(),
{
    if j < bundles.len() - 1 {
        let rest = bundles.drop_last();
        assert(!component_map(bundles[bundles.len() - 1]@).contains_key(k));
        lemma_overlay_last(m, rest, j, k);
    }
}

/// Chained inserts on an entity of the graph leave, after the flush, each
/// component kind that some insert holds with the value of the last insert
/// that holds it.
pub proof fn lemma_inserts_last_wins(
    w: Seq<NodeView>,
    q: Seq<Command>,
    e: Entity,
    bundles: Seq<Vec<Component>>,
)
    requires
        exists_in(flush(w, q), e),
    ensures
        forall|j: int, k: u64|
            0 <= j < bundles.len() && #[trigger] component_map(bundles[j]@).contains_key(k) && (
            forall|i: int|
                j < i < bundles.len() ==> !#[trigger] component_map(bundles[i]@).contains_key(k))
                ==> ({
                let after = component_map(
                    flush(w, q + insert_commands(e, bundles))[e.index as int].components,
                );
                after.contains_key(k) && after[k] == component_map(bundles[j]@)[k]
            }),
{
    lemma_inserts_overlay(w, q, e, bundles);
    let m = component_map(flush(w, q)[e.index as int].components);
    assert forall|j: int, k: u64|
        0 <= j < bundles.len() && #[trigger] component_map(bundles[j]@).contains_key(k) && (
        forall|i: int|
            j < i < bundles.len() ==> !#[trigger] component_map(bundles[i]@).contains_key(k))
        implies overlay(m, bundles).contains_key(k) && overlay(m, bundles)[k] == component_map(
        bundles[j]@,
    )[k] by {
        lemma_overlay_last(m, bundles, j, k);
    }
}

/// An observer attached from an entity `h` for the target `t` is stored on
/// `h`, as its observer component, replacing any earlier one, and listens to
/// events targeted at `t`; nothing else changes.
pub proof fn lemma_observe_target(
    w: Seq<NodeView>,
    q: Seq<Command>,
    h: Entity,
    t: Entity,
    system: u64,
)
    requires
        exists_in(flush(w, q), h),
    ensures
        ({
            let before = flush(w, q);
            let o = Observer { system, scope: ObserverScope::Target(t) };
            let after = flush(w, q.push(Command::InsertObserver { entity: h, observer: o }));
            after == before.update(h.index as int, NodeView { observer: Some(o), ..before[h.index as int] })
        }),
{
    let o = Observer { system, scope: ObserverScope::Target(t) };
    lemma_flush_push(w, q, Command::InsertObserver { entity: h, observer: o });
}

} // verus!
