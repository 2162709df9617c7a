use vstd::prelude::*;
use crate::commands::{Command, Commands};
use crate::entity::{component_map, Component, Entity, Observer};

verus! {

/// What the scene graph holds for one entity.
pub struct NodeView {
    /// Attached components in order of attachment; see `component_map`.
    pub components: Seq<Component>,
    pub label: Option<Seq<char>>,
    pub parent: Option<Entity>,
    /// Observers added to watch this entity.
    pub observers: Seq<Observer>,
    /// The observer component: the last observer attached as one.
    pub observer: Option<Observer>,
}

/// A freshly created entity holding `bundle`.
pub open spec fn fresh_node(bundle: Seq<Component>) -> NodeView {
    NodeView {
        components: bundle,
        label: None,
        parent: None,
        observers: Seq::empty(),
        observer: None,
    }
}

/// Whether `e` names an entity of the graph `w`.
pub open spec fn exists_in(w: Seq<NodeView>, e: Entity) -> bool {
    e.index < w.len()
}

/// The graph `w` after applying one command. A command that names an entity
/// missing from the graph, or spawns a handle already taken, changes nothing.
pub open spec fn apply_command(w: Seq<NodeView>, c: Command) -> Seq<NodeView> {
    match c {
        Command::Spawn { entity, bundle } => if entity.index == w.len() {
            w.push(fresh_node(bundle@))
        } else {
            w
        },
        Command::AddChild { parent, child } => if exists_in(w, parent) && exists_in(w, child)
            && parent != child {
            w.update(child.index as int, NodeView { parent: Some(parent), ..w[child.index as int] })
        } else {
            w
        },
        Command::Insert { entity, bundle } => if exists_in(w, entity) {
            w.update(
                entity.index as int,
                NodeView {
                    components: w[entity.index as int].components + bundle@,
                    ..w[entity.index as int]
                },
            )
        } else {
            w
        },
        Command::Name { entity, label } => if exists_in(w, entity) {
            w.update(entity.index as int, NodeView { label: Some(label@), ..w[entity.index as int] })
        } else {
            w
        },
        Command::Observe { entity, observer } => if exists_in(w, entity) {
            w.update(
                entity.index as int,
                NodeView {
                    observers: w[entity.index as int].observers.push(observer),
                    ..w[entity.index as int]
                },
            )
        } else {
            w
        },
        Command::InsertObserver { entity, observer } => if exists_in(w, entity) {
            w.update(entity.index as int, NodeView { observer: Some(observer), ..w[entity.index as int] })
        } else {
            w
        },
    }
}

/// The graph `w` after applying the commands of `q` in order.
pub open spec fn flush(w: Seq<NodeView>, q: Seq<Command>) -> Seq<NodeView>
    decreases q.len(),
{
    if q.len() == 0 {
        w
    } else {
        apply_command(flush(w, q.drop_last()), q.last())
    }
}

/// One entity of the graph.
pub struct Node {
    pub components: Vec<Component>,
    pub label: Option<String>,
    pub parent: Option<Entity>,
    pub observers: Vec<Observer>,
    pub observer: Option<Observer>,
}

impl View for Node {
    type V = NodeView;

    open spec fn view(&self) -> NodeView {
        NodeView {
            components: self.components@,
            label: match self.label {
                Some(s) => Some(s@),
                None => None,
            },
            parent: self.parent,
            observers: self.observers@,
            observer: self.observer,
        }
    }
}

/// A scene graph that deferred commands are applied to. The entity with
/// handle `i` is the node at position `i`.
pub struct World {
    pub nodes: Vec<Node>,
}

impl View for World {
    type V = Seq<NodeView>;

    open spec fn view(&self) -> Seq<NodeView> {
        self.nodes@.map_values(|n: Node| n@)
    }
}

impl World {
    pub fn new() -> (r: World)
        ensures
            r@ == Seq::<NodeView>::empty(),
    {
        let r = World { nodes: Vec::new() };
        assert(r@ =~= Seq::<NodeView>::empty());
        r
    }

    /// Number of entities.
    pub fn len(&self) -> (r: usize)
        ensures
            r == self@.len(),
    {
        self.nodes.len()
    }

    /// An empty command queue whose spawns take the handles after those of
    /// this graph.
    pub fn commands(&self) -> (r: Commands)
        ensures
            r.wf(),
            r@ == Seq::<Command>::empty(),
            r.base == self@.len(),
    {
        Commands::starting_at(self.nodes.len() as u64)
    }

    /// The node of `e`, if `e` names an entity of the graph.
    pub fn get(&self, e: Entity) -> (r: Option<&Node>)
        ensures
            match r {
                Some(n) => exists_in(self@, e) && n@ == self@[e.index as int],
                None => !exists_in(self@, e),
            },
    {
        if e.index < self.nodes.len() as u64 {
            Some(&self.nodes[e.index as usize])
        } else {
            None
        }
    }

    /// The value of the component of kind `kind` on `e`: the last one
    /// attached.
    pub fn component(&self, e: Entity, kind: u64) -> (r: Option<u64>)
        ensures
            r == (if exists_in(self@, e) && component_map(
                self@[e.index as int].components,
            ).contains_key(kind) {
                Some(component_map(self@[e.index as int].components)[kind])
            } else {
                None
            }),
    {
        if e.index >= self.nodes.len() as u64 {
            None
        } else {
            let node = &self.nodes[e.index as usize];
            {
                let mut i: usize = node.components.len();
                assert(node.components@.take(i as int) =~= node.components@);
                while i > 0
                    invariant
                        i <= node.components@.len(),
                        exists_in(self@, e),
                        node@ == self@[e.index as int],
                        component_map(node.components@.take(i as int)).contains_key(kind)
                            == component_map(node.components@).contains_key(kind),
                        component_map(node.components@.take(i as int)).contains_key(kind)
                            ==> component_map(node.components@.take(i as int))[kind]
                            == component_map(node.components@)[kind],
                    decreases i,
                {
                    assert(node.components@.take(i as int).drop_last() =~= node.components@.take(
                        i - 1,
                    ));
                    assert(node.components@.take(i as int).last() == node.components@[i - 1]);
                    if node.components[i - 1].kind == kind {
                        return Some(node.components[i - 1].value);
                    }
                    i = i - 1;
                }
                None
            }
        }
    }

    fn apply_command(&mut self, c: Command)
        ensures
            final(self)@ == apply_command(old(self)@, c),
    {
        let len = self.nodes.len();
        match c {
            Command::Spawn { entity, bundle } => {
                if entity.index == len as u64 {
                    self.nodes.push(
                        Node {
                            components: bundle,
                            label: None,
                            parent: None,
                            observers: Vec::new(),
                            observer: None,
                        },
                    );
                }
            },
            Command::AddChild { parent, child } => {
                if parent.index < len as u64 && child.index < len as u64 && parent != child {
                    let node = &mut self.nodes[child.index as usize];
                    node.parent = Some(parent);
                }
            },
            Command::Insert { entity, mut bundle } => {
                if entity.index < len as u64 {
                    let node = &mut self.nodes[entity.index as usize];
                    node.components.append(&mut bundle);
                }
            },
            Command::Name { entity, label } => {
                if entity.index < len as u64 {
                    let node = &mut self.nodes[entity.index as usize];
                    node.label = Some(label);
                }
            },
            Command::Observe { entity, observer } => {
                if entity.index < len as u64 {
                    let node = &mut self.nodes[entity.index as usize];
                    node.observers.push(observer);
                }
            },
            Command::InsertObserver { entity, observer } => {
                if entity.index < len as u64 {
                    let node = &mut self.nodes[entity.index as usize];
                    node.observer = Some(observer);
                }
            },
        }
        assert(self@ =~= apply_command(old(self)@, c));
    }

    /// Applies every pending command of `commands`, in the order they were
    /// appended.
    pub fn apply(&mut self, commands: Commands)
        ensures
            final(self)@ == flush(old(self)@, commands@),
    {
        let mut queue = commands.queue;
        let ghost q = queue@;
        while queue.len() > 0
            invariant
                queue@.len() <= q.len(),
                queue@ == q.skip(q.len() - queue@.len()),
                self@ == flush(old(self)@, q.take(q.len() - queue@.len())),
            decreases queue.len(),
        {
            let ghost done = q.len() - queue@.len();
            let c = queue.remove(0);
            proof {
                assert(c == q[done]);
                assert(q.take(done + 1).drop_last() =~= q.take(done));
                assert(queue@ =~= q.skip(done + 1));
            }
            self.apply_command(c);
        }
        assert(q.take(q.len() as int) =~= q);
    }
}

} // verus!
