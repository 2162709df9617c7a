use vstd::prelude::*;
use crate::entity::{Component, Entity, Observer};

verus! {

/// One pending mutation of the scene graph.
pub enum Command {
    /// Create the entity `entity` with the components of `bundle`.
    Spawn { entity: Entity, bundle: Vec<Component> },
    /// Make `child` a child of `parent`.
    AddChild { parent: Entity, child: Entity },
    /// Attach the components of `bundle` to `entity`, overwriting those of the same kind.
    Insert { entity: Entity, bundle: Vec<Component> },
    /// Give `entity` a human-readable label.
    Name { entity: Entity, label: String },
    /// Add `observer` to the observers watching `entity`.
    Observe { entity: Entity, observer: Observer },
    /// Attach `observer` to `entity` as its observer component, replacing
    /// the one it held.
    InsertObserver { entity: Entity, observer: Observer },
}

/// Number of spawn commands in `q`.
pub open spec fn spawn_count(q: Seq<Command>) -> nat
    decreases q.len(),
{
    if q.len() == 0 {
        0
    } else {
        spawn_count(q.drop_last()) + if q.last() is Spawn { 1nat } else { 0nat }
    }
}

/// The spawn commands of `q` create `base`, `base + 1`, ... in order.
pub open spec fn spawns_numbered(q: Seq<Command>, base: nat) -> bool
    decreases q.len(),
{
    if q.len() == 0 {
        true
    } else {
        &&& spawns_numbered(q.drop_last(), base)
        &&& (q.last() is Spawn ==> q.last()->Spawn_entity.index == base + spawn_count(q.drop_last()))
    }
}

/// Whether `bundle` holds a component of kind `kind`.
pub open spec fn bundle_has_kind(bundle: Seq<Component>, kind: u64) -> bool {
    exists|i: int| 0 <= i < bundle.len() && #[trigger] bundle[i].kind == kind
}

/// Whether command `c` attaches a component of kind `kind` to `e`.
pub open spec fn attaches_kind(c: Command, e: Entity, kind: u64) -> bool {
    match c {
        Command::Spawn { entity, bundle } => entity == e && bundle_has_kind(bundle@, kind),
        Command::Insert { entity, bundle } => entity == e && bundle_has_kind(bundle@, kind),
        _ => false,
    }
}

/// Whether a pending command of `q` attaches a component of kind `kind` to `e`.
pub open spec fn pending_has_kind(q: Seq<Command>, e: Entity, kind: u64) -> bool {
    exists|i: int| 0 <= i < q.len() && #[trigger] attaches_kind(q[i], e, kind)
}

/// An ordered, append-only queue of pending commands, together with the
/// allocator of provisional handles for the entities it spawns.
///
/// `base` is the first handle this queue hands out, `next` the one it hands
/// out next.
pub struct Commands {
    pub queue: Vec<Command>,
    pub base: u64,
    pub next: u64,
}

impl View for Commands {
    type V = Seq<Command>;

    open spec fn view(&self) -> Seq<Command> {
        self.queue@
    }
}

impl Commands {
    /// Every spawned handle is fresh: spawns are numbered from `base` on, and
    /// `next` follows the last of them.
    pub open spec fn wf(&self) -> bool {
        &&& self.next == self.base + spawn_count(self@)
        &&& spawns_numbered(self@, self.base as nat)
    }

    /// An empty queue whose first spawned entity gets the handle `first`.
    pub fn starting_at(first: u64) -> (r: Commands)
        ensures
            r.wf(),
            r@ == Seq::<Command>::empty(),
            r.base == first,
            r.next == first,
    {
        Commands { queue: Vec::new(), base: first, next: first }
    }

    /// Number of pending commands.
    pub fn len(&self) -> (r: usize)
        ensures
            r == self@.len(),
    {
        self.queue.len()
    }

    fn push(&mut self, c: Command)
        requires
            old(self).wf(),
            !(c is Spawn),
        ensures
            final(self)@ == old(self)@.push(c),
            final(self).base == old(self).base,
            final(self).next == old(self).next,
            final(self).wf(),
    {
        self.queue.push(c);
        proof {
            assert(self@.drop_last() =~= old(self)@);
        }
    }

    /// Appends the creation of a new entity holding `bundle` and returns its
    /// provisional handle, usable at once although the entity exists only
    /// after the flush.
    pub fn spawn(&mut self, bundle: Vec<Component>) -> (e: Entity)
        requires
            old(self).wf(),
            old(self).next < u64::MAX,
        ensures
            e.index == old(self).next,
            final(self)@ == old(self)@.push(Command::Spawn { entity: e, bundle }),
            final(self).base == old(self).base,
            final(self).next == old(self).next + 1,
            final(self).wf(),
    {
        let e = Entity { index: self.next };
        self.queue.push(Command::Spawn { entity: e, bundle });
        self.next = self.next + 1;
        proof {
            assert(self@.drop_last() =~= old(self)@);
        }
        e
    }

    /// Appends making `child` a child of `parent`.
    pub fn add_child(&mut self, parent: Entity, child: Entity)
        requires
            old(self).wf(),
        ensures
            final(self)@ == old(self)@.push(Command::AddChild { parent, child }),
            final(self).base == old(self).base,
            final(self).next == old(self).next,
            final(self).wf(),
    {
        self.push(Command::AddChild { parent, child });
    }

    /// Appends attaching `bundle` to `entity`.
    pub fn insert(&mut self, entity: Entity, bundle: Vec<Component>)
        requires
            old(self).wf(),
        ensures
            final(self)@ == old(self)@.push(Command::Insert { entity, bundle }),
            final(self).base == old(self).base,
            final(self).next == old(self).next,
            final(self).wf(),
    {
        self.push(Command::Insert { entity, bundle });
    }

    /// Appends labelling `entity` with `label`.
    pub fn name(&mut self, entity: Entity, label: String)
        requires
            old(self).wf(),
        ensures
            final(self)@ == old(self)@.push(Command::Name { entity, label }),
            final(self).base == old(self).base,
            final(self).next == old(self).next,
            final(self).wf(),
    {
        self.push(Command::Name { entity, label });
    }

    /// Appends storing `observer` on `entity`.
    pub fn observe(&mut self, entity: Entity, observer: Observer)
        requires
            old(self).wf(),
        ensures
            final(self)@ == old(self)@.push(Command::Observe { entity, observer }),
            final(self).base == old(self).base,
            final(self).next == old(self).next,
            final(self).wf(),
    {
        self.push(Command::Observe { entity, observer });
    }

    /// Appends attaching `observer` to `entity` as its observer component.
    pub fn insert_observer(&mut self, entity: Entity, observer: Observer)
        requires
            old(self).wf(),
        ensures
            final(self)@ == old(self)@.push(Command::InsertObserver { entity, observer }),
            final(self).base == old(self).base,
            final(self).next == old(self).next,
            final(self).wf(),
    {
        self.push(Command::InsertObserver { entity, observer });
    }

    /// Whether a pending command attaches a component of kind `kind` to
    /// `entity`.
    pub fn has_pending_kind(&self, entity: Entity, kind: u64) -> (r: bool)
        ensures
            r == pending_has_kind(self@, entity, kind),
    {
        let mut i: usize = 0;
        while i < self.queue.len()
            invariant
                i <= self@.len(),
                forall|j: int| 0 <= j < i ==> !#[trigger] attaches_kind(self@[j], entity, kind),
            decreases self@.len() - i,
        {
            let found = match &self.queue[i] {
                Command::Spawn { entity: e, bundle } => *e == entity && bundle_contains_kind(bundle, kind),
                Command::Insert { entity: e, bundle } => *e == entity && bundle_contains_kind(bundle, kind),
                _ => false,
            };
            if found {
                assert(attaches_kind(self@[i as int], entity, kind));
                return true;
            }
            i = i + 1;
        }
        false
    }
}

/// Whether `bundle` holds a component of kind `kind`.
pub fn bundle_contains_kind(bundle: &Vec<Component>, kind: u64) -> (r: bool)
    ensures
        r == bundle_has_kind(bundle@, kind),
{
    let mut i: usize = 0;
    while i < bundle.len()
        invariant
            i <= bundle@.len(),
            forall|j: int| 0 <= j < i ==> #[trigger] bundle@[j].kind != kind,
        decreases bundle@.len() - i,
    {
        if bundle[i].kind == kind {
            return true;
        }
        i = i + 1;
    }
    false
}

} // verus!
