use vstd::prelude::*;

verus! {

/// An opaque handle for an addressable object of the scene graph.
#[derive(Clone, Copy, PartialEq, Eq, Debug, Structural)]
pub struct Entity {
    pub index: u64,
}

impl Entity {
    pub fn from_index(index: u64) -> (r: Entity)
        ensures
            r.index == index,
    {
        Entity { index }
    }

    pub fn index(&self) -> (r: u64)
        ensures
            r == self.index,
    {
        self.index
    }
}

/// One typed piece of data attachable to an entity: `kind` names the
/// component type, `value` is its payload.
#[derive(Clone, Copy, PartialEq, Eq, Debug, Structural)]
pub struct Component {
    pub kind: u64,
    pub value: u64,
}

impl Component {
    pub fn new(kind: u64, value: u64) -> (r: Component)
        ensures
            r.kind == kind,
            r.value == value,
    {
        Component { kind, value }
    }
}

/// The events an observer listens to.
#[derive(Clone, Copy, PartialEq, Eq, Debug, Structural)]
pub enum ObserverScope {
    /// Events targeted at this entity.
    Target(Entity),
    /// Matching events of any origin.
    Global,
}

/// An event observer as stored on the listening entity: the handler system
/// it runs and the scope it listens to.
#[derive(Clone, Copy, PartialEq, Eq, Debug, Structural)]
pub struct Observer {
    pub system: u64,
    pub scope: ObserverScope,
}

impl Observer {
    /// An observer with no target restriction.
    pub fn new(system: u64) -> (r: Observer)
        ensures
            r == (Observer { system, scope: ObserverScope::Global }),
    {
        Observer { system, scope: ObserverScope::Global }
    }

    /// The same observer, restricted to events targeted at `target`.
    pub fn with_entity(self, target: Entity) -> (r: Observer)
        ensures
            r == (Observer { system: self.system, scope: ObserverScope::Target(target) }),
    {
        Observer { system: self.system, scope: ObserverScope::Target(target) }
    }
}

/// The value each component kind holds once the components of `s` are
/// attached in order: a later component of a kind overwrites an earlier one.
pub open spec fn component_map(s: Seq<Component>) -> Map<u64, u64>
    decreases s.len(),
{
    if s.len() == 0 {
        Map::empty()
    } else {
        component_map(s.drop_last()).insert(s.last().kind, s.last().value)
    }
}

/// Attaching `a` and then `b` leaves each kind with its last value.
pub proof fn lemma_component_map_concat(a: Seq<Component>, b: Seq<Component>)
    ensures
        component_map(a + b) == component_map(a).union_prefer_right(component_map(b)),
    decreases b.len(),
{
    if b.len() == 0 {
        assert(a + b =~= a);
        assert(component_map(a).union_prefer_right(component_map(b)) =~= component_map(a));
    } else {
        lemma_component_map_concat(a, b.drop_last());
        assert((a + b).drop_last() =~= a + b.drop_last());
        assert((a + b).last() == b.last());
        assert(component_map(a + b) =~= component_map(a).union_prefer_right(component_map(b)));
    }
}

} // verus!
