use vstd::prelude::*;
use crate::commands::{pending_has_kind, Command, Commands};
use crate::entity::{Component, Entity, Observer, ObserverScope};

verus! {

/// The conceptual root: a builder with this context creates top-level
/// entities.
#[derive(Clone, Copy, PartialEq, Eq, Debug, Structural)]
pub struct UiRoot;

/// Component kind of the `UiContextRoot` tag.
pub const UI_CONTEXT_ROOT_KIND: u64 = 0x5549_5f52_4f4f_54;

/// Tag for entities under which detached UI (context menus, floating panels)
/// may safely be spawned. Whoever designates such a root attaches it; the
/// builder never adds or removes it.
#[derive(Clone, Copy, PartialEq, Eq, Debug, Default, Structural)]
pub struct UiContextRoot;

impl UiContextRoot {
    /// The tag as a component.
    pub fn component(&self) -> (r: Component)
        ensures
            r == (Component { kind: UI_CONTEXT_ROOT_KIND, value: 0 }),
    {
        Component { kind: UI_CONTEXT_ROOT_KIND, value: 0 }
    }
}

/// Why a checked styling accessor was refused.
#[derive(Clone, Copy, PartialEq, Eq, Debug, Structural)]
pub enum UiStyleError {
    /// No pending command attaches to `entity` a component of kind `kind`,
    /// which the styling requires.
    MissingComponent { entity: Entity, kind: u64 },
}

/// A view of the command queue restricted to mutations of one entity: the
/// seam through which extensions add their own operations.
pub struct EntityCommands<'a> {
    pub commands: &'a mut Commands,
    pub entity: Entity,
}

impl<'a> EntityCommands<'a> {
    pub fn id(&self) -> (r: Entity)
        ensures
            r == self.entity,
    {
        self.entity
    }

    /// Appends attaching `bundle` to this entity.
    pub fn insert(&mut self, bundle: Vec<Component>)
        requires
            old(self).commands.wf(),
        ensures
            final(self).entity == old(self).entity,
            final(self).commands@ == old(self).commands@.push(
                Command::Insert { entity: old(self).entity, bundle },
            ),
            final(self).commands.base == old(self).commands.base,
            final(self).commands.next == old(self).commands.next,
            final(self).commands.wf(),
            *final(final(self).commands) == *final(old(self).commands),
    {
        self.commands.insert(self.entity, bundle);
    }

    /// Appends labelling this entity with `label`.
    pub fn named(&mut self, label: String)
        requires
            old(self).commands.wf(),
        ensures
            final(self).entity == old(self).entity,
            final(self).commands@ == old(self).commands@.push(
                Command::Name { entity: old(self).entity, label },
            ),
            final(self).commands.base == old(self).commands.base,
            final(self).commands.next == old(self).commands.next,
            final(self).commands.wf(),
            *final(final(self).commands) == *final(old(self).commands),
    {
        self.commands.name(self.entity, label);
    }

    /// Appends adding `observer` to the observers watching this entity.
    pub fn observe(&mut self, observer: Observer)
        requires
            old(self).commands.wf(),
        ensures
            final(self).entity == old(self).entity,
            final(self).commands@ == old(self).commands@.push(
                Command::Observe { entity: old(self).entity, observer },
            ),
            final(self).commands.base == old(self).commands.base,
            final(self).commands.next == old(self).commands.next,
            final(self).commands.wf(),
            *final(final(self).commands) == *final(old(self).commands),
    {
        self.commands.observe(self.entity, observer);
    }
}

/// Styling operations on one entity whose required components were checked.
pub struct UiStyle<'a> {
    pub entity_commands: EntityCommands<'a>,
}

/// Styling operations on one entity, without any validation.
pub struct UiStyleUnchecked<'a> {
    pub entity_commands: EntityCommands<'a>,
}

/// The position of the first kind of `required` that no pending command of
/// `q` attaches to `e`, if there is one.
pub open spec fn first_missing(q: Seq<Command>, e: Entity, required: Seq<u64>, j: int) -> bool {
    &&& 0 <= j < required.len()
    &&& !pending_has_kind(q, e, required[j])
    &&& forall|i: int| 0 <= i < j ==> #[trigger] pending_has_kind(q, e, required[i])
}

/// A borrowed command queue together with the context that further
/// operations apply to: `UiRoot`, or the `Entity` that they target. The
/// context never changes; an operation that needs another one returns a new
/// builder, which reborrows the queue.
pub struct UiBuilder<'a, T> {
    pub commands: &'a mut Commands,
    pub context: T,
}

impl<'a, T> UiBuilder<'a, T> {
    pub fn context(&self) -> (r: &T)
        ensures
            *r == self.context,
    {
        &self.context
    }

    pub fn commands(&mut self) -> (r: &mut Commands)
        ensures
            *r == *old(self).commands,
            *final(self).commands == *final(r),
            *final(final(self).commands) == *final(old(self).commands),
            final(self).context == old(self).context,
    {
        &mut *self.commands
    }
}

impl<'a> UiBuilder<'a, UiRoot> {
    /// Appends the creation of a top-level entity holding `bundle` and returns
    /// a builder bound to its handle.
    pub fn spawn(&mut self, bundle: Vec<Component>) -> (r: UiBuilder<'_, Entity>)
        requires
            old(self).commands.wf(),
            old(self).commands.next < u64::MAX,
        ensures
            r.context.index == old(self).commands.next,
            r.commands@ == old(self).commands@.push(Command::Spawn { entity: r.context, bundle }),
            r.commands.base == old(self).commands.base,
            r.commands.next == old(self).commands.next + 1,
            r.commands.wf(),
            *final(self).commands == *final(r.commands),
            *final(final(self).commands) == *final(old(self).commands),
            final(self).context == old(self).context,
    {
        let entity = self.commands.spawn(bundle);
        self.commands.ui_builder(entity)
    }
}

impl<'a> UiBuilder<'a, Entity> {
    pub fn id(&self) -> (r: Entity)
        ensures
            r == self.context,
    {
        self.context
    }

    /// The queue, restricted to mutations of this entity.
    pub fn entity_commands(&mut self) -> (r: EntityCommands<'_>)
        ensures
            r.entity == old(self).context,
            *r.commands == *old(self).commands,
            *final(self).commands == *final(r.commands),
            *final(final(self).commands) == *final(old(self).commands),
            final(self).context == old(self).context,
    {
        EntityCommands { commands: &mut *self.commands, entity: self.context }
    }

    /// Checked styling of this entity: fails at once, before any flush, with
    /// the first kind of `required` that no pending command attaches to the
    /// entity. Appends nothing.
    pub fn style(&mut self, required: &Vec<u64>) -> (r: Result<UiStyle<'_>, UiStyleError>)
        ensures
            final(self).context == old(self).context,
            (r is Ok) == (forall|i: int|
                0 <= i < required@.len() ==> #[trigger] pending_has_kind(
                    old(self).commands@,
                    old(self).context,
                    required@[i],
                )),
            r matches Err(UiStyleError::MissingComponent { entity, kind }) ==> {
                &&& entity == old(self).context
                &&& exists|j: int|
                    first_missing(old(self).commands@, old(self).context, required@, j)
                        && #[trigger] required@[j] == kind
                &&& *final(self).commands == *old(self).commands
            },
            r matches Ok(s) ==> {
                &&& s.entity_commands.entity == old(self).context
                &&& *s.entity_commands.commands == *old(self).commands
                &&& *final(self).commands == *final(s.entity_commands.commands)
            },
            *final(final(self).commands) == *final(old(self).commands),
    {
        let entity = self.context;
        let mut i: usize = 0;
        while i < required.len()
            invariant
                i <= required@.len(),
                *self.commands == *old(self).commands,
                *final(self.commands) == *final(old(self).commands),
                self.context == old(self).context,
                entity == old(self).context,
                forall|j: int|
                    0 <= j < i ==> #[trigger] pending_has_kind(self.commands@, entity, required@[j]),
            decreases required@.len() - i,
        {
            let kind = required[i];
            if !self.commands.has_pending_kind(entity, kind) {
                assert(first_missing(self.commands@, entity, required@, i as int));
                return Err(UiStyleError::MissingComponent { entity, kind });
            }
            i = i + 1;
        }
        Ok(UiStyle { entity_commands: EntityCommands { commands: &mut *self.commands, entity } })
    }

    /// Styling of this entity without validation: the caller vouches that
    /// the entity can take it.
    pub fn style_unchecked(&mut self) -> (r: UiStyleUnchecked<'_>)
        ensures
            r.entity_commands.entity == old(self).context,
            *r.entity_commands.commands == *old(self).commands,
            *final(self).commands == *final(r.entity_commands.commands),
            *final(final(self).commands) == *final(old(self).commands),
            final(self).context == old(self).context,
    {
        UiStyleUnchecked {
            entity_commands: EntityCommands { commands: &mut *self.commands, entity: self.context },
        }
    }

    /// Appends the creation of an entity holding `bundle` immediately
    /// followed by making it a child of this entity, and returns a builder
    /// bound to the child.
    pub fn spawn(&mut self, bundle: Vec<Component>) -> (r: UiBuilder<'_, Entity>)
        requires
            old(self).commands.wf(),
            old(self).commands.next < u64::MAX,
        ensures
            r.context.index == old(self).commands.next,
            r.commands@ == old(self).commands@.push(Command::Spawn { entity: r.context, bundle }).push(
                Command::AddChild { parent: old(self).context, child: r.context },
            ),
            r.commands.base == old(self).commands.base,
            r.commands.next == old(self).commands.next + 1,
            r.commands.wf(),
            *final(self).commands == *final(r.commands),
            *final(final(self).commands) == *final(old(self).commands),
            final(self).context == old(self).context,
    {
        let parent = self.context;
        let child = self.commands.spawn(bundle);
        self.commands.add_child(parent, child);
        self.commands.ui_builder(child)
    }

    /// Appends attaching `bundle` to this entity.
    pub fn insert(&mut self, bundle: Vec<Component>) -> (r: &mut Self)
        requires
            old(self).commands.wf(),
        ensures
            r.context == old(self).context,
            r.commands@ == old(self).commands@.push(Command::Insert { entity: old(self).context, bundle }),
            r.commands.base == old(self).commands.base,
            r.commands.next == old(self).commands.next,
            r.commands.wf(),
            *final(self) == *final(r),
            *final(r.commands) == *final(old(self).commands),
    {
        self.commands.insert(self.context, bundle);
        self
    }

    /// Appends labelling this entity with `label`.
    pub fn named(&mut self, label: String) -> (r: &mut Self)
        requires
            old(self).commands.wf(),
        ensures
            r.context == old(self).context,
            r.commands@ == old(self).commands@.push(Command::Name { entity: old(self).context, label }),
            r.commands.base == old(self).commands.base,
            r.commands.next == old(self).commands.next,
            r.commands.wf(),
            *final(self) == *final(r),
            *final(r.commands) == *final(old(self).commands),
    {
        self.commands.name(self.context, label);
        self
    }

    /// Appends adding an observer running `system` for events targeted at
    /// this entity to the observers watching it.
    pub fn observe(&mut self, system: u64) -> (r: &mut Self)
        requires
            old(self).commands.wf(),
        ensures
            r.context == old(self).context,
            r.commands@ == old(self).commands@.push(
                Command::Observe {
                    entity: old(self).context,
                    observer: Observer { system, scope: ObserverScope::Target(old(self).context) },
                },
            ),
            r.commands.base == old(self).commands.base,
            r.commands.next == old(self).commands.next,
            r.commands.wf(),
            *final(self) == *final(r),
            *final(r.commands) == *final(old(self).commands),
    {
        let observer = Observer::new(system).with_entity(self.context);
        self.commands.observe(self.context, observer);
        self
    }

    /// Appends attaching to this entity, as its observer component, an
    /// observer running `system` for events targeted at `target`.
    pub fn observe_target(&mut self, target: Entity, system: u64) -> (r: &mut Self)
        requires
            old(self).commands.wf(),
        ensures
            r.context == old(self).context,
            r.commands@ == old(self).commands@.push(
                Command::InsertObserver {
                    entity: old(self).context,
                    observer: Observer { system, scope: ObserverScope::Target(target) },
                },
            ),
            r.commands.base == old(self).commands.base,
            r.commands.next == old(self).commands.next,
            r.commands.wf(),
            *final(self) == *final(r),
            *final(r.commands) == *final(old(self).commands),
    {
        self.commands.insert_observer(self.context, Observer::new(system).with_entity(target));
        self
    }

    /// Appends attaching to this entity, as its observer component, an
    /// observer running `system` for matching events of any origin.
    pub fn observe_global(&mut self, system: u64) -> (r: &mut Self)
        requires
            old(self).commands.wf(),
        ensures
            r.context == old(self).context,
            r.commands@ == old(self).commands@.push(
                Command::InsertObserver {
                    entity: old(self).context,
                    observer: Observer { system, scope: ObserverScope::Global },
                },
            ),
            r.commands.base == old(self).commands.base,
            r.commands.next == old(self).commands.next,
            r.commands.wf(),
            *final(self) == *final(r),
            *final(r.commands) == *final(old(self).commands),
    {
        self.commands.insert_observer(self.context, Observer::new(system));
        self
    }
}

/// Wrapping a command queue into a builder.
pub trait UiBuilderExt {
    /// The queue that a builder made from this value borrows.
    spec fn builder_queue(&self) -> Commands;

    fn ui_builder<T>(&mut self, context: T) -> (r: UiBuilder<'_, T>)
        ensures
            *r.commands == old(self).builder_queue(),
            final(self).builder_queue() == *final(r.commands),
            r.context == context,
    ;
}

impl UiBuilderExt for Commands {
    open spec fn builder_queue(&self) -> Commands {
        *self
    }

    fn ui_builder<T>(&mut self, context: T) -> (r: UiBuilder<'_, T>) {
        UiBuilder { commands: self, context }
    }
}

} // verus!
