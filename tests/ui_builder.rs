use sickle_ui_scaffold::commands::{Command, Commands};
use sickle_ui_scaffold::entity::{Component, Entity, Observer, ObserverScope};
use sickle_ui_scaffold::ui_builder::{
    UiBuilderExt, UiContextRoot, UiRoot, UiStyleError, UI_CONTEXT_ROOT_KIND,
};
use sickle_ui_scaffold::world::World;

fn c(kind: u64, value: u64) -> Component {
    Component::new(kind, value)
}

fn kinds(world: &World, e: Entity) -> Vec<(u64, u64)> {
    let node = world.get(e).unwrap();
    let mut out: Vec<(u64, u64)> = Vec::new();
    for comp in node.components.iter() {
        out.retain(|(k, _)| *k != comp.kind);
        out.push((comp.kind, comp.value));
    }
    out.sort();
    out
}

#[test]
fn root_spawn_creates_exactly_one_entity() {
    let mut world = World::new();
    let mut commands = world.commands();
    let e = commands.ui_builder(UiRoot).spawn(vec![c(1, 10), c(2, 20)]).id();
    assert_eq!(e, Entity::from_index(0));
    assert_eq!(world.len(), 0);
    world.apply(commands);
    assert_eq!(world.len(), 1);
    assert_eq!(kinds(&world, e), vec![(1, 10), (2, 20)]);
    assert_eq!(world.get(e).unwrap().parent, None);
}

#[test]
fn root_spawn_of_empty_bundle() {
    let mut world = World::new();
    let mut commands = world.commands();
    let e = commands.ui_builder(UiRoot).spawn(Vec::new()).id();
    world.apply(commands);
    assert_eq!(world.len(), 1);
    assert!(world.get(e).unwrap().components.is_empty());
}

#[test]
fn spawns_after_existing_entities_get_fresh_handles() {
    let mut world = World::new();
    let mut commands = world.commands();
    commands.ui_builder(UiRoot).spawn(vec![c(1, 1)]);
    world.apply(commands);
    let mut commands = world.commands();
    let e = commands.ui_builder(UiRoot).spawn(vec![c(1, 2)]).id();
    assert_eq!(e.index(), 1);
    world.apply(commands);
    assert_eq!(world.len(), 2);
    assert_eq!(world.component(e, 1), Some(2));
    assert_eq!(world.component(Entity::from_index(0), 1), Some(1));
}

#[test]
fn child_spawn_links_parent_right_after_creation() {
    let mut world = World::new();
    let mut commands = world.commands();
    let (h, e) = {
        let mut root = commands.ui_builder(UiRoot);
        let mut parent = root.spawn(vec![c(1, 1)]);
        let h = parent.id();
        let e = parent.spawn(vec![c(2, 2)]).id();
        (h, e)
    };
    assert_eq!(commands.len(), 3);
    match &commands.queue[1] {
        Command::Spawn { entity, .. } => assert_eq!(*entity, e),
        _ => panic!("expected the child's creation"),
    }
    match &commands.queue[2] {
        Command::AddChild { parent, child } => {
            assert_eq!(*parent, h);
            assert_eq!(*child, e);
        }
        _ => panic!("expected the parent link"),
    }
    world.apply(commands);
    assert_eq!(world.get(e).unwrap().parent, Some(h));
    assert_eq!(kinds(&world, e), vec![(2, 2)]);
}

#[test]
fn parent_builder_stays_usable_for_siblings() {
    let mut world = World::new();
    let mut commands = world.commands();
    let (h, a, b) = {
        let mut root = commands.ui_builder(UiRoot);
        let mut parent = root.spawn(Vec::new());
        let a = parent.spawn(vec![c(1, 1)]).id();
        let b = parent.spawn(vec![c(1, 2)]).id();
        (parent.id(), a, b)
    };
    world.apply(commands);
    assert_ne!(a, b);
    assert_eq!(world.get(a).unwrap().parent, Some(h));
    assert_eq!(world.get(b).unwrap().parent, Some(h));
    assert_eq!(world.component(b, 1), Some(2));
}

#[test]
fn inserts_keep_the_last_value_of_each_kind() {
    let mut world = World::new();
    let mut commands = world.commands();
    let e = {
        let mut root = commands.ui_builder(UiRoot);
        let mut b = root.spawn(vec![c(1, 1), c(2, 2)]);
        b.insert(vec![c(2, 20), c(3, 30)]).insert(vec![c(3, 300)]).insert(vec![c(4, 4)]);
        b.id()
    };
    world.apply(commands);
    assert_eq!(kinds(&world, e), vec![(1, 1), (2, 20), (3, 300), (4, 4)]);
    assert_eq!(world.component(e, 3), Some(300));
    assert_eq!(world.component(e, 5), None);
}

#[test]
fn id_is_unchanged_by_chained_operations() {
    let mut commands = Commands::starting_at(0);
    let mut root = commands.ui_builder(UiRoot);
    let mut b = root.spawn(vec![c(1, 1)]);
    let before = b.id();
    b.insert(vec![c(2, 2)])
        .named(String::from("node"))
        .observe(7)
        .observe_target(Entity::from_index(9), 8)
        .observe_global(9);
    assert_eq!(b.id(), before);
    assert_eq!(*b.context(), before);
}

#[test]
fn observe_target_stores_on_self_and_listens_to_target() {
    let mut world = World::new();
    let mut commands = world.commands();
    let h = commands.ui_builder(UiRoot).spawn(vec![c(1, 1)]).id();
    let t = commands.spawn(vec![c(2, 2)]);
    commands.ui_builder(h).observe_target(t, 42);
    world.apply(commands);
    assert_ne!(h, t);
    assert_eq!(
        world.get(h).unwrap().observer,
        Some(Observer { system: 42, scope: ObserverScope::Target(t) })
    );
    assert_eq!(world.get(t).unwrap().observer, None);
}

#[test]
fn later_observer_component_replaces_earlier() {
    let mut world = World::new();
    let mut commands = world.commands();
    let h = {
        let mut root = commands.ui_builder(UiRoot);
        let mut b = root.spawn(Vec::new());
        b.observe_target(Entity::from_index(5), 1).observe_global(2);
        b.id()
    };
    world.apply(commands);
    assert_eq!(world.get(h).unwrap().observer, Some(Observer::new(2)));
}

#[test]
fn observe_adds_watchers() {
    let mut world = World::new();
    let mut commands = world.commands();
    let h = {
        let mut root = commands.ui_builder(UiRoot);
        let mut b = root.spawn(Vec::new());
        b.observe(1).observe(2);
        b.id()
    };
    world.apply(commands);
    assert_eq!(
        world.get(h).unwrap().observers,
        vec![
            Observer { system: 1, scope: ObserverScope::Target(h) },
            Observer { system: 2, scope: ObserverScope::Target(h) },
        ]
    );
    assert_eq!(world.get(h).unwrap().observer, None);
}

#[test]
fn root_child_named_scenario() {
    let mut world = World::new();
    let mut commands = world.commands();
    let (e1, e2) = {
        let mut root = commands.ui_builder(UiRoot);
        let mut b1 = root.spawn(vec![c(1, 100)]);
        let e1 = b1.id();
        let mut b2 = b1.spawn(vec![c(2, 200)]);
        b2.named(String::from("child"));
        (e1, b2.id())
    };
    assert_ne!(e1, e2);
    world.apply(commands);
    assert_eq!(kinds(&world, e1), vec![(1, 100)]);
    assert_eq!(kinds(&world, e2), vec![(2, 200)]);
    assert_eq!(world.get(e2).unwrap().label.as_deref(), Some("child"));
    assert_eq!(world.get(e2).unwrap().parent, Some(e1));
    assert_eq!(world.get(e1).unwrap().parent, None);
}

#[test]
fn conflicting_checked_styles_fail_before_flush() {
    let world = World::new();
    let mut commands = world.commands();
    {
        let mut root = commands.ui_builder(UiRoot);
        let mut b = root.spawn(Vec::new());
        let e = b.id();
        assert!(b.style(&Vec::new()).is_ok());
        match b.style(&vec![7]) {
            Err(err) => assert_eq!(err, UiStyleError::MissingComponent { entity: e, kind: 7 }),
            Ok(_) => panic!("the unpopulated entity lacks the required kind"),
        }
    }
    assert_eq!(commands.len(), 1);
    assert_eq!(world.len(), 0);
}

#[test]
fn checked_style_reports_the_first_missing_kind() {
    let mut commands = Commands::starting_at(0);
    let mut root = commands.ui_builder(UiRoot);
    let mut b = root.spawn(vec![c(1, 1)]);
    b.insert(vec![c(2, 2)]);
    let e = b.id();
    assert!(b.style(&vec![1, 2]).is_ok());
    match b.style(&vec![2, 3, 4]) {
        Err(err) => assert_eq!(err, UiStyleError::MissingComponent { entity: e, kind: 3 }),
        Ok(_) => panic!("kind 3 was never attached"),
    }
}

#[test]
fn checked_style_appends_nothing() {
    let mut world = World::new();
    let mut commands = world.commands();
    let e = {
        let mut root = commands.ui_builder(UiRoot);
        let mut b = root.spawn(vec![c(1, 1)]);
        assert!(b.style(&vec![1]).is_ok());
        b.id()
    };
    assert_eq!(commands.len(), 1);
    world.apply(commands);
    assert_eq!(kinds(&world, e), vec![(1, 1)]);
}

#[test]
fn checked_style_facade_targets_the_entity() {
    let mut world = World::new();
    let mut commands = world.commands();
    let e = {
        let mut root = commands.ui_builder(UiRoot);
        let mut b = root.spawn(vec![c(1, 1)]);
        let e = b.id();
        let mut s = b.style(&vec![1]).ok().unwrap();
        assert_eq!(s.entity_commands.id(), e);
        s.entity_commands.named(String::from("styled"));
        e
    };
    world.apply(commands);
    assert_eq!(world.get(e).unwrap().label.as_deref(), Some("styled"));
}

#[test]
fn unchecked_style_skips_validation() {
    let mut world = World::new();
    let mut commands = world.commands();
    let e = {
        let mut root = commands.ui_builder(UiRoot);
        let mut b = root.spawn(Vec::new());
        let e = b.id();
        let mut s = b.style_unchecked();
        assert_eq!(s.entity_commands.id(), e);
        s.entity_commands.insert(vec![c(5, 5)]);
        e
    };
    world.apply(commands);
    assert_eq!(world.component(e, 5), Some(5));
}

#[test]
fn entity_commands_append_for_the_bound_entity() {
    let mut world = World::new();
    let mut commands = world.commands();
    let e = {
        let mut root = commands.ui_builder(UiRoot);
        let mut b = root.spawn(Vec::new());
        let e = b.id();
        let mut ec = b.entity_commands();
        assert_eq!(ec.id(), e);
        ec.insert(vec![UiContextRoot.component()]);
        ec.observe(Observer::new(3));
        e
    };
    world.apply(commands);
    assert_eq!(world.component(e, UI_CONTEXT_ROOT_KIND), Some(0));
    assert_eq!(world.get(e).unwrap().observers, vec![Observer::new(3)]);
}

#[test]
fn commands_to_missing_entities_change_nothing() {
    let mut world = World::new();
    let mut commands = Commands::starting_at(0);
    commands.insert(Entity::from_index(5), vec![c(1, 1)]);
    commands.name(Entity::from_index(5), String::from("x"));
    commands.ui_builder(Entity::from_index(6)).observe(1);
    world.apply(commands);
    assert_eq!(world.len(), 0);
}

#[test]
fn self_parenting_is_ignored() {
    let mut world = World::new();
    let mut commands = world.commands();
    let e = commands.ui_builder(UiRoot).spawn(Vec::new()).id();
    commands.add_child(e, e);
    world.apply(commands);
    assert_eq!(world.get(e).unwrap().parent, None);
}

#[test]
fn pending_kinds_come_from_spawns_and_inserts_of_the_entity() {
    let mut commands = Commands::starting_at(0);
    let e = commands.spawn(vec![c(1, 1)]);
    let other = commands.spawn(vec![c(3, 3)]);
    commands.insert(e, vec![c(2, 2)]);
    assert!(commands.has_pending_kind(e, 1));
    assert!(commands.has_pending_kind(e, 2));
    assert!(!commands.has_pending_kind(e, 3));
    assert!(commands.has_pending_kind(other, 3));
}

#[test]
fn commands_accessor_reaches_the_queue() {
    let mut world = World::new();
    let mut commands = world.commands();
    let e = {
        let mut root = commands.ui_builder(UiRoot);
        assert_eq!(*root.context(), UiRoot);
        root.commands().spawn(vec![c(1, 1)])
    };
    world.apply(commands);
    assert_eq!(world.component(e, 1), Some(1));
}
