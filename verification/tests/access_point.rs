use roguelike::ecs_access_point::accessor::{AccessGuard, Accessor};
use roguelike::ecs_access_point::state::{Access, AccessorState};
use roguelike::ecs_access_point::table::AccessorTable;
use roguelike::ecs_access_point::{AccessKey, ECSAccessPoint};
use specs::shred::{Fetch, FetchMut};
use specs::{Builder, Component, ReadStorage, VecStorage, World, WorldExt, WriteStorage};
use std::sync::Arc;

struct Counter(u32);

#[derive(Debug, PartialEq, Eq, Clone, Copy)]
struct Pos(u16, u16);

impl Component for Pos {
    type Storage = VecStorage<Self>;
}

fn flags(s: &AccessorState) -> (usize, bool, bool) {
    (s.readers(), s.read_allowed(), s.write_allowed())
}

#[test]
fn a_new_state_is_idle() {
    let s = AccessorState::new();
    assert_eq!(flags(&s), (0, true, true));
    assert!(!s.is_held());
    assert!(!s.blocks(Access::Read));
    assert!(!s.blocks(Access::Write));
}

#[test]
fn a_reader_refuses_writers_only() {
    let mut s = AccessorState::new();
    s.acquire_read();
    assert_eq!(flags(&s), (1, true, false));
    assert!(s.is_held());
    assert!(!s.blocks(Access::Read));
    assert!(s.blocks(Access::Write));
}

#[test]
fn a_writer_refuses_everybody() {
    let mut s = AccessorState::new();
    s.acquire_write();
    assert_eq!(flags(&s), (0, false, false));
    assert!(s.is_held());
    assert!(s.blocks(Access::Read));
    assert!(s.blocks(Access::Write));
}

#[test]
fn acquire_by_kind_matches_the_named_transitions() {
    let mut by_kind = AccessorState::new();
    by_kind.acquire(Access::Read);
    by_kind.acquire(Access::Read);
    assert_eq!(flags(&by_kind), (2, true, false));
    let mut writer = AccessorState::new();
    writer.acquire(Access::Write);
    assert_eq!(flags(&writer), (0, false, false));
}

#[test]
fn releasing_the_writer_returns_to_idle() {
    let mut s = AccessorState::new();
    s.acquire_write();
    s.release();
    assert_eq!(flags(&s), (0, true, true));
}

#[test]
fn only_the_last_of_n_readers_reopens_writing() {
    let n = 5;
    let mut s = AccessorState::new();
    for _ in 0..n {
        s.acquire_read();
    }
    assert_eq!(flags(&s), (n, true, false));
    for left in 1..n {
        s.release();
        assert_eq!(flags(&s), (n - left, true, false));
    }
    s.release();
    assert_eq!(flags(&s), (0, true, true));
}

#[test]
fn a_new_accessor_is_idle() {
    let mut table = AccessorTable::new();
    let accessor: Arc<Accessor> = table.get_or_create(AccessKey::Player);
    assert_eq!(flags(&accessor.state()), (0, true, true));
    let ap = ECSAccessPoint::new(World::new());
    let guard: AccessGuard = ap.request_access(AccessKey::Player);
    assert_eq!(flags(&guard.state()), (0, true, true));
}

#[test]
fn a_guard_that_held_nothing_releases_nothing() {
    let ap = ECSAccessPoint::new(World::new());
    let unused = ap.request_access(AccessKey::Hostile);
    drop(unused);
    let guard = ap.request_access(AccessKey::Hostile);
    assert_eq!(flags(&guard.state()), (0, true, true));
    let step = guard.acquire_write();
    assert_eq!(flags(&step.before), (0, true, true));
}

#[test]
fn guard_steps_report_the_state_found_and_left() {
    let ap = ECSAccessPoint::new(World::new());
    let first = ap.request_access(AccessKey::GameMap);
    let step = first.acquire_read();
    assert_eq!(flags(&step.before), (0, true, true));
    assert_eq!(flags(&step.after), (1, true, false));
    let second = ap.request_access(AccessKey::GameMap);
    let step = second.acquire_read();
    assert_eq!(flags(&step.before), (1, true, false));
    assert_eq!(flags(&step.after), (2, true, false));
    drop(first);
    assert_eq!(flags(&second.state()), (1, true, false));
    drop(second);
    let writer = ap.request_access(AccessKey::GameMap);
    assert_eq!(flags(&writer.state()), (0, true, true));
    let step = writer.acquire_write();
    assert_eq!(flags(&step.before), (0, true, true));
    assert_eq!(flags(&step.after), (0, false, false));
    assert_eq!(flags(&writer.state()), (0, false, false));
    drop(writer);
    let after = ap.request_access(AccessKey::GameMap);
    assert_eq!(flags(&after.state()), (0, true, true));
}

#[test]
fn the_table_makes_one_accessor_per_key() {
    let mut table = AccessorTable::new();
    assert!(!table.contains(AccessKey::Position));
    let first = table.get_or_create(AccessKey::Position);
    assert!(table.contains(AccessKey::Position));
    assert!(!table.contains(AccessKey::Hostile));
    let other = table.get_or_create(AccessKey::Hostile);
    let again = table.get_or_create(AccessKey::Position);
    assert!(Arc::ptr_eq(&first, &again));
    assert!(!Arc::ptr_eq(&first, &other));
    assert_eq!(Arc::strong_count(&first), 3);
}

#[test]
fn a_guard_is_on_the_accessor_of_the_key_asked_for() {
    let ap = ECSAccessPoint::new(World::new());
    let keys = [AccessKey::Position, AccessKey::GameMap, AccessKey::Hostile, AccessKey::Player];
    for key in keys {
        assert_eq!(ap.request_access(key).key(), key);
    }
    // A writer on one key leaves the accessors of the other keys idle.
    for key in keys {
        let guard = ap.request_access(key);
        assert_eq!(guard.key(), key);
        guard.acquire_write();
        assert!(guard.state().is_held());
        for other in keys {
            if other != key {
                let probe = ap.request_access(other);
                assert_eq!(probe.key(), other);
                assert_eq!(flags(&probe.state()), (0, true, true));
            }
        }
    }
}

#[test]
fn the_table_s_accessors_know_their_keys() {
    let mut table = AccessorTable::new();
    let keys = [AccessKey::Hostile, AccessKey::Player, AccessKey::GameMap, AccessKey::Position];
    for key in keys {
        assert_eq!(table.get_or_create(key).key(), key);
    }
    for key in keys {
        assert!(table.contains(key));
        assert_eq!(table.get_or_create(key).key(), key);
    }
}

#[test]
fn key_numbers_are_distinct() {
    let keys = [AccessKey::GameMap, AccessKey::Player, AccessKey::Hostile, AccessKey::Position];
    for (i, a) in keys.iter().enumerate() {
        assert_eq!(a.index(), i as u64);
    }
}

#[test]
fn later_requests_meet_the_first_request_s_accessor() {
    let ap = ECSAccessPoint::new(World::new());
    let first = ap.request_access(AccessKey::Position);
    first.acquire_read();
    let second = ap.request_access(AccessKey::Position);
    assert_eq!(flags(&second.state()), (1, true, false));
    let step = second.acquire_read();
    assert_eq!(flags(&step.before), (1, true, false));
    assert_eq!(flags(&first.state()), (2, true, false));
    drop(first);
    drop(second);
    let third = ap.request_access(AccessKey::Position);
    assert_eq!(flags(&third.state()), (0, true, true));
}

#[test]
fn three_readers_share_position_and_hold_off_a_writer() {
    let ap = ECSAccessPoint::new(World::new());
    // Three readers get in, none waits for another: each call returns.
    let first = ap.request_access(AccessKey::Position);
    first.acquire_read();
    let second = ap.request_access(AccessKey::Position);
    second.acquire_read();
    let third = ap.request_access(AccessKey::Position);
    let step = third.acquire_read();
    assert_eq!(flags(&step.after), (3, true, false));
    // A writer has to wait until all three have left.
    assert!(third.state().blocks(Access::Write));
    drop(first);
    assert_eq!(flags(&third.state()), (2, true, false));
    assert!(third.state().blocks(Access::Write));
    drop(second);
    assert_eq!(flags(&third.state()), (1, true, false));
    assert!(third.state().blocks(Access::Write));
    drop(third);
    // It gets in after the last release, on an idle key,
    let writer = ap.request_access(AccessKey::Position);
    assert!(!writer.state().blocks(Access::Write));
    let step = writer.acquire_write();
    assert_eq!(flags(&step.before), (0, true, true));
    assert_eq!(flags(&step.after), (0, false, false));
    // and keeps readers and writers out until it leaves.
    assert!(writer.state().blocks(Access::Read));
    assert!(writer.state().blocks(Access::Write));
    drop(writer);
    let reader = ap.request_access(AccessKey::Position);
    assert!(!reader.state().blocks(Access::Read));
    let step = reader.acquire_read();
    assert_eq!(flags(&step.before), (0, true, true));
    assert_eq!(flags(&step.after), (1, true, false));
}

#[test]
fn map_and_player_never_block_each_other() {
    let ap = ECSAccessPoint::new(World::new());
    let map_guard = ap.request_access(AccessKey::GameMap);
    map_guard.acquire_write();
    // The writer of the map is still in: a reader of the player does not wait.
    let player_guard = ap.request_access(AccessKey::Player);
    let step = player_guard.acquire_read();
    assert_eq!(flags(&step.before), (0, true, true));
    assert_eq!(flags(&step.after), (1, true, false));
    assert_eq!(flags(&map_guard.state()), (0, false, false));
    // Nor does a writer of a third key.
    let hostile_guard = ap.request_access(AccessKey::Hostile);
    let step = hostile_guard.acquire_write();
    assert_eq!(flags(&step.before), (0, true, true));
    drop(map_guard);
    assert_eq!(flags(&player_guard.state()), (1, true, false));
    assert_eq!(flags(&hostile_guard.state()), (0, false, false));
}

#[test]
fn readers_and_writers_in_turn_never_overlap_wrongly() {
    let ap = ECSAccessPoint::new(World::new());
    for round in 0..300usize {
        if round % 3 == 0 {
            let guard = ap.request_access(AccessKey::Hostile);
            let step = guard.acquire_write();
            assert_eq!(flags(&step.before), (0, true, true));
            assert_eq!(flags(&guard.state()), (0, false, false));
        } else {
            let mut guards = Vec::new();
            for n in 1..=round % 7 + 1 {
                let guard = ap.request_access(AccessKey::Hostile);
                let step = guard.acquire_read();
                assert_eq!(flags(&step.after), (n, true, false));
                guards.push(guard);
            }
            while let Some(guard) = guards.pop() {
                let left = guards.len();
                drop(guard);
                if let Some(still_in) = guards.last() {
                    assert_eq!(flags(&still_in.state()), (left, true, false));
                }
            }
        }
    }
}

#[test]
fn a_resource_written_is_the_resource_read() {
    let mut world = World::new();
    world.insert(Counter(7));
    let ap = ECSAccessPoint::new(world);
    {
        let guard = ap.request_access(AccessKey::Player);
        let mut counter: FetchMut<Counter> =
            guard.write_access(&ap, |ecs: &World| ecs.fetch_mut::<Counter>());
        assert_eq!(counter.0, 7);
        counter.0 = 42;
    }
    let guard = ap.request_access(AccessKey::Player);
    let counter: Fetch<Counter> = guard.read_access(&ap, |ecs: &World| ecs.fetch::<Counter>());
    assert_eq!(counter.0, 42);
    assert_eq!(flags(&guard.state()), (1, true, false));
}

#[test]
fn a_component_written_is_the_component_read() {
    let mut world = World::new();
    world.register::<Pos>();
    let entity = world.create_entity().with(Pos(1, 2)).build();
    let ap = ECSAccessPoint::new(world);
    {
        let guard = ap.request_access(AccessKey::Position);
        let mut positions: WriteStorage<Pos> =
            guard.write_access(&ap, |ecs: &World| ecs.write_storage::<Pos>());
        let previous = positions.insert(entity, Pos(8, 9)).unwrap();
        assert_eq!(previous, Some(Pos(1, 2)));
    }
    let guard = ap.request_access(AccessKey::Position);
    let positions: ReadStorage<Pos> =
        guard.read_access(&ap, |ecs: &World| ecs.read_storage::<Pos>());
    assert_eq!(positions.get(entity), Some(&Pos(8, 9)));
}
