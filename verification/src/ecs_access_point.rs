//! Access control for one shared entity-component store.
//!
//! A caller names a resource key and gets a guard on that key's accessor from
//! the [`ECSAccessPoint`]. Through the guard it waits for read or write access
//! and fetches its view of the store, which cannot be reached in any other
//! way. When the guard is dropped the accessor is released and the requests
//! that wait for the key are woken. Keys do not share a lock: access to one
//! key never waits for another.

pub mod accessor;
pub mod protocol;
pub mod state;
pub mod table;

use crate::ecs_access_point::accessor::AccessGuard;
use crate::ecs_access_point::table::AccessorTable;
use crate::sync::{guarded, lock};
use specs::World;
use std::sync::Mutex;
use vstd::prelude::*;

verus! {

/// `specs::World`, the shared entity-component store, opaque to the verifier.
#[verifier::external_type_specification]
#[verifier::external_body]
pub struct ExWorld(specs::World);

/// Names one slot of the store: a component storage or a shared resource.
#[derive(Clone, Copy, PartialEq, Eq, Hash, Debug)]
pub enum AccessKey {
    // Resources
    GameMap,
    Player,
    // Components
    Hostile,
    Position,
}

impl AccessKey {
    /// The key's number in the table of accessors.
    pub open spec fn slot(self) -> u64 {
        match self {
            AccessKey::GameMap => 0,
            AccessKey::Player => 1,
            AccessKey::Hostile => 2,
            AccessKey::Position => 3,
        }
    }

    /// The key's number in the table of accessors.
    pub fn index(self) -> (slot: u64)
        ensures
            slot == self.slot(),
    {
        match self {
            AccessKey::GameMap => 0,
            AccessKey::Player => 1,
            AccessKey::Hostile => 2,
            AccessKey::Position => 3,
        }
    }

    /// Two keys with one number are one key.
    pub proof fn lemma_slot_injective(a: AccessKey, b: AccessKey)
        ensures
            a.slot() == b.slot() <==> a == b,
    {
    }
}

/// Owns the shared store and the table of accessors, one per key that has been
/// asked for. The table has a lock of its own, held only while a guard is
/// looked up or made, never while the store is used.
pub struct ECSAccessPoint {
    accessors: Mutex<AccessorTable>,
    ecs: World,
}

impl ECSAccessPoint {
    /// The store that this access point owns.
    pub closed spec fn store(&self) -> World {
        self.ecs
    }

    /// An access point for the given store, with no accessor yet.
    pub fn new(ecs: World) -> (access_point: Self)
        ensures
            access_point.store() == ecs,
    {
        ECSAccessPoint { accessors: Mutex::new(AccessorTable::new()), ecs }
    }

    /// The shared store. Callers reach it through a guard only.
    pub(crate) fn ecs(&self) -> (ecs: &World)
        ensures
            *ecs == self.store(),
    {
        &self.ecs
    }

    /// A guard on the accessor of `key`, which is made now if this is the
    /// first request for the key. The guard holds nothing yet.
    pub fn request_access(&self, key: AccessKey) -> (guard: AccessGuard)
        ensures
            guard@.key() == key,
    {
        let mut accessors = lock(&self.accessors);
        let table = guarded(&mut accessors);
        let accessor = table.get_or_create(key);
        AccessGuard::new(accessor)
    }
}

} // verus!
