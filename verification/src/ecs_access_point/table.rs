//! The table from resource key to accessor. It only grows: a key gets its
//! accessor at the first request and keeps it.

use crate::ecs_access_point::accessor::Accessor;
use crate::ecs_access_point::AccessKey;
use std::collections::HashMap;
use std::sync::Arc;
use vstd::prelude::*;

verus! {

/// The table after one request for `key`, where `fresh` is the accessor that
/// the request brings along in case the key has none yet.
pub open spec fn after_request(
    table: Map<AccessKey, Arc<Accessor>>,
    key: AccessKey,
    fresh: Arc<Accessor>,
) -> Map<AccessKey, Arc<Accessor>> {
    if table.contains_key(key) {
        table
    } else {
        table.insert(key, fresh)
    }
}

/// The table after a run of requests, first to last.
pub open spec fn after_requests(
    table: Map<AccessKey, Arc<Accessor>>,
    requests: Seq<(AccessKey, Arc<Accessor>)>,
) -> Map<AccessKey, Arc<Accessor>>
    decreases requests.len(),
{
    if requests.len() == 0 {
        table
    } else {
        after_request(
            after_requests(table, requests.drop_last()),
            requests.last().0,
            requests.last().1,
        )
    }
}

/// A key that has an accessor keeps that very accessor through any run of
/// later requests, for whatever keys they are.
pub proof fn lemma_accessor_kept(
    table: Map<AccessKey, Arc<Accessor>>,
    requests: Seq<(AccessKey, Arc<Accessor>)>,
    key: AccessKey,
)
    requires
        table.contains_key(key),
    ensures
        after_requests(table, requests).contains_key(key),
        after_requests(table, requests)[key] == table[key],
    decreases requests.len(),
{
    if requests.len() > 0 {
        lemma_accessor_kept(table, requests.drop_last(), key);
    }
}

/// A run of requests, taken in two parts, gives the same table as the run
/// taken at once.
pub proof fn lemma_requests_split(
    table: Map<AccessKey, Arc<Accessor>>,
    first: Seq<(AccessKey, Arc<Accessor>)>,
    then: Seq<(AccessKey, Arc<Accessor>)>,
)
    ensures
        after_requests(table, first + then) == after_requests(after_requests(table, first), then),
    decreases then.len(),
{
    if then.len() == 0 {
        assert(first + then =~= first);
    } else {
        lemma_requests_split(table, first, then.drop_last());
        assert((first + then).drop_last() =~= first + then.drop_last());
        assert((first + then).last() == then.last());
    }
}

/// Each accessor of the table stands under the key that it was made for.
pub open spec fn well_keyed(table: Map<AccessKey, Arc<Accessor>>) -> bool {
    forall|key: AccessKey| table.contains_key(key) ==> (#[trigger] table[key]).key() == key
}

/// Requests that bring along accessors made for their keys keep each accessor
/// under its own key.
pub proof fn lemma_requests_keep_keys(
    table: Map<AccessKey, Arc<Accessor>>,
    requests: Seq<(AccessKey, Arc<Accessor>)>,
)
    requires
        well_keyed(table),
        forall|i: int| 0 <= i < requests.len() ==> (#[trigger] requests[i]).1.key() == requests[i].0,
    ensures
        well_keyed(after_requests(table, requests)),
    decreases requests.len(),
{
    if requests.len() > 0 {
        lemma_requests_keep_keys(table, requests.drop_last());
    }
}

/// Two keys never share an accessor: what holds one key has no say over
/// another.
pub proof fn lemma_keys_do_not_share(
    table: Map<AccessKey, Arc<Accessor>>,
    one: AccessKey,
    other: AccessKey,
)
    requires
        well_keyed(table),
        table.contains_key(one),
        table.contains_key(other),
        one != other,
    ensures
        table[one] != table[other],
{
}

/// The first request for a key creates its accessor, and no later request
/// replaces it: in a run of requests, the accessor that the key of request
/// `i` has right after that request is the one it still has at the end.
pub proof fn lemma_one_accessor_per_key(
    table: Map<AccessKey, Arc<Accessor>>,
    requests: Seq<(AccessKey, Arc<Accessor>)>,
    i: int,
)
    requires
        0 <= i < requests.len(),
    ensures
        after_requests(table, requests.take(i + 1)).contains_key(requests[i].0),
        after_requests(table, requests).contains_key(requests[i].0),
        after_requests(table, requests)[requests[i].0] == after_requests(
            table,
            requests.take(i + 1),
        )[requests[i].0],
        !after_requests(table, requests.take(i)).contains_key(requests[i].0) ==> after_requests(
            table,
            requests,
        )[requests[i].0] == requests[i].1,
{
    let upto = requests.take(i + 1);
    let rest = requests.skip(i + 1);
    assert(upto + rest =~= requests);
    assert(upto.drop_last() =~= requests.take(i));
    assert(upto.last() == requests[i]);
    lemma_requests_split(table, upto, rest);
    lemma_accessor_kept(after_requests(table, upto), rest, requests[i].0);
}

/// The accessors made so far, by resource key.
pub struct AccessorTable {
    slots: HashMap<u64, Arc<Accessor>>,
}

impl View for AccessorTable {
    type V = Map<AccessKey, Arc<Accessor>>;

    closed spec fn view(&self) -> Map<AccessKey, Arc<Accessor>> {
        Map::new(
            |key: AccessKey| self.slots@.contains_key(key.slot()),
            |key: AccessKey| self.slots@[key.slot()],
        )
    }
}

impl AccessorTable {
    /// Each entry stands under the number of the key that its accessor was
    /// made for.
    #[verifier::type_invariant]
    spec fn keyed(self) -> bool {
        forall|slot: u64|
            self.slots@.contains_key(slot) ==> (#[trigger] self.slots@[slot]).key().slot() == slot
    }

    /// The empty table.
    pub fn new() -> (table: Self)
        ensures
            table@ == Map::<AccessKey, Arc<Accessor>>::empty(),
    {
        let table = AccessorTable { slots: HashMap::new() };
        assert(table@ =~= Map::<AccessKey, Arc<Accessor>>::empty());
        table
    }

    /// Whether the key has an accessor.
    pub fn contains(&self, key: AccessKey) -> (b: bool)
        ensures
            b == self@.contains_key(key),
    {
        self.slots.contains_key(&key.index())
    }

    /// The accessor of `key`, which was made for that key. The first request
    /// for a key makes its accessor and enters it in the table; every other
    /// request leaves the table as it is.
    pub fn get_or_create(&mut self, key: AccessKey) -> (accessor: Arc<Accessor>)
        ensures
            final(self)@ == after_request(old(self)@, key, accessor),
            final(self)@.contains_key(key),
            final(self)@[key] == accessor,
            accessor.key() == key,
            well_keyed(old(self)@),
            well_keyed(final(self)@),
    {
        proof {
            use_type_invariant(&*self);
            assert forall|k: AccessKey| self@.contains_key(k) implies (#[trigger] self@[k]).key()
                == k by {
                AccessKey::lemma_slot_injective(self@[k].key(), k);
            }
        }
        let slot = key.index();
        match self.slots.get(&slot) {
            Some(accessor) => {
                proof {
                    AccessKey::lemma_slot_injective(accessor.key(), key);
                }
                return accessor.clone();
            },
            None => {},
        }
        let fresh = Arc::new(Accessor::new(key));
        // The entries are taken out for the insertion and put back with the
        // new one: the table is a well-keyed table at every step.
        let mut taken = AccessorTable { slots: HashMap::new() };
        std::mem::swap(self, &mut taken);
        let AccessorTable { slots: mut slots } = taken;
        slots.insert(slot, fresh.clone());
        *self = AccessorTable { slots };
        proof {
            assert forall|other: AccessKey| other.slot() == slot implies other == key by {
                AccessKey::lemma_slot_injective(other, key);
            }
            assert(self@ =~= old(self)@.insert(key, fresh));
        }
        fresh
    }
}

} // verus!
