//! The handle registry: the backend's bidirectional record of which entity
//! id owns which body handle and which collider handle.  Entries are
//! inserted when objects are created and never removed; a later insert for
//! the same entity wins.

use vstd::prelude::*;

verus! {

/// The map an association list stands for: a later pair overrides an
/// earlier one with the same key.
pub open spec fn pairs_map(s: Seq<(u64, u64)>) -> Map<u64, u64>
    decreases s.len(),
{
    if s.len() == 0 {
        Map::empty()
    } else {
        pairs_map(s.drop_last()).insert(s.last().0, s.last().1)
    }
}

/// Entity-id to handle maps, owned by the backend alone.
pub struct HandleRegistry {
    body_pairs: Vec<(u64, u64)>,
    collider_pairs: Vec<(u64, u64)>,
}

impl HandleRegistry {
    /// The entity-id to body-handle map.
    pub closed spec fn body_map(&self) -> Map<u64, u64> {
        pairs_map(self.body_pairs@)
    }

    /// The entity-id to collider-handle map.
    pub closed spec fn collider_map(&self) -> Map<u64, u64> {
        pairs_map(self.collider_pairs@)
    }

    /// An empty registry.
    pub fn new() -> (r: HandleRegistry)
        ensures
            r.body_map() == Map::<u64, u64>::empty(),
            r.collider_map() == Map::<u64, u64>::empty(),
    {
        HandleRegistry { body_pairs: Vec::new(), collider_pairs: Vec::new() }
    }

    /// Record the body handle assigned to an entity.
    pub fn register_body(&mut self, entity_id: u64, handle: u64)
        ensures
            final(self).body_map() == old(self).body_map().insert(entity_id, handle),
            final(self).collider_map() == old(self).collider_map(),
    {
        self.body_pairs.push((entity_id, handle));
        proof {
            assert(self.body_pairs@.drop_last() =~= old(self).body_pairs@);
        }
    }

    /// Record the collider handle assigned to an entity.
    pub fn register_collider(&mut self, entity_id: u64, handle: u64)
        ensures
            final(self).collider_map() == old(self).collider_map().insert(entity_id, handle),
            final(self).body_map() == old(self).body_map(),
    {
        self.collider_pairs.push((entity_id, handle));
        proof {
            assert(self.collider_pairs@.drop_last() =~= old(self).collider_pairs@);
        }
    }

    /// The body handle recorded for an entity, if any.  Collider creation
    /// uses this to decide whether a new collider gets a parent.
    pub fn lookup_body(&self, entity_id: u64) -> (r: Option<u64>)
        ensures
            r == (if self.body_map().dom().contains(entity_id) {
                Option::Some(self.body_map()[entity_id])
            } else {
                Option::None::<u64>
            }),
    {
        lookup_pairs(&self.body_pairs, entity_id)
    }

    /// The collider handle recorded for an entity, if any.
    pub fn lookup_collider(&self, entity_id: u64) -> (r: Option<u64>)
        ensures
            r == (if self.collider_map().dom().contains(entity_id) {
                Option::Some(self.collider_map()[entity_id])
            } else {
                Option::None::<u64>
            }),
    {
        lookup_pairs(&self.collider_pairs, entity_id)
    }
}

/// Scan an association list from its newest entry backwards.
fn lookup_pairs(pairs: &Vec<(u64, u64)>, key: u64) -> (r: Option<u64>)
    ensures
        r == (if pairs_map(pairs@).dom().contains(key) {
            Option::Some(pairs_map(pairs@)[key])
        } else {
            Option::None::<u64>
        }),
{
    let mut j: usize = pairs.len();
    proof {
        assert(pairs@.take(pairs@.len() as int) =~= pairs@);
    }
    while j > 0
        invariant
            j <= pairs@.len(),
            pairs_map(pairs@).dom().contains(key) == pairs_map(pairs@.take(j as int)).dom().contains(
                key,
            ),
            pairs_map(pairs@).dom().contains(key) ==> pairs_map(pairs@)[key] == pairs_map(
                pairs@.take(j as int),
            )[key],
        decreases j,
    {
        let (k, v) = pairs[j - 1];
        proof {
            assert(pairs@.take(j as int).drop_last() =~= pairs@.take(j - 1));
            assert(pairs@.take(j as int).last() == pairs@[j - 1]);
        }
        if k == key {
            return Some(v);
        }
        j = j - 1;
    }
    proof {
        assert(pairs@.take(0) =~= Seq::<(u64, u64)>::empty());
    }
    None
}

} // verus!
