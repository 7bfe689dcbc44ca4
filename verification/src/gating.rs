//! Collision gating: while any teleport-eligible entity overlaps a portal
//! sensor, the overlapping entities' collision filters drop the group of
//! the surface the portal is cut into; the full filter returns only once
//! every contact with that sensor has ended.

use vstd::prelude::*;

use crate::orientation::PortalOrientation;
use crate::params::{
    ALL_GROUPS, GROUND_GROUP, PLAYER_GROUP, PORTAL_GROUP, PROPS_GROUP, WALLS_GROUP,
};

verus! {

/// The relaxed collision filter for a portal of the given orientation: a
/// horizontal portal lets entities pass through the ground, any other
/// portal lets them pass through walls.
pub open spec fn spec_relaxed_filter(c: PortalOrientation) -> u32 {
    match c {
        PortalOrientation::Horizontal => PLAYER_GROUP | PROPS_GROUP | PORTAL_GROUP | WALLS_GROUP,
        PortalOrientation::Other => PLAYER_GROUP | PROPS_GROUP | PORTAL_GROUP | GROUND_GROUP,
    }
}

/// The set of entities currently in contact with one portal's sensor
/// volume.
pub struct PortalContacts {
    pub contacts: Vec<u64>,
}

impl PortalContacts {
    /// The entities currently tracked, as a set.
    pub open spec fn contact_set(self) -> Set<u64> {
        Set::new(|e: u64| self.contacts@.contains(e))
    }

    /// No entity is tracked twice.
    pub open spec fn wf(self) -> bool {
        forall|i: int, j: int|
            0 <= i < j < self.contacts@.len() ==> self.contacts@[i] != self.contacts@[j]
    }

    /// No contacts yet.
    pub fn new() -> (s: PortalContacts)
        ensures
            s.wf(),
            s.contact_set() =~= Set::<u64>::empty(),
    {
        PortalContacts { contacts: Vec::new() }
    }

    /// Whether the given entity is currently tracked.
    pub fn tracks(&self, entity: u64) -> (r: bool)
        ensures
            r == self.contact_set().contains(entity),
    {
        let mut i: usize = 0;
        while i < self.contacts.len()
            invariant
                0 <= i <= self.contacts@.len(),
                forall|j: int| 0 <= j < i ==> self.contacts@[j] != entity,
            decreases self.contacts@.len() - i,
        {
            if self.contacts[i] == entity {
                assert(self.contacts@.contains(entity));
                return true;
            }
            i += 1;
        }
        assert(!self.contacts@.contains(entity));
        false
    }

    /// A contact between the portal's sensor and a teleport-eligible
    /// entity began: track it and hand back the relaxed filter the entity
    /// must now carry.
    pub fn on_contact_started(&mut self, entity: u64, c: PortalOrientation) -> (filter: u32)
        requires
            old(self).wf(),
        ensures
            final(self).wf(),
            final(self).contact_set() =~= old(self).contact_set().insert(entity),
            filter == spec_relaxed_filter(c),
    {
        let already = self.tracks(entity);
        if !already {
            self.contacts.push(entity);
            proof {
                assert forall|e: u64| final(self).contact_set().contains(e) <==> old(self).contact_set().insert(entity).contains(e) by {
                    if e == entity {
                        assert(final(self).contacts@.last() == entity);
                        assert(final(self).contacts@.contains(entity));
                    } else {
                        assert(final(self).contacts@.contains(e) <==> old(self).contacts@.contains(e)) by {
                            if old(self).contacts@.contains(e) {
                                let j = choose|j: int|
                                    0 <= j < old(self).contacts@.len() && old(self).contacts@[j]
                                        == e;
                                assert(final(self).contacts@[j] == e);
                            } else if final(self).contacts@.contains(e) {
                                let j = choose|j: int|
                                    0 <= j < final(self).contacts@.len() && final(self).contacts@[j] == e;
                                assert(j < old(self).contacts@.len());
                                assert(old(self).contacts@[j] == e);
                            }
                        }
                    }
                }
            }
        } else {
            proof {
                assert(old(self).contact_set().insert(entity) =~= old(self).contact_set());
            }
        }
        match c {
            PortalOrientation::Horizontal => PLAYER_GROUP | PROPS_GROUP | PORTAL_GROUP
                | WALLS_GROUP,
            PortalOrientation::Other => PLAYER_GROUP | PROPS_GROUP | PORTAL_GROUP | GROUND_GROUP,
        }
    }

    /// A contact ended: stop tracking it. The full filter is restored
    /// only when this was the last remaining contact; while any other
    /// entity still overlaps the sensor, the filter stays relaxed.
    pub fn on_contact_stopped(&mut self, entity: u64) -> (restore: Option<u32>)
        requires
            old(self).wf(),
        ensures
            final(self).wf(),
            final(self).contact_set() =~= old(self).contact_set().remove(entity),
            restore == Some(ALL_GROUPS) <==> final(self).contact_set() =~= Set::<u64>::empty(),
            restore is None <==> !(final(self).contact_set() =~= Set::<u64>::empty()),
    {
        let mut i: usize = 0;
        let mut kept: Vec<u64> = Vec::new();
        while i < self.contacts.len()
            invariant
                0 <= i <= self.contacts@.len(),
                old(self).wf(),
                self.contacts@ == old(self).contacts@,
                forall|j: int|
                    0 <= j < kept@.len() ==> self.contacts@.take(i as int).contains(kept@[j])
                        && kept@[j] != entity,
                forall|j: int|
                    0 <= j < i ==> self.contacts@[j] == entity || kept@.contains(
                        self.contacts@[j],
                    ),
                forall|a: int, b: int| 0 <= a < b < kept@.len() ==> kept@[a] != kept@[b],
            decreases self.contacts@.len() - i,
        {
            let e = self.contacts[i];
            if e != entity {
                proof {
                    if kept@.contains(e) {
                        let j = choose|j: int| 0 <= j < kept@.len() && kept@[j] == e;
                        let k = choose|k: int|
                            0 <= k < i && self.contacts@.take(i as int)[k] == e;
                        assert(self.contacts@[k] == e);
                        assert(self.contacts@[i as int] == e);
                    }
                }
                let ghost kept0 = kept@;
                kept.push(e);
                proof {
                    assert forall|v: u64| kept0.contains(v) implies kept@.contains(v) by {
                        let k = choose|k: int| 0 <= k < kept0.len() && kept0[k] == v;
                        assert(kept@[k] == v);
                    }
                    assert(kept@[kept0.len() as int] == e);
                    assert(kept@.contains(e));
                    assert(self.contacts@.take(i as int + 1)[i as int] == e);
                    assert forall|j: int|
                        0 <= j < kept@.len() implies self.contacts@.take(i as int + 1).contains(
                        kept@[j],
                    ) by {
                        if j < kept@.len() - 1 {
                            let k = choose|k: int|
                                0 <= k < i && self.contacts@.take(i as int)[k] == kept@[j];
                            assert(self.contacts@.take(i as int + 1)[k] == kept@[j]);
                        } else {
                            assert(self.contacts@.take(i as int + 1)[i as int] == kept@[j]);
                        }
                    }
                }
            }
            i += 1;
        }
        proof {
            assert(self.contacts@.take(self.contacts@.len() as int) == self.contacts@);
        }
        self.contacts = kept;
        proof {
            assert forall|e: u64| final(self).contact_set().contains(e) <==> old(self).contact_set().remove(entity).contains(e) by {
                if final(self).contacts@.contains(e) {
                    let j = choose|j: int|
                        0 <= j < final(self).contacts@.len() && final(self).contacts@[j] == e;
                    assert(old(self).contacts@.contains(e) && e != entity);
                }
                if old(self).contacts@.contains(e) && e != entity {
                    let j = choose|j: int|
                        0 <= j < old(self).contacts@.len() && old(self).contacts@[j] == e;
                    assert(old(self).contacts@[j] == e || final(self).contacts@.contains(e));
                }
            }
        }
        if self.contacts.len() == 0 {
            proof {
                assert(final(self).contact_set() =~= Set::<u64>::empty());
            }
            Some(ALL_GROUPS)
        } else {
            proof {
                assert(final(self).contacts@.contains(final(self).contacts@[0]));
                assert(final(self).contact_set().contains(final(self).contacts@[0]));
            }
            None
        }
    }
}

/// Both entities must leave before the filter is restored: starting two
/// contacts and stopping only the first leaves the tracked set holding the
/// second, so the filter stays relaxed; stopping the second as well
/// empties the set and restores it.
pub proof fn lemma_gating_both_must_leave(x: u64, y: u64)
    requires
        x != y,
    ensures
        !(Set::<u64>::empty().insert(x).insert(y).remove(x) =~= Set::<u64>::empty()),
        Set::<u64>::empty().insert(x).insert(y).remove(x).remove(y) =~= Set::<u64>::empty(),
{
    assert(Set::<u64>::empty().insert(x).insert(y).remove(x).contains(y));
}

} // verus!
