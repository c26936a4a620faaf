//! The device table: per-device display name and previous/current snapshot,
//! written only by the snapshot reducer, read by the renderer as a copy.

use std::collections::HashMap;
use vstd::prelude::*;

use crate::event::Ctl1Event;
use crate::snapshot::CtlState;
use crate::snapshot::applies;
use crate::snapshot::unset;

verus! {

broadcast use vstd::std_specs::hash::group_hash_axioms;

/// Two maps agree everywhere but at `id`: same keys, same values.
pub open spec fn agree_except<V>(before: Map<u64, V>, after: Map<u64, V>, id: u64) -> bool {
    forall|k: u64|
        #![trigger after.contains_key(k)]
        #![trigger before.contains_key(k)]
        k != id ==> (after.contains_key(k) == before.contains_key(k) && (before.contains_key(k)
            ==> after[k] == before[k]))
}

/// The table of every device seen so far. An entry is created on the first
/// event for an unseen id and never removed; `previous` and `current` always
/// hold an entry for exactly the same ids, and the display name is the one
/// that came with the id's first event.
#[derive(Debug, Clone)]
pub struct AppState {
    /// Each device's snapshot as it was before its latest event.
    pub previous: HashMap<u64, CtlState>,
    /// Each device's snapshot after its latest event.
    pub current: HashMap<u64, CtlState>,
    /// Each device's display name, fixed at first observation.
    pub name_mapping: HashMap<u64, String>,
}

impl AppState {
    /// The table's invariant: the three maps track exactly the same ids.
    pub open spec fn wf(&self) -> bool {
        &&& self.previous@.dom() == self.current@.dom()
        &&& self.name_mapping@.dom() == self.current@.dom()
    }

    /// An empty table.
    pub fn new() -> (r: AppState)
        ensures
            r.previous@ == Map::<u64, CtlState>::empty(),
            r.current@ == Map::<u64, CtlState>::empty(),
            r.name_mapping@ == Map::<u64, String>::empty(),
            r.wf(),
    {
        let r = AppState {
            previous: HashMap::new(),
            current: HashMap::new(),
            name_mapping: HashMap::new(),
        };
        proof {
            assert(r.previous@.dom() =~= r.current@.dom());
            assert(r.name_mapping@.dom() =~= r.current@.dom());
        }
        r
    }

    /// Records the display name for `id` unless one is already on file:
    /// first name wins.
    fn ensure_name(&mut self, id: u64, name: String)
        ensures
            final(self).name_mapping@ == (if old(self).name_mapping@.contains_key(id) {
                old(self).name_mapping@
            } else {
                old(self).name_mapping@.insert(id, name)
            }),
            final(self).previous == old(self).previous,
            final(self).current == old(self).current,
    {
        if !self.name_mapping.contains_key(&id) {
            self.name_mapping.insert(id, name);
        }
    }

    /// Creates the two all-unset snapshot halves for `id` if absent; both
    /// halves always appear together.
    fn ensure_state(&mut self, id: u64)
        ensures
            final(self).previous@.contains_key(id),
            final(self).current@.contains_key(id),
            agree_except(old(self).previous@, final(self).previous@, id),
            agree_except(old(self).current@, final(self).current@, id),
            old(self).previous@.contains_key(id) ==> final(self).previous@ == old(self).previous@,
            old(self).current@.contains_key(id) ==> final(self).current@ == old(self).current@,
            !old(self).previous@.contains_key(id) ==> unset(final(self).previous@[id]),
            !old(self).current@.contains_key(id) ==> unset(final(self).current@[id]),
            final(self).name_mapping == old(self).name_mapping,
    {
        if !self.previous.contains_key(&id) {
            self.previous.insert(id, CtlState::new());
        }
        if !self.current.contains_key(&id) {
            self.current.insert(id, CtlState::new());
        }
    }

    /// Makes sure `id` has a record: a display name (first name wins) and the
    /// two snapshot halves, all-unset when freshly created.
    pub fn ensure_ctl(&mut self, id: u64, name: String)
        ensures
            final(self).name_mapping@ == (if old(self).name_mapping@.contains_key(id) {
                old(self).name_mapping@
            } else {
                old(self).name_mapping@.insert(id, name)
            }),
            final(self).previous@.contains_key(id),
            final(self).current@.contains_key(id),
            agree_except(old(self).previous@, final(self).previous@, id),
            agree_except(old(self).current@, final(self).current@, id),
            old(self).previous@.contains_key(id) ==> final(self).previous@ == old(self).previous@,
            old(self).current@.contains_key(id) ==> final(self).current@ == old(self).current@,
            !old(self).previous@.contains_key(id) ==> unset(final(self).previous@[id]),
            !old(self).current@.contains_key(id) ==> unset(final(self).current@[id]),
            old(self).wf() ==> final(self).wf(),
    {
        self.ensure_name(id, name);
        self.ensure_state(id);
        proof {
            if old(self).wf() {
                assert forall|k: u64|
                    self.previous@.contains_key(k) == self.current@.contains_key(k) by {
                    if k != id {
                        assert(old(self).previous@.contains_key(k) == old(
                            self,
                        ).current@.contains_key(k));
                    }
                }
                assert forall|k: u64|
                    self.name_mapping@.contains_key(k) == self.current@.contains_key(k) by {
                    if k != id {
                        assert(old(self).name_mapping@.contains_key(k) == old(
                            self,
                        ).current@.contains_key(k));
                    }
                }
                assert(self.previous@.dom() =~= self.current@.dom());
                assert(self.name_mapping@.dom() =~= self.current@.dom());
            }
        }
    }

    /// The reducer step for one received event: look up or lazily create the
    /// record of the sending device, rotate current to previous, and make the
    /// applied event's outcome the new current snapshot. The record of every
    /// other device is untouched.
    pub fn process_event(&mut self, ev: Ctl1Event)
        ensures
            final(self).name_mapping@ == (if old(self).name_mapping@.contains_key(ev.ctl_id) {
                old(self).name_mapping@
            } else {
                old(self).name_mapping@.insert(ev.ctl_id, ev.ctl_name)
            }),
            final(self).previous@.contains_key(ev.ctl_id),
            final(self).current@.contains_key(ev.ctl_id),
            old(self).current@.contains_key(ev.ctl_id) ==> final(self).previous@[ev.ctl_id]
                == old(self).current@[ev.ctl_id],
            !old(self).current@.contains_key(ev.ctl_id) ==> unset(final(self).previous@[ev.ctl_id]),
            applies(
                final(self).previous@[ev.ctl_id],
                ev.triggering_event,
                final(self).current@[ev.ctl_id],
            ),
            agree_except(old(self).previous@, final(self).previous@, ev.ctl_id),
            agree_except(old(self).current@, final(self).current@, ev.ctl_id),
            agree_except(old(self).name_mapping@, final(self).name_mapping@, ev.ctl_id),
            old(self).wf() ==> final(self).wf(),
    {
        let id = ev.ctl_id;
        self.ensure_ctl(id, ev.ctl_name);
        let ghost prev1 = self.previous@;
        let ghost curr1 = self.current@;
        let prior = match self.current.remove(&id) {
            Some(c) => c,
            None => {
                proof {
                    assert(false);
                }
                CtlState::new()
            },
        };
        let next = prior.updated(ev.triggering_event);
        self.previous.insert(id, prior);
        self.current.insert(id, next);
        proof {
            assert(agree_except(old(self).previous@, self.previous@, id)) by {
                assert forall|k: u64| k != id implies (self.previous@.contains_key(k)
                    == old(self).previous@.contains_key(k) && (old(self).previous@.contains_key(k)
                    ==> self.previous@[k] == old(self).previous@[k])) by {
                    assert(self.previous@ == prev1.insert(id, prior));
                    assert(prev1.contains_key(k) == old(self).previous@.contains_key(k));
                }
            }
            assert(agree_except(old(self).current@, self.current@, id)) by {
                assert forall|k: u64| k != id implies (self.current@.contains_key(k)
                    == old(self).current@.contains_key(k) && (old(self).current@.contains_key(k)
                    ==> self.current@[k] == old(self).current@[k])) by {
                    assert(self.current@ == curr1.remove(id).insert(id, next));
                    assert(curr1.contains_key(k) == old(self).current@.contains_key(k));
                }
            }
            if old(self).wf() {
                assert forall|k: u64|
                    self.previous@.contains_key(k) == self.current@.contains_key(k) by {
                    if k != id {
                        assert(old(self).previous@.contains_key(k) == old(
                            self,
                        ).current@.contains_key(k));
                    }
                }
                assert forall|k: u64|
                    self.name_mapping@.contains_key(k) == self.current@.contains_key(k) by {
                    if k != id {
                        assert(old(self).name_mapping@.contains_key(k) == old(
                            self,
                        ).current@.contains_key(k));
                    }
                }
                assert(self.previous@.dom() =~= self.current@.dom());
                assert(self.name_mapping@.dom() =~= self.current@.dom());
            }
        }
    }
}

impl AppState {
    /// The current snapshot on file for `id`, if the device has been seen.
    pub fn current_of(&self, id: u64) -> (r: Option<&CtlState>)
        ensures
            match r {
                Some(s) => self.current@.contains_key(id) && *s == self.current@[id],
                None => !self.current@.contains_key(id),
            },
    {
        self.current.get(&id)
    }

    /// The snapshot `id` had before its latest event, if the device has been
    /// seen.
    pub fn previous_of(&self, id: u64) -> (r: Option<&CtlState>)
        ensures
            match r {
                Some(s) => self.previous@.contains_key(id) && *s == self.previous@[id],
                None => !self.previous@.contains_key(id),
            },
    {
        self.previous.get(&id)
    }

    /// The display name on file for `id`: the one that came with its first
    /// event.
    pub fn name_of(&self, id: u64) -> (r: Option<&String>)
        ensures
            match r {
                Some(s) => self.name_mapping@.contains_key(id) && *s == self.name_mapping@[id],
                None => !self.name_mapping@.contains_key(id),
            },
    {
        self.name_mapping.get(&id)
    }
}

impl Default for AppState {
    /// An empty table.
    fn default() -> (r: AppState)
        ensures
            r.previous@ == Map::<u64, CtlState>::empty(),
            r.current@ == Map::<u64, CtlState>::empty(),
            r.name_mapping@ == Map::<u64, String>::empty(),
            r.wf(),
    {
        AppState::new()
    }
}

} // verus!
