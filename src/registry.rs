use vstd::prelude::*;

verus! {

/// Screen positions are fixed-point: this many units make one pixel.
pub const SUBPIXEL: i64 = 256;

/// Most contacts the registry holds at once; further contacts are ignored.
pub const MAX_CONTACTS: usize = 10;

/// A screen position in `SUBPIXEL` units per pixel, `y` pointing down.
#[derive(Clone, Copy, Debug, PartialEq, Eq, Structural)]
pub struct Point {
    pub x: i64,
    pub y: i64,
}

/// Identity of a contact: the mouse, or a touch finger by its platform id.
#[derive(Clone, Copy, Debug, PartialEq, Eq, Structural)]
pub enum ContactId {
    Mouse,
    Finger(u64),
}

/// What the registry reports after a contact was tracked.
#[derive(Clone, Copy, Debug, PartialEq, Eq, Structural)]
pub struct Update {
    /// Number of registered contacts.
    pub count: usize,
    /// Whether this update moved one of exactly two contacts, both of which have moved since
    /// the pair formed: only then are roll and pinch measured.
    pub turned: bool,
}

/// Mathematical model of the registry.
pub ghost struct Contacts {
    /// Registered contacts with their last positions, ids distinct.
    pub entries: Seq<(ContactId, Point)>,
    /// While exactly two contacts are registered: whether the first has moved since they paired.
    pub first_moved: bool,
    /// While exactly two contacts are registered: whether the second has moved since they paired.
    pub second_moved: bool,
}

pub open spec fn holds(s: Seq<(ContactId, Point)>, id: ContactId) -> bool {
    exists|i: int| 0 <= i < s.len() && s[i].0 == id
}

/// The index of `id` in `s`, where `holds(s, id)`.
pub open spec fn slot(s: Seq<(ContactId, Point)>, id: ContactId) -> int {
    choose|i: int| 0 <= i < s.len() && s[i].0 == id
}

pub open spec fn distinct_ids(s: Seq<(ContactId, Point)>) -> bool {
    forall|i: int, j: int| 0 <= i < s.len() && 0 <= j < s.len() && i != j ==> s[i].0 != s[j].0
}

/// The registry's invariant: distinct ids, at most `MAX_CONTACTS` of them, and moves of a pair
/// recorded only while two contacts are registered.
pub open spec fn valid(c: Contacts) -> bool {
    &&& distinct_ids(c.entries)
    &&& c.entries.len() <= MAX_CONTACTS
    &&& (c.first_moved || c.second_moved) ==> c.entries.len() == 2
}

/// Whether the registry takes `id`: it is registered, or there is room for it.
pub open spec fn accepts(c: Contacts, id: ContactId) -> bool {
    holds(c.entries, id) || c.entries.len() < MAX_CONTACTS
}

/// Whether tracking `id` at `pos` moves a registered contact.
pub open spec fn moves(c: Contacts, id: ContactId, pos: Point) -> bool {
    holds(c.entries, id) && c.entries[slot(c.entries, id)].1 != pos
}

/// The registry after tracking `id` at `pos`.
pub open spec fn after_track(c: Contacts, id: ContactId, pos: Point) -> Contacts {
    if holds(c.entries, id) {
        let i = slot(c.entries, id);
        let entries = c.entries.update(i, (id, pos));
        if moves(c, id, pos) && entries.len() == 2 {
            Contacts {
                entries,
                first_moved: c.first_moved || i == 0,
                second_moved: c.second_moved || i == 1,
            }
        } else {
            Contacts { entries, ..c }
        }
    } else if c.entries.len() < MAX_CONTACTS {
        Contacts { entries: c.entries.push((id, pos)), first_moved: false, second_moved: false }
    } else {
        c
    }
}

/// What tracking `id` at `pos` reports: the aggregate of every contact the registry accepts.
pub open spec fn track_report(c: Contacts, id: ContactId, pos: Point) -> Option<Update> {
    if !accepts(c, id) {
        None
    } else {
        let d = after_track(c, id, pos);
        let n = d.entries.len();
        Some(
            Update {
                count: n as usize,
                turned: moves(c, id, pos) && n == 2 && d.first_moved && d.second_moved,
            },
        )
    }
}

/// The registry after releasing `id`.
pub open spec fn released(c: Contacts, id: ContactId) -> Contacts {
    if holds(c.entries, id) {
        Contacts {
            entries: c.entries.remove(slot(c.entries, id)),
            first_moved: false,
            second_moved: false,
        }
    } else {
        c
    }
}

/// The set of currently pressed or touching contacts with their last positions.
#[derive(Debug)]
pub struct Registry {
    entries: Vec<(ContactId, Point)>,
    first_moved: bool,
    second_moved: bool,
}

impl Registry {
    pub closed spec fn view(&self) -> Contacts {
        Contacts {
            entries: self.entries@,
            first_moved: self.first_moved,
            second_moved: self.second_moved,
        }
    }

    pub open spec fn wf(&self) -> bool {
        valid(self@)
    }

    /// An empty registry.
    pub fn new() -> (r: Registry)
        ensures
            r.wf(),
            r@.entries.len() == 0,
            !r@.first_moved,
            !r@.second_moved,
    {
        Registry { entries: Vec::new(), first_moved: false, second_moved: false }
    }

    /// Number of registered contacts.
    pub fn count(&self) -> (r: usize)
        ensures
            r == self@.entries.len(),
    {
        self.entries.len()
    }

    fn find(&self, id: ContactId) -> (r: Option<usize>)
        requires
            self.wf(),
        ensures
            match r {
                Some(i) => holds(self@.entries, id) && i == slot(self@.entries, id),
                None => !holds(self@.entries, id),
            },
    {
        let mut i: usize = 0;
        while i < self.entries.len()
            invariant
                self.wf(),
                i <= self.entries@.len(),
                forall|j: int| 0 <= j < i ==> self.entries@[j].0 != id,
            decreases self.entries@.len() - i,
        {
            if self.entries[i].0 == id {
                assert(holds(self@.entries, id));
                let ghost k = slot(self@.entries, id);
                assert(self.entries@[k].0 == id);
                assert(self.entries@[i as int].0 == id);
                assert(distinct_ids(self.entries@));
                assert(k == i as int);
                return Some(i);
            }
            i = i + 1;
        }
        None
    }

    /// Whether `id` is registered.
    pub fn contains(&self, id: ContactId) -> (r: bool)
        requires
            self.wf(),
        ensures
            r == holds(self@.entries, id),
    {
        self.find(id).is_some()
    }

    /// Inserts or updates `id` at `pos` and reports the contact count, and whether roll and
    /// pinch are measured, unless the registry is full and `id` is new.
    pub fn track(&mut self, id: ContactId, pos: Point) -> (r: Option<Update>)
        requires
            old(self).wf(),
        ensures
            final(self).wf(),
            final(self)@ == after_track(old(self)@, id, pos),
            r == track_report(old(self)@, id, pos),
    {
        let ghost c = self@;
        match self.find(id) {
            Some(i) => {
                let changed = self.entries[i].1 != pos;
                self.entries.set(i, (id, pos));
                assert(self.entries@ =~= c.entries.update(i as int, (id, pos)));
                let n = self.entries.len();
                if changed && n == 2 {
                    if i == 0 {
                        self.first_moved = true;
                    } else {
                        self.second_moved = true;
                    }
                }
                assert(distinct_ids(self.entries@)) by {
                    assert forall|a: int, b: int|
                        0 <= a < self.entries@.len() && 0 <= b < self.entries@.len() && a
                            != b implies self.entries@[a].0 != self.entries@[b].0 by {
                        assert(self.entries@[a].0 == c.entries[a].0);
                        assert(self.entries@[b].0 == c.entries[b].0);
                    }
                }
                Some(Update { count: n, turned: changed && n == 2 && self.first_moved && self.second_moved })
            },
            None => {
                if self.entries.len() >= MAX_CONTACTS {
                    return None;
                }
                self.entries.push((id, pos));
                assert(self.entries@ =~= c.entries.push((id, pos)));
                self.first_moved = false;
                self.second_moved = false;
                Some(Update { count: self.entries.len(), turned: false })
            },
        }
    }

    /// Removes `id`, and drops the two-contact baseline. Returns whether `id` was registered.
    pub fn release(&mut self, id: ContactId) -> (r: bool)
        requires
            old(self).wf(),
        ensures
            final(self).wf(),
            final(self)@ == released(old(self)@, id),
            r == holds(old(self)@.entries, id),
    {
        let ghost c = self@;
        match self.find(id) {
            Some(i) => {
                self.entries.remove(i);
                assert(self.entries@ =~= c.entries.remove(i as int));
                self.first_moved = false;
                self.second_moved = false;
                assert(distinct_ids(self.entries@)) by {
                    assert forall|a: int, b: int|
                        0 <= a < self.entries@.len() && 0 <= b < self.entries@.len() && a
                            != b implies self.entries@[a].0 != self.entries@[b].0 by {
                        let a0 = if a < i { a } else { a + 1 };
                        let b0 = if b < i { b } else { b + 1 };
                        assert(self.entries@[a] == c.entries[a0]);
                        assert(self.entries@[b] == c.entries[b0]);
                    }
                }
                true
            },
            None => false,
        }
    }
}

} // verus!
