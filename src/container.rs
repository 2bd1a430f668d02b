//! The save container: an ordered, fixed-size list of course slots.
use vstd::prelude::*;

verus! {

/// A course stored in a save slot.
pub struct Course {
    pub title: String,
    pub description: String,
    pub thumbnail: Vec<u8>,
    /// Identifier of the course in the online catalog, once uploaded or downloaded.
    pub smmdb_id: Option<String>,
    /// Raw course payload, kept for writing the save back.
    pub data: Vec<u8>,
}

/// What a non-empty slot holds: a course, or a record that failed to parse.
pub enum CourseEntry {
    SavedCourse(Course),
    CorruptedCourse(String),
}

/// Why a slot operation was rejected.
#[derive(Debug, PartialEq, Eq, Structural, Clone, Copy)]
pub enum SlotError {
    /// The index is not below the number of slots.
    OutOfBounds,
    /// A swap named the same slot twice.
    SameSlot,
    /// The target slot of an add already holds an entry.
    Occupied,
    /// The slot holds no readable course.
    NoCourse,
}

/// The catalog id carried by a slot, if any.
pub open spec fn slot_remote_id(slot: Option<CourseEntry>) -> Option<Seq<char>> {
    match slot {
        Some(CourseEntry::SavedCourse(c)) => match c.smmdb_id {
            Some(id) => Some(id@),
            None => None,
        },
        _ => None,
    }
}

/// The catalog ids of all slots, in slot order.
pub open spec fn remote_ids(slots: Seq<Option<CourseEntry>>) -> Seq<Seq<char>>
    decreases slots.len(),
{
    if slots.len() == 0 {
        Seq::empty()
    } else {
        let rest = remote_ids(slots.drop_last());
        match slot_remote_id(slots.last()) {
            Some(id) => rest.push(id),
            None => rest,
        }
    }
}

/// Slots `i` and `j` exchanged.
pub open spec fn swapped<T>(slots: Seq<T>, i: int, j: int) -> Seq<T> {
    slots.update(i, slots[j]).update(j, slots[i])
}

/// Slot `i` emptied.
pub open spec fn removed(slots: Seq<Option<CourseEntry>>, i: int) -> Seq<Option<CourseEntry>> {
    slots.update(i, None)
}

/// A course placed into slot `i`.
pub open spec fn added(slots: Seq<Option<CourseEntry>>, i: int, course: Course) -> Seq<
    Option<CourseEntry>,
> {
    slots.update(i, Some(CourseEntry::SavedCourse(course)))
}

pub open spec fn swap_error(n: int, i: int, j: int) -> Option<SlotError> {
    if i >= n || j >= n {
        Some(SlotError::OutOfBounds)
    } else if i == j {
        Some(SlotError::SameSlot)
    } else {
        None
    }
}

/// Slot `i` with its course now carrying catalog id `id`.
pub open spec fn with_remote_id(slots: Seq<Option<CourseEntry>>, i: int, id: String) -> Seq<
    Option<CourseEntry>,
> {
    match slots[i] {
        Some(CourseEntry::SavedCourse(c)) => slots.update(
            i,
            Some(CourseEntry::SavedCourse(Course { smmdb_id: Some(id), ..c })),
        ),
        _ => slots,
    }
}

pub open spec fn remote_id_error(slots: Seq<Option<CourseEntry>>, i: int) -> Option<SlotError> {
    if i >= slots.len() {
        Some(SlotError::OutOfBounds)
    } else if !(slots[i] matches Some(CourseEntry::SavedCourse(_))) {
        Some(SlotError::NoCourse)
    } else {
        None
    }
}

pub open spec fn add_error(slots: Seq<Option<CourseEntry>>, i: int) -> Option<SlotError> {
    if i >= slots.len() {
        Some(SlotError::OutOfBounds)
    } else if slots[i].is_some() {
        Some(SlotError::Occupied)
    } else {
        None
    }
}

/// One save: its slots and the place it was read from.
pub struct SaveContainer {
    slots: Vec<Option<CourseEntry>>,
    location: String,
}

impl SaveContainer {
    pub closed spec fn view_slots(&self) -> Seq<Option<CourseEntry>> {
        self.slots@
    }

    pub closed spec fn view_location(&self) -> Seq<char> {
        self.location@
    }

    /// A container over the slots read from `location`. The number of slots is
    /// fixed from here on.
    pub fn open(location: String, slots: Vec<Option<CourseEntry>>) -> (r: SaveContainer)
        ensures
            r.view_slots() == slots@,
            r.view_location() == location@,
    {
        SaveContainer { slots, location }
    }

    pub fn len(&self) -> (r: usize)
        ensures
            r == self.view_slots().len(),
    {
        self.slots.len()
    }

    pub fn get_location(&self) -> (r: &String)
        ensures
            r@ == self.view_location(),
    {
        &self.location
    }

    /// All slots, in order: what is written back to the save.
    pub fn get_slots(&self) -> (r: &Vec<Option<CourseEntry>>)
        ensures
            r@ == self.view_slots(),
    {
        &self.slots
    }

    /// The entry in slot `index`; `None` for an empty slot or an index past the end.
    pub fn get_slot(&self, index: usize) -> (r: Option<&CourseEntry>)
        ensures
            index < self.view_slots().len() ==> r == match self.view_slots()[index as int] {
                Some(e) => Some(&e),
                None => None::<&CourseEntry>,
            },
            index >= self.view_slots().len() ==> r is None,
    {
        if index < self.slots.len() {
            match &self.slots[index] {
                Some(e) => Some(e),
                None => None,
            }
        } else {
            None
        }
    }

    /// Exchanges two slots. Rejects an index past the end and a swap of a slot
    /// with itself; a rejected call changes nothing.
    pub fn swap(&mut self, first: usize, second: usize) -> (r: Result<(), SlotError>)
        ensures
            r is Ok <==> swap_error(old(self).view_slots().len() as int, first as int, second as int) is None,
            r is Err ==> r == Err::<(), SlotError>(
                swap_error(old(self).view_slots().len() as int, first as int, second as int)->Some_0,
            ),
            r is Ok ==> final(self).view_slots() == swapped(
                old(self).view_slots(),
                first as int,
                second as int,
            ),
            r is Err ==> final(self).view_slots() == old(self).view_slots(),
            final(self).view_location() == old(self).view_location(),
    {
        let n = self.slots.len();
        if first >= n || second >= n {
            return Err(SlotError::OutOfBounds);
        }
        if first == second {
            return Err(SlotError::SameSlot);
        }
        let mut held: Option<CourseEntry> = None;
        std::mem::swap(&mut self.slots[first], &mut held);
        std::mem::swap(&mut self.slots[second], &mut held);
        std::mem::swap(&mut self.slots[first], &mut held);
        assert(self.slots@ =~= swapped(old(self).slots@, first as int, second as int));
        Ok(())
    }

    /// Places a course into an empty slot.
    pub fn add(&mut self, index: usize, course: Course) -> (r: Result<(), SlotError>)
        ensures
            r is Ok <==> add_error(old(self).view_slots(), index as int) is None,
            r is Err ==> r == Err::<(), SlotError>(
                add_error(old(self).view_slots(), index as int)->Some_0,
            ),
            r is Ok ==> final(self).view_slots() == added(old(self).view_slots(), index as int, course),
            r is Err ==> final(self).view_slots() == old(self).view_slots(),
            final(self).view_location() == old(self).view_location(),
    {
        if index >= self.slots.len() {
            return Err(SlotError::OutOfBounds);
        }
        if self.slots[index].is_some() {
            return Err(SlotError::Occupied);
        }
        self.slots.set(index, Some(CourseEntry::SavedCourse(course)));
        Ok(())
    }

    /// Empties a slot. Emptying an empty slot succeeds and changes nothing;
    /// the other slots keep their indices.
    pub fn remove(&mut self, index: usize) -> (r: Result<(), SlotError>)
        ensures
            r is Ok <==> index < old(self).view_slots().len(),
            r is Err ==> r == Err::<(), SlotError>(SlotError::OutOfBounds),
            r is Ok ==> final(self).view_slots() == removed(old(self).view_slots(), index as int),
            r is Err ==> final(self).view_slots() == old(self).view_slots(),
            final(self).view_location() == old(self).view_location(),
    {
        if index >= self.slots.len() {
            return Err(SlotError::OutOfBounds);
        }
        self.slots.set(index, None);
        Ok(())
    }

    /// Gives the course in slot `index` the catalog id it was uploaded under:
    /// the course leaves the slot and comes back to the same index carrying
    /// the id.
    pub fn set_remote_id(&mut self, index: usize, id: String) -> (r: Result<(), SlotError>)
        ensures
            r is Ok <==> remote_id_error(old(self).view_slots(), index as int) is None,
            r is Err ==> r == Err::<(), SlotError>(
                remote_id_error(old(self).view_slots(), index as int)->Some_0,
            ),
            r is Ok ==> final(self).view_slots() == with_remote_id(old(self).view_slots(), index as int, id),
            r is Err ==> final(self).view_slots() == old(self).view_slots(),
            final(self).view_location() == old(self).view_location(),
    {
        if index >= self.slots.len() {
            return Err(SlotError::OutOfBounds);
        }
        let mut held: Option<CourseEntry> = None;
        std::mem::swap(&mut self.slots[index], &mut held);
        match held {
            Some(CourseEntry::SavedCourse(c)) => {
                let course = Course { smmdb_id: Some(id), ..c };
                self.slots.set(index, Some(CourseEntry::SavedCourse(course)));
                Ok(())
            },
            other => {
                let mut back = other;
                std::mem::swap(&mut self.slots[index], &mut back);
                assert(self.slots@ =~= old(self).slots@);
                Err(SlotError::NoCourse)
            },
        }
    }

    /// The catalog ids carried by the save's courses, in slot order.
    pub fn embedded_remote_ids(&self) -> (r: Vec<String>)
        ensures
            r@.map_values(|s: String| s@) == remote_ids(self.view_slots()),
    {
        let mut ids: Vec<String> = Vec::new();
        let mut i: usize = 0;
        while i < self.slots.len()
            invariant
                i <= self.slots@.len(),
                ids@.map_values(|s: String| s@) == remote_ids(self.slots@.take(i as int)),
            decreases self.slots@.len() - i,
        {
            proof {
                assert(self.slots@.take(i as int + 1).drop_last() =~= self.slots@.take(i as int));
            }
            match &self.slots[i] {
                Some(CourseEntry::SavedCourse(c)) => match &c.smmdb_id {
                    Some(id) => {
                        ids.push(id.clone());
                    },
                    None => {},
                },
                _ => {},
            }
            assert(ids@.map_values(|s: String| s@) =~= remote_ids(self.slots@.take(i as int + 1)));
            i = i + 1;
        }
        assert(self.slots@.take(i as int) =~= self.slots@);
        ids
    }
}

/// Emptying a slot leaves every other slot as it was, at the same index.
pub proof fn lemma_remove_keeps_others(slots: Seq<Option<CourseEntry>>, i: int, j: int)
    requires
        0 <= i < slots.len(),
        0 <= j < slots.len(),
        j != i,
    ensures
        removed(slots, i).len() == slots.len(),
        removed(slots, i)[j] == slots[j],
        removed(slots, i)[i] is None,
{
}

/// Swapping two slots twice restores the save.
pub proof fn lemma_swap_involution(slots: Seq<Option<CourseEntry>>, i: int, j: int)
    requires
        0 <= i < slots.len(),
        0 <= j < slots.len(),
        i != j,
    ensures
        swapped(swapped(slots, i, j), i, j) == slots,
{
    assert(swapped(swapped(slots, i, j), i, j) =~= slots);
}

} // verus!
