//! The pages of the client: the list of found saves, an opened save, and the
//! settings.
use vstd::prelude::*;
use crate::cache::CatalogCache;
use crate::container::{
    Course, CourseEntry, SaveContainer, SlotError, add_error, added, removed, slot_remote_id,
    swap_error, swapped,
};
use crate::emu::EmuSave;
use crate::settings::Settings;
use crate::smmdb::Course2Response;
use crate::widgets::SmmdbTab;

verus! {

/// The saves found on disk, to pick one from.
pub struct InitPage {
    pub saves: Vec<EmuSave>,
}

impl InitPage {
    pub fn new(saves: Vec<EmuSave>) -> (r: InitPage)
        ensures
            r.saves@ == saves@,
    {
        InitPage { saves }
    }
}

/// What the catalog knows of the course in a slot: the cached record of the
/// slot's catalog id.
pub open spec fn annotation_of(slot: Option<CourseEntry>, cache: Map<Seq<char>, Course2Response>) -> Option<
    Course2Response,
> {
    match slot_remote_id(slot) {
        Some(id) => if cache.contains_key(id) {
            Some(cache[id])
        } else {
            None
        },
        None => None,
    }
}

/// An opened save.
pub struct SavePage {
    pub save: SaveContainer,
    pub display_name: String,
    pub smmdb_tab: SmmdbTab,
}

impl SavePage {
    pub fn new(save: SaveContainer, display_name: String) -> (r: SavePage)
        ensures
            r.save == save,
            r.display_name == display_name,
            r.smmdb_tab == SmmdbTab::Courses,
    {
        SavePage { save, display_name, smmdb_tab: SmmdbTab::Courses }
    }

    pub fn set_smmdb_tab(&mut self, tab: SmmdbTab)
        ensures
            final(self).smmdb_tab == tab,
            final(self).save == old(self).save,
            final(self).display_name == old(self).display_name,
    {
        self.smmdb_tab = tab;
    }

    /// Exchanges two slots of the save; see `SaveContainer::swap`.
    pub fn swap_courses(&mut self, first: usize, second: usize) -> (r: Result<(), SlotError>)
        ensures
            r is Ok <==> swap_error(old(self).save.view_slots().len() as int, first as int, second as int) is None,
            r is Err ==> r == Err::<(), SlotError>(
                swap_error(old(self).save.view_slots().len() as int, first as int, second as int)->Some_0,
            ),
            r is Ok ==> final(self).save.view_slots() == swapped(old(self).save.view_slots(), first as int, second as int),
            r is Err ==> final(self).save.view_slots() == old(self).save.view_slots(),
            final(self).display_name == old(self).display_name,
            final(self).smmdb_tab == old(self).smmdb_tab,
            final(self).save.view_location() == old(self).save.view_location(),
    {
        self.save.swap(first, second)
    }

    /// Places a course into an empty slot; see `SaveContainer::add`.
    pub fn add_course(&mut self, index: usize, course: Course) -> (r: Result<(), SlotError>)
        ensures
            r is Ok <==> add_error(old(self).save.view_slots(), index as int) is None,
            r is Err ==> r == Err::<(), SlotError>(add_error(old(self).save.view_slots(), index as int)->Some_0),
            r is Ok ==> final(self).save.view_slots() == added(old(self).save.view_slots(), index as int, course),
            r is Err ==> final(self).save.view_slots() == old(self).save.view_slots(),
            final(self).display_name == old(self).display_name,
            final(self).smmdb_tab == old(self).smmdb_tab,
            final(self).save.view_location() == old(self).save.view_location(),
    {
        self.save.add(index, course)
    }

    /// Empties a slot; see `SaveContainer::remove`.
    pub fn delete_course(&mut self, index: usize) -> (r: Result<(), SlotError>)
        ensures
            r is Ok <==> index < old(self).save.view_slots().len(),
            r is Err ==> r == Err::<(), SlotError>(SlotError::OutOfBounds),
            r is Ok ==> final(self).save.view_slots() == removed(old(self).save.view_slots(), index as int),
            r is Err ==> final(self).save.view_slots() == old(self).save.view_slots(),
            final(self).display_name == old(self).display_name,
            final(self).smmdb_tab == old(self).smmdb_tab,
            final(self).save.view_location() == old(self).save.view_location(),
    {
        self.save.remove(index)
    }

    /// The catalog record shown beside slot `index`, looked up afresh.
    pub fn annotation<'a>(&self, index: usize, cache: &'a CatalogCache) -> (r: Option<&'a Course2Response>)
        ensures
            index < self.save.view_slots().len() ==> match annotation_of(self.save.view_slots()[index as int], cache@) {
                Some(c) => r is Some && *r->Some_0 == c,
                None => r is None,
            },
            index >= self.save.view_slots().len() ==> r is None,
    {
        match self.save.get_slot(index) {
            Some(CourseEntry::SavedCourse(c)) => match &c.smmdb_id {
                Some(id) => cache.get(id),
                None => None,
            },
            _ => None,
        }
    }
}

/// The settings form, and the page to go back to.
pub struct SettingsPage {
    pub settings: Settings,
    pub has_apikey: bool,
    pub has_changed: bool,
    pub prev_page: Box<Page>,
}

impl SettingsPage {
    /// The form starts with an empty key field; whether a key is stored is
    /// remembered apart.
    pub fn new(settings: Settings, prev_page: Page) -> (r: SettingsPage)
        ensures
            r.has_apikey == settings.apikey is Some,
            r.settings.apikey is None,
            !r.has_changed,
            *r.prev_page == prev_page,
    {
        let has_apikey = settings.apikey.is_some();
        SettingsPage {
            settings: Settings { apikey: None },
            has_apikey,
            has_changed: false,
            prev_page: Box::new(prev_page),
        }
    }

    pub fn set_apikey(&mut self, apikey: String)
        ensures
            final(self).settings.apikey == Some(apikey),
            final(self).has_changed,
            final(self).has_apikey == old(self).has_apikey,
            final(self).prev_page == old(self).prev_page,
    {
        self.settings.apikey = Some(apikey);
        self.has_changed = true;
    }

    /// Logging out changes the settings only if a key was stored.
    pub fn unset_apikey(&mut self)
        ensures
            final(self).settings.apikey is None,
            final(self).has_changed == old(self).has_apikey,
            !final(self).has_apikey,
            final(self).prev_page == old(self).prev_page,
    {
        self.has_changed = self.has_apikey;
        self.settings.apikey = None;
        self.has_apikey = false;
    }

    /// Leaves the form for the page it was opened from.
    pub fn get_prev_page(self) -> (r: Page)
        ensures
            r == *self.prev_page,
    {
        *self.prev_page
    }
}

pub enum Page {
    Init(InitPage),
    Save(SavePage),
    Settings(SettingsPage),
}

/// The slots of the save that a page shows or returns to.
pub open spec fn page_slots(p: Page) -> Option<Seq<Option<CourseEntry>>>
    decreases p,
{
    match p {
        Page::Init(_) => None,
        Page::Save(s) => Some(s.save.view_slots()),
        Page::Settings(s) => page_slots(*s.prev_page),
    }
}

} // verus!
