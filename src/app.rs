//! The client's decisions: from its state and an event to its next state and
//! the outside work to do. The outside work (disk, network, dialogs) is done
//! by the caller, which reports its outcome back as another event.
use vstd::prelude::*;
use vstd::string::StringExecFns;
use crate::cache::upserted;
use crate::catalog::{Smmdb, filter_of, page_from, page_thumbnail, page_voted};
use crate::container::{
    Course, CourseEntry, SaveContainer, SlotError, add_error, added, remote_id_error, remote_ids,
    removed, swap_error, swapped, with_remote_id,
};
use crate::download::{Download, Progress, base_url};
use crate::emu::EmuSave;
use crate::page::SmmdbCoursePanel;
use crate::pages::{InitPage, Page, SavePage, SettingsPage, annotation_of, page_slots};
use crate::settings::Settings;
use crate::widgets::SmmdbTab;
use crate::smmdb::{
    Course2Response, Difficulty, QueryParams, SortOptions, is_default_query, same_query, vote_fits,
    voted,
};

verus! {

/// What the client is doing. The `...Select` states wait for the user to
/// confirm an action on the slot or course they name.
pub enum AppState {
    Default,
    Loading,
    SwapSelect(usize),
    DownloadSelect(usize),
    DeleteSelect(usize),
    UploadSelect(usize),
    DeleteRemoteSelect(String),
    Downloading { save_index: usize, smmdb_id: String, progress: u32 },
}

/// While loading or downloading, no other change to the save may start.
pub open spec fn is_busy(s: AppState) -> bool {
    s is Loading || s is Downloading
}

/// The error shown to the user, if any.
pub enum AppErrorState {
    Error(String),
    NoError,
}

#[derive(Clone, Copy, Debug, PartialEq, Eq, Structural)]
pub enum WindowSize {
    S,
    M,
}

/// An event: a user intent, or the outcome of outside work.
pub enum Message {
    Empty,
    SetWindowSize(WindowSize),
    OpenSave(EmuSave),
    OpenCustomSave,
    LoadSave(SaveContainer, String),
    LoadSaveError(String),
    FetchSaveCourses(Vec<String>),
    FetchCourses(QueryParams),
    FetchError(String),
    SetSaveCourseResponse(Vec<Course2Response>),
    SetSmmdbCourses(Vec<Course2Response>),
    SetSmmdbCourseThumbnail(Vec<u8>, String),
    InitSwapCourse(usize),
    SwapCourse(usize, usize),
    InitDownloadCourse(usize),
    DownloadCourse(usize, String),
    DownloadProgressed(Progress),
    CourseDecoded(usize, Result<Course, String>),
    InitDeleteCourse(usize),
    DeleteCourse(usize),
    InitUploadCourse(usize),
    UploadCourse(usize),
    CourseUploaded(usize, String),
    InitDeleteSmmdbCourse(String),
    DeleteSmmdbCourse(String),
    SmmdbCourseDeleted(String),
    SavePersisted(Result<(), String>),
    TitleChanged(String),
    UploaderChanged(String),
    DifficultyChanged(Difficulty),
    SortChanged(SortOptions),
    ApplyFilters,
    PaginateForward,
    PaginateBackward,
    ReloadCourses,
    UpvoteCourse(String),
    DownvoteCourse(String),
    ResetCourseVote(String),
    SetVoteCourse(String, i32),
    OpenSettings,
    TrySaveSettings(Settings),
    SaveSettings(Settings),
    RejectSettings(String),
    CloseSettings,
    ChangeApiKey(String),
    ResetApiKey,
    ResetState,
    SetSmmdbTab(SmmdbTab),
}

/// Outside work for the caller to do.
pub enum Command {
    /// Read the save at `location`; answer `LoadSave` or `LoadSaveError`.
    LoadSave { location: String, display_name: String },
    /// Ask the user for a save folder, then read it as `LoadSave` does.
    PickSaveFolder,
    /// Query the catalog for the save's courses; answer
    /// `SetSaveCourseResponse` or `FetchError`.
    FetchSaveCourses { query: QueryParams, apikey: Option<String> },
    /// Query the catalog for a page; answer `SetSmmdbCourses` or `FetchError`.
    FetchCourses { query: QueryParams, apikey: Option<String> },
    /// Fetch a thumbnail; answer `SetSmmdbCourseThumbnail`, or nothing.
    FetchThumbnail(String),
    /// Write the opened save back to disk; answer `SavePersisted`.
    PersistSave,
    /// Decode a downloaded course; answer `CourseDecoded`.
    DecodeCourse { index: usize, data: Vec<u8> },
    /// Upload the course of a slot; answer `CourseUploaded` or `FetchError`.
    Upload { index: usize, key: String },
    /// Delete a course from the catalog; answer `SmmdbCourseDeleted` or `FetchError`.
    DeleteRemote { id: String, key: String },
    /// Send a vote; answer `FetchError` on failure.
    Vote { id: String, value: i32, key: String },
    /// Check an API key; answer `SaveSettings` or `RejectSettings`.
    SignIn { settings: Settings, key: String },
    /// Store the settings.
    WriteSettings(Settings),
    /// Feed this event back in.
    Dispatch(Message),
}

/// What the caller should listen to.
pub enum Subscription {
    Nothing,
    /// The escape key, which cancels a selection.
    Escape,
    Download(Download),
}

/// The query that fetches the records of the given ids in one page.
pub open spec fn ids_query(q: QueryParams, ids: Seq<String>) -> bool {
    &&& q.limit == 120
    &&& q.ids matches Some(v) && v@ == ids
    &&& is_default_query(QueryParams { limit: 25, ids: None, ..q })
}

pub fn query_for_ids(ids: Vec<String>) -> (r: QueryParams)
    ensures
        ids_query(r, ids@),
{
    let mut q = QueryParams::default();
    q.limit = 120;
    q.ids = Some(ids);
    q
}

fn slot_error_message(e: SlotError) -> (r: String) {
    match e {
        SlotError::OutOfBounds => String::from_str("There is no such slot in this save."),
        SlotError::SameSlot => String::from_str("A course cannot be swapped with itself."),
        SlotError::Occupied => String::from_str("This slot already holds a course."),
        SlotError::NoCourse => String::from_str("This slot holds no course."),
    }
}

fn busy_message() -> String {
    String::from_str("Another change to the save is still in progress.")
}

pub struct App {
    state: AppState,
    error_state: AppErrorState,
    settings: Settings,
    current_page: Page,
    smmdb: Smmdb,
    window_size: WindowSize,
}

/// The outcome of a slot change that was not refused as busy: on success the
/// client waits for the save to be written; on failure nothing changed and an
/// error shows.
pub open spec fn mutated(
    old: App,
    new: App,
    cmds: Seq<Command>,
    err: Option<SlotError>,
    after: Seq<Option<CourseEntry>>,
) -> bool {
    if err is None {
        &&& new.slots() == Some(after)
        &&& new.state() == AppState::Loading
        &&& cmds.len() >= 1
        &&& cmds[0] is PersistSave
    } else {
        &&& new.slots() == old.slots()
        &&& new.state() == AppState::Default
        &&& new.error() is Error
        &&& cmds.len() == 0
    }
}

/// A selection: refused while busy, otherwise the client waits in `next`.
pub open spec fn selected(old: App, new: App, cmds: Seq<Command>, next: AppState) -> bool {
    &&& is_busy(old.state()) ==> refused_busy(old, new, cmds)
    &&& !is_busy(old.state()) ==> new.state() == next && new.slots() == old.slots() && cmds.len() == 0
    &&& new.catalog() == old.catalog()
}

/// A change refused because another is in progress.
pub open spec fn refused_busy(old: App, new: App, cmds: Seq<Command>) -> bool {
    &&& new.slots() == old.slots()
    &&& new.state() == old.state()
    &&& new.error() is Error
    &&& cmds.len() == 0
}

impl App {
    pub closed spec fn state(&self) -> AppState {
        self.state
    }

    pub closed spec fn error(&self) -> AppErrorState {
        self.error_state
    }

    pub closed spec fn slots(&self) -> Option<Seq<Option<CourseEntry>>> {
        page_slots(self.current_page)
    }

    /// The settings form, when the settings page is open.
    pub closed spec fn form(&self) -> Option<SettingsPage> {
        match self.current_page {
            Page::Settings(p) => Some(p),
            _ => None,
        }
    }

    pub closed spec fn on_save_page(&self) -> bool {
        self.current_page is Save
    }

    pub closed spec fn cache(&self) -> Map<Seq<char>, Course2Response> {
        self.smmdb.cache()
    }

    pub closed spec fn query(&self) -> QueryParams {
        self.smmdb.query()
    }

    pub closed spec fn apikey(&self) -> Option<String> {
        self.settings.apikey
    }

    pub closed spec fn catalog(&self) -> Smmdb {
        self.smmdb
    }

    pub closed spec fn wf(&self) -> bool {
        self.smmdb.wf()
    }

    /// The client on its first page, listing the saves found; it starts by
    /// fetching the first page of the catalog and, if a key is stored, by
    /// checking the key.
    pub fn new(saves: Vec<EmuSave>, settings: Settings) -> (r: (App, Vec<Command>))
        ensures
            r.0.wf(),
            r.0.state() == AppState::Default,
            r.0.error() is NoError,
            r.0.slots() is None,
            r.0.apikey() == settings.apikey,
            is_default_query(r.0.query()),
            r.1@.len() == if settings.apikey is Some { 2int } else { 1int },
            r.1@[0] matches Command::FetchCourses { query, apikey } && is_default_query(query)
                && apikey == settings.apikey,
            settings.apikey matches Some(k) ==> r.1@[1] matches Command::SignIn { settings: s, key }
                && key == k && s == settings,
    {
        let apikey = settings.apikey.clone();
        let smmdb = Smmdb::new(apikey);
        let query = QueryParams::default();
        let apikey = settings.apikey.clone();
        let mut cmds = vec![Command::FetchCourses { query, apikey }];
        match &settings.apikey {
            Some(k) => {
                let key = k.clone();
                cmds.push(Command::SignIn { settings: settings.clone(), key });
            },
            None => {},
        }
        let app = App {
            state: AppState::Default,
            error_state: AppErrorState::NoError,
            settings,
            current_page: Page::Init(InitPage::new(saves)),
            smmdb,
            window_size: WindowSize::M,
        };
        (app, cmds)
    }

    pub fn title(&self) -> (r: &'static str)
        ensures
            r@ == "SMMDB"@,
    {
        "SMMDB"
    }

    pub fn get_state(&self) -> (r: &AppState)
        ensures
            *r == self.state(),
    {
        &self.state
    }

    pub fn get_error_state(&self) -> (r: &AppErrorState)
        ensures
            *r == self.error(),
    {
        &self.error_state
    }

    pub fn get_page(&self) -> (r: &Page)
        ensures
            page_slots(*r) == self.slots(),
    {
        &self.current_page
    }

    pub fn get_smmdb(&self) -> (r: &Smmdb)
        ensures
            *r == self.catalog(),
    {
        &self.smmdb
    }

    pub fn get_settings(&self) -> (r: &Settings)
        ensures
            r.apikey == self.apikey(),
    {
        &self.settings
    }

    /// The catalog record shown beside slot `index` of the opened save.
    pub fn annotation(&self, index: usize) -> (r: Option<&Course2Response>)
        ensures
            self.on_save_page() ==> match self.slots() {
                Some(s) => if index < s.len() {
                    match annotation_of(s[index as int], self.cache()) {
                        Some(c) => r is Some && *r->Some_0 == c,
                        None => r is None,
                    }
                } else {
                    r is None
                },
                None => true,
            },
            !self.on_save_page() ==> r is None,
    {
        match &self.current_page {
            Page::Save(p) => p.annotation(index, self.smmdb.get_course_responses()),
            _ => None,
        }
    }

    /// What to listen to: the escape key while a selection waits, the
    /// transfer while downloading.
    pub fn subscription(&self) -> (r: Subscription)
        ensures
            (self.state() is SwapSelect || self.state() is DownloadSelect || self.state() is DeleteSelect
                || self.state() is UploadSelect || self.state() is DeleteRemoteSelect) <==> r is Escape,
            self.state() is Downloading <==> r is Download,
            r matches Subscription::Download(d) ==> d.url@ == base_url() + "/courses2/download/"@
                + self.state()->smmdb_id@,
            (self.state() is Default || self.state() is Loading) <==> r is Nothing,
    {
        match &self.state {
            AppState::SwapSelect(_) | AppState::DownloadSelect(_) | AppState::DeleteSelect(_)
            | AppState::UploadSelect(_) | AppState::DeleteRemoteSelect(_) => Subscription::Escape,
            AppState::Downloading { smmdb_id, .. } => Subscription::Download(
                Download::for_course(smmdb_id.as_str()),
            ),
            AppState::Default | AppState::Loading => Subscription::Nothing,
        }
    }

    fn fail(&mut self, message: String)
        ensures
            final(self).state() == AppState::Default,
            final(self).error() is Error,
            final(self).current_page == old(self).current_page,
            final(self).smmdb == old(self).smmdb,
            final(self).settings == old(self).settings,
    {
        self.state = AppState::Default;
        self.error_state = AppErrorState::Error(message);
    }

    /// Settles a slot change: write the save on success, show the error
    /// otherwise.
    fn settle(&mut self, r: Result<(), SlotError>) -> (cmds: Vec<Command>)
        ensures
            r is Ok ==> final(self).state() == AppState::Loading && cmds@ == seq![Command::PersistSave],
            r is Err ==> final(self).state() == AppState::Default && final(self).error() is Error
                && cmds@.len() == 0,
            final(self).current_page == old(self).current_page,
            final(self).smmdb == old(self).smmdb,
            final(self).settings == old(self).settings,
    {
        match r {
            Ok(()) => {
                self.state = AppState::Loading;
                vec![Command::PersistSave]
            },
            Err(e) => {
                self.fail(slot_error_message(e));
                Vec::new()
            },
        }
    }

    fn swap_course(&mut self, first: usize, second: usize) -> (cmds: Vec<Command>)
        requires
            old(self).wf(),
        ensures
            final(self).wf(),
            is_busy(old(self).state()) ==> refused_busy(*old(self), *final(self), cmds@),
            !is_busy(old(self).state()) ==> match old(self).current_page {
                Page::Save(p) => mutated(
                    *old(self),
                    *final(self),
                    cmds@,
                    swap_error(p.save.view_slots().len() as int, first as int, second as int),
                    swapped(p.save.view_slots(), first as int, second as int),
                ),
                _ => final(self).slots() == old(self).slots() && cmds@.len() == 0,
            },
            final(self).catalog() == old(self).catalog(),
    {
        if self.state_is_busy() {
            self.error_state = AppErrorState::Error(busy_message());
            return Vec::new();
        }
        let r = match &mut self.current_page {
            Page::Save(p) => p.swap_courses(first, second),
            _ => {
                self.state = AppState::Default;
                return Vec::new();
            },
        };
        self.settle(r)
    }

    fn select(&mut self, next: AppState) -> (cmds: Vec<Command>)
        ensures
            selected(*old(self), *final(self), cmds@, next),
            final(self).wf() == old(self).wf(),
            final(self).current_page == old(self).current_page,
    {
        if self.state_is_busy() {
            self.error_state = AppErrorState::Error(busy_message());
        } else {
            self.state = next;
        }
        Vec::new()
    }

    fn state_is_busy(&self) -> (r: bool)
        ensures
            r == is_busy(self.state()),
    {
        match &self.state {
            AppState::Loading | AppState::Downloading { .. } => true,
            _ => false,
        }
    }

    fn delete_course(&mut self, index: usize) -> (cmds: Vec<Command>)
        requires
            old(self).wf(),
        ensures
            final(self).wf(),
            is_busy(old(self).state()) ==> refused_busy(*old(self), *final(self), cmds@),
            !is_busy(old(self).state()) ==> match old(self).current_page {
                Page::Save(p) => mutated(
                    *old(self),
                    *final(self),
                    cmds@,
                    if index < p.save.view_slots().len() { None } else { Some(SlotError::OutOfBounds) },
                    removed(p.save.view_slots(), index as int),
                ),
                _ => final(self).slots() == old(self).slots() && cmds@.len() == 0,
            },
            final(self).catalog() == old(self).catalog(),
    {
        if self.state_is_busy() {
            self.error_state = AppErrorState::Error(busy_message());
            return Vec::new();
        }
        let r = match &mut self.current_page {
            Page::Save(p) => p.delete_course(index),
            _ => {
                self.state = AppState::Default;
                return Vec::new();
            },
        };
        self.settle(r)
    }

    fn course_decoded(&mut self, index: usize, course: Result<Course, String>) -> (cmds: Vec<Command>)
        requires
            old(self).wf(),
        ensures
            final(self).wf(),
            match (old(self).current_page, course) {
                (Page::Save(p), Ok(c)) => mutated(
                    *old(self),
                    *final(self),
                    cmds@,
                    add_error(p.save.view_slots(), index as int),
                    added(p.save.view_slots(), index as int, c),
                ),
                _ => final(self).slots() == old(self).slots() && cmds@.len() == 0
                    && final(self).state() == AppState::Default,
            },
            course is Err ==> final(self).error() is Error,
            final(self).catalog() == old(self).catalog(),
    {
        let c = match course {
            Ok(c) => c,
            Err(e) => {
                self.fail(e);
                return Vec::new();
            },
        };
        let r = match &mut self.current_page {
            Page::Save(p) => p.add_course(index, c),
            _ => {
                self.state = AppState::Default;
                return Vec::new();
            },
        };
        self.settle(r)
    }

    fn course_uploaded(&mut self, index: usize, id: String) -> (cmds: Vec<Command>)
        requires
            old(self).wf(),
        ensures
            final(self).wf(),
            match old(self).current_page {
                Page::Save(p) => {
                    &&& mutated(
                        *old(self),
                        *final(self),
                        cmds@,
                        remote_id_error(p.save.view_slots(), index as int),
                        with_remote_id(p.save.view_slots(), index as int, id),
                    )
                    &&& remote_id_error(p.save.view_slots(), index as int) is None ==> {
                        &&& cmds@.len() == 3
                        &&& fetches_ids(cmds@[1], seq![id@], old(self).apikey())
                        &&& fetches_page(cmds@[2], old(self).query(), old(self).apikey())
                    }
                },
                _ => final(self).slots() == old(self).slots() && cmds@.len() == 0,
            },
            final(self).catalog() == old(self).catalog(),
            final(self).on_save_page() == old(self).on_save_page(),
    {
        let kept = id.clone();
        let r = match &mut self.current_page {
            Page::Save(p) => p.save.set_remote_id(index, id),
            _ => {
                self.state = AppState::Default;
                return Vec::new();
            },
        };
        let ok = r.is_ok();
        let mut cmds = self.settle(r);
        if ok {
            let query = query_for_ids(vec![kept]);
            assert(query.ids->Some_0@.map_values(|k: String| k@) =~= seq![kept@]);
            cmds.push(Command::FetchSaveCourses { query, apikey: self.apikey_copy() });
            cmds.push(self.fetch_page());
        }
        cmds
    }

    fn apikey_copy(&self) -> (r: Option<String>)
        ensures
            r == self.apikey(),
    {
        match &self.settings.apikey {
            Some(k) => Some(k.clone()),
            None => None,
        }
    }

    fn fetch_page(&self) -> (r: Command)
        ensures
            fetches_page(r, self.query(), self.apikey()),
    {
        Command::FetchCourses { query: self.smmdb.get_query_params().clone(), apikey: self.apikey_copy() }
    }

    fn load_save(&mut self, save: SaveContainer, display_name: String) -> (cmds: Vec<Command>)
        requires
            old(self).wf(),
        ensures
            final(self).wf(),
            final(self).slots() == Some(save.view_slots()),
            final(self).on_save_page(),
            final(self).state() == AppState::Default,
            final(self).error() is NoError,
            final(self).catalog() == old(self).catalog(),
            remote_ids(save.view_slots()).len() == 0 ==> cmds@.len() == 0,
            (remote_ids(save.view_slots()).len() > 0 <==> cmds@.len() == 1),
            remote_ids(save.view_slots()).len() > 0 ==> cmds@.len() == 1 && fetches_ids(
                cmds@[0],
                remote_ids(save.view_slots()),
                old(self).apikey(),
            ),
    {
        let ids = save.embedded_remote_ids();
        assert(ids@.len() == ids@.map_values(|k: String| k@).len());
        self.current_page = Page::Save(SavePage::new(save, display_name));
        self.state = AppState::Default;
        self.error_state = AppErrorState::NoError;
        if ids.len() == 0 {
            Vec::new()
        } else {
            vec![Command::FetchSaveCourses { query: query_for_ids(ids), apikey: self.apikey_copy() }]
        }
    }

    fn vote(&mut self, id: String, value: i32) -> (cmds: Vec<Command>)
        requires
            old(self).wf(),
        ensures
            final(self).wf(),
            old(self).apikey() is None ==> final(self).catalog() == old(self).catalog() && cmds@.len() == 0,
            old(self).apikey() matches Some(k) ==> {
                &&& vote_applied(old(self).catalog(), final(self).catalog(), id@, value)
                &&& cmds@ == seq![Command::Vote { id, value, key: k }]
            },
            final(self).slots() == old(self).slots(),
            final(self).state() == old(self).state(),
    {
        match &self.settings.apikey {
            Some(k) => {
                let key = k.clone();
                self.smmdb.set_own_vote(&id, value);
                vec![Command::Vote { id, value, key }]
            },
            None => Vec::new(),
        }
    }

    fn leave_settings(&mut self)
        ensures
            final(self).slots() == old(self).slots(),
            final(self).smmdb == old(self).smmdb,
            final(self).settings == old(self).settings,
            final(self).state == old(self).state,
            final(self).error_state == old(self).error_state,
    {
        let mut page = Page::Init(InitPage::new(Vec::new()));
        std::mem::swap(&mut self.current_page, &mut page);
        match page {
            Page::Settings(sp) => {
                self.current_page = sp.get_prev_page();
            },
            other => {
                self.current_page = other;
            },
        }
    }

    /// Decides on one event.
    pub fn update(&mut self, message: Message) -> (cmds: Vec<Command>)
        requires
            old(self).wf(),
        ensures
            final(self).wf(),
            match message {
                Message::LoadSave(save, _) => {
                    &&& final(self).slots() == Some(save.view_slots())
                    &&& final(self).state() == AppState::Default
                    &&& final(self).error() is NoError
                    &&& final(self).on_save_page()
                    &&& remote_ids(save.view_slots()).len() == 0 ==> cmds@.len() == 0
                    &&& remote_ids(save.view_slots()).len() > 0 ==> cmds@.len() == 1 && fetches_ids(
                        cmds@[0],
                        remote_ids(save.view_slots()),
                        old(self).apikey(),
                    )
                },
                Message::LoadSaveError(_) | Message::FetchError(_) => {
                    &&& final(self).state() == AppState::Default
                    &&& final(self).error() is Error
                    &&& final(self).slots() == old(self).slots()
                    &&& cmds@.len() == 0
                },
                Message::SwapCourse(first, second) => {
                    &&& is_busy(old(self).state()) ==> refused_busy(*old(self), *final(self), cmds@)
                    &&& !is_busy(old(self).state()) && old(self).on_save_page() ==> mutated(
                        *old(self),
                        *final(self),
                        cmds@,
                        swap_error(old(self).slots()->Some_0.len() as int, first as int, second as int),
                        swapped(old(self).slots()->Some_0, first as int, second as int),
                    )
                    &&& final(self).cache() == old(self).cache()
                },
                Message::DeleteCourse(index) => {
                    &&& is_busy(old(self).state()) ==> refused_busy(*old(self), *final(self), cmds@)
                    &&& !is_busy(old(self).state()) && old(self).on_save_page() ==> mutated(
                        *old(self),
                        *final(self),
                        cmds@,
                        if index < old(self).slots()->Some_0.len() { None } else { Some(SlotError::OutOfBounds) },
                        removed(old(self).slots()->Some_0, index as int),
                    )
                    &&& final(self).cache() == old(self).cache()
                },
                Message::CourseDecoded(index, Ok(c)) => {
                    &&& old(self).on_save_page() ==> mutated(
                        *old(self),
                        *final(self),
                        cmds@,
                        add_error(old(self).slots()->Some_0, index as int),
                        added(old(self).slots()->Some_0, index as int, c),
                    )
                    &&& final(self).cache() == old(self).cache()
                },
                Message::CourseDecoded(_, Err(_)) => {
                    &&& final(self).state() == AppState::Default
                    &&& final(self).error() is Error
                    &&& final(self).slots() == old(self).slots()
                },
                Message::CourseUploaded(index, id) => {
                    &&& old(self).on_save_page() ==> mutated(
                        *old(self),
                        *final(self),
                        cmds@,
                        remote_id_error(old(self).slots()->Some_0, index as int),
                        with_remote_id(old(self).slots()->Some_0, index as int, id),
                    )
                    &&& old(self).on_save_page() && remote_id_error(old(self).slots()->Some_0, index as int) is None
                        ==> cmds@.len() == 3 && fetches_ids(cmds@[1], seq![id@], old(self).apikey())
                        && fetches_page(cmds@[2], old(self).query(), old(self).apikey())
                    &&& final(self).cache() == old(self).cache()
                    &&& final(self).on_save_page() == old(self).on_save_page()
                },
                Message::SavePersisted(r) => {
                    &&& final(self).state() == AppState::Default
                    &&& (r is Ok <==> final(self).error() is NoError)
                    &&& final(self).slots() == old(self).slots()
                    &&& cmds@.len() == 0
                },
                Message::SetSaveCourseResponse(courses) => {
                    &&& final(self).cache() == upserted(old(self).cache(), courses@)
                    &&& final(self).catalog().page() == old(self).catalog().page()
                    &&& final(self).slots() == old(self).slots()
                    &&& final(self).on_save_page() == old(self).on_save_page()
                    &&& final(self).state() == old(self).state()
                    &&& cmds@.len() == 0
                },
                Message::SetSmmdbCourses(courses) => {
                    &&& final(self).cache() == upserted(old(self).cache(), courses@)
                    &&& final(self).catalog().page() == page_from(courses@)
                    &&& final(self).state() == AppState::Default
                    &&& final(self).error() is NoError
                    &&& cmds@.len() == page_from(courses@).len()
                    &&& forall|i: int| 0 <= i < cmds@.len() ==> is_thumbnail_fetch(#[trigger] cmds@[i], page_from(courses@)[i].0)
                },
                Message::InitSwapCourse(i) => selected(*old(self), *final(self), cmds@, AppState::SwapSelect(i)),
                Message::InitDownloadCourse(i) => selected(
                    *old(self),
                    *final(self),
                    cmds@,
                    AppState::DownloadSelect(i),
                ),
                Message::InitDeleteCourse(i) => selected(*old(self), *final(self), cmds@, AppState::DeleteSelect(i)),
                Message::InitUploadCourse(i) => selected(*old(self), *final(self), cmds@, AppState::UploadSelect(i)),
                Message::InitDeleteSmmdbCourse(id) => selected(
                    *old(self),
                    *final(self),
                    cmds@,
                    AppState::DeleteRemoteSelect(id),
                ),
                Message::DownloadCourse(i, id) => {
                    &&& is_busy(old(self).state()) ==> refused_busy(*old(self), *final(self), cmds@)
                    &&& !is_busy(old(self).state()) ==> final(self).state() == (AppState::Downloading {
                        save_index: i,
                        smmdb_id: id,
                        progress: 0,
                    })
                },
                Message::DownloadProgressed(p) => match old(self).state() {
                    AppState::Downloading { save_index, smmdb_id, progress } => match p {
                        Progress::Started => final(self).state() == (AppState::Downloading {
                            save_index,
                            smmdb_id,
                            progress: 0,
                        }),
                        Progress::Advanced(x) => final(self).state() == (AppState::Downloading {
                            save_index,
                            smmdb_id,
                            progress: x,
                        }),
                        Progress::Finished(data) => {
                            &&& final(self).state() == AppState::Loading
                            &&& cmds@.len() == 1
                            &&& cmds@[0] matches Command::DecodeCourse { index, data: d } && index == save_index
                                && d == data
                        },
                        Progress::Errored => {
                            &&& final(self).state() == AppState::Default
                            &&& final(self).error() is Error
                            &&& final(self).slots() == old(self).slots()
                        },
                    },
                    _ => final(self).state() == old(self).state() && cmds@.len() == 0,
                },
                Message::UpvoteCourse(id) => voted_with(*old(self), *final(self), cmds@, id, 1),
                Message::DownvoteCourse(id) => voted_with(*old(self), *final(self), cmds@, id, -1 as i32),
                Message::ResetCourseVote(id) => voted_with(*old(self), *final(self), cmds@, id, 0),
                Message::SetVoteCourse(id, v) => vote_applied(old(self).catalog(), final(self).catalog(), id@, v),
                Message::SmmdbCourseDeleted(id) => {
                    &&& final(self).cache() == old(self).cache().remove(id@)
                    &&& final(self).state() == AppState::Default
                },
                Message::TitleChanged(t) => final(self).query() == (QueryParams {
                    title: filter_of(t),
                    skip: 0,
                    ..old(self).query()
                }),
                Message::UploaderChanged(u) => final(self).query() == (QueryParams {
                    uploader: filter_of(u),
                    skip: 0,
                    ..old(self).query()
                }),
                Message::ApplyFilters => {
                    &&& final(self).query() == (QueryParams { skip: 0, ..old(self).query() })
                    &&& final(self).state() == AppState::Loading
                    &&& cmds@.len() == 1
                    &&& fetches_page(cmds@[0], final(self).query(), final(self).apikey())
                },
                Message::PaginateForward => {
                    &&& old(self).query().skip + old(self).query().limit <= u32::MAX ==> final(self).query().skip
                        == old(self).query().skip + old(self).query().limit
                    &&& cmds@.len() == 1
                    &&& fetches_page(cmds@[0], final(self).query(), final(self).apikey())
                },
                Message::PaginateBackward => {
                    &&& final(self).query().skip == if old(self).query().skip >= old(self).query().limit {
                        old(self).query().skip - old(self).query().limit
                    } else {
                        0
                    }
                    &&& cmds@.len() == 1
                    &&& fetches_page(cmds@[0], final(self).query(), final(self).apikey())
                },
                Message::ResetState => final(self).state() == AppState::Default && final(self).error() is NoError,
                Message::Empty | Message::SetWindowSize(_) | Message::SetSmmdbTab(_) => {
                    &&& final(self).state() == old(self).state()
                    &&& final(self).slots() == old(self).slots()
                    &&& final(self).catalog() == old(self).catalog()
                    &&& cmds@.len() == 0
                },
                Message::OpenSave(save) => {
                    &&& final(self).state() == AppState::Loading
                    &&& cmds@.len() == 1
                    &&& cmds@[0] matches Command::LoadSave { location, .. } && location == save.location
                },
                Message::UploadCourse(index) => {
                    &&& is_busy(old(self).state()) ==> refused_busy(*old(self), *final(self), cmds@)
                    &&& !is_busy(old(self).state()) ==> match old(self).apikey() {
                        Some(k) => old(self).on_save_page() ==> final(self).state() == AppState::Loading
                            && cmds@ == seq![Command::Upload { index, key: k }],
                        None => final(self).state() == AppState::Default && cmds@.len() == 0,
                    }
                    &&& final(self).slots() == old(self).slots()
                },
                Message::DeleteSmmdbCourse(id) => match old(self).apikey() {
                    Some(k) => final(self).state() == AppState::Loading && cmds@ == seq![
                        Command::DeleteRemote { id, key: k },
                    ],
                    None => final(self).state() == AppState::Default && cmds@.len() == 0,
                },
                Message::FetchSaveCourses(ids) => {
                    &&& final(self).state() == old(self).state()
                    &&& final(self).slots() == old(self).slots()
                    &&& final(self).catalog() == old(self).catalog()
                    &&& cmds@.len() == 1
                    &&& fetches_ids(cmds@[0], ids@.map_values(|k: String| k@), old(self).apikey())
                },
                Message::ReloadCourses => {
                    &&& final(self).state() == AppState::Loading
                    &&& final(self).query() == old(self).query()
                    &&& cmds@.len() == 1
                    &&& fetches_page(cmds@[0], old(self).query(), old(self).apikey())
                },
                Message::DifficultyChanged(d) => final(self).query() == (QueryParams {
                    difficulty: if d == Difficulty::Unset { None } else { Some(d) },
                    skip: 0,
                    ..old(self).query()
                }),
                Message::SortChanged(o) => final(self).query() == (QueryParams {
                    sort: Some(o),
                    skip: 0,
                    ..old(self).query()
                }),
                Message::SetSmmdbCourseThumbnail(t, id) => {
                    &&& final(self).catalog().page() == page_thumbnail(old(self).catalog().page(), id@, t)
                    &&& final(self).cache() == old(self).cache()
                },
                Message::RejectSettings(e) => final(self).error() == AppErrorState::Error(e)
                    && final(self).apikey() is None,
                Message::CloseSettings => final(self).slots() == old(self).slots() && final(self).error() is NoError,
                Message::OpenSettings => final(self).slots() == old(self).slots(),
                Message::FetchCourses(q) => {
                    &&& final(self).state() == old(self).state()
                    &&& final(self).slots() == old(self).slots()
                    &&& final(self).catalog() == old(self).catalog()
                    &&& cmds@ == seq![Command::FetchCourses { query: q, apikey: old(self).apikey() }]
                },
                Message::OpenCustomSave => {
                    &&& final(self).state() == AppState::Loading
                    &&& final(self).slots() == old(self).slots()
                    &&& cmds@ == seq![Command::PickSaveFolder]
                },
                Message::TrySaveSettings(st) => {
                    &&& final(self).state() == old(self).state()
                    &&& final(self).slots() == old(self).slots()
                    &&& final(self).apikey() == old(self).apikey()
                    &&& cmds@ == match st.apikey {
                        Some(k) => seq![Command::WriteSettings(st), Command::SignIn { settings: st, key: k }],
                        None => seq![Command::WriteSettings(st), Command::Dispatch(Message::SaveSettings(st))],
                    }
                },
                Message::SaveSettings(st) => {
                    &&& final(self).apikey() == st.apikey
                    &&& final(self).error() is NoError
                    &&& final(self).state() == old(self).state()
                    &&& final(self).slots() == old(self).slots()
                    &&& cmds@ == seq![Command::WriteSettings(st), Command::Dispatch(Message::ReloadCourses)]
                },
                Message::ChangeApiKey(k) => {
                    &&& final(self).slots() == old(self).slots()
                    &&& final(self).apikey() == old(self).apikey()
                    &&& cmds@.len() == 0
                    &&& match old(self).form() {
                        Some(f) => (final(self).form() matches Some(g) && g.settings.apikey == Some(k)
                            && g.has_changed && g.has_apikey == f.has_apikey),
                        None => final(self).form() is None,
                    }
                },
                Message::ResetApiKey => {
                    &&& final(self).slots() == old(self).slots()
                    &&& final(self).apikey() == old(self).apikey()
                    &&& cmds@.len() == 0
                    &&& match old(self).form() {
                        Some(f) => (final(self).form() matches Some(g) && g.settings.apikey is None
                            && g.has_changed == f.has_apikey && !g.has_apikey),
                        None => final(self).form() is None,
                    }
                },
            },
    {
        match message {
            Message::Empty => Vec::new(),
            Message::SetWindowSize(w) => {
                self.window_size = w;
                Vec::new()
            },
            Message::OpenSave(save) => {
                self.state = AppState::Loading;
                vec![Command::LoadSave { location: save.location, display_name: save.display_name }]
            },
            Message::OpenCustomSave => {
                self.state = AppState::Loading;
                vec![Command::PickSaveFolder]
            },
            Message::LoadSave(save, display_name) => self.load_save(save, display_name),
            Message::LoadSaveError(err) => {
                let mut text = String::from_str("Could not load save file. Full error:\n");
                text.append(err.as_str());
                self.fail(text);
                Vec::new()
            },
            Message::FetchSaveCourses(ids) => {
                let query = query_for_ids(ids);
                vec![Command::FetchSaveCourses { query, apikey: self.apikey_copy() }]
            },
            Message::FetchCourses(query) => vec![Command::FetchCourses { query, apikey: self.apikey_copy() }],
            Message::FetchError(err) => {
                self.fail(err);
                Vec::new()
            },
            Message::SetSaveCourseResponse(courses) => {
                self.smmdb.set_courses(courses, false);
                Vec::new()
            },
            Message::SetSmmdbCourses(courses) => {
                self.state = AppState::Default;
                self.error_state = AppErrorState::NoError;
                self.smmdb.set_courses(courses, true);
                let ids = self.smmdb.page_ids();
                proof {
                    let page = self.smmdb.page();
                    assert(ids@.map_values(|k: String| k@).len() == ids@.len());
                    assert(page.map_values(|e: (Seq<char>, SmmdbCoursePanel)| e.0).len() == page.len());
                    assert forall|i: int| 0 <= i < ids@.len() implies ids@[i]@ == page[i].0 by {
                        assert(ids@.map_values(|k: String| k@)[i] == page.map_values(
                            |e: (Seq<char>, SmmdbCoursePanel)| e.0,
                        )[i]);
                    }
                }
                thumbnail_fetches(ids)
            },
            Message::SetSmmdbCourseThumbnail(thumbnail, id) => {
                self.smmdb.set_course_panel_thumbnail(&id, thumbnail);
                Vec::new()
            },
            Message::InitSwapCourse(i) => self.select(AppState::SwapSelect(i)),
            Message::SwapCourse(first, second) => self.swap_course(first, second),
            Message::InitDownloadCourse(i) => self.select(AppState::DownloadSelect(i)),
            Message::DownloadCourse(save_index, smmdb_id) => {
                if self.state_is_busy() {
                    self.error_state = AppErrorState::Error(busy_message());
                    return Vec::new();
                }
                self.state = AppState::Downloading { save_index, smmdb_id, progress: 0 };
                Vec::new()
            },
            Message::DownloadProgressed(p) => {
                let (save_index, smmdb_id) = match &self.state {
                    AppState::Downloading { save_index, smmdb_id, .. } => (*save_index, smmdb_id.clone()),
                    _ => {
                        return Vec::new();
                    },
                };
                match p {
                    Progress::Started => {
                        self.state = AppState::Downloading { save_index, smmdb_id, progress: 0 };
                        Vec::new()
                    },
                    Progress::Advanced(x) => {
                        self.state = AppState::Downloading { save_index, smmdb_id, progress: x };
                        Vec::new()
                    },
                    Progress::Finished(data) => {
                        self.state = AppState::Loading;
                        vec![Command::DecodeCourse { index: save_index, data }]
                    },
                    Progress::Errored => {
                        self.fail(String::from_str("The download failed."));
                        Vec::new()
                    },
                }
            },
            Message::CourseDecoded(index, course) => self.course_decoded(index, course),
            Message::InitDeleteCourse(i) => self.select(AppState::DeleteSelect(i)),
            Message::DeleteCourse(index) => self.delete_course(index),
            Message::InitUploadCourse(i) => self.select(AppState::UploadSelect(i)),
            Message::UploadCourse(index) => {
                if self.state_is_busy() {
                    self.error_state = AppErrorState::Error(busy_message());
                    return Vec::new();
                }
                match (&self.settings.apikey, &self.current_page) {
                    (Some(k), Page::Save(_)) => {
                        let key = k.clone();
                        self.state = AppState::Loading;
                        vec![Command::Upload { index, key }]
                    },
                    _ => {
                        self.state = AppState::Default;
                        Vec::new()
                    },
                }
            },
            Message::CourseUploaded(index, id) => self.course_uploaded(index, id),
            Message::InitDeleteSmmdbCourse(id) => self.select(AppState::DeleteRemoteSelect(id)),
            Message::DeleteSmmdbCourse(id) => match &self.settings.apikey {
                Some(k) => {
                    let key = k.clone();
                    self.state = AppState::Loading;
                    vec![Command::DeleteRemote { id, key }]
                },
                None => {
                    self.state = AppState::Default;
                    Vec::new()
                },
            },
            Message::SmmdbCourseDeleted(id) => {
                self.smmdb.remove_course(&id);
                self.state = AppState::Default;
                self.error_state = AppErrorState::NoError;
                vec![self.fetch_page()]
            },
            Message::SavePersisted(r) => {
                match r {
                    Ok(()) => {
                        self.state = AppState::Default;
                        self.error_state = AppErrorState::NoError;
                    },
                    Err(e) => {
                        self.fail(e);
                    },
                }
                Vec::new()
            },
            Message::TitleChanged(t) => {
                self.smmdb.set_title(t);
                Vec::new()
            },
            Message::UploaderChanged(u) => {
                self.smmdb.set_uploader(u);
                Vec::new()
            },
            Message::DifficultyChanged(d) => {
                self.smmdb.set_difficulty(d);
                Vec::new()
            },
            Message::SortChanged(o) => {
                self.smmdb.set_sort(o);
                Vec::new()
            },
            Message::ApplyFilters => {
                self.state = AppState::Loading;
                self.smmdb.reset_pagination();
                vec![self.fetch_page()]
            },
            Message::PaginateForward => {
                let q = self.smmdb.get_query_params();
                if q.skip as u64 + q.limit as u64 <= u32::MAX as u64 {
                    self.smmdb.paginate_forward();
                }
                self.state = AppState::Loading;
                vec![self.fetch_page()]
            },
            Message::PaginateBackward => {
                let q = self.smmdb.get_query_params();
                if q.skip >= q.limit {
                    self.smmdb.paginate_backward();
                } else {
                    self.smmdb.reset_pagination();
                }
                self.state = AppState::Loading;
                vec![self.fetch_page()]
            },
            Message::ReloadCourses => {
                self.state = AppState::Loading;
                vec![self.fetch_page()]
            },
            Message::UpvoteCourse(id) => self.vote(id, 1),
            Message::DownvoteCourse(id) => self.vote(id, -1),
            Message::ResetCourseVote(id) => self.vote(id, 0),
            Message::SetVoteCourse(id, v) => {
                self.smmdb.set_own_vote(&id, v);
                Vec::new()
            },
            Message::OpenSettings => {
                let mut page = Page::Init(InitPage::new(Vec::new()));
                std::mem::swap(&mut self.current_page, &mut page);
                match page {
                    Page::Settings(sp) => {
                        self.current_page = Page::Settings(sp);
                    },
                    other => {
                        self.current_page = Page::Settings(SettingsPage::new(self.settings.clone(), other));
                    },
                }
                Vec::new()
            },
            Message::TrySaveSettings(settings) => {
                let write = Command::WriteSettings(settings.clone());
                match &settings.apikey {
                    Some(k) => {
                        let key = k.clone();
                        vec![write, Command::SignIn { settings, key }]
                    },
                    None => vec![write, Command::Dispatch(Message::SaveSettings(settings))],
                }
            },
            Message::SaveSettings(settings) => {
                let write = Command::WriteSettings(settings.clone());
                self.settings = settings;
                self.leave_settings();
                self.error_state = AppErrorState::NoError;
                vec![write, Command::Dispatch(Message::ReloadCourses)]
            },
            Message::RejectSettings(err) => {
                // a key that the catalog refuses leaves the user signed out
                self.settings.apikey = None;
                self.error_state = AppErrorState::Error(err);
                Vec::new()
            },
            Message::CloseSettings => {
                self.leave_settings();
                self.error_state = AppErrorState::NoError;
                Vec::new()
            },
            Message::ChangeApiKey(k) => {
                if let Page::Settings(sp) = &mut self.current_page {
                    sp.set_apikey(k);
                }
                Vec::new()
            },
            Message::ResetApiKey => {
                if let Page::Settings(sp) = &mut self.current_page {
                    sp.unset_apikey();
                }
                Vec::new()
            },
            Message::ResetState => {
                self.state = AppState::Default;
                self.error_state = AppErrorState::NoError;
                Vec::new()
            },
            Message::SetSmmdbTab(tab) => {
                if let Page::Save(p) = &mut self.current_page {
                    p.set_smmdb_tab(tab);
                }
                Vec::new()
            },
        }
    }
}

/// The catalog after a vote moved in it: the cache as `set_own_vote` leaves it.
pub open spec fn vote_applied(old: Smmdb, new: Smmdb, id: Seq<char>, value: i32) -> bool {
    &&& new.page() == page_voted(old.page(), id, value)
    &&& old.cache().contains_key(id) && vote_fits(old.cache()[id], value) ==> new.cache()
        == old.cache().insert(id, voted(old.cache()[id], value))
    &&& !(old.cache().contains_key(id) && vote_fits(old.cache()[id], value)) ==> new.cache() == old.cache()
    &&& new.query() == old.query()
}

/// A vote by the user: applied at once when signed in, and sent.
pub open spec fn voted_with(old: App, new: App, cmds: Seq<Command>, id: String, value: i32) -> bool {
    &&& old.apikey() is None ==> new.catalog() == old.catalog() && cmds.len() == 0
    &&& old.apikey() matches Some(k) ==> vote_applied(old.catalog(), new.catalog(), id@, value)
        && cmds == seq![Command::Vote { id, value, key: k }]
    &&& new.slots() == old.slots()
}

/// A catalog query for the page the query describes.
pub open spec fn fetches_page(c: Command, q: QueryParams, key: Option<String>) -> bool {
    match c {
        Command::FetchCourses { query, apikey } => same_query(query, q) && apikey == key,
        _ => false,
    }
}

pub open spec fn is_thumbnail_fetch(c: Command, id: Seq<char>) -> bool {
    c matches Command::FetchThumbnail(k) && k@ == id
}

/// A catalog query for the records of exactly these ids.
pub open spec fn fetches_ids(c: Command, ids: Seq<Seq<char>>, key: Option<String>) -> bool {
    match c {
        Command::FetchSaveCourses { query, apikey } => {
            &&& query.limit == 120
            &&& is_default_query(QueryParams { limit: 25, ids: None, ..query })
            &&& query.ids is Some
            &&& query.ids->Some_0@.map_values(|k: String| k@) == ids
            &&& apikey == key
        },
        _ => false,
    }
}

/// One thumbnail fetch per id, in order.
fn thumbnail_fetches(ids: Vec<String>) -> (r: Vec<Command>)
    ensures
        r@.len() == ids@.len(),
        forall|i: int| 0 <= i < r@.len() ==> is_thumbnail_fetch(#[trigger] r@[i], ids@[i]@),
{
    let mut ids = ids;
    let ghost all = ids@;
    let total = ids.len();
    let mut r: Vec<Command> = Vec::new();
    let mut done: usize = 0;
    while ids.len() > 0
        invariant
            done + ids@.len() == all.len(),
            all.len() == total,
            ids@ == all.skip(done as int),
            r@.len() == done,
            forall|i: int| 0 <= i < done ==> is_thumbnail_fetch(#[trigger] r@[i], all[i]@),
        decreases ids@.len(),
    {
        let id = ids.remove(0);
        r.push(Command::FetchThumbnail(id));
        done = done + 1;
        assert(ids@ =~= all.skip(done as int));
    }
    r
}

} // verus!
