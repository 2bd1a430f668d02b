//! What the panels of the client offer: for each button, the event it sends
//! in the current state, or `None` where it is disabled or absent.
use vstd::prelude::*;
use crate::app::{AppState, Message};
use crate::container::{CourseEntry, slot_remote_id};
use crate::catalog::Smmdb;
use crate::smmdb::Course2Response;

verus! {

/// The buttons of a save slot.
pub struct SlotActions {
    /// Pressing the slot itself: the target of a pending swap.
    pub panel: Option<Message>,
    pub swap: Option<Message>,
    pub delete: Option<Message>,
    pub upload: Option<Message>,
    pub download: Option<Message>,
    /// The confirming button of a pending delete or upload of this slot.
    pub confirm: Option<Message>,
    /// Percent received while a course downloads into this slot.
    pub progress: Option<u32>,
}

/// A toggle: pressing it again while its own selection is pending cancels it;
/// it is disabled while loading or downloading.
pub open spec fn toggle(busy: bool, selected: Option<usize>, index: usize, start: Message) -> Option<Message> {
    if busy {
        None
    } else if selected == Some(index) {
        Some(Message::ResetState)
    } else {
        Some(start)
    }
}

pub open spec fn busy(s: AppState) -> bool {
    s is Loading || s is Downloading
}

pub open spec fn swap_selected(s: AppState) -> Option<usize> {
    match s {
        AppState::SwapSelect(i) => Some(i),
        _ => None,
    }
}

pub open spec fn delete_selected(s: AppState) -> Option<usize> {
    match s {
        AppState::DeleteSelect(i) => Some(i),
        _ => None,
    }
}

pub open spec fn download_selected(s: AppState) -> Option<usize> {
    match s {
        AppState::DownloadSelect(i) => Some(i),
        _ => None,
    }
}

fn selected_index(state: &AppState) -> (r: (Option<usize>, Option<usize>, Option<usize>))
    ensures
        r == (swap_selected(*state), delete_selected(*state), download_selected(*state)),
{
    match state {
        AppState::SwapSelect(i) => (Some(*i), None, None),
        AppState::DeleteSelect(i) => (None, Some(*i), None),
        AppState::DownloadSelect(i) => (None, None, Some(*i)),
        _ => (None, None, None),
    }
}

fn toggle_button(busy: bool, selected: Option<usize>, index: usize, start: Message) -> (r: Option<Message>)
    ensures
        r == toggle(busy, selected, index, start),
{
    if busy {
        None
    } else if selected == Some(index) {
        Some(Message::ResetState)
    } else {
        Some(start)
    }
}

/// The buttons of slot `index`, holding `slot`, when the user is signed in
/// or not.
pub fn slot_actions(state: &AppState, index: usize, slot: Option<&CourseEntry>, signed_in: bool) -> (r: SlotActions)
    ensures
        r.panel == match *state {
            AppState::SwapSelect(i) => Some(Message::SwapCourse(i, index)),
            _ => None,
        },
        slot is Some ==> {
            &&& r.swap == toggle(busy(*state), swap_selected(*state), index, Message::InitSwapCourse(index))
            &&& r.delete == toggle(busy(*state), delete_selected(*state), index, Message::InitDeleteCourse(index))
            &&& r.download is None
            &&& r.progress is None
        },
        slot is None ==> {
            &&& r.swap is None
            &&& r.delete is None
            &&& r.upload is None
            &&& r.download == toggle(busy(*state), download_selected(*state), index, Message::InitDownloadCourse(index))
            &&& r.progress == match *state {
                AppState::Downloading { save_index, progress, .. } => if save_index == index {
                    Some(progress)
                } else {
                    None::<u32>
                },
                _ => None,
            }
        },
        r.upload == if slot matches Some(CourseEntry::SavedCourse(_)) && signed_in && !busy(*state)
            && slot_remote_id(Some(*slot->Some_0)) is None {
            Some(Message::InitUploadCourse(index))
        } else {
            None
        },
        r.confirm == if slot is Some && *state == AppState::DeleteSelect(index) {
            Some(Message::DeleteCourse(index))
        } else if slot is Some && *state == AppState::UploadSelect(index) {
            Some(Message::UploadCourse(index))
        } else {
            None
        },
{
    let is_busy = match state {
        AppState::Loading | AppState::Downloading { .. } => true,
        _ => false,
    };
    let (swap_sel, delete_sel, download_sel) = selected_index(state);
    let panel = match state {
        AppState::SwapSelect(i) => Some(Message::SwapCourse(*i, index)),
        _ => None,
    };
    match slot {
        Some(entry) => {
            let no_remote_course = match entry {
                CourseEntry::SavedCourse(c) => c.smmdb_id.is_none(),
                CourseEntry::CorruptedCourse(_) => false,
            };
            let upload = if no_remote_course && signed_in && !is_busy {
                Some(Message::InitUploadCourse(index))
            } else {
                None
            };
            let confirm = match state {
                AppState::DeleteSelect(i) => if *i == index {
                    Some(Message::DeleteCourse(index))
                } else {
                    None
                },
                AppState::UploadSelect(i) => if *i == index {
                    Some(Message::UploadCourse(index))
                } else {
                    None
                },
                _ => None,
            };
            SlotActions {
                panel,
                swap: toggle_button(is_busy, swap_sel, index, Message::InitSwapCourse(index)),
                delete: toggle_button(is_busy, delete_sel, index, Message::InitDeleteCourse(index)),
                upload,
                download: None,
                confirm,
                progress: None,
            }
        },
        None => {
            let progress = match state {
                AppState::Downloading { save_index, progress, .. } => if *save_index == index {
                    Some(*progress)
                } else {
                    None
                },
                _ => None,
            };
            SlotActions {
                panel,
                swap: None,
                delete: None,
                upload: None,
                download: toggle_button(is_busy, download_sel, index, Message::InitDownloadCourse(index)),
                confirm: None,
                progress,
            }
        },
    }
}

/// The two vote buttons of a catalog course.
pub struct VotingPanel {
    pub upvote: Message,
    pub downvote: Message,
}

impl VotingPanel {
    /// A vote button that is already the own vote takes the vote back.
    pub fn new(course_id: &String, own_vote: i32) -> (r: VotingPanel)
        ensures
            r.upvote == if own_vote > 0 {
                Message::ResetCourseVote(*course_id)
            } else {
                Message::UpvoteCourse(*course_id)
            },
            r.downvote == if own_vote < 0 {
                Message::ResetCourseVote(*course_id)
            } else {
                Message::DownvoteCourse(*course_id)
            },
    {
        let upvote = if own_vote > 0 {
            Message::ResetCourseVote(course_id.clone())
        } else {
            Message::UpvoteCourse(course_id.clone())
        };
        let downvote = if own_vote < 0 {
            Message::ResetCourseVote(course_id.clone())
        } else {
            Message::DownvoteCourse(course_id.clone())
        };
        VotingPanel { upvote, downvote }
    }
}

/// The buttons of a course of the catalog page.
pub struct CatalogActions {
    /// Pressing the course while a slot waits for a download: download it there.
    pub panel: Option<Message>,
    /// Deleting from the catalog, offered to the course's owner.
    pub delete: Option<Message>,
    pub confirm: Option<Message>,
}

pub fn catalog_actions(state: &AppState, course: &Course2Response, user_id: Option<&String>) -> (r: CatalogActions)
    ensures
        r.panel == match *state {
            AppState::DownloadSelect(i) => Some(Message::DownloadCourse(i, course.id)),
            _ => None,
        },
        r.delete == if user_id matches Some(u) && u@ == course.owner@ {
            if busy(*state) {
                None
            } else if state matches AppState::DeleteRemoteSelect(id) && id@ == course.id@ {
                Some(Message::ResetState)
            } else {
                Some(Message::InitDeleteSmmdbCourse(course.id))
            }
        } else {
            None
        },
        r.confirm == if state matches AppState::DeleteRemoteSelect(id) && id@ == course.id@ {
            Some(Message::DeleteSmmdbCourse(course.id))
        } else {
            None
        },
{
    let panel = match state {
        AppState::DownloadSelect(i) => Some(Message::DownloadCourse(*i, course.id.clone())),
        _ => None,
    };
    let selected = match state {
        AppState::DeleteRemoteSelect(id) => *id == course.id,
        _ => false,
    };
    let is_busy = match state {
        AppState::Loading | AppState::Downloading { .. } => true,
        _ => false,
    };
    let owner = match user_id {
        Some(u) => *u == course.owner,
        None => false,
    };
    let delete = if !owner || is_busy {
        None
    } else if selected {
        Some(Message::ResetState)
    } else {
        Some(Message::InitDeleteSmmdbCourse(course.id.clone()))
    };
    let confirm = if selected {
        Some(Message::DeleteSmmdbCourse(course.id.clone()))
    } else {
        None
    };
    CatalogActions { panel, delete, confirm }
}

/// The paging buttons of the catalog page.
pub struct PagingActions {
    pub backward: Option<Message>,
    pub forward: Option<Message>,
}

/// Paging is offered where there is a page to go to, and not while loading
/// or downloading.
pub fn paging_actions(state: &AppState, smmdb: &Smmdb) -> (r: PagingActions)
    ensures
        r.backward == if !busy(*state) && smmdb.query().skip > 0 {
            Some(Message::PaginateBackward)
        } else {
            None
        },
        r.forward == if !busy(*state) && smmdb.page().len() == smmdb.query().limit {
            Some(Message::PaginateForward)
        } else {
            None
        },
{
    let is_busy = match state {
        AppState::Loading | AppState::Downloading { .. } => true,
        _ => false,
    };
    let backward = if !is_busy && smmdb.can_paginate_backward() {
        Some(Message::PaginateBackward)
    } else {
        None
    };
    let forward = if !is_busy && smmdb.can_paginate_forward() {
        Some(Message::PaginateForward)
    } else {
        None
    };
    PagingActions { backward, forward }
}

/// Opening a save from the first page is not offered while one loads.
pub fn custom_save_action(state: &AppState) -> (r: Option<Message>)
    ensures
        r == if *state is Loading { None } else { Some(Message::OpenCustomSave) },
{
    match state {
        AppState::Loading => None,
        _ => Some(Message::OpenCustomSave),
    }
}

} // verus!
