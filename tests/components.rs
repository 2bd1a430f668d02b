use smmdb_client::app::{AppState, Message};
use smmdb_client::catalog::Smmdb;
use smmdb_client::components::{catalog_actions, custom_save_action, paging_actions, slot_actions, VotingPanel};
use smmdb_client::container::{Course, CourseEntry};
use smmdb_client::smmdb::{Course2Response, CourseHeader};

fn saved(id: Option<&str>) -> CourseEntry {
    CourseEntry::SavedCourse(Course {
        title: "t".to_string(),
        description: String::new(),
        thumbnail: vec![],
        smmdb_id: id.map(|s| s.to_string()),
        data: vec![],
    })
}

#[test]
fn slot_buttons_follow_the_state() {
    let c = saved(None);
    let a = slot_actions(&AppState::Default, 2, Some(&c), true);
    assert!(matches!(a.swap, Some(Message::InitSwapCourse(2))));
    assert!(matches!(a.delete, Some(Message::InitDeleteCourse(2))));
    assert!(matches!(a.upload, Some(Message::InitUploadCourse(2))));
    assert!(a.panel.is_none() && a.download.is_none() && a.confirm.is_none());
    let a = slot_actions(&AppState::SwapSelect(2), 2, Some(&c), false);
    assert!(matches!(a.swap, Some(Message::ResetState)));
    assert!(matches!(a.panel, Some(Message::SwapCourse(2, 2))));
    assert!(a.upload.is_none());
    let a = slot_actions(&AppState::SwapSelect(0), 2, Some(&c), true);
    assert!(matches!(a.panel, Some(Message::SwapCourse(0, 2))));
    assert!(matches!(a.swap, Some(Message::InitSwapCourse(2))));
    let a = slot_actions(&AppState::Loading, 2, Some(&c), true);
    assert!(a.swap.is_none() && a.delete.is_none() && a.upload.is_none());
    let a = slot_actions(&AppState::DeleteSelect(2), 2, Some(&c), true);
    assert!(matches!(a.confirm, Some(Message::DeleteCourse(2))));
    let a = slot_actions(&AppState::UploadSelect(2), 2, Some(&c), true);
    assert!(matches!(a.confirm, Some(Message::UploadCourse(2))));
    let downloading = AppState::Downloading { save_index: 5, smmdb_id: "x".to_string(), progress: 10 };
    let a = slot_actions(&downloading, 2, Some(&c), true);
    assert!(a.upload.is_none() && a.swap.is_none() && a.delete.is_none());
    let uploaded = saved(Some("r"));
    assert!(slot_actions(&AppState::Default, 0, Some(&uploaded), true).upload.is_none());
}

#[test]
fn empty_slot_offers_download() {
    let a = slot_actions(&AppState::Default, 1, None, true);
    assert!(matches!(a.download, Some(Message::InitDownloadCourse(1))));
    assert!(a.swap.is_none() && a.delete.is_none());
    let a = slot_actions(&AppState::DownloadSelect(1), 1, None, true);
    assert!(matches!(a.download, Some(Message::ResetState)));
    let downloading = AppState::Downloading { save_index: 1, smmdb_id: "x".to_string(), progress: 30 };
    let a = slot_actions(&downloading, 1, None, true);
    assert_eq!(a.progress, Some(30));
    assert!(a.download.is_none());
    assert_eq!(slot_actions(&downloading, 0, None, true).progress, None);
}

#[test]
fn vote_buttons() {
    let id = "c".to_string();
    let v = VotingPanel::new(&id, 1);
    assert!(matches!(&v.upvote, Message::ResetCourseVote(x) if x == "c"));
    assert!(matches!(&v.downvote, Message::DownvoteCourse(x) if x == "c"));
    let v = VotingPanel::new(&id, -1);
    assert!(matches!(&v.upvote, Message::UpvoteCourse(_)));
    assert!(matches!(&v.downvote, Message::ResetCourseVote(_)));
}

#[test]
fn catalog_buttons() {
    let course = Course2Response {
        id: "c1".to_string(),
        owner: "me".to_string(),
        uploader: "me".to_string(),
        difficulty: None,
        last_modified: 0,
        uploaded: 0,
        votes: 0,
        own_vote: 0,
        course: CourseHeader { title: String::new(), description: String::new() },
    };
    let me = "me".to_string();
    let other = "you".to_string();
    let a = catalog_actions(&AppState::DownloadSelect(4), &course, Some(&me));
    assert!(matches!(&a.panel, Some(Message::DownloadCourse(4, id)) if id == "c1"));
    assert!(matches!(&a.delete, Some(Message::InitDeleteSmmdbCourse(_))));
    assert!(catalog_actions(&AppState::Default, &course, Some(&other)).delete.is_none());
    let a = catalog_actions(&AppState::DeleteRemoteSelect("c1".to_string()), &course, Some(&me));
    assert!(matches!(a.delete, Some(Message::ResetState)));
    assert!(matches!(&a.confirm, Some(Message::DeleteSmmdbCourse(id)) if id == "c1"));
}

#[test]
fn paging_buttons() {
    let mut s = Smmdb::new(None);
    let page: Vec<Course2Response> = (0..25)
        .map(|i| Course2Response {
            id: format!("c{}", i),
            owner: String::new(),
            uploader: String::new(),
            difficulty: None,
            last_modified: i,
            uploaded: 0,
            votes: 0,
            own_vote: 0,
            course: CourseHeader { title: String::new(), description: String::new() },
        })
        .collect();
    s.set_courses(page, true);
    let a = paging_actions(&AppState::Default, &s);
    assert!(a.backward.is_none());
    assert!(matches!(a.forward, Some(Message::PaginateForward)));
    s.paginate_forward();
    let a = paging_actions(&AppState::Default, &s);
    assert!(matches!(a.backward, Some(Message::PaginateBackward)));
    let a = paging_actions(&AppState::Loading, &s);
    assert!(a.backward.is_none() && a.forward.is_none());
    assert!(custom_save_action(&AppState::Loading).is_none());
    assert!(matches!(custom_save_action(&AppState::Default), Some(Message::OpenCustomSave)));
}
