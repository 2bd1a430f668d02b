use smmdb_client::app::{App, AppErrorState, AppState, Command, Message, Subscription};
use smmdb_client::container::{Course, CourseEntry, SaveContainer};
use smmdb_client::download::{percent_of, step, Download, DownloadEvent, Progress, State};
use smmdb_client::endpoints::{auth_header, courses_url, login_url, request_outcome, sign_in_outcome, thumbnail_url, vote_url};
use smmdb_client::pages::SettingsPage;
use smmdb_client::settings::Settings;
use smmdb_client::smmdb::{Course2Response, CourseHeader};

fn course(title: &str, id: Option<&str>) -> Course {
    Course {
        title: title.to_string(),
        description: String::new(),
        thumbnail: vec![],
        smmdb_id: id.map(|s| s.to_string()),
        data: vec![1],
    }
}

fn resp(id: &str, votes: i32) -> Course2Response {
    Course2Response {
        id: id.to_string(),
        owner: "o".to_string(),
        uploader: "u".to_string(),
        difficulty: None,
        last_modified: 0,
        uploaded: 0,
        votes,
        own_vote: 0,
        course: CourseHeader { title: "t".to_string(), description: String::new() },
    }
}

fn signed_in_app() -> App {
    let (app, cmds) = App::new(vec![], Settings { apikey: Some("key".to_string()) });
    assert_eq!(cmds.len(), 2);
    assert!(matches!(cmds[0], Command::FetchCourses { .. }));
    assert!(matches!(&cmds[1], Command::SignIn { key, .. } if key == "key"));
    app
}

fn open_save(app: &mut App, slots: Vec<Option<CourseEntry>>) -> Vec<Command> {
    app.update(Message::LoadSave(SaveContainer::open("/s".to_string(), slots), "My save".to_string()))
}

fn slot_title(app: &App, i: usize) -> Option<String> {
    match app.get_page() {
        smmdb_client::Page::Save(p) => match p.save.get_slot(i) {
            Some(CourseEntry::SavedCourse(c)) => Some(c.title.clone()),
            _ => None,
        },
        _ => None,
    }
}

#[test]
fn upload_then_metadata_annotates_slot() {
    let mut app = signed_in_app();
    let cmds = open_save(&mut app, vec![Some(CourseEntry::SavedCourse(course("A", None))), Some(CourseEntry::SavedCourse(course("B", None)))]);
    assert!(cmds.is_empty());
    assert!(app.annotation(1).is_none());
    app.update(Message::InitUploadCourse(1));
    let cmds = app.update(Message::UploadCourse(1));
    assert!(matches!(&cmds[..], [Command::Upload { index: 1, .. }]));
    let cmds = app.update(Message::CourseUploaded(1, "new1".to_string()));
    assert_eq!(cmds.len(), 3);
    assert!(matches!(cmds[0], Command::PersistSave));
    match &cmds[1] {
        Command::FetchSaveCourses { query, .. } => assert_eq!(query.ids, Some(vec!["new1".to_string()])),
        _ => panic!("expected a fetch of the uploaded id"),
    }
    assert!(matches!(cmds[2], Command::FetchCourses { .. }));
    app.update(Message::SavePersisted(Ok(())));
    app.update(Message::SetSaveCourseResponse(vec![resp("new1", 3)]));
    let a = app.annotation(1).expect("slot 1 is annotated");
    assert_eq!(a.id, "new1");
    assert_eq!(a.votes, 3);
    assert!(app.annotation(0).is_none());
    assert!(matches!(app.get_state(), AppState::Default));
}

#[test]
fn opening_a_save_fetches_its_ids() {
    let mut app = signed_in_app();
    let cmds = open_save(&mut app, vec![Some(CourseEntry::SavedCourse(course("A", Some("r1")))), None]);
    match &cmds[..] {
        [Command::FetchSaveCourses { query, apikey }] => {
            assert_eq!(query.limit, 120);
            assert_eq!(query.ids, Some(vec!["r1".to_string()]));
            assert_eq!(apikey.as_deref(), Some("key"));
        }
        _ => panic!("expected one fetch"),
    }
}

#[test]
fn swap_through_the_client() {
    let mut app = signed_in_app();
    open_save(&mut app, vec![Some(CourseEntry::SavedCourse(course("A", None))), Some(CourseEntry::SavedCourse(course("B", None))), None]);
    app.update(Message::InitSwapCourse(0));
    assert!(matches!(app.subscription(), Subscription::Escape));
    let cmds = app.update(Message::SwapCourse(0, 1));
    assert!(matches!(&cmds[..], [Command::PersistSave]));
    assert!(matches!(app.get_state(), AppState::Loading));
    assert_eq!(slot_title(&app, 0).as_deref(), Some("B"));
    // a selection while the first change is written is refused
    app.update(Message::InitDeleteCourse(1));
    assert!(matches!(app.get_state(), AppState::Loading));
    // a second change while the first is written is refused
    let cmds = app.update(Message::DeleteCourse(0));
    assert!(cmds.is_empty());
    assert!(matches!(app.get_error_state(), AppErrorState::Error(_)));
    assert_eq!(slot_title(&app, 0).as_deref(), Some("B"));
    app.update(Message::SavePersisted(Ok(())));
    assert!(matches!(app.get_error_state(), AppErrorState::NoError));
    let cmds = app.update(Message::SwapCourse(2, 2));
    assert!(cmds.is_empty());
    assert!(matches!(app.get_error_state(), AppErrorState::Error(_)));
    let cmds = app.update(Message::DeleteCourse(0));
    assert!(matches!(&cmds[..], [Command::PersistSave]));
    assert_eq!(slot_title(&app, 0), None);
}

#[test]
fn failed_write_is_shown() {
    let mut app = signed_in_app();
    open_save(&mut app, vec![Some(CourseEntry::SavedCourse(course("A", None))), None]);
    app.update(Message::SwapCourse(0, 1));
    app.update(Message::SavePersisted(Err("disk full".to_string())));
    assert!(matches!(app.get_state(), AppState::Default));
    match app.get_error_state() {
        AppErrorState::Error(e) => assert_eq!(e, "disk full"),
        _ => panic!("error expected"),
    }
    // the change stays in memory
    assert_eq!(slot_title(&app, 1).as_deref(), Some("A"));
}

#[test]
fn download_into_empty_slot() {
    let mut app = signed_in_app();
    open_save(&mut app, vec![None, None]);
    app.update(Message::DownloadCourse(1, "r9".to_string()));
    match app.subscription() {
        Subscription::Download(d) => assert_eq!(d.url, "http://localhost:3030/courses2/download/r9"),
        _ => panic!("download expected"),
    }
    app.update(Message::DownloadProgressed(Progress::Started));
    app.update(Message::DownloadProgressed(Progress::Advanced(40)));
    app.update(Message::InitUploadCourse(0));
    assert!(matches!(app.get_state(), AppState::Downloading { .. }));
    assert!(matches!(app.get_state(), AppState::Downloading { progress: 40, .. }));
    let cmds = app.update(Message::DownloadProgressed(Progress::Finished(vec![5, 6])));
    assert!(matches!(&cmds[..], [Command::DecodeCourse { index: 1, .. }]));
    let cmds = app.update(Message::CourseDecoded(1, Ok(course("D", Some("r9")))));
    assert!(matches!(&cmds[..], [Command::PersistSave]));
    assert_eq!(slot_title(&app, 1).as_deref(), Some("D"));
}

#[test]
fn failed_download_leaves_slot_empty() {
    let mut app = signed_in_app();
    open_save(&mut app, vec![None]);
    app.update(Message::DownloadCourse(0, "r9".to_string()));
    app.update(Message::DownloadProgressed(Progress::Errored));
    assert!(matches!(app.get_state(), AppState::Default));
    assert!(matches!(app.get_error_state(), AppErrorState::Error(_)));
    assert_eq!(slot_title(&app, 0), None);
}

#[test]
fn escape_cancels_selection() {
    let mut app = signed_in_app();
    app.update(Message::InitDeleteCourse(3));
    assert!(matches!(app.get_state(), AppState::DeleteSelect(3)));
    app.update(Message::ResetState);
    assert!(matches!(app.get_state(), AppState::Default));
    assert!(matches!(app.subscription(), Subscription::Nothing));
}

#[test]
fn votes_apply_at_once_and_are_sent() {
    let mut app = signed_in_app();
    let cmds = app.update(Message::SetSmmdbCourses(vec![resp("abc", 10), resp("d", 1)]));
    assert_eq!(cmds.len(), 2);
    assert!(matches!(&cmds[0], Command::FetchThumbnail(id) if id == "abc"));
    let cmds = app.update(Message::UpvoteCourse("abc".to_string()));
    assert!(matches!(&cmds[..], [Command::Vote { value: 1, .. }]));
    assert_eq!(app.get_smmdb().get_course_responses().get(&"abc".to_string()).unwrap().votes, 11);
    app.update(Message::ResetCourseVote("abc".to_string()));
    assert_eq!(app.get_smmdb().get_course_responses().get(&"abc".to_string()).unwrap().votes, 10);
    let (mut anon, _) = App::new(vec![], Settings { apikey: None });
    anon.update(Message::SetSmmdbCourses(vec![resp("abc", 10)]));
    assert!(anon.update(Message::DownvoteCourse("abc".to_string())).is_empty());
    assert_eq!(anon.get_smmdb().get_course_responses().get(&"abc".to_string()).unwrap().votes, 10);
}

#[test]
fn settings_round_trip() {
    let mut app = signed_in_app();
    open_save(&mut app, vec![Some(CourseEntry::SavedCourse(course("A", None)))]);
    app.update(Message::OpenSettings);
    assert!(matches!(app.get_page(), smmdb_client::Page::Settings(_)));
    app.update(Message::ChangeApiKey("other".to_string()));
    let cmds = app.update(Message::TrySaveSettings(Settings { apikey: Some("other".to_string()) }));
    assert!(matches!(&cmds[..], [Command::WriteSettings(_), Command::SignIn { .. }]));
    app.update(Message::RejectSettings("bad key".to_string()));
    assert!(matches!(app.get_error_state(), AppErrorState::Error(_)));
    assert!(app.get_settings().apikey.is_none());
    app.update(Message::CloseSettings);
    assert_eq!(slot_title(&app, 0).as_deref(), Some("A"));
    let mut page = SettingsPage::new(Settings { apikey: Some("k".to_string()) }, smmdb_client::Page::Init(smmdb_client::pages::InitPage::new(vec![])));
    assert!(page.has_apikey && page.settings.apikey.is_none() && !page.has_changed);
    page.unset_apikey();
    assert!(page.has_changed && !page.has_apikey);
}

#[test]
fn download_steps() {
    let (p, s) = step(State::Ready("u".to_string()), DownloadEvent::Responded(Some(4)));
    assert!(matches!(p, Some(Progress::Started)));
    let (p, s) = step(s, DownloadEvent::Chunk(vec![1, 2, 3]));
    assert!(matches!(p, Some(Progress::Advanced(75))));
    let (p, s) = step(s, DownloadEvent::Chunk(vec![4]));
    assert!(matches!(p, Some(Progress::Advanced(100))));
    let (p, s) = step(s, DownloadEvent::Ended);
    match p {
        Some(Progress::Finished(d)) => assert_eq!(d, vec![1, 2, 3, 4]),
        _ => panic!("finished expected"),
    }
    let (p, s) = step(s, DownloadEvent::Chunk(vec![9]));
    assert!(p.is_none() && matches!(s, State::Finished));
    let (p, _) = step(State::Ready("u".to_string()), DownloadEvent::Responded(None));
    assert!(matches!(p, Some(Progress::Errored)));
    assert_eq!(percent_of(1, 3), 33);
    assert_eq!(percent_of(5, 0), 100);
    assert_eq!(percent_of(10, 5), 100);
    assert_eq!(Download::for_course("a").url, "http://localhost:3030/courses2/download/a");
}

#[test]
fn catalog_addresses() {
    assert_eq!(thumbnail_url("x1"), "http://localhost:3030/courses2/thumbnail/x1?size=m");
    assert_eq!(vote_url("x1"), "http://localhost:3030/courses2/vote/x1");
    assert_eq!(courses_url("limit=25"), "http://localhost:3030/courses2?limit=25");
    assert_eq!(login_url(), "http://localhost:3030/login");
    assert_eq!(auth_header("k"), "APIKEY k");
    assert!(sign_in_outcome(true).is_ok());
    assert_eq!(request_outcome(true, "The vote", "200 OK"), Ok(()));
    assert_eq!(request_outcome(false, "The vote", "403 Forbidden"), Err("The vote was refused (403 Forbidden).".to_string()));
    assert_eq!(sign_in_outcome(false), Err("Could not sign in! Your API key seems to be wrong.".to_string()));
}
