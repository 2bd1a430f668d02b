use smmdb_client::cache::CatalogCache;
use smmdb_client::catalog::{select_page, Smmdb};
use smmdb_client::smmdb::{
    is_true, limit_default, sort_options, Course2Response, CourseHeader, Difficulty, QueryParams,
    Sort, SortOptions, SortValue, VoteBody,
};

fn resp(id: &str, votes: i32, own_vote: i32, last_modified: i64) -> Course2Response {
    Course2Response {
        id: id.to_string(),
        owner: "owner".to_string(),
        uploader: "up".to_string(),
        difficulty: Some(Difficulty::Easy),
        last_modified,
        uploaded: 1,
        votes,
        own_vote,
        course: CourseHeader { title: format!("Mario {}", id), description: String::new() },
    }
}

#[test]
fn vote_moves_count_and_back() {
    let mut cache = CatalogCache::new();
    cache.upsert(resp("abc", 10, 0, 5));
    assert!(cache.apply_vote(&"abc".to_string(), 1));
    let r = cache.get(&"abc".to_string()).unwrap();
    assert_eq!((r.votes, r.own_vote), (11, 1));
    assert!(cache.apply_vote(&"abc".to_string(), 0));
    let r = cache.get(&"abc".to_string()).unwrap();
    assert_eq!((r.votes, r.own_vote), (10, 0));
}

#[test]
fn vote_from_downvote_to_upvote_moves_by_two() {
    let mut r = resp("a", 7, -1, 0);
    r.set_own_vote(1);
    assert_eq!((r.get_votes(), r.get_own_vote()), (9, 1));
    r.set_own_vote(-1);
    assert_eq!((r.get_votes(), r.get_own_vote()), (7, -1));
}

#[test]
fn vote_on_unknown_course_changes_nothing() {
    let mut cache = CatalogCache::new();
    cache.upsert(resp("abc", 10, 0, 5));
    assert!(!cache.apply_vote(&"zzz".to_string(), 1));
    assert_eq!(cache.get(&"abc".to_string()).unwrap().votes, 10);
    assert!(cache.get(&"zzz".to_string()).is_none());
}

#[test]
fn vote_that_would_overflow_is_not_applied() {
    let mut cache = CatalogCache::new();
    cache.upsert(resp("m", i32::MAX, 0, 5));
    assert!(!cache.apply_vote(&"m".to_string(), 1));
    assert_eq!(cache.get(&"m".to_string()).unwrap().votes, i32::MAX);
}

#[test]
fn upsert_twice_is_upsert_once() {
    let items = vec![resp("a", 1, 0, 1), resp("b", 2, 0, 2), resp("a", 3, 0, 3)];
    let mut once = CatalogCache::new();
    once.upsert_many(items.clone());
    let mut twice = CatalogCache::new();
    twice.upsert_many(items.clone());
    twice.upsert_many(items);
    for id in ["a", "b"] {
        let x = once.get(&id.to_string()).unwrap();
        let y = twice.get(&id.to_string()).unwrap();
        assert_eq!((x.votes, x.last_modified), (y.votes, y.last_modified));
    }
    // the later record of an id wins
    assert_eq!(once.get(&"a".to_string()).unwrap().votes, 3);
    assert!(twice.get(&"c".to_string()).is_none());
}

#[test]
fn upsert_replaces_by_id() {
    let mut cache = CatalogCache::new();
    cache.upsert_many(vec![resp("a", 1, 0, 1)]);
    cache.upsert_many(vec![resp("a", 5, 1, 9), resp("c", 0, 0, 0)]);
    let a = cache.get(&"a".to_string()).unwrap();
    assert_eq!((a.votes, a.own_vote, a.last_modified), (5, 1, 9));
    assert!(cache.get(&"c".to_string()).is_some());
}

#[test]
fn remove_forgets_a_course() {
    let mut cache = CatalogCache::new();
    cache.upsert_many(vec![resp("a", 1, 0, 1), resp("b", 2, 0, 2)]);
    cache.remove(&"a".to_string());
    assert!(cache.get(&"a".to_string()).is_none());
    assert_eq!(cache.get(&"b".to_string()).unwrap().votes, 2);
}

#[test]
fn default_query() {
    let q = QueryParams::default();
    assert_eq!(q.limit, 25);
    assert_eq!(limit_default(), 25);
    assert!(is_true());
    assert_eq!(q.skip, 0);
    assert!(q.title_trimmed);
    assert!(!q.title_exact && !q.title_case_sensitive);
    assert_eq!(q.get_title(), "");
    assert_eq!(q.get_uploader(), "");
    assert!(q.get_sort().is_none());
    assert!(q.get_difficulty().is_none());
}

#[test]
fn filters_and_pagination() {
    let mut s = Smmdb::new(None);
    s.paginate_forward();
    assert_eq!(s.get_query_params().skip, 25);
    assert!(s.can_paginate_backward());
    s.set_title("Mario".to_string());
    assert_eq!(s.get_query_params().get_title(), "Mario");
    assert_eq!(s.get_query_params().skip, 0);
    s.set_title(String::new());
    assert!(s.get_query_params().title.is_none());
    s.set_uploader("bob".to_string());
    assert_eq!(s.get_query_params().get_uploader(), "bob");
    s.set_difficulty(Difficulty::Expert);
    assert_eq!(s.get_query_params().get_difficulty(), Some(Difficulty::Expert));
    s.set_difficulty(Difficulty::Unset);
    assert_eq!(s.get_query_params().get_difficulty(), None);
    s.set_sort(SortOptions::by_votes());
    assert!(s.get_query_params().get_sort() == Some(SortOptions::by_votes()));
    s.paginate_forward();
    s.paginate_forward();
    s.paginate_backward();
    assert_eq!(s.get_query_params().skip, 25);
    s.reset_pagination();
    assert!(!s.can_paginate_backward());
}

#[test]
fn full_page_allows_forward() {
    let mut s = Smmdb::new(Some("k".to_string()));
    let page: Vec<Course2Response> = (0..25).map(|i| resp(&format!("c{}", i), 0, 0, i)).collect();
    s.set_courses(page, true);
    assert!(s.can_paginate_forward());
    s.set_courses(vec![resp("x", 0, 0, 0)], true);
    assert!(!s.can_paginate_forward());
    assert_eq!(s.page_len(), 1);
}

#[test]
fn page_keeps_first_position_and_last_record() {
    let mut s = Smmdb::new(None);
    s.set_courses(vec![resp("a", 1, 0, 0), resp("b", 2, 0, 0), resp("a", 3, 0, 0)], true);
    assert_eq!(s.page_ids(), vec!["a".to_string(), "b".to_string()]);
    let panels = s.get_course_panels();
    assert_eq!(panels.len(), 2);
    assert_eq!(panels[0].course.votes, 3);
    assert_eq!(panels[1].course.votes, 2);
    // without update_panels only the cache changes
    s.set_courses(vec![resp("z", 0, 0, 0)], false);
    assert_eq!(s.page_len(), 2);
    assert!(s.get_course_responses().get(&"z".to_string()).is_some());
}

#[test]
fn thumbnail_and_vote_reach_the_page() {
    let mut s = Smmdb::new(None);
    s.set_courses(vec![resp("a", 4, 0, 0), resp("b", 2, 0, 0)], true);
    s.set_course_panel_thumbnail(&"b".to_string(), vec![7, 7]);
    assert_eq!(s.get_course_panels()[1].thumbnail, Some(vec![7, 7]));
    assert_eq!(s.get_course_panels()[0].thumbnail, None);
    s.set_own_vote(&"a".to_string(), 1);
    assert_eq!(s.get_course_panels()[0].course.votes, 5);
    assert_eq!(s.get_course_responses().get(&"a".to_string()).unwrap().votes, 5);
    s.set_course_panel_thumbnail(&"nope".to_string(), vec![1]);
    assert_eq!(s.page_len(), 2);
}

#[test]
fn search_pages_in_order_without_overlap() {
    // five matching courses, newest first
    let all: Vec<Course2Response> = (0..5).map(|i| resp(&format!("m{}", i), 0, 0, 100 - i)).collect();
    let first = select_page(&all, 0, 2);
    let second = select_page(&all, 2, 2);
    let ids = |v: &Vec<Course2Response>| v.iter().map(|c| c.id.clone()).collect::<Vec<_>>();
    assert_eq!(ids(&first), vec!["m0", "m1"]);
    assert_eq!(ids(&second), vec!["m2", "m3"]);
    assert!(first.iter().all(|a| second.iter().all(|b| a.id != b.id)));
    assert!(first[1].last_modified > second[0].last_modified);
    assert_eq!(ids(&select_page(&all, 4, 2)), vec!["m4"]);
    assert!(select_page(&all, 9, 2).is_empty());
}

#[test]
fn pages_of_25_do_not_overlap() {
    let all: Vec<Course2Response> = (0..60).map(|i| resp(&format!("c{}", i), 100 - i as i32 / 2, 0, 1000 - i)).collect();
    let p1 = select_page(&all, 0, 25);
    let p2 = select_page(&all, 25, 25);
    assert_eq!(p1.len(), 25);
    assert_eq!(p2.len(), 25);
    assert!(p1.iter().all(|a| p2.iter().all(|b| a.id != b.id)));
    // votes descending, equal votes newest first
    let both: Vec<_> = p1.iter().chain(p2.iter()).collect();
    for w in both.windows(2) {
        assert!(w[0].votes > w[1].votes || (w[0].votes == w[1].votes && w[0].last_modified > w[1].last_modified));
    }
}

#[test]
fn sort_orders_on_offer() {
    let opts = sort_options();
    assert_eq!(opts.len(), 2);
    assert_eq!(opts[0].0, vec![Sort { val: SortValue::LastModified, dir: -1 }]);
    assert_eq!(
        opts[1].0,
        vec![Sort { val: SortValue::Votes, dir: -1 }, Sort { val: SortValue::LastModified, dir: -1 }]
    );
    assert_eq!(opts[1].label(), Some("Votes"));
    assert_eq!(opts[0].label(), Some("Last Modified"));
    assert_eq!(SortOptions(vec![]).label(), None);
    assert_eq!(Sort::default(), Sort { val: SortValue::LastModified, dir: -1 });
    assert!(opts[0] != opts[1]);
}

#[test]
fn difficulty_labels() {
    let all = Difficulty::all();
    assert_eq!(all.len(), 5);
    assert_eq!(Difficulty::Unset.label(), "");
    assert_eq!(Difficulty::SuperExpert.label(), "SuperExpert");
    assert_eq!(Difficulty::Easy.label(), "Easy");
    assert_eq!(VoteBody { value: -1 }.value, -1);
}
