//! The catalog side of the client: query parameters, the cache of metadata
//! and the current page of results.
use vstd::prelude::*;
use indexmap::IndexMap;
use crate::cache::{CatalogCache, upserted};
use crate::download::{Download, base_url};
use crate::page::{
    SmmdbCoursePanel, entries_inserted, key_pos, lemma_inserted_unique, lemma_key_pos,
    page_get, page_index_of, page_insert, page_len, page_new, page_value_mut, panel_entries, unique_keys,
};
use crate::smmdb::{
    Course2Response, Difficulty, QueryParams, Sort, SortOptions, SortValue, is_default_query,
    vote_fits, voted,
};

verus! {

/// The page built from a response: one panel per id, placed where the id first
/// came, holding the last record of that id.
pub open spec fn page_from(courses: Seq<Course2Response>) -> Seq<(Seq<char>, SmmdbCoursePanel)>
    decreases courses.len(),
{
    if courses.len() == 0 {
        Seq::empty()
    } else {
        entries_inserted(
            page_from(courses.drop_last()),
            courses.last().id@,
            SmmdbCoursePanel { course: courses.last(), thumbnail: None },
        )
    }
}

/// The page after the own vote on `k` moved to `value`, where it can.
pub open spec fn page_voted(s: Seq<(Seq<char>, SmmdbCoursePanel)>, k: Seq<char>, value: i32) -> Seq<
    (Seq<char>, SmmdbCoursePanel),
> {
    let i = key_pos(s, k);
    if i >= 0 && vote_fits(s[i].1.course, value) {
        s.update(i, (s[i].0, SmmdbCoursePanel { course: voted(s[i].1.course, value), ..s[i].1 }))
    } else {
        s
    }
}

/// The page after the thumbnail of `k` arrived.
pub open spec fn page_thumbnail(s: Seq<(Seq<char>, SmmdbCoursePanel)>, k: Seq<char>, t: Vec<u8>) -> Seq<
    (Seq<char>, SmmdbCoursePanel),
> {
    let i = key_pos(s, k);
    if i >= 0 {
        s.update(i, (s[i].0, SmmdbCoursePanel { thumbnail: Some(t), ..s[i].1 }))
    } else {
        s
    }
}

/// A string filter: the empty string clears it.
pub open spec fn filter_of(s: String) -> Option<String> {
    if s@.len() == 0 {
        None
    } else {
        Some(s)
    }
}

/// A copy of a list of records.
pub fn clone_responses(v: &Vec<Course2Response>) -> (r: Vec<Course2Response>)
    ensures
        r@ == v@,
{
    let mut r: Vec<Course2Response> = Vec::new();
    let mut i: usize = 0;
    while i < v.len()
        invariant
            i <= v@.len(),
            r@ == v@.take(i as int),
        decreases v@.len() - i,
    {
        r.push(v[i].clone());
        assert(r@ =~= v@.take(i as int + 1));
        i = i + 1;
    }
    assert(r@ =~= v@);
    r
}

/// Catalog state of the client.
pub struct Smmdb {
    apikey: Option<String>,
    query_params: QueryParams,
    course_responses: CatalogCache,
    course_panels: IndexMap<String, SmmdbCoursePanel>,
}

impl Smmdb {
    pub closed spec fn page(&self) -> Seq<(Seq<char>, SmmdbCoursePanel)> {
        panel_entries(self.course_panels)
    }

    pub closed spec fn cache(&self) -> Map<Seq<char>, Course2Response> {
        self.course_responses@
    }

    pub closed spec fn query(&self) -> QueryParams {
        self.query_params
    }

    pub closed spec fn key(&self) -> Option<String> {
        self.apikey
    }

    /// The page never holds an id twice.
    pub closed spec fn wf(&self) -> bool {
        unique_keys(panel_entries(self.course_panels))
    }

    pub fn new(apikey: Option<String>) -> (r: Smmdb)
        ensures
            r.wf(),
            r.key() == apikey,
            is_default_query(r.query()),
            r.cache() == Map::<Seq<char>, Course2Response>::empty(),
            r.page() == Seq::<(Seq<char>, SmmdbCoursePanel)>::empty(),
    {
        Smmdb {
            apikey,
            query_params: QueryParams::default(),
            course_responses: CatalogCache::new(),
            course_panels: page_new(),
        }
    }

    /// Takes in a catalog response: every record goes into the cache; with
    /// `update_panels` the records also replace the current page.
    pub fn set_courses(&mut self, courses: Vec<Course2Response>, update_panels: bool)
        requires
            old(self).wf(),
        ensures
            final(self).wf(),
            final(self).cache() == upserted(old(self).cache(), courses@),
            update_panels ==> final(self).page() == page_from(courses@),
            !update_panels ==> final(self).page() == old(self).page(),
            final(self).query() == old(self).query(),
            final(self).key() == old(self).key(),
    {
        self.course_responses.upsert_many(clone_responses(&courses));
        if update_panels {
            let mut panels = page_new();
            let mut courses = courses;
            let ghost all = courses@;
            let total = courses.len();
            let mut done: usize = 0;
            while courses.len() > 0
                invariant
                    done + courses@.len() == all.len(),
                    all.len() == total,
                    courses@ == all.skip(done as int),
                    panel_entries(panels) == page_from(all.take(done as int)),
                    unique_keys(panel_entries(panels)),
                decreases courses@.len(),
            {
                let course = courses.remove(0);
                proof {
                    assert(all.take(done as int + 1).drop_last() =~= all.take(done as int));
                    lemma_inserted_unique(panel_entries(panels), course.id@, SmmdbCoursePanel { course, thumbnail: None });
                }
                let id = course.id.clone();
                page_insert(&mut panels, id, SmmdbCoursePanel::new(course));
                done = done + 1;
                assert(courses@ =~= all.skip(done as int));
            }
            assert(all.take(done as int) =~= all);
            self.course_panels = panels;
        }
    }

    pub fn get_course_responses(&self) -> (r: &CatalogCache)
        ensures
            r@ == self.cache(),
    {
        &self.course_responses
    }

    /// Attaches a fetched thumbnail to the panel of `id`, if the page shows it.
    pub fn set_course_panel_thumbnail(&mut self, id: &String, thumbnail: Vec<u8>)
        requires
            old(self).wf(),
        ensures
            final(self).wf(),
            final(self).page() == page_thumbnail(old(self).page(), id@, thumbnail),
            final(self).cache() == old(self).cache(),
            final(self).query() == old(self).query(),
            final(self).key() == old(self).key(),
    {
        proof {
            lemma_key_pos(self.page(), id@);
        }
        match page_index_of(&self.course_panels, id) {
            Some(i) => {
                let panel = page_value_mut(&mut self.course_panels, i);
                panel.set_thumbnail(thumbnail);
                proof {
                    assert(unique_keys(self.page())) by {
                        let s = self.page();
                        assert forall|a: int, b: int| 0 <= a < b < s.len() implies s[a].0 != s[b].0 by {
                            assert(s[a].0 == old(self).page()[a].0);
                            assert(s[b].0 == old(self).page()[b].0);
                        }
                    }
                }
            },
            None => {},
        }
    }

    pub fn get_course_panels(&self) -> (r: &IndexMap<String, SmmdbCoursePanel>)
        ensures
            panel_entries(*r) == self.page(),
    {
        &self.course_panels
    }

    /// Number of courses on the current page.
    pub fn page_len(&self) -> (r: usize)
        ensures
            r == self.page().len(),
    {
        page_len(&self.course_panels)
    }

    /// The download of catalog course `id`.
    pub fn download_course(id: &str) -> (r: Download)
        ensures
            r.url@ == base_url() + "/courses2/download/"@ + id@,
    {
        Download::for_course(id)
    }

    /// The ids on the current page, in page order.
    pub fn page_ids(&self) -> (r: Vec<String>)
        ensures
            r@.map_values(|k: String| k@) == self.page().map_values(|e: (Seq<char>, SmmdbCoursePanel)| e.0),
    {
        let n = page_len(&self.course_panels);
        let mut ids: Vec<String> = Vec::new();
        let mut i: usize = 0;
        while i < n
            invariant
                n == self.page().len(),
                i <= n,
                ids@.map_values(|k: String| k@) =~= self.page().take(i as int).map_values(
                    |e: (Seq<char>, SmmdbCoursePanel)| e.0,
                ),
            decreases n - i,
        {
            let ghost before = ids@;
            assert(before.len() == before.map_values(|k: String| k@).len());
            assert(self.page().take(i as int).map_values(|e: (Seq<char>, SmmdbCoursePanel)| e.0).len() == i);
            match page_get(&self.course_panels, i) {
                Some(p) => {
                    let k: String = p.0.clone();
                    ids.push(k);
                },
                None => {},
            }
            assert(ids@.len() == i + 1);
            assert forall|j: int| 0 <= j < i + 1 implies ids@[j]@ == self.page()[j].0 by {
                if j < i {
                    assert(ids@[j] == before[j]);
                    assert(before.map_values(|k: String| k@)[j] == self.page().take(i as int).map_values(
                        |e: (Seq<char>, SmmdbCoursePanel)| e.0,
                    )[j]);
                }
            }
            assert(ids@.map_values(|k: String| k@) =~= self.page().take(i as int + 1).map_values(
                |e: (Seq<char>, SmmdbCoursePanel)| e.0,
            ));
            i = i + 1;
        }
        assert(self.page().take(n as int) =~= self.page());
        ids
    }

    /// Forgets a course that was deleted from the catalog.
    pub fn remove_course(&mut self, id: &String)
        ensures
            final(self).cache() == old(self).cache().remove(id@),
            final(self).page() == old(self).page(),
            final(self).query() == old(self).query(),
            final(self).key() == old(self).key(),
            final(self).wf() == old(self).wf(),
    {
        self.course_responses.remove(id);
    }

    pub fn get_query_params(&self) -> (r: &QueryParams)
        ensures
            *r == self.query(),
    {
        &self.query_params
    }

    pub fn get_apikey(&self) -> (r: &Option<String>)
        ensures
            *r == self.key(),
    {
        &self.apikey
    }

    /// A full page came back, so a next page may exist.
    pub fn can_paginate_forward(&self) -> (r: bool)
        ensures
            r == (self.page().len() == self.query().limit),
    {
        page_len(&self.course_panels) as u64 == self.query_params.limit as u64
    }

    pub fn can_paginate_backward(&self) -> (r: bool)
        ensures
            r == (self.query().skip > 0),
    {
        self.query_params.skip > 0
    }

    /// Moves to the next page.
    pub fn paginate_forward(&mut self)
        requires
            old(self).query().skip + old(self).query().limit <= u32::MAX,
        ensures
            final(self).query() == (QueryParams {
                skip: (old(self).query().skip + old(self).query().limit) as u32,
                ..old(self).query()
            }),
            final(self).page() == old(self).page(),
            final(self).cache() == old(self).cache(),
            final(self).key() == old(self).key(),
            final(self).wf() == old(self).wf(),
    {
        self.query_params.skip = self.query_params.skip + self.query_params.limit;
    }

    /// Moves to the previous page.
    pub fn paginate_backward(&mut self)
        requires
            old(self).query().skip >= old(self).query().limit,
        ensures
            final(self).query() == (QueryParams {
                skip: (old(self).query().skip - old(self).query().limit) as u32,
                ..old(self).query()
            }),
            final(self).page() == old(self).page(),
            final(self).cache() == old(self).cache(),
            final(self).key() == old(self).key(),
            final(self).wf() == old(self).wf(),
    {
        self.query_params.skip = self.query_params.skip - self.query_params.limit;
    }

    pub fn reset_pagination(&mut self)
        ensures
            final(self).query() == (QueryParams { skip: 0, ..old(self).query() }),
            final(self).page() == old(self).page(),
            final(self).cache() == old(self).cache(),
            final(self).key() == old(self).key(),
            final(self).wf() == old(self).wf(),
    {
        self.query_params.skip = 0;
    }

    /// Sets the title filter; the empty string clears it. A new filter starts
    /// again from the first page.
    pub fn set_title(&mut self, title: String)
        ensures
            final(self).query() == (QueryParams { title: filter_of(title), skip: 0, ..old(self).query() }),
            final(self).page() == old(self).page(),
            final(self).cache() == old(self).cache(),
            final(self).key() == old(self).key(),
            final(self).wf() == old(self).wf(),
    {
        if title.as_str().is_empty() {
            self.query_params.title = None;
        } else {
            self.query_params.title = Some(title);
        }
        self.query_params.skip = 0;
    }

    /// Sets the uploader filter; the empty string clears it. A new filter
    /// starts again from the first page.
    pub fn set_uploader(&mut self, uploader: String)
        ensures
            final(self).query() == (QueryParams { uploader: filter_of(uploader), skip: 0, ..old(self).query() }),
            final(self).page() == old(self).page(),
            final(self).cache() == old(self).cache(),
            final(self).key() == old(self).key(),
            final(self).wf() == old(self).wf(),
    {
        if uploader.as_str().is_empty() {
            self.query_params.uploader = None;
        } else {
            self.query_params.uploader = Some(uploader);
        }
        self.query_params.skip = 0;
    }

    /// Sets the difficulty filter; `Unset` clears it.
    pub fn set_difficulty(&mut self, difficulty: Difficulty)
        ensures
            final(self).query() == (QueryParams {
                difficulty: if difficulty == Difficulty::Unset { None } else { Some(difficulty) },
                skip: 0,
                ..old(self).query()
            }),
            final(self).page() == old(self).page(),
            final(self).cache() == old(self).cache(),
            final(self).key() == old(self).key(),
            final(self).wf() == old(self).wf(),
    {
        match difficulty {
            Difficulty::Unset => {
                self.query_params.difficulty = None;
            },
            _ => {
                self.query_params.difficulty = Some(difficulty);
            },
        }
        self.query_params.skip = 0;
    }

    pub fn set_sort(&mut self, sort: SortOptions)
        ensures
            final(self).query() == (QueryParams { sort: Some(sort), skip: 0, ..old(self).query() }),
            final(self).page() == old(self).page(),
            final(self).cache() == old(self).cache(),
            final(self).key() == old(self).key(),
            final(self).wf() == old(self).wf(),
    {
        self.query_params.sort = Some(sort);
        self.query_params.skip = 0;
    }

    pub fn set_apikey(&mut self, apikey: String)
        ensures
            final(self).key() == Some(apikey),
            final(self).query() == old(self).query(),
            final(self).page() == old(self).page(),
            final(self).cache() == old(self).cache(),
            final(self).wf() == old(self).wf(),
    {
        self.apikey = Some(apikey);
    }

    /// Moves the own vote on a course to `value`, in the cache and on the
    /// page, wherever the course is known and its count can move.
    pub fn set_own_vote(&mut self, course_id: &String, value: i32)
        requires
            old(self).wf(),
        ensures
            final(self).wf(),
            final(self).page() == page_voted(old(self).page(), course_id@, value),
            old(self).cache().contains_key(course_id@) && vote_fits(old(self).cache()[course_id@], value)
                ==> final(self).cache() == old(self).cache().insert(
                course_id@,
                voted(old(self).cache()[course_id@], value),
            ),
            !(old(self).cache().contains_key(course_id@) && vote_fits(old(self).cache()[course_id@], value))
                ==> final(self).cache() == old(self).cache(),
            final(self).query() == old(self).query(),
            final(self).key() == old(self).key(),
    {
        proof {
            lemma_key_pos(self.page(), course_id@);
        }
        match page_index_of(&self.course_panels, course_id) {
            Some(i) => {
                let panel = page_value_mut(&mut self.course_panels, i);
                let fits = panel.course.votes as i64 + value as i64 - panel.course.own_vote as i64;
                if fits >= i32::MIN as i64 && fits <= i32::MAX as i64 {
                    panel.set_own_vote(value);
                }
                proof {
                    assert(unique_keys(self.page())) by {
                        let s = self.page();
                        assert forall|a: int, b: int| 0 <= a < b < s.len() implies s[a].0 != s[b].0 by {
                            assert(s[a].0 == old(self).page()[a].0);
                            assert(s[b].0 == old(self).page()[b].0);
                        }
                    }
                    assert(self.page() =~= page_voted(old(self).page(), course_id@, value));
                }
            },
            None => {},
        }
        self.course_responses.apply_vote(course_id, value);
    }
}

/// The results from `skip` on, at most `limit` of them.
pub open spec fn page_slice(all: Seq<Course2Response>, skip: int, limit: int) -> Seq<Course2Response> {
    let lo = if skip < all.len() { skip } else { all.len() as int };
    let hi = if skip + limit < all.len() { skip + limit } else { all.len() as int };
    all.subrange(lo, hi)
}

/// The page that a catalog answers for `skip` and `limit`, out of its results
/// in sort order.
pub fn select_page(all: &Vec<Course2Response>, skip: u32, limit: u32) -> (r: Vec<Course2Response>)
    ensures
        r@ == page_slice(all@, skip as int, limit as int),
{
    let n = all.len();
    let lo: usize = if (skip as usize) < n { skip as usize } else { n };
    let hi: usize = if (skip as u64 + limit as u64) < n as u64 { (skip as u64 + limit as u64) as usize } else { n };
    let mut r: Vec<Course2Response> = Vec::new();
    let mut i: usize = lo;
    while i < hi
        invariant
            lo <= i <= hi <= all@.len(),
            r@ == all@.subrange(lo as int, i as int),
        decreases hi - i,
    {
        r.push(all[i].clone());
        assert(r@ =~= all@.subrange(lo as int, i as int + 1));
        i = i + 1;
    }
    r
}

/// Sign of `a - b`.
pub open spec fn cmp_int(a: int, b: int) -> int {
    if a < b { -1 } else if a > b { 1 } else { 0 }
}

/// Lexicographic order of character sequences.
pub open spec fn cmp_text(a: Seq<char>, b: Seq<char>) -> int
    decreases a.len(),
{
    if a.len() == 0 && b.len() == 0 {
        0
    } else if a.len() == 0 {
        -1
    } else if b.len() == 0 {
        1
    } else if a[0] != b[0] {
        cmp_int(a[0] as int, b[0] as int)
    } else {
        cmp_text(a.drop_first(), b.drop_first())
    }
}

/// How one sort key orders two courses: negative when `a` comes first.
pub open spec fn key_order(a: Course2Response, b: Course2Response, key: Sort) -> int {
    let c = match key.val {
        SortValue::LastModified => cmp_int(a.last_modified as int, b.last_modified as int),
        SortValue::Uploaded => cmp_int(a.uploaded as int, b.uploaded as int),
        SortValue::CourseHeaderTitle => cmp_text(a.course.title@, b.course.title@),
        SortValue::Votes => cmp_int(a.votes as int, b.votes as int),
    };
    if key.dir < 0 { -c } else { c }
}

/// How a list of sort keys orders two courses: the first key that tells them
/// apart decides.
pub open spec fn sort_order(a: Course2Response, b: Course2Response, keys: Seq<Sort>) -> int
    decreases keys.len(),
{
    if keys.len() == 0 {
        0
    } else if key_order(a, b, keys[0]) != 0 {
        key_order(a, b, keys[0])
    } else {
        sort_order(a, b, keys.drop_first())
    }
}

pub open spec fn sorted_by(s: Seq<Course2Response>, keys: Seq<Sort>) -> bool {
    forall|i: int, j: int| 0 <= i < j < s.len() ==> sort_order(s[i], s[j], keys) <= 0
}

pub open spec fn distinct_ids(s: Seq<Course2Response>) -> bool {
    forall|i: int, j: int| 0 <= i < j < s.len() ==> s[i].id@ != s[j].id@
}

/// Two consecutive pages of results that are in sort order with distinct ids
/// share no id, and together they are the double-size page, still in sort
/// order.
pub proof fn lemma_consecutive_pages(all: Seq<Course2Response>, keys: Seq<Sort>, limit: int)
    requires
        sorted_by(all, keys),
        distinct_ids(all),
        limit >= 0,
    ensures
        forall|a: int, b: int|
            0 <= a < page_slice(all, 0, limit).len() && 0 <= b < page_slice(all, limit, limit).len()
                ==> page_slice(all, 0, limit)[a].id@ != page_slice(all, limit, limit)[b].id@,
        page_slice(all, 0, limit) + page_slice(all, limit, limit) == page_slice(all, 0, 2 * limit),
        sorted_by(page_slice(all, 0, limit) + page_slice(all, limit, limit), keys),
{
    let p1 = page_slice(all, 0, limit);
    let p2 = page_slice(all, limit, limit);
    assert forall|a: int, b: int| 0 <= a < p1.len() && 0 <= b < p2.len() implies p1[a].id@ != p2[b].id@ by {
        assert(p1[a] == all[a]);
        assert(p2[b] == all[limit + b]);
    }
    assert(p1 + p2 =~= page_slice(all, 0, 2 * limit));
    let both = page_slice(all, 0, 2 * limit);
    assert forall|i: int, j: int| 0 <= i < j < both.len() implies sort_order(both[i], both[j], keys) <= 0 by {
        assert(both[i] == all[i] && both[j] == all[j]);
    }
}

} // verus!
