//! Catalog data: course metadata, votes, query parameters and sort orders.
use vstd::prelude::*;

verus! {

/// Difficulty of a catalog course; `Unset` stands for "no filter".
#[derive(Clone, Copy, Debug, PartialEq, Eq, Structural)]
pub enum Difficulty {
    Unset,
    Easy,
    Normal,
    Expert,
    SuperExpert,
}

pub open spec fn difficulty_label(d: Difficulty) -> Seq<char> {
    match d {
        Difficulty::Unset => ""@,
        Difficulty::Easy => "Easy"@,
        Difficulty::Normal => "Normal"@,
        Difficulty::Expert => "Expert"@,
        Difficulty::SuperExpert => "SuperExpert"@,
    }
}

impl Difficulty {
    /// Every difficulty, in the order a picker lists them.
    pub fn all() -> (r: Vec<Difficulty>)
        ensures
            r@ == seq![
                Difficulty::Unset,
                Difficulty::Easy,
                Difficulty::Normal,
                Difficulty::Expert,
                Difficulty::SuperExpert,
            ],
    {
        let r = vec![
            Difficulty::Unset,
            Difficulty::Easy,
            Difficulty::Normal,
            Difficulty::Expert,
            Difficulty::SuperExpert,
        ];
        assert(r@ =~= seq![
            Difficulty::Unset,
            Difficulty::Easy,
            Difficulty::Normal,
            Difficulty::Expert,
            Difficulty::SuperExpert,
        ]);
        r
    }

    /// The label shown for this difficulty; empty for `Unset`.
    pub fn label(&self) -> (r: &'static str)
        ensures
            r@ == difficulty_label(*self),
    {
        proof {
            reveal_strlit("");
            reveal_strlit("Easy");
            reveal_strlit("Normal");
            reveal_strlit("Expert");
            reveal_strlit("SuperExpert");
        }
        match self {
            Difficulty::Unset => "",
            Difficulty::Easy => "Easy",
            Difficulty::Normal => "Normal",
            Difficulty::Expert => "Expert",
            Difficulty::SuperExpert => "SuperExpert",
        }
    }
}

/// A field the catalog can sort by.
#[derive(Clone, Copy, Debug, PartialEq, Eq, Structural)]
pub enum SortValue {
    LastModified,
    Uploaded,
    CourseHeaderTitle,
    Votes,
}

pub open spec fn sort_label(v: SortValue) -> Seq<char> {
    match v {
        SortValue::LastModified => "Last Modified"@,
        SortValue::Uploaded => "Uploaded"@,
        SortValue::CourseHeaderTitle => "Title"@,
        SortValue::Votes => "Votes"@,
    }
}

/// One sort key: a field and a direction, `-1` descending and `1` ascending.
#[derive(Clone, Copy, Debug, PartialEq, Eq, Structural)]
pub struct Sort {
    pub val: SortValue,
    pub dir: i32,
}

/// A descending key on `val`.
pub open spec fn desc(val: SortValue) -> Sort {
    Sort { val, dir: -1 as i32 }
}

impl Default for Sort {
    /// Newest first.
    fn default() -> (r: Sort)
        ensures
            r == desc(SortValue::LastModified),
    {
        Sort { val: SortValue::LastModified, dir: -1 }
    }
}

/// An ordered list of sort keys; later keys break ties of earlier ones.
#[derive(Debug)]
pub struct SortOptions(pub Vec<Sort>);

impl SortOptions {
    pub open spec fn keys(&self) -> Seq<Sort> {
        self.0@
    }

    /// Newest first.
    pub fn by_last_modified() -> (r: SortOptions)
        ensures
            r.keys() == seq![desc(SortValue::LastModified)],
    {
        let r = SortOptions(vec![Sort { val: SortValue::LastModified, dir: -1 }]);
        assert(r.keys() =~= seq![desc(SortValue::LastModified)]);
        r
    }

    /// Most votes first; among equal votes, newest first, so that pages are
    /// stable.
    pub fn by_votes() -> (r: SortOptions)
        ensures
            r.keys() == seq![
                desc(SortValue::Votes),
                desc(SortValue::LastModified),
            ],
    {
        let r = SortOptions(
            vec![
                Sort { val: SortValue::Votes, dir: -1 },
                Sort { val: SortValue::LastModified, dir: -1 },
            ],
        );
        assert(r.keys() =~= seq![
            desc(SortValue::Votes),
            desc(SortValue::LastModified),
        ]);
        r
    }

    /// The label of the first key, for a picker; `None` for an empty list.
    pub fn label(&self) -> (r: Option<&'static str>)
        ensures
            r is Some <==> self.keys().len() > 0,
            r is Some ==> r->Some_0@ == sort_label(self.keys()[0].val),
    {
        if self.0.len() == 0 {
            return None;
        }
        match self.0[0].val {
            SortValue::LastModified => Some("Last Modified"),
            SortValue::Uploaded => Some("Uploaded"),
            SortValue::CourseHeaderTitle => Some("Title"),
            SortValue::Votes => Some("Votes"),
        }
    }
}

impl Clone for SortOptions {
    fn clone(&self) -> (r: SortOptions)
        ensures
            r.keys() == self.keys(),
    {
        let mut keys: Vec<Sort> = Vec::new();
        let mut i: usize = 0;
        while i < self.0.len()
            invariant
                i <= self.0@.len(),
                keys@ == self.0@.take(i as int),
            decreases self.0@.len() - i,
        {
            keys.push(self.0[i]);
            assert(keys@ =~= self.0@.take(i as int + 1));
            i = i + 1;
        }
        assert(keys@ =~= self.0@);
        SortOptions(keys)
    }
}

impl PartialEq for SortOptions {
    fn eq(&self, other: &SortOptions) -> (r: bool) {
        if self.0.len() != other.0.len() {
            return false;
        }
        let mut i: usize = 0;
        while i < self.0.len()
            invariant
                i <= self.0@.len(),
                self.0@.len() == other.0@.len(),
                forall|k: int| 0 <= k < i ==> self.0@[k] == other.0@[k],
            decreases self.0@.len() - i,
        {
            if self.0[i] != other.0[i] {
                return false;
            }
            i = i + 1;
        }
        assert(self.0@ =~= other.0@);
        true
    }
}

impl vstd::std_specs::cmp::PartialEqSpecImpl for SortOptions {
    open spec fn obeys_eq_spec() -> bool {
        true
    }

    open spec fn eq_spec(&self, other: &SortOptions) -> bool {
        self.keys() == other.keys()
    }
}

/// The two sort orders offered to the user.
pub fn sort_options() -> (r: Vec<SortOptions>)
    ensures
        r@.len() == 2,
        r@[0].keys() == seq![desc(SortValue::LastModified)],
        r@[1].keys() == seq![
            desc(SortValue::Votes),
            desc(SortValue::LastModified),
        ],
{
    vec![SortOptions::by_last_modified(), SortOptions::by_votes()]
}

/// The number of results per page when none is asked for.
pub fn limit_default() -> (r: u32)
    ensures
        r == 25,
{
    25
}

pub fn is_true() -> (r: bool)
    ensures
        r,
{
    true
}


/// Title and description of a catalog course.
pub struct CourseHeader {
    pub title: String,
    pub description: String,
}

impl Clone for CourseHeader {
    fn clone(&self) -> (r: CourseHeader)
        ensures
            r == *self,
    {
        CourseHeader { title: self.title.clone(), description: self.description.clone() }
    }
}

/// Metadata of one catalog course, as the catalog returns it.
pub struct Course2Response {
    pub id: String,
    pub owner: String,
    pub uploader: String,
    pub difficulty: Option<Difficulty>,
    pub last_modified: i64,
    pub uploaded: i64,
    pub votes: i32,
    /// The vote of the signed-in user: `-1`, `0` or `1`.
    pub own_vote: i32,
    pub course: CourseHeader,
}

/// Whether moving the own vote of `r` to `value` keeps the vote count in range.
pub open spec fn vote_fits(r: Course2Response, value: i32) -> bool {
    i32::MIN <= r.votes + value - r.own_vote <= i32::MAX
}

/// `r` after its own vote moved to `value`: the count moves by the difference.
pub open spec fn voted(r: Course2Response, value: i32) -> Course2Response {
    Course2Response { votes: (r.votes + value - r.own_vote) as i32, own_vote: value, ..r }
}

impl Clone for Course2Response {
    fn clone(&self) -> (r: Course2Response)
        ensures
            r == *self,
    {
        Course2Response {
            id: self.id.clone(),
            owner: self.owner.clone(),
            uploader: self.uploader.clone(),
            difficulty: self.difficulty,
            last_modified: self.last_modified,
            uploaded: self.uploaded,
            votes: self.votes,
            own_vote: self.own_vote,
            course: self.course.clone(),
        }
    }
}

impl Course2Response {
    pub fn get_id(&self) -> (r: &String)
        ensures
            r == &self.id,
    {
        &self.id
    }

    pub fn get_votes(&self) -> (r: i32)
        ensures
            r == self.votes,
    {
        self.votes
    }

    pub fn get_own_vote(&self) -> (r: i32)
        ensures
            r == self.own_vote,
    {
        self.own_vote
    }

    /// Moves the own vote to `value` and the vote count by the difference.
    pub fn set_own_vote(&mut self, value: i32)
        requires
            vote_fits(*old(self), value),
        ensures
            *final(self) == voted(*old(self), value),
    {
        let diff: i64 = value as i64 - self.own_vote as i64;
        self.votes = (self.votes as i64 + diff) as i32;
        self.own_vote = value;
    }

    pub fn get_course(&self) -> (r: &CourseHeader)
        ensures
            r == &self.course,
    {
        &self.course
    }

    pub fn get_difficulty(&self) -> (r: Option<&Difficulty>)
        ensures
            r == match self.difficulty {
                Some(d) => Some(&d),
                None => None::<&Difficulty>,
            },
    {
        match &self.difficulty {
            Some(d) => Some(d),
            None => None,
        }
    }
}

/// Body of a vote request.
#[derive(Clone, Copy, Debug, PartialEq, Eq, Structural)]
pub struct VoteBody {
    pub value: i32,
}

/// Search, filter, sort and paging parameters of a catalog query.
pub struct QueryParams {
    pub limit: u32,
    pub skip: u32,
    pub id: Option<String>,
    pub ids: Option<Vec<String>>,
    pub title: Option<String>,
    pub title_exact: bool,
    pub title_case_sensitive: bool,
    pub title_trimmed: bool,
    pub owner: Option<String>,
    pub uploader: Option<String>,
    pub sort: Option<SortOptions>,
    pub difficulty: Option<Difficulty>,
}

/// Two queries that ask the same.
pub open spec fn same_query(a: QueryParams, b: QueryParams) -> bool {
    &&& a.limit == b.limit
    &&& a.skip == b.skip
    &&& a.id == b.id
    &&& (a.ids is Some <==> b.ids is Some)
    &&& a.ids is Some ==> a.ids->Some_0@ == b.ids->Some_0@
    &&& a.title == b.title
    &&& a.title_exact == b.title_exact
    &&& a.title_case_sensitive == b.title_case_sensitive
    &&& a.title_trimmed == b.title_trimmed
    &&& a.owner == b.owner
    &&& a.uploader == b.uploader
    &&& (a.sort is Some <==> b.sort is Some)
    &&& a.sort is Some ==> a.sort->Some_0.keys() == b.sort->Some_0.keys()
    &&& a.difficulty == b.difficulty
}

fn clone_opt_string(s: &Option<String>) -> (r: Option<String>)
    ensures
        r == *s,
{
    match s {
        Some(t) => Some(t.clone()),
        None => None,
    }
}

/// A copy of a list of strings.
pub fn clone_strings(v: &Vec<String>) -> (r: Vec<String>)
    ensures
        r@ == v@,
{
    let mut r: Vec<String> = Vec::new();
    let mut i: usize = 0;
    while i < v.len()
        invariant
            i <= v@.len(),
            r@ == v@.take(i as int),
        decreases v@.len() - i,
    {
        r.push(v[i].clone());
        assert(r@ =~= v@.take(i as int + 1));
        i = i + 1;
    }
    assert(r@ =~= v@);
    r
}

impl Clone for QueryParams {
    fn clone(&self) -> (r: QueryParams)
        ensures
            same_query(r, *self),
    {
        QueryParams {
            limit: self.limit,
            skip: self.skip,
            id: clone_opt_string(&self.id),
            ids: match &self.ids {
                Some(v) => Some(clone_strings(v)),
                None => None,
            },
            title: clone_opt_string(&self.title),
            title_exact: self.title_exact,
            title_case_sensitive: self.title_case_sensitive,
            title_trimmed: self.title_trimmed,
            owner: clone_opt_string(&self.owner),
            uploader: clone_opt_string(&self.uploader),
            sort: match &self.sort {
                Some(o) => Some(o.clone()),
                None => None,
            },
            difficulty: self.difficulty,
        }
    }
}

/// The query with nothing set: first page of 25, titles trimmed.
pub open spec fn is_default_query(q: QueryParams) -> bool {
    &&& q.limit == 25
    &&& q.skip == 0
    &&& q.id is None
    &&& q.ids is None
    &&& q.title is None
    &&& !q.title_exact
    &&& !q.title_case_sensitive
    &&& q.title_trimmed
    &&& q.owner is None
    &&& q.uploader is None
    &&& q.sort is None
    &&& q.difficulty is None
}

impl Default for QueryParams {
    fn default() -> (r: QueryParams)
        ensures
            is_default_query(r),
    {
        QueryParams {
            limit: limit_default(),
            skip: 0,
            id: None,
            ids: None,
            title: None,
            title_exact: false,
            title_case_sensitive: false,
            title_trimmed: is_true(),
            owner: None,
            uploader: None,
            sort: None,
            difficulty: None,
        }
    }
}

impl QueryParams {
    /// The title filter, empty when unset.
    pub fn get_title(&self) -> (r: &str)
        ensures
            r@ == match self.title {
                Some(t) => t@,
                None => Seq::<char>::empty(),
            },
    {
        match &self.title {
            Some(t) => t.as_str(),
            None => {
                proof {
                    reveal_strlit("");
                }
                ""
            },
        }
    }

    /// The uploader filter, empty when unset.
    pub fn get_uploader(&self) -> (r: &str)
        ensures
            r@ == match self.uploader {
                Some(u) => u@,
                None => Seq::<char>::empty(),
            },
    {
        match &self.uploader {
            Some(u) => u.as_str(),
            None => {
                proof {
                    reveal_strlit("");
                }
                ""
            },
        }
    }

    pub fn get_sort(&self) -> (r: Option<SortOptions>)
        ensures
            r is Some <==> self.sort is Some,
            r is Some ==> r->Some_0.keys() == self.sort->Some_0.keys(),
    {
        match &self.sort {
            Some(s) => Some(s.clone()),
            None => None,
        }
    }

    pub fn get_difficulty(&self) -> (r: Option<Difficulty>)
        ensures
            r == self.difficulty,
    {
        self.difficulty
    }
}

} // verus!

verus! {

/// Voting and then moving the vote back to where it was restores the count:
/// a vote moves the count by the difference of the new and the old own vote.
pub proof fn lemma_vote_round_trip(r: Course2Response, value: i32)
    requires
        vote_fits(r, value),
    ensures
        voted(r, value).votes == r.votes + value - r.own_vote,
        voted(r, value).own_vote == value,
        vote_fits(voted(r, value), r.own_vote),
        voted(voted(r, value), r.own_vote) == r,
{
}

/// From no own vote, voting and then taking the vote back restores the count.
pub proof fn lemma_vote_then_retract(r: Course2Response, value: i32)
    requires
        r.own_vote == 0,
        vote_fits(r, value),
    ensures
        vote_fits(voted(r, value), 0),
        voted(voted(r, value), 0).votes == r.votes,
        voted(voted(r, value), 0).own_vote == 0,
{
}

} // verus!
