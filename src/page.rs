//! The current page of catalog results, in the order the catalog sent them.
use vstd::prelude::*;
use indexmap::IndexMap;
use crate::smmdb::{Course2Response, vote_fits, voted};

verus! {

/// One catalog course of the current page, with its thumbnail once fetched.
pub struct SmmdbCoursePanel {
    pub course: Course2Response,
    pub thumbnail: Option<Vec<u8>>,
}

impl SmmdbCoursePanel {
    pub fn new(course: Course2Response) -> (r: SmmdbCoursePanel)
        ensures
            r.course == course,
            r.thumbnail is None,
    {
        SmmdbCoursePanel { course, thumbnail: None }
    }

    pub fn set_own_vote(&mut self, value: i32)
        requires
            vote_fits(old(self).course, value),
        ensures
            final(self).course == voted(old(self).course, value),
            final(self).thumbnail == old(self).thumbnail,
    {
        self.course.set_own_vote(value);
    }

    pub fn get_id(&self) -> (r: &String)
        ensures
            r == &self.course.id,
    {
        &self.course.id
    }

    pub fn set_thumbnail(&mut self, thumbnail: Vec<u8>)
        ensures
            final(self).course == old(self).course,
            final(self).thumbnail == Some(thumbnail),
    {
        self.thumbnail = Some(thumbnail);
    }
}

#[verifier::external_type_specification]
#[verifier::external_body]
#[verifier::reject_recursive_types(K)]
#[verifier::reject_recursive_types(V)]
#[verifier::reject_recursive_types(S)]
pub struct ExIndexMap<K, V, S>(IndexMap<K, V, S>);

/// The key-value pairs of a page map, in the map's order.
pub uninterp spec fn panel_entries(m: IndexMap<String, SmmdbCoursePanel>) -> Seq<
    (Seq<char>, SmmdbCoursePanel),
>;

/// Index of the pair with key `k`, or `-1`.
pub open spec fn key_pos(s: Seq<(Seq<char>, SmmdbCoursePanel)>, k: Seq<char>) -> int
    decreases s.len(),
{
    if s.len() == 0 {
        -1
    } else if s.last().0 == k {
        s.len() - 1
    } else {
        key_pos(s.drop_last(), k)
    }
}

/// No key occurs twice.
pub open spec fn unique_keys(s: Seq<(Seq<char>, SmmdbCoursePanel)>) -> bool {
    forall|i: int, j: int| 0 <= i < j < s.len() ==> s[i].0 != s[j].0
}

/// `s` after inserting `(k, v)`: an existing key keeps its place and takes
/// the new value; a new key goes last.
pub open spec fn entries_inserted(
    s: Seq<(Seq<char>, SmmdbCoursePanel)>,
    k: Seq<char>,
    v: SmmdbCoursePanel,
) -> Seq<(Seq<char>, SmmdbCoursePanel)> {
    if key_pos(s, k) >= 0 {
        s.update(key_pos(s, k), (s[key_pos(s, k)].0, v))
    } else {
        s.push((k, v))
    }
}

pub proof fn lemma_key_pos(s: Seq<(Seq<char>, SmmdbCoursePanel)>, k: Seq<char>)
    ensures
        -1 <= key_pos(s, k) < s.len(),
        key_pos(s, k) >= 0 ==> s[key_pos(s, k)].0 == k,
        key_pos(s, k) < 0 ==> forall|j: int| 0 <= j < s.len() ==> s[j].0 != k,
        unique_keys(s) ==> forall|j: int| 0 <= j < s.len() && s[j].0 == k ==> j == key_pos(s, k),
    decreases s.len(),
{
    if s.len() > 0 {
        let t = s.drop_last();
        lemma_key_pos(t, k);
        if key_pos(s, k) < 0 {
            assert forall|j: int| 0 <= j < s.len() implies s[j].0 != k by {
                if j < s.len() - 1 {
                    assert(s[j] == t[j]);
                }
            }
        }
        if unique_keys(s) {
            assert(unique_keys(t)) by {
                assert forall|i: int, j: int| 0 <= i < j < t.len() implies t[i].0 != t[j].0 by {
                    assert(t[i] == s[i] && t[j] == s[j]);
                }
            }
            assert forall|j: int| 0 <= j < s.len() && s[j].0 == k implies j == key_pos(s, k) by {
                if j < s.len() - 1 {
                    assert(s[j] == t[j]);
                    if s.last().0 == k {
                        assert(s[s.len() - 1].0 == k);
                    }
                }
            }
        }
    }
}

pub proof fn lemma_inserted_unique(
    s: Seq<(Seq<char>, SmmdbCoursePanel)>,
    k: Seq<char>,
    v: SmmdbCoursePanel,
)
    requires
        unique_keys(s),
    ensures
        unique_keys(entries_inserted(s, k, v)),
        entries_inserted(s, k, v).len() == if key_pos(s, k) >= 0 { s.len() } else { s.len() + 1 },
{
    lemma_key_pos(s, k);
}

/// Relies on `IndexMap::new`: the new map is empty.
#[verifier::external_body]
pub(crate) fn page_new() -> (r: IndexMap<String, SmmdbCoursePanel>)
    ensures
        panel_entries(r) == Seq::<(Seq<char>, SmmdbCoursePanel)>::empty(),
{
    IndexMap::new()
}

/// Relies on `IndexMap::insert`: an existing key keeps its place and takes the
/// new value; a new key is placed last.
#[verifier::external_body]
pub(crate) fn page_insert(m: &mut IndexMap<String, SmmdbCoursePanel>, k: String, v: SmmdbCoursePanel)
    ensures
        panel_entries(*final(m)) == entries_inserted(panel_entries(*old(m)), k@, v),
{
    m.insert(k, v);
}

/// Relies on `IndexMap::len`: the number of pairs.
#[verifier::external_body]
pub(crate) fn page_len(m: &IndexMap<String, SmmdbCoursePanel>) -> (r: usize)
    ensures
        r == panel_entries(*m).len(),
{
    m.len()
}

/// Relies on `IndexMap::get_index_of`: the index of the pair with an equal key.
#[verifier::external_body]
pub(crate) fn page_index_of(m: &IndexMap<String, SmmdbCoursePanel>, k: &String) -> (r: Option<usize>)
    ensures
        match r {
            Some(i) => i < panel_entries(*m).len() && panel_entries(*m)[i as int].0 == k@,
            None => forall|j: int| 0 <= j < panel_entries(*m).len() ==> panel_entries(*m)[j].0 != k@,
        },
{
    m.get_index_of(k)
}

/// Relies on `IndexMap::get_index`: the pair at an index.
#[verifier::external_body]
pub(crate) fn page_get(m: &IndexMap<String, SmmdbCoursePanel>, i: usize) -> (r: Option<(&String, &SmmdbCoursePanel)>)
    ensures
        match r {
            Some(p) => i < panel_entries(*m).len() && p.0@ == panel_entries(*m)[i as int].0
                && *p.1 == panel_entries(*m)[i as int].1,
            None => i >= panel_entries(*m).len(),
        },
{
    m.get_index(i)
}

/// Relies on `IndexMut<usize>` of `IndexMap`: the value at an index, in place.
#[verifier::external_body]
pub(crate) fn page_value_mut(m: &mut IndexMap<String, SmmdbCoursePanel>, i: usize) -> (r: &mut SmmdbCoursePanel)
    requires
        i < panel_entries(*old(m)).len(),
    ensures
        *r == panel_entries(*old(m))[i as int].1,
        panel_entries(*final(m)) == panel_entries(*old(m)).update(
            i as int,
            (panel_entries(*old(m))[i as int].0, *final(r)),
        ),
{
    &mut m[i]
}

} // verus!
