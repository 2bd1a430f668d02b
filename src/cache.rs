//! Latest known catalog metadata, keyed by catalog id.
use vstd::prelude::*;
use crate::container::Course;
use crate::smmdb::{Course2Response, vote_fits, voted};

verus! {

/// Index of the last record with id `k`, or `-1`.
pub open spec fn last_index_of(s: Seq<Course2Response>, k: Seq<char>) -> int
    decreases s.len(),
{
    if s.len() == 0 {
        -1
    } else if s.last().id@ == k {
        s.len() - 1
    } else {
        last_index_of(s.drop_last(), k)
    }
}

/// `m` with the records of `s` written over it in order: the last record of
/// each id wins.
pub open spec fn upserted(m: Map<Seq<char>, Course2Response>, s: Seq<Course2Response>) -> Map<
    Seq<char>,
    Course2Response,
>
    decreases s.len(),
{
    if s.len() == 0 {
        m
    } else {
        upserted(m, s.drop_last()).insert(s.last().id@, s.last())
    }
}

pub proof fn lemma_last_index_bounds(s: Seq<Course2Response>, k: Seq<char>)
    ensures
        -1 <= last_index_of(s, k) < s.len(),
        last_index_of(s, k) >= 0 ==> s[last_index_of(s, k)].id@ == k,
        forall|j: int| last_index_of(s, k) < j < s.len() ==> s[j].id@ != k,
    decreases s.len(),
{
    if s.len() > 0 {
        lemma_last_index_bounds(s.drop_last(), k);
        assert forall|j: int| last_index_of(s, k) < j < s.len() implies #[trigger] s[j].id@ != k by {
            if j < s.len() - 1 {
                assert(s[j] == s.drop_last()[j]);
            }
        }
    }
}

/// What `upserted` holds at each id.
pub proof fn lemma_upserted_at(
    m: Map<Seq<char>, Course2Response>,
    s: Seq<Course2Response>,
    k: Seq<char>,
)
    ensures
        upserted(m, s).contains_key(k) <==> (m.contains_key(k) || last_index_of(s, k) >= 0),
        last_index_of(s, k) >= 0 ==> upserted(m, s)[k] == s[last_index_of(s, k)],
        last_index_of(s, k) < 0 ==> upserted(m, s)[k] == m[k],
    decreases s.len(),
{
    lemma_last_index_bounds(s, k);
    if s.len() > 0 {
        lemma_upserted_at(m, s.drop_last(), k);
        lemma_last_index_bounds(s.drop_last(), k);
    }
}

/// Writing the same records twice leaves what writing them once left.
pub proof fn lemma_upsert_idempotent(m: Map<Seq<char>, Course2Response>, s: Seq<Course2Response>)
    ensures
        upserted(upserted(m, s), s) == upserted(m, s),
{
    assert forall|k: Seq<char>| #[trigger] upserted(upserted(m, s), s).contains_key(k)
        == upserted(m, s).contains_key(k) by {
        lemma_upserted_at(m, s, k);
        lemma_upserted_at(upserted(m, s), s, k);
    }
    assert forall|k: Seq<char>| upserted(upserted(m, s), s).contains_key(k) implies #[trigger] upserted(
        upserted(m, s),
        s,
    )[k] == upserted(m, s)[k] by {
        lemma_upserted_at(m, s, k);
        lemma_upserted_at(upserted(m, s), s, k);
    }
    assert(upserted(upserted(m, s), s) =~= upserted(m, s));
}

pub proof fn lemma_upserted_push(
    m: Map<Seq<char>, Course2Response>,
    s: Seq<Course2Response>,
    x: Course2Response,
)
    ensures
        upserted(m, s.push(x)) == upserted(m, s).insert(x.id@, x),
{
    assert(s.push(x).drop_last() =~= s);
}

/// The map that a record list stands for.
pub open spec fn entries_map(s: Seq<Course2Response>) -> Map<Seq<char>, Course2Response> {
    upserted(Map::empty(), s)
}

/// Overwriting the last record of an id is inserting into the map.
proof fn lemma_update_last(s: Seq<Course2Response>, i: int, x: Course2Response)
    requires
        0 <= i < s.len(),
        i == last_index_of(s, x.id@),
    ensures
        entries_map(s.update(i, x)) == entries_map(s).insert(x.id@, x),
{
    let t = s.update(i, x);
    lemma_last_index_bounds(s, x.id@);
    assert forall|k: Seq<char>| #[trigger] entries_map(t).contains_key(k) == entries_map(s).insert(
        x.id@,
        x,
    ).contains_key(k) by {
        lemma_upserted_at(Map::empty(), s, k);
        lemma_upserted_at(Map::empty(), t, k);
        lemma_last_index_update(s, i, x, k);
    }
    assert forall|k: Seq<char>| entries_map(t).contains_key(k) implies #[trigger] entries_map(t)[k]
        == entries_map(s).insert(x.id@, x)[k] by {
        lemma_upserted_at(Map::empty(), s, k);
        lemma_upserted_at(Map::empty(), t, k);
        lemma_last_index_update(s, i, x, k);
        lemma_last_index_bounds(s, k);
        lemma_last_index_bounds(t, k);
    }
    assert(entries_map(t) =~= entries_map(s).insert(x.id@, x));
}

proof fn lemma_last_index_update(s: Seq<Course2Response>, i: int, x: Course2Response, k: Seq<char>)
    requires
        0 <= i < s.len(),
        i == last_index_of(s, x.id@),
    ensures
        last_index_of(s.update(i, x), k) == last_index_of(s, k),
    decreases s.len(),
{
    lemma_last_index_bounds(s, x.id@);
    if i == s.len() - 1 {
        assert(s.update(i, x).drop_last() =~= s.drop_last());
    } else {
        assert(s.update(i, x).drop_last() =~= s.drop_last().update(i, x));
        lemma_last_index_update(s.drop_last(), i, x, k);
    }
}

/// Records with id `k` dropped.
pub open spec fn without_id(s: Seq<Course2Response>, k: Seq<char>) -> Seq<Course2Response>
    decreases s.len(),
{
    if s.len() == 0 {
        s
    } else if s.last().id@ == k {
        without_id(s.drop_last(), k)
    } else {
        without_id(s.drop_last(), k).push(s.last())
    }
}

proof fn lemma_without_id(s: Seq<Course2Response>, k: Seq<char>)
    ensures
        entries_map(without_id(s, k)) == entries_map(s).remove(k),
    decreases s.len(),
{
    if s.len() > 0 {
        lemma_without_id(s.drop_last(), k);
        if s.last().id@ != k {
            lemma_upserted_push(Map::empty(), without_id(s.drop_last(), k), s.last());
        }
        assert(entries_map(without_id(s, k)) =~= entries_map(s).remove(k));
    }
}

/// Metadata of every catalog course seen so far, whichever query brought it.
pub struct CatalogCache {
    entries: Vec<Course2Response>,
}

impl CatalogCache {
    pub fn new() -> (r: CatalogCache)
        ensures
            r@ == Map::<Seq<char>, Course2Response>::empty(),
    {
        CatalogCache { entries: Vec::new() }
    }

    fn find(&self, id: &String) -> (r: Option<usize>)
        ensures
            r is Some <==> last_index_of(self.entries@, id@) >= 0,
            r is Some ==> r->Some_0 == last_index_of(self.entries@, id@),
            r is Some ==> r->Some_0 < self.entries@.len(),
    {
        proof {
            lemma_last_index_bounds(self.entries@, id@);
        }
        let mut found: Option<usize> = None;
        let mut i: usize = 0;
        while i < self.entries.len()
            invariant
                i <= self.entries@.len(),
                found is Some <==> last_index_of(self.entries@.take(i as int), id@) >= 0,
                found is Some ==> found->Some_0 == last_index_of(self.entries@.take(i as int), id@),
            decreases self.entries@.len() - i,
        {
            assert(self.entries@.take(i as int + 1).drop_last() =~= self.entries@.take(i as int));
            if self.entries[i].id == *id {
                found = Some(i);
            }
            i = i + 1;
        }
        assert(self.entries@.take(i as int) =~= self.entries@);
        found
    }

    /// The record of `id`, if one is cached.
    pub fn get(&self, id: &String) -> (r: Option<&Course2Response>)
        ensures
            r is Some <==> self@.contains_key(id@),
            r is Some ==> *r->Some_0 == self@[id@],
    {
        proof {
            lemma_upserted_at(Map::empty(), self.entries@, id@);
        }
        match self.find(id) {
            Some(i) => Some(&self.entries[i]),
            None => None,
        }
    }

    /// The record of the catalog id that a local course carries, if it has
    /// one and it is cached.
    pub fn annotate(&self, course: &Course) -> (r: Option<&Course2Response>)
        ensures
            match course.smmdb_id {
                Some(id) => (r is Some <==> self@.contains_key(id@)) && (r is Some ==> *r->Some_0 == self@[id@]),
                None => r is None,
            },
    {
        match &course.smmdb_id {
            Some(id) => self.get(id),
            None => None,
        }
    }

    /// Writes one record over the cached record of the same id.
    pub fn upsert(&mut self, item: Course2Response)
        ensures
            final(self)@ == old(self)@.insert(item.id@, item),
    {
        match self.find(&item.id) {
            Some(i) => {
                proof {
                    lemma_update_last(self.entries@, i as int, item);
                }
                self.entries.set(i, item);
            },
            None => {
                proof {
                    lemma_upserted_push(Map::empty(), self.entries@, item);
                }
                self.entries.push(item);
            },
        }
    }

    /// Writes records over the cached ones, in order: where `items` holds an
    /// id twice, the later record wins.
    pub fn upsert_many(&mut self, items: Vec<Course2Response>)
        ensures
            final(self)@ == upserted(old(self)@, items@),
    {
        let mut items = items;
        let ghost all = items@;
        let total = items.len();
        let mut done: usize = 0;
        while items.len() > 0
            invariant
                done + items@.len() == all.len(),
                all.len() == total,
                items@ == all.skip(done as int),
                self@ == upserted(old(self)@, all.take(done as int)),
            decreases items@.len(),
        {
            let item = items.remove(0);
            proof {
                assert(all.take(done as int + 1) =~= all.take(done as int).push(item));
                lemma_upserted_push(old(self)@, all.take(done as int), item);
            }
            self.upsert(item);
            done = done + 1;
            assert(items@ =~= all.skip(done as int));
        }
        assert(all.take(done as int) =~= all);
    }

    /// Moves the own vote of a cached course to `value`, ahead of the
    /// catalog's answer. Returns whether the course was cached and its count
    /// could move; otherwise nothing changes.
    pub fn apply_vote(&mut self, id: &String, value: i32) -> (r: bool)
        ensures
            r <==> old(self)@.contains_key(id@) && vote_fits(old(self)@[id@], value),
            r ==> final(self)@ == old(self)@.insert(id@, voted(old(self)@[id@], value)),
            !r ==> final(self)@ == old(self)@,
    {
        proof {
            lemma_upserted_at(Map::empty(), self.entries@, id@);
            lemma_last_index_bounds(self.entries@, id@);
        }
        match self.find(id) {
            Some(i) => {
                let e = &self.entries[i];
                let fits = e.votes as i64 + value as i64 - e.own_vote as i64;
                if fits < i32::MIN as i64 || fits > i32::MAX as i64 {
                    return false;
                }
                let mut rec = self.entries[i].clone();
                rec.set_own_vote(value);
                proof {
                    lemma_update_last(self.entries@, i as int, rec);
                }
                self.entries.set(i, rec);
                true
            },
            None => false,
        }
    }

    /// Drops the record of `id`, after the course was deleted from the catalog.
    pub fn remove(&mut self, id: &String)
        ensures
            final(self)@ == old(self)@.remove(id@),
    {
        let mut kept: Vec<Course2Response> = Vec::new();
        let mut rest: Vec<Course2Response> = Vec::new();
        std::mem::swap(&mut rest, &mut self.entries);
        let ghost all = rest@;
        let total = rest.len();
        let ghost k = id@;
        let mut done: usize = 0;
        while rest.len() > 0
            invariant
                done + rest@.len() == all.len(),
                all.len() == total,
                rest@ == all.skip(done as int),
                kept@ == without_id(all.take(done as int), k),
                k == id@,
            decreases rest@.len(),
        {
            let r = rest.remove(0);
            proof {
                assert(all.take(done as int + 1) =~= all.take(done as int).push(r));
                assert(all.take(done as int + 1).drop_last() =~= all.take(done as int));
            }
            if r.id != *id {
                kept.push(r);
            }
            done = done + 1;
            assert(rest@ =~= all.skip(done as int));
        }
        assert(all.take(done as int) =~= all);
        proof {
            lemma_without_id(all, k);
        }
        self.entries = kept;
    }
}

impl View for CatalogCache {
    type V = Map<Seq<char>, Course2Response>;

    closed spec fn view(&self) -> Map<Seq<char>, Course2Response> {
        entries_map(self.entries@)
    }
}

} // verus!
