//! A per-project cache from trigger names to trigger ids.
//!
//! The cache lives in a `dashmap::DashMap` keyed by project id, each value
//! mapping trigger names to trigger ids. Mutating operations take `&mut self`
//! so that the map's contents can be followed as a value.

use vstd::prelude::*;
use std::collections::HashMap;
use dashmap::DashMap;

verus! {

#[verifier::external_type_specification]
#[verifier::external_body]
#[verifier::reject_recursive_types(K)]
#[verifier::reject_recursive_types(V)]
#[verifier::reject_recursive_types(S)]
pub struct ExDashMap<K, V, S>(DashMap<K, V, S>);

/// The projects map: project id to (trigger name to trigger id).
pub type ProjectsMap = DashMap<String, HashMap<String, String>>;

/// What the projects map holds: for each cached project, its names and ids.
pub uninterp spec fn cached_names(m: ProjectsMap) -> Map<Seq<char>, Map<Seq<char>, Seq<char>>>;

/// A cache holding nothing.
pub open spec fn no_names() -> Map<Seq<char>, Map<Seq<char>, Seq<char>>> {
    Map::empty()
}

/// The id held for a name in a project, if any.
pub open spec fn lookup_name(m: Map<Seq<char>, Map<Seq<char>, Seq<char>>>, project: Seq<char>, name: Seq<char>) -> Option<
    Seq<char>,
> {
    if m.contains_key(project) && m[project].contains_key(name) {
        Some(m[project][name])
    } else {
        None
    }
}

/// The cache once a name of a project holds an id: the project is added if
/// it was not known.
pub open spec fn with_name(
    m: Map<Seq<char>, Map<Seq<char>, Seq<char>>>,
    project: Seq<char>,
    name: Seq<char>,
    id: Seq<char>,
) -> Map<Seq<char>, Map<Seq<char>, Seq<char>>> {
    m.insert(
        project,
        (if m.contains_key(project) {
            m[project]
        } else {
            Map::empty()
        }).insert(name, id),
    )
}

/// The cache once a name of a project was dropped: the project stays known,
/// if it was, even when no name is left in it.
pub open spec fn without_name(m: Map<Seq<char>, Map<Seq<char>, Seq<char>>>, project: Seq<char>, name: Seq<char>) -> Map<
    Seq<char>,
    Map<Seq<char>, Seq<char>>,
> {
    if m.contains_key(project) {
        m.insert(project, m[project].remove(name))
    } else {
        m
    }
}

/// `DashMap::new`: an empty map.
#[verifier::external_body]
fn projects_new() -> (fresh: ProjectsMap)
    ensures
        cached_names(fresh) == no_names(),
{
    DashMap::new()
}

/// `DashMap::get` of a project, then `HashMap::get` of a name in it.
#[verifier::external_body]
fn projects_lookup(m: &ProjectsMap, project: &str, name: &str) -> (r: Option<String>)
    ensures
        match lookup_name(cached_names(*m), project@, name@) {
            Some(id) => r matches Some(found) && found@ == id,
            None => r is None,
        },
{
    m.get(project).and_then(|names| names.get(name).cloned())
}

/// `DashMap::entry(project).or_default()`, then `HashMap::insert` of the
/// name; gives the id the name had before.
#[verifier::external_body]
fn projects_insert(m: &mut ProjectsMap, project: String, name: String, id: String) -> (r: Option<String>)
    ensures
        cached_names(*final(m)) == with_name(cached_names(*old(m)), project@, name@, id@),
        match lookup_name(cached_names(*old(m)), project@, name@) {
            Some(prev) => r matches Some(found) && found@ == prev,
            None => r is None,
        },
{
    m.entry(project).or_default().insert(name, id)
}

/// `DashMap::get_mut` of a project, then `HashMap::remove` of a name in it;
/// gives the id the name had.
#[verifier::external_body]
fn projects_remove_name(m: &mut ProjectsMap, project: &str, name: &str) -> (r: Option<String>)
    ensures
        cached_names(*final(m)) == without_name(cached_names(*old(m)), project@, name@),
        match lookup_name(cached_names(*old(m)), project@, name@) {
            Some(prev) => r matches Some(found) && found@ == prev,
            None => r is None,
        },
{
    m.get_mut(project).and_then(|mut names| names.remove(name))
}

/// `DashMap::remove` of a project.
#[verifier::external_body]
fn projects_remove(m: &mut ProjectsMap, project: &str)
    ensures
        cached_names(*final(m)) == cached_names(*old(m)).remove(project@),
{
    m.remove(project);
}

/// `DashMap::len`: the number of projects.
#[verifier::external_body]
fn projects_len(m: &ProjectsMap) -> (n: usize)
    ensures
        n == cached_names(*m).dom().len(),
{
    m.len()
}

/// `DashMap::iter`, keeping each entry's key: the cached project ids, each
/// once, in the map's iteration order (which is not stated).
#[verifier::external_body]
fn projects_keys(m: &ProjectsMap) -> (keys: Vec<String>)
    ensures
        keys@.map_values(|k: String| k@).no_duplicates(),
        keys@.map_values(|k: String| k@).to_set() == cached_names(*m).dom(),
{
    m.iter().map(|entry| entry.key().clone()).collect()
}

/// `DashMap::get` of a project, then `HashMap::len`: the number of names
/// cached for it.
#[verifier::external_body]
fn projects_names_len(m: &ProjectsMap, project: &str) -> (n: Option<usize>)
    ensures
        match n {
            Some(k) => cached_names(*m).contains_key(project@) && cached_names(*m)[project@].dom().finite()
                && k == cached_names(*m)[project@].dom().len(),
            None => !cached_names(*m).contains_key(project@),
        },
{
    m.get(project).map(|names| names.len())
}

/// The sum of the number of names cached for each of `projects`.
pub open spec fn names_total(m: Map<Seq<char>, Map<Seq<char>, Seq<char>>>, projects: Seq<Seq<char>>) -> nat
    decreases projects.len(),
{
    if projects.len() == 0 {
        0
    } else {
        names_total(m, projects.drop_last()) + m[projects.last()].dom().len()
    }
}

/// The number of names cached for the projects of a finite set.
pub open spec fn names_in(m: Map<Seq<char>, Map<Seq<char>, Seq<char>>>, projects: Set<Seq<char>>) -> nat
    decreases projects.len(),
    when projects.finite()
{
    if projects.len() == 0 {
        0
    } else {
        let p = projects.choose();
        m[p].dom().len() + names_in(m, projects.remove(p))
    }
}

/// The number of names cached over all projects.
pub open spec fn total_names(m: Map<Seq<char>, Map<Seq<char>, Seq<char>>>) -> nat {
    names_in(m, m.dom())
}

/// Asks the trigger store for the id of a trigger name, on a cache miss.
pub trait Fetcher {
    type Error;

    /// The id of the trigger that holds `name` in a project, if any.
    fn call(&self, project_id: String, name: String) -> Result<Option<String>, Self::Error>;
}

/// A fetcher that never knows a name.
pub struct NullFetcher;

impl Fetcher for NullFetcher {
    type Error = ();

    fn call(&self, project_id: String, name: String) -> (r: Result<Option<String>, ()>)
        ensures
            r == Ok::<Option<String>, ()>(None),
    {
        Ok(None)
    }
}

/// Caches trigger ids by project and trigger name, asking a fetcher for the
/// names it does not know.
pub struct NameCache<F> {
    projects: ProjectsMap,
    fetcher: F,
}

impl NameCache<NullFetcher> {
    /// An empty cache whose fetcher knows no name.
    pub fn without_fetcher() -> (c: NameCache<NullFetcher>)
        ensures
            c.cached() == no_names(),
    {
        NameCache { projects: projects_new(), fetcher: NullFetcher }
    }
}

impl<F: Fetcher> NameCache<F> {
    /// The cached ids: project id to (trigger name to trigger id).
    pub closed spec fn cached(&self) -> Map<Seq<char>, Map<Seq<char>, Seq<char>>> {
        cached_names(self.projects)
    }

    /// The fetcher the cache asks on a miss.
    pub closed spec fn spec_fetcher(&self) -> F {
        self.fetcher
    }

    /// The id cached for a name in a project, if any.
    pub open spec fn cached_id(&self, project: Seq<char>, name: Seq<char>) -> Option<Seq<char>> {
        lookup_name(self.cached(), project, name)
    }

    /// An empty cache that asks `fetcher` on a miss.
    pub fn new(fetcher: F) -> (c: NameCache<F>)
        ensures
            c.cached() == no_names(),
            c.spec_fetcher() == fetcher,
    {
        NameCache { projects: projects_new(), fetcher }
    }

    /// The trigger id cached for a name in a project, if any.
    pub fn get_if_cached(&self, project_id: &str, name: &str) -> (r: Option<String>)
        ensures
            match self.cached_id(project_id@, name@) {
                Some(id) => r matches Some(found) && found@ == id,
                None => r is None,
            },
    {
        projects_lookup(&self.projects, project_id, name)
    }

    /// The trigger id for a name in a project: the cached one, else what the
    /// fetcher answers when asked for that name in that project, which is
    /// cached when it names an id. A fetcher error is passed on and leaves
    /// the cache as it was.
    pub fn get(&mut self, project_id: &str, name: &str) -> (r: Result<Option<String>, F::Error>)
        ensures
            final(self).spec_fetcher() == old(self).spec_fetcher(),
            match old(self).cached_id(project_id@, name@) {
                Some(id) => (r matches Ok(Some(found)) && found@ == id) && final(self).cached() == old(
                    self,
                ).cached(),
                None => {
                    &&& exists|asked_project: String, asked_name: String|
                        #![trigger call_ensures(F::call, (&old(self).spec_fetcher(), asked_project, asked_name), r)]
                        asked_project@ == project_id@ && asked_name@ == name@ && call_ensures(
                            F::call,
                            (&old(self).spec_fetcher(), asked_project, asked_name),
                            r,
                        )
                    &&& match r {
                        Ok(Some(found)) => final(self).cached() == with_name(
                            old(self).cached(),
                            project_id@,
                            name@,
                            found@,
                        ),
                        _ => final(self).cached() == old(self).cached(),
                    }
                },
            },
    {
        if let Some(trigger_id) = self.get_if_cached(project_id, name) {
            return Ok(Some(trigger_id));
        }
        let asked_project = project_id.to_owned();
        let asked_name = name.to_owned();
        let ghost (p, n) = (asked_project, asked_name);
        assert(p@ == project_id@ && n@ == name@);
        let answer = self.fetcher.call(asked_project, asked_name);
        let ghost a = answer;
        assert(call_ensures(F::call, (&old(self).spec_fetcher(), p, n), a));
        match answer {
            Ok(fetched) => {
                let r = Ok(self.remember_fetched(project_id, name, fetched));
                assert(r == a);
                assert(call_ensures(F::call, (&old(self).spec_fetcher(), p, n), r));
                r
            },
            Err(e) => {
                let r = Err(e);
                assert(r == a);
                assert(call_ensures(F::call, (&old(self).spec_fetcher(), p, n), r));
                r
            },
        }
    }

    /// Caches a name's trigger id and gives the id it had before.
    pub fn insert(&mut self, project_id: String, name: String, trigger_id: String) -> (r: Option<String>)
        ensures
            final(self).spec_fetcher() == old(self).spec_fetcher(),
            final(self).cached() == with_name(old(self).cached(), project_id@, name@, trigger_id@),
            match old(self).cached_id(project_id@, name@) {
                Some(id) => r matches Some(prev) && prev@ == id,
                None => r is None,
            },
    {
        projects_insert(&mut self.projects, project_id, name, trigger_id)
    }

    /// What a lookup that missed the cache answers once the trigger store
    /// was asked: the store's answer, which is cached when it names an id.
    pub fn remember_fetched(&mut self, project_id: &str, name: &str, fetched: Option<String>) -> (r:
        Option<String>)
        ensures
            final(self).spec_fetcher() == old(self).spec_fetcher(),
            r == fetched,
            match fetched {
                Some(id) => final(self).cached() == with_name(old(self).cached(), project_id@, name@, id@),
                None => final(self).cached() == old(self).cached(),
            },
    {
        let response = fetched.clone();
        if let Some(trigger_id) = fetched {
            let _ = self.insert(project_id.to_owned(), name.to_owned(), trigger_id);
        }
        response
    }

    /// Drops a name from the cache and gives the id it had.
    pub fn remove(&mut self, project_id: &str, name: &str) -> (r: Option<String>)
        ensures
            final(self).spec_fetcher() == old(self).spec_fetcher(),
            final(self).cached() == without_name(old(self).cached(), project_id@, name@),
            match old(self).cached_id(project_id@, name@) {
                Some(id) => r matches Some(prev) && prev@ == id,
                None => r is None,
            },
    {
        projects_remove_name(&mut self.projects, project_id, name)
    }

    /// Drops a whole project from the cache.
    pub fn remove_project(&mut self, project_id: &str)
        ensures
            final(self).spec_fetcher() == old(self).spec_fetcher(),
            final(self).cached() == old(self).cached().remove(project_id@),
    {
        projects_remove(&mut self.projects, project_id)
    }

    /// Drops the projects that have no cached names.
    pub fn compact(&mut self)
        ensures
            final(self).spec_fetcher() == old(self).spec_fetcher(),
            final(self).cached().dom() == old(self).cached().dom().filter(
                |p: Seq<char>| old(self).cached()[p].dom().len() != 0,
            ),
            forall|p: Seq<char>| #[trigger] final(self).cached().contains_key(p) ==> final(self).cached()[p]
                == old(self).cached()[p],
            forall|p: Seq<char>, n: Seq<char>| #[trigger] lookup_name(final(self).cached(), p, n)
                == lookup_name(old(self).cached(), p, n),
            total_names(final(self).cached()) == total_names(old(self).cached()),
    {
        let keys = projects_keys(&self.projects);
        let ghost start = self.cached();
        let ghost ks = keys@.map_values(|k: String| k@);
        let mut i: usize = 0;
        while i < keys.len()
            invariant
                self.spec_fetcher() == old(self).spec_fetcher(),
                i <= keys@.len(),
                ks == keys@.map_values(|k: String| k@),
                ks.no_duplicates(),
                ks.to_set() == start.dom(),
                forall|p: Seq<char>| #[trigger] self.cached().contains_key(p) ==> start.contains_key(p)
                    && self.cached()[p] == start[p],
                forall|p: Seq<char>| #[trigger] start.contains_key(p) ==> (self.cached().contains_key(p) <==> (
                    start[p].dom().len() != 0 || !ks.take(i as int).contains(p))),
                forall|p: Seq<char>| #[trigger] start.contains_key(p) && !self.cached().contains_key(p)
                    ==> start[p].dom() == Set::<Seq<char>>::empty(),
            decreases keys@.len() - i,
        {
            let ghost key = ks[i as int];
            assert(keys@[i as int]@ == key);
            let ghost before = self.cached();
            assert(start.contains_key(key)) by {
                assert(ks.contains(key));
            }
            assert(!ks.take(i as int).contains(key)) by {
                if ks.take(i as int).contains(key) {
                    let j = choose|j: int| 0 <= j < i && ks.take(i as int)[j] == key;
                    assert(ks[j] == ks[i as int]);
                }
            }
            assert(before.contains_key(key));
            assert(before[key] == start[key]);
            match projects_names_len(&self.projects, keys[i].as_str()) {
                Some(n) => {
                    if n == 0 {
                        proof {
                            start[key].dom().lemma_len0_is_empty();
                        }
                        projects_remove(&mut self.projects, keys[i].as_str());
                        assert(!self.cached().contains_key(key));
                    } else {
                        assert(self.cached() == before);
                        assert(start[key].dom().len() != 0);
                    }
                },
                None => {},
            }
            assert(ks.take(i + 1) == ks.take(i as int).push(key));
            assert(ks.take(i + 1).contains(key)) by {
                assert(ks.take(i + 1)[i as int] == key);
            }
            assert forall|p: Seq<char>| #[trigger] start.contains_key(p) implies (self.cached().contains_key(p)
                <==> (start[p].dom().len() != 0 || !ks.take(i + 1).contains(p))) by {
                if p != key {
                    assert(ks.take(i + 1).contains(p) <==> ks.take(i as int).contains(p));
                }
            }
            i = i + 1;
        }
        assert(ks.take(keys@.len() as int) == ks);
        assert forall|p: Seq<char>, n: Seq<char>| #[trigger] lookup_name(self.cached(), p, n) == lookup_name(
            start,
            p,
            n,
        ) by {
            if start.contains_key(p) && !self.cached().contains_key(p) {
                assert(!start[p].dom().contains(n));
            }
        }
        assert(self.cached().dom() == start.dom().filter(|p: Seq<char>| start[p].dom().len() != 0)) by {
            assert forall|p: Seq<char>| self.cached().dom().contains(p) <==> start.dom().filter(
                |p: Seq<char>| start[p].dom().len() != 0,
            ).contains(p) by {
                if start.contains_key(p) {
                    assert(ks.contains(p));
                }
            }
        }
        proof {
            vstd::seq_lib::seq_to_set_is_finite(ks);
            lemma_compact_keeps_total(start, self.cached());
        }
    }

    /// The number of projects in the cache.
    pub fn num_projects(&self) -> (n: usize)
        ensures
            n == self.cached().dom().len(),
    {
        projects_len(&self.projects)
    }

    /// The number of cached names over all projects (`usize::MAX` should it
    /// not fit).
    pub fn total_size(&self) -> (n: usize)
        ensures
            n == (if total_names(self.cached()) <= usize::MAX {
                total_names(self.cached())
            } else {
                usize::MAX as nat
            }),
    {
        let keys = projects_keys(&self.projects);
        let ghost ks = keys@.map_values(|k: String| k@);
        let mut total: usize = 0;
        let mut i: usize = 0;
        while i < keys.len()
            invariant
                i <= keys@.len(),
                ks == keys@.map_values(|k: String| k@),
                ks.no_duplicates(),
                ks.to_set() == self.cached().dom(),
                total == (if names_total(self.cached(), ks.take(i as int)) <= usize::MAX {
                    names_total(self.cached(), ks.take(i as int))
                } else {
                    usize::MAX as nat
                }),
            decreases keys@.len() - i,
        {
            let ghost key = ks[i as int];
            assert(keys@[i as int]@ == key);
            assert(ks.take(i + 1).drop_last() == ks.take(i as int));
            assert(self.cached().contains_key(key)) by {
                assert(ks.contains(key));
            }
            match projects_names_len(&self.projects, keys[i].as_str()) {
                Some(n) => {
                    total = total.saturating_add(n);
                },
                None => {},
            }
            i = i + 1;
        }
        assert(ks.take(keys@.len() as int) == ks);
        proof {
            lemma_total_of_enumeration(self.cached(), ks, self.cached().dom());
        }
        total
    }
}

/// A lookup right after a name was cached gives the id just cached; every
/// other name, in every project, looks up as before.
pub proof fn lemma_lookup_after_insert(
    m: Map<Seq<char>, Map<Seq<char>, Seq<char>>>,
    project: Seq<char>,
    name: Seq<char>,
    id: Seq<char>,
    p: Seq<char>,
    n: Seq<char>,
)
    ensures
        lookup_name(with_name(m, project, name, id), p, n) == (if p == project && n == name {
            Some(id)
        } else {
            lookup_name(m, p, n)
        }),
{
}

/// A lookup right after a name was dropped finds nothing for it; every
/// other name, in every project, looks up as before.
pub proof fn lemma_lookup_after_remove(
    m: Map<Seq<char>, Map<Seq<char>, Seq<char>>>,
    project: Seq<char>,
    name: Seq<char>,
    p: Seq<char>,
    n: Seq<char>,
)
    ensures
        lookup_name(without_name(m, project, name), p, n) == (if p == project && n == name {
            None
        } else {
            lookup_name(m, p, n)
        }),
{
}

/// Once a project is dropped none of its names looks up; the names of the
/// other projects look up as before.
pub proof fn lemma_lookup_after_remove_project(
    m: Map<Seq<char>, Map<Seq<char>, Seq<char>>>,
    project: Seq<char>,
    p: Seq<char>,
    n: Seq<char>,
)
    ensures
        lookup_name(m.remove(project), p, n) == (if p == project {
            None
        } else {
            lookup_name(m, p, n)
        }),
{
}


/// Taking one project out of an enumeration takes its names out of the total.
proof fn lemma_total_remove(m: Map<Seq<char>, Map<Seq<char>, Seq<char>>>, s: Seq<Seq<char>>, k: int)
    requires
        0 <= k < s.len(),
    ensures
        names_total(m, s) == names_total(m, s.remove(k)) + m[s[k]].dom().len(),
    decreases s.len(),
{
    if k == s.len() - 1 {
        assert(s.remove(k) =~= s.drop_last());
    } else {
        lemma_total_remove(m, s.drop_last(), k);
        assert(s.remove(k).drop_last() =~= s.drop_last().remove(k));
        assert(s.remove(k).last() == s.last());
    }
}

/// Removing one entry of a sequence without repeats keeps it without repeats
/// and takes exactly that entry out.
proof fn lemma_remove_distinct(s: Seq<Seq<char>>, k: int)
    requires
        s.no_duplicates(),
        0 <= k < s.len(),
    ensures
        s.remove(k).no_duplicates(),
        forall|q: Seq<char>| #[trigger] s.remove(k).contains(q) <==> (s.contains(q) && q != s[k]),
{
    let r = s.remove(k);
    assert(r.len() == s.len() - 1);
    assert forall|i: int| 0 <= i < r.len() implies #[trigger] r[i] == (if i < k { s[i] } else { s[i + 1] }) by {
    }
    assert forall|i: int, j: int| 0 <= i < r.len() && 0 <= j < r.len() && i != j implies r[i] != r[j] by {
        let a = if i < k { i } else { i + 1 };
        let b = if j < k { j } else { j + 1 };
        assert(r[i] == s[a]);
        assert(r[j] == s[b]);
    }
    assert forall|q: Seq<char>| r.contains(q) <==> (s.contains(q) && q != s[k]) by {
        if r.contains(q) {
            let i = choose|i: int| 0 <= i < r.len() && r[i] == q;
            let a = if i < k { i } else { i + 1 };
            assert(r[i] == s[a]);
            assert(s.contains(q));
        }
        if s.contains(q) && q != s[k] {
            let a = choose|a: int| 0 <= a < s.len() && s[a] == q;
            let i = if a < k { a } else { a - 1 };
            assert(r[i] == q);
        }
    }
}

/// The total over a set does not depend on which project is taken first.
proof fn lemma_names_in_remove(m: Map<Seq<char>, Map<Seq<char>, Seq<char>>>, s: Set<Seq<char>>, x: Seq<char>)
    requires
        s.finite(),
        s.contains(x),
    ensures
        names_in(m, s) == m[x].dom().len() + names_in(m, s.remove(x)),
    decreases s.len(),
{
    assert(s.len() != 0);
    let c = s.choose();
    if c != x {
        lemma_names_in_remove(m, s.remove(c), x);
        lemma_names_in_remove(m, s.remove(x), c);
        assert(s.remove(c).remove(x) =~= s.remove(x).remove(c));
    }
}

/// The total over an enumeration of a set, each project once, is the total
/// over the set.
proof fn lemma_total_of_enumeration(m: Map<Seq<char>, Map<Seq<char>, Seq<char>>>, ps: Seq<Seq<char>>, s: Set<Seq<char>>)
    requires
        ps.no_duplicates(),
        ps.to_set() == s,
    ensures
        s.finite(),
        names_total(m, ps) == names_in(m, s),
    decreases ps.len(),
{
    broadcast use vstd::seq_lib::seq_to_set_is_finite;

    if ps.len() == 0 {
        assert(s =~= Set::<Seq<char>>::empty());
    } else {
        let x = ps.last();
        let k = ps.len() - 1;
        assert(s.contains(x)) by {
            assert(ps.contains(x));
        }
        lemma_total_remove(m, ps, k);
        lemma_remove_distinct(ps, k);
        assert(ps.remove(k).to_set() =~= s.remove(x));
        lemma_total_of_enumeration(m, ps.remove(k), s.remove(x));
        lemma_names_in_remove(m, s, x);
    }
}

/// The total over the projects `s` equals the total over `t` when `t` keeps,
/// with the same names, each project of `s` that holds a name, and only
/// projects of `s`.
proof fn lemma_names_in_without_empty(
    before: Map<Seq<char>, Map<Seq<char>, Seq<char>>>,
    after: Map<Seq<char>, Map<Seq<char>, Seq<char>>>,
    s: Set<Seq<char>>,
    t: Set<Seq<char>>,
)
    requires
        s.finite(),
        forall|q: Seq<char>| #[trigger] t.contains(q) ==> s.contains(q) && after[q] == before[q],
        forall|p: Seq<char>| #[trigger] s.contains(p) ==> t.contains(p) || before[p].dom().len() == 0,
    ensures
        t.finite(),
        names_in(before, s) == names_in(after, t),
    decreases s.len(),
{
    assert(t.subset_of(s));
    vstd::set_lib::lemma_len_subset(t, s);
    if s.len() == 0 {
        assert(t.len() == 0);
    } else {
        let x = s.choose();
        assert(s.contains(x));
        lemma_names_in_remove(before, s, x);
        if t.contains(x) {
            lemma_names_in_remove(after, t, x);
            lemma_names_in_without_empty(before, after, s.remove(x), t.remove(x));
        } else {
            lemma_names_in_without_empty(before, after, s.remove(x), t);
        }
    }
}

/// Dropping the projects that hold no names (what `NameCache::compact` does)
/// leaves the number of cached names, the total that `NameCache::total_size`
/// gives, unchanged.
pub proof fn lemma_compact_keeps_total(
    before: Map<Seq<char>, Map<Seq<char>, Seq<char>>>,
    after: Map<Seq<char>, Map<Seq<char>, Seq<char>>>,
)
    requires
        before.dom().finite(),
        after.dom() == before.dom().filter(|p: Seq<char>| before[p].dom().len() != 0),
        forall|p: Seq<char>| #[trigger] after.contains_key(p) ==> after[p] == before[p],
    ensures
        total_names(after) == total_names(before),
{
    assert forall|q: Seq<char>| #[trigger] after.dom().contains(q) implies before.dom().contains(q) && after[q]
        == before[q] by {
        assert(after.contains_key(q));
    }
    assert forall|p: Seq<char>| #[trigger] before.dom().contains(p) implies after.dom().contains(p)
        || before[p].dom().len() == 0 by {
    }
    lemma_names_in_without_empty(before, after, before.dom(), after.dom());
}

/// On a cache miss, the answer is what the fetcher answers for that very
/// project and name: when every answer the fetcher gives for the pair is
/// `Ok(Some(id))`, the lookup answers `Ok(Some(id))` and the name is then
/// cached under that project with that id. `before` and `after` are the
/// cached names around `get(project, name)`, which answered `r`.
pub proof fn lemma_miss_asks_fetcher_for_the_pair<F: Fetcher>(
    fetcher: F,
    before: Map<Seq<char>, Map<Seq<char>, Seq<char>>>,
    after: Map<Seq<char>, Map<Seq<char>, Seq<char>>>,
    project: Seq<char>,
    name: Seq<char>,
    id: String,
    r: Result<Option<String>, F::Error>,
)
    requires
        lookup_name(before, project, name) is None,
        exists|asked_project: String, asked_name: String|
            #![trigger call_ensures(F::call, (&fetcher, asked_project, asked_name), r)]
            asked_project@ == project && asked_name@ == name && call_ensures(
                F::call,
                (&fetcher, asked_project, asked_name),
                r,
            ),
        match r {
            Ok(Some(found)) => after == with_name(before, project, name, found@),
            _ => after == before,
        },
        forall|asked_project: String, asked_name: String, answer: Result<Option<String>, F::Error>|
            #![trigger call_ensures(F::call, (&fetcher, asked_project, asked_name), answer)]
            asked_project@ == project && asked_name@ == name && call_ensures(
                F::call,
                (&fetcher, asked_project, asked_name),
                answer,
            ) ==> answer == Ok::<Option<String>, F::Error>(Some(id)),
    ensures
        r == Ok::<Option<String>, F::Error>(Some(id)),
        lookup_name(after, project, name) == Some(id@),
{
}

} // verus!
