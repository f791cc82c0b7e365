//! Recreates a project's nested group hierarchy on the backup service,
//! memoized through a shared cache keyed by full namespace path.
//!
//! The resolver is a step machine: the caller performs the existence
//! queries and creation requests it asks for, and feeds the answers back.
//! Consulting the cache never issues a request, so a path whose steps are
//! all cached resolves without touching the service at all.

use vstd::prelude::*;
use crate::strutil::{join_path, spec_join, str_eq};
use crate::types::{Group, GroupV};

verus! {

/// What one namespace segment is created from: the display name and the
/// path slug of the corresponding group on the source side.
pub struct GroupSeed {
    pub name: String,
    pub path: String,
}

/// The mathematical value of a [`GroupSeed`].
pub ghost struct GroupSeedV {
    pub name: Seq<char>,
    pub path: Seq<char>,
}

impl View for GroupSeed {
    type V = GroupSeedV;

    open spec fn view(&self) -> GroupSeedV {
        GroupSeedV { name: self.name@, path: self.path@ }
    }
}

impl DeepView for GroupSeed {
    type V = GroupSeedV;

    open spec fn deep_view(&self) -> GroupSeedV {
        self.view()
    }
}

impl Clone for GroupSeed {
    fn clone(&self) -> (r: Self)
        ensures
            r@ == self@,
    {
        GroupSeed { name: self.name.clone(), path: self.path.clone() }
    }
}

/// The resolved groups as a map from full namespace path to group value;
/// a later entry for the same path wins.
pub open spec fn entries_map(s: Seq<(String, Group)>) -> Map<Seq<char>, GroupV>
    decreases s.len(),
{
    if s.len() == 0 {
        Map::empty()
    } else {
        entries_map(s.drop_last()).insert(s.last().0@, s.last().1@)
    }
}

proof fn lemma_entries_map_found(s: Seq<(String, Group)>, j: int, k: Seq<char>)
    requires
        0 <= j < s.len(),
        s[j].0@ == k,
        forall|l: int| j < l < s.len() ==> #[trigger] s[l].0@ != k,
    ensures
        entries_map(s).contains_key(k),
        entries_map(s)[k] == s[j].1@,
    decreases s.len(),
{
    if j < s.len() - 1 {
        lemma_entries_map_found(s.drop_last(), j, k);
    }
}

proof fn lemma_entries_map_absent(s: Seq<(String, Group)>, k: Seq<char>)
    requires
        forall|j: int| 0 <= j < s.len() ==> #[trigger] s[j].0@ != k,
    ensures
        !entries_map(s).contains_key(k),
    decreases s.len(),
{
    if s.len() > 0 {
        lemma_entries_map_absent(s.drop_last(), k);
    }
}

/// The shared cache of resolved namespaces. One logical resolution per
/// distinct path: every hit here saves an existence query, and the
/// caller serializes accesses for the duration of one read-check-write.
pub struct NamespaceCache {
    entries: Vec<(String, Group)>,
}

impl NamespaceCache {
    /// The cache contents as a map from full path to group value.
    pub closed spec fn map_view(&self) -> Map<Seq<char>, GroupV> {
        entries_map(self.entries@)
    }

    /// An empty cache, made once per run.
    pub fn new() -> (r: NamespaceCache)
        ensures
            r.map_view() == Map::<Seq<char>, GroupV>::empty(),
    {
        NamespaceCache { entries: Vec::new() }
    }

    /// Looks a full namespace path up.
    pub fn get(&self, path: &str) -> (r: Option<Group>)
        ensures
            match r {
                Some(g) => self.map_view().contains_key(path@) && g@ == self.map_view()[path@],
                None => !self.map_view().contains_key(path@),
            },
    {
        let n = self.entries.len();
        let mut i: usize = n;
        while i > 0
            invariant
                n == self.entries@.len(),
                i <= n,
                forall|l: int| i <= l < n ==> #[trigger] self.entries@[l].0@ != path@,
            decreases i,
        {
            i -= 1;
            if str_eq(self.entries[i].0.as_str(), path) {
                proof {
                    lemma_entries_map_found(self.entries@, i as int, path@);
                }
                return Some(self.entries[i].1.clone());
            }
        }
        proof {
            lemma_entries_map_absent(self.entries@, path@);
        }
        None
    }

    /// Records a resolved group under its full path.
    pub fn insert(&mut self, path: String, group: Group)
        ensures
            final(self).map_view() == old(self).map_view().insert(path@, group@),
    {
        self.entries.push((path, group));
        proof {
            assert(self.entries@.drop_last() =~= old(self).entries@);
        }
    }
}

/// The cumulative full path after the first `i` segments, grown from the
/// root prefix.
pub open spec fn spec_cum(prefix: Seq<char>, segs: Seq<GroupSeedV>, i: int) -> Seq<char>
    decreases i,
{
    if i <= 0 {
        prefix
    } else {
        spec_join(spec_cum(prefix, segs, i - 1), segs[i - 1].path)
    }
}

/// What the resolver asks the caller to do next.
pub enum ResolveStep {
    /// Every segment is resolved; the state's parent id and chain are the
    /// result.
    Ready,
    /// Ask the backup service whether a group exists under this full
    /// path.
    NeedLookup(String),
}

/// The caller's follow-up after an existence query came back empty.
pub enum LookupOutcome {
    /// The group existed and the resolver advanced past it.
    Advanced,
    /// Create a group with this name and path slug under the given
    /// parent, then report it back through [`ResolveState::on_created`].
    NeedCreate { name: String, path: String, parent_id: Option<u32> },
}

/// One in-progress resolution of a project's namespace chain,
/// root-to-leaf.
pub struct ResolveState {
    /// The namespace segments still to walk, outermost first.
    pub segments: Vec<GroupSeed>,
    /// How many segments are resolved so far.
    pub idx: usize,
    /// The full path of the root group the chain hangs under, or empty.
    pub root_path: String,
    /// The identity of that root group, when there is one.
    pub root_id: Option<u32>,
    /// The cumulative full path of the resolved prefix.
    pub current_path: String,
    /// The namespace the next creation happens under: the root, then the
    /// most recently resolved group.
    pub parent_id: Option<u32>,
    /// The groups resolved so far, outermost first.
    pub chain: Vec<Group>,
}

impl ResolveState {
    /// The cumulative full path after `i` segments.
    pub open spec fn cum(&self, i: int) -> Seq<char> {
        spec_cum(self.root_path@, self.segments.deep_view(), i)
    }

    /// The state is consistent: the index is within the segments, the
    /// current path is the cumulative path of the resolved prefix, the
    /// chain holds one group per resolved segment, and the parent id is
    /// the last resolved group's (or the root's).
    pub open spec fn wf(&self) -> bool {
        &&& self.idx <= self.segments@.len()
        &&& self.chain@.len() == self.idx
        &&& self.current_path@ == self.cum(self.idx as int)
        &&& self.parent_id == if self.idx == 0 {
            self.root_id
        } else {
            Some(self.chain.deep_view()[self.idx - 1].id)
        }
    }

    /// The segments and root anchor of `other` are this state's.
    pub open spec fn same_goal(&self, other: &ResolveState) -> bool {
        &&& self.segments.deep_view() == other.segments.deep_view()
        &&& self.root_path@ == other.root_path@
        &&& self.root_id == other.root_id
    }

    /// Begins resolving `segments` under the optional root group.
    pub fn start(segments: Vec<GroupSeed>, root: &Option<Group>) -> (r: ResolveState)
        ensures
            r.wf(),
            r.idx == 0,
            r.segments.deep_view() == segments.deep_view(),
            match root {
                Some(g) => r.root_path@ == g.full_path@ && r.root_id == Some(g.id),
                None => r.root_path@ == Seq::<char>::empty() && r.root_id is None,
            },
    {
        let (root_path, root_id): (String, Option<u32>) = match root {
            Some(g) => (g.full_path.clone(), Some(g.id)),
            None => (String::new(), None),
        };
        let current_path = root_path.clone();
        ResolveState {
            segments,
            idx: 0,
            root_path,
            root_id,
            current_path,
            parent_id: root_id,
            chain: Vec::new(),
        }
    }

    /// Walks forward through the cache until a segment misses or the
    /// chain is complete. Consulting the cache issues no request, so a
    /// fully cached namespace resolves in this one call: zero existence
    /// queries, zero creations.
    pub fn advance(&mut self, cache: &NamespaceCache) -> (r: ResolveStep)
        requires
            old(self).wf(),
        ensures
            final(self).wf(),
            final(self).same_goal(old(self)),
            old(self).idx <= final(self).idx <= final(self).segments@.len(),
            final(self).chain.deep_view().take(old(self).idx as int) == old(
                self,
            ).chain.deep_view(),
            forall|j: int|
                old(self).idx <= j < final(self).idx ==> {
                    &&& cache.map_view().contains_key(#[trigger] final(self).cum(j + 1))
                    &&& final(self).chain.deep_view()[j] == cache.map_view()[final(self).cum(
                        j + 1,
                    )]
                },
            match r {
                ResolveStep::Ready => final(self).idx == final(self).segments@.len(),
                ResolveStep::NeedLookup(path) => {
                    &&& final(self).idx < final(self).segments@.len()
                    &&& path@ == final(self).cum(final(self).idx + 1)
                    &&& !cache.map_view().contains_key(path@)
                },
            },
            (forall|j: int|
                old(self).idx <= j < old(self).segments@.len() ==> cache.map_view().contains_key(
                    #[trigger] old(self).cum(j + 1),
                )) ==> r is Ready,
    {
        loop
            invariant
                self.wf(),
                self.same_goal(old(self)),
                old(self).idx <= self.idx <= self.segments@.len(),
                self.chain.deep_view().take(old(self).idx as int) == old(self).chain.deep_view(),
                forall|j: int|
                    old(self).idx <= j < self.idx ==> {
                        &&& cache.map_view().contains_key(#[trigger] self.cum(j + 1))
                        &&& self.chain.deep_view()[j] == cache.map_view()[self.cum(j + 1)]
                    },
            decreases self.segments@.len() - self.idx,
        {
            if self.idx == self.segments.len() {
                proof {
                    assert(old(self).cum(self.idx as int) == self.cum(self.idx as int));
                }
                return ResolveStep::Ready;
            }
            let next_path = join_path(
                self.current_path.as_str(),
                self.segments[self.idx].path.as_str(),
            );
            proof {
                assert(next_path@ == self.cum(self.idx + 1));
            }
            match cache.get(next_path.as_str()) {
                Some(g) => {
                    let ghost before = *self;
                    let ghost gv = g@;
                    let gid = g.id;
                    let n = self.segments.len();
                    self.chain.push(g);
                    self.current_path = next_path;
                    self.parent_id = Some(gid);
                    proof {
                        assert(self.idx < n);
                    }
                    self.idx = self.idx + 1;
                    proof {
                        assert(self.chain.deep_view() =~= before.chain.deep_view().push(gv));
                        assert(self.chain.deep_view().take(old(self).idx as int)
                            =~= old(self).chain.deep_view());
                        assert forall|j: int| old(self).idx <= j < self.idx implies {
                            &&& cache.map_view().contains_key(#[trigger] self.cum(j + 1))
                            &&& self.chain.deep_view()[j] == cache.map_view()[self.cum(j + 1)]
                        } by {
                            assert(self.cum(j + 1) == before.cum(j + 1));
                            if j < self.idx - 1 {
                                assert(self.chain.deep_view()[j] == before.chain.deep_view()[j]);
                            } else {
                                assert(self.cum(j + 1) == next_path@);
                                assert(self.chain.deep_view()[j] == gv);
                            }
                        }
                    }
                },
                None => {
                    proof {
                        assert(old(self).segments.deep_view().len()
                            == self.segments.deep_view().len());
                        assert(old(self).idx <= self.idx < old(self).segments@.len());
                        assert(old(self).cum(self.idx + 1) == self.cum(self.idx + 1));
                        assert(!cache.map_view().contains_key(old(self).cum(self.idx + 1)));
                    }
                    return ResolveStep::NeedLookup(next_path);
                },
            }
        }
    }

    /// Consumes the answer of an existence query for the pending
    /// segment: an existing group advances the chain and fills the
    /// cache; absence asks the caller to create the group under the
    /// previously resolved parent.
    pub fn on_lookup(&mut self, cache: &mut NamespaceCache, found: Option<Group>) -> (r:
        LookupOutcome)
        requires
            old(self).wf(),
            old(self).idx < old(self).segments@.len(),
        ensures
            final(self).wf(),
            final(self).same_goal(old(self)),
            match found {
                Some(g) => {
                    &&& r is Advanced
                    &&& final(self).idx == old(self).idx + 1
                    &&& final(self).chain.deep_view() == old(self).chain.deep_view().push(g@)
                    &&& final(cache).map_view() == old(cache).map_view().insert(
                        old(self).cum(old(self).idx + 1),
                        g@,
                    )
                },
                None => {
                    &&& *final(self) == *old(self)
                    &&& final(cache).map_view() == old(cache).map_view()
                    &&& r matches LookupOutcome::NeedCreate { name, path, parent_id } && {
                        &&& name@ == old(self).segments.deep_view()[old(self).idx as int].name
                        &&& path@ == old(self).segments.deep_view()[old(self).idx as int].path
                        &&& parent_id == old(self).parent_id
                    }
                },
            },
    {
        match found {
            Some(g) => {
                self.record_resolved(cache, g);
                LookupOutcome::Advanced
            },
            None => {
                let seed = &self.segments[self.idx];
                LookupOutcome::NeedCreate {
                    name: seed.name.clone(),
                    path: seed.path.clone(),
                    parent_id: self.parent_id,
                }
            },
        }
    }

    /// Consumes the group the caller just created for the pending
    /// segment: the chain advances and the cache learns the path, so no
    /// later resolution creates it again.
    pub fn on_created(&mut self, cache: &mut NamespaceCache, group: Group)
        requires
            old(self).wf(),
            old(self).idx < old(self).segments@.len(),
        ensures
            final(self).wf(),
            final(self).same_goal(old(self)),
            final(self).idx == old(self).idx + 1,
            final(self).chain.deep_view() == old(self).chain.deep_view().push(group@),
            final(cache).map_view() == old(cache).map_view().insert(
                old(self).cum(old(self).idx + 1),
                group@,
            ),
    {
        self.record_resolved(cache, group);
    }

    /// Advances past the pending segment with its resolved group,
    /// filling the cache before any deeper segment is touched.
    fn record_resolved(&mut self, cache: &mut NamespaceCache, group: Group)
        requires
            old(self).wf(),
            old(self).idx < old(self).segments@.len(),
        ensures
            final(self).wf(),
            final(self).same_goal(old(self)),
            final(self).idx == old(self).idx + 1,
            final(self).chain.deep_view() == old(self).chain.deep_view().push(group@),
            final(cache).map_view() == old(cache).map_view().insert(
                old(self).cum(old(self).idx + 1),
                group@,
            ),
    {
        let next_path = join_path(
            self.current_path.as_str(),
            self.segments[self.idx].path.as_str(),
        );
        proof {
            assert(next_path@ == self.cum(self.idx + 1));
        }
        let gid = group.id;
        let n = self.segments.len();
        cache.insert(next_path.clone(), group.clone());
        self.chain.push(group);
        self.current_path = next_path;
        self.parent_id = Some(gid);
        proof {
            assert(self.idx < n);
        }
        self.idx = self.idx + 1;
        proof {
            assert(self.chain.deep_view() =~= old(self).chain.deep_view().push(
                self.chain.deep_view().last(),
            ));
        }
    }
}

} // verus!
