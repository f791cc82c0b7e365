use gitlobster::namespace::{
    GroupSeed, LookupOutcome, NamespaceCache, ResolveState, ResolveStep,
};
use gitlobster::types::Group;

fn group(id: u32, path: &str, full_path: &str) -> Group {
    Group {
        id,
        name: path.to_string(),
        path: path.to_string(),
        description: None,
        full_path: full_path.to_string(),
    }
}

fn seed(path: &str) -> GroupSeed {
    GroupSeed { name: path.to_string(), path: path.to_string() }
}

/// A toy backup service: which full paths exist, and what it creates.
struct FakeBackup {
    existing: Vec<Group>,
    next_id: u32,
    lookups: usize,
    creates: usize,
}

impl FakeBackup {
    fn lookup(&mut self, full_path: &str) -> Option<Group> {
        self.lookups += 1;
        self.existing.iter().find(|g| g.full_path == full_path).cloned()
    }

    fn create(&mut self, name: &str, path: &str, full_path: &str) -> Group {
        self.creates += 1;
        let g = Group {
            id: self.next_id,
            name: name.to_string(),
            path: path.to_string(),
            description: None,
            full_path: full_path.to_string(),
        };
        self.next_id += 1;
        self.existing.push(g.clone());
        g
    }
}

/// Drives one full resolution, the way the mirror pipeline does.
fn resolve(
    segments: Vec<GroupSeed>,
    root: &Option<Group>,
    cache: &mut NamespaceCache,
    backup: &mut FakeBackup,
) -> (Option<u32>, Vec<Group>) {
    let mut state = ResolveState::start(segments, root);
    loop {
        match state.advance(cache) {
            ResolveStep::Ready => {
                return (state.parent_id, state.chain);
            },
            ResolveStep::NeedLookup(path) => {
                let found = backup.lookup(path.as_str());
                match state.on_lookup(cache, found) {
                    LookupOutcome::Advanced => {},
                    LookupOutcome::NeedCreate { name, path: slug, parent_id: _ } => {
                        let created = backup.create(name.as_str(), slug.as_str(), path.as_str());
                        state.on_created(cache, created);
                    },
                }
            },
        }
    }
}

#[test]
fn cache_round_trip() {
    let mut cache = NamespaceCache::new();
    assert!(cache.get("team").is_none());
    cache.insert("team".to_string(), group(4, "team", "team"));
    let g = cache.get("team").unwrap();
    assert_eq!(g.id, 4);
    assert!(cache.get("team/tools").is_none());
}

#[test]
fn first_resolution_creates_missing_groups_in_order() {
    let root = Some(group(1, "mirrors", "mirrors"));
    let mut cache = NamespaceCache::new();
    let mut backup = FakeBackup { existing: vec![], next_id: 10, lookups: 0, creates: 0 };

    let (parent, chain) = resolve(
        vec![seed("team"), seed("tools")],
        &root,
        &mut cache,
        &mut backup,
    );

    assert_eq!(backup.creates, 2);
    assert_eq!(chain.len(), 2);
    assert_eq!(chain[0].full_path, "mirrors/team");
    assert_eq!(chain[1].full_path, "mirrors/team/tools");
    assert_eq!(parent, Some(chain[1].id));
}

#[test]
fn second_resolution_reuses_the_cache() {
    let root = Some(group(1, "mirrors", "mirrors"));
    let mut cache = NamespaceCache::new();
    let mut backup = FakeBackup { existing: vec![], next_id: 10, lookups: 0, creates: 0 };

    let (parent1, _) = resolve(
        vec![seed("team"), seed("tools")],
        &root,
        &mut cache,
        &mut backup,
    );
    let (lookups_before, creates_before) = (backup.lookups, backup.creates);

    // The same project path resolved a second time touches the backup
    // service not at all: zero existence queries, zero create calls.
    let (parent2, chain2) = resolve(
        vec![seed("team"), seed("tools")],
        &root,
        &mut cache,
        &mut backup,
    );
    assert_eq!(backup.lookups, lookups_before);
    assert_eq!(backup.creates, creates_before);
    assert_eq!(parent2, parent1);
    assert_eq!(chain2.len(), 2);
}

#[test]
fn existing_groups_are_confirmed_not_recreated() {
    let root: Option<Group> = None;
    let mut cache = NamespaceCache::new();
    let mut backup = FakeBackup {
        existing: vec![group(21, "team", "team")],
        next_id: 30,
        lookups: 0,
        creates: 0,
    };

    let (parent, chain) = resolve(
        vec![seed("team"), seed("tools")],
        &root,
        &mut cache,
        &mut backup,
    );

    // `team` existed; only `team/tools` was created, under team's id.
    assert_eq!(backup.creates, 1);
    assert_eq!(chain[0].id, 21);
    assert_eq!(chain[1].full_path, "team/tools");
    assert_eq!(parent, Some(chain[1].id));
}

#[test]
fn rootless_resolution_builds_bare_paths() {
    let root: Option<Group> = None;
    let mut cache = NamespaceCache::new();
    let mut backup = FakeBackup { existing: vec![], next_id: 5, lookups: 0, creates: 0 };

    let (parent, chain) = resolve(vec![seed("team")], &root, &mut cache, &mut backup);
    assert_eq!(chain.len(), 1);
    assert_eq!(chain[0].full_path, "team");
    assert_eq!(parent, Some(chain[0].id));
}

#[test]
fn empty_segments_resolve_to_the_root() {
    let root = Some(group(9, "mirrors", "mirrors"));
    let mut cache = NamespaceCache::new();
    let mut backup = FakeBackup { existing: vec![], next_id: 5, lookups: 0, creates: 0 };

    let (parent, chain) = resolve(Vec::new(), &root, &mut cache, &mut backup);
    assert_eq!(parent, Some(9));
    assert!(chain.is_empty());
    assert_eq!(backup.lookups, 0);
}
