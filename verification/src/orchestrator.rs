//! The run-level policy: inventory preparation, remote URL selection,
//! fixed-size batching with a join at every batch boundary, the
//! continue-on-error decision, and progress accounting.

use vstd::prelude::*;
use crate::config::ForceProtocol;
use crate::errors::MirrorError;
use crate::pattern::{
    all_patterns_ok, spec_filtered, spec_limited, FilterPatterns, filter_projects, regex_ok,
};
use crate::types::{Project, ProjectV};

verus! {

/// The scheme separator `://` stands at position `i` of `s`.
pub open spec fn spec_scheme_sep_at(s: Seq<char>, i: int) -> bool {
    0 <= i && i + 3 <= s.len() && s.subrange(i, i + 3) == "://"@
}

/// `s` holds exactly one scheme separator.
pub open spec fn has_unique_scheme_sep(s: Seq<char>) -> bool {
    &&& exists|i: int| spec_scheme_sep_at(s, i)
    &&& forall|i: int, j: int|
        spec_scheme_sep_at(s, i) && spec_scheme_sep_at(s, j) ==> i == j
}

/// The protocol a clone URL is rewritten with: the original one, or the
/// forced one.
pub open spec fn spec_forced_protocol(fp: ForceProtocol, original: Seq<char>) -> Seq<char> {
    match fp {
        ForceProtocol::No => original,
        ForceProtocol::Http => "http"@,
        ForceProtocol::Https => "https"@,
    }
}

/// The HTTP(S) clone URL with embedded credentials, split at the scheme
/// separator at `i`.
pub open spec fn spec_authed_url(
    http_url: Seq<char>,
    auth: Seq<char>,
    fp: ForceProtocol,
    i: int,
) -> Seq<char> {
    spec_forced_protocol(fp, http_url.take(i)) + "://"@ + auth + seq!['@'] + http_url.skip(i + 3)
}

/// Position of the first scheme separator in `s`, when there is one.
fn find_scheme_sep(s: &str) -> (r: Option<usize>)
    ensures
        match r {
            Some(i) => spec_scheme_sep_at(s@, i as int),
            None => forall|i: int| !spec_scheme_sep_at(s@, i),
        },
{
    proof {
        reveal_strlit("://");
    }
    let n = s.unicode_len();
    if n < 3 {
        proof {
            assert forall|i: int| !spec_scheme_sep_at(s@, i) by {}
        }
        return None;
    }
    let mut i: usize = 0;
    while i <= n - 3
        invariant
            n == s@.len(),
            n >= 3,
            i <= n,
            forall|j: int| 0 <= j < i ==> !spec_scheme_sep_at(s@, j),
        decreases n - i,
    {
        if s.get_char(i) == ':' && s.get_char(i + 1) == '/' && s.get_char(i + 2) == '/' {
            proof {
                reveal_strlit("://");
                assert(s@.subrange(i as int, i + 3) =~= "://"@);
            }
            return Some(i);
        }
        proof {
            reveal_strlit("://");
            assert(!spec_scheme_sep_at(s@, i as int)) by {
                if s@.subrange(i as int, i + 3) == "://"@ {
                    assert(s@.subrange(i as int, i + 3)[0] == s@[i as int]);
                    assert(s@.subrange(i as int, i + 3)[1] == s@[i + 1]);
                    assert(s@.subrange(i as int, i + 3)[2] == s@[i + 2]);
                }
            }
        }
        i += 1;
    }
    proof {
        assert forall|j: int| !spec_scheme_sep_at(s@, j) by {
            if j >= i {
                assert(j + 3 > n);
            }
        }
    }
    None
}

/// The remote URL one repository is cloned from or pushed to: the SSH
/// URL as-is when no embedded-credential auth is configured, otherwise
/// the HTTP(S) URL with `auth@` spliced in after the (possibly forced)
/// protocol.
pub fn make_git_path(
    project: &Project,
    git_http_auth: &Option<String>,
    force_protocol: &ForceProtocol,
) -> (r: String)
    requires
        git_http_auth is Some ==> has_unique_scheme_sep(project.http_url_to_repo@),
    ensures
        match git_http_auth {
            None => r@ == project.ssh_url_to_repo@,
            Some(auth) => exists|i: int|
                spec_scheme_sep_at(project.http_url_to_repo@, i) && r@ == spec_authed_url(
                    project.http_url_to_repo@,
                    auth@,
                    *force_protocol,
                    i,
                ),
        },
{
    let auth = match git_http_auth {
        None => {
            return project.ssh_url_to_repo.clone();
        },
        Some(a) => a,
    };
    let http = project.http_url_to_repo.as_str();
    let n = http.unicode_len();
    let sep = find_scheme_sep(http);
    let i = match sep {
        Some(i) => i,
        None => {
            proof {
                assert(false);
            }
            0
        },
    };
    let protocol: String = match force_protocol {
        ForceProtocol::No => http.substring_char(0, i).to_owned(),
        ForceProtocol::Http => "http".to_owned(),
        ForceProtocol::Https => "https".to_owned(),
    };
    let rest = http.substring_char(i + 3, n);
    let r = protocol.concat("://").concat(auth.as_str()).concat("@").concat(rest);
    proof {
        reveal_strlit("@");
        assert("@"@ =~= seq!['@']);
        assert(http@.take(i as int) == http@.subrange(0, i as int));
        assert(r@ =~= spec_authed_url(project.http_url_to_repo@, auth@, *force_protocol, i as int));
    }
    r
}

/// The path one project occupies under the destination root: its bare
/// slug when hierarchy mirroring is disabled, its full namespaced path
/// otherwise.
pub fn project_slug(project: &Project, disable_hierarchy: bool) -> (r: String)
    ensures
        r@ == if disable_hierarchy {
            project.path@
        } else {
            project.path_with_namespace@
        },
{
    if disable_hierarchy {
        project.path.clone()
    } else {
        project.path_with_namespace.clone()
    }
}

/// The working tree location of one project under the destination root.
pub fn local_destination(dst: &str, slug: &str) -> (r: String)
    ensures
        r@ == dst@ + "/"@ + slug@,
{
    let r = dst.to_owned().concat("/").concat(slug);
    proof {
        assert(r@ =~= dst@ + "/"@ + slug@);
    }
    r
}

/// The default destination root under the system's temporary directory.
pub fn default_destination(tmp_dir: &str) -> (r: String)
    ensures
        r@ == tmp_dir@ + "/gitlobster"@,
{
    let r = tmp_dir.to_owned().concat("/gitlobster");
    proof {
        assert(r@ =~= tmp_dir@ + "/gitlobster"@);
    }
    r
}

/// Lists, filters and truncates the inventory for one run. An empty raw
/// inventory and an inventory that filtering empties are distinct fatal
/// errors; a result limit applies only together with a filter; without
/// patterns the inventory passes through whole.
pub fn prepare_inventory(
    projects: Vec<Project>,
    patterns: &Option<FilterPatterns>,
    limit: Option<usize>,
) -> (r: Result<Vec<Project>, MirrorError>)
    ensures
        projects@.len() == 0 ==> (r matches Err(e) && e is NoProjects),
        projects@.len() > 0 ==> match patterns {
            None => r matches Ok(v) && v.deep_view() == projects.deep_view(),
            Some(pats) => {
                if !all_patterns_ok(pats.pattern_views()) {
                    r matches Err(e) && e matches MirrorError::InvalidPattern { pattern }
                        && pats.pattern_views().contains(pattern@) && !regex_ok(pattern@)
                } else {
                    ({
                        let f = spec_limited(
                            spec_filtered(
                                projects.deep_view(),
                                pats.pattern_views(),
                                pats.is_include(),
                            ),
                            limit,
                        );
                        if f.len() == 0 {
                            r matches Err(e) && e is AllFiltered
                        } else {
                            r matches Ok(v) && v.deep_view() == f
                        }
                    })
                }
            },
        },
{
    if projects.len() == 0 {
        return Err(MirrorError::NoProjects);
    }
    match patterns {
        None => Ok(projects),
        Some(pats) => {
            let filtered = match filter_projects(projects, pats, limit) {
                Ok(v) => v,
                Err(e) => {
                    return Err(e);
                },
            };
            if filtered.len() == 0 {
                proof {
                    assert(filtered.deep_view().len() == 0);
                }
                Err(MirrorError::AllFiltered)
            } else {
                proof {
                    assert(filtered.deep_view().len() > 0);
                }
                Ok(filtered)
            }
        },
    }
}

/// Cuts the filtered inventory into fixed-size batches: every batch but
/// the last holds exactly `size` projects, none is empty, and laid end
/// to end they are the inventory in its original order. One batch is
/// one wave of concurrent mirror pipelines; the next begins only when
/// the whole wave has settled.
pub fn plan_batches(projects: Vec<Project>, size: usize) -> (r: Vec<Vec<Project>>)
    requires
        size >= 1,
    ensures
        r.deep_view().flatten() == projects.deep_view(),
        forall|k: int| 0 <= k < r@.len() ==> 0 < (#[trigger] r.deep_view()[k]).len() <= size,
        forall|k: int| 0 <= k < r@.len() - 1 ==> (#[trigger] r.deep_view()[k]).len() == size,
{
    broadcast use vstd::prelude::Seq::lemma_flatten_push;

    let ghost pv = projects.deep_view();
    let mut r: Vec<Vec<Project>> = Vec::new();
    let mut i: usize = 0;
    let n = projects.len();
    proof {
        assert(r.deep_view() =~= Seq::<Seq<ProjectV>>::empty());
        assert(r.deep_view().flatten() =~= pv.take(0));
    }
    while i < n
        invariant
            pv == projects.deep_view(),
            n == projects@.len(),
            i <= n,
            size >= 1,
            r.deep_view().flatten() == pv.take(i as int),
            forall|k: int| 0 <= k < r@.len() ==> 0 < (#[trigger] r.deep_view()[k]).len() <= size,
            forall|k: int|
                0 <= k < r@.len() - 1 ==> (#[trigger] r.deep_view()[k]).len() == size,
            r@.len() > 0 && r.deep_view()[r@.len() - 1].len() < size ==> i >= n,
        decreases n - i,
    {
        let ghost r_before = r.deep_view();
        let mut batch: Vec<Project> = Vec::new();
        let mut j: usize = 0;
        let take: usize = if n - i > size {
            size
        } else {
            n - i
        };
        while j < take
            invariant
                pv == projects.deep_view(),
                n == projects@.len(),
                i + take <= n,
                j <= take,
                batch.deep_view() == pv.subrange(i as int, i + j),
            decreases take - j,
        {
            let ghost b_before = batch.deep_view();
            batch.push(projects[i + j].clone());
            proof {
                assert(batch.deep_view() =~= b_before.push(pv[i + j]));
                assert(batch.deep_view() =~= pv.subrange(i as int, i + j + 1));
            }
            j += 1;
        }
        r.push(batch);
        proof {
            let ghost sub = pv.subrange(i as int, i + take);
            assert(r.deep_view() =~= r_before.push(sub));
            r_before.lemma_flatten_push(sub);
            assert(r.deep_view().flatten() =~= pv.take(i + take));
            assert forall|k: int| 0 <= k < r@.len() implies 0 < (
            #[trigger] r.deep_view()[k]).len() <= size by {
                if k < r@.len() - 1 {
                    assert(r.deep_view()[k] == r_before[k]);
                }
            }
            assert forall|k: int| 0 <= k < r@.len() - 1 implies (
            #[trigger] r.deep_view()[k]).len() == size by {
                if k < r@.len() - 2 {
                    assert(r.deep_view()[k] == r_before[k]);
                } else {
                    assert(r.deep_view()[k] == r_before[r_before.len() - 1]);
                    assert(r_before[r_before.len() - 1].len() == size);
                }
            }
        }
        i += take;
    }
    proof {
        assert(pv.take(i as int) =~= pv);
    }
    r
}

/// What the run does after one batch settles.
pub enum RunDecision {
    /// Go on to the next batch.
    Proceed,
    /// Abort the run: a project failed and errors are not tolerated.
    Abort,
}

/// The error policy at a batch boundary: a failure aborts the run
/// exactly when continue-on-error is off; otherwise it was logged and
/// the run proceeds.
pub fn after_batch(continue_on_error: bool, batch_failed: bool) -> (r: RunDecision)
    ensures
        r is Abort <==> batch_failed && !continue_on_error,
{
    if batch_failed && !continue_on_error {
        RunDecision::Abort
    } else {
        RunDecision::Proceed
    }
}

/// The monotonically increasing count of completed projects out of the
/// filtered total.
pub struct Progress {
    pub done: usize,
    pub total: usize,
}

impl Progress {
    /// No project completed yet.
    pub fn new(total: usize) -> (r: Progress)
        ensures
            r.done == 0,
            r.total == total,
    {
        Progress { done: 0, total }
    }

    /// Accounts one settled batch: the count only ever grows, and never
    /// past the total.
    pub fn add(&mut self, completed: usize)
        requires
            old(self).done + completed <= old(self).total,
        ensures
            final(self).done == old(self).done + completed,
            final(self).total == old(self).total,
            final(self).done >= old(self).done,
    {
        self.done = self.done + completed;
    }
}

} // verus!
