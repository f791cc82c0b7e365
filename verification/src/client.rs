//! The computational half of the directory client: endpoint and query
//! construction, continuation-link parsing, pagination decisions,
//! 404-to-absence translation, and the sync-timestamped description.
//!
//! The caller issues the HTTP requests themselves and feeds the plain
//! response values (status, headers, decoded bodies) back into these
//! functions.

use vstd::prelude::*;
use crate::errors::MirrorError;
use crate::strutil::{spec_dec, spec_split, split_by, u64_dec};
use crate::types::{Project, ProjectV};

verus! {

/// How a response status is treated: 2xx is success, 404 is the absence
/// sentinel for existence checks, anything else is a hard error.
pub enum StatusClass {
    Success,
    NotFound,
    Failure,
}

/// Classifies an HTTP status code.
pub fn classify_status(status: u16) -> (r: StatusClass)
    ensures
        r is Success <==> 200 <= status < 300,
        r is NotFound <==> status == 404,
        r is Failure <==> !(200 <= status < 300) && status != 404,
{
    if 200 <= status && status < 300 {
        StatusClass::Success
    } else if status == 404 {
        StatusClass::NotFound
    } else {
        StatusClass::Failure
    }
}

/// Turns a 404 failure into first-class absence: a found entity becomes
/// `Some`, a 404 becomes `None`, and every other error propagates.
pub fn to_absence<T>(r: Result<T, MirrorError>) -> (res: Result<Option<T>, MirrorError>)
    ensures
        match r {
            Ok(v) => res matches Ok(Some(w)) && w == v,
            Err(e) => {
                if e matches MirrorError::Api { status } && status == 404 {
                    res matches Ok(w) && w is None
                } else {
                    res matches Err(f) && f == e
                }
            },
        },
{
    match r {
        Ok(v) => Ok(Some(v)),
        Err(e) => {
            let is_not_found = match &e {
                MirrorError::Api { status } => *status == 404u16,
                _ => false,
            };
            if is_not_found {
                Ok(None)
            } else {
                Err(e)
            }
        },
    }
}

/// The URL inside one `<...>`-delimited piece of a continuation (`Link`)
/// header: the piece at `position` among the `;`-separated pieces, shorn
/// of its first and last character, provided it is long enough to be a
/// URL at all.
pub open spec fn spec_link_target(link: Seq<char>, position: int) -> Option<Seq<char>> {
    let parts = spec_split(link, ';');
    if 0 <= position < parts.len() && parts[position].len() >= 13 {
        Some(parts[position].subrange(1, parts[position].len() - 1))
    } else {
        None
    }
}

/// Extracts the continuation URL from a `Link` header value, or `None`
/// when the header does not have the expected shape.
pub fn parse_link_header(link: &str, position: usize) -> (r: Option<String>)
    ensures
        r.deep_view() == spec_link_target(link@, position as int),
{
    let parts = split_by(link, ';');
    if position >= parts.len() {
        return None;
    }
    let part = &parts[position];
    let n = part.as_str().unicode_len();
    proof {
        assert(part@ == spec_split(link@, ';')[position as int]);
    }
    if n < 13 {
        return None;
    }
    let target = part.as_str().substring_char(1, n - 1);
    Some(target.to_owned())
}

/// The query-parameter part of a continuation URL: everything after the
/// last `?`, or the whole text when it has none.
pub open spec fn spec_next_query(url: Seq<char>) -> Seq<char> {
    spec_split(url, '?').last()
}

pub fn next_query(url: &str) -> (r: String)
    ensures
        r@ == spec_next_query(url@),
{
    let pieces = split_by(url, '?');
    proof {
        crate::strutil::lemma_split_nonempty(url@, '?');
    }
    let last = &pieces[pieces.len() - 1];
    last.clone()
}

/// The query of the first listing request, as the scoping flags determine
/// it.
pub open spec fn spec_initial_query(
    per_page: u32,
    only_owned: bool,
    only_membership: bool,
    grouped: bool,
    exclude_archived: bool,
) -> Seq<char> {
    let q = "order_by=id&sort=asc&per_page="@ + spec_dec(per_page as nat);
    let q = if only_owned {
        q + "&owned=true"@
    } else {
        q
    };
    let q = if only_membership {
        q + "&only_membership=true"@
    } else {
        q
    };
    let q = if grouped {
        q + "&include_subgroups=true"@
    } else {
        q
    };
    if exclude_archived {
        q + "&archived=false"@
    } else {
        q
    }
}

/// Builds the query of the first listing request.
pub fn initial_query(
    per_page: u32,
    only_owned: bool,
    only_membership: bool,
    grouped: bool,
    exclude_archived: bool,
) -> (r: String)
    ensures
        r@ == spec_initial_query(per_page, only_owned, only_membership, grouped, exclude_archived),
{
    let mut q = "order_by=id&sort=asc&per_page=".to_owned();
    let digits = u64_dec(per_page as u64);
    q.append(digits.as_str());
    if only_owned {
        q.append("&owned=true");
    }
    if only_membership {
        q.append("&only_membership=true");
    }
    if grouped {
        q.append("&include_subgroups=true");
    }
    if exclude_archived {
        q.append("&archived=false");
    }
    q
}

/// What the pagination loop does after one page: reissue the request with
/// the continuation query, or stop.
pub enum PageDecision {
    Continue(String),
    Done,
}

/// Whether the response headers announce a further page: a non-empty
/// next-page indicator together with a continuation link.
pub open spec fn spec_has_next(
    x_next_page: Option<Seq<char>>,
    link: Option<Seq<char>>,
) -> bool {
    &&& x_next_page matches Some(x) && x.len() > 0
    &&& link is Some
}

/// Accumulates one page of the listing and decides whether to continue.
/// The received projects are appended in order whatever the decision;
/// continuation carries the query parameters extracted verbatim from the
/// structured continuation link, and a malformed link is the one error.
pub fn page_step(
    acc: &mut Vec<Project>,
    page: Vec<Project>,
    x_next_page: &Option<String>,
    link: &Option<String>,
    first_page: bool,
) -> (r: Result<PageDecision, MirrorError>)
    ensures
        final(acc).deep_view() == old(acc).deep_view() + page.deep_view(),
        ({
            let xv = x_next_page.deep_view();
            let lv = link.deep_view();
            let position: int = if first_page { 0 } else { 1 };
            if !spec_has_next(xv, lv) {
                r matches Ok(d) && d is Done
            } else {
                match spec_link_target(lv.unwrap(), position) {
                    Some(t) => r matches Ok(d) && d matches PageDecision::Continue(q)
                        && q@ == spec_next_query(t),
                    None => r matches Err(e) && e is InvalidLinkHeader,
                }
            }
        }),
{
    let ghost old_acc = acc.deep_view();
    let mut page = page;
    let ghost page_v = page.deep_view();
    acc.append(&mut page);
    proof {
        assert(acc.deep_view() =~= old_acc + page_v);
    }
    let has_next = match x_next_page {
        None => false,
        Some(x) => x.as_str().unicode_len() > 0,
    };
    if !has_next {
        return Ok(PageDecision::Done);
    }
    let link_value = match link {
        None => {
            return Ok(PageDecision::Done);
        },
        Some(l) => l,
    };
    let position: usize = if first_page {
        0
    } else {
        1
    };
    match parse_link_header(link_value.as_str(), position) {
        Some(target) => {
            let q = next_query(target.as_str());
            Ok(PageDecision::Continue(q))
        },
        None => Err(MirrorError::InvalidLinkHeader),
    }
}

/// The projects of the listing that can be cloned: those whose repository
/// is not empty.
pub open spec fn spec_cloneable(projects: Seq<ProjectV>) -> Seq<ProjectV> {
    projects.filter(|p: ProjectV| !p.empty_repo)
}

/// Drops the projects whose `empty_repo` flag is set, keeping the order
/// of the rest.
pub fn drop_empty_repos(projects: Vec<Project>) -> (r: Vec<Project>)
    ensures
        r.deep_view() == spec_cloneable(projects.deep_view()),
{
    let ghost pv = projects.deep_view();
    let ghost pred = |p: ProjectV| !p.empty_repo;
    let mut kept: Vec<Project> = Vec::new();
    let mut i: usize = 0;
    let n = projects.len();
    while i < n
        invariant
            pv == projects.deep_view(),
            n == projects@.len(),
            i <= n,
            pred == (|p: ProjectV| !p.empty_repo),
            kept.deep_view() == pv.take(i as int).filter(pred),
        decreases n - i,
    {
        proof {
            reveal(Seq::filter);
            assert(pv.take(i + 1).drop_last() =~= pv.take(i as int));
            assert(pv.take(i + 1).last() == pv[i as int]);
            assert(pv[i as int] == projects@[i as int]@);
        }
        if !projects[i].empty_repo {
            let ghost old_kept = kept.deep_view();
            kept.push(projects[i].clone());
            proof {
                assert(kept.deep_view() =~= old_kept.push(pv[i as int]));
            }
        }
        i += 1;
    }
    proof {
        assert(pv.take(n as int) =~= pv);
    }
    kept
}

/// The projects with an empty repository in `s`.
pub open spec fn count_empty(s: Seq<ProjectV>) -> nat {
    s.filter(|p: ProjectV| p.empty_repo).len()
}

/// Kept and dropped projects together account for the whole listing.
proof fn lemma_cloneable_plus_empty(s: Seq<ProjectV>)
    ensures
        spec_cloneable(s).len() + count_empty(s) == s.len(),
    decreases s.len(),
{
    reveal(Seq::filter);
    if s.len() > 0 {
        lemma_cloneable_plus_empty(s.drop_last());
    }
}

/// However the inventory is split into pages, the fully accumulated
/// listing keeps exactly the total count of projects minus those whose
/// repository is empty.
pub proof fn lemma_listing_count(pages: Seq<Seq<ProjectV>>)
    ensures
        spec_cloneable(pages.flatten()).len() == pages.flatten().len() - count_empty(
            pages.flatten(),
        ),
{
    lemma_cloneable_plus_empty(pages.flatten());
}

/// The base text of a mirrored project's description: the source
/// project's description, or nothing.
pub open spec fn spec_description_base(description: Option<Seq<char>>) -> Seq<char> {
    match description {
        Some(d) => d,
        None => Seq::<char>::empty(),
    }
}

/// The description written to the backup project: the source description,
/// with the sync timestamp appended unless that is disabled.
pub open spec fn spec_description(
    disable_sync_date: bool,
    description: Option<Seq<char>>,
    stamp: Seq<char>,
) -> Seq<char> {
    if disable_sync_date {
        spec_description_base(description)
    } else {
        spec_description_base(description) + " \u{1f99e} Synced: "@ + stamp
    }
}

/// Builds the mirrored description from the source description and the
/// given timestamp text.
pub fn description_with(
    disable_sync_date: bool,
    description: &Option<String>,
    stamp: &str,
) -> (r: String)
    ensures
        r@ == spec_description(disable_sync_date, description.deep_view(), stamp@),
{
    let base = match description {
        Some(d) => d.clone(),
        None => String::new(),
    };
    if disable_sync_date {
        base
    } else {
        let r = base.concat(" \u{1f99e} Synced: ").concat(stamp);
        proof {
            assert(r@ =~= spec_description(disable_sync_date, description.deep_view(), stamp@));
        }
        r
    }
}

/// Relies on chrono's `Utc::now` for the current instant, rendered with
/// `DateTime::to_rfc3339`; the rendering is a non-empty date-time text,
/// and nothing more is assumed of the value.
#[verifier::external_body]
fn now_rfc3339() -> (r: String)
    ensures
        r@.len() > 0,
{
    chrono::Utc::now().to_rfc3339()
}

/// Builds the mirrored description, stamping it with the wall clock
/// unless that is disabled.
pub fn make_project_description(
    disable_sync_date: bool,
    description: &Option<String>,
) -> (r: String)
    ensures
        exists|stamp: Seq<char>|
            stamp.len() > 0 && r@ == spec_description(
                disable_sync_date,
                description.deep_view(),
                stamp,
            ),
{
    let stamp = now_rfc3339();
    let r = description_with(disable_sync_date, description, stamp.as_str());
    proof {
        assert(r@ == spec_description(disable_sync_date, description.deep_view(), stamp@));
    }
    r
}

/// The user:token pair embedded in an HTTP(S) remote URL.
pub fn format_http_auth(username: &str, token: &str) -> (r: String)
    ensures
        r@ == username@ + ":"@ + token@,
{
    let r = username.to_owned().concat(":").concat(token);
    proof {
        assert(r@ =~= username@ + ":"@ + token@);
    }
    r
}

/// What `urlencoding::encode` returns: the percent-encoded form of a
/// path component, a function of the text alone.
pub uninterp spec fn percent_encoded(s: Seq<char>) -> Seq<char>;

/// Relies on urlencoding::encode: percent-encodes every byte except
/// ASCII alphanumerics and `-_.~`, from the input text alone.
#[verifier::external_body]
fn encode_component(s: &str) -> (r: String)
    ensures
        r@ == percent_encoded(s@),
{
    urlencoding::encode(s).into_owned()
}

/// The endpoint that addresses one project by its full path.
pub fn project_endpoint(path: &str) -> (r: String)
    ensures
        r@ == "projects/"@ + percent_encoded(path@),
{
    let enc = encode_component(path);
    let r = "projects/".to_owned().concat(enc.as_str());
    proof {
        assert(r@ =~= "projects/"@ + percent_encoded(path@));
    }
    r
}

/// The endpoint that addresses one group by its full path.
pub fn group_endpoint(path: &str) -> (r: String)
    ensures
        r@ == "groups/"@ + percent_encoded(path@),
{
    let enc = encode_component(path);
    let r = "groups/".to_owned().concat(enc.as_str());
    proof {
        assert(r@ =~= "groups/"@ + percent_encoded(path@));
    }
    r
}

/// The endpoint that updates one project by its identity.
pub fn project_update_endpoint(id: u32) -> (r: String)
    ensures
        r@ == "projects/"@ + spec_dec(id as nat),
{
    let digits = u64_dec(id as u64);
    let r = "projects/".to_owned().concat(digits.as_str());
    proof {
        assert(r@ =~= "projects/"@ + spec_dec(id as nat));
    }
    r
}

/// The endpoint of the project listing: all visible projects, or the
/// projects of one group.
pub fn projects_list_endpoint(group: &Option<String>) -> (r: String)
    ensures
        match group.deep_view() {
            Some(g) => r@ == "groups/"@ + g + "/projects"@,
            None => r@ == "projects"@,
        },
{
    match group {
        None => "projects".to_owned(),
        Some(g) => {
            let r = "groups/".to_owned().concat(g.as_str()).concat("/projects");
            proof {
                assert(r@ =~= "groups/"@ + g@ + "/projects"@);
            }
            r
        },
    }
}

/// The page size the listing requests: the configured hint, or 100.
pub fn page_limit(objects_per_page: Option<u32>) -> (r: u32)
    ensures
        match objects_per_page {
            Some(opp) => r == opp,
            None => r == 100,
        },
{
    match objects_per_page {
        Some(opp) => opp,
        None => 100,
    }
}

/// What the backup service is asked to do for one mirrored project:
/// its record is created or updated, never deleted.
#[derive(Debug)]
pub enum PublishStep {
    /// A record exists on the backup side: overwrite its description.
    UpdateExisting(Project),
    /// No record yet: create one under the resolved parent namespace.
    CreateNew { slug: String, parent_id: u32 },
}

/// Decides the backup-side write from the existence check and the
/// resolved parent namespace: an existing record is updated, a missing
/// one is created under the parent, and a missing parent is that one
/// project's namespace-resolution failure.
pub fn plan_publish(
    existing: Option<Project>,
    slug: &str,
    parent_id: Option<u32>,
    full_path: &str,
) -> (r: Result<PublishStep, MirrorError>)
    ensures
        match existing {
            Some(p) => r matches Ok(s) && (s matches PublishStep::UpdateExisting(q) && q@ == p@),
            None => match parent_id {
                Some(id) => r matches Ok(s) && (s matches PublishStep::CreateNew {
                    slug: sl,
                    parent_id: pid,
                } && sl@ == slug@ && pid == id),
                None => r matches Err(e) && (e matches MirrorError::NamespaceResolution { path }
                    && path@ == full_path@),
            },
        },
{
    match existing {
        Some(p) => Ok(PublishStep::UpdateExisting(p)),
        None => match parent_id {
            Some(id) => Ok(PublishStep::CreateNew { slug: slug.to_owned(), parent_id: id }),
            None => Err(MirrorError::NamespaceResolution { path: full_path.to_owned() }),
        },
    }
}

} // verus!
