//! The run configuration: remote endpoints, filter patterns, transport
//! and policy flags, validated once before any network call.

use vstd::prelude::*;
use crate::errors::MirrorError;
use crate::pattern::FilterPatterns;

verus! {

/// Whether `url::Url::parse` accepts a text as an absolute URL; a
/// function of the text alone.
pub uninterp spec fn url_ok(s: Seq<char>) -> bool;

/// Relies on url::Url::parse: a text parses as an absolute URL or not,
/// on the text alone.
#[verifier::external_body]
fn url_parses(s: &str) -> (r: bool)
    ensures
        r == url_ok(s@),
{
    url::Url::parse(s).is_ok()
}

/// Which protocol cloned URLs are forced to, per direction.
#[derive(Clone, Copy, Debug)]
pub enum ForceProtocol {
    No,
    Http,
    Https,
}

/// The source service to fetch repositories from.
#[derive(Debug)]
pub struct FetchGitlabOptions {
    pub url: String,
    pub token: String,
}

impl FetchGitlabOptions {
    /// Validates the base URL and keeps it with the token. Fails exactly
    /// when the URL does not parse.
    pub fn new(url: &str, token: &str) -> (r: Result<FetchGitlabOptions, MirrorError>)
        ensures
            r is Ok <==> url_ok(url@),
            r matches Ok(o) ==> o.url@ == url@ && o.token@ == token@,
            r matches Err(e) ==> e matches MirrorError::InvalidUrl { url: u } && u@ == url@,
    {
        if url_parses(url) {
            Ok(FetchGitlabOptions { url: url.to_owned(), token: token.to_owned() })
        } else {
            Err(MirrorError::InvalidUrl { url: url.to_owned() })
        }
    }
}

/// The backup service to re-publish repositories to, with an optional
/// root group.
#[derive(Debug)]
pub struct BackupGitlabOptions {
    pub url: String,
    pub token: String,
    pub group: Option<String>,
}

impl BackupGitlabOptions {
    /// Validates the base URL and keeps it with the token and root
    /// group. Fails exactly when the URL does not parse.
    pub fn new(url: &str, token: &str, group: Option<String>) -> (r: Result<
        BackupGitlabOptions,
        MirrorError,
    >)
        ensures
            r is Ok <==> url_ok(url@),
            r matches Ok(o) ==> o.url@ == url@ && o.token@ == token@ && o.group.deep_view()
                == group.deep_view(),
            r matches Err(e) ==> e matches MirrorError::InvalidUrl { url: u } && u@ == url@,
    {
        if url_parses(url) {
            Ok(BackupGitlabOptions { url: url.to_owned(), token: token.to_owned(), group })
        } else {
            Err(MirrorError::InvalidUrl { url: url.to_owned() })
        }
    }
}

/// Resolves one direction's protocol-forcing flags. Setting both is a
/// configuration error; one flag forces its protocol; none forces
/// nothing.
pub fn choose_force_protocol(force_http: bool, force_https: bool) -> (r: Result<
    ForceProtocol,
    MirrorError,
>)
    ensures
        r is Ok <==> !(force_http && force_https),
        r matches Ok(p) ==> match p {
            ForceProtocol::Http => force_http,
            ForceProtocol::Https => force_https && !force_http,
            ForceProtocol::No => !force_http && !force_https,
        },
        r matches Err(e) ==> e is ConflictingProtocols,
{
    if force_http && force_https {
        Err(MirrorError::ConflictingProtocols)
    } else if force_http {
        Ok(ForceProtocol::Http)
    } else if force_https {
        Ok(ForceProtocol::Https)
    } else {
        Ok(ForceProtocol::No)
    }
}

/// Builds the filter from the configured pattern lists. Supplying both
/// include and exclude patterns is rejected here, before any filtering
/// begins; one list yields its filter; none yields no filter.
pub fn build_filter_patterns(
    included: Option<Vec<String>>,
    excluded: Option<Vec<String>>,
) -> (r: Result<Option<FilterPatterns>, MirrorError>)
    ensures
        r is Ok <==> !(included is Some && excluded is Some),
        r matches Err(e) ==> e is ConflictingFilter,
        match (included, excluded) {
            (Some(_), Some(_)) => r is Err,
            (Some(inc), None) => r matches Ok(f) && f matches Some(p) && (p
                matches FilterPatterns::Include(v) && v.deep_view() == inc.deep_view()),
            (None, Some(exc)) => r matches Ok(f) && f matches Some(p) && (p
                matches FilterPatterns::Exclude(v) && v.deep_view() == exc.deep_view()),
            (None, None) => r matches Ok(f) && f is None,
        },
{
    match (included, excluded) {
        (Some(_), Some(_)) => Err(MirrorError::ConflictingFilter),
        (Some(inc), None) => Ok(Some(FilterPatterns::Include(inc))),
        (None, Some(exc)) => Ok(Some(FilterPatterns::Exclude(exc))),
        (None, None) => Ok(None),
    }
}

/// Validates the backup half of the configuration: URL, token and root
/// group must come together — a URL or token alone, or a root group
/// without both, is incomplete.
pub fn validate_backup(
    backup_url: Option<String>,
    backup_token: Option<String>,
    backup_group: Option<String>,
) -> (r: Result<Option<BackupGitlabOptions>, MirrorError>)
    ensures
        match (backup_url, backup_token) {
            (Some(u), Some(t)) => {
                &&& r is Ok <==> url_ok(u@)
                &&& r matches Ok(o) ==> o matches Some(b) && b.url@ == u@ && b.token@ == t@
                    && b.group.deep_view() == backup_group.deep_view()
                &&& r matches Err(e) ==> e matches MirrorError::InvalidUrl { url: uu } && uu@
                    == u@
            },
            (None, None) => {
                if backup_group is Some {
                    r matches Err(e) && e is IncompleteBackupOptions
                } else {
                    r matches Ok(o) && o is None
                }
            },
            _ => r matches Err(e) && e is IncompleteBackupOptions,
        },
{
    match (backup_url, backup_token) {
        (Some(u), Some(t)) => {
            match BackupGitlabOptions::new(u.as_str(), t.as_str(), backup_group) {
                Ok(b) => Ok(Some(b)),
                Err(e) => Err(e),
            }
        },
        (None, None) => {
            if backup_group.is_some() {
                Err(MirrorError::IncompleteBackupOptions)
            } else {
                Ok(None)
            }
        },
        _ => Err(MirrorError::IncompleteBackupOptions),
    }
}

/// Everything one mirroring run is configured with, assembled once and
/// read-only thereafter.
pub struct CloneParams {
    pub fetch: FetchGitlabOptions,
    pub dst: Option<String>,
    pub backup: Option<BackupGitlabOptions>,
    pub group: Option<String>,
    pub patterns: Option<FilterPatterns>,
    pub dry_run: bool,
    pub objects_per_page: Option<u32>,
    pub limit: Option<usize>,
    pub concurrency_limit: usize,
    pub only_owned: bool,
    pub only_membership: bool,
    pub download_ssh: bool,
    pub upload_ssh: bool,
    pub disable_hierarchy: bool,
    pub clear_dst: bool,
    pub only_master: bool,
    pub disable_sync_date: bool,
    pub gitlab_timeout: Option<u32>,
    pub download_force_protocol: ForceProtocol,
    pub upload_force_protocol: ForceProtocol,
    pub continue_on_error: bool,
    pub exclude_archived: bool,
}

} // verus!
