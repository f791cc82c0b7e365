//! The error taxonomy of the engine.
//!
//! Absence ("not found") is never an error here: existence checks return an
//! `Option` instead. These variants cover genuinely failing outcomes, from
//! bad configuration to a failing subprocess.

use vstd::prelude::*;
use crate::strutil::{spec_dec, u64_dec};

verus! {

#[derive(Debug, Clone, PartialEq, Eq)]
pub enum MirrorError {
    /// Include and exclude patterns were both supplied.
    ConflictingFilter,
    /// A pattern does not compile as a regular expression.
    InvalidPattern { pattern: String },
    /// A base URL could not be parsed.
    InvalidUrl { url: String },
    /// Both protocol-forcing flags were set for one direction.
    ConflictingProtocols,
    /// A backup URL, token or root group was given without the others it
    /// needs.
    IncompleteBackupOptions,
    /// An unexpected, non-404 HTTP status.
    Api { status: u16 },
    /// The continuation link of a paginated listing could not be read.
    InvalidLinkHeader,
    /// A required group could not be materialized on the backup service.
    NamespaceResolution { path: String },
    /// A Git subprocess exited non-zero; carries its captured stderr.
    GitOperation { stderr: String },
    /// The raw project inventory was empty.
    NoProjects,
    /// Filtering removed every project from the inventory.
    AllFiltered,
}

impl MirrorError {
    /// A human-readable cause, suitable for the process's final report.
    pub fn message(&self) -> (r: String)
        ensures
            r@.len() > 0,
            match self {
                MirrorError::ConflictingFilter => r@
                    == "You cannot use the --include and --exclude flag together"@,
                MirrorError::InvalidPattern { pattern } => r@
                    == "invalid filter pattern: "@ + pattern@,
                MirrorError::InvalidUrl { url } => r@ == "invalid URL: "@ + url@,
                MirrorError::ConflictingProtocols => r@
                    == "you cannot force two protocols for one direction"@,
                MirrorError::IncompleteBackupOptions => r@
                    == "a backup URL, token and group must be given together"@,
                MirrorError::Api { status } => r@ == "unexpected HTTP status "@ + spec_dec(
                    *status as nat,
                ),
                MirrorError::InvalidLinkHeader => r@
                    == "invalid Link header in paginated response"@,
                MirrorError::NamespaceResolution { path } => r@
                    == "cannot resolve namespace: "@ + path@,
                MirrorError::GitOperation { stderr } => r@ == "git error: "@ + stderr@,
                MirrorError::NoProjects => r@ == "Projects not found in GitLab"@,
                MirrorError::AllFiltered => r@ == "All projects filtered out"@,
            },
    {
        proof {
            reveal_strlit("invalid filter pattern: ");
            reveal_strlit("You cannot use the --include and --exclude flag together");
            reveal_strlit("invalid URL: ");
            reveal_strlit("you cannot force two protocols for one direction");
            reveal_strlit("a backup URL, token and group must be given together");
            reveal_strlit("unexpected HTTP status ");
            reveal_strlit("invalid Link header in paginated response");
            reveal_strlit("cannot resolve namespace: ");
            reveal_strlit("git error: ");
            reveal_strlit("Projects not found in GitLab");
            reveal_strlit("All projects filtered out");
        }
        match self {
            MirrorError::ConflictingFilter => {
                "You cannot use the --include and --exclude flag together".to_owned()
            },
            MirrorError::InvalidPattern { pattern } => {
                "invalid filter pattern: ".to_owned().concat(pattern.as_str())
            },
            MirrorError::InvalidUrl { url } => "invalid URL: ".to_owned().concat(url.as_str()),
            MirrorError::ConflictingProtocols => {
                "you cannot force two protocols for one direction".to_owned()
            },
            MirrorError::IncompleteBackupOptions => {
                "a backup URL, token and group must be given together".to_owned()
            },
            MirrorError::Api { status } => {
                let digits = u64_dec(*status as u64);
                "unexpected HTTP status ".to_owned().concat(digits.as_str())
            },
            MirrorError::InvalidLinkHeader => {
                "invalid Link header in paginated response".to_owned()
            },
            MirrorError::NamespaceResolution { path } => {
                "cannot resolve namespace: ".to_owned().concat(path.as_str())
            },
            MirrorError::GitOperation { stderr } => {
                "git error: ".to_owned().concat(stderr.as_str())
            },
            MirrorError::NoProjects => "Projects not found in GitLab".to_owned(),
            MirrorError::AllFiltered => "All projects filtered out".to_owned(),
        }
    }
}

} // verus!
