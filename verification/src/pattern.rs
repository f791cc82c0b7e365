//! Include/exclude filtering of the project inventory by regular
//! expressions over `path_with_namespace`, plus result truncation.

use vstd::prelude::*;
use crate::errors::MirrorError;
use crate::types::{Project, ProjectV};

verus! {

/// Whether a pattern text compiles as a regular expression; what
/// `regex::Regex::new` accepts.
pub uninterp spec fn regex_ok(pattern: Seq<char>) -> bool;

/// Whether a regular expression matches somewhere in a text; what
/// `regex::Regex::is_match` returns for the expression compiled from
/// `pattern`.
pub uninterp spec fn regex_match(pattern: Seq<char>, text: Seq<char>) -> bool;

#[verifier::external_type_specification]
#[verifier::external_body]
pub struct ExRegex(regex::Regex);

/// A regular expression together with the text it was compiled from.
/// Values exist only through [`CompiledPattern::compile`], so the two
/// fields always belong together.
pub(crate) struct CompiledPattern {
    pattern: String,
    re: regex::Regex,
}

impl CompiledPattern {
    /// The pattern text this expression was compiled from.
    pub(crate) closed spec fn source(&self) -> Seq<char> {
        self.pattern@
    }

    /// Relies on regex::Regex::new: compilation succeeds or fails on the
    /// pattern text alone.
    #[verifier::external_body]
    pub(crate) fn compile(pattern: &str) -> (r: Option<CompiledPattern>)
        ensures
            r is Some <==> regex_ok(pattern@),
            r matches Some(c) ==> c.source() == pattern@,
    {
        match regex::Regex::new(pattern) {
            Ok(re) => Some(CompiledPattern { pattern: pattern.to_string(), re }),
            Err(_) => None,
        }
    }

    /// Relies on regex::Regex::is_match: the result depends on the
    /// compiled pattern and the haystack alone.
    #[verifier::external_body]
    pub(crate) fn is_match(&self, text: &str) -> (r: bool)
        ensures
            r == regex_match(self.source(), text@),
    {
        self.re.is_match(text)
    }
}

/// Either a whitelist or a blacklist of pattern texts, mutually exclusive
/// by construction.
pub enum FilterPatterns {
    Include(Vec<String>),
    Exclude(Vec<String>),
}

impl FilterPatterns {
    /// The pattern texts, whichever mode they are in.
    pub open spec fn pattern_views(&self) -> Seq<Seq<char>> {
        match self {
            FilterPatterns::Include(v) => v.deep_view(),
            FilterPatterns::Exclude(v) => v.deep_view(),
        }
    }

    /// Whether matching keeps (include) or drops (exclude) a project.
    pub open spec fn is_include(&self) -> bool {
        self is Include
    }
}

/// Every pattern in the list compiles.
pub open spec fn all_patterns_ok(patterns: Seq<Seq<char>>) -> bool {
    forall|i: int| 0 <= i < patterns.len() ==> regex_ok(#[trigger] patterns[i])
}

/// At least one of the patterns matches the text.
pub open spec fn matches_any(patterns: Seq<Seq<char>>, text: Seq<char>) -> bool {
    exists|i: int| 0 <= i < patterns.len() && regex_match(#[trigger] patterns[i], text)
}

/// A project is kept iff its full path matches some pattern (include mode)
/// or no pattern (exclude mode).
pub open spec fn spec_keep(patterns: Seq<Seq<char>>, keep_on_match: bool, p: ProjectV) -> bool {
    keep_on_match == matches_any(patterns, p.path_with_namespace)
}

/// The projects that the filter keeps, in their original order.
pub open spec fn spec_filtered(
    projects: Seq<ProjectV>,
    patterns: Seq<Seq<char>>,
    keep_on_match: bool,
) -> Seq<ProjectV> {
    projects.filter(|p: ProjectV| spec_keep(patterns, keep_on_match, p))
}

/// The first `limit` items when a limit is set and lies below the length;
/// otherwise the whole sequence.
pub open spec fn spec_limited(s: Seq<ProjectV>, limit: Option<usize>) -> Seq<ProjectV> {
    match limit {
        Some(l) => if s.len() > l { s.take(l as int) } else { s },
        None => s,
    }
}

/// A result limit at or below the filtered count yields exactly the
/// first `l` items in their original order; a limit at or above the
/// count changes nothing.
pub proof fn lemma_limit_prefix(s: Seq<ProjectV>, l: usize)
    ensures
        l <= s.len() ==> spec_limited(s, Some(l)).len() == l && (forall|i: int|
            0 <= i < l ==> spec_limited(s, Some(l))[i] == s[i]),
        l >= s.len() ==> spec_limited(s, Some(l)) == s,
{
    if s.len() > l {
        assert(spec_limited(s, Some(l)) == s.take(l as int));
    }
}

/// Whether any of the compiled patterns matches `text`.
fn any_match(compiled: &Vec<CompiledPattern>, text: &str) -> (r: bool)
    ensures
        r == matches_any(compiled@.map_values(|c: CompiledPattern| c.source()), text@),
{
    let ghost views = compiled@.map_values(|c: CompiledPattern| c.source());
    let mut i: usize = 0;
    while i < compiled.len()
        invariant
            i <= compiled@.len(),
            views == compiled@.map_values(|c: CompiledPattern| c.source()),
            forall|j: int| 0 <= j < i ==> !regex_match(#[trigger] views[j], text@),
        decreases compiled@.len() - i,
    {
        if compiled[i].is_match(text) {
            assert(regex_match(views[i as int], text@));
            return true;
        }
        i += 1;
    }
    false
}

/// Compiles every pattern text, or reports the first that does not
/// compile.
fn compile_all(patterns: &Vec<String>) -> (r: Result<Vec<CompiledPattern>, MirrorError>)
    ensures
        r is Ok <==> all_patterns_ok(patterns.deep_view()),
        r matches Ok(v) ==> v@.map_values(|c: CompiledPattern| c.source()) == patterns.deep_view(),
        r matches Err(e) ==> {
            &&& e matches MirrorError::InvalidPattern { pattern }
            &&& patterns.deep_view().contains(pattern@)
            &&& !regex_ok(pattern@)
        },
{
    let ghost views = patterns.deep_view();
    let mut compiled: Vec<CompiledPattern> = Vec::new();
    let mut i: usize = 0;
    while i < patterns.len()
        invariant
            i <= patterns@.len(),
            views == patterns.deep_view(),
            compiled@.len() == i,
            forall|j: int| 0 <= j < i ==> #[trigger] compiled@[j].source() == views[j],
            forall|j: int| 0 <= j < i ==> regex_ok(#[trigger] views[j]),
        decreases patterns@.len() - i,
    {
        match CompiledPattern::compile(patterns[i].as_str()) {
            Some(c) => {
                compiled.push(c);
            },
            None => {
                assert(!regex_ok(views[i as int]));
                return Err(MirrorError::InvalidPattern { pattern: patterns[i].clone() });
            },
        }
        i += 1;
    }
    proof {
        assert(compiled@.map_values(|c: CompiledPattern| c.source()) =~= views);
    }
    Ok(compiled)
}

/// Keeps the projects whose `path_with_namespace` passes the filter, in
/// their original order, truncated to `limit` items. Fails exactly when
/// some pattern does not compile.
pub fn filter_projects(
    projects: Vec<Project>,
    patterns: &FilterPatterns,
    limit: Option<usize>,
) -> (r: Result<Vec<Project>, MirrorError>)
    ensures
        r is Ok <==> all_patterns_ok(patterns.pattern_views()),
        r matches Ok(v) ==> v.deep_view() == spec_limited(
            spec_filtered(projects.deep_view(), patterns.pattern_views(), patterns.is_include()),
            limit,
        ),
        r matches Err(e) ==> {
            &&& e matches MirrorError::InvalidPattern { pattern }
            &&& patterns.pattern_views().contains(pattern@)
            &&& !regex_ok(pattern@)
        },
{
    let ghost views = patterns.pattern_views();
    let ghost keep_on_match = patterns.is_include();
    let (texts, filter_bit): (&Vec<String>, bool) = match patterns {
        FilterPatterns::Include(v) => (v, true),
        FilterPatterns::Exclude(v) => (v, false),
    };
    let compiled = match compile_all(texts) {
        Ok(c) => c,
        Err(e) => {
            return Err(e);
        },
    };
    let ghost pv = projects.deep_view();
    let ghost pred = |p: ProjectV| spec_keep(views, keep_on_match, p);
    let mut kept: Vec<Project> = Vec::new();
    let mut i: usize = 0;
    let n = projects.len();
    while i < n
        invariant
            pv == projects.deep_view(),
            n == projects@.len(),
            i <= n,
            compiled@.map_values(|c: CompiledPattern| c.source()) == views,
            filter_bit == keep_on_match,
            pred == (|p: ProjectV| spec_keep(views, keep_on_match, p)),
            kept.deep_view() == pv.take(i as int).filter(pred),
        decreases n - i,
    {
        let keep = any_match(&compiled, projects[i].path_with_namespace.as_str());
        proof {
            reveal(Seq::filter);
            assert(pv.take(i + 1).drop_last() =~= pv.take(i as int));
            assert(pv.take(i + 1).last() == pv[i as int]);
            assert(pv[i as int] == projects@[i as int]@);
        }
        if keep == filter_bit {
            let ghost old_kept = kept.deep_view();
            kept.push(projects[i].clone());
            proof {
                assert(pred(pv.take(i + 1).last()));
                assert(kept.deep_view() =~= old_kept.push(pv[i as int]));
            }
        } else {
            proof {
                assert(!pred(pv.take(i + 1).last()));
            }
        }
        i += 1;
    }
    proof {
        assert(pv.take(n as int) =~= pv);
    }
    if let Some(l) = limit {
        if kept.len() > l {
            let ghost old_kept = kept.deep_view();
            kept.truncate(l);
            proof {
                assert(kept.deep_view() =~= old_kept.take(l as int));
            }
        }
    }
    Ok(kept)
}

} // verus!
