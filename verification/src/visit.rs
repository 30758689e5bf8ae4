//! Visit-directory resolution: from a barcode's metadata to the on-disk
//! visit directory, trying a legacy year-keyed layout before the current
//! proposal-keyed one.

use vstd::prelude::*;
use vstd::string::*;
use crate::paths::{
    join_spec, lemma_index_of_first_is, path_join, prefix_before, take_prefix_before,
};

verus! {

/// Metadata of one barcode, as the metadata store answers it.
#[derive(Debug)]
pub struct VisitInfo {
    /// The visit name, `<proposal><separator><visit-number>`, when known.
    pub visit: Option<String>,
    /// The four-digit year of the container's session, when known.
    pub year: Option<String>,
}

/// Why visit-directory resolution stopped.
#[derive(Debug)]
pub enum ResolveError {
    /// The metadata row has no visit field: the barcode is abandoned before
    /// any path is touched.
    MissingVisit,
    /// Neither candidate directory resolved; both attempted paths are named.
    VisitDirectoryNotFound { tried_legacy: Option<String>, tried_current: String },
}

/// The proposal part of a visit name: everything before the first `-`, or
/// the whole name when there is no separator.
pub fn proposal_of(visit: &str) -> (r: String)
    ensures
        r@ == prefix_before(visit@, '-'),
        (forall|j: int| 0 <= j < visit@.len() ==> visit@[j] != '-') ==> r@ == visit@,
{
    let r = take_prefix_before(visit, '-');
    proof {
        lemma_index_of_first_is(visit@, '-');
    }
    r
}

/// The two candidate visit directories for one barcode.
pub struct VisitCandidates {
    /// `uploadRoot/year/visit`, absent when the metadata has no year.
    pub legacy: Option<String>,
    /// `uploadRoot/proposal/visit`.
    pub current: String,
}

/// The current-layout candidate path.
pub open spec fn current_candidate_spec(upload_dir: Seq<char>, visit: Seq<char>) -> Seq<char> {
    join_spec(join_spec(upload_dir, prefix_before(visit, '-')), visit)
}

/// The legacy-layout candidate path.
pub open spec fn legacy_candidate_spec(
    upload_dir: Seq<char>,
    year: Seq<char>,
    visit: Seq<char>,
) -> Seq<char> {
    join_spec(join_spec(upload_dir, year), visit)
}

/// Compute both candidate paths from the metadata, or refuse a row without
/// a visit field.
pub fn candidate_paths(info: &VisitInfo, upload_dir: &str) -> (r: Result<
    VisitCandidates,
    ResolveError,
>)
    ensures
        match r {
            Ok(c) => {
                &&& info.visit matches Some(v) && c.current@ == current_candidate_spec(
                    upload_dir@,
                    v@,
                )
                &&& match info.year {
                    Some(y) => c.legacy matches Some(l) && l@ == legacy_candidate_spec(
                        upload_dir@,
                        y@,
                        info.visit->0@,
                    ),
                    None => c.legacy is None,
                }
            },
            Err(e) => info.visit is None && e is MissingVisit,
        },
{
    match &info.visit {
        None => Err(ResolveError::MissingVisit),
        Some(v) => {
            let proposal = proposal_of(v.as_str());
            let current = path_join(path_join(upload_dir, proposal.as_str()).as_str(), v.as_str());
            let legacy = match &info.year {
                Some(y) => Some(
                    path_join(path_join(upload_dir, y.as_str()).as_str(), v.as_str()),
                ),
                None => None,
            };
            Ok(VisitCandidates { legacy, current })
        },
    }
}

/// Pick the visit directory from the outcomes of canonicalizing the two
/// candidates (`None` when a candidate did not resolve to an existing
/// directory). The legacy candidate takes precedence; when neither
/// resolved, the error names both attempted paths.
pub fn select_visit_dir(
    cands: VisitCandidates,
    legacy_resolved: Option<String>,
    current_resolved: Option<String>,
) -> (r: Result<String, ResolveError>)
    ensures
        legacy_resolved matches Some(l) ==> (r matches Ok(d) && d == l),
        legacy_resolved is None && current_resolved is Some ==> (r matches Ok(d) && d
            == current_resolved->0),
        (legacy_resolved is None && current_resolved is None) ==> (r matches Err(e)
            && e matches ResolveError::VisitDirectoryNotFound { tried_legacy, tried_current }
            && tried_legacy == cands.legacy && tried_current == cands.current),
{
    match legacy_resolved {
        Some(l) => Ok(l),
        None => match current_resolved {
            Some(cu) => Ok(cu),
            None => Err(
                ResolveError::VisitDirectoryNotFound {
                    tried_legacy: cands.legacy,
                    tried_current: cands.current,
                },
            ),
        },
    }
}

} // verus!
