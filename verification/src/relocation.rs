//! Per-barcode orchestration of the relocation job: metadata check, visit
//! resolution, target naming and the per-file transfers, with failure
//! isolated at the file grain, aggregated at the barcode grain and
//! reported, never raised, at the run grain.
//!
//! The caller enumerates the filesystem and queries the metadata store; the
//! answers arrive here as one `BarcodeInput` per barcode, and every
//! decision taken on them is verified.

use vstd::prelude::*;
use vstd::string::*;
use vstd::pervasive::unreached;
use crate::config::Config;
use crate::discovery::{container_dict_spec, discover_containers, entries_view, unique_keys, SourceEntry};
use crate::paths::{file_name_spec, join_spec, path_join};
use crate::transfer::{planned_for, transfer_all, transformed_content, PlannedTransfer, FileEntry};
use crate::visit::{candidate_paths, current_candidate_spec, legacy_candidate_spec, select_visit_dir, ResolveError, VisitInfo};

verus! {

/// Why one barcode's job stopped before any file was touched.
#[derive(Debug)]
pub enum JobError {
    /// The metadata store knows nothing of the barcode.
    MetadataNotFound { barcode: String },
    /// The metadata row has no visit field.
    MissingVisit { barcode: String },
    /// Neither visit-directory candidate resolved; both attempted paths
    /// are named.
    VisitDirectoryNotFound { tried_legacy: Option<String>, tried_current: String },
}

/// Everything one barcode's processing depends on: the answers of the
/// metadata store and of the filesystem, gathered by the caller.
pub struct BarcodeInput {
    pub barcode: String,
    /// What the metadata store answered for this barcode.
    pub metadata: Option<VisitInfo>,
    /// What canonicalizing the legacy candidate gave, `None` when it did
    /// not resolve to an existing directory (or was never defined).
    pub legacy_canon: Option<String>,
    /// What canonicalizing the current candidate gave.
    pub current_canon: Option<String>,
    /// The files found under the barcode's holding directory.
    pub files: Vec<FileEntry>,
}

/// One barcode's aggregated result.
pub struct BarcodeJobResult {
    pub barcode: String,
    pub outcome: Result<Vec<PlannedTransfer>, JobError>,
}

/// The name of the staging directory inside a visit directory.
pub open spec fn tmp_seq() -> Seq<char> {
    seq!['t', 'm', 'p']
}

/// The destination of one barcode: `visitDir/tmp/barcode`.
pub open spec fn target_dir_spec(visit_dir: Seq<char>, barcode: Seq<char>) -> Seq<char> {
    join_spec(join_spec(visit_dir, tmp_seq()), barcode)
}

/// The visit directory that the two canonicalisation answers select, when
/// at least one of them resolved: the legacy one wins.
pub open spec fn chosen_visit_dir(legacy: Option<String>, current: Option<String>) -> Seq<char> {
    match legacy {
        Some(l) => l@,
        None => current->0@,
    }
}

/// What processing one barcode returns, as a function of its input alone.
pub open spec fn barcode_result_spec(
    r: Result<Vec<PlannedTransfer>, JobError>,
    input: BarcodeInput,
    upload_dir: Seq<char>,
) -> bool {
    match input.metadata {
        None => (r matches Err(JobError::MetadataNotFound { barcode }) && barcode@
            == input.barcode@),
        Some(info) => match info.visit {
            None => (r matches Err(JobError::MissingVisit { barcode }) && barcode@
                == input.barcode@),
            Some(v) => {
                if input.legacy_canon is None && input.current_canon is None {
                    (r matches Err(JobError::VisitDirectoryNotFound {
                        tried_legacy,
                        tried_current,
                    }) && tried_current@ == current_candidate_spec(upload_dir, v@) && (
                    match info.year {
                        Some(y) => (tried_legacy matches Some(l) && l@
                            == legacy_candidate_spec(upload_dir, y@, v@)),
                        None => tried_legacy is None,
                    }))
                } else {
                    (r matches Ok(plans) && plans.len() == input.files.len() && (forall|i: int|
                        0 <= i < input.files.len() ==> planned_for(
                            #[trigger] plans@[i],
                            input.files@[i].path@,
                            input.files@[i].content@,
                            target_dir_spec(
                                chosen_visit_dir(input.legacy_canon, input.current_canon),
                                input.barcode@,
                            ),
                        )))
                }
            },
        },
    }
}

/// One barcode of the relocation run, end to end: when the metadata store
/// answers with a visit, the legacy candidate directory resolves, and every
/// discovered file bears a name and a transform that succeeds, processing
/// returns one transfer per file, each planned into
/// `legacyDir/tmp/barcode` under its own name with its transformed content
/// — the bytes unchanged for a plain file, the flipped re-encode for the
/// image format. A plan only writes: no source file is named for removal.
pub proof fn lemma_relocation_end_to_end(
    r: Result<Vec<PlannedTransfer>, JobError>,
    input: BarcodeInput,
    upload_dir: Seq<char>,
)
    requires
        barcode_result_spec(r, input, upload_dir),
        input.metadata matches Some(info) && info.visit is Some,
        input.legacy_canon is Some,
        forall|i: int|
            0 <= i < input.files@.len() ==> file_name_spec(
                (#[trigger] input.files@[i]).path@,
            ) is Some,
        forall|i: int|
            0 <= i < input.files@.len() ==> transformed_content(
                (#[trigger] input.files@[i]).path@,
                input.files@[i].content@,
            ) is Some,
    ensures
        r matches Ok(plans) && plans.len() == input.files.len() && (forall|i: int|
            0 <= i < input.files@.len() ==> {
                let p = #[trigger] plans@[i];
                &&& p.outcome.source_path@ == input.files@[i].path@
                &&& p.outcome.destination_path@ == join_spec(
                    target_dir_spec(input.legacy_canon->0@, input.barcode@),
                    file_name_spec(input.files@[i].path@)->0,
                )
                &&& p.outcome.result is Ok
                &&& (p.content matches Some(c) && Some(c@) == transformed_content(
                    input.files@[i].path@,
                    input.files@[i].content@,
                ))
            }),
{
    let plans = r->Ok_0;
    let dest = target_dir_spec(
        chosen_visit_dir(input.legacy_canon, input.current_canon),
        input.barcode@,
    );
    assert forall|i: int| 0 <= i < input.files@.len() implies {
        let p = #[trigger] plans@[i];
        &&& p.outcome.source_path@ == input.files@[i].path@
        &&& p.outcome.destination_path@ == join_spec(
            target_dir_spec(input.legacy_canon->0@, input.barcode@),
            file_name_spec(input.files@[i].path@)->0,
        )
        &&& p.outcome.result is Ok
        &&& (p.content matches Some(c) && Some(c@) == transformed_content(
            input.files@[i].path@,
            input.files@[i].content@,
        ))
    } by {
        assert(planned_for(
            plans@[i],
            input.files@[i].path@,
            input.files@[i].content@,
            dest,
        ));
        assert(chosen_visit_dir(input.legacy_canon, input.current_canon)
            == input.legacy_canon->0@);
    }
}

/// The relocation job: its configuration and the dated holding directories
/// this run looks at.
pub struct ZWorker {
    pub config: Config,
    pub date_dirs: Vec<String>,
}

impl ZWorker {
    /// A relocation job over the given holding directories.
    pub fn new(config: Config, date_dirs: Vec<String>) -> (r: ZWorker)
        ensures
            r.config == config,
            r.date_dirs == date_dirs,
    {
        ZWorker { config, date_dirs }
    }

    /// The mapping barcode -> date directory built from the discovered
    /// barcode-directory paths, last seen wins.
    pub fn get_container_dict(&self, barcode_dirs: &Vec<String>) -> (r: Vec<SourceEntry>)
        ensures
            entries_view(r@) == container_dict_spec(barcode_dirs.deep_view()),
            unique_keys(entries_view(r@)),
    {
        discover_containers(barcode_dirs)
    }

    /// Process one barcode: refuse it without metadata or visit, resolve
    /// the visit directory, name the target `visitDir/tmp/barcode`, and
    /// transfer every file into it, one outcome per file.
    pub fn get_target_and_move(&self, input: &BarcodeInput) -> (r: Result<
        Vec<PlannedTransfer>,
        JobError,
    >)
        ensures
            barcode_result_spec(r, *input, self.config.upload_dir@),
    {
        let metadata = match &input.metadata {
            None => {
                return Err(JobError::MetadataNotFound { barcode: input.barcode.clone() });
            },
            Some(m) => m,
        };
        let cands = match candidate_paths(metadata, self.config.upload_dir.as_str()) {
            Err(_) => {
                return Err(JobError::MissingVisit { barcode: input.barcode.clone() });
            },
            Ok(c) => c,
        };
        let legacy_canon = match &input.legacy_canon {
            Some(l) => Some(l.clone()),
            None => None,
        };
        let current_canon = match &input.current_canon {
            Some(c) => Some(c.clone()),
            None => None,
        };
        match select_visit_dir(cands, legacy_canon, current_canon) {
            Err(e) => match e {
                ResolveError::MissingVisit => unreached(),
                ResolveError::VisitDirectoryNotFound { tried_legacy, tried_current } => Err(
                    JobError::VisitDirectoryNotFound { tried_legacy, tried_current },
                ),
            },
            Ok(visit_dir) => {
                let target = path_join(
                    path_join(visit_dir.as_str(), "tmp").as_str(),
                    input.barcode.as_str(),
                );
                proof {
                    reveal_strlit("tmp");
                    assert("tmp"@ =~= tmp_seq());
                }
                let plans = transfer_all(&input.files, target.as_str());
                Ok(plans)
            },
        }
    }

    /// Process every discovered barcode. Results line up with the inputs
    /// one for one, and each barcode's result is a function of its own
    /// input alone: a failing barcode reaches no sibling, and the run
    /// itself never fails.
    pub fn process_job(&self, inputs: &Vec<BarcodeInput>) -> (r: Vec<BarcodeJobResult>)
        ensures
            r.len() == inputs.len(),
            forall|i: int|
                0 <= i < inputs.len() ==> (#[trigger] r@[i]).barcode@ == inputs@[i].barcode@
                    && barcode_result_spec(r@[i].outcome, inputs@[i], self.config.upload_dir@),
    {
        let mut r: Vec<BarcodeJobResult> = Vec::new();
        let mut i: usize = 0;
        while i < inputs.len()
            invariant
                i <= inputs.len(),
                r.len() == i,
                forall|j: int|
                    0 <= j < i ==> (#[trigger] r@[j]).barcode@ == inputs@[j].barcode@
                        && barcode_result_spec(r@[j].outcome, inputs@[j], self.config.upload_dir@),
            decreases inputs.len() - i,
        {
            let outcome = self.get_target_and_move(&inputs[i]);
            r.push(BarcodeJobResult { barcode: inputs[i].barcode.clone(), outcome });
            i = i + 1;
        }
        r
    }
}

} // verus!
