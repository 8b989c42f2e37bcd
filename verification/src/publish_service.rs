use vstd::prelude::*;
use crate::publication_history::{
    completed_history_record_path, history_dir, history_filename, is_planned_record,
    list_completed_history_records, read_completed_history_record, record_items,
    completed_entry_of, path_under, path_under_exec, shown_file_name, has_toml_extension,
    CompletedHistoryDetail, CompletedHistoryEntry, CompletedHistoryOptions, HistoryDirItem,
    HistoryError, HistoryFileFacts, PublicationFile, PublicationHistoryRecord, RollbackInfo,
    HISTORY_SCHEMA,
};
use crate::order::{is_sorted, keeps_tie_order};
use crate::publish_plan::{
    dry_run_outcome, dry_run_publish_with_context, DryRunInputs, PublishDryRun, PublishPlanError,
};
use crate::cli_support::joined_with;
use crate::error_text::{concat4, plan_error_text};
use crate::publication_history::{file_view, file_views, FileView};
use crate::text::{clone_opt, concat, concat3, joined_path, string_of, text_eq};

verus! {

/// Plans publications, records them in the project's history, and reads that history.
#[derive(Debug, Default)]
pub struct PublishService;

/// A dry run to preview: the project, the target, and where host and
/// identity records live.
#[derive(Debug, Clone)]
pub struct PreviewPublicationRequest {
    pub project_path: String,
    pub target: String,
    pub hosts_root: Option<String>,
    pub identities_root: Option<String>,
    pub remote_state_path: Option<String>,
}

/// A previewed publication plan.
#[derive(Debug, Clone)]
pub struct PreviewPublicationResponse {
    pub plan: PublishDryRun,
}

/// A planned record to build from a dry run.
#[derive(Debug, Clone)]
pub struct BuildPlannedHistoryRequest {
    pub plan: PublishDryRun,
    pub date: String,
}

/// A planned history record.
#[derive(Debug, Clone)]
pub struct BuildPlannedHistoryResponse {
    pub record: PublicationHistoryRecord,
}

/// A completed record to build from a dry run and the reported results.
#[derive(Debug, Clone)]
pub struct BuildCompletedHistoryRequest {
    pub plan: PublishDryRun,
    pub date: String,
    pub transfer_result: String,
    pub verification_result: String,
    pub rollback_available: bool,
    pub rollback_notes: String,
}

/// A completed history record.
#[derive(Debug, Clone)]
pub struct BuildCompletedHistoryResponse {
    pub record: PublicationHistoryRecord,
}

/// A completed record to build and save under a project.
#[derive(Debug, Clone)]
pub struct SaveCompletedHistoryRequest {
    pub project_path: String,
    pub plan: PublishDryRun,
    pub date: String,
    pub transfer_result: String,
    pub verification_result: String,
    pub rollback_available: bool,
    pub rollback_notes: String,
}

/// A completed history record and the path it is saved at.
#[derive(Debug, Clone)]
pub struct SaveCompletedHistoryResponse {
    pub record: PublicationHistoryRecord,
    pub output_path: String,
}

/// The project whose completed history to list.
#[derive(Debug, Clone)]
pub struct ListCompletedHistoryRequest {
    pub project_path: String,
}

/// The completed history records of a project, newest first.
#[derive(Debug, Clone)]
pub struct ListCompletedHistoryResponse {
    pub project_path: String,
    pub records: Vec<CompletedHistoryEntry>,
}

/// A completed history record to read.
#[derive(Debug, Clone)]
pub struct ReadCompletedHistoryRequest {
    pub project_path: String,
    pub record_path: String,
}

/// A completed history record with its text.
#[derive(Debug, Clone)]
pub struct ReadCompletedHistoryResponse {
    pub detail: CompletedHistoryDetail,
}

/// The reported results of a completed publication.
pub open spec fn completed_options(
    transfer_result: String,
    verification_result: String,
    rollback_available: bool,
    rollback_notes: String,
    r: PublicationHistoryRecord,
) -> bool {
    &&& r.transfer_result == transfer_result
    &&& r.verification_result == verification_result
    &&& r.rollback.available == rollback_available
    &&& r.rollback.notes == rollback_notes
}

impl PublishService {
    /// Plans a publication without publishing (see `dry_run_publish_with_context`);
    /// `inputs` is what the project and the request's roots give.
    pub fn preview_publication(
        &self,
        request: PreviewPublicationRequest,
        inputs: DryRunInputs,
    ) -> (r: Result<PreviewPublicationResponse, PublishPlanError>)
        ensures
            dry_run_outcome(
                request.target@,
                inputs,
                match r {
                    Ok(resp) => Ok(resp.plan),
                    Err(e) => Err(e),
                },
            ),
    {
        match dry_run_publish_with_context(request.target.as_str(), inputs) {
            Ok(plan) => Ok(PreviewPublicationResponse { plan }),
            Err(e) => Err(e),
        }
    }

    /// The planned record of a dry run.
    pub fn build_planned_history(&self, request: BuildPlannedHistoryRequest) -> (r:
        BuildPlannedHistoryResponse)
        ensures
            is_planned_record(request.plan, request.date@, r.record),
            r.record.transfer_result@ == "planned"@,
            r.record.verification_result@ == "not-run"@,
            !r.record.rollback.available,
            r.record.rollback.notes@ == "Dry-run only; no remote state changed"@,
    {
        BuildPlannedHistoryResponse {
            record: PublicationHistoryRecord::planned_from_dry_run(&request.plan, request.date),
        }
    }

    /// The completed record of a dry run with the reported results.
    pub fn build_completed_history(&self, request: BuildCompletedHistoryRequest) -> (r:
        BuildCompletedHistoryResponse)
        ensures
            is_planned_record(request.plan, request.date@, r.record),
            completed_options(
                request.transfer_result,
                request.verification_result,
                request.rollback_available,
                request.rollback_notes,
                r.record,
            ),
    {
        let BuildCompletedHistoryRequest {
            plan,
            date,
            transfer_result,
            verification_result,
            rollback_available,
            rollback_notes,
        } = request;
        BuildCompletedHistoryResponse {
            record: PublicationHistoryRecord::completed_from_dry_run(
                &plan,
                date,
                CompletedHistoryOptions {
                    transfer_result,
                    verification_result,
                    rollback_available,
                    rollback_notes,
                },
            ),
        }
    }

    /// The completed record of a dry run with the reported results, and the
    /// path under the project's `history/completed` where it is saved.
    pub fn save_completed_history(&self, request: SaveCompletedHistoryRequest) -> (r:
        SaveCompletedHistoryResponse)
        ensures
            is_planned_record(request.plan, request.date@, r.record),
            completed_options(
                request.transfer_result,
                request.verification_result,
                request.rollback_available,
                request.rollback_notes,
                r.record,
            ),
            r.output_path@ == joined_path(
                history_dir(request.project_path@, "completed"@),
                history_filename(r.record, "-completed.toml"@),
            ),
    {
        let SaveCompletedHistoryRequest {
            project_path,
            plan,
            date,
            transfer_result,
            verification_result,
            rollback_available,
            rollback_notes,
        } = request;
        let record = PublicationHistoryRecord::completed_from_dry_run(
            &plan,
            date,
            CompletedHistoryOptions {
                transfer_result,
                verification_result,
                rollback_available,
                rollback_notes,
            },
        );
        let output_path = completed_history_record_path(project_path.as_str(), &record);
        SaveCompletedHistoryResponse { record, output_path }
    }

    /// The completed history records of a project, newest first; `items` is
    /// what its `history/completed` directory holds (`None` when missing), or
    /// the failure to read it.
    pub fn list_completed_history(
        &self,
        request: ListCompletedHistoryRequest,
        items: Result<Option<Vec<HistoryDirItem>>, HistoryError>,
    ) -> (r: Result<ListCompletedHistoryResponse, HistoryError>)
        ensures
            match items {
                Err(e) => r == Err::<ListCompletedHistoryResponse, HistoryError>(e),
                Ok(None) => r matches Ok(resp) && resp.records@.len() == 0 && resp.project_path
                    == request.project_path,
                Ok(Some(found)) => r matches Ok(resp) && resp.project_path == request.project_path
                    && resp.records@.to_multiset() == record_items(found@).map_values(
                    |i: HistoryDirItem| completed_entry_of(i),
                ).to_multiset() && is_sorted(resp.records@) && keeps_tie_order(
                    resp.records@,
                    record_items(found@).map_values(|i: HistoryDirItem| completed_entry_of(i)),
                ),
            },
    {
        match list_completed_history_records(items) {
            Err(e) => Err(e),
            Ok(records) => Ok(
                ListCompletedHistoryResponse { project_path: request.project_path, records },
            ),
        }
    }

    /// Reads a completed history record of a project. `history_dir` and
    /// `record_path` are the canonical forms of the project's
    /// `history/completed` and of the requested path (or the failures to
    /// find them); `facts` and `text` are what the file system gives for the
    /// record, read only once the path passed the boundary check.
    pub fn read_completed_history(
        &self,
        request: ReadCompletedHistoryRequest,
        history_dir: Result<String, HistoryError>,
        record_path: Result<String, HistoryError>,
        facts: Result<HistoryFileFacts, HistoryError>,
        text: Result<String, HistoryError>,
    ) -> (r: Result<ReadCompletedHistoryResponse, HistoryError>)
        ensures
            match history_dir {
                Err(e) => r == Err::<ReadCompletedHistoryResponse, HistoryError>(e),
                Ok(dir) => match record_path {
                    Err(e) => r == Err::<ReadCompletedHistoryResponse, HistoryError>(e),
                    Ok(path) => if !(path_under(path@, dir@) && has_toml_extension(path@)) {
                        r matches Err(HistoryError::PermissionDenied(_))
                    } else {
                        match facts {
                            Err(e) => r == Err::<ReadCompletedHistoryResponse, HistoryError>(e),
                            Ok(f) => if !f.is_file {
                                r matches Err(HistoryError::InvalidInput(_))
                            } else {
                                match text {
                                    Err(e) => r == Err::<ReadCompletedHistoryResponse, HistoryError>(
                                        e,
                                    ),
                                    Ok(t) => r matches Ok(resp) && resp.detail.record_toml == t
                                        && resp.detail.entry.path@ == path@
                                        && resp.detail.entry.filename@ == shown_file_name(path@)
                                        && resp.detail.entry.modified_unix == f.modified_unix
                                        && resp.detail.entry.size_bytes == f.size_bytes,
                                }
                            },
                        }
                    },
                },
            },
    {
        let dir = match history_dir {
            Err(e) => return Err(e),
            Ok(d) => d,
        };
        let path = match record_path {
            Err(e) => return Err(e),
            Ok(p) => p,
        };
        match read_completed_history_record(dir.as_str(), path.as_str(), facts, text) {
            Err(e) => Err(e),
            Ok(detail) => Ok(ReadCompletedHistoryResponse { detail }),
        }
    }
}

// ---------------------------------------------------------------------------
// Removable execution
// ---------------------------------------------------------------------------

/// A finding that blocks a publication: a stable code, a message and the
/// path it concerns.
#[derive(Debug, Clone)]
pub struct PublishValidationIssue {
    pub code: &'static str,
    pub message: String,
    pub path: Option<String>,
}

/// One file of a removable publication: the project file, where it is read
/// from (none for a removal), and where it goes.
#[derive(Debug, Clone)]
pub struct RemovableExecutionOperation {
    pub project_path: String,
    pub source_path: Option<String>,
    pub destination_path: String,
}

/// A removable publication ready to run: its target, where it copies to,
/// whether it may run and what blocks it, and its operations.
#[derive(Debug, Clone)]
pub struct RemovableExecutionPlan {
    pub project_id: String,
    pub target: String,
    pub method: String,
    pub destination_root: String,
    pub execution_ready: bool,
    pub blocked_reasons: Vec<PublishValidationIssue>,
    pub confirmations: Vec<String>,
    pub upload: Vec<RemovableExecutionOperation>,
    pub update: Vec<RemovableExecutionOperation>,
    pub delete: Vec<RemovableExecutionOperation>,
    pub skip: Vec<RemovableExecutionOperation>,
    pub completed_history_dir: String,
}

/// A removable execution to run.
#[derive(Debug, Clone)]
pub struct ExecuteRemovableRequest {
    pub project_path: String,
    pub target: String,
    pub remote_state_path: Option<String>,
    pub date: String,
    pub confirm_transfer: bool,
}

/// What a removable execution did.
#[derive(Debug, Clone)]
pub struct RemovableExecutionResult {
    pub transfer_result: String,
    pub verification_result: String,
    pub files: Vec<RemovableExecutionFileResult>,
}

/// What a removable execution did with one file.
#[derive(Debug, Clone)]
pub struct RemovableExecutionFileResult {
    pub project_path: String,
    pub source_path: Option<String>,
    pub destination_path: String,
    pub action: String,
    pub result: String,
    pub bytes: Option<u64>,
}

/// The ways a removable execution can fail.
#[derive(Debug)]
pub enum ExecuteRemovableError {
    Plan(PublishPlanError),
    ConfirmationRequired,
    PlanBlocked(Vec<PublishValidationIssue>),
    DestinationExists(String),
    UnsafeDestination { root: String, path: String },
    MissingSource(String),
    CreateDirectory { path: String, message: String },
    Copy { source_path: String, destination_path: String, message: String },
    Rename { temporary_path: String, destination_path: String, message: String },
    WriteHistory(String),
}

pub open spec fn blocked_reason_texts(reasons: Seq<PublishValidationIssue>) -> Seq<Seq<char>> {
    reasons.map_values(|i: PublishValidationIssue| i.code@ + ": "@ + i.message@)
}

/// The message of a removable-execution failure.
pub open spec fn execute_error_text(e: ExecuteRemovableError) -> Seq<char> {
    match e {
        ExecuteRemovableError::Plan(p) => plan_error_text(p),
        ExecuteRemovableError::ConfirmationRequired => "removable execution requires --confirm-transfer"@,
        ExecuteRemovableError::PlanBlocked(reasons) => "removable execution plan is blocked: "@
            + joined_with(blocked_reason_texts(reasons@), "; "@),
        ExecuteRemovableError::DestinationExists(p) => "destination already exists: "@ + p@,
        ExecuteRemovableError::UnsafeDestination { root, path } =>
            "destination escaped removable root: "@ + path@ + " is not under "@ + root@,
        ExecuteRemovableError::MissingSource(p) => "source file is missing: "@ + p@,
        ExecuteRemovableError::CreateDirectory { path, message } =>
            "destination directory could not be created: "@ + path@ + ": "@ + message@,
        ExecuteRemovableError::Copy { source_path, destination_path, message } =>
            "file could not be copied: "@ + source_path@ + " -> "@ + destination_path@ + ": "@
                + message@,
        ExecuteRemovableError::Rename { temporary_path, destination_path, message } =>
            "temporary file could not be moved into place: "@ + temporary_path@ + " -> "@
                + destination_path@ + ": "@ + message@,
        ExecuteRemovableError::WriteHistory(m) => "completed history could not be written: "@ + m@,
    }
}

impl ExecuteRemovableError {
    /// The message that describes the failure.
    pub fn message(&self) -> (r: String)
        ensures
            r@ == execute_error_text(*self),
    {
        match self {
            ExecuteRemovableError::Plan(p) => p.message(),
            ExecuteRemovableError::ConfirmationRequired => string_of(
                "removable execution requires --confirm-transfer",
            ),
            ExecuteRemovableError::PlanBlocked(reasons) => {
                let mut m = string_of("removable execution plan is blocked: ");
                let ghost head = m@;
                let mut i: usize = 0;
                while i < reasons.len()
                    invariant
                        i <= reasons@.len(),
                        m@ == head + joined_with(blocked_reason_texts(reasons@.take(i as int)), "; "@),
                    decreases reasons@.len() - i,
                {
                    if i > 0 {
                        m.append("; ");
                    }
                    m.append(reasons[i].code);
                    m.append(": ");
                    m.append(reasons[i].message.as_str());
                    proof {
                        assert(blocked_reason_texts(reasons@.take(i + 1)).drop_last() =~= blocked_reason_texts(
                            reasons@.take(i as int),
                        ));
                        if i == 0 {
                            assert(blocked_reason_texts(reasons@.take(0)) =~= Seq::<Seq<char>>::empty());
                        }
                    }
                    i = i + 1;
                }
                assert(reasons@.take(reasons@.len() as int) =~= reasons@);
                m
            },
            ExecuteRemovableError::DestinationExists(p) => concat("destination already exists: ", p.as_str()),
            ExecuteRemovableError::UnsafeDestination { root, path } => concat4(
                "destination escaped removable root: ",
                path.as_str(),
                " is not under ",
                root.as_str(),
            ),
            ExecuteRemovableError::MissingSource(p) => concat("source file is missing: ", p.as_str()),
            ExecuteRemovableError::CreateDirectory { path, message } => concat4(
                "destination directory could not be created: ",
                path.as_str(),
                ": ",
                message.as_str(),
            ),
            ExecuteRemovableError::Copy { source_path, destination_path, message } => {
                let mut m = concat4(
                    "file could not be copied: ",
                    source_path.as_str(),
                    " -> ",
                    destination_path.as_str(),
                );
                m.append(": ");
                m.append(message.as_str());
                m
            },
            ExecuteRemovableError::Rename { temporary_path, destination_path, message } => {
                let mut m = concat4(
                    "temporary file could not be moved into place: ",
                    temporary_path.as_str(),
                    " -> ",
                    destination_path.as_str(),
                );
                m.append(": ");
                m.append(message.as_str());
                m
            },
            ExecuteRemovableError::WriteHistory(m) => concat(
                "completed history could not be written: ",
                m.as_str(),
            ),
        }
    }
}

/// Refuses a destination outside the removable root (both compared as
/// paths, component by component).
pub fn ensure_destination_under_root(root: &str, path: &str) -> (r: Result<(), ExecuteRemovableError>)
    ensures
        match r {
            Ok(()) => path_under(path@, root@),
            Err(e) => !path_under(path@, root@) && (e matches ExecuteRemovableError::UnsafeDestination {
                root: rt,
                path: p,
            } && rt@ == root@ && p@ == path@),
        },
{
    if path_under_exec(path, root) {
        Ok(())
    } else {
        Err(ExecuteRemovableError::UnsafeDestination { root: string_of(root), path: string_of(path) })
    }
}

/// What an execution did with a file, from its operation.
pub fn file_result(
    operation: &RemovableExecutionOperation,
    action: &str,
    result: &str,
    bytes: Option<u64>,
) -> (r: RemovableExecutionFileResult)
    ensures
        r.project_path == operation.project_path,
        r.source_path == operation.source_path,
        r.destination_path == operation.destination_path,
        r.action@ == action@,
        r.result@ == result@,
        r.bytes == bytes,
{
    RemovableExecutionFileResult {
        project_path: operation.project_path.clone(),
        source_path: clone_opt(&operation.source_path),
        destination_path: operation.destination_path.clone(),
        action: string_of(action),
        result: string_of(result),
        bytes,
    }
}

/// The files of a completed record from an execution's file results: each
/// file's action is its result and its action joined by `-`.
pub open spec fn result_files(files: Seq<RemovableExecutionFileResult>) -> Seq<FileView> {
    files.map_values(
        |f: RemovableExecutionFileResult|
            FileView { path: f.project_path@, action: f.result@ + "-"@ + f.action@, sha256: None },
    )
}

/// The completed record of a removable execution.
pub fn completed_history_from_removable_result(
    plan: &RemovableExecutionPlan,
    result: &RemovableExecutionResult,
    date: String,
) -> (r: PublicationHistoryRecord)
    ensures
        r.schema == HISTORY_SCHEMA,
        r.date == date,
        r.project_id == plan.project_id,
        r.target == plan.target,
        r.method == plan.method,
        r.destination == Some(plan.destination_root),
        r.transfer_result == result.transfer_result,
        r.verification_result == result.verification_result,
        file_views(r.files@) == result_files(result.files@),
        !r.rollback.available,
        r.rollback.notes@ == "Removable transfer completed; no rollback snapshot recorded"@,
{
    let mut files: Vec<PublicationFile> = Vec::new();
    let mut i: usize = 0;
    while i < result.files.len()
        invariant
            i <= result.files@.len(),
            file_views(files@) == result_files(result.files@.take(i as int)),
        decreases result.files@.len() - i,
    {
        let f = &result.files[i];
        let action = concat3(f.result.as_str(), "-", f.action.as_str());
        let ghost before = file_views(files@);
        files.push(PublicationFile { path: f.project_path.clone(), action, sha256: None });
        assert(file_views(files@) =~= before.push(file_view(files@.last())));
        assert(result_files(result.files@.take(i + 1)) =~= result_files(result.files@.take(i as int)).push(
            FileView { path: f.project_path@, action: f.result@ + "-"@ + f.action@, sha256: None },
        ));
        i = i + 1;
    }
    assert(result.files@.take(result.files@.len() as int) =~= result.files@);
    PublicationHistoryRecord {
        schema: HISTORY_SCHEMA,
        date,
        project_id: plan.project_id.clone(),
        target: plan.target.clone(),
        method: plan.method.clone(),
        destination: Some(plan.destination_root.clone()),
        transfer_result: result.transfer_result.clone(),
        verification_result: result.verification_result.clone(),
        files,
        rollback: RollbackInfo {
            available: false,
            notes: string_of("Removable transfer completed; no rollback snapshot recorded"),
        },
    }
}

/// What the file system shows for one copy of a removable execution:
/// whether its source is a file, whether its destination exists, and the
/// temporary path it is copied through and whether that exists.
#[derive(Debug, Clone)]
pub struct CopyFacts {
    pub source_is_file: bool,
    pub destination_exists: bool,
    pub temporary_path: String,
    pub temporary_exists: bool,
}

/// Why a removable execution may not start.
pub enum PreflightFailure {
    MissingSource(Seq<char>),
    Unsafe(Seq<char>),
    Exists(Seq<char>),
}

/// Whether an operation copies a file that the plan uploads.
pub open spec fn is_upload(plan: RemovableExecutionPlan, op: RemovableExecutionOperation) -> bool {
    exists|i: int|
        0 <= i < plan.upload@.len() && (#[trigger] plan.upload@[i]).project_path@
            == op.project_path@
}

/// The check of one copy: a source that is a file, a destination under the
/// root, no existing destination for an upload, and no temporary file in the way.
pub open spec fn copy_check(
    plan: RemovableExecutionPlan,
    op: RemovableExecutionOperation,
    f: CopyFacts,
) -> Option<PreflightFailure> {
    match op.source_path {
        None => Some(PreflightFailure::MissingSource(op.project_path@)),
        Some(source) => if !f.source_is_file {
            Some(PreflightFailure::MissingSource(source@))
        } else if !path_under(op.destination_path@, plan.destination_root@) {
            Some(PreflightFailure::Unsafe(op.destination_path@))
        } else if is_upload(plan, op) && f.destination_exists {
            Some(PreflightFailure::Exists(op.destination_path@))
        } else if f.temporary_exists {
            Some(PreflightFailure::Exists(f.temporary_path@))
        } else {
            None
        },
    }
}

/// The check of a removal or a skip: a destination under the root.
pub open spec fn removal_check(plan: RemovableExecutionPlan, op: RemovableExecutionOperation) -> Option<
    PreflightFailure,
> {
    if !path_under(op.destination_path@, plan.destination_root@) {
        Some(PreflightFailure::Unsafe(op.destination_path@))
    } else {
        None
    }
}

pub open spec fn copy_ops(plan: RemovableExecutionPlan) -> Seq<RemovableExecutionOperation> {
    plan.upload@ + plan.update@
}

pub open spec fn removal_ops(plan: RemovableExecutionPlan) -> Seq<RemovableExecutionOperation> {
    plan.delete@ + plan.skip@
}

/// The checks of a plan, in order: each copy, then each removal or skip.
pub open spec fn preflight_checks(plan: RemovableExecutionPlan, facts: Seq<CopyFacts>) -> Seq<
    Option<PreflightFailure>,
> {
    Seq::new(copy_ops(plan).len(), |i: int| copy_check(plan, copy_ops(plan)[i], facts[i]))
        + removal_ops(plan).map_values(|op: RemovableExecutionOperation| removal_check(plan, op))
}

/// The first check that fails.
pub open spec fn first_failure(checks: Seq<Option<PreflightFailure>>) -> Option<PreflightFailure>
    decreases checks.len(),
{
    if checks.len() == 0 {
        None
    } else if checks[0] is Some {
        checks[0]
    } else {
        first_failure(checks.drop_first())
    }
}

proof fn lemma_first_failure(checks: Seq<Option<PreflightFailure>>, k: int)
    requires
        0 <= k <= checks.len(),
        forall|j: int| 0 <= j < k ==> (#[trigger] checks[j]) is None,
    ensures
        k < checks.len() && checks[k] is Some ==> first_failure(checks) == checks[k],
        k == checks.len() ==> first_failure(checks) is None,
    decreases k,
{
    if k > 0 {
        lemma_first_failure(checks.drop_first(), k - 1);
    }
}

/// The error that a failed check gives.
pub open spec fn is_failure(e: ExecuteRemovableError, root: Seq<char>, f: PreflightFailure) -> bool {
    match f {
        PreflightFailure::MissingSource(p) => e matches ExecuteRemovableError::MissingSource(q)
            && q@ == p,
        PreflightFailure::Unsafe(p) => e matches ExecuteRemovableError::UnsafeDestination {
            root: rt,
            path: q,
        } && rt@ == root && q@ == p,
        PreflightFailure::Exists(p) => e matches ExecuteRemovableError::DestinationExists(q) && q@
            == p,
    }
}

/// Whether an operation copies a file that the plan uploads.
pub fn operation_is_upload(plan: &RemovableExecutionPlan, operation: &RemovableExecutionOperation) -> (r:
    bool)
    ensures
        r == is_upload(*plan, *operation),
{
    let mut i: usize = 0;
    while i < plan.upload.len()
        invariant
            i <= plan.upload@.len(),
            forall|j: int|
                0 <= j < i ==> (#[trigger] plan.upload@[j]).project_path@
                    != operation.project_path@,
        decreases plan.upload@.len() - i,
    {
        if text_eq(plan.upload[i].project_path.as_str(), operation.project_path.as_str()) {
            return true;
        }
        i = i + 1;
    }
    false
}

fn check_copy(
    plan: &RemovableExecutionPlan,
    op: &RemovableExecutionOperation,
    f: &CopyFacts,
) -> (r: Result<(), ExecuteRemovableError>)
    ensures
        match copy_check(*plan, *op, *f) {
            None => r is Ok,
            Some(failure) => r matches Err(e) && is_failure(e, plan.destination_root@, failure),
        },
{
    let source = match &op.source_path {
        None => return Err(ExecuteRemovableError::MissingSource(op.project_path.clone())),
        Some(s) => s,
    };
    if !f.source_is_file {
        return Err(ExecuteRemovableError::MissingSource(source.clone()));
    }
    if let Err(e) = ensure_destination_under_root(
        plan.destination_root.as_str(),
        op.destination_path.as_str(),
    ) {
        return Err(e);
    }
    if operation_is_upload(plan, op) && f.destination_exists {
        return Err(ExecuteRemovableError::DestinationExists(op.destination_path.clone()));
    }
    if f.temporary_exists {
        return Err(ExecuteRemovableError::DestinationExists(f.temporary_path.clone()));
    }
    Ok(())
}

/// Checks a removable plan before anything is copied: every copy needs a
/// source that is a file, a destination under the removable root, no
/// existing destination for an upload and no temporary file in the way;
/// every removal and skip needs a destination under the root. `facts` holds
/// what the file system shows for each copy, uploads first, then updates.
pub fn preflight_removable_plan(plan: &RemovableExecutionPlan, facts: &Vec<CopyFacts>) -> (r: Result<
    (),
    ExecuteRemovableError,
>)
    requires
        facts@.len() == plan.upload@.len() + plan.update@.len(),
    ensures
        match first_failure(preflight_checks(*plan, facts@)) {
            None => r is Ok,
            Some(failure) => r matches Err(e) && is_failure(e, plan.destination_root@, failure),
        },
{
    let ghost checks = preflight_checks(*plan, facts@);
    let nu = plan.upload.len();
    let n = facts.len();
    let mut i: usize = 0;
    while i < n
        invariant
            i <= n,
            n == facts@.len(),
            nu == plan.upload@.len(),
            n == nu + plan.update@.len(),
            checks == preflight_checks(*plan, facts@),
            forall|j: int| 0 <= j < i ==> (#[trigger] checks[j]) is None,
        decreases n - i,
    {
        let op = if i < nu {
            &plan.upload[i]
        } else {
            &plan.update[i - nu]
        };
        assert(*op == copy_ops(*plan)[i as int]);
        assert(checks[i as int] == copy_check(*plan, *op, facts@[i as int]));
        if let Err(e) = check_copy(plan, op, &facts[i]) {
            proof {
                lemma_first_failure(checks, i as int);
            }
            return Err(e);
        }
        i = i + 1;
    }
    let nd = plan.delete.len();
    let mut k: usize = 0;
    while k < nd
        invariant
            k <= nd,
            n == copy_ops(*plan).len(),
            nd == plan.delete@.len(),
            checks == preflight_checks(*plan, facts@),
            forall|j: int| 0 <= j < n + k ==> (#[trigger] checks[j]) is None,
        decreases nd - k,
    {
        let op = &plan.delete[k];
        assert(*op == removal_ops(*plan)[k as int]);
        assert(checks[n + k] == removal_check(*plan, *op));
        if let Err(e) = ensure_destination_under_root(
            plan.destination_root.as_str(),
            op.destination_path.as_str(),
        ) {
            proof {
                lemma_first_failure(checks, n + k);
            }
            return Err(e);
        }
        k = k + 1;
    }
    let ns = plan.skip.len();
    let mut k: usize = 0;
    while k < ns
        invariant
            k <= ns,
            n == copy_ops(*plan).len(),
            nd == plan.delete@.len(),
            ns == plan.skip@.len(),
            checks == preflight_checks(*plan, facts@),
            forall|j: int| 0 <= j < n + nd + k ==> (#[trigger] checks[j]) is None,
        decreases ns - k,
    {
        let op = &plan.skip[k];
        assert(*op == removal_ops(*plan)[nd + k]);
        assert(checks[n + nd + k] == removal_check(*plan, *op));
        if let Err(e) = ensure_destination_under_root(
            plan.destination_root.as_str(),
            op.destination_path.as_str(),
        ) {
            proof {
                lemma_first_failure(checks, n + nd + k);
            }
            return Err(e);
        }
        k = k + 1;
    }
    proof {
        lemma_first_failure(checks, n + nd + ns);
    }
    Ok(())
}

/// The checks of a removable execution before any copy, in order: the
/// transfer must be confirmed, the plan must have been made, be ready and
/// unblocked, and pass its preflight. `plan` is the plan made for the
/// request, or the failure to make it; `facts` is what the file system
/// shows for each of its copies.
pub fn check_removable_execution(
    request: &ExecuteRemovableRequest,
    plan: Result<RemovableExecutionPlan, PublishPlanError>,
    facts: &Vec<CopyFacts>,
) -> (r: Result<RemovableExecutionPlan, ExecuteRemovableError>)
    requires
        plan matches Ok(p) ==> facts@.len() == p.upload@.len() + p.update@.len(),
    ensures
        !request.confirm_transfer ==> r matches Err(ExecuteRemovableError::ConfirmationRequired),
        request.confirm_transfer ==> match plan {
            Err(e) => r matches Err(ExecuteRemovableError::Plan(f)) && f == e,
            Ok(p) => if !p.execution_ready || p.blocked_reasons@.len() > 0 {
                r matches Err(ExecuteRemovableError::PlanBlocked(reasons)) && reasons
                    == p.blocked_reasons
            } else {
                match first_failure(preflight_checks(p, facts@)) {
                    None => r == Ok::<RemovableExecutionPlan, ExecuteRemovableError>(p),
                    Some(failure) => r matches Err(e) && is_failure(
                        e,
                        p.destination_root@,
                        failure,
                    ),
                }
            },
        },
{
    if !request.confirm_transfer {
        return Err(ExecuteRemovableError::ConfirmationRequired);
    }
    let p = match plan {
        Err(e) => return Err(ExecuteRemovableError::Plan(e)),
        Ok(p) => p,
    };
    if !p.execution_ready || p.blocked_reasons.len() > 0 {
        return Err(ExecuteRemovableError::PlanBlocked(p.blocked_reasons));
    }
    match preflight_removable_plan(&p, facts) {
        Err(e) => Err(e),
        Ok(()) => Ok(p),
    }
}

} // verus!
