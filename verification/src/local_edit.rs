//! Local edits requested from the client: the edit transaction a request
//! becomes, and how each outcome of preparing, applying or rejecting it is
//! reported. Error reports are categorical: they never carry paths or
//! hashes.
use crate::proto::LocalEditReviewState;
use crate::text::{append_str, owned};
use vstd::prelude::*;

verus! {

/// Why an edit could not be previewed or applied.
#[derive(Debug, Clone, PartialEq, Eq)]
pub enum NativeEditError {
    InvalidPath { path: String },
    MissingFile { path: String },
    AlreadyExists { path: String },
    HashMismatch { path: String, expected_sha256: String, actual_sha256: String },
    FindNotFound { path: String },
    FindNotUnique { path: String },
    Io { path: String, reason: String },
}

pub open spec fn edit_error_label(e: NativeEditError) -> Seq<char> {
    match e {
        NativeEditError::InvalidPath { .. } => "invalid_path"@,
        NativeEditError::MissingFile { .. } => "missing_file"@,
        NativeEditError::AlreadyExists { .. } => "already_exists"@,
        NativeEditError::HashMismatch { .. } => "hash_mismatch"@,
        NativeEditError::FindNotFound { .. } => "find_not_found"@,
        NativeEditError::FindNotUnique { .. } => "find_not_unique"@,
        NativeEditError::Io { .. } => "io_error"@,
    }
}

/// The category of an edit error, without any of its details.
pub fn native_edit_error_label(error: &NativeEditError) -> (s: &'static str)
    ensures
        s@ == edit_error_label(*error),
{
    match error {
        NativeEditError::InvalidPath { .. } => "invalid_path",
        NativeEditError::MissingFile { .. } => "missing_file",
        NativeEditError::AlreadyExists { .. } => "already_exists",
        NativeEditError::HashMismatch { .. } => "hash_mismatch",
        NativeEditError::FindNotFound { .. } => "find_not_found",
        NativeEditError::FindNotUnique { .. } => "find_not_unique",
        NativeEditError::Io { .. } => "io_error",
    }
}

/// Why a local edit request failed.
#[derive(Debug, Clone, PartialEq, Eq)]
pub enum NativeEditAccessError {
    PermissionDenied { reason: String },
    Preview(NativeEditError),
    Apply(NativeEditError),
    PreviewNotFound,
    DecisionMismatch,
    EvidencePersistFailed,
}

pub open spec fn access_error_message(e: NativeEditAccessError) -> Seq<char> {
    match e {
        NativeEditAccessError::PermissionDenied { reason } => "native dogfood: local edit denied: "@
            + reason@,
        NativeEditAccessError::Preview(error) => "native dogfood: local edit preview failed: "@
            + edit_error_label(error),
        NativeEditAccessError::Apply(error) => "native dogfood: local edit apply failed: "@
            + edit_error_label(error),
        NativeEditAccessError::PreviewNotFound => "native dogfood: stale local edit preview"@,
        NativeEditAccessError::DecisionMismatch => "native dogfood: stale local edit permission decision"@,
        NativeEditAccessError::EvidencePersistFailed => "native dogfood: failed to persist local edit evidence"@,
    }
}

/// The message reported for a failed local edit.
pub fn native_local_edit_error_message(error: &NativeEditAccessError) -> (s: String)
    ensures
        s@ == access_error_message(*error),
{
    match error {
        NativeEditAccessError::PermissionDenied { reason } => {
            let mut s = String::from_str("native dogfood: local edit denied: ");
            append_str(&mut s, reason.as_str());
            s
        },
        NativeEditAccessError::Preview(error) => {
            let mut s = String::from_str("native dogfood: local edit preview failed: ");
            append_str(&mut s, native_edit_error_label(error));
            s
        },
        NativeEditAccessError::Apply(error) => {
            let mut s = String::from_str("native dogfood: local edit apply failed: ");
            append_str(&mut s, native_edit_error_label(error));
            s
        },
        NativeEditAccessError::PreviewNotFound => String::from_str(
            "native dogfood: stale local edit preview",
        ),
        NativeEditAccessError::DecisionMismatch => String::from_str(
            "native dogfood: stale local edit permission decision",
        ),
        NativeEditAccessError::EvidencePersistFailed => String::from_str(
            "native dogfood: failed to persist local edit evidence",
        ),
    }
}

/// A local edit as the client asks for it.
#[derive(Debug, Clone, PartialEq, Eq)]
pub enum LocalEditOperationInput {
    ModifyTextFile { path: String, expected_sha256: String, find: String, replace: String },
    CreateTextFile { path: String, content: String },
}

#[derive(Debug, Clone, PartialEq, Eq)]
pub struct NativeEditHunk {
    pub find: String,
    pub replace: String,
}

#[derive(Debug, Clone, PartialEq, Eq)]
pub enum NativeEditOperation {
    ModifyTextFile { path: String, expected_sha256: String, hunks: Vec<NativeEditHunk> },
    CreateTextFile { path: String, content: String },
}

#[derive(Debug, Clone, PartialEq, Eq)]
pub struct NativeEditTransactionRequest {
    pub operations: Vec<NativeEditOperation>,
}

/// A request as an edit transaction, with the path and operation name the
/// preview is reported under.
#[derive(Debug, Clone, PartialEq, Eq)]
pub struct LocalEditRequestParts {
    pub request: NativeEditTransactionRequest,
    pub path: String,
    pub operation: String,
}

/// One request becomes a transaction of exactly one operation: a
/// modification with a single hunk, or a creation.
pub open spec fn request_parts_match(input: LocalEditOperationInput, parts: LocalEditRequestParts) -> bool {
    &&& parts.request.operations@.len() == 1
    &&& match input {
        LocalEditOperationInput::ModifyTextFile { path, expected_sha256, find, replace } => {
            &&& parts.path == path
            &&& parts.operation@ == "modify_text_file"@
            &&& parts.request.operations@[0] is ModifyTextFile
            &&& parts.request.operations@[0]->ModifyTextFile_path == path
            &&& parts.request.operations@[0]->ModifyTextFile_expected_sha256 == expected_sha256
            &&& parts.request.operations@[0]->ModifyTextFile_hunks@ == seq![
                NativeEditHunk { find, replace },
            ]
        },
        LocalEditOperationInput::CreateTextFile { path, content } => {
            &&& parts.path == path
            &&& parts.operation@ == "create_text_file"@
            &&& parts.request.operations@[0] == NativeEditOperation::CreateTextFile {
                path,
                content,
            }
        },
    }
}

pub fn native_local_edit_request_from_input(input: LocalEditOperationInput) -> (parts:
    LocalEditRequestParts)
    ensures
        request_parts_match(input, parts),
{
    match input {
        LocalEditOperationInput::ModifyTextFile { path, expected_sha256, find, replace } => {
            let mut hunks: Vec<NativeEditHunk> = Vec::new();
            hunks.push(NativeEditHunk { find, replace });
            let mut operations: Vec<NativeEditOperation> = Vec::new();
            operations.push(
                NativeEditOperation::ModifyTextFile {
                    path: path.clone(),
                    expected_sha256,
                    hunks,
                },
            );
            LocalEditRequestParts {
                request: NativeEditTransactionRequest { operations },
                path,
                operation: String::from_str("modify_text_file"),
            }
        },
        LocalEditOperationInput::CreateTextFile { path, content } => {
            let mut operations: Vec<NativeEditOperation> = Vec::new();
            operations.push(NativeEditOperation::CreateTextFile { path: path.clone(), content });
            LocalEditRequestParts {
                request: NativeEditTransactionRequest { operations },
                path,
                operation: String::from_str("create_text_file"),
            }
        },
    }
}

/// Whether a prepared edit may proceed, as the edit access layer decides.
#[derive(Debug, Clone, Copy, PartialEq, Eq, Structural)]
pub enum NativeEditAccessReviewState {
    Allowed,
    NeedsUserApproval,
    AutoReviewUnavailable,
}

/// The client's name for a review state: the same state.
pub open spec fn client_review_state(s: NativeEditAccessReviewState) -> LocalEditReviewState {
    match s {
        NativeEditAccessReviewState::Allowed => LocalEditReviewState::Allowed,
        NativeEditAccessReviewState::NeedsUserApproval => LocalEditReviewState::NeedsUserApproval,
        NativeEditAccessReviewState::AutoReviewUnavailable => LocalEditReviewState::AutoReviewUnavailable,
    }
}

pub fn native_local_edit_review_state(review_state: &NativeEditAccessReviewState) -> (s:
    LocalEditReviewState)
    ensures
        s == client_review_state(*review_state),
{
    match review_state {
        NativeEditAccessReviewState::Allowed => LocalEditReviewState::Allowed,
        NativeEditAccessReviewState::NeedsUserApproval => LocalEditReviewState::NeedsUserApproval,
        NativeEditAccessReviewState::AutoReviewUnavailable => LocalEditReviewState::AutoReviewUnavailable,
    }
}

/// A prepared edit's preview, as the edit access layer returns it.
#[derive(Debug, Clone, PartialEq, Eq)]
pub struct NativeEditPreview {
    pub preview_id: String,
    pub transaction_id: String,
    pub permission_decision_id: String,
    pub review_state: NativeEditAccessReviewState,
    pub diff_summary: String,
    pub diff_summary_truncated: bool,
}

/// The preview of a prepared edit, as the client is shown it.
#[derive(Debug, Clone, PartialEq, Eq)]
pub struct LocalEditPreviewSummary {
    pub preview_id: String,
    pub transaction_id: String,
    pub permission_decision_id: String,
    pub path: String,
    pub operation: String,
    pub review_state: LocalEditReviewState,
    pub diff_summary: String,
    pub diff_summary_truncated: bool,
}

/// The client's view of a preview: its ids, diff and review state, with
/// the edited path and operation.
pub fn native_local_edit_preview_summary(
    preview: NativeEditPreview,
    path: String,
    operation: String,
) -> (s: LocalEditPreviewSummary)
    ensures
        s.preview_id == preview.preview_id,
        s.transaction_id == preview.transaction_id,
        s.permission_decision_id == preview.permission_decision_id,
        s.path == path,
        s.operation == operation,
        s.review_state == client_review_state(preview.review_state),
        s.diff_summary == preview.diff_summary,
        s.diff_summary_truncated == preview.diff_summary_truncated,
{
    let review_state = native_local_edit_review_state(&preview.review_state);
    LocalEditPreviewSummary {
        preview_id: preview.preview_id,
        transaction_id: preview.transaction_id,
        permission_decision_id: preview.permission_decision_id,
        path,
        operation,
        review_state,
        diff_summary: preview.diff_summary,
        diff_summary_truncated: preview.diff_summary_truncated,
    }
}

/// The user's answer to a reviewed edit or command.
#[derive(Debug, Clone, Copy, PartialEq, Eq, Structural)]
pub enum LocalEditDecision {
    Apply,
    Reject,
}

/// How a local edit request ended, as reported to the client.
#[derive(Debug, Clone, Copy, PartialEq, Eq, Structural)]
pub enum LocalEditFinishedOutcome {
    Applied,
    Rejected,
    Denied,
    Failed,
}

/// A local edit report: its outcome and message.
#[derive(Debug, Clone, PartialEq, Eq)]
pub struct LocalEditReport {
    pub outcome: LocalEditFinishedOutcome,
    pub message: String,
}

pub open spec fn persist_failure_text(error: Seq<char>) -> Seq<char> {
    "native dogfood: failed to persist local edit evidence: "@ + error
}

fn persist_failure(error: &str) -> (r: LocalEditReport)
    ensures
        r.outcome == LocalEditFinishedOutcome::Failed,
        r.message@ == persist_failure_text(error@),
{
    let mut message = String::from_str("native dogfood: failed to persist local edit evidence: ");
    append_str(&mut message, error);
    LocalEditReport { outcome: LocalEditFinishedOutcome::Failed, message }
}

/// The report of a prepare request that did not produce a preview: a
/// denial is reported as denied when its evidence was stored, as failed
/// otherwise; any other error as failed with its categorical message.
pub fn native_local_edit_prepare_failure(error: &NativeEditAccessError, evidence_stored: bool) -> (r:
    LocalEditReport)
    ensures
        r.message@ == access_error_message(*error),
        r.outcome == (if error is PermissionDenied && evidence_stored {
            LocalEditFinishedOutcome::Denied
        } else {
            LocalEditFinishedOutcome::Failed
        }),
{
    let message = native_local_edit_error_message(error);
    let outcome = match error {
        NativeEditAccessError::PermissionDenied { .. } => if evidence_stored {
            LocalEditFinishedOutcome::Denied
        } else {
            LocalEditFinishedOutcome::Failed
        },
        _ => LocalEditFinishedOutcome::Failed,
    };
    LocalEditReport { outcome, message }
}

/// The report of a prepared preview whose evidence could not be stored.
pub fn native_local_edit_prepare_persist_failure(error: &str) -> (r: LocalEditReport)
    ensures
        r.outcome == LocalEditFinishedOutcome::Failed,
        r.message@ == persist_failure_text(error@),
{
    persist_failure(error)
}

/// The report of an apply: applied, noting when the completed evidence
/// could not be stored; or failed with the error's categorical message.
pub fn native_local_edit_apply_report(result: &Result<bool, NativeEditAccessError>) -> (r:
    LocalEditReport)
    ensures
        match *result {
            Ok(true) => r.outcome == LocalEditFinishedOutcome::Applied && r.message@
                == "native dogfood: local edit applied"@,
            Ok(false) => r.outcome == LocalEditFinishedOutcome::Applied && r.message@
                == "native dogfood: local edit applied; completed evidence persist failed"@,
            Err(e) => r.outcome == LocalEditFinishedOutcome::Failed && r.message@
                == access_error_message(e),
        },
{
    match result {
        Ok(true) => LocalEditReport {
            outcome: LocalEditFinishedOutcome::Applied,
            message: String::from_str("native dogfood: local edit applied"),
        },
        Ok(false) => LocalEditReport {
            outcome: LocalEditFinishedOutcome::Applied,
            message: String::from_str(
                "native dogfood: local edit applied; completed evidence persist failed",
            ),
        },
        Err(error) => LocalEditReport {
            outcome: LocalEditFinishedOutcome::Failed,
            message: native_local_edit_error_message(error),
        },
    }
}

/// The report of a rejection: failed when the evidence store is unusable
/// before or after rejecting, or when rejecting fails; rejected otherwise.
pub fn native_local_edit_reject_report(
    store_ready: &Result<(), String>,
    rejected: &Result<(), NativeEditAccessError>,
    evidence_stored: &Result<(), String>,
) -> (r: LocalEditReport)
    ensures
        match (*store_ready, *rejected, *evidence_stored) {
            (Err(e), _, _) => r.outcome == LocalEditFinishedOutcome::Failed && r.message@
                == persist_failure_text(e@),
            (Ok(()), Err(e), _) => r.outcome == LocalEditFinishedOutcome::Failed && r.message@
                == access_error_message(e),
            (Ok(()), Ok(()), Err(e)) => r.outcome == LocalEditFinishedOutcome::Failed && r.message@
                == persist_failure_text(e@),
            (Ok(()), Ok(()), Ok(())) => r.outcome == LocalEditFinishedOutcome::Rejected
                && r.message@ == "native dogfood: local edit rejected"@,
        },
{
    if let Err(error) = store_ready {
        return persist_failure(error.as_str());
    }
    match rejected {
        Err(error) => LocalEditReport {
            outcome: LocalEditFinishedOutcome::Failed,
            message: native_local_edit_error_message(error),
        },
        Ok(()) => match evidence_stored {
            Err(error) => persist_failure(error.as_str()),
            Ok(()) => LocalEditReport {
                outcome: LocalEditFinishedOutcome::Rejected,
                message: String::from_str("native dogfood: local edit rejected"),
            },
        },
    }
}

/// The two errors are of the same kind, whatever their details.
pub open spec fn same_edit_error_kind(a: NativeEditError, b: NativeEditError) -> bool {
    match (a, b) {
        (NativeEditError::InvalidPath { .. }, NativeEditError::InvalidPath { .. }) => true,
        (NativeEditError::MissingFile { .. }, NativeEditError::MissingFile { .. }) => true,
        (NativeEditError::AlreadyExists { .. }, NativeEditError::AlreadyExists { .. }) => true,
        (NativeEditError::HashMismatch { .. }, NativeEditError::HashMismatch { .. }) => true,
        (NativeEditError::FindNotFound { .. }, NativeEditError::FindNotFound { .. }) => true,
        (NativeEditError::FindNotUnique { .. }, NativeEditError::FindNotUnique { .. }) => true,
        (NativeEditError::Io { .. }, NativeEditError::Io { .. }) => true,
        _ => false,
    }
}

/// Preview and apply failures are reported by category only: two errors of
/// the same kind give the same message, whatever paths, hashes or reasons
/// they carry.
pub proof fn law_edit_failures_are_categorical(a: NativeEditError, b: NativeEditError)
    requires
        same_edit_error_kind(a, b),
    ensures
        access_error_message(NativeEditAccessError::Preview(a)) == access_error_message(
            NativeEditAccessError::Preview(b),
        ),
        access_error_message(NativeEditAccessError::Apply(a)) == access_error_message(
            NativeEditAccessError::Apply(b),
        ),
{
}

} // verus!
