use yach_backend::local_edit::{
    native_local_edit_apply_report, native_local_edit_error_message,
    native_local_edit_prepare_failure, native_local_edit_prepare_persist_failure,
    native_local_edit_reject_report, native_local_edit_request_from_input,
    native_local_edit_preview_summary, native_local_edit_review_state, LocalEditFinishedOutcome,
    LocalEditOperationInput, NativeEditPreview,
    NativeEditAccessError, NativeEditAccessReviewState, NativeEditError, NativeEditHunk,
    NativeEditOperation,
};
use yach_backend::proto::LocalEditReviewState;

#[test]
fn native_local_edit_error_messages_are_categorical() {
    let message = native_local_edit_error_message(&NativeEditAccessError::Preview(
        NativeEditError::HashMismatch {
            path: String::from("/private/project/secrets.txt"),
            expected_sha256: String::from("expected-secret-hash"),
            actual_sha256: String::from("actual-secret-hash"),
        },
    ));

    assert!(message.contains("hash_mismatch"));
    assert!(!message.contains("/private/project"));
    assert!(!message.contains("expected-secret-hash"));
    assert!(!message.contains("actual-secret-hash"));
}

#[test]
fn local_edit_error_messages_name_each_failure() {
    assert_eq!(
        native_local_edit_error_message(&NativeEditAccessError::PermissionDenied {
            reason: String::from("permission_mode_denied"),
        }),
        "native dogfood: local edit denied: permission_mode_denied"
    );
    assert_eq!(
        native_local_edit_error_message(&NativeEditAccessError::Apply(NativeEditError::Io {
            path: String::from("/secret"),
            reason: String::from("disk full"),
        })),
        "native dogfood: local edit apply failed: io_error"
    );
    assert_eq!(
        native_local_edit_error_message(&NativeEditAccessError::PreviewNotFound),
        "native dogfood: stale local edit preview"
    );
    assert_eq!(
        native_local_edit_error_message(&NativeEditAccessError::DecisionMismatch),
        "native dogfood: stale local edit permission decision"
    );
    assert_eq!(
        native_local_edit_error_message(&NativeEditAccessError::EvidencePersistFailed),
        "native dogfood: failed to persist local edit evidence"
    );
}

#[test]
fn modify_request_becomes_one_hunk_transaction() {
    let parts = native_local_edit_request_from_input(LocalEditOperationInput::ModifyTextFile {
        path: String::from("src/lib.rs"),
        expected_sha256: String::from("abc"),
        find: String::from("old"),
        replace: String::from("new"),
    });
    assert_eq!(parts.path, "src/lib.rs");
    assert_eq!(parts.operation, "modify_text_file");
    assert_eq!(
        parts.request.operations,
        vec![NativeEditOperation::ModifyTextFile {
            path: String::from("src/lib.rs"),
            expected_sha256: String::from("abc"),
            hunks: vec![NativeEditHunk {
                find: String::from("old"),
                replace: String::from("new"),
            }],
        }]
    );
    let create = native_local_edit_request_from_input(LocalEditOperationInput::CreateTextFile {
        path: String::from("notes.txt"),
        content: String::from("hi"),
    });
    assert_eq!(create.operation, "create_text_file");
    assert_eq!(
        create.request.operations,
        vec![NativeEditOperation::CreateTextFile {
            path: String::from("notes.txt"),
            content: String::from("hi"),
        }]
    );
}

#[test]
fn review_states_map_one_to_one() {
    assert_eq!(
        native_local_edit_review_state(&NativeEditAccessReviewState::Allowed),
        LocalEditReviewState::Allowed
    );
    assert_eq!(
        native_local_edit_review_state(&NativeEditAccessReviewState::NeedsUserApproval),
        LocalEditReviewState::NeedsUserApproval
    );
    assert_eq!(
        native_local_edit_review_state(&NativeEditAccessReviewState::AutoReviewUnavailable),
        LocalEditReviewState::AutoReviewUnavailable
    );
}

#[test]
fn local_edit_reports_follow_each_outcome() {
    let denied = NativeEditAccessError::PermissionDenied { reason: String::from("r") };
    assert_eq!(
        native_local_edit_prepare_failure(&denied, true).outcome,
        LocalEditFinishedOutcome::Denied
    );
    assert_eq!(
        native_local_edit_prepare_failure(&denied, false).outcome,
        LocalEditFinishedOutcome::Failed
    );
    assert_eq!(
        native_local_edit_prepare_failure(&NativeEditAccessError::PreviewNotFound, true).outcome,
        LocalEditFinishedOutcome::Failed
    );
    assert_eq!(
        native_local_edit_prepare_persist_failure("disk full").message,
        "native dogfood: failed to persist local edit evidence: disk full"
    );

    let applied = native_local_edit_apply_report(&Ok(true));
    assert_eq!(applied.outcome, LocalEditFinishedOutcome::Applied);
    assert_eq!(applied.message, "native dogfood: local edit applied");
    assert_eq!(
        native_local_edit_apply_report(&Ok(false)).message,
        "native dogfood: local edit applied; completed evidence persist failed"
    );
    assert_eq!(
        native_local_edit_apply_report(&Err(NativeEditAccessError::DecisionMismatch)).outcome,
        LocalEditFinishedOutcome::Failed
    );

    let rejected = native_local_edit_reject_report(&Ok(()), &Ok(()), &Ok(()));
    assert_eq!(rejected.outcome, LocalEditFinishedOutcome::Rejected);
    assert_eq!(rejected.message, "native dogfood: local edit rejected");
    let unavailable =
        native_local_edit_reject_report(&Err(String::from("closed")), &Ok(()), &Ok(()));
    assert_eq!(
        unavailable.message,
        "native dogfood: failed to persist local edit evidence: closed"
    );
    let stale = native_local_edit_reject_report(
        &Ok(()),
        &Err(NativeEditAccessError::PreviewNotFound),
        &Ok(()),
    );
    assert_eq!(stale.message, "native dogfood: stale local edit preview");
}

#[test]
fn preview_summaries_carry_ids_diff_and_review_state() {
    let summary = native_local_edit_preview_summary(
        NativeEditPreview {
            preview_id: String::from("preview-1"),
            transaction_id: String::from("transaction-1"),
            permission_decision_id: String::from("permission-decision-1"),
            review_state: NativeEditAccessReviewState::NeedsUserApproval,
            diff_summary: String::from("+1 -0"),
            diff_summary_truncated: true,
        },
        String::from("src/lib.rs"),
        String::from("edit_text_file"),
    );
    assert_eq!(summary.preview_id, "preview-1");
    assert_eq!(summary.transaction_id, "transaction-1");
    assert_eq!(summary.permission_decision_id, "permission-decision-1");
    assert_eq!(summary.path, "src/lib.rs");
    assert_eq!(summary.operation, "edit_text_file");
    assert_eq!(summary.review_state, LocalEditReviewState::NeedsUserApproval);
    assert_eq!(summary.diff_summary, "+1 -0");
    assert!(summary.diff_summary_truncated);
}
