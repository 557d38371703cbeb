//! Wire-level enums and records that the backend exchanges with its client:
//! approval modes, prompt outcomes, model descriptions and lifecycle results.
use vstd::prelude::*;

verus! {

/// How host commands proposed by the provider are approved.
#[derive(Debug, Clone, Copy, PartialEq, Eq, Structural)]
pub enum ApprovalMode {
    Review,
    AcceptEdits,
    FullAccess,
    AutoReview,
}

/// How a submitted prompt ended.
#[derive(Debug, Clone, Copy, PartialEq, Eq, Structural)]
pub enum PromptOutcome {
    Completed,
    Failed,
    Cancelled,
}

/// A selectable model.
#[derive(Debug, Clone, PartialEq, Eq)]
pub struct ModelInfo {
    pub id: String,
    pub name: String,
    pub provider: String,
}

/// The review state of a prepared local edit, as the client sees it.
#[derive(Debug, Clone, Copy, PartialEq, Eq, Structural)]
pub enum LocalEditReviewState {
    Allowed,
    NeedsUserApproval,
    AutoReviewUnavailable,
}

/// The result of an extension lifecycle request.
#[derive(Debug, Clone, Copy, PartialEq, Eq, Structural)]
pub enum ExtensionLifecycleOutcome {
    Completed,
    NotFound,
    NotActive,
    Failed,
}

/// What a backend announces it can do.
#[derive(Debug, Clone, Copy, PartialEq, Eq, Structural)]
pub enum Capability {
    PromptStreaming,
    PromptCancellation,
    LocalEdit,
    ExtensionLifecycle,
    FirstRenderEvents,
    ToolOutputStreaming,
}

} // verus!
