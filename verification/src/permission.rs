//! The permission decision engine: routes edit, shell and other capability
//! requests through standing restrictions, self-approval and the configured
//! modes, and produces redacted evidence summaries of each decision.
use crate::proto::ApprovalMode;
use crate::review::{
    ActionClass, PolicyRevision, RestrictionMatcher, ReviewPolicy, ReviewRestriction,
};
use crate::shell::{normalized_argv, normalized_argv_of, views};
use crate::text::{
    any_ctrl, append_str, chars_of, decimal, decimal_string, has_prefix, is_ctrl,
    lemma_decimal_injective, opt_index, opt_view, owned, str_eq, str_starts_with, trim, trimmed,
    truncate_chars, truncated,
};
use vstd::prelude::*;

verus! {

pub const RESTRICTION_ASK_FIRST_REASON: &'static str = "restriction_ask_first";
pub const RESTRICTION_HUMAN_PERFORMS_REASON: &'static str = "restriction_human_performs";
pub const REVIEWER_HOLD_RISK_REASON: &'static str = "reviewer_hold_risk";
pub const REVIEWER_HOLD_EVIDENCE_REASON: &'static str = "reviewer_hold_evidence";
pub const REVIEWER_ERROR_REASON: &'static str = "reviewer_error";
pub const REVIEWER_UNAVAILABLE_REASON: &'static str = "reviewer_unavailable";

#[derive(Debug, Clone, PartialEq, Eq)]
pub struct PermissionDecisionId(pub String);

#[derive(Debug, Clone, Copy, PartialEq, Eq, Structural)]
pub enum PermissionCapability {
    EditTransaction,
    ShellCommand,
    NetworkAccess,
    VerificationAction,
    ExtensionTool,
    ProviderVisibleTool,
}

#[derive(Debug, Clone, PartialEq, Eq)]
pub enum PermissionActor {
    UserLocalUi,
    Core,
    Provider,
    Extension { extension_id: String },
}

#[derive(Debug, Clone, Copy, PartialEq, Eq, Structural)]
pub enum PermissionMode {
    Allow,
    Ask,
    Deny,
    AutoReview,
}

#[derive(Debug, Clone, PartialEq, Eq)]
pub enum PermissionReviewer {
    /// Nobody else takes part (the `none` value of the wire format).
    NoReviewer,
    User,
    AutoReview,
    Extension { extension_id: String },
}

#[derive(Debug, Clone, Copy, PartialEq, Eq, Structural)]
pub enum PermissionRisk {
    ReadOnly,
    WorkspaceWrite,
    ExternalWrite,
    Network,
    ProcessExecution,
}

#[derive(Debug, Clone, PartialEq, Eq)]
pub struct PermissionTargetSummary {
    pub operation: String,
    pub resource: String,
}

#[derive(Debug, Clone, PartialEq, Eq)]
pub struct PermissionRequest {
    pub request_id: String,
    pub actor: PermissionActor,
    pub capability: PermissionCapability,
    pub target: PermissionTargetSummary,
    pub risk: PermissionRisk,
    pub requested_reviewer: Option<PermissionReviewer>,
    /// Argv-normalized command when the request has a shell surface.
    /// Restriction matchers read this; absent means match `target.operation`.
    pub command: Option<String>,
}

#[derive(Debug, Clone, PartialEq, Eq)]
pub struct PermissionPolicy {
    pub edit_mode: PermissionMode,
}

#[derive(Debug, Clone, PartialEq, Eq)]
pub enum PermissionDecision {
    Allowed {
        decision_id: PermissionDecisionId,
        reviewer: PermissionReviewer,
        mode: PermissionMode,
        reason: String,
        rationale: Option<String>,
        policy_revision: PolicyRevision,
    },
    Denied {
        decision_id: PermissionDecisionId,
        reviewer: PermissionReviewer,
        mode: PermissionMode,
        reason: String,
        rationale: Option<String>,
        policy_revision: PolicyRevision,
    },
    NeedsUserReview {
        decision_id: PermissionDecisionId,
        reviewer: PermissionReviewer,
        mode: PermissionMode,
        reason: String,
        prompt: PermissionPrompt,
        policy_revision: PolicyRevision,
    },
}

#[derive(Debug, Clone, PartialEq, Eq)]
pub struct PermissionPrompt {
    pub title: String,
    pub body: String,
}

#[derive(Debug, Clone, PartialEq, Eq)]
pub struct PermissionDecisionSummary {
    pub request_id: String,
    pub decision_id: PermissionDecisionId,
    pub actor: PermissionActor,
    pub capability: PermissionCapability,
    pub target: PermissionTargetSummary,
    pub risk: PermissionRisk,
    pub configured_mode: PermissionMode,
    pub approval_mode: Option<ApprovalMode>,
    pub reviewer: PermissionReviewer,
    pub outcome: PermissionDecisionOutcome,
    pub reason: String,
    pub rationale: Option<String>,
    pub user_override: bool,
    /// Restriction-set revision copied into evidence.
    pub policy_revision: PolicyRevision,
    /// Authorization generation copied into evidence.
    pub authorization_revision: u64,
}

#[derive(Debug, Clone, Copy, PartialEq, Eq, Structural)]
pub enum PermissionDecisionOutcome {
    Allowed,
    Denied,
    NeedsUserReview,
}

/// The source of decision identifiers: `permission-decision-{n}` for a
/// counter `n` that advances by one (wrapping) per decision.
#[derive(Debug)]
pub struct PermissionDecisionCounter {
    pub next: u64,
}

pub struct PermissionDecisionEngine;

// ---------------------------------------------------------------------------
// Views
// ---------------------------------------------------------------------------

pub enum ReviewerView {
    NoReviewer,
    User,
    AutoReview,
    Extension(Seq<char>),
}

pub enum ActorView {
    UserLocalUi,
    Core,
    Provider,
    Extension(Seq<char>),
}

pub struct PromptView {
    pub title: Seq<char>,
    pub body: Seq<char>,
}

/// A decision with its text fields taken by their characters.
pub struct DecisionView {
    pub outcome: PermissionDecisionOutcome,
    pub decision_id: Seq<char>,
    pub reviewer: ReviewerView,
    pub mode: PermissionMode,
    pub reason: Seq<char>,
    pub rationale: Option<Seq<char>>,
    pub prompt: Option<PromptView>,
    pub policy_revision: u64,
}

pub struct SummaryView {
    pub request_id: Seq<char>,
    pub decision_id: Seq<char>,
    pub actor: ActorView,
    pub capability: PermissionCapability,
    pub operation: Seq<char>,
    pub resource: Seq<char>,
    pub risk: PermissionRisk,
    pub configured_mode: PermissionMode,
    pub approval_mode: Option<ApprovalMode>,
    pub reviewer: ReviewerView,
    pub outcome: PermissionDecisionOutcome,
    pub reason: Seq<char>,
    pub rationale: Option<Seq<char>>,
    pub user_override: bool,
    pub policy_revision: u64,
    pub authorization_revision: u64,
}

impl View for PermissionReviewer {
    type V = ReviewerView;

    open spec fn view(&self) -> ReviewerView {
        match self {
            PermissionReviewer::NoReviewer => ReviewerView::NoReviewer,
            PermissionReviewer::User => ReviewerView::User,
            PermissionReviewer::AutoReview => ReviewerView::AutoReview,
            PermissionReviewer::Extension { extension_id } => ReviewerView::Extension(
                extension_id@,
            ),
        }
    }
}

impl View for PermissionActor {
    type V = ActorView;

    open spec fn view(&self) -> ActorView {
        match self {
            PermissionActor::UserLocalUi => ActorView::UserLocalUi,
            PermissionActor::Core => ActorView::Core,
            PermissionActor::Provider => ActorView::Provider,
            PermissionActor::Extension { extension_id } => ActorView::Extension(extension_id@),
        }
    }
}

impl View for PermissionPrompt {
    type V = PromptView;

    open spec fn view(&self) -> PromptView {
        PromptView { title: self.title@, body: self.body@ }
    }
}

impl View for PermissionDecision {
    type V = DecisionView;

    open spec fn view(&self) -> DecisionView {
        match self {
            PermissionDecision::Allowed {
                decision_id,
                reviewer,
                mode,
                reason,
                rationale,
                policy_revision,
            } => DecisionView {
                outcome: PermissionDecisionOutcome::Allowed,
                decision_id: decision_id.0@,
                reviewer: reviewer@,
                mode: *mode,
                reason: reason@,
                rationale: opt_view(*rationale),
                prompt: None,
                policy_revision: policy_revision.0,
            },
            PermissionDecision::Denied {
                decision_id,
                reviewer,
                mode,
                reason,
                rationale,
                policy_revision,
            } => DecisionView {
                outcome: PermissionDecisionOutcome::Denied,
                decision_id: decision_id.0@,
                reviewer: reviewer@,
                mode: *mode,
                reason: reason@,
                rationale: opt_view(*rationale),
                prompt: None,
                policy_revision: policy_revision.0,
            },
            PermissionDecision::NeedsUserReview {
                decision_id,
                reviewer,
                mode,
                reason,
                prompt,
                policy_revision,
            } => DecisionView {
                outcome: PermissionDecisionOutcome::NeedsUserReview,
                decision_id: decision_id.0@,
                reviewer: reviewer@,
                mode: *mode,
                reason: reason@,
                rationale: None,
                prompt: Some(prompt@),
                policy_revision: policy_revision.0,
            },
        }
    }
}

impl View for PermissionDecisionSummary {
    type V = SummaryView;

    open spec fn view(&self) -> SummaryView {
        SummaryView {
            request_id: self.request_id@,
            decision_id: self.decision_id.0@,
            actor: self.actor@,
            capability: self.capability,
            operation: self.target.operation@,
            resource: self.target.resource@,
            risk: self.risk,
            configured_mode: self.configured_mode,
            approval_mode: self.approval_mode,
            reviewer: self.reviewer@,
            outcome: self.outcome,
            reason: self.reason@,
            rationale: opt_view(self.rationale),
            user_override: self.user_override,
            policy_revision: self.policy_revision.0,
            authorization_revision: self.authorization_revision,
        }
    }
}

// ---------------------------------------------------------------------------
// Restriction matching
// ---------------------------------------------------------------------------

/// The commands a request offers to restriction matchers: the explicit
/// command when non-empty, then, for shell requests, the non-empty operation.
pub open spec fn command_candidates(request: PermissionRequest) -> Seq<Seq<char>> {
    let explicit = match request.command {
        Some(c) => if c@.len() > 0 {
            seq![c@]
        } else {
            seq![]
        },
        None => seq![],
    };
    let operation = if request.capability == PermissionCapability::ShellCommand
        && request.target.operation@.len() > 0 {
        seq![request.target.operation@]
    } else {
        seq![]
    };
    explicit + operation
}

/// The prefix's argv is non-empty and begins the command's argv.
pub open spec fn command_prefix_matches(command: Seq<char>, prefix: Seq<char>) -> bool {
    let c = normalized_argv(command);
    let p = normalized_argv(prefix);
    &&& p.len() > 0
    &&& c.len() >= p.len()
    &&& forall|i: int| 0 <= i < p.len() ==> c[i] == p[i]
}

/// What `std::path::Path::starts_with` returns for `path` and `base`:
/// whether `base`'s components form a prefix of `path`'s.
pub uninterp spec fn std_path_starts_with(path: Seq<char>, base: Seq<char>) -> bool;

/// Calls `Path::starts_with`; its result is named by `std_path_starts_with`.
#[verifier::external_body]
fn path_starts_with(path: &str, base: &str) -> (b: bool)
    ensures
        b == std_path_starts_with(path@, base@),
{
    std::path::Path::new(path).starts_with(std::path::Path::new(base))
}

/// What `Path::is_absolute` returns for `path`.
pub uninterp spec fn std_path_is_absolute(path: Seq<char>) -> bool;

/// Whether `Path::components` of `path` yields a `Component::ParentDir`.
pub uninterp spec fn std_path_has_parent_dir(path: Seq<char>) -> bool;

/// Calls `Path::is_absolute`; its result is named by `std_path_is_absolute`.
#[verifier::external_body]
fn path_is_absolute(path: &str) -> (b: bool)
    ensures
        b == std_path_is_absolute(path@),
{
    std::path::Path::new(path).is_absolute()
}

/// Walks `Path::components`, telling `ParentDir` from the other variants;
/// the result is named by `std_path_has_parent_dir`.
#[verifier::external_body]
fn path_has_parent_dir(path: &str) -> (b: bool)
    ensures
        b == std_path_has_parent_dir(path@),
{
    std::path::Path::new(path).components().any(|c| matches!(c, std::path::Component::ParentDir))
}

/// Both trimmed paths are non-empty and the prefix is a component-wise
/// prefix of the resource.
pub open spec fn path_prefix_matches(resource: Seq<char>, prefix: Seq<char>) -> bool {
    let r = trim(resource);
    let p = trim(prefix);
    p.len() > 0 && r.len() > 0 && std_path_starts_with(r, p)
}

/// The action class recognized from a command's first two argv words.
pub open spec fn inferred_action_class(command: Seq<char>) -> Option<ActionClass> {
    let argv = normalized_argv(command);
    if argv.len() == 0 {
        None
    } else {
        let first = argv[0];
        let has_second = argv.len() > 1;
        let second = argv[1];
        if first == "nixos-rebuild"@ || first == "darwin-rebuild"@ {
            Some(ActionClass::HostActivation)
        } else if (first == "cargo"@ || first == "npm"@ || first == "pnpm"@ || first == "yarn"@)
            && has_second && second == "publish"@ {
            Some(ActionClass::ExternalPublish)
        } else if ((first == "cargo"@ || first == "brew"@) && has_second && second == "install"@)
            || first == "nix-env"@ {
            Some(ActionClass::PersistentInstall)
        } else if first == "nix"@ && has_second && second == "profile"@ {
            Some(ActionClass::PersistentInstall)
        } else if first == "rm"@ || first == "shred"@ || (first == "git"@ && has_second && second
            == "clean"@) {
            Some(ActionClass::DestructiveDelete)
        } else {
            None
        }
    }
}

pub open spec fn restriction_matches(
    restriction: ReviewRestriction,
    request: PermissionRequest,
) -> bool {
    let candidates = command_candidates(request);
    match restriction.matcher() {
        RestrictionMatcher::CommandPrefix { prefix } => exists|i: int|
            0 <= i < candidates.len() && command_prefix_matches(#[trigger] candidates[i], prefix@),
        RestrictionMatcher::PathPrefix { prefix } => path_prefix_matches(
            request.target.resource@,
            prefix@,
        ),
        RestrictionMatcher::ActionClass { class } => exists|i: int|
            0 <= i < candidates.len() && inferred_action_class(#[trigger] candidates[i]) == Some(
                class,
            ),
    }
}

/// The first restriction in `rs` that matches the request (and, when
/// `human_only`, is a `HumanPerforms`).
pub open spec fn first_match(
    rs: Seq<ReviewRestriction>,
    request: PermissionRequest,
    human_only: bool,
) -> Option<int>
    decreases rs.len(),
{
    if rs.len() == 0 {
        None
    } else {
        match first_match(rs.drop_last(), request, human_only) {
            Some(i) => Some(i),
            None => if restriction_matches(rs.last(), request) && (!human_only
                || rs.last().is_human()) {
                Some(rs.len() - 1)
            } else {
                None
            },
        }
    }
}

/// The strongest matching restriction of a set: the first matching
/// `HumanPerforms`, else the first matching restriction.
pub open spec fn strongest_match(rs: Seq<ReviewRestriction>, request: PermissionRequest) -> Option<
    int,
> {
    match first_match(rs, request, true) {
        Some(i) => Some(i),
        None => first_match(rs, request, false),
    }
}

/// The restriction that holds a request: a global `HumanPerforms`, else a
/// project `HumanPerforms`, else a global match, else a project match.
pub open spec fn selected_restriction(policy: ReviewPolicy, request: PermissionRequest) -> Option<
    ReviewRestriction,
> {
    let g = strongest_match(policy.global@, request);
    let p = strongest_match(policy.project@, request);
    if g is Some && policy.global@[g->0].is_human() {
        Some(policy.global@[g->0])
    } else if p is Some && policy.project@[p->0].is_human() {
        Some(policy.project@[p->0])
    } else if g is Some {
        Some(policy.global@[g->0])
    } else if p is Some {
        Some(policy.project@[p->0])
    } else {
        None
    }
}

// ---------------------------------------------------------------------------
// Decisions
// ---------------------------------------------------------------------------

/// The text of the `n`-th decision identifier.
pub open spec fn decision_id_text(n: u64) -> Seq<char> {
    "permission-decision-"@ + decimal(n as nat)
}

/// The counter value after one decision.
pub open spec fn counter_after(n: u64) -> u64 {
    if n == u64::MAX {
        0
    } else {
        (n + 1) as u64
    }
}

pub open spec fn allowed_view(
    id: Seq<char>,
    reviewer: ReviewerView,
    mode: PermissionMode,
    reason: Seq<char>,
    revision: u64,
) -> DecisionView {
    DecisionView {
        outcome: PermissionDecisionOutcome::Allowed,
        decision_id: id,
        reviewer,
        mode,
        reason,
        rationale: None,
        prompt: None,
        policy_revision: revision,
    }
}

pub open spec fn denied_view(
    id: Seq<char>,
    mode: PermissionMode,
    reason: Seq<char>,
    revision: u64,
) -> DecisionView {
    DecisionView {
        outcome: PermissionDecisionOutcome::Denied,
        decision_id: id,
        reviewer: ReviewerView::NoReviewer,
        mode,
        reason,
        rationale: None,
        prompt: None,
        policy_revision: revision,
    }
}

pub open spec fn review_view(
    id: Seq<char>,
    reviewer: ReviewerView,
    mode: PermissionMode,
    reason: Seq<char>,
    prompt: PromptView,
    revision: u64,
) -> DecisionView {
    DecisionView {
        outcome: PermissionDecisionOutcome::NeedsUserReview,
        decision_id: id,
        reviewer,
        mode,
        reason,
        rationale: None,
        prompt: Some(prompt),
        policy_revision: revision,
    }
}

/// `Approve {operation}` / `{operation} on {resource}`.
pub open spec fn permission_prompt_view(request: PermissionRequest) -> PromptView {
    PromptView {
        title: "Approve "@ + request.target.operation@,
        body: request.target.operation@ + " on "@ + request.target.resource@,
    }
}

/// The prompt of a restriction hold: its title cut to 128 characters and
/// its note cut to 512.
pub open spec fn restriction_prompt_view(
    request: PermissionRequest,
    restriction: ReviewRestriction,
) -> PromptView {
    let title = if restriction.is_human() {
        "Human performs this action"@
    } else {
        "Approve "@ + request.target.operation@
    };
    PromptView { title: truncated(title, 128), body: truncated(restriction.note_view(), 512) }
}

/// The hold a matching restriction produces.
pub open spec fn restriction_decision_view(
    request: PermissionRequest,
    restriction: ReviewRestriction,
    revision: u64,
    id: Seq<char>,
) -> DecisionView {
    let reason = if restriction.is_human() {
        "restriction_human_performs"@
    } else {
        "restriction_ask_first"@
    };
    review_view(
        id,
        ReviewerView::User,
        PermissionMode::Ask,
        reason,
        restriction_prompt_view(request, restriction),
        revision,
    )
}

/// An extension names itself to approve its own request.
pub open spec fn extension_self_approval(request: PermissionRequest) -> bool {
    match (request.actor, request.requested_reviewer) {
        (
            PermissionActor::Extension { extension_id: a },
            Some(PermissionReviewer::Extension { extension_id: b }),
        ) => a@ == b@,
        _ => false,
    }
}

/// The decision a permission mode gives.
pub open spec fn mode_decision_view(
    request: PermissionRequest,
    mode: PermissionMode,
    revision: u64,
    id: Seq<char>,
) -> DecisionView {
    match mode {
        PermissionMode::Allow => allowed_view(
            id,
            ReviewerView::NoReviewer,
            mode,
            "permission_mode_allowed"@,
            revision,
        ),
        PermissionMode::Ask => review_view(
            id,
            ReviewerView::User,
            mode,
            "permission_mode_ask"@,
            permission_prompt_view(request),
            revision,
        ),
        PermissionMode::Deny => denied_view(id, mode, "permission_mode_denied"@, revision),
        PermissionMode::AutoReview => review_view(
            id,
            ReviewerView::AutoReview,
            mode,
            "route_to_reviewer"@,
            permission_prompt_view(request),
            revision,
        ),
    }
}

/// What `decide` answers, with `id` the identifier it issues.
pub open spec fn decide_view(
    request: PermissionRequest,
    edit_mode: PermissionMode,
    review: ReviewPolicy,
    id: Seq<char>,
) -> DecisionView {
    let revision = review.revision.0;
    match selected_restriction(review, request) {
        Some(r) => restriction_decision_view(request, r, revision, id),
        None => if extension_self_approval(request) {
            denied_view(id, edit_mode, "extension_self_approval_denied"@, revision)
        } else if request.capability == PermissionCapability::EditTransaction {
            if request.risk == PermissionRisk::WorkspaceWrite {
                mode_decision_view(request, edit_mode, revision, id)
            } else {
                denied_view(id, edit_mode, "permission_risk_denied"@, revision)
            }
        } else {
            mode_decision_view(request, PermissionMode::Deny, revision, id)
        },
    }
}

/// What `decide_shell` answers, with `id` the identifier it issues.
pub open spec fn decide_shell_view(
    request: PermissionRequest,
    approval_mode: ApprovalMode,
    user_allowlisted: bool,
    session_granted: bool,
    review: ReviewPolicy,
    id: Seq<char>,
) -> DecisionView {
    let revision = review.revision.0;
    match selected_restriction(review, request) {
        Some(r) => restriction_decision_view(request, r, revision, id),
        None => if request.capability != PermissionCapability::ShellCommand || request.risk
            != PermissionRisk::ProcessExecution {
            denied_view(id, PermissionMode::Deny, "permission_risk_denied"@, revision)
        } else if user_allowlisted {
            allowed_view(
                id,
                ReviewerView::NoReviewer,
                PermissionMode::Allow,
                "shell_user_allowlist"@,
                revision,
            )
        } else if session_granted {
            allowed_view(
                id,
                ReviewerView::User,
                PermissionMode::Allow,
                "shell_session_grant"@,
                revision,
            )
        } else {
            match approval_mode {
                ApprovalMode::Review | ApprovalMode::AcceptEdits => review_view(
                    id,
                    ReviewerView::User,
                    PermissionMode::Ask,
                    "approval_mode_requires_review"@,
                    permission_prompt_view(request),
                    revision,
                ),
                ApprovalMode::FullAccess => allowed_view(
                    id,
                    ReviewerView::NoReviewer,
                    PermissionMode::Allow,
                    "approval_mode_full_access"@,
                    revision,
                ),
                ApprovalMode::AutoReview => review_view(
                    id,
                    ReviewerView::AutoReview,
                    PermissionMode::AutoReview,
                    "route_to_reviewer"@,
                    permission_prompt_view(request),
                    revision,
                ),
            }
        },
    }
}

// ---------------------------------------------------------------------------
// Executable matching
// ---------------------------------------------------------------------------

fn command_candidates_of(request: &PermissionRequest) -> (c: Vec<String>)
    ensures
        views(c@) == command_candidates(*request),
{
    let mut c: Vec<String> = Vec::new();
    match &request.command {
        Some(command) => {
            if !command.as_str().is_empty() {
                c.push(command.clone());
            }
        },
        None => {},
    }
    let ghost explicit = c@;
    if request.capability == PermissionCapability::ShellCommand
        && !request.target.operation.as_str().is_empty() {
        c.push(request.target.operation.clone());
    }
    assert(views(c@) =~= command_candidates(*request));
    c
}

fn command_prefix_matches_of(command: &str, prefix: &str) -> (b: bool)
    ensures
        b == command_prefix_matches(command@, prefix@),
{
    let c = normalized_argv_of(command);
    let p = normalized_argv_of(prefix);
    if p.len() == 0 || c.len() < p.len() {
        return false;
    }
    let mut i: usize = 0;
    while i < p.len()
        invariant
            c.len() >= p.len(),
            i <= p.len(),
            views(c@) == normalized_argv(command@),
            views(p@) == normalized_argv(prefix@),
            forall|k: int| 0 <= k < i ==> views(c@)[k] == views(p@)[k],
        decreases p.len() - i,
    {
        if c[i] != p[i] {
            assert(views(c@)[i as int] != views(p@)[i as int]);
            return false;
        }
        i = i + 1;
    }
    true
}

fn path_prefix_matches_of(resource: &str, prefix: &str) -> (b: bool)
    ensures
        b == path_prefix_matches(resource@, prefix@),
{
    let r = trimmed(resource);
    let p = trimmed(prefix);
    if p.as_str().is_empty() || r.as_str().is_empty() {
        return false;
    }
    path_starts_with(r.as_str(), p.as_str())
}

fn argv_word_is(argv: &Vec<String>, index: usize, word: &str) -> (b: bool)
    ensures
        b == (index < argv@.len() && argv@[index as int]@ == word@),
{
    index < argv.len() && str_eq(argv[index].as_str(), word)
}

fn inferred_action_class_of(command: &str) -> (r: Option<ActionClass>)
    ensures
        r == inferred_action_class(command@),
{
    let argv = normalized_argv_of(command);
    if argv.len() == 0 {
        return None;
    }
    assert(views(argv@)[0] == argv@[0]@);
    assert(argv.len() > 1 ==> views(argv@)[1] == argv@[1]@);
    if argv_word_is(&argv, 0, "nixos-rebuild") || argv_word_is(&argv, 0, "darwin-rebuild") {
        Some(ActionClass::HostActivation)
    } else if (argv_word_is(&argv, 0, "cargo") || argv_word_is(&argv, 0, "npm") || argv_word_is(
        &argv,
        0,
        "pnpm",
    ) || argv_word_is(&argv, 0, "yarn")) && argv_word_is(&argv, 1, "publish") {
        Some(ActionClass::ExternalPublish)
    } else if ((argv_word_is(&argv, 0, "cargo") || argv_word_is(&argv, 0, "brew"))
        && argv_word_is(&argv, 1, "install")) || argv_word_is(&argv, 0, "nix-env") {
        Some(ActionClass::PersistentInstall)
    } else if argv_word_is(&argv, 0, "nix") && argv_word_is(&argv, 1, "profile") {
        Some(ActionClass::PersistentInstall)
    } else if argv_word_is(&argv, 0, "rm") || argv_word_is(&argv, 0, "shred") || (argv_word_is(
        &argv,
        0,
        "git",
    ) && argv_word_is(&argv, 1, "clean")) {
        Some(ActionClass::DestructiveDelete)
    } else {
        None
    }
}

fn restriction_matches_of(restriction: &ReviewRestriction, request: &PermissionRequest) -> (b:
    bool)
    ensures
        b == restriction_matches(*restriction, *request),
{
    let matcher = match restriction {
        ReviewRestriction::AskFirst { matcher, .. } => matcher,
        ReviewRestriction::HumanPerforms { matcher, .. } => matcher,
    };
    match matcher {
        RestrictionMatcher::CommandPrefix { prefix } => {
            let candidates = command_candidates_of(request);
            let mut i: usize = 0;
            while i < candidates.len()
                invariant
                    i <= candidates.len(),
                    views(candidates@) == command_candidates(*request),
                    restriction.matcher() == (RestrictionMatcher::CommandPrefix { prefix: *prefix }),
                    forall|k: int|
                        0 <= k < i ==> !command_prefix_matches(
                            #[trigger] command_candidates(*request)[k],
                            prefix@,
                        ),
                decreases candidates.len() - i,
            {
                if command_prefix_matches_of(candidates[i].as_str(), prefix.as_str()) {
                    assert(command_candidates(*request)[i as int] == candidates@[i as int]@);
                    assert(command_prefix_matches(command_candidates(*request)[i as int], prefix@));
                    return true;
                }
                assert(command_candidates(*request)[i as int] == candidates@[i as int]@);
                i = i + 1;
            }
            false
        },
        RestrictionMatcher::PathPrefix { prefix } => path_prefix_matches_of(
            request.target.resource.as_str(),
            prefix.as_str(),
        ),
        RestrictionMatcher::ActionClass { class } => {
            let candidates = command_candidates_of(request);
            let mut i: usize = 0;
            while i < candidates.len()
                invariant
                    i <= candidates.len(),
                    views(candidates@) == command_candidates(*request),
                    restriction.matcher() == (RestrictionMatcher::ActionClass { class: *class }),
                    forall|k: int|
                        0 <= k < i ==> inferred_action_class(
                            #[trigger] command_candidates(*request)[k],
                        ) != Some(*class),
                decreases candidates.len() - i,
            {
                let inferred = inferred_action_class_of(candidates[i].as_str());
                assert(command_candidates(*request)[i as int] == candidates@[i as int]@);
                match inferred {
                    Some(found) => {
                        if found == *class {
                            assert(inferred_action_class(command_candidates(*request)[i as int])
                                == Some(*class));
                                    return true;
                        }
                    },
                    None => {},
                }
                i = i + 1;
            }
            false
        },
    }
}

proof fn lemma_first_match(rs: Seq<ReviewRestriction>, request: PermissionRequest, human_only: bool)
    ensures
        match first_match(rs, request, human_only) {
            Some(j) => 0 <= j < rs.len() && restriction_matches(rs[j], request) && (!human_only
                || rs[j].is_human()),
            None => forall|k: int|
                0 <= k < rs.len() ==> !(restriction_matches(#[trigger] rs[k], request) && (
                !human_only || rs[k].is_human())),
        },
    decreases rs.len(),
{
    if rs.len() > 0 {
        lemma_first_match(rs.drop_last(), request, human_only);
        match first_match(rs.drop_last(), request, human_only) {
            Some(j) => {
                assert(rs.drop_last()[j] == rs[j]);
            },
            None => {
                assert forall|k: int|
                    0 <= k < rs.len() - 1 implies !(restriction_matches(#[trigger] rs[k], request)
                    && (!human_only || rs[k].is_human())) by {
                    assert(rs.drop_last()[k] == rs[k]);
                }
            },
        }
    }
}

fn strongest_match_of(rs: &Vec<ReviewRestriction>, request: &PermissionRequest) -> (r: Option<
    usize,
>)
    ensures
        opt_index(r) == strongest_match(rs@, *request),
        r matches Some(i) ==> i < rs@.len(),
{
    let mut selected: Option<usize> = None;
    let mut i: usize = 0;
    assert(rs@.subrange(0, 0).len() == 0);
    while i < rs.len()
        invariant
            i <= rs@.len(),
            opt_index(selected) == strongest_match(rs@.subrange(0, i as int), *request),
            selected matches Some(j) ==> j < i,
        decreases rs.len() - i,
    {
        let ghost before = rs@.subrange(0, i as int);
        let ghost after = rs@.subrange(0, i + 1);
        assert(after.drop_last() =~= before);
        assert(after.last() == rs@[i as int]);
        proof {
            lemma_first_match(before, *request, true);
            lemma_first_match(before, *request, false);
        }
        if restriction_matches_of(&rs[i], request) {
            let replace = match selected {
                None => true,
                Some(j) => {
                    assert(before[j as int] == rs@[j as int]);
                    match (&rs[j], &rs[i]) {
                        (ReviewRestriction::AskFirst { .. }, ReviewRestriction::HumanPerforms {
                            ..
                        }) => true,
                        _ => false,
                    }
                },
            };
            if replace {
                selected = Some(i);
            }
        }
        i = i + 1;
    }
    assert(rs@.subrange(0, rs@.len() as int) =~= rs@);
    selected
}

/// Which restriction holds the request: `(true, i)` for `global[i]`,
/// `(false, i)` for `project[i]`.
fn selected_restriction_of(policy: &ReviewPolicy, request: &PermissionRequest) -> (r: Option<
    (bool, usize),
>)
    ensures
        match r {
            Some((true, i)) => i < policy.global@.len() && selected_restriction(*policy, *request)
                == Some(policy.global@[i as int]),
            Some((false, i)) => i < policy.project@.len() && selected_restriction(
                *policy,
                *request,
            ) == Some(policy.project@[i as int]),
            None => selected_restriction(*policy, *request) is None,
        },
{
    let g = strongest_match_of(&policy.global, request);
    let p = strongest_match_of(&policy.project, request);
    match g {
        Some(gi) => {
            if let ReviewRestriction::HumanPerforms { .. } = &policy.global[gi] {
                return Some((true, gi));
            }
        },
        None => {},
    }
    match p {
        Some(pi) => {
            if let ReviewRestriction::HumanPerforms { .. } = &policy.project[pi] {
                return Some((false, pi));
            }
        },
        None => {},
    }
    match g {
        Some(gi) => Some((true, gi)),
        None => match p {
            Some(pi) => Some((false, pi)),
            None => None,
        },
    }
}

// ---------------------------------------------------------------------------
// Executable decisions
// ---------------------------------------------------------------------------

impl PermissionDecisionCounter {
    pub fn new() -> (c: Self)
        ensures
            c.next == 0,
    {
        PermissionDecisionCounter { next: 0 }
    }

    /// Issues `permission-decision-{next}` and advances the counter.
    pub fn next_id(&mut self) -> (id: PermissionDecisionId)
        ensures
            id.0@ == decision_id_text(old(self).next),
            final(self).next == counter_after(old(self).next),
    {
        let n = self.next;
        self.next = if n == u64::MAX {
            0
        } else {
            n + 1
        };
        let mut text = String::from_str("permission-decision-");
        let digits = decimal_string(n);
        append_str(&mut text, digits.as_str());
        PermissionDecisionId(text)
    }
}

impl PermissionPolicy {
    pub fn for_edit_mode(edit_mode: PermissionMode) -> (p: Self)
        ensures
            p.edit_mode == edit_mode,
    {
        Self { edit_mode }
    }

    pub fn default_local_edit() -> (p: Self)
        ensures
            p.edit_mode == PermissionMode::Ask,
    {
        Self { edit_mode: PermissionMode::Ask }
    }
}

fn permission_prompt(request: &PermissionRequest) -> (p: PermissionPrompt)
    ensures
        p@ == permission_prompt_view(*request),
{
    let mut title = String::from_str("Approve ");
    append_str(&mut title, request.target.operation.as_str());
    let mut body = request.target.operation.clone();
    append_str(&mut body, " on ");
    append_str(&mut body, request.target.resource.as_str());
    PermissionPrompt { title, body }
}

fn restriction_prompt(request: &PermissionRequest, restriction: &ReviewRestriction) -> (p:
    PermissionPrompt)
    ensures
        p@ == restriction_prompt_view(*request, *restriction),
{
    let (title, note) = match restriction {
        ReviewRestriction::HumanPerforms { note, .. } => (
            String::from_str("Human performs this action"),
            note,
        ),
        ReviewRestriction::AskFirst { note, .. } => {
            let mut title = String::from_str("Approve ");
            append_str(&mut title, request.target.operation.as_str());
            (title, note)
        },
    };
    PermissionPrompt {
        title: truncate_chars(title.as_str(), 128),
        body: truncate_chars(note.as_str(), 512),
    }
}

fn extension_self_approval_requested(request: &PermissionRequest) -> (b: bool)
    ensures
        b == extension_self_approval(*request),
{
    match (&request.actor, &request.requested_reviewer) {
        (
            PermissionActor::Extension { extension_id: actor },
            Some(PermissionReviewer::Extension { extension_id: reviewer }),
        ) => *actor == *reviewer,
        _ => false,
    }
}

fn mode_decision(
    request: &PermissionRequest,
    mode: PermissionMode,
    revision: PolicyRevision,
    decision_id: PermissionDecisionId,
) -> (d: PermissionDecision)
    ensures
        d@ == mode_decision_view(*request, mode, revision.0, decision_id.0@),
{
    match mode {
        PermissionMode::Allow => PermissionDecision::Allowed {
            decision_id,
            reviewer: PermissionReviewer::NoReviewer,
            mode,
            reason: String::from_str("permission_mode_allowed"),
            rationale: None,
            policy_revision: revision,
        },
        PermissionMode::Ask => PermissionDecision::NeedsUserReview {
            decision_id,
            reviewer: PermissionReviewer::User,
            mode,
            reason: String::from_str("permission_mode_ask"),
            prompt: permission_prompt(request),
            policy_revision: revision,
        },
        PermissionMode::Deny => PermissionDecision::Denied {
            decision_id,
            reviewer: PermissionReviewer::NoReviewer,
            mode,
            reason: String::from_str("permission_mode_denied"),
            rationale: None,
            policy_revision: revision,
        },
        PermissionMode::AutoReview => PermissionDecision::NeedsUserReview {
            decision_id,
            reviewer: PermissionReviewer::AutoReview,
            mode,
            reason: String::from_str("route_to_reviewer"),
            prompt: permission_prompt(request),
            policy_revision: revision,
        },
    }
}

fn denied(
    decision_id: PermissionDecisionId,
    mode: PermissionMode,
    reason: &str,
    revision: PolicyRevision,
) -> (d: PermissionDecision)
    ensures
        d@ == denied_view(decision_id.0@, mode, reason@, revision.0),
{
    PermissionDecision::Denied {
        decision_id,
        reviewer: PermissionReviewer::NoReviewer,
        mode,
        reason: owned(reason),
        rationale: None,
        policy_revision: revision,
    }
}

fn allowed(
    decision_id: PermissionDecisionId,
    reviewer: PermissionReviewer,
    reason: &str,
    revision: PolicyRevision,
) -> (d: PermissionDecision)
    ensures
        d@ == allowed_view(decision_id.0@, reviewer@, PermissionMode::Allow, reason@, revision.0),
{
    PermissionDecision::Allowed {
        decision_id,
        reviewer,
        mode: PermissionMode::Allow,
        reason: owned(reason),
        rationale: None,
        policy_revision: revision,
    }
}

impl PermissionDecision {
    /// The identifier of the decision, whatever its outcome.
    pub fn decision_id(&self) -> (id: PermissionDecisionId)
        ensures
            id.0@ == self@.decision_id,
    {
        match self {
            PermissionDecision::Allowed { decision_id, .. } => PermissionDecisionId(
                decision_id.0.clone(),
            ),
            PermissionDecision::Denied { decision_id, .. } => PermissionDecisionId(
                decision_id.0.clone(),
            ),
            PermissionDecision::NeedsUserReview { decision_id, .. } => PermissionDecisionId(
                decision_id.0.clone(),
            ),
        }
    }
}

impl PermissionDecisionEngine {
    /// Standing user restrictions. `None` means no restriction matches.
    /// Global matches are considered before project matches; a project entry
    /// can add a hold but cannot relax a global `HumanPerforms`. An
    /// identifier is issued only when a restriction holds.
    pub fn check_restrictions(
        request: &PermissionRequest,
        policy: &ReviewPolicy,
        counter: &mut PermissionDecisionCounter,
    ) -> (r: Option<PermissionDecision>)
        ensures
            match selected_restriction(*policy, *request) {
                Some(restriction) => {
                    &&& r is Some
                    &&& r->0@ == restriction_decision_view(
                        *request,
                        restriction,
                        policy.revision.0,
                        decision_id_text(old(counter).next),
                    )
                    &&& final(counter).next == counter_after(old(counter).next)
                },
                None => r is None && final(counter).next == old(counter).next,
            },
    {
        let selected = selected_restriction_of(policy, request);
        let restriction = match selected {
            Some((true, i)) => &policy.global[i],
            Some((false, i)) => &policy.project[i],
            None => {
                return None;
            },
        };
        let reason = match restriction {
            ReviewRestriction::AskFirst { .. } => String::from_str("restriction_ask_first"),
            ReviewRestriction::HumanPerforms { .. } => String::from_str(
                "restriction_human_performs",
            ),
        };
        let decision_id = counter.next_id();
        Some(
            PermissionDecision::NeedsUserReview {
                decision_id,
                reviewer: PermissionReviewer::User,
                mode: PermissionMode::Ask,
                reason,
                prompt: restriction_prompt(request, restriction),
                policy_revision: policy.revision,
            },
        )
    }

    /// Routes a request through restrictions, the self-approval guard and
    /// the edit mode. Exactly one identifier is issued.
    pub fn decide(
        request: &PermissionRequest,
        policy: &PermissionPolicy,
        review_policy: &ReviewPolicy,
        counter: &mut PermissionDecisionCounter,
    ) -> (d: PermissionDecision)
        ensures
            d@ == decide_view(
                *request,
                policy.edit_mode,
                *review_policy,
                decision_id_text(old(counter).next),
            ),
            final(counter).next == counter_after(old(counter).next),
    {
        let held = Self::check_restrictions(request, review_policy, counter);
        if let Some(decision) = held {
            return decision;
        }
        let revision = review_policy.revision;
        if extension_self_approval_requested(request) {
            return denied(
                counter.next_id(),
                policy.edit_mode,
                "extension_self_approval_denied",
                revision,
            );
        }
        let mode = match request.capability {
            PermissionCapability::EditTransaction => {
                if request.risk == PermissionRisk::WorkspaceWrite {
                    policy.edit_mode
                } else {
                    return denied(
                        counter.next_id(),
                        policy.edit_mode,
                        "permission_risk_denied",
                        revision,
                    );
                }
            },
            PermissionCapability::ShellCommand
            | PermissionCapability::NetworkAccess
            | PermissionCapability::VerificationAction
            | PermissionCapability::ExtensionTool
            | PermissionCapability::ProviderVisibleTool => PermissionMode::Deny,
        };
        mode_decision(request, mode, revision, counter.next_id())
    }

    /// Resolves one provider-originated host command through restrictions,
    /// the authoritative user allowlist, a session grant and the approval
    /// mode. Exactly one identifier is issued.
    pub fn decide_shell(
        request: &PermissionRequest,
        approval_mode: ApprovalMode,
        user_allowlisted: bool,
        session_granted: bool,
        review_policy: &ReviewPolicy,
        counter: &mut PermissionDecisionCounter,
    ) -> (d: PermissionDecision)
        ensures
            d@ == decide_shell_view(
                *request,
                approval_mode,
                user_allowlisted,
                session_granted,
                *review_policy,
                decision_id_text(old(counter).next),
            ),
            final(counter).next == counter_after(old(counter).next),
    {
        let held = Self::check_restrictions(request, review_policy, counter);
        if let Some(decision) = held {
            return decision;
        }
        let revision = review_policy.revision;
        if request.capability != PermissionCapability::ShellCommand || request.risk
            != PermissionRisk::ProcessExecution {
            return denied(counter.next_id(), PermissionMode::Deny, "permission_risk_denied", revision);
        }
        if user_allowlisted {
            return allowed(
                counter.next_id(),
                PermissionReviewer::NoReviewer,
                "shell_user_allowlist",
                revision,
            );
        }
        // A session grant is the user's own prior review of this exact
        // command, so it carries its own reason rather than masquerading as
        // config authority or as a mode change.
        if session_granted {
            return allowed(
                counter.next_id(),
                PermissionReviewer::User,
                "shell_session_grant",
                revision,
            );
        }
        let decision_id = counter.next_id();
        match approval_mode {
            ApprovalMode::Review | ApprovalMode::AcceptEdits => PermissionDecision::NeedsUserReview {
                decision_id,
                reviewer: PermissionReviewer::User,
                mode: PermissionMode::Ask,
                reason: String::from_str("approval_mode_requires_review"),
                prompt: permission_prompt(request),
                policy_revision: revision,
            },
            ApprovalMode::FullAccess => allowed(
                decision_id,
                PermissionReviewer::NoReviewer,
                "approval_mode_full_access",
                revision,
            ),
            // The caller intercepts this route and invokes the review
            // coordinator instead of the user widget.
            ApprovalMode::AutoReview => PermissionDecision::NeedsUserReview {
                decision_id,
                reviewer: PermissionReviewer::AutoReview,
                mode: PermissionMode::AutoReview,
                reason: String::from_str("route_to_reviewer"),
                prompt: permission_prompt(request),
                policy_revision: revision,
            },
        }
    }

    /// Denies a shell request with the given reason at revision 0.
    pub fn deny_shell(
        request: &PermissionRequest,
        reason: &str,
        counter: &mut PermissionDecisionCounter,
    ) -> (d: PermissionDecision)
        ensures
            d@ == denied_view(
                decision_id_text(old(counter).next),
                PermissionMode::Deny,
                reason@,
                0,
            ),
            final(counter).next == counter_after(old(counter).next),
    {
        denied(counter.next_id(), PermissionMode::Deny, reason, PolicyRevision(0))
    }
}

// ---------------------------------------------------------------------------
// Evidence summaries
// ---------------------------------------------------------------------------

/// An operation label fit for evidence: `<empty>` when blank, `<redacted>`
/// when it holds a control character, otherwise trimmed and cut to 128.
pub open spec fn sanitized_label(label: Seq<char>) -> Seq<char> {
    let t = trim(label);
    if t.len() == 0 {
        "<empty>"@
    } else if exists|i: int| 0 <= i < t.len() && is_ctrl(#[trigger] t[i]) {
        "<redacted>"@
    } else {
        truncated(t, 128)
    }
}

/// A resource fit for evidence: payload-like, absolute, traversing and
/// metadata paths are replaced by a category marker; other paths are
/// trimmed and cut to 256 characters. Whether a path is absolute or has a
/// `..` component is what `Path` says on the platform.
pub open spec fn sanitized_resource(resource: Seq<char>) -> Seq<char> {
    let t = trim(resource);
    if t.len() == 0 {
        "<empty_path>"@
    } else if t[0] == '{' || exists|i: int| 0 <= i < t.len() && is_ctrl(#[trigger] t[i]) {
        "<redacted_resource>"@
    } else if std_path_is_absolute(t) {
        "<absolute_path>"@
    } else if std_path_has_parent_dir(t) {
        "<path_traversal>"@
    } else if t == ".yach"@ || has_prefix(t, ".yach/"@) {
        "<metadata_path>"@
    } else {
        truncated(t, 256)
    }
}

/// The evidence a decision leaves for a request.
pub open spec fn summary_view(
    decision: DecisionView,
    request: PermissionRequest,
    user_override: bool,
) -> SummaryView {
    SummaryView {
        request_id: request.request_id@,
        decision_id: decision.decision_id,
        actor: request.actor@,
        capability: request.capability,
        operation: sanitized_label(request.target.operation@),
        resource: sanitized_resource(request.target.resource@),
        risk: request.risk,
        configured_mode: decision.mode,
        approval_mode: None,
        reviewer: decision.reviewer,
        outcome: decision.outcome,
        reason: decision.reason,
        rationale: match decision.rationale {
            Some(_) => Some("<redacted_rationale>"@),
            None => None,
        },
        user_override,
        policy_revision: decision.policy_revision,
        authorization_revision: 0,
    }
}

fn sanitized_label_of(label: &str) -> (r: String)
    ensures
        r@ == sanitized_label(label@),
{
    let t = trimmed(label);
    let v = chars_of(t.as_str());
    if v.len() == 0 {
        return String::from_str("<empty>");
    }
    if any_ctrl(&v) {
        return String::from_str("<redacted>");
    }
    truncate_chars(t.as_str(), 128)
}

fn sanitized_resource_of(resource: &str) -> (r: String)
    ensures
        r@ == sanitized_resource(resource@),
{
    let t = trimmed(resource);
    let v = chars_of(t.as_str());
    if v.len() == 0 {
        return String::from_str("<empty_path>");
    }
    if v[0] == '{' || any_ctrl(&v) {
        return String::from_str("<redacted_resource>");
    }
    if path_is_absolute(t.as_str()) {
        return String::from_str("<absolute_path>");
    }
    if path_has_parent_dir(t.as_str()) {
        return String::from_str("<path_traversal>");
    }
    if str_eq(t.as_str(), ".yach") || str_starts_with(t.as_str(), ".yach/") {
        return String::from_str("<metadata_path>");
    }
    truncate_chars(t.as_str(), 256)
}

impl PermissionActor {
    /// A copy with the same view.
    pub fn duplicate(&self) -> (r: Self)
        ensures
            r@ == self@,
    {
        match self {
            PermissionActor::UserLocalUi => PermissionActor::UserLocalUi,
            PermissionActor::Core => PermissionActor::Core,
            PermissionActor::Provider => PermissionActor::Provider,
            PermissionActor::Extension { extension_id } => PermissionActor::Extension {
                extension_id: extension_id.clone(),
            },
        }
    }
}

impl PermissionReviewer {
    /// A copy with the same view.
    pub fn duplicate(&self) -> (r: Self)
        ensures
            r@ == self@,
    {
        match self {
            PermissionReviewer::NoReviewer => PermissionReviewer::NoReviewer,
            PermissionReviewer::User => PermissionReviewer::User,
            PermissionReviewer::AutoReview => PermissionReviewer::AutoReview,
            PermissionReviewer::Extension { extension_id } => PermissionReviewer::Extension {
                extension_id: extension_id.clone(),
            },
        }
    }
}

impl PermissionDecision {
    /// The evidence record of this decision for `request`, with the target
    /// sanitized and any rationale redacted.
    pub fn summary(&self, request: &PermissionRequest, user_override: bool) -> (s:
        PermissionDecisionSummary)
        ensures
            s@ == summary_view(self@, *request, user_override),
    {
        let (decision_id, reviewer, mode, reason, rationale, policy_revision, outcome) =
            match self {
            PermissionDecision::Allowed {
                decision_id,
                reviewer,
                mode,
                reason,
                rationale,
                policy_revision,
            } => (
                decision_id,
                reviewer,
                *mode,
                reason,
                match rationale {
                    Some(_) => Some(String::from_str("<redacted_rationale>")),
                    None => None,
                },
                *policy_revision,
                PermissionDecisionOutcome::Allowed,
            ),
            PermissionDecision::Denied {
                decision_id,
                reviewer,
                mode,
                reason,
                rationale,
                policy_revision,
            } => (
                decision_id,
                reviewer,
                *mode,
                reason,
                match rationale {
                    Some(_) => Some(String::from_str("<redacted_rationale>")),
                    None => None,
                },
                *policy_revision,
                PermissionDecisionOutcome::Denied,
            ),
            PermissionDecision::NeedsUserReview {
                decision_id,
                reviewer,
                mode,
                reason,
                policy_revision,
                ..
            } => (
                decision_id,
                reviewer,
                *mode,
                reason,
                None,
                *policy_revision,
                PermissionDecisionOutcome::NeedsUserReview,
            ),
        };
        PermissionDecisionSummary {
            request_id: request.request_id.clone(),
            decision_id: PermissionDecisionId(decision_id.0.clone()),
            actor: request.actor.duplicate(),
            capability: request.capability,
            target: PermissionTargetSummary {
                operation: sanitized_label_of(request.target.operation.as_str()),
                resource: sanitized_resource_of(request.target.resource.as_str()),
            },
            risk: request.risk,
            configured_mode: mode,
            approval_mode: None,
            reviewer: reviewer.duplicate(),
            outcome,
            reason: reason.clone(),
            rationale,
            user_override,
            policy_revision,
            authorization_revision: 0,
        }
    }
}

// ---------------------------------------------------------------------------
// Laws
// ---------------------------------------------------------------------------

proof fn lemma_first_match_found(
    rs: Seq<ReviewRestriction>,
    request: PermissionRequest,
    human_only: bool,
    i: int,
)
    requires
        0 <= i < rs.len(),
        restriction_matches(rs[i], request),
        !human_only || rs[i].is_human(),
    ensures
        first_match(rs, request, human_only) is Some,
{
    lemma_first_match(rs, request, human_only);
}

/// A matching global `HumanPerforms` restriction holds an edit or shell
/// request for the user, whatever the edit mode, allowlist, session grant or
/// approval mode: a project `AskFirst` cannot relax it.
pub proof fn law_global_human_performs_outranks_everything(
    request: PermissionRequest,
    review: ReviewPolicy,
    i: int,
    edit_mode: PermissionMode,
    approval_mode: ApprovalMode,
    user_allowlisted: bool,
    session_granted: bool,
    id: Seq<char>,
)
    requires
        0 <= i < review.global@.len(),
        review.global@[i].is_human(),
        restriction_matches(review.global@[i], request),
    ensures
        decide_view(request, edit_mode, review, id).outcome
            == PermissionDecisionOutcome::NeedsUserReview,
        decide_view(request, edit_mode, review, id).reason == "restriction_human_performs"@,
        decide_shell_view(
            request,
            approval_mode,
            user_allowlisted,
            session_granted,
            review,
            id,
        ).outcome == PermissionDecisionOutcome::NeedsUserReview,
        decide_shell_view(
            request,
            approval_mode,
            user_allowlisted,
            session_granted,
            review,
            id,
        ).reason == "restriction_human_performs"@,
{
    lemma_first_match_found(review.global@, request, true, i);
    lemma_first_match(review.global@, request, true);
}

/// Any matching restriction, global or project, holds the request for the
/// user with mode `Ask`: no mode, allowlist or grant lets it through.
pub proof fn law_matching_restriction_always_holds(
    request: PermissionRequest,
    review: ReviewPolicy,
    global: bool,
    i: int,
    edit_mode: PermissionMode,
    approval_mode: ApprovalMode,
    user_allowlisted: bool,
    session_granted: bool,
    id: Seq<char>,
)
    requires
        global ==> 0 <= i < review.global@.len() && restriction_matches(review.global@[i], request),
        !global ==> 0 <= i < review.project@.len() && restriction_matches(
            review.project@[i],
            request,
        ),
    ensures
        decide_view(request, edit_mode, review, id).outcome
            == PermissionDecisionOutcome::NeedsUserReview,
        decide_view(request, edit_mode, review, id).mode == PermissionMode::Ask,
        decide_view(request, edit_mode, review, id).reviewer == ReviewerView::User,
        decide_shell_view(
            request,
            approval_mode,
            user_allowlisted,
            session_granted,
            review,
            id,
        ).outcome == PermissionDecisionOutcome::NeedsUserReview,
        decide_shell_view(
            request,
            approval_mode,
            user_allowlisted,
            session_granted,
            review,
            id,
        ).mode == PermissionMode::Ask,
{
    if global {
        lemma_first_match_found(review.global@, request, false, i);
    } else {
        lemma_first_match_found(review.project@, request, false, i);
    }
}

/// When no restriction holds it, an extension's request that names the
/// extension itself as the approver is denied, whatever the edit mode.
pub proof fn law_extension_cannot_self_approve(
    request: PermissionRequest,
    review: ReviewPolicy,
    edit_mode: PermissionMode,
    id: Seq<char>,
)
    requires
        selected_restriction(review, request) is None,
        extension_self_approval(request),
    ensures
        decide_view(request, edit_mode, review, id).outcome == PermissionDecisionOutcome::Denied,
        decide_view(request, edit_mode, review, id).reason == "extension_self_approval_denied"@,
{
}

/// Only edit transactions with workspace-write risk can be allowed by
/// `decide`, and only under `Allow` mode with no restriction holding.
pub proof fn law_decide_allows_only_consistent_edits(
    request: PermissionRequest,
    review: ReviewPolicy,
    edit_mode: PermissionMode,
    id: Seq<char>,
)
    ensures
        decide_view(request, edit_mode, review, id).outcome == PermissionDecisionOutcome::Allowed
            ==> {
            &&& request.capability == PermissionCapability::EditTransaction
            &&& request.risk == PermissionRisk::WorkspaceWrite
            &&& edit_mode == PermissionMode::Allow
            &&& selected_restriction(review, request) is None
            &&& !extension_self_approval(request)
        },
{
}

/// With no restriction holding a shell request, the user allowlist wins
/// over a session grant, and either allows regardless of the approval mode.
pub proof fn law_allowlist_outranks_session_grant(
    request: PermissionRequest,
    review: ReviewPolicy,
    approval_mode: ApprovalMode,
    session_granted: bool,
    id: Seq<char>,
)
    requires
        selected_restriction(review, request) is None,
        request.capability == PermissionCapability::ShellCommand,
        request.risk == PermissionRisk::ProcessExecution,
    ensures
        decide_shell_view(request, approval_mode, true, session_granted, review, id).outcome
            == PermissionDecisionOutcome::Allowed,
        decide_shell_view(request, approval_mode, true, session_granted, review, id).reason
            == "shell_user_allowlist"@,
        decide_shell_view(request, approval_mode, false, true, review, id).reason
            == "shell_session_grant"@,
        decide_shell_view(request, approval_mode, false, true, review, id).reviewer
            == ReviewerView::User,
{
}

/// A command prefix whose argv is empty matches no command.
pub proof fn law_empty_prefix_matches_nothing(command: Seq<char>, prefix: Seq<char>)
    requires
        normalized_argv(prefix).len() == 0,
    ensures
        !command_prefix_matches(command, prefix),
{
}

/// Every decision of `decide` and `decide_shell` records the revision of
/// the restriction set it was evaluated against.
pub proof fn law_decisions_record_policy_revision(
    request: PermissionRequest,
    review: ReviewPolicy,
    edit_mode: PermissionMode,
    approval_mode: ApprovalMode,
    user_allowlisted: bool,
    session_granted: bool,
    id: Seq<char>,
)
    ensures
        decide_view(request, edit_mode, review, id).policy_revision == review.revision.0,
        decide_shell_view(
            request,
            approval_mode,
            user_allowlisted,
            session_granted,
            review,
            id,
        ).policy_revision == review.revision.0,
{
}

/// Distinct counter values give distinct decision identifiers, so the ids a
/// counter issues are unique until it wraps.
pub proof fn law_decision_ids_are_distinct(n: u64, m: u64)
    requires
        n != m,
    ensures
        decision_id_text(n) != decision_id_text(m),
{
    if decision_id_text(n) == decision_id_text(m) {
        let p = "permission-decision-"@;
        assert(decision_id_text(n).subrange(p.len() as int, decision_id_text(n).len() as int)
            =~= decimal(n as nat));
        assert(decision_id_text(m).subrange(p.len() as int, decision_id_text(m).len() as int)
            =~= decimal(m as nat));
        lemma_decimal_injective(n as nat, m as nat);
    }
}

/// The markers that stand in for a resource that cannot be shown.
pub open spec fn is_category_marker(r: Seq<char>) -> bool {
    ||| r == "<empty_path>"@
    ||| r == "<redacted_resource>"@
    ||| r == "<absolute_path>"@
    ||| r == "<path_traversal>"@
}

/// Evidence never shows an absolute or traversing path or a raw rationale:
/// the sanitized resource is non-empty, a path that is absolute or has a
/// `..` component is shown only as a category marker, and any rationale is
/// replaced by `<redacted_rationale>`.
pub proof fn law_summary_redacts(decision: DecisionView, request: PermissionRequest, user_override: bool)
    ensures
        summary_view(decision, request, user_override).resource.len() > 0,
        std_path_is_absolute(trim(request.target.resource@)) || std_path_has_parent_dir(
            trim(request.target.resource@),
        ) ==> is_category_marker(summary_view(decision, request, user_override).resource),
        summary_view(decision, request, user_override).rationale is Some ==> summary_view(
            decision,
            request,
            user_override,
        ).rationale == Some("<redacted_rationale>"@),
{
    reveal_strlit("<empty_path>");
    reveal_strlit("<redacted_resource>");
    reveal_strlit("<absolute_path>");
    reveal_strlit("<path_traversal>");
    reveal_strlit("<metadata_path>");
}

/// A command whose argv begins with `cargo`, `npm`, `pnpm` or `yarn`
/// followed by `publish` is an external publish.
pub proof fn law_publish_commands_are_external_publish(command: Seq<char>)
    requires
        normalized_argv(command).len() >= 2,
        normalized_argv(command)[0] == "cargo"@ || normalized_argv(command)[0] == "npm"@
            || normalized_argv(command)[0] == "pnpm"@ || normalized_argv(command)[0] == "yarn"@,
        normalized_argv(command)[1] == "publish"@,
    ensures
        inferred_action_class(command) == Some(ActionClass::ExternalPublish),
{
    reveal_strlit("cargo");
    reveal_strlit("npm");
    reveal_strlit("pnpm");
    reveal_strlit("yarn");
    reveal_strlit("nixos-rebuild");
    reveal_strlit("darwin-rebuild");
    let first = normalized_argv(command)[0];
    assert(first.len() <= 5);
    assert("nixos-rebuild"@.len() == 13);
    assert("darwin-rebuild"@.len() == 14);
    assert(first != "nixos-rebuild"@);
    assert(first != "darwin-rebuild"@);
}

/// The action class of a command is read off its first argv words:
/// `nixos-rebuild` and `darwin-rebuild` activate a host; `cargo`, `npm`,
/// `pnpm` or `yarn` then `publish` publish externally; `cargo` or `brew`
/// then `install`, `nix-env`, and `nix profile` install persistently; `rm`,
/// `shred` and `git clean` delete destructively; any other command, and an
/// empty one, has no class.
pub proof fn law_action_classes_follow_the_command(command: Seq<char>)
    ensures
        normalized_argv(command).len() == 0 ==> inferred_action_class(command) is None,
        normalized_argv(command).len() > 0 && (normalized_argv(command)[0] == "nixos-rebuild"@
            || normalized_argv(command)[0] == "darwin-rebuild"@) ==> inferred_action_class(command)
            == Some(ActionClass::HostActivation),
        normalized_argv(command).len() > 1 && (normalized_argv(command)[0] == "cargo"@
            || normalized_argv(command)[0] == "npm"@ || normalized_argv(command)[0] == "pnpm"@
            || normalized_argv(command)[0] == "yarn"@) && normalized_argv(command)[1] == "publish"@
            ==> inferred_action_class(command) == Some(ActionClass::ExternalPublish),
        normalized_argv(command).len() > 1 && (normalized_argv(command)[0] == "cargo"@
            || normalized_argv(command)[0] == "brew"@) && normalized_argv(command)[1] == "install"@
            ==> inferred_action_class(command) == Some(ActionClass::PersistentInstall),
        normalized_argv(command).len() > 0 && normalized_argv(command)[0] == "nix-env"@
            ==> inferred_action_class(command) == Some(ActionClass::PersistentInstall),
        normalized_argv(command).len() > 1 && normalized_argv(command)[0] == "nix"@
            && normalized_argv(command)[1] == "profile"@ ==> inferred_action_class(command)
            == Some(ActionClass::PersistentInstall),
        normalized_argv(command).len() > 0 && (normalized_argv(command)[0] == "rm"@
            || normalized_argv(command)[0] == "shred"@) ==> inferred_action_class(command)
            == Some(ActionClass::DestructiveDelete),
        normalized_argv(command).len() > 1 && normalized_argv(command)[0] == "git"@
            && normalized_argv(command)[1] == "clean"@ ==> inferred_action_class(command)
            == Some(ActionClass::DestructiveDelete),
        normalized_argv(command).len() > 0 && !(normalized_argv(command)[0] == "nixos-rebuild"@
            || normalized_argv(command)[0] == "darwin-rebuild"@ || normalized_argv(command)[0]
            == "cargo"@ || normalized_argv(command)[0] == "npm"@ || normalized_argv(command)[0]
            == "pnpm"@ || normalized_argv(command)[0] == "yarn"@ || normalized_argv(command)[0]
            == "brew"@ || normalized_argv(command)[0] == "nix-env"@ || normalized_argv(command)[0]
            == "nix"@ || normalized_argv(command)[0] == "rm"@ || normalized_argv(command)[0]
            == "shred"@ || normalized_argv(command)[0] == "git"@) ==> inferred_action_class(
            command,
        ) is None,
{
    reveal_strlit("nixos-rebuild");
    reveal_strlit("darwin-rebuild");
    reveal_strlit("cargo");
    reveal_strlit("npm");
    reveal_strlit("pnpm");
    reveal_strlit("yarn");
    reveal_strlit("brew");
    reveal_strlit("nix-env");
    reveal_strlit("nix");
    reveal_strlit("rm");
    reveal_strlit("shred");
    reveal_strlit("git");
    reveal_strlit("publish");
    reveal_strlit("install");
    reveal_strlit("profile");
    reveal_strlit("clean");
    assert("nixos-rebuild"@.len() == 13 && "nixos-rebuild"@[0] == 'n' && "nixos-rebuild"@[1] == 'i');
    assert("darwin-rebuild"@.len() == 14 && "darwin-rebuild"@[0] == 'd' && "darwin-rebuild"@[1] == 'a');
    assert("cargo"@.len() == 5 && "cargo"@[0] == 'c' && "cargo"@[1] == 'a');
    assert("npm"@.len() == 3 && "npm"@[0] == 'n' && "npm"@[1] == 'p');
    assert("pnpm"@.len() == 4 && "pnpm"@[0] == 'p' && "pnpm"@[1] == 'n');
    assert("yarn"@.len() == 4 && "yarn"@[0] == 'y' && "yarn"@[1] == 'a');
    assert("brew"@.len() == 4 && "brew"@[0] == 'b' && "brew"@[1] == 'r');
    assert("nix-env"@.len() == 7 && "nix-env"@[0] == 'n' && "nix-env"@[1] == 'i');
    assert("nix"@.len() == 3 && "nix"@[0] == 'n' && "nix"@[1] == 'i');
    assert("rm"@.len() == 2 && "rm"@[0] == 'r' && "rm"@[1] == 'm');
    assert("shred"@.len() == 5 && "shred"@[0] == 's' && "shred"@[1] == 'h');
    assert("git"@.len() == 3 && "git"@[0] == 'g' && "git"@[1] == 'i');
    assert("publish"@.len() == 7 && "publish"@[0] == 'p' && "publish"@[1] == 'u');
    assert("install"@.len() == 7 && "install"@[0] == 'i' && "install"@[1] == 'n');
    assert("profile"@.len() == 7 && "profile"@[0] == 'p' && "profile"@[1] == 'r');
    assert("clean"@.len() == 5 && "clean"@[0] == 'c' && "clean"@[1] == 'l');
}

/// An `ExternalPublish` restriction, global or project, holds a shell
/// request whose command publishes a package (`cargo`, `npm`, `pnpm` or
/// `yarn` then `publish`) for the user with mode `Ask`, whatever the
/// approval mode, allowlist or session grant.
pub proof fn law_publish_restriction_holds_publish_commands(
    request: PermissionRequest,
    review: ReviewPolicy,
    global: bool,
    i: int,
    approval_mode: ApprovalMode,
    user_allowlisted: bool,
    session_granted: bool,
    id: Seq<char>,
)
    requires
        request.command is Some,
        request.command->0@.len() > 0,
        normalized_argv(request.command->0@).len() >= 2,
        normalized_argv(request.command->0@)[0] == "cargo"@ || normalized_argv(
            request.command->0@,
        )[0] == "npm"@ || normalized_argv(request.command->0@)[0] == "pnpm"@ || normalized_argv(
            request.command->0@,
        )[0] == "yarn"@,
        normalized_argv(request.command->0@)[1] == "publish"@,
        global ==> 0 <= i < review.global@.len() && review.global@[i].matcher()
            == (RestrictionMatcher::ActionClass { class: ActionClass::ExternalPublish }),
        !global ==> 0 <= i < review.project@.len() && review.project@[i].matcher()
            == (RestrictionMatcher::ActionClass { class: ActionClass::ExternalPublish }),
    ensures
        decide_shell_view(
            request,
            approval_mode,
            user_allowlisted,
            session_granted,
            review,
            id,
        ).outcome == PermissionDecisionOutcome::NeedsUserReview,
        decide_shell_view(
            request,
            approval_mode,
            user_allowlisted,
            session_granted,
            review,
            id,
        ).mode == PermissionMode::Ask,
        decide_shell_view(
            request,
            approval_mode,
            user_allowlisted,
            session_granted,
            review,
            id,
        ).reviewer == ReviewerView::User,
{
    let c = request.command->0@;
    law_publish_commands_are_external_publish(c);
    let candidates = command_candidates(request);
    assert(candidates[0] == c);
    assert(inferred_action_class(candidates[0]) == Some(ActionClass::ExternalPublish));
    let r = if global {
        review.global@[i]
    } else {
        review.project@[i]
    };
    assert(restriction_matches(r, request));
    law_matching_restriction_always_holds(
        request,
        review,
        global,
        i,
        PermissionMode::Allow,
        approval_mode,
        user_allowlisted,
        session_granted,
        id,
    );
    lemma_first_match(review.global@, request, true);
    lemma_first_match(review.global@, request, false);
    lemma_first_match(review.project@, request, true);
    lemma_first_match(review.project@, request, false);
}

/// A matching `HumanPerforms` restriction, global or project, outranks every
/// `AskFirst`: `decide` and `decide_shell` hold the request for the user to
/// perform, with reason `restriction_human_performs` and the title `Human
/// performs this action`, whatever global or project `AskFirst` also
/// matches.
pub proof fn law_human_performs_outranks_ask_first(
    request: PermissionRequest,
    review: ReviewPolicy,
    global: bool,
    i: int,
    edit_mode: PermissionMode,
    approval_mode: ApprovalMode,
    user_allowlisted: bool,
    session_granted: bool,
    id: Seq<char>,
)
    requires
        global ==> 0 <= i < review.global@.len() && review.global@[i].is_human()
            && restriction_matches(review.global@[i], request),
        !global ==> 0 <= i < review.project@.len() && review.project@[i].is_human()
            && restriction_matches(review.project@[i], request),
    ensures
        decide_view(request, edit_mode, review, id).outcome
            == PermissionDecisionOutcome::NeedsUserReview,
        decide_view(request, edit_mode, review, id).reason == "restriction_human_performs"@,
        decide_view(request, edit_mode, review, id).prompt is Some,
        decide_view(request, edit_mode, review, id).prompt->0.title == truncated(
            "Human performs this action"@,
            128,
        ),
        decide_shell_view(
            request,
            approval_mode,
            user_allowlisted,
            session_granted,
            review,
            id,
        ).reason == "restriction_human_performs"@,
{
    lemma_first_match(review.global@, request, true);
    lemma_first_match(review.global@, request, false);
    lemma_first_match(review.project@, request, true);
    lemma_first_match(review.project@, request, false);
    if global {
        lemma_first_match_found(review.global@, request, true, i);
    } else {
        lemma_first_match_found(review.project@, request, true, i);
    }
}

/// `first_match` finds the earliest qualifying restriction.
proof fn lemma_first_match_least(
    rs: Seq<ReviewRestriction>,
    request: PermissionRequest,
    human_only: bool,
    i: int,
)
    requires
        0 <= i < rs.len(),
        restriction_matches(rs[i], request),
        !human_only || rs[i].is_human(),
        forall|k: int|
            0 <= k < i ==> !(restriction_matches(#[trigger] rs[k], request) && (!human_only
                || rs[k].is_human())),
    ensures
        first_match(rs, request, human_only) == Some(i),
    decreases rs.len(),
{
    if i < rs.len() - 1 {
        let p = rs.drop_last();
        assert forall|k: int| 0 <= k < i implies !(restriction_matches(#[trigger] p[k], request)
            && (!human_only || p[k].is_human())) by {
            assert(p[k] == rs[k]);
        }
        assert(p[i] == rs[i]);
        lemma_first_match_least(p, request, human_only, i);
    } else {
        let p = rs.drop_last();
        lemma_first_match(p, request, human_only);
        assert forall|k: int| 0 <= k < p.len() implies !(restriction_matches(#[trigger] p[k], request)
            && (!human_only || p[k].is_human())) by {
            assert(p[k] == rs[k]);
        }
    }
}

/// `r` is the first restriction of `rs` that matches the request (and,
/// when `human_only`, is a `HumanPerforms`).
pub open spec fn is_first_matching(
    rs: Seq<ReviewRestriction>,
    request: PermissionRequest,
    human_only: bool,
    i: int,
) -> bool {
    &&& 0 <= i < rs.len()
    &&& restriction_matches(rs[i], request)
    &&& !human_only || rs[i].is_human()
    &&& forall|k: int|
        0 <= k < i ==> !(restriction_matches(#[trigger] rs[k], request) && (!human_only
            || rs[k].is_human()))
}

/// No restriction of `rs` matches the request (as a `HumanPerforms`, when
/// `human_only`).
pub open spec fn none_matching(
    rs: Seq<ReviewRestriction>,
    request: PermissionRequest,
    human_only: bool,
) -> bool {
    forall|k: int|
        0 <= k < rs.len() ==> !(restriction_matches(#[trigger] rs[k], request) && (!human_only
            || rs[k].is_human()))
}

/// Which restriction holds a request, and so what the user is asked: a
/// global `HumanPerforms` first, then a project `HumanPerforms`, then a
/// global `AskFirst`, then a project `AskFirst`, each time the earliest
/// matching one of its set. A held request asks the user to perform it
/// (`Human performs this action`) or to approve its operation
/// (`Approve <operation>`), with the holding restriction's note as the
/// body, in `decide` and `decide_shell` alike.
pub proof fn law_restriction_precedence(
    request: PermissionRequest,
    review: ReviewPolicy,
    i: int,
    edit_mode: PermissionMode,
    approval_mode: ApprovalMode,
    user_allowlisted: bool,
    session_granted: bool,
    id: Seq<char>,
)
    ensures
        is_first_matching(review.global@, request, true, i) ==> {
            &&& decide_view(request, edit_mode, review, id).reason == "restriction_human_performs"@
            &&& decide_view(request, edit_mode, review, id).prompt == Some(
                PromptView {
                    title: truncated("Human performs this action"@, 128),
                    body: truncated(review.global@[i].note_view(), 512),
                },
            )
        },
        none_matching(review.global@, request, true) && is_first_matching(
            review.project@,
            request,
            true,
            i,
        ) ==> {
            &&& decide_view(request, edit_mode, review, id).reason == "restriction_human_performs"@
            &&& decide_view(request, edit_mode, review, id).prompt == Some(
                PromptView {
                    title: truncated("Human performs this action"@, 128),
                    body: truncated(review.project@[i].note_view(), 512),
                },
            )
        },
        none_matching(review.global@, request, true) && none_matching(review.project@, request, true)
            && is_first_matching(review.global@, request, false, i) ==> {
            &&& decide_view(request, edit_mode, review, id).reason == "restriction_ask_first"@
            &&& decide_view(request, edit_mode, review, id).prompt == Some(
                PromptView {
                    title: truncated("Approve "@ + request.target.operation@, 128),
                    body: truncated(review.global@[i].note_view(), 512),
                },
            )
        },
        none_matching(review.global@, request, false) && none_matching(review.project@, request, true)
            && is_first_matching(review.project@, request, false, i) ==> {
            &&& decide_view(request, edit_mode, review, id).reason == "restriction_ask_first"@
            &&& decide_view(request, edit_mode, review, id).prompt == Some(
                PromptView {
                    title: truncated("Approve "@ + request.target.operation@, 128),
                    body: truncated(review.project@[i].note_view(), 512),
                },
            )
        },
        !(none_matching(review.global@, request, false) && none_matching(
            review.project@,
            request,
            false,
        )) ==> {
            &&& decide_shell_view(
                request,
                approval_mode,
                user_allowlisted,
                session_granted,
                review,
                id,
            ).reason == decide_view(request, edit_mode, review, id).reason
            &&& decide_shell_view(
                request,
                approval_mode,
                user_allowlisted,
                session_granted,
                review,
                id,
            ).prompt == decide_view(request, edit_mode, review, id).prompt
        },
{
    lemma_first_match(review.global@, request, true);
    lemma_first_match(review.global@, request, false);
    lemma_first_match(review.project@, request, true);
    lemma_first_match(review.project@, request, false);
    if is_first_matching(review.global@, request, true, i) {
        lemma_first_match_least(review.global@, request, true, i);
    }
    if is_first_matching(review.project@, request, true, i) {
        lemma_first_match_least(review.project@, request, true, i);
    }
    if is_first_matching(review.global@, request, false, i) {
        lemma_first_match_least(review.global@, request, false, i);
    }
    if is_first_matching(review.project@, request, false, i) {
        lemma_first_match_least(review.project@, request, false, i);
    }
}

} // verus!
