//! The approval mode a project remembers between sessions. Only the
//! review-based modes are stored: full access and auto review are
//! session-only, and a stored dangerous mode is ignored with a warning.
use crate::proto::ApprovalMode;
use crate::text::str_eq;
use vstd::prelude::*;

verus! {

/// The schema stored settings must declare.
pub const APPROVAL_SETTINGS_SCHEMA: &'static str = "yach.approval-settings.v1";

/// Stored approval settings, as read from the user's state.
#[derive(Debug, Clone, PartialEq, Eq)]
pub struct StoredApprovalSettings {
    pub schema: String,
    pub mode: ApprovalMode,
}

/// Modes that may outlive a session.
pub open spec fn persistable(mode: ApprovalMode) -> bool {
    mode != ApprovalMode::FullAccess && mode != ApprovalMode::AutoReview
}

pub fn approval_mode_persistable(mode: ApprovalMode) -> (b: bool)
    ensures
        b == persistable(mode),
{
    mode != ApprovalMode::FullAccess && mode != ApprovalMode::AutoReview
}

/// The remembered mode: the stored one when the settings declare the
/// current schema and the mode may be persisted.
pub fn stored_approval_mode(settings: Option<&StoredApprovalSettings>) -> (m: Option<ApprovalMode>)
    ensures
        match settings {
            Some(s) => if s.schema@ == APPROVAL_SETTINGS_SCHEMA@ && persistable(s.mode) {
                m == Some(s.mode)
            } else {
                m is None
            },
            None => m is None,
        },
{
    match settings {
        Some(settings) => {
            if str_eq(settings.schema.as_str(), APPROVAL_SETTINGS_SCHEMA) && approval_mode_persistable(
                settings.mode,
            ) {
                Some(settings.mode)
            } else {
                None
            }
        },
        None => None,
    }
}

/// The mode a project starts in: the remembered one, else review.
pub fn load_approval_mode(stored: Option<ApprovalMode>) -> (m: ApprovalMode)
    ensures
        m == match stored {
            Some(s) => s,
            None => ApprovalMode::Review,
        },
{
    match stored {
        Some(mode) => mode,
        None => ApprovalMode::Review,
    }
}

/// What reading the stored settings found.
#[derive(Debug, Clone, PartialEq, Eq)]
pub enum ApprovalSettingsRead {
    Missing,
    Unreadable,
    Invalid,
    Parsed(StoredApprovalSettings),
}

pub open spec fn settings_warning(read: ApprovalSettingsRead) -> Option<Seq<char>> {
    match read {
        ApprovalSettingsRead::Missing => None,
        ApprovalSettingsRead::Unreadable => Some(
            "approval_mode_config: could not read user state; using review"@,
        ),
        ApprovalSettingsRead::Invalid => Some("approval_mode_config: invalid user state; using review"@),
        ApprovalSettingsRead::Parsed(s) => if s.schema@ != APPROVAL_SETTINGS_SCHEMA@ {
            Some("approval_mode_config: unsupported user-state schema; using review"@)
        } else if !persistable(s.mode) {
            Some("approval_mode_config: stored dangerous mode ignored; using review"@)
        } else {
            None
        },
    }
}

/// The warning shown at startup about the stored settings, if any.
pub fn approval_mode_warning(read: &ApprovalSettingsRead) -> (w: Option<String>)
    ensures
        match w {
            Some(s) => settings_warning(*read) == Some(s@),
            None => settings_warning(*read) is None,
        },
{
    match read {
        ApprovalSettingsRead::Missing => None,
        ApprovalSettingsRead::Unreadable => Some(
            String::from_str("approval_mode_config: could not read user state; using review"),
        ),
        ApprovalSettingsRead::Invalid => Some(
            String::from_str("approval_mode_config: invalid user state; using review"),
        ),
        ApprovalSettingsRead::Parsed(settings) => {
            if !str_eq(settings.schema.as_str(), APPROVAL_SETTINGS_SCHEMA) {
                Some(
                    String::from_str(
                        "approval_mode_config: unsupported user-state schema; using review",
                    ),
                )
            } else if !approval_mode_persistable(settings.mode) {
                Some(
                    String::from_str(
                        "approval_mode_config: stored dangerous mode ignored; using review",
                    ),
                )
            } else {
                None
            }
        },
    }
}

/// The settings to store for `mode`; full access and auto review are
/// refused as session-only.
pub fn approval_settings_to_store(mode: ApprovalMode) -> (r: Result<StoredApprovalSettings, String>)
    ensures
        persistable(mode) ==> r is Ok && r->Ok_0.schema@ == APPROVAL_SETTINGS_SCHEMA@ && r->Ok_0.mode
            == mode,
        !persistable(mode) ==> r is Err && r->Err_0@
            == "full-access and auto-review approval modes are session-only"@,
{
    if !approval_mode_persistable(mode) {
        return Err(String::from_str("full-access and auto-review approval modes are session-only"));
    }
    Ok(StoredApprovalSettings { schema: String::from_str(APPROVAL_SETTINGS_SCHEMA), mode })
}

/// What is stored is what is loaded back: settings built for a
/// persistable mode are remembered as that mode, and a dangerous mode is
/// never remembered.
pub proof fn law_stored_mode_round_trips(mode: ApprovalMode, settings: StoredApprovalSettings)
    requires
        settings.schema@ == APPROVAL_SETTINGS_SCHEMA@,
        settings.mode == mode,
    ensures
        persistable(mode) ==> settings_warning(ApprovalSettingsRead::Parsed(settings)) is None,
        !persistable(mode) ==> settings_warning(ApprovalSettingsRead::Parsed(settings)) is Some,
{
}

} // verus!
