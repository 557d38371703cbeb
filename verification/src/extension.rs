//! Extension bookkeeping of the native runner: which package roots a scan
//! covers, how a selector picks an extension, what lifecycle requests
//! report, and the status lines of manifest scans and background
//! activation.
use crate::proto::ExtensionLifecycleOutcome;
use crate::session_files::{path_eq, std_path_eq};
use crate::sorting::{is_stable_sort, stable_sort, StrictWeakOrder};
use crate::text::{
    append_str, decimal, decimal_string, lemma_text_before_irreflexive, lemma_text_before_total,
    lemma_text_before_transitive, opt_view, owned, str_eq, text_before, text_order, trim, trimmed,
    TextOrder,
};
use std::cmp::Ordering;
use vstd::prelude::*;

verus! {

/// Where an extension was installed.
#[derive(Debug, Clone, Copy, PartialEq, Eq, Structural)]
pub enum ExtensionInstallScope {
    User,
    Project,
    Ephemeral,
}

pub open spec fn scope_text(scope: ExtensionInstallScope) -> Seq<char> {
    match scope {
        ExtensionInstallScope::User => "user"@,
        ExtensionInstallScope::Project => "project"@,
        ExtensionInstallScope::Ephemeral => "ephemeral"@,
    }
}

pub fn extension_install_scope_label(scope: ExtensionInstallScope) -> (s: &'static str)
    ensures
        s@ == scope_text(scope),
{
    match scope {
        ExtensionInstallScope::User => "user",
        ExtensionInstallScope::Project => "project",
        ExtensionInstallScope::Ephemeral => "ephemeral",
    }
}

/// A directory that may hold extension packages.
#[derive(Debug, Clone, PartialEq, Eq)]
pub struct ExtensionPackageRoot {
    pub path: String,
    pub scope: ExtensionInstallScope,
}

/// The roots a manifest scan covers: the configured ones, then those the
/// loader supplied, in order.
pub fn extension_package_roots_for_scan(
    configured_roots: &Vec<ExtensionPackageRoot>,
    loaded_roots: Option<Vec<ExtensionPackageRoot>>,
) -> (roots: Vec<ExtensionPackageRoot>)
    ensures
        roots@ == configured_roots@ + match loaded_roots {
            Some(l) => l@,
            None => Seq::<ExtensionPackageRoot>::empty(),
        },
{
    let mut roots: Vec<ExtensionPackageRoot> = Vec::new();
    let mut i: usize = 0;
    while i < configured_roots.len()
        invariant
            i <= configured_roots@.len(),
            roots@ == configured_roots@.take(i as int),
        decreases configured_roots.len() - i,
    {
        let root = &configured_roots[i];
        roots.push(ExtensionPackageRoot { path: root.path.clone(), scope: root.scope });
        assert(configured_roots@.take(i + 1) =~= configured_roots@.take(i as int).push(
            configured_roots@[i as int],
        ));
        i = i + 1;
    }
    assert(configured_roots@.take(configured_roots@.len() as int) =~= configured_roots@);
    if let Some(mut loaded) = loaded_roots {
        let ghost before = roots@;
        let ghost l = loaded@;
        roots.append(&mut loaded);
        assert(roots@ =~= before + l);
    } else {
        assert(roots@ =~= configured_roots@ + Seq::<ExtensionPackageRoot>::empty());
    }
    roots
}

/// How far background activation got for an extension.
#[derive(Debug, Clone, Copy, PartialEq, Eq, Structural)]
pub enum ExtensionActivationState {
    Discovered,
    Active,
    Stopped,
    Blocked,
    Failed,
}

pub open spec fn activation_state_text(state: ExtensionActivationState) -> Seq<char> {
    match state {
        ExtensionActivationState::Discovered => "discovered"@,
        ExtensionActivationState::Active => "active"@,
        ExtensionActivationState::Stopped => "stopped"@,
        ExtensionActivationState::Blocked => "blocked"@,
        ExtensionActivationState::Failed => "failed"@,
    }
}

impl ExtensionActivationState {
    pub fn as_str(self) -> (s: &'static str)
        ensures
            s@ == activation_state_text(self),
    {
        match self {
            ExtensionActivationState::Discovered => "discovered",
            ExtensionActivationState::Active => "active",
            ExtensionActivationState::Stopped => "stopped",
            ExtensionActivationState::Blocked => "blocked",
            ExtensionActivationState::Failed => "failed",
        }
    }
}

/// What background activation knows about one extension.
#[derive(Debug, Clone, PartialEq, Eq)]
pub struct ExtensionActivationDiagnostic {
    pub extension_id: Option<String>,
    pub version: Option<String>,
    pub scope: ExtensionInstallScope,
    pub package_root: String,
    pub manifest_path: Option<String>,
    pub source_ref: Option<String>,
    pub install_source: Option<String>,
    pub activation_state: ExtensionActivationState,
    pub generation: u64,
    pub last_error_kind: Option<String>,
    pub last_error_summary: Option<String>,
    pub registered_tools: Vec<String>,
    pub provider_visible_tools: Vec<String>,
}

/// A selector names an extension by id, source reference, install source,
/// package root or manifest path (paths compared as paths or as text).
pub open spec fn diagnostic_matches(d: ExtensionActivationDiagnostic, selector: Seq<char>) -> bool {
    ||| opt_view(d.extension_id) == Some(selector)
    ||| opt_view(d.source_ref) == Some(selector)
    ||| opt_view(d.install_source) == Some(selector)
    ||| std_path_eq(d.package_root@, selector)
    ||| d.package_root@ == selector
    ||| match d.manifest_path {
        Some(p) => std_path_eq(p@, selector) || p@ == selector,
        None => false,
    }
}

fn opt_is(o: &Option<String>, s: &str) -> (b: bool)
    ensures
        b == (opt_view(*o) == Some(s@)),
{
    match o {
        Some(v) => str_eq(v.as_str(), s),
        None => false,
    }
}

pub fn extension_activation_diagnostic_matches_selector(
    diagnostic: &ExtensionActivationDiagnostic,
    selector: &str,
) -> (b: bool)
    ensures
        b == diagnostic_matches(*diagnostic, selector@),
{
    if opt_is(&diagnostic.extension_id, selector) || opt_is(&diagnostic.source_ref, selector)
        || opt_is(&diagnostic.install_source, selector) {
        return true;
    }
    if path_eq(diagnostic.package_root.as_str(), selector) || str_eq(
        diagnostic.package_root.as_str(),
        selector,
    ) {
        return true;
    }
    match &diagnostic.manifest_path {
        Some(path) => path_eq(path.as_str(), selector) || str_eq(path.as_str(), selector),
        None => false,
    }
}

/// An extension package found by a manifest scan.
#[derive(Debug, Clone, PartialEq, Eq)]
pub struct ExtensionPackageRecord {
    pub manifest_id: String,
    pub source_ref: Option<String>,
    pub package_root: String,
    pub manifest_path: String,
}

pub open spec fn record_matches(r: ExtensionPackageRecord, selector: Seq<char>) -> bool {
    ||| r.manifest_id@ == selector
    ||| opt_view(r.source_ref) == Some(selector)
    ||| std_path_eq(r.package_root@, selector)
    ||| r.package_root@ == selector
    ||| std_path_eq(r.manifest_path@, selector)
    ||| r.manifest_path@ == selector
}

pub fn extension_package_record_matches_selector(record: &ExtensionPackageRecord, selector: &str) -> (b:
    bool)
    ensures
        b == record_matches(*record, selector@),
{
    str_eq(record.manifest_id.as_str(), selector) || opt_is(&record.source_ref, selector)
        || path_eq(record.package_root.as_str(), selector) || str_eq(
        record.package_root.as_str(),
        selector,
    ) || path_eq(record.manifest_path.as_str(), selector) || str_eq(
        record.manifest_path.as_str(),
        selector,
    )
}

/// The first discovered package the selector names.
pub fn extension_package_record_for_selector(
    records: &Vec<ExtensionPackageRecord>,
    selector: &str,
) -> (r: Option<usize>)
    ensures
        match r {
            Some(i) => i < records@.len() && record_matches(records@[i as int], selector@)
                && forall|j: int| 0 <= j < i ==> !record_matches(#[trigger] records@[j], selector@),
            None => forall|j: int|
                0 <= j < records@.len() ==> !record_matches(#[trigger] records@[j], selector@),
        },
{
    let mut i: usize = 0;
    while i < records.len()
        invariant
            i <= records@.len(),
            forall|j: int| 0 <= j < i ==> !record_matches(#[trigger] records@[j], selector@),
        decreases records.len() - i,
    {
        if extension_package_record_matches_selector(&records[i], selector) {
            return Some(i);
        }
        i = i + 1;
    }
    None
}

// ---------------------------------------------------------------------------
// Lifecycle requests
// ---------------------------------------------------------------------------

/// What a lifecycle request reports: its outcome and message.
#[derive(Debug, Clone, PartialEq, Eq)]
pub struct ExtensionLifecycleReport {
    pub outcome: ExtensionLifecycleOutcome,
    pub message: String,
}

/// A lifecycle request's selector, trimmed; an empty selector fails the
/// request with `extension selector is required`.
pub fn native_extension_lifecycle_selector(selector: &str) -> (r: Result<
    String,
    ExtensionLifecycleReport,
>)
    ensures
        trim(selector@).len() > 0 ==> r is Ok && r->Ok_0@ == trim(selector@),
        trim(selector@).len() == 0 ==> r is Err && r->Err_0.outcome == ExtensionLifecycleOutcome::Failed
            && r->Err_0.message@ == "extension selector is required"@,
{
    let selector = trimmed(selector);
    if selector.as_str().is_empty() {
        Err(
            ExtensionLifecycleReport {
                outcome: ExtensionLifecycleOutcome::Failed,
                message: String::from_str("extension selector is required"),
            },
        )
    } else {
        Ok(selector)
    }
}

/// A reload whose selector names no discovered package.
pub fn native_extension_not_discovered(selector: &str) -> (r: ExtensionLifecycleReport)
    ensures
        r.outcome == ExtensionLifecycleOutcome::NotFound,
        r.message@ == "extension not discovered: "@ + selector@,
{
    let mut message = String::from_str("extension not discovered: ");
    append_str(&mut message, selector);
    ExtensionLifecycleReport { outcome: ExtensionLifecycleOutcome::NotFound, message }
}

/// Why stopping an extension failed.
#[derive(Debug, Clone, PartialEq, Eq)]
pub enum ExtensionActivationLifecycleError {
    NotFound { selector: String },
    NotActive { selector: String },
}

/// A stop request: completed with the stopped extension's id (or the
/// selector when it has none), not found, or not active.
pub fn native_extension_stop_report(
    result: &Result<Option<String>, ExtensionActivationLifecycleError>,
    selector: &str,
) -> (r: ExtensionLifecycleReport)
    ensures
        match *result {
            Ok(id) => r.outcome == ExtensionLifecycleOutcome::Completed && r.message@
                == "extension stopped: "@ + match id {
                Some(i) => i@,
                None => selector@,
            },
            Err(ExtensionActivationLifecycleError::NotFound { .. }) => r.outcome
                == ExtensionLifecycleOutcome::NotFound && r.message@ == "extension not found: "@
                + selector@,
            Err(ExtensionActivationLifecycleError::NotActive { .. }) => r.outcome
                == ExtensionLifecycleOutcome::NotActive && r.message@
                == "extension is not active: "@ + selector@,
        },
{
    match result {
        Ok(id) => {
            let mut message = String::from_str("extension stopped: ");
            match id {
                Some(id) => append_str(&mut message, id.as_str()),
                None => append_str(&mut message, selector),
            }
            ExtensionLifecycleReport { outcome: ExtensionLifecycleOutcome::Completed, message }
        },
        Err(ExtensionActivationLifecycleError::NotFound { .. }) => {
            let mut message = String::from_str("extension not found: ");
            append_str(&mut message, selector);
            ExtensionLifecycleReport { outcome: ExtensionLifecycleOutcome::NotFound, message }
        },
        Err(ExtensionActivationLifecycleError::NotActive { .. }) => {
            let mut message = String::from_str("extension is not active: ");
            append_str(&mut message, selector);
            ExtensionLifecycleReport { outcome: ExtensionLifecycleOutcome::NotActive, message }
        },
    }
}

/// The report of a reload, by the state the extension reached.
pub open spec fn reload_report(d: ExtensionActivationDiagnostic, selector: Seq<char>) -> (
    ExtensionLifecycleOutcome,
    Seq<char>,
) {
    let id = match d.extension_id {
        Some(i) => i@,
        None => selector,
    };
    match d.activation_state {
        ExtensionActivationState::Active => (
            ExtensionLifecycleOutcome::Completed,
            "extension reloaded: "@ + id,
        ),
        ExtensionActivationState::Discovered => (
            ExtensionLifecycleOutcome::NotActive,
            "extension is not post-first-paint metadata extension: "@ + id,
        ),
        ExtensionActivationState::Blocked => (
            ExtensionLifecycleOutcome::Failed,
            "extension reload blocked: "@ + id + ": "@ + match d.last_error_summary {
                Some(s) => s@,
                None => "activation blocked"@,
            },
        ),
        ExtensionActivationState::Failed => (
            ExtensionLifecycleOutcome::Failed,
            "extension reload failed: "@ + id + ": "@ + match d.last_error_summary {
                Some(s) => s@,
                None => "activation failed"@,
            },
        ),
        _ => (ExtensionLifecycleOutcome::Failed, "extension reload ended in unexpected state: "@ + id),
    }
}

pub fn extension_reload_lifecycle_outcome(
    diagnostic: &ExtensionActivationDiagnostic,
    selector: &str,
) -> (r: ExtensionLifecycleReport)
    ensures
        (r.outcome, r.message@) == reload_report(*diagnostic, selector@),
{
    let id: &str = match &diagnostic.extension_id {
        Some(id) => id.as_str(),
        None => selector,
    };
    match diagnostic.activation_state {
        ExtensionActivationState::Active => {
            let mut message = String::from_str("extension reloaded: ");
            append_str(&mut message, id);
            ExtensionLifecycleReport { outcome: ExtensionLifecycleOutcome::Completed, message }
        },
        ExtensionActivationState::Discovered => {
            let mut message = String::from_str(
                "extension is not post-first-paint metadata extension: ",
            );
            append_str(&mut message, id);
            ExtensionLifecycleReport { outcome: ExtensionLifecycleOutcome::NotActive, message }
        },
        ExtensionActivationState::Blocked => {
            let mut message = String::from_str("extension reload blocked: ");
            append_str(&mut message, id);
            append_str(&mut message, ": ");
            match &diagnostic.last_error_summary {
                Some(s) => append_str(&mut message, s.as_str()),
                None => append_str(&mut message, "activation blocked"),
            }
            ExtensionLifecycleReport { outcome: ExtensionLifecycleOutcome::Failed, message }
        },
        ExtensionActivationState::Failed => {
            let mut message = String::from_str("extension reload failed: ");
            append_str(&mut message, id);
            append_str(&mut message, ": ");
            match &diagnostic.last_error_summary {
                Some(s) => append_str(&mut message, s.as_str()),
                None => append_str(&mut message, "activation failed"),
            }
            ExtensionLifecycleReport { outcome: ExtensionLifecycleOutcome::Failed, message }
        },
        _ => {
            let mut message = String::from_str("extension reload ended in unexpected state: ");
            append_str(&mut message, id);
            ExtensionLifecycleReport { outcome: ExtensionLifecycleOutcome::Failed, message }
        },
    }
}

// ---------------------------------------------------------------------------
// Manifest scans and background activation
// ---------------------------------------------------------------------------

/// Why a manifest scan failed.
#[derive(Debug, Clone, PartialEq, Eq)]
pub enum ExtensionPackageIndexError {
    MissingPackageRoot { path: String },
    MissingManifest { package_root: String },
    MissingManifestFile { path: String },
    MalformedPackageJson { path: String, reason: String },
    InvalidManifestPointer { pointer: String },
    ManifestPathEscapedPackageRoot { path: String },
    Manifest { reason: String },
    Catalog(String),
}

pub open spec fn scan_error_text(e: ExtensionPackageIndexError) -> Seq<char> {
    match e {
        ExtensionPackageIndexError::MissingPackageRoot { .. } => "missing_package_root"@,
        ExtensionPackageIndexError::MissingManifest { .. } => "missing_manifest"@,
        ExtensionPackageIndexError::MissingManifestFile { .. } => "missing_manifest_file"@,
        ExtensionPackageIndexError::MalformedPackageJson { .. } => "malformed_package_json"@,
        ExtensionPackageIndexError::InvalidManifestPointer { .. } => "invalid_manifest_pointer"@,
        ExtensionPackageIndexError::ManifestPathEscapedPackageRoot { .. } => "manifest_path_escaped_package_root"@,
        ExtensionPackageIndexError::Manifest { .. } => "invalid_manifest"@,
        ExtensionPackageIndexError::Catalog(_) => "catalog_error"@,
    }
}

/// The category of a scan failure, without its paths.
pub fn extension_manifest_scan_error_label(error: &ExtensionPackageIndexError) -> (s: &'static str)
    ensures
        s@ == scan_error_text(*error),
{
    match error {
        ExtensionPackageIndexError::MissingPackageRoot { .. } => "missing_package_root",
        ExtensionPackageIndexError::MissingManifest { .. } => "missing_manifest",
        ExtensionPackageIndexError::MissingManifestFile { .. } => "missing_manifest_file",
        ExtensionPackageIndexError::MalformedPackageJson { .. } => "malformed_package_json",
        ExtensionPackageIndexError::InvalidManifestPointer { .. } => "invalid_manifest_pointer",
        ExtensionPackageIndexError::ManifestPathEscapedPackageRoot { .. } => "manifest_path_escaped_package_root",
        ExtensionPackageIndexError::Manifest { .. } => "invalid_manifest",
        ExtensionPackageIndexError::Catalog(_) => "catalog_error",
    }
}

/// The scan runs once: the first request schedules it, later ones do nothing.
pub fn native_extension_scan_should_schedule(scan_scheduled: &mut bool) -> (b: bool)
    ensures
        b == !*old(scan_scheduled),
        *final(scan_scheduled),
{
    if *scan_scheduled {
        return false;
    }
    *scan_scheduled = true;
    true
}

pub fn native_extension_scan_finished_message(extension_count: usize, host_start_count: usize) -> (s:
    String)
    ensures
        s@ == "extension_manifest_scan_finished extension_count="@ + decimal(
            extension_count as nat,
        ) + " host_start_count="@ + decimal(host_start_count as nat),
{
    let mut s = String::from_str("extension_manifest_scan_finished extension_count=");
    append_str(&mut s, decimal_string(extension_count as u64).as_str());
    append_str(&mut s, " host_start_count=");
    append_str(&mut s, decimal_string(host_start_count as u64).as_str());
    s
}

pub fn native_extension_scan_failed_message(error: &ExtensionPackageIndexError) -> (s: String)
    ensures
        s@ == "extension_manifest_scan_failed reason="@ + scan_error_text(*error),
{
    let mut s = String::from_str("extension_manifest_scan_failed reason=");
    append_str(&mut s, extension_manifest_scan_error_label(error));
    s
}

/// How many of `ds[..k]` are active.
pub open spec fn active_count(ds: Seq<ExtensionActivationDiagnostic>, k: int) -> nat
    decreases k,
{
    if k <= 0 || k > ds.len() {
        0
    } else {
        active_count(ds, k - 1) + if ds[k - 1].activation_state
            == ExtensionActivationState::Active {
            1nat
        } else {
            0nat
        }
    }
}

pub fn native_extension_activation_finished_message(
    diagnostics: &Vec<ExtensionActivationDiagnostic>,
    registered_tool_count: usize,
    host_start_count: usize,
) -> (s: String)
    ensures
        s@ == "extension_background_activation_finished active_extension_count="@ + decimal(
            active_count(diagnostics@, diagnostics@.len() as int),
        ) + " registered_tool_count="@ + decimal(registered_tool_count as nat)
            + " host_start_count="@ + decimal(host_start_count as nat),
{
    let mut active: usize = 0;
    let mut i: usize = 0;
    while i < diagnostics.len()
        invariant
            i <= diagnostics@.len(),
            active == active_count(diagnostics@, i as int),
            active <= i,
        decreases diagnostics.len() - i,
    {
        if diagnostics[i].activation_state == ExtensionActivationState::Active {
            active = active + 1;
        }
        i = i + 1;
    }
    let mut s = String::from_str(
        "extension_background_activation_finished active_extension_count=",
    );
    append_str(&mut s, decimal_string(active as u64).as_str());
    append_str(&mut s, " registered_tool_count=");
    append_str(&mut s, decimal_string(registered_tool_count as u64).as_str());
    append_str(&mut s, " host_start_count=");
    append_str(&mut s, decimal_string(host_start_count as u64).as_str());
    s
}

// ---------------------------------------------------------------------------
// Diagnostic snapshots
// ---------------------------------------------------------------------------

pub open spec fn strings_view(v: Seq<String>) -> Seq<Seq<char>> {
    v.map_values(|s: String| s@)
}

/// An extension's diagnostics as the client is shown them.
#[derive(Debug, Clone, PartialEq, Eq)]
pub struct ExtensionDiagnosticRecord {
    pub id: Option<String>,
    pub version: Option<String>,
    pub scope: String,
    pub package_root: String,
    pub manifest_path: Option<String>,
    pub source_ref: Option<String>,
    pub install_source: Option<String>,
    pub activation_state: String,
    pub generation: u64,
    pub last_error_kind: Option<String>,
    pub last_error_summary: Option<String>,
    pub registered_tools: Vec<String>,
    pub provider_visible_tools: Vec<String>,
}

pub struct DiagnosticRecordView {
    pub id: Option<Seq<char>>,
    pub version: Option<Seq<char>>,
    pub scope: Seq<char>,
    pub package_root: Seq<char>,
    pub manifest_path: Option<Seq<char>>,
    pub source_ref: Option<Seq<char>>,
    pub install_source: Option<Seq<char>>,
    pub activation_state: Seq<char>,
    pub generation: u64,
    pub last_error_kind: Option<Seq<char>>,
    pub last_error_summary: Option<Seq<char>>,
    pub registered_tools: Seq<Seq<char>>,
    pub provider_visible_tools: Seq<Seq<char>>,
}

impl View for ExtensionDiagnosticRecord {
    type V = DiagnosticRecordView;

    open spec fn view(&self) -> DiagnosticRecordView {
        DiagnosticRecordView {
            id: opt_view(self.id),
            version: opt_view(self.version),
            scope: self.scope@,
            package_root: self.package_root@,
            manifest_path: opt_view(self.manifest_path),
            source_ref: opt_view(self.source_ref),
            install_source: opt_view(self.install_source),
            activation_state: self.activation_state@,
            generation: self.generation,
            last_error_kind: opt_view(self.last_error_kind),
            last_error_summary: opt_view(self.last_error_summary),
            registered_tools: strings_view(self.registered_tools@),
            provider_visible_tools: strings_view(self.provider_visible_tools@),
        }
    }
}

/// The record a diagnostic is shown as.
pub open spec fn record_of(d: ExtensionActivationDiagnostic) -> DiagnosticRecordView {
    DiagnosticRecordView {
        id: opt_view(d.extension_id),
        version: opt_view(d.version),
        scope: scope_text(d.scope),
        package_root: d.package_root@,
        manifest_path: opt_view(d.manifest_path),
        source_ref: opt_view(d.source_ref),
        install_source: opt_view(d.install_source),
        activation_state: activation_state_text(d.activation_state),
        generation: d.generation,
        last_error_kind: opt_view(d.last_error_kind),
        last_error_summary: opt_view(d.last_error_summary),
        registered_tools: strings_view(d.registered_tools@),
        provider_visible_tools: strings_view(d.provider_visible_tools@),
    }
}

fn copy_opt(o: &Option<String>) -> (r: Option<String>)
    ensures
        opt_view(r) == opt_view(*o),
{
    match o {
        Some(s) => Some(s.clone()),
        None => None,
    }
}

fn copy_strings(v: &Vec<String>) -> (r: Vec<String>)
    ensures
        strings_view(r@) == strings_view(v@),
{
    let mut r: Vec<String> = Vec::new();
    let mut i: usize = 0;
    while i < v.len()
        invariant
            i <= v@.len(),
            strings_view(r@) == strings_view(v@).take(i as int),
        decreases v.len() - i,
    {
        let ghost before = r@;
        r.push(v[i].clone());
        assert(strings_view(r@) =~= strings_view(before).push(v@[i as int]@));
        assert(strings_view(v@).take(i + 1) =~= strings_view(v@).take(i as int).push(v@[i as int]@));
        i = i + 1;
    }
    assert(strings_view(v@).take(v@.len() as int) =~= strings_view(v@));
    r
}

pub fn extension_diagnostic_record_from_activation(diagnostic: &ExtensionActivationDiagnostic) -> (r:
    ExtensionDiagnosticRecord)
    ensures
        r@ == record_of(*diagnostic),
{
    ExtensionDiagnosticRecord {
        id: copy_opt(&diagnostic.extension_id),
        version: copy_opt(&diagnostic.version),
        scope: owned(extension_install_scope_label(diagnostic.scope)),
        package_root: diagnostic.package_root.clone(),
        manifest_path: copy_opt(&diagnostic.manifest_path),
        source_ref: copy_opt(&diagnostic.source_ref),
        install_source: copy_opt(&diagnostic.install_source),
        activation_state: owned(diagnostic.activation_state.as_str()),
        generation: diagnostic.generation,
        last_error_kind: copy_opt(&diagnostic.last_error_kind),
        last_error_summary: copy_opt(&diagnostic.last_error_summary),
        registered_tools: copy_strings(&diagnostic.registered_tools),
        provider_visible_tools: copy_strings(&diagnostic.provider_visible_tools),
    }
}

/// Records sort by id (`none` when absent), then by package root.
pub open spec fn record_key(r: DiagnosticRecordView) -> (Seq<char>, Seq<char>) {
    (
        match r.id {
            Some(i) => i,
            None => "none"@,
        },
        r.package_root,
    )
}

pub open spec fn key_before(a: (Seq<char>, Seq<char>), b: (Seq<char>, Seq<char>)) -> bool {
    text_before(a.0, b.0) || (a.0 == b.0 && text_before(a.1, b.1))
}

fn record_key_order(left: &ExtensionDiagnosticRecord, right: &ExtensionDiagnosticRecord) -> (o:
    TextOrder)
    ensures
        (o == TextOrder::Before) == key_before(record_key(left@), record_key(right@)),
        (o == TextOrder::Same) == (record_key(left@) == record_key(right@)),
        (o == TextOrder::After) == key_before(record_key(right@), record_key(left@)),
{
    let l: &str = match &left.id {
        Some(id) => id.as_str(),
        None => "none",
    };
    let r: &str = match &right.id {
        Some(id) => id.as_str(),
        None => "none",
    };
    match text_order(l, r) {
        TextOrder::Same => text_order(left.package_root.as_str(), right.package_root.as_str()),
        other => other,
    }
}

/// The order of diagnostic records: by id (`none` when absent), then by
/// package root.
pub fn extension_diagnostic_record_order(
    left: &ExtensionDiagnosticRecord,
    right: &ExtensionDiagnosticRecord,
) -> (o: Ordering)
    ensures
        (o == Ordering::Less) == key_before(record_key(left@), record_key(right@)),
        (o == Ordering::Equal) == (record_key(left@) == record_key(right@)),
        (o == Ordering::Greater) == key_before(record_key(right@), record_key(left@)),
{
    match record_key_order(left, right) {
        TextOrder::Before => Ordering::Less,
        TextOrder::Same => Ordering::Equal,
        TextOrder::After => Ordering::Greater,
    }
}

/// `after` holds the records of `before` rearranged by the permutation
/// `p`, sorted by key, with records of equal key in their earlier order.
pub open spec fn stably_sorted(
    before: Seq<DiagnosticRecordView>,
    after: Seq<DiagnosticRecordView>,
    p: Seq<int>,
) -> bool {
    &&& after.len() == before.len()
    &&& p.len() == before.len()
    &&& forall|i: int| 0 <= i < p.len() ==> 0 <= #[trigger] p[i] < before.len()
    &&& forall|i: int, j: int| 0 <= i < j < p.len() ==> #[trigger] p[i] != #[trigger] p[j]
    &&& forall|i: int| 0 <= i < after.len() ==> #[trigger] after[i] == before[p[i]]
    &&& forall|i: int, j: int|
        0 <= i < j < after.len() ==> !key_before(
            record_key(#[trigger] after[j]),
            record_key(#[trigger] after[i]),
        )
    &&& forall|i: int, j: int|
        0 <= i < j < after.len() && record_key(after[i]) == record_key(after[j]) ==> p[i] < p[j]
}

pub open spec fn record_views(v: Seq<ExtensionDiagnosticRecord>) -> Seq<DiagnosticRecordView> {
    v.map_values(|r: ExtensionDiagnosticRecord| r@)
}

/// `key_before` is a strict total order on keys.
proof fn lemma_key_before_order(
    a: (Seq<char>, Seq<char>),
    b: (Seq<char>, Seq<char>),
    c: (Seq<char>, Seq<char>),
)
    ensures
        !key_before(a, a),
        key_before(a, b) && key_before(b, c) ==> key_before(a, c),
        a != b ==> key_before(a, b) || key_before(b, a),
{
    lemma_text_before_irreflexive(a.0);
    lemma_text_before_irreflexive(a.1);
    if text_before(a.0, b.0) && text_before(b.0, c.0) {
        lemma_text_before_transitive(a.0, b.0, c.0);
    }
    if text_before(a.1, b.1) && text_before(b.1, c.1) {
        lemma_text_before_transitive(a.1, b.1, c.1);
    }
    if a != b {
        if a.0 != b.0 {
            lemma_text_before_total(a.0, b.0);
        } else {
            lemma_text_before_total(a.1, b.1);
        }
    }
}

impl StrictWeakOrder for ExtensionDiagnosticRecord {
    open spec fn precedes(&self, other: &Self) -> bool {
        key_before(record_key(self@), record_key(other@))
    }

    fn comes_before(&self, other: &Self) -> (b: bool) {
        match record_key_order(self, other) {
            TextOrder::Before => true,
            _ => false,
        }
    }

    proof fn lemma_strict_weak_order(a: &Self, b: &Self, c: &Self) {
        let (ka, kb, kc) = (record_key(a@), record_key(b@), record_key(c@));
        lemma_key_before_order(ka, kb, ka);
        lemma_key_before_order(kb, ka, kc);
        lemma_key_before_order(ka, kb, kc);
        lemma_key_before_order(kb, kb, kc);
        lemma_key_before_order(ka, ka, kc);
    }
}

/// A stable sort of records, read through their views.
proof fn lemma_sorted_records(
    before: Seq<ExtensionDiagnosticRecord>,
    after: Seq<ExtensionDiagnosticRecord>,
    p: Seq<int>,
)
    requires
        is_stable_sort(before, after, p),
    ensures
        stably_sorted(record_views(before), record_views(after), p),
{
    let (bv, av) = (record_views(before), record_views(after));
    assert forall|i: int, j: int|
        0 <= i < j < av.len() && record_key(av[i]) == record_key(av[j]) implies p[i] < p[j] by {
        lemma_key_before_order(record_key(av[i]), record_key(av[j]), record_key(av[j]));
        assert(!after[i].precedes(&after[j]));
    }
    assert forall|i: int, j: int| 0 <= i < j < av.len() implies !key_before(
        record_key(#[trigger] av[j]),
        record_key(#[trigger] av[i]),
    ) by {
        assert(!after[j].precedes(&after[i]));
    }
}

/// How a diagnostic snapshot request ended.
#[derive(Debug, Clone, Copy, PartialEq, Eq, Structural)]
pub enum ExtensionDiagnosticSnapshotOutcome {
    Completed,
    NotFound,
}

/// The answer to a diagnostic snapshot request.
#[derive(Debug, Clone, PartialEq, Eq)]
pub struct ExtensionDiagnosticSnapshot {
    pub outcome: ExtensionDiagnosticSnapshotOutcome,
    pub records: Vec<ExtensionDiagnosticRecord>,
    pub message: Option<String>,
}

/// The selector a snapshot request filters by: trimmed, none when blank.
pub open spec fn snapshot_selector(selector: Option<Seq<char>>) -> Option<Seq<char>> {
    match selector {
        Some(s) => if trim(s).len() > 0 {
            Some(trim(s))
        } else {
            None
        },
        None => None,
    }
}

/// The records of the first `k` diagnostics the selector names.
pub open spec fn selected_records(
    ds: Seq<ExtensionActivationDiagnostic>,
    selector: Option<Seq<char>>,
    k: int,
) -> Seq<DiagnosticRecordView>
    decreases k,
{
    if k <= 0 || k > ds.len() {
        seq![]
    } else {
        let prev = selected_records(ds, selector, k - 1);
        match selector {
            Some(s) => if diagnostic_matches(ds[k - 1], s) {
                prev.push(record_of(ds[k - 1]))
            } else {
                prev
            },
            None => prev.push(record_of(ds[k - 1])),
        }
    }
}

/// `r` answers a snapshot request for `selector` over `diagnostics`: the
/// selected records, stably sorted, and `NotFound` with a message exactly
/// when a selector named nothing.
pub open spec fn snapshot_answers(
    diagnostics: Seq<ExtensionActivationDiagnostic>,
    selector: Option<Seq<char>>,
    r: ExtensionDiagnosticSnapshot,
) -> bool {
    let sel = snapshot_selector(selector);
    let selected = selected_records(diagnostics, sel, diagnostics.len() as int);
    &&& exists|p: Seq<int>| stably_sorted(selected, record_views(r.records@), p)
    &&& if sel is Some && selected.len() == 0 {
        &&& r.outcome == ExtensionDiagnosticSnapshotOutcome::NotFound
        &&& r.message is Some
        &&& r.message.unwrap()@ == "extension not found: "@ + sel.unwrap()
    } else {
        &&& r.outcome == ExtensionDiagnosticSnapshotOutcome::Completed
        &&& r.message is None
    }
}

/// A snapshot of the activation diagnostics a selector names (all of them
/// without a selector), sorted stably by id then package root. A selector
/// that names nothing is answered `extension not found: <selector>`.
pub fn native_extension_diagnostic_snapshot(
    diagnostics: &Vec<ExtensionActivationDiagnostic>,
    selector: Option<&str>,
) -> (r: ExtensionDiagnosticSnapshot)
    ensures
        snapshot_answers(
            diagnostics@,
            match selector {
                Some(s) => Some(s@),
                None => None,
            },
            r,
        ),
{
    let ghost sel_input = match selector {
        Some(s) => Some(s@),
        None => None,
    };
    let ghost sel = snapshot_selector(sel_input);
    let normalized: Option<String> = match selector {
        Some(s) => {
            let t = trimmed(s);
            if t.as_str().is_empty() {
                None
            } else {
                Some(t)
            }
        },
        None => None,
    };
    assert(opt_view(normalized) == sel);
    let mut records: Vec<ExtensionDiagnosticRecord> = Vec::new();
    let mut i: usize = 0;
    while i < diagnostics.len()
        invariant
            i <= diagnostics@.len(),
            opt_view(normalized) == sel,
            record_views(records@) == selected_records(diagnostics@, sel, i as int),
        decreases diagnostics.len() - i,
    {
        let keep = match &normalized {
            Some(s) => extension_activation_diagnostic_matches_selector(&diagnostics[i], s.as_str()),
            None => true,
        };
        if keep {
            let ghost before = records@;
            records.push(extension_diagnostic_record_from_activation(&diagnostics[i]));
            assert(record_views(records@) =~= record_views(before).push(
                record_of(diagnostics@[i as int]),
            ));
        }
        i = i + 1;
    }
    let empty = records.len() == 0;
    let ghost selected = selected_records(diagnostics@, sel, diagnostics@.len() as int);
    assert(record_views(records@) == selected);
    assert(empty == (selected.len() == 0));
    let ghost unsorted = records@;
    let records = stable_sort(records);
    let ghost p = choose|p: Seq<int>| is_stable_sort(unsorted, records@, p);
    proof {
        lemma_sorted_records(unsorted, records@, p);
    }
    let ghost sorted_view = record_views(records@);
    let (outcome, message) = match normalized {
        Some(s) => {
            assert(sel == Some(s@));
            if empty {
                let mut message = String::from_str("extension not found: ");
                append_str(&mut message, s.as_str());
                (ExtensionDiagnosticSnapshotOutcome::NotFound, Some(message))
            } else {
                (ExtensionDiagnosticSnapshotOutcome::Completed, None)
            }
        },
        None => (ExtensionDiagnosticSnapshotOutcome::Completed, None),
    };
    let r = ExtensionDiagnosticSnapshot { outcome, records, message };
    assert(record_views(r.records@) == sorted_view);
    assert(stably_sorted(selected, record_views(r.records@), p));
    assert(snapshot_answers(diagnostics@, sel_input, r));
    r
}

} // verus!
