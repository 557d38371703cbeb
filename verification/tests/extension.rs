use yach_backend::extension::{
    extension_activation_diagnostic_matches_selector, extension_install_scope_label,
    extension_manifest_scan_error_label, extension_package_record_for_selector,
    extension_package_record_matches_selector, extension_package_roots_for_scan,
    extension_reload_lifecycle_outcome, native_extension_activation_finished_message,
    native_extension_lifecycle_selector, native_extension_not_discovered,
    native_extension_scan_failed_message, native_extension_scan_finished_message,
    native_extension_scan_should_schedule, native_extension_stop_report,
    ExtensionActivationDiagnostic, ExtensionActivationLifecycleError, ExtensionActivationState,
    ExtensionInstallScope, ExtensionPackageIndexError, ExtensionPackageRecord,
    ExtensionPackageRoot,
};
use yach_backend::extension::{
    extension_diagnostic_record_from_activation, extension_diagnostic_record_order,
    native_extension_diagnostic_snapshot, ExtensionDiagnosticSnapshotOutcome,
};
use yach_backend::proto::ExtensionLifecycleOutcome;

fn diagnostic(state: ExtensionActivationState) -> ExtensionActivationDiagnostic {
    ExtensionActivationDiagnostic {
        extension_id: Some(String::from("example.toy-tools")),
        version: Some(String::from("0.1.0")),
        scope: ExtensionInstallScope::User,
        package_root: String::from("/tmp/yach-extension"),
        manifest_path: Some(String::from("/tmp/yach-extension/yach.extension.json")),
        source_ref: Some(String::from("test-package-root")),
        install_source: None,
        activation_state: state,
        generation: 1,
        last_error_kind: None,
        last_error_summary: None,
        registered_tools: vec![String::from("toy_tool")],
        provider_visible_tools: vec![],
    }
}

#[test]
fn scopes_have_wire_labels() {
    assert_eq!(extension_install_scope_label(ExtensionInstallScope::User), "user");
    assert_eq!(extension_install_scope_label(ExtensionInstallScope::Project), "project");
    assert_eq!(extension_install_scope_label(ExtensionInstallScope::Ephemeral), "ephemeral");
    assert_eq!(ExtensionActivationState::Stopped.as_str(), "stopped");
}

#[test]
fn scan_roots_are_configured_then_loaded() {
    let configured = vec![ExtensionPackageRoot {
        path: String::from("/a"),
        scope: ExtensionInstallScope::Project,
    }];
    let loaded = vec![ExtensionPackageRoot {
        path: String::from("/b"),
        scope: ExtensionInstallScope::User,
    }];
    let roots = extension_package_roots_for_scan(&configured, Some(loaded.clone()));
    assert_eq!(roots.len(), 2);
    assert_eq!(roots[0], configured[0]);
    assert_eq!(roots[1], loaded[0]);
    assert_eq!(extension_package_roots_for_scan(&configured, None), configured);
}

#[test]
fn selectors_match_ids_sources_and_paths() {
    let d = diagnostic(ExtensionActivationState::Active);
    assert!(extension_activation_diagnostic_matches_selector(&d, "example.toy-tools"));
    assert!(extension_activation_diagnostic_matches_selector(&d, "test-package-root"));
    assert!(extension_activation_diagnostic_matches_selector(&d, "/tmp/yach-extension/"));
    assert!(extension_activation_diagnostic_matches_selector(
        &d,
        "/tmp/yach-extension/yach.extension.json"
    ));
    assert!(!extension_activation_diagnostic_matches_selector(&d, "other"));

    let records = vec![
        ExtensionPackageRecord {
            manifest_id: String::from("a.one"),
            source_ref: None,
            package_root: String::from("/p/one"),
            manifest_path: String::from("/p/one/yach.extension.json"),
        },
        ExtensionPackageRecord {
            manifest_id: String::from("b.two"),
            source_ref: Some(String::from("src-two")),
            package_root: String::from("/p/two"),
            manifest_path: String::from("/p/two/yach.extension.json"),
        },
    ];
    assert!(extension_package_record_matches_selector(&records[1], "src-two"));
    assert_eq!(extension_package_record_for_selector(&records, "/p/two"), Some(1));
    assert_eq!(extension_package_record_for_selector(&records, "a.one"), Some(0));
    assert_eq!(extension_package_record_for_selector(&records, "missing"), None);
}

#[test]
fn lifecycle_requests_report_each_outcome() {
    let required = native_extension_lifecycle_selector("   ");
    assert_eq!(
        required.map_err(|report| (report.outcome, report.message)),
        Err((
            ExtensionLifecycleOutcome::Failed,
            String::from("extension selector is required")
        ))
    );
    assert_eq!(
        native_extension_lifecycle_selector("  example.toy-tools ").ok().as_deref(),
        Some("example.toy-tools")
    );
    let missing = native_extension_not_discovered("example.toy-tools");
    assert_eq!(missing.outcome, ExtensionLifecycleOutcome::NotFound);
    assert_eq!(missing.message, "extension not discovered: example.toy-tools");

    let stopped = native_extension_stop_report(&Ok(Some(String::from("example.toy-tools"))), "sel");
    assert_eq!(stopped.outcome, ExtensionLifecycleOutcome::Completed);
    assert_eq!(stopped.message, "extension stopped: example.toy-tools");
    let not_active = native_extension_stop_report(
        &Err(ExtensionActivationLifecycleError::NotActive { selector: String::from("sel") }),
        "sel",
    );
    assert_eq!(not_active.outcome, ExtensionLifecycleOutcome::NotActive);
    assert_eq!(not_active.message, "extension is not active: sel");
    let not_found = native_extension_stop_report(
        &Err(ExtensionActivationLifecycleError::NotFound { selector: String::from("sel") }),
        "sel",
    );
    assert_eq!(not_found.message, "extension not found: sel");
}

#[test]
fn reload_reports_follow_activation_state() {
    let active = extension_reload_lifecycle_outcome(&diagnostic(ExtensionActivationState::Active), "s");
    assert_eq!(active.outcome, ExtensionLifecycleOutcome::Completed);
    assert_eq!(active.message, "extension reloaded: example.toy-tools");
    let mut blocked = diagnostic(ExtensionActivationState::Blocked);
    blocked.extension_id = None;
    let report = extension_reload_lifecycle_outcome(&blocked, "sel");
    assert_eq!(report.outcome, ExtensionLifecycleOutcome::Failed);
    assert_eq!(report.message, "extension reload blocked: sel: activation blocked");
    let mut failed = diagnostic(ExtensionActivationState::Failed);
    failed.last_error_summary = Some(String::from("host crashed"));
    assert_eq!(
        extension_reload_lifecycle_outcome(&failed, "s").message,
        "extension reload failed: example.toy-tools: host crashed"
    );
    let discovered =
        extension_reload_lifecycle_outcome(&diagnostic(ExtensionActivationState::Discovered), "s");
    assert_eq!(discovered.outcome, ExtensionLifecycleOutcome::NotActive);
    assert_eq!(
        extension_reload_lifecycle_outcome(&diagnostic(ExtensionActivationState::Stopped), "s").message,
        "extension reload ended in unexpected state: example.toy-tools"
    );
}

#[test]
fn scans_are_scheduled_once_and_report_status() {
    let mut scheduled = false;
    assert!(native_extension_scan_should_schedule(&mut scheduled));
    assert!(!native_extension_scan_should_schedule(&mut scheduled));
    assert_eq!(
        native_extension_scan_finished_message(1, 0),
        "extension_manifest_scan_finished extension_count=1 host_start_count=0"
    );
    let error = ExtensionPackageIndexError::MissingManifestFile {
        path: String::from("/secret/missing/yach.extension.json"),
    };
    assert_eq!(extension_manifest_scan_error_label(&error), "missing_manifest_file");
    assert_eq!(
        native_extension_scan_failed_message(&error),
        "extension_manifest_scan_failed reason=missing_manifest_file"
    );
    let diagnostics = vec![
        diagnostic(ExtensionActivationState::Active),
        diagnostic(ExtensionActivationState::Failed),
        diagnostic(ExtensionActivationState::Active),
    ];
    assert_eq!(
        native_extension_activation_finished_message(&diagnostics, 3, 0),
        "extension_background_activation_finished active_extension_count=2 registered_tool_count=3 host_start_count=0"
    );
}

#[test]
fn diagnostic_records_copy_the_diagnostic() {
    let record = extension_diagnostic_record_from_activation(&diagnostic(ExtensionActivationState::Stopped));
    assert_eq!(record.id.as_deref(), Some("example.toy-tools"));
    assert_eq!(record.scope, "user");
    assert_eq!(record.activation_state, "stopped");
    assert_eq!(record.registered_tools, vec![String::from("toy_tool")]);
    assert_eq!(record.package_root, "/tmp/yach-extension");
}

#[test]
fn diagnostic_snapshots_filter_and_sort_by_id_then_root() {
    let mut b = diagnostic(ExtensionActivationState::Active);
    b.extension_id = Some(String::from("b.ext"));
    b.package_root = String::from("/r/2");
    let mut a2 = diagnostic(ExtensionActivationState::Active);
    a2.extension_id = Some(String::from("a.ext"));
    a2.package_root = String::from("/r/9");
    let mut a1 = diagnostic(ExtensionActivationState::Failed);
    a1.extension_id = Some(String::from("a.ext"));
    a1.package_root = String::from("/r/1");
    let mut anonymous = diagnostic(ExtensionActivationState::Discovered);
    anonymous.extension_id = None;
    anonymous.package_root = String::from("/r/0");
    let diagnostics = vec![b, a2, anonymous, a1];

    let all = native_extension_diagnostic_snapshot(&diagnostics, None);
    assert_eq!(all.outcome, ExtensionDiagnosticSnapshotOutcome::Completed);
    assert_eq!(all.message, None);
    let order: Vec<(Option<&str>, &str)> = all
        .records
        .iter()
        .map(|r| (r.id.as_deref(), r.package_root.as_str()))
        .collect();
    assert_eq!(
        order,
        vec![
            (Some("a.ext"), "/r/1"),
            (Some("a.ext"), "/r/9"),
            (Some("b.ext"), "/r/2"),
            (None, "/r/0"),
        ]
    );

    let selected = native_extension_diagnostic_snapshot(&diagnostics, Some("  a.ext "));
    assert_eq!(selected.records.len(), 2);
    assert_eq!(selected.outcome, ExtensionDiagnosticSnapshotOutcome::Completed);

    let blank = native_extension_diagnostic_snapshot(&diagnostics, Some("   "));
    assert_eq!(blank.records.len(), 4);

    let missing = native_extension_diagnostic_snapshot(&diagnostics, Some("nope"));
    assert_eq!(missing.outcome, ExtensionDiagnosticSnapshotOutcome::NotFound);
    assert_eq!(missing.message.as_deref(), Some("extension not found: nope"));
    assert!(missing.records.is_empty());

    let left = extension_diagnostic_record_from_activation(&diagnostics[0]);
    let right = extension_diagnostic_record_from_activation(&diagnostics[1]);
    assert_eq!(
        extension_diagnostic_record_order(&left, &right),
        std::cmp::Ordering::Greater
    );
}
