use runnerbuddy::config::{
    Config, InstallConfig, InstallMode, MigrationStatus, RunnerProfile, RunnerScope,
    RunnerServiceConfig, ServiceProvider,
};
use runnerbuddy::discovery::{
    candidate_from, candidate_metadata_files, checks_of, copy_check_files, copy_procedure,
    detect_external_service, has_runner_prefix, import_candidate, import_candidate_with,
    infer_scope_from_install, install_script_names, looks_like_runner_install,
    migrate_external_service, move_install, parse_runner_metadata, parse_windows_service_name,
    plan_move, profile_from_candidate, remove_external_artifacts, resolve_work_dir, scan,
    scan_targets, scope_from_text, scope_from_url, service_migration_procedure, tracks,
    unit_references_run_script, verify_copy, within_search_depth, AgentFile, CopyCheck,
    CopyEvidence, DiscoveryCandidate, FilePair, FileProbe, ImportOptions, InstallProbe, MovePlan,
    ScannedInstall, ScopeEvidence, ServiceEvidence, ServiceMigrationStrategy, UnitFile,
};
use runnerbuddy::errors::Error;
use runnerbuddy::host::{AppDirs, HostInfo, ProfileSeed, ProjectPaths};
use runnerbuddy::plist_file::{parse_launchd_label, parse_launchd_label_for_run_script};
use runnerbuddy::procedure::Action;
use runnerbuddy::service_mgmt::{Platform, ServiceContext};
use runnerbuddy::store::ConfigStore;

fn host() -> HostInfo {
    HostInfo {
        os: "linux".to_string(),
        arch: "x86_64".to_string(),
        hostname_var: Some("build-host".to_string()),
        computername_var: None,
    }
}

fn dirs() -> AppDirs {
    AppDirs {
        project: Some(ProjectPaths {
            config_dir: "/home/u/.config/runnerbuddy".to_string(),
            data_dir: "/home/u/.local/share/runnerbuddy".to_string(),
        }),
        home: Some("/home/u".to_string()),
    }
}

fn seed(id: &str) -> ProfileSeed {
    ProfileSeed {
        runner_id: id.to_string(),
        created_at: "2024-01-01T00:00:00Z".to_string(),
        runner_name: "host-1".to_string(),
        labels: vec!["self-hosted".to_string(), "Linux".to_string(), "X86_64".to_string()],
        work_dir: format!("/home/u/.runnerbuddy/work/{id}"),
        install_path: Some(format!("/home/u/.local/share/runnerbuddy/runners/{id}")),
    }
}

fn candidate(service_present: bool) -> DiscoveryCandidate {
    DiscoveryCandidate {
        candidate_id: "cand-1".to_string(),
        install_path: "/opt/actions-runner".to_string(),
        runner_name: None,
        labels: Vec::new(),
        scope: None,
        work_dir: None,
        service_present,
        service_id: if service_present { Some("actions.runner.service".to_string()) } else { None },
        service_path: if service_present {
            Some("/home/u/.config/systemd/user/actions.runner.service".to_string())
        } else {
            None
        },
        last_log_time: Some("2024-02-02T00:00:00Z".to_string()),
    }
}

fn options(replace: bool, mv: bool, verify: bool) -> ImportOptions {
    ImportOptions {
        replace_service: replace,
        move_install: mv,
        verify_after_move: verify,
        delete_original_after_verify: false,
    }
}

fn pair(source: FileProbe, destination: FileProbe) -> FilePair {
    FilePair { source, destination }
}

fn faithful_copy() -> CopyEvidence {
    CopyEvidence {
        config_script: pair(FileProbe::Size(2_000), FileProbe::Size(2_000)),
        run_script: pair(FileProbe::Size(10), FileProbe::Size(10)),
        marker: pair(FileProbe::Missing, FileProbe::Missing),
    }
}

fn linux() -> ServiceContext {
    ServiceContext { platform: Platform::Linux, dirs: dirs(), uid: Ok("501".to_string()) }
}

fn plist(run_script: &str) -> Vec<u8> {
    format!(
        "<?xml version=\"1.0\" encoding=\"UTF-8\"?>\n<!DOCTYPE plist PUBLIC \"-//Apple//DTD PLIST 1.0//EN\" \"http://www.apple.com/DTDs/PropertyList-1.0.dtd\">\n<plist version=\"1.0\">\n<dict>\n  <key>Label</key>\n  <string>com.example.runner</string>\n  <key>ProgramArguments</key>\n  <array>\n    <string>{run_script}</string>\n  </array>\n</dict>\n</plist>\n"
    )
    .into_bytes()
}

#[test]
fn scope_from_repo_url() {
    let scope = scope_from_url("https://github.com/org/repo").expect("scope");
    match scope {
        RunnerScope::Repo { owner, repo } => {
            assert_eq!(owner, "org");
            assert_eq!(repo, "repo");
        }
        _ => panic!("unexpected scope"),
    }
}

#[test]
fn scope_from_api_repo_url() {
    let scope = scope_from_url("https://api.github.com/repos/org/repo").expect("scope");
    match scope {
        RunnerScope::Repo { owner, repo } => {
            assert_eq!(owner, "org");
            assert_eq!(repo, "repo");
        }
        _ => panic!("unexpected scope"),
    }
}

#[test]
fn scope_from_org_settings_url() {
    let scope = scope_from_url("https://github.com/organizations/acme/settings/actions/runners")
        .expect("scope");
    match scope {
        RunnerScope::Org { org } => {
            assert_eq!(org, "acme");
        }
        _ => panic!("unexpected scope"),
    }
}

#[test]
fn scope_from_enterprise_url() {
    match scope_from_url("https://github.com/enterprises/umbrella").expect("scope") {
        RunnerScope::Enterprise { enterprise } => assert_eq!(enterprise, "umbrella"),
        _ => panic!("unexpected scope"),
    }
}

#[test]
fn scope_from_url_edge_cases() {
    assert!(scope_from_url("").is_none());
    assert!(scope_from_url("https://github.com").is_none());
    assert!(scope_from_url("https://github.com///").is_none());
    match scope_from_url("https://github.com/acme/").expect("scope") {
        RunnerScope::Org { org } => assert_eq!(org, "acme"),
        _ => panic!("unexpected scope"),
    }
    match scope_from_url("https://github.com/orgs/acme").expect("scope") {
        RunnerScope::Org { org } => assert_eq!(org, "acme"),
        _ => panic!("unexpected scope"),
    }
    assert!(scope_from_url("org//repo").is_none());
    match scope_from_url("x//host/acme").expect("scope") {
        RunnerScope::Org { org } => assert_eq!(org, "acme"),
        _ => panic!("unexpected scope"),
    }
    match scope_from_url("owner/name").expect("scope") {
        RunnerScope::Repo { owner, repo } => {
            assert_eq!(owner, "owner");
            assert_eq!(repo, "name");
        }
        _ => panic!("unexpected scope"),
    }
    match scope_from_url("https://github.com/repos/only").expect("scope") {
        RunnerScope::Repo { owner, repo } => {
            assert_eq!(owner, "repos");
            assert_eq!(repo, "only");
        }
        _ => panic!("unexpected scope"),
    }
    assert!(scope_from_url("https://github.com/a/b/c").is_none());
    assert!(scope_from_url("https://github.com/a/b/c/d").is_none());
    assert!(scope_from_url("a/b/c").is_none());
    match scope_from_url("https://github.com/repos/a/b/c").expect("scope") {
        RunnerScope::Repo { owner, repo } => {
            assert_eq!(owner, "a");
            assert_eq!(repo, "b");
        }
        _ => panic!("unexpected scope"),
    }
    match scope_from_url("https://host/\u{e9}t\u{e9}/d\u{e9}p\u{f4}t").expect("scope") {
        RunnerScope::Repo { owner, repo } => {
            assert_eq!(owner, "\u{e9}t\u{e9}");
            assert_eq!(repo, "d\u{e9}p\u{f4}t");
        }
        _ => panic!("unexpected scope"),
    }
}

#[test]
fn parses_runner_metadata_file() {
    let data = "{\n  \"agentName\": \"runner-1\",\n  \"labels\": [\"self-hosted\", \"macOS\"],\n  \"serverUrl\": \"https://github.com/org/repo\",\n  \"workFolder\": \"_work\"\n}";
    let metadata = parse_runner_metadata("/opt/actions-runner", data);
    assert_eq!(metadata.runner_name.as_deref(), Some("runner-1"));
    assert!(metadata.labels.contains(&"self-hosted".to_string()));
    match metadata.scope {
        Some(RunnerScope::Repo { owner, repo }) => {
            assert_eq!(owner, "org");
            assert_eq!(repo, "repo");
        }
        _ => panic!("unexpected scope"),
    }
    assert!(metadata.work_dir.unwrap_or_default().ends_with("_work"));
}

#[test]
fn runner_metadata_aliases_and_label_objects() {
    let data = "{\"name\": 5, \"runnerName\": \"r2\", \"labels\": [\"a\", {\"name\": \"b\"}, 7, {\"id\": 1}], \
                \"url\": \"https://github.com/acme\", \"workDirectory\": \"/abs/work\"}";
    let metadata = parse_runner_metadata("/opt/r", data);
    assert_eq!(metadata.runner_name.as_deref(), Some("r2"));
    assert_eq!(metadata.labels, vec!["a".to_string(), "b".to_string()]);
    match metadata.scope {
        Some(RunnerScope::Org { org }) => assert_eq!(org, "acme"),
        _ => panic!("unexpected scope"),
    }
    assert_eq!(metadata.work_dir.as_deref(), Some("/abs/work"));
    let broken = parse_runner_metadata("/opt/r", "not json");
    assert!(broken.runner_name.is_none());
    assert!(broken.labels.is_empty());
    assert!(broken.scope.is_none());
    assert!(broken.work_dir.is_none());
    let relative = parse_runner_metadata("/opt/r", "{\"workDir\": \"_w\"}");
    assert_eq!(relative.work_dir.as_deref(), Some("/opt/r/_w"));
}

#[test]
fn parses_systemd_exec_start() {
    let run_script = "/opt/actions-runner/run.sh";
    let unit = format!(
        "[Unit]\nDescription=Runner\n[Service]\nExecStart={run_script}\n",
        run_script = run_script
    );
    assert!(unit_references_run_script(&unit, run_script));
}

#[test]
fn systemd_exec_start_must_be_the_key() {
    let run_script = "/opt/actions-runner/run.sh";
    assert!(unit_references_run_script("  ExecStart = /usr/bin/env /opt/actions-runner/run.sh --x\r\n", run_script));
    assert!(!unit_references_run_script("ExecStop=/opt/actions-runner/run.sh\n", run_script));
    assert!(!unit_references_run_script("ExecStart /opt/actions-runner/run.sh\n", run_script));
    assert!(!unit_references_run_script("ExecStart=/opt/other/run.sh\n", run_script));
    assert!(!unit_references_run_script("", run_script));
    assert!(unit_references_run_script("A=B\nExecStart=x=/opt/actions-runner/run.sh", run_script));
}

#[test]
fn parses_launchd_label() {
    let run_script = "/Users/test/actions-runner/run.sh";
    let bytes = plist(run_script);
    let label = parse_launchd_label_for_run_script(&bytes, run_script);
    assert_eq!(label.as_deref(), Some("com.example.runner"));
}

#[test]
fn launchd_label_needs_the_run_script() {
    let bytes = plist("/Users/test/actions-runner/run.sh");
    assert!(parse_launchd_label_for_run_script(&bytes, "/Users/test/other/run.sh").is_none());
    assert_eq!(parse_launchd_label(&bytes).as_deref(), Some("com.example.runner"));
    assert!(parse_launchd_label(&b"garbage".to_vec()).is_none());
    assert!(parse_launchd_label_for_run_script(&b"garbage".to_vec(), "x").is_none());
}

#[test]
fn parses_windows_service_name() {
    let output = "SERVICE_NAME: actions.runner.acme.repo.runner1\nSTATE              : 4  RUNNING\n";
    assert_eq!(
        parse_windows_service_name(output).as_deref(),
        Some("actions.runner.acme.repo.runner1")
    );
    let output = "Service Name: \"actions.runner.org.repo.runner2\"\n";
    assert_eq!(
        parse_windows_service_name(output).as_deref(),
        Some("actions.runner.org.repo.runner2")
    );
}

#[test]
fn windows_service_name_edge_cases() {
    assert!(parse_windows_service_name("").is_none());
    assert!(parse_windows_service_name("STATE: 4 RUNNING\n").is_none());
    assert!(parse_windows_service_name("name:\nname:   \"\"  \n").is_none());
    assert_eq!(parse_windows_service_name("name:\r\n  Name: x:y \r\n").as_deref(), Some("x:y"));
    assert_eq!(parse_windows_service_name("service: \"\"a\"\"").as_deref(), Some("a"));
}

#[test]
fn work_dir_resolves_against_the_install() {
    assert_eq!(resolve_work_dir("/opt/r", "_work"), "/opt/r/_work");
    assert_eq!(resolve_work_dir("/opt/r", "/srv/work"), "/srv/work");
}

#[test]
fn install_is_recognized_by_scripts_or_markers() {
    let nothing = InstallProbe {
        exists: true,
        has_config_script: false,
        has_run_script: false,
        has_marker: false,
        has_diag: false,
    };
    assert!(!looks_like_runner_install(&nothing));
    assert!(!looks_like_runner_install(&InstallProbe { has_config_script: true, ..nothing }));
    assert!(!looks_like_runner_install(&InstallProbe { has_run_script: true, ..nothing }));
    assert!(looks_like_runner_install(&InstallProbe {
        has_config_script: true,
        has_run_script: true,
        ..nothing
    }));
    assert!(looks_like_runner_install(&InstallProbe { has_marker: true, ..nothing }));
    assert!(looks_like_runner_install(&InstallProbe { has_diag: true, ..nothing }));
    assert_eq!(install_script_names(false), ("config.sh", "run.sh"));
    assert_eq!(install_script_names(true), ("config.cmd", "run.cmd"));
}

#[test]
fn import_with_service_in_place_and_move_is_rejected_before_any_change() {
    let mut store = ConfigStore::fresh();
    let before = format!("{:?}", store);
    let err = import_candidate(&mut store, &candidate(true), &options(false, true, false), &host(), &dirs())
        .expect_err("rejected");
    assert!(matches!(err, Error::Service(_)));
    assert_eq!(err.code(), "service");
    assert_eq!(
        err.to_string(),
        "service error: external service detected; replace or remove external service before moving"
    );
    assert_eq!(format!("{:?}", store), before);
    assert!(!store.needs_save);
}

#[test]
fn import_registers_an_adopted_profile_with_defaults() {
    let mut store = ConfigStore::fresh();
    let outcome = import_candidate_with(&mut store, &candidate(false), &options(false, true, true), seed("new-1"))
        .expect("imported");
    assert!(!outcome.replace_service);
    assert!(outcome.move_install);
    assert!(outcome.verify);
    let p = &outcome.profile;
    assert_eq!(p.runner_id, "new-1");
    assert_eq!(p.runner_name, "host-1");
    assert_eq!(p.display_name, "host-1");
    assert_eq!(p.labels, vec!["self-hosted".to_string(), "Linux".to_string(), "X86_64".to_string()]);
    assert_eq!(p.work_dir, "/home/u/.runnerbuddy/work/new-1");
    assert_eq!(p.install.mode, InstallMode::Adopted);
    assert_eq!(p.install.install_path, "/opt/actions-runner");
    assert!(p.install.adopted_from_path.is_none());
    assert_eq!(p.install.migration_status, MigrationStatus::NotStarted);
    assert_eq!(p.service.provider, ServiceProvider::Unknown);
    assert!(!p.service.installed);
    assert_eq!(p.pat_alias, "default");
    assert_eq!(p.last_seen_at.as_deref(), Some("2024-02-02T00:00:00Z"));
    assert!(store.needs_save);
    assert_eq!(store.config.runners.len(), 1);
    assert_eq!(store.config.selected_runner_id.as_deref(), Some("new-1"));

    let second = import_candidate_with(&mut store, &candidate(true), &options(true, false, true), seed("new-2"))
        .expect("imported");
    assert!(second.replace_service);
    assert!(!second.move_install);
    assert!(!second.verify);
    assert_eq!(second.profile.service.provider, ServiceProvider::External);
    assert!(second.profile.service.installed);
    assert!(second.profile.service.run_on_boot);
    assert_eq!(second.profile.service.external_id.as_deref(), Some("actions.runner.service"));
    assert_eq!(store.config.runners.len(), 2);
    assert_eq!(store.config.selected_runner_id.as_deref(), Some("new-1"));
}

#[test]
fn candidate_values_win_over_defaults() {
    let mut c = candidate(false);
    c.runner_name = Some("named".to_string());
    c.labels = vec!["x".to_string()];
    c.work_dir = Some("/w".to_string());
    c.scope = Some(RunnerScope::Org { org: "acme".to_string() });
    let p = profile_from_candidate(&c, seed("id"), "alias");
    assert_eq!(p.runner_name, "named");
    assert_eq!(p.display_name, "named");
    assert_eq!(p.labels, vec!["x".to_string()]);
    assert_eq!(p.work_dir, "/w");
    assert_eq!(p.pat_alias, "alias");
    assert!(matches!(p.scope, Some(RunnerScope::Org { .. })));
}

#[test]
fn replacing_an_external_service_keeps_its_identity_for_restoration() {
    let mut store = ConfigStore::fresh();
    let mut profile = import_candidate_with(&mut store, &candidate(true), &options(true, false, false), seed("p"))
        .expect("imported")
        .profile;
    let plan = service_migration_procedure(
        &profile,
        ServiceMigrationStrategy::ReplaceWithRunnerbuddy,
        &None,
        &linux(),
    )
    .expect("plan");
    assert_eq!(plan.tasks.len(), 2);
    assert_eq!(plan.tasks[0].steps.len(), 2);
    assert_eq!(plan.tasks[1].steps.len(), 5);

    let untouched = format!("{:?}", profile);
    let failed = migrate_external_service(
        &mut profile,
        ServiceMigrationStrategy::ReplaceWithRunnerbuddy,
        Err(Error::Service("systemctl command failed".to_string())),
    );
    assert!(failed.is_err());
    assert_eq!(format!("{:?}", profile), untouched);

    migrate_external_service(&mut profile, ServiceMigrationStrategy::ReplaceWithRunnerbuddy, Ok(()))
        .expect("replaced");
    assert_eq!(profile.service.provider, ServiceProvider::Runnerbuddy);
    assert!(profile.service.installed);
    assert!(profile.service.run_on_boot);
    assert!(profile.service.external_id.is_none());
    assert!(profile.service.external_path.is_none());
    let restore = profile.service.external_restore.clone().expect("restore");
    assert_eq!(restore.id.as_deref(), Some("actions.runner.service"));
    assert_eq!(
        restore.path.as_deref(),
        Some("/home/u/.config/systemd/user/actions.runner.service")
    );

    let again = format!("{:?}", profile);
    migrate_external_service(
        &mut profile,
        ServiceMigrationStrategy::ReplaceWithRunnerbuddy,
        Err(Error::Service("ignored".to_string())),
    )
    .expect("not external: nothing to do");
    assert_eq!(format!("{:?}", profile), again);
    let nothing = service_migration_procedure(
        &profile,
        ServiceMigrationStrategy::ReplaceWithRunnerbuddy,
        &None,
        &linux(),
    )
    .expect("plan");
    assert!(nothing.tasks.is_empty());
}

#[test]
fn retiring_an_external_service_clears_the_references() {
    let mut store = ConfigStore::fresh();
    let mut profile = import_candidate_with(&mut store, &candidate(true), &options(false, false, false), seed("p"))
        .expect("imported")
        .profile;
    assert!(remove_external_artifacts(&mut profile, Err(Error::Io("denied".to_string()))).is_err());
    assert_eq!(profile.service.provider, ServiceProvider::External);
    remove_external_artifacts(&mut profile, Ok(())).expect("retired");
    assert_eq!(profile.service.provider, ServiceProvider::Unknown);
    assert!(!profile.service.installed);
    assert!(!profile.service.run_on_boot);
    assert!(profile.service.external_id.is_none());
    assert!(profile.service.external_path.is_none());
}

#[test]
fn move_is_planned_only_for_adopted_installs() {
    let mut store = ConfigStore::fresh();
    import_candidate_with(&mut store, &candidate(false), &options(false, true, false), seed("m")).expect("imported");
    let plan = plan_move(&store.config, "m", None, &dirs()).expect("plan");
    assert_eq!(plan.source, "/opt/actions-runner");
    assert_eq!(plan.destination, "/home/u/.local/share/runnerbuddy/runners/m");
    let chosen = plan_move(&store.config, "m", Some("/srv/r".to_string()), &dirs()).expect("plan");
    assert_eq!(chosen.destination, "/srv/r");
    let missing = plan_move(&store.config, "nope", None, &dirs()).expect_err("missing");
    assert_eq!(missing.to_string(), "runner error: runner nope not found");
    let no_dirs = AppDirs { project: None, home: None };
    assert!(matches!(plan_move(&store.config, "m", None, &no_dirs), Err(Error::Config(_))));

    assert_eq!(
        copy_procedure(&plan, true, true).expect_err("exists").to_string(),
        "runner error: destination already exists"
    );
    assert_eq!(
        copy_procedure(&plan, false, false).expect_err("no source").to_string(),
        "runner error: source path missing"
    );
    let copy = copy_procedure(&plan, false, true).expect("copy");
    match &copy.tasks[0].steps[0].action {
        Action::CopyTree { from, to } => {
            assert_eq!(from, "/opt/actions-runner");
            assert_eq!(to, "/home/u/.local/share/runnerbuddy/runners/m");
        }
        other => panic!("unexpected action {:?}", other),
    }

    let outcome = move_install(&mut store, &plan, false, faithful_copy()).expect("moved");
    assert!(!outcome.install_service);
    assert_eq!(outcome.profile.install.mode, InstallMode::Managed);
    assert_eq!(outcome.profile.install.install_path, "/home/u/.local/share/runnerbuddy/runners/m");
    assert_eq!(outcome.profile.install.adopted_from_path.as_deref(), Some("/opt/actions-runner"));
    assert_eq!(outcome.profile.install.migration_status, MigrationStatus::Moved);
    assert_eq!(store.config.runners[0].install.mode, InstallMode::Managed);

    let again = plan_move(&store.config, "m", None, &dirs()).expect_err("managed");
    assert_eq!(again.to_string(), "runner error: runner already managed");
}

#[test]
fn a_managed_install_is_not_recorded_as_moved_again() {
    let mut store = ConfigStore::fresh();
    import_candidate_with(&mut store, &candidate(false), &options(false, true, false), seed("m")).expect("imported");
    let plan = plan_move(&store.config, "m", None, &dirs()).expect("plan");
    move_install(&mut store, &plan, false, faithful_copy()).expect("moved");
    store.config.runners[0].install.migration_status = MigrationStatus::Verified;
    store.mark_saved();
    let before = format!("{:?}", store);

    let second = MovePlan {
        runner_id: "m".to_string(),
        source: "/elsewhere".to_string(),
        destination: "/dest".to_string(),
    };
    let err = move_install(&mut store, &second, false, faithful_copy()).expect_err("managed");
    assert!(matches!(err, Error::Runner(_)));
    assert_eq!(err.to_string(), "runner error: runner already managed");
    assert_eq!(format!("{:?}", store), before);
    assert!(!store.needs_save);
    assert_eq!(store.config.runners[0].install.migration_status, MigrationStatus::Verified);
    assert_eq!(store.config.runners[0].install.adopted_from_path.as_deref(), Some("/opt/actions-runner"));

    let gone = MovePlan { runner_id: "nope".to_string(), ..second };
    let err = move_install(&mut store, &gone, false, faithful_copy()).expect_err("gone");
    assert_eq!(err.to_string(), "runner error: runner nope not found");
}

#[test]
fn an_identity_that_is_taken_is_not_registered_again() {
    let mut store = ConfigStore::fresh();
    import_candidate_with(&mut store, &candidate(false), &options(false, false, false), seed("one")).expect("imported");
    store.mark_saved();
    let before = format!("{:?}", store);
    let err = import_candidate_with(&mut store, &candidate(false), &options(false, false, false), seed("one"))
        .expect_err("taken");
    assert!(matches!(err, Error::Runner(_)));
    assert_eq!(err.to_string(), "runner error: runner one already exists");
    assert_eq!(format!("{:?}", store), before);
    assert!(!store.needs_save);
    // The refusal for a service in the way comes first.
    let err = import_candidate_with(&mut store, &candidate(true), &options(false, true, false), seed("one"))
        .expect_err("service");
    assert!(matches!(err, Error::Service(_)));

    let imported = import_candidate(&mut store, &candidate(false), &options(false, false, false), &host(), &dirs())
        .expect("imported");
    assert_ne!(imported.profile.runner_id, "one");
    assert_eq!(imported.profile.runner_id.len(), 36);
    assert!(imported.profile.created_at.ends_with('Z'));
    assert_eq!(store.config.runners.len(), 2);
}

#[test]
fn a_bad_copy_is_not_recorded() {
    let mut store = ConfigStore::fresh();
    import_candidate_with(&mut store, &candidate(false), &options(false, true, false), seed("m")).expect("imported");
    store.mark_saved();
    let plan = MovePlan {
        runner_id: "m".to_string(),
        source: "/opt/actions-runner".to_string(),
        destination: "/dest".to_string(),
    };
    let evidence = CopyEvidence {
        config_script: pair(FileProbe::Missing, FileProbe::Missing),
        run_script: pair(FileProbe::Size(10), FileProbe::Size(11)),
        marker: pair(FileProbe::Size(1), FileProbe::Missing),
    };
    let err = move_install(&mut store, &plan, false, evidence).expect_err("mismatch");
    assert_eq!(err.to_string(), "runner error: size mismatch for run.sh");
    assert_eq!(store.config.runners[0].install.mode, InstallMode::Adopted);
    assert!(!store.needs_save);

    let missing = vec![CopyCheck {
        file: ".runner".to_string(),
        source: FileProbe::Unreadable(Error::Io("denied".to_string())),
        destination: FileProbe::Missing,
    }];
    assert_eq!(
        verify_copy(&missing).expect_err("missing").to_string(),
        "runner error: missing .runner after copy"
    );
    let unreadable = vec![CopyCheck {
        file: ".runner".to_string(),
        source: FileProbe::Size(3),
        destination: FileProbe::Unreadable(Error::Io("denied".to_string())),
    }];
    assert_eq!(verify_copy(&unreadable).expect_err("io").to_string(), "io error: denied");
    assert!(verify_copy(&Vec::new()).is_ok());
    let no_marker = CopyEvidence {
        config_script: pair(FileProbe::Size(1), FileProbe::Size(1)),
        run_script: pair(FileProbe::Size(2), FileProbe::Size(2)),
        marker: pair(FileProbe::Size(3), FileProbe::Missing),
    };
    let err = move_install(&mut store, &plan, true, no_marker).expect_err("marker");
    assert_eq!(err.to_string(), "runner error: missing .runner after copy");
    let checks = checks_of(faithful_copy(), true);
    let names: Vec<&str> = checks.iter().map(|c| c.file.as_str()).collect();
    assert_eq!(names, vec!["config.cmd", "run.cmd", ".runner"]);
    assert!(matches!(checks[1].source, FileProbe::Size(10)));
    let names: Vec<String> = checks_of(faithful_copy(), false).into_iter().map(|c| c.file).collect();
    assert_eq!(names, vec!["config.sh", "run.sh", ".runner"]);
    assert_eq!(copy_check_files(false), vec!["config.sh", "run.sh", ".runner"]);
    assert_eq!(copy_check_files(true), vec!["config.cmd", "run.cmd", ".runner"]);
}

#[test]
fn scope_is_found_in_running_text() {
    let text = "fetching https://pipelines.actions.githubusercontent.com/abc then \
                'https://github.com/acme/widgets' done";
    match scope_from_text(text).expect("scope") {
        RunnerScope::Repo { owner, repo } => {
            assert_eq!(owner, "acme");
            assert_eq!(repo, "widgets");
        }
        _ => panic!("unexpected scope"),
    }
    assert!(scope_from_text("no address here").is_none());
    assert!(scope_from_text("https://objects.githubusercontent.com/a/b").is_none());
}

#[test]
fn scope_recovery_prefers_marker_files() {
    let evidence = ScopeEvidence {
        install_path: "/opt/r".to_string(),
        markers: vec![
            "{}".to_string(),
            "{\"gitHubUrl\": \"https://github.com/acme\"}".to_string(),
        ],
        texts: vec!["see https://github.com/other/repo".to_string()],
    };
    match infer_scope_from_install(&evidence).expect("scope") {
        RunnerScope::Org { org } => assert_eq!(org, "acme"),
        _ => panic!("unexpected scope"),
    }
    let only_text = ScopeEvidence {
        install_path: "/opt/r".to_string(),
        markers: vec!["{}".to_string()],
        texts: vec!["nothing".to_string(), "see https://github.com/other/repo now".to_string()],
    };
    match infer_scope_from_install(&only_text).expect("scope") {
        RunnerScope::Repo { owner, repo } => {
            assert_eq!(owner, "other");
            assert_eq!(repo, "repo");
        }
        _ => panic!("unexpected scope"),
    }
    let none = ScopeEvidence { install_path: "/opt/r".to_string(), markers: vec![], texts: vec![] };
    assert!(infer_scope_from_install(&none).is_none());
    assert_eq!(
        candidate_metadata_files("/opt/r"),
        vec![
            "/opt/r/.runner",
            "/opt/r/.credentials",
            "/opt/r/.credentials_rsaparams",
            "/opt/r/.env",
            "/opt/r/.envs"
        ]
    );
    assert!(within_search_depth(4));
    assert!(!within_search_depth(5));
}

#[test]
fn external_service_is_detected_from_definitions() {
    let units = ServiceEvidence::Units(vec![
        UnitFile { path: "/u/other.service".to_string(), contents: "ExecStart=/bin/true\n".to_string() },
        UnitFile { path: "/u/runner.timer".to_string(), contents: "ExecStart=/opt/r/run.sh\n".to_string() },
        UnitFile { path: "/u/runner.service".to_string(), contents: "ExecStart=/opt/r/run.sh\n".to_string() },
    ]);
    let found = detect_external_service("/opt/r", &units).expect("service");
    assert_eq!(found.id.as_deref(), Some("runner.service"));
    assert_eq!(found.path.as_deref(), Some("/u/runner.service"));
    assert!(detect_external_service("/opt/elsewhere", &units).is_none());

    let agents = ServiceEvidence::Agents(vec![
        AgentFile { path: "/a/x.txt".to_string(), bytes: plist("/opt/r/run.sh") },
        AgentFile { path: "/a/com.example.runner.plist".to_string(), bytes: plist("/opt/r/run.sh") },
    ]);
    let found = detect_external_service("/opt/r", &agents).expect("service");
    assert_eq!(found.id.as_deref(), Some("com.example.runner"));
    assert_eq!(found.path.as_deref(), Some("/a/com.example.runner.plist"));

    let report = ServiceEvidence::Report(Some("SERVICE_NAME: actions.runner.x\n".to_string()));
    let found = detect_external_service("C:\\runner", &report).expect("service");
    assert_eq!(found.id.as_deref(), Some("actions.runner.x"));
    assert_eq!(found.path.as_deref(), Some("C:\\runner"));
    let nameless = ServiceEvidence::Report(Some("running\n".to_string()));
    assert_eq!(
        detect_external_service("C:\\runner", &nameless).expect("service").id.as_deref(),
        Some("svc.cmd")
    );
    assert!(detect_external_service("C:\\runner", &ServiceEvidence::Report(None)).is_none());
    assert!(detect_external_service("/opt/r", &ServiceEvidence::Nothing).is_none());
}

#[test]
fn scan_keeps_untracked_installs_only() {
    let mut config = Config::default();
    config.runners.push(RunnerProfile {
        runner_id: "a".to_string(),
        display_name: "A".to_string(),
        scope: None,
        runner_name: "a".to_string(),
        labels: vec![],
        work_dir: "/w".to_string(),
        install: InstallConfig {
            mode: InstallMode::Managed,
            install_path: "/opt/tracked/".to_string(),
            adopted_from_path: None,
            migration_status: MigrationStatus::NotStarted,
        },
        runner_version: None,
        pat_alias: "default".to_string(),
        service: RunnerServiceConfig::default(),
        created_at: "t".to_string(),
        last_seen_at: None,
    });
    assert!(tracks(&config, "/opt/tracked"));
    assert!(!tracks(&config, "/opt/free"));
    let looks = InstallProbe {
        exists: true,
        has_config_script: true,
        has_run_script: true,
        has_marker: true,
        has_diag: false,
    };
    let empty = InstallProbe {
        exists: true,
        has_config_script: false,
        has_run_script: false,
        has_marker: false,
        has_diag: false,
    };
    let install = |path: &str, probe: InstallProbe| ScannedInstall {
        path: path.to_string(),
        probe,
        marker: Some("{\"name\": \"found\"}".to_string()),
        service: None,
        last_log_time: None,
    };
    let installs = vec![
        install("/opt/tracked", looks),
        install("/opt/empty", empty),
        install("/opt/free", looks),
        install("/opt/free2", looks),
    ];
    let candidates = scan(&config, &installs);
    assert_eq!(candidates.len(), 2);
    assert_eq!(candidates[0].install_path, "/opt/free");
    assert_eq!(candidates[1].install_path, "/opt/free2");
    assert_eq!(candidates[0].runner_name.as_deref(), Some("found"));
    assert!(!candidates[0].service_present);
    assert_ne!(candidates[0].candidate_id, candidates[1].candidate_id);
    for candidate in &candidates {
        let id: Vec<char> = candidate.candidate_id.chars().collect();
        assert_eq!(id.len(), 36);
        assert_eq!(id[14], '4');
        assert!(id.iter().all(|c| *c == '-' || c.is_ascii_digit() || ('a'..='f').contains(c)));
    }

    let c = candidate_from(
        &ScannedInstall {
            path: "/opt/x".to_string(),
            probe: looks,
            marker: None,
            service: Some(runnerbuddy::config::ExternalServiceInfo {
                id: Some("svc".to_string()),
                path: None,
            }),
            last_log_time: Some("t".to_string()),
        },
        "cid".to_string(),
    );
    assert_eq!(c.candidate_id, "cid");
    assert!(c.service_present);
    assert_eq!(c.service_id.as_deref(), Some("svc"));
    assert!(c.service_path.is_none());
    assert!(c.runner_name.is_none());
    assert_eq!(c.last_log_time.as_deref(), Some("t"));
}

#[test]
fn scan_targets_are_unique_as_paths() {
    let paths = vec![
        "/home/u/actions-runner".to_string(),
        "/home/u/runner-2".to_string(),
        "/home/u/actions-runner/".to_string(),
        "/home/u/runner-2".to_string(),
        "/home/u/Downloads/runner-2".to_string(),
    ];
    assert_eq!(
        scan_targets(&paths),
        vec!["/home/u/actions-runner", "/home/u/runner-2", "/home/u/Downloads/runner-2"]
    );
    assert!(has_runner_prefix("actions-runner-linux"));
    assert!(has_runner_prefix("runner"));
    assert!(has_runner_prefix("runner2"));
    assert!(!has_runner_prefix("my-runner"));
    assert!(!has_runner_prefix("actions"));
}
