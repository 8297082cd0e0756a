use runnerbuddy::config::{
    default_onboarding, default_pat_alias, default_schema_version, default_settings, AdoptionDefault,
    Config, InstallConfig, InstallMode, MigrationStatus, OnboardingConfig, RunnerProfile,
    RunnerScope, RunnerServiceConfig, ServiceProvider, SettingsConfig, SCHEMA_VERSION,
};
use runnerbuddy::errors::Error;
use runnerbuddy::host::{AppDirs, HostInfo, ProfileSeed, ProjectPaths};
use runnerbuddy::load::{
    apply_missing_fields, document_kind, migrate_external_hint, stored_schema_version, DocumentKind,
    LegacyConfig, LegacyGithubConfig, LegacyRunnerConfig, LegacyServiceConfig, StoredDocument,
};
use runnerbuddy::store::{find_runner, sanitize_selected_runner_id, ConfigStore};

fn host() -> HostInfo {
    HostInfo {
        os: "linux".to_string(),
        arch: "x86_64".to_string(),
        hostname_var: Some("build-host".to_string()),
        computername_var: None,
    }
}

fn dirs() -> AppDirs {
    AppDirs {
        project: Some(ProjectPaths {
            config_dir: "/home/u/.config/runnerbuddy".to_string(),
            data_dir: "/home/u/.local/share/runnerbuddy".to_string(),
        }),
        home: Some("/home/u".to_string()),
    }
}

fn seed(id: &str) -> ProfileSeed {
    ProfileSeed {
        runner_id: id.to_string(),
        created_at: "2024-01-01T00:00:00Z".to_string(),
        runner_name: "host-1".to_string(),
        labels: vec!["self-hosted".to_string(), "Linux".to_string(), "X86_64".to_string()],
        work_dir: format!("/home/u/.runnerbuddy/work/{id}"),
        install_path: Some(format!("/home/u/.local/share/runnerbuddy/runners/{id}")),
    }
}

fn profile(id: &str) -> RunnerProfile {
    RunnerProfile {
        runner_id: id.to_string(),
        display_name: format!("Runner {id}"),
        scope: None,
        runner_name: format!("runner-{id}"),
        labels: vec!["self-hosted".to_string()],
        work_dir: "/tmp/work".to_string(),
        install: InstallConfig {
            mode: InstallMode::Managed,
            install_path: format!("/tmp/{id}"),
            adopted_from_path: None,
            migration_status: MigrationStatus::NotStarted,
        },
        runner_version: None,
        pat_alias: "default".to_string(),
        service: RunnerServiceConfig::default(),
        created_at: "2024-01-01T00:00:00Z".to_string(),
        last_seen_at: None,
    }
}

fn legacy() -> LegacyConfig {
    LegacyConfig {
        schema_version: 1,
        runner: LegacyRunnerConfig {
            name: "runner-1".to_string(),
            labels: vec!["self-hosted".to_string()],
            work_dir: "/tmp/work".to_string(),
            scope: None,
        },
        service: LegacyServiceConfig { installed: true, run_on_boot: true },
        github: LegacyGithubConfig::default(),
        runner_version: Some("2.0".to_string()),
        install_path: "/tmp/runner".to_string(),
    }
}

fn json(text: &str) -> serde_json::Value {
    serde_json::from_str(text).expect("valid json")
}

#[test]
fn default_config_onboarding_incomplete() {
    let config = Config::default();
    assert!(!config.onboarding.completed);
    assert!(config.onboarding.completed_at.is_none());
}

#[test]
fn apply_missing_fields_marks_onboarding_complete() {
    let mut config = Config::default();
    let value = json(&format!("{{\"schema_version\": {}}}", SCHEMA_VERSION));
    assert!(apply_missing_fields(&mut config, &value));
    assert!(config.onboarding.completed);
    assert!(config.settings.auto_updates_enabled);
}

#[test]
fn apply_missing_fields_respects_existing_settings() {
    let mut config = Config::default();
    config.onboarding.completed = false;
    config.settings.auto_updates_enabled = false;
    let value = json(&format!(
        "{{\"schema_version\": {}, \"onboarding\": {{\"completed\": false, \"completed_at\": null}}, \
         \"settings\": {{\"auto_updates_enabled\": false, \"auto_check_updates_on_launch\": false, \
         \"adoption_default\": \"adopt\"}}}}",
        SCHEMA_VERSION
    ));
    assert!(!apply_missing_fields(&mut config, &value));
    assert!(!config.onboarding.completed);
    assert!(!config.settings.auto_updates_enabled);
}

#[test]
fn migrates_legacy_config() {
    let migrated = Config::migrate_from_legacy(legacy(), &host(), &dirs()).expect("migrate");
    assert_eq!(migrated.schema_version, SCHEMA_VERSION);
    assert_eq!(migrated.runners.len(), 1);
    assert_eq!(migrated.runners[0].runner_name, "runner-1");
    assert!(migrated.selected_runner_id.is_some());
}

#[test]
fn remove_endpoint_matches_scope() {
    let repo = RunnerScope::Repo { owner: "org".to_string(), repo: "repo".to_string() };
    assert_eq!(repo.api_remove_endpoint(), "/repos/org/repo/actions/runners/remove-token");
    let org = RunnerScope::Org { org: "acme".to_string() };
    assert_eq!(org.api_remove_endpoint(), "/orgs/acme/actions/runners/remove-token");
    let enterprise = RunnerScope::Enterprise { enterprise: "umbrella".to_string() };
    assert_eq!(
        enterprise.api_remove_endpoint(),
        "/enterprises/umbrella/actions/runners/remove-token"
    );
}

#[test]
fn registration_endpoint_matches_scope() {
    let repo = RunnerScope::Repo { owner: "org".to_string(), repo: "repo".to_string() };
    assert_eq!(
        repo.api_registration_endpoint(),
        "/repos/org/repo/actions/runners/registration-token"
    );
    let org = RunnerScope::Org { org: "acme".to_string() };
    assert_eq!(org.api_registration_endpoint(), "/orgs/acme/actions/runners/registration-token");
    let enterprise = RunnerScope::Enterprise { enterprise: "umbrella".to_string() };
    assert_eq!(
        enterprise.api_registration_endpoint(),
        "/enterprises/umbrella/actions/runners/registration-token"
    );
}

#[test]
fn scope_url_matches_scope() {
    let repo = RunnerScope::Repo { owner: "org".to_string(), repo: "repo".to_string() };
    assert_eq!(repo.url(), "https://github.com/org/repo");
    let org = RunnerScope::Org { org: "acme".to_string() };
    assert_eq!(org.url(), "https://github.com/acme");
    let enterprise = RunnerScope::Enterprise { enterprise: "umbrella".to_string() };
    assert_eq!(enterprise.url(), "https://github.com/enterprises/umbrella");
}

#[test]
fn defaults_are_as_documented() {
    assert_eq!(default_schema_version(), 3);
    assert_eq!(default_pat_alias(), "default");
    assert!(!default_onboarding().completed);
    let settings = default_settings();
    assert!(settings.auto_updates_enabled);
    assert!(settings.auto_check_updates_on_launch);
    assert_eq!(settings.adoption_default, AdoptionDefault::Adopt);
    let config = Config::default();
    assert_eq!(config.schema_version, 3);
    assert!(config.selected_runner_id.is_none());
    assert_eq!(config.pat_default_alias, "default");
    assert!(config.runners.is_empty());
    let upgraded = OnboardingConfig::completed_for_upgrade();
    assert!(upgraded.completed);
    assert!(upgraded.completed_at.is_none());
    assert_eq!(SettingsConfig::default(), settings);
    assert_eq!(MigrationStatus::default(), MigrationStatus::NotStarted);
}

#[test]
fn clone_keeps_every_field() {
    let mut p = profile("a");
    p.scope = Some(RunnerScope::Org { org: "acme".to_string() });
    p.service.external_id = Some("svc".to_string());
    p.last_seen_at = Some("later".to_string());
    let c = p.clone();
    assert_eq!(format!("{:?}", c), format!("{:?}", p));
    let mut config = Config::default();
    config.runners.push(p);
    config.selected_runner_id = Some("a".to_string());
    assert_eq!(format!("{:?}", config.clone()), format!("{:?}", config));
}

#[test]
fn find_runner_returns_first_match_or_error() {
    let mut config = Config::default();
    config.runners.push(profile("a"));
    config.runners.push(profile("b"));
    let mut second_b = profile("b");
    second_b.display_name = "other".to_string();
    config.runners.push(second_b);
    let found = find_runner(&config, "b").expect("found");
    assert_eq!(found.display_name, "Runner b");
    let err = find_runner(&config, "zzz").expect_err("missing");
    assert_eq!(err.to_string(), "runner error: runner zzz not found");
    assert_eq!(err.code(), "runner");
}

#[test]
fn sanitize_repairs_selection() {
    let mut config = Config::default();
    config.selected_runner_id = Some("ghost".to_string());
    assert!(sanitize_selected_runner_id(&mut config));
    assert!(config.selected_runner_id.is_none());
    assert!(!sanitize_selected_runner_id(&mut config));

    config.runners.push(profile("a"));
    config.runners.push(profile("b"));
    assert!(sanitize_selected_runner_id(&mut config));
    assert_eq!(config.selected_runner_id.as_deref(), Some("a"));

    config.selected_runner_id = Some("b".to_string());
    assert!(!sanitize_selected_runner_id(&mut config));
    assert_eq!(config.selected_runner_id.as_deref(), Some("b"));

    config.selected_runner_id = Some("ghost".to_string());
    assert!(sanitize_selected_runner_id(&mut config));
    assert_eq!(config.selected_runner_id.as_deref(), Some("a"));
}

#[test]
fn update_always_leaves_a_valid_selection() {
    let mut store = ConfigStore::fresh();
    assert!(!store.needs_save);
    let snapshot = store.update(|mut c| {
        c.runners.push(profile("a"));
        c.runners.push(profile("b"));
        c.selected_runner_id = Some("nobody".to_string());
        c
    });
    assert_eq!(snapshot.selected_runner_id.as_deref(), Some("a"));
    assert!(store.needs_save);
    store.mark_saved();
    assert!(!store.needs_save);
    let snapshot = store.update(|mut c| {
        c.runners.clear();
        c
    });
    assert!(snapshot.selected_runner_id.is_none());
    assert_eq!(store.get().runners.len(), 0);
}

#[test]
fn update_runner_changes_one_profile_and_keeps_its_identity() {
    let mut store = ConfigStore::fresh();
    store.update(|mut c| {
        c.runners.push(profile("a"));
        c.runners.push(profile("b"));
        c
    });
    let updated = store
        .update_runner("b", |mut p| {
            p.display_name = "renamed".to_string();
            p.runner_id = "hijacked".to_string();
            p
        })
        .expect("updated");
    assert_eq!(updated.runner_id, "b");
    assert_eq!(updated.display_name, "renamed");
    let config = store.get();
    assert_eq!(config.runners[0].display_name, "Runner a");
    assert_eq!(config.runners[1].display_name, "renamed");
    assert_eq!(config.runners[1].runner_id, "b");
    let err = store.update_runner("missing", |p| p).expect_err("missing");
    assert_eq!(err.to_string(), "runner error: runner missing not found");
}

#[test]
fn holding_repairs_and_asks_for_a_save() {
    let mut config = Config::default();
    config.runners.push(profile("a"));
    let store = ConfigStore::holding(config);
    assert!(store.needs_save);
    assert_eq!(store.config.selected_runner_id.as_deref(), Some("a"));
    let store = ConfigStore::holding(store.get());
    assert!(!store.needs_save);
}

#[test]
fn put_replaces_first_profile_with_same_identity() {
    let mut store = ConfigStore::fresh();
    store.update(|mut c| {
        c.runners.push(profile("a"));
        c
    });
    let mut next = profile("a");
    next.display_name = "new".to_string();
    store.put(next).expect("put");
    assert_eq!(store.config.runners[0].display_name, "new");
    assert!(store.put(profile("zz")).is_err());
    assert_eq!(store.config.runners.len(), 1);
}

#[test]
fn legacy_document_loads_as_one_selected_profile() {
    let store = ConfigStore::load_with(StoredDocument::Legacy(legacy()), seed("id-1")).expect("load");
    assert!(store.needs_save);
    let config = store.get();
    assert_eq!(config.schema_version, 3);
    assert_eq!(config.runners.len(), 1);
    assert!(config.onboarding.completed);
    assert_eq!(config.selected_runner_id.as_deref(), Some("id-1"));
    let p = &config.runners[0];
    assert_eq!(p.runner_id, "id-1");
    assert_eq!(p.display_name, "runner-1");
    assert_eq!(p.install.mode, InstallMode::Managed);
    assert_eq!(p.install.install_path, "/tmp/runner");
    assert_eq!(p.install.migration_status, MigrationStatus::NotStarted);
    assert_eq!(p.service.provider, ServiceProvider::Runnerbuddy);
    assert_eq!(p.runner_version.as_deref(), Some("2.0"));
    assert_eq!(p.pat_alias, "default");
    assert_eq!(p.created_at, "2024-01-01T00:00:00Z");
}

#[test]
fn legacy_document_takes_defaults_for_what_it_lacks() {
    let mut old = legacy();
    old.install_path = String::new();
    old.runner.name = "   ".to_string();
    old.service = LegacyServiceConfig::default();
    let config = Config::from_legacy(old, seed("id-2")).expect("migrated");
    let p = &config.runners[0];
    assert_eq!(p.install.install_path, "/home/u/.local/share/runnerbuddy/runners/id-2");
    assert_eq!(p.display_name, "host-1");
    assert_eq!(p.runner_name, "   ");
    assert_eq!(p.service.provider, ServiceProvider::Unknown);
}

#[test]
fn legacy_document_without_any_install_path_fails() {
    let mut old = legacy();
    old.install_path = String::new();
    let mut s = seed("id-3");
    s.install_path = None;
    let err = Config::from_legacy(old, s).expect_err("no path");
    assert_eq!(err.to_string(), "config error: failed to resolve project directories");
}

#[test]
fn absent_document_loads_as_fresh_configuration() {
    let store = ConfigStore::load(StoredDocument::Absent, &host(), &dirs()).expect("load");
    assert!(!store.needs_save);
    assert_eq!(store.config.schema_version, 3);
    assert!(store.config.runners.is_empty());
    assert!(!store.config.onboarding.completed);
}

#[test]
fn versioned_document_is_backfilled_and_saved() {
    let mut config = Config::default();
    config.schema_version = 2;
    config.runners.push(profile("a"));
    let value = json(
        "{\"schema_version\": 2, \"runners\": [{\"service\": {\"external_hint\": \"old.service\"}}]}",
    );
    assert_eq!(stored_schema_version(&value), 2);
    assert_eq!(document_kind(&value), DocumentKind::Outdated);
    let store = ConfigStore::load_with(StoredDocument::Versioned { config, value }, seed("x"))
        .expect("load");
    assert!(store.needs_save);
    assert_eq!(store.config.schema_version, 3);
    assert!(store.config.onboarding.completed);
    assert_eq!(store.config.settings, SettingsConfig::default());
    assert_eq!(store.config.selected_runner_id.as_deref(), Some("a"));
    assert_eq!(store.config.runners[0].service.external_id.as_deref(), Some("old.service"));
}

#[test]
fn intact_current_document_is_left_untouched() {
    let mut config = Config::default();
    config.runners.push(profile("a"));
    config.selected_runner_id = Some("a".to_string());
    config.onboarding.completed = false;
    config.settings.auto_updates_enabled = false;
    let value = json(
        "{\"schema_version\": 3, \"onboarding\": {\"completed\": false}, \"settings\": {}, \"runners\": []}",
    );
    assert_eq!(document_kind(&value), DocumentKind::Current);
    let before = format!("{:?}", config);
    let store = ConfigStore::load_with(StoredDocument::Versioned { config, value }, seed("x"))
        .expect("load");
    assert!(!store.needs_save);
    assert_eq!(format!("{:?}", store.config), before);
}

#[test]
fn schema_version_defaults_to_legacy_and_is_cut_to_32_bits() {
    assert_eq!(stored_schema_version(&json("{}")), 1);
    assert_eq!(document_kind(&json("{}")), DocumentKind::Legacy);
    assert_eq!(stored_schema_version(&json("{\"schema_version\": \"3\"}")), 1);
    assert_eq!(stored_schema_version(&json("{\"schema_version\": 4294967299}")), 3);
    assert_eq!(stored_schema_version(&json("{\"schema_version\": 7}")), 7);
    assert_eq!(document_kind(&json("{\"schema_version\": 7}")), DocumentKind::Current);
}

#[test]
fn external_hint_is_taken_only_where_no_identity_is_recorded() {
    let mut config = Config::default();
    config.runners.push(profile("a"));
    let mut b = profile("b");
    b.service.external_id = Some("kept".to_string());
    config.runners.push(b);
    config.runners.push(profile("c"));
    let value = json(
        "{\"runners\": [{\"service\": {\"external_hint\": \"one\"}}, \
         {\"service\": {\"external_hint\": \"two\"}}, {\"service\": {}}, \
         {\"service\": {\"external_hint\": \"four\"}}]}",
    );
    migrate_external_hint(&mut config, &value);
    assert_eq!(config.runners[0].service.external_id.as_deref(), Some("one"));
    assert_eq!(config.runners[1].service.external_id.as_deref(), Some("kept"));
    assert!(config.runners[2].service.external_id.is_none());
    let mut untouched = Config::default();
    untouched.runners.push(profile("a"));
    migrate_external_hint(&mut untouched, &json("{\"runners\": 5}"));
    assert!(untouched.runners[0].service.external_id.is_none());
}

#[test]
fn a_failed_write_is_a_config_error_and_the_change_stays() {
    let mut store = ConfigStore::fresh();
    store.update(|mut config| {
        config.pat_default_alias = "work".to_string();
        config
    });
    assert!(store.needs_save);
    let err = store.written(Err("io error: disk full".to_string())).expect_err("failed");
    assert!(matches!(err, Error::Config(_)));
    assert_eq!(err.code(), "config");
    assert_eq!(err.to_string(), "config error: failed to write configuration: io error: disk full");
    assert!(store.needs_save);
    assert_eq!(store.get().pat_default_alias, "work");

    store.written(Ok(())).expect("written");
    assert!(!store.needs_save);
    assert_eq!(store.get().pat_default_alias, "work");
}
