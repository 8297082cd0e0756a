use runnerbuddy::config::{
    InstallConfig, InstallMode, MigrationStatus, RunnerProfile, RunnerScope, RunnerServiceConfig,
};
use runnerbuddy::host::{AppDirs, ProjectPaths};
use runnerbuddy::procedure::Action;
use runnerbuddy::runner_mgmt::{
    archive_kind, check_download, classify_runner_status, config_script_path, configure_command,
    configure_failed, detect_platform, downloads_dir, find_asset_urls, first_word_of,
    has_ready_marker, has_ready_marker_since, latest_log_file, log_baseline, mark_configured,
    mark_downloaded, normalize_version, release_url, repair_runner_scope, run_script_path,
    runner_config_script, runner_log_dir, runner_run_script, scope_repair_target, start_plan,
    verify_sha256, ArchiveKind, LogFile, ReleaseAsset,
};
use runnerbuddy::state::RunnerStatus;
use runnerbuddy::store::ConfigStore;

fn dirs() -> AppDirs {
    AppDirs {
        project: Some(ProjectPaths {
            config_dir: "/home/u/.config/runnerbuddy".to_string(),
            data_dir: "/home/u/.local/share/runnerbuddy".to_string(),
        }),
        home: Some("/home/u".to_string()),
    }
}

fn profile() -> RunnerProfile {
    RunnerProfile {
        runner_id: "abc".to_string(),
        display_name: "Test".to_string(),
        scope: None,
        runner_name: "runner".to_string(),
        labels: vec!["self-hosted".to_string()],
        work_dir: "/tmp".to_string(),
        install: InstallConfig {
            mode: InstallMode::Managed,
            install_path: "~/runner".to_string(),
            adopted_from_path: None,
            migration_status: MigrationStatus::NotStarted,
        },
        runner_version: None,
        pat_alias: "default".to_string(),
        service: RunnerServiceConfig::default(),
        created_at: "t".to_string(),
        last_seen_at: None,
    }
}

fn store() -> ConfigStore {
    let mut store = ConfigStore::fresh();
    store.update(|mut c| {
        c.runners.push(profile());
        c
    });
    store.mark_saved();
    store
}

fn asset(name: &str, url: &str) -> ReleaseAsset {
    ReleaseAsset { name: name.to_string(), browser_download_url: url.to_string() }
}

#[test]
fn readiness_is_read_from_the_last_lines() {
    assert!(has_ready_marker("2024 INFO Listening for Jobs\n"));
    assert!(has_ready_marker("a\nb\nRunner listener started\nc"));
    assert!(has_ready_marker("√ Connected to GitHub\r\n"));
    assert!(has_ready_marker("Listening for jobs"));
    assert!(has_ready_marker("x Runner started y"));
    assert!(!has_ready_marker("listening for jobs"));
    assert!(!has_ready_marker(""));
    let mut old = String::from("Listening for Jobs\n");
    for i in 0..2000 {
        old.push_str(&format!("line {i}\n"));
    }
    assert!(!has_ready_marker(&old));
    let mut recent = String::from("first\nListening for Jobs\n");
    for i in 0..1999 {
        recent.push_str(&format!("line {i}\n"));
    }
    assert!(has_ready_marker(&recent));
}

#[test]
fn stale_readiness_does_not_count() {
    let before = "Listening for Jobs\nshutting down\n";
    let baseline = log_baseline(Some("Runner_1.log".to_string()), before);
    assert_eq!(baseline.seen, before.chars().count());
    assert!(!has_ready_marker_since(&baseline, "Runner_1.log", before));
    let grown = format!("{before}starting\nListening for Jobs\n");
    assert!(has_ready_marker_since(&baseline, "Runner_1.log", &grown));
    let grown_without = format!("{before}starting\n");
    assert!(!has_ready_marker_since(&baseline, "Runner_1.log", &grown_without));
    assert!(has_ready_marker_since(&baseline, "Runner_2.log", "Listening for Jobs\n"));
    assert!(has_ready_marker_since(&baseline, "Runner_1.log", "Listening for Jobs\n"));
    let none = log_baseline(None, "ignored");
    assert_eq!(none.seen, 0);
    assert!(has_ready_marker_since(&none, "Runner_1.log", before));
}

#[test]
fn status_is_classified_from_the_log() {
    assert_eq!(classify_runner_status(None), RunnerStatus::Idle);
    assert_eq!(classify_runner_status(Some("")), RunnerStatus::Idle);
    assert_eq!(classify_runner_status(Some("Running job: build\n")), RunnerStatus::Running);
    assert_eq!(classify_runner_status(Some("x Job started\n")), RunnerStatus::Running);
    assert_eq!(
        classify_runner_status(Some("Running job: build\nJob completed\n")),
        RunnerStatus::Idle
    );
    assert_eq!(
        classify_runner_status(Some("Job finished\nRunning job: build\n")),
        RunnerStatus::Idle
    );
    assert_eq!(classify_runner_status(Some("Job completed\n")), RunnerStatus::Idle);
}

#[test]
fn latest_log_is_the_last_written() {
    let file = |path: &str, modified: Option<u128>| LogFile { path: path.to_string(), modified };
    assert!(latest_log_file(&vec![]).is_none());
    assert_eq!(latest_log_file(&vec![file("a", None)]).as_deref(), Some("a"));
    assert_eq!(
        latest_log_file(&vec![file("a", Some(5)), file("b", Some(9)), file("c", Some(7))]).as_deref(),
        Some("b")
    );
    assert_eq!(
        latest_log_file(&vec![file("a", Some(9)), file("b", None), file("c", Some(9))]).as_deref(),
        Some("c")
    );
    assert_eq!(latest_log_file(&vec![file("a", None), file("b", None)]).as_deref(), Some("b"));
    assert_eq!(latest_log_file(&vec![file("a", Some(0)), file("b", None)]).as_deref(), Some("a"));
}

#[test]
fn scripts_are_found_in_the_install() {
    assert_eq!(runner_log_dir(&profile(), &dirs()), "/home/u/runner/_diag");
    assert_eq!(config_script_path("/r", false), "/r/config.sh");
    assert_eq!(config_script_path("/r", true), "/r/config.cmd");
    assert_eq!(run_script_path("/r", false), "/r/run.sh");
    assert_eq!(run_script_path("/r", true), "/r/run.cmd");
    assert_eq!(runner_config_script("/r", false, true).expect("script"), "/r/config.sh");
    assert_eq!(
        runner_config_script("/r", false, false).expect_err("missing").to_string(),
        "runner error: runner config script not found at \"/r/config.sh\""
    );
    assert_eq!(runner_run_script("/r", true, true).expect("script"), "/r/run.cmd");
    assert_eq!(
        runner_run_script("/r", false, false).expect_err("missing").to_string(),
        "runner error: runner run script not found at \"/r/run.sh\""
    );
    assert_eq!(
        runner_run_script("/a \"b\"", false, false).expect_err("missing").to_string(),
        "runner error: runner run script not found at \"/a \\\"b\\\"/run.sh\""
    );
}

#[test]
fn start_is_planned_in_the_install() {
    let plan = start_plan(&profile(), &dirs(), false, true).expect("plan");
    assert_eq!(plan.dir, "/home/u/runner");
    assert_eq!(plan.script, "/home/u/runner/run.sh");
    assert_eq!(plan.log_dir, "/home/u/.local/share/runnerbuddy/logs/abc");
    assert_eq!(plan.stdout, "/home/u/.local/share/runnerbuddy/logs/abc/runner-stdout.log");
    assert_eq!(plan.stderr, "/home/u/.local/share/runnerbuddy/logs/abc/runner-stderr.log");
    assert!(start_plan(&profile(), &dirs(), false, false).is_err());
    let nowhere = AppDirs { project: None, home: None };
    assert_eq!(
        start_plan(&profile(), &nowhere, false, true).expect_err("no dirs").to_string(),
        "config error: failed to resolve project directories"
    );
}

#[test]
fn releases_are_named_by_platform() {
    let linux = detect_platform("linux", "x86_64").expect("platform");
    assert_eq!((linux.os, linux.arch, linux.ext), ("linux", "x64", "tar.gz"));
    assert_eq!(linux.asset_prefix(), "actions-runner-linux-x64");
    assert_eq!(linux.asset_name("2.300.0"), "actions-runner-linux-x64-2.300.0.tar.gz");
    let mac = detect_platform("macos", "aarch64").expect("platform");
    assert_eq!((mac.os, mac.arch, mac.ext), ("osx", "arm64", "tar.gz"));
    let win = detect_platform("windows", "x86_64").expect("platform");
    assert_eq!((win.os, win.arch, win.ext), ("win", "x64", "zip"));
    assert_eq!(
        detect_platform("freebsd", "x86_64").expect_err("os").to_string(),
        "unsupported platform: unsupported OS: freebsd"
    );
    assert_eq!(
        detect_platform("linux", "riscv64").expect_err("arch").to_string(),
        "unsupported platform: unsupported architecture: riscv64"
    );
    assert_eq!(normalize_version("v2.300.0"), "2.300.0");
    assert_eq!(normalize_version("vv2"), "2");
    assert_eq!(normalize_version("2.v"), "2.v");
    assert_eq!(normalize_version(""), "");
    assert_eq!(release_url(None), "https://api.github.com/repos/actions/runner/releases/latest");
    assert_eq!(
        release_url(Some("v2.300.0")),
        "https://api.github.com/repos/actions/runner/releases/tags/v2.300.0"
    );
    assert_eq!(archive_kind("a.tar.gz").expect("kind"), ArchiveKind::TarGz);
    assert_eq!(archive_kind("a.zip").expect("kind"), ArchiveKind::Zip);
    assert_eq!(
        archive_kind("a.rar").expect_err("kind").to_string(),
        "runner error: unsupported archive format: a.rar"
    );
}

#[test]
fn release_files_are_found_by_name() {
    let assets = vec![
        asset("other.zip", "https://x/other"),
        asset("r.tar.gz", "https://x/r"),
        asset("r.tar.gz.sha256", "https://x/r.sha"),
        asset("r.tar.gz", "https://x/second"),
    ];
    let (url, sha) = find_asset_urls(&assets, "r.tar.gz").expect("found");
    assert_eq!(url, "https://x/r");
    assert_eq!(sha.as_deref(), Some("https://x/r.sha"));
    let (url, sha) = find_asset_urls(&assets, "other.zip").expect("found");
    assert_eq!(url, "https://x/other");
    assert!(sha.is_none());
    assert_eq!(
        find_asset_urls(&assets, "missing").expect_err("missing").to_string(),
        "runner error: runner asset not found: missing"
    );
}

#[test]
fn downloads_are_checked_against_their_checksum() {
    let data = b"abc".to_vec();
    let hex = "ba7816bf8f01cfea414140de5dae2223b00361a396177a9cb410ff61f20015ad".to_string();
    assert!(verify_sha256(
        "e3b0c44298fc1c149afbf4c8996fb92427ae41e4649b934ca495991b7852b855",
        &Vec::new()
    )
    .is_ok());
    assert!(verify_sha256("abc", &data).is_err());
    assert!(verify_sha256("616263", &data).is_err());
    assert_eq!(first_word_of("  word  rest"), "word");
    assert_eq!(first_word_of("word"), "word");
    assert_eq!(first_word_of(" \n "), "");
    assert_eq!(first_word_of(""), "");
    assert!(verify_sha256(&format!("{hex}  actions-runner.tar.gz\n"), &data).is_ok());
    assert!(verify_sha256(&format!("\n{hex}"), &data).is_ok());
    assert_eq!(
        verify_sha256(&hex.to_uppercase(), &data).expect_err("case").to_string(),
        "runner error: sha256 mismatch for runner download"
    );
    assert!(verify_sha256("", &data).is_err());
    assert!(verify_sha256(&hex, &b"abd".to_vec()).is_err());
}

#[test]
fn download_and_configuration_are_recorded() {
    let mut p = profile();
    assert!(check_download(&p).is_ok());
    mark_downloaded(&mut p, "2.300.0", "/home/u/runner");
    assert_eq!(p.runner_version.as_deref(), Some("2.300.0"));
    assert_eq!(p.install.install_path, "/home/u/runner");
    p.install.mode = InstallMode::Adopted;
    assert_eq!(
        check_download(&p).expect_err("adopted").to_string(),
        "runner error: cannot download runner for adopted install"
    );
    assert_eq!(downloads_dir(&dirs()).expect("dir"), "/home/u/.local/share/runnerbuddy/downloads");
    let scope = RunnerScope::Repo { owner: "org".to_string(), repo: "repo".to_string() };
    let labels = vec!["self-hosted".to_string(), "linux".to_string()];
    match configure_command("/r/config.sh", "/r", &scope, "TOKEN", "name", &labels, "/w") {
        Action::Run { program, args, dir } => {
            assert_eq!(program, "/r/config.sh");
            assert_eq!(dir.as_deref(), Some("/r"));
            assert_eq!(
                args,
                vec![
                    "--unattended",
                    "--replace",
                    "--url",
                    "https://github.com/org/repo",
                    "--token",
                    "TOKEN",
                    "--name",
                    "name",
                    "--labels",
                    "self-hosted,linux",
                    "--work",
                    "/w"
                ]
            );
        }
        other => panic!("unexpected action {:?}", other),
    }
    assert_eq!(
        configure_failed("exit status: 1").to_string(),
        "runner error: runner config failed with status exit status: 1"
    );
    mark_configured(&mut p, scope, "name".to_string(), labels, "/w".to_string());
    assert_eq!(p.runner_name, "name");
    assert_eq!(p.work_dir, "/w");
    assert_eq!(p.labels.len(), 2);
    assert!(p.scope.is_some());
}

#[test]
fn lost_scope_is_repaired() {
    let mut s = store();
    assert_eq!(scope_repair_target(&s, "abc", &dirs()).expect("target").as_deref(), Some("/home/u/runner"));
    assert!(scope_repair_target(&s, "zzz", &dirs()).is_err());
    assert_eq!(
        repair_runner_scope(&mut s, "abc", &dirs(), false, None).expect_err("gone").to_string(),
        "runner error: runner install path does not exist: /home/u/runner"
    );
    assert_eq!(
        repair_runner_scope(&mut s, "abc", &dirs(), true, None).expect_err("none").to_string(),
        "runner error: unable to infer scope from local runner install; ensure the runner is configured and `.runner` exists"
    );
    assert!(!s.needs_save);
    let repaired = repair_runner_scope(
        &mut s,
        "abc",
        &dirs(),
        true,
        Some(RunnerScope::Org { org: "acme".to_string() }),
    )
    .expect("repaired");
    assert!(matches!(repaired.scope, Some(RunnerScope::Org { .. })));
    assert!(s.needs_save);
    assert!(s.config.runners[0].scope.is_some());
    s.mark_saved();
    assert!(scope_repair_target(&s, "abc", &dirs()).expect("target").is_none());
    let kept = repair_runner_scope(
        &mut s,
        "abc",
        &dirs(),
        false,
        Some(RunnerScope::Org { org: "other".to_string() }),
    )
    .expect("kept");
    match kept.scope {
        Some(RunnerScope::Org { org }) => assert_eq!(org, "acme"),
        _ => panic!("unexpected scope"),
    }
    assert!(!s.needs_save);
    assert!(repair_runner_scope(&mut s, "zzz", &dirs(), true, None).is_err());
}

#[test]
fn network_failures_and_commands_are_worded() {
    assert_eq!(
        runnerbuddy::runner_mgmt::fetch_failed(runnerbuddy::runner_mgmt::Fetch::Release, "404 Not Found").to_string(),
        "runner error: release lookup failed: 404 Not Found"
    );
    assert_eq!(
        runnerbuddy::runner_mgmt::fetch_failed(runnerbuddy::runner_mgmt::Fetch::Download, "500").to_string(),
        "runner error: runner download failed: 500"
    );
    assert_eq!(
        runnerbuddy::runner_mgmt::fetch_failed(runnerbuddy::runner_mgmt::Fetch::Checksum, "403").to_string(),
        "runner error: sha256 download failed: 403"
    );
    assert_eq!(
        runnerbuddy::runner_mgmt::zip_failed(true, "bad magic").to_string(),
        "runner error: zip open failed: bad magic"
    );
    assert_eq!(
        runnerbuddy::runner_mgmt::zip_failed(false, "crc").to_string(),
        "runner error: zip entry failed: crc"
    );
    assert!(runnerbuddy::runner_mgmt::is_directory_entry("bin/"));
    assert!(!runnerbuddy::runner_mgmt::is_directory_entry("bin/run.sh"));
    assert!(!runnerbuddy::runner_mgmt::is_directory_entry(""));
    assert_eq!(
        runnerbuddy::runner_mgmt::require_pat(Some("p".to_string()), runnerbuddy::runner_mgmt::TokenUse::Configure)
            .expect("pat"),
        "p"
    );
    assert_eq!(
        runnerbuddy::runner_mgmt::require_pat(None, runnerbuddy::runner_mgmt::TokenUse::Configure)
            .expect_err("none")
            .to_string(),
        "runner error: no PAT found in credential store; save a token first"
    );
    assert_eq!(
        runnerbuddy::runner_mgmt::require_pat(None, runnerbuddy::runner_mgmt::TokenUse::Unregister)
            .expect_err("none")
            .to_string(),
        "runner error: PAT not found for unregister"
    );
    match runnerbuddy::runner_mgmt::unregister_command("/r/config.sh", "/r", "TOKEN") {
        Action::Run { program, args, dir } => {
            assert_eq!(program, "/r/config.sh");
            assert_eq!(args, vec!["remove", "--token", "TOKEN"]);
            assert_eq!(dir.as_deref(), Some("/r"));
        }
        other => panic!("unexpected action {:?}", other),
    }
    assert_eq!(runnerbuddy::profiles::pat_not_found().to_string(), "secrets: PAT not found in keychain");
    assert_eq!(runnerbuddy::profiles::candidate_not_found().to_string(), "discover: candidate not found");
    assert_eq!(runnerbuddy::discovery::MARKER_FILE, ".runner");
    assert_eq!(runnerbuddy::discovery::DIAG_DIR, "_diag");
    assert_eq!(runnerbuddy::discovery::install_file("/r", "run.sh"), "/r/run.sh");
    assert_eq!(runnerbuddy::discovery::scan_roots(&dirs()), vec!["/home/u", "/home/u/Downloads"]);
    assert!(runnerbuddy::discovery::scan_roots(&AppDirs { project: None, home: None }).is_empty());
    let ctx = |platform| runnerbuddy::service_mgmt::ServiceContext { platform, dirs: dirs(), uid: Ok("1".to_string()) };
    assert_eq!(
        runnerbuddy::service_mgmt::definitions_dir(&ctx(runnerbuddy::service_mgmt::Platform::Linux)).as_deref(),
        Some("/home/u/.config/systemd/user")
    );
    assert_eq!(
        runnerbuddy::service_mgmt::definitions_dir(&ctx(runnerbuddy::service_mgmt::Platform::MacOs)).as_deref(),
        Some("/home/u/Library/LaunchAgents")
    );
    assert!(runnerbuddy::service_mgmt::definitions_dir(&ctx(runnerbuddy::service_mgmt::Platform::Windows)).is_none());
}
