use runnerbuddy::host::{
    config_path, data_dir, default_install_path, default_runner_labels, default_runner_name,
    default_work_dir, expand_path, is_windows, logs_dir, managed_runners_dir, new_runner_id,
    now_iso8601, pick_runner_name, platform_label, runner_logs_dir, timestamp_of,
    timestamp_or_epoch, AppDirs, EpochOffset, HostInfo, ProfileSeed, ProjectPaths,
};
use std::time::{Duration, UNIX_EPOCH};

fn host() -> HostInfo {
    HostInfo {
        os: "macos".to_string(),
        arch: "aarch64".to_string(),
        hostname_var: Some("  from-env ".to_string()),
        computername_var: Some("computer".to_string()),
    }
}

fn dirs() -> AppDirs {
    AppDirs {
        project: Some(ProjectPaths {
            config_dir: "/home/u/.config/runnerbuddy".to_string(),
            data_dir: "/home/u/.local/share/runnerbuddy".to_string(),
        }),
        home: Some("/home/u".to_string()),
    }
}

#[test]
fn application_directories_are_laid_out_under_the_project_dirs() {
    let d = dirs();
    assert_eq!(d.config_path().expect("path"), "/home/u/.config/runnerbuddy/config.json");
    assert_eq!(d.data_dir().expect("path"), "/home/u/.local/share/runnerbuddy");
    assert_eq!(d.logs_dir().expect("path"), "/home/u/.local/share/runnerbuddy/logs");
    assert_eq!(d.runner_logs_dir("abc").expect("path"), "/home/u/.local/share/runnerbuddy/logs/abc");
    assert_eq!(d.managed_runners_dir().expect("path"), "/home/u/.local/share/runnerbuddy/runners");
    assert_eq!(
        d.default_install_path("abc").expect("path"),
        "/home/u/.local/share/runnerbuddy/runners/abc"
    );
    assert_eq!(d.default_work_dir("abc"), "/home/u/.runnerbuddy/work/abc");
    let homeless = AppDirs { project: dirs().project, home: None };
    assert_eq!(homeless.default_work_dir("abc"), "/home/u/.local/share/runnerbuddy/work/abc");
    let nothing = AppDirs { project: None, home: None };
    assert_eq!(nothing.default_work_dir("abc"), "./work/abc");
    for result in [
        nothing.config_path(),
        nothing.data_dir(),
        nothing.logs_dir(),
        nothing.runner_logs_dir("x"),
        nothing.managed_runners_dir(),
        nothing.default_install_path("x"),
    ] {
        assert_eq!(
            result.expect_err("unresolved").to_string(),
            "config error: failed to resolve project directories"
        );
    }
}

#[test]
fn tilde_expands_to_the_home_directory() {
    assert_eq!(dirs().expand_path("~/runner"), "/home/u/runner");
    assert_eq!(dirs().expand_path("~/"), "/home/u/");
    assert_eq!(dirs().expand_path("~"), "~");
    assert_eq!(dirs().expand_path("~other/x"), "~other/x");
    assert_eq!(dirs().expand_path("/abs/~/x"), "/abs/~/x");
    assert_eq!(dirs().expand_path(""), "");
    let nothing = AppDirs { project: None, home: None };
    assert_eq!(nothing.expand_path("~/runner"), "~/runner");
}

#[test]
fn paths_are_joined_as_std_paths() {
    let trailing = AppDirs {
        project: Some(ProjectPaths { config_dir: "/c/".to_string(), data_dir: "/d/".to_string() }),
        home: Some("/home/u/".to_string()),
    };
    assert_eq!(trailing.config_path().expect("path"), "/c/config.json");
    assert_eq!(trailing.logs_dir().expect("path"), "/d/logs");
    assert_eq!(trailing.runner_logs_dir("/abs").expect("path"), "/abs");
    assert_eq!(trailing.expand_path("~/x"), "/home/u/x");
    let relative = AppDirs {
        project: Some(ProjectPaths { config_dir: "".to_string(), data_dir: "data".to_string() }),
        home: None,
    };
    assert_eq!(relative.config_path().expect("path"), "config.json");
    assert_eq!(relative.default_install_path("abc").expect("path"), "data/runners/abc");
}

#[test]
fn environment_is_resolved_without_failing() {
    let resolved = AppDirs::resolve();
    if let Some(project) = &resolved.project {
        assert!(project.config_dir.to_lowercase().contains("runnerbuddy"));
        assert!(project.data_dir.to_lowercase().contains("runnerbuddy"));
        assert!(config_path().expect("path").ends_with("config.json"));
        assert!(logs_dir().expect("path").ends_with("logs"));
        assert!(runner_logs_dir("abc").expect("path").ends_with("abc"));
        assert!(managed_runners_dir().expect("path").ends_with("runners"));
        assert!(default_install_path("abc").expect("path").ends_with("abc"));
        assert_eq!(data_dir().expect("path"), project.data_dir);
    } else {
        assert!(config_path().is_err());
        assert!(data_dir().is_err());
    }
    assert!(default_work_dir("abc").ends_with("abc"));
    assert_eq!(expand_path("/plain"), "/plain");
}

#[test]
fn runner_name_is_chosen_in_order() {
    let h = host();
    assert_eq!(pick_runner_name(&Some(" box \n".to_string()), &h), "box");
    assert_eq!(pick_runner_name(&Some("   ".to_string()), &h), "from-env");
    assert_eq!(pick_runner_name(&None, &h), "from-env");
    let no_hostname = HostInfo { hostname_var: Some("".to_string()), ..host() };
    assert_eq!(pick_runner_name(&None, &no_hostname), "computer");
    let bare = HostInfo { hostname_var: None, computername_var: None, ..host() };
    assert_eq!(pick_runner_name(&None, &bare), "runnerbuddy");
    let name = default_runner_name(&bare);
    assert!(!name.is_empty());
    assert_eq!(name, name.trim());
}

#[test]
fn labels_name_platform_and_architecture() {
    assert_eq!(platform_label("macos"), "macOS");
    assert_eq!(platform_label("windows"), "Windows");
    assert_eq!(platform_label("linux"), "Linux");
    assert_eq!(platform_label("freebsd"), "freebsd");
    assert_eq!(default_runner_labels(&host()), vec!["self-hosted", "macOS", "AARCH64"]);
    let odd = HostInfo { os: "plan9".to_string(), arch: "stra\u{df}e".to_string(), ..host() };
    assert_eq!(default_runner_labels(&odd), vec!["self-hosted", "plan9", "STRASSE"]);
    assert!(!is_windows(&host()));
    assert!(is_windows(&HostInfo { os: "windows".to_string(), ..host() }));
}

#[test]
fn clock_and_identifiers() {
    let now = now_iso8601();
    assert!(now.len() >= 20, "{now}");
    assert!(now.ends_with('Z'));
    assert_eq!(&now[4..5], "-");
    assert_eq!(&now[10..11], "T");
    assert_eq!(timestamp_or_epoch(None), "1970-01-01T00:00:00Z");
    assert_eq!(timestamp_or_epoch(Some("t".to_string())), "t");
    assert_eq!(timestamp_of(std::time::UNIX_EPOCH).as_deref(), Some("1970-01-01T00:00:00Z"));
    let a = new_runner_id();
    let b = new_runner_id();
    assert_eq!(a.len(), 36);
    assert_eq!(a.matches('-').count(), 4);
    assert_eq!(a, a.to_lowercase());
    assert_ne!(a, b);
}

#[test]
fn times_are_written_from_their_distance_to_the_epoch() {
    let later = UNIX_EPOCH + Duration::new(1_546_300_800, 0);
    assert_eq!(timestamp_of(later).as_deref(), Some("2019-01-01T00:00:00Z"));
    let with_fraction = UNIX_EPOCH + Duration::new(1_546_300_800, 250_000_000);
    assert_eq!(timestamp_of(with_fraction).as_deref(), Some("2019-01-01T00:00:00.25Z"));
    let earlier = UNIX_EPOCH - Duration::new(1, 0);
    assert_eq!(timestamp_of(earlier).as_deref(), Some("1969-12-31T23:59:59Z"));
    let just_before = UNIX_EPOCH - Duration::new(0, 500_000_000);
    assert_eq!(timestamp_of(just_before).as_deref(), Some("1969-12-31T23:59:59.5Z"));
}

#[test]
fn a_time_beyond_the_calendar_has_no_text() {
    let last = UNIX_EPOCH + Duration::new(253_402_300_799, 0);
    assert_eq!(timestamp_of(last).as_deref(), Some("9999-12-31T23:59:59Z"));
    let beyond = UNIX_EPOCH + Duration::new(253_402_300_800, 0);
    assert_eq!(timestamp_of(beyond), None);
    let far = UNIX_EPOCH + Duration::new(400_000_000_000_000, 0);
    assert_eq!(timestamp_of(far), None);
    let before_year_zero = UNIX_EPOCH - Duration::new(62_167_219_201, 0);
    assert_eq!(timestamp_of(before_year_zero), None);
}

#[test]
fn epoch_offsets_count_nanoseconds() {
    let after = EpochOffset { before: false, secs: 2, subsec_nanos: 5 };
    assert_eq!(after.nanos(), 2_000_000_005);
    let before = EpochOffset { before: true, secs: 2, subsec_nanos: 5 };
    assert_eq!(before.nanos(), -2_000_000_005);
    let widest = EpochOffset { before: true, secs: u64::MAX, subsec_nanos: u32::MAX };
    assert_eq!(
        widest.nanos(),
        -(i128::from(u64::MAX) * 1_000_000_000 + i128::from(u32::MAX))
    );
}

#[test]
fn a_runner_id_is_a_random_identifier_in_hyphenated_hex() {
    for _ in 0..32 {
        let id = new_runner_id();
        let chars: Vec<char> = id.chars().collect();
        assert_eq!(chars.len(), 36, "{id}");
        for (i, c) in chars.iter().enumerate() {
            if i == 8 || i == 13 || i == 18 || i == 23 {
                assert_eq!(*c, '-', "{id}");
            } else {
                assert!(c.is_ascii_digit() || ('a'..='f').contains(c), "{id}");
            }
        }
        assert_eq!(chars[14], '4', "{id}");
        assert!(matches!(chars[19], '8' | '9' | 'a' | 'b'), "{id}");
    }
}

#[test]
fn fresh_seed_fits_its_surroundings() {
    let seed = ProfileSeed::fresh(&host(), &dirs());
    assert_eq!(seed.runner_id.len(), 36);
    assert_eq!(seed.labels, vec!["self-hosted", "macOS", "AARCH64"]);
    assert_eq!(seed.work_dir, format!("/home/u/.runnerbuddy/work/{}", seed.runner_id));
    assert_eq!(
        seed.install_path,
        Some(format!("/home/u/.local/share/runnerbuddy/runners/{}", seed.runner_id))
    );
    assert!(!seed.runner_name.is_empty());
    assert!(seed.created_at.ends_with('Z'));
    let nothing = AppDirs { project: None, home: None };
    assert!(ProfileSeed::fresh(&host(), &nothing).install_path.is_none());
}
