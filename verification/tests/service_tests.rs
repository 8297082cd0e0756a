use runnerbuddy::config::{
    InstallConfig, InstallMode, MigrationStatus, RunnerProfile, RunnerServiceConfig, ServiceProvider,
};
use runnerbuddy::errors::Error;
use runnerbuddy::host::{AppDirs, ProjectPaths};
use runnerbuddy::procedure::{Action, Procedure};
use runnerbuddy::service_mgmt::{
    enable_on_boot, external_disable, external_label, external_remove_artifacts, external_status,
    external_status_request, external_unit_name, install, label_for, launchctl_scope,
    launchctl_user_scope, launchd_plist_content, platform_of, start, status, status_request, stop,
    systemd_unit_content, uid_from_output, uninstall, unit_name, CommandReport, Platform,
    ServiceContext, ServiceStatus, StatusProbe,
};

fn dirs() -> AppDirs {
    AppDirs {
        project: Some(ProjectPaths {
            config_dir: "/home/u/.config/runnerbuddy".to_string(),
            data_dir: "/home/u/.local/share/runnerbuddy".to_string(),
        }),
        home: Some("/home/u".to_string()),
    }
}

fn ctx(platform: Platform) -> ServiceContext {
    ServiceContext { platform, dirs: dirs(), uid: Ok("501".to_string()) }
}

fn profile() -> RunnerProfile {
    RunnerProfile {
        runner_id: "abc".to_string(),
        display_name: "Test".to_string(),
        scope: None,
        runner_name: "runner".to_string(),
        labels: vec!["self-hosted".to_string()],
        work_dir: "/tmp".to_string(),
        install: InstallConfig {
            mode: InstallMode::Managed,
            install_path: "/tmp/runner".to_string(),
            adopted_from_path: None,
            migration_status: MigrationStatus::NotStarted,
        },
        runner_version: None,
        pat_alias: "default".to_string(),
        service: RunnerServiceConfig::default(),
        created_at: "2024-01-01T00:00:00Z".to_string(),
        last_seen_at: None,
    }
}

fn external_profile() -> RunnerProfile {
    let mut p = profile();
    p.service.provider = ServiceProvider::External;
    p.service.external_id = Some("actions.runner.service".to_string());
    p.service.external_path = Some("/home/u/.config/systemd/user/actions.runner.service".to_string());
    p
}

fn commands(p: &Procedure) -> Vec<String> {
    let mut out = Vec::new();
    for task in &p.tasks {
        for step in &task.steps {
            let text = match &step.action {
                Action::Run { program, args, dir } => match dir {
                    Some(d) => format!("{} {} @{}", program, args.join(" "), d),
                    None => format!("{} {}", program, args.join(" ")),
                },
                Action::CreateDirAll { path } => format!("mkdir {path}"),
                Action::WriteFile { path, .. } => format!("write {path}"),
                Action::RemoveFile { path } => format!("rm {path}"),
                other => format!("{:?}", other),
            };
            let mark = if task.best_effort {
                "~"
            } else if step.required.is_some() {
                "!"
            } else {
                "?"
            };
            out.push(format!("{mark}{text}"));
        }
    }
    out
}

fn probe(exists: bool, active: Option<bool>, enabled: Option<bool>, report: Result<CommandReport, Error>) -> StatusProbe {
    StatusProbe { definition_exists: exists, active, enabled, report }
}

fn report(success: bool, stdout: &str) -> Result<CommandReport, Error> {
    Ok(CommandReport { success, stdout: stdout.to_string() })
}

#[test]
fn unit_contains_exec_start() {
    let unit = systemd_unit_content(&profile(), &dirs());
    assert!(unit.contains("ExecStart="));
    assert!(unit.contains("runnerbuddy-abc.service"));
}

#[test]
fn plist_contains_label() {
    let plist = launchd_plist_content(&profile(), &dirs(), "/tmp");
    assert!(plist.contains("com.runnerbuddy.runner.abc"));
}

#[test]
fn unit_is_written_exactly() {
    assert_eq!(
        systemd_unit_content(&profile(), &dirs()),
        "# runnerbuddy-abc.service\n[Unit]\nDescription=RunnerBuddy GitHub Actions Runner (abc)\nAfter=network.target\n\n[Service]\nType=simple\nWorkingDirectory=/tmp/runner\nExecStart=/tmp/runner/run.sh\nRestart=always\nRestartSec=5\n\n[Install]\nWantedBy=default.target\n"
    );
    let mut home_relative = profile();
    home_relative.install.install_path = "~/runner".to_string();
    assert!(systemd_unit_content(&home_relative, &dirs()).contains("ExecStart=/home/u/runner/run.sh\n"));
}

#[test]
fn plist_is_written_exactly() {
    assert_eq!(
        launchd_plist_content(&profile(), &dirs(), "/logs"),
        "<?xml version=\"1.0\" encoding=\"UTF-8\"?>\n<!DOCTYPE plist PUBLIC \"-//Apple//DTD PLIST 1.0//EN\" \"http://www.apple.com/DTDs/PropertyList-1.0.dtd\">\n<plist version=\"1.0\">\n<dict>\n  <key>Label</key>\n  <string>com.runnerbuddy.runner.abc</string>\n  <key>ProgramArguments</key>\n  <array>\n    <string>/tmp/runner/run.sh</string>\n  </array>\n  <key>WorkingDirectory</key>\n  <string>/tmp/runner</string>\n  <key>RunAtLoad</key>\n  <true/>\n  <key>KeepAlive</key>\n  <true/>\n  <key>StandardOutPath</key>\n  <string>/logs/runner-stdout.log</string>\n  <key>StandardErrorPath</key>\n  <string>/logs/runner-stderr.log</string>\n</dict>\n</plist>\n"
    );
}

#[test]
fn names_are_made_from_the_identity() {
    assert_eq!(unit_name("abc"), "runnerbuddy-abc.service");
    assert_eq!(label_for("abc"), "com.runnerbuddy.runner.abc");
    assert_eq!(launchctl_scope("501", "com.x"), "gui/501/com.x");
    assert_eq!(launchctl_user_scope("501"), "gui/501");
    assert_eq!(platform_of("linux"), Platform::Linux);
    assert_eq!(platform_of("macos"), Platform::MacOs);
    assert_eq!(platform_of("windows"), Platform::Windows);
    assert_eq!(platform_of("freebsd"), Platform::Other);
    assert_eq!(uid_from_output(true, " 501\n").expect("uid"), "501");
    assert_eq!(
        uid_from_output(false, "501").expect_err("failed").to_string(),
        "service error: failed to read uid"
    );
}

#[test]
fn systemd_procedures() {
    let c = ctx(Platform::Linux);
    assert_eq!(
        commands(&install(&profile(), &c).expect("install")),
        vec![
            "!mkdir /home/u/.config/systemd/user",
            "!write /home/u/.config/systemd/user/runnerbuddy-abc.service",
            "!systemctl --user daemon-reload",
            "!systemctl --user enable runnerbuddy-abc.service",
            "!systemctl --user start runnerbuddy-abc.service",
        ]
    );
    match &install(&profile(), &c).expect("install").tasks[0].steps[1].action {
        Action::WriteFile { content, .. } => assert_eq!(content, &systemd_unit_content(&profile(), &dirs())),
        other => panic!("unexpected action {:?}", other),
    }
    assert_eq!(
        commands(&uninstall(&profile(), &c).expect("uninstall")),
        vec![
            "?systemctl --user stop runnerbuddy-abc.service",
            "?systemctl --user disable runnerbuddy-abc.service",
            "!rm /home/u/.config/systemd/user/runnerbuddy-abc.service",
            "!systemctl --user daemon-reload",
        ]
    );
    assert_eq!(
        commands(&enable_on_boot(&profile(), true, &c).expect("enable")),
        vec!["!systemctl --user enable runnerbuddy-abc.service"]
    );
    assert_eq!(
        commands(&enable_on_boot(&profile(), false, &c).expect("disable")),
        vec!["!systemctl --user disable runnerbuddy-abc.service"]
    );
    assert_eq!(commands(&start(&profile(), &c).expect("start")), vec!["!systemctl --user start runnerbuddy-abc.service"]);
    assert_eq!(commands(&stop(&profile(), &c).expect("stop")), vec!["!systemctl --user stop runnerbuddy-abc.service"]);
    assert_eq!(
        commands(&external_disable(&external_profile(), &None, &c).expect("disable")),
        vec![
            "?systemctl --user stop actions.runner.service",
            "!systemctl --user disable actions.runner.service",
        ]
    );
    assert_eq!(
        commands(&external_remove_artifacts(&external_profile(), &None, &c).expect("remove")),
        vec![
            "~systemctl --user stop actions.runner.service",
            "~systemctl --user disable actions.runner.service",
            "!rm /home/u/.config/systemd/user/actions.runner.service",
            "!systemctl --user daemon-reload",
        ]
    );
    let homeless = ServiceContext { platform: Platform::Linux, dirs: AppDirs { project: None, home: None }, uid: Ok("1".to_string()) };
    assert_eq!(
        install(&profile(), &homeless).expect_err("no home").to_string(),
        "service error: unable to resolve user home"
    );
    assert!(uninstall(&profile(), &homeless).is_err());
}

#[test]
fn external_unit_is_named_by_identity_or_file() {
    let mut p = external_profile();
    assert_eq!(external_unit_name(&p).expect("unit"), "actions.runner.service");
    p.service.external_id = None;
    p.service.external_path = Some("/x/y/foreign.service".to_string());
    assert_eq!(external_unit_name(&p).expect("unit"), "foreign.service");
    p.service.external_path = None;
    assert_eq!(
        external_unit_name(&p).expect_err("none").to_string(),
        "service error: missing external systemd unit"
    );
    assert!(external_disable(&p, &None, &ctx(Platform::Linux)).is_err());
    assert_eq!(
        commands(&external_remove_artifacts(&p, &None, &ctx(Platform::Linux)).expect("remove")),
        vec!["!systemctl --user daemon-reload"]
    );
}

#[test]
fn launchd_procedures() {
    let c = ctx(Platform::MacOs);
    assert_eq!(
        commands(&install(&profile(), &c).expect("install")),
        vec![
            "!mkdir /home/u/.local/share/runnerbuddy/logs/abc",
            "!write /home/u/Library/LaunchAgents/com.runnerbuddy.runner.abc.plist",
            "?launchctl bootout gui/501/com.runnerbuddy.runner.abc",
            "!launchctl bootstrap gui/501 /home/u/Library/LaunchAgents/com.runnerbuddy.runner.abc.plist",
        ]
    );
    assert_eq!(
        commands(&uninstall(&profile(), &c).expect("uninstall")),
        vec![
            "?launchctl bootout gui/501/com.runnerbuddy.runner.abc",
            "!rm /home/u/Library/LaunchAgents/com.runnerbuddy.runner.abc.plist",
        ]
    );
    assert_eq!(
        commands(&enable_on_boot(&profile(), true, &c).expect("enable")),
        vec!["!launchctl enable gui/501/com.runnerbuddy.runner.abc"]
    );
    assert_eq!(
        commands(&start(&profile(), &c).expect("start")),
        vec!["!launchctl kickstart -k gui/501/com.runnerbuddy.runner.abc"]
    );
    assert_eq!(
        commands(&stop(&profile(), &c).expect("stop")),
        vec!["!launchctl stop gui/501/com.runnerbuddy.runner.abc"]
    );
    let mut ext = external_profile();
    ext.service.external_id = None;
    ext.service.external_path = Some("/a/foreign.plist".to_string());
    assert_eq!(external_label(&ext, &Some("com.foreign".to_string())).expect("label"), "com.foreign");
    assert_eq!(
        external_label(&ext, &None).expect_err("none").to_string(),
        "service error: missing external launchd label"
    );
    assert_eq!(
        commands(&external_disable(&ext, &Some("com.foreign".to_string()), &c).expect("disable")),
        vec!["!launchctl bootout gui/501/com.foreign"]
    );
    assert_eq!(
        commands(&external_remove_artifacts(&ext, &Some("com.foreign".to_string()), &c).expect("remove")),
        vec!["~launchctl bootout gui/501/com.foreign", "!rm /a/foreign.plist"]
    );
    let no_uid = ServiceContext { platform: Platform::MacOs, dirs: dirs(), uid: Err(Error::Service("failed to read uid".to_string())) };
    assert_eq!(install(&profile(), &no_uid).expect_err("uid").to_string(), "service error: failed to read uid");
    assert_eq!(
        commands(&uninstall(&profile(), &no_uid).expect("uninstall")),
        vec!["!rm /home/u/Library/LaunchAgents/com.runnerbuddy.runner.abc.plist"]
    );
}

#[test]
fn wrapper_script_procedures() {
    let c = ctx(Platform::Windows);
    assert_eq!(commands(&install(&profile(), &c).expect("install")), vec!["!cmd /C svc.cmd install @/tmp/runner"]);
    assert_eq!(commands(&uninstall(&profile(), &c).expect("uninstall")), vec!["!cmd /C svc.cmd uninstall @/tmp/runner"]);
    assert_eq!(commands(&start(&profile(), &c).expect("start")), vec!["!cmd /C svc.cmd start @/tmp/runner"]);
    assert_eq!(commands(&stop(&profile(), &c).expect("stop")), vec!["!cmd /C svc.cmd stop @/tmp/runner"]);
    assert!(enable_on_boot(&profile(), true, &c).expect("nothing").tasks.is_empty());
    assert_eq!(
        commands(&external_disable(&external_profile(), &None, &c).expect("disable")),
        vec!["?cmd /C svc.cmd stop @/tmp/runner"]
    );
    assert_eq!(
        commands(&external_remove_artifacts(&external_profile(), &None, &c).expect("remove")),
        vec!["?cmd /C svc.cmd stop @/tmp/runner", "!cmd /C svc.cmd uninstall @/tmp/runner"]
    );
}

#[test]
fn unsupported_platforms_refuse_everything() {
    let c = ctx(Platform::Other);
    let p = profile();
    assert_eq!(install(&p, &c).expect_err("x").to_string(), "unsupported platform: service install unsupported on this OS");
    assert_eq!(uninstall(&p, &c).expect_err("x").to_string(), "unsupported platform: service uninstall unsupported on this OS");
    assert_eq!(enable_on_boot(&p, true, &c).expect_err("x").to_string(), "unsupported platform: service enable unsupported on this OS");
    assert_eq!(start(&p, &c).expect_err("x").to_string(), "unsupported platform: service start unsupported on this OS");
    assert_eq!(stop(&p, &c).expect_err("x").to_string(), "unsupported platform: service stop unsupported on this OS");
    let nothing = probe(false, None, None, report(true, ""));
    assert_eq!(status(&p, &None, &c, &nothing).expect_err("x").to_string(), "unsupported platform: service status unsupported on this OS");
    assert_eq!(status(&external_profile(), &None, &c, &nothing).expect_err("x").to_string(), "unsupported platform: service status unsupported on this OS");
    assert_eq!(external_status(&p, &None, &c, &nothing).expect_err("x").to_string(), "unsupported platform: external service status unsupported on this OS");
    assert_eq!(external_disable(&p, &None, &c).expect_err("x").to_string(), "unsupported platform: external service disable unsupported on this OS");
    assert_eq!(external_remove_artifacts(&p, &None, &c).expect_err("x").to_string(), "unsupported platform: external service removal unsupported on this OS");
    assert!(status_request(&p, &None, &c).is_err());
    assert!(external_status_request(&p, &None, &c).is_err());
}

#[test]
fn systemd_status_is_read_from_observations() {
    let c = ctx(Platform::Linux);
    let request = status_request(&profile(), &None, &c).expect("request");
    assert_eq!(request.definition.as_deref(), Some("/home/u/.config/systemd/user/runnerbuddy-abc.service"));
    match request.active.expect("active") {
        Action::Run { program, args, .. } => {
            assert_eq!(program, "systemctl");
            assert_eq!(args, vec!["--user", "is-active", "runnerbuddy-abc.service"]);
        }
        other => panic!("unexpected action {:?}", other),
    }
    assert!(request.enabled.is_some());
    assert!(request.report.is_none());
    assert_eq!(
        status(&profile(), &None, &c, &probe(true, Some(true), None, report(false, ""))).expect("status"),
        ServiceStatus { installed: true, running: true, enabled: false }
    );
    assert_eq!(
        status(&profile(), &None, &c, &probe(false, Some(false), Some(true), report(false, ""))).expect("status"),
        ServiceStatus { installed: false, running: false, enabled: true }
    );
    let ext_request = status_request(&external_profile(), &None, &c).expect("request");
    assert_eq!(ext_request.definition.as_deref(), Some("/home/u/.config/systemd/user/actions.runner.service"));
    assert_eq!(
        status(&external_profile(), &None, &c, &probe(true, None, Some(true), report(false, ""))).expect("status"),
        ServiceStatus { installed: true, running: false, enabled: true }
    );
    let mut pathless = external_profile();
    pathless.service.external_path = None;
    assert_eq!(
        external_status(&pathless, &None, &c, &probe(true, Some(true), Some(true), report(false, ""))).expect("status"),
        ServiceStatus { installed: false, running: true, enabled: true }
    );
}

#[test]
fn launchd_status_is_read_from_the_print_out() {
    let c = ctx(Platform::MacOs);
    let request = status_request(&profile(), &None, &c).expect("request");
    match request.report.expect("report") {
        Action::Run { program, args, .. } => {
            assert_eq!(program, "launchctl");
            assert_eq!(args, vec!["print", "gui/501/com.runnerbuddy.runner.abc"]);
        }
        other => panic!("unexpected action {:?}", other),
    }
    assert_eq!(
        status(&profile(), &None, &c, &probe(false, None, None, report(true, "\tstate = running\n"))).expect("status"),
        ServiceStatus { installed: true, running: true, enabled: true }
    );
    assert_eq!(
        status(&profile(), &None, &c, &probe(false, None, None, report(true, "state = waiting"))).expect("status"),
        ServiceStatus { installed: true, running: false, enabled: true }
    );
    assert_eq!(
        status(&profile(), &None, &c, &probe(true, None, None, report(false, "state = running"))).expect("status"),
        ServiceStatus { installed: false, running: false, enabled: false }
    );
    assert_eq!(
        status(&profile(), &None, &c, &probe(true, None, None, Err(Error::Io("x".to_string())))).expect("status"),
        ServiceStatus { installed: false, running: false, enabled: false }
    );
    let ext = external_profile();
    assert_eq!(
        external_status(&ext, &None, &c, &probe(true, None, None, report(true, "pid = 7\ndisabled = true"))).expect("status"),
        ServiceStatus { installed: true, running: true, enabled: false }
    );
    assert_eq!(
        external_status(&ext, &None, &c, &probe(false, None, None, report(true, "state = running"))).expect("status"),
        ServiceStatus { installed: true, running: true, enabled: false }
    );
    assert_eq!(
        external_status(&ext, &None, &c, &probe(true, None, None, report(false, ""))).expect("status"),
        ServiceStatus { installed: true, running: false, enabled: true }
    );
    let mut unlabelled = external_profile();
    unlabelled.service.external_id = None;
    assert_eq!(
        external_status(&unlabelled, &None, &c, &probe(true, None, None, report(true, "state = running"))).expect("status"),
        ServiceStatus { installed: true, running: false, enabled: true }
    );
    assert!(external_status_request(&unlabelled, &None, &c).expect("request").report.is_none());
}

#[test]
fn wrapper_script_status_is_read_from_its_output() {
    let c = ctx(Platform::Windows);
    assert_eq!(
        status(&profile(), &None, &c, &probe(false, None, None, report(true, "STATE : 4 RUNNING"))).expect("status"),
        ServiceStatus { installed: true, running: true, enabled: true }
    );
    assert_eq!(
        status(&external_profile(), &None, &c, &probe(false, None, None, report(false, "stopped"))).expect("status"),
        ServiceStatus { installed: false, running: false, enabled: false }
    );
    assert_eq!(
        external_status(&profile(), &None, &c, &probe(false, None, None, Err(Error::Io("no cmd".to_string()))))
            .expect_err("io")
            .to_string(),
        "io error: no cmd"
    );
}
