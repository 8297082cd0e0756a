//! The service supervisor: one contract per operation, implemented for each
//! operating system's service manager.
//!
//! Nothing here touches the service manager. Every operation yields the
//! [`Procedure`] that carries it out, and the queries yield what has to be
//! observed together with the reading of the observations.

use vstd::prelude::*;
use crate::config::{opt_text, ProfileView, RunnerProfile, ServiceProvider};
use crate::errors::{Error, ErrorView};
use crate::host::{path_join, AppDirs, AppDirsView};
use crate::procedure::{steps_view, Action, ActionView, Procedure, Step, StepView, Task, TaskView};
use crate::text::{concat2, concat3, contains, str_contains, strings};

verus! {

/// Whether a service is defined, running and started on boot.
#[derive(Debug, Clone, Copy, PartialEq, Eq, Structural)]
pub struct ServiceStatus {
    pub installed: bool,
    pub running: bool,
    pub enabled: bool,
}

/// The service managers that the library knows.
#[derive(Debug, Clone, Copy, PartialEq, Eq, Structural)]
pub enum Platform {
    /// systemd user units.
    Linux,
    /// launchd user agents.
    MacOs,
    /// The wrapper script that ships with the runner.
    Windows,
    /// No service manager is supported.
    Other,
}

/// The platform that an operating system name stands for.
pub open spec fn platform_named(os: Seq<char>) -> Platform {
    if os == "linux"@ {
        Platform::Linux
    } else if os == "macos"@ {
        Platform::MacOs
    } else if os == "windows"@ {
        Platform::Windows
    } else {
        Platform::Other
    }
}

/// The platform that an operating system name stands for.
pub fn platform_of(os: &str) -> (r: Platform)
    ensures
        r == platform_named(os@),
{
    if crate::text::str_eq(os, "linux") {
        Platform::Linux
    } else if crate::text::str_eq(os, "macos") {
        Platform::MacOs
    } else if crate::text::str_eq(os, "windows") {
        Platform::Windows
    } else {
        Platform::Other
    }
}

/// What the supervisor needs to know about its surroundings.
#[derive(Debug)]
pub struct ServiceContext {
    pub platform: Platform,
    pub dirs: AppDirs,
    /// The numeric id of the user, which launchd addresses services by; the
    /// error with which reading it failed otherwise.
    pub uid: Result<String, Error>,
}

/// The view of a [`ServiceContext`].
pub struct ContextView {
    pub platform: Platform,
    pub dirs: AppDirsView,
    pub uid: Result<Seq<char>, ErrorView>,
}

impl View for ServiceContext {
    type V = ContextView;

    open spec fn view(&self) -> ContextView {
        ContextView {
            platform: self.platform,
            dirs: self.dirs@,
            uid: match self.uid {
                Ok(u) => Ok(u@),
                Err(e) => Err(e@),
            },
        }
    }
}

/// The view of a planned procedure or of the error that prevented planning.
pub open spec fn plan_view(r: Result<Procedure, Error>) -> Result<Seq<TaskView>, ErrorView> {
    match r {
        Ok(p) => Ok(p@),
        Err(e) => Err(e@),
    }
}

// ---------------------------------------------------------------------------
// Building blocks
// ---------------------------------------------------------------------------

/// A step whose failure ends its task; `message` describes a program that
/// ran and reported failure.
pub open spec fn must(action: ActionView, message: Seq<char>) -> StepView {
    StepView { action, required: Some(message) }
}

/// A step whose failure is ignored.
pub open spec fn may(action: ActionView) -> StepView {
    StepView { action, required: None }
}

/// A file system step whose failure ends its task.
pub open spec fn must_do(action: ActionView) -> StepView {
    must(action, "file operation failed"@)
}

/// A task whose failure ends the procedure.
pub open spec fn task(steps: Seq<StepView>) -> TaskView {
    TaskView { steps, best_effort: false }
}

/// A task whose failure is ignored.
pub open spec fn attempt(steps: Seq<StepView>) -> TaskView {
    TaskView { steps, best_effort: true }
}

/// A program to run in the current directory.
pub open spec fn command(program: Seq<char>, args: Seq<Seq<char>>) -> ActionView {
    ActionView::Run { program, args, dir: None }
}

/// A step whose failure ends its task.
pub(crate) fn step_must(action: Action, message: &str) -> (r: Step)
    ensures
        r@ == must(action@, message@),
{
    Step { action, required: Some(message.to_string()) }
}

/// A step whose failure is ignored.
pub(crate) fn step_may(action: Action) -> (r: Step)
    ensures
        r@ == may(action@),
{
    Step { action, required: None }
}

/// A file system step whose failure ends its task.
pub(crate) fn step_must_do(action: Action) -> (r: Step)
    ensures
        r@ == must_do(action@),
{
    step_must(action, "file operation failed")
}

fn args2(a: &str, b: &str) -> (r: Vec<String>)
    ensures
        strings(r@) == seq![a@, b@],
{
    let mut r: Vec<String> = Vec::new();
    r.push(a.to_string());
    r.push(b.to_string());
    assert(strings(r@) =~= seq![a@, b@]);
    r
}

fn args3(a: &str, b: &str, c: &str) -> (r: Vec<String>)
    ensures
        strings(r@) == seq![a@, b@, c@],
{
    let mut r: Vec<String> = Vec::new();
    r.push(a.to_string());
    r.push(b.to_string());
    r.push(c.to_string());
    assert(strings(r@) =~= seq![a@, b@, c@]);
    r
}

fn run(program: &str, args: Vec<String>) -> (r: Action)
    ensures
        r@ == command(program@, strings(args@)),
{
    Action::Run { program: program.to_string(), args, dir: None }
}

/// A task of the given steps.
pub(crate) fn one_task(steps: Vec<Step>, best_effort: bool) -> (r: Task)
    ensures
        r@ == (TaskView { steps: steps_view(steps@), best_effort }),
{
    Task { steps, best_effort }
}

/// A procedure of one task.
pub(crate) fn procedure1(t: Task) -> (r: Procedure)
    ensures
        r@ == seq![t@],
{
    let mut tasks: Vec<Task> = Vec::new();
    tasks.push(t);
    let r = Procedure { tasks };
    assert(r@ =~= seq![t@]);
    r
}

/// A procedure of two tasks.
pub(crate) fn procedure2(a: Task, b: Task) -> (r: Procedure)
    ensures
        r@ == seq![a@, b@],
{
    let mut tasks: Vec<Task> = Vec::new();
    tasks.push(a);
    tasks.push(b);
    let r = Procedure { tasks };
    assert(r@ =~= seq![a@, b@]);
    r
}

/// One step.
pub(crate) fn steps1(a: Step) -> (r: Vec<Step>)
    ensures
        steps_view(r@) == seq![a@],
{
    let mut r: Vec<Step> = Vec::new();
    r.push(a);
    assert(steps_view(r@) =~= seq![a@]);
    r
}

/// Two steps, in order.
pub(crate) fn steps2(a: Step, b: Step) -> (r: Vec<Step>)
    ensures
        steps_view(r@) == seq![a@, b@],
{
    let mut r: Vec<Step> = Vec::new();
    r.push(a);
    r.push(b);
    assert(steps_view(r@) =~= seq![a@, b@]);
    r
}

/// No step.
pub(crate) fn no_steps() -> (r: Vec<Step>)
    ensures
        steps_view(r@) == Seq::<StepView>::empty(),
{
    let r: Vec<Step> = Vec::new();
    assert(steps_view(r@) =~= Seq::<StepView>::empty());
    r
}

fn unsupported(message: &str) -> (r: Result<Procedure, Error>)
    ensures
        plan_view(r) == Err::<Seq<TaskView>, ErrorView>(ErrorView::Unsupported(message@)),
{
    Err(Error::Unsupported(message.to_string()))
}

// ---------------------------------------------------------------------------
// Names
// ---------------------------------------------------------------------------

/// The name of the systemd unit of a profile.
pub open spec fn unit_name_of(runner_id: Seq<char>) -> Seq<char> {
    "runnerbuddy-"@ + runner_id + ".service"@
}

/// The directory of the user's systemd units.
pub open spec fn systemd_dir_of(home: Seq<char>) -> Seq<char> {
    path_join(path_join(path_join(home, ".config"@), "systemd"@), "user"@)
}

/// The file that defines the systemd unit of a profile.
pub open spec fn unit_path_of(home: Seq<char>, runner_id: Seq<char>) -> Seq<char> {
    path_join(systemd_dir_of(home), unit_name_of(runner_id))
}

/// The launchd label of a profile.
pub open spec fn label_of(runner_id: Seq<char>) -> Seq<char> {
    "com.runnerbuddy.runner."@ + runner_id
}

/// The directory of the user's launch agents.
pub open spec fn launch_agents_dir_of(home: Seq<char>) -> Seq<char> {
    path_join(path_join(home, "Library"@), "LaunchAgents"@)
}

/// The file that defines the launch agent of a profile.
pub open spec fn plist_path_of(home: Seq<char>, runner_id: Seq<char>) -> Seq<char> {
    path_join(launch_agents_dir_of(home), label_of(runner_id) + ".plist"@)
}

/// The launchd address of the user's session.
pub open spec fn user_scope_of(uid: Seq<char>) -> Seq<char> {
    "gui/"@ + uid
}

/// The launchd address of a service in the user's session.
pub open spec fn scope_of(uid: Seq<char>, label: Seq<char>) -> Seq<char> {
    "gui/"@ + uid + "/"@ + label
}

/// The error where the user's home directory is unknown.
pub open spec fn no_home() -> ErrorView {
    ErrorView::Service("unable to resolve user home"@)
}

/// The name of the systemd unit of a profile.
pub fn unit_name(runner_id: &str) -> (r: String)
    ensures
        r@ == unit_name_of(runner_id@),
{
    concat3("runnerbuddy-", runner_id, ".service")
}

/// The launchd label of a profile.
pub fn label_for(runner_id: &str) -> (r: String)
    ensures
        r@ == label_of(runner_id@),
{
    concat2("com.runnerbuddy.runner.", runner_id)
}

fn home_of(dirs: &AppDirs) -> (r: Result<&str, Error>)
    ensures
        match r {
            Ok(h) => dirs@.home == Some(h@),
            Err(e) => dirs@.home is None && e@ == no_home(),
        },
{
    match &dirs.home {
        Some(h) => Ok(h.as_str()),
        None => Err(Error::Service("unable to resolve user home".to_string())),
    }
}

fn systemd_dir(home: &str) -> (r: String)
    ensures
        r@ == systemd_dir_of(home@),
{
    let a = crate::host::join_path(home, ".config");
    let b = crate::host::join_path(a.as_str(), "systemd");
    crate::host::join_path(b.as_str(), "user")
}

/// The launchd address of a service in the session of the user `uid`.
pub fn launchctl_scope(uid: &str, label: &str) -> (r: String)
    ensures
        r@ == scope_of(uid@, label@),
{
    let mut r = concat3("gui/", uid, "/");
    r.append(label);
    r
}

/// The launchd address of the session of the user `uid`.
pub fn launchctl_user_scope(uid: &str) -> (r: String)
    ensures
        r@ == user_scope_of(uid@),
{
    concat2("gui/", uid)
}

fn uid_of(ctx: &ServiceContext) -> (r: Result<&str, Error>)
    ensures
        match r {
            Ok(u) => ctx@.uid == Ok::<Seq<char>, ErrorView>(u@),
            Err(e) => ctx@.uid == Err::<Seq<char>, ErrorView>(e@),
        },
{
    match &ctx.uid {
        Ok(u) => Ok(u.as_str()),
        Err(e) => Err(e.clone()),
    }
}

// ---------------------------------------------------------------------------
// Service definitions
// ---------------------------------------------------------------------------

/// The systemd unit of a profile: a comment that names the unit, then the
/// unit, which runs the install's run script in the install directory and
/// restarts it whenever it ends.
pub open spec fn unit_content_of(profile: ProfileView, dirs: AppDirsView) -> Seq<char> {
    let install_path = dirs.expand(profile.install.install_path);
    let run_script = path_join(install_path, "run.sh"@);
    "# "@ + unit_name_of(profile.runner_id)
        + "\n[Unit]\nDescription=RunnerBuddy GitHub Actions Runner ("@ + profile.runner_id
        + ")\nAfter=network.target\n\n[Service]\nType=simple\nWorkingDirectory="@ + install_path
        + "\nExecStart="@ + run_script
        + "\nRestart=always\nRestartSec=5\n\n[Install]\nWantedBy=default.target\n"@
}

/// The systemd unit of a profile.
pub fn systemd_unit_content(profile: &RunnerProfile, dirs: &AppDirs) -> (r: String)
    ensures
        r@ == unit_content_of(profile@, dirs@),
{
    let install_path = dirs.expand_path(profile.install.install_path.as_str());
    let run_script = crate::host::join_path(install_path.as_str(), "run.sh");
    let name = unit_name(profile.runner_id.as_str());
    let mut r = concat2("# ", name.as_str());
    r.append("\n[Unit]\nDescription=RunnerBuddy GitHub Actions Runner (");
    r.append(profile.runner_id.as_str());
    r.append(")\nAfter=network.target\n\n[Service]\nType=simple\nWorkingDirectory=");
    r.append(install_path.as_str());
    r.append("\nExecStart=");
    r.append(run_script.as_str());
    r.append("\nRestart=always\nRestartSec=5\n\n[Install]\nWantedBy=default.target\n");
    r
}

/// The launch agent of a profile: it runs the install's run script in the
/// install directory, at load, keeps it alive, and sends its output to two
/// files in `log_dir`.
pub open spec fn plist_content_of(profile: ProfileView, dirs: AppDirsView, log_dir: Seq<char>) -> Seq<
    char,
> {
    let install_path = dirs.expand(profile.install.install_path);
    let run_script = path_join(install_path, "run.sh"@);
    "<?xml version=\"1.0\" encoding=\"UTF-8\"?>\n<!DOCTYPE plist PUBLIC \"-//Apple//DTD PLIST 1.0//EN\" \"http://www.apple.com/DTDs/PropertyList-1.0.dtd\">\n<plist version=\"1.0\">\n<dict>\n  <key>Label</key>\n  <string>"@
        + label_of(profile.runner_id)
        + "</string>\n  <key>ProgramArguments</key>\n  <array>\n    <string>"@ + run_script
        + "</string>\n  </array>\n  <key>WorkingDirectory</key>\n  <string>"@ + install_path
        + "</string>\n  <key>RunAtLoad</key>\n  <true/>\n  <key>KeepAlive</key>\n  <true/>\n  <key>StandardOutPath</key>\n  <string>"@
        + path_join(log_dir, "runner-stdout.log"@)
        + "</string>\n  <key>StandardErrorPath</key>\n  <string>"@ + path_join(
        log_dir,
        "runner-stderr.log"@,
    ) + "</string>\n</dict>\n</plist>\n"@
}

/// The launch agent of a profile.
pub fn launchd_plist_content(profile: &RunnerProfile, dirs: &AppDirs, log_dir: &str) -> (r: String)
    ensures
        r@ == plist_content_of(profile@, dirs@, log_dir@),
{
    let install_path = dirs.expand_path(profile.install.install_path.as_str());
    let run_script = crate::host::join_path(install_path.as_str(), "run.sh");
    let stdout = crate::host::join_path(log_dir, "runner-stdout.log");
    let stderr = crate::host::join_path(log_dir, "runner-stderr.log");
    let label = label_for(profile.runner_id.as_str());
    let mut r = String::from_str(
        "<?xml version=\"1.0\" encoding=\"UTF-8\"?>\n<!DOCTYPE plist PUBLIC \"-//Apple//DTD PLIST 1.0//EN\" \"http://www.apple.com/DTDs/PropertyList-1.0.dtd\">\n<plist version=\"1.0\">\n<dict>\n  <key>Label</key>\n  <string>",
    );
    r.append(label.as_str());
    r.append("</string>\n  <key>ProgramArguments</key>\n  <array>\n    <string>");
    r.append(run_script.as_str());
    r.append("</string>\n  </array>\n  <key>WorkingDirectory</key>\n  <string>");
    r.append(install_path.as_str());
    r.append(
        "</string>\n  <key>RunAtLoad</key>\n  <true/>\n  <key>KeepAlive</key>\n  <true/>\n  <key>StandardOutPath</key>\n  <string>",
    );
    r.append(stdout.as_str());
    r.append("</string>\n  <key>StandardErrorPath</key>\n  <string>");
    r.append(stderr.as_str());
    r.append("</string>\n</dict>\n</plist>\n");
    r
}

// ---------------------------------------------------------------------------
// systemd
// ---------------------------------------------------------------------------

/// What a failed `systemctl` call is reported as.
pub open spec fn systemctl_failed() -> Seq<char> {
    "systemctl command failed"@
}

/// `systemctl --user <verb> <unit>`.
pub open spec fn systemctl_unit(verb: Seq<char>, unit: Seq<char>) -> ActionView {
    command("systemctl"@, seq!["--user"@, verb, unit])
}

/// `systemctl --user daemon-reload`.
pub open spec fn systemctl_reload() -> ActionView {
    command("systemctl"@, seq!["--user"@, "daemon-reload"@])
}

fn do_systemctl_unit(verb: &str, unit: &str) -> (r: Action)
    ensures
        r@ == systemctl_unit(verb@, unit@),
{
    run("systemctl", args3("--user", verb, unit))
}

fn do_systemctl_reload() -> (r: Action)
    ensures
        r@ == systemctl_reload(),
{
    run("systemctl", args2("--user", "daemon-reload"))
}

/// Installing on systemd: write the unit, reload, enable, start.
pub open spec fn linux_install(profile: ProfileView, dirs: AppDirsView) -> Result<
    Seq<TaskView>,
    ErrorView,
> {
    match dirs.home {
        None => Err(no_home()),
        Some(home) => {
            let unit = unit_name_of(profile.runner_id);
            Ok(
                seq![
                    task(
                        seq![
                            must_do(ActionView::CreateDirAll { path: systemd_dir_of(home) }),
                            must_do(
                                ActionView::WriteFile {
                                    path: unit_path_of(home, profile.runner_id),
                                    content: unit_content_of(profile, dirs),
                                },
                            ),
                            must(systemctl_reload(), systemctl_failed()),
                            must(systemctl_unit("enable"@, unit), systemctl_failed()),
                            must(systemctl_unit("start"@, unit), systemctl_failed()),
                        ],
                    ),
                ],
            )
        },
    }
}

fn install_linux(profile: &RunnerProfile, dirs: &AppDirs) -> (r: Result<Procedure, Error>)
    ensures
        plan_view(r) == linux_install(profile@, dirs@),
{
    let home = match home_of(dirs) {
        Ok(h) => h,
        Err(e) => {
            return Err(e);
        },
    };
    let dir = systemd_dir(home);
    let unit = unit_name(profile.runner_id.as_str());
    let path = crate::host::join_path(dir.as_str(), unit.as_str());
    let content = systemd_unit_content(profile, dirs);
    let mut steps: Vec<Step> = Vec::new();
    steps.push(step_must_do(Action::CreateDirAll { path: dir }));
    steps.push(step_must_do(Action::WriteFile { path, content }));
    steps.push(step_must(do_systemctl_reload(), "systemctl command failed"));
    steps.push(step_must(do_systemctl_unit("enable", unit.as_str()), "systemctl command failed"));
    steps.push(step_must(do_systemctl_unit("start", unit.as_str()), "systemctl command failed"));
    assert(steps_view(steps@) =~= linux_install(profile@, dirs@)->Ok_0[0].steps);
    Ok(procedure1(one_task(steps, false)))
}

/// Uninstalling on systemd: stop and disable as far as possible, remove the
/// unit, reload.
pub open spec fn linux_uninstall(profile: ProfileView, dirs: AppDirsView) -> Result<
    Seq<TaskView>,
    ErrorView,
> {
    match dirs.home {
        None => Err(no_home()),
        Some(home) => {
            let unit = unit_name_of(profile.runner_id);
            Ok(
                seq![
                    task(
                        seq![
                            may(systemctl_unit("stop"@, unit)),
                            may(systemctl_unit("disable"@, unit)),
                            must_do(
                                ActionView::RemoveFile {
                                    path: unit_path_of(home, profile.runner_id),
                                },
                            ),
                            must(systemctl_reload(), systemctl_failed()),
                        ],
                    ),
                ],
            )
        },
    }
}

fn uninstall_linux(profile: &RunnerProfile, dirs: &AppDirs) -> (r: Result<Procedure, Error>)
    ensures
        plan_view(r) == linux_uninstall(profile@, dirs@),
{
    let home = match home_of(dirs) {
        Ok(h) => h,
        Err(e) => {
            return Err(e);
        },
    };
    let dir = systemd_dir(home);
    let unit = unit_name(profile.runner_id.as_str());
    let path = crate::host::join_path(dir.as_str(), unit.as_str());
    let mut steps: Vec<Step> = Vec::new();
    steps.push(step_may(do_systemctl_unit("stop", unit.as_str())));
    steps.push(step_may(do_systemctl_unit("disable", unit.as_str())));
    steps.push(step_must_do(Action::RemoveFile { path }));
    steps.push(step_must(do_systemctl_reload(), "systemctl command failed"));
    assert(steps_view(steps@) =~= linux_uninstall(profile@, dirs@)->Ok_0[0].steps);
    Ok(procedure1(one_task(steps, false)))
}

/// One required `systemctl` call on the unit of a profile.
pub open spec fn linux_unit_call(verb: Seq<char>, runner_id: Seq<char>) -> Seq<TaskView> {
    seq![task(seq![must(systemctl_unit(verb, unit_name_of(runner_id)), systemctl_failed())])]
}

fn unit_call_linux(verb: &str, runner_id: &str) -> (r: Procedure)
    ensures
        r@ == linux_unit_call(verb@, runner_id@),
{
    let unit = unit_name(runner_id);
    let steps = steps1(step_must(do_systemctl_unit(verb, unit.as_str()), "systemctl command failed"));
    procedure1(one_task(steps, false))
}

/// The error where a profile does not say which systemd unit is the external one.
pub open spec fn no_external_unit() -> ErrorView {
    ErrorView::Service("missing external systemd unit"@)
}

/// The last component of a path, as `std::path::Path::file_name` gives it.
pub uninterp spec fn path_file_name(path: Seq<char>) -> Option<Seq<char>>;

/// `Path::file_name`: the last component of the path, if it is a normal
/// component that is valid Unicode.
#[verifier::external_body]
pub(crate) fn file_name_of(path: &str) -> (r: Option<String>)
    ensures
        opt_text(r) == path_file_name(path@),
{
    std::path::Path::new(path).file_name().and_then(|name| name.to_str()).map(|name| name.to_string())
}

/// The name of the external systemd unit of a profile: the recorded
/// identity, else the file name of the recorded definition.
pub open spec fn external_unit_of(profile: ProfileView) -> Result<Seq<char>, ErrorView> {
    match profile.service.external_id {
        Some(unit) => Ok(unit),
        None => match profile.service.external_path {
            Some(path) => match path_file_name(path) {
                Some(name) => Ok(name),
                None => Err(no_external_unit()),
            },
            None => Err(no_external_unit()),
        },
    }
}

/// The name of the external systemd unit of a profile.
pub fn external_unit_name(profile: &RunnerProfile) -> (r: Result<String, Error>)
    ensures
        match r {
            Ok(u) => external_unit_of(profile@) == Ok::<Seq<char>, ErrorView>(u@),
            Err(e) => external_unit_of(profile@) == Err::<Seq<char>, ErrorView>(e@),
        },
{
    if let Some(unit) = &profile.service.external_id {
        return Ok(unit.clone());
    }
    if let Some(path) = &profile.service.external_path {
        if let Some(name) = file_name_of(path.as_str()) {
            return Ok(name);
        }
    }
    Err(Error::Service("missing external systemd unit".to_string()))
}

/// Disabling an external systemd unit: stop it if possible, then disable it.
pub open spec fn linux_external_disable_steps(unit: Seq<char>) -> Seq<StepView> {
    seq![
        may(systemctl_unit("stop"@, unit)),
        must(systemctl_unit("disable"@, unit), systemctl_failed()),
    ]
}

/// Disabling the external systemd unit of a profile.
pub open spec fn linux_external_disable(profile: ProfileView) -> Result<Seq<TaskView>, ErrorView> {
    match external_unit_of(profile) {
        Ok(unit) => Ok(seq![task(linux_external_disable_steps(unit))]),
        Err(e) => Err(e),
    }
}

fn external_disable_steps_linux(unit: &str) -> (r: Vec<Step>)
    ensures
        steps_view(r@) == linux_external_disable_steps(unit@),
{
    steps2(
        step_may(do_systemctl_unit("stop", unit)),
        step_must(do_systemctl_unit("disable", unit), "systemctl command failed"),
    )
}

fn external_disable_linux(profile: &RunnerProfile) -> (r: Result<Procedure, Error>)
    ensures
        plan_view(r) == linux_external_disable(profile@),
{
    match external_unit_name(profile) {
        Ok(unit) => Ok(procedure1(one_task(external_disable_steps_linux(unit.as_str()), false))),
        Err(e) => Err(e),
    }
}

/// The steps that remove the recorded definition file of an external service, if one is recorded.
pub open spec fn remove_definition_steps(profile: ProfileView) -> Seq<StepView> {
    match profile.service.external_path {
        Some(path) => seq![must_do(ActionView::RemoveFile { path })],
        None => seq![],
    }
}

fn remove_definition(profile: &RunnerProfile) -> (r: Vec<Step>)
    ensures
        steps_view(r@) == remove_definition_steps(profile@),
{
    match &profile.service.external_path {
        Some(path) => steps1(step_must_do(Action::RemoveFile { path: path.clone() })),
        None => no_steps(),
    }
}

/// Removing the external systemd unit of a profile: disable it as far as
/// possible, delete its definition, reload.
pub open spec fn linux_external_remove(profile: ProfileView) -> Seq<TaskView> {
    seq![
        attempt(
            match external_unit_of(profile) {
                Ok(unit) => linux_external_disable_steps(unit),
                Err(_) => seq![],
            },
        ),
        task(remove_definition_steps(profile).push(must(systemctl_reload(), systemctl_failed()))),
    ]
}

fn external_remove_linux(profile: &RunnerProfile) -> (r: Procedure)
    ensures
        r@ == linux_external_remove(profile@),
{
    let disable = match external_unit_name(profile) {
        Ok(unit) => external_disable_steps_linux(unit.as_str()),
        Err(_) => no_steps(),
    };
    let mut rest = remove_definition(profile);
    let ghost before = steps_view(rest@);
    let reload = step_must(do_systemctl_reload(), "systemctl command failed");
    rest.push(reload);
    assert(steps_view(rest@) =~= before.push(reload@));
    procedure2(one_task(disable, true), one_task(rest, false))
}

// ---------------------------------------------------------------------------
// launchd
// ---------------------------------------------------------------------------

/// `launchctl <verb> <target>`.
pub open spec fn launchctl(verb: Seq<char>, target: Seq<char>) -> ActionView {
    command("launchctl"@, seq![verb, target])
}

fn do_launchctl(verb: &str, target: &str) -> (r: Action)
    ensures
        r@ == launchctl(verb@, target@),
{
    run("launchctl", args2(verb, target))
}

/// Installing on launchd: write the agent, unload a loaded one if
/// possible, load the new one into the user's session.
pub open spec fn macos_install(profile: ProfileView, ctx: ContextView) -> Result<
    Seq<TaskView>,
    ErrorView,
> {
    match ctx.dirs.home {
        None => Err(no_home()),
        Some(home) => match ctx.dirs.runner_logs_dir(profile.runner_id) {
            None => Err(crate::host::no_project_dirs()),
            Some(log_dir) => match ctx.uid {
                Err(e) => Err(e),
                Ok(uid) => {
                    let plist = plist_path_of(home, profile.runner_id);
                    Ok(
                        seq![
                            task(
                                seq![
                                    must_do(ActionView::CreateDirAll { path: log_dir }),
                                    must_do(
                                        ActionView::WriteFile {
                                            path: plist,
                                            content: plist_content_of(profile, ctx.dirs, log_dir),
                                        },
                                    ),
                                    may(launchctl("bootout"@, scope_of(uid, label_of(profile.runner_id)))),
                                    must(
                                        command(
                                            "launchctl"@,
                                            seq!["bootstrap"@, user_scope_of(uid), plist],
                                        ),
                                        "launchctl bootstrap failed"@,
                                    ),
                                ],
                            ),
                        ],
                    )
                },
            },
        },
    }
}

fn plist_path(home: &str, runner_id: &str) -> (r: String)
    ensures
        r@ == plist_path_of(home@, runner_id@),
{
    let a = crate::host::join_path(home, "Library");
    let b = crate::host::join_path(a.as_str(), "LaunchAgents");
    let name = concat2(label_for(runner_id).as_str(), ".plist");
    crate::host::join_path(b.as_str(), name.as_str())
}

fn install_macos(profile: &RunnerProfile, ctx: &ServiceContext) -> (r: Result<Procedure, Error>)
    ensures
        plan_view(r) == macos_install(profile@, ctx@),
{
    let home = match home_of(&ctx.dirs) {
        Ok(h) => h,
        Err(e) => {
            return Err(e);
        },
    };
    let log_dir = match ctx.dirs.runner_logs_dir(profile.runner_id.as_str()) {
        Ok(d) => d,
        Err(e) => {
            return Err(e);
        },
    };
    let uid = match uid_of(ctx) {
        Ok(u) => u,
        Err(e) => {
            return Err(e);
        },
    };
    let plist = plist_path(home, profile.runner_id.as_str());
    let content = launchd_plist_content(profile, &ctx.dirs, log_dir.as_str());
    let label = label_for(profile.runner_id.as_str());
    let scope = launchctl_scope(uid, label.as_str());
    let user_scope = launchctl_user_scope(uid);
    let bootstrap = run("launchctl", args3("bootstrap", user_scope.as_str(), plist.as_str()));
    let mut steps: Vec<Step> = Vec::new();
    steps.push(step_must_do(Action::CreateDirAll { path: log_dir }));
    steps.push(step_must_do(Action::WriteFile { path: plist, content }));
    steps.push(step_may(do_launchctl("bootout", scope.as_str())));
    steps.push(step_must(bootstrap, "launchctl bootstrap failed"));
    assert(steps_view(steps@) =~= macos_install(profile@, ctx@)->Ok_0[0].steps);
    Ok(procedure1(one_task(steps, false)))
}

/// Uninstalling on launchd: unload the agent if possible, remove its definition.
pub open spec fn macos_uninstall(profile: ProfileView, ctx: ContextView) -> Result<
    Seq<TaskView>,
    ErrorView,
> {
    match ctx.dirs.home {
        None => Err(no_home()),
        Some(home) => {
            let remove = must_do(
                ActionView::RemoveFile { path: plist_path_of(home, profile.runner_id) },
            );
            Ok(
                seq![
                    task(
                        match ctx.uid {
                            Ok(uid) => seq![
                                may(launchctl("bootout"@, scope_of(uid, label_of(profile.runner_id)))),
                                remove,
                            ],
                            Err(_) => seq![remove],
                        },
                    ),
                ],
            )
        },
    }
}

fn uninstall_macos(profile: &RunnerProfile, ctx: &ServiceContext) -> (r: Result<Procedure, Error>)
    ensures
        plan_view(r) == macos_uninstall(profile@, ctx@),
{
    let home = match home_of(&ctx.dirs) {
        Ok(h) => h,
        Err(e) => {
            return Err(e);
        },
    };
    let plist = plist_path(home, profile.runner_id.as_str());
    let remove = step_must_do(Action::RemoveFile { path: plist });
    let steps = match uid_of(ctx) {
        Ok(uid) => {
            let label = label_for(profile.runner_id.as_str());
            let scope = launchctl_scope(uid, label.as_str());
            steps2(step_may(do_launchctl("bootout", scope.as_str())), remove)
        },
        Err(_) => steps1(remove),
    };
    Ok(procedure1(one_task(steps, false)))
}

/// One required `launchctl` call on a service of the user's session.
pub open spec fn macos_scope_call(
    verb: Seq<Seq<char>>,
    label: Seq<char>,
    message: Seq<char>,
    ctx: ContextView,
) -> Result<Seq<TaskView>, ErrorView> {
    match ctx.uid {
        Err(e) => Err(e),
        Ok(uid) => Ok(
            seq![task(seq![must(command("launchctl"@, verb.push(scope_of(uid, label))), message)])],
        ),
    }
}

fn scope_call_macos(verb: Vec<String>, label: &str, message: &str, ctx: &ServiceContext) -> (r:
    Result<Procedure, Error>)
    ensures
        plan_view(r) == macos_scope_call(strings(verb@), label@, message@, ctx@),
{
    let uid = match uid_of(ctx) {
        Ok(u) => u,
        Err(e) => {
            return Err(e);
        },
    };
    let mut args = verb;
    let ghost before = strings(args@);
    let scope = launchctl_scope(uid, label);
    args.push(scope);
    assert(strings(args@) =~= before.push(scope_of(uid@, label@)));
    Ok(procedure1(one_task(steps1(step_must(run("launchctl", args), message)), false)))
}

fn args1(a: &str) -> (r: Vec<String>)
    ensures
        strings(r@) == seq![a@],
{
    let mut r: Vec<String> = Vec::new();
    r.push(a.to_string());
    assert(strings(r@) =~= seq![a@]);
    r
}

/// The error where a profile does not say which launch agent is the external one.
pub open spec fn no_external_label() -> ErrorView {
    ErrorView::Service("missing external launchd label"@)
}

/// The label of the external launch agent of a profile: the recorded
/// identity, else the label that the recorded definition declares.
pub open spec fn external_label_of(profile: ProfileView, declared: Option<Seq<char>>) -> Result<
    Seq<char>,
    ErrorView,
> {
    match profile.service.external_id {
        Some(label) => Ok(label),
        None => match profile.service.external_path {
            Some(_) => match declared {
                Some(label) => Ok(label),
                None => Err(no_external_label()),
            },
            None => Err(no_external_label()),
        },
    }
}

/// The label of the external launch agent of a profile. `declared` is the
/// label found in the recorded definition file, if the file could be read.
pub fn external_label(profile: &RunnerProfile, declared: &Option<String>) -> (r: Result<
    String,
    Error,
>)
    ensures
        match r {
            Ok(l) => external_label_of(profile@, opt_text(*declared)) == Ok::<Seq<char>, ErrorView>(
                l@,
            ),
            Err(e) => external_label_of(profile@, opt_text(*declared)) == Err::<
                Seq<char>,
                ErrorView,
            >(e@),
        },
{
    if let Some(label) = &profile.service.external_id {
        return Ok(label.clone());
    }
    if profile.service.external_path.is_some() {
        if let Some(label) = declared {
            return Ok(label.clone());
        }
    }
    Err(Error::Service("missing external launchd label".to_string()))
}

/// Disabling the external launch agent of a profile: unload it.
pub open spec fn macos_external_disable(
    profile: ProfileView,
    declared: Option<Seq<char>>,
    ctx: ContextView,
) -> Result<Seq<TaskView>, ErrorView> {
    match external_label_of(profile, declared) {
        Err(e) => Err(e),
        Ok(label) => macos_scope_call(seq!["bootout"@], label, "launchctl bootout failed"@, ctx),
    }
}

fn external_disable_macos(
    profile: &RunnerProfile,
    declared: &Option<String>,
    ctx: &ServiceContext,
) -> (r: Result<Procedure, Error>)
    ensures
        plan_view(r) == macos_external_disable(profile@, opt_text(*declared), ctx@),
{
    match external_label(profile, declared) {
        Err(e) => Err(e),
        Ok(label) => scope_call_macos(args1("bootout"), label.as_str(), "launchctl bootout failed", ctx),
    }
}

/// Removing the external launch agent of a profile: unload it if possible,
/// delete its definition.
pub open spec fn macos_external_remove(
    profile: ProfileView,
    declared: Option<Seq<char>>,
    ctx: ContextView,
) -> Seq<TaskView> {
    seq![
        attempt(
            match macos_external_disable(profile, declared, ctx) {
                Ok(tasks) => tasks[0].steps,
                Err(_) => seq![],
            },
        ),
        task(remove_definition_steps(profile)),
    ]
}

fn external_remove_macos(
    profile: &RunnerProfile,
    declared: &Option<String>,
    ctx: &ServiceContext,
) -> (r: Procedure)
    ensures
        r@ == macos_external_remove(profile@, opt_text(*declared), ctx@),
{
    let disable = match external_label(profile, declared) {
        Err(_) => no_steps(),
        Ok(label) => match uid_of(ctx) {
            Err(_) => no_steps(),
            Ok(uid) => {
                let mut args = args1("bootout");
                let ghost before = strings(args@);
                let scope = launchctl_scope(uid, label.as_str());
                args.push(scope);
                assert(strings(args@) =~= before.push(scope_of(uid@, label@)));
                steps1(step_must(run("launchctl", args), "launchctl bootout failed"))
            },
        },
    };
    procedure2(one_task(disable, true), one_task(remove_definition(profile), false))
}

// ---------------------------------------------------------------------------
// The wrapper script on Windows
// ---------------------------------------------------------------------------

/// `cmd /C svc.cmd <verb>`, run in the install directory.
pub open spec fn svc(verb: Seq<char>, profile: ProfileView, dirs: AppDirsView) -> ActionView {
    ActionView::Run {
        program: "cmd"@,
        args: seq!["/C"@, "svc.cmd"@, verb],
        dir: Some(dirs.expand(profile.install.install_path)),
    }
}

fn do_svc(verb: &str, profile: &RunnerProfile, dirs: &AppDirs) -> (r: Action)
    ensures
        r@ == svc(verb@, profile@, dirs@),
{
    Action::Run {
        program: "cmd".to_string(),
        args: args3("/C", "svc.cmd", verb),
        dir: Some(dirs.expand_path(profile.install.install_path.as_str())),
    }
}

/// One required call of the wrapper script.
pub open spec fn windows_call(
    verb: Seq<char>,
    message: Seq<char>,
    profile: ProfileView,
    dirs: AppDirsView,
) -> Seq<TaskView> {
    seq![task(seq![must(svc(verb, profile, dirs), message)])]
}

fn call_windows(verb: &str, message: &str, profile: &RunnerProfile, dirs: &AppDirs) -> (r: Procedure)
    ensures
        r@ == windows_call(verb@, message@, profile@, dirs@),
{
    procedure1(one_task(steps1(step_must(do_svc(verb, profile, dirs), message)), false))
}

/// Removing an external service on Windows: stop it if possible, uninstall it.
pub open spec fn windows_external_remove(profile: ProfileView, dirs: AppDirsView) -> Seq<TaskView> {
    seq![
        task(
            seq![
                may(svc("stop"@, profile, dirs)),
                must(svc("uninstall"@, profile, dirs), "svc.cmd uninstall failed"@),
            ],
        ),
    ]
}

// ---------------------------------------------------------------------------
// The operations
// ---------------------------------------------------------------------------

/// What installing the application's service for a profile takes.
pub open spec fn install_plan(profile: ProfileView, ctx: ContextView) -> Result<
    Seq<TaskView>,
    ErrorView,
> {
    match ctx.platform {
        Platform::Linux => linux_install(profile, ctx.dirs),
        Platform::MacOs => macos_install(profile, ctx),
        Platform::Windows => Ok(
            windows_call("install"@, "svc.cmd install failed"@, profile, ctx.dirs),
        ),
        Platform::Other => Err(ErrorView::Unsupported("service install unsupported on this OS"@)),
    }
}

/// The procedure that installs and starts the application's service for a profile.
pub fn install(profile: &RunnerProfile, ctx: &ServiceContext) -> (r: Result<Procedure, Error>)
    ensures
        plan_view(r) == install_plan(profile@, ctx@),
{
    match ctx.platform {
        Platform::Linux => install_linux(profile, &ctx.dirs),
        Platform::MacOs => install_macos(profile, ctx),
        Platform::Windows => Ok(call_windows("install", "svc.cmd install failed", profile, &ctx.dirs)),
        Platform::Other => unsupported("service install unsupported on this OS"),
    }
}

/// What removing the application's service of a profile takes.
pub open spec fn uninstall_plan(profile: ProfileView, ctx: ContextView) -> Result<
    Seq<TaskView>,
    ErrorView,
> {
    match ctx.platform {
        Platform::Linux => linux_uninstall(profile, ctx.dirs),
        Platform::MacOs => macos_uninstall(profile, ctx),
        Platform::Windows => Ok(
            windows_call("uninstall"@, "svc.cmd uninstall failed"@, profile, ctx.dirs),
        ),
        Platform::Other => Err(ErrorView::Unsupported("service uninstall unsupported on this OS"@)),
    }
}

/// The procedure that stops and removes the application's service of a profile.
pub fn uninstall(profile: &RunnerProfile, ctx: &ServiceContext) -> (r: Result<Procedure, Error>)
    ensures
        plan_view(r) == uninstall_plan(profile@, ctx@),
{
    match ctx.platform {
        Platform::Linux => uninstall_linux(profile, &ctx.dirs),
        Platform::MacOs => uninstall_macos(profile, ctx),
        Platform::Windows => Ok(
            call_windows("uninstall", "svc.cmd uninstall failed", profile, &ctx.dirs),
        ),
        Platform::Other => unsupported("service uninstall unsupported on this OS"),
    }
}

/// What switching the start on boot takes. The wrapper script on Windows
/// has no such switch, so nothing is done there.
pub open spec fn enable_on_boot_plan(profile: ProfileView, enabled: bool, ctx: ContextView) -> Result<
    Seq<TaskView>,
    ErrorView,
> {
    let verb = if enabled {
        "enable"@
    } else {
        "disable"@
    };
    match ctx.platform {
        Platform::Linux => Ok(linux_unit_call(verb, profile.runner_id)),
        Platform::MacOs => macos_scope_call(
            seq![verb],
            label_of(profile.runner_id),
            "launchctl enable/disable failed"@,
            ctx,
        ),
        Platform::Windows => Ok(seq![]),
        Platform::Other => Err(ErrorView::Unsupported("service enable unsupported on this OS"@)),
    }
}

/// The procedure that switches the start on boot of a profile's service.
pub fn enable_on_boot(profile: &RunnerProfile, enabled: bool, ctx: &ServiceContext) -> (r: Result<
    Procedure,
    Error,
>)
    ensures
        plan_view(r) == enable_on_boot_plan(profile@, enabled, ctx@),
{
    let verb = if enabled {
        "enable"
    } else {
        "disable"
    };
    match ctx.platform {
        Platform::Linux => Ok(unit_call_linux(verb, profile.runner_id.as_str())),
        Platform::MacOs => {
            let label = label_for(profile.runner_id.as_str());
            scope_call_macos(args1(verb), label.as_str(), "launchctl enable/disable failed", ctx)
        },
        Platform::Windows => Ok(Procedure::empty()),
        Platform::Other => unsupported("service enable unsupported on this OS"),
    }
}

/// What starting the application's service of a profile takes.
pub open spec fn start_plan(profile: ProfileView, ctx: ContextView) -> Result<
    Seq<TaskView>,
    ErrorView,
> {
    match ctx.platform {
        Platform::Linux => Ok(linux_unit_call("start"@, profile.runner_id)),
        Platform::MacOs => macos_scope_call(
            seq!["kickstart"@, "-k"@],
            label_of(profile.runner_id),
            "launchctl kickstart failed"@,
            ctx,
        ),
        Platform::Windows => Ok(windows_call("start"@, "svc.cmd start failed"@, profile, ctx.dirs)),
        Platform::Other => Err(ErrorView::Unsupported("service start unsupported on this OS"@)),
    }
}

/// The procedure that starts the application's service of a profile.
pub fn start(profile: &RunnerProfile, ctx: &ServiceContext) -> (r: Result<Procedure, Error>)
    ensures
        plan_view(r) == start_plan(profile@, ctx@),
{
    match ctx.platform {
        Platform::Linux => Ok(unit_call_linux("start", profile.runner_id.as_str())),
        Platform::MacOs => {
            let label = label_for(profile.runner_id.as_str());
            scope_call_macos(args2("kickstart", "-k"), label.as_str(), "launchctl kickstart failed", ctx)
        },
        Platform::Windows => Ok(call_windows("start", "svc.cmd start failed", profile, &ctx.dirs)),
        Platform::Other => unsupported("service start unsupported on this OS"),
    }
}

/// What stopping the application's service of a profile takes.
pub open spec fn stop_plan(profile: ProfileView, ctx: ContextView) -> Result<
    Seq<TaskView>,
    ErrorView,
> {
    match ctx.platform {
        Platform::Linux => Ok(linux_unit_call("stop"@, profile.runner_id)),
        Platform::MacOs => macos_scope_call(
            seq!["stop"@],
            label_of(profile.runner_id),
            "launchctl stop failed"@,
            ctx,
        ),
        Platform::Windows => Ok(windows_call("stop"@, "svc.cmd stop failed"@, profile, ctx.dirs)),
        Platform::Other => Err(ErrorView::Unsupported("service stop unsupported on this OS"@)),
    }
}

/// The procedure that stops the application's service of a profile.
pub fn stop(profile: &RunnerProfile, ctx: &ServiceContext) -> (r: Result<Procedure, Error>)
    ensures
        plan_view(r) == stop_plan(profile@, ctx@),
{
    match ctx.platform {
        Platform::Linux => Ok(unit_call_linux("stop", profile.runner_id.as_str())),
        Platform::MacOs => {
            let label = label_for(profile.runner_id.as_str());
            scope_call_macos(args1("stop"), label.as_str(), "launchctl stop failed", ctx)
        },
        Platform::Windows => Ok(call_windows("stop", "svc.cmd stop failed", profile, &ctx.dirs)),
        Platform::Other => unsupported("service stop unsupported on this OS"),
    }
}

/// What stopping and disabling an external service takes; its definition stays.
pub open spec fn external_disable_plan(
    profile: ProfileView,
    declared: Option<Seq<char>>,
    ctx: ContextView,
) -> Result<Seq<TaskView>, ErrorView> {
    match ctx.platform {
        Platform::Linux => linux_external_disable(profile),
        Platform::MacOs => macos_external_disable(profile, declared, ctx),
        Platform::Windows => Ok(seq![task(seq![may(svc("stop"@, profile, ctx.dirs))])]),
        Platform::Other => Err(
            ErrorView::Unsupported("external service disable unsupported on this OS"@),
        ),
    }
}

/// The procedure that stops and disables the external service of a profile
/// without deleting its definition. `declared` is the label that the
/// recorded definition file declares, where it could be read.
pub fn external_disable(
    profile: &RunnerProfile,
    declared: &Option<String>,
    ctx: &ServiceContext,
) -> (r: Result<Procedure, Error>)
    ensures
        plan_view(r) == external_disable_plan(profile@, opt_text(*declared), ctx@),
{
    match ctx.platform {
        Platform::Linux => external_disable_linux(profile),
        Platform::MacOs => external_disable_macos(profile, declared, ctx),
        Platform::Windows => Ok(
            procedure1(one_task(steps1(step_may(do_svc("stop", profile, &ctx.dirs))), false)),
        ),
        Platform::Other => unsupported("external service disable unsupported on this OS"),
    }
}

/// What retiring an external service takes: disabling it, then deleting its definition.
pub open spec fn external_remove_plan(
    profile: ProfileView,
    declared: Option<Seq<char>>,
    ctx: ContextView,
) -> Result<Seq<TaskView>, ErrorView> {
    match ctx.platform {
        Platform::Linux => Ok(linux_external_remove(profile)),
        Platform::MacOs => Ok(macos_external_remove(profile, declared, ctx)),
        Platform::Windows => Ok(windows_external_remove(profile, ctx.dirs)),
        Platform::Other => Err(
            ErrorView::Unsupported("external service removal unsupported on this OS"@),
        ),
    }
}

/// The procedure that disables the external service of a profile and
/// deletes its definition.
pub fn external_remove_artifacts(
    profile: &RunnerProfile,
    declared: &Option<String>,
    ctx: &ServiceContext,
) -> (r: Result<Procedure, Error>)
    ensures
        plan_view(r) == external_remove_plan(profile@, opt_text(*declared), ctx@),
{
    match ctx.platform {
        Platform::Linux => Ok(external_remove_linux(profile)),
        Platform::MacOs => Ok(external_remove_macos(profile, declared, ctx)),
        Platform::Windows => {
            let steps = steps2(
                step_may(do_svc("stop", profile, &ctx.dirs)),
                step_must(do_svc("uninstall", profile, &ctx.dirs), "svc.cmd uninstall failed"),
            );
            Ok(procedure1(one_task(steps, false)))
        },
        Platform::Other => unsupported("external service removal unsupported on this OS"),
    }
}

// ---------------------------------------------------------------------------
// Status
// ---------------------------------------------------------------------------

/// What a status command printed and whether it succeeded.
#[derive(Debug)]
pub struct CommandReport {
    pub success: bool,
    pub stdout: String,
}

/// What has to be observed to tell the status of a service.
#[derive(Debug)]
pub struct StatusRequest {
    /// The definition file whose existence counts, if any.
    pub definition: Option<String>,
    /// The command whose success means that the service is running, if any.
    pub active: Option<Action>,
    /// The command whose success means that the service starts on boot, if any.
    pub enabled: Option<Action>,
    /// The command whose output describes the service, if any.
    pub report: Option<Action>,
}

/// The view of an optional action.
pub open spec fn opt_action(a: Option<Action>) -> Option<ActionView> {
    match a {
        Some(x) => Some(x@),
        None => None,
    }
}

/// The view of a [`StatusRequest`].
pub struct RequestView {
    pub definition: Option<Seq<char>>,
    pub active: Option<ActionView>,
    pub enabled: Option<ActionView>,
    pub report: Option<ActionView>,
}

impl View for StatusRequest {
    type V = RequestView;

    open spec fn view(&self) -> RequestView {
        RequestView {
            definition: opt_text(self.definition),
            active: opt_action(self.active),
            enabled: opt_action(self.enabled),
            report: opt_action(self.report),
        }
    }
}

/// What was observed of a service. A field that was not asked for may hold anything.
#[derive(Debug)]
pub struct StatusProbe {
    /// Whether the definition file exists; `false` where none was asked for.
    pub definition_exists: bool,
    /// Whether the `active` command succeeded; `None` where it could not be run.
    pub active: Option<bool>,
    /// Whether the `enabled` command succeeded; `None` where it could not be run.
    pub enabled: Option<bool>,
    /// What the `report` command printed, or the error with which running it failed.
    pub report: Result<CommandReport, Error>,
}

/// The view of a [`StatusProbe`].
pub struct ProbeView {
    pub definition_exists: bool,
    pub active: Option<bool>,
    pub enabled: Option<bool>,
    pub report: Result<(bool, Seq<char>), ErrorView>,
}

impl View for StatusProbe {
    type V = ProbeView;

    open spec fn view(&self) -> ProbeView {
        ProbeView {
            definition_exists: self.definition_exists,
            active: self.active,
            enabled: self.enabled,
            report: match self.report {
                Ok(r) => Ok((r.success, r.stdout@)),
                Err(e) => Err(e@),
            },
        }
    }
}

/// The view of a request or of the error that prevented it.
pub open spec fn request_view(r: Result<StatusRequest, Error>) -> Result<RequestView, ErrorView> {
    match r {
        Ok(q) => Ok(q@),
        Err(e) => Err(e@),
    }
}

/// The view of a status or of the error that prevented reading it.
pub open spec fn status_view(r: Result<ServiceStatus, Error>) -> Result<ServiceStatus, ErrorView> {
    match r {
        Ok(s) => Ok(s),
        Err(e) => Err(e@),
    }
}

/// What to observe of an external service.
pub open spec fn external_request(
    profile: ProfileView,
    declared: Option<Seq<char>>,
    ctx: ContextView,
) -> Result<RequestView, ErrorView> {
    match ctx.platform {
        Platform::Linux => match external_unit_of(profile) {
            Err(e) => Err(e),
            Ok(unit) => Ok(
                RequestView {
                    definition: profile.service.external_path,
                    active: Some(systemctl_unit("is-active"@, unit)),
                    enabled: Some(systemctl_unit("is-enabled"@, unit)),
                    report: None,
                },
            ),
        },
        Platform::MacOs => match external_label_of(profile, declared) {
            Err(_) => Ok(
                RequestView {
                    definition: profile.service.external_path,
                    active: None,
                    enabled: None,
                    report: None,
                },
            ),
            Ok(label) => match ctx.uid {
                Err(e) => Err(e),
                Ok(uid) => Ok(
                    RequestView {
                        definition: profile.service.external_path,
                        active: None,
                        enabled: None,
                        report: Some(launchctl("print"@, scope_of(uid, label))),
                    },
                ),
            },
        },
        Platform::Windows => Ok(
            RequestView {
                definition: None,
                active: None,
                enabled: None,
                report: Some(svc("status"@, profile, ctx.dirs)),
            },
        ),
        Platform::Other => Err(
            ErrorView::Unsupported("external service status unsupported on this OS"@),
        ),
    }
}

/// What to observe of the service of a profile. For a profile whose
/// service is external, the external service is observed.
pub open spec fn status_request_of(
    profile: ProfileView,
    declared: Option<Seq<char>>,
    ctx: ContextView,
) -> Result<RequestView, ErrorView> {
    if ctx.platform != Platform::Other && profile.service.provider == ServiceProvider::External {
        external_request(profile, declared, ctx)
    } else {
        match ctx.platform {
            Platform::Linux => match ctx.dirs.home {
                None => Err(no_home()),
                Some(home) => Ok(
                    RequestView {
                        definition: Some(unit_path_of(home, profile.runner_id)),
                        active: Some(systemctl_unit("is-active"@, unit_name_of(profile.runner_id))),
                        enabled: Some(
                            systemctl_unit("is-enabled"@, unit_name_of(profile.runner_id)),
                        ),
                        report: None,
                    },
                ),
            },
            Platform::MacOs => match ctx.uid {
                Err(e) => Err(e),
                Ok(uid) => Ok(
                    RequestView {
                        definition: None,
                        active: None,
                        enabled: None,
                        report: Some(launchctl("print"@, scope_of(uid, label_of(profile.runner_id)))),
                    },
                ),
            },
            Platform::Windows => Ok(
                RequestView {
                    definition: None,
                    active: None,
                    enabled: None,
                    report: Some(svc("status"@, profile, ctx.dirs)),
                },
            ),
            Platform::Other => Err(ErrorView::Unsupported("service status unsupported on this OS"@)),
        }
    }
}

/// What has to be observed to tell the status of the external service of a profile.
pub fn external_status_request(
    profile: &RunnerProfile,
    declared: &Option<String>,
    ctx: &ServiceContext,
) -> (r: Result<StatusRequest, Error>)
    ensures
        request_view(r) == external_request(profile@, opt_text(*declared), ctx@),
{
    match ctx.platform {
        Platform::Linux => match external_unit_name(profile) {
            Err(e) => Err(e),
            Ok(unit) => Ok(
                StatusRequest {
                    definition: profile.service.external_path.clone(),
                    active: Some(do_systemctl_unit("is-active", unit.as_str())),
                    enabled: Some(do_systemctl_unit("is-enabled", unit.as_str())),
                    report: None,
                },
            ),
        },
        Platform::MacOs => match external_label(profile, declared) {
            Err(_) => Ok(
                StatusRequest {
                    definition: profile.service.external_path.clone(),
                    active: None,
                    enabled: None,
                    report: None,
                },
            ),
            Ok(label) => match uid_of(ctx) {
                Err(e) => Err(e),
                Ok(uid) => {
                    let scope = launchctl_scope(uid, label.as_str());
                    Ok(
                        StatusRequest {
                            definition: profile.service.external_path.clone(),
                            active: None,
                            enabled: None,
                            report: Some(do_launchctl("print", scope.as_str())),
                        },
                    )
                },
            },
        },
        Platform::Windows => Ok(
            StatusRequest {
                definition: None,
                active: None,
                enabled: None,
                report: Some(do_svc("status", profile, &ctx.dirs)),
            },
        ),
        Platform::Other => Err(
            Error::Unsupported("external service status unsupported on this OS".to_string()),
        ),
    }
}

/// What has to be observed to tell the status of the service of a profile.
pub fn status_request(profile: &RunnerProfile, declared: &Option<String>, ctx: &ServiceContext) -> (r:
    Result<StatusRequest, Error>)
    ensures
        request_view(r) == status_request_of(profile@, opt_text(*declared), ctx@),
{
    match ctx.platform {
        Platform::Other => {
            return Err(Error::Unsupported("service status unsupported on this OS".to_string()));
        },
        _ => {},
    }
    if profile.service.provider == ServiceProvider::External {
        return external_status_request(profile, declared, ctx);
    }
    match ctx.platform {
        Platform::Linux => {
            let home = match home_of(&ctx.dirs) {
                Ok(h) => h,
                Err(e) => {
                    return Err(e);
                },
            };
            let unit = unit_name(profile.runner_id.as_str());
            let dir = systemd_dir(home);
            Ok(
                StatusRequest {
                    definition: Some(crate::host::join_path(dir.as_str(), unit.as_str())),
                    active: Some(do_systemctl_unit("is-active", unit.as_str())),
                    enabled: Some(do_systemctl_unit("is-enabled", unit.as_str())),
                    report: None,
                },
            )
        },
        Platform::MacOs => match uid_of(ctx) {
            Err(e) => Err(e),
            Ok(uid) => {
                let label = label_for(profile.runner_id.as_str());
                let scope = launchctl_scope(uid, label.as_str());
                Ok(
                    StatusRequest {
                        definition: None,
                        active: None,
                        enabled: None,
                        report: Some(do_launchctl("print", scope.as_str())),
                    },
                )
            },
        },
        _ => Ok(
            StatusRequest {
                definition: None,
                active: None,
                enabled: None,
                report: Some(do_svc("status", profile, &ctx.dirs)),
            },
        ),
    }
}

/// An optional observation, read as `false` where it is missing.
pub open spec fn observed(o: Option<bool>) -> bool {
    match o {
        Some(b) => b,
        None => false,
    }
}

/// The status that the wrapper script's report means: installed and
/// enabled if the script succeeded, running if its output says so in any case of letters.
pub open spec fn windows_status(probe: ProbeView) -> Result<ServiceStatus, ErrorView> {
    match probe.report {
        Err(e) => Err(e),
        Ok((success, stdout)) => Ok(
            ServiceStatus {
                installed: success,
                running: contains(crate::host::lowercase(stdout), "running"@),
                enabled: success,
            },
        ),
    }
}

/// The status of an external service, read from what was observed.
pub open spec fn external_status_of(
    profile: ProfileView,
    declared: Option<Seq<char>>,
    ctx: ContextView,
    probe: ProbeView,
) -> Result<ServiceStatus, ErrorView> {
    match ctx.platform {
        Platform::Linux => match external_unit_of(profile) {
            Err(e) => Err(e),
            Ok(_) => Ok(
                ServiceStatus {
                    installed: profile.service.external_path is Some && probe.definition_exists,
                    running: observed(probe.active),
                    enabled: observed(probe.enabled),
                },
            ),
        },
        Platform::MacOs => {
            let installed = profile.service.external_path is Some && probe.definition_exists;
            let unknown = ServiceStatus { installed, running: false, enabled: installed };
            match external_label_of(profile, declared) {
                Err(_) => Ok(unknown),
                Ok(_) => match ctx.uid {
                    Err(e) => Err(e),
                    Ok(_) => match probe.report {
                        Ok((true, stdout)) => Ok(
                            ServiceStatus {
                                installed: true,
                                running: contains(stdout, "state = running"@) || contains(
                                    stdout,
                                    "pid ="@,
                                ),
                                enabled: installed && !contains(stdout, "disabled = true"@),
                            },
                        ),
                        _ => Ok(unknown),
                    },
                },
            }
        },
        Platform::Windows => windows_status(probe),
        Platform::Other => Err(
            ErrorView::Unsupported("external service status unsupported on this OS"@),
        ),
    }
}

/// The status of the service of a profile, read from what was observed.
pub open spec fn status_of(
    profile: ProfileView,
    declared: Option<Seq<char>>,
    ctx: ContextView,
    probe: ProbeView,
) -> Result<ServiceStatus, ErrorView> {
    if ctx.platform != Platform::Other && profile.service.provider == ServiceProvider::External {
        external_status_of(profile, declared, ctx, probe)
    } else {
        match ctx.platform {
            Platform::Linux => match ctx.dirs.home {
                None => Err(no_home()),
                Some(_) => Ok(
                    ServiceStatus {
                        installed: probe.definition_exists,
                        running: observed(probe.active),
                        enabled: observed(probe.enabled),
                    },
                ),
            },
            Platform::MacOs => match ctx.uid {
                Err(e) => Err(e),
                Ok(_) => match probe.report {
                    Ok((true, stdout)) => Ok(
                        ServiceStatus {
                            installed: true,
                            running: contains(stdout, "state = running"@),
                            enabled: true,
                        },
                    ),
                    _ => Ok(ServiceStatus { installed: false, running: false, enabled: false }),
                },
            },
            Platform::Windows => windows_status(probe),
            Platform::Other => Err(ErrorView::Unsupported("service status unsupported on this OS"@)),
        }
    }
}

fn read_observed(o: Option<bool>) -> (r: bool)
    ensures
        r == observed(o),
{
    match o {
        Some(b) => b,
        None => false,
    }
}

fn status_windows(probe: &StatusProbe) -> (r: Result<ServiceStatus, Error>)
    ensures
        status_view(r) == windows_status(probe@),
{
    match &probe.report {
        Err(e) => Err(e.clone()),
        Ok(report) => {
            let lower = crate::host::to_lowercase(report.stdout.as_str());
            Ok(
                ServiceStatus {
                    installed: report.success,
                    running: str_contains(lower.as_str(), "running"),
                    enabled: report.success,
                },
            )
        },
    }
}

/// The status of the external service of a profile, read from what was
/// observed on [`external_status_request`].
pub fn external_status(
    profile: &RunnerProfile,
    declared: &Option<String>,
    ctx: &ServiceContext,
    probe: &StatusProbe,
) -> (r: Result<ServiceStatus, Error>)
    ensures
        status_view(r) == external_status_of(profile@, opt_text(*declared), ctx@, probe@),
{
    match ctx.platform {
        Platform::Linux => match external_unit_name(profile) {
            Err(e) => Err(e),
            Ok(_) => Ok(
                ServiceStatus {
                    installed: profile.service.external_path.is_some() && probe.definition_exists,
                    running: read_observed(probe.active),
                    enabled: read_observed(probe.enabled),
                },
            ),
        },
        Platform::MacOs => {
            let installed = profile.service.external_path.is_some() && probe.definition_exists;
            let unknown = ServiceStatus { installed, running: false, enabled: installed };
            match external_label(profile, declared) {
                Err(_) => Ok(unknown),
                Ok(_) => match uid_of(ctx) {
                    Err(e) => Err(e),
                    Ok(_) => match &probe.report {
                        Ok(report) => {
                            if report.success {
                                let out = report.stdout.as_str();
                                Ok(
                                    ServiceStatus {
                                        installed: true,
                                        running: str_contains(out, "state = running")
                                            || str_contains(out, "pid ="),
                                        enabled: installed && !str_contains(out, "disabled = true"),
                                    },
                                )
                            } else {
                                Ok(unknown)
                            }
                        },
                        Err(_) => Ok(unknown),
                    },
                },
            }
        },
        Platform::Windows => status_windows(probe),
        Platform::Other => Err(
            Error::Unsupported("external service status unsupported on this OS".to_string()),
        ),
    }
}

/// The status of the service of a profile, read from what was observed on
/// [`status_request`].
pub fn status(
    profile: &RunnerProfile,
    declared: &Option<String>,
    ctx: &ServiceContext,
    probe: &StatusProbe,
) -> (r: Result<ServiceStatus, Error>)
    ensures
        status_view(r) == status_of(profile@, opt_text(*declared), ctx@, probe@),
{
    match ctx.platform {
        Platform::Other => {
            return Err(Error::Unsupported("service status unsupported on this OS".to_string()));
        },
        _ => {},
    }
    if profile.service.provider == ServiceProvider::External {
        return external_status(profile, declared, ctx, probe);
    }
    match ctx.platform {
        Platform::Linux => match home_of(&ctx.dirs) {
            Err(e) => Err(e),
            Ok(_) => Ok(
                ServiceStatus {
                    installed: probe.definition_exists,
                    running: read_observed(probe.active),
                    enabled: read_observed(probe.enabled),
                },
            ),
        },
        Platform::MacOs => match uid_of(ctx) {
            Err(e) => Err(e),
            Ok(_) => match &probe.report {
                Ok(report) => {
                    if report.success {
                        Ok(
                            ServiceStatus {
                                installed: true,
                                running: str_contains(report.stdout.as_str(), "state = running"),
                                enabled: true,
                            },
                        )
                    } else {
                        Ok(ServiceStatus { installed: false, running: false, enabled: false })
                    }
                },
                Err(_) => Ok(ServiceStatus { installed: false, running: false, enabled: false }),
            },
        },
        _ => status_windows(probe),
    }
}

/// The user id that `id -u` printed: its output without surrounding white space.
pub fn uid_from_output(success: bool, stdout: &str) -> (r: Result<String, Error>)
    ensures
        match r {
            Ok(uid) => success && uid@ == crate::text::trim(stdout@),
            Err(e) => !success && e@ == ErrorView::Service("failed to read uid"@),
        },
{
    if !success {
        return Err(Error::Service("failed to read uid".to_string()));
    }
    let chars = crate::text::chars_of(stdout);
    let trimmed = crate::text::strip(&chars, crate::text::CharClass::Whitespace);
    Ok(crate::text::string_of(&trimmed))
}

/// Where the service definitions of the user are kept: the systemd
/// directory or the launch agent directory below the home directory;
/// nowhere on other platforms and where no home directory is known.
pub open spec fn definitions_dir_of(ctx: ContextView) -> Option<Seq<char>> {
    match ctx.dirs.home {
        None => None,
        Some(home) => match ctx.platform {
            Platform::Linux => Some(systemd_dir_of(home)),
            Platform::MacOs => Some(launch_agents_dir_of(home)),
            _ => None,
        },
    }
}

/// The directory in which the service definitions of the user are kept.
pub fn definitions_dir(ctx: &ServiceContext) -> (r: Option<String>)
    ensures
        opt_text(r) == definitions_dir_of(ctx@),
{
    let home = match &ctx.dirs.home {
        Some(h) => h.as_str(),
        None => {
            return None;
        },
    };
    match ctx.platform {
        Platform::Linux => Some(systemd_dir(home)),
        Platform::MacOs => {
            let library = crate::host::join_path(home, "Library");
            Some(crate::host::join_path(library.as_str(), "LaunchAgents"))
        },
        _ => None,
    }
}

} // verus!
