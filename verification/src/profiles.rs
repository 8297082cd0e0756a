//! Creating, changing and removing profiles, and changing the settings.

use vstd::prelude::*;
use crate::config::{
    opt_scope, opt_text, profiles, AdoptionDefault, Config, ConfigView, InstallConfig, InstallMode,
    InstallView, MigrationStatus, OnboardingView, ProfileView, RunnerProfile, RunnerScope,
    RunnerServiceConfig, ScopeView, ServiceProvider, ServiceView, SettingsConfig, no_service,
};
use crate::discovery::{
    copy_plan, copy_procedure, plan_move, planned_move, MovePlan, MovePlanView,
};
use crate::errors::{AppError, AppErrorView, Error, ErrorView};
use crate::host::{no_project_dirs, AppDirs, AppDirsView, ProfileSeed, SeedView};
use crate::migration::{app_error, app_profile, app_unit, if_possible, stop_runner_task};
use crate::procedure::{Action, ActionView, Procedure, TaskView};
use crate::service_mgmt::{
    attempt, may, plan_view, stop_plan, task, uninstall_plan, must, ContextView, ServiceContext,
    ServiceStatus,
};
use crate::store::{
    found_runner, has_runner, identity_taken, index_of_runner, sanitized, selection_valid,
    ConfigStore, StoreView,
};
use crate::text::{strings, trim};

verus! {

/// What a caller gives for a new profile. What is not given gets a default.
#[derive(Debug)]
pub struct CreateRunnerProfileInput {
    pub display_name: Option<String>,
    pub runner_name: Option<String>,
    pub labels: Option<Vec<String>>,
    pub work_dir: Option<String>,
    pub scope: Option<RunnerScope>,
    pub pat_alias: Option<String>,
}

/// The texts of an optional vector of strings.
pub open spec fn opt_strings(o: Option<Vec<String>>) -> Option<Seq<Seq<char>>> {
    match o {
        Some(v) => Some(strings(v@)),
        None => None,
    }
}

/// The view of a [`CreateRunnerProfileInput`].
pub struct InputView {
    pub display_name: Option<Seq<char>>,
    pub runner_name: Option<Seq<char>>,
    pub labels: Option<Seq<Seq<char>>>,
    pub work_dir: Option<Seq<char>>,
    pub scope: Option<ScopeView>,
    pub pat_alias: Option<Seq<char>>,
}

impl View for CreateRunnerProfileInput {
    type V = InputView;

    open spec fn view(&self) -> InputView {
        InputView {
            display_name: opt_text(self.display_name),
            runner_name: opt_text(self.runner_name),
            labels: opt_strings(self.labels),
            work_dir: opt_text(self.work_dir),
            scope: opt_scope(self.scope),
            pat_alias: opt_text(self.pat_alias),
        }
    }
}

/// The value given, or the default.
pub open spec fn or_default<T>(given: Option<T>, default: T) -> T {
    match given {
        Some(v) => v,
        None => default,
    }
}

/// The profile that is created from what a caller gives: managed, at its
/// place in managed storage, without a service. A blank runner name or
/// work directory is refused, and so is a profile for which no place in
/// managed storage can be named.
pub open spec fn created_profile(input: InputView, seed: SeedView, default_alias: Seq<char>) -> Result<
    ProfileView,
    AppErrorView,
> {
    let runner_name = or_default(input.runner_name, seed.runner_name);
    let work_dir = or_default(input.work_dir, seed.work_dir);
    if trim(runner_name).len() == 0 {
        Err(app_error("runner"@, "runner name is required"@))
    } else if trim(work_dir).len() == 0 {
        Err(app_error("runner"@, "work directory is required"@))
    } else {
        match seed.install_path {
            None => Err(AppErrorView::of(no_project_dirs())),
            Some(install_path) => Ok(
                ProfileView {
                    runner_id: seed.runner_id,
                    display_name: or_default(input.display_name, runner_name),
                    scope: input.scope,
                    runner_name,
                    labels: or_default(input.labels, seed.labels),
                    work_dir,
                    install: InstallView {
                        mode: InstallMode::Managed,
                        install_path,
                        adopted_from_path: None,
                        migration_status: MigrationStatus::NotStarted,
                    },
                    runner_version: None,
                    pat_alias: or_default(input.pat_alias, default_alias),
                    service: no_service(),
                    created_at: seed.created_at,
                    last_seen_at: None,
                },
            ),
        }
    }
}

/// The profile that is created from what a caller gives, with the given seed.
pub fn create_profile(input: CreateRunnerProfileInput, seed: ProfileSeed, default_alias: &str) -> (r:
    Result<RunnerProfile, AppError>)
    ensures
        app_profile(r) == created_profile(input@, seed@, default_alias@),
{
    let runner_name = match input.runner_name {
        Some(n) => n,
        None => seed.runner_name,
    };
    if crate::text::is_blank(runner_name.as_str()) {
        return Err(AppError::new("runner", "runner name is required"));
    }
    let display_name = match input.display_name {
        Some(n) => n,
        None => runner_name.clone(),
    };
    let labels = match input.labels {
        Some(l) => l,
        None => seed.labels,
    };
    let work_dir = match input.work_dir {
        Some(w) => w,
        None => seed.work_dir,
    };
    if crate::text::is_blank(work_dir.as_str()) {
        return Err(AppError::new("runner", "work directory is required"));
    }
    let install_path = match seed.install_path {
        Some(p) => p,
        None => {
            return Err(
                AppError::from(Error::Config("failed to resolve project directories".to_string())),
            );
        },
    };
    Ok(
        RunnerProfile {
            runner_id: seed.runner_id,
            display_name,
            scope: input.scope,
            runner_name,
            labels,
            work_dir,
            install: InstallConfig {
                mode: InstallMode::Managed,
                install_path,
                adopted_from_path: None,
                migration_status: MigrationStatus::NotStarted,
            },
            runner_version: None,
            pat_alias: match input.pat_alias {
                Some(a) => a,
                None => default_alias.to_string(),
            },
            service: RunnerServiceConfig::default(),
            created_at: seed.created_at,
            last_seen_at: None,
        },
    )
}

/// The configuration with one more profile, which is selected.
pub open spec fn with_created(c: ConfigView, p: ProfileView) -> ConfigView {
    sanitized(
        ConfigView { runners: c.runners.push(p), selected_runner_id: Some(p.runner_id), ..c },
    )
}

/// Adds a created profile to the document and selects it. A profile whose
/// identity another profile has already is refused, and nothing changes.
pub fn register_profile(store: &mut ConfigStore, profile: RunnerProfile) -> (r: Result<(), Error>)
    ensures
        has_runner(old(store)@.config.runners, profile@.runner_id) ==> {
            &&& r matches Err(e)
            &&& e@ == identity_taken(profile@.runner_id)
            &&& *final(store) == *old(store)
        },
        !has_runner(old(store)@.config.runners, profile@.runner_id) ==> {
            &&& r is Ok
            &&& final(store)@ == (StoreView {
                config: with_created(old(store)@.config, profile@),
                needs_save: true,
            })
            &&& selection_valid(final(store)@.config)
        },
{
    if crate::store::position_of_runner(&store.config.runners, profile.runner_id.as_str())
        < store.config.runners.len() {
        return Err(
            Error::Runner(
                crate::text::concat3("runner ", profile.runner_id.as_str(), " already exists"),
            ),
        );
    }
    let ghost before = store@.config;
    store.config.selected_runner_id = Some(profile.runner_id.clone());
    store.config.runners.push(profile);
    let ghost mid = store@.config;
    assert(mid.runners =~= before.runners.push(profile@));
    crate::store::sanitize_selected_runner_id(&mut store.config);
    proof {
        crate::store::lemma_sanitized_is_valid(mid);
    }
    store.needs_save = true;
    Ok(())
}

/// Profiles that are unique by identity stay so through every
/// registration that is not refused, of a created profile or of an imported one.
pub proof fn lemma_registration_keeps_identities_unique(c: ConfigView, p: ProfileView)
    requires
        crate::store::unique_identities(c.runners),
        !has_runner(c.runners, p.runner_id),
    ensures
        crate::store::unique_identities(with_created(c, p).runners),
        crate::store::unique_identities(crate::discovery::registered(c, p).runners),
{
    crate::store::lemma_new_identity_keeps_profiles_unique(c.runners, p);
}

/// What a caller wants changed of a profile. What is not given stays.
#[derive(Debug)]
pub struct RunnerProfilePatch {
    pub display_name: Option<String>,
    pub runner_name: Option<String>,
    pub labels: Option<Vec<String>>,
    pub work_dir: Option<String>,
    pub scope: Option<RunnerScope>,
    pub pat_alias: Option<String>,
}

impl View for RunnerProfilePatch {
    type V = InputView;

    open spec fn view(&self) -> InputView {
        InputView {
            display_name: opt_text(self.display_name),
            runner_name: opt_text(self.runner_name),
            labels: opt_strings(self.labels),
            work_dir: opt_text(self.work_dir),
            scope: opt_scope(self.scope),
            pat_alias: opt_text(self.pat_alias),
        }
    }
}

/// A profile with the given changes. A scope can be set, not taken away.
pub open spec fn patched(p: ProfileView, patch: InputView) -> ProfileView {
    ProfileView {
        display_name: or_default(patch.display_name, p.display_name),
        runner_name: or_default(patch.runner_name, p.runner_name),
        labels: or_default(patch.labels, p.labels),
        work_dir: or_default(patch.work_dir, p.work_dir),
        scope: match patch.scope {
            Some(s) => Some(s),
            None => p.scope,
        },
        pat_alias: or_default(patch.pat_alias, p.pat_alias),
        ..p
    }
}

/// Changes a profile as the patch says.
pub fn patch_profile(profile: &mut RunnerProfile, patch: RunnerProfilePatch)
    ensures
        final(profile)@ == patched(old(profile)@, patch@),
{
    if let Some(display_name) = patch.display_name {
        profile.display_name = display_name;
    }
    if let Some(runner_name) = patch.runner_name {
        profile.runner_name = runner_name;
    }
    if let Some(labels) = patch.labels {
        profile.labels = labels;
    }
    if let Some(work_dir) = patch.work_dir {
        profile.work_dir = work_dir;
    }
    if let Some(scope) = patch.scope {
        profile.scope = Some(scope);
    }
    if let Some(pat_alias) = patch.pat_alias {
        profile.pat_alias = pat_alias;
    }
}

/// Changes the first profile with the given identity as the patch says.
/// The document is repaired and marked as to be written whether the
/// profile exists or not.
pub fn update_profile(store: &mut ConfigStore, runner_id: &str, patch: RunnerProfilePatch) -> (r: Result<
    RunnerProfile,
    AppError,
>)
    ensures
        final(store)@.needs_save,
        selection_valid(final(store)@.config),
        !has_runner(old(store)@.config.runners, runner_id@) ==> {
            &&& final(store)@.config == sanitized(old(store)@.config)
            &&& app_profile(r) == Err::<ProfileView, AppErrorView>(
                app_error("runner"@, "runner not found"@),
            )
        },
        has_runner(old(store)@.config.runners, runner_id@) ==> {
            let i = index_of_runner(old(store)@.config.runners, runner_id@);
            let next = patched(old(store)@.config.runners[i], patch@);
            &&& final(store)@.config == sanitized(
                ConfigView {
                    runners: old(store)@.config.runners.update(i, next),
                    ..old(store)@.config
                },
            )
            &&& app_profile(r) == Ok::<ProfileView, AppErrorView>(next)
        },
{
    let ghost before = store@.config;
    proof {
        crate::store::lemma_index_of_runner(before.runners, runner_id@);
        crate::store::lemma_sanitized_is_valid(before);
    }
    let i = crate::store::position_of_runner(&store.config.runners, runner_id);
    if i >= store.config.runners.len() {
        crate::store::sanitize_selected_runner_id(&mut store.config);
        store.needs_save = true;
        return Err(AppError::new("runner", "runner not found"));
    }
    let mut profile = store.config.runners.remove(i);
    assert(profile@ == before.runners[i as int]);
    patch_profile(&mut profile, patch);
    let copy = profile.clone();
    store.config.runners.insert(i, profile);
    let ghost mid = ConfigView { runners: before.runners.update(i as int, copy@), ..before };
    assert(store.config@.runners =~= mid.runners);
    crate::store::sanitize_selected_runner_id(&mut store.config);
    proof {
        crate::store::lemma_sanitized_is_valid(mid);
    }
    store.needs_save = true;
    Ok(copy)
}

/// The profiles without those that have the given identity.
pub open spec fn without_runner(runners: Seq<ProfileView>, id: Seq<char>) -> Seq<ProfileView>
    decreases runners.len(),
{
    if runners.len() == 0 {
        seq![]
    } else if runners.last().runner_id == id {
        without_runner(runners.drop_last(), id)
    } else {
        without_runner(runners.drop_last(), id).push(runners.last())
    }
}

/// The configuration without the profiles that have the given identity.
/// Where the removed profile was selected, the first of the remaining ones is.
pub open spec fn with_removed(c: ConfigView, id: Seq<char>) -> ConfigView {
    sanitized(
        ConfigView {
            runners: without_runner(c.runners, id),
            selected_runner_id: if c.selected_runner_id == Some(id) {
                if without_runner(c.runners, id).len() > 0 {
                    Some(without_runner(c.runners, id)[0].runner_id)
                } else {
                    None
                }
            } else {
                c.selected_runner_id
            },
            ..c
        },
    )
}

/// Removes the profiles with the given identity from the document.
pub fn remove_profile(store: &mut ConfigStore, runner_id: &str)
    ensures
        final(store)@ == (StoreView {
            config: with_removed(old(store)@.config, runner_id@),
            needs_save: true,
        }),
        selection_valid(final(store)@.config),
{
    let ghost before = store@.config;
    let mut kept: Vec<RunnerProfile> = Vec::new();
    let mut all: Vec<RunnerProfile> = Vec::new();
    std::mem::swap(&mut store.config.runners, &mut all);
    let ghost all_view = profiles(all@);
    assert(all_view == before.runners);
    let n = all.len();
    let mut i: usize = 0;
    assert(profiles(kept@) =~= without_runner(all_view.take(0), runner_id@));
    while i < n
        invariant
            i <= n,
            n == all.len(),
            all_view == profiles(all@),
            profiles(kept@) == without_runner(all_view.take(i as int), runner_id@),
        decreases n - i,
    {
        assert(all_view.take(i + 1).drop_last() == all_view.take(i as int));
        assert(all_view.take(i + 1).last() == all@[i as int]@);
        let ghost kept_before = profiles(kept@);
        if !crate::text::str_eq(all[i].runner_id.as_str(), runner_id) {
            let p = all[i].clone();
            kept.push(p);
            assert(profiles(kept@) =~= kept_before.push(all@[i as int]@));
        }
        i += 1;
    }
    assert(all_view.take(n as int) == all_view);
    let was_selected = match &store.config.selected_runner_id {
        Some(s) => crate::text::str_eq(s.as_str(), runner_id),
        None => false,
    };
    if was_selected {
        store.config.selected_runner_id = if kept.len() > 0 {
            Some(kept[0].runner_id.clone())
        } else {
            None
        };
    }
    store.config.runners = kept;
    let ghost mid = store@.config;
    crate::store::sanitize_selected_runner_id(&mut store.config);
    proof {
        crate::store::lemma_sanitized_is_valid(mid);
    }
    store.needs_save = true;
}

/// Selects a profile, or none. A selection that names no profile is repaired.
pub fn select_runner(store: &mut ConfigStore, runner_id: Option<String>)
    ensures
        final(store)@ == (StoreView {
            config: sanitized(
                ConfigView { selected_runner_id: opt_text(runner_id), ..old(store)@.config },
            ),
            needs_save: true,
        }),
        selection_valid(final(store)@.config),
{
    store.config.selected_runner_id = runner_id;
    let ghost mid = store@.config;
    crate::store::sanitize_selected_runner_id(&mut store.config);
    proof {
        crate::store::lemma_sanitized_is_valid(mid);
    }
    store.needs_save = true;
}

/// How thoroughly a profile is deleted.
#[derive(Debug, Clone, Copy, PartialEq, Eq, Structural)]
pub enum RunnerDeleteMode {
    /// Only the profile goes.
    ConfigOnly,
    /// The install, the work directory and the logs go too.
    LocalDelete,
    /// The registration at the remote side goes as well.
    UnregisterAndDelete,
}

/// Removing a directory tree, without insisting.
pub open spec fn remove_tree_task(path: Seq<char>) -> TaskView {
    attempt(seq![may(ActionView::RemoveTree { path })])
}

/// What deleting a profile takes before the profile is removed from the
/// document: the runner is stopped as far as possible; the application's
/// own service is stopped and uninstalled as far as possible; the
/// registration is removed if asked for, which must succeed; the
/// directories are removed if asked for, as far as possible.
pub open spec fn deletion_plan(
    profile: ProfileView,
    mode: RunnerDeleteMode,
    ctx: ContextView,
) -> Result<Seq<TaskView>, ErrorView> {
    let service = if profile.service.provider == ServiceProvider::Runnerbuddy {
        if_possible(stop_plan(profile, ctx)) + if_possible(uninstall_plan(profile, ctx))
    } else {
        seq![]
    };
    let unregister = if mode == RunnerDeleteMode::UnregisterAndDelete {
        seq![
            task(
                seq![
                    must(
                        ActionView::Unregister { runner_id: profile.runner_id },
                        "runner remove failed"@,
                    ),
                ],
            ),
        ]
    } else {
        seq![]
    };
    let head = seq![stop_runner_task(profile.runner_id)] + service + unregister;
    if mode == RunnerDeleteMode::ConfigOnly {
        Ok(head)
    } else {
        match ctx.dirs.runner_logs_dir(profile.runner_id) {
            None => Err(no_project_dirs()),
            Some(logs) => Ok(
                head + seq![
                    remove_tree_task(ctx.dirs.expand(profile.install.install_path)),
                    remove_tree_task(ctx.dirs.expand(profile.work_dir)),
                    remove_tree_task(logs),
                ],
            ),
        }
    }
}

fn remove_tree(path: String) -> (r: Procedure)
    ensures
        r@ == seq![remove_tree_task(path@)],
{
    let step = crate::service_mgmt::step_may(Action::RemoveTree { path });
    crate::service_mgmt::procedure1(
        crate::service_mgmt::one_task(crate::service_mgmt::steps1(step), true),
    )
}

/// The procedure that comes before a profile is removed from the document.
pub fn deletion_procedure(profile: &RunnerProfile, mode: RunnerDeleteMode, ctx: &ServiceContext) -> (r:
    Result<Procedure, Error>)
    ensures
        plan_view(r) == deletion_plan(profile@, mode, ctx@),
{
    let stop_step = crate::service_mgmt::step_may(
        Action::StopRunner { runner_id: profile.runner_id.clone() },
    );
    let mut plan = crate::service_mgmt::procedure1(
        crate::service_mgmt::one_task(crate::service_mgmt::steps1(stop_step), true),
    );
    if profile.service.provider == ServiceProvider::Runnerbuddy {
        let halt = crate::migration::attempted(crate::service_mgmt::stop(profile, ctx));
        let removal = crate::migration::attempted(crate::service_mgmt::uninstall(profile, ctx));
        let ghost a = plan@;
        plan = plan.followed_by(halt.followed_by(removal));
        assert(plan@ =~= a + (if_possible(stop_plan(profile@, ctx@)) + if_possible(
            uninstall_plan(profile@, ctx@),
        )));
    } else {
        assert(plan@ + Seq::<TaskView>::empty() =~= plan@);
    }
    match mode {
        RunnerDeleteMode::UnregisterAndDelete => {
            let step = crate::service_mgmt::step_must(
                Action::Unregister { runner_id: profile.runner_id.clone() },
                "runner remove failed",
            );
            plan = plan.followed_by(
                crate::service_mgmt::procedure1(
                    crate::service_mgmt::one_task(crate::service_mgmt::steps1(step), false),
                ),
            );
        },
        _ => {
            assert(plan@ + Seq::<TaskView>::empty() =~= plan@);
        },
    }
    match mode {
        RunnerDeleteMode::ConfigOnly => Ok(plan),
        _ => {
            let logs = match ctx.dirs.runner_logs_dir(profile.runner_id.as_str()) {
                Ok(d) => d,
                Err(e) => {
                    return Err(e);
                },
            };
            let install = ctx.dirs.expand_path(profile.install.install_path.as_str());
            let work = ctx.dirs.expand_path(profile.work_dir.as_str());
            let tail = remove_tree(install).followed_by(remove_tree(work)).followed_by(
                remove_tree(logs),
            );
            assert(tail@ =~= seq![
                remove_tree_task(ctx@.dirs.expand(profile@.install.install_path)),
                remove_tree_task(ctx@.dirs.expand(profile@.work_dir)),
                remove_tree_task(ctx@.dirs.runner_logs_dir(profile@.runner_id)->0),
            ]);
            Ok(plan.followed_by(tail))
        },
    }
}

/// What a caller wants changed of the settings.
#[derive(Debug, Clone, Copy, PartialEq, Eq, Structural)]
pub struct SettingsPatch {
    pub auto_updates_enabled: Option<bool>,
    pub auto_check_updates_on_launch: Option<bool>,
    pub adoption_default: Option<AdoptionDefault>,
}

/// The settings with the given changes. Switching updates off switches
/// the check on launch off too, and the check on launch can only be set
/// while updates are on.
pub open spec fn patched_settings(s: SettingsConfig, patch: SettingsPatch) -> SettingsConfig {
    let updates = or_default(patch.auto_updates_enabled, s.auto_updates_enabled);
    let check_after_updates = if patch.auto_updates_enabled == Some(false) {
        false
    } else {
        s.auto_check_updates_on_launch
    };
    SettingsConfig {
        auto_updates_enabled: updates,
        auto_check_updates_on_launch: if updates {
            or_default(patch.auto_check_updates_on_launch, check_after_updates)
        } else {
            check_after_updates
        },
        adoption_default: or_default(patch.adoption_default, s.adoption_default),
    }
}

/// Changes the settings as the patch says.
pub fn update_settings(store: &mut ConfigStore, patch: SettingsPatch) -> (r: SettingsConfig)
    ensures
        r == patched_settings(old(store)@.config.settings, patch),
        final(store)@ == (StoreView {
            config: sanitized(ConfigView { settings: r, ..old(store)@.config }),
            needs_save: true,
        }),
        selection_valid(final(store)@.config),
{
    if let Some(value) = patch.auto_updates_enabled {
        store.config.settings.auto_updates_enabled = value;
        if !value {
            store.config.settings.auto_check_updates_on_launch = false;
        }
    }
    if let Some(value) = patch.auto_check_updates_on_launch {
        if store.config.settings.auto_updates_enabled {
            store.config.settings.auto_check_updates_on_launch = value;
        }
    }
    if let Some(value) = patch.adoption_default {
        store.config.settings.adoption_default = value;
    }
    let ghost mid = store@.config;
    crate::store::sanitize_selected_runner_id(&mut store.config);
    proof {
        crate::store::lemma_sanitized_is_valid(mid);
    }
    store.needs_save = true;
    store.config.settings
}

/// Marks onboarding as completed at the given time, or as not completed
/// where no time is given.
pub fn set_onboarding(store: &mut ConfigStore, completed_at: Option<String>)
    ensures
        final(store)@ == (StoreView {
            config: sanitized(
                ConfigView {
                    onboarding: OnboardingView {
                        completed: completed_at is Some,
                        completed_at: opt_text(completed_at),
                    },
                    ..old(store)@.config
                },
            ),
            needs_save: true,
        }),
        selection_valid(final(store)@.config),
{
    store.config.onboarding.completed = completed_at.is_some();
    store.config.onboarding.completed_at = completed_at;
    let ghost mid = store@.config;
    crate::store::sanitize_selected_runner_id(&mut store.config);
    proof {
        crate::store::lemma_sanitized_is_valid(mid);
    }
    store.needs_save = true;
}

/// Sets the alias under which credentials are looked up by default.
pub fn set_default_alias(store: &mut ConfigStore, alias: String)
    ensures
        final(store)@ == (StoreView {
            config: sanitized(ConfigView { pat_default_alias: alias@, ..old(store)@.config }),
            needs_save: true,
        }),
        selection_valid(final(store)@.config),
{
    store.config.pat_default_alias = alias;
    let ghost mid = store@.config;
    crate::store::sanitize_selected_runner_id(&mut store.config);
    proof {
        crate::store::lemma_sanitized_is_valid(mid);
    }
    store.needs_save = true;
}

// ---------------------------------------------------------------------------
// The service of a profile
// ---------------------------------------------------------------------------

/// What a caller wants done with the service of a profile.
#[derive(Debug, Clone, Copy, PartialEq, Eq, Structural)]
pub enum ServiceRequest {
    Uninstall,
    Start,
    Stop,
}

/// Whether the application may act on the service of a profile: not on
/// one that an external service manager runs.
pub open spec fn service_request_verdict(profile: ProfileView, request: ServiceRequest) -> Result<
    (),
    AppErrorView,
> {
    if profile.service.provider == ServiceProvider::External {
        Err(
            app_error(
                "service"@,
                match request {
                    ServiceRequest::Uninstall => "external service is managing this runner; remove external artifacts first"@,
                    ServiceRequest::Start => "external service is managing this runner; start it externally"@,
                    ServiceRequest::Stop => "external service is managing this runner; stop it externally"@,
                },
            ),
        )
    } else {
        Ok(())
    }
}

/// Decides whether the application may act on the service of a profile.
pub fn check_service_request(profile: &RunnerProfile, request: ServiceRequest) -> (r: Result<
    (),
    AppError,
>)
    ensures
        app_unit(r) == service_request_verdict(profile@, request),
{
    if profile.service.provider == ServiceProvider::External {
        let message = match request {
            ServiceRequest::Uninstall => "external service is managing this runner; remove external artifacts first",
            ServiceRequest::Start => "external service is managing this runner; start it externally",
            ServiceRequest::Stop => "external service is managing this runner; stop it externally",
        };
        return Err(AppError::new("service", message));
    }
    Ok(())
}

/// Whether the install of a profile may be moved: not while its external
/// service is installed or running.
pub open spec fn move_verdict(profile: ProfileView, observed: Result<ServiceStatus, ErrorView>) -> Result<
    (),
    AppErrorView,
> {
    if profile.service.provider != ServiceProvider::External {
        Ok(())
    } else {
        match observed {
            Err(e) => Err(AppErrorView::of(e)),
            Ok(status) => if status.installed || status.running {
                Err(
                    app_error(
                        "service"@,
                        "external service detected; replace or remove external service before moving"@,
                    ),
                )
            } else {
                Ok(())
            },
        }
    }
}

/// Decides whether the install of a profile may be moved. `observed` is
/// the status of the external service, or the error with which reading it
/// failed; it counts only where the service is external.
pub fn check_move_allowed(profile: &RunnerProfile, observed: Result<ServiceStatus, Error>) -> (r:
    Result<(), AppError>)
    ensures
        app_unit(r) == move_verdict(
            profile@,
            match observed {
                Ok(s) => Ok(s),
                Err(e) => Err(e@),
            },
        ),
{
    if profile.service.provider != ServiceProvider::External {
        return Ok(());
    }
    match observed {
        Err(e) => Err(AppError::from(e)),
        Ok(status) => if status.installed || status.running {
            Err(
                AppError::new(
                    "service",
                    "external service detected; replace or remove external service before moving",
                ),
            )
        } else {
            Ok(())
        },
    }
}

/// What comes before a move: the runner is stopped as far as possible,
/// and so is the application's own service.
pub open spec fn move_preparation(profile: ProfileView, ctx: ContextView) -> Seq<TaskView> {
    seq![stop_runner_task(profile.runner_id)] + if profile.service.provider
        == ServiceProvider::Runnerbuddy {
        if_possible(stop_plan(profile, ctx))
    } else {
        seq![]
    }
}

/// The procedure that comes before a move.
pub fn move_preparation_procedure(profile: &RunnerProfile, ctx: &ServiceContext) -> (r: Procedure)
    ensures
        r@ == move_preparation(profile@, ctx@),
{
    let stop_step = crate::service_mgmt::step_may(
        Action::StopRunner { runner_id: profile.runner_id.clone() },
    );
    let first = crate::service_mgmt::procedure1(
        crate::service_mgmt::one_task(crate::service_mgmt::steps1(stop_step), true),
    );
    if profile.service.provider == ServiceProvider::Runnerbuddy {
        first.followed_by(crate::migration::attempted(crate::service_mgmt::stop(profile, ctx)))
    } else {
        first.followed_by(Procedure::empty())
    }
}

/// Everything that a move does before its record: where the install goes,
/// what stops the runner, and the copy.
#[derive(Debug)]
pub struct GuardedMove {
    pub plan: MovePlan,
    /// Stops the runner and the application's own service, as far as possible.
    pub preparation: Procedure,
    /// Copies the install to its destination.
    pub copy: Procedure,
}

/// The view of a [`GuardedMove`].
pub struct GuardedMoveView {
    pub plan: MovePlanView,
    pub preparation: Seq<TaskView>,
    pub copy: Seq<TaskView>,
}

impl View for GuardedMove {
    type V = GuardedMoveView;

    open spec fn view(&self) -> GuardedMoveView {
        GuardedMoveView { plan: self.plan@, preparation: self.preparation@, copy: self.copy@ }
    }
}

/// What a move takes, or why it is refused. Every check comes before
/// anything is planned: the profile must exist, no external service may be
/// installed or running for it, its install must be adopted, a destination
/// must be known, nothing may be there yet, and the source must exist.
pub open spec fn guarded_move_planned(
    c: ConfigView,
    runner_id: Seq<char>,
    destination: Option<Seq<char>>,
    dirs: AppDirsView,
    ctx: ContextView,
    observed: Result<ServiceStatus, ErrorView>,
    destination_exists: bool,
    source_exists: bool,
) -> Result<GuardedMoveView, AppErrorView> {
    match found_runner(c.runners, runner_id) {
        Err(e) => Err(AppErrorView::of(e)),
        Ok(profile) => match move_verdict(profile, observed) {
            Err(e) => Err(e),
            Ok(()) => match planned_move(c, runner_id, destination, dirs) {
                Err(e) => Err(AppErrorView::of(e)),
                Ok(plan) => match copy_plan(plan, destination_exists, source_exists) {
                    Err(e) => Err(AppErrorView::of(e)),
                    Ok(copy) => Ok(
                        GuardedMoveView { plan, preparation: move_preparation(profile, ctx), copy },
                    ),
                },
            },
        },
    }
}

/// The view of a planned move or of the refusal in its place.
pub open spec fn guarded_move_result(r: Result<GuardedMove, AppError>) -> Result<
    GuardedMoveView,
    AppErrorView,
> {
    match r {
        Ok(p) => Ok(p@),
        Err(e) => Err(e@),
    }
}

/// Plans the move of a profile's install, or refuses it before anything is
/// done. `observed` is the status of the external service, or the error
/// with which reading it failed; it counts only where the service is
/// external. The two flags say what was seen at the destination and at the
/// source of the move that [`plan_move`] names.
pub fn guarded_move_plan(
    config: &Config,
    runner_id: &str,
    destination: Option<String>,
    dirs: &AppDirs,
    ctx: &ServiceContext,
    observed: Result<ServiceStatus, Error>,
    destination_exists: bool,
    source_exists: bool,
) -> (r: Result<GuardedMove, AppError>)
    ensures
        guarded_move_result(r) == guarded_move_planned(
            config@,
            runner_id@,
            opt_text(destination),
            dirs@,
            ctx@,
            match observed {
                Ok(s) => Ok(s),
                Err(e) => Err(e@),
            },
            destination_exists,
            source_exists,
        ),
{
    let profile = match crate::store::find_runner(config, runner_id) {
        Ok(p) => p,
        Err(e) => {
            return Err(AppError::from(e));
        },
    };
    match check_move_allowed(&profile, observed) {
        Ok(()) => {},
        Err(e) => {
            return Err(e);
        },
    }
    let plan = match plan_move(config, runner_id, destination, dirs) {
        Ok(p) => p,
        Err(e) => {
            return Err(AppError::from(e));
        },
    };
    let copy = match copy_procedure(&plan, destination_exists, source_exists) {
        Ok(p) => p,
        Err(e) => {
            return Err(AppError::from(e));
        },
    };
    let preparation = move_preparation_procedure(&profile, ctx);
    Ok(GuardedMove { plan, preparation, copy })
}

/// A move is planned only for an adopted install of a profile that exists,
/// with no external service installed or running for it, to a destination
/// where nothing is yet, from a source that is there.
pub proof fn lemma_move_checks_come_first(
    c: ConfigView,
    runner_id: Seq<char>,
    destination: Option<Seq<char>>,
    dirs: AppDirsView,
    ctx: ContextView,
    observed: Result<ServiceStatus, ErrorView>,
    destination_exists: bool,
    source_exists: bool,
)
    ensures
        guarded_move_planned(
            c,
            runner_id,
            destination,
            dirs,
            ctx,
            observed,
            destination_exists,
            source_exists,
        ) is Ok ==> {
            let profile = found_runner(c.runners, runner_id)->Ok_0;
            &&& has_runner(c.runners, runner_id)
            &&& profile.install.mode == InstallMode::Adopted
            &&& move_verdict(profile, observed) is Ok
            &&& !destination_exists
            &&& source_exists
        },
{
}

/// The service descriptor after the application's own service was installed.
pub open spec fn service_installed(s: ServiceView) -> ServiceView {
    ServiceView { installed: true, run_on_boot: true, provider: ServiceProvider::Runnerbuddy, ..s }
}

/// The service descriptor after the application's own service was uninstalled.
pub open spec fn service_uninstalled(s: ServiceView) -> ServiceView {
    ServiceView {
        installed: false,
        run_on_boot: false,
        provider: if s.provider == ServiceProvider::Runnerbuddy {
            ServiceProvider::Unknown
        } else {
            s.provider
        },
        ..s
    }
}

/// The service descriptor after the start on boot was switched. Switching
/// it on means that the application's own service is installed.
pub open spec fn boot_switched(s: ServiceView, enabled: bool) -> ServiceView {
    if enabled {
        ServiceView { installed: true, run_on_boot: true, provider: ServiceProvider::Runnerbuddy, ..s }
    } else {
        ServiceView { run_on_boot: false, ..s }
    }
}

/// Records in a profile that the application's own service was installed.
pub fn mark_service_installed(profile: &mut RunnerProfile)
    ensures
        final(profile)@ == (ProfileView {
            service: service_installed(old(profile)@.service),
            ..old(profile)@
        }),
{
    profile.service.installed = true;
    profile.service.run_on_boot = true;
    profile.service.provider = ServiceProvider::Runnerbuddy;
}

/// Records in a profile that the application's own service was uninstalled.
pub fn mark_service_uninstalled(profile: &mut RunnerProfile)
    ensures
        final(profile)@ == (ProfileView {
            service: service_uninstalled(old(profile)@.service),
            ..old(profile)@
        }),
{
    profile.service.installed = false;
    profile.service.run_on_boot = false;
    if profile.service.provider == ServiceProvider::Runnerbuddy {
        profile.service.provider = ServiceProvider::Unknown;
    }
}

/// Records in a profile that the start on boot was switched.
pub fn mark_run_on_boot(profile: &mut RunnerProfile, enabled: bool)
    ensures
        final(profile)@ == (ProfileView {
            service: boot_switched(old(profile)@.service, enabled),
            ..old(profile)@
        }),
{
    profile.service.run_on_boot = enabled;
    if enabled {
        profile.service.installed = true;
        profile.service.provider = ServiceProvider::Runnerbuddy;
    }
}

/// What switching the start on boot takes: switching it on installs the
/// service first where it is not installed.
pub open spec fn boot_switch_plan(profile: ProfileView, enabled: bool, ctx: ContextView) -> Result<
    Seq<TaskView>,
    ErrorView,
> {
    match crate::service_mgmt::enable_on_boot_plan(profile, enabled, ctx) {
        Err(e) => Err(e),
        Ok(switch) => if enabled && !profile.service.installed {
            match crate::service_mgmt::install_plan(profile, ctx) {
                Err(e) => Err(e),
                Ok(install) => Ok(install + switch),
            }
        } else {
            Ok(switch)
        },
    }
}

/// The procedure that switches the start on boot of a profile's service.
pub fn boot_switch_procedure(profile: &RunnerProfile, enabled: bool, ctx: &ServiceContext) -> (r: Result<
    Procedure,
    Error,
>)
    ensures
        plan_view(r) == boot_switch_plan(profile@, enabled, ctx@),
{
    let switch = match crate::service_mgmt::enable_on_boot(profile, enabled, ctx) {
        Ok(p) => p,
        Err(e) => {
            return Err(e);
        },
    };
    if enabled && !profile.service.installed {
        match crate::service_mgmt::install(profile, ctx) {
            Ok(install) => Ok(install.followed_by(switch)),
            Err(e) => Err(e),
        }
    } else {
        Ok(switch)
    }
}

/// Records in a profile when its runner was last seen.
pub fn mark_seen(profile: &mut RunnerProfile, now: String)
    ensures
        final(profile)@ == (ProfileView { last_seen_at: Some(now@), ..old(profile)@ }),
{
    profile.last_seen_at = Some(now);
}

/// The refusal where the credential of an alias is not in the store.
pub fn pat_not_found() -> (e: AppError)
    ensures
        e@ == app_error("secrets"@, "PAT not found in keychain"@),
{
    AppError::new("secrets", "PAT not found in keychain")
}

/// The refusal where a candidate is not among those of the last scan.
pub fn candidate_not_found() -> (e: AppError)
    ensures
        e@ == app_error("discover"@, "candidate not found"@),
{
    AppError::new("discover", "candidate not found")
}

/// The view of what was observed of an external service.
pub open spec fn observed_view(observed: Result<ServiceStatus, Error>) -> Result<
    ServiceStatus,
    ErrorView,
> {
    match observed {
        Ok(s) => Ok(s),
        Err(e) => Err(e@),
    }
}

/// What stands in the way of installing the application's own service: for
/// a profile whose service is external, a failure to read the status of
/// that service, or a status that shows it installed, running or enabled.
pub open spec fn install_obstacle(profile: ProfileView, observed: Result<ServiceStatus, ErrorView>) -> Option<
    AppErrorView,
> {
    if profile.service.provider != ServiceProvider::External {
        None
    } else {
        match observed {
            Err(e) => Some(AppErrorView::of(e)),
            Ok(status) => match crate::migration::conflict_verdict(profile, status) {
                Err(e) => Some(e),
                Ok(()) => None,
            },
        }
    }
}

/// What installing the application's own service takes, where nothing
/// stands in the way; the refusal otherwise.
pub open spec fn guarded_install_plan(
    profile: ProfileView,
    observed: Result<ServiceStatus, ErrorView>,
    ctx: ContextView,
) -> Result<Seq<TaskView>, AppErrorView> {
    match install_obstacle(profile, observed) {
        Some(e) => Err(e),
        None => match crate::service_mgmt::install_plan(profile, ctx) {
            Ok(plan) => Ok(plan),
            Err(e) => Err(AppErrorView::of(e)),
        },
    }
}

/// The procedure that installs the application's own service for a
/// profile. It is refused while an external service stands in the way.
/// `observed` is the status of the external service, or the error with which
/// reading it failed; it counts only where the service is external.
pub fn install_procedure(
    profile: &RunnerProfile,
    observed: Result<ServiceStatus, Error>,
    ctx: &ServiceContext,
) -> (r: Result<Procedure, AppError>)
    ensures
        crate::migration::app_plan(r) == guarded_install_plan(profile@, observed_view(observed), ctx@),
{
    match crate::migration::ensure_no_external_conflict(profile, observed) {
        Err(e) => {
            return Err(e);
        },
        Ok(()) => {},
    }
    match crate::service_mgmt::install(profile, ctx) {
        Ok(p) => Ok(p),
        Err(e) => Err(AppError::from(e)),
    }
}

/// What switching the start on boot takes, where nothing stands in the
/// way of switching it on; the refusal otherwise. Switching it off is never refused.
pub open spec fn guarded_boot_switch_plan(
    profile: ProfileView,
    enabled: bool,
    observed: Result<ServiceStatus, ErrorView>,
    ctx: ContextView,
) -> Result<Seq<TaskView>, AppErrorView> {
    if enabled && install_obstacle(profile, observed) is Some {
        Err(install_obstacle(profile, observed)->0)
    } else {
        match boot_switch_plan(profile, enabled, ctx) {
            Ok(plan) => Ok(plan),
            Err(e) => Err(AppErrorView::of(e)),
        }
    }
}

/// The procedure that switches the start on boot of a profile's service.
/// Switching it on is refused while an external service stands in the way.
pub fn guarded_boot_switch_procedure(
    profile: &RunnerProfile,
    enabled: bool,
    observed: Result<ServiceStatus, Error>,
    ctx: &ServiceContext,
) -> (r: Result<Procedure, AppError>)
    ensures
        crate::migration::app_plan(r) == guarded_boot_switch_plan(
            profile@,
            enabled,
            observed_view(observed),
            ctx@,
        ),
{
    if enabled {
        match crate::migration::ensure_no_external_conflict(profile, observed) {
            Err(e) => {
                return Err(e);
            },
            Ok(()) => {},
        }
    }
    match boot_switch_procedure(profile, enabled, ctx) {
        Ok(p) => Ok(p),
        Err(e) => Err(AppError::from(e)),
    }
}

/// The application's own service is never installed over an external
/// service that is installed, running or enabled: the refusal is a service
/// error, and it names what is recorded of the external service.
pub proof fn lemma_install_refused_on_conflict(
    profile: ProfileView,
    status: ServiceStatus,
    enabled: bool,
    ctx: ContextView,
)
    requires
        crate::migration::external_conflict(profile, status),
    ensures
        guarded_install_plan(profile, Ok(status), ctx) matches Err(e) && e.code == "service"@
            && Some(e.message) == crate::migration::conflict_message(profile, status),
        guarded_boot_switch_plan(profile, true, Ok(status), ctx) is Err,
{
}

} // verus!
