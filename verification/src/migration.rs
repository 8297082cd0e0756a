//! The migration workflow: the checks that guard each step, the procedures
//! that carry the steps out, and the records that they leave in the store.

use vstd::prelude::*;
use crate::config::{
    opt_text, ConfigView, InstallConfig, InstallMode, InstallView, MigrationStatus, ProfileView,
    RunnerProfile, ServiceProvider,
};
use crate::discovery::{looks_like_install, InstallProbe};
use crate::errors::{AppError, AppErrorView, Error, ErrorView};
use crate::host::{path_same, path_starts_with, AppDirs, AppDirsView};
use crate::procedure::{Action, ActionView, Procedure, TaskView};
use crate::service_mgmt::{
    attempt, install, install_plan, may, must, must_do, plan_view, stop, stop_plan, task,
    uninstall, uninstall_plan, ContextView, ServiceContext, ServiceStatus,
};
use crate::store::{has_runner, index_of_runner, not_found, sanitized, selection_valid, ConfigStore};
use crate::text::{concat2, concat3, join, strings};

verus! {

/// The view of an application error.
pub open spec fn app_error(code: Seq<char>, message: Seq<char>) -> AppErrorView {
    AppErrorView { code, message }
}

/// The view of an outcome without a value, as a caller sees it.
pub open spec fn app_unit(r: Result<(), AppError>) -> Result<(), AppErrorView> {
    match r {
        Ok(()) => Ok(()),
        Err(e) => Err(e@),
    }
}

/// The view of a path or of the error in its place, as a caller sees it.
pub open spec fn app_path(r: Result<String, AppError>) -> Result<Seq<char>, AppErrorView> {
    match r {
        Ok(p) => Ok(p@),
        Err(e) => Err(e@),
    }
}

// ---------------------------------------------------------------------------
// External services in the way
// ---------------------------------------------------------------------------

/// What is known of the external service of a profile, for a message.
pub open spec fn conflict_details(profile: ProfileView) -> Seq<Seq<char>> {
    let id = match profile.service.external_id {
        Some(id) => seq!["id: "@ + id],
        None => seq![],
    };
    let path = match profile.service.external_path {
        Some(path) => seq!["path: "@ + path],
        None => seq![],
    };
    id + path
}

/// The advice that ends a conflict message.
pub open spec fn conflict_advice() -> Seq<char> {
    "; replace or remove it before installing RunnerBuddy. Replacing will disable/unload the external service and install a RunnerBuddy-managed service. You can restore the external service using the saved id/path."@
}

/// Whether an external service stands in the way of installing the
/// application's own: the profile's service is external and is installed,
/// running or enabled.
pub open spec fn external_conflict(profile: ProfileView, status: ServiceStatus) -> bool {
    profile.service.provider == ServiceProvider::External && (status.installed || status.running
        || status.enabled)
}

/// The message for an external service that stands in the way. It names
/// the recorded identity and definition of the service, as far as known.
pub open spec fn conflict_message(profile: ProfileView, status: ServiceStatus) -> Option<Seq<char>> {
    if !external_conflict(profile, status) {
        None
    } else if conflict_details(profile).len() == 0 {
        Some("external service detected"@ + conflict_advice())
    } else {
        Some(
            "external service detected ("@ + join(conflict_details(profile), ", "@) + ")"@
                + conflict_advice(),
        )
    }
}

/// The message for an external service that stands in the way of
/// installing the application's own; `None` where none does.
pub fn external_conflict_message(profile: &RunnerProfile, status: &ServiceStatus) -> (r: Option<
    String,
>)
    ensures
        opt_text(r) == conflict_message(profile@, *status),
{
    if profile.service.provider != ServiceProvider::External {
        return None;
    }
    if !status.installed && !status.running && !status.enabled {
        return None;
    }
    let mut details: Vec<String> = Vec::new();
    if let Some(id) = &profile.service.external_id {
        details.push(concat2("id: ", id.as_str()));
    }
    if let Some(path) = &profile.service.external_path {
        details.push(concat2("path: ", path.as_str()));
    }
    assert(strings(details@) =~= conflict_details(profile@));
    let mut message = if details.len() == 0 {
        "external service detected".to_string()
    } else {
        let joined = crate::text::join_strings(&details, ", ");
        concat3("external service detected (", joined.as_str(), ")")
    };
    message.append(
        "; replace or remove it before installing RunnerBuddy. Replacing will disable/unload the external service and install a RunnerBuddy-managed service. You can restore the external service using the saved id/path.",
    );
    Some(message)
}

/// The refusal for an external service that stands in the way.
pub open spec fn conflict_verdict(profile: ProfileView, status: ServiceStatus) -> Result<
    (),
    AppErrorView,
> {
    match conflict_message(profile, status) {
        Some(message) => Err(app_error("service"@, message)),
        None => Ok(()),
    }
}

/// Refuses where an external service with the given status stands in the way.
pub fn ensure_no_external_conflict_with_status(profile: &RunnerProfile, status: ServiceStatus) -> (r:
    Result<(), AppError>)
    ensures
        app_unit(r) == conflict_verdict(profile@, status),
{
    if let Some(message) = external_conflict_message(profile, &status) {
        return Err(AppError::new("service", message.as_str()));
    }
    Ok(())
}

/// Refuses where the external service of a profile stands in the way.
/// `observed` is the status of the external service, or the error with
/// which reading it failed; it counts only where the service is external.
pub fn ensure_no_external_conflict(profile: &RunnerProfile, observed: Result<ServiceStatus, Error>) -> (r:
    Result<(), AppError>)
    ensures
        app_unit(r) == if profile@.service.provider != ServiceProvider::External {
            Ok(())
        } else {
            match observed {
                Ok(status) => conflict_verdict(profile@, status),
                Err(e) => Err(AppErrorView::of(e@)),
            }
        },
{
    if profile.service.provider == ServiceProvider::External {
        let status = match observed {
            Ok(s) => s,
            Err(e) => {
                return Err(AppError::from(e));
            },
        };
        return ensure_no_external_conflict_with_status(profile, status);
    }
    Ok(())
}

// ---------------------------------------------------------------------------
// Deleting the original, rolling back
// ---------------------------------------------------------------------------

/// Whether anything external is still recorded for a profile.
pub open spec fn has_external_references(profile: ProfileView) -> bool {
    profile.service.provider == ServiceProvider::External || profile.service.external_id is Some
        || profile.service.external_path is Some
}

/// Whether the original install of a profile may be deleted, and which
/// directory that is: the migration must be verified, nothing external may
/// be recorded, and the original must be on record.
pub open spec fn delete_original_verdict(profile: ProfileView) -> Result<Seq<char>, AppErrorView> {
    if profile.install.migration_status != MigrationStatus::Verified {
        Err(app_error("runner"@, "runner has not been verified since migration"@))
    } else if has_external_references(profile) {
        Err(
            app_error(
                "service"@,
                "external service still references this runner; remove external artifacts first"@,
            ),
        )
    } else {
        match profile.install.adopted_from_path {
            Some(original) => Ok(original),
            None => Err(app_error("runner"@, "no original install recorded"@)),
        }
    }
}

/// Decides whether the original install of a profile may be deleted, and
/// names the directory.
pub fn validate_delete_original_install(profile: &RunnerProfile) -> (r: Result<String, AppError>)
    ensures
        app_path(r) == delete_original_verdict(profile@),
        r is Ok ==> profile@.install.migration_status == MigrationStatus::Verified
            && !has_external_references(profile@),
{
    if profile.install.migration_status != MigrationStatus::Verified {
        return Err(AppError::new("runner", "runner has not been verified since migration"));
    }
    if profile.service.provider == ServiceProvider::External || profile.service.external_id.is_some()
        || profile.service.external_path.is_some() {
        return Err(
            AppError::new(
                "service",
                "external service still references this runner; remove external artifacts first",
            ),
        );
    }
    match &profile.install.adopted_from_path {
        Some(original) => Ok(original.clone()),
        None => Err(AppError::new("runner", "no original install recorded")),
    }
}

/// Whether the move of a profile may be rolled back, and to which
/// directory: the install must be managed, the migration must not be
/// verified, and the original must be on record. The directory is the
/// recorded original, letter for letter.
pub open spec fn rollback_verdict(profile: ProfileView) -> Result<Seq<char>, AppErrorView> {
    if profile.install.mode != InstallMode::Managed {
        Err(app_error("runner"@, "runner is not managed"@))
    } else if profile.install.migration_status == MigrationStatus::Verified {
        Err(
            app_error(
                "runner"@,
                "runner has been verified since migration; rollback is not allowed"@,
            ),
        )
    } else {
        match profile.install.adopted_from_path {
            Some(original) => Ok(original),
            None => Err(app_error("runner"@, "no original install recorded"@)),
        }
    }
}

/// Decides whether the move of a profile may be rolled back, and names the
/// directory that it is rolled back to.
pub fn validate_rollback_move(profile: &RunnerProfile) -> (r: Result<String, AppError>)
    ensures
        app_path(r) == rollback_verdict(profile@),
{
    if profile.install.mode != InstallMode::Managed {
        return Err(AppError::new("runner", "runner is not managed"));
    }
    if profile.install.migration_status == MigrationStatus::Verified {
        return Err(
            AppError::new(
                "runner",
                "runner has been verified since migration; rollback is not allowed",
            ),
        );
    }
    match &profile.install.adopted_from_path {
        Some(original) => Ok(original.clone()),
        None => Err(AppError::new("runner", "no original install recorded")),
    }
}

/// Whether a directory lies under the root of the managed installs.
pub open spec fn under_managed_root(dirs: AppDirsView, path: Seq<char>) -> bool {
    match dirs.managed_runners_dir() {
        Some(root) => path_starts_with(path, root),
        None => false,
    }
}

/// Whether a managed copy may be deleted: only one that lies under the
/// root of the managed installs.
pub fn should_delete_managed_copy(dirs: &AppDirs, install_path: &str) -> (r: bool)
    ensures
        r == under_managed_root(dirs@, install_path@),
{
    match dirs.managed_runners_dir() {
        Ok(root) => crate::host::path_has_base(install_path, root.as_str()),
        Err(_) => false,
    }
}

/// The error for an original that is gone or does not look like an install.
pub open spec fn original_unusable() -> AppErrorView {
    app_error(
        "runner"@,
        "original install path is missing or does not look like a runner directory"@,
    )
}

/// What else a rollback needs: the original must still be there and look
/// like a runner install, and no external service may run the runner.
pub open spec fn rollback_check(profile: ProfileView, original: InstallProbe) -> Result<
    (),
    AppErrorView,
> {
    if !original.exists || !looks_like_install(original) {
        Err(original_unusable())
    } else if profile.service.provider == ServiceProvider::External {
        Err(
            app_error(
                "service"@,
                "external service is managing this runner; replace or remove external artifacts first"@,
            ),
        )
    } else {
        Ok(())
    }
}

/// Checks what was seen at the original location, and the service, before a rollback.
pub fn check_rollback(profile: &RunnerProfile, original: &InstallProbe) -> (r: Result<(), AppError>)
    ensures
        app_unit(r) == rollback_check(profile@, *original),
{
    if !original.exists || !crate::discovery::looks_like_runner_install(original) {
        return Err(
            AppError::new(
                "runner",
                "original install path is missing or does not look like a runner directory",
            ),
        );
    }
    if profile.service.provider == ServiceProvider::External {
        return Err(
            AppError::new(
                "service",
                "external service is managing this runner; replace or remove external artifacts first",
            ),
        );
    }
    Ok(())
}

/// Whether the application's own service is installed for a profile.
pub open spec fn has_own_service(profile: ProfileView) -> bool {
    profile.service.provider == ServiceProvider::Runnerbuddy && profile.service.installed
}

/// Stopping the foreground process of a runner, without insisting.
pub open spec fn stop_runner_task(runner_id: Seq<char>) -> TaskView {
    attempt(seq![may(ActionView::StopRunner { runner_id })])
}

/// A procedure as far as it can be planned, made best-effort.
pub open spec fn if_possible(plan: Result<Seq<TaskView>, ErrorView>) -> Seq<TaskView> {
    match plan {
        Ok(p) => crate::procedure::tolerant(p),
        Err(_) => seq![],
    }
}

/// What comes before the record of a rollback: the runner is stopped as
/// far as possible; the application's own service, if installed, is
/// stopped as far as possible and then uninstalled.
pub open spec fn rollback_preparation(profile: ProfileView, ctx: ContextView) -> Result<
    Seq<TaskView>,
    ErrorView,
> {
    if has_own_service(profile) {
        match uninstall_plan(profile, ctx) {
            Err(e) => Err(e),
            Ok(removal) => Ok(
                seq![stop_runner_task(profile.runner_id)] + if_possible(stop_plan(profile, ctx))
                    + removal,
            ),
        }
    } else {
        Ok(seq![stop_runner_task(profile.runner_id)])
    }
}

fn stop_runner_procedure(runner_id: &str) -> (r: Procedure)
    ensures
        r@ == seq![stop_runner_task(runner_id@)],
{
    let step = crate::service_mgmt::step_may(Action::StopRunner { runner_id: runner_id.to_string() });
    crate::service_mgmt::procedure1(
        crate::service_mgmt::one_task(crate::service_mgmt::steps1(step), true),
    )
}

/// A procedure as far as it could be planned, made best-effort.
pub fn attempted(plan: Result<Procedure, Error>) -> (r: Procedure)
    ensures
        r@ == if_possible(plan_view(plan)),
{
    match plan {
        Ok(p) => p.tolerated(),
        Err(_) => Procedure::empty(),
    }
}

/// The procedure that comes before the record of a rollback.
pub fn rollback_preparation_procedure(profile: &RunnerProfile, ctx: &ServiceContext) -> (r: Result<
    Procedure,
    Error,
>)
    ensures
        plan_view(r) == rollback_preparation(profile@, ctx@),
{
    let first = stop_runner_procedure(profile.runner_id.as_str());
    if profile.service.provider == ServiceProvider::Runnerbuddy && profile.service.installed {
        let removal = match uninstall(profile, ctx) {
            Ok(p) => p,
            Err(e) => {
                return Err(e);
            },
        };
        let halt = attempted(stop(profile, ctx));
        Ok(first.followed_by(halt).followed_by(removal))
    } else {
        Ok(first)
    }
}

/// A profile after its move was rolled back: adopted at the original
/// location, with no trace of the migration.
pub open spec fn rolled_back(p: ProfileView, original: Seq<char>) -> ProfileView {
    ProfileView {
        install: InstallView {
            mode: InstallMode::Adopted,
            install_path: original,
            adopted_from_path: None,
            migration_status: MigrationStatus::NotStarted,
        },
        ..p
    }
}

/// The view of a profile or of the error in its place, as a caller sees it.
pub open spec fn app_profile(r: Result<RunnerProfile, AppError>) -> Result<ProfileView, AppErrorView> {
    match r {
        Ok(p) => Ok(p@),
        Err(e) => Err(e@),
    }
}

/// What an update of a profile that is gone leaves behind: the selection
/// is repaired, the document is marked as to be written, and the update fails.
fn record_missing(store: &mut ConfigStore, runner_id: &str) -> (e: Error)
    ensures
        final(store)@.needs_save,
        selection_valid(final(store)@.config),
        final(store)@.config == sanitized(old(store)@.config),
        e@ == not_found(runner_id@),
{
    proof {
        crate::store::lemma_sanitized_is_valid(store@.config);
    }
    crate::store::sanitize_selected_runner_id(&mut store.config);
    store.needs_save = true;
    Error::Runner(concat3("runner ", runner_id, " not found"))
}

/// Replaces the install descriptor of the first profile with the given
/// identity, repairs the selection and marks the document as to be written.
fn record_install(store: &mut ConfigStore, runner_id: &str, install: InstallConfig) -> (r: Result<
    RunnerProfile,
    Error,
>)
    ensures
        final(store)@.needs_save,
        selection_valid(final(store)@.config),
        !has_runner(old(store)@.config.runners, runner_id@) ==> {
            &&& final(store)@.config == sanitized(old(store)@.config)
            &&& r matches Err(e)
            &&& e@ == not_found(runner_id@)
        },
        has_runner(old(store)@.config.runners, runner_id@) ==> {
            let i = index_of_runner(old(store)@.config.runners, runner_id@);
            let next = ProfileView { install: install@, ..old(store)@.config.runners[i] };
            &&& final(store)@.config == sanitized(
                ConfigView {
                    runners: old(store)@.config.runners.update(i, next),
                    ..old(store)@.config
                },
            )
            &&& r matches Ok(p)
            &&& p@ == next
        },
{
    let ghost before = store@.config;
    proof {
        crate::store::lemma_index_of_runner(before.runners, runner_id@);
        crate::store::lemma_sanitized_is_valid(before);
    }
    let i = crate::store::position_of_runner(&store.config.runners, runner_id);
    if i >= store.config.runners.len() {
        return Err(record_missing(store, runner_id));
    }
    let ghost prior = store.config.runners@;
    assert(before.runners[i as int] == prior[i as int]@);
    store.config.runners[i].install = install;
    assert(store.config.runners@.len() == prior.len());
    assert(forall|k: int| 0 <= k < prior.len() && k != i ==> store.config.runners@[k] == prior[k]);
    let ghost next = ProfileView { install: install@, ..before.runners[i as int] };
    assert(store.config.runners@[i as int]@ == next);
    let ghost mid = ConfigView { runners: before.runners.update(i as int, next), ..before };
    assert(store.config@.runners =~= mid.runners);
    let profile = store.config.runners[i].clone();
    crate::store::sanitize_selected_runner_id(&mut store.config);
    proof {
        crate::store::lemma_sanitized_is_valid(mid);
    }
    store.needs_save = true;
    Ok(profile)
}

/// Records a rollback: the profile is adopted again at the original
/// location that it has on record, letter for letter. The profile is judged
/// as it stands in the store: a rollback that is not allowed is refused, and
/// nothing changes.
pub fn roll_back(store: &mut ConfigStore, runner_id: &str) -> (r: Result<RunnerProfile, AppError>)
    ensures
        !has_runner(old(store)@.config.runners, runner_id@) ==> {
            &&& final(store)@.config == sanitized(old(store)@.config)
            &&& final(store)@.needs_save
            &&& app_profile(r) == Err::<ProfileView, AppErrorView>(
                AppErrorView::of(not_found(runner_id@)),
            )
        },
        has_runner(old(store)@.config.runners, runner_id@) ==> {
            let i = index_of_runner(old(store)@.config.runners, runner_id@);
            match rollback_verdict(old(store)@.config.runners[i]) {
                Err(e) => {
                    &&& app_profile(r) == Err::<ProfileView, AppErrorView>(e)
                    &&& *final(store) == *old(store)
                },
                Ok(original) => {
                    let next = rolled_back(old(store)@.config.runners[i], original);
                    &&& final(store)@.config == sanitized(
                        ConfigView {
                            runners: old(store)@.config.runners.update(i, next),
                            ..old(store)@.config
                        },
                    )
                    &&& final(store)@.needs_save
                    &&& selection_valid(final(store)@.config)
                    &&& app_profile(r) == Ok::<ProfileView, AppErrorView>(next)
                },
            }
        },
{
    proof {
        crate::store::lemma_index_of_runner(store@.config.runners, runner_id@);
    }
    let i = crate::store::position_of_runner(&store.config.runners, runner_id);
    if i >= store.config.runners.len() {
        return Err(AppError::from(record_missing(store, runner_id)));
    }
    let original = match validate_rollback_move(&store.config.runners[i]) {
        Ok(path) => path,
        Err(e) => {
            return Err(e);
        },
    };
    let install = InstallConfig {
        mode: InstallMode::Adopted,
        install_path: original,
        adopted_from_path: None,
        migration_status: MigrationStatus::NotStarted,
    };
    match record_install(store, runner_id, install) {
        Ok(p) => Ok(p),
        Err(e) => Err(AppError::from(e)),
    }
}

/// What comes after the record of a rollback: the application's own
/// service, if it was installed before, is installed for the restored location.
pub open spec fn rollback_completion(previous: ProfileView, restored: ProfileView, ctx: ContextView) -> Result<
    Seq<TaskView>,
    ErrorView,
> {
    if has_own_service(previous) {
        install_plan(restored, ctx)
    } else {
        Ok(seq![])
    }
}

/// The procedure that comes after the record of a rollback.
pub fn rollback_completion_procedure(
    previous: &RunnerProfile,
    restored: &RunnerProfile,
    ctx: &ServiceContext,
) -> (r: Result<Procedure, Error>)
    ensures
        plan_view(r) == rollback_completion(previous@, restored@, ctx@),
{
    if previous.service.provider == ServiceProvider::Runnerbuddy && previous.service.installed {
        install(restored, ctx)
    } else {
        Ok(Procedure::empty())
    }
}

/// Whether the managed copy is deleted at the end of a rollback: it must
/// be another directory than the original, lie under the root of the
/// managed installs, exist and look like a runner install.
pub open spec fn deletes_managed_copy(
    managed: Seq<char>,
    original: Seq<char>,
    dirs: AppDirsView,
    seen: InstallProbe,
) -> bool {
    &&& !path_same(managed, original)
    &&& under_managed_root(dirs, managed)
    &&& seen.exists
    &&& looks_like_install(seen)
}

/// The end of a rollback: the managed copy is deleted where that is
/// allowed, without insisting. The two directories are compared as they
/// lie on disk, with a leading `~/` replaced by the home directory.
pub open spec fn rollback_cleanup(
    previous: ProfileView,
    original: Seq<char>,
    dirs: AppDirsView,
    seen: InstallProbe,
) -> Seq<TaskView> {
    let managed = dirs.expand(previous.install.install_path);
    if deletes_managed_copy(managed, dirs.expand(original), dirs, seen) {
        seq![attempt(seq![may(ActionView::RemoveTree { path: managed })])]
    } else {
        seq![]
    }
}

/// The procedure that ends a rollback. `previous` is the profile as it was
/// before the rollback, `original` the directory it was rolled back to, and
/// `seen` what was seen at the managed copy.
pub fn rollback_cleanup_procedure(
    previous: &RunnerProfile,
    original: &str,
    dirs: &AppDirs,
    seen: &InstallProbe,
) -> (r: Procedure)
    ensures
        r@ == rollback_cleanup(previous@, original@, dirs@, *seen),
{
    let managed = dirs.expand_path(previous.install.install_path.as_str());
    let restored = dirs.expand_path(original);
    if crate::host::same_path(managed.as_str(), restored.as_str()) {
        return Procedure::empty();
    }
    if !should_delete_managed_copy(dirs, managed.as_str()) {
        return Procedure::empty();
    }
    if !(seen.exists && crate::discovery::looks_like_runner_install(seen)) {
        return Procedure::empty();
    }
    let step = crate::service_mgmt::step_may(Action::RemoveTree { path: managed });
    crate::service_mgmt::procedure1(
        crate::service_mgmt::one_task(crate::service_mgmt::steps1(step), true),
    )
}

/// The two procedures of a rollback that do not depend on its record: what
/// comes before the record, and what ends the rollback.
#[derive(Debug)]
pub struct RollbackPlan {
    /// The directory that the install is rolled back to, as it is on record.
    pub original: String,
    /// What comes before the record.
    pub preparation: Procedure,
    /// What ends the rollback.
    pub cleanup: Procedure,
}

/// The view of a [`RollbackPlan`].
pub struct RollbackPlanView {
    pub original: Seq<char>,
    pub preparation: Seq<TaskView>,
    pub cleanup: Seq<TaskView>,
}

impl View for RollbackPlan {
    type V = RollbackPlanView;

    open spec fn view(&self) -> RollbackPlanView {
        RollbackPlanView {
            original: self.original@,
            preparation: self.preparation@,
            cleanup: self.cleanup@,
        }
    }
}

/// What a rollback takes, or why it is refused. Every check comes before
/// anything is planned: whether the move may be rolled back at all, then
/// what was seen at the original location and whether an external service
/// runs the runner, then whether the service can be dealt with.
pub open spec fn rollback_planned(
    profile: ProfileView,
    dirs: AppDirsView,
    ctx: ContextView,
    original: InstallProbe,
    managed: InstallProbe,
) -> Result<RollbackPlanView, AppErrorView> {
    match rollback_verdict(profile) {
        Err(e) => Err(e),
        Ok(path) => match rollback_check(profile, original) {
            Err(e) => Err(e),
            Ok(()) => match rollback_preparation(profile, ctx) {
                Err(e) => Err(AppErrorView::of(e)),
                Ok(preparation) => Ok(
                    RollbackPlanView {
                        original: path,
                        preparation,
                        cleanup: rollback_cleanup(profile, path, dirs, managed),
                    },
                ),
            },
        },
    }
}

/// The view of a rollback plan or of the refusal in its place.
pub open spec fn rollback_plan_result(r: Result<RollbackPlan, AppError>) -> Result<
    RollbackPlanView,
    AppErrorView,
> {
    match r {
        Ok(p) => Ok(p@),
        Err(e) => Err(e@),
    }
}

/// Plans a rollback, or refuses it before anything is done. `original` is
/// what was seen at the recorded original location, `managed` what was seen
/// at the managed copy; both are looked for with a leading `~/` replaced by
/// the home directory.
pub fn rollback_plan(
    profile: &RunnerProfile,
    dirs: &AppDirs,
    ctx: &ServiceContext,
    original: &InstallProbe,
    managed: &InstallProbe,
) -> (r: Result<RollbackPlan, AppError>)
    ensures
        rollback_plan_result(r) == rollback_planned(profile@, dirs@, ctx@, *original, *managed),
        rollback_verdict(profile@) is Err || rollback_check(profile@, *original) is Err ==> r is Err,
{
    let path = match validate_rollback_move(profile) {
        Ok(p) => p,
        Err(e) => {
            return Err(e);
        },
    };
    match check_rollback(profile, original) {
        Ok(()) => {},
        Err(e) => {
            return Err(e);
        },
    }
    let preparation = match rollback_preparation_procedure(profile, ctx) {
        Ok(p) => p,
        Err(e) => {
            return Err(AppError::from(e));
        },
    };
    let cleanup = rollback_cleanup_procedure(profile, path.as_str(), dirs, managed);
    Ok(RollbackPlan { original: path, preparation, cleanup })
}

/// A rollback of a verified migration is refused. A rollback that is
/// allowed names the recorded original, letter for letter, and its record
/// makes the profile adopted at exactly that directory, with no trace of the
/// migration and with the identity it had.
pub proof fn lemma_rollback_restores_original(profile: ProfileView)
    ensures
        profile.install.migration_status == MigrationStatus::Verified ==> rollback_verdict(
            profile,
        ) is Err,
        rollback_verdict(profile) matches Ok(original) ==> {
            &&& profile.install.mode == InstallMode::Managed
            &&& profile.install.migration_status != MigrationStatus::Verified
            &&& profile.install.adopted_from_path == Some(original)
            &&& rolled_back(profile, original).install == (InstallView {
                mode: InstallMode::Adopted,
                install_path: original,
                adopted_from_path: None,
                migration_status: MigrationStatus::NotStarted,
            })
            &&& rolled_back(profile, original).runner_id == profile.runner_id
        },
{
}

/// A rollback is refused before anything is planned where the move may not
/// be rolled back, where the original is gone or does not look like a
/// runner install, and where an external service runs the runner. A
/// rollback that is planned goes back to the recorded original.
pub proof fn lemma_rollback_checks_come_first(
    profile: ProfileView,
    dirs: AppDirsView,
    ctx: ContextView,
    original: InstallProbe,
    managed: InstallProbe,
)
    ensures
        rollback_planned(profile, dirs, ctx, original, managed) matches Ok(plan) ==> {
            &&& profile.install.mode == InstallMode::Managed
            &&& profile.install.migration_status != MigrationStatus::Verified
            &&& profile.install.adopted_from_path == Some(plan.original)
            &&& original.exists
            &&& looks_like_install(original)
            &&& profile.service.provider != ServiceProvider::External
        },
{
}

/// The end of a rollback removes nothing but the managed copy, and that
/// only where it lies under the root of the managed installs and is not
/// the directory that was rolled back to.
pub proof fn lemma_rollback_deletes_only_under_managed_root(
    previous: ProfileView,
    original: Seq<char>,
    dirs: AppDirsView,
    seen: InstallProbe,
    t: int,
    s: int,
)
    requires
        0 <= t < rollback_cleanup(previous, original, dirs, seen).len(),
        0 <= s < rollback_cleanup(previous, original, dirs, seen)[t].steps.len(),
    ensures
        ({
            let step = rollback_cleanup(previous, original, dirs, seen)[t].steps[s];
            &&& step.action matches ActionView::RemoveTree { path }
            &&& path == dirs.expand(previous.install.install_path)
            &&& under_managed_root(dirs, path)
            &&& !path_same(path, dirs.expand(original))
        }),
{
}

// ---------------------------------------------------------------------------
// Deleting the original
// ---------------------------------------------------------------------------

/// What deleting the original install takes: the directory must look like
/// a runner install; then it is removed.
pub open spec fn delete_original_plan(original: Seq<char>, seen: InstallProbe) -> Result<
    Seq<TaskView>,
    AppErrorView,
> {
    if !looks_like_install(seen) {
        Err(
            app_error("runner"@, "original install path does not look like a runner directory"@),
        )
    } else {
        Ok(seq![task(seq![must_do(ActionView::RemoveTree { path: original })])])
    }
}

/// The view of a planned procedure or of the refusal in its place, as a caller sees it.
pub open spec fn app_plan(r: Result<Procedure, AppError>) -> Result<Seq<TaskView>, AppErrorView> {
    match r {
        Ok(p) => Ok(p@),
        Err(e) => Err(e@),
    }
}

/// The procedure that deletes the original install of a profile, after
/// [`validate_delete_original_install`] named it. `seen` is what was seen there.
pub fn delete_original_procedure(original: &str, seen: &InstallProbe) -> (r: Result<
    Procedure,
    AppError,
>)
    ensures
        app_plan(r) == delete_original_plan(original@, *seen),
{
    if !crate::discovery::looks_like_runner_install(seen) {
        return Err(
            AppError::new("runner", "original install path does not look like a runner directory"),
        );
    }
    let step = crate::service_mgmt::step_must_do(Action::RemoveTree { path: original.to_string() });
    Ok(
        crate::service_mgmt::procedure1(
            crate::service_mgmt::one_task(crate::service_mgmt::steps1(step), false),
        ),
    )
}

/// What deleting the original install of a profile takes, or why it is
/// refused. Every check comes before anything is planned: whether the
/// original may be deleted at all, then what was seen there.
pub open spec fn delete_original_planned(profile: ProfileView, seen: InstallProbe) -> Result<
    Seq<TaskView>,
    AppErrorView,
> {
    match delete_original_verdict(profile) {
        Err(e) => Err(e),
        Ok(original) => delete_original_plan(original, seen),
    }
}

/// Plans the deletion of the original install of a profile, or refuses it
/// before anything is done. `seen` is what was seen at the recorded original.
pub fn plan_delete_original(profile: &RunnerProfile, seen: &InstallProbe) -> (r: Result<
    Procedure,
    AppError,
>)
    ensures
        app_plan(r) == delete_original_planned(profile@, *seen),
        delete_original_verdict(profile@) is Err || !looks_like_install(*seen) ==> r is Err,
{
    let original = match validate_delete_original_install(profile) {
        Ok(p) => p,
        Err(e) => {
            return Err(e);
        },
    };
    delete_original_procedure(original.as_str(), seen)
}

/// A profile whose original install is gone.
pub open spec fn without_original(p: ProfileView) -> ProfileView {
    ProfileView { install: InstallView { adopted_from_path: None, ..p.install }, ..p }
}

/// Records that the original install of a profile was deleted. The
/// profile is judged as it stands in the store: where its original may not
/// be deleted, the record is refused and nothing changes. A profile that is
/// gone is not an error.
pub fn forget_original(store: &mut ConfigStore, runner_id: &str) -> (r: Result<(), AppError>)
    ensures
        !has_runner(old(store)@.config.runners, runner_id@) ==> {
            &&& r is Ok
            &&& final(store)@.config == sanitized(old(store)@.config)
            &&& final(store)@.needs_save
        },
        has_runner(old(store)@.config.runners, runner_id@) ==> {
            let i = index_of_runner(old(store)@.config.runners, runner_id@);
            match delete_original_verdict(old(store)@.config.runners[i]) {
                Err(e) => {
                    &&& app_unit(r) == Err::<(), AppErrorView>(e)
                    &&& *final(store) == *old(store)
                },
                Ok(_) => {
                    &&& r is Ok
                    &&& final(store)@.config == sanitized(
                        ConfigView {
                            runners: old(store)@.config.runners.update(
                                i,
                                without_original(old(store)@.config.runners[i]),
                            ),
                            ..old(store)@.config
                        },
                    )
                    &&& final(store)@.needs_save
                    &&& selection_valid(final(store)@.config)
                },
            }
        },
{
    let ghost before = store@.config;
    proof {
        crate::store::lemma_index_of_runner(before.runners, runner_id@);
        crate::store::lemma_sanitized_is_valid(before);
    }
    let i = crate::store::position_of_runner(&store.config.runners, runner_id);
    if i < store.config.runners.len() {
        match validate_delete_original_install(&store.config.runners[i]) {
            Ok(_) => {},
            Err(e) => {
                return Err(e);
            },
        }
        let ghost prior = store.config.runners@;
        assert(before.runners[i as int] == prior[i as int]@);
        store.config.runners[i].install.adopted_from_path = None;
        assert(store.config.runners@.len() == prior.len());
        assert(forall|k: int|
            0 <= k < prior.len() && k != i ==> store.config.runners@[k] == prior[k]);
        let ghost next = without_original(before.runners[i as int]);
        assert(store.config.runners@[i as int]@ == next);
        let ghost mid = ConfigView { runners: before.runners.update(i as int, next), ..before };
        assert(store.config@.runners =~= mid.runners);
        proof {
            crate::store::lemma_sanitized_is_valid(mid);
        }
    }
    crate::store::sanitize_selected_runner_id(&mut store.config);
    store.needs_save = true;
    Ok(())
}

/// The original install is deleted only after a verified migration and
/// only while nothing external is recorded for the profile.
pub proof fn lemma_delete_original_guard(profile: ProfileView)
    ensures
        delete_original_verdict(profile) is Ok ==> {
            &&& profile.install.migration_status == MigrationStatus::Verified
            &&& profile.service.provider != ServiceProvider::External
            &&& profile.service.external_id is None
            &&& profile.service.external_path is None
            &&& profile.install.adopted_from_path == Some(delete_original_verdict(profile)->Ok_0)
        },
        profile.install.migration_status != MigrationStatus::Verified || has_external_references(
            profile,
        ) ==> delete_original_verdict(profile) is Err,
{
}

// ---------------------------------------------------------------------------
// Verifying a moved install
// ---------------------------------------------------------------------------

/// Seconds after which a runner that has not reported readiness counts as failed.
pub const VERIFY_TIMEOUT_SECS: u64 = 60;

/// Seconds between two looks at the log.
pub const VERIFY_INTERVAL_SECS: u64 = 2;

/// Whether a profile can be verified: not while an external service runs the runner.
pub open spec fn verifiable(profile: ProfileView) -> Result<(), AppErrorView> {
    if profile.service.provider == ServiceProvider::External {
        Err(
            app_error(
                "service"@,
                "external service is managing this runner; replace or remove it before verification"@,
            ),
        )
    } else {
        Ok(())
    }
}

/// Decides whether a profile can be verified.
pub fn check_verifiable(profile: &RunnerProfile) -> (r: Result<(), AppError>)
    ensures
        app_unit(r) == verifiable(profile@),
{
    if profile.service.provider == ServiceProvider::External {
        return Err(
            AppError::new(
                "service",
                "external service is managing this runner; replace or remove it before verification",
            ),
        );
    }
    Ok(())
}

/// How the runner was found running before a verification.
#[derive(Debug, Clone, Copy, PartialEq, Eq, Structural)]
pub struct RunningState {
    /// Whether a foreground process of the runner was running.
    pub process: bool,
    /// Whether the service of the runner was running.
    pub service: bool,
}

/// Starting the runner as a foreground process; a failure counts.
pub open spec fn start_runner_task(runner_id: Seq<char>) -> TaskView {
    task(seq![must(ActionView::StartRunner { runner_id }, "runner start failed"@)])
}

/// What comes first in a verification: whatever runs is stopped, as far
/// as possible. What the log holds after that is the baseline: only what
/// is written later counts as a sign of readiness.
pub open spec fn verification_halt(profile: ProfileView, was: RunningState, ctx: ContextView) -> Seq<
    TaskView,
> {
    let stop_process = if was.process {
        seq![stop_runner_task(profile.runner_id)]
    } else {
        seq![]
    };
    let stop_service = if was.service {
        if_possible(stop_plan(profile, ctx))
    } else {
        seq![]
    };
    stop_process + stop_service
}

/// The procedure that comes first in a verification.
pub fn verification_halt_procedure(profile: &RunnerProfile, was: RunningState, ctx: &ServiceContext) -> (r:
    Procedure)
    ensures
        r@ == verification_halt(profile@, was, ctx@),
{
    let stop_process = if was.process {
        stop_runner_procedure(profile.runner_id.as_str())
    } else {
        Procedure::empty()
    };
    let stop_service = if was.service {
        attempted(stop(profile, ctx))
    } else {
        Procedure::empty()
    };
    stop_process.followed_by(stop_service)
}

/// What starts the runner for a verification: the application's own
/// service where that is installed, a foreground process otherwise.
pub open spec fn verification_start(profile: ProfileView, ctx: ContextView) -> Result<
    Seq<TaskView>,
    ErrorView,
> {
    if has_own_service(profile) {
        crate::service_mgmt::start_plan(profile, ctx)
    } else {
        Ok(seq![start_runner_task(profile.runner_id)])
    }
}

/// The procedure that starts the runner for a verification.
pub fn verification_start_procedure(profile: &RunnerProfile, ctx: &ServiceContext) -> (r: Result<
    Procedure,
    Error,
>)
    ensures
        plan_view(r) == verification_start(profile@, ctx@),
{
    if profile.service.provider == ServiceProvider::Runnerbuddy && profile.service.installed {
        crate::service_mgmt::start(profile, ctx)
    } else {
        let step = crate::service_mgmt::step_must(
            Action::StartRunner { runner_id: profile.runner_id.clone() },
            "runner start failed",
        );
        Ok(
            crate::service_mgmt::procedure1(
                crate::service_mgmt::one_task(crate::service_mgmt::steps1(step), false),
            ),
        )
    }
}

/// What a verification does next.
#[derive(Debug, Clone, Copy, PartialEq, Eq, Structural)]
pub enum PollStep {
    /// Look into the log for the readiness marker.
    Look,
    /// Wait for the given number of seconds, then ask again.
    Wait(u64),
    /// The verification has ended; the flag says whether the runner was ready.
    Finished(bool),
}

/// The next step of a verification. With no answer from the log yet: the
/// verification ends as failed once the timeout has passed, else the log is
/// looked into. With an answer: ready ends the verification as passed,
/// not ready means waiting for one interval.
pub open spec fn poll_step(elapsed_secs: u64, ready: Option<bool>) -> PollStep {
    match ready {
        None => if elapsed_secs >= VERIFY_TIMEOUT_SECS {
            PollStep::Finished(false)
        } else {
            PollStep::Look
        },
        Some(true) => PollStep::Finished(true),
        Some(false) => PollStep::Wait(VERIFY_INTERVAL_SECS),
    }
}

/// The next step of a verification, `elapsed_secs` seconds after its
/// start. `ready` is what the last look into the log found, or `None`
/// where the log has not been looked into since the last wait.
pub fn verify_poll(elapsed_secs: u64, ready: Option<bool>) -> (r: PollStep)
    ensures
        r == poll_step(elapsed_secs, ready),
{
    match ready {
        None => if elapsed_secs >= VERIFY_TIMEOUT_SECS {
            PollStep::Finished(false)
        } else {
            PollStep::Look
        },
        Some(true) => PollStep::Finished(true),
        Some(false) => PollStep::Wait(VERIFY_INTERVAL_SECS),
    }
}

/// What ends a verification: the runner is put back as it was found. What
/// the verification started and was not running before is stopped, as far
/// as possible.
pub open spec fn verification_finish(profile: ProfileView, was: RunningState, ctx: ContextView) -> Seq<
    TaskView,
> {
    if has_own_service(profile) {
        if !was.service {
            if_possible(stop_plan(profile, ctx))
        } else {
            seq![]
        }
    } else {
        if !was.process {
            seq![stop_runner_task(profile.runner_id)]
        } else {
            seq![]
        }
    }
}

/// The procedure that ends a verification.
pub fn verification_finish_procedure(profile: &RunnerProfile, was: RunningState, ctx: &ServiceContext) -> (r:
    Procedure)
    ensures
        r@ == verification_finish(profile@, was, ctx@),
{
    let via_service = profile.service.provider == ServiceProvider::Runnerbuddy
        && profile.service.installed;
    if via_service {
        if !was.service {
            attempted(stop(profile, ctx))
        } else {
            Procedure::empty()
        }
    } else {
        if !was.process {
            stop_runner_procedure(profile.runner_id.as_str())
        } else {
            Procedure::empty()
        }
    }
}

/// What a verification reports.
#[derive(Debug)]
pub struct VerifyResult {
    pub ok: bool,
    pub reason: Option<String>,
}

/// The migration status that the outcome of a verification means.
pub open spec fn verified_status(ok: bool) -> MigrationStatus {
    if ok {
        MigrationStatus::Verified
    } else {
        MigrationStatus::Failed
    }
}

/// The reason that a failed verification gives.
pub open spec fn verification_reason(ok: bool) -> Option<Seq<char>> {
    if ok {
        None
    } else {
        Some("runner did not report ready state before timeout"@)
    }
}

/// A profile with the outcome of its verification recorded. Nothing is
/// recorded for a profile whose service is external: such a profile is not
/// verified, whatever the outcome.
pub open spec fn with_verification(p: ProfileView, ok: bool) -> ProfileView {
    if p.service.provider == ServiceProvider::External {
        p
    } else {
        ProfileView {
            install: InstallView { migration_status: verified_status(ok), ..p.install },
            ..p
        }
    }
}

/// Records the outcome of a verification in the profile, if it still
/// exists and its service is not external, and reports it. A timeout is no
/// error: it is a failed verification with a reason, and can be tried again.
pub fn record_verification(store: &mut ConfigStore, runner_id: &str, ok: bool) -> (r: VerifyResult)
    ensures
        r.ok == ok,
        opt_text(r.reason) == verification_reason(ok),
        final(store)@.needs_save,
        selection_valid(final(store)@.config),
        final(store)@.config == sanitized(
            if has_runner(old(store)@.config.runners, runner_id@) {
                let i = index_of_runner(old(store)@.config.runners, runner_id@);
                ConfigView {
                    runners: old(store)@.config.runners.update(
                        i,
                        with_verification(old(store)@.config.runners[i], ok),
                    ),
                    ..old(store)@.config
                }
            } else {
                old(store)@.config
            },
        ),
{
    let ghost before = store@.config;
    proof {
        crate::store::lemma_index_of_runner(before.runners, runner_id@);
        crate::store::lemma_sanitized_is_valid(before);
    }
    let status = if ok {
        MigrationStatus::Verified
    } else {
        MigrationStatus::Failed
    };
    let i = crate::store::position_of_runner(&store.config.runners, runner_id);
    if i < store.config.runners.len() {
        let ghost prior = store.config.runners@;
        assert(before.runners[i as int] == prior[i as int]@);
        if store.config.runners[i].service.provider != ServiceProvider::External {
            store.config.runners[i].install.migration_status = status;
        }
        assert(store.config.runners@.len() == prior.len());
        assert(forall|k: int|
            0 <= k < prior.len() && k != i ==> store.config.runners@[k] == prior[k]);
        let ghost next = with_verification(before.runners[i as int], ok);
        assert(store.config.runners@[i as int]@ == next);
        let ghost mid = ConfigView { runners: before.runners.update(i as int, next), ..before };
        assert(store.config@.runners =~= mid.runners);
        proof {
            crate::store::lemma_sanitized_is_valid(mid);
        }
    }
    crate::store::sanitize_selected_runner_id(&mut store.config);
    store.needs_save = true;
    let reason = if ok {
        None
    } else {
        Some("runner did not report ready state before timeout".to_string())
    };
    VerifyResult { ok, reason }
}

/// A verification during which the log never shows the readiness marker
/// keeps looking and waiting until the timeout has passed, and then ends as
/// failed: with the status `Failed` and a reason that is not empty.
pub proof fn lemma_verification_times_out(elapsed_secs: u64, p: ProfileView)
    ensures
        poll_step(elapsed_secs, Some(false)) == PollStep::Wait(VERIFY_INTERVAL_SECS),
        elapsed_secs < VERIFY_TIMEOUT_SECS ==> poll_step(elapsed_secs, None) == PollStep::Look,
        elapsed_secs >= VERIFY_TIMEOUT_SECS ==> poll_step(elapsed_secs, None) == PollStep::Finished(
            false,
        ),
        verifiable(p) is Ok ==> with_verification(p, false).install.migration_status
            == MigrationStatus::Failed,
        verification_reason(false) is Some,
        verification_reason(false)->0.len() > 0,
{
    reveal_strlit("runner did not report ready state before timeout");
}

/// What the states of a profile have in common: a verified migration
/// means that no external service runs the runner, and the place that an
/// install came from is on record only while the install is managed.
pub open spec fn consistent(p: ProfileView) -> bool {
    &&& p.install.migration_status == MigrationStatus::Verified ==> p.service.provider
        != ServiceProvider::External
    &&& p.install.adopted_from_path is Some ==> p.install.mode == InstallMode::Managed
}

/// Every step of the workflow keeps a profile consistent, and every way
/// of making a profile makes a consistent one. A profile whose service is
/// external is refused for verification before anything starts.
pub proof fn lemma_steps_keep_profiles_consistent(
    p: ProfileView,
    plan: crate::discovery::MovePlanView,
    ok: bool,
    original: Seq<char>,
    enabled: bool,
    patch: crate::profiles::InputView,
    candidate: crate::discovery::CandidateView,
    seed: crate::host::SeedView,
    alias: Seq<char>,
    legacy: crate::load::LegacyView,
)
    requires
        consistent(p),
    ensures
        p.service.provider == ServiceProvider::External ==> verifiable(p) is Err,
        consistent(crate::discovery::moved_profile(p, plan)),
        consistent(with_verification(p, ok)),
        consistent(rolled_back(p, original)),
        consistent(without_original(p)),
        consistent(ProfileView { service: crate::discovery::replaced_service(p.service), ..p }),
        consistent(ProfileView { service: crate::discovery::retired_service(p.service), ..p }),
        consistent(ProfileView { service: crate::profiles::service_installed(p.service), ..p }),
        consistent(ProfileView { service: crate::profiles::service_uninstalled(p.service), ..p }),
        consistent(ProfileView { service: crate::profiles::boot_switched(p.service, enabled), ..p }),
        consistent(crate::profiles::patched(p, patch)),
        consistent(crate::discovery::candidate_profile(candidate, seed, alias)),
        consistent(crate::load::legacy_profile(legacy, seed)),
        crate::profiles::created_profile(patch, seed, alias) matches Ok(created) ==> consistent(
            created,
        ),
{
}

/// The steps of the workflow move a profile through its states in one
/// order only. A move is planned for an adopted install alone and makes it
/// managed, with the migration marked as moved and the place it came from
/// on record. A verification changes nothing but the migration status, to
/// verified or failed. A rollback makes the install adopted again, with no
/// trace of the migration. Forgetting the original changes nothing but the
/// record of where the install came from.
pub proof fn lemma_migration_lifecycle(
    c: ConfigView,
    runner_id: Seq<char>,
    destination: Option<Seq<char>>,
    dirs: AppDirsView,
    p: ProfileView,
    ok: bool,
    original: Seq<char>,
)
    ensures
        crate::discovery::planned_move(c, runner_id, destination, dirs) matches Ok(plan) ==> {
            let found = crate::store::found_runner(c.runners, runner_id)->Ok_0;
            &&& crate::store::has_runner(c.runners, runner_id)
            &&& found.install.mode == InstallMode::Adopted
            &&& plan.source == found.install.install_path
            &&& crate::discovery::moved_profile(found, plan).install == (InstallView {
                mode: InstallMode::Managed,
                install_path: plan.destination,
                adopted_from_path: Some(found.install.install_path),
                migration_status: MigrationStatus::Moved,
            })
        },
        p.service.provider != ServiceProvider::External ==> with_verification(p, ok)
            == (ProfileView {
            install: InstallView {
                migration_status: if ok {
                    MigrationStatus::Verified
                } else {
                    MigrationStatus::Failed
                },
                ..p.install
            },
            ..p
        }),
        p.service.provider == ServiceProvider::External ==> with_verification(p, ok) == p,
        rolled_back(p, original).install.mode == InstallMode::Adopted,
        rolled_back(p, original).install.migration_status == MigrationStatus::NotStarted,
        rolled_back(p, original).install.adopted_from_path is None,
        without_original(p).install == (InstallView { adopted_from_path: None, ..p.install }),
{
}

/// No step of the workflow changes the identity of a profile.
pub proof fn lemma_identity_is_kept(
    p: ProfileView,
    plan: crate::discovery::MovePlanView,
    ok: bool,
    original: Seq<char>,
    patch: crate::profiles::InputView,
)
    ensures
        crate::discovery::moved_profile(p, plan).runner_id == p.runner_id,
        with_verification(p, ok).runner_id == p.runner_id,
        rolled_back(p, original).runner_id == p.runner_id,
        without_original(p).runner_id == p.runner_id,
        crate::profiles::patched(p, patch).runner_id == p.runner_id,
{
}

} // verus!
