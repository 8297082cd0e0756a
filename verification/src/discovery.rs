//! Finding runner installs that are not tracked yet, and reading what they
//! say about themselves.

use vstd::prelude::*;
use crate::config::{
    clone_strings, opt_scope, opt_text, Config, ConfigView, ExternalServiceInfo,
    ExternalServiceView, InstallConfig, InstallMode, InstallView, MigrationStatus, ProfileView,
    RunnerProfile, RunnerScope, RunnerServiceConfig, ScopeView, ServiceProvider, ServiceView,
};
use crate::errors::{Error, ErrorView};
use crate::host::{seed_fits, AppDirs, AppDirsView, HostInfo, ProfileSeed, SeedView};
use crate::json::JsonView;
use crate::procedure::{Procedure, TaskView};
use crate::service_mgmt::{plan_view, ContextView, ServiceContext};
use crate::store::{
    found_runner, has_runner, identity_taken, index_of_runner, not_found, sanitized,
    selection_valid, ConfigStore, StoreView,
};
use crate::text::{
    chars_of, find, find_in, index_of, is_text, position_of, segments, segments_of, slice_of,
    string_of, strip_end, trim_end_by, CharClass,
};

verus! {

/// The part of a registration URL that follows scheme and host. Trailing
/// slashes do not count. Without a `//` the whole text is the path.
pub open spec fn url_path(url: Seq<char>) -> Seq<char> {
    let trimmed = trim_end_by(url, CharClass::Only('/'));
    match find(trimmed, "//"@) {
        Some(i) => {
            let after = trimmed.skip(i + 2);
            let j = index_of(after, '/');
            if j < after.len() {
                after.skip(j + 1)
            } else {
                Seq::empty()
            }
        },
        None => trimmed,
    }
}

/// The scope that the segments of a URL path name. A known first segment
/// decides, whatever follows what it names. Without one, a single segment
/// names an organization and exactly two name a repository; any other number
/// names nothing.
pub open spec fn scope_of_segments(segs: Seq<Seq<char>>) -> Option<ScopeView> {
    if segs.len() == 0 {
        None
    } else if segs.len() >= 2 && (segs[0] == "organizations"@ || segs[0] == "orgs"@) {
        Some(ScopeView::Org { org: segs[1] })
    } else if segs.len() >= 2 && segs[0] == "enterprises"@ {
        Some(ScopeView::Enterprise { enterprise: segs[1] })
    } else if segs.len() >= 3 && segs[0] == "repos"@ {
        Some(ScopeView::Repo { owner: segs[1], repo: segs[2] })
    } else if segs.len() == 2 {
        Some(ScopeView::Repo { owner: segs[0], repo: segs[1] })
    } else if segs.len() == 1 {
        Some(ScopeView::Org { org: segs[0] })
    } else {
        None
    }
}

/// Without a known first segment the number of segments decides alone: one
/// segment names an organization, two name a repository, and three or more
/// name nothing.
pub proof fn lemma_plain_segments_name_a_scope_by_their_number(segs: Seq<Seq<char>>)
    requires
        segs.len() > 0,
        segs[0] != "organizations"@,
        segs[0] != "orgs"@,
        segs[0] != "enterprises"@,
        segs[0] != "repos"@,
    ensures
        segs.len() == 1 ==> scope_of_segments(segs) == Some(ScopeView::Org { org: segs[0] }),
        segs.len() == 2 ==> scope_of_segments(segs) == Some(
            ScopeView::Repo { owner: segs[0], repo: segs[1] },
        ),
        segs.len() >= 3 ==> scope_of_segments(segs) is None,
{
}

/// The scope that a registration URL names.
pub open spec fn scope_of_url(url: Seq<char>) -> Option<ScopeView> {
    scope_of_segments(segments(url_path(url), '/'))
}

/// The path of a registration URL, as characters.
fn url_path_of(url: &str) -> (r: Vec<char>)
    ensures
        r@ == url_path(url@),
{
    let chars = chars_of(url);
    let trimmed = strip_end(&chars, CharClass::Only('/'));
    let slashes = chars_of("//");
    proof {
        reveal_strlit("//");
    }
    match find_in(&trimmed, &slashes, 0) {
        Some(i) => {
            let j = position_of(&trimmed, '/', i + 2);
            if j < trimmed.len() {
                let r = slice_of(&trimmed, j + 1, trimmed.len());
                assert(trimmed@.skip(i + 2).skip(j - (i + 2) + 1) == trimmed@.subrange(
                    j + 1,
                    trimmed.len() as int,
                ));
                r
            } else {
                Vec::new()
            }
        },
        None => trimmed,
    }
}

/// The scope that a registration URL names, if its path names one.
pub fn scope_from_url(url: &str) -> (r: Option<RunnerScope>)
    ensures
        opt_scope(r) == scope_of_url(url@),
{
    let path = url_path_of(url);
    let segs = segments_of(&path, '/');
    let ghost names = crate::text::texts(segs@);
    let n = segs.len();
    if n == 0 {
        return None;
    }
    assert(names[0] == segs@[0]@);
    if n >= 2 {
        assert(names[1] == segs@[1]@);
    }
    if n >= 3 {
        assert(names[2] == segs@[2]@);
    }
    if n >= 2 && (is_text(&segs[0], "organizations") || is_text(&segs[0], "orgs")) {
        return Some(RunnerScope::Org { org: string_of(&segs[1]) });
    }
    if n >= 2 && is_text(&segs[0], "enterprises") {
        return Some(RunnerScope::Enterprise { enterprise: string_of(&segs[1]) });
    }
    if n >= 3 && is_text(&segs[0], "repos") {
        return Some(RunnerScope::Repo { owner: string_of(&segs[1]), repo: string_of(&segs[2]) });
    }
    if n == 2 {
        return Some(RunnerScope::Repo { owner: string_of(&segs[0]), repo: string_of(&segs[1]) });
    }
    if n == 1 {
        return Some(RunnerScope::Org { org: string_of(&segs[0]) });
    }
    None
}

// ---------------------------------------------------------------------------
// Candidates and their import
// ---------------------------------------------------------------------------

/// An install that a scan found and that no profile refers to.
#[derive(Debug)]
pub struct DiscoveryCandidate {
    pub candidate_id: String,
    pub install_path: String,
    pub runner_name: Option<String>,
    pub labels: Vec<String>,
    pub scope: Option<RunnerScope>,
    pub work_dir: Option<String>,
    pub service_present: bool,
    pub service_id: Option<String>,
    pub service_path: Option<String>,
    pub last_log_time: Option<String>,
}

/// The view of a [`DiscoveryCandidate`].
pub struct CandidateView {
    pub candidate_id: Seq<char>,
    pub install_path: Seq<char>,
    pub runner_name: Option<Seq<char>>,
    pub labels: Seq<Seq<char>>,
    pub scope: Option<ScopeView>,
    pub work_dir: Option<Seq<char>>,
    pub service_present: bool,
    pub service_id: Option<Seq<char>>,
    pub service_path: Option<Seq<char>>,
    pub last_log_time: Option<Seq<char>>,
}

impl View for DiscoveryCandidate {
    type V = CandidateView;

    open spec fn view(&self) -> CandidateView {
        CandidateView {
            candidate_id: self.candidate_id@,
            install_path: self.install_path@,
            runner_name: opt_text(self.runner_name),
            labels: crate::text::strings(self.labels@),
            scope: opt_scope(self.scope),
            work_dir: opt_text(self.work_dir),
            service_present: self.service_present,
            service_id: opt_text(self.service_id),
            service_path: opt_text(self.service_path),
            last_log_time: opt_text(self.last_log_time),
        }
    }
}

impl Clone for DiscoveryCandidate {
    fn clone(&self) -> (r: Self)
        ensures
            r@ == self@,
    {
        let scope = match &self.scope {
            Some(s) => Some(s.clone()),
            None => None,
        };
        DiscoveryCandidate {
            candidate_id: self.candidate_id.clone(),
            install_path: self.install_path.clone(),
            runner_name: self.runner_name.clone(),
            labels: clone_strings(&self.labels),
            scope,
            work_dir: self.work_dir.clone(),
            service_present: self.service_present,
            service_id: self.service_id.clone(),
            service_path: self.service_path.clone(),
            last_log_time: self.last_log_time.clone(),
        }
    }
}

/// What an import does besides registering the profile.
#[derive(Debug, Clone, Copy, PartialEq, Eq, Structural)]
pub struct ImportOptions {
    /// Replace an external service by one of the application's own.
    pub replace_service: bool,
    /// Move the install into managed storage.
    pub move_install: bool,
    /// Verify the runner after the move.
    pub verify_after_move: bool,
    /// Asked for, and never done without an explicit request of its own.
    pub delete_original_after_verify: bool,
}

/// How an external service is taken over.
#[derive(Debug, Clone, Copy, PartialEq, Eq, Structural)]
pub enum ServiceMigrationStrategy {
    ReplaceWithRunnerbuddy,
}

/// The profile that a candidate becomes: adopted where it was found, with
/// the defaults of the seed for what the candidate does not say, and with an
/// external service if one was detected.
pub open spec fn candidate_profile(c: CandidateView, seed: SeedView, pat_alias: Seq<char>) -> ProfileView {
    let name = match c.runner_name {
        Some(n) => n,
        None => seed.runner_name,
    };
    ProfileView {
        runner_id: seed.runner_id,
        display_name: name,
        scope: c.scope,
        runner_name: name,
        labels: if c.labels.len() == 0 {
            seed.labels
        } else {
            c.labels
        },
        work_dir: match c.work_dir {
            Some(w) => w,
            None => seed.work_dir,
        },
        install: InstallView {
            mode: InstallMode::Adopted,
            install_path: c.install_path,
            adopted_from_path: None,
            migration_status: MigrationStatus::NotStarted,
        },
        runner_version: None,
        pat_alias,
        service: ServiceView {
            installed: c.service_present,
            run_on_boot: c.service_present,
            provider: if c.service_present {
                ServiceProvider::External
            } else {
                ServiceProvider::Unknown
            },
            external_id: c.service_id,
            external_path: c.service_path,
            external_restore: None,
        },
        created_at: seed.created_at,
        last_seen_at: c.last_log_time,
    }
}

/// The profile that a candidate becomes.
pub fn profile_from_candidate(candidate: &DiscoveryCandidate, seed: ProfileSeed, pat_alias: &str) -> (r:
    RunnerProfile)
    ensures
        r@ == candidate_profile(candidate@, seed@, pat_alias@),
{
    let name = match &candidate.runner_name {
        Some(n) => n.clone(),
        None => seed.runner_name,
    };
    let scope = match &candidate.scope {
        Some(s) => Some(s.clone()),
        None => None,
    };
    RunnerProfile {
        runner_id: seed.runner_id,
        display_name: name.clone(),
        scope,
        runner_name: name,
        labels: if candidate.labels.len() == 0 {
            seed.labels
        } else {
            clone_strings(&candidate.labels)
        },
        work_dir: match &candidate.work_dir {
            Some(w) => w.clone(),
            None => seed.work_dir,
        },
        install: InstallConfig {
            mode: InstallMode::Adopted,
            install_path: candidate.install_path.clone(),
            adopted_from_path: None,
            migration_status: MigrationStatus::NotStarted,
        },
        runner_version: None,
        pat_alias: pat_alias.to_string(),
        service: RunnerServiceConfig {
            installed: candidate.service_present,
            run_on_boot: candidate.service_present,
            provider: if candidate.service_present {
                ServiceProvider::External
            } else {
                ServiceProvider::Unknown
            },
            external_id: candidate.service_id.clone(),
            external_path: candidate.service_path.clone(),
            external_restore: None,
        },
        created_at: seed.created_at,
        last_seen_at: candidate.last_log_time.clone(),
    }
}

/// An import that asks to move an install whose external service would
/// stay in place is refused.
pub open spec fn import_refused(c: CandidateView, options: ImportOptions) -> bool {
    options.move_install && c.service_present && !options.replace_service
}

/// The error for a move that an external service stands in the way of.
pub open spec fn external_service_in_the_way() -> ErrorView {
    ErrorView::Service(
        "external service detected; replace or remove external service before moving"@,
    )
}

/// The configuration with one more profile, which is selected if nothing was.
pub open spec fn registered(c: ConfigView, p: ProfileView) -> ConfigView {
    sanitized(
        ConfigView {
            runners: c.runners.push(p),
            selected_runner_id: match c.selected_runner_id {
                Some(id) => Some(id),
                None => Some(p.runner_id),
            },
            ..c
        },
    )
}

/// What follows the registration of an imported profile.
#[derive(Debug)]
pub struct ImportOutcome {
    /// The profile as it was registered.
    pub profile: RunnerProfile,
    /// Whether the external service is to be replaced next.
    pub replace_service: bool,
    /// Whether the install is to be moved after that.
    pub move_install: bool,
    /// Whether the runner is to be verified after the move.
    pub verify: bool,
}

/// The view of an [`ImportOutcome`].
pub struct OutcomeView {
    pub profile: ProfileView,
    pub replace_service: bool,
    pub move_install: bool,
    pub verify: bool,
}

impl View for ImportOutcome {
    type V = OutcomeView;

    open spec fn view(&self) -> OutcomeView {
        OutcomeView {
            profile: self.profile@,
            replace_service: self.replace_service,
            move_install: self.move_install,
            verify: self.verify,
        }
    }
}

/// What importing a candidate gives: the registered profile and the steps
/// that follow. The external service is replaced where that was asked for
/// and one was detected; the install is moved where that was asked for; the
/// runner is verified where both a move and a verification were asked for.
pub open spec fn import_outcome(
    c: CandidateView,
    options: ImportOptions,
    seed: SeedView,
    pat_alias: Seq<char>,
) -> OutcomeView {
    OutcomeView {
        profile: candidate_profile(c, seed, pat_alias),
        replace_service: options.replace_service && c.service_present,
        move_install: options.move_install,
        verify: options.move_install && options.verify_after_move,
    }
}

/// Why an import is refused, if it is: an external service would stay in
/// the way of the move that was asked for, or the identity of the seed is
/// that of a profile already.
pub open spec fn import_refusal(
    c: ConfigView,
    candidate: CandidateView,
    options: ImportOptions,
    seed: SeedView,
) -> Option<ErrorView> {
    if import_refused(candidate, options) {
        Some(external_service_in_the_way())
    } else if has_runner(c.runners, seed.runner_id) {
        Some(identity_taken(seed.runner_id))
    } else {
        None
    }
}

/// What an import with the given seed does to the store and gives back. A
/// refused import changes nothing. One that is not refused adds the profile
/// of the candidate, whose identity no other profile has.
pub open spec fn imported_with(
    before: ConfigStore,
    after: ConfigStore,
    r: Result<ImportOutcome, Error>,
    candidate: CandidateView,
    options: ImportOptions,
    seed: SeedView,
) -> bool {
    match import_refusal(before@.config, candidate, options, seed) {
        Some(refusal) => {
            &&& r matches Err(e)
            &&& e@ == refusal
            &&& after == before
        },
        None => {
            &&& r matches Ok(outcome)
            &&& outcome@ == import_outcome(candidate, options, seed, before@.config.pat_default_alias)
            &&& !has_runner(before@.config.runners, outcome@.profile.runner_id)
            &&& after@.config == registered(before@.config, outcome@.profile)
            &&& after@.needs_save
            &&& selection_valid(after@.config)
        },
    }
}

/// Registers the profile of a candidate, with the given seed. A refused
/// import changes nothing.
pub fn import_candidate_with(
    store: &mut ConfigStore,
    candidate: &DiscoveryCandidate,
    options: &ImportOptions,
    seed: ProfileSeed,
) -> (r: Result<ImportOutcome, Error>)
    ensures
        imported_with(*old(store), *final(store), r, candidate@, *options, seed@),
{
    if options.move_install && candidate.service_present && !options.replace_service {
        return Err(
            Error::Service(
                "external service detected; replace or remove external service before moving".to_string(),
            ),
        );
    }
    if crate::store::position_of_runner(&store.config.runners, seed.runner_id.as_str())
        < store.config.runners.len() {
        return Err(
            Error::Runner(
                crate::text::concat3("runner ", seed.runner_id.as_str(), " already exists"),
            ),
        );
    }
    let ghost before = store@.config;
    let profile = profile_from_candidate(candidate, seed, store.config.pat_default_alias.as_str());
    let registered_profile = profile.clone();
    if store.config.selected_runner_id.is_none() {
        store.config.selected_runner_id = Some(profile.runner_id.clone());
    }
    store.config.runners.push(profile);
    let ghost mid = store@.config;
    assert(mid.runners =~= before.runners.push(registered_profile@));
    crate::store::sanitize_selected_runner_id(&mut store.config);
    proof {
        crate::store::lemma_sanitized_is_valid(mid);
    }
    store.needs_save = true;
    Ok(
        ImportOutcome {
            replace_service: options.replace_service && registered_profile.service.provider
                == ServiceProvider::External,
            move_install: options.move_install,
            verify: options.move_install && options.verify_after_move,
            profile: registered_profile,
        },
    )
}

/// Registers the profile of a candidate, with a fresh random identity, the
/// current time as the time of creation, and the defaults of the given
/// surroundings. A refused import changes nothing.
pub fn import_candidate(
    store: &mut ConfigStore,
    candidate: &DiscoveryCandidate,
    options: &ImportOptions,
    host: &HostInfo,
    dirs: &AppDirs,
) -> (r: Result<ImportOutcome, Error>)
    ensures
        exists|seed: SeedView|
            {
                &&& seed_fits(seed, host@, dirs@)
                &&& #[trigger] imported_with(*old(store), *final(store), r, candidate@, *options, seed)
            },
{
    let seed = ProfileSeed::fresh(host, dirs);
    let ghost s = seed@;
    let r = import_candidate_with(store, candidate, options, seed);
    assert(seed_fits(s, host@, dirs@) && imported_with(
        *old(store),
        *final(store),
        r,
        candidate@,
        *options,
        s,
    ));
    r
}

// ---------------------------------------------------------------------------
// Replacing and retiring an external service
// ---------------------------------------------------------------------------

/// What replacing the external service of a profile takes: nothing where
/// the service is not external; else disabling the external service, then
/// installing the application's own.
pub open spec fn service_migration_plan(
    profile: ProfileView,
    declared: Option<Seq<char>>,
    ctx: ContextView,
) -> Result<Seq<TaskView>, ErrorView> {
    if profile.service.provider != ServiceProvider::External {
        Ok(seq![])
    } else {
        match crate::service_mgmt::external_disable_plan(profile, declared, ctx) {
            Err(e) => Err(e),
            Ok(disable) => match crate::service_mgmt::install_plan(profile, ctx) {
                Err(e) => Err(e),
                Ok(install) => Ok(disable + install),
            },
        }
    }
}

/// The procedure that replaces the external service of a profile by one of
/// the application's own. It is planned as a whole: where a part cannot be
/// planned, nothing is to be done and the error says why.
pub fn service_migration_procedure(
    profile: &RunnerProfile,
    strategy: ServiceMigrationStrategy,
    declared: &Option<String>,
    ctx: &ServiceContext,
) -> (r: Result<Procedure, Error>)
    ensures
        plan_view(r) == service_migration_plan(profile@, opt_text(*declared), ctx@),
{
    if profile.service.provider != ServiceProvider::External {
        return Ok(Procedure::empty());
    }
    let disable = match crate::service_mgmt::external_disable(profile, declared, ctx) {
        Ok(p) => p,
        Err(e) => {
            return Err(e);
        },
    };
    match crate::service_mgmt::install(profile, ctx) {
        Ok(install) => Ok(disable.followed_by(install)),
        Err(e) => Err(e),
    }
}

/// The service descriptor after the external service was replaced: a
/// service of the application's own, installed and started on boot; the
/// identity of the external service is kept for a later restoration and
/// no longer referred to.
pub open spec fn replaced_service(s: ServiceView) -> ServiceView {
    ServiceView {
        installed: true,
        run_on_boot: true,
        provider: ServiceProvider::Runnerbuddy,
        external_restore: Some(ExternalServiceView { id: s.external_id, path: s.external_path }),
        external_id: None,
        external_path: None,
    }
}

/// The view of an outcome without a value.
pub open spec fn unit_result(r: Result<(), Error>) -> Result<(), ErrorView> {
    match r {
        Ok(()) => Ok(()),
        Err(e) => Err(e@),
    }
}

/// Records that the external service of a profile was replaced. `outcome`
/// is how the replacement procedure ended. A profile whose service is not
/// external is left alone whatever the outcome; a failed replacement leaves
/// the profile as it was and is handed on.
pub fn migrate_external_service(
    profile: &mut RunnerProfile,
    strategy: ServiceMigrationStrategy,
    outcome: Result<(), Error>,
) -> (r: Result<(), Error>)
    ensures
        old(profile)@.service.provider != ServiceProvider::External ==> {
            &&& r is Ok
            &&& *final(profile) == *old(profile)
        },
        old(profile)@.service.provider == ServiceProvider::External ==> {
            &&& unit_result(r) == unit_result(outcome)
            &&& outcome is Err ==> *final(profile) == *old(profile)
            &&& outcome is Ok ==> final(profile)@ == (ProfileView {
                service: replaced_service(old(profile)@.service),
                ..old(profile)@
            })
        },
{
    if profile.service.provider != ServiceProvider::External {
        return Ok(());
    }
    match outcome {
        Err(e) => Err(e),
        Ok(()) => {
            let mut id: Option<String> = None;
            let mut path: Option<String> = None;
            std::mem::swap(&mut profile.service.external_id, &mut id);
            std::mem::swap(&mut profile.service.external_path, &mut path);
            profile.service.installed = true;
            profile.service.run_on_boot = true;
            profile.service.provider = ServiceProvider::Runnerbuddy;
            profile.service.external_restore = Some(ExternalServiceInfo { id, path });
            Ok(())
        },
    }
}

/// What retiring the external service of a profile takes: nothing where
/// the service is not external.
pub open spec fn external_removal_plan(
    profile: ProfileView,
    declared: Option<Seq<char>>,
    ctx: ContextView,
) -> Result<Seq<TaskView>, ErrorView> {
    if profile.service.provider != ServiceProvider::External {
        Ok(seq![])
    } else {
        crate::service_mgmt::external_remove_plan(profile, declared, ctx)
    }
}

/// The procedure that retires the external service of a profile.
pub fn external_removal_procedure(
    profile: &RunnerProfile,
    declared: &Option<String>,
    ctx: &ServiceContext,
) -> (r: Result<Procedure, Error>)
    ensures
        plan_view(r) == external_removal_plan(profile@, opt_text(*declared), ctx@),
{
    if profile.service.provider != ServiceProvider::External {
        return Ok(Procedure::empty());
    }
    crate::service_mgmt::external_remove_artifacts(profile, declared, ctx)
}

/// The service descriptor after the external service was retired: no
/// service, and nothing external referred to. What was kept for a
/// restoration stays.
pub open spec fn retired_service(s: ServiceView) -> ServiceView {
    ServiceView {
        installed: false,
        run_on_boot: false,
        provider: ServiceProvider::Unknown,
        external_id: None,
        external_path: None,
        external_restore: s.external_restore,
    }
}

/// Records that the external service of a profile was retired. `outcome` is
/// how the removal procedure ended. A profile whose service is not external
/// is left alone whatever the outcome; a failed removal leaves the profile
/// as it was and is handed on.
pub fn remove_external_artifacts(profile: &mut RunnerProfile, outcome: Result<(), Error>) -> (r: Result<
    (),
    Error,
>)
    ensures
        old(profile)@.service.provider != ServiceProvider::External ==> {
            &&& r is Ok
            &&& *final(profile) == *old(profile)
        },
        old(profile)@.service.provider == ServiceProvider::External ==> {
            &&& unit_result(r) == unit_result(outcome)
            &&& outcome is Err ==> *final(profile) == *old(profile)
            &&& outcome is Ok ==> final(profile)@ == (ProfileView {
                service: retired_service(old(profile)@.service),
                ..old(profile)@
            })
        },
{
    if profile.service.provider != ServiceProvider::External {
        return Ok(());
    }
    match outcome {
        Err(e) => Err(e),
        Ok(()) => {
            profile.service.installed = false;
            profile.service.run_on_boot = false;
            profile.service.provider = ServiceProvider::Unknown;
            profile.service.external_id = None;
            profile.service.external_path = None;
            Ok(())
        },
    }
}

// ---------------------------------------------------------------------------
// Moving an install into managed storage
// ---------------------------------------------------------------------------

/// A move that passed its first checks.
#[derive(Debug)]
pub struct MovePlan {
    pub runner_id: String,
    /// Where the install is.
    pub source: String,
    /// Where it goes.
    pub destination: String,
}

/// The view of a [`MovePlan`].
pub struct MovePlanView {
    pub runner_id: Seq<char>,
    pub source: Seq<char>,
    pub destination: Seq<char>,
}

impl View for MovePlan {
    type V = MovePlanView;

    open spec fn view(&self) -> MovePlanView {
        MovePlanView {
            runner_id: self.runner_id@,
            source: self.source@,
            destination: self.destination@,
        }
    }
}

/// The error for a move of an install that is managed already.
pub open spec fn already_managed() -> ErrorView {
    ErrorView::Runner("runner already managed"@)
}

/// The move of a profile's install: only an adopted install moves; it goes
/// to the given destination, or to the profile's place in managed storage.
pub open spec fn planned_move(
    c: ConfigView,
    runner_id: Seq<char>,
    destination: Option<Seq<char>>,
    dirs: AppDirsView,
) -> Result<MovePlanView, ErrorView> {
    match found_runner(c.runners, runner_id) {
        Err(e) => Err(e),
        Ok(profile) => if profile.install.mode == InstallMode::Managed {
            Err(already_managed())
        } else {
            match destination {
                Some(d) => Ok(
                    MovePlanView { runner_id, source: profile.install.install_path, destination: d },
                ),
                None => match dirs.default_install_path(runner_id) {
                    Some(d) => Ok(
                        MovePlanView {
                            runner_id,
                            source: profile.install.install_path,
                            destination: d,
                        },
                    ),
                    None => Err(crate::host::no_project_dirs()),
                },
            }
        },
    }
}

/// The view of a plan or of the error in its place.
pub open spec fn move_plan_result(r: Result<MovePlan, Error>) -> Result<MovePlanView, ErrorView> {
    match r {
        Ok(p) => Ok(p@),
        Err(e) => Err(e@),
    }
}

/// Decides whether and where the install of a profile moves.
pub fn plan_move(config: &Config, runner_id: &str, destination: Option<String>, dirs: &AppDirs) -> (r:
    Result<MovePlan, Error>)
    ensures
        move_plan_result(r) == planned_move(config@, runner_id@, opt_text(destination), dirs@),
{
    let profile = match crate::store::find_runner(config, runner_id) {
        Ok(p) => p,
        Err(e) => {
            return Err(e);
        },
    };
    if profile.install.mode == InstallMode::Managed {
        return Err(Error::Runner("runner already managed".to_string()));
    }
    let destination = match destination {
        Some(d) => d,
        None => match dirs.default_install_path(runner_id) {
            Ok(d) => d,
            Err(e) => {
                return Err(e);
            },
        },
    };
    Ok(MovePlan { runner_id: runner_id.to_string(), source: profile.install.install_path, destination })
}

/// What copying the install takes. The copy is refused where the
/// destination exists already, and it fails where the source is missing.
pub open spec fn copy_plan(plan: MovePlanView, destination_exists: bool, source_exists: bool) -> Result<
    Seq<TaskView>,
    ErrorView,
> {
    if destination_exists {
        Err(ErrorView::Runner("destination already exists"@))
    } else if !source_exists {
        Err(ErrorView::Runner("source path missing"@))
    } else {
        Ok(
            seq![
                crate::service_mgmt::task(
                    seq![
                        crate::service_mgmt::must_do(
                            crate::procedure::ActionView::CopyTree {
                                from: plan.source,
                                to: plan.destination,
                            },
                        ),
                    ],
                ),
            ],
        )
    }
}

/// The procedure that copies the install to its destination.
pub fn copy_procedure(plan: &MovePlan, destination_exists: bool, source_exists: bool) -> (r: Result<
    Procedure,
    Error,
>)
    ensures
        plan_view(r) == copy_plan(plan@, destination_exists, source_exists),
{
    if destination_exists {
        return Err(Error::Runner("destination already exists".to_string()));
    }
    if !source_exists {
        return Err(Error::Runner("source path missing".to_string()));
    }
    let step = crate::procedure::Step {
        action: crate::procedure::Action::CopyTree {
            from: plan.source.clone(),
            to: plan.destination.clone(),
        },
        required: Some("file operation failed".to_string()),
    };
    let mut steps: Vec<crate::procedure::Step> = Vec::new();
    steps.push(step);
    let task = crate::procedure::Task { steps, best_effort: false };
    let mut tasks: Vec<crate::procedure::Task> = Vec::new();
    tasks.push(task);
    let r = Procedure { tasks };
    assert(r@ =~= copy_plan(plan@, destination_exists, source_exists)->Ok_0) by {
        assert(r@[0].steps =~= copy_plan(plan@, destination_exists, source_exists)->Ok_0[0].steps);
    }
    Ok(r)
}

/// What was seen of a file.
#[derive(Debug)]
pub enum FileProbe {
    /// The file does not exist.
    Missing,
    /// The file exists and has this many bytes.
    Size(u64),
    /// The file exists, but asking for its size failed.
    Unreadable(Error),
}

/// The view of a [`FileProbe`].
pub enum FileProbeView {
    Missing,
    Size(u64),
    Unreadable(ErrorView),
}

impl View for FileProbe {
    type V = FileProbeView;

    open spec fn view(&self) -> FileProbeView {
        match self {
            FileProbe::Missing => FileProbeView::Missing,
            FileProbe::Size(n) => FileProbeView::Size(*n),
            FileProbe::Unreadable(e) => FileProbeView::Unreadable(e@),
        }
    }
}

/// One of the files by which a copy is judged, seen at both ends.
#[derive(Debug)]
pub struct CopyCheck {
    /// The name of the file within the install.
    pub file: String,
    pub source: FileProbe,
    pub destination: FileProbe,
}

/// The view of a [`CopyCheck`].
pub struct CopyCheckView {
    pub file: Seq<char>,
    pub source: FileProbeView,
    pub destination: FileProbeView,
}

impl View for CopyCheck {
    type V = CopyCheckView;

    open spec fn view(&self) -> CopyCheckView {
        CopyCheckView { file: self.file@, source: self.source@, destination: self.destination@ }
    }
}

/// The views of a vector of checks.
pub open spec fn checks_view(v: Seq<CopyCheck>) -> Seq<CopyCheckView> {
    Seq::new(v.len(), |i: int| v[i]@)
}

/// The files by which a copy is judged: the configure and run scripts of
/// the platform, and the registration marker.
pub open spec fn critical_files(windows: bool) -> Seq<Seq<char>> {
    if windows {
        seq!["config.cmd"@, "run.cmd"@, ".runner"@]
    } else {
        seq!["config.sh"@, "run.sh"@, ".runner"@]
    }
}

/// The files by which a copy is judged.
pub fn copy_check_files(windows: bool) -> (r: Vec<String>)
    ensures
        crate::text::strings(r@) == critical_files(windows),
{
    let mut r: Vec<String> = Vec::new();
    if windows {
        r.push("config.cmd".to_string());
        r.push("run.cmd".to_string());
    } else {
        r.push("config.sh".to_string());
        r.push("run.sh".to_string());
    }
    r.push(".runner".to_string());
    assert(crate::text::strings(r@) =~= critical_files(windows));
    r
}

/// What one check says: a file that the source lacks says nothing; one
/// that the source has must exist at the destination with the same size.
pub open spec fn check_verdict(c: CopyCheckView) -> Result<(), ErrorView> {
    match (c.source, c.destination) {
        (FileProbeView::Missing, _) => Ok(()),
        (_, FileProbeView::Missing) => Err(ErrorView::Runner("missing "@ + c.file + " after copy"@)),
        (FileProbeView::Unreadable(e), _) => Err(e),
        (FileProbeView::Size(_), FileProbeView::Unreadable(e)) => Err(e),
        (FileProbeView::Size(s), FileProbeView::Size(d)) => if s == d {
            Ok(())
        } else {
            Err(ErrorView::Runner("size mismatch for "@ + c.file))
        },
    }
}

/// What the checks say together: the complaint of the first check that has one.
pub open spec fn copy_verdict(checks: Seq<CopyCheckView>) -> Result<(), ErrorView>
    decreases checks.len(),
{
    if checks.len() == 0 {
        Ok(())
    } else {
        match check_verdict(checks[0]) {
            Err(e) => Err(e),
            Ok(()) => copy_verdict(checks.skip(1)),
        }
    }
}

fn judge_check(c: &CopyCheck) -> (r: Result<(), Error>)
    ensures
        unit_result(r) == check_verdict(c@),
{
    let source_size = match &c.source {
        FileProbe::Missing => {
            return Ok(());
        },
        FileProbe::Size(s) => Ok(*s),
        FileProbe::Unreadable(e) => Err(e.clone()),
    };
    let destination_size = match &c.destination {
        FileProbe::Missing => {
            return Err(
                Error::Runner(crate::text::concat3("missing ", c.file.as_str(), " after copy")),
            );
        },
        FileProbe::Size(d) => Ok(*d),
        FileProbe::Unreadable(e) => Err(e.clone()),
    };
    let s = match source_size {
        Ok(s) => s,
        Err(e) => {
            return Err(e);
        },
    };
    let d = match destination_size {
        Ok(d) => d,
        Err(e) => {
            return Err(e);
        },
    };
    if s != d {
        return Err(Error::Runner(crate::text::concat2("size mismatch for ", c.file.as_str())));
    }
    Ok(())
}

/// Judges a copy by the critical files seen at both ends.
pub fn verify_copy(checks: &Vec<CopyCheck>) -> (r: Result<(), Error>)
    ensures
        unit_result(r) == copy_verdict(checks_view(checks@)),
{
    let mut i: usize = 0;
    assert(checks_view(checks@).skip(0) == checks_view(checks@));
    while i < checks.len()
        invariant
            i <= checks.len(),
            copy_verdict(checks_view(checks@)) == copy_verdict(checks_view(checks@).skip(i as int)),
        decreases checks.len() - i,
    {
        let ghost rest = checks_view(checks@).skip(i as int);
        assert(rest[0] == checks@[i as int]@);
        assert(rest.skip(1) == checks_view(checks@).skip(i + 1));
        match judge_check(&checks[i]) {
            Err(e) => {
                return Err(e);
            },
            Ok(()) => {},
        }
        i += 1;
    }
    Ok(())
}

/// A profile after its install was moved: managed at the destination, the
/// source recorded as where it came from, the migration marked as moved.
pub open spec fn moved_profile(p: ProfileView, plan: MovePlanView) -> ProfileView {
    ProfileView {
        install: InstallView {
            mode: InstallMode::Managed,
            install_path: plan.destination,
            adopted_from_path: Some(plan.source),
            migration_status: MigrationStatus::Moved,
        },
        ..p
    }
}

/// What follows a recorded move.
#[derive(Debug)]
pub struct MoveOutcome {
    /// The profile as it is recorded now.
    pub profile: RunnerProfile,
    /// Whether the application's service is to be installed for the new location.
    pub install_service: bool,
}

/// One of the critical files, seen at both ends of a copy.
#[derive(Debug)]
pub struct FilePair {
    pub source: FileProbe,
    pub destination: FileProbe,
}

/// The view of a [`FilePair`].
pub struct FilePairView {
    pub source: FileProbeView,
    pub destination: FileProbeView,
}

impl View for FilePair {
    type V = FilePairView;

    open spec fn view(&self) -> FilePairView {
        FilePairView { source: self.source@, destination: self.destination@ }
    }
}

/// What was seen of the critical files after a copy: the configure script
/// and the run script of the platform and the registration marker, each at
/// the source and at the destination.
#[derive(Debug)]
pub struct CopyEvidence {
    pub config_script: FilePair,
    pub run_script: FilePair,
    pub marker: FilePair,
}

/// The view of a [`CopyEvidence`].
pub struct CopyEvidenceView {
    pub config_script: FilePairView,
    pub run_script: FilePairView,
    pub marker: FilePairView,
}

impl View for CopyEvidence {
    type V = CopyEvidenceView;

    open spec fn view(&self) -> CopyEvidenceView {
        CopyEvidenceView {
            config_script: self.config_script@,
            run_script: self.run_script@,
            marker: self.marker@,
        }
    }
}

/// The checks that the evidence of a copy amounts to: one for each
/// critical file of the platform, in their order.
pub open spec fn evidence_checks(e: CopyEvidenceView, windows: bool) -> Seq<CopyCheckView> {
    seq![
        CopyCheckView {
            file: critical_files(windows)[0],
            source: e.config_script.source,
            destination: e.config_script.destination,
        },
        CopyCheckView {
            file: critical_files(windows)[1],
            source: e.run_script.source,
            destination: e.run_script.destination,
        },
        CopyCheckView {
            file: critical_files(windows)[2],
            source: e.marker.source,
            destination: e.marker.destination,
        },
    ]
}

/// The checks that the evidence of a copy amounts to.
pub fn checks_of(evidence: CopyEvidence, windows: bool) -> (r: Vec<CopyCheck>)
    ensures
        checks_view(r@) == evidence_checks(evidence@, windows),
{
    let (config_name, run_name) = install_script_names(windows);
    let mut r: Vec<CopyCheck> = Vec::new();
    r.push(
        CopyCheck {
            file: config_name.to_string(),
            source: evidence.config_script.source,
            destination: evidence.config_script.destination,
        },
    );
    r.push(
        CopyCheck {
            file: run_name.to_string(),
            source: evidence.run_script.source,
            destination: evidence.run_script.destination,
        },
    );
    r.push(
        CopyCheck {
            file: ".runner".to_string(),
            source: evidence.marker.source,
            destination: evidence.marker.destination,
        },
    );
    proof {
        reveal_strlit(".runner");
        assert(checks_view(r@) =~= evidence_checks(evidence@, windows));
    }
    r
}

/// Whether the record of a move is refused as the profile stands: an
/// install that is managed already does not move.
pub open spec fn move_refused(c: ConfigView, plan: MovePlanView) -> bool {
    has_runner(c.runners, plan.runner_id) && c.runners[index_of_runner(
        c.runners,
        plan.runner_id,
    )].install.mode == InstallMode::Managed
}

/// What recording a move gives. The move of an install that is managed
/// already is refused. A copy that does not pass its checks is not recorded.
/// Else the profile is looked up: if it is gone, the move fails; if it is
/// there, it is recorded as moved, and its service is to be installed anew
/// if it is the application's own.
pub open spec fn move_recorded(c: ConfigView, plan: MovePlanView, checks: Seq<CopyCheckView>) -> Result<
    (ConfigView, ProfileView, bool),
    ErrorView,
> {
    if move_refused(c, plan) {
        Err(already_managed())
    } else {
        match copy_verdict(checks) {
            Err(e) => Err(e),
            Ok(()) => if has_runner(c.runners, plan.runner_id) {
                let i = index_of_runner(c.runners, plan.runner_id);
                let moved = moved_profile(c.runners[i], plan);
                Ok(
                    (
                        sanitized(ConfigView { runners: c.runners.update(i, moved), ..c }),
                        moved,
                        moved.service.provider == ServiceProvider::Runnerbuddy,
                    ),
                )
            } else {
                Err(not_found(plan.runner_id))
            },
        }
    }
}

/// Records a move after the copy: refuses an install that is managed
/// already, judges the copy by what was seen of the critical files of the
/// platform, then updates the profile. A move that is refused, and a copy
/// that does not pass, change nothing.
pub fn move_install(store: &mut ConfigStore, plan: &MovePlan, windows: bool, evidence: CopyEvidence) -> (r:
    Result<MoveOutcome, Error>)
    ensures
        match move_recorded(old(store)@.config, plan@, evidence_checks(evidence@, windows)) {
            Ok((config, profile, install_service)) => {
                &&& r matches Ok(outcome)
                &&& outcome.profile@ == profile
                &&& outcome.install_service == install_service
                &&& final(store)@ == (StoreView { config, needs_save: true })
                &&& selection_valid(config)
            },
            Err(e) => {
                &&& r matches Err(err)
                &&& err@ == e
                &&& if move_refused(old(store)@.config, plan@) || copy_verdict(
                    evidence_checks(evidence@, windows),
                ) is Err {
                    *final(store) == *old(store)
                } else {
                    final(store)@ == (StoreView {
                        config: sanitized(old(store)@.config),
                        needs_save: true,
                    })
                }
            },
        },
{
    let ghost before = store@.config;
    proof {
        crate::store::lemma_index_of_runner(before.runners, plan@.runner_id);
        crate::store::lemma_sanitized_is_valid(before);
    }
    let i = crate::store::position_of_runner(&store.config.runners, plan.runner_id.as_str());
    if i < store.config.runners.len() && store.config.runners[i].install.mode == InstallMode::Managed {
        return Err(Error::Runner("runner already managed".to_string()));
    }
    let checks = checks_of(evidence, windows);
    match verify_copy(&checks) {
        Err(e) => {
            return Err(e);
        },
        Ok(()) => {},
    }
    if i >= store.config.runners.len() {
        crate::store::sanitize_selected_runner_id(&mut store.config);
        store.needs_save = true;
        return Err(
            Error::Runner(crate::text::concat3("runner ", plan.runner_id.as_str(), " not found")),
        );
    }
    let ghost prior = store.config.runners@;
    assert(before.runners[i as int] == prior[i as int]@);
    store.config.runners[i].install = InstallConfig {
        mode: InstallMode::Managed,
        install_path: plan.destination.clone(),
        adopted_from_path: Some(plan.source.clone()),
        migration_status: MigrationStatus::Moved,
    };
    assert(store.config.runners@.len() == prior.len());
    assert(forall|k: int| 0 <= k < prior.len() && k != i ==> store.config.runners@[k] == prior[k]);
    let ghost moved = moved_profile(before.runners[i as int], plan@);
    assert(store.config.runners@[i as int]@ == moved);
    let ghost mid = ConfigView { runners: before.runners.update(i as int, moved), ..before };
    assert(store.config@.runners =~= mid.runners);
    let profile = store.config.runners[i].clone();
    crate::store::sanitize_selected_runner_id(&mut store.config);
    proof {
        crate::store::lemma_sanitized_is_valid(mid);
    }
    store.needs_save = true;
    let install_service = profile.service.provider == ServiceProvider::Runnerbuddy;
    Ok(MoveOutcome { profile, install_service })
}

/// An install that is managed already is never recorded as moved, whatever
/// was seen of the copy.
pub proof fn lemma_managed_install_does_not_move(
    c: ConfigView,
    plan: MovePlanView,
    checks: Seq<CopyCheckView>,
)
    requires
        has_runner(c.runners, plan.runner_id),
        c.runners[index_of_runner(c.runners, plan.runner_id)].install.mode == InstallMode::Managed,
    ensures
        move_recorded(c, plan, checks) == Err::<(ConfigView, ProfileView, bool), ErrorView>(
            already_managed(),
        ),
{
}

// ---------------------------------------------------------------------------
// Recognizing an install
// ---------------------------------------------------------------------------

/// What was seen in a directory that may hold a runner.
#[derive(Debug, Clone, Copy, PartialEq, Eq, Structural)]
pub struct InstallProbe {
    /// Whether the directory exists.
    pub exists: bool,
    /// Whether the platform's configure script is there.
    pub has_config_script: bool,
    /// Whether the platform's run script is there.
    pub has_run_script: bool,
    /// Whether the registration marker file `.runner` is there.
    pub has_marker: bool,
    /// Whether the diagnostics directory `_diag` is there.
    pub has_diag: bool,
}

/// Whether what was seen looks like a runner install: both scripts are
/// there, or the registration marker, or the diagnostics directory.
pub open spec fn looks_like_install(probe: InstallProbe) -> bool {
    (probe.has_config_script && probe.has_run_script) || probe.has_marker || probe.has_diag
}

/// Whether what was seen in a directory looks like a runner install.
pub fn looks_like_runner_install(probe: &InstallProbe) -> (r: bool)
    ensures
        r == looks_like_install(*probe),
{
    let has_scripts = probe.has_config_script && probe.has_run_script;
    let has_markers = probe.has_marker || probe.has_diag;
    has_scripts || has_markers
}

/// The names of the configure and the run script of a platform.
pub fn install_script_names(windows: bool) -> (r: (&'static str, &'static str))
    ensures
        r.0@ == critical_files(windows)[0],
        r.1@ == critical_files(windows)[1],
{
    if windows {
        ("config.cmd", "run.cmd")
    } else {
        ("config.sh", "run.sh")
    }
}

/// The work directory that a marker file names: as it stands where it is
/// absolute, else within the install directory.
pub open spec fn resolved_work_dir(install_path: Seq<char>, work_folder: Seq<char>) -> Seq<char> {
    if crate::host::path_is_absolute(work_folder) {
        work_folder
    } else {
        crate::host::path_join(install_path, work_folder)
    }
}

/// The work directory that a marker file names.
pub fn resolve_work_dir(install_path: &str, work_folder: &str) -> (r: String)
    ensures
        r@ == resolved_work_dir(install_path@, work_folder@),
{
    if crate::host::is_absolute_path(work_folder) {
        return work_folder.to_string();
    }
    crate::host::join_path(install_path, work_folder)
}

// ---------------------------------------------------------------------------
// Reading service definitions
// ---------------------------------------------------------------------------

/// Whether a line of a unit sets `ExecStart` to something that names the
/// run script: the text before the first `=`, trimmed, is the key, and the
/// text after it the value.
pub open spec fn line_starts_script(line: Seq<char>, run_script: Seq<char>) -> bool {
    let i = crate::text::index_of(line, '=');
    &&& i < line.len()
    &&& crate::text::trim(line.take(i)) == "ExecStart"@
    &&& crate::text::contains(line.skip(i + 1), run_script)
}

/// Whether a unit starts the run script.
pub open spec fn unit_starts_script(contents: Seq<char>, run_script: Seq<char>) -> bool {
    exists|k: int|
        0 <= k < crate::text::lines(contents).len() && line_starts_script(
            #[trigger] crate::text::lines(contents)[k],
            run_script,
        )
}

fn starts_script(line: &Vec<char>, run_script: &Vec<char>) -> (r: bool)
    ensures
        r == line_starts_script(line@, run_script@),
{
    let i = position_of(line, '=', 0);
    assert(line@.skip(0) == line@);
    if i >= line.len() {
        return false;
    }
    let key = slice_of(line, 0, i);
    assert(line@.subrange(0, i as int) == line@.take(i as int));
    let key = crate::text::strip(&key, CharClass::Whitespace);
    if !is_text(&key, "ExecStart") {
        return false;
    }
    let value = slice_of(line, i + 1, line.len());
    assert(line@.subrange(i + 1, line.len() as int) == line@.skip(i + 1));
    crate::text::has(&value, run_script)
}

/// Whether the systemd unit with the given contents starts the run script.
pub fn unit_references_run_script(contents: &str, run_script: &str) -> (r: bool)
    ensures
        r == unit_starts_script(contents@, run_script@),
{
    let chars = chars_of(contents);
    let script = chars_of(run_script);
    let all = crate::text::lines_of(&chars);
    let ghost ls = crate::text::lines(contents@);
    let mut k: usize = 0;
    while k < all.len()
        invariant
            k <= all.len(),
            crate::text::texts(all@) == ls,
            ls == crate::text::lines(contents@),
            script@ == run_script@,
            forall|j: int| 0 <= j < k ==> !line_starts_script(#[trigger] ls[j], run_script@),
        decreases all.len() - k,
    {
        assert(ls[k as int] == all@[k as int]@);
        if starts_script(&all[k], &script) {
            assert(line_starts_script(ls[k as int], run_script@));
            return true;
        }
        k += 1;
    }
    false
}

/// The words that introduce the name of a service in the output of the wrapper script.
pub open spec fn service_name_prefixes() -> Seq<Seq<char>> {
    seq!["service_name:"@, "service name:"@, "service:"@, "name:"@]
}

/// Whether a text begins with one of the prefixes.
pub open spec fn starts_with_any(s: Seq<char>, prefixes: Seq<Seq<char>>) -> bool {
    exists|p: int| 0 <= p < prefixes.len() && crate::text::starts_with(s, #[trigger] prefixes[p])
}

/// What follows the first colon of a line, without surrounding white
/// space and without surrounding double quotes.
pub open spec fn value_after_colon(trimmed: Seq<char>) -> Seq<char> {
    let i = crate::text::index_of(trimmed, ':');
    let rest = if i < trimmed.len() {
        trimmed.skip(i + 1)
    } else {
        seq![]
    };
    crate::text::trim_by(crate::text::trim(rest), CharClass::Only('"'))
}

/// The service name that a line of output gives: the line, trimmed, must
/// begin with one of the introducing words in any case of letters, and
/// what follows the colon must not be empty.
pub open spec fn service_name_in(line: Seq<char>) -> Option<Seq<char>> {
    let trimmed = crate::text::trim(line);
    if starts_with_any(crate::text::to_ascii_lowercase(trimmed), service_name_prefixes())
        && value_after_colon(trimmed).len() > 0 {
        Some(value_after_colon(trimmed))
    } else {
        None
    }
}

/// The service name that the first line gives that gives one.
pub open spec fn first_service_name(ls: Seq<Seq<char>>) -> Option<Seq<char>>
    decreases ls.len(),
{
    if ls.len() == 0 {
        None
    } else if service_name_in(ls[0]) is Some {
        service_name_in(ls[0])
    } else {
        first_service_name(ls.skip(1))
    }
}

fn name_in_line(line: &Vec<char>) -> (r: Option<String>)
    ensures
        opt_text(r) == service_name_in(line@),
{
    let trimmed = crate::text::strip(line, CharClass::Whitespace);
    let lower = crate::text::ascii_lowercase(&trimmed);
    let mut prefixes: Vec<&'static str> = Vec::new();
    prefixes.push("service_name:");
    prefixes.push("service name:");
    prefixes.push("service:");
    prefixes.push("name:");
    let ghost names = service_name_prefixes();
    assert(prefixes@.len() == 4 && names.len() == 4);
    assert(forall|k: int| 0 <= k < 4 ==> prefixes@[k]@ == names[k]);
    let mut matched = false;
    let mut p: usize = 0;
    while p < prefixes.len()
        invariant
            p <= prefixes.len(),
            prefixes@.len() == names.len(),
            forall|k: int| 0 <= k < prefixes@.len() ==> prefixes@[k]@ == names[k],
            matched == (exists|j: int|
                0 <= j < p && crate::text::starts_with(lower@, #[trigger] names[j])),
        decreases prefixes.len() - p,
    {
        let prefix = chars_of(prefixes[p]);
        if crate::text::begins_with(&lower, &prefix) {
            matched = true;
            assert(crate::text::starts_with(lower@, names[p as int]));
        }
        p += 1;
    }
    assert(matched == starts_with_any(lower@, names));
    if !matched {
        return None;
    }
    let i = position_of(&trimmed, ':', 0);
    assert(trimmed@.skip(0) == trimmed@);
    let rest = if i < trimmed.len() {
        let r = slice_of(&trimmed, i + 1, trimmed.len());
        assert(trimmed@.subrange(i + 1, trimmed.len() as int) == trimmed@.skip(i + 1));
        r
    } else {
        Vec::new()
    };
    let value = crate::text::strip(&rest, CharClass::Whitespace);
    let value = crate::text::strip(&value, CharClass::Only('"'));
    if value.len() > 0 {
        Some(string_of(&value))
    } else {
        None
    }
}

/// The name of the service that the output of the wrapper script reports.
pub fn parse_windows_service_name(output: &str) -> (r: Option<String>)
    ensures
        opt_text(r) == first_service_name(crate::text::lines(output@)),
{
    let chars = chars_of(output);
    let all = crate::text::lines_of(&chars);
    let ghost ls = crate::text::lines(output@);
    let mut k: usize = 0;
    assert(ls.skip(0) == ls);
    while k < all.len()
        invariant
            k <= all.len(),
            crate::text::texts(all@) == ls,
            ls == crate::text::lines(output@),
            first_service_name(ls) == first_service_name(ls.skip(k as int)),
        decreases all.len() - k,
    {
        assert(ls.skip(k as int)[0] == all@[k as int]@);
        assert(ls.skip(k as int).skip(1) == ls.skip(k + 1));
        if let Some(name) = name_in_line(&all[k]) {
            return Some(name);
        }
        k += 1;
    }
    None
}

// ---------------------------------------------------------------------------
// The registration marker file
// ---------------------------------------------------------------------------

/// What the registration marker file of an install says.
#[derive(Debug)]
pub struct RunnerMetadata {
    pub runner_name: Option<String>,
    pub labels: Vec<String>,
    pub scope: Option<RunnerScope>,
    pub work_dir: Option<String>,
}

/// The view of [`RunnerMetadata`].
pub struct MetadataView {
    pub runner_name: Option<Seq<char>>,
    pub labels: Seq<Seq<char>>,
    pub scope: Option<ScopeView>,
    pub work_dir: Option<Seq<char>>,
}

impl View for RunnerMetadata {
    type V = MetadataView;

    open spec fn view(&self) -> MetadataView {
        MetadataView {
            runner_name: opt_text(self.runner_name),
            labels: crate::text::strings(self.labels@),
            scope: opt_scope(self.scope),
            work_dir: opt_text(self.work_dir),
        }
    }
}

/// What an install without a marker file says: nothing.
pub open spec fn no_metadata() -> MetadataView {
    MetadataView { runner_name: None, labels: seq![], scope: None, work_dir: None }
}

/// The text of the first of the keys under which the value has a string member.
pub open spec fn first_text(value: JsonView, keys: Seq<Seq<char>>) -> Option<Seq<char>>
    decreases keys.len(),
{
    if keys.len() == 0 {
        None
    } else if value.member_text(keys[0]) is Some {
        value.member_text(keys[0])
    } else {
        first_text(value, keys.skip(1))
    }
}

/// The label that an item of the label list gives: the item itself where
/// it is a string, else its `name` member where that is a string.
pub open spec fn label_in(item: JsonView) -> Option<Seq<char>> {
    match item.text() {
        Some(t) => Some(t),
        None => item.member_text("name"@),
    }
}

/// The labels that the items of a label list give, in order.
pub open spec fn labels_in(items: Seq<JsonView>) -> Seq<Seq<char>>
    decreases items.len(),
{
    if items.len() == 0 {
        seq![]
    } else {
        match label_in(items.last()) {
            Some(l) => labels_in(items.drop_last()).push(l),
            None => labels_in(items.drop_last()),
        }
    }
}

/// The keys under which a marker file may hold the runner's name.
pub open spec fn name_keys() -> Seq<Seq<char>> {
    seq!["name"@, "agentName"@, "runnerName"@]
}

/// The keys under which a marker file may hold the registration URL.
pub open spec fn url_keys() -> Seq<Seq<char>> {
    seq!["serverUrl"@, "gitHubUrl"@, "githubUrl"@, "url"@]
}

/// The keys under which a marker file may hold the work directory.
pub open spec fn work_dir_keys() -> Seq<Seq<char>> {
    seq!["workFolder"@, "workDir"@, "workDirectory"@]
}

/// What a parsed marker file says.
pub open spec fn metadata_of(value: JsonView, install_path: Seq<char>) -> MetadataView {
    MetadataView {
        runner_name: first_text(value, name_keys()),
        labels: match value.member("labels"@) {
            Some(list) => match list.items() {
                Some(items) => labels_in(items),
                None => seq![],
            },
            None => seq![],
        },
        scope: match first_text(value, url_keys()) {
            Some(url) => scope_of_url(url),
            None => None,
        },
        work_dir: match first_text(value, work_dir_keys()) {
            Some(w) => Some(resolved_work_dir(install_path, w)),
            None => None,
        },
    }
}

/// What the marker file of an install says. A file that is not valid JSON
/// says nothing.
pub open spec fn parsed_metadata(install_path: Seq<char>, data: Seq<char>) -> MetadataView {
    match crate::json::json_parsed(data) {
        Some(value) => metadata_of(value, install_path),
        None => no_metadata(),
    }
}

fn first_text_of(value: &serde_json::Value, keys: &Vec<&str>) -> (r: Option<String>)
    ensures
        opt_text(r) == first_text(crate::json::json_view(*value), crate::runner_mgmt::slices(keys@)),
{
    let ghost names = crate::runner_mgmt::slices(keys@);
    let ghost doc = crate::json::json_view(*value);
    let mut k: usize = 0;
    assert(names.skip(0) == names);
    while k < keys.len()
        invariant
            k <= keys.len(),
            names == crate::runner_mgmt::slices(keys@),
            doc == crate::json::json_view(*value),
            first_text(doc, names) == first_text(doc, names.skip(k as int)),
        decreases keys.len() - k,
    {
        assert(names.skip(k as int)[0] == keys@[k as int]@);
        assert(names.skip(k as int).skip(1) == names.skip(k + 1));
        if let Some(t) = crate::json::text_at(value, keys[k]) {
            return Some(t);
        }
        k += 1;
    }
    None
}

fn labels_of(items: &Vec<serde_json::Value>) -> (r: Vec<String>)
    ensures
        crate::text::strings(r@) == labels_in(crate::json::json_views(items@)),
{
    let ghost all = crate::json::json_views(items@);
    let mut out: Vec<String> = Vec::new();
    let mut i: usize = 0;
    assert(crate::text::strings(out@) =~= labels_in(all.take(0)));
    while i < items.len()
        invariant
            i <= items.len(),
            all == crate::json::json_views(items@),
            crate::text::strings(out@) == labels_in(all.take(i as int)),
        decreases items.len() - i,
    {
        assert(all.take(i + 1).drop_last() == all.take(i as int));
        assert(all.take(i + 1).last() == crate::json::json_view(items@[i as int]));
        let ghost before = crate::text::strings(out@);
        let label = match crate::json::text_of(&items[i]) {
            Some(t) => Some(t),
            None => crate::json::text_at(&items[i], "name"),
        };
        if let Some(l) = label {
            out.push(l);
            assert(crate::text::strings(out@) =~= before.push(l@));
        }
        i += 1;
    }
    assert(all.take(items.len() as int) == all);
    out
}

impl RunnerMetadata {
    /// What an install without a marker file says.
    pub fn empty() -> (r: RunnerMetadata)
        ensures
            r@ == no_metadata(),
    {
        let r = RunnerMetadata { runner_name: None, labels: Vec::new(), scope: None, work_dir: None };
        assert(crate::text::strings(r.labels@) =~= Seq::<Seq<char>>::empty());
        r
    }
}

/// What the marker file of the install at `install_path` says; `data` is
/// the text of the file.
pub fn parse_runner_metadata(install_path: &str, data: &str) -> (r: RunnerMetadata)
    ensures
        r@ == parsed_metadata(install_path@, data@),
{
    let value = match crate::json::parse(data) {
        Ok(v) => v,
        Err(_) => {
            return RunnerMetadata::empty();
        },
    };
    let mut name_keys: Vec<&'static str> = Vec::new();
    name_keys.push("name");
    name_keys.push("agentName");
    name_keys.push("runnerName");
    assert(crate::runner_mgmt::slices(name_keys@) =~= self::name_keys());
    let mut url_keys: Vec<&'static str> = Vec::new();
    url_keys.push("serverUrl");
    url_keys.push("gitHubUrl");
    url_keys.push("githubUrl");
    url_keys.push("url");
    assert(crate::runner_mgmt::slices(url_keys@) =~= self::url_keys());
    let mut work_keys: Vec<&'static str> = Vec::new();
    work_keys.push("workFolder");
    work_keys.push("workDir");
    work_keys.push("workDirectory");
    assert(crate::runner_mgmt::slices(work_keys@) =~= work_dir_keys());
    let runner_name = first_text_of(&value, &name_keys);
    let labels = match crate::json::member(&value, "labels") {
        Some(list) => match crate::json::items_of(list) {
            Some(items) => labels_of(items),
            None => Vec::new(),
        },
        None => Vec::new(),
    };
    assert(crate::text::strings(labels@) =~= metadata_of(
        crate::json::json_view(value),
        install_path@,
    ).labels);
    let scope = match first_text_of(&value, &url_keys) {
        Some(url) => scope_from_url(url.as_str()),
        None => None,
    };
    let work_dir = match first_text_of(&value, &work_keys) {
        Some(w) => Some(resolve_work_dir(install_path, w.as_str())),
        None => None,
    };
    RunnerMetadata { runner_name, labels, scope, work_dir }
}

// ---------------------------------------------------------------------------
// Recovering a lost scope
// ---------------------------------------------------------------------------

/// The pattern of an address in running text.
pub open spec fn url_pattern() -> Seq<char> {
    "https?://[^\\s\"']+"@
}

/// Whether an address points at a host that serves assets, not registrations.
pub open spec fn is_asset_url(url: Seq<char>) -> bool {
    crate::text::contains(url, "githubusercontent.com"@) || crate::text::contains(
        url,
        "actions.githubusercontent.com"@,
    )
}

/// The scope of the first of the addresses that is no asset address and names a scope.
pub open spec fn first_scope(urls: Seq<Seq<char>>) -> Option<ScopeView>
    decreases urls.len(),
{
    if urls.len() == 0 {
        None
    } else if !is_asset_url(urls[0]) && scope_of_url(urls[0]) is Some {
        scope_of_url(urls[0])
    } else {
        first_scope(urls.skip(1))
    }
}

/// The scope that running text reveals: that of the first address in it
/// that is no asset address and names a scope.
pub open spec fn scope_in_text(text: Seq<char>) -> Option<ScopeView> {
    if crate::logging::regex_valid(url_pattern()) {
        first_scope(crate::logging::regex_matches(url_pattern(), text))
    } else {
        None
    }
}

/// The scope that running text reveals.
#[verifier::loop_isolation(false)]
pub fn scope_from_text(text: &str) -> (r: Option<RunnerScope>)
    ensures
        opt_scope(r) == scope_in_text(text@),
{
    let re = match crate::logging::compile("https?://[^\\s\"']+") {
        Some(re) => re,
        None => {
            return None;
        },
    };
    let urls = crate::logging::find_all(&re, text);
    let ghost all = crate::text::strings(urls@);
    let mut k: usize = 0;
    assert(all.skip(0) == all);
    while k < urls.len()
        invariant
            k <= urls.len(),
            all == crate::text::strings(urls@),
            first_scope(all) == first_scope(all.skip(k as int)),
        decreases urls.len() - k,
    {
        assert(all.skip(k as int)[0] == urls@[k as int]@);
        assert(all.skip(k as int).skip(1) == all.skip(k + 1));
        let url = urls[k].as_str();
        let asset = crate::text::str_contains(url, "githubusercontent.com")
            || crate::text::str_contains(url, "actions.githubusercontent.com");
        if !asset {
            if let Some(scope) = scope_from_url(url) {
                return Some(scope);
            }
        }
        k += 1;
    }
    None
}

/// The names of the files of an install that may reveal its scope, in the
/// order in which they are read.
pub open spec fn metadata_file_names() -> Seq<Seq<char>> {
    seq![".runner"@, ".credentials"@, ".credentials_rsaparams"@, ".env"@, ".envs"@]
}

/// The files of an install that may reveal its scope, in the order in
/// which they are read. Those that do not exist are passed over by the reader.
pub fn candidate_metadata_files(install_path: &str) -> (r: Vec<String>)
    ensures
        crate::text::strings(r@) == Seq::new(
            metadata_file_names().len(),
            |i: int| crate::host::path_join(install_path@, metadata_file_names()[i]),
        ),
{
    let mut r: Vec<String> = Vec::new();
    r.push(crate::host::join_path(install_path, ".runner"));
    r.push(crate::host::join_path(install_path, ".credentials"));
    r.push(crate::host::join_path(install_path, ".credentials_rsaparams"));
    r.push(crate::host::join_path(install_path, ".env"));
    r.push(crate::host::join_path(install_path, ".envs"));
    assert(crate::text::strings(r@) =~= Seq::new(
        metadata_file_names().len(),
        |i: int| crate::host::path_join(install_path@, metadata_file_names()[i]),
    ));
    r
}

/// How deep below an install marker files are looked for.
pub const MARKER_SEARCH_DEPTH: usize = 4;

/// Whether a directory at the given depth below an install is still searched.
pub fn within_search_depth(depth: usize) -> (r: bool)
    ensures
        r == (depth <= MARKER_SEARCH_DEPTH),
{
    depth <= MARKER_SEARCH_DEPTH
}

/// What was read of an install to recover its scope.
#[derive(Debug)]
pub struct ScopeEvidence {
    /// The install directory itself.
    pub install_path: String,
    /// The texts of the marker files: that of the install first, then
    /// those found in nested directories, nearest first.
    pub markers: Vec<String>,
    /// The ends of the metadata and credential files that exist, in the
    /// order of [`candidate_metadata_files`], then the end of the latest
    /// diagnostics log if there is one.
    pub texts: Vec<String>,
}

/// The scope of the first marker file that names one.
pub open spec fn first_marker_scope(install_path: Seq<char>, markers: Seq<Seq<char>>) -> Option<
    ScopeView,
>
    decreases markers.len(),
{
    if markers.len() == 0 {
        None
    } else if parsed_metadata(install_path, markers[0]).scope is Some {
        parsed_metadata(install_path, markers[0]).scope
    } else {
        first_marker_scope(install_path, markers.skip(1))
    }
}

/// The scope of the first text that reveals one.
pub open spec fn first_text_scope(all: Seq<Seq<char>>) -> Option<ScopeView>
    decreases all.len(),
{
    if all.len() == 0 {
        None
    } else if scope_in_text(all[0]) is Some {
        scope_in_text(all[0])
    } else {
        first_text_scope(all.skip(1))
    }
}

/// The scope that the evidence gives: that of the first marker file that
/// names one; failing that, that of the first text that reveals one.
pub open spec fn inferred_scope(install_path: Seq<char>, markers: Seq<Seq<char>>, all: Seq<Seq<char>>) -> Option<
    ScopeView,
> {
    if first_marker_scope(install_path, markers) is Some {
        first_marker_scope(install_path, markers)
    } else {
        first_text_scope(all)
    }
}

/// Recovers the scope of an install from what was read of it.
#[verifier::loop_isolation(false)]
pub fn infer_scope_from_install(evidence: &ScopeEvidence) -> (r: Option<RunnerScope>)
    ensures
        opt_scope(r) == inferred_scope(
            evidence.install_path@,
            crate::text::strings(evidence.markers@),
            crate::text::strings(evidence.texts@),
        ),
{
    let ghost ms = crate::text::strings(evidence.markers@);
    let ghost path = evidence.install_path@;
    let mut k: usize = 0;
    assert(ms.skip(0) == ms);
    while k < evidence.markers.len()
        invariant
            k <= evidence.markers.len(),
            ms == crate::text::strings(evidence.markers@),
            path == evidence.install_path@,
            first_marker_scope(path, ms) == first_marker_scope(path, ms.skip(k as int)),
        decreases evidence.markers.len() - k,
    {
        assert(ms.skip(k as int)[0] == evidence.markers@[k as int]@);
        assert(ms.skip(k as int).skip(1) == ms.skip(k + 1));
        let metadata = parse_runner_metadata(
            evidence.install_path.as_str(),
            evidence.markers[k].as_str(),
        );
        if metadata.scope.is_some() {
            return metadata.scope;
        }
        k += 1;
    }
    let ghost ts = crate::text::strings(evidence.texts@);
    let mut j: usize = 0;
    assert(ts.skip(0) == ts);
    while j < evidence.texts.len()
        invariant
            j <= evidence.texts.len(),
            ts == crate::text::strings(evidence.texts@),
            first_text_scope(ts) == first_text_scope(ts.skip(j as int)),
        decreases evidence.texts.len() - j,
    {
        assert(ts.skip(j as int)[0] == evidence.texts@[j as int]@);
        assert(ts.skip(j as int).skip(1) == ts.skip(j + 1));
        if let Some(scope) = scope_from_text(evidence.texts[j].as_str()) {
            return Some(scope);
        }
        j += 1;
    }
    None
}

// ---------------------------------------------------------------------------
// Detecting the service bound to an install
// ---------------------------------------------------------------------------

/// The extension of a path, as `std::path::Path::extension` gives it.
pub uninterp spec fn path_extension(path: Seq<char>) -> Option<Seq<char>>;

/// `Path::extension`: the part of the file name after its last dot, where
/// there is one and it is valid Unicode.
#[verifier::external_body]
pub(crate) fn extension_of(path: &str) -> (r: Option<String>)
    ensures
        opt_text(r) == path_extension(path@),
{
    std::path::Path::new(path).extension().and_then(|ext| ext.to_str()).map(|ext| ext.to_string())
}

/// A systemd unit file and its text.
#[derive(Debug)]
pub struct UnitFile {
    pub path: String,
    pub contents: String,
}

/// A launch agent definition and its bytes.
#[derive(Debug)]
pub struct AgentFile {
    pub path: String,
    pub bytes: Vec<u8>,
}

/// What was gathered to tell whether a service is bound to an install.
#[derive(Debug)]
pub enum ServiceEvidence {
    /// The files in the user's systemd directory, in the order they were listed.
    Units(Vec<UnitFile>),
    /// The files in the user's launch agent directory, in the order they were listed.
    Agents(Vec<AgentFile>),
    /// The output of the wrapper script's status command, if it ran and succeeded.
    Report(Option<String>),
    /// The platform has no service manager that is looked into.
    Nothing,
}

/// The view of an optional external service identity.
pub open spec fn opt_info(o: Option<ExternalServiceInfo>) -> Option<ExternalServiceView> {
    crate::config::opt_external(o)
}

/// The service that a unit file means for a run script: the file must
/// have the extension `service` and start the script; the service is
/// known by the name of the file.
pub open spec fn unit_service(path: Seq<char>, contents: Seq<char>, run_script: Seq<char>) -> Option<
    ExternalServiceView,
> {
    if path_extension(path) == Some("service"@) && unit_starts_script(contents, run_script) {
        Some(
            ExternalServiceView {
                id: crate::service_mgmt::path_file_name(path),
                path: Some(path),
            },
        )
    } else {
        None
    }
}

/// The service that a launch agent definition means for a run script: the
/// file must have the extension `plist` and run the script; the service is
/// known by its label.
pub open spec fn agent_service(path: Seq<char>, bytes: Seq<u8>, run_script: Seq<char>) -> Option<
    ExternalServiceView,
> {
    if path_extension(path) == Some("plist"@) && crate::plist_file::label_for_script(
        bytes,
        run_script,
    ) is Some {
        Some(
            ExternalServiceView {
                id: crate::plist_file::label_for_script(bytes, run_script),
                path: Some(path),
            },
        )
    } else {
        None
    }
}

/// The views of unit files: path and text.
pub open spec fn units_view(v: Seq<UnitFile>) -> Seq<(Seq<char>, Seq<char>)> {
    Seq::new(v.len(), |i: int| (v[i].path@, v[i].contents@))
}

/// The views of agent files: path and bytes.
pub open spec fn agents_view(v: Seq<AgentFile>) -> Seq<(Seq<char>, Seq<u8>)> {
    Seq::new(v.len(), |i: int| (v[i].path@, v[i].bytes@))
}

/// The service of the first unit file that means one.
pub open spec fn first_unit_service(units: Seq<(Seq<char>, Seq<char>)>, run_script: Seq<char>) -> Option<
    ExternalServiceView,
>
    decreases units.len(),
{
    if units.len() == 0 {
        None
    } else if unit_service(units[0].0, units[0].1, run_script) is Some {
        unit_service(units[0].0, units[0].1, run_script)
    } else {
        first_unit_service(units.skip(1), run_script)
    }
}

/// The service of the first agent file that means one.
pub open spec fn first_agent_service(agents: Seq<(Seq<char>, Seq<u8>)>, run_script: Seq<char>) -> Option<
    ExternalServiceView,
>
    decreases agents.len(),
{
    if agents.len() == 0 {
        None
    } else if agent_service(agents[0].0, agents[0].1, run_script) is Some {
        agent_service(agents[0].0, agents[0].1, run_script)
    } else {
        first_agent_service(agents.skip(1), run_script)
    }
}

/// The service that the wrapper script reports: known by the name in its
/// output, or by the script's own name where the output gives none, and
/// defined by the install itself.
pub open spec fn reported_service(install_path: Seq<char>, stdout: Option<Seq<char>>) -> Option<
    ExternalServiceView,
> {
    match stdout {
        None => None,
        Some(out) => Some(
            ExternalServiceView {
                id: Some(
                    match first_service_name(crate::text::lines(out)) {
                        Some(name) => name,
                        None => "svc.cmd"@,
                    },
                ),
                path: Some(install_path),
            },
        ),
    }
}

/// The view of service evidence.
pub enum EvidenceView {
    Units(Seq<(Seq<char>, Seq<char>)>),
    Agents(Seq<(Seq<char>, Seq<u8>)>),
    Report(Option<Seq<char>>),
    Nothing,
}

impl View for ServiceEvidence {
    type V = EvidenceView;

    open spec fn view(&self) -> EvidenceView {
        match self {
            ServiceEvidence::Units(u) => EvidenceView::Units(units_view(u@)),
            ServiceEvidence::Agents(a) => EvidenceView::Agents(agents_view(a@)),
            ServiceEvidence::Report(r) => EvidenceView::Report(opt_text(*r)),
            ServiceEvidence::Nothing => EvidenceView::Nothing,
        }
    }
}

/// The external service that is bound to an install, as far as the evidence shows one.
pub open spec fn detected_service(install_path: Seq<char>, evidence: EvidenceView) -> Option<
    ExternalServiceView,
> {
    let run_script = crate::host::path_join(install_path, "run.sh"@);
    match evidence {
        EvidenceView::Units(units) => first_unit_service(units, run_script),
        EvidenceView::Agents(agents) => first_agent_service(agents, run_script),
        EvidenceView::Report(stdout) => reported_service(install_path, stdout),
        EvidenceView::Nothing => None,
    }
}

#[verifier::loop_isolation(false)]
fn detect_in_units(units: &Vec<UnitFile>, run_script: &str) -> (r: Option<ExternalServiceInfo>)
    ensures
        opt_info(r) == first_unit_service(units_view(units@), run_script@),
{
    let ghost all = units_view(units@);
    let mut k: usize = 0;
    assert(all.skip(0) == all);
    while k < units.len()
        invariant
            k <= units.len(),
            first_unit_service(all, run_script@) == first_unit_service(
                all.skip(k as int),
                run_script@,
            ),
        decreases units.len() - k,
    {
        assert(all.skip(k as int)[0] == (units@[k as int].path@, units@[k as int].contents@));
        assert(all.skip(k as int).skip(1) == all.skip(k + 1));
        let unit = &units[k];
        let is_service = match extension_of(unit.path.as_str()) {
            Some(ext) => crate::text::str_eq(ext.as_str(), "service"),
            None => false,
        };
        if is_service && unit_references_run_script(unit.contents.as_str(), run_script) {
            return Some(
                ExternalServiceInfo {
                    id: crate::service_mgmt::file_name_of(unit.path.as_str()),
                    path: Some(unit.path.clone()),
                },
            );
        }
        k += 1;
    }
    None
}

#[verifier::loop_isolation(false)]
fn detect_in_agents(agents: &Vec<AgentFile>, run_script: &str) -> (r: Option<ExternalServiceInfo>)
    ensures
        opt_info(r) == first_agent_service(agents_view(agents@), run_script@),
{
    let ghost all = agents_view(agents@);
    let mut k: usize = 0;
    assert(all.skip(0) == all);
    while k < agents.len()
        invariant
            k <= agents.len(),
            first_agent_service(all, run_script@) == first_agent_service(
                all.skip(k as int),
                run_script@,
            ),
        decreases agents.len() - k,
    {
        assert(all.skip(k as int)[0] == (agents@[k as int].path@, agents@[k as int].bytes@));
        assert(all.skip(k as int).skip(1) == all.skip(k + 1));
        let agent = &agents[k];
        let is_plist = match extension_of(agent.path.as_str()) {
            Some(ext) => crate::text::str_eq(ext.as_str(), "plist"),
            None => false,
        };
        if is_plist {
            if let Some(label) = crate::plist_file::parse_launchd_label_for_run_script(
                &agent.bytes,
                run_script,
            ) {
                return Some(ExternalServiceInfo { id: Some(label), path: Some(agent.path.clone()) });
            }
        }
        k += 1;
    }
    None
}

/// The external service that is bound to the install at `install_path`, as
/// far as the evidence shows one.
pub fn detect_external_service(install_path: &str, evidence: &ServiceEvidence) -> (r: Option<
    ExternalServiceInfo,
>)
    ensures
        opt_info(r) == detected_service(install_path@, evidence@),
{
    let run_script = crate::host::join_path(install_path, "run.sh");
    match evidence {
        ServiceEvidence::Units(units) => detect_in_units(units, run_script.as_str()),
        ServiceEvidence::Agents(agents) => detect_in_agents(agents, run_script.as_str()),
        ServiceEvidence::Report(report) => match report {
            None => None,
            Some(stdout) => {
                let id = match parse_windows_service_name(stdout.as_str()) {
                    Some(name) => name,
                    None => "svc.cmd".to_string(),
                };
                Some(ExternalServiceInfo { id: Some(id), path: Some(install_path.to_string()) })
            },
        },
        ServiceEvidence::Nothing => None,
    }
}

// ---------------------------------------------------------------------------
// Scanning
// ---------------------------------------------------------------------------

/// Whether a directory name begins like that of a runner install.
pub open spec fn is_runner_name(name: Seq<char>) -> bool {
    crate::text::starts_with(name, "actions-runner"@) || crate::text::starts_with(name, "runner"@)
}

/// Whether a directory with the given name is looked into by a scan.
pub fn has_runner_prefix(name: &str) -> (r: bool)
    ensures
        r == is_runner_name(name@),
{
    let chars = chars_of(name);
    crate::text::begins_with(&chars, &chars_of("actions-runner")) || crate::text::begins_with(
        &chars,
        &chars_of("runner"),
    )
}

/// Whether one of the paths is the same path as the given one.
pub open spec fn holds_path(paths: Seq<Seq<char>>, path: Seq<char>) -> bool {
    exists|i: int| 0 <= i < paths.len() && crate::host::path_same(#[trigger] paths[i], path)
}

/// The paths without repetitions: a path counts only where it differs, as
/// a path, from all that were kept before it.
pub open spec fn unique_paths(paths: Seq<Seq<char>>) -> Seq<Seq<char>>
    decreases paths.len(),
{
    if paths.len() == 0 {
        seq![]
    } else if holds_path(unique_paths(paths.drop_last()), paths.last()) {
        unique_paths(paths.drop_last())
    } else {
        unique_paths(paths.drop_last()).push(paths.last())
    }
}

fn holds(paths: &Vec<String>, path: &str) -> (r: bool)
    ensures
        r == holds_path(crate::text::strings(paths@), path@),
{
    let mut i: usize = 0;
    while i < paths.len()
        invariant
            i <= paths.len(),
            forall|k: int|
                0 <= k < i ==> !crate::host::path_same(
                    #[trigger] crate::text::strings(paths@)[k],
                    path@,
                ),
        decreases paths.len() - i,
    {
        assert(crate::text::strings(paths@)[i as int] == paths@[i as int]@);
        if crate::host::same_path(paths[i].as_str(), path) {
            return true;
        }
        i += 1;
    }
    false
}

/// The directories to look into, each once, in the order in which they were found.
pub fn scan_targets(paths: &Vec<String>) -> (r: Vec<String>)
    ensures
        crate::text::strings(r@) == unique_paths(crate::text::strings(paths@)),
{
    let ghost all = crate::text::strings(paths@);
    let mut kept: Vec<String> = Vec::new();
    let mut i: usize = 0;
    assert(crate::text::strings(kept@) =~= unique_paths(all.take(0)));
    while i < paths.len()
        invariant
            i <= paths.len(),
            all == crate::text::strings(paths@),
            crate::text::strings(kept@) == unique_paths(all.take(i as int)),
        decreases paths.len() - i,
    {
        assert(all.take(i + 1).drop_last() == all.take(i as int));
        assert(all.take(i + 1).last() == paths@[i as int]@);
        let ghost before = crate::text::strings(kept@);
        if !holds(&kept, paths[i].as_str()) {
            kept.push(paths[i].clone());
            assert(crate::text::strings(kept@) =~= before.push(paths@[i as int]@));
        }
        i += 1;
    }
    assert(all.take(paths.len() as int) == all);
    kept
}

/// Whether a profile refers to the given directory as its install.
pub open spec fn is_tracked(runners: Seq<ProfileView>, path: Seq<char>) -> bool {
    exists|i: int|
        0 <= i < runners.len() && crate::host::path_same(
            (#[trigger] runners[i]).install.install_path,
            path,
        )
}

/// Whether a profile of the configuration refers to the given directory.
pub fn tracks(config: &Config, path: &str) -> (r: bool)
    ensures
        r == is_tracked(config@.runners, path@),
{
    let mut i: usize = 0;
    while i < config.runners.len()
        invariant
            i <= config.runners.len(),
            forall|k: int|
                0 <= k < i ==> !crate::host::path_same(
                    (#[trigger] config@.runners[k]).install.install_path,
                    path@,
                ),
        decreases config.runners.len() - i,
    {
        assert(config@.runners[i as int] == config.runners@[i as int]@);
        if crate::host::same_path(config.runners[i].install.install_path.as_str(), path) {
            return true;
        }
        i += 1;
    }
    false
}

/// What a scan gathered of one directory.
#[derive(Debug)]
pub struct ScannedInstall {
    pub path: String,
    pub probe: InstallProbe,
    /// The text of the registration marker file, if the file exists.
    pub marker: Option<String>,
    /// The external service bound to the install, if one was detected.
    pub service: Option<ExternalServiceInfo>,
    /// When the latest diagnostics log was last written, if there is one.
    pub last_log_time: Option<String>,
}

/// The view of a [`ScannedInstall`].
pub struct ScannedView {
    pub path: Seq<char>,
    pub probe: InstallProbe,
    pub marker: Option<Seq<char>>,
    pub service: Option<ExternalServiceView>,
    pub last_log_time: Option<Seq<char>>,
}

impl View for ScannedInstall {
    type V = ScannedView;

    open spec fn view(&self) -> ScannedView {
        ScannedView {
            path: self.path@,
            probe: self.probe,
            marker: opt_text(self.marker),
            service: opt_info(self.service),
            last_log_time: opt_text(self.last_log_time),
        }
    }
}

/// Whether a scanned directory becomes a candidate: it must look like a
/// runner install and no profile may refer to it.
pub open spec fn is_candidate(c: ConfigView, install: ScannedView) -> bool {
    looks_like_install(install.probe) && !is_tracked(c.runners, install.path)
}

/// The candidate that a scanned directory becomes, under the given identity.
pub open spec fn candidate_of(install: ScannedView, id: Seq<char>) -> CandidateView {
    let metadata = match install.marker {
        Some(data) => parsed_metadata(install.path, data),
        None => no_metadata(),
    };
    CandidateView {
        candidate_id: id,
        install_path: install.path,
        runner_name: metadata.runner_name,
        labels: metadata.labels,
        scope: metadata.scope,
        work_dir: metadata.work_dir,
        service_present: install.service is Some,
        service_id: match install.service {
            Some(s) => s.id,
            None => None,
        },
        service_path: match install.service {
            Some(s) => s.path,
            None => None,
        },
        last_log_time: install.last_log_time,
    }
}

/// The candidate that a scanned directory becomes, under the given identity.
pub fn candidate_from(install: &ScannedInstall, candidate_id: String) -> (r: DiscoveryCandidate)
    ensures
        r@ == candidate_of(install@, candidate_id@),
{
    let metadata = match &install.marker {
        Some(data) => parse_runner_metadata(install.path.as_str(), data.as_str()),
        None => RunnerMetadata::empty(),
    };
    let (service_present, service_id, service_path) = match &install.service {
        Some(s) => (true, s.id.clone(), s.path.clone()),
        None => (false, None, None),
    };
    DiscoveryCandidate {
        candidate_id,
        install_path: install.path.clone(),
        runner_name: metadata.runner_name,
        labels: metadata.labels,
        scope: metadata.scope,
        work_dir: metadata.work_dir,
        service_present,
        service_id,
        service_path,
        last_log_time: install.last_log_time.clone(),
    }
}

/// The views of scanned directories.
pub open spec fn scanned_view(v: Seq<ScannedInstall>) -> Seq<ScannedView> {
    Seq::new(v.len(), |i: int| v[i]@)
}

/// The scanned directories that become candidates, in order.
pub open spec fn candidates_among(c: ConfigView, installs: Seq<ScannedView>) -> Seq<ScannedView>
    decreases installs.len(),
{
    if installs.len() == 0 {
        seq![]
    } else if is_candidate(c, installs.last()) {
        candidates_among(c, installs.drop_last()).push(installs.last())
    } else {
        candidates_among(c, installs.drop_last())
    }
}

/// The candidates among the scanned directories: those that look like a
/// runner install and that no profile refers to, each under a fresh
/// random identity.
pub fn scan(config: &Config, installs: &Vec<ScannedInstall>) -> (r: Vec<DiscoveryCandidate>)
    ensures
        r@.len() == candidates_among(config@, scanned_view(installs@)).len(),
        forall|i: int|
            0 <= i < r@.len() ==> {
                &&& (#[trigger] r@[i])@ == candidate_of(
                    candidates_among(config@, scanned_view(installs@))[i],
                    r@[i].candidate_id@,
                )
                &&& crate::host::is_random_id_text(r@[i].candidate_id@)
            },
{
    let ghost all = scanned_view(installs@);
    let mut out: Vec<DiscoveryCandidate> = Vec::new();
    let mut i: usize = 0;
    assert(candidates_among(config@, all.take(0)) =~= seq![]);
    while i < installs.len()
        invariant
            i <= installs.len(),
            all == scanned_view(installs@),
            out@.len() == candidates_among(config@, all.take(i as int)).len(),
            forall|k: int|
                0 <= k < out@.len() ==> {
                    &&& (#[trigger] out@[k])@ == candidate_of(
                        candidates_among(config@, all.take(i as int))[k],
                        out@[k].candidate_id@,
                    )
                    &&& crate::host::is_random_id_text(out@[k].candidate_id@)
                },
        decreases installs.len() - i,
    {
        assert(all.take(i + 1).drop_last() == all.take(i as int));
        assert(all.take(i + 1).last() == installs@[i as int]@);
        let install = &installs[i];
        if looks_like_runner_install(&install.probe) && !tracks(config, install.path.as_str()) {
            let candidate = candidate_from(install, crate::host::new_runner_id());
            out.push(candidate);
        }
        i += 1;
    }
    assert(all.take(installs.len() as int) == all);
    out
}

/// The name of the registration marker file of an install.
pub const MARKER_FILE: &'static str = ".runner";

/// The name of the diagnostics directory of an install.
pub const DIAG_DIR: &'static str = "_diag";

/// The directories whose subdirectories are looked at by name: the home
/// directory and its `Downloads`.
pub open spec fn prefix_roots(dirs: AppDirsView) -> Seq<Seq<char>> {
    match dirs.home {
        Some(home) => seq![home, crate::host::path_join(home, "Downloads"@)],
        None => seq![],
    }
}

/// The directories whose subdirectories are looked at by name. Every
/// subdirectory of the root of the managed installs is looked at besides.
pub fn scan_roots(dirs: &AppDirs) -> (r: Vec<String>)
    ensures
        crate::text::strings(r@) == prefix_roots(dirs@),
{
    let mut r: Vec<String> = Vec::new();
    if let Some(home) = &dirs.home {
        r.push(home.clone());
        r.push(crate::host::join_path(home.as_str(), "Downloads"));
    }
    assert(crate::text::strings(r@) =~= prefix_roots(dirs@));
    r
}

/// The file of an install with the given name.
pub fn install_file(install_path: &str, name: &str) -> (r: String)
    ensures
        r@ == crate::host::path_join(install_path@, name@),
{
    crate::host::join_path(install_path, name)
}

} // verus!
