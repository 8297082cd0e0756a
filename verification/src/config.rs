//! The data model: runner profiles, their install and service descriptors,
//! and the configuration document that holds them.
//!
//! Every type has a mathematical view in which strings are sequences of
//! characters and vectors are sequences; contracts are stated over the views.

use vstd::prelude::*;

verus! {

/// The schema version that this library writes.
pub const SCHEMA_VERSION: u32 = 3;

/// The oldest schema version: a document that describes a single runner.
pub const LEGACY_SCHEMA_VERSION: u32 = 1;

/// The text of an optional string.
pub open spec fn opt_text(o: Option<String>) -> Option<Seq<char>> {
    match o {
        Some(s) => Some(s@),
        None => None,
    }
}

/// What happens to an install that discovery found.
#[derive(Debug, Clone, Copy, PartialEq, Eq, Structural)]
pub enum AdoptionDefault {
    Adopt,
    MoveVerifyDelete,
}

impl Default for AdoptionDefault {
    fn default() -> (r: Self)
        ensures
            r == AdoptionDefault::Adopt,
    {
        AdoptionDefault::Adopt
    }
}

/// How the application authenticates against the remote API.
#[derive(Debug, Clone, Copy, PartialEq, Eq, Structural)]
pub enum AuthMethod {
    Pat,
}

impl Default for AuthMethod {
    fn default() -> (r: Self)
        ensures
            r == AuthMethod::Pat,
    {
        AuthMethod::Pat
    }
}

/// The registration target of a runner.
#[derive(Debug)]
pub enum RunnerScope {
    Repo { owner: String, repo: String },
    Org { org: String },
    Enterprise { enterprise: String },
}

/// The view of a [`RunnerScope`].
pub enum ScopeView {
    Repo { owner: Seq<char>, repo: Seq<char> },
    Org { org: Seq<char> },
    Enterprise { enterprise: Seq<char> },
}

impl View for RunnerScope {
    type V = ScopeView;

    open spec fn view(&self) -> ScopeView {
        match self {
            RunnerScope::Repo { owner, repo } => ScopeView::Repo { owner: owner@, repo: repo@ },
            RunnerScope::Org { org } => ScopeView::Org { org: org@ },
            RunnerScope::Enterprise { enterprise } => ScopeView::Enterprise {
                enterprise: enterprise@,
            },
        }
    }
}

impl ScopeView {
    /// The path part that names the scope in the remote API.
    pub open spec fn api_path(self) -> Seq<char> {
        match self {
            ScopeView::Repo { owner, repo } => "/repos/"@ + owner + "/"@ + repo,
            ScopeView::Org { org } => "/orgs/"@ + org,
            ScopeView::Enterprise { enterprise } => "/enterprises/"@ + enterprise,
        }
    }

    /// The API endpoint that issues a registration token for the scope.
    pub open spec fn registration_endpoint(self) -> Seq<char> {
        self.api_path() + "/actions/runners/registration-token"@
    }

    /// The API endpoint that issues a removal token for the scope.
    pub open spec fn remove_endpoint(self) -> Seq<char> {
        self.api_path() + "/actions/runners/remove-token"@
    }

    /// The address of the scope on the web.
    pub open spec fn url(self) -> Seq<char> {
        match self {
            ScopeView::Repo { owner, repo } => "https://github.com/"@ + owner + "/"@ + repo,
            ScopeView::Org { org } => "https://github.com/"@ + org,
            ScopeView::Enterprise { enterprise } => "https://github.com/enterprises/"@ + enterprise,
        }
    }
}

impl RunnerScope {
    fn api_path(&self) -> (r: String)
        ensures
            r@ == self@.api_path(),
    {
        match self {
            RunnerScope::Repo { owner, repo } => {
                let mut r = crate::text::concat3("/repos/", owner.as_str(), "/");
                r.append(repo.as_str());
                r
            },
            RunnerScope::Org { org } => crate::text::concat2("/orgs/", org.as_str()),
            RunnerScope::Enterprise { enterprise } => crate::text::concat2(
                "/enterprises/",
                enterprise.as_str(),
            ),
        }
    }

    /// The API endpoint that issues a registration token for the scope.
    pub fn api_registration_endpoint(&self) -> (r: String)
        ensures
            r@ == self@.registration_endpoint(),
    {
        let mut r = self.api_path();
        r.append("/actions/runners/registration-token");
        r
    }

    /// The API endpoint that issues a removal token for the scope.
    pub fn api_remove_endpoint(&self) -> (r: String)
        ensures
            r@ == self@.remove_endpoint(),
    {
        let mut r = self.api_path();
        r.append("/actions/runners/remove-token");
        r
    }

    /// The address of the scope on the web.
    pub fn url(&self) -> (r: String)
        ensures
            r@ == self@.url(),
    {
        match self {
            RunnerScope::Repo { owner, repo } => {
                let mut r = crate::text::concat3("https://github.com/", owner.as_str(), "/");
                r.append(repo.as_str());
                r
            },
            RunnerScope::Org { org } => crate::text::concat2("https://github.com/", org.as_str()),
            RunnerScope::Enterprise { enterprise } => crate::text::concat2(
                "https://github.com/enterprises/",
                enterprise.as_str(),
            ),
        }
    }
}

impl Clone for RunnerScope {
    fn clone(&self) -> (r: Self)
        ensures
            r@ == self@,
    {
        match self {
            RunnerScope::Repo { owner, repo } => RunnerScope::Repo {
                owner: owner.clone(),
                repo: repo.clone(),
            },
            RunnerScope::Org { org } => RunnerScope::Org { org: org.clone() },
            RunnerScope::Enterprise { enterprise } => RunnerScope::Enterprise {
                enterprise: enterprise.clone(),
            },
        }
    }
}

/// The view of an optional scope.
pub open spec fn opt_scope(o: Option<RunnerScope>) -> Option<ScopeView> {
    match o {
        Some(s) => Some(s@),
        None => None,
    }
}

/// Who owns the location of an install directory.
#[derive(Debug, Clone, Copy, PartialEq, Eq, Structural)]
pub enum InstallMode {
    /// The application controls where the directory lives.
    Managed,
    /// The directory predates the application's tracking of it.
    Adopted,
}

/// Progress of moving an adopted install into managed storage.
#[derive(Debug, Clone, Copy, PartialEq, Eq, Structural)]
pub enum MigrationStatus {
    /// No move has taken place.
    NotStarted,
    /// The directory was copied into managed storage.
    Moved,
    /// The runner came up from the new location.
    Verified,
    /// The runner did not come up from the new location in time.
    Failed,
}

impl Default for MigrationStatus {
    fn default() -> (r: Self)
        ensures
            r == MigrationStatus::NotStarted,
    {
        MigrationStatus::NotStarted
    }
}

/// Where a runner is installed and how far its migration has come.
#[derive(Debug)]
pub struct InstallConfig {
    pub mode: InstallMode,
    pub install_path: String,
    pub adopted_from_path: Option<String>,
    pub migration_status: MigrationStatus,
}

/// The view of an [`InstallConfig`].
pub struct InstallView {
    pub mode: InstallMode,
    pub install_path: Seq<char>,
    pub adopted_from_path: Option<Seq<char>>,
    pub migration_status: MigrationStatus,
}

impl View for InstallConfig {
    type V = InstallView;

    open spec fn view(&self) -> InstallView {
        InstallView {
            mode: self.mode,
            install_path: self.install_path@,
            adopted_from_path: opt_text(self.adopted_from_path),
            migration_status: self.migration_status,
        }
    }
}

impl Clone for InstallConfig {
    fn clone(&self) -> (r: Self)
        ensures
            r@ == self@,
    {
        InstallConfig {
            mode: self.mode,
            install_path: self.install_path.clone(),
            adopted_from_path: self.adopted_from_path.clone(),
            migration_status: self.migration_status,
        }
    }
}

/// Who created the service definition of a runner.
#[derive(Debug, Clone, Copy, PartialEq, Eq, Structural)]
pub enum ServiceProvider {
    /// The application created and controls the service.
    Runnerbuddy,
    /// The service existed before and is only observed.
    External,
    Unknown,
}

/// Identity of a service that the application did not create.
#[derive(Debug)]
pub struct ExternalServiceInfo {
    pub id: Option<String>,
    pub path: Option<String>,
}

/// The view of an [`ExternalServiceInfo`].
pub struct ExternalServiceView {
    pub id: Option<Seq<char>>,
    pub path: Option<Seq<char>>,
}

impl View for ExternalServiceInfo {
    type V = ExternalServiceView;

    open spec fn view(&self) -> ExternalServiceView {
        ExternalServiceView { id: opt_text(self.id), path: opt_text(self.path) }
    }
}

impl Clone for ExternalServiceInfo {
    fn clone(&self) -> (r: Self)
        ensures
            r@ == self@,
    {
        ExternalServiceInfo { id: self.id.clone(), path: self.path.clone() }
    }
}

/// The view of an optional external service identity.
pub open spec fn opt_external(o: Option<ExternalServiceInfo>) -> Option<ExternalServiceView> {
    match o {
        Some(s) => Some(s@),
        None => None,
    }
}

/// The service side of a runner profile.
#[derive(Debug)]
pub struct RunnerServiceConfig {
    pub installed: bool,
    pub run_on_boot: bool,
    pub provider: ServiceProvider,
    pub external_id: Option<String>,
    pub external_path: Option<String>,
    /// Identity of the external service that was replaced, kept so that it can be restored.
    pub external_restore: Option<ExternalServiceInfo>,
}

/// The view of a [`RunnerServiceConfig`].
pub struct ServiceView {
    pub installed: bool,
    pub run_on_boot: bool,
    pub provider: ServiceProvider,
    pub external_id: Option<Seq<char>>,
    pub external_path: Option<Seq<char>>,
    pub external_restore: Option<ExternalServiceView>,
}

impl View for RunnerServiceConfig {
    type V = ServiceView;

    open spec fn view(&self) -> ServiceView {
        ServiceView {
            installed: self.installed,
            run_on_boot: self.run_on_boot,
            provider: self.provider,
            external_id: opt_text(self.external_id),
            external_path: opt_text(self.external_path),
            external_restore: opt_external(self.external_restore),
        }
    }
}

/// The service descriptor of a profile that has no service.
pub open spec fn no_service() -> ServiceView {
    ServiceView {
        installed: false,
        run_on_boot: false,
        provider: ServiceProvider::Unknown,
        external_id: None,
        external_path: None,
        external_restore: None,
    }
}

impl Default for RunnerServiceConfig {
    fn default() -> (r: Self)
        ensures
            r@ == no_service(),
    {
        RunnerServiceConfig {
            installed: false,
            run_on_boot: false,
            provider: ServiceProvider::Unknown,
            external_id: None,
            external_path: None,
            external_restore: None,
        }
    }
}

impl Clone for RunnerServiceConfig {
    fn clone(&self) -> (r: Self)
        ensures
            r@ == self@,
    {
        let restore = match &self.external_restore {
            Some(info) => Some(info.clone()),
            None => None,
        };
        RunnerServiceConfig {
            installed: self.installed,
            run_on_boot: self.run_on_boot,
            provider: self.provider,
            external_id: self.external_id.clone(),
            external_path: self.external_path.clone(),
            external_restore: restore,
        }
    }
}

/// A tracked runner installation.
#[derive(Debug)]
pub struct RunnerProfile {
    pub runner_id: String,
    pub display_name: String,
    pub scope: Option<RunnerScope>,
    pub runner_name: String,
    pub labels: Vec<String>,
    pub work_dir: String,
    pub install: InstallConfig,
    pub runner_version: Option<String>,
    pub pat_alias: String,
    pub service: RunnerServiceConfig,
    pub created_at: String,
    pub last_seen_at: Option<String>,
}

/// The view of a [`RunnerProfile`].
pub struct ProfileView {
    pub runner_id: Seq<char>,
    pub display_name: Seq<char>,
    pub scope: Option<ScopeView>,
    pub runner_name: Seq<char>,
    pub labels: Seq<Seq<char>>,
    pub work_dir: Seq<char>,
    pub install: InstallView,
    pub runner_version: Option<Seq<char>>,
    pub pat_alias: Seq<char>,
    pub service: ServiceView,
    pub created_at: Seq<char>,
    pub last_seen_at: Option<Seq<char>>,
}

impl View for RunnerProfile {
    type V = ProfileView;

    open spec fn view(&self) -> ProfileView {
        ProfileView {
            runner_id: self.runner_id@,
            display_name: self.display_name@,
            scope: opt_scope(self.scope),
            runner_name: self.runner_name@,
            labels: crate::text::strings(self.labels@),
            work_dir: self.work_dir@,
            install: self.install@,
            runner_version: opt_text(self.runner_version),
            pat_alias: self.pat_alias@,
            service: self.service@,
            created_at: self.created_at@,
            last_seen_at: opt_text(self.last_seen_at),
        }
    }
}

/// A copy of a vector of strings.
pub fn clone_strings(v: &Vec<String>) -> (r: Vec<String>)
    ensures
        crate::text::strings(r@) == crate::text::strings(v@),
{
    let mut r: Vec<String> = Vec::new();
    let mut i: usize = 0;
    while i < v.len()
        invariant
            i <= v.len(),
            r@.len() == i,
            forall|k: int| 0 <= k < i ==> r@[k]@ == v@[k]@,
        decreases v.len() - i,
    {
        r.push(v[i].clone());
        i += 1;
    }
    assert(crate::text::strings(r@) =~= crate::text::strings(v@));
    r
}

impl Clone for RunnerProfile {
    fn clone(&self) -> (r: Self)
        ensures
            r@ == self@,
    {
        let scope = match &self.scope {
            Some(s) => Some(s.clone()),
            None => None,
        };
        RunnerProfile {
            runner_id: self.runner_id.clone(),
            display_name: self.display_name.clone(),
            scope,
            runner_name: self.runner_name.clone(),
            labels: clone_strings(&self.labels),
            work_dir: self.work_dir.clone(),
            install: self.install.clone(),
            runner_version: self.runner_version.clone(),
            pat_alias: self.pat_alias.clone(),
            service: self.service.clone(),
            created_at: self.created_at.clone(),
            last_seen_at: self.last_seen_at.clone(),
        }
    }
}

/// Whether the first-run flow has been completed.
#[derive(Debug)]
pub struct OnboardingConfig {
    pub completed: bool,
    pub completed_at: Option<String>,
}

/// The view of an [`OnboardingConfig`].
pub struct OnboardingView {
    pub completed: bool,
    pub completed_at: Option<Seq<char>>,
}

impl View for OnboardingConfig {
    type V = OnboardingView;

    open spec fn view(&self) -> OnboardingView {
        OnboardingView { completed: self.completed, completed_at: opt_text(self.completed_at) }
    }
}

impl Clone for OnboardingConfig {
    fn clone(&self) -> (r: Self)
        ensures
            r@ == self@,
    {
        OnboardingConfig { completed: self.completed, completed_at: self.completed_at.clone() }
    }
}

impl OnboardingConfig {
    /// Onboarding as it stands after an upgrade from an older document:
    /// completed, at an unknown time.
    pub open spec fn upgraded() -> OnboardingView {
        OnboardingView { completed: true, completed_at: None }
    }

    /// Onboarding as it stands in a fresh configuration.
    pub open spec fn fresh() -> OnboardingView {
        OnboardingView { completed: false, completed_at: None }
    }

    /// Onboarding as it stands after an upgrade from an older document.
    pub fn completed_for_upgrade() -> (r: Self)
        ensures
            r@ == Self::upgraded(),
    {
        OnboardingConfig { completed: true, completed_at: None }
    }
}

/// Global settings.
#[derive(Debug, Clone, Copy, PartialEq, Eq, Structural)]
pub struct SettingsConfig {
    pub auto_updates_enabled: bool,
    pub auto_check_updates_on_launch: bool,
    pub adoption_default: AdoptionDefault,
}

impl SettingsConfig {
    /// The settings of a fresh configuration.
    pub open spec fn fresh() -> SettingsConfig {
        SettingsConfig {
            auto_updates_enabled: true,
            auto_check_updates_on_launch: true,
            adoption_default: AdoptionDefault::Adopt,
        }
    }
}

impl Default for SettingsConfig {
    fn default() -> (r: Self)
        ensures
            r == SettingsConfig::fresh(),
    {
        SettingsConfig {
            auto_updates_enabled: true,
            auto_check_updates_on_launch: true,
            adoption_default: AdoptionDefault::Adopt,
        }
    }
}

/// The views of a vector of profiles.
pub open spec fn profiles(v: Seq<RunnerProfile>) -> Seq<ProfileView> {
    Seq::new(v.len(), |i: int| v[i]@)
}

/// The configuration document.
#[derive(Debug)]
pub struct Config {
    pub schema_version: u32,
    pub selected_runner_id: Option<String>,
    pub pat_default_alias: String,
    pub onboarding: OnboardingConfig,
    pub settings: SettingsConfig,
    pub runners: Vec<RunnerProfile>,
}

/// The view of a [`Config`].
pub struct ConfigView {
    pub schema_version: u32,
    pub selected_runner_id: Option<Seq<char>>,
    pub pat_default_alias: Seq<char>,
    pub onboarding: OnboardingView,
    pub settings: SettingsConfig,
    pub runners: Seq<ProfileView>,
}

impl View for Config {
    type V = ConfigView;

    open spec fn view(&self) -> ConfigView {
        ConfigView {
            schema_version: self.schema_version,
            selected_runner_id: opt_text(self.selected_runner_id),
            pat_default_alias: self.pat_default_alias@,
            onboarding: self.onboarding@,
            settings: self.settings,
            runners: profiles(self.runners@),
        }
    }
}

/// A copy of a vector of profiles.
pub fn clone_profiles(v: &Vec<RunnerProfile>) -> (r: Vec<RunnerProfile>)
    ensures
        profiles(r@) == profiles(v@),
{
    let mut r: Vec<RunnerProfile> = Vec::new();
    let mut i: usize = 0;
    while i < v.len()
        invariant
            i <= v.len(),
            r@.len() == i,
            forall|k: int| 0 <= k < i ==> r@[k]@ == v@[k]@,
        decreases v.len() - i,
    {
        r.push(v[i].clone());
        i += 1;
    }
    assert(profiles(r@) =~= profiles(v@));
    r
}

impl Clone for Config {
    fn clone(&self) -> (r: Self)
        ensures
            r@ == self@,
    {
        Config {
            schema_version: self.schema_version,
            selected_runner_id: self.selected_runner_id.clone(),
            pat_default_alias: self.pat_default_alias.clone(),
            onboarding: self.onboarding.clone(),
            settings: self.settings,
            runners: clone_profiles(&self.runners),
        }
    }
}

/// The view of a fresh configuration: current schema, no profiles, nothing
/// selected, onboarding not completed, default settings.
pub open spec fn fresh_config() -> ConfigView {
    ConfigView {
        schema_version: SCHEMA_VERSION,
        selected_runner_id: None,
        pat_default_alias: "default"@,
        onboarding: OnboardingConfig::fresh(),
        settings: SettingsConfig::fresh(),
        runners: Seq::empty(),
    }
}

/// The schema version of a document that declares none among its fields.
pub fn default_schema_version() -> (r: u32)
    ensures
        r == SCHEMA_VERSION,
{
    SCHEMA_VERSION
}

/// The schema version of a document of the oldest schema that declares none.
pub fn default_legacy_schema_version() -> (r: u32)
    ensures
        r == LEGACY_SCHEMA_VERSION,
{
    LEGACY_SCHEMA_VERSION
}

/// The alias under which credentials are looked up unless another is set.
pub fn default_pat_alias() -> (r: String)
    ensures
        r@ == "default"@,
{
    "default".to_string()
}

/// Onboarding as it stands in a fresh configuration: not completed.
pub fn default_onboarding() -> (r: OnboardingConfig)
    ensures
        r@ == OnboardingConfig::fresh(),
{
    OnboardingConfig { completed: false, completed_at: None }
}

/// The settings of a fresh configuration.
pub fn default_settings() -> (r: SettingsConfig)
    ensures
        r == SettingsConfig::fresh(),
{
    SettingsConfig::default()
}

impl Default for Config {
    fn default() -> (r: Self)
        ensures
            r@ == fresh_config(),
    {
        let r = Config {
            schema_version: SCHEMA_VERSION,
            selected_runner_id: None,
            pat_default_alias: default_pat_alias(),
            onboarding: default_onboarding(),
            settings: default_settings(),
            runners: Vec::new(),
        };
        assert(profiles(r.runners@) =~= Seq::empty());
        r
    }
}

} // verus!
