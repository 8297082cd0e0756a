//! Bringing a stored document up to date.
//!
//! A document of the oldest schema describes a single runner and becomes a
//! configuration with one profile. A document of a later schema is already
//! a configuration; fields that it lacks are filled in. Whatever was
//! changed on the way has to be written back.

use vstd::prelude::*;
use crate::config::{
    opt_scope, opt_text, profiles, AuthMethod, Config, ConfigView, InstallConfig, InstallMode,
    InstallView, MigrationStatus, OnboardingConfig, ProfileView, RunnerProfile, RunnerScope,
    RunnerServiceConfig, ScopeView, ServiceProvider, ServiceView, SettingsConfig,
    LEGACY_SCHEMA_VERSION, SCHEMA_VERSION,
};
use crate::errors::{Error, ErrorView};
use crate::host::{no_project_dirs, seed_fits, AppDirs, HostInfo, ProfileSeed, SeedView};
use crate::json::{items_of, json_view, json_views, member, number_of, text_at, JsonView};
use crate::store::{
    fresh_store, sanitize_selected_runner_id, sanitized, selection_valid, ConfigStore, StoreView,
};
use crate::text::{strings, trim};

verus! {

/// The runner that a document of the oldest schema describes.
#[derive(Debug)]
pub struct LegacyRunnerConfig {
    pub name: String,
    pub labels: Vec<String>,
    pub work_dir: String,
    pub scope: Option<RunnerScope>,
}

/// The service flags of a document of the oldest schema.
#[derive(Debug, Clone, Copy, PartialEq, Eq, Structural)]
pub struct LegacyServiceConfig {
    pub installed: bool,
    pub run_on_boot: bool,
}

impl Default for LegacyServiceConfig {
    fn default() -> (r: Self)
        ensures
            r == (LegacyServiceConfig { installed: false, run_on_boot: false }),
    {
        LegacyServiceConfig { installed: false, run_on_boot: false }
    }
}

/// The authentication block of a document of the oldest schema.
#[derive(Debug)]
pub struct LegacyGithubConfig {
    pub auth_method: AuthMethod,
    pub token_expires: Option<String>,
}

impl Default for LegacyGithubConfig {
    fn default() -> (r: Self)
        ensures
            r.auth_method == AuthMethod::Pat,
            r.token_expires is None,
    {
        LegacyGithubConfig { auth_method: AuthMethod::Pat, token_expires: None }
    }
}

/// A document of the oldest schema.
#[derive(Debug)]
pub struct LegacyConfig {
    pub schema_version: u32,
    pub runner: LegacyRunnerConfig,
    pub service: LegacyServiceConfig,
    pub github: LegacyGithubConfig,
    pub runner_version: Option<String>,
    pub install_path: String,
}

/// The view of a [`LegacyConfig`]: what migration reads of it.
pub struct LegacyView {
    pub name: Seq<char>,
    pub labels: Seq<Seq<char>>,
    pub work_dir: Seq<char>,
    pub scope: Option<ScopeView>,
    pub service: LegacyServiceConfig,
    pub runner_version: Option<Seq<char>>,
    pub install_path: Seq<char>,
}

impl View for LegacyConfig {
    type V = LegacyView;

    open spec fn view(&self) -> LegacyView {
        LegacyView {
            name: self.runner.name@,
            labels: strings(self.runner.labels@),
            work_dir: self.runner.work_dir@,
            scope: opt_scope(self.runner.scope),
            service: self.service,
            runner_version: opt_text(self.runner_version),
            install_path: self.install_path@,
        }
    }
}

impl LegacyRunnerConfig {
    /// The runner block of a document that has none: the defaults of the seed, and no scope.
    pub fn fallback(seed: &ProfileSeed, dirs: &AppDirs) -> (r: Self)
        ensures
            r.name@ == seed@.runner_name,
            strings(r.labels@) == seed@.labels,
            r.work_dir@ == dirs@.default_work_dir("default"@),
            r.scope is None,
    {
        LegacyRunnerConfig {
            name: seed.runner_name.clone(),
            labels: crate::config::clone_strings(&seed.labels),
            work_dir: dirs.default_work_dir("default"),
            scope: None,
        }
    }
}

/// The profile that a document of the oldest schema becomes: managed, at
/// the recorded install path or the default one, named after the runner
/// or by default, with a service of the application's own if any was recorded.
pub open spec fn legacy_profile(legacy: LegacyView, seed: SeedView) -> ProfileView {
    ProfileView {
        runner_id: seed.runner_id,
        display_name: if trim(legacy.name).len() == 0 {
            seed.runner_name
        } else {
            legacy.name
        },
        scope: legacy.scope,
        runner_name: legacy.name,
        labels: legacy.labels,
        work_dir: legacy.work_dir,
        install: InstallView {
            mode: InstallMode::Managed,
            install_path: if legacy.install_path.len() == 0 {
                seed.install_path.unwrap_or(seq![])
            } else {
                legacy.install_path
            },
            adopted_from_path: None,
            migration_status: MigrationStatus::NotStarted,
        },
        runner_version: legacy.runner_version,
        pat_alias: "default"@,
        service: ServiceView {
            installed: legacy.service.installed,
            run_on_boot: legacy.service.run_on_boot,
            provider: if legacy.service.installed || legacy.service.run_on_boot {
                ServiceProvider::Runnerbuddy
            } else {
                ServiceProvider::Unknown
            },
            external_id: None,
            external_path: None,
            external_restore: None,
        },
        created_at: seed.created_at,
        last_seen_at: None,
    }
}

/// The configuration that a document of the oldest schema becomes: its one
/// profile, selected; onboarding completed; default settings. It fails only
/// where the document records no install path and none can be made up.
pub open spec fn legacy_migration(legacy: LegacyView, seed: SeedView) -> Result<
    ConfigView,
    ErrorView,
> {
    if legacy.install_path.len() == 0 && seed.install_path is None {
        Err(no_project_dirs())
    } else {
        Ok(
            ConfigView {
                schema_version: SCHEMA_VERSION,
                selected_runner_id: Some(seed.runner_id),
                pat_default_alias: "default"@,
                onboarding: OnboardingConfig::upgraded(),
                settings: SettingsConfig::fresh(),
                runners: seq![legacy_profile(legacy, seed)],
            },
        )
    }
}

/// The view of a configuration or of the error in its place.
pub open spec fn config_result(r: Result<Config, Error>) -> Result<ConfigView, ErrorView> {
    match r {
        Ok(c) => Ok(c@),
        Err(e) => Err(e@),
    }
}

impl Config {
    /// The configuration that a document of the oldest schema becomes, with
    /// the given seed.
    pub fn from_legacy(legacy: LegacyConfig, seed: ProfileSeed) -> (r: Result<Config, Error>)
        ensures
            config_result(r) == legacy_migration(legacy@, seed@),
    {
        let ghost l = legacy@;
        let ghost s = seed@;
        let install_path = if legacy.install_path.as_str().unicode_len() == 0 {
            match seed.install_path {
                Some(p) => p,
                None => {
                    return Err(
                        Error::Config("failed to resolve project directories".to_string()),
                    );
                },
            }
        } else {
            legacy.install_path
        };
        let display_name = if crate::text::is_blank(legacy.runner.name.as_str()) {
            seed.runner_name
        } else {
            legacy.runner.name.clone()
        };
        let profile = RunnerProfile {
            runner_id: seed.runner_id.clone(),
            display_name,
            scope: legacy.runner.scope,
            runner_name: legacy.runner.name,
            labels: legacy.runner.labels,
            work_dir: legacy.runner.work_dir,
            install: InstallConfig {
                mode: InstallMode::Managed,
                install_path,
                adopted_from_path: None,
                migration_status: MigrationStatus::NotStarted,
            },
            runner_version: legacy.runner_version,
            pat_alias: crate::config::default_pat_alias(),
            service: RunnerServiceConfig {
                installed: legacy.service.installed,
                run_on_boot: legacy.service.run_on_boot,
                provider: if legacy.service.installed || legacy.service.run_on_boot {
                    ServiceProvider::Runnerbuddy
                } else {
                    ServiceProvider::Unknown
                },
                external_id: None,
                external_path: None,
                external_restore: None,
            },
            created_at: seed.created_at,
            last_seen_at: None,
        };
        assert(profile@ == legacy_profile(l, s));
        let mut runners: Vec<RunnerProfile> = Vec::new();
        runners.push(profile);
        assert(profiles(runners@) =~= seq![legacy_profile(l, s)]);
        Ok(
            Config {
                schema_version: SCHEMA_VERSION,
                selected_runner_id: Some(seed.runner_id),
                pat_default_alias: crate::config::default_pat_alias(),
                onboarding: OnboardingConfig::completed_for_upgrade(),
                settings: SettingsConfig::default(),
                runners,
            },
        )
    }

    /// The configuration that a document of the oldest schema becomes, with
    /// a fresh identity and the defaults of the given surroundings.
    pub fn migrate_from_legacy(legacy: LegacyConfig, host: &HostInfo, dirs: &AppDirs) -> (r: Result<
        Config,
        Error,
    >)
        ensures
            exists|seed: SeedView|
                #![trigger legacy_migration(legacy@, seed)]
                seed_fits(seed, host@, dirs@) && config_result(r) == legacy_migration(
                    legacy@,
                    seed,
                ),
    {
        let seed = ProfileSeed::fresh(host, dirs);
        let ghost s = seed@;
        let r = Config::from_legacy(legacy, seed);
        assert(config_result(r) == legacy_migration(legacy@, s));
        r
    }
}

/// A document of the oldest schema always becomes a configuration with
/// exactly one profile, which is selected, and with onboarding completed.
pub proof fn lemma_legacy_migration_shape(legacy: LegacyView, seed: SeedView)
    requires
        legacy_migration(legacy, seed) is Ok,
    ensures
        ({
            let c = legacy_migration(legacy, seed)->Ok_0;
            &&& c.runners.len() == 1
            &&& c.onboarding.completed
            &&& c.selected_runner_id == Some(c.runners[0].runner_id)
            &&& selection_valid(c)
            &&& sanitized(c) == c
        }),
{
    let c = legacy_migration(legacy, seed)->Ok_0;
    crate::store::lemma_index_of_runner_unique(c.runners, seed.runner_id, 0);
    crate::store::lemma_sanitized_is_valid(c);
}

/// The schema version that a stored document declares: its
/// `schema_version` member where that is a non-negative integer, cut to 32
/// bits; the oldest version otherwise.
pub open spec fn declared_version(document: JsonView) -> u32 {
    match document.member("schema_version"@) {
        Some(m) => match m.unsigned() {
            Some(n) => (n % 0x1_0000_0000) as u32,
            None => LEGACY_SCHEMA_VERSION,
        },
        None => LEGACY_SCHEMA_VERSION,
    }
}

/// The schema version that a stored document declares.
pub fn stored_schema_version(value: &serde_json::Value) -> (r: u32)
    ensures
        r == declared_version(json_view(*value)),
{
    match member(value, "schema_version") {
        Some(m) => match number_of(m) {
            Some(n) => (n % 0x1_0000_0000) as u32,
            None => LEGACY_SCHEMA_VERSION,
        },
        None => LEGACY_SCHEMA_VERSION,
    }
}

/// How a stored document has to be read.
#[derive(Debug, Clone, Copy, PartialEq, Eq, Structural)]
pub enum DocumentKind {
    /// The oldest schema: a single runner.
    Legacy,
    /// A configuration of a schema older than the current one.
    Outdated,
    /// A configuration of the current schema, or a later one.
    Current,
}

/// How a document that declares the given version has to be read.
pub open spec fn kind_of_version(version: u32) -> DocumentKind {
    if version == LEGACY_SCHEMA_VERSION {
        DocumentKind::Legacy
    } else if version < SCHEMA_VERSION {
        DocumentKind::Outdated
    } else {
        DocumentKind::Current
    }
}

/// How a stored document has to be read.
pub fn document_kind(value: &serde_json::Value) -> (r: DocumentKind)
    ensures
        r == kind_of_version(declared_version(json_view(*value))),
{
    let version = stored_schema_version(value);
    if version == LEGACY_SCHEMA_VERSION {
        DocumentKind::Legacy
    } else if version < SCHEMA_VERSION {
        DocumentKind::Outdated
    } else {
        DocumentKind::Current
    }
}

/// Whether a stored document has no member under the given key.
pub open spec fn lacks(document: JsonView, key: Seq<char>) -> bool {
    document.member(key) is None
}

/// The configuration with the blocks that the stored document lacks
/// filled in: onboarding as completed, settings with their defaults.
/// Blocks that the document has are left as they are.
pub open spec fn backfilled(c: ConfigView, document: JsonView) -> ConfigView {
    ConfigView {
        onboarding: if lacks(document, "onboarding"@) {
            OnboardingConfig::upgraded()
        } else {
            c.onboarding
        },
        settings: if lacks(document, "settings"@) {
            SettingsConfig::fresh()
        } else {
            c.settings
        },
        ..c
    }
}

/// Fills in the blocks that the stored document lacks. Returns whether it lacked any.
pub fn apply_missing_fields(config: &mut Config, value: &serde_json::Value) -> (updated: bool)
    ensures
        final(config)@ == backfilled(old(config)@, json_view(*value)),
        updated == (lacks(json_view(*value), "onboarding"@) || lacks(
            json_view(*value),
            "settings"@,
        )),
{
    let mut updated = false;
    if member(value, "onboarding").is_none() {
        config.onboarding = OnboardingConfig::completed_for_upgrade();
        updated = true;
    }
    if member(value, "settings").is_none() {
        config.settings = SettingsConfig::default();
        updated = true;
    }
    updated
}

/// The hint at an external service that an older document may hold for a profile.
pub open spec fn external_hint(item: JsonView) -> Option<Seq<char>> {
    match item.member("service"@) {
        Some(service) => service.member_text("external_hint"@),
        None => None,
    }
}

/// A profile with the hint taken over as the identity of its external
/// service, where it has a hint and records no identity yet.
pub open spec fn hinted(p: ProfileView, item: JsonView) -> ProfileView {
    if external_hint(item) is Some && p.service.external_id is None {
        ProfileView {
            service: ServiceView { external_id: external_hint(item), ..p.service },
            ..p
        }
    } else {
        p
    }
}

/// The profiles with the hints of the stored profiles taken over, position by position.
pub open spec fn hinted_runners(runners: Seq<ProfileView>, items: Seq<JsonView>) -> Seq<
    ProfileView,
> {
    Seq::new(
        runners.len(),
        |i: int|
            if i < items.len() {
                hinted(runners[i], items[i])
            } else {
                runners[i]
            },
    )
}

/// The configuration with the hints of the stored document taken over.
pub open spec fn with_hints(c: ConfigView, document: JsonView) -> ConfigView {
    match document.member("runners"@) {
        Some(list) => match list.items() {
            Some(items) => ConfigView { runners: hinted_runners(c.runners, items), ..c },
            None => c,
        },
        None => c,
    }
}

fn hint_of(item: &serde_json::Value) -> (r: Option<String>)
    ensures
        opt_text(r) == external_hint(json_view(*item)),
{
    match member(item, "service") {
        Some(service) => text_at(service, "external_hint"),
        None => None,
    }
}

/// Takes over the hints at external services that an older document holds.
pub fn migrate_external_hint(config: &mut Config, value: &serde_json::Value)
    ensures
        final(config)@ == with_hints(old(config)@, json_view(*value)),
{
    let items = match member(value, "runners") {
        Some(list) => match items_of(list) {
            Some(items) => items,
            None => {
                return ;
            },
        },
        None => {
            return ;
        },
    };
    let ghost before = config@;
    let n = config.runners.len();
    let mut i: usize = 0;
    while i < n && i < items.len()
        invariant
            i <= n,
            i <= items.len(),
            n == config.runners.len(),
            config@.runners.len() == before.runners.len(),
            config@ == (ConfigView { runners: config@.runners, ..before }),
            forall|k: int|
                0 <= k < i ==> config@.runners[k] == hinted(
                    before.runners[k],
                    json_views(items@)[k],
                ),
            forall|k: int| i <= k < n ==> config@.runners[k] == before.runners[k],
        decreases n - i,
    {
        let ghost entering = config@.runners;
        assert(entering[i as int] == before.runners[i as int]);
        assert(entering[i as int] == config.runners@[i as int]@);
        if let Some(hint) = hint_of(&items[i]) {
            if config.runners[i].service.external_id.is_none() {
                let ghost prior = config.runners@;
                config.runners[i].service.external_id = Some(hint);
                assert(config.runners@.len() == prior.len());
                assert(config.runners@[i as int]@ == hinted(
                    prior[i as int]@,
                    json_views(items@)[i as int],
                ));
                assert forall|k: int| 0 <= k < n && k != i implies config@.runners[k]
                    == entering[k] by {
                    assert(config.runners@[k] == prior[k]);
                }
            }
        }
        assert(config@.runners[i as int] == config.runners@[i as int]@);
        assert(config@.runners[i as int] == hinted(
            before.runners[i as int],
            json_views(items@)[i as int],
        ));
        assert forall|k: int| 0 <= k < i + 1 implies config@.runners[k] == hinted(
            before.runners[k],
            json_views(items@)[k],
        ) by {
            if k < i {
                assert(entering[k] == hinted(before.runners[k], json_views(items@)[k]));
                assert(config@.runners[k] == entering[k]);
            }
        }
        i += 1;
    }
    assert(config@.runners =~= hinted_runners(before.runners, json_views(items@)));
}

/// What was found on disk.
#[derive(Debug)]
pub enum StoredDocument {
    /// No document exists.
    Absent,
    /// A document of the oldest schema.
    Legacy(LegacyConfig),
    /// A document of a later schema: the configuration it deserializes to,
    /// and the document as JSON.
    Versioned { config: Config, value: serde_json::Value },
}

/// A versioned document brought up to date: hints taken over and the
/// version raised where the document is older than the current schema,
/// missing blocks filled in, the selection repaired.
pub open spec fn upgraded(c: ConfigView, document: JsonView) -> ConfigView {
    let raised = if declared_version(document) < SCHEMA_VERSION {
        ConfigView { schema_version: SCHEMA_VERSION, ..with_hints(c, document) }
    } else {
        c
    };
    sanitized(backfilled(raised, document))
}

/// Whether bringing a versioned document up to date changed anything that
/// has to be written: the document was older, lacked a block, or broke the
/// selection rule.
pub open spec fn upgrade_needs_save(c: ConfigView, document: JsonView) -> bool {
    let raised = if declared_version(document) < SCHEMA_VERSION {
        ConfigView { schema_version: SCHEMA_VERSION, ..with_hints(c, document) }
    } else {
        c
    };
    ||| declared_version(document) < SCHEMA_VERSION
    ||| lacks(document, "onboarding"@)
    ||| lacks(document, "settings"@)
    ||| !selection_valid(backfilled(raised, document))
}

/// The view of a stored document.
pub enum DocumentView {
    Absent,
    Legacy(LegacyView),
    Versioned { config: ConfigView, document: JsonView },
}

impl View for StoredDocument {
    type V = DocumentView;

    open spec fn view(&self) -> DocumentView {
        match self {
            StoredDocument::Absent => DocumentView::Absent,
            StoredDocument::Legacy(l) => DocumentView::Legacy(l@),
            StoredDocument::Versioned { config, value } => DocumentView::Versioned {
                config: config@,
                document: json_view(*value),
            },
        }
    }
}

/// The store that loading a document gives. No document: a fresh
/// configuration, nothing to write. The oldest schema: the migrated
/// configuration, to be written. A later schema: the document brought up
/// to date, to be written if that changed anything.
pub open spec fn loaded(document: DocumentView, seed: SeedView) -> Result<StoreView, ErrorView> {
    match document {
        DocumentView::Absent => Ok(fresh_store()),
        DocumentView::Legacy(legacy) => match legacy_migration(legacy, seed) {
            Ok(c) => Ok(StoreView { config: c, needs_save: true }),
            Err(e) => Err(e),
        },
        DocumentView::Versioned { config, document } => Ok(
            StoreView {
                config: upgraded(config, document),
                needs_save: upgrade_needs_save(config, document),
            },
        ),
    }
}

/// The view of a store or of the error in its place.
pub open spec fn store_result(r: Result<ConfigStore, Error>) -> Result<StoreView, ErrorView> {
    match r {
        Ok(s) => Ok(s@),
        Err(e) => Err(e@),
    }
}

impl ConfigStore {
    /// The store for what was found on disk, with the given seed for the
    /// profile of a document of the oldest schema.
    pub fn load_with(document: StoredDocument, seed: ProfileSeed) -> (r: Result<ConfigStore, Error>)
        ensures
            store_result(r) == loaded(document@, seed@),
            r matches Ok(s) ==> selection_valid(s@.config),
    {
        match document {
            StoredDocument::Absent => Ok(ConfigStore::fresh()),
            StoredDocument::Legacy(legacy) => {
                proof {
                    if legacy_migration(legacy@, seed@) is Ok {
                        lemma_legacy_migration_shape(legacy@, seed@);
                    }
                }
                match Config::from_legacy(legacy, seed) {
                    Ok(mut config) => {
                        sanitize_selected_runner_id(&mut config);
                        Ok(ConfigStore { config, needs_save: true })
                    },
                    Err(e) => Err(e),
                }
            },
            StoredDocument::Versioned { config, value } => {
                let mut config = config;
                let mut needs_save = false;
                if stored_schema_version(&value) < SCHEMA_VERSION {
                    migrate_external_hint(&mut config, &value);
                    config.schema_version = SCHEMA_VERSION;
                    needs_save = true;
                }
                if apply_missing_fields(&mut config, &value) {
                    needs_save = true;
                }
                let ghost filled = config@;
                if sanitize_selected_runner_id(&mut config) {
                    needs_save = true;
                }
                proof {
                    crate::store::lemma_sanitized_is_valid(filled);
                }
                Ok(ConfigStore { config, needs_save })
            },
        }
    }

    /// The store for what was found on disk. A document of the oldest
    /// schema gets a fresh identity and the defaults of the given surroundings.
    pub fn load(document: StoredDocument, host: &HostInfo, dirs: &AppDirs) -> (r: Result<
        ConfigStore,
        Error,
    >)
        ensures
            exists|seed: SeedView|
                #![trigger loaded(document@, seed)]
                seed_fits(seed, host@, dirs@) && store_result(r) == loaded(document@, seed),
            r matches Ok(s) ==> selection_valid(s@.config),
    {
        let seed = ProfileSeed::fresh(host, dirs);
        let ghost s = seed@;
        let r = ConfigStore::load_with(document, seed);
        assert(store_result(r) == loaded(document@, s));
        r
    }
}

/// Loading a document of the oldest schema gives exactly one profile,
/// which is selected, onboarding completed, and a document to be written.
pub proof fn lemma_legacy_load(legacy: LegacyView, seed: SeedView)
    requires
        loaded(DocumentView::Legacy(legacy), seed) is Ok,
    ensures
        ({
            let s = loaded(DocumentView::Legacy(legacy), seed)->Ok_0;
            &&& s.config.runners.len() == 1
            &&& s.config.onboarding.completed
            &&& s.config.selected_runner_id == Some(s.config.runners[0].runner_id)
            &&& selection_valid(s.config)
            &&& s.needs_save
        }),
{
    lemma_legacy_migration_shape(legacy, seed);
}

/// Loading a versioned document fills in the blocks it lacks with their
/// defaults and then has the document written; blocks that it has come out
/// as they were stored.
pub proof fn lemma_versioned_load_backfills(config: ConfigView, document: JsonView, seed: SeedView)
    ensures
        ({
            let s = loaded(DocumentView::Versioned { config, document }, seed)->Ok_0;
            &&& loaded(DocumentView::Versioned { config, document }, seed) is Ok
            &&& lacks(document, "onboarding"@) ==> s.config.onboarding
                == OnboardingConfig::upgraded() && s.needs_save
            &&& lacks(document, "settings"@) ==> s.config.settings == SettingsConfig::fresh()
                && s.needs_save
            &&& !lacks(document, "onboarding"@) ==> s.config.onboarding == config.onboarding
            &&& !lacks(document, "settings"@) ==> s.config.settings == config.settings
            &&& selection_valid(s.config)
        }),
{
    let raised = if declared_version(document) < SCHEMA_VERSION {
        ConfigView { schema_version: SCHEMA_VERSION, ..with_hints(config, document) }
    } else {
        config
    };
    crate::store::lemma_sanitized_is_valid(backfilled(raised, document));
}

/// A versioned document of the current schema that has both blocks and
/// keeps the selection rule is loaded as it is, with nothing to write.
pub proof fn lemma_intact_document_untouched(config: ConfigView, document: JsonView, seed: SeedView)
    requires
        declared_version(document) >= SCHEMA_VERSION,
        !lacks(document, "onboarding"@),
        !lacks(document, "settings"@),
        selection_valid(config),
    ensures
        loaded(DocumentView::Versioned { config, document }, seed) == Ok::<StoreView, ErrorView>(
            StoreView { config, needs_save: false },
        ),
{
    crate::store::lemma_sanitized_is_valid(config);
    assert(backfilled(config, document) == config);
}

} // verus!
