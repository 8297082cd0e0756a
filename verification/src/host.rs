//! What the machine and its user account say about themselves: platform,
//! host name, directories, the clock and fresh identifiers. The values are
//! gathered once at the edge and handed to the rest of the library as plain
//! data, so that every decision made from them can be stated exactly.

use vstd::prelude::*;
use crate::errors::Error;
use crate::runner_mgmt::hex_of;
use crate::text::{begins_with, chars_of, slice_of, starts_with, string_of, strip, trim, CharClass};

verus! {

// ---------------------------------------------------------------------------
// Paths
// ---------------------------------------------------------------------------

/// The path that `std::path::Path::join` makes of `base` and `child` on the
/// platform the library is built for.
pub uninterp spec fn path_join(base: Seq<char>, child: Seq<char>) -> Seq<char>;

/// Whether `std::path::Path::is_absolute` holds of `path` on the platform the
/// library is built for.
pub uninterp spec fn path_is_absolute(path: Seq<char>) -> bool;

/// Whether `std::path::Path::starts_with` holds: the components of `base`
/// are the first components of `path`.
pub uninterp spec fn path_starts_with(path: Seq<char>, base: Seq<char>) -> bool;

/// Whether two texts are equal as paths: `std::path::Path` compares by components.
pub uninterp spec fn path_same(a: Seq<char>, b: Seq<char>) -> bool;

/// `Path::join`: `child` adjoined to `base`. Both are valid UTF-8, so the
/// result is too, and converting it back to a string loses nothing.
#[verifier::external_body]
pub(crate) fn join_path(base: &str, child: &str) -> (r: String)
    ensures
        r@ == path_join(base@, child@),
{
    std::path::Path::new(base).join(child).to_string_lossy().into_owned()
}

/// `Path::is_absolute`: whether the path is absolute.
#[verifier::external_body]
pub(crate) fn is_absolute_path(path: &str) -> (r: bool)
    ensures
        r == path_is_absolute(path@),
{
    std::path::Path::new(path).is_absolute()
}

/// `Path::starts_with`, which compares whole components.
#[verifier::external_body]
pub(crate) fn path_has_base(path: &str, base: &str) -> (r: bool)
    ensures
        r == path_starts_with(path@, base@),
{
    std::path::Path::new(path).starts_with(base)
}

/// Equality of `Path` values, which compares components.
#[verifier::external_body]
pub(crate) fn same_path(a: &str, b: &str) -> (r: bool)
    ensures
        r == path_same(a@, b@),
{
    std::path::Path::new(a) == std::path::Path::new(b)
}

// ---------------------------------------------------------------------------
// Directories of the user account
// ---------------------------------------------------------------------------

/// `directories::ProjectDirs`, carried through as it is.
#[verifier::external_type_specification]
#[verifier::external_body]
pub struct ExProjectDirs(directories::ProjectDirs);

/// `directories::UserDirs`, carried through as it is.
#[verifier::external_type_specification]
#[verifier::external_body]
pub struct ExUserDirs(directories::UserDirs);

/// `directories::ProjectDirs::from`: the project directories for the given
/// names, or `None` where no home directory can be found. The answer depends
/// on the environment.
#[verifier::external_body]
fn project_dirs(qualifier: &str, organization: &str, application: &str) -> Option<
    directories::ProjectDirs,
> {
    directories::ProjectDirs::from(qualifier, organization, application)
}

/// `directories::ProjectDirs::config_dir`, as text; what is not valid
/// Unicode in the path is replaced.
#[verifier::external_body]
fn project_config_dir(dirs: &directories::ProjectDirs) -> String {
    dirs.config_dir().to_string_lossy().into_owned()
}

/// `directories::ProjectDirs::data_dir`, as text; what is not valid
/// Unicode in the path is replaced.
#[verifier::external_body]
fn project_data_dir(dirs: &directories::ProjectDirs) -> String {
    dirs.data_dir().to_string_lossy().into_owned()
}

/// `directories::UserDirs::new`: the directories of the user, or `None`
/// where no home directory can be found. The answer depends on the environment.
#[verifier::external_body]
fn user_dirs() -> Option<directories::UserDirs> {
    directories::UserDirs::new()
}

/// `directories::UserDirs::home_dir`, as text; what is not valid Unicode
/// in the path is replaced.
#[verifier::external_body]
fn user_home_dir(dirs: &directories::UserDirs) -> String {
    dirs.home_dir().to_string_lossy().into_owned()
}

/// The directories that belong to the application.
#[derive(Debug)]
pub struct ProjectPaths {
    pub config_dir: String,
    pub data_dir: String,
}

/// The directories the library works in. `project` is `None` where the
/// platform could not name the application's directories, `home` where it
/// could not name the user's home directory.
#[derive(Debug)]
pub struct AppDirs {
    pub project: Option<ProjectPaths>,
    pub home: Option<String>,
}

/// The view of [`AppDirs`].
pub struct AppDirsView {
    pub config_dir: Option<Seq<char>>,
    pub data_dir: Option<Seq<char>>,
    pub home: Option<Seq<char>>,
}

impl View for AppDirs {
    type V = AppDirsView;

    open spec fn view(&self) -> AppDirsView {
        AppDirsView {
            config_dir: match self.project {
                Some(p) => Some(p.config_dir@),
                None => None,
            },
            data_dir: match self.project {
                Some(p) => Some(p.data_dir@),
                None => None,
            },
            home: match self.home {
                Some(h) => Some(h@),
                None => None,
            },
        }
    }
}

impl AppDirsView {
    /// The directory that holds everything the application logs.
    pub open spec fn logs_dir(self) -> Option<Seq<char>> {
        match self.data_dir {
            Some(d) => Some(path_join(d, "logs"@)),
            None => None,
        }
    }

    /// The directory that holds the captured output of one runner.
    pub open spec fn runner_logs_dir(self, runner_id: Seq<char>) -> Option<Seq<char>> {
        match self.logs_dir() {
            Some(d) => Some(path_join(d, runner_id)),
            None => None,
        }
    }

    /// The root under which the application keeps the installs it manages.
    pub open spec fn managed_runners_dir(self) -> Option<Seq<char>> {
        match self.data_dir {
            Some(d) => Some(path_join(d, "runners"@)),
            None => None,
        }
    }

    /// Where the application installs the runner with the given identity.
    pub open spec fn default_install_path(self, runner_id: Seq<char>) -> Option<Seq<char>> {
        match self.managed_runners_dir() {
            Some(d) => Some(path_join(d, runner_id)),
            None => None,
        }
    }

    /// The file that holds the configuration document.
    pub open spec fn config_path(self) -> Option<Seq<char>> {
        match self.config_dir {
            Some(d) => Some(path_join(d, "config.json"@)),
            None => None,
        }
    }

    /// The root of the work directories: a hidden directory in the user's
    /// home, else the data directory, else the current directory.
    pub open spec fn work_root(self) -> Seq<char> {
        match self.home {
            Some(h) => path_join(h, ".runnerbuddy"@),
            None => match self.data_dir {
                Some(d) => d,
                None => "."@,
            },
        }
    }

    /// The work directory that a runner gets by default.
    pub open spec fn default_work_dir(self, runner_id: Seq<char>) -> Seq<char> {
        path_join(path_join(self.work_root(), "work"@), runner_id)
    }

    /// `path` with a leading `~/` replaced by the home directory, where one is known.
    pub open spec fn expand(self, path: Seq<char>) -> Seq<char> {
        if starts_with(path, "~/"@) && self.home is Some {
            path_join(self.home->0, path.skip(2))
        } else {
            path
        }
    }
}

/// The error of every operation that needs the application's directories
/// where the platform could not name them.
pub open spec fn no_project_dirs() -> crate::errors::ErrorView {
    crate::errors::ErrorView::Config("failed to resolve project directories"@)
}

/// What an optional path, or the lack of the application's directories, gives a caller.
pub open spec fn dir_result(path: Option<Seq<char>>, r: Result<String, Error>) -> bool {
    match path {
        Some(p) => r is Ok && r->Ok_0@ == p,
        None => r is Err && r->Err_0@ == no_project_dirs(),
    }
}

fn missing_project_dirs() -> (e: Error)
    ensures
        e@ == no_project_dirs(),
{
    Error::Config("failed to resolve project directories".to_string())
}

impl AppDirs {
    /// Asks the platform for the directories of the application named
    /// `RunnerBuddy` and of the current user. The answer is the platform's
    /// and differs from account to account, so nothing is promised of it:
    /// what is made of an answer is stated by the methods below.
    pub fn resolve() -> AppDirs {
        let project = match project_dirs("com", "runnerbuddy", "RunnerBuddy") {
            Some(dirs) => Some(
                ProjectPaths {
                    config_dir: project_config_dir(&dirs),
                    data_dir: project_data_dir(&dirs),
                },
            ),
            None => None,
        };
        let home = match user_dirs() {
            Some(dirs) => Some(user_home_dir(&dirs)),
            None => None,
        };
        AppDirs { project, home }
    }

    /// The file that holds the configuration document.
    pub fn config_path(&self) -> (r: Result<String, Error>)
        ensures
            dir_result(self@.config_path(), r),
    {
        match &self.project {
            Some(p) => Ok(join_path(p.config_dir.as_str(), "config.json")),
            None => Err(missing_project_dirs()),
        }
    }

    /// The application's data directory.
    pub fn data_dir(&self) -> (r: Result<String, Error>)
        ensures
            dir_result(self@.data_dir, r),
    {
        match &self.project {
            Some(p) => Ok(p.data_dir.clone()),
            None => Err(missing_project_dirs()),
        }
    }

    /// The directory that holds everything the application logs.
    pub fn logs_dir(&self) -> (r: Result<String, Error>)
        ensures
            dir_result(self@.logs_dir(), r),
    {
        match &self.project {
            Some(p) => Ok(join_path(p.data_dir.as_str(), "logs")),
            None => Err(missing_project_dirs()),
        }
    }

    /// The directory that holds the captured output of one runner.
    pub fn runner_logs_dir(&self, runner_id: &str) -> (r: Result<String, Error>)
        ensures
            dir_result(self@.runner_logs_dir(runner_id@), r),
    {
        match self.logs_dir() {
            Ok(d) => Ok(join_path(d.as_str(), runner_id)),
            Err(e) => Err(e),
        }
    }

    /// The root under which the application keeps the installs it manages.
    pub fn managed_runners_dir(&self) -> (r: Result<String, Error>)
        ensures
            dir_result(self@.managed_runners_dir(), r),
    {
        match &self.project {
            Some(p) => Ok(join_path(p.data_dir.as_str(), "runners")),
            None => Err(missing_project_dirs()),
        }
    }

    /// Where the application installs the runner with the given identity.
    pub fn default_install_path(&self, runner_id: &str) -> (r: Result<String, Error>)
        ensures
            dir_result(self@.default_install_path(runner_id@), r),
    {
        match self.managed_runners_dir() {
            Ok(d) => Ok(join_path(d.as_str(), runner_id)),
            Err(e) => Err(e),
        }
    }

    /// The work directory that a runner gets by default.
    pub fn default_work_dir(&self, runner_id: &str) -> (r: String)
        ensures
            r@ == self@.default_work_dir(runner_id@),
    {
        let root = match &self.home {
            Some(h) => join_path(h.as_str(), ".runnerbuddy"),
            None => match &self.project {
                Some(p) => p.data_dir.clone(),
                None => ".".to_string(),
            },
        };
        let work = join_path(root.as_str(), "work");
        join_path(work.as_str(), runner_id)
    }

    /// `path` with a leading `~/` replaced by the home directory, where one is known.
    pub fn expand_path(&self, path: &str) -> (r: String)
        ensures
            r@ == self@.expand(path@),
    {
        let chars = chars_of(path);
        let tilde = chars_of("~/");
        proof {
            reveal_strlit("~/");
        }
        if begins_with(&chars, &tilde) {
            match &self.home {
                Some(h) => {
                    let rest = slice_of(&chars, 2, chars.len());
                    assert(chars@.subrange(2, chars.len() as int) == chars@.skip(2));
                    let rest = string_of(&rest);
                    return join_path(h.as_str(), rest.as_str());
                },
                None => {},
            }
        }
        path.to_string()
    }
}

/// The file that holds the configuration document, for the current user.
pub fn config_path() -> (r: Result<String, Error>)
    ensures
        exists|dirs: AppDirsView| #[trigger] dir_result(dirs.config_path(), r),
{
    let dirs = AppDirs::resolve();
    let r = dirs.config_path();
    assert(dir_result(dirs@.config_path(), r));
    r
}

/// The application's data directory, for the current user.
pub fn data_dir() -> (r: Result<String, Error>)
    ensures
        exists|dirs: AppDirsView| #[trigger] dir_result(dirs.data_dir, r),
{
    let dirs = AppDirs::resolve();
    let r = dirs.data_dir();
    assert(dir_result(dirs@.data_dir, r));
    r
}

/// The application's log directory, for the current user.
pub fn logs_dir() -> (r: Result<String, Error>)
    ensures
        exists|dirs: AppDirsView| #[trigger] dir_result(dirs.logs_dir(), r),
{
    let dirs = AppDirs::resolve();
    let r = dirs.logs_dir();
    assert(dir_result(dirs@.logs_dir(), r));
    r
}

/// The directory of one runner's captured output, for the current user.
pub fn runner_logs_dir(runner_id: &str) -> (r: Result<String, Error>)
    ensures
        exists|dirs: AppDirsView| #[trigger] dir_result(dirs.runner_logs_dir(runner_id@), r),
{
    let dirs = AppDirs::resolve();
    let r = dirs.runner_logs_dir(runner_id);
    assert(dir_result(dirs@.runner_logs_dir(runner_id@), r));
    r
}

/// The root of the managed installs, for the current user.
pub fn managed_runners_dir() -> (r: Result<String, Error>)
    ensures
        exists|dirs: AppDirsView| #[trigger] dir_result(dirs.managed_runners_dir(), r),
{
    let dirs = AppDirs::resolve();
    let r = dirs.managed_runners_dir();
    assert(dir_result(dirs@.managed_runners_dir(), r));
    r
}

/// Where the application installs the runner with the given identity, for the current user.
pub fn default_install_path(runner_id: &str) -> (r: Result<String, Error>)
    ensures
        exists|dirs: AppDirsView| #[trigger] dir_result(dirs.default_install_path(runner_id@), r),
{
    let dirs = AppDirs::resolve();
    let r = dirs.default_install_path(runner_id);
    assert(dir_result(dirs@.default_install_path(runner_id@), r));
    r
}

/// The work directory that a runner gets by default, for the current user.
pub fn default_work_dir(runner_id: &str) -> (r: String)
    ensures
        exists|dirs: AppDirsView| r@ == #[trigger] dirs.default_work_dir(runner_id@),
{
    let dirs = AppDirs::resolve();
    let r = dirs.default_work_dir(runner_id);
    assert(r@ == dirs@.default_work_dir(runner_id@));
    r
}

/// `path` with a leading `~/` replaced by the current user's home directory.
pub fn expand_path(path: &str) -> (r: String)
    ensures
        exists|dirs: AppDirsView| r@ == #[trigger] dirs.expand(path@),
{
    let dirs = AppDirs::resolve();
    let r = dirs.expand_path(path);
    assert(r@ == dirs@.expand(path@));
    r
}

// ---------------------------------------------------------------------------
// Platform, host name, clock, identifiers
// ---------------------------------------------------------------------------

/// What the process environment says about the machine: the operating
/// system and architecture the program was built for, and the host name
/// variables.
#[derive(Debug)]
pub struct HostInfo {
    /// The operating system, as `std::env::consts::OS` names it.
    pub os: String,
    /// The architecture, as `std::env::consts::ARCH` names it.
    pub arch: String,
    /// The value of `HOSTNAME`, if set.
    pub hostname_var: Option<String>,
    /// The value of `COMPUTERNAME`, if set.
    pub computername_var: Option<String>,
}

/// The view of [`HostInfo`].
pub struct HostView {
    pub os: Seq<char>,
    pub arch: Seq<char>,
    pub hostname_var: Option<Seq<char>>,
    pub computername_var: Option<Seq<char>>,
}

impl View for HostInfo {
    type V = HostView;

    open spec fn view(&self) -> HostView {
        HostView {
            os: self.os@,
            arch: self.arch@,
            hostname_var: crate::config::opt_text(self.hostname_var),
            computername_var: crate::config::opt_text(self.computername_var),
        }
    }
}

/// `s` with every character in upper case, as `str::to_uppercase` gives it.
pub uninterp spec fn uppercase(s: Seq<char>) -> Seq<char>;

/// `str::to_uppercase`: the result depends on the text alone.
#[verifier::external_body]
pub(crate) fn to_uppercase(s: &str) -> (r: String)
    ensures
        r@ == uppercase(s@),
{
    s.to_uppercase()
}

/// `s` with every character in lower case, as `str::to_lowercase` gives it.
pub uninterp spec fn lowercase(s: Seq<char>) -> Seq<char>;

/// `str::to_lowercase`: the result depends on the text alone.
#[verifier::external_body]
pub(crate) fn to_lowercase(s: &str) -> (r: String)
    ensures
        r@ == lowercase(s@),
{
    s.to_lowercase()
}

/// `hostname::get`: the host name of the machine, where the system gives
/// one that is valid Unicode. The answer depends on the machine.
#[verifier::external_body]
fn system_hostname() -> Option<String> {
    hostname::get().ok().and_then(|name| name.into_string().ok())
}

/// `uuid::Uuid`, carried through as it is.
#[verifier::external_type_specification]
#[verifier::external_body]
pub struct ExUuid(uuid::Uuid);

/// The sixteen bytes that make up an identifier, as `uuid::Uuid::as_bytes`
/// hands them out.
pub uninterp spec fn uuid_bytes(id: uuid::Uuid) -> Seq<u8>;

/// Whether the bytes are those of a random identifier: sixteen of them, with
/// the version 4 in the high half of the seventh and the bits `10` at the
/// top of the ninth. All other bits are free.
pub open spec fn is_random_id(bytes: Seq<u8>) -> bool {
    &&& bytes.len() == 16
    &&& bytes[6] / 16 == 4
    &&& bytes[8] / 64 == 2
}

/// The text of an identifier: its bytes in lower-case hexadecimal, in groups
/// of four, two, two, two and six bytes with a hyphen between them.
pub open spec fn id_text(bytes: Seq<u8>) -> Seq<char> {
    hex_of(bytes.subrange(0, 4)) + seq!['-'] + hex_of(bytes.subrange(4, 6)) + seq!['-'] + hex_of(
        bytes.subrange(6, 8),
    ) + seq!['-'] + hex_of(bytes.subrange(8, 10)) + seq!['-'] + hex_of(bytes.subrange(10, 16))
}

/// Whether a text is that of a random identifier.
pub open spec fn is_random_id_text(text: Seq<char>) -> bool {
    exists|bytes: Seq<u8>| is_random_id(bytes) && text == #[trigger] id_text(bytes)
}

/// `uuid::Uuid::new_v4`: an identifier of sixteen random bytes in which the
/// version and the variant are set as for every random identifier.
#[verifier::external_body]
fn random_uuid() -> (r: uuid::Uuid)
    ensures
        is_random_id(uuid_bytes(r)),
{
    uuid::Uuid::new_v4()
}

/// `to_string` of a `uuid::Uuid`: its `Display` writes the bytes in
/// lower-case hexadecimal, hyphenated.
#[verifier::external_body]
fn uuid_text(id: &uuid::Uuid) -> (r: String)
    ensures
        r@ == id_text(uuid_bytes(*id)),
{
    id.to_string()
}

/// How far a time of the system lies from the Unix epoch, in nanoseconds:
/// negative for a time before the epoch.
pub uninterp spec fn unix_nanos(t: std::time::SystemTime) -> int;

/// The RFC 3339 text of the moment that lies the given number of
/// nanoseconds from the Unix epoch, in UTC, as the `time` crate writes it;
/// `None` for a moment that it cannot write in that form.
pub uninterp spec fn rfc3339_text(nanos: int) -> Option<Seq<char>>;

/// A distance from the Unix epoch in whole seconds and the nanoseconds
/// beyond them, before the epoch or after it.
#[derive(Debug)]
pub struct EpochOffset {
    pub before: bool,
    pub secs: u64,
    pub subsec_nanos: u32,
}

impl EpochOffset {
    /// The distance in nanoseconds, negative before the epoch.
    pub open spec fn total(self) -> int {
        if self.before {
            -(self.secs * 1_000_000_000 + self.subsec_nanos)
        } else {
            self.secs * 1_000_000_000 + self.subsec_nanos
        }
    }

    /// The distance in nanoseconds, negative before the epoch.
    pub fn nanos(&self) -> (r: i128)
        ensures
            r == self.total(),
    {
        let secs: i128 = self.secs as i128;
        let sub: i128 = self.subsec_nanos as i128;
        let distance: i128 = secs * 1_000_000_000 + sub;
        if self.before {
            -distance
        } else {
            distance
        }
    }
}

/// `std::time::SystemTime`, carried through as it is.
#[verifier::external_type_specification]
#[verifier::external_body]
pub struct ExSystemTime(std::time::SystemTime);

/// `SystemTime::duration_since` with `UNIX_EPOCH`: the duration by which
/// the time lies after the epoch, or, as the error has it, before. A
/// duration is held as whole seconds and fewer than a thousand million
/// nanoseconds.
#[verifier::external_body]
fn since_epoch(t: std::time::SystemTime) -> (r: EpochOffset)
    ensures
        r.total() == unix_nanos(t),
        r.subsec_nanos < 1_000_000_000,
{
    match t.duration_since(std::time::UNIX_EPOCH) {
        Ok(d) => EpochOffset { before: false, secs: d.as_secs(), subsec_nanos: d.subsec_nanos() },
        Err(e) => EpochOffset {
            before: true,
            secs: e.duration().as_secs(),
            subsec_nanos: e.duration().subsec_nanos(),
        },
    }
}

/// `time::OffsetDateTime::now_utc`, read with `unix_timestamp_nanos`: the
/// current time as nanoseconds from the Unix epoch.
#[verifier::external_body]
fn utc_now_nanos() -> i128 {
    time::OffsetDateTime::now_utc().unix_timestamp_nanos()
}

/// `time::OffsetDateTime::format` with the RFC 3339 description, on the
/// moment that `time::OffsetDateTime::from_unix_timestamp_nanos` makes of
/// the number. The text depends on the number alone. `None` where the crate
/// has no date for the number, or none that the form can hold.
#[verifier::external_body]
fn rfc3339_at(nanos: i128) -> (r: Option<String>)
    ensures
        crate::config::opt_text(r) == rfc3339_text(nanos as int),
{
    match time::OffsetDateTime::from_unix_timestamp_nanos(nanos) {
        Ok(t) => t.format(&time::format_description::well_known::Rfc3339).ok(),
        Err(_) => None,
    }
}

/// The name candidate with surrounding white space removed; `None` where nothing is left.
pub open spec fn normalized_name(name: Option<Seq<char>>) -> Option<Seq<char>> {
    match name {
        Some(n) => if trim(n).len() > 0 {
            Some(trim(n))
        } else {
            None
        },
        None => None,
    }
}

/// The runner name chosen from the candidates: the system's host name, then
/// the two environment variables, then a fixed name. A candidate counts if
/// something is left of it after trimming.
pub open spec fn runner_name_choice(system: Option<Seq<char>>, host: HostView) -> Seq<char> {
    if normalized_name(system) is Some {
        normalized_name(system)->0
    } else if normalized_name(host.hostname_var) is Some {
        normalized_name(host.hostname_var)->0
    } else if normalized_name(host.computername_var) is Some {
        normalized_name(host.computername_var)->0
    } else {
        "runnerbuddy"@
    }
}

fn normalize_name(name: &Option<String>) -> (r: Option<String>)
    ensures
        crate::config::opt_text(r) == normalized_name(crate::config::opt_text(*name)),
{
    match name {
        Some(n) => {
            let chars = chars_of(n.as_str());
            let t = strip(&chars, CharClass::Whitespace);
            if t.len() > 0 {
                Some(string_of(&t))
            } else {
                None
            }
        },
        None => None,
    }
}

/// The runner name chosen from the given host name and the environment.
pub fn pick_runner_name(system: &Option<String>, host: &HostInfo) -> (r: String)
    ensures
        r@ == runner_name_choice(crate::config::opt_text(*system), host@),
{
    if let Some(name) = normalize_name(system) {
        return name;
    }
    if let Some(name) = normalize_name(&host.hostname_var) {
        return name;
    }
    if let Some(name) = normalize_name(&host.computername_var) {
        return name;
    }
    "runnerbuddy".to_string()
}

/// The name a runner gets when none was given: chosen from the system's
/// host name and the environment.
pub fn default_runner_name(host: &HostInfo) -> (r: String)
    ensures
        exists|system: Option<Seq<char>>| r@ == #[trigger] runner_name_choice(system, host@),
{
    let system = system_hostname();
    let r = pick_runner_name(&system, host);
    assert(r@ == runner_name_choice(crate::config::opt_text(system), host@));
    r
}

/// The label that names an operating system.
pub open spec fn platform_label_of(os: Seq<char>) -> Seq<char> {
    if os == "macos"@ {
        "macOS"@
    } else if os == "windows"@ {
        "Windows"@
    } else if os == "linux"@ {
        "Linux"@
    } else {
        os
    }
}

/// The label that names an operating system.
pub fn platform_label(os: &str) -> (r: String)
    ensures
        r@ == platform_label_of(os@),
{
    if crate::text::str_eq(os, "macos") {
        "macOS".to_string()
    } else if crate::text::str_eq(os, "windows") {
        "Windows".to_string()
    } else if crate::text::str_eq(os, "linux") {
        "Linux".to_string()
    } else {
        os.to_string()
    }
}

/// The labels a runner gets when none were given.
pub open spec fn default_labels(host: HostView) -> Seq<Seq<char>> {
    seq!["self-hosted"@, platform_label_of(host.os), uppercase(host.arch)]
}

/// The labels a runner gets when none were given: self-hosted, the
/// operating system and the architecture.
pub fn default_runner_labels(host: &HostInfo) -> (r: Vec<String>)
    ensures
        crate::text::strings(r@) == default_labels(host@),
{
    let mut labels: Vec<String> = Vec::new();
    labels.push("self-hosted".to_string());
    labels.push(platform_label(host.os.as_str()));
    labels.push(to_uppercase(host.arch.as_str()));
    assert(crate::text::strings(labels@) =~= default_labels(host@));
    labels
}

/// The time to record where the clock's reading cannot be written down.
pub open spec fn epoch() -> Seq<char> {
    "1970-01-01T00:00:00Z"@
}

/// The formatted time, or the epoch where formatting failed.
pub fn timestamp_or_epoch(formatted: Option<String>) -> (r: String)
    ensures
        r@ == match formatted {
            Some(t) => t@,
            None => epoch(),
        },
{
    match formatted {
        Some(t) => t,
        None => "1970-01-01T00:00:00Z".to_string(),
    }
}

/// The text to record for a time: its RFC 3339 form, or the epoch's where it has none.
pub open spec fn stamp(formatted: Option<Seq<char>>) -> Seq<char> {
    match formatted {
        Some(t) => t,
        None => epoch(),
    }
}

/// The current time in RFC 3339 form: the text of one moment, or of the
/// epoch where the clock shows a moment that has no such text.
pub fn now_iso8601() -> (r: String)
    ensures
        exists|nanos: int| r@ == stamp(#[trigger] rfc3339_text(nanos)),
{
    let nanos: i128 = utc_now_nanos();
    let r = timestamp_or_epoch(rfc3339_at(nanos));
    assert(r@ == stamp(rfc3339_text(nanos as int)));
    r
}

/// A fresh random identifier for a runner profile: the text of sixteen
/// bytes that are random but for the marks of a random identifier.
pub fn new_runner_id() -> (r: String)
    ensures
        is_random_id_text(r@),
{
    let id = random_uuid();
    let r = uuid_text(&id);
    assert(is_random_id(uuid_bytes(id)) && r@ == id_text(uuid_bytes(id)));
    r
}

/// Whether the operating system is Windows.
pub fn is_windows(host: &HostInfo) -> (r: bool)
    ensures
        r == (host@.os == "windows"@),
{
    crate::text::str_eq(host.os.as_str(), "windows")
}

/// The values that a new profile takes from its surroundings: a fresh
/// identity, the time of creation, and the defaults for what was not given.
#[derive(Debug)]
pub struct ProfileSeed {
    pub runner_id: String,
    pub created_at: String,
    /// The name for a runner that has none.
    pub runner_name: String,
    /// The labels for a runner that has none.
    pub labels: Vec<String>,
    /// The work directory for a runner that has none.
    pub work_dir: String,
    /// The managed install location of the profile; `None` where the
    /// application's directories are unknown.
    pub install_path: Option<String>,
}

/// The view of a [`ProfileSeed`].
pub struct SeedView {
    pub runner_id: Seq<char>,
    pub created_at: Seq<char>,
    pub runner_name: Seq<char>,
    pub labels: Seq<Seq<char>>,
    pub work_dir: Seq<char>,
    pub install_path: Option<Seq<char>>,
}

impl View for ProfileSeed {
    type V = SeedView;

    open spec fn view(&self) -> SeedView {
        SeedView {
            runner_id: self.runner_id@,
            created_at: self.created_at@,
            runner_name: self.runner_name@,
            labels: crate::text::strings(self.labels@),
            work_dir: self.work_dir@,
            install_path: crate::config::opt_text(self.install_path),
        }
    }
}

/// Whether a seed is one that the given surroundings give: its identity
/// is the text of a random identifier, its time of creation is the text of
/// a moment, and its defaults are those of the surroundings.
pub open spec fn seed_fits(seed: SeedView, host: HostView, dirs: AppDirsView) -> bool {
    &&& is_random_id_text(seed.runner_id)
    &&& exists|nanos: int| seed.created_at == stamp(#[trigger] rfc3339_text(nanos))
    &&& seed.labels == default_labels(host)
    &&& seed.work_dir == dirs.default_work_dir(seed.runner_id)
    &&& seed.install_path == dirs.default_install_path(seed.runner_id)
    &&& exists|system: Option<Seq<char>>|
        seed.runner_name == #[trigger] runner_name_choice(system, host)
}

impl ProfileSeed {
    /// A seed with a random identity, the current time, and the defaults of
    /// the given surroundings.
    pub fn fresh(host: &HostInfo, dirs: &AppDirs) -> (r: ProfileSeed)
        ensures
            seed_fits(r@, host@, dirs@),
    {
        let runner_id = new_runner_id();
        let install_path = match dirs.default_install_path(runner_id.as_str()) {
            Ok(p) => Some(p),
            Err(_) => None,
        };
        let system = system_hostname();
        let runner_name = pick_runner_name(&system, host);
        assert(runner_name@ == runner_name_choice(crate::config::opt_text(system), host@));
        ProfileSeed {
            work_dir: dirs.default_work_dir(runner_id.as_str()),
            install_path,
            runner_name,
            labels: default_runner_labels(host),
            created_at: now_iso8601(),
            runner_id,
        }
    }
}

/// A time of the file system in RFC 3339 form; `None` where it cannot be
/// written in that form.
pub fn timestamp_of(t: std::time::SystemTime) -> (r: Option<String>)
    ensures
        crate::config::opt_text(r) == rfc3339_text(unix_nanos(t)),
{
    let offset = since_epoch(t);
    rfc3339_at(offset.nanos())
}

} // verus!
