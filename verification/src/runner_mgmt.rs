//! The runner itself: its releases, its scripts, and what its log says
//! about it.

use vstd::prelude::*;
use crate::config::{
    opt_scope, opt_text, ConfigView, InstallMode, InstallView, ProfileView, RunnerProfile,
    RunnerScope, ScopeView,
};
use crate::procedure::{Action, ActionView};
use crate::store::{found_runner, index_of_runner, sanitized, selection_valid, ConfigStore};
use crate::errors::{Error, ErrorView};
use crate::host::{path_join, AppDirs, AppDirsView};
use crate::logging::{scrubbed, Scrubber};
use crate::state::RunnerStatus;
use crate::text::{
    chars_of, concat2, concat3, contains, lines, lines_of, string_of, strings, texts,
    trim_start_by, CharClass,
};

verus! {

/// How many lines at the end of a log count.
pub const RECENT_LINES: usize = 2000;

/// The index of the first of the lines that count: the last
/// [`RECENT_LINES`] lines do.
pub open spec fn recent_from(count: int) -> int {
    if count > RECENT_LINES as int {
        count - RECENT_LINES as int
    } else {
        0
    }
}

/// Whether a line, scrubbed, holds one of the given markers.
pub open spec fn line_has_any(line: Seq<char>, markers: Seq<Seq<char>>) -> bool {
    exists|m: int| 0 <= m < markers.len() && contains(scrubbed(line), #[trigger] markers[m])
}

/// Whether one of the lines that count holds one of the given markers.
pub open spec fn recently_marked(content: Seq<char>, markers: Seq<Seq<char>>) -> bool {
    exists|k: int|
        recent_from(lines(content).len() as int) <= k < lines(content).len() && line_has_any(
            #[trigger] lines(content)[k],
            markers,
        )
}

/// The markers by which a runner says that it is connected and waits for work.
pub open spec fn ready_markers() -> Seq<Seq<char>> {
    seq![
        "Listening for Jobs"@,
        "Listening for jobs"@,
        "Runner listener started"@,
        "Runner started"@,
        "Connected to GitHub"@,
    ]
}

/// The markers by which a runner says that a job began.
pub open spec fn job_start_markers() -> Seq<Seq<char>> {
    seq!["Running job:"@, "Job started"@]
}

/// The markers by which a runner says that a job ended.
pub open spec fn job_end_markers() -> Seq<Seq<char>> {
    seq!["Job completed"@, "Job finished"@]
}

/// The texts of string slices.
pub open spec fn slices(v: Seq<&str>) -> Seq<Seq<char>> {
    Seq::new(v.len(), |i: int| v[i]@)
}

fn has_any(line: &str, markers: &Vec<&str>) -> (r: bool)
    ensures
        r == (exists|m: int| 0 <= m < markers@.len() && contains(line@, #[trigger] markers@[m]@)),
{
    let mut m: usize = 0;
    while m < markers.len()
        invariant
            m <= markers.len(),
            forall|j: int| 0 <= j < m ==> !contains(line@, #[trigger] markers@[j]@),
        decreases markers.len() - m,
    {
        if crate::text::str_contains(line, markers[m]) {
            return true;
        }
        m += 1;
    }
    false
}

fn marked_recently(content: &str, markers: &Vec<&str>, scrubber: &Scrubber) -> (r: bool)
    requires
        scrubber.wf(),
    ensures
        r == recently_marked(content@, slices(markers@)),
{
    let ghost names = slices(markers@);
    let chars = chars_of(content);
    let all = lines_of(&chars);
    let ghost ls = lines(content@);
    assert(texts(all@) == ls);
    let n = all.len();
    let first = if n > RECENT_LINES {
        n - RECENT_LINES
    } else {
        0
    };
    let mut k: usize = first;
    while k < n
        invariant
            first <= k <= n,
            n == all.len(),
            first == recent_from(ls.len() as int),
            texts(all@) == ls,
            ls == lines(content@),
            scrubber.wf(),
            names == slices(markers@),
            forall|j: int| first <= j < k ==> !line_has_any(#[trigger] ls[j], names),
        decreases n - k,
    {
        assert(ls[k as int] == all@[k as int]@);
        let line = string_of(&all[k]);
        let clean = scrubber.scrub(line.as_str());
        let found = has_any(clean.as_str(), markers);
        proof {
            if found {
                let m = choose|m: int| 0 <= m < markers@.len() && contains(clean@, #[trigger] markers@[m]@);
                assert(names[m] == markers@[m]@);
                assert(line_has_any(ls[k as int], names));
                assert(recently_marked(content@, names));
            } else {
                assert forall|m: int| 0 <= m < names.len() implies !contains(
                    scrubbed(ls[k as int]),
                    #[trigger] names[m],
                ) by {
                    assert(names[m] == markers@[m]@);
                }
            }
        }
        if found {
            return true;
        }
        k += 1;
    }
    false
}

fn ready_marker_list() -> (r: Vec<&'static str>)
    ensures
        slices(r@) == ready_markers(),
{
    let mut r: Vec<&'static str> = Vec::new();
    r.push("Listening for Jobs");
    r.push("Listening for jobs");
    r.push("Runner listener started");
    r.push("Runner started");
    r.push("Connected to GitHub");
    assert(slices(r@) =~= ready_markers());
    r
}

/// Whether the text holds the readiness marker in one of its last lines.
pub fn has_ready_marker(content: &str) -> (r: bool)
    ensures
        r == recently_marked(content@, ready_markers()),
{
    let scrubber = Scrubber::new();
    marked_recently(content, &ready_marker_list(), &scrubber)
}

/// What of a log has been seen: at most one file, up to some length in characters.
#[derive(Debug)]
pub struct LogBaseline {
    /// The log file that was the latest, if there was one.
    pub file: Option<String>,
    /// Number of characters that it held.
    pub seen: usize,
}

/// What of a log was written after the baseline: all of another file than
/// the one seen; of the same file what follows the part seen, or all of it
/// where it has become shorter.
pub open spec fn written_since(baseline_file: Option<Seq<char>>, seen: int, file: Seq<char>, content: Seq<char>) -> Seq<char> {
    if baseline_file == Some(file) && seen <= content.len() {
        content.skip(seen)
    } else {
        content
    }
}

/// The baseline for a log file and what it holds now.
pub fn log_baseline(file: Option<String>, content: &str) -> (r: LogBaseline)
    ensures
        opt_text(r.file) == opt_text(file),
        r.seen == if file is Some {
            content@.len()
        } else {
            0
        },
{
    let seen = if file.is_some() {
        content.unicode_len()
    } else {
        0
    };
    LogBaseline { file, seen }
}

/// Whether the readiness marker appears in what was written to the log
/// after the baseline. Lines that were there before do not count.
pub fn has_ready_marker_since(baseline: &LogBaseline, file: &str, content: &str) -> (r: bool)
    ensures
        r == recently_marked(
            written_since(opt_text(baseline.file), baseline.seen as int, file@, content@),
            ready_markers(),
        ),
{
    let same = match &baseline.file {
        Some(f) => crate::text::str_eq(f.as_str(), file),
        None => false,
    };
    let chars = chars_of(content);
    if same && baseline.seen <= chars.len() {
        let rest = crate::text::slice_of(&chars, baseline.seen, chars.len());
        assert(chars@.subrange(baseline.seen as int, chars.len() as int) == content@.skip(
            baseline.seen as int,
        ));
        let fresh = string_of(&rest);
        has_ready_marker(fresh.as_str())
    } else {
        has_ready_marker(content)
    }
}

/// What a log says of a runner: it runs a job if one of its last lines
/// tells of a job that began and none tells of a job that ended; else it
/// is idle. Without a log the runner is idle.
pub open spec fn status_in_log(content: Option<Seq<char>>) -> RunnerStatus {
    match content {
        None => RunnerStatus::Idle,
        Some(c) => if recently_marked(c, job_start_markers()) && !recently_marked(
            c,
            job_end_markers(),
        ) {
            RunnerStatus::Running
        } else {
            RunnerStatus::Idle
        },
    }
}

/// What the latest log says of a runner. `content` is `None` where there is no log.
pub fn classify_runner_status(content: Option<&str>) -> (r: RunnerStatus)
    ensures
        r == status_in_log(
            match content {
                Some(c) => Some(c@),
                None => None,
            },
        ),
{
    let c = match content {
        Some(c) => c,
        None => {
            return RunnerStatus::Idle;
        },
    };
    let scrubber = Scrubber::new();
    let mut starts: Vec<&'static str> = Vec::new();
    starts.push("Running job:");
    starts.push("Job started");
    assert(slices(starts@) =~= job_start_markers());
    let mut ends: Vec<&'static str> = Vec::new();
    ends.push("Job completed");
    ends.push("Job finished");
    assert(slices(ends@) =~= job_end_markers());
    let started = marked_recently(c, &starts, &scrubber);
    let ended = marked_recently(c, &ends, &scrubber);
    if started && !ended {
        RunnerStatus::Running
    } else {
        RunnerStatus::Idle
    }
}

// ---------------------------------------------------------------------------
// The install and its scripts
// ---------------------------------------------------------------------------

/// The diagnostics directory of a profile's install.
pub open spec fn log_dir_of(profile: ProfileView, dirs: AppDirsView) -> Seq<char> {
    path_join(dirs.expand(profile.install.install_path), "_diag"@)
}

/// The diagnostics directory of a profile's install.
pub fn runner_log_dir(profile: &RunnerProfile, dirs: &AppDirs) -> (r: String)
    ensures
        r@ == log_dir_of(profile@, dirs@),
{
    let install = dirs.expand_path(profile.install.install_path.as_str());
    crate::host::join_path(install.as_str(), "_diag")
}

/// A file of a log directory and when it was last written, in
/// nanoseconds since the epoch; `None` where that is unknown.
#[derive(Debug)]
pub struct LogFile {
    pub path: String,
    pub modified: Option<u128>,
}

/// Whether a file was written no later than another; a file of which
/// that is unknown counts as older than any other.
pub open spec fn no_later(a: Option<u128>, b: Option<u128>) -> bool {
    match (a, b) {
        (None, _) => true,
        (Some(_), None) => false,
        (Some(x), Some(y)) => x <= y,
    }
}

/// The index of the latest file: the last of those that were written last.
pub open spec fn latest_index(times: Seq<Option<u128>>) -> int
    decreases times.len(),
{
    if times.len() <= 1 {
        0
    } else {
        let before = latest_index(times.drop_last());
        if no_later(times[before], times.last()) {
            times.len() - 1
        } else {
            before
        }
    }
}

/// The times of log files.
pub open spec fn times_of(files: Seq<LogFile>) -> Seq<Option<u128>> {
    Seq::new(files.len(), |i: int| files[i].modified)
}

fn is_no_later(a: Option<u128>, b: Option<u128>) -> (r: bool)
    ensures
        r == no_later(a, b),
{
    match (a, b) {
        (None, _) => true,
        (Some(_), None) => false,
        (Some(x), Some(y)) => x <= y,
    }
}

/// The latest of the files of a log directory: the one that was written
/// last, and of several such the last in the listing.
pub fn latest_log_file(files: &Vec<LogFile>) -> (r: Option<String>)
    ensures
        match r {
            Some(path) => files@.len() > 0 && path@ == files@[latest_index(
                times_of(files@),
            )].path@,
            None => files@.len() == 0,
        },
{
    if files.len() == 0 {
        return None;
    }
    let ghost times = times_of(files@);
    let mut best: usize = 0;
    let mut i: usize = 1;
    assert(latest_index(times.take(1)) == 0);
    while i < files.len()
        invariant
            1 <= i <= files.len(),
            best < i,
            times == times_of(files@),
            best == latest_index(times.take(i as int)),
        decreases files.len() - i,
    {
        assert(times.take(i + 1).drop_last() == times.take(i as int));
        assert(times.take(i + 1).last() == files@[i as int].modified);
        assert(times.take(i + 1)[best as int] == files@[best as int].modified);
        if is_no_later(files[best].modified, files[i].modified) {
            best = i;
        }
        i += 1;
    }
    assert(times.take(files.len() as int) == times);
    Some(files[best].path.clone())
}

/// A path in quotes, as the `Debug` form of a path gives it.
pub uninterp spec fn quoted_path(path: Seq<char>) -> Seq<char>;

/// The `Debug` form of a path: the path in double quotes, with what needs escaping escaped.
#[verifier::external_body]
pub(crate) fn quote_path(path: &str) -> (r: String)
    ensures
        r@ == quoted_path(path@),
{
    format!("{:?}", std::path::Path::new(path))
}

/// The script of an install, or the error that it is missing.
pub open spec fn script_or_missing(
    install_path: Seq<char>,
    name: Seq<char>,
    what: Seq<char>,
    exists: bool,
) -> Result<Seq<char>, ErrorView> {
    if exists {
        Ok(path_join(install_path, name))
    } else {
        Err(
            ErrorView::Runner(
                "runner "@ + what + " script not found at "@ + quoted_path(
                    path_join(install_path, name),
                ),
            ),
        )
    }
}

/// The view of a path or of the error in its place.
pub open spec fn path_result(r: Result<String, Error>) -> Result<Seq<char>, ErrorView> {
    match r {
        Ok(p) => Ok(p@),
        Err(e) => Err(e@),
    }
}

/// The name of the configure script of a platform.
pub open spec fn config_script_name(windows: bool) -> Seq<char> {
    if windows {
        "config.cmd"@
    } else {
        "config.sh"@
    }
}

/// The name of the run script of a platform.
pub open spec fn run_script_name(windows: bool) -> Seq<char> {
    if windows {
        "run.cmd"@
    } else {
        "run.sh"@
    }
}

/// The path of the configure script of an install.
pub fn config_script_path(install_path: &str, windows: bool) -> (r: String)
    ensures
        r@ == path_join(install_path@, config_script_name(windows)),
{
    crate::host::join_path(
        install_path,
        if windows {
            "config.cmd"
        } else {
            "config.sh"
        },
    )
}

/// The path of the run script of an install.
pub fn run_script_path(install_path: &str, windows: bool) -> (r: String)
    ensures
        r@ == path_join(install_path@, run_script_name(windows)),
{
    crate::host::join_path(
        install_path,
        if windows {
            "run.cmd"
        } else {
            "run.sh"
        },
    )
}

/// The configure script of an install; `exists` says whether the file at
/// [`config_script_path`] exists.
pub fn runner_config_script(install_path: &str, windows: bool, exists: bool) -> (r: Result<
    String,
    Error,
>)
    ensures
        path_result(r) == script_or_missing(
            install_path@,
            config_script_name(windows),
            "config"@,
            exists,
        ),
{
    let script = config_script_path(install_path, windows);
    if !exists {
        let quoted = quote_path(script.as_str());
        return Err(
            Error::Runner(concat3("runner ", "config", " script not found at ").concat(quoted.as_str())),
        );
    }
    Ok(script)
}

/// The run script of an install; `exists` says whether the file at
/// [`run_script_path`] exists.
pub fn runner_run_script(install_path: &str, windows: bool, exists: bool) -> (r: Result<
    String,
    Error,
>)
    ensures
        path_result(r) == script_or_missing(install_path@, run_script_name(windows), "run"@, exists),
{
    let script = run_script_path(install_path, windows);
    if !exists {
        let quoted = quote_path(script.as_str());
        return Err(
            Error::Runner(concat3("runner ", "run", " script not found at ").concat(quoted.as_str())),
        );
    }
    Ok(script)
}

// ---------------------------------------------------------------------------
// Releases
// ---------------------------------------------------------------------------

/// A file of a release.
#[derive(Debug)]
pub struct ReleaseAsset {
    pub name: String,
    pub browser_download_url: String,
}

/// A release of the runner.
#[derive(Debug)]
pub struct ReleaseInfo {
    pub tag_name: String,
    pub assets: Vec<ReleaseAsset>,
}

/// The platform that a release file is for.
#[derive(Debug, Clone, Copy)]
pub struct RunnerPlatform {
    pub os: &'static str,
    pub arch: &'static str,
    pub ext: &'static str,
}

/// The view of a [`RunnerPlatform`].
pub struct PlatformView {
    pub os: Seq<char>,
    pub arch: Seq<char>,
    pub ext: Seq<char>,
}

impl View for RunnerPlatform {
    type V = PlatformView;

    open spec fn view(&self) -> PlatformView {
        PlatformView { os: self.os@, arch: self.arch@, ext: self.ext@ }
    }
}

impl RunnerPlatform {
    /// What the names of the release files for the platform begin with.
    pub fn asset_prefix(&self) -> (r: String)
        ensures
            r@ == "actions-runner-"@ + self@.os + "-"@ + self@.arch,
    {
        let mut r = concat3("actions-runner-", self.os, "-");
        r.append(self.arch);
        r
    }

    /// The name of the release file of a version for the platform.
    pub fn asset_name(&self, version: &str) -> (r: String)
        ensures
            r@ == "actions-runner-"@ + self@.os + "-"@ + self@.arch + "-"@ + version@ + "."@
                + self@.ext,
    {
        let mut r = self.asset_prefix();
        r.append("-");
        r.append(version);
        r.append(".");
        r.append(self.ext);
        r
    }
}

/// The platform of the release files for an operating system and an
/// architecture, as the program was built for them.
pub open spec fn platform_for(os: Seq<char>, arch: Seq<char>) -> Result<PlatformView, ErrorView> {
    let release_os = if os == "macos"@ {
        Some("osx"@)
    } else if os == "linux"@ {
        Some("linux"@)
    } else if os == "windows"@ {
        Some("win"@)
    } else {
        None
    };
    let release_arch = if arch == "aarch64"@ {
        Some("arm64"@)
    } else if arch == "x86_64"@ {
        Some("x64"@)
    } else {
        None
    };
    match release_os {
        None => Err(ErrorView::Unsupported("unsupported OS: "@ + os)),
        Some(o) => match release_arch {
            None => Err(ErrorView::Unsupported("unsupported architecture: "@ + arch)),
            Some(a) => Ok(
                PlatformView {
                    os: o,
                    arch: a,
                    ext: if os == "windows"@ {
                        "zip"@
                    } else {
                        "tar.gz"@
                    },
                },
            ),
        },
    }
}

/// The platform of the release files for an operating system and an architecture.
pub fn detect_platform(os: &str, arch: &str) -> (r: Result<RunnerPlatform, Error>)
    ensures
        match r {
            Ok(p) => platform_for(os@, arch@) == Ok::<PlatformView, ErrorView>(p@),
            Err(e) => platform_for(os@, arch@) == Err::<PlatformView, ErrorView>(e@),
        },
{
    let windows = crate::text::str_eq(os, "windows");
    let release_os = if crate::text::str_eq(os, "macos") {
        "osx"
    } else if crate::text::str_eq(os, "linux") {
        "linux"
    } else if windows {
        "win"
    } else {
        return Err(Error::Unsupported(concat2("unsupported OS: ", os)));
    };
    let release_arch = if crate::text::str_eq(arch, "aarch64") {
        "arm64"
    } else if crate::text::str_eq(arch, "x86_64") {
        "x64"
    } else {
        return Err(Error::Unsupported(concat2("unsupported architecture: ", arch)));
    };
    let ext = if windows {
        "zip"
    } else {
        "tar.gz"
    };
    Ok(RunnerPlatform { os: release_os, arch: release_arch, ext })
}

/// A release tag without the letters `v` that it begins with.
pub fn normalize_version(tag: &str) -> (r: String)
    ensures
        r@ == trim_start_by(tag@, CharClass::Only('v')),
{
    let chars = chars_of(tag);
    string_of(&crate::text::strip_start(&chars, CharClass::Only('v')))
}

/// The address at which a release is looked up: that of the given
/// version, or that of the latest release.
pub fn release_url(version: Option<&str>) -> (r: String)
    ensures
        r@ == match version {
            Some(v) => "https://api.github.com/repos/actions/runner/releases/tags/v"@
                + trim_start_by(v@, CharClass::Only('v')),
            None => "https://api.github.com/repos/actions/runner/releases/latest"@,
        },
{
    match version {
        Some(v) => {
            let version = normalize_version(v);
            concat2(
                "https://api.github.com/repos/actions/runner/releases/tags/v",
                version.as_str(),
            )
        },
        None => "https://api.github.com/repos/actions/runner/releases/latest".to_string(),
    }
}

/// The names and addresses of release files.
pub open spec fn assets_view(v: Seq<ReleaseAsset>) -> Seq<(Seq<char>, Seq<char>)> {
    Seq::new(v.len(), |i: int| (v[i].name@, v[i].browser_download_url@))
}

/// Number of files before the first one with the given name; the number
/// of all files where none has it.
pub open spec fn index_of_asset(assets: Seq<(Seq<char>, Seq<char>)>, name: Seq<char>) -> int
    decreases assets.len(),
{
    if assets.len() == 0 || assets[0].0 == name {
        0
    } else {
        1 + index_of_asset(assets.skip(1), name)
    }
}

/// The address of the first file with the given name.
pub open spec fn asset_url(assets: Seq<(Seq<char>, Seq<char>)>, name: Seq<char>) -> Option<Seq<char>> {
    if index_of_asset(assets, name) < assets.len() {
        Some(assets[index_of_asset(assets, name)].1)
    } else {
        None
    }
}

fn url_of(assets: &Vec<ReleaseAsset>, name: &str) -> (r: Option<String>)
    ensures
        opt_text(r) == asset_url(assets_view(assets@), name@),
{
    let ghost all = assets_view(assets@);
    let mut i: usize = 0;
    assert(all.skip(0) == all);
    while i < assets.len()
        invariant
            i <= assets.len(),
            all == assets_view(assets@),
            index_of_asset(all, name@) == i + index_of_asset(all.skip(i as int), name@),
        decreases assets.len() - i,
    {
        assert(all.skip(i as int)[0] == all[i as int]);
        assert(all[i as int].0 == assets@[i as int].name@);
        assert(all.skip(i as int).skip(1) == all.skip(i + 1));
        if crate::text::str_eq(assets[i].name.as_str(), name) {
            assert(all[i as int].1 == assets@[i as int].browser_download_url@);
            return Some(assets[i].browser_download_url.clone());
        }
        i += 1;
    }
    assert(all.skip(assets.len() as int).len() == 0);
    None
}

/// The addresses of a release file and of its checksum, which is the
/// file of the same name with `.sha256` added. The release file must
/// exist; the checksum need not.
pub fn find_asset_urls(assets: &Vec<ReleaseAsset>, name: &str) -> (r: Result<
    (String, Option<String>),
    Error,
>)
    ensures
        match r {
            Ok((url, sha)) => {
                &&& asset_url(assets_view(assets@), name@) == Some(url@)
                &&& opt_text(sha) == asset_url(assets_view(assets@), name@ + ".sha256"@)
            },
            Err(e) => {
                &&& asset_url(assets_view(assets@), name@) is None
                &&& e@ == ErrorView::Runner("runner asset not found: "@ + name@)
            },
        },
{
    let url = match url_of(assets, name) {
        Some(u) => u,
        None => {
            return Err(Error::Runner(concat2("runner asset not found: ", name)));
        },
    };
    let sha_name = concat2(name, ".sha256");
    Ok((url, url_of(assets, sha_name.as_str())))
}

/// What kind of archive a release file is.
#[derive(Debug, Clone, Copy, PartialEq, Eq, Structural)]
pub enum ArchiveKind {
    TarGz,
    Zip,
}

/// The kind of the archive with the given file name, by its ending.
pub open spec fn kind_of_archive(name: Seq<char>) -> Result<ArchiveKind, ErrorView> {
    if crate::text::ends_with(name, ".tar.gz"@) {
        Ok(ArchiveKind::TarGz)
    } else if crate::text::ends_with(name, ".zip"@) {
        Ok(ArchiveKind::Zip)
    } else {
        Err(ErrorView::Runner("unsupported archive format: "@ + name))
    }
}

/// The kind of the archive with the given file name.
pub fn archive_kind(name: &str) -> (r: Result<ArchiveKind, Error>)
    ensures
        match r {
            Ok(k) => kind_of_archive(name@) == Ok::<ArchiveKind, ErrorView>(k),
            Err(e) => kind_of_archive(name@) == Err::<ArchiveKind, ErrorView>(e@),
        },
{
    let chars = chars_of(name);
    if crate::text::finishes_with(&chars, &chars_of(".tar.gz")) {
        Ok(ArchiveKind::TarGz)
    } else if crate::text::finishes_with(&chars, &chars_of(".zip")) {
        Ok(ArchiveKind::Zip)
    } else {
        Err(Error::Runner(concat2("unsupported archive format: ", name)))
    }
}

/// How far a download has come.
#[derive(Debug)]
pub struct ProgressPayload {
    pub runner_id: String,
    pub phase: String,
    pub percent: u64,
}

// ---------------------------------------------------------------------------
// Checksums
// ---------------------------------------------------------------------------

/// The SHA-256 digest of the given bytes.
pub uninterp spec fn sha256(data: Seq<u8>) -> Seq<u8>;

/// `sha2::Sha256::digest`: the digest of the data, which is 32 bytes long.
#[verifier::external_body]
pub(crate) fn sha256_digest(data: &Vec<u8>) -> (r: Vec<u8>)
    ensures
        r@ == sha256(data@),
        r@.len() == 32,
{
    <sha2::Sha256 as sha2::Digest>::digest(data.as_slice()).to_vec()
}

/// The lower-case hexadecimal digit of a value below 16.
pub open spec fn hex_digit(v: u8) -> char {
    if v < 10 {
        (('0' as u8) + v) as char
    } else {
        (('a' as u8) + (v - 10)) as char
    }
}

/// The bytes in lower-case hexadecimal, two digits each.
pub open spec fn hex_of(data: Seq<u8>) -> Seq<char> {
    Seq::new(
        2 * data.len(),
        |i: int|
            if i % 2 == 0 {
                hex_digit(data[i / 2] / 16)
            } else {
                hex_digit(data[i / 2] % 16)
            },
    )
}

/// `hex::encode`: the data as a hex string that uses lower-case characters.
#[verifier::external_body]
pub(crate) fn hex_encode(data: &Vec<u8>) -> (r: String)
    ensures
        r@ == hex_of(data@),
{
    hex::encode(data)
}

/// Number of characters at the start of a text that are no white space.
pub open spec fn word_len(s: Seq<char>) -> int
    decreases s.len(),
{
    if s.len() == 0 || crate::text::is_whitespace(s[0]) {
        0
    } else {
        1 + word_len(s.skip(1))
    }
}

/// The first word of a text: what stands between its leading white space
/// and the next; empty where the text has no word.
pub open spec fn first_word(body: Seq<char>) -> Seq<char> {
    let t = trim_start_by(body, CharClass::Whitespace);
    t.take(word_len(t))
}

/// The first word of a text.
pub fn first_word_of(body: &str) -> (r: String)
    ensures
        r@ == first_word(body@),
{
    let chars = chars_of(body);
    let t = crate::text::strip_start(&chars, CharClass::Whitespace);
    let mut n: usize = 0;
    assert(t@.skip(0) == t@);
    while n < t.len() && !crate::text::char_is_whitespace(t[n])
        invariant
            n <= t.len(),
            word_len(t@) == n + word_len(t@.skip(n as int)),
        decreases t.len() - n,
    {
        assert(t@.skip(n as int)[0] == t@[n as int]);
        assert(t@.skip(n as int).skip(1) == t@.skip(n + 1));
        n += 1;
    }
    proof {
        if n < t.len() {
            assert(t@.skip(n as int)[0] == t@[n as int]);
        }
    }
    let word = crate::text::slice_of(&t, 0, n);
    assert(t@.subrange(0, n as int) == t@.take(n as int));
    string_of(&word)
}

/// Whether a download matches its published checksum: the first word of
/// the checksum file must be the SHA-256 digest of the data in lower-case
/// hexadecimal.
pub open spec fn checksum_verdict(body: Seq<char>, data: Seq<u8>) -> Result<(), ErrorView> {
    if first_word(body) == hex_of(sha256(data)) {
        Ok(())
    } else {
        Err(ErrorView::Runner("sha256 mismatch for runner download"@))
    }
}

/// Checks a download against the text of its checksum file.
pub fn verify_sha256(body: &str, data: &Vec<u8>) -> (r: Result<(), Error>)
    ensures
        match r {
            Ok(()) => checksum_verdict(body@, data@) is Ok,
            Err(e) => checksum_verdict(body@, data@) == Err::<(), ErrorView>(e@),
        },
{
    let expected = first_word_of(body);
    let digest = sha256_digest(data);
    let actual = hex_encode(&digest);
    if !crate::text::str_eq(expected.as_str(), actual.as_str()) {
        return Err(Error::Runner("sha256 mismatch for runner download".to_string()));
    }
    Ok(())
}

// ---------------------------------------------------------------------------
// Downloading, configuring, repairing
// ---------------------------------------------------------------------------

/// Whether a runner may be downloaded for a profile: not for an adopted install.
pub fn check_download(profile: &RunnerProfile) -> (r: Result<(), Error>)
    ensures
        match r {
            Ok(()) => profile@.install.mode != InstallMode::Adopted,
            Err(e) => profile@.install.mode == InstallMode::Adopted && e@ == ErrorView::Runner(
                "cannot download runner for adopted install"@,
            ),
        },
{
    if profile.install.mode == InstallMode::Adopted {
        return Err(Error::Runner("cannot download runner for adopted install".to_string()));
    }
    Ok(())
}

/// Where downloads are kept.
pub fn downloads_dir(dirs: &AppDirs) -> (r: Result<String, Error>)
    ensures
        crate::host::dir_result(
            match dirs@.data_dir {
                Some(d) => Some(path_join(d, "downloads"@)),
                None => None,
            },
            r,
        ),
{
    match dirs.data_dir() {
        Ok(d) => Ok(crate::host::join_path(d.as_str(), "downloads")),
        Err(e) => Err(e),
    }
}

/// Records in a profile which version was unpacked, and where.
pub fn mark_downloaded(profile: &mut RunnerProfile, version: &str, install_path: &str)
    ensures
        final(profile)@ == (ProfileView {
            runner_version: Some(version@),
            install: InstallView { install_path: install_path@, ..old(profile)@.install },
            ..old(profile)@
        }),
{
    profile.runner_version = Some(version.to_string());
    profile.install.install_path = install_path.to_string();
}

/// The arguments of the configure script for a registration.
pub open spec fn configure_args(
    url: Seq<char>,
    token: Seq<char>,
    name: Seq<char>,
    labels: Seq<Seq<char>>,
    work_dir: Seq<char>,
) -> Seq<Seq<char>> {
    seq![
        "--unattended"@,
        "--replace"@,
        "--url"@,
        url,
        "--token"@,
        token,
        "--name"@,
        name,
        "--labels"@,
        crate::text::join(labels, ","@),
        "--work"@,
        work_dir,
    ]
}

/// The call of the configure script that registers a runner: unattended,
/// replacing a registration of the same name. `script` is the configure
/// script, `install_path` the directory it runs in, and `work_dir` the
/// work directory with a leading `~/` resolved.
pub fn configure_command(
    script: &str,
    install_path: &str,
    scope: &RunnerScope,
    token: &str,
    name: &str,
    labels: &Vec<String>,
    work_dir: &str,
) -> (r: Action)
    ensures
        r@ == (ActionView::Run {
            program: script@,
            args: configure_args(scope@.url(), token@, name@, strings(labels@), work_dir@),
            dir: Some(install_path@),
        }),
{
    let mut args: Vec<String> = Vec::new();
    args.push("--unattended".to_string());
    args.push("--replace".to_string());
    args.push("--url".to_string());
    args.push(scope.url());
    args.push("--token".to_string());
    args.push(token.to_string());
    args.push("--name".to_string());
    args.push(name.to_string());
    args.push("--labels".to_string());
    args.push(crate::text::join_strings(labels, ","));
    args.push("--work".to_string());
    args.push(work_dir.to_string());
    assert(strings(args@) =~= configure_args(
        scope@.url(),
        token@,
        name@,
        strings(labels@),
        work_dir@,
    ));
    Action::Run { program: script.to_string(), args, dir: Some(install_path.to_string()) }
}

/// The error for a configure script that reported failure; `status` is
/// how the script ended.
pub fn configure_failed(status: &str) -> (e: Error)
    ensures
        e@ == ErrorView::Runner("runner config failed with status "@ + status@),
{
    Error::Runner(concat2("runner config failed with status ", status))
}

/// Records in a profile how its runner was registered.
pub fn mark_configured(
    profile: &mut RunnerProfile,
    scope: RunnerScope,
    name: String,
    labels: Vec<String>,
    work_dir: String,
)
    ensures
        final(profile)@ == (ProfileView {
            runner_name: name@,
            labels: strings(labels@),
            work_dir: work_dir@,
            scope: Some(scope@),
            ..old(profile)@
        }),
{
    profile.runner_name = name;
    profile.labels = labels;
    profile.work_dir = work_dir;
    profile.scope = Some(scope);
}

/// What a repair of the scope has to look at: nothing where the profile
/// has a scope; else the install directory of the profile.
pub open spec fn repair_target(c: ConfigView, runner_id: Seq<char>, dirs: AppDirsView) -> Result<
    Option<Seq<char>>,
    ErrorView,
> {
    match found_runner(c.runners, runner_id) {
        Err(e) => Err(e),
        Ok(p) => if p.scope is Some {
            Ok(None)
        } else {
            Ok(Some(dirs.expand(p.install.install_path)))
        },
    }
}

/// Names the install directory that a repair of the scope has to look
/// at; `None` where the profile has a scope and nothing is to be repaired.
pub fn scope_repair_target(store: &ConfigStore, runner_id: &str, dirs: &AppDirs) -> (r: Result<
    Option<String>,
    Error,
>)
    ensures
        match r {
            Ok(t) => repair_target(store@.config, runner_id@, dirs@) == Ok::<
                Option<Seq<char>>,
                ErrorView,
            >(opt_text(t)),
            Err(e) => repair_target(store@.config, runner_id@, dirs@) == Err::<
                Option<Seq<char>>,
                ErrorView,
            >(e@),
        },
{
    let profile = match crate::store::find_runner(&store.config, runner_id) {
        Ok(p) => p,
        Err(e) => {
            return Err(e);
        },
    };
    if profile.scope.is_some() {
        return Ok(None);
    }
    Ok(Some(dirs.expand_path(profile.install.install_path.as_str())))
}

/// The error for a scope that cannot be recovered.
pub open spec fn scope_not_inferred() -> ErrorView {
    ErrorView::Runner(
        "unable to infer scope from local runner install; ensure the runner is configured and `.runner` exists"@,
    )
}

/// What a repair of the scope gives. A profile that has a scope is
/// returned as it is and nothing changes. Else the install must exist and
/// a scope must have been recovered from it; that scope is recorded.
pub open spec fn repaired(
    c: ConfigView,
    runner_id: Seq<char>,
    dirs: AppDirsView,
    install_exists: bool,
    inferred: Option<ScopeView>,
) -> Result<(ConfigView, ProfileView, bool), ErrorView> {
    match found_runner(c.runners, runner_id) {
        Err(e) => Err(e),
        Ok(p) => if p.scope is Some {
            Ok((c, p, false))
        } else if !install_exists {
            Err(
                ErrorView::Runner(
                    "runner install path does not exist: "@ + dirs.expand(p.install.install_path),
                ),
            )
        } else {
            match inferred {
                None => Err(scope_not_inferred()),
                Some(scope) => {
                    let next = ProfileView { scope: Some(scope), ..p };
                    Ok(
                        (
                            sanitized(
                                ConfigView {
                                    runners: c.runners.update(
                                        index_of_runner(c.runners, runner_id),
                                        next,
                                    ),
                                    ..c
                                },
                            ),
                            next,
                            true,
                        ),
                    )
                },
            }
        },
    }
}

/// Repairs a profile that lost its scope. `install_exists` says whether
/// the directory that [`scope_repair_target`] named exists, and `inferred`
/// is the scope that was recovered from it, if any. Nothing changes unless
/// a scope is recorded.
pub fn repair_runner_scope(
    store: &mut ConfigStore,
    runner_id: &str,
    dirs: &AppDirs,
    install_exists: bool,
    inferred: Option<RunnerScope>,
) -> (r: Result<RunnerProfile, Error>)
    ensures
        match repaired(old(store)@.config, runner_id@, dirs@, install_exists, opt_scope(inferred)) {
            Ok((config, profile, changed)) => {
                &&& r matches Ok(p)
                &&& p@ == profile
                &&& changed ==> final(store)@.config == config && final(store)@.needs_save
                    && selection_valid(final(store)@.config)
                &&& !changed ==> *final(store) == *old(store)
            },
            Err(e) => {
                &&& r matches Err(err)
                &&& err@ == e
                &&& *final(store) == *old(store)
            },
        },
{
    let mut profile = match crate::store::find_runner(&store.config, runner_id) {
        Ok(p) => p,
        Err(e) => {
            return Err(e);
        },
    };
    proof {
        crate::store::lemma_index_of_runner(store@.config.runners, runner_id@);
    }
    if profile.scope.is_some() {
        return Ok(profile);
    }
    if !install_exists {
        let path = dirs.expand_path(profile.install.install_path.as_str());
        return Err(Error::Runner(concat2("runner install path does not exist: ", path.as_str())));
    }
    let scope = match inferred {
        Some(s) => s,
        None => {
            return Err(
                Error::Runner(
                    "unable to infer scope from local runner install; ensure the runner is configured and `.runner` exists".to_string(),
                ),
            );
        },
    };
    profile.scope = Some(scope);
    let copy = profile.clone();
    match store.put(profile) {
        Ok(()) => Ok(copy),
        Err(e) => Err(e),
    }
}

/// Where a foreground runner is started and where its output goes.
#[derive(Debug)]
pub struct StartPlan {
    /// The run script.
    pub script: String,
    /// The directory in which it runs.
    pub dir: String,
    /// The directory of the captured output, which is created if missing.
    pub log_dir: String,
    pub stdout: String,
    pub stderr: String,
}

/// How a runner is started as a foreground process. `script_exists` says
/// whether the file at [`run_script_path`] of the install exists.
pub fn start_plan(profile: &RunnerProfile, dirs: &AppDirs, windows: bool, script_exists: bool) -> (r:
    Result<StartPlan, Error>)
    ensures
        match r {
            Ok(plan) => {
                &&& script_exists
                &&& dirs@.runner_logs_dir(profile@.runner_id) == Some(plan.log_dir@)
                &&& plan.dir@ == dirs@.expand(profile@.install.install_path)
                &&& plan.script@ == path_join(plan.dir@, run_script_name(windows))
                &&& plan.stdout@ == path_join(plan.log_dir@, "runner-stdout.log"@)
                &&& plan.stderr@ == path_join(plan.log_dir@, "runner-stderr.log"@)
            },
            Err(e) => if !script_exists {
                Err::<Seq<char>, ErrorView>(e@) == script_or_missing(
                    dirs@.expand(profile@.install.install_path),
                    run_script_name(windows),
                    "run"@,
                    false,
                )
            } else {
                dirs@.runner_logs_dir(profile@.runner_id) is None && e@
                    == crate::host::no_project_dirs()
            },
        },
{
    let dir = dirs.expand_path(profile.install.install_path.as_str());
    let script = match runner_run_script(dir.as_str(), windows, script_exists) {
        Ok(s) => s,
        Err(e) => {
            return Err(e);
        },
    };
    let log_dir = match dirs.runner_logs_dir(profile.runner_id.as_str()) {
        Ok(d) => d,
        Err(e) => {
            return Err(e);
        },
    };
    let stdout = crate::host::join_path(log_dir.as_str(), "runner-stdout.log");
    let stderr = crate::host::join_path(log_dir.as_str(), "runner-stderr.log");
    Ok(StartPlan { script, dir, log_dir, stdout, stderr })
}

// ---------------------------------------------------------------------------
// Wording and commands of the network side
// ---------------------------------------------------------------------------

/// What was being fetched when the remote side refused.
#[derive(Debug, Clone, Copy, PartialEq, Eq, Structural)]
pub enum Fetch {
    /// Looking up a release.
    Release,
    /// Downloading a release file.
    Download,
    /// Downloading the checksum of a release file.
    Checksum,
}

/// The words that name a fetch in an error.
pub open spec fn fetch_words(what: Fetch) -> Seq<char> {
    match what {
        Fetch::Release => "release lookup failed: "@,
        Fetch::Download => "runner download failed: "@,
        Fetch::Checksum => "sha256 download failed: "@,
    }
}

/// The error for a fetch that the remote side refused with the given status.
pub fn fetch_failed(what: Fetch, status: &str) -> (e: Error)
    ensures
        e@ == ErrorView::Runner(fetch_words(what) + status@),
{
    let words = match what {
        Fetch::Release => "release lookup failed: ",
        Fetch::Download => "runner download failed: ",
        Fetch::Checksum => "sha256 download failed: ",
    };
    Error::Runner(concat2(words, status))
}

/// The error for a zip archive that cannot be opened, or of which an
/// entry cannot be read; `problem` says why.
pub fn zip_failed(opening: bool, problem: &str) -> (e: Error)
    ensures
        e@ == ErrorView::Runner(
            (if opening {
                "zip open failed: "@
            } else {
                "zip entry failed: "@
            }) + problem@,
        ),
{
    Error::Runner(
        concat2(
            if opening {
                "zip open failed: "
            } else {
                "zip entry failed: "
            },
            problem,
        ),
    )
}

/// Whether an entry of a zip archive is a directory: its name ends with a slash.
pub fn is_directory_entry(name: &str) -> (r: bool)
    ensures
        r == crate::text::ends_with(name@, seq!['/']),
{
    let chars = chars_of(name);
    let mut slash: Vec<char> = Vec::new();
    slash.push('/');
    assert(slash@ =~= seq!['/']);
    crate::text::finishes_with(&chars, &slash)
}

/// What a token is needed for.
#[derive(Debug, Clone, Copy, PartialEq, Eq, Structural)]
pub enum TokenUse {
    /// Registering a runner.
    Configure,
    /// Removing the registration of a runner.
    Unregister,
}

/// The error for a credential that is not in the store.
pub open spec fn no_pat(purpose: TokenUse) -> ErrorView {
    match purpose {
        TokenUse::Configure => ErrorView::Runner(
            "no PAT found in credential store; save a token first"@,
        ),
        TokenUse::Unregister => ErrorView::Runner("PAT not found for unregister"@),
    }
}

/// The credential that was looked up, or the error that there is none.
pub fn require_pat(pat: Option<String>, purpose: TokenUse) -> (r: Result<String, Error>)
    ensures
        match r {
            Ok(p) => pat == Some(p),
            Err(e) => pat is None && e@ == no_pat(purpose),
        },
{
    match pat {
        Some(p) => Ok(p),
        None => Err(
            Error::Runner(
                match purpose {
                    TokenUse::Configure => "no PAT found in credential store; save a token first".to_string(),
                    TokenUse::Unregister => "PAT not found for unregister".to_string(),
                },
            ),
        ),
    }
}

/// The call of the configure script that removes the registration of a runner.
pub fn unregister_command(script: &str, install_path: &str, token: &str) -> (r: Action)
    ensures
        r@ == (ActionView::Run {
            program: script@,
            args: seq!["remove"@, "--token"@, token@],
            dir: Some(install_path@),
        }),
{
    let mut args: Vec<String> = Vec::new();
    args.push("remove".to_string());
    args.push("--token".to_string());
    args.push(token.to_string());
    assert(strings(args@) =~= seq!["remove"@, "--token"@, token@]);
    Action::Run { program: script.to_string(), args, dir: Some(install_path.to_string()) }
}

} // verus!
