//! The logs that a caller can look at, and the end of a log as it is shown.

use vstd::prelude::*;
use crate::config::{opt_text, Config, ConfigView, ProfileView, RunnerProfile};
use crate::errors::{Error};
use crate::host::{path_join, AppDirs, AppDirsView};
use crate::logging::{scrubbed, Scrubber};
use crate::runner_mgmt::{log_dir_of, runner_log_dir};
use crate::store::{has_runner, index_of_runner, not_found};
use crate::text::{chars_of, lines, lines_of, string_of, texts};

verus! {

/// Where the application's own log is.
#[derive(Debug)]
pub struct LogPaths {
    pub app_log: String,
}

/// A log that a caller can look at.
#[derive(Debug)]
pub struct LogSource {
    pub id: String,
    pub label: String,
    pub path: String,
}

/// The view of a [`LogSource`].
pub struct SourceView {
    pub id: Seq<char>,
    pub label: Seq<char>,
    pub path: Seq<char>,
}

impl View for LogSource {
    type V = SourceView;

    open spec fn view(&self) -> SourceView {
        SourceView { id: self.id@, label: self.label@, path: self.path@ }
    }
}

/// The views of a vector of log sources.
pub open spec fn sources_view(v: Seq<LogSource>) -> Seq<SourceView> {
    Seq::new(v.len(), |i: int| v[i]@)
}

/// A line of a log, scrubbed.
#[derive(Debug)]
pub struct LogLine {
    pub line: String,
}

/// The texts of log lines.
pub open spec fn lines_view(v: Seq<LogLine>) -> Seq<Seq<char>> {
    Seq::new(v.len(), |i: int| v[i].line@)
}

/// The directory of a runner's captured output: below the application's
/// logs, or below `./logs` where the application's directories are unknown.
pub open spec fn captured_dir(dirs: AppDirsView, runner_id: Seq<char>) -> Seq<char> {
    match dirs.runner_logs_dir(runner_id) {
        Some(d) => d,
        None => path_join(path_join("."@, "logs"@), runner_id),
    }
}

/// The directory of a runner's captured output.
pub fn log_dir_for_runner(dirs: &AppDirs, runner_id: &str) -> (r: String)
    ensures
        r@ == captured_dir(dirs@, runner_id@),
{
    match dirs.runner_logs_dir(runner_id) {
        Ok(d) => d,
        Err(_) => {
            let logs = crate::host::join_path(".", "logs");
            crate::host::join_path(logs.as_str(), runner_id)
        },
    }
}

/// The diagnostics log that is shown where none is known to exist.
pub open spec fn diag_fallback(runner: Option<ProfileView>, dirs: AppDirsView) -> Seq<char> {
    match runner {
        Some(p) => path_join(log_dir_of(p, dirs), "Runner.Listener.log"@),
        None => "Runner.Listener.log"@,
    }
}

/// The diagnostics log that is shown where none is known to exist.
pub fn diag_log_fallback(runner: Option<&RunnerProfile>, dirs: &AppDirs) -> (r: String)
    ensures
        r@ == diag_fallback(
            match runner {
                Some(p) => Some(p@),
                None => None,
            },
            dirs@,
        ),
{
    match runner {
        Some(p) => {
            let dir = runner_log_dir(p, dirs);
            crate::host::join_path(dir.as_str(), "Runner.Listener.log")
        },
        None => "Runner.Listener.log".to_string(),
    }
}

/// The logs of a runner that a caller can look at: the application's log,
/// the captured output and errors of the runner, and the latest
/// diagnostics log where there is one.
pub open spec fn sources_of(
    dirs: AppDirsView,
    runner_id: Seq<char>,
    app_log: Seq<char>,
    latest_diag: Option<Seq<char>>,
) -> Seq<SourceView> {
    let fixed = seq![
        SourceView { id: "app"@, label: "App Log"@, path: app_log },
        SourceView {
            id: "runner-stdout"@,
            label: "Runner Stdout"@,
            path: path_join(captured_dir(dirs, runner_id), "runner-stdout.log"@),
        },
        SourceView {
            id: "runner-stderr"@,
            label: "Runner Stderr"@,
            path: path_join(captured_dir(dirs, runner_id), "runner-stderr.log"@),
        },
    ];
    match latest_diag {
        Some(path) => fixed.push(SourceView { id: "runner-diag"@, label: "Runner Diag"@, path }),
        None => fixed,
    }
}

fn source(id: &str, label: &str, path: String) -> (r: LogSource)
    ensures
        r@ == (SourceView { id: id@, label: label@, path: path@ }),
{
    LogSource { id: id.to_string(), label: label.to_string(), path }
}

/// The logs of a runner that a caller can look at. `latest_diag` is the
/// latest diagnostics log of the runner, if there is one. A runner that
/// does not exist has no logs.
pub fn list_sources(
    config: &Config,
    runner_id: &str,
    app_log: &str,
    latest_diag: Option<String>,
    dirs: &AppDirs,
) -> (r: Result<Vec<LogSource>, Error>)
    ensures
        match r {
            Ok(sources) => has_runner(config@.runners, runner_id@) && sources_view(sources@)
                == sources_of(dirs@, runner_id@, app_log@, opt_text(latest_diag)),
            Err(e) => !has_runner(config@.runners, runner_id@) && e@ == not_found(runner_id@),
        },
{
    match crate::store::find_runner(config, runner_id) {
        Ok(_) => {},
        Err(e) => {
            return Err(e);
        },
    }
    let dir = log_dir_for_runner(dirs, runner_id);
    let mut sources: Vec<LogSource> = Vec::new();
    sources.push(source("app", "App Log", app_log.to_string()));
    sources.push(
        source(
            "runner-stdout",
            "Runner Stdout",
            crate::host::join_path(dir.as_str(), "runner-stdout.log"),
        ),
    );
    sources.push(
        source(
            "runner-stderr",
            "Runner Stderr",
            crate::host::join_path(dir.as_str(), "runner-stderr.log"),
        ),
    );
    if let Some(path) = latest_diag {
        sources.push(source("runner-diag", "Runner Diag", path));
    }
    assert(sources_view(sources@) =~= sources_of(
        dirs@,
        runner_id@,
        app_log@,
        opt_text(latest_diag),
    ));
    Ok(sources)
}

/// The file behind a log source. An unknown source is taken as a path.
pub open spec fn source_path(
    c: ConfigView,
    dirs: AppDirsView,
    runner_id: Seq<char>,
    app_log: Seq<char>,
    source: Seq<char>,
    latest_diag: Option<Seq<char>>,
) -> Seq<char> {
    if source == "app"@ {
        app_log
    } else if source == "runner-stdout"@ {
        path_join(captured_dir(dirs, runner_id), "runner-stdout.log"@)
    } else if source == "runner-stderr"@ {
        path_join(captured_dir(dirs, runner_id), "runner-stderr.log"@)
    } else if source == "runner-diag"@ {
        if has_runner(c.runners, runner_id) {
            match latest_diag {
                Some(path) => path,
                None => diag_fallback(
                    Some(c.runners[index_of_runner(c.runners, runner_id)]),
                    dirs,
                ),
            }
        } else {
            diag_fallback(None, dirs)
        }
    } else {
        source
    }
}

/// The file behind a log source of a runner. `latest_diag` is the latest
/// diagnostics log of the runner, if there is one.
pub fn resolve_source_path(
    config: &Config,
    runner_id: &str,
    app_log: &str,
    source: &str,
    latest_diag: Option<String>,
    dirs: &AppDirs,
) -> (r: String)
    ensures
        r@ == source_path(config@, dirs@, runner_id@, app_log@, source@, opt_text(latest_diag)),
{
    if crate::text::str_eq(source, "app") {
        return app_log.to_string();
    }
    if crate::text::str_eq(source, "runner-stdout") {
        let dir = log_dir_for_runner(dirs, runner_id);
        return crate::host::join_path(dir.as_str(), "runner-stdout.log");
    }
    if crate::text::str_eq(source, "runner-stderr") {
        let dir = log_dir_for_runner(dirs, runner_id);
        return crate::host::join_path(dir.as_str(), "runner-stderr.log");
    }
    if crate::text::str_eq(source, "runner-diag") {
        let i = crate::store::position_of_runner(&config.runners, runner_id);
        if i < config.runners.len() {
            return match latest_diag {
                Some(path) => path,
                None => diag_log_fallback(Some(&config.runners[i]), dirs),
            };
        }
        return diag_log_fallback(None, dirs);
    }
    source.to_string()
}

/// The last `limit` lines of a text, each scrubbed, in their order.
pub open spec fn tail_of(contents: Seq<char>, limit: int) -> Seq<Seq<char>> {
    let all = lines(contents);
    let from = if all.len() > limit {
        all.len() - limit
    } else {
        0
    };
    Seq::new((all.len() - from) as nat, |i: int| scrubbed(all[from + i]))
}

/// The end of a log as it is shown: its last `limit` lines, scrubbed.
/// `contents` is what the file holds, or `None` where there is no file.
pub fn tail(contents: Option<&str>, limit: usize) -> (r: Vec<LogLine>)
    ensures
        lines_view(r@) == match contents {
            Some(c) => tail_of(c@, limit as int),
            None => seq![],
        },
{
    let mut out: Vec<LogLine> = Vec::new();
    let c = match contents {
        Some(c) => c,
        None => {
            assert(lines_view(out@) =~= Seq::<Seq<char>>::empty());
            return out;
        },
    };
    let scrubber = Scrubber::new();
    let chars = chars_of(c);
    let all = lines_of(&chars);
    let n = all.len();
    let from = if n > limit {
        n - limit
    } else {
        0
    };
    let mut k: usize = from;
    while k < n
        invariant
            from <= k <= n,
            n == all.len(),
            scrubber.wf(),
            texts(all@) == lines(c@),
            out@.len() == k - from,
            forall|j: int| 0 <= j < k - from ==> out@[j].line@ == scrubbed(lines(c@)[from + j]),
        decreases n - k,
    {
        assert(lines(c@)[k as int] == all@[k as int]@);
        let line = string_of(&all[k]);
        out.push(LogLine { line: scrubber.scrub(line.as_str()) });
        k += 1;
    }
    assert(lines_view(out@) =~= tail_of(c@, limit as int));
    out
}

} // verus!
