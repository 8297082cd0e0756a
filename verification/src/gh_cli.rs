//! Taking a token over from the command line client of the remote
//! service: where the client is looked for, and what its answer means.

use vstd::prelude::*;
use crate::errors::{AppError, AppErrorView};
use crate::host::lowercase;
use crate::text::{
    chars_of, concat2, concat3, contains, join, join_strings, lines, lines_of, string_of, strings,
    strip, texts, trim, CharClass,
};

verus! {

/// Where the client is looked for on an operating system, before the
/// user's own directory.
pub open spec fn system_candidates(os: Seq<char>) -> Seq<Seq<char>> {
    if os == "macos"@ {
        seq!["gh"@, "/opt/homebrew/bin/gh"@, "/usr/local/bin/gh"@, "/usr/bin/gh"@]
    } else if os == "linux"@ {
        seq!["gh"@, "/usr/bin/gh"@, "/usr/local/bin/gh"@, "/snap/bin/gh"@]
    } else if os == "windows"@ {
        seq!["gh"@, "gh.exe"@]
    } else {
        seq!["gh"@]
    }
}

/// The candidates without repetitions, each at its first place.
pub open spec fn distinct(names: Seq<Seq<char>>) -> Seq<Seq<char>>
    decreases names.len(),
{
    if names.len() == 0 {
        seq![]
    } else if distinct(names.drop_last()).contains(names.last()) {
        distinct(names.drop_last())
    } else {
        distinct(names.drop_last()).push(names.last())
    }
}

/// Where the client is looked for: on the search path, in the usual
/// places of the operating system, and in the user's own directory, each
/// place once.
pub open spec fn candidates(os: Seq<char>, home: Option<Seq<char>>) -> Seq<Seq<char>> {
    distinct(
        system_candidates(os) + match home {
            Some(h) => seq![h + "/.local/bin/gh"@],
            None => seq![],
        },
    )
}

fn holds(names: &Vec<String>, name: &str) -> (r: bool)
    ensures
        r == strings(names@).contains(name@),
{
    let mut i: usize = 0;
    while i < names.len()
        invariant
            i <= names.len(),
            forall|k: int| 0 <= k < i ==> strings(names@)[k] != name@,
        decreases names.len() - i,
    {
        assert(strings(names@)[i as int] == names@[i as int]@);
        if crate::text::str_eq(names[i].as_str(), name) {
            return true;
        }
        i += 1;
    }
    false
}

/// Where the client is looked for, in order.
pub fn gh_candidates(os: &str, home: Option<&str>) -> (r: Vec<String>)
    ensures
        strings(r@) == candidates(
            os@,
            match home {
                Some(h) => Some(h@),
                None => None,
            },
        ),
{
    let mut all: Vec<String> = Vec::new();
    all.push("gh".to_string());
    if crate::text::str_eq(os, "macos") {
        all.push("/opt/homebrew/bin/gh".to_string());
        all.push("/usr/local/bin/gh".to_string());
        all.push("/usr/bin/gh".to_string());
    } else if crate::text::str_eq(os, "linux") {
        all.push("/usr/bin/gh".to_string());
        all.push("/usr/local/bin/gh".to_string());
        all.push("/snap/bin/gh".to_string());
    } else if crate::text::str_eq(os, "windows") {
        all.push("gh.exe".to_string());
    }
    assert(strings(all@) =~= system_candidates(os@));
    let ghost system = strings(all@);
    if let Some(h) = home {
        all.push(concat2(h, "/.local/bin/gh"));
        assert(strings(all@) =~= system + seq![h@ + "/.local/bin/gh"@]);
    } else {
        assert(strings(all@) =~= system + Seq::<Seq<char>>::empty());
    }
    let ghost names = strings(all@);
    let mut out: Vec<String> = Vec::new();
    let mut i: usize = 0;
    assert(strings(out@) =~= distinct(names.take(0)));
    while i < all.len()
        invariant
            i <= all.len(),
            names == strings(all@),
            strings(out@) == distinct(names.take(i as int)),
        decreases all.len() - i,
    {
        assert(names.take(i + 1).drop_last() == names.take(i as int));
        assert(names.take(i + 1).last() == all@[i as int]@);
        let ghost before = strings(out@);
        if !holds(&out, all[i].as_str()) {
            out.push(all[i].clone());
            assert(strings(out@) =~= before.push(all@[i as int]@));
        }
        i += 1;
    }
    assert(names.take(all.len() as int) == names);
    out
}

/// The refusal where the client was found nowhere.
pub fn gh_not_found(tried: &Vec<String>) -> (e: AppError)
    ensures
        e@ == (AppErrorView {
            code: "cli"@,
            message: "GitHub CLI not found. RunnerBuddy looked for: "@ + join(strings(tried@), ", "@)
                + ". Install `gh`, or launch RunnerBuddy from a terminal after `gh auth login`."@,
        }),
{
    let places = join_strings(tried, ", ");
    let message = concat3(
        "GitHub CLI not found. RunnerBuddy looked for: ",
        places.as_str(),
        ". Install `gh`, or launch RunnerBuddy from a terminal after `gh auth login`.",
    );
    AppError::new("cli", message.as_str())
}

/// The refusal where the client could not be run; `problem` says why.
pub fn gh_run_failed(candidate: &str, problem: &str) -> (e: AppError)
    ensures
        e@ == (AppErrorView {
            code: "cli"@,
            message: "failed to run GitHub CLI ("@ + candidate@ + "): "@ + problem@,
        }),
{
    let mut message = concat3("failed to run GitHub CLI (", candidate, "): ");
    message.append(problem);
    AppError::new("cli", message.as_str())
}

/// How many lines of a complaint of the client are shown.
pub const COMPLAINT_LINES: usize = 20;

/// What the client complained about: what it wrote to its error output, or
/// to its output where there is nothing; of that the first
/// [`COMPLAINT_LINES`] lines, trimmed.
pub open spec fn complaint(stdout: Seq<char>, stderr: Seq<char>) -> Seq<char> {
    let said = if trim(stderr).len() == 0 {
        trim(stdout)
    } else {
        trim(stderr)
    };
    let shown = if lines(said).len() > COMPLAINT_LINES {
        lines(said).take(COMPLAINT_LINES as int)
    } else {
        lines(said)
    };
    trim(join(shown, "\n"@))
}

/// Whether a complaint says that the user is not logged in.
pub open spec fn asks_for_login(message: Seq<char>) -> bool {
    let lowered = lowercase(message);
    contains(lowered, "not logged"@) || contains(lowered, "not logged in"@) || contains(
        lowered,
        "authentication"@,
    )
}

/// What the answer of the client means: its output, trimmed, is the
/// token. A client that reports failure is quoted, with advice where it
/// asks for a login; an empty token is refused.
pub open spec fn token_of(gh_path: Seq<char>, success: bool, stdout: Seq<char>, stderr: Seq<char>) -> Result<
    Seq<char>,
    AppErrorView,
> {
    if !success {
        let message = complaint(stdout, stderr);
        Err(
            AppErrorView {
                code: "cli"@,
                message: "GitHub CLI token request failed ("@ + gh_path + ")."@ + (if asks_for_login(
                    message,
                ) {
                    " Run `gh auth login` in a terminal."@
                } else {
                    ""@
                }) + "\n"@ + message,
            },
        )
    } else if trim(stdout).len() == 0 {
        Err(
            AppErrorView {
                code: "cli"@,
                message: "GitHub CLI returned an empty token. Run `gh auth login` and try again."@,
            },
        )
    } else {
        Ok(trim(stdout))
    }
}

fn trimmed(s: &str) -> (r: Vec<char>)
    ensures
        r@ == trim(s@),
{
    strip(&chars_of(s), CharClass::Whitespace)
}

fn complaint_of(stdout: &str, stderr: &str) -> (r: String)
    ensures
        r@ == complaint(stdout@, stderr@),
{
    let err = trimmed(stderr);
    let said = if err.len() == 0 {
        trimmed(stdout)
    } else {
        err
    };
    let all = lines_of(&said);
    let n = if all.len() > COMPLAINT_LINES {
        COMPLAINT_LINES
    } else {
        all.len()
    };
    let mut shown: Vec<String> = Vec::new();
    let mut i: usize = 0;
    while i < n
        invariant
            i <= n <= all.len(),
            shown@.len() == i,
            forall|k: int| 0 <= k < i ==> shown@[k]@ == all@[k]@,
        decreases n - i,
    {
        shown.push(string_of(&all[i]));
        i += 1;
    }
    assert(strings(shown@) =~= if lines(said@).len() > COMPLAINT_LINES {
        lines(said@).take(COMPLAINT_LINES as int)
    } else {
        lines(said@)
    }) by {
        assert(texts(all@) == lines(said@));
        assert(forall|k: int| 0 <= k < n ==> texts(all@)[k] == all@[k]@);
    }
    let joined = join_strings(&shown, "\n");
    string_of(&trimmed(joined.as_str()))
}

/// The token that the client handed over, or the refusal that its answer means.
pub fn gh_token_from_output(gh_path: &str, success: bool, stdout: &str, stderr: &str) -> (r: Result<
    String,
    AppError,
>)
    ensures
        match r {
            Ok(token) => token_of(gh_path@, success, stdout@, stderr@) == Ok::<
                Seq<char>,
                AppErrorView,
            >(token@),
            Err(e) => token_of(gh_path@, success, stdout@, stderr@) == Err::<
                Seq<char>,
                AppErrorView,
            >(e@),
        },
{
    if !success {
        let message = complaint_of(stdout, stderr);
        let lowered = crate::host::to_lowercase(message.as_str());
        let login = crate::text::str_contains(lowered.as_str(), "not logged")
            || crate::text::str_contains(lowered.as_str(), "not logged in")
            || crate::text::str_contains(lowered.as_str(), "authentication");
        let mut text = concat3("GitHub CLI token request failed (", gh_path, ").");
        text.append(
            if login {
                " Run `gh auth login` in a terminal."
            } else {
                ""
            },
        );
        text.append("\n");
        text.append(message.as_str());
        return Err(AppError::new("cli", text.as_str()));
    }
    let token = trimmed(stdout);
    if token.len() == 0 {
        return Err(
            AppError::new(
                "cli",
                "GitHub CLI returned an empty token. Run `gh auth login` and try again.",
            ),
        );
    }
    Ok(string_of(&token))
}

} // verus!
