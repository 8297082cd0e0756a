//! Errors of the library and the form in which they reach a caller.

use vstd::prelude::*;
use vstd::std_specs::convert::FromSpecImpl;

verus! {

/// What went wrong. Every variant carries a human-readable message.
#[derive(Debug)]
pub enum Error {
    /// The configuration could not be parsed, migrated or persisted.
    Config(String),
    /// The credential store failed.
    Secrets(String),
    /// The remote API refused or failed a request.
    Github(String),
    /// A profile is not in the state that the operation needs.
    Runner(String),
    /// A service manager command failed, or an external service is in the way.
    Service(String),
    /// The operation does not exist for this operating system or architecture.
    Unsupported(String),
    /// An I/O failure, as its origin reported it.
    Io(String),
    /// A network failure, as its origin reported it.
    Http(String),
    /// A serialization failure, as its origin reported it.
    Json(String),
}

/// The view of an [`Error`].
pub enum ErrorView {
    Config(Seq<char>),
    Secrets(Seq<char>),
    Github(Seq<char>),
    Runner(Seq<char>),
    Service(Seq<char>),
    Unsupported(Seq<char>),
    Io(Seq<char>),
    Http(Seq<char>),
    Json(Seq<char>),
}

impl ErrorView {
    /// The short machine-readable code of the error's kind.
    pub open spec fn code(self) -> Seq<char> {
        match self {
            ErrorView::Config(_) => "config"@,
            ErrorView::Secrets(_) => "secrets"@,
            ErrorView::Github(_) => "github"@,
            ErrorView::Runner(_) => "runner"@,
            ErrorView::Service(_) => "service"@,
            ErrorView::Unsupported(_) => "unsupported"@,
            ErrorView::Io(_) => "io"@,
            ErrorView::Http(_) => "http"@,
            ErrorView::Json(_) => "json"@,
        }
    }

    /// The words that introduce the detail in the rendered message.
    pub open spec fn prefix(self) -> Seq<char> {
        match self {
            ErrorView::Config(_) => "config error: "@,
            ErrorView::Secrets(_) => "secrets error: "@,
            ErrorView::Github(_) => "github api error: "@,
            ErrorView::Runner(_) => "runner error: "@,
            ErrorView::Service(_) => "service error: "@,
            ErrorView::Unsupported(_) => "unsupported platform: "@,
            ErrorView::Io(_) => "io error: "@,
            ErrorView::Http(_) => "http error: "@,
            ErrorView::Json(_) => "json error: "@,
        }
    }

    /// The detail that the error carries.
    pub open spec fn detail(self) -> Seq<char> {
        match self {
            ErrorView::Config(m) => m,
            ErrorView::Secrets(m) => m,
            ErrorView::Github(m) => m,
            ErrorView::Runner(m) => m,
            ErrorView::Service(m) => m,
            ErrorView::Unsupported(m) => m,
            ErrorView::Io(m) => m,
            ErrorView::Http(m) => m,
            ErrorView::Json(m) => m,
        }
    }

    /// The rendered message: the kind's introduction, then the detail.
    pub open spec fn rendered(self) -> Seq<char> {
        self.prefix() + self.detail()
    }
}

impl View for Error {
    type V = ErrorView;

    open spec fn view(&self) -> ErrorView {
        match self {
            Error::Config(m) => ErrorView::Config(m@),
            Error::Secrets(m) => ErrorView::Secrets(m@),
            Error::Github(m) => ErrorView::Github(m@),
            Error::Runner(m) => ErrorView::Runner(m@),
            Error::Service(m) => ErrorView::Service(m@),
            Error::Unsupported(m) => ErrorView::Unsupported(m@),
            Error::Io(m) => ErrorView::Io(m@),
            Error::Http(m) => ErrorView::Http(m@),
            Error::Json(m) => ErrorView::Json(m@),
        }
    }
}

impl Clone for Error {
    fn clone(&self) -> (r: Self)
        ensures
            r@ == self@,
    {
        match self {
            Error::Config(m) => Error::Config(m.clone()),
            Error::Secrets(m) => Error::Secrets(m.clone()),
            Error::Github(m) => Error::Github(m.clone()),
            Error::Runner(m) => Error::Runner(m.clone()),
            Error::Service(m) => Error::Service(m.clone()),
            Error::Unsupported(m) => Error::Unsupported(m.clone()),
            Error::Io(m) => Error::Io(m.clone()),
            Error::Http(m) => Error::Http(m.clone()),
            Error::Json(m) => Error::Json(m.clone()),
        }
    }
}

impl Error {
    /// The short machine-readable code of the error's kind.
    pub fn code(&self) -> (r: &'static str)
        ensures
            r@ == self@.code(),
    {
        match self {
            Error::Config(_) => "config",
            Error::Secrets(_) => "secrets",
            Error::Github(_) => "github",
            Error::Runner(_) => "runner",
            Error::Service(_) => "service",
            Error::Unsupported(_) => "unsupported",
            Error::Io(_) => "io",
            Error::Http(_) => "http",
            Error::Json(_) => "json",
        }
    }

    /// The detail that the error carries.
    pub fn detail(&self) -> (r: &str)
        ensures
            r@ == self@.detail(),
    {
        match self {
            Error::Config(m) => m.as_str(),
            Error::Secrets(m) => m.as_str(),
            Error::Github(m) => m.as_str(),
            Error::Runner(m) => m.as_str(),
            Error::Service(m) => m.as_str(),
            Error::Unsupported(m) => m.as_str(),
            Error::Io(m) => m.as_str(),
            Error::Http(m) => m.as_str(),
            Error::Json(m) => m.as_str(),
        }
    }

    /// The rendered message.
    pub fn to_string(&self) -> (r: String)
        ensures
            r@ == self@.rendered(),
    {
        let prefix = match self {
            Error::Config(_) => "config error: ",
            Error::Secrets(_) => "secrets error: ",
            Error::Github(_) => "github api error: ",
            Error::Runner(_) => "runner error: ",
            Error::Service(_) => "service error: ",
            Error::Unsupported(_) => "unsupported platform: ",
            Error::Io(_) => "io error: ",
            Error::Http(_) => "http error: ",
            Error::Json(_) => "json error: ",
        };
        let mut r = String::from_str(prefix);
        r.append(self.detail());
        r
    }
}

/// An error as a caller sees it: a short code and a message.
#[derive(Debug)]
pub struct AppError {
    pub code: String,
    pub message: String,
}

/// The view of an [`AppError`].
pub struct AppErrorView {
    pub code: Seq<char>,
    pub message: Seq<char>,
}

impl View for AppError {
    type V = AppErrorView;

    open spec fn view(&self) -> AppErrorView {
        AppErrorView { code: self.code@, message: self.message@ }
    }
}

impl AppErrorView {
    /// The rendered form: the message alone when there is no code, else
    /// the code, a colon and the message.
    pub open spec fn rendered(self) -> Seq<char> {
        if self.code.len() == 0 {
            self.message
        } else {
            self.code + ": "@ + self.message
        }
    }

    /// How an [`Error`] reaches a caller.
    pub open spec fn of(err: ErrorView) -> AppErrorView {
        AppErrorView { code: err.code(), message: err.rendered() }
    }
}

impl AppError {
    /// An error with the given code and message.
    pub fn new(code: &str, message: &str) -> (r: Self)
        ensures
            r@ == (AppErrorView { code: code@, message: message@ }),
    {
        AppError { code: String::from_str(code), message: String::from_str(message) }
    }

    /// The rendered form.
    pub fn to_string(&self) -> (r: String)
        ensures
            r@ == self@.rendered(),
    {
        if self.code.as_str().unicode_len() == 0 {
            self.message.clone()
        } else {
            let mut r = self.code.clone();
            r.append(": ");
            r.append(self.message.as_str());
            r
        }
    }
}

impl From<Error> for AppError {
    /// The error's code, and its rendered message.
    fn from(err: Error) -> (r: Self)
        ensures
            r@ == AppErrorView::of(err@),
    {
        AppError { code: String::from_str(err.code()), message: err.to_string() }
    }
}

impl FromSpecImpl<Error> for AppError {
    /// Two strings with the same text need not be the same value, so the
    /// conversion is specified by the `ensures` of `from`, over views.
    open spec fn obeys_from_spec() -> bool {
        false
    }

    open spec fn from_spec(err: Error) -> AppError {
        arbitrary()
    }
}

/// The result of an operation that a caller invoked.
pub type AppResult<T> = Result<T, AppError>;

} // verus!
