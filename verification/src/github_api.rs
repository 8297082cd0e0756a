//! What the library says about the exchange with the remote API: the
//! addresses, the reading of its answers, and the wording of its failures.
//! The requests themselves are the caller's part.

use vstd::prelude::*;
use crate::config::opt_text;
use crate::errors::{Error, ErrorView};
use crate::text::{
    chars_of, concat2, concat3, contains, index_of, position_of, slice_of, split, split_on,
    string_of, strip, texts, trim, CharClass,
};

verus! {

/// The address of the remote API.
pub const API_BASE: &'static str = "https://api.github.com";

/// How many pages a listing may have.
pub const MAX_PAGES: u32 = 200;

/// A token that registers or removes a runner.
#[derive(Debug)]
pub struct RegistrationToken {
    pub token: String,
    pub expires_at: String,
}

/// What the credential may do with a repository.
#[derive(Debug, Clone, Copy, PartialEq, Eq, Structural)]
pub struct RepoPermissions {
    pub admin: bool,
    pub push: bool,
    pub pull: bool,
}

/// A repository that the credential can see.
#[derive(Debug)]
pub struct RepoInfo {
    pub owner: String,
    pub repo: String,
    pub name_with_owner: String,
    pub url: String,
    pub private: bool,
    pub permissions: Option<RepoPermissions>,
}

/// An organization that the credential can see.
#[derive(Debug)]
pub struct OrgInfo {
    pub org: String,
    pub url: String,
}

/// The address of an endpoint of the remote API.
pub fn api_url(endpoint: &str) -> (r: String)
    ensures
        r@ == API_BASE@ + endpoint@,
{
    concat2(API_BASE, endpoint)
}

/// The value of the header that carries the credential.
pub fn authorization_value(pat: &str) -> (r: String)
    ensures
        r@ == "token "@ + pat@,
{
    concat2("token ", pat)
}

/// The mark of the link to the next page.
pub open spec fn next_mark() -> Seq<char> {
    "rel=\"next\""@
}

/// The address of the next page in the parts of a link header. The first
/// part that carries the mark decides: without both angle brackets there is
/// no next page; with nothing between them the part is passed over.
pub open spec fn next_link_in(parts: Seq<Seq<char>>) -> Option<Seq<char>>
    decreases parts.len(),
{
    if parts.len() == 0 {
        None
    } else {
        let part = trim(parts[0]);
        let start = index_of(part, '<');
        let end = index_of(part, '>');
        if !contains(part, next_mark()) {
            next_link_in(parts.skip(1))
        } else if start >= part.len() || end >= part.len() {
            None
        } else if end <= start + 1 {
            next_link_in(parts.skip(1))
        } else {
            Some(part.subrange(start + 1, end))
        }
    }
}

/// The address of the next page that a link header names.
pub open spec fn next_link(header_value: Seq<char>) -> Option<Seq<char>> {
    next_link_in(split(header_value, ','))
}

/// The address of the next page that a link header names.
#[verifier::loop_isolation(false)]
pub fn parse_next_link(header_value: &str) -> (r: Option<String>)
    ensures
        opt_text(r) == next_link(header_value@),
{
    let chars = chars_of(header_value);
    let parts = split_on(&chars, ',');
    let mark = chars_of("rel=\"next\"");
    let ghost all = texts(parts@);
    let mut k: usize = 0;
    assert(all.skip(0) == all);
    while k < parts.len()
        invariant
            k <= parts.len(),
            next_link_in(all) == next_link_in(all.skip(k as int)),
        decreases parts.len() - k,
    {
        assert(all.skip(k as int)[0] == parts@[k as int]@);
        assert(all.skip(k as int).skip(1) == all.skip(k + 1));
        let part = strip(&parts[k], CharClass::Whitespace);
        if crate::text::has(&part, &mark) {
            assert(part@.skip(0) == part@);
            let start = position_of(&part, '<', 0);
            if start >= part.len() {
                return None;
            }
            let end = position_of(&part, '>', 0);
            if end >= part.len() {
                return None;
            }
            if end > start + 1 {
                return Some(string_of(&slice_of(&part, start + 1, end)));
            }
        }
        k += 1;
    }
    None
}

/// How many bytes a character takes in UTF-8.
pub open spec fn utf8_width(c: char) -> int {
    if (c as u32) < 0x80 {
        1
    } else if (c as u32) < 0x800 {
        2
    } else if (c as u32) < 0x10000 {
        3
    } else {
        4
    }
}

/// How many bytes a text takes in UTF-8.
pub open spec fn utf8_size(s: Seq<char>) -> int
    decreases s.len(),
{
    if s.len() == 0 {
        0
    } else {
        utf8_size(s.drop_last()) + utf8_width(s.last())
    }
}

/// How many characters from the start of a text fit into the given number of bytes.
pub open spec fn fitting(s: Seq<char>, bytes: int) -> int
    decreases s.len(),
{
    if s.len() == 0 || utf8_size(s) <= bytes {
        s.len() as int
    } else {
        fitting(s.drop_last(), bytes)
    }
}

/// How many bytes of a failure body are shown.
pub const SNIPPET_BYTES: usize = 600;

/// The mark that a shortened body ends with.
pub open spec fn shortened_mark() -> Seq<char> {
    "\u{e2}\u{20ac}\u{a6}"@
}

/// A body as it is shown: whole where it fits into [`SNIPPET_BYTES`]
/// bytes, else its longest beginning that fits, followed by a mark.
pub open spec fn snippet_of(trimmed: Seq<char>) -> Seq<char> {
    if utf8_size(trimmed) > SNIPPET_BYTES as int {
        trimmed.take(fitting(trimmed, SNIPPET_BYTES as int)) + shortened_mark()
    } else {
        trimmed
    }
}

/// What a failure body says, in short. A JSON body with a `message` gives
/// that message, followed by its `documentation_url` in brackets where it
/// has one. Any other body gives its beginning.
pub open spec fn error_summary(body: Seq<char>) -> Seq<char> {
    let trimmed = trim(body);
    if trimmed.len() == 0 {
        seq![]
    } else {
        match crate::json::json_parsed(trimmed) {
            Some(value) => match value.member_text("message"@) {
                Some(message) => match value.member_text("documentation_url"@) {
                    Some(doc) => message + " ("@ + doc + ")"@,
                    None => message,
                },
                None => snippet_of(trimmed),
            },
            None => snippet_of(trimmed),
        }
    }
}

fn width_of(c: char) -> (r: usize)
    ensures
        r == utf8_width(c),
        1 <= r <= 4,
{
    let v = c as u32;
    if v < 0x80 {
        1
    } else if v < 0x800 {
        2
    } else if v < 0x10000 {
        3
    } else {
        4
    }
}

/// The sizes of the beginnings of a text grow with their length.
pub proof fn lemma_utf8_size_grows(s: Seq<char>, n: int)
    requires
        0 <= n <= s.len(),
    ensures
        0 <= utf8_size(s.take(n)) <= utf8_size(s),
        utf8_size(s.take(n)) >= n,
    decreases s.len() - n,
{
    if n == s.len() {
        assert(s.take(n) == s);
        lemma_utf8_size_at_least_len(s);
    } else {
        lemma_utf8_size_grows(s, n + 1);
        assert(s.take(n + 1).drop_last() == s.take(n));
        lemma_utf8_size_at_least_len(s.take(n));
    }
}

/// A text takes at least one byte per character.
pub proof fn lemma_utf8_size_at_least_len(s: Seq<char>)
    ensures
        utf8_size(s) >= s.len(),
    decreases s.len(),
{
    if s.len() > 0 {
        lemma_utf8_size_at_least_len(s.drop_last());
    }
}

/// The longest beginning that fits is the one after which the next
/// character does not fit any more.
proof fn lemma_fitting(s: Seq<char>, bytes: int, n: int)
    requires
        0 <= n <= s.len(),
        utf8_size(s.take(n)) <= bytes,
        n < s.len() ==> utf8_size(s.take(n + 1)) > bytes,
    ensures
        fitting(s, bytes) == n,
    decreases s.len(),
{
    if s.len() == 0 {
    } else if n == s.len() {
        assert(s.take(n) == s);
    } else {
        lemma_utf8_size_grows(s, n + 1);
        let t = s.drop_last();
        assert(t.take(n) == s.take(n));
        if n < t.len() {
            assert(t.take(n + 1) == s.take(n + 1));
        }
        lemma_fitting(t, bytes, n);
    }
}

fn snippet(trimmed: &Vec<char>) -> (r: String)
    ensures
        r@ == snippet_of(trimmed@),
{
    let mut size: usize = 0;
    let mut n: usize = 0;
    assert(trimmed@.take(0) =~= Seq::<char>::empty());
    while n < trimmed.len() && size + width_of(trimmed[n]) <= SNIPPET_BYTES
        invariant
            n <= trimmed.len(),
            size == utf8_size(trimmed@.take(n as int)),
            size <= SNIPPET_BYTES,
        decreases trimmed.len() - n,
    {
        assert(trimmed@.take(n + 1).drop_last() == trimmed@.take(n as int));
        size += width_of(trimmed[n]);
        n += 1;
    }
    proof {
        if n < trimmed.len() {
            assert(trimmed@.take(n + 1).drop_last() == trimmed@.take(n as int));
            lemma_utf8_size_grows(trimmed@, n + 1);
        } else {
            assert(trimmed@.take(n as int) == trimmed@);
        }
        lemma_fitting(trimmed@, SNIPPET_BYTES as int, n as int);
    }
    if n < trimmed.len() {
        let head = slice_of(trimmed, 0, n);
        assert(trimmed@.subrange(0, n as int) == trimmed@.take(n as int));
        let mut r = string_of(&head);
        r.append("\u{e2}\u{20ac}\u{a6}");
        r
    } else {
        string_of(trimmed)
    }
}

/// What a failure body says, in short.
pub fn summarize_error_body(body: &str) -> (r: String)
    ensures
        r@ == error_summary(body@),
{
    let chars = chars_of(body);
    let trimmed = strip(&chars, CharClass::Whitespace);
    if trimmed.len() == 0 {
        return String::new();
    }
    let text = string_of(&trimmed);
    if let Ok(value) = crate::json::parse(text.as_str()) {
        if let Some(message) = crate::json::text_at(&value, "message") {
            if let Some(doc) = crate::json::text_at(&value, "documentation_url") {
                let mut r = concat3(message.as_str(), " (", doc.as_str());
                r.append(")");
                return r;
            }
            return message;
        }
    }
    snippet(&trimmed)
}

/// The message for a request that the remote API refused: what was asked
/// for, the status, and what the body says where it says anything.
pub open spec fn refusal(what: Seq<char>, status: Seq<char>, body: Seq<char>) -> ErrorView {
    if error_summary(body).len() == 0 {
        ErrorView::Github(what + ": "@ + status)
    } else {
        ErrorView::Github(what + ": "@ + status + ": "@ + error_summary(body))
    }
}

/// The error for a request that the remote API refused. `what` names the
/// request, `status` is the status line of the answer.
pub fn request_failed(what: &str, status: &str, body: &str) -> (e: Error)
    ensures
        e@ == refusal(what@, status@, body@),
{
    let summary = summarize_error_body(body);
    let mut message = concat3(what, ": ", status);
    if summary.as_str().unicode_len() == 0 {
        return Error::Github(message);
    }
    message.append(": ");
    message.append(summary.as_str());
    Error::Github(message)
}

/// What follows a page of a listing: the address of the next page, or
/// the end. A listing of more than [`MAX_PAGES`] pages is refused.
pub open spec fn page_step(pages_read: u32, link: Option<Seq<char>>) -> Result<
    Option<Seq<char>>,
    ErrorView,
> {
    match link {
        None => Ok(None),
        Some(header) => match next_link(header) {
            None => Ok(None),
            Some(next) => if pages_read >= MAX_PAGES {
                Err(ErrorView::Github("pagination exceeded 200 pages"@))
            } else {
                Ok(Some(next))
            },
        },
    }
}

/// Decides what follows a page of a listing. `pages_read` counts the
/// pages read so far, this one included; `link` is the link header of the
/// page, if it has one.
pub fn next_page(pages_read: u32, link: Option<&str>) -> (r: Result<Option<String>, Error>)
    ensures
        match r {
            Ok(next) => page_step(
                pages_read,
                match link {
                    Some(l) => Some(l@),
                    None => None,
                },
            ) == Ok::<Option<Seq<char>>, ErrorView>(opt_text(next)),
            Err(e) => page_step(
                pages_read,
                match link {
                    Some(l) => Some(l@),
                    None => None,
                },
            ) == Err::<Option<Seq<char>>, ErrorView>(e@),
        },
{
    let header = match link {
        Some(h) => h,
        None => {
            return Ok(None);
        },
    };
    match parse_next_link(header) {
        None => Ok(None),
        Some(next) => if pages_read >= MAX_PAGES {
            Err(Error::Github("pagination exceeded 200 pages".to_string()))
        } else {
            Ok(Some(next))
        },
    }
}

} // verus!
