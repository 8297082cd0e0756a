//! Where credentials are kept, and what a lookup means. The credential
//! store itself is the caller's part.

use vstd::prelude::*;
use crate::config::opt_text;
use crate::errors::{Error, ErrorView};
use crate::text::{concat2, str_eq};

verus! {

/// The name under which the application keeps its credentials.
pub const SERVICE: &'static str = "RunnerBuddy";

/// The account under which older versions kept the one credential.
pub const LEGACY_ACCOUNT: &'static str = "pat";

/// The account under which the credential of an alias is kept.
pub fn pat_account(alias: &str) -> (r: String)
    ensures
        r@ == "pat:"@ + alias@,
{
    concat2("pat:", alias)
}

/// What is to be written to the credential store.
#[derive(Debug)]
pub struct SecretWrite {
    pub service: String,
    pub account: String,
    pub secret: String,
}

/// The write that keeps a credential under an alias.
pub fn save_pat(alias: &str, pat: &str) -> (r: SecretWrite)
    ensures
        r.service@ == SERVICE@,
        r.account@ == "pat:"@ + alias@,
        r.secret@ == pat@,
{
    SecretWrite { service: SERVICE.to_string(), account: pat_account(alias), secret: pat.to_string() }
}

/// What the credential store answered to a lookup or a removal.
#[derive(Debug)]
pub enum Lookup {
    /// The entry exists and holds this secret.
    Found(String),
    /// There is no such entry.
    NoEntry,
    /// The store failed, with this message.
    Failed(String),
}

/// The view of a [`Lookup`].
pub enum LookupView {
    Found(Seq<char>),
    NoEntry,
    Failed(Seq<char>),
}

impl View for Lookup {
    type V = LookupView;

    open spec fn view(&self) -> LookupView {
        match self {
            Lookup::Found(s) => LookupView::Found(s@),
            Lookup::NoEntry => LookupView::NoEntry,
            Lookup::Failed(m) => LookupView::Failed(m@),
        }
    }
}

/// Whether the account of older versions is looked into: only for the
/// default alias, and only where that has no entry of its own.
pub open spec fn falls_back(alias: Seq<char>, primary: LookupView) -> bool {
    primary is NoEntry && alias == "default"@
}

/// Whether the account of older versions has to be looked into.
pub fn needs_legacy_lookup(alias: &str, primary: &Lookup) -> (r: bool)
    ensures
        r == falls_back(alias@, primary@),
{
    match primary {
        Lookup::NoEntry => str_eq(alias, "default"),
        _ => false,
    }
}

/// The credential that the lookups give.
pub open spec fn loaded_pat(alias: Seq<char>, primary: LookupView, legacy: LookupView) -> Result<
    Option<Seq<char>>,
    ErrorView,
> {
    match primary {
        LookupView::Found(s) => Ok(Some(s)),
        LookupView::Failed(m) => Err(ErrorView::Secrets(m)),
        LookupView::NoEntry => if alias == "default"@ {
            match legacy {
                LookupView::Found(s) => Ok(Some(s)),
                LookupView::NoEntry => Ok(None),
                LookupView::Failed(m) => Err(ErrorView::Secrets(m)),
            }
        } else {
            Ok(None)
        },
    }
}

/// The credential of an alias, from what the credential store answered:
/// `primary` for the account of the alias, `legacy` for the account of
/// older versions, which counts only where [`needs_legacy_lookup`] says so.
pub fn load_pat(alias: &str, primary: Lookup, legacy: Lookup) -> (r: Result<Option<String>, Error>)
    ensures
        match r {
            Ok(s) => loaded_pat(alias@, primary@, legacy@) == Ok::<Option<Seq<char>>, ErrorView>(
                opt_text(s),
            ),
            Err(e) => loaded_pat(alias@, primary@, legacy@) == Err::<Option<Seq<char>>, ErrorView>(
                e@,
            ),
        },
{
    match primary {
        Lookup::Found(s) => Ok(Some(s)),
        Lookup::Failed(m) => Err(Error::Secrets(m)),
        Lookup::NoEntry => if str_eq(alias, "default") {
            match legacy {
                Lookup::Found(s) => Ok(Some(s)),
                Lookup::NoEntry => Ok(None),
                Lookup::Failed(m) => Err(Error::Secrets(m)),
            }
        } else {
            Ok(None)
        },
    }
}

/// What a removal means: an entry that was not there is no error.
pub fn clear_pat(outcome: Lookup) -> (r: Result<(), Error>)
    ensures
        match r {
            Ok(()) => !(outcome@ is Failed),
            Err(e) => outcome@ matches LookupView::Failed(m) && e@ == ErrorView::Secrets(m),
        },
{
    match outcome {
        Lookup::Failed(m) => Err(Error::Secrets(m)),
        _ => Ok(()),
    }
}

} // verus!
