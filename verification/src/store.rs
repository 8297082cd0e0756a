//! The configuration store: the single authority over the profiles and
//! settings, with the rule that the selected profile always exists.
//!
//! The store holds the document in memory. Reading and writing the file is
//! the caller's part; the store says when the document has to be written.

use vstd::prelude::*;
use crate::config::{
    fresh_config, opt_text, profiles, Config, ConfigView, ProfileView, RunnerProfile,
};
use crate::errors::{Error, ErrorView};
use crate::text::{concat3, str_eq};

verus! {

/// Number of profiles before the first one with the given identity;
/// `runners.len()` where no profile has it.
pub open spec fn index_of_runner(runners: Seq<ProfileView>, id: Seq<char>) -> int
    decreases runners.len(),
{
    if runners.len() == 0 || runners[0].runner_id == id {
        0
    } else {
        1 + index_of_runner(runners.skip(1), id)
    }
}

/// Whether a profile with the given identity exists.
pub open spec fn has_runner(runners: Seq<ProfileView>, id: Seq<char>) -> bool {
    index_of_runner(runners, id) < runners.len()
}

/// The error for a profile that does not exist.
pub open spec fn not_found(id: Seq<char>) -> ErrorView {
    ErrorView::Runner("runner "@ + id + " not found"@)
}

/// The error for a profile whose identity another profile has already.
pub open spec fn identity_taken(id: Seq<char>) -> ErrorView {
    ErrorView::Runner("runner "@ + id + " already exists"@)
}

/// The error for a document that could not be written.
pub open spec fn write_failed(reason: Seq<char>) -> ErrorView {
    ErrorView::Config("failed to write configuration: "@ + reason)
}

/// The first profile with the given identity, or the error that none exists.
pub open spec fn found_runner(runners: Seq<ProfileView>, id: Seq<char>) -> Result<
    ProfileView,
    ErrorView,
> {
    if has_runner(runners, id) {
        Ok(runners[index_of_runner(runners, id)])
    } else {
        Err(not_found(id))
    }
}

/// `index_of_runner` is a position, no profile before it has the identity,
/// and the profile at it has, unless the end was reached.
pub proof fn lemma_index_of_runner(runners: Seq<ProfileView>, id: Seq<char>)
    ensures
        0 <= index_of_runner(runners, id) <= runners.len(),
        forall|k: int| 0 <= k < index_of_runner(runners, id) ==> runners[k].runner_id != id,
        has_runner(runners, id) ==> runners[index_of_runner(runners, id)].runner_id == id,
    decreases runners.len(),
{
    if runners.len() == 0 || runners[0].runner_id == id {
    } else {
        let rest = runners.skip(1);
        lemma_index_of_runner(rest, id);
        let r = index_of_runner(rest, id);
        assert forall|k: int| 0 <= k < 1 + r implies runners[k].runner_id != id by {
            if k > 0 {
                assert(rest[k - 1] == runners[k]);
            }
        }
        if 1 + r < runners.len() {
            assert(rest[r] == runners[1 + r]);
        }
    }
}

/// A position with the properties of `lemma_index_of_runner` is `index_of_runner`.
pub proof fn lemma_index_of_runner_unique(runners: Seq<ProfileView>, id: Seq<char>, r: int)
    requires
        0 <= r <= runners.len(),
        forall|k: int| 0 <= k < r ==> runners[k].runner_id != id,
        r < runners.len() ==> runners[r].runner_id == id,
    ensures
        index_of_runner(runners, id) == r,
    decreases runners.len(),
{
    if runners.len() == 0 {
    } else if runners[0].runner_id == id {
        if r > 0 {
            assert(runners[0].runner_id != id);
        }
    } else {
        let rest = runners.skip(1);
        assert forall|k: int| 0 <= k < r - 1 implies rest[k].runner_id != id by {
            assert(rest[k] == runners[k + 1]);
        }
        if r - 1 < rest.len() {
            assert(rest[r - 1] == runners[r]);
        }
        lemma_index_of_runner_unique(rest, id, r - 1);
    }
}

/// The position of the first profile with the given identity.
pub fn position_of_runner(runners: &Vec<RunnerProfile>, runner_id: &str) -> (r: usize)
    ensures
        r == index_of_runner(profiles(runners@), runner_id@),
        r <= runners.len(),
{
    let mut i: usize = 0;
    while i < runners.len() && !str_eq(runners[i].runner_id.as_str(), runner_id)
        invariant
            i <= runners.len(),
            forall|k: int| 0 <= k < i ==> profiles(runners@)[k].runner_id != runner_id@,
        decreases runners.len() - i,
    {
        i += 1;
    }
    proof {
        lemma_index_of_runner_unique(profiles(runners@), runner_id@, i as int);
    }
    i
}

/// The view of a profile or of the error in its place.
pub open spec fn profile_result(r: Result<RunnerProfile, Error>) -> Result<ProfileView, ErrorView> {
    match r {
        Ok(p) => Ok(p@),
        Err(e) => Err(e@),
    }
}

/// A copy of the first profile with the given identity.
pub fn find_runner(config: &Config, runner_id: &str) -> (r: Result<RunnerProfile, Error>)
    ensures
        profile_result(r) == found_runner(config@.runners, runner_id@),
{
    let i = position_of_runner(&config.runners, runner_id);
    if i < config.runners.len() {
        Ok(config.runners[i].clone())
    } else {
        Err(Error::Runner(concat3("runner ", runner_id, " not found")))
    }
}

/// The selection that the rule allows: nothing where there is no profile;
/// the present selection where it names a profile; else the first profile.
pub open spec fn sanitized_selection(c: ConfigView) -> Option<Seq<char>> {
    if c.runners.len() == 0 {
        None
    } else {
        match c.selected_runner_id {
            Some(id) => if has_runner(c.runners, id) {
                Some(id)
            } else {
                Some(c.runners[0].runner_id)
            },
            None => Some(c.runners[0].runner_id),
        }
    }
}

/// The configuration with the selection that the rule allows.
pub open spec fn sanitized(c: ConfigView) -> ConfigView {
    ConfigView { selected_runner_id: sanitized_selection(c), ..c }
}

/// The rule: nothing is selected and there is no profile, or the selected
/// identity is that of a profile.
pub open spec fn selection_valid(c: ConfigView) -> bool {
    match c.selected_runner_id {
        None => c.runners.len() == 0,
        Some(id) => has_runner(c.runners, id),
    }
}

/// Repairing establishes the rule, and changes nothing where it holds.
pub proof fn lemma_sanitized_is_valid(c: ConfigView)
    ensures
        selection_valid(sanitized(c)),
        selection_valid(c) ==> sanitized(c) == c,
        sanitized(sanitized(c)) == sanitized(c),
{
    if c.runners.len() > 0 {
        lemma_index_of_runner_unique(c.runners, c.runners[0].runner_id, 0);
    }
    lemma_index_of_runner(c.runners, sanitized_selection(c).unwrap_or(seq![]));
}

/// A profile with a given identity exists exactly where one of the
/// profiles has that identity.
pub proof fn lemma_has_runner(runners: Seq<ProfileView>, id: Seq<char>)
    ensures
        has_runner(runners, id) <==> exists|i: int|
            0 <= i < runners.len() && (#[trigger] runners[i]).runner_id == id,
{
    lemma_index_of_runner(runners, id);
    if has_runner(runners, id) {
        assert(runners[index_of_runner(runners, id)].runner_id == id);
    }
}

/// Whether no two profiles have the same identity.
pub open spec fn unique_identities(runners: Seq<ProfileView>) -> bool {
    forall|i: int, j: int|
        0 <= i < j < runners.len() ==> (#[trigger] runners[i]).runner_id != (
        #[trigger] runners[j]).runner_id
}

/// Profiles that are unique by identity stay so when a profile joins them
/// whose identity none of them has.
pub proof fn lemma_new_identity_keeps_profiles_unique(runners: Seq<ProfileView>, p: ProfileView)
    requires
        unique_identities(runners),
        !has_runner(runners, p.runner_id),
    ensures
        unique_identities(runners.push(p)),
{
    lemma_has_runner(runners, p.runner_id);
    let next = runners.push(p);
    assert forall|i: int, j: int| 0 <= i < j < next.len() implies (#[trigger] next[i]).runner_id != (
    #[trigger] next[j]).runner_id by {
        if j < runners.len() {
            assert(next[i] == runners[i] && next[j] == runners[j]);
        } else {
            assert(next[i] == runners[i]);
        }
    }
}

/// Under the rule, nothing is selected only where there is no profile, and
/// what is selected is the identity of one of the profiles.
pub proof fn lemma_valid_selection_names_a_profile(c: ConfigView)
    requires
        selection_valid(c),
    ensures
        match c.selected_runner_id {
            None => c.runners.len() == 0,
            Some(id) => exists|i: int|
                0 <= i < c.runners.len() && (#[trigger] c.runners[i]).runner_id == id,
        },
{
    if let Some(id) = c.selected_runner_id {
        lemma_has_runner(c.runners, id);
    }
}

fn same_selection(a: &Option<String>, b: &Option<String>) -> (r: bool)
    ensures
        r == (opt_text(*a) == opt_text(*b)),
{
    match (a, b) {
        (Some(x), Some(y)) => str_eq(x.as_str(), y.as_str()),
        (None, None) => true,
        _ => false,
    }
}

/// Repairs the selection. Returns whether it changed.
pub fn sanitize_selected_runner_id(config: &mut Config) -> (changed: bool)
    ensures
        final(config)@ == sanitized(old(config)@),
        changed == (sanitized_selection(old(config)@) != old(config)@.selected_runner_id),
{
    let next = if config.runners.len() == 0 {
        None
    } else {
        let keep = match &config.selected_runner_id {
            Some(selected) => position_of_runner(&config.runners, selected.as_str())
                < config.runners.len(),
            None => false,
        };
        if keep {
            config.selected_runner_id.clone()
        } else {
            Some(config.runners[0].runner_id.clone())
        }
    };
    if same_selection(&config.selected_runner_id, &next) {
        return false;
    }
    config.selected_runner_id = next;
    true
}

/// The store that holds a fresh configuration, with nothing to write.
pub open spec fn fresh_store() -> StoreView {
    StoreView { config: fresh_config(), needs_save: false }
}

/// The store: the document, and whether it differs from what is on disk.
#[derive(Debug)]
pub struct ConfigStore {
    pub config: Config,
    pub needs_save: bool,
}

/// The view of a [`ConfigStore`].
pub struct StoreView {
    pub config: ConfigView,
    pub needs_save: bool,
}

impl View for ConfigStore {
    type V = StoreView;

    open spec fn view(&self) -> StoreView {
        StoreView { config: self.config@, needs_save: self.needs_save }
    }
}

impl ConfigStore {
    /// A store that holds a fresh configuration, with nothing to write.
    pub fn fresh() -> (r: ConfigStore)
        ensures
            r@ == fresh_store(),
            selection_valid(r@.config),
    {
        ConfigStore { config: Config::default(), needs_save: false }
    }

    /// A store that holds the given document, repaired where the selection
    /// rule was broken; a repair has to be written.
    pub fn holding(config: Config) -> (r: ConfigStore)
        ensures
            r@.config == sanitized(config@),
            r@.needs_save == (sanitized(config@) != config@),
            selection_valid(r@.config),
    {
        let ghost given = config@;
        let mut config = config;
        let changed = sanitize_selected_runner_id(&mut config);
        proof {
            lemma_sanitized_is_valid(given);
        }
        ConfigStore { config, needs_save: changed }
    }

    /// A snapshot of the document.
    pub fn get(&self) -> (r: Config)
        ensures
            r@ == self@.config,
    {
        self.config.clone()
    }

    /// Records that the document has been written.
    pub fn mark_saved(&mut self)
        ensures
            final(self)@ == (StoreView { needs_save: false, ..old(self)@ }),
    {
        self.needs_save = false;
    }

    /// Records how writing the document went. After a write that
    /// succeeded nothing is left to write. A write that failed is a
    /// configuration error: the store stays as it is, with the change in
    /// memory and the document still to be written.
    pub fn written(&mut self, outcome: Result<(), String>) -> (r: Result<(), Error>)
        ensures
            match outcome {
                Ok(()) => r is Ok && final(self)@ == (StoreView { needs_save: false, ..old(self)@ }),
                Err(reason) => {
                    &&& r matches Err(e)
                    &&& e@ == write_failed(reason@)
                    &&& *final(self) == *old(self)
                },
            },
    {
        match outcome {
            Ok(()) => {
                self.needs_save = false;
                Ok(())
            },
            Err(reason) => Err(
                Error::Config(crate::text::concat2("failed to write configuration: ", reason.as_str())),
            ),
        }
    }

    /// Applies `updater` to the document, repairs the selection, and marks
    /// the document as to be written. Returns a snapshot of the result.
    pub fn update<F: FnOnce(Config) -> Config>(&mut self, updater: F) -> (r: Config)
        requires
            updater.requires((old(self).config,)),
        ensures
            exists|mid: Config|
                #![trigger updater.ensures((old(self).config,), mid)]
                updater.ensures((old(self).config,), mid) && final(self)@.config == sanitized(mid@),
            final(self)@.needs_save,
            selection_valid(final(self)@.config),
            r@ == final(self)@.config,
    {
        let mut taken = Config::default();
        std::mem::swap(&mut self.config, &mut taken);
        let mut mid = updater(taken);
        let ghost mid_before = mid;
        sanitize_selected_runner_id(&mut mid);
        proof {
            lemma_sanitized_is_valid(mid_before@);
        }
        self.config = mid;
        self.needs_save = true;
        self.config.clone()
    }

    /// Applies `updater` to the first profile with the given identity. The
    /// identity itself is put back, so it cannot change. The selection is
    /// repaired and the document marked as to be written, whether the
    /// profile exists or not. Returns a copy of the updated profile.
    pub fn update_runner<F: FnOnce(RunnerProfile) -> RunnerProfile>(
        &mut self,
        runner_id: &str,
        updater: F,
    ) -> (r: Result<RunnerProfile, Error>)
        requires
            forall|i: int|
                0 <= i < old(self).config.runners.len() ==> updater.requires(
                    (#[trigger] old(self).config.runners[i],),
                ),
        ensures
            final(self)@.needs_save,
            selection_valid(final(self)@.config),
            !has_runner(old(self)@.config.runners, runner_id@) ==> {
                &&& final(self)@.config == sanitized(old(self)@.config)
                &&& profile_result(r) == Err::<ProfileView, ErrorView>(not_found(runner_id@))
            },
            has_runner(old(self)@.config.runners, runner_id@) ==> exists|next: RunnerProfile|
                #![trigger next@]
                {
                    let i = index_of_runner(old(self)@.config.runners, runner_id@);
                    let kept = ProfileView { runner_id: runner_id@, ..next@ };
                    &&& updater.ensures((old(self).config.runners[i],), next)
                    &&& final(self)@.config == sanitized(
                        ConfigView {
                            runners: old(self)@.config.runners.update(i, kept),
                            ..old(self)@.config
                        },
                    )
                    &&& profile_result(r) == Ok::<ProfileView, ErrorView>(kept)
                },
    {
        let ghost before = self.config@;
        proof {
            lemma_index_of_runner(before.runners, runner_id@);
            lemma_sanitized_is_valid(before);
        }
        let i = position_of_runner(&self.config.runners, runner_id);
        if i >= self.config.runners.len() {
            sanitize_selected_runner_id(&mut self.config);
            self.needs_save = true;
            return Err(Error::Runner(concat3("runner ", runner_id, " not found")));
        }
        let ghost original = self.config.runners[i as int];
        let taken = self.config.runners.remove(i);
        let mut next = updater(taken);
        let ghost produced = next;
        next.runner_id = runner_id.to_string();
        let copy = next.clone();
        self.config.runners.insert(i, next);
        let ghost kept = ProfileView { runner_id: runner_id@, ..produced@ };
        let ghost mid = ConfigView { runners: before.runners.update(i as int, kept), ..before };
        assert(self.config@.runners =~= mid.runners);
        assert(self.config@ == mid);
        sanitize_selected_runner_id(&mut self.config);
        proof {
            lemma_sanitized_is_valid(mid);
        }
        self.needs_save = true;
        assert(updater.ensures((original,), produced));
        Ok(copy)
    }

    /// Puts a profile in the place of the first profile with its identity,
    /// repairs the selection and marks the document as to be written.
    /// Where no profile has the identity, nothing is put.
    pub fn put(&mut self, profile: RunnerProfile) -> (r: Result<(), Error>)
        ensures
            final(self)@.needs_save,
            selection_valid(final(self)@.config),
            !has_runner(old(self)@.config.runners, profile@.runner_id) ==> {
                &&& final(self)@.config == sanitized(old(self)@.config)
                &&& r matches Err(e)
                &&& e@ == not_found(profile@.runner_id)
            },
            has_runner(old(self)@.config.runners, profile@.runner_id) ==> {
                &&& final(self)@.config == sanitized(
                    ConfigView {
                        runners: old(self)@.config.runners.update(
                            index_of_runner(old(self)@.config.runners, profile@.runner_id),
                            profile@,
                        ),
                        ..old(self)@.config
                    },
                )
                &&& r is Ok
            },
    {
        let ghost before = self.config@;
        proof {
            lemma_index_of_runner(before.runners, profile@.runner_id);
            lemma_sanitized_is_valid(before);
        }
        let i = position_of_runner(&self.config.runners, profile.runner_id.as_str());
        if i >= self.config.runners.len() {
            sanitize_selected_runner_id(&mut self.config);
            self.needs_save = true;
            return Err(Error::Runner(concat3("runner ", profile.runner_id.as_str(), " not found")));
        }
        let mut incoming = profile;
        std::mem::swap(&mut self.config.runners[i], &mut incoming);
        let ghost mid = ConfigView { runners: before.runners.update(i as int, profile@), ..before };
        assert(self.config@.runners =~= mid.runners);
        sanitize_selected_runner_id(&mut self.config);
        proof {
            lemma_sanitized_is_valid(mid);
        }
        self.needs_save = true;
        Ok(())
    }
}

} // verus!
