//! The discovery controller: the state of one search for the asset
//! directory, and the operations that move it on.
//!
//! The controller decides; it performs no I/O. What exists on the host
//! comes in as a [`DirectorySnapshot`], and the one directory the controller
//! wants made goes out as the result of [`DiscoveryState::confirm`].

use crate::normalize::{normalize_manual_input, normalized};
use crate::platform::Platform;
use crate::prober::{
    candidate_paths, candidates, first_directory, home_or_empty, lemma_first_directory_is_earliest,
    lemma_first_directory_none, lemma_single_candidate, probe, DirectorySnapshot,
};
use crate::text::same_text;
use vstd::prelude::*;

verus! {

/// What `path` holds after a search that found nothing.
pub const NOT_FOUND: &'static str = "Not found";

/// What is appended to the asset directory to name the mod directory.
pub const MODS_SUBDIRECTORY: &'static str = "/~mods/";

/// Where the controller stands in a confirmation cycle.
#[derive(Clone, Copy, Debug, PartialEq, Eq, Structural)]
pub enum Phase {
    /// No search has completed.
    Unresolved,
    /// A directory was located and waits to be confirmed or rejected.
    FoundAwaiting,
    /// Nothing is located, or what was located was rejected; a manual
    /// entry is awaited.
    NotFoundAwaiting,
    /// The outcome was confirmed.
    Committed,
}

/// The state of the controller.
#[derive(Debug)]
pub struct DiscoveryState {
    resolved: bool,
    found: bool,
    path: String,
    awaiting_confirmation: bool,
    override_input: String,
    override_valid: bool,
}

/// The mathematical content of a [`DiscoveryState`].
pub struct DiscoveryStateView {
    /// A search, automatic or manual, has completed.
    pub resolved: bool,
    /// The last search located the asset directory, and it was not rejected since.
    pub found: bool,
    /// The directory located, or [`NOT_FOUND`].
    pub path: Seq<char>,
    /// The outcome is on display and has not been confirmed.
    pub awaiting_confirmation: bool,
    /// The manual input as it was entered.
    pub override_input: Seq<char>,
    /// The last manual check found exactly the directory asked for.
    pub override_valid: bool,
}

impl DiscoveryStateView {
    /// The state at start: nothing searched, every text empty.
    pub open spec fn initial() -> Self {
        DiscoveryStateView {
            resolved: false,
            found: false,
            path: Seq::empty(),
            awaiting_confirmation: false,
            override_input: Seq::empty(),
            override_valid: false,
        }
    }

    /// The state once a search has ended with `hit`: resolved, on display,
    /// and holding the directory located or the marker that none was.
    pub open spec fn settled(self, hit: Option<Seq<char>>) -> Self {
        DiscoveryStateView {
            resolved: true,
            found: hit is Some,
            path: match hit {
                Some(dir) => dir,
                None => NOT_FOUND@,
            },
            awaiting_confirmation: true,
            ..self
        }
    }

    /// The state after automatic discovery on `platform` with `home` and
    /// `dirs`: unchanged where a search had completed before.
    pub open spec fn after_automatic_discovery(
        self,
        platform: Platform,
        home: Option<Seq<char>>,
        dirs: Set<Seq<char>>,
    ) -> Self {
        if self.resolved {
            self
        } else {
            self.settled(first_directory(candidates(platform, home_or_empty(home)), dirs))
        }
    }

    /// The state after a manual check of the one candidate `wanted`.
    pub open spec fn after_manual_check(self, wanted: Seq<char>, dirs: Set<Seq<char>>) -> Self {
        let settled = self.settled(first_directory(seq![wanted], dirs));
        DiscoveryStateView {
            override_valid: settled.found && settled.path == wanted,
            ..settled
        }
    }

    /// The state after the manual input `raw` was submitted.
    pub open spec fn after_manual_input(self, raw: Seq<char>, dirs: Set<Seq<char>>) -> Self {
        (DiscoveryStateView { override_input: raw, ..self }).after_manual_check(
            normalized(raw),
            dirs,
        )
    }

    /// The state after the outcome was confirmed.
    pub open spec fn after_confirm(self) -> Self {
        DiscoveryStateView { awaiting_confirmation: false, ..self }
    }

    /// The state after the outcome was rejected.
    pub open spec fn after_reject(self) -> Self {
        DiscoveryStateView { found: false, ..self }
    }

    /// The directory that confirming asks to be made: the mod directory
    /// below the located path, and none unless a path is located.
    pub open spec fn mods_directory(self) -> Option<Seq<char>> {
        if self.found {
            Some(self.path + MODS_SUBDIRECTORY@)
        } else {
            None
        }
    }

    /// The phase that the state is in.
    pub open spec fn phase(self) -> Phase {
        if !self.resolved {
            Phase::Unresolved
        } else if !self.awaiting_confirmation {
            Phase::Committed
        } else if self.found {
            Phase::FoundAwaiting
        } else {
            Phase::NotFoundAwaiting
        }
    }

    /// Nothing is found, on display or valid before a search has completed.
    pub open spec fn well_formed(self) -> bool {
        &&& self.found ==> self.resolved
        &&& self.awaiting_confirmation ==> self.resolved
        &&& self.override_valid ==> self.resolved
    }
}

impl View for DiscoveryState {
    type V = DiscoveryStateView;

    closed spec fn view(&self) -> DiscoveryStateView {
        DiscoveryStateView {
            resolved: self.resolved,
            found: self.found,
            path: self.path@,
            awaiting_confirmation: self.awaiting_confirmation,
            override_input: self.override_input@,
            override_valid: self.override_valid,
        }
    }
}

impl DiscoveryState {
    /// The state at start.
    pub fn new() -> (state: Self)
        ensures
            state@ == DiscoveryStateView::initial(),
            state@.well_formed(),
    {
        DiscoveryState {
            resolved: false,
            found: false,
            path: String::new(),
            awaiting_confirmation: false,
            override_input: String::new(),
            override_valid: false,
        }
    }

    /// Whether a search has completed.
    pub fn resolved(&self) -> (resolved: bool)
        ensures
            resolved == self@.resolved,
    {
        self.resolved
    }

    /// Whether the asset directory is located.
    pub fn found(&self) -> (found: bool)
        ensures
            found == self@.found,
    {
        self.found
    }

    /// The directory located, or [`NOT_FOUND`].
    pub fn path(&self) -> (path: &str)
        ensures
            path@ == self@.path,
    {
        self.path.as_str()
    }

    /// Whether the outcome is on display, waiting to be confirmed.
    pub fn awaiting_confirmation(&self) -> (awaiting: bool)
        ensures
            awaiting == self@.awaiting_confirmation,
    {
        self.awaiting_confirmation
    }

    /// The manual input as it was last submitted.
    pub fn override_input(&self) -> (input: &str)
        ensures
            input@ == self@.override_input,
    {
        self.override_input.as_str()
    }

    /// Whether the last manual check found exactly the directory asked for.
    pub fn override_valid(&self) -> (valid: bool)
        ensures
            valid == self@.override_valid,
    {
        self.override_valid
    }

    /// The phase that the state is in.
    pub fn phase(&self) -> (phase: Phase)
        ensures
            phase == self@.phase(),
    {
        if !self.resolved {
            Phase::Unresolved
        } else if !self.awaiting_confirmation {
            Phase::Committed
        } else if self.found {
            Phase::FoundAwaiting
        } else {
            Phase::NotFoundAwaiting
        }
    }

    /// Takes in the end of a search.
    fn settle(&mut self, hit: Option<String>)
        ensures
            final(self)@ == old(self)@.settled(hit.deep_view()),
    {
        match hit {
            Some(dir) => {
                self.found = true;
                self.path = dir;
            },
            None => {
                self.found = false;
                self.path = String::from_str(NOT_FOUND);
            },
        }
        self.awaiting_confirmation = true;
        self.resolved = true;
    }

    /// Searches the default locations of `platform` in `dirs`, unless a
    /// search has completed before: then nothing changes.
    pub fn run_automatic_discovery(
        &mut self,
        platform: Platform,
        home: Option<&str>,
        dirs: &DirectorySnapshot,
    )
        ensures
            final(self)@ == old(self)@.after_automatic_discovery(platform, home.deep_view(), dirs@),
            old(self)@.well_formed() ==> final(self)@.well_formed(),
    {
        if self.resolved {
            return ;
        }
        let paths = candidate_paths(platform, home);
        let hit = probe(&paths, dirs);
        self.settle(hit);
    }

    /// Starts a new search for the one candidate `wanted`, which the caller
    /// has normalized, and tells whether it exists.
    pub fn check_manual_path(&mut self, wanted: &str, dirs: &DirectorySnapshot) -> (found: bool)
        ensures
            final(self)@ == old(self)@.after_manual_check(wanted@, dirs@),
            found == dirs@.contains(wanted@),
            found == final(self)@.found,
            found == final(self)@.override_valid,
            old(self)@.well_formed() ==> final(self)@.well_formed(),
    {
        self.resolved = false;
        let mut paths: Vec<String> = Vec::new();
        paths.push(String::from_str(wanted));
        proof {
            assert(paths.deep_view() =~= seq![wanted@]);
            lemma_single_candidate(wanted@, dirs@);
        }
        let hit = probe(&paths, dirs);
        self.settle(hit);
        self.override_valid = self.found && same_text(self.path.as_str(), wanted);
        self.found
    }

    /// Takes in the manual input `raw`: keeps it, normalizes it and checks
    /// the directory it stands for.
    pub fn submit_manual_input(&mut self, raw: &str, dirs: &DirectorySnapshot) -> (found: bool)
        ensures
            final(self)@ == old(self)@.after_manual_input(raw@, dirs@),
            found == dirs@.contains(normalized(raw@)),
            found == final(self)@.found,
            found == final(self)@.override_valid,
            old(self)@.well_formed() ==> final(self)@.well_formed(),
    {
        self.override_input = String::from_str(raw);
        let wanted = normalize_manual_input(raw);
        self.check_manual_path(wanted.as_str(), dirs)
    }

    /// Confirms the outcome and takes it off display. Returns the mod
    /// directory for the caller to make, with any missing parents, unless
    /// it exists; nothing is returned where no path is located. Whether
    /// the caller succeeds is of no concern to the state.
    pub fn confirm(&mut self) -> (request: Option<String>)
        ensures
            final(self)@ == old(self)@.after_confirm(),
            request.deep_view() == old(self)@.mods_directory(),
            old(self)@.well_formed() ==> final(self)@.well_formed(),
    {
        self.awaiting_confirmation = false;
        if self.found {
            let mut dir = self.path.clone();
            dir.append(MODS_SUBDIRECTORY);
            Some(dir)
        } else {
            None
        }
    }

    /// Rejects the outcome: the path counts as not found, and the outcome
    /// stays on display for a manual entry.
    pub fn reject(&mut self)
        ensures
            final(self)@ == old(self)@.after_reject(),
            old(self)@.well_formed() ==> final(self)@.well_formed(),
    {
        self.found = false;
    }
}

impl Clone for DiscoveryState {
    /// A second state with the same content.
    fn clone(&self) -> (copy: Self)
        ensures
            copy@ == self@,
    {
        DiscoveryState {
            resolved: self.resolved,
            found: self.found,
            path: self.path.clone(),
            awaiting_confirmation: self.awaiting_confirmation,
            override_input: self.override_input.clone(),
            override_valid: self.override_valid,
        }
    }
}

impl Default for DiscoveryState {
    /// The state at start.
    fn default() -> (state: Self)
        ensures
            state@ == DiscoveryStateView::initial(),
    {
        DiscoveryState::new()
    }
}

/// The directories that exist once the request `request` was carried out
/// on a host that had `dirs`.
pub open spec fn carried_out(dirs: Set<Seq<char>>, request: Option<Seq<char>>) -> Set<Seq<char>> {
    match request {
        Some(dir) => dirs.insert(dir),
        None => dirs,
    }
}

/// The operations move the state through the phases of a cycle: a
/// search, automatic from the start or manual from anywhere, ends with
/// a directory to confirm or with none; confirming a located directory
/// commits it, rejecting it leads to manual entry; and once committed,
/// the state stays so under confirmation and automatic discovery.
pub proof fn lemma_phases_follow_the_cycle(
    state: DiscoveryStateView,
    platform: Platform,
    home: Option<Seq<char>>,
    wanted: Seq<char>,
    dirs: Set<Seq<char>>,
)
    ensures
        DiscoveryStateView::initial().phase() == Phase::Unresolved,
        state.phase() == Phase::Unresolved ==> {
            let next = state.after_automatic_discovery(platform, home, dirs).phase();
            next == Phase::FoundAwaiting || next == Phase::NotFoundAwaiting
        },
        state.phase() != Phase::Unresolved ==> state.after_automatic_discovery(
            platform,
            home,
            dirs,
        ) == state,
        state.after_manual_check(wanted, dirs).phase() == if dirs.contains(wanted) {
            Phase::FoundAwaiting
        } else {
            Phase::NotFoundAwaiting
        },
        state.phase() == Phase::FoundAwaiting ==> state.after_confirm().phase() == Phase::Committed
            && state.after_reject().phase() == Phase::NotFoundAwaiting,
        state.phase() == Phase::NotFoundAwaiting ==> state.after_reject() == state,
        state.phase() == Phase::Committed ==> state.after_confirm() == state,
{
    lemma_single_candidate(wanted, dirs);
}

/// Once a search has completed, the state stays resolved whatever
/// operation follows; a manual check always ends resolved.
pub proof fn lemma_resolved_is_monotonic(
    state: DiscoveryStateView,
    platform: Platform,
    home: Option<Seq<char>>,
    wanted: Seq<char>,
    dirs: Set<Seq<char>>,
)
    ensures
        state.after_automatic_discovery(platform, home, dirs).resolved,
        state.after_manual_check(wanted, dirs).resolved,
        state.after_confirm().resolved == state.resolved,
        state.after_reject().resolved == state.resolved,
{
}

/// Automatic discovery runs once: repeated on any host, it leaves the
/// state of the first run.
pub proof fn lemma_automatic_discovery_runs_once(
    state: DiscoveryStateView,
    platform: Platform,
    home: Option<Seq<char>>,
    dirs: Set<Seq<char>>,
    later_platform: Platform,
    later_home: Option<Seq<char>>,
    later_dirs: Set<Seq<char>>,
)
    ensures
        state.after_automatic_discovery(platform, home, dirs).after_automatic_discovery(
            later_platform,
            later_home,
            later_dirs,
        ) == state.after_automatic_discovery(platform, home, dirs),
{
}

/// A path that a search reports as found existed in the directories that
/// the search was given, and was one of its candidates.
pub proof fn lemma_found_path_existed(
    state: DiscoveryStateView,
    platform: Platform,
    home: Option<Seq<char>>,
    wanted: Seq<char>,
    dirs: Set<Seq<char>>,
)
    ensures
        !state.resolved && state.after_automatic_discovery(platform, home, dirs).found ==> {
            let after = state.after_automatic_discovery(platform, home, dirs);
            dirs.contains(after.path) && candidates(platform, home_or_empty(home)).contains(
                after.path,
            )
        },
        state.after_manual_check(wanted, dirs).found ==> dirs.contains(wanted)
            && state.after_manual_check(wanted, dirs).path == wanted,
{
    lemma_single_candidate(wanted, dirs);
    let paths = candidates(platform, home_or_empty(home));
    if first_directory(paths, dirs) is Some {
        lemma_first_directory_is_earliest(paths, dirs);
    }
}

/// Where no default location exists, automatic discovery from the start
/// ends with nothing found, the marker as path, and the outcome on display.
pub proof fn lemma_nothing_found(
    state: DiscoveryStateView,
    platform: Platform,
    home: Option<Seq<char>>,
    dirs: Set<Seq<char>>,
)
    requires
        !state.resolved,
        forall|i: int|
            0 <= i < candidates(platform, home_or_empty(home)).len() ==> !dirs.contains(
                #[trigger] candidates(platform, home_or_empty(home))[i],
            ),
    ensures
        !state.after_automatic_discovery(platform, home, dirs).found,
        state.after_automatic_discovery(platform, home, dirs).path == NOT_FOUND@,
        state.after_automatic_discovery(platform, home, dirs).awaiting_confirmation,
        state.after_automatic_discovery(platform, home, dirs).resolved,
{
    lemma_first_directory_none(candidates(platform, home_or_empty(home)), dirs);
}

/// Manual input is accepted exactly where the directory it normalizes to
/// exists; the state then holds that directory.
pub proof fn lemma_manual_input_accepted(
    state: DiscoveryStateView,
    raw: Seq<char>,
    dirs: Set<Seq<char>>,
)
    ensures
        state.after_manual_input(raw, dirs).found == dirs.contains(normalized(raw)),
        state.after_manual_input(raw, dirs).override_valid == dirs.contains(normalized(raw)),
        state.after_manual_input(raw, dirs).override_input == raw,
        dirs.contains(normalized(raw)) ==> state.after_manual_input(raw, dirs).path == normalized(
            raw,
        ),
        !dirs.contains(normalized(raw)) ==> state.after_manual_input(raw, dirs).path == NOT_FOUND@,
{
    lemma_single_candidate(normalized(raw), dirs);
}

/// Confirming is idempotent: a second confirmation leaves the state of
/// the first and asks for the same directory, so that carrying out both
/// requests leaves the host as carrying out the first did.
pub proof fn lemma_confirm_idempotent(state: DiscoveryStateView, dirs: Set<Seq<char>>)
    ensures
        state.after_confirm().after_confirm() == state.after_confirm(),
        state.after_confirm().mods_directory() == state.mods_directory(),
        carried_out(
            carried_out(dirs, state.mods_directory()),
            state.after_confirm().mods_directory(),
        ) == carried_out(dirs, state.mods_directory()),
        state.found ==> carried_out(dirs, state.mods_directory()).contains(
            state.path + MODS_SUBDIRECTORY@,
        ),
{
}

} // verus!
