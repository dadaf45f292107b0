//! The install confirmation handler: a caller redeems its completion token
//! with the directory that the editor was installed in.
//!
//! A confirmation is examined first, which changes nothing, and recorded
//! once the caller has written it to durable storage.

use crate::liveness::{observed, ProcessLivenessMonitor};
use crate::model::UnityPath;
use crate::token::InstallCompletionToken;
use vstd::prelude::*;

verus! {

/// Why a confirmation was turned down.
#[derive(Clone, Debug, PartialEq, Eq)]
pub enum ConfirmError {
    /// The installer process still runs. The only error that asks the
    /// caller to come back later.
    Conflict { pid: u32 },
    /// The claimed path does not exist or is no directory.
    NotFound { path: String },
    /// The token has been redeemed before.
    AlreadyConfirmed,
    /// The location could not be written to durable storage.
    PersistenceUnavailable,
}

/// A `ConfirmError` with its path as a sequence.
pub enum ConfirmErrorView {
    Conflict { pid: u32 },
    NotFound { path: Seq<char> },
    AlreadyConfirmed,
    PersistenceUnavailable,
}

impl View for ConfirmError {
    type V = ConfirmErrorView;

    open spec fn view(&self) -> ConfirmErrorView {
        match self {
            ConfirmError::Conflict { pid } => ConfirmErrorView::Conflict { pid: *pid },
            ConfirmError::NotFound { path } => ConfirmErrorView::NotFound { path: path@ },
            ConfirmError::AlreadyConfirmed => ConfirmErrorView::AlreadyConfirmed,
            ConfirmError::PersistenceUnavailable => ConfirmErrorView::PersistenceUnavailable,
        }
    }
}

impl ConfirmError {
    /// Whether the same confirmation may succeed later without a new
    /// dispatch. True of `Conflict` alone.
    pub fn retry_later(&self) -> (later: bool)
        ensures
            later == (self@ is Conflict),
    {
        match self {
            ConfirmError::Conflict { pid: _ } => true,
            _ => false,
        }
    }
}

/// A verified install: the token that was redeemed and the directory that
/// was found. Only an examination makes one.
#[derive(Clone, Debug, PartialEq, Eq)]
pub struct InstalledLocation {
    token: InstallCompletionToken,
    path: String,
}

/// An `InstalledLocation` with its path as a sequence.
pub struct InstalledLocationView {
    pub token: InstallCompletionToken,
    pub path: Seq<char>,
}

impl View for InstalledLocation {
    type V = InstalledLocationView;

    closed spec fn view(&self) -> InstalledLocationView {
        InstalledLocationView { token: self.token, path: self.path@ }
    }
}

impl InstalledLocation {
    /// The token that was redeemed for this location.
    pub fn token(&self) -> (token: InstallCompletionToken)
        ensures
            token == self@.token,
    {
        self.token
    }

    /// The directory of the install.
    pub fn path(&self) -> (path: &str)
        ensures
            path@ == self@.path,
    {
        self.path.as_str()
    }
}

/// What an examination may come to.
pub type Verdict = Result<InstalledLocationView, ConfirmErrorView>;

/// Whether `token` names a process that `snapshot` holds as alive. A
/// delegate token names no process.
pub open spec fn installer_alive(snapshot: Set<u32>, token: InstallCompletionToken) -> bool {
    token matches InstallCompletionToken::Pid(pid) && snapshot.contains(pid)
}

/// The verdict on a confirmation, given what is already recorded, whether
/// the token's installer still runs, and whether the claimed path is a
/// directory. The checks come in this order: a running installer, the
/// path, an earlier redemption.
pub open spec fn verdict(
    recorded: Map<InstallCompletionToken, Seq<char>>,
    token: InstallCompletionToken,
    alive: bool,
    path: Seq<char>,
    path_is_directory: bool,
) -> Verdict {
    let unguarded: Verdict = if !path_is_directory {
        Err(ConfirmErrorView::NotFound { path })
    } else if recorded.contains_key(token) {
        Err(ConfirmErrorView::AlreadyConfirmed)
    } else {
        Ok(InstalledLocationView { token, path })
    };
    match token {
        InstallCompletionToken::Pid(pid) => if alive {
            Err(ConfirmErrorView::Conflict { pid })
        } else {
            unguarded
        },
        InstallCompletionToken::DelegateToHub(_) => unguarded,
    }
}

/// The view of an examination's outcome.
pub open spec fn outcome_view(outcome: Result<InstalledLocation, ConfirmError>) -> Verdict {
    match outcome {
        Ok(location) => Ok(location@),
        Err(error) => Err(error@),
    }
}

/// The map that a list of recorded locations stands for: each location
/// under its token, a later one over an earlier one.
pub open spec fn recorded_map(entries: Seq<InstalledLocationView>) -> Map<
    InstallCompletionToken,
    Seq<char>,
>
    decreases entries.len(),
{
    if entries.len() == 0 {
        Map::empty()
    } else {
        recorded_map(entries.drop_last()).insert(entries.last().token, entries.last().path)
    }
}

proof fn lemma_recorded_decided_by_last_match(
    entries: Seq<InstalledLocationView>,
    token: InstallCompletionToken,
    at: int,
)
    requires
        0 <= at < entries.len(),
        entries[at].token == token,
        forall|j: int| at < j < entries.len() ==> entries[j].token != token,
    ensures
        recorded_map(entries).contains_key(token),
        recorded_map(entries)[token] == entries[at].path,
    decreases entries.len(),
{
    if at < entries.len() - 1 {
        lemma_recorded_decided_by_last_match(entries.drop_last(), token, at);
    }
}

proof fn lemma_recorded_without_match(
    entries: Seq<InstalledLocationView>,
    token: InstallCompletionToken,
)
    requires
        forall|j: int| 0 <= j < entries.len() ==> entries[j].token != token,
    ensures
        !recorded_map(entries).contains_key(token),
    decreases entries.len(),
{
    if entries.len() > 0 {
        lemma_recorded_without_match(entries.drop_last(), token);
    }
}

/// The verified install locations, each under the token that was redeemed
/// for it.
pub struct InstallLocationStore {
    entries: Vec<InstalledLocation>,
}

impl View for InstallLocationStore {
    type V = Map<InstallCompletionToken, Seq<char>>;

    closed spec fn view(&self) -> Map<InstallCompletionToken, Seq<char>> {
        recorded_map(self.entries@.map_values(|entry: InstalledLocation| entry@))
    }
}

impl InstallLocationStore {
    /// A store with nothing recorded.
    pub fn new() -> (store: Self)
        ensures
            store@ == Map::<InstallCompletionToken, Seq<char>>::empty(),
    {
        InstallLocationStore { entries: Vec::new() }
    }

    /// The directory recorded for `token`, if one is.
    pub fn lookup(&self, token: &InstallCompletionToken) -> (path: Option<String>)
        ensures
            path is Some <==> self@.contains_key(*token),
            path matches Some(text) ==> text@ == self@[*token],
    {
        let ghost views = self.entries@.map_values(|entry: InstalledLocation| entry@);
        let mut i = self.entries.len();
        while i > 0
            invariant
                i <= self.entries.len(),
                views == self.entries@.map_values(|entry: InstalledLocation| entry@),
                forall|j: int| i <= j < views.len() ==> views[j].token != *token,
            decreases i,
        {
            i -= 1;
            if self.entries[i].token == *token {
                proof {
                    lemma_recorded_decided_by_last_match(views, *token, i as int);
                }
                return Some(self.entries[i].path.clone());
            }
        }
        proof {
            lemma_recorded_without_match(views, *token);
        }
        None
    }

    /// Whether `token` has been redeemed.
    pub fn is_confirmed(&self, token: &InstallCompletionToken) -> (confirmed: bool)
        ensures
            confirmed == self@.contains_key(*token),
    {
        self.lookup(token).is_some()
    }

    /// Examines a confirmation, given whether the token's installer still
    /// runs and whether the claimed path is a directory. Changes nothing.
    pub fn examine(
        &self,
        token: InstallCompletionToken,
        installer_alive: bool,
        claimed: UnityPath,
        path_is_directory: bool,
    ) -> (outcome: Result<InstalledLocation, ConfirmError>)
        ensures
            outcome_view(outcome) == verdict(
                self@,
                token,
                installer_alive,
                claimed.path@,
                path_is_directory,
            ),
    {
        if let InstallCompletionToken::Pid(pid) = token {
            if installer_alive {
                return Err(ConfirmError::Conflict { pid });
            }
        }
        if !path_is_directory {
            return Err(ConfirmError::NotFound { path: claimed.path });
        }
        if self.is_confirmed(&token) {
            return Err(ConfirmError::AlreadyConfirmed);
        }
        Ok(InstalledLocation { token, path: claimed.path })
    }

    /// Records a verified location once the caller has tried to write it
    /// to durable storage; `persisted` tells whether that write succeeded.
    /// The location is recorded only if it did and the token has not been
    /// redeemed before; otherwise the store stays as it was.
    pub fn record(&mut self, location: InstalledLocation, persisted: bool) -> (outcome: Result<
        InstalledLocation,
        ConfirmError,
    >)
        ensures
            outcome_view(outcome) == if !persisted {
                Err(ConfirmErrorView::PersistenceUnavailable)
            } else if old(self)@.contains_key(location@.token) {
                Err(ConfirmErrorView::AlreadyConfirmed)
            } else {
                Ok(location@)
            },
            final(self)@ == if outcome is Ok {
                old(self)@.insert(location@.token, location@.path)
            } else {
                old(self)@
            },
    {
        if !persisted {
            return Err(ConfirmError::PersistenceUnavailable);
        }
        if self.is_confirmed(&location.token) {
            return Err(ConfirmError::AlreadyConfirmed);
        }
        let accepted = InstalledLocation { token: location.token, path: location.path.clone() };
        let ghost before = self.entries@.map_values(|entry: InstalledLocation| entry@);
        self.entries.push(location);
        proof {
            let after = self.entries@.map_values(|entry: InstalledLocation| entry@);
            assert(after.drop_last() == before);
            assert(after.last() == location@);
        }
        Ok(accepted)
    }
}

/// The confirmation handler. For a process token it refreshes the monitor
/// for that process and asks whether it is alive; for a delegate token it
/// leaves the monitor alone. Then it examines the confirmation against the
/// store.
pub fn confirm(
    monitor: &mut ProcessLivenessMonitor,
    store: &InstallLocationStore,
    token: InstallCompletionToken,
    claimed: UnityPath,
    path_is_directory: bool,
) -> (outcome: Result<InstalledLocation, ConfirmError>)
    ensures
        final(monitor)@ == match token {
            InstallCompletionToken::Pid(pid) => observed(
                old(monitor)@,
                pid,
                final(monitor)@.contains(pid),
            ),
            InstallCompletionToken::DelegateToHub(_) => old(monitor)@,
        },
        outcome_view(outcome) == verdict(
            store@,
            token,
            installer_alive(final(monitor)@, token),
            claimed.path@,
            path_is_directory,
        ),
{
    let alive = match token {
        InstallCompletionToken::Pid(pid) => {
            monitor.refresh(pid);
            monitor.is_alive(pid)
        },
        InstallCompletionToken::DelegateToHub(_) => false,
    };
    store.examine(token, alive, claimed, path_is_directory)
}

/// While the installer of a process token runs, the confirmation is a
/// conflict, whatever the claimed path is and whatever is recorded.
pub proof fn law_running_installer_conflicts(
    recorded: Map<InstallCompletionToken, Seq<char>>,
    pid: u32,
    path: Seq<char>,
    path_is_directory: bool,
)
    ensures
        verdict(recorded, InstallCompletionToken::Pid(pid), true, path, path_is_directory) == Err::<
            InstalledLocationView,
            ConfirmErrorView,
        >(ConfirmErrorView::Conflict { pid }),
{
}

/// The same, as the handler sees it: a process token whose process the
/// refreshed snapshot holds as alive is a conflict.
pub proof fn law_alive_in_snapshot_conflicts(
    snapshot: Set<u32>,
    recorded: Map<InstallCompletionToken, Seq<char>>,
    pid: u32,
    path: Seq<char>,
    path_is_directory: bool,
)
    requires
        snapshot.contains(pid),
    ensures
        verdict(
            recorded,
            InstallCompletionToken::Pid(pid),
            installer_alive(snapshot, InstallCompletionToken::Pid(pid)),
            path,
            path_is_directory,
        ) == Err::<InstalledLocationView, ConfirmErrorView>(ConfirmErrorView::Conflict { pid }),
{
}

/// A claimed path that is no directory is not found, whether the token is
/// a delegate token or a process token, redeemed before or not. The one
/// case apart is a process token whose installer still runs: that is a
/// conflict first.
pub proof fn law_missing_directory_is_not_found(
    recorded: Map<InstallCompletionToken, Seq<char>>,
    token: InstallCompletionToken,
    alive: bool,
    path: Seq<char>,
)
    requires
        !(token is Pid && alive),
    ensures
        verdict(recorded, token, alive, path, false) == Err::<
            InstalledLocationView,
            ConfirmErrorView,
        >(ConfirmErrorView::NotFound { path }),
{
}

/// A confirmation is accepted exactly when no installer of its token
/// runs, the path is a directory and the token was not redeemed before;
/// what is accepted is the token with the claimed path.
pub proof fn law_accepted_exactly_when(
    recorded: Map<InstallCompletionToken, Seq<char>>,
    token: InstallCompletionToken,
    alive: bool,
    path: Seq<char>,
    path_is_directory: bool,
)
    ensures
        verdict(recorded, token, alive, path, path_is_directory) is Ok <==> !(token is Pid
            && alive) && path_is_directory && !recorded.contains_key(token),
        verdict(recorded, token, alive, path, path_is_directory) is Ok ==> verdict(
            recorded,
            token,
            alive,
            path,
            path_is_directory,
        ) == Ok::<InstalledLocationView, ConfirmErrorView>(InstalledLocationView { token, path }),
{
}

/// A token is redeemed at most once: once a location is recorded under
/// it, the location can be looked up, and no later confirmation with that
/// token is accepted.
pub proof fn law_redeemed_at_most_once(
    recorded: Map<InstallCompletionToken, Seq<char>>,
    token: InstallCompletionToken,
    location: Seq<char>,
    alive: bool,
    path: Seq<char>,
    path_is_directory: bool,
)
    ensures
        recorded.insert(token, location).contains_key(token),
        recorded.insert(token, location)[token] == location,
        verdict(recorded.insert(token, location), token, alive, path, path_is_directory) is Err,
{
}

} // verus!
