//! The install dispatcher: one install request, from the choice between the
//! hub and a direct download to the completion token.
//!
//! The dispatcher decides and its caller acts. Each decision is an action
//! (open the hub's link, fetch the installer, store it, spawn it, finish);
//! the caller performs the action and reports what happened as an event.

use crate::locator::{artifact_address, canonical_url, compute_url, hub_deep_link, hub_uri};
use crate::model::UnityInstallSetting;
use crate::token::{HubDelegateToken, InstallCompletionToken};
use vstd::prelude::*;

verus! {

/// Why the installer could not be fetched.
#[derive(Clone, Copy, Debug, PartialEq, Eq, Structural)]
pub enum NetworkFault {
    /// The URL parser refused the download address.
    UnusableAddress,
    /// The request was not answered.
    RequestFailed,
    /// The server answered with a client-error status, 400 to 499.
    ClientError { status: u16 },
    /// The server answered with another status that is no success.
    UnsuccessfulStatus { status: u16 },
    /// The answer's body could not be read to its end.
    BodyUnreadable,
}

/// Why the installer could not be put on disk.
#[derive(Clone, Copy, Debug, PartialEq, Eq, Structural)]
pub enum StoreFault {
    /// No temporary file could be created.
    CreateFailed,
    /// The body could not be written to the temporary file.
    WriteFailed,
}

/// Why a dispatch issued no token. Each is final for its dispatch: nothing
/// is retried, and the caller dispatches again from the start.
#[derive(Clone, Copy, Debug, PartialEq, Eq, Structural)]
pub enum DispatchError {
    Network(NetworkFault),
    FileSystem(StoreFault),
    ProcessSpawn,
    /// An event arrived that the dispatch was not waiting for.
    UnexpectedEvent,
}

/// What the dispatcher is waiting for.
#[derive(Clone, Copy, Debug, PartialEq, Eq, Structural)]
pub enum DispatchPhase {
    /// The hub's deep link was handed to the operating system.
    HubInvoked,
    /// The installer is being requested from the distributor.
    Fetching,
    /// The installer is being written to a temporary file.
    Storing,
    /// The installer is being started.
    Spawning,
    /// The dispatch has ended, with a token or with an error.
    Finished,
}

/// What the caller reports back after an action.
#[derive(Clone, Copy, Debug, PartialEq, Eq, Structural)]
pub enum DispatchEvent {
    /// The operating system took the deep link, or did not.
    HubOpened { succeeded: bool },
    /// The distributor answered with this status.
    FetchResponded { status: u16 },
    /// The request failed before any answer.
    FetchFailed,
    /// The whole body is in a fresh temporary file.
    ArtifactStored,
    /// The body could not be read to its end.
    BodyUnreadable,
    /// The temporary file could not be created or written.
    StoreFailed { fault: StoreFault },
    /// The installer runs as process `pid`; nobody waits for it.
    InstallerSpawned { pid: u32 },
    /// The installer could not be started.
    SpawnFailed,
}

/// What the caller is to do next.
#[derive(Debug, PartialEq, Eq)]
pub enum DispatchAction {
    /// Hand this deep link to the operating system's handler.
    OpenHub { uri: String },
    /// Request this URL over HTTPS.
    FetchArtifact { url: String },
    /// Read the body to its end and write it to a fresh temporary file.
    StoreArtifact,
    /// Start the stored installer as a detached process.
    SpawnInstaller,
    /// The dispatch is over: this is its token, or the reason for none.
    Finish(Result<InstallCompletionToken, DispatchError>),
}

/// A `DispatchAction` with its texts as sequences.
pub enum DispatchActionView {
    OpenHub { uri: Seq<char> },
    FetchArtifact { url: Seq<char> },
    StoreArtifact,
    SpawnInstaller,
    Finish(Result<InstallCompletionToken, DispatchError>),
}

impl View for DispatchAction {
    type V = DispatchActionView;

    open spec fn view(&self) -> DispatchActionView {
        match self {
            DispatchAction::OpenHub { uri } => DispatchActionView::OpenHub { uri: uri@ },
            DispatchAction::FetchArtifact { url } => DispatchActionView::FetchArtifact { url: url@ },
            DispatchAction::StoreArtifact => DispatchActionView::StoreArtifact,
            DispatchAction::SpawnInstaller => DispatchActionView::SpawnInstaller,
            DispatchAction::Finish(outcome) => DispatchActionView::Finish(*outcome),
        }
    }
}

impl DispatchActionView {
    /// The action touches the network, the disk or the process table on
    /// the direct path.
    pub open spec fn is_direct_work(self) -> bool {
        self is FetchArtifact || self is StoreArtifact || self is SpawnInstaller
    }

    /// The action hands out a completion token.
    pub open spec fn issues_token(self) -> bool {
        self matches DispatchActionView::Finish(outcome) && outcome is Ok
    }

    /// The delegate token that the action hands out, where it does.
    pub open spec fn issued_delegate(self) -> HubDelegateToken {
        match self {
            DispatchActionView::Finish(Ok(InstallCompletionToken::DelegateToHub(token))) => token,
            _ => arbitrary(),
        }
    }
}

/// The state of one dispatch, as contracts see it.
pub struct DispatcherView {
    pub setting: UnityInstallSetting,
    /// The download URL as the parser gave it back, if it gave one.
    pub url: Option<Seq<char>>,
    pub phase: DispatchPhase,
}

/// A status in the range of success, 200 to 299.
pub open spec fn is_success(status: u16) -> bool {
    200 <= status < 300
}

/// A status in the range of client errors, 400 to 499.
pub open spec fn is_client_error(status: u16) -> bool {
    400 <= status < 500
}

/// Why an answer with `status` is no fetched installer: a client error
/// where the status says so, else an unsuccessful status.
pub open spec fn fetch_fault(status: u16) -> NetworkFault
    recommends
        !is_success(status),
{
    if is_client_error(status) {
        NetworkFault::ClientError { status }
    } else {
        NetworkFault::UnsuccessfulStatus { status }
    }
}

/// The first decision on the direct path: fetch the installer, or give up
/// where there is no URL to fetch.
pub open spec fn direct_download(setting: UnityInstallSetting, url: Option<Seq<char>>) -> (
    DispatcherView,
    DispatchActionView,
) {
    match url {
        Some(text) => (
            DispatcherView { setting, url, phase: DispatchPhase::Fetching },
            DispatchActionView::FetchArtifact { url: text },
        ),
        None => (
            DispatcherView { setting, url, phase: DispatchPhase::Finished },
            DispatchActionView::Finish(Err(DispatchError::Network(NetworkFault::UnusableAddress))),
        ),
    }
}

/// How a dispatch opens: with the hub where the request prefers it, else
/// with the direct download.
pub open spec fn opening(setting: UnityInstallSetting, url: Option<Seq<char>>) -> (
    DispatcherView,
    DispatchActionView,
) {
    if setting.prefer_unity_hub {
        (
            DispatcherView { setting, url, phase: DispatchPhase::HubInvoked },
            DispatchActionView::OpenHub { uri: hub_deep_link(setting.version) },
        )
    } else {
        direct_download(setting, url)
    }
}

/// The dispatch ends here with `outcome`.
pub open spec fn finished(state: DispatcherView, outcome: Result<InstallCompletionToken, DispatchError>) -> (
    DispatcherView,
    DispatchActionView,
) {
    (
        DispatcherView { phase: DispatchPhase::Finished, ..state },
        DispatchActionView::Finish(outcome),
    )
}

/// The dispatch goes on in `phase` with `action`.
pub open spec fn proceed(state: DispatcherView, phase: DispatchPhase, action: DispatchActionView) -> (
    DispatcherView,
    DispatchActionView,
) {
    (DispatcherView { phase, ..state }, action)
}

/// The hub took the deep link that this dispatch is waiting on.
pub open spec fn hub_succeeded(state: DispatcherView, event: DispatchEvent) -> bool {
    state.phase == DispatchPhase::HubInvoked && event == (DispatchEvent::HubOpened {
        succeeded: true,
    })
}

/// The next state and action after `event`. `fresh` is the token that the
/// random source gives at this step; it is read only where the hub
/// succeeded.
pub open spec fn transition(state: DispatcherView, event: DispatchEvent, fresh: HubDelegateToken) -> (
    DispatcherView,
    DispatchActionView,
) {
    match (state.phase, event) {
        (DispatchPhase::HubInvoked, DispatchEvent::HubOpened { succeeded }) => if succeeded {
            finished(state, Ok(InstallCompletionToken::DelegateToHub(fresh)))
        } else {
            direct_download(state.setting, state.url)
        },
        (DispatchPhase::Fetching, DispatchEvent::FetchResponded { status }) => if is_success(
            status,
        ) {
            proceed(state, DispatchPhase::Storing, DispatchActionView::StoreArtifact)
        } else {
            finished(state, Err(DispatchError::Network(fetch_fault(status))))
        },
        (DispatchPhase::Fetching, DispatchEvent::FetchFailed) => finished(
            state,
            Err(DispatchError::Network(NetworkFault::RequestFailed)),
        ),
        (DispatchPhase::Storing, DispatchEvent::ArtifactStored) => proceed(
            state,
            DispatchPhase::Spawning,
            DispatchActionView::SpawnInstaller,
        ),
        (DispatchPhase::Storing, DispatchEvent::BodyUnreadable) => finished(
            state,
            Err(DispatchError::Network(NetworkFault::BodyUnreadable)),
        ),
        (DispatchPhase::Storing, DispatchEvent::StoreFailed { fault }) => finished(
            state,
            Err(DispatchError::FileSystem(fault)),
        ),
        (DispatchPhase::Spawning, DispatchEvent::InstallerSpawned { pid }) => finished(
            state,
            Ok(InstallCompletionToken::Pid(pid)),
        ),
        (DispatchPhase::Spawning, DispatchEvent::SpawnFailed) => finished(
            state,
            Err(DispatchError::ProcessSpawn),
        ),
        _ => finished(state, Err(DispatchError::UnexpectedEvent)),
    }
}

/// One dispatch in progress. Its fields are private: the phase moves only
/// through `step`, so a dispatch that has finished stays finished.
#[derive(Debug)]
pub struct InstallDispatcher {
    setting: UnityInstallSetting,
    url: Option<String>,
    phase: DispatchPhase,
}

impl View for InstallDispatcher {
    type V = DispatcherView;

    closed spec fn view(&self) -> DispatcherView {
        DispatcherView {
            setting: self.setting,
            url: match self.url {
                Some(text) => Some(text@),
                None => None,
            },
            phase: self.phase,
        }
    }
}

/// Whether `status` is a success, as `http::StatusCode::is_success` tells
/// it: from 200 up to 299.
pub fn status_is_success(status: u16) -> (success: bool)
    ensures
        success == is_success(status),
{
    200 <= status && status < 300
}

/// Whether `status` is a client error, as `http::StatusCode::is_client_error`
/// tells it: from 400 up to 499.
pub fn status_is_client_error(status: u16) -> (client_error: bool)
    ensures
        client_error == is_client_error(status),
{
    400 <= status && status < 500
}

impl InstallDispatcher {
    /// Opens a dispatch for `setting`. The download URL is the one that the
    /// URL parser gives back for the locator's address.
    pub fn dispatch(setting: UnityInstallSetting) -> (opened: (InstallDispatcher, DispatchAction))
        ensures
            (opened.0@, opened.1@) == opening(
                setting,
                canonical_url(artifact_address(setting.host, setting.version)),
            ),
    {
        let url = compute_url(setting.host, setting.version);
        Self::dispatch_with_url(setting, url)
    }

    /// Opens a dispatch for `setting` whose direct path fetches `url`.
    /// With the hub preferred the first action opens the deep link;
    /// otherwise the direct download begins at once.
    pub fn dispatch_with_url(setting: UnityInstallSetting, url: Option<String>) -> (opened: (
        InstallDispatcher,
        DispatchAction,
    ))
        ensures
            (opened.0@, opened.1@) == opening(
                setting,
                match url {
                    Some(text) => Some(text@),
                    None => None,
                },
            ),
    {
        if setting.prefer_unity_hub {
            let uri = hub_uri(setting.version);
            (
                InstallDispatcher { setting, url, phase: DispatchPhase::HubInvoked },
                DispatchAction::OpenHub { uri },
            )
        } else {
            let mut dispatcher = InstallDispatcher { setting, url, phase: DispatchPhase::Finished };
            let action = dispatcher.begin_direct_download();
            (dispatcher, action)
        }
    }

    /// The request that this dispatch serves.
    pub fn setting(&self) -> (setting: UnityInstallSetting)
        ensures
            setting == self@.setting,
    {
        self.setting
    }

    /// What this dispatch is waiting for.
    pub fn phase(&self) -> (phase: DispatchPhase)
        ensures
            phase == self@.phase,
    {
        self.phase
    }

    /// Whether the dispatch has ended.
    pub fn is_finished(&self) -> (finished: bool)
        ensures
            finished == (self@.phase == DispatchPhase::Finished),
    {
        match self.phase {
            DispatchPhase::Finished => true,
            _ => false,
        }
    }

    fn begin_direct_download(&mut self) -> (action: DispatchAction)
        ensures
            (final(self)@, action@) == direct_download(old(self)@.setting, old(self)@.url),
    {
        match &self.url {
            Some(text) => {
                let url = text.clone();
                self.phase = DispatchPhase::Fetching;
                DispatchAction::FetchArtifact { url }
            },
            None => {
                self.phase = DispatchPhase::Finished;
                DispatchAction::Finish(
                    Err(DispatchError::Network(NetworkFault::UnusableAddress)),
                )
            },
        }
    }

    fn finish(&mut self, outcome: Result<InstallCompletionToken, DispatchError>) -> (action:
        DispatchAction)
        ensures
            (final(self)@, action@) == finished(old(self)@, outcome),
    {
        self.phase = DispatchPhase::Finished;
        DispatchAction::Finish(outcome)
    }

    fn proceed(&mut self, phase: DispatchPhase, action: DispatchAction) -> (next: DispatchAction)
        ensures
            (final(self)@, next@) == proceed(old(self)@, phase, action@),
    {
        self.phase = phase;
        action
    }

    /// Whether `event` says that the hub took the deep link that this
    /// dispatch is waiting on.
    pub fn hub_succeeded(&self, event: DispatchEvent) -> (succeeded: bool)
        ensures
            succeeded == hub_succeeded(self@, event),
    {
        match (self.phase, event) {
            (DispatchPhase::HubInvoked, DispatchEvent::HubOpened { succeeded }) => succeeded,
            _ => false,
        }
    }

    /// Every step but the one that needs a fresh token.
    fn settle(&mut self, event: DispatchEvent) -> (action: DispatchAction)
        requires
            !hub_succeeded(old(self)@, event),
        ensures
            forall|fresh: HubDelegateToken|
                (final(self)@, action@) == #[trigger] transition(old(self)@, event, fresh),
    {
        match (self.phase, event) {
            (DispatchPhase::HubInvoked, DispatchEvent::HubOpened { succeeded: _ }) => {
                self.begin_direct_download()
            },
            (DispatchPhase::Fetching, DispatchEvent::FetchResponded { status }) => {
                if status_is_success(status) {
                    self.proceed(DispatchPhase::Storing, DispatchAction::StoreArtifact)
                } else if status_is_client_error(status) {
                    self.finish(Err(DispatchError::Network(NetworkFault::ClientError { status })))
                } else {
                    self.finish(
                        Err(DispatchError::Network(NetworkFault::UnsuccessfulStatus { status })),
                    )
                }
            },
            (DispatchPhase::Fetching, DispatchEvent::FetchFailed) => {
                self.finish(Err(DispatchError::Network(NetworkFault::RequestFailed)))
            },
            (DispatchPhase::Storing, DispatchEvent::ArtifactStored) => {
                self.proceed(DispatchPhase::Spawning, DispatchAction::SpawnInstaller)
            },
            (DispatchPhase::Storing, DispatchEvent::BodyUnreadable) => {
                self.finish(Err(DispatchError::Network(NetworkFault::BodyUnreadable)))
            },
            (DispatchPhase::Storing, DispatchEvent::StoreFailed { fault }) => {
                self.finish(Err(DispatchError::FileSystem(fault)))
            },
            (DispatchPhase::Spawning, DispatchEvent::InstallerSpawned { pid }) => {
                self.finish(Ok(InstallCompletionToken::Pid(pid)))
            },
            (DispatchPhase::Spawning, DispatchEvent::SpawnFailed) => {
                self.finish(Err(DispatchError::ProcessSpawn))
            },
            _ => self.finish(Err(DispatchError::UnexpectedEvent)),
        }
    }

    /// Takes `event` and decides what comes next, with `fresh` as the token
    /// to issue should the hub have succeeded.
    pub fn step_with(&mut self, event: DispatchEvent, fresh: HubDelegateToken) -> (action:
        DispatchAction)
        ensures
            (final(self)@, action@) == transition(old(self)@, event, fresh),
    {
        if self.hub_succeeded(event) {
            self.finish(Ok(InstallCompletionToken::DelegateToHub(fresh)))
        } else {
            self.settle(event)
        }
    }

    /// Takes `event` and decides what comes next. Where the hub succeeded
    /// the dispatch ends with a token drawn from the random source; every
    /// other step is decided by the state and the event alone.
    pub fn step(&mut self, event: DispatchEvent) -> (action: DispatchAction)
        ensures
            (final(self)@, action@) == transition(old(self)@, event, action@.issued_delegate()),
    {
        if self.hub_succeeded(event) {
            self.finish(Ok(InstallCompletionToken::DelegateToHub(HubDelegateToken::new())))
        } else {
            self.settle(event)
        }
    }
}

/// What one step is fed: the caller's event, and the token that the random
/// source would give at that step.
pub struct StepInput {
    pub event: DispatchEvent,
    pub fresh: HubDelegateToken,
}

/// The state that a dispatch is in after it took `inputs` in order.
pub open spec fn state_after(state: DispatcherView, inputs: Seq<StepInput>) -> DispatcherView
    decreases inputs.len(),
{
    if inputs.len() == 0 {
        state
    } else {
        transition(
            state_after(state, inputs.drop_last()),
            inputs.last().event,
            inputs.last().fresh,
        ).0
    }
}

/// The action that the dispatch answers to `inputs[at]` with, after it took
/// the inputs before it.
pub open spec fn action_at(state: DispatcherView, inputs: Seq<StepInput>, at: int) -> DispatchActionView
    recommends
        0 <= at < inputs.len(),
{
    transition(state_after(state, inputs.take(at)), inputs[at].event, inputs[at].fresh).1
}

/// A step ends the dispatch exactly when its action is `Finish`.
pub proof fn lemma_finish_ends(state: DispatcherView, event: DispatchEvent, fresh: HubDelegateToken)
    ensures
        transition(state, event, fresh).1 is Finish <==> transition(state, event, fresh).0.phase
            == DispatchPhase::Finished,
        transition(state, event, fresh).0.setting == state.setting,
        transition(state, event, fresh).0.url == state.url,
{
}

/// A finished dispatch stays finished, whatever it is fed.
pub proof fn lemma_finished_is_final(state: DispatcherView, inputs: Seq<StepInput>)
    requires
        state.phase == DispatchPhase::Finished,
    ensures
        state_after(state, inputs) == state,
    decreases inputs.len(),
{
    if inputs.len() > 0 {
        lemma_finished_is_final(state, inputs.drop_last());
    }
}

/// Taking `inputs` up to `upto` is taking them up to `mid` and then the
/// rest: the state in between is all that the later steps depend on.
pub proof fn lemma_state_after_split(state: DispatcherView, inputs: Seq<StepInput>, mid: int, upto: int)
    requires
        0 <= mid <= upto <= inputs.len(),
    ensures
        state_after(state, inputs.take(upto)) == state_after(
            state_after(state, inputs.take(mid)),
            inputs.subrange(mid, upto),
        ),
    decreases upto - mid,
{
    if mid == upto {
        assert(inputs.subrange(mid, upto).len() == 0);
    } else {
        lemma_state_after_split(state, inputs, mid, upto - 1);
        assert(inputs.take(upto).drop_last() == inputs.take(upto - 1));
        assert(inputs.subrange(mid, upto).drop_last() == inputs.subrange(mid, upto - 1));
        assert(inputs.take(upto).last() == inputs[upto - 1]);
        assert(inputs.subrange(mid, upto).last() == inputs[upto - 1]);
    }
}

/// Once a step has answered `Finish`, every later step answers that the
/// event was unexpected, and nothing else.
pub proof fn law_nothing_follows_finish(
    state: DispatcherView,
    inputs: Seq<StepInput>,
    first: int,
    later: int,
)
    requires
        0 <= first < later < inputs.len(),
        action_at(state, inputs, first) is Finish,
    ensures
        action_at(state, inputs, later) == DispatchActionView::Finish(
            Err(DispatchError::UnexpectedEvent),
        ),
{
    let before = state_after(state, inputs.take(first));
    lemma_finish_ends(before, inputs[first].event, inputs[first].fresh);
    assert(inputs.take(first + 1).drop_last() == inputs.take(first));
    assert(inputs.take(first + 1).last() == inputs[first]);
    let ended = state_after(state, inputs.take(first + 1));
    assert(ended.phase == DispatchPhase::Finished);
    lemma_state_after_split(state, inputs, first + 1, later);
    lemma_finished_is_final(ended, inputs.subrange(first + 1, later));
}

/// A dispatch issues at most one completion token: of two steps of one
/// dispatch, not both hand out a token.
pub proof fn law_at_most_one_token(
    state: DispatcherView,
    inputs: Seq<StepInput>,
    first: int,
    later: int,
)
    requires
        0 <= first < later < inputs.len(),
    ensures
        !(action_at(state, inputs, first).issues_token() && action_at(
            state,
            inputs,
            later,
        ).issues_token()),
{
    if action_at(state, inputs, first).issues_token() {
        law_nothing_follows_finish(state, inputs, first, later);
    }
}

/// The hub and the direct download exclude each other. A dispatch that
/// prefers the hub opens with the deep link, and once the hub has taken it
/// the dispatch ends with a delegate token: neither the opening action nor
/// any later one fetches, stores or spawns.
pub proof fn law_hub_success_excludes_direct_download(
    setting: UnityInstallSetting,
    url: Option<Seq<char>>,
    inputs: Seq<StepInput>,
    at: int,
)
    requires
        setting.prefer_unity_hub,
        0 <= at < inputs.len(),
        inputs[0].event == (DispatchEvent::HubOpened { succeeded: true }),
    ensures
        opening(setting, url).1 == (DispatchActionView::OpenHub {
            uri: hub_deep_link(setting.version),
        }),
        action_at(opening(setting, url).0, inputs, 0) == DispatchActionView::Finish(
            Ok(InstallCompletionToken::DelegateToHub(inputs[0].fresh)),
        ),
        !action_at(opening(setting, url).0, inputs, at).is_direct_work(),
{
    let opened = opening(setting, url).0;
    assert(inputs.take(0).len() == 0);
    assert(state_after(opened, inputs.take(0)) == opened);
    if at > 0 {
        law_nothing_follows_finish(opened, inputs, 0, at);
    }
}

/// A dispatch that does not prefer the hub never opens it, and one whose
/// hub failed falls back to the direct download of the same URL.
pub proof fn law_direct_path(setting: UnityInstallSetting, url: Option<Seq<char>>, fresh: HubDelegateToken)
    ensures
        !setting.prefer_unity_hub ==> opening(setting, url) == direct_download(setting, url),
        setting.prefer_unity_hub ==> transition(
            opening(setting, url).0,
            DispatchEvent::HubOpened { succeeded: false },
            fresh,
        ) == direct_download(setting, url),
{
}

/// Only a fetched installer is installed. Where the distributor answers
/// with a status that is no success, the dispatch ends there with a
/// network error: that step neither stores nor spawns nor issues a token,
/// and every later step only answers that its event was unexpected.
pub proof fn law_unsuccessful_fetch_installs_nothing(
    state: DispatcherView,
    inputs: Seq<StepInput>,
    at: int,
    later: int,
    status: u16,
)
    requires
        0 <= at < later < inputs.len(),
        state_after(state, inputs.take(at)).phase == DispatchPhase::Fetching,
        inputs[at].event == (DispatchEvent::FetchResponded { status }),
        !is_success(status),
    ensures
        action_at(state, inputs, at) == DispatchActionView::Finish(
            Err(DispatchError::Network(fetch_fault(status))),
        ),
        action_at(state, inputs, later) == DispatchActionView::Finish(
            Err(DispatchError::UnexpectedEvent),
        ),
        !action_at(state, inputs, later).is_direct_work(),
        !action_at(state, inputs, later).issues_token(),
{
    law_nothing_follows_finish(state, inputs, at, later);
}

/// The installer is stored only after a success, and spawned only after
/// it was stored: a step answers `StoreArtifact` exactly on a successful
/// answer to the fetch, and `SpawnInstaller` exactly on the stored body.
pub proof fn law_store_and_spawn_follow_success(
    state: DispatcherView,
    event: DispatchEvent,
    fresh: HubDelegateToken,
)
    ensures
        transition(state, event, fresh).1 is StoreArtifact <==> state.phase
            == DispatchPhase::Fetching && (event matches DispatchEvent::FetchResponded { status }
            && is_success(status)),
        transition(state, event, fresh).1 is SpawnInstaller <==> state.phase
            == DispatchPhase::Storing && event == DispatchEvent::ArtifactStored,
        transition(state, event, fresh).1 matches DispatchActionView::Finish(
            Ok(InstallCompletionToken::Pid(pid)),
        ) ==> state.phase == DispatchPhase::Spawning,
{
}

} // verus!
