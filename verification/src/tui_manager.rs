//! The package-manager side of the terminal front end: what each request
//! of the front end asks the package manager to do, and which lists are
//! sent back afterwards.
use vstd::prelude::*;
use crate::text::{concat2, concat3};
use crate::tui_views::AppEvent;

verus! {

/// The page of known packages the front end asks for.
pub const KNOWN_PAGE_LIMIT: u32 = 100;

/// An operation of the package manager.
#[derive(Debug, Clone)]
pub enum ManagerRequest {
    /// Stop serving the front end.
    Stop,
    /// List the stored packages.
    ListPackages,
    /// Report the state of the store.
    StateInfo,
    /// Pull the package with this reference.
    Pull(String),
    /// Delete the package with this reference.
    Delete(String),
    /// Search the known packages: query, offset, limit.
    Search(String, u32, u32),
    /// List the known packages: offset, limit.
    ListKnown(u32, u32),
    /// Fetch the tags of a repository through this reference, and record
    /// them for the registry and repository.
    RefreshTags {
        /// The registry host.
        registry: String,
        /// The repository path.
        repository: String,
        /// The reference the tags are listed through.
        reference: String,
    },
    /// List the WIT interfaces with their components.
    ListWitInterfaces,
    /// Detect the `.wasm` files under the current directory.
    DetectLocal,
    /// Read the lines of the log file.
    ReadLogLines,
}

/// The list the front end is sent after an operation, besides its result.
#[derive(Debug, Clone, Copy, PartialEq, Eq, Structural)]
pub enum Refresh {
    /// Nothing more.
    Nothing,
    /// The stored packages.
    Packages,
    /// The known packages.
    KnownPackages,
}

/// The reference through which a repository's tags are listed.
pub open spec fn tags_reference(registry: Seq<char>, repository: Seq<char>) -> Seq<char> {
    registry + "/"@ + repository + ":latest"@
}

/// The operation a request of the front end asks for, and the list sent
/// back after it: pulls and deletions are followed by the stored packages,
/// tag refreshes by the known packages.
pub fn plan_request(event: AppEvent) -> (r: (ManagerRequest, Refresh))
    ensures
        match event {
            AppEvent::Quit => r.0 is Stop && r.1 == Refresh::Nothing,
            AppEvent::RequestPackages => r.0 is ListPackages && r.1 == Refresh::Nothing,
            AppEvent::RequestStateInfo => r.0 is StateInfo && r.1 == Refresh::Nothing,
            AppEvent::Pull(s) => r.0 matches ManagerRequest::Pull(x) && x@ == s@ && r.1 == Refresh::Packages,
            AppEvent::Delete(s) => r.0 matches ManagerRequest::Delete(x) && x@ == s@ && r.1 == Refresh::Packages,
            AppEvent::SearchPackages(q) => r.0 matches ManagerRequest::Search(x, o, l) && x@ == q@ && o == 0
                && l == KNOWN_PAGE_LIMIT && r.1 == Refresh::Nothing,
            AppEvent::RequestKnownPackages => r.0 matches ManagerRequest::ListKnown(o, l) && o == 0 && l
                == KNOWN_PAGE_LIMIT && r.1 == Refresh::Nothing,
            AppEvent::RefreshTags(reg, repo) => r.0 matches ManagerRequest::RefreshTags {
                registry,
                repository,
                reference,
            } && registry@ == reg@ && repository@ == repo@ && reference@ == tags_reference(reg@, repo@) && r.1
                == Refresh::KnownPackages,
            AppEvent::RequestWitInterfaces => r.0 is ListWitInterfaces && r.1 == Refresh::Nothing,
            AppEvent::DetectLocalWasm => r.0 is DetectLocal && r.1 == Refresh::Nothing,
            AppEvent::RequestLogLines => r.0 is ReadLogLines && r.1 == Refresh::Nothing,
        },
{
    match event {
        AppEvent::Quit => (ManagerRequest::Stop, Refresh::Nothing),
        AppEvent::RequestPackages => (ManagerRequest::ListPackages, Refresh::Nothing),
        AppEvent::RequestStateInfo => (ManagerRequest::StateInfo, Refresh::Nothing),
        AppEvent::Pull(s) => (ManagerRequest::Pull(s), Refresh::Packages),
        AppEvent::Delete(s) => (ManagerRequest::Delete(s), Refresh::Packages),
        AppEvent::SearchPackages(q) => (ManagerRequest::Search(q, 0, KNOWN_PAGE_LIMIT), Refresh::Nothing),
        AppEvent::RequestKnownPackages => (ManagerRequest::ListKnown(0, KNOWN_PAGE_LIMIT), Refresh::Nothing),
        AppEvent::RefreshTags(registry, repository) => {
            let a = concat3(registry.as_str(), "/", repository.as_str());
            let reference = concat2(a.as_str(), ":latest");
            (ManagerRequest::RefreshTags { registry, repository, reference }, Refresh::KnownPackages)
        },
        AppEvent::RequestWitInterfaces => (ManagerRequest::ListWitInterfaces, Refresh::Nothing),
        AppEvent::DetectLocalWasm => (ManagerRequest::DetectLocal, Refresh::Nothing),
        AppEvent::RequestLogLines => (ManagerRequest::ReadLogLines, Refresh::Nothing),
    }
}

/// The error reported for a reference that does not parse.
pub fn invalid_reference_message(reason: &str) -> (r: String)
    ensures
        r@ == "Invalid reference: "@ + reason@,
{
    concat2("Invalid reference: ", reason)
}

} // verus!

verus! {

/// Where the package-manager side of the front end stands.
#[derive(Debug, Clone, Copy, PartialEq, Eq, Structural)]
pub enum ManagerPhase {
    /// The package manager is being opened.
    Opening,
    /// Requests of the front end are served.
    Serving,
    /// The front end quit; nothing more is served.
    Stopped,
}

/// What happens to the package-manager side.
pub enum ManagerInput {
    /// The package manager is open.
    Opened,
    /// The front end sent an event.
    Event(AppEvent),
}

/// What the package-manager side does next.
pub enum ManagerAction {
    /// Tell the front end that the manager is ready.
    SendReady,
    /// Serve this request of the front end (see `plan_request`).
    Serve(AppEvent),
    /// Stop serving.
    Stop,
    /// Nothing.
    Ignore,
}

/// One step of the package-manager side: once the manager is open it
/// reports ready and starts serving; while serving, a `Quit` stops it and
/// any other event is served; once stopped, nothing more happens.
pub open spec fn manager_step_of(phase: ManagerPhase, input: ManagerInput) -> (ManagerPhase, ManagerAction) {
    match phase {
        ManagerPhase::Opening => match input {
            ManagerInput::Opened => (ManagerPhase::Serving, ManagerAction::SendReady),
            ManagerInput::Event(_) => (ManagerPhase::Opening, ManagerAction::Ignore),
        },
        ManagerPhase::Serving => match input {
            ManagerInput::Opened => (ManagerPhase::Serving, ManagerAction::Ignore),
            ManagerInput::Event(AppEvent::Quit) => (ManagerPhase::Stopped, ManagerAction::Stop),
            ManagerInput::Event(e) => (ManagerPhase::Serving, ManagerAction::Serve(e)),
        },
        ManagerPhase::Stopped => (ManagerPhase::Stopped, ManagerAction::Ignore),
    }
}

/// One step of the package-manager side.
pub fn manager_step(phase: ManagerPhase, input: ManagerInput) -> (r: (ManagerPhase, ManagerAction))
    ensures
        r == manager_step_of(phase, input),
{
    match phase {
        ManagerPhase::Opening => match input {
            ManagerInput::Opened => (ManagerPhase::Serving, ManagerAction::SendReady),
            ManagerInput::Event(_) => (ManagerPhase::Opening, ManagerAction::Ignore),
        },
        ManagerPhase::Serving => match input {
            ManagerInput::Opened => (ManagerPhase::Serving, ManagerAction::Ignore),
            ManagerInput::Event(AppEvent::Quit) => (ManagerPhase::Stopped, ManagerAction::Stop),
            ManagerInput::Event(e) => (ManagerPhase::Serving, ManagerAction::Serve(e)),
        },
        ManagerPhase::Stopped => (ManagerPhase::Stopped, ManagerAction::Ignore),
    }
}

/// The actions taken, in order, for a run of inputs from `phase`.
pub open spec fn manager_run(phase: ManagerPhase, inputs: Seq<ManagerInput>) -> Seq<ManagerAction>
    decreases inputs.len(),
{
    if inputs.len() == 0 {
        Seq::empty()
    } else {
        let (next, action) = manager_step_of(phase, inputs[0]);
        let rest = manager_run(next, inputs.drop_first());
        if action is Ignore {
            rest
        } else {
            seq![action] + rest
        }
    }
}

/// Once stopped, nothing more is done.
pub proof fn lemma_stopped_run(inputs: Seq<ManagerInput>)
    ensures
        manager_run(ManagerPhase::Stopped, inputs).len() == 0,
    decreases inputs.len(),
{
    if inputs.len() > 0 {
        lemma_stopped_run(inputs.drop_first());
    }
}

/// While serving, readiness is never reported again, and a stop is the last
/// action.
pub proof fn lemma_serving_run(inputs: Seq<ManagerInput>)
    ensures
        ({
            let acts = manager_run(ManagerPhase::Serving, inputs);
            &&& forall|i: int| 0 <= i < acts.len() ==> !(#[trigger] acts[i] is SendReady)
            &&& forall|i: int| 0 <= i < acts.len() && (#[trigger] acts[i] is Stop) ==> i == acts.len() - 1
        }),
    decreases inputs.len(),
{
    if inputs.len() > 0 {
        let (next, action) = manager_step_of(ManagerPhase::Serving, inputs[0]);
        let rest = manager_run(next, inputs.drop_first());
        if next == ManagerPhase::Stopped {
            lemma_stopped_run(inputs.drop_first());
        } else {
            lemma_serving_run(inputs.drop_first());
        }
        let acts = manager_run(ManagerPhase::Serving, inputs);
        if !(action is Ignore) {
            assert forall|i: int| 0 < i < acts.len() implies acts[i] == rest[i - 1] by {}
        }
    }
}

/// From the start, the first thing the package-manager side does is report
/// that it is ready, it reports so only once, and nothing follows a stop.
pub proof fn lemma_ready_first(inputs: Seq<ManagerInput>)
    ensures
        ({
            let acts = manager_run(ManagerPhase::Opening, inputs);
            &&& acts.len() > 0 ==> acts[0] is SendReady
            &&& forall|i: int| 0 < i < acts.len() ==> !(#[trigger] acts[i] is SendReady)
            &&& forall|i: int| 0 <= i < acts.len() && (#[trigger] acts[i] is Stop) ==> i == acts.len() - 1
        }),
    decreases inputs.len(),
{
    if inputs.len() > 0 {
        let (next, action) = manager_step_of(ManagerPhase::Opening, inputs[0]);
        if next == ManagerPhase::Opening {
            lemma_ready_first(inputs.drop_first());
        } else {
            lemma_serving_run(inputs.drop_first());
            let rest = manager_run(next, inputs.drop_first());
            let acts = manager_run(ManagerPhase::Opening, inputs);
            assert forall|i: int| 0 < i < acts.len() implies acts[i] == rest[i - 1] by {}
        }
    }
}

} // verus!
