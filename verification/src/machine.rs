//! The application-level state machine: it waits for discovery, then
//! forwards key transitions to the dispatcher and folds results back in.

use crate::discovery::{CameraEndpoint, DiscoveryError};
use crate::dispatcher::{
    completed, initial, key_event, outcome_of, CommandDispatcher, DispatchOutcome, DispatcherView,
    PendingRequest, PendingRequestView, TransportError,
};
use crate::encoder::{Credentials, CredentialsView};
use crate::keys::{Key, KeyBinding, KeyBindings, Transition};
use vstd::prelude::*;

verus! {

/// What the user interface shows: the camera is still being looked for, or
/// it was found at `endpoint`.
#[derive(Clone, Copy, Debug, PartialEq, Eq)]
pub enum ControlState {
    Loading,
    Ready { endpoint: CameraEndpoint },
}

/// What the window system delivers.
#[derive(Clone, Copy, Debug, PartialEq, Eq, Structural)]
pub enum HostInput {
    KeyPressed(Key),
    KeyReleased(Key),
    CloseRequested,
}

/// What the state machine reacts to.
#[derive(Debug, PartialEq, Eq)]
pub enum Event {
    /// The one discovery attempt ended.
    DiscoveryCompleted(Result<CameraEndpoint, DiscoveryError>),
    /// A key went down or came up.
    KeyTransition { key: Key, transition: Transition },
    /// The user asked to leave, by key or by closing the window.
    QuitRequested,
    /// The HTTP exchange of request `request_id` ended.
    CommandCompleted { request_id: u64, result: Result<String, TransportError> },
}

/// What the host is to do after an event.
#[derive(Clone, Debug, PartialEq, Eq)]
pub enum Action {
    /// Nothing.
    Idle,
    /// Perform the request and hand its result back as
    /// [`Event::CommandCompleted`].
    Send(PendingRequest),
    /// Show or log how a request ended.
    Report(DispatchOutcome),
    /// Show or log that no camera was found. Whether to start over is the
    /// host's decision.
    DiscoveryFailed(DiscoveryError),
}

/// Mathematical content of an [`Action`].
pub enum ActionView {
    Idle,
    Send(PendingRequestView),
    Report(DispatchOutcome),
    DiscoveryFailed(DiscoveryError),
}

impl View for Action {
    type V = ActionView;

    open spec fn view(&self) -> ActionView {
        match *self {
            Action::Idle => ActionView::Idle,
            Action::Send(request) => ActionView::Send(request@),
            Action::Report(outcome) => ActionView::Report(outcome),
            Action::DiscoveryFailed(e) => ActionView::DiscoveryFailed(e),
        }
    }
}

/// The event an input stands for: Escape going down and a close request
/// both ask to quit, every other key transition is passed on as it is.
pub open spec fn classified(input: HostInput) -> Event {
    match input {
        HostInput::KeyPressed(Key::Escape) => Event::QuitRequested,
        HostInput::KeyPressed(key) => Event::KeyTransition { key, transition: Transition::Press },
        HostInput::KeyReleased(key) => Event::KeyTransition {
            key,
            transition: Transition::Release,
        },
        HostInput::CloseRequested => Event::QuitRequested,
    }
}

/// Mathematical content of a [`ControlStateMachine`].
#[verifier::ext_equal]
pub struct MachineView {
    /// Account the dispatcher will log in with.
    pub credentials: CredentialsView,
    /// Key table the dispatcher will use.
    pub bindings: Seq<KeyBinding>,
    /// The dispatcher, once a camera was found.
    pub dispatcher: Option<DispatcherView>,
    /// Set once the user asked to leave.
    pub should_exit: bool,
}

impl MachineView {
    /// `Loading` until discovery succeeded, `Ready` from then on.
    pub open spec fn state(self) -> ControlState {
        match self.dispatcher {
            None => ControlState::Loading,
            Some(d) => ControlState::Ready { endpoint: d.endpoint },
        }
    }

    /// The dispatcher, where there is one, keeps its invariant and was set
    /// up with the machine's account and key table.
    pub open spec fn inv(self) -> bool {
        self.dispatcher matches Some(d) ==> d.inv() && d.credentials == self.credentials
            && d.bindings == self.bindings
    }

    /// Request identifiers have not run out.
    pub open spec fn can_issue(self) -> bool {
        self.dispatcher matches Some(d) ==> d.issued < u64::MAX
    }
}

/// The machine before any event: `Loading`, not asked to leave.
pub open spec fn starting(credentials: CredentialsView, bindings: Seq<KeyBinding>) -> MachineView {
    MachineView { credentials, bindings, dispatcher: None, should_exit: false }
}

/// One transition: the next state and what the host is to do.
///
/// - A quit request sets `should_exit` and changes nothing else.
/// - A successful discovery while `Loading` makes the machine `Ready`, with
///   a fresh dispatcher bound to the endpoint; while `Ready` it is ignored.
/// - A failed discovery while `Loading` is handed to the host and the
///   machine stays `Loading`; while `Ready` it is ignored.
/// - A key transition while `Loading` is ignored; while `Ready` it goes to
///   the dispatcher, and the request it yields, if any, is to be sent.
/// - A command result while `Ready` is folded into the dispatcher and
///   reported; it never changes `state` or `should_exit`.
pub open spec fn step(pre: MachineView, event: Event) -> (MachineView, ActionView) {
    match event {
        Event::QuitRequested => (MachineView { should_exit: true, ..pre }, ActionView::Idle),
        Event::DiscoveryCompleted(Ok(endpoint)) => match pre.dispatcher {
            None => (
                MachineView {
                    dispatcher: Some(initial(endpoint, pre.credentials, pre.bindings)),
                    ..pre
                },
                ActionView::Idle,
            ),
            Some(_) => (pre, ActionView::Idle),
        },
        Event::DiscoveryCompleted(Err(e)) => match pre.dispatcher {
            None => (pre, ActionView::DiscoveryFailed(e)),
            Some(_) => (pre, ActionView::Idle),
        },
        Event::KeyTransition { key, transition } => match pre.dispatcher {
            None => (pre, ActionView::Idle),
            Some(d) => {
                let (next, request) = key_event(d, key, transition);
                (
                    MachineView { dispatcher: Some(next), ..pre },
                    match request {
                        Some(r) => ActionView::Send(r),
                        None => ActionView::Idle,
                    },
                )
            },
        },
        Event::CommandCompleted { request_id, result } => match pre.dispatcher {
            None => (pre, ActionView::Idle),
            Some(d) => (
                MachineView { dispatcher: Some(completed(d, request_id)), ..pre },
                ActionView::Report(outcome_of(d.pending, request_id, result)),
            ),
        },
    }
}

/// Every transition keeps the invariant.
pub proof fn lemma_step_keeps_inv(pre: MachineView, event: Event)
    requires
        pre.inv(),
        pre.can_issue(),
    ensures
        step(pre, event).0.inv(),
{
    if let Event::KeyTransition { key, transition } = event {
        if let Some(d) = pre.dispatcher {
            crate::dispatcher::lemma_key_event_keeps_inv(d, key, transition);
        }
    }
}

/// While `Loading`, a key transition sends nothing and changes nothing.
pub proof fn lemma_loading_ignores_keys(pre: MachineView, key: Key, transition: Transition)
    requires
        pre.state() is Loading,
    ensures
        step(pre, Event::KeyTransition { key, transition }) == (pre, ActionView::Idle),
{
}

/// A quit request sets `should_exit`, in either state, and leaves the rest
/// of the machine, its state included, as it was.
pub proof fn lemma_quit_only_sets_exit(pre: MachineView)
    ensures
        step(pre, Event::QuitRequested).0 == (MachineView { should_exit: true, ..pre }),
        step(pre, Event::QuitRequested).0.state() == pre.state(),
        step(pre, Event::QuitRequested).1 == ActionView::Idle,
{
}

/// `should_exit` is set by a quit request and by nothing else, and once
/// set it stays set.
pub proof fn lemma_exit_is_sticky(pre: MachineView, event: Event)
    ensures
        step(pre, event).0.should_exit == (pre.should_exit || event is QuitRequested),
{
}

/// The machine leaves `Loading` on a successful discovery only, for the
/// endpoint discovered, and then stays `Ready` with that endpoint.
pub proof fn lemma_ready_once(pre: MachineView, event: Event)
    ensures
        pre.state() is Ready ==> step(pre, event).0.state() == pre.state(),
        pre.state() is Loading ==> step(pre, event).0.state() == (match event {
            Event::DiscoveryCompleted(Ok(endpoint)) => ControlState::Ready { endpoint },
            _ => ControlState::Loading,
        }),
{
}

/// A failed request is reported and changes neither the state nor
/// `should_exit` nor the keys held.
pub proof fn lemma_failure_is_local(
    pre: MachineView,
    request_id: u64,
    reason: TransportError,
    d: DispatcherView,
)
    requires
        pre.dispatcher == Some(d),
        d.pending.contains_key(request_id),
    ensures
        ({
            let (post, action) = step(
                pre,
                Event::CommandCompleted { request_id, result: Err(reason) },
            );
            &&& action == ActionView::Report(
                DispatchOutcome::Failed { command: d.pending[request_id], reason },
            )
            &&& post.state() == pre.state()
            &&& post.should_exit == pre.should_exit
            &&& post.dispatcher matches Some(next) && next.held == d.held && next.issued
                == d.issued
        }),
{
}

/// The state machine of the control loop.
#[derive(Debug)]
pub struct ControlStateMachine {
    credentials: Credentials,
    bindings: KeyBindings,
    dispatcher: Option<CommandDispatcher>,
    should_exit: bool,
}

impl View for ControlStateMachine {
    type V = MachineView;

    closed spec fn view(&self) -> MachineView {
        MachineView {
            credentials: self.credentials@,
            bindings: self.bindings@,
            dispatcher: match self.dispatcher {
                Some(d) => Some(d@),
                None => None,
            },
            should_exit: self.should_exit,
        }
    }
}

impl ControlStateMachine {
    /// The representation is sound and the view's invariant holds.
    pub closed spec fn wf(&self) -> bool {
        &&& self@.inv()
        &&& self.dispatcher matches Some(d) ==> d.wf()
    }

    /// What `wf` says of the view.
    pub proof fn lemma_wf(&self)
        requires
            self.wf(),
        ensures
            self@.inv(),
    {
    }

    /// A machine that waits for discovery.
    pub fn new(credentials: Credentials, bindings: KeyBindings) -> (m: ControlStateMachine)
        ensures
            m.wf(),
            m@ == starting(credentials@, bindings@),
    {
        ControlStateMachine { credentials, bindings, dispatcher: None, should_exit: false }
    }

    /// The event that `input` stands for.
    pub fn classify(input: HostInput) -> (event: Event)
        ensures
            event == classified(input),
    {
        match input {
            HostInput::KeyPressed(Key::Escape) => Event::QuitRequested,
            HostInput::KeyPressed(key) => Event::KeyTransition {
                key,
                transition: Transition::Press,
            },
            HostInput::KeyReleased(key) => Event::KeyTransition {
                key,
                transition: Transition::Release,
            },
            HostInput::CloseRequested => Event::QuitRequested,
        }
    }

    /// `Loading` or `Ready`.
    pub fn state(&self) -> (s: ControlState)
        ensures
            s == self@.state(),
    {
        match &self.dispatcher {
            None => ControlState::Loading,
            Some(d) => ControlState::Ready { endpoint: d.endpoint() },
        }
    }

    /// Whether the host is to stop the control loop.
    pub fn should_exit(&self) -> (b: bool)
        ensures
            b == self@.should_exit,
    {
        self.should_exit
    }

    /// Whether another request can be given an identifier, which
    /// [`Self::handle`] asks for.
    pub fn can_issue(&self) -> (b: bool)
        ensures
            b == self@.can_issue(),
    {
        match &self.dispatcher {
            None => true,
            Some(d) => d.issued() < u64::MAX,
        }
    }

    /// Whether `key` is held down; no key is while `Loading`.
    pub fn is_held(&self, key: Key) -> (held: bool)
        ensures
            held == (self@.dispatcher matches Some(d) && d.held.contains(key)),
    {
        match &self.dispatcher {
            None => false,
            Some(d) => d.is_held(key),
        }
    }

    /// Handles one event: moves to the next state and says what the host is
    /// to do. Events are handled in the order in which they are handed in.
    pub fn handle(&mut self, event: Event) -> (action: Action)
        requires
            old(self).wf(),
            old(self)@.can_issue(),
        ensures
            final(self).wf(),
            (final(self)@, action@) == step(old(self)@, event),
    {
        match event {
            Event::QuitRequested => {
                self.should_exit = true;
                Action::Idle
            },
            Event::DiscoveryCompleted(Ok(endpoint)) => {
                if self.dispatcher.is_none() {
                    self.dispatcher = Some(
                        CommandDispatcher::new(
                            endpoint,
                            self.credentials.duplicate(),
                            self.bindings.duplicate(),
                        ),
                    );
                    proof {
                        crate::dispatcher::lemma_initial_inv(
                            endpoint,
                            self@.credentials,
                            self@.bindings,
                        );
                    }
                }
                Action::Idle
            },
            Event::DiscoveryCompleted(Err(e)) => {
                if self.dispatcher.is_none() {
                    Action::DiscoveryFailed(e)
                } else {
                    Action::Idle
                }
            },
            Event::KeyTransition { key, transition } => {
                match &mut self.dispatcher {
                    None => Action::Idle,
                    Some(d) => {
                        proof {
                            d.lemma_wf();
                        }
                        match d.on_key_event(key, transition) {
                            Some(request) => Action::Send(request),
                            None => Action::Idle,
                        }
                    },
                }
            },
            Event::CommandCompleted { request_id, result } => {
                match &mut self.dispatcher {
                    None => Action::Idle,
                    Some(d) => Action::Report(d.complete(request_id, result)),
                }
            },
        }
    }
}

} // verus!
