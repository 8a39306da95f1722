//! Turns key transitions into control requests and keeps track of the
//! requests that are in flight.

use crate::command::CameraCmd;
use crate::discovery::CameraEndpoint;
use crate::encoder::{
    encoded, CommandEncoder, ControlRequest, ControlRequestView, Credentials, CredentialsView,
};
use crate::keys::{binding_of, Key, KeyBinding, KeyBindings, KeySet, Transition};
use std::collections::HashMap;
use vstd::prelude::*;

verus! {

/// Why an HTTP exchange with the camera failed.
#[derive(Clone, Copy, Debug, PartialEq, Eq, Structural)]
pub enum TransportError {
    ConnectionFailed,
    BadStatus,
    BodyReadFailed,
}

/// A command on its way to the camera: the request to perform and the
/// identifier to hand back with its result.
#[derive(Clone, Debug, PartialEq, Eq)]
pub struct PendingRequest {
    pub request_id: u64,
    pub command: CameraCmd,
    pub request: ControlRequest,
}

/// Mathematical content of a [`PendingRequest`].
pub struct PendingRequestView {
    pub request_id: u64,
    pub command: CameraCmd,
    pub request: ControlRequestView,
}

impl View for PendingRequest {
    type V = PendingRequestView;

    open spec fn view(&self) -> PendingRequestView {
        PendingRequestView {
            request_id: self.request_id,
            command: self.command,
            request: self.request@,
        }
    }
}

/// The content of an optional request.
pub open spec fn request_view(r: Option<PendingRequest>) -> Option<PendingRequestView> {
    match r {
        Some(p) => Some(p@),
        None => None,
    }
}

/// How a request ended. A failure is reported and nothing more: it changes
/// no state and nothing is sent again.
#[derive(Clone, Debug, PartialEq, Eq)]
pub enum DispatchOutcome {
    /// The camera answered with `body`.
    Completed { command: CameraCmd, body: String },
    /// The exchange failed.
    Failed { command: CameraCmd, reason: TransportError },
    /// No request with this identifier was in flight.
    NotPending { request_id: u64 },
}

/// Mathematical content of a [`CommandDispatcher`].
#[verifier::ext_equal]
pub struct DispatcherView {
    /// The camera all requests go to.
    pub endpoint: CameraEndpoint,
    pub credentials: CredentialsView,
    pub bindings: Seq<KeyBinding>,
    /// Keys that went down and have not come up since.
    pub held: Set<Key>,
    /// Requests in flight, by identifier.
    pub pending: Map<u64, CameraCmd>,
    /// Number of requests emitted so far; also the next identifier.
    pub issued: nat,
}

impl DispatcherView {
    /// Every identifier in flight was handed out earlier, so the next one
    /// is fresh.
    pub open spec fn inv(self) -> bool {
        forall|id: u64| self.pending.contains_key(id) ==> id < self.issued
    }
}

/// A dispatcher that has seen no event yet.
pub open spec fn initial(
    endpoint: CameraEndpoint,
    credentials: CredentialsView,
    bindings: Seq<KeyBinding>,
) -> DispatcherView {
    DispatcherView {
        endpoint,
        credentials,
        bindings,
        held: Set::empty(),
        pending: Map::empty(),
        issued: 0,
    }
}

/// Emission of one request for `command`.
pub open spec fn emitted(pre: DispatcherView, command: CameraCmd) -> (
    DispatcherView,
    Option<PendingRequestView>,
) {
    (
        DispatcherView {
            pending: pre.pending.insert(pre.issued as u64, command),
            issued: pre.issued + 1,
            ..pre
        },
        Some(
            PendingRequestView {
                request_id: pre.issued as u64,
                command,
                request: encoded(pre.endpoint, command, pre.credentials),
            },
        ),
    )
}

/// The effect of one key transition: the next state and the request to
/// send, if any.
///
/// An unbound key changes nothing. A press of a key that is already held
/// changes nothing either, since the camera is moving already. Any other
/// press marks the key held and emits its press command. A release always
/// emits the key's release command and clears the mark, also when no press
/// was seen.
pub open spec fn key_event(pre: DispatcherView, key: Key, transition: Transition) -> (
    DispatcherView,
    Option<PendingRequestView>,
) {
    match binding_of(pre.bindings, key) {
        None => (pre, None),
        Some(binding) => match transition {
            Transition::Press => if pre.held.contains(key) {
                (pre, None)
            } else {
                emitted(DispatcherView { held: pre.held.insert(key), ..pre }, binding.press)
            },
            Transition::Release => emitted(
                DispatcherView { held: pre.held.remove(key), ..pre },
                binding.release,
            ),
        },
    }
}

/// The state after the result of request `request_id` came in.
pub open spec fn completed(pre: DispatcherView, request_id: u64) -> DispatcherView {
    DispatcherView { pending: pre.pending.remove(request_id), ..pre }
}

/// What is reported when `result` comes in for request `request_id`.
pub open spec fn outcome_of(
    pending: Map<u64, CameraCmd>,
    request_id: u64,
    result: Result<String, TransportError>,
) -> DispatchOutcome {
    if pending.contains_key(request_id) {
        match result {
            Ok(body) => DispatchOutcome::Completed { command: pending[request_id], body },
            Err(reason) => DispatchOutcome::Failed { command: pending[request_id], reason },
        }
    } else {
        DispatchOutcome::NotPending { request_id }
    }
}

/// A dispatcher that has seen no event keeps the invariant.
pub proof fn lemma_initial_inv(
    endpoint: CameraEndpoint,
    credentials: CredentialsView,
    bindings: Seq<KeyBinding>,
)
    ensures
        initial(endpoint, credentials, bindings).inv(),
{
}

/// A second press of a key, with no release in between, emits nothing and
/// changes nothing: of two consecutive presses at most the first yields a
/// request.
pub proof fn lemma_repeated_press_emits_nothing(pre: DispatcherView, key: Key)
    ensures
        ({
            let first = key_event(pre, key, Transition::Press);
            let second = key_event(first.0, key, Transition::Press);
            &&& second.1 is None
            &&& second.0 == first.0
            &&& pre.held.contains(key) ==> first.1 is None && first.0 == pre
        }),
{
}

/// A release of a bound key emits exactly its release command, whether or
/// not the key was held, and leaves the key not held.
pub proof fn lemma_release_emits_stop(pre: DispatcherView, key: Key, binding: KeyBinding)
    requires
        binding_of(pre.bindings, key) == Some(binding),
    ensures
        ({
            let (post, request) = key_event(pre, key, Transition::Release);
            &&& request == Some(
                PendingRequestView {
                    request_id: pre.issued as u64,
                    command: binding.release,
                    request: encoded(pre.endpoint, binding.release, pre.credentials),
                },
            )
            &&& !post.held.contains(key)
            &&& post.pending == pre.pending.insert(pre.issued as u64, binding.release)
        }),
{
}

/// A key without a binding yields no request and leaves the state as it is.
pub proof fn lemma_unbound_key_is_ignored(pre: DispatcherView, key: Key, transition: Transition)
    requires
        binding_of(pre.bindings, key) is None,
    ensures
        key_event(pre, key, transition) == (pre, None::<PendingRequestView>),
{
}

/// Key handling keeps the invariant, and a new request never takes the
/// identifier of one still in flight.
pub proof fn lemma_key_event_keeps_inv(pre: DispatcherView, key: Key, transition: Transition)
    requires
        pre.inv(),
        pre.issued < u64::MAX,
    ensures
        key_event(pre, key, transition).0.inv(),
        key_event(pre, key, transition).1 matches Some(request) ==> !pre.pending.contains_key(
            request.request_id,
        ),
{
    if pre.pending.contains_key(pre.issued as u64) {
        assert((pre.issued as u64) < pre.issued);
    }
}

/// Results coming in never gate key handling: whatever has completed, a
/// key transition yields the same request and the same held keys.
pub proof fn lemma_completion_does_not_gate_keys(
    pre: DispatcherView,
    request_id: u64,
    key: Key,
    transition: Transition,
)
    ensures
        key_event(completed(pre, request_id), key, transition).1 == key_event(
            pre,
            key,
            transition,
        ).1,
        key_event(completed(pre, request_id), key, transition).0.held == key_event(
            pre,
            key,
            transition,
        ).0.held,
        completed(pre, request_id).inv() <== pre.inv(),
{
}

/// Maps key transitions to camera commands for one camera.
#[derive(Debug)]
pub struct CommandDispatcher {
    endpoint: CameraEndpoint,
    credentials: Credentials,
    bindings: KeyBindings,
    held: KeySet,
    pending: HashMap<u64, CameraCmd>,
    next_id: u64,
}

impl View for CommandDispatcher {
    type V = DispatcherView;

    closed spec fn view(&self) -> DispatcherView {
        DispatcherView {
            endpoint: self.endpoint,
            credentials: self.credentials@,
            bindings: self.bindings@,
            held: self.held@,
            pending: self.pending@,
            issued: self.next_id as nat,
        }
    }
}

impl CommandDispatcher {
    /// The representation is sound and the view's invariant holds.
    pub closed spec fn wf(&self) -> bool {
        &&& self.held.wf()
        &&& self@.inv()
    }

    /// What `wf` says of the view.
    pub proof fn lemma_wf(&self)
        requires
            self.wf(),
        ensures
            self@.inv(),
            self@.issued <= u64::MAX,
    {
    }

    /// A dispatcher bound to the camera at `endpoint`.
    pub fn new(endpoint: CameraEndpoint, credentials: Credentials, bindings: KeyBindings) -> (d:
        CommandDispatcher)
        ensures
            d.wf(),
            d@ == initial(endpoint, credentials@, bindings@),
    {
        CommandDispatcher {
            endpoint,
            credentials,
            bindings,
            held: KeySet::new(),
            pending: HashMap::new(),
            next_id: 0,
        }
    }

    /// The camera requests go to.
    pub fn endpoint(&self) -> (e: CameraEndpoint)
        ensures
            e == self@.endpoint,
    {
        self.endpoint
    }

    /// Whether `key` is held down.
    pub fn is_held(&self, key: Key) -> (held: bool)
        ensures
            held == self@.held.contains(key),
    {
        self.held.contains(key)
    }

    /// The command that request `request_id` carries, while it is in flight.
    pub fn in_flight(&self, request_id: u64) -> (command: Option<CameraCmd>)
        ensures
            command == (if self@.pending.contains_key(request_id) {
                Some(self@.pending[request_id])
            } else {
                None
            }),
    {
        match self.pending.get(&request_id) {
            Some(command) => Some(*command),
            None => None,
        }
    }

    /// Number of requests emitted so far.
    pub fn issued(&self) -> (n: u64)
        ensures
            n == self@.issued,
    {
        self.next_id
    }

    fn emit(&mut self, command: CameraCmd) -> (r: PendingRequest)
        requires
            old(self).wf(),
            old(self)@.issued < u64::MAX,
        ensures
            final(self).wf(),
            (final(self)@, Some(r@)) == emitted(old(self)@, command),
    {
        let request_id = self.next_id;
        self.next_id = self.next_id + 1;
        self.pending.insert(request_id, command);
        let request = CommandEncoder::encode(&self.endpoint, command, &self.credentials);
        proof {
            old(self).lemma_wf();
            assert forall|id: u64| self@.pending.contains_key(id) implies id < self@.issued by {
                if id != request_id {
                    assert(old(self)@.pending.contains_key(id));
                }
            }
        }
        PendingRequest { request_id, command, request }
    }

    /// Handles one key transition and returns the request to send, if any.
    /// The request is recorded as in flight until [`Self::complete`] is
    /// called with its identifier. Request identifiers count up from zero,
    /// so fewer than `u64::MAX` requests may have been emitted before.
    pub fn on_key_event(&mut self, key: Key, transition: Transition) -> (r: Option<PendingRequest>)
        requires
            old(self).wf(),
            old(self)@.issued < u64::MAX,
        ensures
            final(self).wf(),
            final(self)@ == key_event(old(self)@, key, transition).0,
            request_view(r) == key_event(old(self)@, key, transition).1,
    {
        let binding = match self.bindings.lookup(key) {
            Some(binding) => binding,
            None => {
                return None;
            },
        };
        match transition {
            Transition::Press => {
                if self.held.contains(key) {
                    return None;
                }
                self.held.insert(key);
                Some(self.emit(binding.press))
            },
            Transition::Release => {
                self.held.remove(key);
                Some(self.emit(binding.release))
            },
        }
    }

    /// Folds the result of request `request_id` back in: the request is no
    /// longer in flight, and the outcome says what to report. Held keys are
    /// untouched.
    pub fn complete(&mut self, request_id: u64, result: Result<String, TransportError>) -> (outcome:
        DispatchOutcome)
        requires
            old(self).wf(),
        ensures
            final(self).wf(),
            final(self)@ == completed(old(self)@, request_id),
            outcome == outcome_of(old(self)@.pending, request_id, result),
    {
        match self.pending.remove(&request_id) {
            None => DispatchOutcome::NotPending { request_id },
            Some(command) => match result {
                Ok(body) => DispatchOutcome::Completed { command, body },
                Err(reason) => DispatchOutcome::Failed { command, reason },
            },
        }
    }
}

} // verus!
