use ptz_camera::command::CameraCmd;
use ptz_camera::discovery::{CameraEndpoint, DecodeError, DiscoveryError};
use ptz_camera::dispatcher::{DispatchOutcome, TransportError};
use ptz_camera::encoder::Credentials;
use ptz_camera::keys::{Key, KeyBindings, Transition};
use ptz_camera::machine::{Action, ControlState, ControlStateMachine, Event, HostInput};

fn camera() -> CameraEndpoint {
    CameraEndpoint { ip: [192, 168, 1, 50], port: 1306 }
}

fn loading() -> ControlStateMachine {
    ControlStateMachine::new(Credentials::new("admin", "qwerpoiu"), KeyBindings::standard())
}

fn ready() -> ControlStateMachine {
    let mut m = loading();
    assert_eq!(m.handle(Event::DiscoveryCompleted(Ok(camera()))), Action::Idle);
    m
}

fn key(key: Key, transition: Transition) -> Event {
    Event::KeyTransition { key, transition }
}

#[test]
fn starts_loading() {
    let m = loading();
    assert_eq!(m.state(), ControlState::Loading);
    assert!(!m.should_exit());
    assert!(m.can_issue());
    assert!(!m.is_held(Key::W));
}

#[test]
fn discovery_success_makes_ready() {
    let m = ready();
    assert_eq!(m.state(), ControlState::Ready { endpoint: camera() });
    assert!(!m.should_exit());
}

#[test]
fn discovery_failure_stays_loading() {
    for e in [
        DiscoveryError::BindFailed,
        DiscoveryError::Timeout,
        DiscoveryError::Decode(DecodeError::TooShort),
        DiscoveryError::Decode(DecodeError::NonIPv4Sender),
    ] {
        let mut m = loading();
        assert_eq!(m.handle(Event::DiscoveryCompleted(Err(e))), Action::DiscoveryFailed(e));
        assert_eq!(m.state(), ControlState::Loading);
        assert!(!m.should_exit());
    }
}

#[test]
fn discovery_after_failure_still_makes_ready() {
    let mut m = loading();
    m.handle(Event::DiscoveryCompleted(Err(DiscoveryError::Timeout)));
    assert_eq!(m.handle(Event::DiscoveryCompleted(Ok(camera()))), Action::Idle);
    assert_eq!(m.state(), ControlState::Ready { endpoint: camera() });
}

#[test]
fn discovery_while_ready_is_ignored() {
    let mut m = ready();
    m.handle(key(Key::W, Transition::Press));
    let other = CameraEndpoint { ip: [10, 0, 0, 1], port: 80 };
    assert_eq!(m.handle(Event::DiscoveryCompleted(Ok(other))), Action::Idle);
    assert_eq!(m.state(), ControlState::Ready { endpoint: camera() });
    assert!(m.is_held(Key::W));
    assert_eq!(m.handle(Event::DiscoveryCompleted(Err(DiscoveryError::Timeout))), Action::Idle);
    assert_eq!(m.state(), ControlState::Ready { endpoint: camera() });
}

#[test]
fn press_and_release_w_while_ready() {
    let mut m = ready();
    match m.handle(key(Key::W, Transition::Press)) {
        Action::Send(sent) => {
            assert_eq!(sent.command, CameraCmd::PtzUp);
            assert_eq!(sent.request.command, 0);
            assert_eq!(
                sent.request.url(),
                "http://192.168.1.50:1306/decoder_control.cgi?loginuse=admin&loginpas=qwerpoiu&command=0&onestep=0"
            );
        }
        other => panic!("expected a request, got {:?}", other),
    }
    match m.handle(key(Key::W, Transition::Release)) {
        Action::Send(sent) => {
            assert_eq!(sent.command, CameraCmd::PtzUpStop);
            assert_eq!(sent.request.command, 1);
            assert_eq!(
                sent.request.url(),
                "http://192.168.1.50:1306/decoder_control.cgi?loginuse=admin&loginpas=qwerpoiu&command=1&onestep=0"
            );
        }
        other => panic!("expected a request, got {:?}", other),
    }
}

#[test]
fn keys_while_loading_send_nothing() {
    let mut m = loading();
    for k in [Key::W, Key::S, Key::A, Key::D, Key::Other(5)] {
        for t in [Transition::Press, Transition::Release] {
            assert_eq!(m.handle(key(k, t)), Action::Idle);
            assert_eq!(m.state(), ControlState::Loading);
            assert!(!m.should_exit());
            assert!(!m.is_held(k));
        }
    }
    assert_eq!(m.handle(Event::DiscoveryCompleted(Ok(camera()))), Action::Idle);
    match m.handle(key(Key::W, Transition::Press)) {
        Action::Send(sent) => assert_eq!(sent.request_id, 0),
        other => panic!("expected a request, got {:?}", other),
    }
}

#[test]
fn quit_while_loading_sets_exit_only() {
    let mut m = loading();
    assert_eq!(m.handle(Event::QuitRequested), Action::Idle);
    assert!(m.should_exit());
    assert_eq!(m.state(), ControlState::Loading);
}

#[test]
fn quit_while_ready_keeps_state() {
    let mut m = ready();
    m.handle(key(Key::S, Transition::Press));
    assert_eq!(m.handle(Event::QuitRequested), Action::Idle);
    assert!(m.should_exit());
    assert_eq!(m.state(), ControlState::Ready { endpoint: camera() });
    assert!(m.is_held(Key::S));
}

#[test]
fn should_exit_stays_set() {
    let mut m = loading();
    m.handle(Event::QuitRequested);
    m.handle(Event::DiscoveryCompleted(Ok(camera())));
    m.handle(key(Key::W, Transition::Press));
    m.handle(Event::CommandCompleted { request_id: 0, result: Ok(String::new()) });
    m.handle(Event::QuitRequested);
    assert!(m.should_exit());
    assert_eq!(m.state(), ControlState::Ready { endpoint: camera() });
}

#[test]
fn repeated_press_sends_once() {
    let mut m = ready();
    assert!(matches!(m.handle(key(Key::W, Transition::Press)), Action::Send(_)));
    assert_eq!(m.handle(key(Key::W, Transition::Press)), Action::Idle);
}

#[test]
fn command_results_are_reported() {
    let mut m = ready();
    m.handle(key(Key::W, Transition::Press));
    assert_eq!(
        m.handle(Event::CommandCompleted { request_id: 0, result: Ok(String::from("ok")) }),
        Action::Report(DispatchOutcome::Completed {
            command: CameraCmd::PtzUp,
            body: String::from("ok")
        })
    );
    assert_eq!(
        m.handle(Event::CommandCompleted { request_id: 0, result: Ok(String::from("ok")) }),
        Action::Report(DispatchOutcome::NotPending { request_id: 0 })
    );
}

#[test]
fn failed_command_changes_no_state() {
    let mut m = ready();
    m.handle(key(Key::W, Transition::Press));
    assert_eq!(
        m.handle(Event::CommandCompleted {
            request_id: 0,
            result: Err(TransportError::ConnectionFailed)
        }),
        Action::Report(DispatchOutcome::Failed {
            command: CameraCmd::PtzUp,
            reason: TransportError::ConnectionFailed
        })
    );
    assert_eq!(m.state(), ControlState::Ready { endpoint: camera() });
    assert!(!m.should_exit());
    assert!(m.is_held(Key::W));
    assert!(matches!(m.handle(key(Key::W, Transition::Release)), Action::Send(_)));
}

#[test]
fn command_result_while_loading_is_ignored() {
    let mut m = loading();
    assert_eq!(
        m.handle(Event::CommandCompleted { request_id: 3, result: Err(TransportError::BadStatus) }),
        Action::Idle
    );
    assert_eq!(m.state(), ControlState::Loading);
}

#[test]
fn classify_inputs() {
    assert_eq!(ControlStateMachine::classify(HostInput::CloseRequested), Event::QuitRequested);
    assert_eq!(
        ControlStateMachine::classify(HostInput::KeyPressed(Key::Escape)),
        Event::QuitRequested
    );
    assert_eq!(
        ControlStateMachine::classify(HostInput::KeyReleased(Key::Escape)),
        key(Key::Escape, Transition::Release)
    );
    assert_eq!(
        ControlStateMachine::classify(HostInput::KeyPressed(Key::W)),
        key(Key::W, Transition::Press)
    );
    assert_eq!(
        ControlStateMachine::classify(HostInput::KeyReleased(Key::S)),
        key(Key::S, Transition::Release)
    );
    assert_eq!(
        ControlStateMachine::classify(HostInput::KeyPressed(Key::Other(11))),
        key(Key::Other(11), Transition::Press)
    );
}

#[test]
fn escape_release_is_an_unbound_key() {
    let mut m = ready();
    let event = ControlStateMachine::classify(HostInput::KeyReleased(Key::Escape));
    assert_eq!(m.handle(event), Action::Idle);
    assert!(!m.should_exit());
}
