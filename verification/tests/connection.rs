use splat_interact::interact::data::{InteractData, InteractThreadMessage};
use splat_interact::interact::state::{
    InteractConnectionStatus, InteractOptions, InteractState, InteractWsHandle, UpdateAction,
    UpdateEvent, CHANNEL_CAPACITY,
};
use splat_interact::math::{Float32, Quat, Vec3};

type State = InteractState<u32, &'static str>;
type Handle = InteractWsHandle<u32, &'static str>;

fn f(x: f32) -> Float32 {
    Float32::from_bits(x.to_bits())
}

fn data(path: &str, x: f32) -> InteractData {
    InteractData {
        path: path.to_string(),
        eye_rotation: Quat::new(f(0.0), f(0.0), f(0.0), f(1.0)),
        eye_position: Vec3::new(f(x), f(2.0), f(3.0)),
        eye_fov_y: Some(f(0.5)),
    }
}

fn options(status: InteractConnectionStatus) -> InteractOptions {
    InteractOptions { address: "ws://Example.com:9001".to_string(), connection_status: status }
}

fn handle(thread: u32, is_connected: bool) -> Handle {
    InteractWsHandle { handle: Some(thread), tx: "channel", is_connected }
}

#[test]
fn a_wanted_connection_is_opened_at_the_normalized_url() {
    let mut state = State::default();
    let mut options = options(InteractConnectionStatus::Connecting);
    match state.update(&mut options, UpdateEvent::Requested { is_connected: false }) {
        Ok(UpdateAction::Open(url)) => assert_eq!(url, "ws://example.com:9001/"),
        _ => panic!("a connection should be opened"),
    }
    assert!(state.0.is_none());
    let opened = match Handle::new(Ok::<u32, String>(7), "channel") {
        Ok(opened) => opened,
        Err(_) => panic!("the thread was started"),
    };
    assert!(!opened.is_connected);
    assert!(matches!(state.update(&mut options, UpdateEvent::Opened(opened)), Ok(UpdateAction::Settle)));
    let settled = state.update(&mut options, UpdateEvent::Settled { is_connected: false });
    assert!(matches!(settled, Ok(UpdateAction::Finish)));
    assert_eq!(options.connection_status, InteractConnectionStatus::Connecting);
    assert!(!state.is_connected());
    let settled = state.update(&mut options, UpdateEvent::Settled { is_connected: true });
    assert!(matches!(settled, Ok(UpdateAction::Finish)));
    assert_eq!(options.connection_status, InteractConnectionStatus::Connected);
    assert!(state.is_connected());
}

#[test]
fn a_connection_that_is_not_up_is_replaced() {
    let mut state = InteractState(Some(handle(1, false)));
    let mut options = options(InteractConnectionStatus::Connecting);
    let asked = state.update(&mut options, UpdateEvent::Requested { is_connected: false });
    assert!(matches!(asked, Ok(UpdateAction::Open(_))));
    assert_eq!(state.0.as_ref().map(|h| h.handle), Some(Some(1)));
    let _ = state.update(&mut options, UpdateEvent::Opened(handle(2, false)));
    assert_eq!(state.0.as_ref().map(|h| h.handle), Some(Some(2)));
}

#[test]
fn a_bad_address_fails_and_changes_nothing() {
    let mut state = State::new();
    let mut options = options(InteractConnectionStatus::Connected);
    options.address = "example".to_string();
    match state.update(&mut options, UpdateEvent::Requested { is_connected: false }) {
        Err(error) => assert_eq!(error.description, "relative URL without a base"),
        Ok(_) => panic!("there is no URL to connect to"),
    }
    assert!(state.0.is_none());
    assert_eq!(options.address, "example");
    assert_eq!(options.connection_status, InteractConnectionStatus::Connected);

    options.address = "ws://".to_string();
    match state.ensure_connected(&options) {
        Err(error) => assert_eq!(error.description, "empty host"),
        Ok(_) => panic!("there is no URL to connect to"),
    }
}

#[test]
fn a_bad_address_is_not_looked_at_without_need() {
    let mut state = InteractState(Some(handle(1, true)));
    let mut options = options(InteractConnectionStatus::Connected);
    options.address = "example".to_string();
    let asked = state.update(&mut options, UpdateEvent::Requested { is_connected: true });
    assert!(matches!(asked, Ok(UpdateAction::Settle)));
}

#[test]
fn what_follows_the_parse_of_an_address() {
    match State::open_step(Ok("ws://a/".to_string())) {
        Ok(UpdateAction::Open(url)) => assert_eq!(url, "ws://a/"),
        _ => panic!("a URL is connected to"),
    }
    match State::open_step(Err("bad".to_string())) {
        Err(error) => assert_eq!(error.description, "bad"),
        _ => panic!("an error is passed on"),
    }
}

#[test]
fn an_unwanted_connection_is_closed() {
    let mut state = InteractState(Some(handle(3, false)));
    let mut options = options(InteractConnectionStatus::Disconnected);
    let closed = match state.update(&mut options, UpdateEvent::Requested { is_connected: true }) {
        Ok(UpdateAction::Close(closed)) => closed,
        _ => panic!("the connection should be closed"),
    };
    assert!(state.0.is_none());
    match closed.disconnect() {
        Some((tx, InteractThreadMessage::Stop, thread)) => {
            assert_eq!(tx, "channel");
            assert_eq!(thread, 3);
        }
        _ => panic!("the thread should be stopped"),
    }
    let _ = state.update(&mut options, UpdateEvent::Settled { is_connected: true });
    assert_eq!(options.connection_status, InteractConnectionStatus::Disconnected);
}

#[test]
fn an_unwanted_connection_that_is_not_up_is_kept() {
    let mut state = InteractState(Some(handle(3, false)));
    let mut options = options(InteractConnectionStatus::Disconnected);
    let asked = state.update(&mut options, UpdateEvent::Requested { is_connected: false });
    assert!(matches!(asked, Ok(UpdateAction::Settle)));
    assert!(state.0.is_some());
    let _ = state.update(&mut options, UpdateEvent::Settled { is_connected: false });
    assert_eq!(options.connection_status, InteractConnectionStatus::Connecting);
}

#[test]
fn nothing_happens_without_a_connection_that_is_not_wanted() {
    let mut state = State::new();
    let mut options = options(InteractConnectionStatus::Disconnected);
    let asked = state.update(&mut options, UpdateEvent::Requested { is_connected: true });
    assert!(matches!(asked, Ok(UpdateAction::Settle)));
    let _ = state.update(&mut options, UpdateEvent::Settled { is_connected: true });
    assert!(state.0.is_none());
    assert_eq!(options.connection_status, InteractConnectionStatus::Disconnected);
}

#[test]
fn a_lost_connection_shows_as_connecting() {
    let mut state = InteractState(Some(handle(1, true)));
    let mut options = options(InteractConnectionStatus::Connected);
    state.observe(false);
    state.update_connection_status(&mut options);
    assert_eq!(options.connection_status, InteractConnectionStatus::Connecting);
}

#[test]
fn data_goes_to_the_channel_of_the_connection() {
    let state = InteractState(Some(handle(1, false)));
    match state.send(data("/world", 1.0)) {
        Some((tx, InteractThreadMessage::Data(sent))) => {
            assert_eq!(*tx, "channel");
            assert_eq!(sent, data("/world", 1.0));
        }
        _ => panic!("there is a channel"),
    }
    assert!(State::new().send(data("/world", 1.0)).is_none());
}

#[test]
fn a_handle_without_a_thread_has_nothing_to_stop() {
    let handle: Handle = InteractWsHandle { handle: None, tx: "channel", is_connected: true };
    assert!(handle.disconnect().is_none());
}

#[test]
fn a_thread_that_does_not_start_is_an_error() {
    match Handle::new(Err::<u32, String>("no threads left".to_string()), "channel") {
        Err(error) => assert_eq!(error, "no threads left"),
        Ok(_) => panic!("there is no thread"),
    }
}

#[test]
fn the_channel_has_room_for_512() {
    assert_eq!(CHANNEL_CAPACITY, 512);
}

#[test]
fn numbers_are_compared_as_numbers() {
    assert_eq!(f(1.5), f(1.5));
    assert_ne!(f(1.5), f(-1.5));
    assert_eq!(f(0.0), f(-0.0));
    assert_ne!(f(f32::NAN), f(f32::NAN));
    assert_ne!(f(f32::NAN), f(1.0));
    assert_eq!(f(f32::INFINITY), f(f32::INFINITY));
    assert_ne!(f(f32::INFINITY), f(f32::NEG_INFINITY));
    assert_eq!(f(f32::MIN_POSITIVE), f(f32::MIN_POSITIVE));
    for a in [0u32, 1, 0x7f7f_ffff, 0x7f80_0000, 0x7f80_0001, 0x8000_0000, 0xff80_0000, u32::MAX] {
        for b in [0u32, 1, 0x7f7f_ffff, 0x7f80_0000, 0x7f80_0001, 0x8000_0000, 0xff80_0000, u32::MAX] {
            assert_eq!(
                Float32::from_bits(a) == Float32::from_bits(b),
                f32::from_bits(a) == f32::from_bits(b)
            );
        }
        assert_eq!(Float32::from_bits(a).is_nan(), f32::from_bits(a).is_nan());
    }
}

#[test]
fn data_is_compared_by_every_part() {
    assert_eq!(data("/a", 1.0), data("/a", 1.0));
    assert_eq!(data("/a", 0.0), data("/a", -0.0));
    assert_ne!(data("/a", 1.0), data("/b", 1.0));
    assert_ne!(data("/a", 1.0), data("/a", 2.0));
    assert_ne!(data("/a", f32::NAN), data("/a", f32::NAN));
    let mut other = data("/a", 1.0);
    other.eye_fov_y = None;
    assert_ne!(data("/a", 1.0), other);
    assert_eq!(other, other.clone());
    let mut turned = data("/a", 1.0);
    turned.eye_rotation.w = f(-1.0);
    assert_ne!(data("/a", 1.0), turned);
    assert_eq!(
        InteractThreadMessage::Data(data("/a", 1.0)).clone(),
        InteractThreadMessage::Data(data("/a", 1.0))
    );
    assert_ne!(InteractThreadMessage::Data(data("/a", 1.0)), InteractThreadMessage::Stop);
}
