use splat_interact::interact::data::{InteractData, InteractThreadMessage};
use splat_interact::interact::ws_thread::{
    InteractWsThread, SocketEvent, ThreadEvent, ThreadPhase, ThreadRequest, INITIAL_BACKOFF,
    MAX_BACKOFF, MAX_SEND_RATE, POLL_INTERVAL,
};
use splat_interact::math::{Float32, Quat, Vec3};

const MS: u128 = 1_000_000;
const S: u128 = 1_000 * MS;

fn data(x: f32) -> InteractData {
    let zero = Float32::zero();
    InteractData {
        path: "/world".to_string(),
        eye_rotation: Quat::new(zero, zero, zero, Float32::from_bits(1.0f32.to_bits())),
        eye_position: Vec3::new(Float32::from_bits(x.to_bits()), zero, zero),
        eye_fov_y: None,
    }
}

fn message(x: f32) -> ThreadEvent {
    ThreadEvent::Message(InteractThreadMessage::Data(data(x)))
}

fn stop() -> ThreadEvent {
    ThreadEvent::Message(InteractThreadMessage::Stop)
}

/// Takes one event and expects nothing to be transmitted.
fn quiet(thread: InteractWsThread, event: ThreadEvent, now: u128) -> InteractWsThread {
    let (next, sent) = thread.step(event, now);
    assert!(sent.is_none());
    next
}

fn connected(now: u128) -> InteractWsThread {
    let thread = quiet(InteractWsThread::new(now), ThreadEvent::NoMessage, now);
    assert_eq!(thread.request(), ThreadRequest::Connect);
    let thread = quiet(thread, ThreadEvent::Connected, now);
    assert_eq!(thread.request(), ThreadRequest::AwaitMessage(100 * MS));
    assert!(thread.is_connected);
    thread
}

/// Offers data, and returns what was transmitted.
fn offer(thread: InteractWsThread, x: f32, now: u128) -> (InteractWsThread, Option<InteractData>) {
    let thread = quiet(thread, message(x), now);
    if thread.request() == ThreadRequest::Continue {
        thread.step(ThreadEvent::Proceed, now)
    } else {
        (thread, None)
    }
}

/// Fails a connection, serves the wait in full, and returns how long it took.
fn fail_and_wait(thread: InteractWsThread, start: u128) -> (InteractWsThread, u128) {
    let mut now = start;
    let mut thread = quiet(thread, ThreadEvent::NoMessage, now);
    assert_eq!(thread.request(), ThreadRequest::Connect);
    thread = quiet(thread, ThreadEvent::ConnectFailed, now);
    assert!(!thread.is_connected);
    loop {
        assert_eq!(thread.request(), ThreadRequest::Continue);
        thread = quiet(thread, ThreadEvent::Proceed, now);
        assert_eq!(thread.request(), ThreadRequest::PollMessage);
        if matches!(thread.phase, ThreadPhase::Starting) {
            return (thread, now - start);
        }
        thread = quiet(thread, ThreadEvent::NoMessage, now);
        assert_eq!(thread.request(), ThreadRequest::Sleep(100 * MS));
        thread = quiet(thread, ThreadEvent::Proceed, now);
        now += 100 * MS;
    }
}

#[test]
fn the_times_are_those_of_the_protocol() {
    assert_eq!(INITIAL_BACKOFF, S);
    assert_eq!(MAX_BACKOFF, 30 * S);
    assert_eq!(MAX_SEND_RATE, 100 * MS);
    assert_eq!(POLL_INTERVAL, 100 * MS);
}

#[test]
fn a_new_thread_looks_for_a_stop_first() {
    let thread = InteractWsThread::new(42);
    assert_eq!(thread.request(), ThreadRequest::PollMessage);
    assert!(!thread.is_connected);
    assert_eq!(thread.backoff, S);
    assert_eq!(thread.last_sent, 42);
    assert!(thread.last_data.is_none());
    let thread = quiet(thread, stop(), 43);
    assert_eq!(thread.request(), ThreadRequest::Exit);
    let thread = quiet(InteractWsThread::new(42), ThreadEvent::SenderGone, 43);
    assert_eq!(thread.request(), ThreadRequest::Exit);
}

#[test]
fn data_queued_before_the_connection_is_sent_first() {
    let thread = quiet(InteractWsThread::new(0), message(1.0), 0);
    assert_eq!(thread.request(), ThreadRequest::Connect);
    assert!(!thread.is_connected);
    let thread = quiet(thread, ThreadEvent::Connected, 150 * MS);
    assert!(thread.is_connected);
    assert_eq!(thread.backoff, S);
    assert_eq!(thread.request(), ThreadRequest::Continue);
    let (thread, sent) = thread.step(ThreadEvent::Proceed, 151 * MS);
    assert_eq!(sent, Some(data(1.0)));
    assert_eq!(thread.last_sent, 151 * MS);
    assert_eq!(thread.request(), ThreadRequest::AwaitMessage(100 * MS));
    // From then on it counts as sent.
    let (thread, sent) = offer(thread, 1.0, S);
    assert!(sent.is_none());
    let (_, sent) = offer(thread, 2.0, S);
    assert_eq!(sent, Some(data(2.0)));
}

#[test]
fn queued_data_is_held_to_the_same_rules() {
    // Too soon after the thread began.
    let thread = quiet(InteractWsThread::new(0), message(1.0), 0);
    let thread = quiet(thread, ThreadEvent::Connected, 99 * MS);
    assert_eq!(thread.request(), ThreadRequest::AwaitMessage(100 * MS));
    assert!(thread.last_data.is_none());

    // A repetition, after a reconnection.
    let (thread, _) = offer(connected(0), 1.0, S);
    let thread = quiet(thread, ThreadEvent::NoMessage, S);
    let thread = quiet(thread, ThreadEvent::Socket(SocketEvent::Error), S);
    let thread = quiet(thread, ThreadEvent::Proceed, 3 * S);
    let thread = quiet(thread, message(1.0), 3 * S);
    let thread = quiet(thread, ThreadEvent::Connected, 3 * S);
    assert_eq!(thread.request(), ThreadRequest::AwaitMessage(100 * MS));
}

#[test]
fn a_failed_connection_loses_queued_data() {
    let thread = quiet(InteractWsThread::new(0), message(1.0), 0);
    let thread = quiet(thread, ThreadEvent::ConnectFailed, 500 * MS);
    let thread = quiet(thread, ThreadEvent::Proceed, 2 * S);
    let thread = quiet(thread, ThreadEvent::NoMessage, 2 * S);
    let thread = quiet(thread, ThreadEvent::Connected, 2 * S);
    assert_eq!(thread.request(), ThreadRequest::AwaitMessage(100 * MS));
    assert!(thread.last_data.is_none());
}

#[test]
fn data_is_not_sent_too_frequently() {
    let thread = connected(0);
    let (thread, sent) = offer(thread, 1.0, 99 * MS);
    assert!(sent.is_none());
    let (thread, sent) = offer(thread, 2.0, 100 * MS);
    assert_eq!(sent, Some(data(2.0)));
    assert_eq!(thread.last_sent, 100 * MS);
    let (thread, sent) = offer(thread, 3.0, 200 * MS - 1);
    assert!(sent.is_none());
    let (_, sent) = offer(thread, 3.0, 200 * MS);
    assert_eq!(sent, Some(data(3.0)));
}

#[test]
fn the_interval_counts_from_the_transmission() {
    let thread = connected(0);
    let thread = quiet(thread, message(1.0), 100 * MS);
    let (thread, sent) = thread.step(ThreadEvent::Proceed, 150 * MS);
    assert_eq!(sent, Some(data(1.0)));
    assert_eq!(thread.last_sent, 150 * MS);
    let (_, sent) = offer(thread, 2.0, 200 * MS);
    assert!(sent.is_none());
}

#[test]
fn a_clock_that_goes_back_holds_data_up() {
    let (thread, sent) = offer(connected(500 * MS), 1.0, 100 * MS);
    assert!(sent.is_none());
    assert!(thread.last_data.is_none());
}

#[test]
fn the_same_data_is_not_sent_twice_in_a_row() {
    let (thread, sent) = offer(connected(0), 1.0, S);
    assert_eq!(sent, Some(data(1.0)));
    let (thread, sent) = offer(thread, 1.0, 2 * S);
    assert!(sent.is_none());
    assert_eq!(thread.last_sent, S);
    let (thread, sent) = offer(thread, 2.0, 3 * S);
    assert_eq!(sent, Some(data(2.0)));
    let (_, sent) = offer(thread, 1.0, 4 * S);
    assert_eq!(sent, Some(data(1.0)));
}

#[test]
fn data_with_a_nan_is_never_a_repetition() {
    let (thread, sent) = offer(connected(0), f32::NAN, S);
    assert!(sent.is_some());
    let (_, sent) = offer(thread, f32::NAN, 2 * S);
    assert!(sent.is_some());
}

#[test]
fn a_reconnection_does_not_bring_a_repetition() {
    let (thread, _) = offer(connected(0), 1.0, S);
    let thread = quiet(thread, ThreadEvent::NoMessage, S);
    assert_eq!(thread.request(), ThreadRequest::PollSocket);
    let thread = quiet(thread, ThreadEvent::Socket(SocketEvent::Closed), S);
    assert!(!thread.is_connected);
    let thread = quiet(thread, ThreadEvent::Proceed, 2 * S);
    assert_eq!(thread.backoff, 2 * S);
    let thread = quiet(thread, ThreadEvent::NoMessage, 2 * S);
    let thread = quiet(thread, ThreadEvent::Connected, 2 * S);
    assert_eq!(thread.backoff, S);
    let (thread, sent) = offer(thread, 1.0, 3 * S);
    assert!(sent.is_none());
    let (_, sent) = offer(thread, 5.0, 3 * S);
    assert_eq!(sent, Some(data(5.0)));
}

#[test]
fn only_a_closed_or_broken_socket_ends_the_connection() {
    for (event, lost) in [
        (SocketEvent::Closed, true),
        (SocketEvent::Error, true),
        (SocketEvent::Other, false),
        (SocketEvent::Nothing, false),
    ] {
        let thread = quiet(connected(0), ThreadEvent::NoMessage, S);
        let thread = quiet(thread, ThreadEvent::Socket(event), S);
        assert_eq!(thread.is_connected, !lost);
        assert_eq!(matches!(thread.phase, ThreadPhase::Waiting), lost);
        assert_eq!(matches!(thread.phase, ThreadPhase::Streaming), !lost);
    }
}

#[test]
fn the_backoff_doubles_up_to_its_limit() {
    let mut thread = InteractWsThread::new(0);
    let mut now: u128 = 0;
    for seconds in [1u128, 2, 4, 8, 16, 30, 30, 30] {
        let (next, waited) = fail_and_wait(thread, now);
        assert_eq!(waited, seconds * S);
        now += waited;
        thread = next;
    }
    let thread = quiet(thread, ThreadEvent::NoMessage, now);
    let thread = quiet(thread, ThreadEvent::Connected, now);
    assert_eq!(thread.backoff, S);
}

#[test]
fn the_backoff_doubles_after_a_dropped_connection() {
    // A long backoff, brought back to the shortest by a connection.
    let mut thread = InteractWsThread::new(0);
    for _ in 0..3 {
        thread = fail_and_wait(thread, 0).0;
    }
    assert_eq!(thread.backoff, 8 * S);
    thread = quiet(thread, ThreadEvent::NoMessage, 0);
    thread = quiet(thread, ThreadEvent::Connected, 0);
    assert_eq!(thread.backoff, S);

    // The connection drops: the first wait is the shortest, and each of the next twice as long.
    thread = quiet(thread, ThreadEvent::NoMessage, 0);
    thread = quiet(thread, ThreadEvent::Socket(SocketEvent::Closed), 0);
    thread = quiet(thread, ThreadEvent::Proceed, S);
    assert_eq!(thread.request(), ThreadRequest::PollMessage);
    assert!(matches!(thread.phase, ThreadPhase::Starting));
    for seconds in [2, 4, 8, 16, 30, 30] {
        let (next, waited) = fail_and_wait(thread, 0);
        assert_eq!(waited, seconds * S);
        thread = next;
    }
}

#[test]
fn a_stop_is_obeyed_while_streaming_and_while_backing_off() {
    let thread = quiet(connected(0), stop(), S);
    assert_eq!(thread.request(), ThreadRequest::Exit);
    assert!(thread.is_connected);
    let thread = quiet(connected(0), ThreadEvent::SenderGone, S);
    assert_eq!(thread.request(), ThreadRequest::Exit);

    for event in [stop(), ThreadEvent::SenderGone] {
        let thread = quiet(InteractWsThread::new(0), ThreadEvent::NoMessage, 0);
        let thread = quiet(thread, ThreadEvent::ConnectFailed, 0);
        let thread = quiet(thread, ThreadEvent::Proceed, 500 * MS);
        assert_eq!(thread.request(), ThreadRequest::PollMessage);
        let thread = quiet(thread, event, 500 * MS);
        assert_eq!(thread.request(), ThreadRequest::Exit);
        assert!(!thread.is_connected);
    }
}

#[test]
fn data_is_dropped_while_backing_off() {
    let thread = quiet(InteractWsThread::new(0), ThreadEvent::NoMessage, 0);
    let thread = quiet(thread, ThreadEvent::ConnectFailed, 0);
    let thread = quiet(thread, ThreadEvent::Proceed, 500 * MS);
    let thread = quiet(thread, message(1.0), 500 * MS);
    assert_eq!(thread.request(), ThreadRequest::Sleep(100 * MS));
    assert!(thread.last_data.is_none());
}

#[test]
fn the_end_is_final() {
    let mut thread = quiet(InteractWsThread::new(0), stop(), 0);
    for event in [
        ThreadEvent::NoMessage,
        ThreadEvent::SenderGone,
        ThreadEvent::Connected,
        ThreadEvent::ConnectFailed,
        ThreadEvent::Socket(SocketEvent::Other),
        ThreadEvent::Proceed,
        message(1.0),
    ] {
        thread = quiet(thread, event, S);
        assert_eq!(thread.request(), ThreadRequest::Exit);
    }
}

#[test]
fn an_event_out_of_turn_changes_nothing() {
    let thread = quiet(InteractWsThread::new(0), ThreadEvent::Connected, S);
    assert!(matches!(thread.phase, ThreadPhase::Starting));
    let thread = quiet(connected(0), message(1.0), S);
    let thread = quiet(thread, ThreadEvent::NoMessage, 2 * S);
    let (thread, sent) = thread.step(ThreadEvent::Proceed, 3 * S);
    assert_eq!(sent, Some(data(1.0)));
    assert_eq!(thread.last_sent, 3 * S);
}
