//! The websocket thread for interaction streaming, as a state machine.
//!
//! The machine holds everything the thread decides: when to connect, what to forward, how long to
//! back off and when to stop. The code around it performs one [`ThreadRequest`] at a time and
//! reports the outcome as a [`ThreadEvent`], together with a reading of a monotonic clock in
//! nanoseconds.
use vstd::prelude::*;

use crate::interact::data::{same_data, InteractData, InteractThreadMessage};

verus! {

/// How long the thread waits after its first failure to connect, in nanoseconds.
pub const INITIAL_BACKOFF: u128 = 1_000_000_000;

/// The longest the thread waits between two attempts to connect, in nanoseconds.
pub const MAX_BACKOFF: u128 = 30_000_000_000;

/// The least time between two transmissions, in nanoseconds.
pub const MAX_SEND_RATE: u128 = 100_000_000;

/// How long the thread blocks on its message channel before it looks at the websocket, and how
/// long it sleeps between two looks at the channel while it backs off, in nanoseconds.
pub const POLL_INTERVAL: u128 = 100_000_000;

/// What the thread is in the middle of.
pub enum ThreadPhase {
    /// Looking for a stop message, or for data queued already, before an attempt to connect.
    Starting,
    /// Attempting to connect, with the data that was already queued.
    Connecting(Option<InteractData>),
    /// Connected, waiting for a message.
    Streaming,
    /// Connected, about to transmit this data.
    Sending(InteractData),
    /// Connected, looking for a change of the websocket's state.
    CheckingSocket,
    /// Disconnected, comparing the time waited so far with the backoff.
    Waiting,
    /// Disconnected, looking for a stop message.
    Listening,
    /// Disconnected, sleeping before the next comparison.
    Sleeping,
    /// Finished.
    Stopped,
}

/// What a look at the websocket found.
#[derive(Debug, Clone, Copy, PartialEq, Eq, Structural)]
pub enum SocketEvent {
    /// The server closed the connection.
    Closed,
    /// The connection broke.
    Error,
    /// Something that does not concern the connection.
    Other,
    /// Nothing at all.
    Nothing,
}

/// The outcome of a request.
pub enum ThreadEvent {
    /// The channel handed out a message.
    Message(InteractThreadMessage),
    /// The channel was empty, for the time that it was watched.
    NoMessage,
    /// The channel is empty and nobody can send to it any more.
    SenderGone,
    /// The websocket is open.
    Connected,
    /// The websocket could not be opened.
    ConnectFailed,
    /// The websocket was looked at.
    Socket(SocketEvent),
    /// A request without an outcome of its own has been performed.
    Proceed,
}

/// What the thread needs done next.
#[derive(Debug, Clone, Copy, PartialEq, Eq, Structural)]
pub enum ThreadRequest {
    /// Take a message from the channel if there is one.
    PollMessage,
    /// Open the websocket.
    Connect,
    /// Wait for a message for at most this many nanoseconds.
    AwaitMessage(u128),
    /// Look for an event of the websocket.
    PollSocket,
    /// Sleep for this many nanoseconds.
    Sleep(u128),
    /// Nothing but another reading of the clock.
    Continue,
    /// Leave the thread, dropping the websocket if it is open.
    Exit,
}

/// The state of the thread.
pub struct InteractWsThread {
    /// What the thread is in the middle of.
    pub phase: ThreadPhase,
    /// Whether the websocket is open, as others are told.
    pub is_connected: bool,
    /// How long the next wait for a reconnection lasts.
    pub backoff: u128,
    /// When the current wait for a reconnection began.
    pub wait_start: u128,
    /// What was transmitted last.
    pub last_data: Option<InteractData>,
    /// When data was transmitted last, or the thread began.
    pub last_sent: u128,
}

/// The time from one clock reading to another, zero if they are out of order.
pub open spec fn elapsed(since: u128, now: u128) -> int {
    if now >= since {
        now - since
    } else {
        0
    }
}

/// The backoff that follows a wait of the given length.
pub open spec fn next_backoff(backoff: u128) -> u128 {
    if 2 * backoff <= MAX_BACKOFF {
        (2 * backoff) as u128
    } else {
        MAX_BACKOFF
    }
}

/// A message that ends the thread wherever it reads its channel.
pub open spec fn is_stop(event: ThreadEvent) -> bool {
    event == ThreadEvent::Message(InteractThreadMessage::Stop) || event is SenderGone
}

/// A look at the channel that does not end the thread.
pub open spec fn is_other_message(event: ThreadEvent) -> bool {
    event is NoMessage || (event matches ThreadEvent::Message(m) && m is Data)
}

impl InteractWsThread {
    /// A thread that begins at the given time.
    pub open spec fn spec_new(now: u128) -> InteractWsThread {
        InteractWsThread {
            phase: ThreadPhase::Starting,
            is_connected: false,
            backoff: INITIAL_BACKOFF,
            wait_start: now,
            last_data: None,
            last_sent: now,
        }
    }

    /// This state in another phase.
    pub open spec fn in_phase(self, phase: ThreadPhase) -> InteractWsThread {
        InteractWsThread { phase, ..self }
    }

    /// This state once the connection is lost, or could not be made.
    pub open spec fn disconnected(self, now: u128) -> InteractWsThread {
        InteractWsThread {
            phase: ThreadPhase::Waiting,
            is_connected: false,
            wait_start: now,
            ..self
        }
    }

    /// Whether data received at the given time is forwarded: enough time has passed since the last
    /// transmission, and the data is not what was transmitted then.
    pub open spec fn admits(self, data: InteractData, now: u128) -> bool {
        &&& elapsed(self.last_sent, now) >= MAX_SEND_RATE
        &&& !(self.last_data matches Some(last) && same_data(last, data))
    }

    /// The phases in which the websocket is open.
    pub open spec fn is_open(self) -> bool {
        self.phase is Streaming || self.phase is Sending || self.phase is CheckingSocket
    }

    /// The phases in which the channel is read.
    pub open spec fn reads_channel(self) -> bool {
        self.phase is Starting || self.phase is Streaming || self.phase is Listening
    }

    /// What every state that the thread reaches satisfies: the backoff stays in its bounds, and the
    /// flag tells whether the websocket is open for as long as the thread runs.
    pub open spec fn wf(self) -> bool {
        &&& INITIAL_BACKOFF <= self.backoff <= MAX_BACKOFF
        &&& !(self.phase is Stopped) ==> self.is_connected == self.is_open()
    }

    /// What the thread needs done in this state.
    pub open spec fn spec_request(self) -> ThreadRequest {
        match self.phase {
            ThreadPhase::Starting | ThreadPhase::Listening => ThreadRequest::PollMessage,
            ThreadPhase::Connecting(_) => ThreadRequest::Connect,
            ThreadPhase::Streaming => ThreadRequest::AwaitMessage(POLL_INTERVAL),
            ThreadPhase::CheckingSocket => ThreadRequest::PollSocket,
            ThreadPhase::Sleeping => ThreadRequest::Sleep(POLL_INTERVAL),
            ThreadPhase::Sending(_) | ThreadPhase::Waiting => ThreadRequest::Continue,
            ThreadPhase::Stopped => ThreadRequest::Exit,
        }
    }

    /// This state once a connection is made. Data that was queued before is then handled like any
    /// other.
    pub open spec fn connected(self, queued: Option<InteractData>, now: u128) -> InteractWsThread {
        InteractWsThread {
            phase: match queued {
                Some(data) if self.admits(data, now) => ThreadPhase::Sending(data),
                _ => ThreadPhase::Streaming,
            },
            is_connected: true,
            backoff: INITIAL_BACKOFF,
            ..self
        }
    }

    /// The state that follows an event, and the data to transmit. An event that does not answer the
    /// request of this state changes nothing.
    pub open spec fn spec_step(self, event: ThreadEvent, now: u128) -> (
        InteractWsThread,
        Option<InteractData>,
    ) {
        if self.reads_channel() && is_stop(event) {
            (self.in_phase(ThreadPhase::Stopped), None)
        } else {
            match self.phase {
                ThreadPhase::Starting => match event {
                    ThreadEvent::Message(InteractThreadMessage::Data(data)) => (
                        self.in_phase(ThreadPhase::Connecting(Some(data))),
                        None,
                    ),
                    ThreadEvent::NoMessage => (self.in_phase(ThreadPhase::Connecting(None)), None),
                    _ => (self, None),
                },
                ThreadPhase::Connecting(queued) if event is Connected => (
                    self.connected(queued, now),
                    None,
                ),
                ThreadPhase::Connecting(_) if event is ConnectFailed => (
                    self.disconnected(now),
                    None,
                ),
                ThreadPhase::Streaming => match event {
                    ThreadEvent::Message(
                        InteractThreadMessage::Data(data),
                    ) if self.admits(data, now) => (
                        self.in_phase(ThreadPhase::Sending(data)),
                        None,
                    ),
                    ThreadEvent::NoMessage => (self.in_phase(ThreadPhase::CheckingSocket), None),
                    _ => (self, None),
                },
                ThreadPhase::Sending(data) if event is Proceed => (
                    InteractWsThread {
                        phase: ThreadPhase::Streaming,
                        last_data: Some(data),
                        last_sent: now,
                        ..self
                    },
                    Some(data),
                ),
                ThreadPhase::CheckingSocket => match event {
                    ThreadEvent::Socket(SocketEvent::Closed | SocketEvent::Error) => (
                        self.disconnected(now),
                        None,
                    ),
                    ThreadEvent::Socket(_) => (self.in_phase(ThreadPhase::Streaming), None),
                    _ => (self, None),
                },
                ThreadPhase::Waiting if event is Proceed => if elapsed(self.wait_start, now)
                    < self.backoff {
                    (self.in_phase(ThreadPhase::Listening), None)
                } else {
                    (
                        InteractWsThread {
                            phase: ThreadPhase::Starting,
                            backoff: next_backoff(self.backoff),
                            ..self
                        },
                        None,
                    )
                },
                ThreadPhase::Listening if is_other_message(event) => (
                    self.in_phase(ThreadPhase::Sleeping),
                    None,
                ),
                ThreadPhase::Sleeping if event is Proceed => (
                    self.in_phase(ThreadPhase::Waiting),
                    None,
                ),
                _ => (self, None),
            }
        }
    }

    /// Begins a thread: disconnected, with the shortest backoff and nothing transmitted yet.
    pub fn new(now: u128) -> (r: InteractWsThread)
        ensures
            r == InteractWsThread::spec_new(now),
            r.wf(),
    {
        InteractWsThread {
            phase: ThreadPhase::Starting,
            is_connected: false,
            backoff: INITIAL_BACKOFF,
            wait_start: now,
            last_data: None,
            last_sent: now,
        }
    }

    /// What the thread needs done now.
    pub fn request(&self) -> (r: ThreadRequest)
        ensures
            r == self.spec_request(),
    {
        match &self.phase {
            ThreadPhase::Starting | ThreadPhase::Listening => ThreadRequest::PollMessage,
            ThreadPhase::Connecting(_) => ThreadRequest::Connect,
            ThreadPhase::Streaming => ThreadRequest::AwaitMessage(POLL_INTERVAL),
            ThreadPhase::CheckingSocket => ThreadRequest::PollSocket,
            ThreadPhase::Sleeping => ThreadRequest::Sleep(POLL_INTERVAL),
            ThreadPhase::Sending(_) | ThreadPhase::Waiting => ThreadRequest::Continue,
            ThreadPhase::Stopped => ThreadRequest::Exit,
        }
    }

    /// Whether data received now is forwarded.
    fn forwards(&self, data: &InteractData, now: u128) -> (r: bool)
        ensures
            r == self.admits(*data, now),
    {
        // Don't send data too frequently.
        if now < self.last_sent || now - self.last_sent < MAX_SEND_RATE {
            return false;
        }
        // Don't send the same data twice in a row.
        match &self.last_data {
            Some(last) => !(*last == *data),
            None => true,
        }
    }

    /// Takes the outcome of the request of this state. Returns the next state, and the data to
    /// transmit now if there is any.
    pub fn step(self, event: ThreadEvent, now: u128) -> (r: (
        InteractWsThread,
        Option<InteractData>,
    ))
        ensures
            r == self.spec_step(event, now),
            self.wf() ==> r.0.wf(),
    {
        let mut next = self;
        match next.phase {
            ThreadPhase::Starting => {
                next.phase = match event {
                    ThreadEvent::Message(InteractThreadMessage::Stop) | ThreadEvent::SenderGone =>
                        ThreadPhase::Stopped,
                    // There is data queued before we've connected; we'll connect and handle it.
                    ThreadEvent::Message(InteractThreadMessage::Data(data)) =>
                        ThreadPhase::Connecting(Some(data)),
                    ThreadEvent::NoMessage => ThreadPhase::Connecting(None),
                    _ => ThreadPhase::Starting,
                };
            },
            ThreadPhase::Connecting(queued) => {
                match event {
                    ThreadEvent::Connected => {
                        next.phase = ThreadPhase::Streaming;
                        next.is_connected = true;
                        next.backoff = INITIAL_BACKOFF;
                        if let Some(data) = queued {
                            if next.forwards(&data, now) {
                                next.phase = ThreadPhase::Sending(data);
                            }
                        }
                    },
                    ThreadEvent::ConnectFailed => {
                        next.phase = ThreadPhase::Waiting;
                        next.is_connected = false;
                        next.wait_start = now;
                    },
                    _ => {
                        next.phase = ThreadPhase::Connecting(queued);
                    },
                }
            },
            ThreadPhase::Streaming => {
                next.phase = ThreadPhase::Streaming;
                next.phase = match event {
                    ThreadEvent::Message(InteractThreadMessage::Data(data)) => {
                        if next.forwards(&data, now) {
                            ThreadPhase::Sending(data)
                        } else {
                            ThreadPhase::Streaming
                        }
                    },
                    ThreadEvent::NoMessage => ThreadPhase::CheckingSocket,
                    ThreadEvent::Message(InteractThreadMessage::Stop) | ThreadEvent::SenderGone =>
                        ThreadPhase::Stopped,
                    _ => ThreadPhase::Streaming,
                };
            },
            ThreadPhase::Sending(data) => {
                match event {
                    ThreadEvent::Proceed => {
                        next.phase = ThreadPhase::Streaming;
                        next.last_sent = now;
                        next.last_data = Some(data.clone());
                        return (next, Some(data));
                    },
                    _ => {
                        next.phase = ThreadPhase::Sending(data);
                    },
                }
            },
            ThreadPhase::CheckingSocket => {
                next.phase = ThreadPhase::CheckingSocket;
                match event {
                    ThreadEvent::Socket(SocketEvent::Closed)
                    | ThreadEvent::Socket(SocketEvent::Error) => {
                        next.phase = ThreadPhase::Waiting;
                        next.is_connected = false;
                        next.wait_start = now;
                    },
                    ThreadEvent::Socket(SocketEvent::Other)
                    | ThreadEvent::Socket(SocketEvent::Nothing) => {
                        next.phase = ThreadPhase::Streaming;
                    },
                    _ => {},
                }
            },
            ThreadPhase::Waiting => {
                next.phase = ThreadPhase::Waiting;
                match event {
                    ThreadEvent::Proceed => {
                        let waited: u128 = if now >= next.wait_start {
                            now - next.wait_start
                        } else {
                            0
                        };
                        if waited < next.backoff {
                            next.phase = ThreadPhase::Listening;
                        } else {
                            next.phase = ThreadPhase::Starting;
                            next.backoff = if next.backoff <= MAX_BACKOFF / 2 {
                                next.backoff * 2
                            } else {
                                MAX_BACKOFF
                            };
                        }
                    },
                    _ => {},
                }
            },
            ThreadPhase::Listening => {
                next.phase = match event {
                    ThreadEvent::Message(InteractThreadMessage::Stop) | ThreadEvent::SenderGone =>
                        ThreadPhase::Stopped,
                    // Data is dropped while backing off.
                    ThreadEvent::Message(InteractThreadMessage::Data(_))
                    | ThreadEvent::NoMessage => ThreadPhase::Sleeping,
                    _ => ThreadPhase::Listening,
                };
            },
            ThreadPhase::Sleeping => {
                next.phase = match event {
                    ThreadEvent::Proceed => ThreadPhase::Waiting,
                    _ => ThreadPhase::Sleeping,
                };
            },
            ThreadPhase::Stopped => {
                next.phase = ThreadPhase::Stopped;
            },
        }
        (next, None)
    }
}

} // verus!
