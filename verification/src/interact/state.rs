//! Opening and closing the connection, as the user asks for it.
//!
//! A connection is a thread, the sending end of the channel that the thread reads, and a flag that
//! the thread keeps up to date. The first two are opaque here: `J` is what the thread is joined
//! through, `S` the sending end. The flag is read by whoever owns the real one and handed in.
use vstd::prelude::*;

use crate::interact::address::{parse_url, url_parse, AddressError};
use crate::interact::data::{InteractData, InteractThreadMessage};

verus! {

/// The capacity of the channel between the viewer and the streaming thread.
pub const CHANNEL_CAPACITY: usize = 512;

/// Where the connection stands, as the user sees it and asks for it.
#[derive(Debug, Clone, Copy, PartialEq, Eq, Structural)]
pub enum InteractConnectionStatus {
    /// No connection is wanted.
    Disconnected,
    /// A connection is wanted, but not there.
    Connecting,
    /// The connection is there.
    Connected,
}

/// What the user chose.
pub struct InteractOptions {
    /// The URL of the websocket server.
    pub address: String,
    /// Where the connection stands.
    pub connection_status: InteractConnectionStatus,
}

/// The handle to the websocket connection for interaction streaming.
pub struct InteractWsHandle<J, S> {
    /// The thread that holds the connection.
    pub handle: Option<J>,
    /// Where the thread gets its messages from.
    pub tx: S,
    /// What the thread last said of the connection.
    pub is_connected: bool,
}

impl<J, S> InteractWsHandle<J, S> {
    /// The handle of a thread that was just started, or the reason for which it was not.
    pub fn new<E>(spawned: Result<J, E>, tx: S) -> (r: Result<Self, E>)
        ensures
            match spawned {
                Ok(thread) => r == Ok::<Self, E>(
                    InteractWsHandle { handle: Some(thread), tx, is_connected: false },
                ),
                Err(error) => r == Err::<Self, E>(error),
            },
    {
        match spawned {
            Ok(thread) => Ok(
                InteractWsHandle { handle: Some(thread), tx, is_connected: false },
            ),
            Err(error) => Err(error),
        }
    }

    /// The message that passes data on, and where to send it.
    pub fn send(&self, data: InteractData) -> (r: (&S, InteractThreadMessage))
        ensures
            *r.0 == self.tx,
            r.1 == InteractThreadMessage::Data(data),
    {
        (&self.tx, InteractThreadMessage::Data(data))
    }

    /// The message that stops the thread, where to send it, and the thread to wait for afterwards.
    /// Without a thread there is nothing to do.
    pub fn disconnect(self) -> (r: Option<(S, InteractThreadMessage, J)>)
        ensures
            match self.handle {
                Some(thread) => r == Some((self.tx, InteractThreadMessage::Stop, thread)),
                None => r is None,
            },
    {
        match self.handle {
            Some(thread) => Some((self.tx, InteractThreadMessage::Stop, thread)),
            None => None,
        }
    }
}

/// What an update is told.
pub enum UpdateEvent<J, S> {
    /// An update begins, and the current connection's flag reads so.
    Requested { is_connected: bool },
    /// The thread of a new connection was started.
    Opened(InteractWsHandle<J, S>),
    /// Opening and closing is done with, and the current connection's flag reads so.
    Settled { is_connected: bool },
}

/// What an update needs done next.
pub enum UpdateAction<J, S> {
    /// Start a thread that connects to this URL.
    Open(String),
    /// Stop the thread behind this handle.
    Close(InteractWsHandle<J, S>),
    /// Read the flag again and settle.
    Settle,
    /// Nothing more.
    Finish,
}

/// State of the interaction feature.
///
/// If this is `None`, client has not connected to a websocket for
/// interaction streaming.
pub struct InteractState<J, S>(pub Option<InteractWsHandle<J, S>>);

/// A connection, if there is one, after another reading of its flag.
pub open spec fn observed<J, S>(
    current: Option<InteractWsHandle<J, S>>,
    is_connected: bool,
) -> Option<InteractWsHandle<J, S>> {
    match current {
        Some(handle) => Some(InteractWsHandle { is_connected, ..handle }),
        None => None,
    }
}

/// Whether there is a connection and it is up.
pub open spec fn is_up<J, S>(current: Option<InteractWsHandle<J, S>>) -> bool {
    current matches Some(handle) && handle.is_connected
}

/// The status to show: that of the connection, if there is one.
pub open spec fn settled_status<J, S>(
    current: Option<InteractWsHandle<J, S>>,
    status: InteractConnectionStatus,
) -> InteractConnectionStatus {
    match current {
        Some(handle) => if handle.is_connected {
            InteractConnectionStatus::Connected
        } else {
            InteractConnectionStatus::Connecting
        },
        None => status,
    }
}

/// Whether `r` opens a connection to the URL that an address denotes, or fails because it denotes
/// none.
pub open spec fn opens<J, S>(
    parsed: Result<Seq<char>, Seq<char>>,
    r: Result<UpdateAction<J, S>, AddressError>,
) -> bool {
    match (parsed, r) {
        (Ok(url), Ok(UpdateAction::Open(target))) => target@ == url,
        (Err(description), Err(error)) => error.description@ == description,
        _ => false,
    }
}

/// Whether the connection becomes `after`, and `r` is asked for, in order to have the connection
/// that a status wants: a new one is opened where one is wanted and none is up, and one that is up
/// but not wanted is given up.
pub open spec fn ensures_connection<J, S>(
    before: Option<InteractWsHandle<J, S>>,
    status: InteractConnectionStatus,
    parsed: Result<Seq<char>, Seq<char>>,
    after: Option<InteractWsHandle<J, S>>,
    r: Result<UpdateAction<J, S>, AddressError>,
) -> bool {
    let wanted = status != InteractConnectionStatus::Disconnected;
    if wanted && !is_up(before) {
        after == before && opens(parsed, r)
    } else if !wanted && is_up(before) {
        &&& after is None
        &&& r == Ok::<UpdateAction<J, S>, AddressError>(UpdateAction::Close(before->0))
    } else {
        &&& after == before
        &&& r == Ok::<UpdateAction<J, S>, AddressError>(UpdateAction::Settle)
    }
}

/// Whether an event takes the connection and the options from one state to another with the given
/// result.
pub open spec fn is_update<J, S>(
    before: Option<InteractWsHandle<J, S>>,
    options_before: InteractOptions,
    event: UpdateEvent<J, S>,
    after: Option<InteractWsHandle<J, S>>,
    options_after: InteractOptions,
    r: Result<UpdateAction<J, S>, AddressError>,
) -> bool {
    match event {
        UpdateEvent::Requested { is_connected } => {
            &&& options_after == options_before
            &&& ensures_connection(
                observed(before, is_connected),
                options_before.connection_status,
                url_parse(options_before.address@),
                after,
                r,
            )
        },
        UpdateEvent::Opened(handle) => {
            &&& options_after == options_before
            &&& after == Some(handle)
            &&& r == Ok::<UpdateAction<J, S>, AddressError>(UpdateAction::Settle)
        },
        UpdateEvent::Settled { is_connected } => {
            &&& after == observed(before, is_connected)
            &&& options_after.address == options_before.address
            &&& options_after.connection_status == settled_status(
                after,
                options_before.connection_status,
            )
            &&& r == Ok::<UpdateAction<J, S>, AddressError>(UpdateAction::Finish)
        },
    }
}

impl<J, S> InteractState<J, S> {
    /// A state without a connection.
    pub fn new() -> (r: Self)
        ensures
            r.0 is None,
    {
        InteractState(None)
    }

    /// Takes one event of an update, and says what is needed next. An update begins with
    /// `Requested` and goes on for as long as something is asked for.
    pub fn update(&mut self, options: &mut InteractOptions, event: UpdateEvent<J, S>) -> (r: Result<
        UpdateAction<J, S>,
        AddressError,
    >)
        ensures
            is_update(old(self).0, *old(options), event, final(self).0, *final(options), r),
    {
        match event {
            UpdateEvent::Requested { is_connected } => {
                self.observe(is_connected);
                self.ensure_connected(options)
            },
            UpdateEvent::Opened(handle) => {
                self.0 = Some(handle);
                Ok(UpdateAction::Settle)
            },
            UpdateEvent::Settled { is_connected } => {
                self.observe(is_connected);
                self.update_connection_status(options);
                Ok(UpdateAction::Finish)
            },
        }
    }

    /// The message that passes data on, and where to send it, if there is a connection.
    pub fn send(&self, data: InteractData) -> (r: Option<(&S, InteractThreadMessage)>)
        ensures
            match self.0 {
                Some(handle) => r == Some((&handle.tx, InteractThreadMessage::Data(data))),
                None => r is None,
            },
    {
        match &self.0 {
            Some(handle) => Some(handle.send(data)),
            None => None,
        }
    }

    /// Records a reading of the connection's flag.
    pub fn observe(&mut self, is_connected: bool)
        ensures
            final(self).0 == observed(old(self).0, is_connected),
    {
        if let Some(handle) = &mut self.0 {
            handle.is_connected = is_connected;
        }
    }

    /// Shows the state of the connection in the options, if there is a connection.
    pub fn update_connection_status(&self, options: &mut InteractOptions)
        ensures
            final(options).address == old(options).address,
            final(options).connection_status == settled_status(
                self.0,
                old(options).connection_status,
            ),
    {
        if let Some(handle) = &self.0 {
            if handle.is_connected {
                options.connection_status = InteractConnectionStatus::Connected;
            } else {
                options.connection_status = InteractConnectionStatus::Connecting;
            }
        }
    }

    /// Says what is needed to have the connection that the options want. Fails, and changes nothing,
    /// if a new connection is needed and the address is not a URL.
    pub fn ensure_connected(&mut self, options: &InteractOptions) -> (r: Result<
        UpdateAction<J, S>,
        AddressError,
    >)
        ensures
            ensures_connection(
                old(self).0,
                options.connection_status,
                url_parse(options.address@),
                final(self).0,
                r,
            ),
    {
        let wanted = options.connection_status != InteractConnectionStatus::Disconnected;
        if wanted && !self.is_connected() {
            Self::open_step(parse_url(options.address.as_str()))
        } else if !wanted && self.is_connected() {
            match self.0.take() {
                Some(handle) => Ok(UpdateAction::Close(handle)),
                None => Ok(UpdateAction::Settle),
            }
        } else {
            Ok(UpdateAction::Settle)
        }
    }

    /// What a new connection takes, from what parsing the address came to: a thread that connects to
    /// the URL, or nothing, because there is no URL to connect to.
    pub fn open_step(parsed: Result<String, String>) -> (r: Result<
        UpdateAction<J, S>,
        AddressError,
    >)
        ensures
            match parsed {
                Ok(url) => r == Ok::<UpdateAction<J, S>, AddressError>(UpdateAction::Open(url)),
                Err(description) => r == Err::<UpdateAction<J, S>, AddressError>(
                    AddressError { description },
                ),
            },
    {
        match parsed {
            Ok(url) => Ok(UpdateAction::Open(url)),
            Err(description) => Err(AddressError { description }),
        }
    }

    /// Whether there is a connection and it is up.
    pub fn is_connected(&self) -> (r: bool)
        ensures
            r == is_up(self.0),
    {
        match &self.0 {
            Some(handle) => handle.is_connected,
            None => false,
        }
    }
}

impl<J, S> Default for InteractState<J, S> {
    fn default() -> (r: Self)
        ensures
            r.0 is None,
    {
        InteractState::new()
    }
}

} // verus!
