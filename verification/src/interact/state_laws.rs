//! What holds of whole updates of the connection.
use vstd::prelude::*;

use crate::interact::address::{url_parse, AddressError};
use crate::interact::data::{InteractData, InteractThreadMessage};
use crate::interact::state::{
    is_up, is_update, observed, opens, InteractConnectionStatus, InteractOptions, InteractState,
    InteractWsHandle, UpdateAction, UpdateEvent,
};
use crate::interact::ws_thread::{InteractWsThread, ThreadEvent, ThreadRequest};

verus! {

/// The connection, if there is one, and the options.
pub struct Setup<J, S> {
    pub current: Option<InteractWsHandle<J, S>>,
    pub options: InteractOptions,
}

/// Whether an event takes one setup to another with the given result.
pub open spec fn moves<J, S>(
    before: Setup<J, S>,
    event: UpdateEvent<J, S>,
    after: Setup<J, S>,
    r: Result<UpdateAction<J, S>, AddressError>,
) -> bool {
    is_update(before.current, before.options, event, after.current, after.options, r)
}

/// Where a connection is wanted and none is up, an update asks for a thread that connects to the
/// configured URL. The thread that is then started replaces whatever connection there was, and the
/// options show whether it is up yet.
pub proof fn law_a_wanted_connection_is_opened<J, S>(
    first: Setup<J, S>,
    second: Setup<J, S>,
    third: Setup<J, S>,
    last: Setup<J, S>,
    was_up: bool,
    opened: InteractWsHandle<J, S>,
    now_up: bool,
    r1: Result<UpdateAction<J, S>, AddressError>,
    r2: Result<UpdateAction<J, S>, AddressError>,
    r3: Result<UpdateAction<J, S>, AddressError>,
)
    requires
        first.options.connection_status != InteractConnectionStatus::Disconnected,
        first.current is None || !was_up,
        url_parse(first.options.address@) is Ok,
        moves(first, UpdateEvent::Requested { is_connected: was_up }, second, r1),
        moves(second, UpdateEvent::Opened(opened), third, r2),
        moves(third, UpdateEvent::Settled { is_connected: now_up }, last, r3),
    ensures
        r1 matches Ok(UpdateAction::Open(url)) && url@ == url_parse(first.options.address@)->Ok_0,
        second.options == first.options,
        second.current is Some <==> first.current is Some,
        first.current matches Some(handle) ==> second.current == Some(
            InteractWsHandle { is_connected: was_up, ..handle },
        ),
        r2 == Ok::<UpdateAction<J, S>, AddressError>(UpdateAction::Settle),
        r3 == Ok::<UpdateAction<J, S>, AddressError>(UpdateAction::Finish),
        last.current == Some(InteractWsHandle { is_connected: now_up, ..opened }),
        last.options.address == first.options.address,
        last.options.connection_status == if now_up {
            InteractConnectionStatus::Connected
        } else {
            InteractConnectionStatus::Connecting
        },
{
}

/// A step of an update fails exactly if it needs a new connection and the address is not a URL. It
/// then keeps the connection, with the reading of its flag, and the options. A whole update also ends early where the
/// thread that a step asks for cannot be started: no further step follows then.
pub proof fn law_only_a_bad_address_fails<J, S>(
    before: Setup<J, S>,
    event: UpdateEvent<J, S>,
    after: Setup<J, S>,
    r: Result<UpdateAction<J, S>, AddressError>,
)
    requires
        moves(before, event, after, r),
    ensures
        r is Err <==> {
            &&& event matches UpdateEvent::Requested { is_connected }
            &&& before.options.connection_status != InteractConnectionStatus::Disconnected
            &&& before.current is None || !is_connected
            &&& url_parse(before.options.address@) is Err
        },
        r matches Err(error) ==> {
            &&& after.options == before.options
            &&& after.current is Some <==> before.current is Some
            &&& before.current matches Some(handle) ==> after.current == Some(
                InteractWsHandle { is_connected: event->Requested_is_connected, ..handle },
            )
            &&& error.description@ == url_parse(before.options.address@)->Err_0
        },
{
    if let UpdateEvent::Requested { is_connected } = event {
        if before.options.connection_status != InteractConnectionStatus::Disconnected && !is_up(
            observed(before.current, is_connected),
        ) {
            assert(opens(url_parse(before.options.address@), r));
        }
    }
}

/// Where no connection is wanted and one is up, an update hands out that very connection to be
/// closed, keeps none and stays disconnected.
pub proof fn law_an_unwanted_connection_is_closed<J, S>(
    first: Setup<J, S>,
    second: Setup<J, S>,
    last: Setup<J, S>,
    handle: InteractWsHandle<J, S>,
    reading: bool,
    r1: Result<UpdateAction<J, S>, AddressError>,
    r2: Result<UpdateAction<J, S>, AddressError>,
)
    requires
        first.options.connection_status == InteractConnectionStatus::Disconnected,
        first.current == Some(handle),
        moves(first, UpdateEvent::Requested { is_connected: true }, second, r1),
        moves(second, UpdateEvent::Settled { is_connected: reading }, last, r2),
    ensures
        r1 == Ok::<UpdateAction<J, S>, AddressError>(
            UpdateAction::Close(InteractWsHandle { is_connected: true, ..handle }),
        ),
        r2 == Ok::<UpdateAction<J, S>, AddressError>(UpdateAction::Finish),
        last.current is None,
        last.options == first.options,
{
}

/// An update that finds what is wanted, or has nothing to close, keeps the connection and only
/// refreshes the status: one that is not up yet is kept though it is no longer wanted, and shows as
/// connecting again.
pub proof fn law_other_updates_only_refresh_the_status<J, S>(
    first: Setup<J, S>,
    second: Setup<J, S>,
    last: Setup<J, S>,
    was_up: bool,
    now_up: bool,
    r1: Result<UpdateAction<J, S>, AddressError>,
    r2: Result<UpdateAction<J, S>, AddressError>,
)
    requires
        (first.current is Some && was_up) == (first.options.connection_status
            != InteractConnectionStatus::Disconnected),
        moves(first, UpdateEvent::Requested { is_connected: was_up }, second, r1),
        moves(second, UpdateEvent::Settled { is_connected: now_up }, last, r2),
    ensures
        r1 == Ok::<UpdateAction<J, S>, AddressError>(UpdateAction::Settle),
        r2 == Ok::<UpdateAction<J, S>, AddressError>(UpdateAction::Finish),
        first.current matches Some(handle) ==> last.current == Some(
            InteractWsHandle { is_connected: now_up, ..handle },
        ),
        first.current is None ==> last.current is None,
        last.options.address == first.options.address,
        first.current is None ==> last.options == first.options,
        first.current is Some ==> last.options.connection_status == if now_up {
            InteractConnectionStatus::Connected
        } else {
            InteractConnectionStatus::Connecting
        },
{
}

/// Once an update has settled with a connection, the status is `Connected` exactly if the connection
/// is up, and never `Disconnected`. Without a connection the status is left as the user set it.
pub proof fn law_the_status_is_truthful<J, S>(
    before: Setup<J, S>,
    after: Setup<J, S>,
    reading: bool,
    r: Result<UpdateAction<J, S>, AddressError>,
)
    requires
        moves(before, UpdateEvent::Settled { is_connected: reading }, after, r),
    ensures
        after.current is Some ==> (after.options.connection_status
            == InteractConnectionStatus::Connected <==> reading),
        before.current matches Some(handle) ==> after.current == Some(
            InteractWsHandle { is_connected: reading, ..handle },
        ),
        before.current is None ==> after.current is None,
        after.options.address == before.options.address,
        after.current is Some ==> after.options.connection_status
            != InteractConnectionStatus::Disconnected,
        after.current is None ==> after.options.connection_status
            == before.options.connection_status,
{
}

/// An update moves the connection and the options as the laws say.
pub proof fn law_updates_move_the_setup<J, S>(
    state: &mut InteractState<J, S>,
    options: &mut InteractOptions,
    event: UpdateEvent<J, S>,
    r: Result<UpdateAction<J, S>, AddressError>,
)
    requires
        InteractState::<J, S>::update.ensures((state, options, event), r),
    ensures
        moves(
            Setup { current: old(state).0, options: *old(options) },
            event,
            Setup { current: final(state).0, options: *final(options) },
            r,
        ),
{
}

/// A reading of the flag goes to the connection, if there is one, and changes nothing else of it.
pub proof fn law_a_reading_is_recorded<J, S>(state: &mut InteractState<J, S>, reading: bool)
    requires
        InteractState::<J, S>::observe.ensures((state, reading), ()),
    ensures
        old(state).0 is None ==> final(state).0 is None,
        old(state).0 matches Some(handle) ==> final(state).0 == Some(
            InteractWsHandle { is_connected: reading, ..handle },
        ),
{
}

/// The status that is shown is that of the connection, if there is one: up or still connecting.
pub proof fn law_the_connection_is_shown<J, S>(
    state: InteractState<J, S>,
    options: &mut InteractOptions,
)
    requires
        InteractState::<J, S>::update_connection_status.ensures((&state, options), ()),
    ensures
        final(options).address == old(options).address,
        state.0 is None ==> final(options).connection_status == old(options).connection_status,
        state.0 matches Some(handle) && handle.is_connected ==> final(options).connection_status
            == InteractConnectionStatus::Connected,
        state.0 matches Some(handle) && !handle.is_connected ==> final(options).connection_status
            == InteractConnectionStatus::Connecting,
{
}

/// What is asked for is what brings the connection in line with the options: one that is wanted and not
/// up is opened at the URL of the address, one that is up and not wanted is given up to be closed, and
/// in every other case the connection stays.
pub proof fn law_the_connection_follows_the_options<J, S>(
    state: &mut InteractState<J, S>,
    options: InteractOptions,
    r: Result<UpdateAction<J, S>, AddressError>,
)
    requires
        InteractState::<J, S>::ensure_connected.ensures((state, &options), r),
    ensures
        ({
            let up = old(state).0 matches Some(handle) && handle.is_connected;
            let parsed = url_parse(options.address@);
            match options.connection_status {
                InteractConnectionStatus::Disconnected => if up {
                    &&& final(state).0 is None
                    &&& r matches Ok(UpdateAction::Close(closed)) && closed == old(state).0->0
                } else {
                    &&& final(state).0 == old(state).0
                    &&& r matches Ok(UpdateAction::Settle)
                },
                _ => if up {
                    &&& final(state).0 == old(state).0
                    &&& r matches Ok(UpdateAction::Settle)
                } else {
                    &&& final(state).0 == old(state).0
                    &&& parsed matches Ok(url) ==> (r matches Ok(UpdateAction::Open(target))
                        && target@ == url)
                    &&& parsed matches Err(reason) ==> (r matches Err(error)
                        && error.description@ == reason)
                },
            }
        }),
{
}

/// A connection that was opened becomes the current one, and the options stay.
pub proof fn law_an_opened_connection_is_kept<J, S>(
    before: Setup<J, S>,
    opened: InteractWsHandle<J, S>,
    after: Setup<J, S>,
    r: Result<UpdateAction<J, S>, AddressError>,
)
    requires
        moves(before, UpdateEvent::Opened(opened), after, r),
    ensures
        after.current == Some(opened),
        after.options == before.options,
        r == Ok::<UpdateAction<J, S>, AddressError>(UpdateAction::Settle),
{
}

/// A connection counts as up exactly if there is one and its flag says so.
pub proof fn law_a_connection_is_up_by_its_flag<J, S>(state: InteractState<J, S>, r: bool)
    requires
        InteractState::<J, S>::is_connected.ensures((&state,), r),
    ensures
        state.0 is None ==> !r,
        state.0 matches Some(handle) ==> r == handle.is_connected,
{
}

/// Data goes to the channel of the connection as it is, so that a connected thread that reads it
/// there gets that very data; without a connection it goes nowhere.
pub proof fn law_data_reaches_the_thread_as_it_is<J, S>(
    state: InteractState<J, S>,
    data: InteractData,
    r: Option<(&S, InteractThreadMessage)>,
)
    requires
        InteractState::<J, S>::send.ensures((&state, data), r),
    ensures
        r is Some <==> state.0 is Some,
        r matches Some((channel, message)) ==> {
            &&& *channel == state.0->0.tx
            &&& message == InteractThreadMessage::Data(data)
        },
{
}

/// Closing a connection tells its thread to stop through the channel that the thread reads, and hands
/// out that thread to wait for. A thread that reads the message ends.
pub proof fn law_closing_stops_the_thread<J, S>(
    handle: InteractWsHandle<J, S>,
    r: Option<(S, InteractThreadMessage, J)>,
    thread: InteractWsThread,
    now: u128,
)
    requires
        InteractWsHandle::<J, S>::disconnect.ensures((handle,), r),
        thread.spec_request() is PollMessage || thread.spec_request() is AwaitMessage,
    ensures
        r is Some <==> handle.handle is Some,
        r matches Some((channel, message, joined)) ==> {
            &&& channel == handle.tx
            &&& joined == handle.handle->0
            &&& thread.spec_step(ThreadEvent::Message(message), now).0.spec_request()
                == ThreadRequest::Exit
        },
{
}

/// A thread that was started gets a handle that is not up yet, with the thread and its channel; one
/// that was not leaves the reason.
pub proof fn law_a_started_thread_gets_a_handle<J, S, E>(
    spawned: Result<J, E>,
    tx: S,
    r: Result<InteractWsHandle<J, S>, E>,
)
    requires
        InteractWsHandle::<J, S>::new::<E>.ensures((spawned, tx), r),
    ensures
        spawned matches Ok(thread) ==> (r matches Ok(handle) && {
            &&& handle.handle == Some(thread)
            &&& handle.tx == tx
            &&& !handle.is_connected
        }),
        spawned matches Err(reason) ==> (r matches Err(error) && error == reason),
{
}

/// A parsed address is opened as it is, and a failure to parse is passed on as it is.
pub proof fn law_a_parsed_address_is_passed_on<J, S>(
    parsed: Result<String, String>,
    r: Result<UpdateAction<J, S>, AddressError>,
)
    requires
        InteractState::<J, S>::open_step.ensures((parsed,), r),
    ensures
        parsed matches Ok(url) ==> (r matches Ok(UpdateAction::Open(target)) && target@ == url@),
        parsed matches Err(reason) ==> (r matches Err(error) && error.description@ == reason@),
{
}

} // verus!
