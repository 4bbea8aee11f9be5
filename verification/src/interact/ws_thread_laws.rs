//! What holds of the websocket thread over whole runs.
use vstd::arithmetic::power2::{lemma_pow2_pos, lemma_pow2_unfold, pow2};
use vstd::prelude::*;

use crate::interact::data::{same_data, InteractData, InteractThreadMessage};
use crate::interact::data_laws::{equal_in_every_part, law_recordings_are_compared_by_every_part};
use crate::interact::ws_thread::{
    InteractWsThread, SocketEvent, ThreadEvent, ThreadPhase, ThreadRequest, INITIAL_BACKOFF,
    MAX_BACKOFF, MAX_SEND_RATE,
};

verus! {

/// Data that left through the websocket, and when.
pub struct Transmission {
    pub data: InteractData,
    pub at: u128,
}

/// An event and the clock reading that came with it.
pub type Input = (ThreadEvent, u128);

/// The state after a sequence of inputs, and everything that was transmitted on the way.
pub open spec fn run(start: InteractWsThread, inputs: Seq<Input>) -> (
    InteractWsThread,
    Seq<Transmission>,
)
    decreases inputs.len(),
{
    if inputs.len() == 0 {
        (start, Seq::empty())
    } else {
        let (state, sent) = run(start, inputs.drop_last());
        let (event, now) = inputs.last();
        let (next, out) = state.spec_step(event, now);
        match out {
            Some(data) => (next, sent.push(Transmission { data, at: now })),
            None => (next, sent),
        }
    }
}

/// Clock readings that never go back, from the given one on.
pub open spec fn chronological(start: u128, inputs: Seq<Input>) -> bool {
    &&& forall|i: int| 0 <= i < inputs.len() ==> start <= (#[trigger] inputs[i]).1
    &&& forall|i: int, j: int|
        0 <= i <= j < inputs.len() ==> (#[trigger] inputs[i]).1 <= (#[trigger] inputs[j]).1
}

/// One second, in nanoseconds.
pub open spec fn second() -> int {
    1_000_000_000
}

/// A tenth of a second, in nanoseconds: the least time between two transmissions, and how long the
/// thread waits for a message, or sleeps, at a time.
pub open spec fn tenth() -> int {
    100_000_000
}

/// Whether the thread takes a message from its channel when it gets what it asks for.
pub open spec fn reads(request: ThreadRequest) -> bool {
    request is PollMessage || request is AwaitMessage
}

/// What the thread finds in its channel that tells it to end.
pub open spec fn tells_to_end(event: ThreadEvent) -> bool {
    event == ThreadEvent::Message(InteractThreadMessage::Stop) || event is SenderGone
}

/// What the thread finds in its channel that lets it go on.
pub open spec fn lets_go_on(event: ThreadEvent) -> bool {
    event is NoMessage || exists|data: InteractData|
        event == ThreadEvent::Message(InteractThreadMessage::Data(data))
}

/// Whether an event is an outcome of a request.
pub open spec fn answers(request: ThreadRequest, event: ThreadEvent) -> bool {
    match request {
        ThreadRequest::PollMessage | ThreadRequest::AwaitMessage(_) => {
            tells_to_end(event) || lets_go_on(event)
        },
        ThreadRequest::Connect => event is Connected || event is ConnectFailed,
        ThreadRequest::PollSocket => event is Socket,
        ThreadRequest::Sleep(_) | ThreadRequest::Continue => event is Proceed,
        ThreadRequest::Exit => false,
    }
}

/// Whether an event makes a connection.
pub open spec fn connects(state: InteractWsThread, event: ThreadEvent) -> bool {
    state.spec_request() is Connect && event is Connected
}

/// Whether an event loses the connection: the websocket turns out to be closed or broken, or cannot be
/// opened.
pub open spec fn loses(state: InteractWsThread, event: ThreadEvent) -> bool {
    ||| state.spec_request() is PollSocket && (event == ThreadEvent::Socket(SocketEvent::Closed)
        || event == ThreadEvent::Socket(SocketEvent::Error))
    ||| state.spec_request() is Connect && event is ConnectFailed
}

/// The running thread does what the laws say of its states: it begins, asks and goes on like that.
pub proof fn law_the_thread_runs_by_its_states(
    now: u128,
    begun: InteractWsThread,
    state: InteractWsThread,
    request: ThreadRequest,
    event: ThreadEvent,
    next: (InteractWsThread, Option<InteractData>),
)
    requires
        InteractWsThread::new.ensures((now,), begun),
        InteractWsThread::request.ensures((&state,), request),
        InteractWsThread::step.ensures((state, event, now), next),
    ensures
        begun == InteractWsThread::spec_new(now),
        request == state.spec_request(),
        next == state.spec_step(event, now),
{
}

/// A thread begins without a connection and with the shortest backoff, looks for a message first, and
/// then tries to connect.
pub proof fn law_a_thread_begins_by_connecting(begun: u128, event: ThreadEvent, now: u128)
    ensures
        ({
            let start = InteractWsThread::spec_new(begun);
            &&& !start.is_connected
            &&& start.backoff == second()
            &&& start.spec_request() == ThreadRequest::PollMessage
            &&& lets_go_on(event) ==> start.spec_step(event, now).0.spec_request()
                == ThreadRequest::Connect
        }),
{
}

/// What is not an outcome of what the thread asks for changes nothing.
pub proof fn law_events_out_of_turn_change_nothing(
    state: InteractWsThread,
    event: ThreadEvent,
    now: u128,
)
    requires
        !answers(state.spec_request(), event),
    ensures
        state.spec_step(event, now) == (state, None::<InteractData>),
{
    assert forall|message: InteractThreadMessage|
        event == ThreadEvent::Message(message) implies tells_to_end(event) || lets_go_on(event) by {
        match message {
            InteractThreadMessage::Data(data) => {
                assert(event == ThreadEvent::Message(InteractThreadMessage::Data(data)));
            },
            InteractThreadMessage::Stop => {},
        }
    }
}

/// Whether the connection is there after some inputs: the last of those that made or lost one made it.
pub open spec fn is_up_after(start: InteractWsThread, inputs: Seq<Input>) -> bool
    decreases inputs.len(),
{
    if inputs.len() == 0 {
        false
    } else {
        let before = run(start, inputs.drop_last()).0;
        let event = inputs.last().0;
        if connects(before, event) {
            true
        } else if loses(before, event) {
            false
        } else {
            is_up_after(start, inputs.drop_last())
        }
    }
}

/// The connection flag is truthful: it says at any time whether the connection is there. As long as it
/// is, the thread waits for messages for a tenth of a second at a time, looks at the websocket or is
/// about to transmit.
pub proof fn law_the_flag_tells_of_the_connection(begun: u128, inputs: Seq<Input>)
    ensures
        ({
            let start = InteractWsThread::spec_new(begun);
            let state = run(start, inputs).0;
            &&& state.is_connected == is_up_after(start, inputs)
            &&& state.spec_request() != ThreadRequest::Exit ==> (state.is_connected <==> {
                ||| state.spec_request() is AwaitMessage
                ||| state.spec_request() is PollSocket
                ||| state.phase is Sending
            })
        }),
    decreases inputs.len(),
{
    if inputs.len() > 0 {
        law_the_flag_tells_of_the_connection(begun, inputs.drop_last());
        law_reachable_states_are_well_formed(begun, inputs.drop_last());
    }
}

/// An attempt to connect that succeeds opens the connection and brings the backoff back to a second;
/// the thread then waits for messages, at once or after transmitting what was queued. One that fails
/// leaves everything but the wait as it was.
pub proof fn law_an_attempt_to_connect_succeeds_or_fails(
    state: InteractWsThread,
    now: u128,
    later: u128,
)
    requires
        state.spec_request() is Connect,
    ensures
        ({
            let (open, early) = state.spec_step(ThreadEvent::Connected, now);
            let (settled, out) = open.spec_step(ThreadEvent::Proceed, later);
            let (failed, none) = state.spec_step(ThreadEvent::ConnectFailed, now);
            &&& early is None
            &&& open.is_connected && open.backoff == second()
            &&& settled.is_connected && settled.backoff == second()
            &&& open.spec_request() == ThreadRequest::AwaitMessage(tenth() as u128)
                || open.spec_request() == ThreadRequest::Continue
            &&& settled.spec_request() == ThreadRequest::AwaitMessage(tenth() as u128)
            &&& open.last_data == state.last_data && open.last_sent == state.last_sent
            &&& none is None
            &&& failed.spec_request() == ThreadRequest::Continue
            &&& !failed.is_connected
            &&& failed.backoff == state.backoff
            &&& failed.last_data == state.last_data && failed.last_sent == state.last_sent
        }),
{
}

/// A connection is watched: whenever no message comes for a tenth of a second, the thread looks at the
/// websocket. If that is closed or broken, the connection is given up at once; if not, the thread goes
/// on as if it had not looked.
pub proof fn law_a_connection_is_watched(
    state: InteractWsThread,
    found: SocketEvent,
    quiet: u128,
    looked: u128,
)
    requires
        state.spec_request() is AwaitMessage,
    ensures
        ({
            let (looking, none) = state.spec_step(ThreadEvent::NoMessage, quiet);
            let (next, out) = looking.spec_step(ThreadEvent::Socket(found), looked);
            &&& state.spec_request() == ThreadRequest::AwaitMessage(tenth() as u128)
            &&& looking.spec_request() == ThreadRequest::PollSocket
            &&& looking.is_connected == state.is_connected
            &&& none is None && out is None
            &&& if found == SocketEvent::Closed || found == SocketEvent::Error {
                &&& !next.is_connected
                &&& next.spec_request() == ThreadRequest::Continue
                &&& next.backoff == state.backoff
                &&& next.last_data == state.last_data && next.last_sent == state.last_sent
            } else {
                next == state
            }
        }),
{
}

/// While the backoff has not passed, the thread looks for a stop message every tenth of a second, and
/// is otherwise where it was: what else arrives is dropped.
pub proof fn law_a_wait_is_spent_looking_for_a_stop(
    state: InteractWsThread,
    event: ThreadEvent,
    compared: u128,
    polled: u128,
    slept: u128,
)
    requires
        state.phase is Waiting,
        compared - state.wait_start < state.backoff,
        state.backoff > 0,
        lets_go_on(event),
    ensures
        ({
            let (listening, first) = state.spec_step(ThreadEvent::Proceed, compared);
            let (sleeping, second) = listening.spec_step(event, polled);
            let (next, third) = sleeping.spec_step(ThreadEvent::Proceed, slept);
            &&& state.spec_request() == ThreadRequest::Continue
            &&& listening.spec_request() == ThreadRequest::PollMessage
            &&& sleeping.spec_request() == ThreadRequest::Sleep(tenth() as u128)
            &&& next == state
            &&& first is None && second is None && third is None
        }),
{
}

/// The backoff stays between its bounds, and the connection flag is truthful for as long as the
/// thread runs, in every state that the thread reaches.
pub proof fn law_reachable_states_are_well_formed(begun: u128, inputs: Seq<Input>)
    ensures
        run(InteractWsThread::spec_new(begun), inputs).0.wf(),
        second() <= run(InteractWsThread::spec_new(begun), inputs).0.backoff <= 30 * second(),
    decreases inputs.len(),
{
    if inputs.len() > 0 {
        law_reachable_states_are_well_formed(begun, inputs.drop_last());
    }
}

/// A stop message, or the loss of the last sender, ends the thread at the next look at the channel,
/// whether it is about to connect, streaming or backing off, and nothing more is transmitted.
pub proof fn law_stop_is_obeyed(state: InteractWsThread, event: ThreadEvent, now: u128)
    requires
        reads(state.spec_request()),
        tells_to_end(event),
    ensures
        state.spec_step(event, now) == (
            InteractWsThread { phase: ThreadPhase::Stopped, ..state },
            None::<InteractData>,
        ),
        state.spec_step(event, now).0.spec_request() == ThreadRequest::Exit,
{
}

/// Nothing but a stop message or the loss of the last sender ends the thread.
pub proof fn law_only_a_stop_ends_the_thread(state: InteractWsThread, event: ThreadEvent, now: u128)
    requires
        state.spec_request() != ThreadRequest::Exit,
        state.spec_step(event, now).0.spec_request() == ThreadRequest::Exit,
    ensures
        reads(state.spec_request()),
        tells_to_end(event),
{
}

/// A thread that has ended neither changes nor transmits, whatever happens.
pub proof fn law_the_end_is_final(state: InteractWsThread, inputs: Seq<Input>)
    requires
        state.spec_request() == ThreadRequest::Exit,
    ensures
        run(state, inputs) == (state, Seq::<Transmission>::empty()),
    decreases inputs.len(),
{
    if inputs.len() > 0 {
        law_the_end_is_final(state, inputs.drop_last());
    }
}

/// Data that arrives while connected is transmitted as it is, and nothing else with it, unless it
/// comes too soon or repeats what was transmitted last: then it is dropped without a trace.
pub proof fn law_data_is_transmitted_or_dropped(
    state: InteractWsThread,
    data: InteractData,
    received: u128,
    sent: u128,
)
    requires
        state.spec_request() is AwaitMessage,
    ensures
        ({
            let message = ThreadEvent::Message(InteractThreadMessage::Data(data));
            let (taken, early) = state.spec_step(message, received);
            let (next, out) = taken.spec_step(ThreadEvent::Proceed, sent);
            &&& early is None
            &&& if received - state.last_sent >= tenth() && !(state.last_data matches Some(last)
                && equal_in_every_part(last, data)) {
                &&& out == Some(data)
                &&& next == InteractWsThread {
                    last_data: Some(data),
                    last_sent: sent,
                    ..state
                }
            } else {
                taken == state
            }
        }),
{
    if let Some(last) = state.last_data {
        law_recordings_are_compared_by_every_part(last, data);
    }
}

/// Data that is queued before a connection is made is handled once it is there: transmitted as it
/// is, unless it comes too soon after, or repeats, what was transmitted before. A failure to connect
/// loses it, and until the attempt is over nothing else does.
pub proof fn law_queued_data_is_handled_once_connected(
    state: InteractWsThread,
    data: InteractData,
    taken: u128,
    connected: u128,
    sent: u128,
)
    requires
        state.phase is Starting,
    ensures
        ({
            let message = ThreadEvent::Message(InteractThreadMessage::Data(data));
            let (connecting, early) = state.spec_step(message, taken);
            let (open, none) = connecting.spec_step(ThreadEvent::Connected, connected);
            let (next, out) = open.spec_step(ThreadEvent::Proceed, sent);
            &&& connecting.spec_request() == ThreadRequest::Connect
            &&& early is None && none is None
            &&& open.is_connected
            &&& if connected - state.last_sent >= tenth() && !(state.last_data matches Some(last)
                && equal_in_every_part(last, data)) {
                &&& out == Some(data)
                &&& next == InteractWsThread {
                    phase: ThreadPhase::Streaming,
                    is_connected: true,
                    backoff: INITIAL_BACKOFF,
                    last_data: Some(data),
                    last_sent: sent,
                    ..state
                }
            } else {
                open == InteractWsThread {
                    phase: ThreadPhase::Streaming,
                    is_connected: true,
                    backoff: INITIAL_BACKOFF,
                    ..state
                }
            }
            &&& connecting.spec_step(ThreadEvent::ConnectFailed, connected).0 == InteractWsThread {
                phase: ThreadPhase::Waiting,
                is_connected: false,
                wait_start: connected,
                ..state
            }
            &&& forall|event: ThreadEvent, now: u128|
                !(event is Connected || event is ConnectFailed) ==> #[trigger] connecting.spec_step(
                    event,
                    now,
                ) == (connecting, None::<InteractData>)
        }),
{
    if let Some(last) = state.last_data {
        law_recordings_are_compared_by_every_part(last, data);
    }
}

/// The thread remembers what it transmitted last, and when, or else when it began.
proof fn last_transmission_is_remembered(begun: u128, inputs: Seq<Input>)
    ensures
        ({
            let (state, sent) = run(InteractWsThread::spec_new(begun), inputs);
            &&& state.last_sent == if sent.len() == 0 {
                begun
            } else {
                sent.last().at
            }
            &&& state.last_data == if sent.len() == 0 {
                None
            } else {
                Some(sent.last().data)
            }
        }),
    decreases inputs.len(),
{
    if inputs.len() > 0 {
        last_transmission_is_remembered(begun, inputs.drop_last());
    }
}

/// Whether data that arrives at the given time goes out, after what was transmitted so far by a thread
/// that began at the given time: a tenth of a second has passed, and the data differs from what was
/// transmitted last in some part.
pub open spec fn goes_out(
    begun: u128,
    sent: Seq<Transmission>,
    data: InteractData,
    arrived: u128,
) -> bool {
    if sent.len() == 0 {
        arrived - begun >= tenth()
    } else {
        &&& arrived - sent.last().at >= tenth()
        &&& !equal_in_every_part(sent.last().data, data)
    }
}

/// Every new viewpoint is streamed: while connected, data that comes at least a tenth of a second after
/// the last transmission and differs from it in any part is transmitted as it is. What comes sooner, or
/// is the same in every part, changes nothing at all.
pub proof fn law_new_viewpoints_are_streamed(
    begun: u128,
    inputs: Seq<Input>,
    data: InteractData,
    arrived: u128,
    at: u128,
)
    requires
        run(InteractWsThread::spec_new(begun), inputs).0.spec_request() is AwaitMessage,
    ensures
        ({
            let start = InteractWsThread::spec_new(begun);
            let (state, sent) = run(start, inputs);
            let message = ThreadEvent::Message(InteractThreadMessage::Data(data));
            let after = run(
                start,
                inputs.push((message, arrived)).push((ThreadEvent::Proceed, at)),
            );
            if goes_out(begun, sent, data, arrived) {
                &&& after.1 == sent.push(Transmission { data, at })
                &&& after.0.spec_request() == state.spec_request()
            } else {
                after == (state, sent)
            }
        }),
{
    let start = InteractWsThread::spec_new(begun);
    let message = ThreadEvent::Message(InteractThreadMessage::Data(data));
    let one = inputs.push((message, arrived));
    let two = one.push((ThreadEvent::Proceed, at));
    assert(one.drop_last() =~= inputs);
    assert(two.drop_last() =~= one);
    last_transmission_is_remembered(begun, inputs);
    let sent = run(start, inputs).1;
    if sent.len() > 0 {
        law_recordings_are_compared_by_every_part(sent.last().data, data);
    }
    assert(run(start, one) == (run(start, inputs).0.spec_step(message, arrived).0, sent));
}

/// Data that is queued when the thread is about to connect goes out under the same conditions once the
/// connection is there, before anything else.
pub proof fn law_queued_viewpoints_are_streamed(
    begun: u128,
    inputs: Seq<Input>,
    data: InteractData,
    taken: u128,
    connected: u128,
    at: u128,
)
    requires
        run(InteractWsThread::spec_new(begun), inputs).0.phase is Starting,
    ensures
        ({
            let start = InteractWsThread::spec_new(begun);
            let sent = run(start, inputs).1;
            let message = ThreadEvent::Message(InteractThreadMessage::Data(data));
            let after = run(
                start,
                inputs.push((message, taken)).push((ThreadEvent::Connected, connected)).push(
                    (ThreadEvent::Proceed, at),
                ),
            );
            &&& after.0.is_connected
            &&& after.0.spec_request() is AwaitMessage
            &&& after.1 == if goes_out(begun, sent, data, connected) {
                sent.push(Transmission { data, at })
            } else {
                sent
            }
        }),
{
    let start = InteractWsThread::spec_new(begun);
    let (state, sent) = run(start, inputs);
    let message = ThreadEvent::Message(InteractThreadMessage::Data(data));
    let one = inputs.push((message, taken));
    let two = one.push((ThreadEvent::Connected, connected));
    let three = two.push((ThreadEvent::Proceed, at));
    assert(one.drop_last() =~= inputs);
    assert(two.drop_last() =~= one);
    assert(three.drop_last() =~= two);
    last_transmission_is_remembered(begun, inputs);
    if sent.len() > 0 {
        law_recordings_are_compared_by_every_part(sent.last().data, data);
    }
    let connecting = state.spec_step(message, taken).0;
    assert(run(start, one) == (connecting, sent));
    assert(run(start, two) == (connecting.spec_step(ThreadEvent::Connected, connected).0, sent));
}

/// Data is never sent too frequently: the first transmission comes at least the send interval after
/// the thread began, and every other one at least that long after the one before it, across
/// reconnections too.
pub proof fn law_transmissions_are_spaced(begun: u128, inputs: Seq<Input>)
    requires
        chronological(begun, inputs),
    ensures
        ({
            let sent = run(InteractWsThread::spec_new(begun), inputs).1;
            &&& sent.len() > 0 ==> sent[0].at - begun >= tenth()
            &&& forall|i: int|
                0 <= i < sent.len() - 1 ==> (#[trigger] sent[i + 1]).at - sent[i].at >= tenth()
        }),
{
    spacing_invariant(begun, inputs);
}

/// The induction behind the spacing of transmissions.
proof fn spacing_invariant(begun: u128, inputs: Seq<Input>)
    requires
        chronological(begun, inputs),
    ensures
        ({
            let (state, sent) = run(InteractWsThread::spec_new(begun), inputs);
            let now = if inputs.len() == 0 {
                begun
            } else {
                inputs.last().1
            };
            &&& state.last_sent == if sent.len() == 0 {
                begun
            } else {
                sent.last().at
            }
            &&& state.last_sent <= now
            &&& state.phase is Sending ==> now - state.last_sent >= MAX_SEND_RATE
            &&& sent.len() > 0 ==> sent[0].at - begun >= MAX_SEND_RATE
            &&& forall|i: int|
                0 <= i < sent.len() - 1 ==> (#[trigger] sent[i + 1]).at - sent[i].at
                    >= MAX_SEND_RATE
        }),
    decreases inputs.len(),
{
    if inputs.len() > 0 {
        let before = inputs.drop_last();
        assert forall|i: int| 0 <= i < before.len() implies begun <= (#[trigger] before[i]).1 by {
            assert(inputs[i] == before[i]);
        }
        assert forall|i: int, j: int| 0 <= i <= j < before.len() implies (
        #[trigger] before[i]).1 <= (#[trigger] before[j]).1 by {
            assert(inputs[i] == before[i] && inputs[j] == before[j]);
        }
        spacing_invariant(begun, before);
        let sent = run(InteractWsThread::spec_new(begun), before).1;
        assert(inputs[inputs.len() - 1] == inputs.last());
        if before.len() > 0 {
            assert(inputs[before.len() - 1] == before.last());
        }
        let all = run(InteractWsThread::spec_new(begun), inputs).1;
        assert forall|i: int| 0 <= i < all.len() - 1 implies (#[trigger] all[i + 1]).at - all[i].at
            >= MAX_SEND_RATE by {
            if i + 1 < sent.len() {
                assert(sent[i + 1] == all[i + 1] && sent[i] == all[i]);
            } else {
                assert(sent.last() == all[i]);
            }
        }
    }
}

/// The same data is never sent twice in a row, however much time or how many reconnections lie
/// between.
pub proof fn law_transmissions_do_not_repeat(begun: u128, inputs: Seq<Input>)
    ensures
        ({
            let sent = run(InteractWsThread::spec_new(begun), inputs).1;
            forall|i: int|
                0 <= i < sent.len() - 1 ==> !equal_in_every_part(
                    sent[i].data,
                    (#[trigger] sent[i + 1]).data,
                )
        }),
{
    repetition_invariant(begun, inputs);
    let sent = run(InteractWsThread::spec_new(begun), inputs).1;
    assert forall|i: int| 0 <= i < sent.len() - 1 implies !equal_in_every_part(
        sent[i].data,
        (#[trigger] sent[i + 1]).data,
    ) by {
        law_recordings_are_compared_by_every_part(sent[i].data, sent[i + 1].data);
    }
}

/// The induction behind the absence of repetitions.
proof fn repetition_invariant(begun: u128, inputs: Seq<Input>)
    ensures
        ({
            let (state, sent) = run(InteractWsThread::spec_new(begun), inputs);
            &&& state.last_data == if sent.len() == 0 {
                None
            } else {
                Some(sent.last().data)
            }
            &&& state.phase matches ThreadPhase::Sending(data) ==> !(
            state.last_data matches Some(last) && same_data(last, data))
            &&& forall|i: int|
                0 <= i < sent.len() - 1 ==> !same_data(sent[i].data, (#[trigger] sent[i + 1]).data)
        }),
    decreases inputs.len(),
{
    if inputs.len() > 0 {
        repetition_invariant(begun, inputs.drop_last());
        let sent = run(InteractWsThread::spec_new(begun), inputs.drop_last()).1;
        let all = run(InteractWsThread::spec_new(begun), inputs).1;
        assert forall|i: int| 0 <= i < all.len() - 1 implies !same_data(
            all[i].data,
            (#[trigger] all[i + 1]).data,
        ) by {
            if i + 1 < sent.len() {
                assert(sent[i + 1] == all[i + 1] && sent[i] == all[i]);
            } else {
                assert(sent.last() == all[i]);
            }
        }
    }
}

/// The phases in which data that is taken from the channel is not dropped as a matter of course.
pub open spec fn takes_data(state: InteractWsThread) -> bool {
    state.phase is Streaming || state.phase is Starting
}

/// The data that a state holds on to: about to be transmitted, or queued until there is a connection.
pub open spec fn held_data(state: InteractWsThread) -> Option<InteractData> {
    match state.phase {
        ThreadPhase::Sending(data) => Some(data),
        ThreadPhase::Connecting(queued) => queued,
        _ => None,
    }
}

/// Whether each transmission is the data of a message, taken from the channel while connected or
/// right before connecting, and the messages were taken in the order of the transmissions.
pub open spec fn sources(
    begun: u128,
    inputs: Seq<Input>,
    sent: Seq<Transmission>,
    taken: Seq<int>,
) -> bool {
    &&& taken.len() == sent.len()
    &&& forall|i: int|
        0 <= i < sent.len() ==> {
            let k = #[trigger] taken[i];
            &&& 0 <= k < inputs.len()
            &&& inputs[k].0 == ThreadEvent::Message(InteractThreadMessage::Data(sent[i].data))
            &&& takes_data(run(InteractWsThread::spec_new(begun), inputs.take(k)).0)
        }
    &&& forall|i: int, j: int|
        0 <= i < j < sent.len() ==> (#[trigger] taken[i]) < (#[trigger] taken[j])
}

/// Only data that arrives while connected, or is queued when the thread is about to connect, is
/// transmitted, each message at most once and in the order of arrival. What arrives while the thread
/// backs off is dropped.
pub proof fn law_transmissions_are_messages_in_order(begun: u128, inputs: Seq<Input>)
    ensures
        exists|taken: Seq<int>|
            sources(begun, inputs, run(InteractWsThread::spec_new(begun), inputs).1, taken),
{
    let taken = find_sources(begun, inputs);
    assert(sources(begun, inputs, run(InteractWsThread::spec_new(begun), inputs).1, taken.0));
}

/// The messages behind the transmissions of a run, and the one behind the data that is held.
proof fn find_sources(begun: u128, inputs: Seq<Input>) -> (r: (Seq<int>, int))
    ensures
        ({
            let (state, sent) = run(InteractWsThread::spec_new(begun), inputs);
            &&& sources(begun, inputs, sent, r.0)
            &&& held_data(state) matches Some(data) ==> {
                &&& 0 <= r.1 < inputs.len()
                &&& inputs[r.1].0 == ThreadEvent::Message(InteractThreadMessage::Data(data))
                &&& takes_data(run(InteractWsThread::spec_new(begun), inputs.take(r.1)).0)
                &&& forall|i: int| 0 <= i < sent.len() ==> (#[trigger] r.0[i]) < r.1
            }
        }),
    decreases inputs.len(),
{
    if inputs.len() == 0 {
        (Seq::empty(), 0)
    } else {
        let before = inputs.drop_last();
        let (taken, pending) = find_sources(begun, before);
        let (state, sent) = run(InteractWsThread::spec_new(begun), before);
        let (event, now) = inputs.last();
        let (next, out) = state.spec_step(event, now);
        let all = run(InteractWsThread::spec_new(begun), inputs).1;
        assert forall|k: int| 0 <= k < before.len() implies #[trigger] before.take(k) == inputs.take(
            k,
        ) && before[k] == inputs[k] by {}
        assert(inputs.take(before.len() as int) == before);
        let r = (
            if out is Some {
                taken.push(pending)
            } else {
                taken
            },
            if held_data(state) is Some {
                pending
            } else {
                before.len() as int
            },
        );
        assert forall|i: int| 0 <= i < all.len() implies {
            let k = #[trigger] r.0[i];
            &&& 0 <= k < inputs.len()
            &&& inputs[k].0 == ThreadEvent::Message(InteractThreadMessage::Data(all[i].data))
            &&& takes_data(run(InteractWsThread::spec_new(begun), inputs.take(k)).0)
        } by {
            if i < sent.len() {
                let k = taken[i];
                assert(before.take(k) == inputs.take(k));
                assert(before[k] == inputs[k]);
            } else {
                assert(before.take(pending) == inputs.take(pending));
                assert(before[pending] == inputs[pending]);
            }
        }
        if held_data(next) is Some {
            if held_data(state) is Some {
                assert(before.take(pending) == inputs.take(pending));
                assert(before[pending] == inputs[pending]);
            } else {
                assert(inputs[before.len() as int] == inputs.last());
            }
        }
        r
    }
}

/// How many waits for a reconnection were served to their end.
pub open spec fn waits_served(start: InteractWsThread, inputs: Seq<Input>) -> nat
    decreases inputs.len(),
{
    if inputs.len() == 0 {
        0
    } else {
        let before = run(start, inputs.drop_last()).0;
        let after = run(start, inputs).0;
        waits_served(start, inputs.drop_last()) + if before.phase is Waiting
            && after.phase is Starting {
            1nat
        } else {
            0
        }
    }
}

/// The backoff after a number of waits in a row: doubled by each, up to the longest.
pub open spec fn backoff_after(waits: nat) -> int {
    if INITIAL_BACKOFF * pow2(waits) <= MAX_BACKOFF {
        INITIAL_BACKOFF * pow2(waits)
    } else {
        MAX_BACKOFF as int
    }
}

/// The backoff is exponential: from any state that has the shortest one, such as that of a new thread
/// or one that has just connected, it is doubled once for every wait served, capped at the longest,
/// for as long as no connection is made.
pub proof fn law_backoff_is_exponential(start: InteractWsThread, inputs: Seq<Input>)
    requires
        start.backoff == INITIAL_BACKOFF,
        forall|i: int| 0 <= i < inputs.len() ==> !((#[trigger] inputs[i]).0 is Connected),
    ensures
        run(start, inputs).0.backoff == backoff_after(waits_served(start, inputs)),
    decreases inputs.len(),
{
    if inputs.len() == 0 {
        vstd::arithmetic::power2::lemma2_to64();
    } else {
        let before = inputs.drop_last();
        assert forall|i: int| 0 <= i < before.len() implies !((#[trigger] before[i]).0 is Connected) by {
            assert(inputs[i] == before[i]);
        }
        law_backoff_is_exponential(start, before);
        assert(!(inputs[inputs.len() - 1].0 is Connected));
        let waits = waits_served(start, before);
        lemma_pow2_unfold(waits + 1);
        lemma_pow2_pos(waits);
        assert(INITIAL_BACKOFF * pow2(waits + 1) == 2 * (INITIAL_BACKOFF * pow2(waits)))
            by (nonlinear_arith)
            requires
                pow2(waits + 1) == 2 * pow2(waits),
        ;
    }
}

/// The thread only tries again once the whole backoff has passed since the connection was lost or
/// refused, and the next backoff is then twice as long, or half a minute if that is less.
pub proof fn law_a_wait_is_served_in_full(state: InteractWsThread, event: ThreadEvent, now: u128)
    requires
        !(state.phase is Starting),
        state.spec_step(event, now).0.phase is Starting,
    ensures
        state.phase is Waiting,
        now - state.wait_start >= state.backoff || state.backoff == 0,
        state.spec_step(event, now).0.backoff == if 2 * state.backoff <= 30 * second() {
            2 * state.backoff
        } else {
            30 * second()
        },
{
}

/// A thread that has waited long enough and is not told to stop tries to connect again.
pub proof fn law_the_thread_tries_again(
    state: InteractWsThread,
    waited: u128,
    event: ThreadEvent,
    now: u128,
)
    requires
        state.phase is Waiting,
        waited - state.wait_start >= state.backoff,
        lets_go_on(event),
    ensures
        state.spec_step(ThreadEvent::Proceed, waited).0.spec_step(event, now).0.spec_request()
            == ThreadRequest::Connect,
{
}

/// A successful connection brings the backoff back to a second, and nothing else shortens it in a
/// state that the thread reaches.
pub proof fn law_only_a_connection_shortens_the_backoff(
    state: InteractWsThread,
    event: ThreadEvent,
    now: u128,
)
    requires
        second() <= state.backoff <= 30 * second(),
    ensures
        ({
            let next = state.spec_step(event, now).0;
            &&& connects(state, event) ==> next.backoff == second() && next.is_connected
            &&& next.backoff < state.backoff ==> connects(state, event)
        }),
{
}

/// The phases of a wait for a reconnection.
pub open spec fn is_waiting(state: InteractWsThread) -> bool {
    state.phase is Waiting || state.phase is Listening || state.phase is Sleeping
}

/// One step of a wait that began at the given time: it goes on, is over because the backoff has passed,
/// or the thread ends.
proof fn a_wait_goes_on_or_is_over(state: InteractWsThread, event: ThreadEvent, now: u128)
    requires
        is_waiting(state),
        state.wait_start <= now,
    ensures
        ({
            let next = state.spec_step(event, now).0;
            ||| is_waiting(next) && next.wait_start == state.wait_start && next.backoff
                == state.backoff
            ||| next.phase is Stopped
            ||| next.phase is Starting && now - state.wait_start >= state.backoff
        }),
{
}

/// Where a thread stands that lost its connection: in the wait that began with the loss, ended, or past
/// the time that the wait takes.
proof fn a_loss_begins_a_wait(start: InteractWsThread, inputs: Seq<Input>, lost: int, n: int)
    requires
        0 <= lost < n <= inputs.len(),
        chronological(0, inputs),
        loses(run(start, inputs.take(lost)).0, inputs[lost].0),
    ensures
        ({
            let backoff = run(start, inputs.take(lost)).0.backoff;
            let state = run(start, inputs.take(n)).0;
            ||| is_waiting(state) && state.wait_start == inputs[lost].1 && state.backoff == backoff
            ||| state.phase is Stopped
            ||| inputs[n - 1].1 - inputs[lost].1 >= backoff
        }),
    decreases n,
{
    assert(inputs.take(n).drop_last() =~= inputs.take(n - 1));
    assert(inputs.take(n).last() == inputs[n - 1]);
    assert(inputs[lost].1 <= inputs[n - 1].1);
    let before = run(start, inputs.take(n - 1)).0;
    let (event, now) = inputs[n - 1];
    assert(run(start, inputs.take(n)).0 == before.spec_step(event, now).0);
    if n - 1 > lost {
        a_loss_begins_a_wait(start, inputs, lost, n - 1);
        assert(inputs[n - 2].1 <= inputs[n - 1].1);
        if is_waiting(before) && before.wait_start == inputs[lost].1 {
            a_wait_goes_on_or_is_over(before, event, now);
        }
    }
}

/// After a connection is lost, closed by the server, broken or refused, the next attempt to connect
/// comes no sooner than the backoff of that moment after the loss, in every run whose clock does not go
/// back.
pub proof fn law_a_loss_is_waited_out(
    start: InteractWsThread,
    inputs: Seq<Input>,
    lost: int,
    attempt: int,
)
    requires
        0 <= lost < attempt <= inputs.len(),
        chronological(0, inputs),
        loses(run(start, inputs.take(lost)).0, inputs[lost].0),
        run(start, inputs.take(attempt)).0.spec_request() is Connect,
    ensures
        inputs[attempt - 1].1 - inputs[lost].1 >= run(start, inputs.take(lost)).0.backoff,
{
    a_loss_begins_a_wait(start, inputs, lost, attempt);
}

/// Where a thread stands that lost its connection and has not tried again.
proof fn a_loss_is_remembered(start: InteractWsThread, inputs: Seq<Input>, lost: int, n: int)
    requires
        0 <= lost < n <= inputs.len(),
        loses(run(start, inputs.take(lost)).0, inputs[lost].0),
        forall|m: int|
            lost < m <= n ==> !((#[trigger] run(start, inputs.take(m))).0.spec_request() is Connect),
    ensures
        ({
            let state = run(start, inputs.take(n)).0;
            ||| is_waiting(state) && state.wait_start == inputs[lost].1 && state.backoff == run(
                start,
                inputs.take(lost),
            ).0.backoff
            ||| state.phase is Starting
            ||| state.phase is Stopped
        }),
    decreases n,
{
    assert(inputs.take(n).drop_last() =~= inputs.take(n - 1));
    assert(inputs.take(n).last() == inputs[n - 1]);
    assert(!(run(start, inputs.take(n)).0.spec_request() is Connect));
    if n - 1 > lost {
        a_loss_is_remembered(start, inputs, lost, n - 1);
    }
}

/// After a connection is lost the thread does not wait for longer than the backoff of that moment: once
/// that has passed since the loss, the next comparison of the times leads to another attempt, unless
/// the thread is told to end.
pub proof fn law_a_loss_is_made_up_for(
    start: InteractWsThread,
    inputs: Seq<Input>,
    lost: int,
    compared: u128,
    event: ThreadEvent,
    polled: u128,
)
    requires
        0 <= lost < inputs.len(),
        loses(run(start, inputs.take(lost)).0, inputs[lost].0),
        forall|m: int|
            lost < m <= inputs.len() ==> !((#[trigger] run(
                start,
                inputs.take(m),
            )).0.spec_request() is Connect),
        run(start, inputs).0.spec_request() == ThreadRequest::Continue,
        compared - inputs[lost].1 >= run(start, inputs.take(lost)).0.backoff,
        lets_go_on(event),
    ensures
        run(start, inputs).0.spec_step(ThreadEvent::Proceed, compared).0.spec_request()
            == ThreadRequest::PollMessage,
        run(start, inputs).0.spec_step(ThreadEvent::Proceed, compared).0.spec_step(
            event,
            polled,
        ).0.spec_request() == ThreadRequest::Connect,
{
    a_loss_is_remembered(start, inputs, lost, inputs.len() as int);
    assert(inputs.take(inputs.len() as int) =~= inputs);
}

/// A lost connection shows at once: the flag goes down, nothing is transmitted, and the thread goes on
/// to wait, with the backoff and the memory of the last transmission that it had.
pub proof fn law_a_loss_shows_at_once(state: InteractWsThread, event: ThreadEvent, now: u128)
    requires
        loses(state, event),
    ensures
        ({
            let (next, out) = state.spec_step(event, now);
            &&& out is None
            &&& !next.is_connected
            &&& next.spec_request() == ThreadRequest::Continue
            &&& next.backoff == state.backoff
            &&& next.last_data == state.last_data && next.last_sent == state.last_sent
        }),
{
}

} // verus!
