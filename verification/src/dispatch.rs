//! What the dispatcher does on each tick.
//!
//! The dispatcher alone owns the sending half of the connection. The
//! functions here decide what it sends and mirrors, and in what order; the
//! caller carries the actions out one after the other.

use vstd::prelude::*;
use vstd::string::*;
use vstd::utf8::encode_utf8;
use crate::frame_data::{FrameData, Payload};
use crate::heartbeat::{last_time_after_tick, ping_due, ping_is_due};
use crate::queue::{
    appended,
    drained_after,
    lemma_drains_keep_every_frame_in_order,
    payloads,
    pending_after,
    FrameQueue,
    QueueOp,
};
use crate::text::{echo_line, echoed, string_views};

verus! {

/// A frame as it goes out on the connection.
#[derive(Debug, PartialEq, Eq)]
pub enum Outbound {
    /// A text frame.
    Text(String),
    /// A binary frame.
    Binary(Vec<u8>),
    /// A heartbeat frame with its marker as payload.
    Ping(Vec<u8>),
}

/// What an [`Outbound`] holds, as mathematics.
pub enum OutboundView {
    /// A text frame of these characters.
    Text(Seq<char>),
    /// A binary frame of these bytes.
    Binary(Seq<u8>),
    /// A heartbeat frame of these bytes.
    Ping(Seq<u8>),
}

impl View for Outbound {
    type V = OutboundView;

    open spec fn view(&self) -> OutboundView {
        match self {
            Outbound::Text(text) => OutboundView::Text(text@),
            Outbound::Binary(bytes) => OutboundView::Binary(bytes@),
            Outbound::Ping(bytes) => OutboundView::Ping(bytes@),
        }
    }
}

/// One thing for the dispatcher to do.
#[derive(Debug, PartialEq, Eq)]
pub enum Action {
    /// Send this frame; a failure to send is fatal.
    Send(Outbound),
    /// Write this line to standard output.
    Echo(String),
}

/// What an [`Action`] holds, as mathematics.
pub enum ActionView {
    /// Send this frame.
    Send(OutboundView),
    /// Write this line to standard output.
    Echo(Seq<char>),
}

impl View for Action {
    type V = ActionView;

    open spec fn view(&self) -> ActionView {
        match self {
            Action::Send(frame) => ActionView::Send(frame@),
            Action::Echo(line) => ActionView::Echo(line@),
        }
    }
}

/// The views of a sequence of actions, in the same order.
pub open spec fn action_views(actions: Seq<Action>) -> Seq<ActionView> {
    actions.map_values(|action: Action| action@)
}

/// The network frame for a queued payload: text goes out as text, bytes go
/// out as bytes, unchanged.
pub open spec fn outbound_of(payload: Payload) -> OutboundView {
    match payload {
        Payload::Text(text) => OutboundView::Text(text),
        Payload::Binary(bytes) => OutboundView::Binary(bytes),
    }
}

/// Sending each of the queued payloads, oldest first.
pub open spec fn frame_actions(pending: Seq<Payload>) -> Seq<ActionView> {
    pending.map_values(|payload: Payload| ActionView::Send(outbound_of(payload)))
}

/// The heartbeat step of a tick: nothing unless a heartbeat is due; else the
/// heartbeat frame, whose payload is the marker's UTF-8 encoding, with the
/// marker mirrored first if outbound frames are echoed.
pub open spec fn ping_actions(due: bool, echo: bool, ping_msg: Seq<char>) -> Seq<ActionView> {
    if !due {
        Seq::empty()
    } else if echo {
        seq![
            ActionView::Echo(echoed(ping_msg)),
            ActionView::Send(OutboundView::Ping(encode_utf8(ping_msg))),
        ]
    } else {
        seq![ActionView::Send(OutboundView::Ping(encode_utf8(ping_msg)))]
    }
}

/// Sending one message given at startup: the text frame, with the message
/// mirrored first if outbound frames are echoed.
pub open spec fn message_actions(message: Seq<char>, echo: bool) -> Seq<ActionView> {
    if echo {
        seq![ActionView::Echo(echoed(message)), ActionView::Send(OutboundView::Text(message))]
    } else {
        seq![ActionView::Send(OutboundView::Text(message))]
    }
}

/// Sending all the messages given at startup, in the order given.
pub open spec fn startup_actions(messages: Seq<Seq<char>>, echo: bool) -> Seq<ActionView>
    decreases messages.len(),
{
    if messages.len() == 0 {
        Seq::empty()
    } else {
        startup_actions(messages.drop_last(), echo) + message_actions(messages.last(), echo)
    }
}

/// The outcome of the heartbeat step of a tick.
#[derive(Debug, PartialEq, Eq)]
pub struct PingCheck {
    /// The time of the last heartbeat, to keep for the next tick.
    pub last_time: u64,
    /// What to do now: nothing, or mirror and send the heartbeat.
    pub actions: Vec<Action>,
}

/// The outcome of one tick of the dispatcher.
#[derive(Debug, PartialEq, Eq)]
pub struct Tick {
    /// The time of the last heartbeat, to keep for the next tick.
    pub last_time: u64,
    /// What to do now, in this order.
    pub actions: Vec<Action>,
}

/// The seconds between two ticks of the dispatcher. A heartbeat interval is
/// given in whole seconds, so no shorter interval can be asked for.
pub const TICK_SECONDS: u64 = 1;

/// The marker that a heartbeat carries where none is configured.
pub open spec fn default_ping_marker() -> Seq<char> {
    seq!['p', 'i', 'n', 'g']
}

/// The marker that a heartbeat carries where none is configured.
pub fn default_ping_message() -> (marker: String)
    ensures
        marker@ == default_ping_marker(),
{
    proof {
        reveal_strlit("ping");
        assert("ping"@ =~= default_ping_marker());
    }
    String::from_str("ping")
}

/// The network frame for a queued frame.
pub fn outbound_message(frame: FrameData) -> (message: Outbound)
    ensures
        message@ == outbound_of(frame@),
{
    match frame {
        FrameData::Utf8(text) => Outbound::Text(text),
        FrameData::Binary(bytes) => Outbound::Binary(bytes),
    }
}

/// Drains the queue and says what to send: every frame that was waiting,
/// oldest first, each as a frame of its own kind. The queue is left empty.
pub fn read_stdin_buffer(stdin_buffer: &mut FrameQueue) -> (actions: Vec<Action>)
    ensures
        action_views(actions@) == frame_actions(old(stdin_buffer)@),
        actions@.len() == old(stdin_buffer)@.len(),
        final(stdin_buffer)@ == Seq::<Payload>::empty(),
{
    let frames = stdin_buffer.drain_all();
    let ghost drained = frames@;
    let mut actions: Vec<Action> = Vec::new();
    for frame in it: frames
        invariant
            it.seq() == drained,
            actions@.len() == it.index(),
            forall|i: int|
                0 <= i < actions@.len() ==> (#[trigger] actions@[i])@ == ActionView::Send(
                    outbound_of(drained[i]@),
                ),
    {
        actions.push(Action::Send(outbound_message(frame)));
    }
    assert(action_views(actions@) =~= frame_actions(payloads(drained)));
    actions
}

/// The heartbeat step of a tick. If an interval is configured and that many
/// seconds have passed since `last_time`, the heartbeat is sent and `now`
/// becomes the time of the last heartbeat; otherwise nothing is done and
/// `last_time` stays.
pub fn check_ping_interval(
    ping_interval: &Option<u64>,
    last_time: u64,
    now: u64,
    echo: bool,
    ping_msg: &str,
) -> (check: PingCheck)
    ensures
        check.last_time == last_time_after_tick(*ping_interval, last_time as int, now as int),
        action_views(check.actions@) == ping_actions(
            ping_due(*ping_interval, last_time as int, now as int),
            echo,
            ping_msg@,
        ),
        *ping_interval is None ==> check.actions@.len() == 0 && check.last_time == last_time,
{
    let mut actions: Vec<Action> = Vec::new();
    if ping_is_due(ping_interval, last_time, now) {
        if echo {
            actions.push(Action::Echo(echo_line(ping_msg)));
        }
        actions.push(Action::Send(Outbound::Ping(ping_msg.as_bytes_vec())));
        assert(action_views(actions@) =~= ping_actions(true, echo, ping_msg@));
        PingCheck { last_time: now, actions }
    } else {
        assert(action_views(actions@) =~= ping_actions(false, echo, ping_msg@));
        PingCheck { last_time, actions }
    }
}

/// Says how to send the messages given at startup: each as a text frame, in
/// the order given, each mirrored just before it is sent if outbound frames
/// are echoed.
pub fn send_messages(messages: &Vec<String>, echo: bool) -> (actions: Vec<Action>)
    ensures
        action_views(actions@) == startup_actions(string_views(messages@), echo),
{
    let mut actions: Vec<Action> = Vec::new();
    let mut i: usize = 0;
    assert(action_views(actions@) =~= startup_actions(string_views(messages@).take(0), echo));
    while i < messages.len()
        invariant
            i <= messages.len(),
            action_views(actions@) == startup_actions(string_views(messages@).take(i as int), echo),
        decreases messages.len() - i,
    {
        let ghost before = action_views(actions@);
        let message = messages[i].clone();
        if echo {
            actions.push(Action::Echo(echo_line(message.as_str())));
        }
        actions.push(Action::Send(Outbound::Text(message)));
        proof {
            let views = string_views(messages@);
            assert(views.take(i + 1).drop_last() =~= views.take(i as int));
            assert(views.take(i + 1).last() == messages@[i as int]@);
            assert(action_views(actions@) =~= before + message_actions(messages@[i as int]@, echo));
        }
        i += 1;
    }
    assert(string_views(messages@).take(i as int) =~= string_views(messages@));
    actions
}

/// One tick of the dispatcher: every frame that is waiting in the queue is
/// sent first, oldest first; the heartbeat check comes after, so a heartbeat
/// never overtakes content that was already waiting.
pub fn dispatch_tick(
    stdin_buffer: &mut FrameQueue,
    ping_interval: &Option<u64>,
    last_time: u64,
    now: u64,
    echo: bool,
    ping_msg: &str,
) -> (tick: Tick)
    ensures
        action_views(tick.actions@) == frame_actions(old(stdin_buffer)@) + ping_actions(
            ping_due(*ping_interval, last_time as int, now as int),
            echo,
            ping_msg@,
        ),
        tick.last_time == last_time_after_tick(*ping_interval, last_time as int, now as int),
        final(stdin_buffer)@ == Seq::<Payload>::empty(),
{
    let mut actions = read_stdin_buffer(stdin_buffer);
    let ghost sends = action_views(actions@);
    let mut check = check_ping_interval(ping_interval, last_time, now, echo, ping_msg);
    let ghost pings = action_views(check.actions@);
    actions.append(&mut check.actions);
    assert(action_views(actions@) =~= sends + pings);
    Tick { last_time: check.last_time, actions }
}

/// Frames leave in the order in which they were appended, whatever the
/// interleaving of appends and ticks: the sends of all drains so far,
/// followed by the sends that are still owed for what is waiting, are the
/// sends of everything appended, in the order of the appends.
pub proof fn lemma_frames_leave_in_append_order(ops: Seq<QueueOp>)
    ensures
        frame_actions(drained_after(ops)) + frame_actions(pending_after(ops)) == frame_actions(
            appended(ops),
        ),
{
    lemma_drains_keep_every_frame_in_order(ops);
    assert(frame_actions(drained_after(ops)) + frame_actions(pending_after(ops)) =~= frame_actions(
        drained_after(ops) + pending_after(ops),
    ));
}

} // verus!
