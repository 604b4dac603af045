//! The session state machine: command sequence, subscription order and the
//! timeout-bounded receive loop.
//!
//! One `get_data` run is strictly linear: resolve the two services, write
//! the two arming commands in order (each acknowledged before the next),
//! open the event subscription, enable notifications only after the
//! subscription stands, then receive frames until a timeout window passes
//! with no event. The machine here makes every decision of that run; the
//! caller only performs the transport action the machine asks for and
//! reports what happened. Each weight frame triggers three reads against
//! the User Data service (age, sex, height) before its record is kept.

use crate::frame::{decode_frame, frame_timestamp, frame_weight_tenths, spec_decode,
    FrameOutcome};
use crate::measurement::{Record, RecordData, Timestamp, Value};
use vstd::prelude::*;

verus! {

/// Vendor-specific measurement service.
pub const CUSTOM_SERVICE_UUID: u128 = 0x352e3000_28e9_40b8_a361_6db4cca4147c;

/// Weight data characteristic of the custom service: the notification
/// source.
pub const WEIGHT_CHARACTERISTIC_UUID: u128 = 0x352e3001_28e9_40b8_a361_6db4cca4147c;

/// Command characteristic of the custom service: the write target.
pub const COMMAND_CHARACTERISTIC_UUID: u128 = 0x352e3002_28e9_40b8_a361_6db4cca4147c;

/// Standard User Data service.
pub const USER_DATA_SERVICE_UUID: u128 = 0x0000181c_0000_1000_8000_00805f9b34fb;

/// Height characteristic of the User Data service.
pub const HEIGHT_CHARACTERISTIC_UUID: u128 = 0x00002a8e_0000_1000_8000_00805f9b34fb;

/// Age characteristic of the User Data service.
pub const AGE_CHARACTERISTIC_UUID: u128 = 0x00002a80_0000_1000_8000_00805f9b34fb;

/// Sex characteristic, read at the same identifier as height: the
/// standard assigns sex a different identifier, but this is the one the
/// peripheral is driven with for that read.
pub const SEX_CHARACTERISTIC_UUID: u128 = 0x00002a8e_0000_1000_8000_00805f9b34fb;

/// Per-event wait bound, in milliseconds. A window that passes with no
/// event ends the session normally.
pub const EVENT_TIMEOUT_MILLIS: u64 = 1000;

/// First arming command: requests transmission of weight-measurement
/// frames.
pub open spec fn first_command() -> Seq<u8> {
    seq![0x09u8, 0x01u8]
}

/// Second arming command: requests transmission of activity-level frames.
pub open spec fn second_command() -> Seq<u8> {
    seq![0x0cu8, 0x01u8]
}

/// The states of one session, in the order the protocol passes them.
#[derive(Clone, Copy, PartialEq, Eq, Structural, Debug)]
pub enum State {
    /// Nothing done yet; the services must be resolved first.
    Idle,
    /// Services and characteristics stand; the first command is due.
    ServicesResolved,
    /// The first command was acknowledged; the second is due.
    FirstCommandAcked,
    /// Both commands acknowledged; the subscription is due.
    CommandsArmed,
    /// The subscription stands; notifications may now be enabled.
    Subscribed,
    /// Waiting for the next notification or the timeout.
    Receiving,
    /// A weight frame was decoded; the age read is due.
    ReadingAge,
    /// The sex read is due.
    ReadingSex,
    /// The height read is due; its answer completes the record.
    ReadingHeight,
    /// The session ended normally; the records are ready.
    Done,
    /// A transport or protocol failure ended the session.
    Failed,
}

/// What the caller reports back after performing an action.
#[derive(Debug, PartialEq, Eq)]
pub enum Event {
    /// Both services and both custom characteristics were resolved.
    Resolved,
    /// A command write was acknowledged by the peripheral.
    Ack,
    /// The event subscription was opened.
    SubscriptionStarted,
    /// Notifications were enabled.
    NotificationsEnabled,
    /// A characteristic-value notification arrived with this payload.
    Notification(Vec<u8>),
    /// An event arrived that is not a value notification.
    Unrelated,
    /// The wait window elapsed with no event.
    Timeout,
    /// The event stream ended.
    StreamEnded,
    /// A characteristic read completed with this payload.
    ReadResult(Vec<u8>),
    /// The transport reported an error; the caller keeps it.
    Failure,
}

/// Mathematical image of an [`Event`].
pub ghost enum EventData {
    Resolved,
    Ack,
    SubscriptionStarted,
    NotificationsEnabled,
    Notification(Seq<u8>),
    Unrelated,
    Timeout,
    StreamEnded,
    ReadResult(Seq<u8>),
    Failure,
}

impl View for Event {
    type V = EventData;

    open spec fn view(&self) -> EventData {
        match self {
            Event::Resolved => EventData::Resolved,
            Event::Ack => EventData::Ack,
            Event::SubscriptionStarted => EventData::SubscriptionStarted,
            Event::NotificationsEnabled => EventData::NotificationsEnabled,
            Event::Notification(bytes) => EventData::Notification(bytes@),
            Event::Unrelated => EventData::Unrelated,
            Event::Timeout => EventData::Timeout,
            Event::StreamEnded => EventData::StreamEnded,
            Event::ReadResult(bytes) => EventData::ReadResult(bytes@),
            Event::Failure => EventData::Failure,
        }
    }
}

/// The transport action the caller must perform next.
#[derive(Debug, PartialEq, Eq)]
pub enum Action {
    /// Resolve the custom and User Data services and, within the custom
    /// service, the weight and command characteristics.
    ResolveServices,
    /// Write this payload to the command characteristic with
    /// acknowledgment required.
    WriteCommand(Vec<u8>),
    /// Open the event subscription on the weight characteristic.
    Subscribe,
    /// Enable notifications on the weight characteristic.
    EnableNotifications,
    /// Wait for the next event, bounded by [`EVENT_TIMEOUT_MILLIS`].
    AwaitEvent,
    /// Read the named characteristic of the named service.
    ReadCharacteristic { service: u128, characteristic: u128 },
    /// The session is over; take the records.
    Finish,
    /// The session failed; surface the stored transport error.
    Abort,
}

/// Mathematical image of an [`Action`].
pub ghost enum ActionData {
    ResolveServices,
    WriteCommand(Seq<u8>),
    Subscribe,
    EnableNotifications,
    AwaitEvent,
    ReadCharacteristic { service: u128, characteristic: u128 },
    Finish,
    Abort,
}

impl View for Action {
    type V = ActionData;

    open spec fn view(&self) -> ActionData {
        match self {
            Action::ResolveServices => ActionData::ResolveServices,
            Action::WriteCommand(bytes) => ActionData::WriteCommand(bytes@),
            Action::Subscribe => ActionData::Subscribe,
            Action::EnableNotifications => ActionData::EnableNotifications,
            Action::AwaitEvent => ActionData::AwaitEvent,
            Action::ReadCharacteristic { service, characteristic } =>
                ActionData::ReadCharacteristic {
                    service: *service,
                    characteristic: *characteristic,
                },
            Action::Finish => ActionData::Finish,
            Action::Abort => ActionData::Abort,
        }
    }
}

/// Mathematical image of a [`Session`].
#[verifier::ext_equal]
pub ghost struct SessionData {
    pub state: State,
    /// Timestamp of the frame whose user-data reads are in flight;
    /// meaningful only in the three reading states.
    pub pending_timestamp: Timestamp,
    /// Weight of that frame, in tenths of a kilogram.
    pub pending_weight: u16,
    pub records: Seq<RecordData>,
}

/// The session a fresh machine starts in.
pub open spec fn initial_session() -> SessionData {
    SessionData {
        state: State::Idle,
        pending_timestamp: Timestamp { year: 0, month: 1, day: 1, hour: 0, minute: 0, second: 0 },
        pending_weight: 0u16,
        records: Seq::empty(),
    }
}

/// The one action each state asks of the caller.
pub open spec fn action_for(state: State) -> ActionData {
    match state {
        State::Idle => ActionData::ResolveServices,
        State::ServicesResolved => ActionData::WriteCommand(first_command()),
        State::FirstCommandAcked => ActionData::WriteCommand(second_command()),
        State::CommandsArmed => ActionData::Subscribe,
        State::Subscribed => ActionData::EnableNotifications,
        State::Receiving => ActionData::AwaitEvent,
        State::ReadingAge => ActionData::ReadCharacteristic {
            service: USER_DATA_SERVICE_UUID,
            characteristic: AGE_CHARACTERISTIC_UUID,
        },
        State::ReadingSex => ActionData::ReadCharacteristic {
            service: USER_DATA_SERVICE_UUID,
            characteristic: SEX_CHARACTERISTIC_UUID,
        },
        State::ReadingHeight => ActionData::ReadCharacteristic {
            service: USER_DATA_SERVICE_UUID,
            characteristic: HEIGHT_CHARACTERISTIC_UUID,
        },
        State::Done => ActionData::Finish,
        State::Failed => ActionData::Abort,
    }
}

/// The transition relation of one session. Terminal states absorb every
/// event; an event that answers no pending action, and any reported
/// failure, ends the session in `Failed`; everything else follows the
/// linear protocol. Frames are handled in arrival order: a decodable
/// weight frame starts the three user-data reads, an activity or unknown
/// or malformed frame leaves the session receiving, and a timeout or the
/// end of the stream ends it normally with the records gathered so far.
pub open spec fn spec_handle(v: SessionData, e: EventData) -> SessionData {
    match (v.state, e) {
        (State::Idle, EventData::Resolved) => SessionData { state: State::ServicesResolved, ..v },
        (State::ServicesResolved, EventData::Ack) => SessionData {
            state: State::FirstCommandAcked,
            ..v
        },
        (State::FirstCommandAcked, EventData::Ack) => SessionData {
            state: State::CommandsArmed,
            ..v
        },
        (State::CommandsArmed, EventData::SubscriptionStarted) => SessionData {
            state: State::Subscribed,
            ..v
        },
        (State::Subscribed, EventData::NotificationsEnabled) => SessionData {
            state: State::Receiving,
            ..v
        },
        (State::Receiving, EventData::Notification(bytes)) => if spec_decode(bytes)
            is Measured {
            SessionData {
                state: State::ReadingAge,
                pending_timestamp: frame_timestamp(bytes),
                pending_weight: frame_weight_tenths(bytes),
                ..v
            }
        } else {
            v
        },
        (State::Receiving, EventData::Unrelated) => v,
        (State::Receiving, EventData::Timeout) => SessionData { state: State::Done, ..v },
        (State::Receiving, EventData::StreamEnded) => SessionData { state: State::Done, ..v },
        (State::ReadingAge, EventData::ReadResult(_)) => SessionData {
            state: State::ReadingSex,
            ..v
        },
        (State::ReadingSex, EventData::ReadResult(_)) => SessionData {
            state: State::ReadingHeight,
            ..v
        },
        (State::ReadingHeight, EventData::ReadResult(_)) => SessionData {
            state: State::Receiving,
            records: v.records.push(
                RecordData {
                    timestamp: v.pending_timestamp,
                    values: seq![Value::Weight(v.pending_weight)],
                },
            ),
            ..v
        },
        (State::Done, _) => v,
        (State::Failed, _) => v,
        (_, _) => SessionData { state: State::Failed, ..v },
    }
}

/// One `get_data` session. The caller performs [`Session::next_action`],
/// reports the outcome through [`Session::handle`], and repeats until the
/// action is `Finish` or `Abort`.
pub struct Session {
    state: State,
    pending_timestamp: Timestamp,
    pending_weight: u16,
    records: Vec<Record>,
}

impl View for Session {
    type V = SessionData;

    closed spec fn view(&self) -> SessionData {
        SessionData {
            state: self.state,
            pending_timestamp: self.pending_timestamp,
            pending_weight: self.pending_weight,
            records: self.records@.map_values(|r: Record| r@),
        }
    }
}

impl Session {
    /// Starts a session in the idle state with no records.
    pub fn new() -> (s: Session)
        ensures
            s@ == initial_session(),
    {
        let s = Session {
            state: State::Idle,
            pending_timestamp: Timestamp {
                year: 0,
                month: 1,
                day: 1,
                hour: 0,
                minute: 0,
                second: 0,
            },
            pending_weight: 0,
            records: Vec::new(),
        };
        proof {
            assert(s@ =~= initial_session());
        }
        s
    }

    /// The state the session is in.
    pub fn current_state(&self) -> (st: State)
        ensures
            st == self@.state,
    {
        self.state
    }

    /// How many records the session has gathered so far.
    pub fn record_count(&self) -> (n: usize)
        ensures
            n == self@.records.len(),
    {
        self.records.len()
    }

    /// The action the caller must perform next.
    pub fn next_action(&self) -> (a: Action)
        ensures
            a@ == action_for(self@.state),
    {
        match self.state {
            State::Idle => Action::ResolveServices,
            State::ServicesResolved => {
                let payload: Vec<u8> = vec![0x09u8, 0x01u8];
                proof {
                    assert(payload@ =~= first_command());
                }
                Action::WriteCommand(payload)
            },
            State::FirstCommandAcked => {
                let payload: Vec<u8> = vec![0x0cu8, 0x01u8];
                proof {
                    assert(payload@ =~= second_command());
                }
                Action::WriteCommand(payload)
            },
            State::CommandsArmed => Action::Subscribe,
            State::Subscribed => Action::EnableNotifications,
            State::Receiving => Action::AwaitEvent,
            State::ReadingAge => Action::ReadCharacteristic {
                service: USER_DATA_SERVICE_UUID,
                characteristic: AGE_CHARACTERISTIC_UUID,
            },
            State::ReadingSex => Action::ReadCharacteristic {
                service: USER_DATA_SERVICE_UUID,
                characteristic: SEX_CHARACTERISTIC_UUID,
            },
            State::ReadingHeight => Action::ReadCharacteristic {
                service: USER_DATA_SERVICE_UUID,
                characteristic: HEIGHT_CHARACTERISTIC_UUID,
            },
            State::Done => Action::Finish,
            State::Failed => Action::Abort,
        }
    }

    /// Advances the session by one reported event, exactly as
    /// [`spec_handle`] describes.
    pub fn handle(&mut self, event: Event)
        ensures
            final(self)@ == spec_handle(old(self)@, event@),
    {
        match (self.state, event) {
            (State::Idle, Event::Resolved) => {
                self.state = State::ServicesResolved;
            },
            (State::ServicesResolved, Event::Ack) => {
                self.state = State::FirstCommandAcked;
            },
            (State::FirstCommandAcked, Event::Ack) => {
                self.state = State::CommandsArmed;
            },
            (State::CommandsArmed, Event::SubscriptionStarted) => {
                self.state = State::Subscribed;
            },
            (State::Subscribed, Event::NotificationsEnabled) => {
                self.state = State::Receiving;
            },
            (State::Receiving, Event::Notification(bytes)) => {
                match decode_frame(&bytes) {
                    FrameOutcome::Measured(rec) => {
                        proof {
                            assert(rec@.values[0] == Value::Weight(frame_weight_tenths(bytes@)));
                        }
                        self.state = State::ReadingAge;
                        self.pending_timestamp = rec.timestamp;
                        let first: Value = rec.values[0];
                        match first {
                            Value::Weight(w) => {
                                self.pending_weight = w;
                            },
                        }
                    },
                    FrameOutcome::Activity => {},
                    FrameOutcome::Ignored => {},
                }
            },
            (State::Receiving, Event::Unrelated) => {},
            (State::Receiving, Event::Timeout) => {
                self.state = State::Done;
            },
            (State::Receiving, Event::StreamEnded) => {
                self.state = State::Done;
            },
            (State::ReadingAge, Event::ReadResult(_)) => {
                self.state = State::ReadingSex;
            },
            (State::ReadingSex, Event::ReadResult(_)) => {
                self.state = State::ReadingHeight;
            },
            (State::ReadingHeight, Event::ReadResult(rr)) => {
                let values: Vec<Value> = vec![Value::Weight(self.pending_weight)];
                let rec = Record::with_values(self.pending_timestamp, values);
                self.records.push(rec);
                self.state = State::Receiving;
                proof {
                    let pushed = RecordData {
                        timestamp: old(self)@.pending_timestamp,
                        values: seq![Value::Weight(old(self)@.pending_weight)],
                    };
                    assert(rec@ =~= pushed);
                    assert(self.records@.map_values(|r: Record| r@) =~= old(
                        self,
                    ).records@.map_values(|r: Record| r@).push(pushed));
                    assert(self@ =~= spec_handle(old(self)@, EventData::ReadResult(rr@)));
                }
            },
            (State::Done, _) => {},
            (State::Failed, _) => {},
            (_, _) => {
                self.state = State::Failed;
            },
        }
    }

    /// Ends the session, handing the gathered records to the caller in
    /// arrival order.
    pub fn into_records(self) -> (r: Vec<Record>)
        ensures
            r@.map_values(|x: Record| x@) == self@.records,
    {
        self.records
    }
}

/// Well-formedness of a session: every gathered record carries a real
/// calendar timestamp and exactly one weight value, and while user-data
/// reads are in flight the pending frame is calendar-checked too.
pub open spec fn wf(v: SessionData) -> bool {
    &&& (v.state is ReadingAge || v.state is ReadingSex || v.state is ReadingHeight)
        ==> v.pending_timestamp.valid()
    &&& forall|i: int|
        0 <= i < v.records.len() ==> (#[trigger] v.records[i]).timestamp.valid() && v.records[
            i
        ].values.len() == 1 && v.records[i].values[0] is Weight
}

/// A fresh session is well formed.
pub proof fn lemma_initial_session_wf()
    ensures
        wf(initial_session()),
{
}

/// Handling any event keeps a session well formed: only frames whose
/// calendar fields are possible ever become records.
pub proof fn lemma_handle_preserves_wf(v: SessionData, e: EventData)
    requires
        wf(v),
    ensures
        wf(spec_handle(v, e)),
{
}

/// The first arming command is requested exactly once per run: only in the
/// state reached by service resolution, and no transition leads back to
/// the idle state it starts from.
pub proof fn lemma_first_write_only_after_resolution(v: SessionData, e: EventData)
    ensures
        action_for(spec_handle(v, e).state) == ActionData::WriteCommand(first_command())
            ==> v.state == State::Idle && e == EventData::Resolved,
        spec_handle(v, e).state != State::Idle,
{
    assert(first_command()[0] == 0x09);
    assert(second_command()[0] == 0x0c);
}

/// The arming commands go out in order: the machine asks for the second
/// command only in the state reached by the peripheral's acknowledgment of
/// the first, whose own pending action was that first write.
pub proof fn lemma_commands_written_in_order(v: SessionData, e: EventData)
    ensures
        action_for(spec_handle(v, e).state) == ActionData::WriteCommand(second_command())
            ==> v.state == State::ServicesResolved && e == EventData::Ack && action_for(v.state)
                == ActionData::WriteCommand(first_command()),
{
    assert(first_command()[0] == 0x09);
    assert(second_command()[0] == 0x0c);
}

/// Notifications are enabled only once the event subscription stands: the
/// machine asks to enable them only in the state reached by the
/// subscription's completion, whose own pending action was the
/// subscription request.
pub proof fn lemma_subscription_precedes_notifications(v: SessionData, e: EventData)
    ensures
        action_for(spec_handle(v, e).state) == ActionData::EnableNotifications ==> v.state
            == State::CommandsArmed && e == EventData::SubscriptionStarted && action_for(v.state)
            == ActionData::Subscribe,
{
}

/// A frame that decodes to nothing — wrong tag, truncated, or an
/// impossible calendar date — leaves a receiving session exactly as it
/// was, and a later decodable frame in the same session still starts a
/// record.
pub proof fn lemma_bad_frame_does_not_end_session(v: SessionData, bad: Seq<u8>, good: Seq<u8>)
    requires
        v.state == State::Receiving,
        !(spec_decode(bad) is Measured),
        spec_decode(good) is Measured,
    ensures
        spec_handle(v, EventData::Notification(bad)) == v,
        spec_handle(
            spec_handle(v, EventData::Notification(bad)),
            EventData::Notification(good),
        ).state == State::ReadingAge,
        spec_handle(
            spec_handle(v, EventData::Notification(bad)),
            EventData::Notification(good),
        ).records == v.records,
{
}

/// The session a run reaches after a sequence of reported events, from a
/// fresh machine on.
pub open spec fn session_after(events: Seq<EventData>) -> SessionData
    decreases events.len(),
{
    if events.len() == 0 {
        initial_session()
    } else {
        spec_handle(session_after(events.drop_last()), events.last())
    }
}

/// The events of a run whose setup succeeds: resolution, both command
/// acknowledgments, the subscription, and enabled notifications.
pub open spec fn arming_events() -> Seq<EventData> {
    seq![
        EventData::Resolved,
        EventData::Ack,
        EventData::Ack,
        EventData::SubscriptionStarted,
        EventData::NotificationsEnabled,
    ]
}

/// Along any run: wherever the machine asks for the second arming
/// command, the step before it asked for the first one, and the event
/// between the two was the peripheral's acknowledgment. The caller that
/// performs each requested action therefore writes the two commands in
/// order, the second only after the first was acknowledged.
pub proof fn lemma_trace_commands_in_order(events: Seq<EventData>, i: int)
    requires
        0 <= i <= events.len(),
        action_for(session_after(events.take(i)).state) == ActionData::WriteCommand(
            second_command(),
        ),
    ensures
        0 < i,
        action_for(session_after(events.take(i - 1)).state) == ActionData::WriteCommand(
            first_command(),
        ),
        events[i - 1] == EventData::Ack,
{
    assert(first_command()[0] == 0x09);
    assert(second_command()[0] == 0x0c);
    if i == 0 {
        assert(events.take(0) =~= Seq::<EventData>::empty());
    } else {
        let prefix = events.take(i);
        assert(prefix.len() == i);
        assert(prefix.drop_last() =~= events.take(i - 1));
        assert(prefix.last() == events[i - 1]);
        lemma_commands_written_in_order(session_after(events.take(i - 1)), events[i - 1]);
    }
}

/// Along any run: wherever the machine asks to enable notifications, the
/// step before it asked to open the subscription, and the event between
/// the two was the subscription's completion. The subscription is
/// therefore established before notifications are enabled.
pub proof fn lemma_trace_subscribe_before_enable(events: Seq<EventData>, i: int)
    requires
        0 <= i <= events.len(),
        action_for(session_after(events.take(i)).state) == ActionData::EnableNotifications,
    ensures
        0 < i,
        action_for(session_after(events.take(i - 1)).state) == ActionData::Subscribe,
        events[i - 1] == EventData::SubscriptionStarted,
{
    if i == 0 {
        assert(events.take(0) =~= Seq::<EventData>::empty());
    } else {
        let prefix = events.take(i);
        assert(prefix.drop_last() =~= events.take(i - 1));
        assert(prefix.last() == events[i - 1]);
        lemma_subscription_precedes_notifications(session_after(events.take(i - 1)), events[i - 1]);
    }
}

/// If the very first wait window after arming passes with no event, the
/// session ends normally with an empty record collection, not an error.
pub proof fn lemma_timeout_without_events_gives_empty()
    ensures
        session_after(arming_events().push(EventData::Timeout)).state == State::Done,
        session_after(arming_events().push(EventData::Timeout)).records
            == Seq::<RecordData>::empty(),
{
    let e0 = Seq::<EventData>::empty();
    let e1 = e0.push(EventData::Resolved);
    let e2 = e1.push(EventData::Ack);
    let e3 = e2.push(EventData::Ack);
    let e4 = e3.push(EventData::SubscriptionStarted);
    let e5 = e4.push(EventData::NotificationsEnabled);
    let e6 = e5.push(EventData::Timeout);
    assert(arming_events().push(EventData::Timeout) =~= e6);
    assert(session_after(e0) == initial_session());
    assert(e1.drop_last() =~= e0);
    assert(session_after(e1).state == State::ServicesResolved);
    assert(e2.drop_last() =~= e1);
    assert(session_after(e2).state == State::FirstCommandAcked);
    assert(e3.drop_last() =~= e2);
    assert(session_after(e3).state == State::CommandsArmed);
    assert(e4.drop_last() =~= e3);
    assert(session_after(e4).state == State::Subscribed);
    assert(e5.drop_last() =~= e4);
    assert(session_after(e5).state == State::Receiving);
    assert(e6.drop_last() =~= e5);
    assert(session_after(e6).state == State::Done);
    assert(session_after(e6).records == initial_session().records);
}

} // verus!
