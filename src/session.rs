//! The session controller: its settings, events, actions and transition.

use vstd::prelude::*;

use crate::count::{parse_count, parse_count_bytes};

verus! {

/// Delivery level "at least once".
pub const QOS_AT_LEAST_ONCE: u8 = 1;

/// Delivery level "exactly once".
pub const QOS_EXACTLY_ONCE: u8 = 2;

/// The beacon payload `online`.
pub open spec fn online_payload() -> Seq<u8> {
    seq![111u8, 110u8, 108u8, 105u8, 110u8, 101u8]
}

/// The beacon payload `offline`, also the last will.
pub open spec fn offline_payload() -> Seq<u8> {
    seq![111u8, 102u8, 102u8, 108u8, 105u8, 110u8, 101u8]
}

/// Builds the beacon payload `online`.
pub fn online_bytes() -> (r: Vec<u8>)
    ensures
        r@ == online_payload(),
{
    let r = vec![111u8, 110u8, 108u8, 105u8, 110u8, 101u8];
    assert(r@ =~= online_payload());
    r
}

/// Builds the beacon payload `offline`.
pub fn offline_bytes() -> (r: Vec<u8>)
    ensures
        r@ == offline_payload(),
{
    let r = vec![111u8, 102u8, 102u8, 108u8, 105u8, 110u8, 101u8];
    assert(r@ =~= offline_payload());
    r
}

/// The four logical channels of the bridge.
pub struct Topics {
    pub transmit: String,
    pub receive: String,
    pub receive_control: String,
    pub availability: String,
}

/// What the controller is configured with; fixed for its lifetime.
pub struct Settings {
    pub topics: Topics,
    /// Largest byte count that one read request may ask for; larger
    /// requests are dropped.
    pub max_read: usize,
    /// Reconnect attempts after a connection loss before giving up.
    pub max_attempts: u32,
    /// Wait before each reconnect attempt, in milliseconds.
    pub retry_interval_ms: u64,
}

pub struct SettingsModel {
    pub transmit: Seq<char>,
    pub receive: Seq<char>,
    pub receive_control: Seq<char>,
    pub availability: Seq<char>,
    pub max_read: nat,
    pub max_attempts: nat,
    pub retry_interval_ms: nat,
}

impl View for Settings {
    type V = SettingsModel;

    open spec fn view(&self) -> SettingsModel {
        SettingsModel {
            transmit: self.topics.transmit@,
            receive: self.topics.receive@,
            receive_control: self.topics.receive_control@,
            availability: self.topics.availability@,
            max_read: self.max_read as nat,
            max_attempts: self.max_attempts as nat,
            retry_interval_ms: self.retry_interval_ms as nat,
        }
    }
}

/// Where the controller stands; each phase but `Listening` and `Stopped`
/// waits for the outcome of the action it last asked for.
#[derive(Clone, Copy, PartialEq, Eq, Structural)]
pub enum Phase {
    Idle,
    Connecting,
    Subscribing,
    Announcing,
    Listening,
    Writing,
    Reading { max: usize },
    Forwarding,
    Reconnecting,
    GoingOffline,
    Disconnecting,
    Stopped { success: bool },
}

/// The broker connection as the controller sees it.
#[derive(Clone, Copy, PartialEq, Eq, Structural)]
pub enum ConnectionState {
    Disconnected,
    Connected,
    Reconnecting,
}

/// The connection state that a phase stands for.
pub open spec fn phase_connection(p: Phase) -> ConnectionState {
    match p {
        Phase::Idle | Phase::Connecting | Phase::Stopped { .. } => ConnectionState::Disconnected,
        Phase::Reconnecting => ConnectionState::Reconnecting,
        _ => ConnectionState::Connected,
    }
}

/// What the runtime reports back: the outcome of the last action, or the
/// next item of the inbound stream.
pub enum Event {
    /// The runtime is ready to run.
    Start,
    /// The initial connect succeeded.
    Connected,
    /// The initial connect failed.
    ConnectFailed,
    /// The subscriptions were issued.
    Subscribed,
    /// A publish was carried out (whether or not the broker took it).
    Published,
    /// A serial write was carried out (whether or not it succeeded).
    Written,
    /// An inbound broker message.
    Message { topic: String, payload: Vec<u8> },
    /// The inbound stream yielded its disconnect sentinel.
    NoMessage,
    /// The inbound stream was stopped; `connected` is the transport's status.
    StreamClosed { connected: bool },
    /// A serial read filled `count` bytes of `buffer`.
    ReadDone { buffer: Vec<u8>, count: usize },
    /// A serial read failed.
    ReadFailed,
    /// A reconnect attempt succeeded.
    Reconnected,
    /// A reconnect attempt failed.
    ReconnectFailed,
    /// A shutdown was requested outside the inbound stream.
    Shutdown,
    /// The broker disconnect was carried out.
    Disconnected,
}

pub enum EventModel {
    Start,
    Connected,
    ConnectFailed,
    Subscribed,
    Published,
    Written,
    Message { topic: Seq<char>, payload: Seq<u8> },
    NoMessage,
    StreamClosed { connected: bool },
    ReadDone { buffer: Seq<u8>, count: nat },
    ReadFailed,
    Reconnected,
    ReconnectFailed,
    Shutdown,
    Disconnected,
}

impl View for Event {
    type V = EventModel;

    open spec fn view(&self) -> EventModel {
        match self {
            Event::Start => EventModel::Start,
            Event::Connected => EventModel::Connected,
            Event::ConnectFailed => EventModel::ConnectFailed,
            Event::Subscribed => EventModel::Subscribed,
            Event::Published => EventModel::Published,
            Event::Written => EventModel::Written,
            Event::Message { topic, payload } => EventModel::Message {
                topic: topic@,
                payload: payload@,
            },
            Event::NoMessage => EventModel::NoMessage,
            Event::StreamClosed { connected } => EventModel::StreamClosed { connected: *connected },
            Event::ReadDone { buffer, count } => EventModel::ReadDone {
                buffer: buffer@,
                count: *count as nat,
            },
            Event::ReadFailed => EventModel::ReadFailed,
            Event::Reconnected => EventModel::Reconnected,
            Event::ReconnectFailed => EventModel::ReconnectFailed,
            Event::Shutdown => EventModel::Shutdown,
            Event::Disconnected => EventModel::Disconnected,
        }
    }
}

/// What the controller asks the runtime to do next.
pub enum Action {
    /// Connect to the broker, registering the last will.
    Connect { will_topic: String, will_payload: Vec<u8>, will_qos: u8, clean_session: bool },
    /// Subscribe to the two inbound topics.
    Subscribe { transmit: String, receive_control: String, qos: u8 },
    /// Publish a liveness beacon.
    Announce { topic: String, payload: Vec<u8>, qos: u8 },
    /// Write bytes to the serial device.
    Write { data: Vec<u8> },
    /// Read at most `max` bytes from the serial device.
    Read { max: usize },
    /// Publish bytes read from the serial device.
    Forward { topic: String, payload: Vec<u8>, qos: u8 },
    /// Wait for the next item of the inbound stream.
    Receive,
    /// Wait `delay_ms`, then attempt a reconnect.
    Reconnect { delay_ms: u64 },
    /// Disconnect from the broker.
    Disconnect,
    /// Leave the loop, with the given outcome.
    Exit { success: bool },
}

pub enum ActionModel {
    Connect { will_topic: Seq<char>, will_payload: Seq<u8>, will_qos: u8, clean_session: bool },
    Subscribe { transmit: Seq<char>, receive_control: Seq<char>, qos: u8 },
    Announce { topic: Seq<char>, payload: Seq<u8>, qos: u8 },
    Write { data: Seq<u8> },
    Read { max: nat },
    Forward { topic: Seq<char>, payload: Seq<u8>, qos: u8 },
    Receive,
    Reconnect { delay_ms: nat },
    Disconnect,
    Exit { success: bool },
}

impl View for Action {
    type V = ActionModel;

    open spec fn view(&self) -> ActionModel {
        match self {
            Action::Connect { will_topic, will_payload, will_qos, clean_session } =>
                ActionModel::Connect {
                    will_topic: will_topic@,
                    will_payload: will_payload@,
                    will_qos: *will_qos,
                    clean_session: *clean_session,
                },
            Action::Subscribe { transmit, receive_control, qos } => ActionModel::Subscribe {
                transmit: transmit@,
                receive_control: receive_control@,
                qos: *qos,
            },
            Action::Announce { topic, payload, qos } => ActionModel::Announce {
                topic: topic@,
                payload: payload@,
                qos: *qos,
            },
            Action::Write { data } => ActionModel::Write { data: data@ },
            Action::Read { max } => ActionModel::Read { max: *max as nat },
            Action::Forward { topic, payload, qos } => ActionModel::Forward {
                topic: topic@,
                payload: payload@,
                qos: *qos,
            },
            Action::Receive => ActionModel::Receive,
            Action::Reconnect { delay_ms } => ActionModel::Reconnect { delay_ms: *delay_ms as nat },
            Action::Disconnect => ActionModel::Disconnect,
            Action::Exit { success } => ActionModel::Exit { success: *success },
        }
    }
}

pub struct ControllerModel {
    pub settings: SettingsModel,
    pub phase: Phase,
    pub attempts: nat,
}

/// Every reachable controller has used no more reconnect attempts than allowed.
pub open spec fn model_wf(c: ControllerModel) -> bool {
    &&& c.attempts <= c.settings.max_attempts
    &&& c.phase is Reconnecting ==> c.attempts < c.settings.max_attempts
    &&& c.settings.max_attempts <= u32::MAX
    &&& c.settings.max_read <= usize::MAX
}

/// The controller in phase `p`, other fields kept.
pub open spec fn with_phase(c: ControllerModel, p: Phase) -> ControllerModel {
    ControllerModel { phase: p, ..c }
}

/// Ends the run as a failure: on a fatal error, or on an event that the
/// current phase does not expect.
pub open spec fn fail_run(c: ControllerModel) -> (ControllerModel, ActionModel) {
    (with_phase(c, Phase::Stopped { success: false }), ActionModel::Exit { success: false })
}

/// Going offline gracefully: publish the `offline` beacon, then disconnect.
pub open spec fn go_offline(c: ControllerModel) -> (ControllerModel, ActionModel) {
    (
        with_phase(c, Phase::GoingOffline),
        ActionModel::Announce {
            topic: c.settings.availability,
            payload: offline_payload(),
            qos: QOS_AT_LEAST_ONCE,
        },
    )
}

/// Stopping without a connection: nothing is left to announce.
pub open spec fn stop_clean(c: ControllerModel) -> (ControllerModel, ActionModel) {
    (with_phase(c, Phase::Stopped { success: true }), ActionModel::Exit { success: true })
}

/// Waiting for the next inbound message.
pub open spec fn listen(c: ControllerModel) -> (ControllerModel, ActionModel) {
    (with_phase(c, Phase::Listening), ActionModel::Receive)
}

/// Subscribing after a connect or a reconnect (subscriptions are reissued
/// on every reconnect, since sessions are clean).
pub open spec fn subscribe(c: ControllerModel) -> (ControllerModel, ActionModel) {
    (
        ControllerModel { phase: Phase::Subscribing, attempts: 0, ..c },
        ActionModel::Subscribe {
            transmit: c.settings.transmit,
            receive_control: c.settings.receive_control,
            qos: QOS_EXACTLY_ONCE,
        },
    )
}

/// One reconnect attempt has failed (or the loss was just seen, when
/// `failed` is 0): try again after the interval, or give up.
pub open spec fn retry(c: ControllerModel, failed: nat) -> (ControllerModel, ActionModel) {
    if failed >= c.settings.max_attempts {
        (
            ControllerModel { phase: Phase::Stopped { success: false }, attempts: failed, ..c },
            ActionModel::Exit { success: false },
        )
    } else {
        (
            ControllerModel { phase: Phase::Reconnecting, attempts: failed, ..c },
            ActionModel::Reconnect { delay_ms: c.settings.retry_interval_ms },
        )
    }
}

/// How an inbound message is dispatched.
pub open spec fn dispatch(c: ControllerModel, topic: Seq<char>, payload: Seq<u8>) -> (
    ControllerModel,
    ActionModel,
) {
    if topic == c.settings.transmit {
        (with_phase(c, Phase::Writing), ActionModel::Write { data: payload })
    } else if topic == c.settings.receive_control {
        match parse_count(payload) {
            Some(n) => if n <= c.settings.max_read {
                (with_phase(c, Phase::Reading { max: n as usize }), ActionModel::Read { max: n })
            } else {
                listen(c)
            },
            None => listen(c),
        }
    } else {
        listen(c)
    }
}

/// The controller's transition: the next state and the action to take.
pub open spec fn next(c: ControllerModel, e: EventModel) -> (ControllerModel, ActionModel) {
    match c.phase {
        Phase::Idle => match e {
            EventModel::Start => (
                with_phase(c, Phase::Connecting),
                ActionModel::Connect {
                    will_topic: c.settings.availability,
                    will_payload: offline_payload(),
                    will_qos: QOS_AT_LEAST_ONCE,
                    clean_session: true,
                },
            ),
            EventModel::Shutdown => stop_clean(c),
            _ => fail_run(c),
        },
        Phase::Connecting => match e {
            EventModel::Connected => subscribe(c),
            EventModel::ConnectFailed => fail_run(c),
            EventModel::Shutdown => stop_clean(c),
            _ => fail_run(c),
        },
        Phase::Subscribing => match e {
            EventModel::Subscribed => (
                with_phase(c, Phase::Announcing),
                ActionModel::Announce {
                    topic: c.settings.availability,
                    payload: online_payload(),
                    qos: QOS_AT_LEAST_ONCE,
                },
            ),
            EventModel::Shutdown => go_offline(c),
            _ => fail_run(c),
        },
        Phase::Announcing | Phase::Forwarding => match e {
            EventModel::Published => listen(c),
            EventModel::Shutdown => go_offline(c),
            _ => fail_run(c),
        },
        Phase::Writing => match e {
            EventModel::Written => listen(c),
            EventModel::Shutdown => go_offline(c),
            _ => fail_run(c),
        },
        Phase::Reading { max } => match e {
            EventModel::ReadDone { buffer, count } => if count <= max && count <= buffer.len() {
                (
                    with_phase(c, Phase::Forwarding),
                    ActionModel::Forward {
                        topic: c.settings.receive,
                        payload: buffer.subrange(0, count as int),
                        qos: QOS_AT_LEAST_ONCE,
                    },
                )
            } else {
                listen(c)
            },
            EventModel::ReadFailed => listen(c),
            EventModel::Shutdown => go_offline(c),
            _ => fail_run(c),
        },
        Phase::Listening => match e {
            EventModel::Message { topic, payload } => dispatch(c, topic, payload),
            EventModel::NoMessage => retry(c, 0),
            EventModel::StreamClosed { connected } => if connected {
                go_offline(c)
            } else {
                stop_clean(c)
            },
            EventModel::Shutdown => go_offline(c),
            _ => fail_run(c),
        },
        Phase::Reconnecting => match e {
            EventModel::Reconnected => subscribe(c),
            EventModel::ReconnectFailed => retry(c, c.attempts + 1),
            EventModel::Shutdown => stop_clean(c),
            _ => fail_run(c),
        },
        Phase::GoingOffline => match e {
            EventModel::Published => (with_phase(c, Phase::Disconnecting), ActionModel::Disconnect),
            _ => fail_run(c),
        },
        Phase::Disconnecting => match e {
            EventModel::Disconnected => stop_clean(c),
            _ => fail_run(c),
        },
        Phase::Stopped { success } => (c, ActionModel::Exit { success }),
    }
}

/// The controller before it has started.
pub open spec fn initial(settings: SettingsModel) -> ControllerModel {
    ControllerModel { settings, phase: Phase::Idle, attempts: 0 }
}

/// The session controller and message router: a state machine that the
/// runtime feeds with events and that answers each with one action.
pub struct Controller {
    settings: Settings,
    phase: Phase,
    attempts: u32,
}

impl View for Controller {
    type V = ControllerModel;

    closed spec fn view(&self) -> ControllerModel {
        ControllerModel {
            settings: self.settings@,
            phase: self.phase,
            attempts: self.attempts as nat,
        }
    }
}

impl Controller {
    pub open spec fn wf(&self) -> bool {
        model_wf(self@)
    }

    /// A controller that has not started yet.
    pub fn new(settings: Settings) -> (r: Controller)
        ensures
            r@ == initial(settings@),
            r.wf(),
    {
        Controller { settings, phase: Phase::Idle, attempts: 0 }
    }

    /// The current phase.
    pub fn phase(&self) -> (r: Phase)
        ensures
            r == self@.phase,
    {
        self.phase
    }

    /// Reconnect attempts that have failed since the last connection loss.
    pub fn attempts(&self) -> (r: u32)
        ensures
            r as nat == self@.attempts,
    {
        self.attempts
    }

    /// The broker connection as the controller sees it.
    pub fn connection_state(&self) -> (r: ConnectionState)
        ensures
            r == phase_connection(self@.phase),
    {
        match self.phase {
            Phase::Idle | Phase::Connecting | Phase::Stopped { .. } => ConnectionState::Disconnected,
            Phase::Reconnecting => ConnectionState::Reconnecting,
            _ => ConnectionState::Connected,
        }
    }

    /// Whether the run is over.
    pub fn is_stopped(&self) -> (r: bool)
        ensures
            r == (self@.phase is Stopped),
    {
        match self.phase {
            Phase::Stopped { .. } => true,
            _ => false,
        }
    }

    fn fail(&mut self) -> (a: Action)
        requires
            old(self).wf(),
        ensures
            final(self).wf(),
            (final(self)@, a@) == fail_run(old(self)@),
    {
        self.phase = Phase::Stopped { success: false };
        Action::Exit { success: false }
    }

    fn stop_clean(&mut self) -> (a: Action)
        requires
            old(self).wf(),
        ensures
            final(self).wf(),
            (final(self)@, a@) == stop_clean(old(self)@),
    {
        self.phase = Phase::Stopped { success: true };
        Action::Exit { success: true }
    }

    fn listen(&mut self) -> (a: Action)
        requires
            old(self).wf(),
        ensures
            final(self).wf(),
            (final(self)@, a@) == listen(old(self)@),
    {
        self.phase = Phase::Listening;
        Action::Receive
    }

    fn go_offline(&mut self) -> (a: Action)
        requires
            old(self).wf(),
        ensures
            final(self).wf(),
            (final(self)@, a@) == go_offline(old(self)@),
    {
        self.phase = Phase::GoingOffline;
        Action::Announce {
            topic: self.settings.topics.availability.clone(),
            payload: offline_bytes(),
            qos: QOS_AT_LEAST_ONCE,
        }
    }

    fn subscribe(&mut self) -> (a: Action)
        requires
            old(self).wf(),
        ensures
            final(self).wf(),
            (final(self)@, a@) == subscribe(old(self)@),
    {
        self.phase = Phase::Subscribing;
        self.attempts = 0;
        Action::Subscribe {
            transmit: self.settings.topics.transmit.clone(),
            receive_control: self.settings.topics.receive_control.clone(),
            qos: QOS_EXACTLY_ONCE,
        }
    }

    fn retry(&mut self, failed: u32) -> (a: Action)
        requires
            old(self).wf(),
            failed <= old(self)@.settings.max_attempts,
        ensures
            final(self).wf(),
            (final(self)@, a@) == retry(old(self)@, failed as nat),
    {
        self.attempts = failed;
        if failed >= self.settings.max_attempts {
            self.phase = Phase::Stopped { success: false };
            Action::Exit { success: false }
        } else {
            self.phase = Phase::Reconnecting;
            Action::Reconnect { delay_ms: self.settings.retry_interval_ms }
        }
    }

    fn dispatch(&mut self, topic: String, payload: Vec<u8>) -> (a: Action)
        requires
            old(self).wf(),
        ensures
            final(self).wf(),
            (final(self)@, a@) == dispatch(old(self)@, topic@, payload@),
    {
        if topic == self.settings.topics.transmit {
            self.phase = Phase::Writing;
            Action::Write { data: payload }
        } else if topic == self.settings.topics.receive_control {
            match parse_count_bytes(payload.as_slice()) {
                Some(n) => {
                    if n <= self.settings.max_read {
                        self.phase = Phase::Reading { max: n };
                        Action::Read { max: n }
                    } else {
                        self.listen()
                    }
                },
                None => self.listen(),
            }
        } else {
            self.listen()
        }
    }

    /// Advances the controller by one event and says what to do next.
    pub fn step(&mut self, e: Event) -> (a: Action)
        requires
            old(self).wf(),
        ensures
            final(self).wf(),
            (final(self)@, a@) == next(old(self)@, e@),
    {
        match self.phase {
            Phase::Idle => match e {
                Event::Start => {
                    self.phase = Phase::Connecting;
                    Action::Connect {
                        will_topic: self.settings.topics.availability.clone(),
                        will_payload: offline_bytes(),
                        will_qos: QOS_AT_LEAST_ONCE,
                        clean_session: true,
                    }
                },
                Event::Shutdown => self.stop_clean(),
                _ => self.fail(),
            },
            Phase::Connecting => match e {
                Event::Connected => self.subscribe(),
                Event::Shutdown => self.stop_clean(),
                _ => self.fail(),
            },
            Phase::Subscribing => match e {
                Event::Subscribed => {
                    self.phase = Phase::Announcing;
                    Action::Announce {
                        topic: self.settings.topics.availability.clone(),
                        payload: online_bytes(),
                        qos: QOS_AT_LEAST_ONCE,
                    }
                },
                Event::Shutdown => self.go_offline(),
                _ => self.fail(),
            },
            Phase::Announcing | Phase::Forwarding => match e {
                Event::Published => self.listen(),
                Event::Shutdown => self.go_offline(),
                _ => self.fail(),
            },
            Phase::Writing => match e {
                Event::Written => self.listen(),
                Event::Shutdown => self.go_offline(),
                _ => self.fail(),
            },
            Phase::Reading { max } => match e {
                Event::ReadDone { buffer, count } => {
                    if count <= max && count <= buffer.len() {
                        let mut payload = buffer;
                        payload.truncate(count);
                        self.phase = Phase::Forwarding;
                        Action::Forward {
                            topic: self.settings.topics.receive.clone(),
                            payload,
                            qos: QOS_AT_LEAST_ONCE,
                        }
                    } else {
                        self.listen()
                    }
                },
                Event::ReadFailed => self.listen(),
                Event::Shutdown => self.go_offline(),
                _ => self.fail(),
            },
            Phase::Listening => match e {
                Event::Message { topic, payload } => self.dispatch(topic, payload),
                Event::NoMessage => self.retry(0),
                Event::StreamClosed { connected } => {
                    if connected {
                        self.go_offline()
                    } else {
                        self.stop_clean()
                    }
                },
                Event::Shutdown => self.go_offline(),
                _ => self.fail(),
            },
            Phase::Reconnecting => match e {
                Event::Reconnected => self.subscribe(),
                Event::ReconnectFailed => {
                    let failed = self.attempts + 1;
                    self.retry(failed)
                },
                Event::Shutdown => self.stop_clean(),
                _ => self.fail(),
            },
            Phase::GoingOffline => match e {
                Event::Published => {
                    self.phase = Phase::Disconnecting;
                    Action::Disconnect
                },
                _ => self.fail(),
            },
            Phase::Disconnecting => match e {
                Event::Disconnected => self.stop_clean(),
                _ => self.fail(),
            },
            Phase::Stopped { success } => Action::Exit { success },
        }
    }
}

} // verus!
