//! The MQTT session state machine and its reconnect backoff.
use vstd::prelude::*;

use crate::command::{command_of, command_topic, Command, COMMANDS_TOPIC_BASE};
use crate::queue::{after_enqueue, enqueue_accepts};
use crate::sample::Sample;

verus! {

/// TCP port of the broker.
pub const BROKER_PORT: u16 = 1883;

/// Keep-alive announced in CONNECT, in seconds.
pub const KEEP_ALIVE_SECS: u16 = 120;

/// How long to wait for the CONNECT acknowledgement, in seconds.
pub const CONNECT_TIMEOUT_SECS: u64 = 10;

/// Bound on one poll of protocol I/O, in milliseconds.
pub const IO_POLL_TIMEOUT_MS: u64 = 6000;

/// Samples published per wake after the first, so protocol I/O is not starved.
pub const PUBLISH_BURST: usize = 4;

/// First retry delay, in seconds.
pub const INITIAL_BACKOFF_SECS: u64 = 1;

/// Largest retry delay, in seconds.
pub const MAX_BACKOFF_SECS: u64 = 30;

/// Where a session attempt stands.
#[derive(Clone, Copy, Debug, PartialEq, Eq, Structural)]
pub enum Phase {
    Disconnected,
    TcpConnecting,
    MqttConnecting,
    Connected,
}

/// Delivery guarantee of a publish or subscription.
#[derive(Clone, Copy, Debug, PartialEq, Eq, Structural)]
pub enum QoS {
    AtMostOnce,
    AtLeastOnce,
}

/// What the outside world reports to the session.
pub enum Event {
    /// The "Wi-Fi up" signal is set.
    WifiUp,
    /// The TCP connection to the broker is open.
    TcpConnected,
    /// The TCP connect attempt failed or timed out.
    TcpFailed,
    /// The broker acknowledged CONNECT within the timeout.
    ConnAck,
    /// CONNECT could not be sent, was rejected, or was not acknowledged in time.
    ConnectFailed,
    /// A sample was taken from the queue for publishing.
    SampleReady(Sample),
    /// Publishing this sample failed.
    PublishFailed(Sample),
    /// An inbound publish arrived.
    Received { topic: String, payload: Vec<u8> },
    /// The broker closed the session.
    PeerDisconnected,
    /// Protocol I/O or its timers failed.
    IoError,
    /// A poll ended with nothing that needs handling.
    Idle,
}

/// What the session asks the outside world to do, in order.
#[derive(Clone, Copy, Debug, PartialEq, Eq, Structural)]
pub enum Action {
    /// Open a TCP connection to the broker on this port.
    OpenTcp { port: u16 },
    /// Send CONNECT and wait for its acknowledgement.
    SendConnect { clean_session: bool, keep_alive_secs: u16, ack_timeout_secs: u64 },
    /// Wait this long before the next attempt.
    Sleep { secs: u64 },
    /// Raise the "MQTT ready" signal.
    SignalReady,
    /// Subscribe to the device's command topic.
    Subscribe { qos: QoS },
    /// Publish this sample's payload on the telemetry topic.
    Publish { sample: Sample, qos: QoS, retain: bool },
    /// Put this sample back into the sample queue.
    Requeue(Sample),
    /// Raise the "MQTT down" signal.
    SignalDown,
    /// Hand this command to the command channel.
    Execute(Command),
}

/// The MQTT session state machine: the phase of the current attempt, the
/// delay before the next retry, and the topic that carries commands.
pub struct Session {
    pub phase: Phase,
    pub backoff_secs: u64,
    pub command_topic: String,
}

/// The retry delay after one more failure: doubled, at most 30 seconds.
pub open spec fn doubled(b: u64) -> u64 {
    if b >= MAX_BACKOFF_SECS / 2 {
        MAX_BACKOFF_SECS
    } else {
        (2 * b) as u64
    }
}

/// A failed connect attempt: back to `Disconnected` after sleeping the
/// current delay, which doubles.
pub open spec fn connect_failed(s: Session) -> (Session, Seq<Action>) {
    (
        Session {
            phase: Phase::Disconnected,
            backoff_secs: doubled(s.backoff_secs),
            command_topic: s.command_topic,
        },
        seq![Action::Sleep { secs: s.backoff_secs }],
    )
}

/// A lost session: back to `Disconnected`, signalling "down"; the delay is kept.
pub open spec fn session_lost(s: Session, first: Seq<Action>) -> (Session, Seq<Action>) {
    (
        Session {
            phase: Phase::Disconnected,
            backoff_secs: s.backoff_secs,
            command_topic: s.command_topic,
        },
        first.push(Action::SignalDown),
    )
}

/// `s` in another phase, all else kept.
pub open spec fn in_phase(s: Session, phase: Phase) -> Session {
    Session { phase, backoff_secs: s.backoff_secs, command_topic: s.command_topic }
}

/// One transition: the next state and the actions to perform, in order.
/// Events that do not fit the phase change nothing.
pub open spec fn step_spec(s: Session, e: Event) -> (Session, Seq<Action>) {
    match s.phase {
        Phase::Disconnected => match e {
            Event::WifiUp => (
                in_phase(s, Phase::TcpConnecting),
                seq![Action::OpenTcp { port: BROKER_PORT }],
            ),
            _ => (s, Seq::empty()),
        },
        Phase::TcpConnecting => match e {
            Event::TcpConnected => (
                in_phase(s, Phase::MqttConnecting),
                seq![
                    Action::SendConnect {
                        clean_session: true,
                        keep_alive_secs: KEEP_ALIVE_SECS,
                        ack_timeout_secs: CONNECT_TIMEOUT_SECS,
                    },
                ],
            ),
            Event::TcpFailed => connect_failed(s),
            _ => (s, Seq::empty()),
        },
        Phase::MqttConnecting => match e {
            Event::ConnAck => (
                Session {
                    phase: Phase::Connected,
                    backoff_secs: INITIAL_BACKOFF_SECS,
                    command_topic: s.command_topic,
                },
                seq![Action::SignalReady, Action::Subscribe { qos: QoS::AtMostOnce }],
            ),
            Event::ConnectFailed => connect_failed(s),
            Event::PeerDisconnected => connect_failed(s),
            Event::IoError => connect_failed(s),
            _ => (s, Seq::empty()),
        },
        Phase::Connected => match e {
            Event::SampleReady(sample) => (
                s,
                seq![Action::Publish { sample, qos: QoS::AtLeastOnce, retain: false }],
            ),
            Event::PublishFailed(sample) => session_lost(s, seq![Action::Requeue(sample)]),
            Event::Received { topic, payload } => (
                s,
                if topic@ == s.command_topic@ && command_of(payload@) is Some {
                    seq![Action::Execute(command_of(payload@)->Some_0)]
                } else {
                    Seq::empty()
                },
            ),
            Event::PeerDisconnected => session_lost(s, Seq::empty()),
            Event::IoError => session_lost(s, Seq::empty()),
            _ => (s, Seq::empty()),
        },
    }
}

/// Publishes still allowed in the current wake, after the one that woke the
/// publisher; bounded so that protocol I/O is not starved.
pub struct Burst {
    pub left: usize,
}

impl Burst {
    /// No burst in progress.
    pub fn new() -> (r: Burst)
        ensures
            r.left == 0,
    {
        Burst { left: 0 }
    }

    /// A wake: up to `PUBLISH_BURST` more samples may follow.
    pub fn start(&mut self)
        ensures
            final(self).left == PUBLISH_BURST,
    {
        self.left = PUBLISH_BURST;
    }

    /// Whether one more sample may be published in this wake; counts it.
    pub fn take(&mut self) -> (r: bool)
        ensures
            r == (old(self).left > 0),
            r ==> final(self).left == old(self).left - 1,
            !r ==> final(self).left == 0,
    {
        if self.left > 0 {
            self.left = self.left - 1;
            true
        } else {
            false
        }
    }

    /// Ends the burst: the queue ran dry or the session went down.
    pub fn stop(&mut self)
        ensures
            final(self).left == 0,
    {
        self.left = 0;
    }
}

/// The retry delay that follows `secs`: doubled, at most 30 seconds.
pub fn next_backoff(secs: u64) -> (r: u64)
    requires
        secs <= MAX_BACKOFF_SECS,
    ensures
        r == doubled(secs),
{
    if secs >= MAX_BACKOFF_SECS / 2 {
        MAX_BACKOFF_SECS
    } else {
        2 * secs
    }
}

impl Session {
    /// The retry delay stays within 1..=30 seconds.
    pub open spec fn wf(&self) -> bool {
        INITIAL_BACKOFF_SECS <= self.backoff_secs <= MAX_BACKOFF_SECS
    }

    /// A disconnected session for `client_id`, retry delay 1 second,
    /// listening for commands on `sensors/command/<client_id>`.
    pub fn new(client_id: &str) -> (r: Session)
        ensures
            r.wf(),
            r.phase == Phase::Disconnected,
            r.backoff_secs == INITIAL_BACKOFF_SECS,
            r.command_topic@ == COMMANDS_TOPIC_BASE@ + seq!['/'] + client_id@,
    {
        Session {
            phase: Phase::Disconnected,
            backoff_secs: INITIAL_BACKOFF_SECS,
            command_topic: command_topic(client_id),
        }
    }

    fn fail_connect(&mut self) -> (r: Vec<Action>)
        requires
            old(self).wf(),
        ensures
            (*final(self), r@) == connect_failed(*old(self)),
    {
        let secs = self.backoff_secs;
        self.phase = Phase::Disconnected;
        self.backoff_secs = next_backoff(secs);
        let mut r: Vec<Action> = Vec::new();
        r.push(Action::Sleep { secs });
        assert(r@ =~= seq![Action::Sleep { secs }]);
        r
    }

    fn lose(&mut self, mut first: Vec<Action>) -> (r: Vec<Action>)
        ensures
            (*final(self), r@) == session_lost(*old(self), first@),
    {
        self.phase = Phase::Disconnected;
        first.push(Action::SignalDown);
        first
    }

    /// Feeds one event to the state machine and returns the actions to
    /// perform, in order.
    pub fn step(&mut self, event: Event) -> (r: Vec<Action>)
        requires
            old(self).wf(),
        ensures
            final(self).wf(),
            (*final(self), r@) == step_spec(*old(self), event),
    {
        let mut r: Vec<Action> = Vec::new();
        match self.phase {
            Phase::Disconnected => match event {
                Event::WifiUp => {
                    self.phase = Phase::TcpConnecting;
                    r.push(Action::OpenTcp { port: BROKER_PORT });
                    assert(r@ =~= seq![Action::OpenTcp { port: BROKER_PORT }]);
                },
                _ => {},
            },
            Phase::TcpConnecting => match event {
                Event::TcpConnected => {
                    self.phase = Phase::MqttConnecting;
                    let a = Action::SendConnect {
                        clean_session: true,
                        keep_alive_secs: KEEP_ALIVE_SECS,
                        ack_timeout_secs: CONNECT_TIMEOUT_SECS,
                    };
                    r.push(a);
                    assert(r@ =~= seq![a]);
                },
                Event::TcpFailed => {
                    r = self.fail_connect();
                },
                _ => {},
            },
            Phase::MqttConnecting => match event {
                Event::ConnAck => {
                    self.phase = Phase::Connected;
                    self.backoff_secs = INITIAL_BACKOFF_SECS;
                    r.push(Action::SignalReady);
                    r.push(Action::Subscribe { qos: QoS::AtMostOnce });
                    assert(r@ =~= seq![Action::SignalReady, Action::Subscribe { qos: QoS::AtMostOnce }]);
                },
                Event::ConnectFailed => {
                    r = self.fail_connect();
                },
                Event::PeerDisconnected => {
                    r = self.fail_connect();
                },
                Event::IoError => {
                    r = self.fail_connect();
                },
                _ => {},
            },
            Phase::Connected => match event {
                Event::SampleReady(sample) => {
                    let a = Action::Publish { sample, qos: QoS::AtLeastOnce, retain: false };
                    r.push(a);
                    assert(r@ =~= seq![a]);
                },
                Event::PublishFailed(sample) => {
                    r.push(Action::Requeue(sample));
                    assert(r@ =~= seq![Action::Requeue(sample)]);
                    r = self.lose(r);
                },
                Event::Received { topic, payload } => {
                    if topic == self.command_topic {
                        match Command::try_from(payload.as_slice()) {
                            Ok(command) => {
                                r.push(Action::Execute(command));
                                assert(r@ =~= seq![Action::Execute(command)]);
                            },
                            Err(_) => {},
                        }
                    }
                },
                Event::PeerDisconnected => {
                    r = self.lose(r);
                },
                Event::IoError => {
                    r = self.lose(r);
                },
                _ => {},
            },
        }
        assert(r@ == step_spec(*old(self), event).1);
        r
    }
}

/// Runs `events` in order from `s`: the final state and every action, in order.
pub open spec fn run(s: Session, events: Seq<Event>) -> (Session, Seq<Action>)
    decreases events.len(),
{
    if events.len() == 0 {
        (s, Seq::empty())
    } else {
        let (s1, a1) = step_spec(s, events[0]);
        let (s2, a2) = run(s1, events.drop_first());
        (s2, a1 + a2)
    }
}

/// The delays of the `Sleep` actions among `actions`, in order.
pub open spec fn sleeps(actions: Seq<Action>) -> Seq<u64>
    decreases actions.len(),
{
    if actions.len() == 0 {
        Seq::empty()
    } else {
        (match actions[0] {
            Action::Sleep { secs } => seq![secs],
            _ => Seq::empty(),
        }) + sleeps(actions.drop_first())
    }
}

/// The events of one failed connect attempt: Wi-Fi up, then either the TCP
/// connect fails (`tcp`) or it succeeds and CONNECT fails.
pub open spec fn failed_attempt(tcp: bool) -> Seq<Event> {
    if tcp {
        seq![Event::WifiUp, Event::TcpFailed]
    } else {
        seq![Event::WifiUp, Event::TcpConnected, Event::ConnectFailed]
    }
}

/// Consecutive failed attempts, one per entry of `kinds` (see `failed_attempt`).
pub open spec fn failed_attempts(kinds: Seq<bool>) -> Seq<Event>
    decreases kinds.len(),
{
    if kinds.len() == 0 {
        Seq::empty()
    } else {
        failed_attempt(kinds[0]) + failed_attempts(kinds.drop_first())
    }
}

/// 2 to the power `n`.
pub open spec fn two_to(n: nat) -> nat
    decreases n,
{
    if n == 0 {
        1
    } else {
        2 * two_to((n - 1) as nat)
    }
}

/// The delay before the `n`-th retry (`n >= 1`): min(2^(n-1), 30) seconds.
pub open spec fn retry_delay(n: nat) -> u64 {
    if two_to((n - 1) as nat) < MAX_BACKOFF_SECS {
        two_to((n - 1) as nat) as u64
    } else {
        MAX_BACKOFF_SECS
    }
}

/// The delay after `n` doublings of `b`.
pub open spec fn doubled_times(b: u64, n: nat) -> u64
    decreases n,
{
    if n == 0 {
        b
    } else {
        doubled(doubled_times(b, (n - 1) as nat))
    }
}

proof fn lemma_run_concat(s: Session, a: Seq<Event>, b: Seq<Event>)
    ensures
        run(s, a + b) == (run(run(s, a).0, b).0, run(s, a).1 + run(run(s, a).0, b).1),
    decreases a.len(),
{
    if a.len() == 0 {
        assert(a + b =~= b);
        assert(run(s, a).1 + run(s, b).1 =~= run(s, b).1);
    } else {
        assert((a + b).drop_first() =~= a.drop_first() + b);
        let (s1, a1) = step_spec(s, a[0]);
        lemma_run_concat(s1, a.drop_first(), b);
        let mid = run(s1, a.drop_first());
        assert(a1 + (mid.1 + run(mid.0, b).1) =~= (a1 + mid.1) + run(mid.0, b).1);
    }
}

proof fn lemma_sleeps_concat(a: Seq<Action>, b: Seq<Action>)
    ensures
        sleeps(a + b) == sleeps(a) + sleeps(b),
    decreases a.len(),
{
    if a.len() == 0 {
        assert(a + b =~= b);
        assert(sleeps(a) + sleeps(b) =~= sleeps(b));
    } else {
        assert((a + b).drop_first() =~= a.drop_first() + b);
        lemma_sleeps_concat(a.drop_first(), b);
        let head = match a[0] {
            Action::Sleep { secs } => seq![secs],
            _ => Seq::<u64>::empty(),
        };
        assert(head + (sleeps(a.drop_first()) + sleeps(b)) =~= (head + sleeps(a.drop_first()))
            + sleeps(b));
    }
}

proof fn lemma_run_one(s: Session, events: Seq<Event>)
    requires
        events.len() == 1,
    ensures
        run(s, events) == step_spec(s, events[0]),
{
    assert(events.drop_first() =~= Seq::<Event>::empty());
    let (s1, a1) = step_spec(s, events[0]);
    assert(run(s1, events.drop_first()) == (s1, Seq::<Action>::empty()));
    assert(a1 + Seq::<Action>::empty() =~= a1);
}

proof fn lemma_sleeps_one(a: Action)
    ensures
        sleeps(seq![a]) == (match a {
            Action::Sleep { secs } => seq![secs],
            _ => Seq::<u64>::empty(),
        }),
{
    let s = seq![a];
    assert(s.drop_first() =~= Seq::<Action>::empty());
    assert(sleeps(s.drop_first()) == Seq::<u64>::empty());
    let head = match a {
        Action::Sleep { secs } => seq![secs],
        _ => Seq::<u64>::empty(),
    };
    assert(head + Seq::<u64>::empty() =~= head);
}

proof fn lemma_failed_attempt(s: Session, tcp: bool)
    requires
        s.phase == Phase::Disconnected,
        s.wf(),
    ensures
        run(s, failed_attempt(tcp)).0 == connect_failed(s).0,
        sleeps(run(s, failed_attempt(tcp)).1) == seq![s.backoff_secs],
{
    let evs = failed_attempt(tcp);
    let s1 = in_phase(s, Phase::TcpConnecting);
    let open = Action::OpenTcp { port: BROKER_PORT };
    let sleep = Action::Sleep { secs: s.backoff_secs };
    let fin = connect_failed(s).0;
    lemma_sleeps_one(open);
    lemma_sleeps_one(sleep);
    let rest = evs.drop_first();
    if tcp {
        lemma_run_one(s1, rest);
        assert(run(s1, rest) == (fin, seq![sleep]));
        assert(run(s, evs) == (fin, seq![open] + seq![sleep]));
        lemma_sleeps_concat(seq![open], seq![sleep]);
        assert(sleeps(seq![open]) + sleeps(seq![sleep]) =~= seq![s.backoff_secs]);
    } else {
        let s2 = in_phase(s, Phase::MqttConnecting);
        let conn = Action::SendConnect {
            clean_session: true,
            keep_alive_secs: KEEP_ALIVE_SECS,
            ack_timeout_secs: CONNECT_TIMEOUT_SECS,
        };
        lemma_sleeps_one(conn);
        lemma_run_one(s2, rest.drop_first());
        assert(run(s2, rest.drop_first()) == (fin, seq![sleep]));
        assert(run(s1, rest) == (fin, seq![conn] + seq![sleep]));
        assert(run(s, evs) == (fin, seq![open] + (seq![conn] + seq![sleep])));
        lemma_sleeps_concat(seq![conn], seq![sleep]);
        lemma_sleeps_concat(seq![open], seq![conn] + seq![sleep]);
        assert(sleeps(seq![open]) + (sleeps(seq![conn]) + sleeps(seq![sleep])) =~= seq![
            s.backoff_secs,
        ]);
    }
}

proof fn lemma_doubled_times_shift(b: u64, n: nat)
    ensures
        doubled_times(doubled(b), n) == doubled_times(b, n + 1),
    decreases n,
{
    assert(doubled_times(b, n + 1) == doubled(doubled_times(b, n)));
    if n > 0 {
        lemma_doubled_times_shift(b, (n - 1) as nat);
        assert(doubled_times(doubled(b), n) == doubled(doubled_times(doubled(b), (n - 1) as nat)));
    }
}

proof fn lemma_failed_attempts(s: Session, kinds: Seq<bool>)
    requires
        s.phase == Phase::Disconnected,
        s.wf(),
    ensures
        run(s, failed_attempts(kinds)).0.phase == Phase::Disconnected,
        run(s, failed_attempts(kinds)).0.backoff_secs == doubled_times(s.backoff_secs, kinds.len()),
        run(s, failed_attempts(kinds)).0.command_topic == s.command_topic,
        sleeps(run(s, failed_attempts(kinds)).1) =~= Seq::new(
            kinds.len(),
            |i: int| doubled_times(s.backoff_secs, i as nat),
        ),
    decreases kinds.len(),
{
    if kinds.len() == 0 {
        assert(failed_attempts(kinds) =~= Seq::<Event>::empty());
        assert(sleeps(Seq::<Action>::empty()) =~= Seq::<u64>::empty());
    } else {
        let first = failed_attempt(kinds[0]);
        let rest = failed_attempts(kinds.drop_first());
        lemma_run_concat(s, first, rest);
        lemma_failed_attempt(s, kinds[0]);
        let s1 = run(s, first).0;
        lemma_failed_attempts(s1, kinds.drop_first());
        lemma_sleeps_concat(run(s, first).1, run(s1, rest).1);
        let b = s.backoff_secs;
        assert forall|i: int| 0 <= i < kinds.len() - 1 implies #[trigger] doubled_times(doubled(b), i as nat)
            == doubled_times(b, (i + 1) as nat) by {
            lemma_doubled_times_shift(b, i as nat);
        }
        lemma_doubled_times_shift(b, (kinds.len() - 1) as nat);
    }
}

proof fn lemma_doubled_times_from_one(n: nat)
    ensures
        doubled_times(INITIAL_BACKOFF_SECS, n) == retry_delay(n + 1),
        two_to(n) >= 1,
    decreases n,
{
    if n > 0 {
        lemma_doubled_times_from_one((n - 1) as nat);
    }
}

/// Exponential backoff: from a disconnected session whose delay is 1 second
/// (a new session, or one that has just connected), `n` consecutive failed
/// connect attempts, each failing at TCP or at CONNECT, sleep 1, 2, 4, ...
/// seconds: the `k`-th retry waits min(2^(k-1), 30) seconds.
pub proof fn lemma_backoff(s: Session, kinds: Seq<bool>)
    requires
        s.phase == Phase::Disconnected,
        s.backoff_secs == INITIAL_BACKOFF_SECS,
    ensures
        sleeps(run(s, failed_attempts(kinds)).1) =~= Seq::new(
            kinds.len(),
            |i: int| retry_delay((i + 1) as nat),
        ),
        run(s, failed_attempts(kinds)).0.phase == Phase::Disconnected,
{
    lemma_failed_attempts(s, kinds);
    assert forall|i: int| 0 <= i < kinds.len() implies #[trigger] doubled_times(
        INITIAL_BACKOFF_SECS,
        i as nat,
    ) == retry_delay((i + 1) as nat) by {
        lemma_doubled_times_from_one(i as nat);
    }
}

/// Connect then publish: from a disconnected session, Wi-Fi up, a successful
/// TCP connect, an acknowledged CONNECT and one queued sample give, in
/// order, the TCP open on port 1883, a clean-session CONNECT (keep-alive
/// 120 s, acknowledgement within 10 s), the "ready" signal, the command
/// subscription, and exactly one at-least-once, non-retained publish of
/// that sample; the delay is back at 1 second.
pub proof fn lemma_connect_then_publish(s: Session, sample: Sample)
    requires
        s.phase == Phase::Disconnected,
        s.wf(),
    ensures
        run(
            s,
            seq![Event::WifiUp, Event::TcpConnected, Event::ConnAck, Event::SampleReady(sample)],
        ).1 == seq![
            Action::OpenTcp { port: BROKER_PORT },
            Action::SendConnect {
                clean_session: true,
                keep_alive_secs: KEEP_ALIVE_SECS,
                ack_timeout_secs: CONNECT_TIMEOUT_SECS,
            },
            Action::SignalReady,
            Action::Subscribe { qos: QoS::AtMostOnce },
            Action::Publish { sample, qos: QoS::AtLeastOnce, retain: false },
        ],
        run(
            s,
            seq![Event::WifiUp, Event::TcpConnected, Event::ConnAck, Event::SampleReady(sample)],
        ).0.phase == Phase::Connected,
        run(
            s,
            seq![Event::WifiUp, Event::TcpConnected, Event::ConnAck, Event::SampleReady(sample)],
        ).0.backoff_secs == INITIAL_BACKOFF_SECS,
{
    let e = seq![Event::WifiUp, Event::TcpConnected, Event::ConnAck, Event::SampleReady(sample)];
    let e1 = e.drop_first();
    let e2 = e1.drop_first();
    let e3 = e2.drop_first();
    let s1 = in_phase(s, Phase::TcpConnecting);
    let s2 = in_phase(s, Phase::MqttConnecting);
    let s3 = Session {
        phase: Phase::Connected,
        backoff_secs: INITIAL_BACKOFF_SECS,
        command_topic: s.command_topic,
    };
    let a1 = seq![Action::OpenTcp { port: BROKER_PORT }];
    let a2 = seq![
        Action::SendConnect {
            clean_session: true,
            keep_alive_secs: KEEP_ALIVE_SECS,
            ack_timeout_secs: CONNECT_TIMEOUT_SECS,
        },
    ];
    let a3 = seq![Action::SignalReady, Action::Subscribe { qos: QoS::AtMostOnce }];
    let a4 = seq![Action::Publish { sample, qos: QoS::AtLeastOnce, retain: false }];
    lemma_run_one(s3, e3);
    assert(run(s3, e3) == (s3, a4));
    assert(run(s2, e2) == (s3, a3 + a4));
    assert(run(s1, e1) == (s3, a2 + (a3 + a4)));
    assert(run(s, e) == (s3, a1 + (a2 + (a3 + a4))));
    assert(a1 + (a2 + (a3 + a4)) =~= seq![
        Action::OpenTcp { port: BROKER_PORT },
        Action::SendConnect {
            clean_session: true,
            keep_alive_secs: KEEP_ALIVE_SECS,
            ack_timeout_secs: CONNECT_TIMEOUT_SECS,
        },
        Action::SignalReady,
        Action::Subscribe { qos: QoS::AtMostOnce },
        Action::Publish { sample, qos: QoS::AtLeastOnce, retain: false },
    ]);
}

/// Publish failure: a connected session whose publish of `sample` fails
/// asks, in order, to put the sample back into the queue and to signal
/// "down", and returns to `Disconnected` keeping its delay. Put back into a
/// queue holding `q`, the sample is appended when there is room and lost
/// otherwise.
pub proof fn lemma_publish_failure(s: Session, sample: Sample, q: Seq<Sample>)
    requires
        s.phase == Phase::Connected,
    ensures
        step_spec(s, Event::PublishFailed(sample)).1 == seq![
            Action::Requeue(sample),
            Action::SignalDown,
        ],
        step_spec(s, Event::PublishFailed(sample)).0.phase == Phase::Disconnected,
        step_spec(s, Event::PublishFailed(sample)).0.backoff_secs == s.backoff_secs,
        enqueue_accepts(q) ==> after_enqueue(q, sample) == q.push(sample),
        !enqueue_accepts(q) ==> after_enqueue(q, sample) == q,
{
    assert(seq![Action::Requeue(sample)].push(Action::SignalDown) =~= seq![
        Action::Requeue(sample),
        Action::SignalDown,
    ]);
}

/// The delay goes back to 1 second only on an acknowledged CONNECT, and
/// always does then; every other change of the delay is a doubling after a
/// failed connect attempt.
pub proof fn lemma_backoff_reset(s: Session, e: Event)
    requires
        s.wf(),
    ensures
        s.phase == Phase::MqttConnecting && e is ConnAck ==> step_spec(s, e).0.backoff_secs
            == INITIAL_BACKOFF_SECS,
        step_spec(s, e).0.backoff_secs != s.backoff_secs ==> (s.phase == Phase::MqttConnecting
            && e is ConnAck) || step_spec(s, e).0.backoff_secs == doubled(s.backoff_secs),
{
}

} // verus!
