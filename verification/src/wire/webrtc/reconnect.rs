//! Connecting with retries, and reconnecting after a loss.
//!
//! The pauses between attempts come from a backoff that is run outside; the tasks
//! here ask for the next pause and decide what each outcome means.
use crate::encoding;
use crate::error::{NetworkError, NetworkResult};
use crate::text;
use crate::wire::webrtc::signaling;
use crate::wire::webrtc::signaling::{HookEvent, ReconnectConfig, SignalingEvent, WebSocketSignalingClient};
use vstd::prelude::*;

verus! {

/// The bounds of the backoff, in seconds, and its number of pauses.
#[derive(Debug, Clone, Copy, PartialEq, Eq, Structural)]
pub struct BackoffSettings {
    pub initial_delay: u64,
    pub max_delay: u64,
    pub max_retries: u32,
}

/// At least one second.
pub open spec fn at_least_one(secs: u64) -> u64 {
    if secs < 1 {
        1
    } else {
        secs
    }
}

impl ReconnectConfig {
    /// The backoff that these settings ask for. Neither bound is less than a second.
    pub fn backoff(&self) -> (b: BackoffSettings)
        ensures
            b == (BackoffSettings {
                initial_delay: at_least_one(self.initial_delay),
                max_delay: at_least_one(self.max_delay),
                max_retries: self.max_attempts,
            }),
    {
        BackoffSettings {
            initial_delay: if self.initial_delay < 1 {
                1
            } else {
                self.initial_delay
            },
            max_delay: if self.max_delay < 1 {
                1
            } else {
                self.max_delay
            },
            max_retries: self.max_attempts,
        }
    }
}

/// What happened in a task that makes attempts.
#[derive(Debug)]
pub enum AttemptEvent {
    /// The hook has returned.
    HookDone,
    /// The pause is over.
    Woke,
    /// The attempt ended.
    Attempted(NetworkResult<()>),
    /// The backoff gave a pause in nanoseconds, or has no more.
    Delay(Option<u128>),
}

/// What a task that makes attempts does next.
#[derive(Debug)]
pub enum AttemptAction {
    /// Call the hook with this event.
    Hook(HookEvent),
    /// Make an attempt.
    Attempt,
    /// Pause.
    Sleep { nanos: u128 },
    /// Ask the backoff for a pause.
    NextDelay,
    /// Return this.
    Finish(NetworkResult<()>),
}

/// Connecting with retries.
#[derive(Debug)]
pub enum RetryTask {
    /// The only attempt is being made.
    Once,
    /// The hook is being told of this attempt, which a pause precedes.
    Telling { attempt: u32, delay: u128 },
    /// The pause before this attempt is running.
    Pausing { attempt: u32 },
    /// This attempt is being made.
    Attempting { attempt: u32 },
    /// The pause after this attempt, which failed so, is being asked for.
    Asking { attempt: u32, last: NetworkError },
    /// Nothing is left to do.
    Finished,
}

impl RetryTask {
    /// The event answers the task's last action, and attempts can still be counted.
    pub open spec fn expects(&self, event: AttemptEvent) -> bool {
        match self {
            RetryTask::Once => event is Attempted,
            RetryTask::Telling { .. } => event is HookDone,
            RetryTask::Pausing { .. } => event is Woke,
            RetryTask::Attempting { .. } => event is Attempted,
            RetryTask::Asking { attempt, .. } => event is Delay && *attempt < u32::MAX,
            RetryTask::Finished => false,
        }
    }

    /// Begins to connect. Where the client does not reconnect by itself there is one
    /// attempt; otherwise the first attempt is told to the hook and follows at once.
    pub fn connect_with_retries(config: &ReconnectConfig) -> (r: (Self, AttemptAction))
        ensures
            if config.enabled {
                &&& r.0 == (RetryTask::Telling { attempt: 1, delay: 0 })
                &&& r.1 == AttemptAction::Hook(HookEvent::SignalingConnectStart { attempt: 1 })
            } else {
                r.0 is Once && r.1 is Attempt
            },
    {
        if config.enabled {
            (
                RetryTask::Telling { attempt: 1, delay: 0 },
                AttemptAction::Hook(HookEvent::SignalingConnectStart { attempt: 1 }),
            )
        } else {
            (RetryTask::Once, AttemptAction::Attempt)
        }
    }

    /// Takes an event and says what to do next.
    ///
    /// The first success ends the task. After a failure the backoff is asked for a
    /// pause; the hook is told of the next attempt before the pause. When the backoff
    /// has no more, the last failure is the result.
    pub fn step(&mut self, event: AttemptEvent) -> (a: AttemptAction)
        requires
            old(self).expects(event),
        ensures
            retried(*old(self), event, *final(self), a),
    {
        let mut task = RetryTask::Finished;
        std::mem::swap(&mut task, self);
        match task {
            RetryTask::Once => match event {
                AttemptEvent::Attempted(r) => AttemptAction::Finish(r),
                _ => AttemptAction::Finish(Ok(())),
            },
            RetryTask::Telling { attempt, delay } => {
                if delay > 0 {
                    *self = RetryTask::Pausing { attempt };
                    AttemptAction::Sleep { nanos: delay }
                } else {
                    *self = RetryTask::Attempting { attempt };
                    AttemptAction::Attempt
                }
            },
            RetryTask::Pausing { attempt } => {
                *self = RetryTask::Attempting { attempt };
                AttemptAction::Attempt
            },
            RetryTask::Attempting { attempt } => match event {
                AttemptEvent::Attempted(Err(last)) => {
                    *self = RetryTask::Asking { attempt, last };
                    AttemptAction::NextDelay
                },
                _ => AttemptAction::Finish(Ok(())),
            },
            RetryTask::Asking { attempt, last } => match event {
                AttemptEvent::Delay(Some(delay)) => {
                    *self = RetryTask::Telling { attempt: attempt + 1, delay };
                    AttemptAction::Hook(HookEvent::SignalingConnectStart { attempt: attempt + 1 })
                },
                _ => AttemptAction::Finish(Err(last)),
            },
            RetryTask::Finished => AttemptAction::Finish(Ok(())),
        }
    }
}

/// What an event does to a task that connects with retries.
pub open spec fn retried(
    before: RetryTask,
    event: AttemptEvent,
    after: RetryTask,
    a: AttemptAction,
) -> bool {
    match (before, event) {
        (RetryTask::Once, AttemptEvent::Attempted(r)) => after is Finished && a
            == AttemptAction::Finish(r),
        (RetryTask::Telling { attempt, delay }, _) => if delay > 0 {
            after == (RetryTask::Pausing { attempt }) && a == (AttemptAction::Sleep {
                nanos: delay,
            })
        } else {
            after == (RetryTask::Attempting { attempt }) && a is Attempt
        },
        (RetryTask::Pausing { attempt }, _) => after == (RetryTask::Attempting { attempt }) && a
            is Attempt,
        (RetryTask::Attempting { .. }, AttemptEvent::Attempted(Ok(_))) => after is Finished && a
            == AttemptAction::Finish(Ok(())),
        (RetryTask::Attempting { attempt }, AttemptEvent::Attempted(Err(last))) => after == (
        RetryTask::Asking { attempt, last }) && a is NextDelay,
        (RetryTask::Asking { attempt, .. }, AttemptEvent::Delay(Some(delay))) => {
            &&& after == (RetryTask::Telling { attempt: (attempt + 1) as u32, delay })
            &&& a == AttemptAction::Hook(
                HookEvent::SignalingConnectStart { attempt: (attempt + 1) as u32 },
            )
        },
        (RetryTask::Asking { last, .. }, AttemptEvent::Delay(None)) => after is Finished && a
            == AttemptAction::Finish(Err(last)),
        _ => true,
    }
}

/// What happened in a reconnect cycle.
#[derive(Debug)]
pub enum CycleEvent {
    /// The old connection was cleaned up, well or not.
    CleanedUp,
    /// The backoff gave a pause in nanoseconds, or has no more.
    Delay(Option<u128>),
    /// The attempt ended, well or not.
    Attempted { connected: bool },
    /// The pause is over.
    Woke,
}

/// What a reconnect cycle does next.
#[derive(Debug)]
pub enum CycleAction {
    /// Disconnect.
    Disconnect,
    /// Ask the backoff for a pause.
    NextDelay,
    /// Broadcast the event, then make an attempt.
    AnnounceAndAttempt(SignalingEvent),
    /// Start the receiver and the ping task, and end.
    StartTasks,
    /// Pause.
    Sleep { nanos: u128 },
    /// Pause before the cycle can be run again.
    CoolDown { secs: u64 },
    /// End.
    Stop,
}

/// A reconnect cycle; attempts are counted from one.
#[derive(Debug, Clone, Copy, PartialEq, Eq, Structural)]
pub enum ReconnectCycle {
    /// The old connection is being cleaned up.
    CleaningUp,
    /// The pause that follows the next attempt is being asked for.
    Asking { attempts: u32 },
    /// An attempt is being made; a pause follows if it fails.
    Attempting { attempts: u32, delay: u128 },
    /// The pause after an attempt is running.
    Pausing { attempts: u32 },
    /// The pause after the last attempt is running.
    Cooling,
    /// Nothing is left to do.
    Finished,
}

impl ReconnectCycle {
    /// The event answers the cycle's last action, and attempts can still be counted.
    pub open spec fn expects(&self, event: CycleEvent) -> bool {
        match self {
            ReconnectCycle::CleaningUp => event is CleanedUp,
            ReconnectCycle::Asking { attempts } => event is Delay && *attempts < u32::MAX,
            ReconnectCycle::Attempting { .. } => event is Attempted,
            ReconnectCycle::Pausing { .. } => event is Woke,
            ReconnectCycle::Cooling => event is Woke,
            ReconnectCycle::Finished => false,
        }
    }

    /// Begins a reconnect cycle.
    pub fn run_reconnect_cycle() -> (r: (Self, CycleAction))
        ensures
            r.0 is CleaningUp,
            r.1 is Disconnect,
    {
        (ReconnectCycle::CleaningUp, CycleAction::Disconnect)
    }

    /// Takes an event and says what to do next.
    ///
    /// For each pause of the backoff there is one attempt, unless the client is
    /// connected by then. A success starts the tasks. When the backoff has no more,
    /// the cycle cools down for twice the longest pause.
    pub fn step(&mut self, client: &WebSocketSignalingClient, event: CycleEvent) -> (a: CycleAction)
        requires
            old(self).expects(event),
            client.config.reconnect_config.max_delay <= u64::MAX / 2,
        ensures
            cycled(*old(self), *client, event, *final(self), a),
    {
        match *self {
            ReconnectCycle::CleaningUp => {
                *self = ReconnectCycle::Asking { attempts: 0 };
                CycleAction::NextDelay
            },
            ReconnectCycle::Asking { attempts } => match event {
                CycleEvent::Delay(Some(delay)) => {
                    if client.connected {
                        *self = ReconnectCycle::Finished;
                        CycleAction::Stop
                    } else {
                        *self = ReconnectCycle::Attempting { attempts: attempts + 1, delay };
                        CycleAction::AnnounceAndAttempt(
                            SignalingEvent::ConnectStart { attempt: attempts + 1 },
                        )
                    }
                },
                _ => {
                    *self = ReconnectCycle::Cooling;
                    let max_delay: u64 = client.config.reconnect_config.backoff().max_delay;
                    CycleAction::CoolDown { secs: max_delay * 2 }
                },
            },
            ReconnectCycle::Attempting { attempts, delay } => match event {
                CycleEvent::Attempted { connected: true } => {
                    *self = ReconnectCycle::Finished;
                    CycleAction::StartTasks
                },
                _ => {
                    *self = ReconnectCycle::Pausing { attempts };
                    CycleAction::Sleep { nanos: delay }
                },
            },
            ReconnectCycle::Pausing { attempts } => {
                *self = ReconnectCycle::Asking { attempts };
                CycleAction::NextDelay
            },
            _ => {
                *self = ReconnectCycle::Finished;
                CycleAction::Stop
            },
        }
    }
}

/// What an event does to a reconnect cycle.
pub open spec fn cycled(
    before: ReconnectCycle,
    client: WebSocketSignalingClient,
    event: CycleEvent,
    after: ReconnectCycle,
    a: CycleAction,
) -> bool {
    match (before, event) {
        (ReconnectCycle::CleaningUp, _) => after == (ReconnectCycle::Asking { attempts: 0 }) && a
            is NextDelay,
        (ReconnectCycle::Asking { attempts }, CycleEvent::Delay(Some(delay))) => if client.connected {
            after is Finished && a is Stop
        } else {
            &&& after == (ReconnectCycle::Attempting { attempts: (attempts + 1) as u32, delay })
            &&& a == CycleAction::AnnounceAndAttempt(
                SignalingEvent::ConnectStart { attempt: (attempts + 1) as u32 },
            )
        },
        (ReconnectCycle::Asking { .. }, _) => after is Cooling && a == (CycleAction::CoolDown {
            secs: (2 * at_least_one(client.config.reconnect_config.max_delay)) as u64,
        }),
        (ReconnectCycle::Attempting { attempts, delay }, CycleEvent::Attempted { connected }) => if connected {
            after is Finished && a is StartTasks
        } else {
            after == (ReconnectCycle::Pausing { attempts }) && a == (CycleAction::Sleep {
                nanos: delay,
            })
        },
        (ReconnectCycle::Pausing { attempts }, _) => after == (ReconnectCycle::Asking { attempts })
            && a is NextDelay,
        (ReconnectCycle::Cooling, _) => after is Finished && a is Stop,
        _ => true,
    }
}

// ── Laws ──────────────────────────────────────────────────────────────────────

/// A numeral ends in the digit of its number's last place.
proof fn lemma_decimal_injective(m: nat, n: nat)
    requires
        text::decimal(m) == text::decimal(n),
    ensures
        m == n,
    decreases m,
{
    let a = text::decimal(m);
    let b = text::decimal(n);
    assert(a.len() > 0);
    assert(a.last() == text::digit_char(m % 10)) by {
        if m < 10 {
            assert(m % 10 == m);
        }
    }
    assert(b.last() == text::digit_char(n % 10)) by {
        if n < 10 {
            assert(n % 10 == n);
        }
    }
    assert(m % 10 == n % 10);
    if m < 10 && n < 10 {
    } else if m >= 10 && n >= 10 {
        assert(a.drop_last() =~= text::decimal(m / 10));
        assert(b.drop_last() =~= text::decimal(n / 10));
        lemma_decimal_injective(m / 10, n / 10);
    } else if m >= 10 {
        assert(text::decimal(m / 10).len() > 0);
    } else {
        assert(text::decimal(n / 10).len() > 0);
    }
}

/// No two envelopes of a client have the same id.
pub proof fn envelope_ids_are_distinct(m: nat, n: nat)
    requires
        m != n,
    ensures
        signaling::envelope_id(m) != signaling::envelope_id(n),
{
    if signaling::envelope_id(m) == signaling::envelope_id(n) {
        reveal_strlit("env-");
        assert(signaling::envelope_id(m).skip(4) =~= text::decimal(m));
        assert(signaling::envelope_id(n).skip(4) =~= text::decimal(n));
        lemma_decimal_injective(m, n);
    }
}

/// A connection that opens is counted once, after the hook and the subscribers have been told:
/// until then the statistics are what they were.
pub proof fn an_open_connection_is_counted_once_told(
    before: WebSocketSignalingClient,
    outcome: signaling::AttemptOutcome,
    now: u64,
    told: WebSocketSignalingClient,
    r: NetworkResult<signaling::Announcement>,
)
    requires
        signaling::attempted(before, outcome, now, told, r),
    ensures
        r is Ok <==> outcome is Opened,
        told.stats == before.stats,
        r is Ok ==> signaling::counted(told) == (WebSocketSignalingClient {
            has_sink: true,
            has_stream: true,
            connected: true,
            last_pong: now,
            stats: before.stats.one_connection(),
            ..before
        }),
{
}

/// Disconnecting leaves nothing running and the client not connected; doing it again
/// only counts once more.
pub proof fn disconnecting_again_only_counts(c: WebSocketSignalingClient)
    ensures
        ({
            let once = signaling::disconnected(c);
            let twice = signaling::disconnected(once);
            &&& !once.connected && !once.has_sink && !once.has_stream && !once.receiver_running
                && !once.ping_running
            &&& once.stats.disconnections == c.stats.disconnections.wrapping_add(1)
            &&& twice == (WebSocketSignalingClient {
                stats: once.stats.one_disconnection(),
                ..once
            })
        }),
{
}

/// A reply reaches whoever waits for it once: a second envelope for the same id goes to
/// the inbound channel.
pub proof fn a_reply_is_delivered_once(
    before: WebSocketSignalingClient,
    first: signaling::InboundFrame,
    second: signaling::InboundFrame,
    now: u64,
    later: u64,
    between: WebSocketSignalingClient,
    after: WebSocketSignalingClient,
    a: signaling::ReceiveAction,
    b: signaling::ReceiveAction,
)
    requires
        signaling::received(before, first, now, between, a),
        signaling::received(between, second, later, after, b),
        first matches signaling::InboundFrame::Binary(Some(e)) && second matches
            signaling::InboundFrame::Binary(Some(f)) && e.reply_for is Some && f.reply_for is Some
            && e.reply_for->0@ == f.reply_for->0@,
    ensures
        b is Forward,
{
}

/// A reply that was waited for, and arrived, is the one that is delivered.
pub proof fn a_reply_finds_its_waiter(
    before: WebSocketSignalingClient,
    e: crate::wire::webrtc::envelope::SignalingEnvelope,
    waiter: u64,
    now: u64,
    after: WebSocketSignalingClient,
    a: signaling::ReceiveAction,
)
    requires
        e.reply_for is Some,
        before.pending_replies@.contains_key(e.reply_for->0@),
        before.pending_replies@[e.reply_for->0@] == waiter,
        signaling::received(
            before,
            signaling::InboundFrame::Binary(Some(e)),
            now,
            after,
            a,
        ),
    ensures
        a == (signaling::ReceiveAction::Deliver { waiter, envelope: e }),
        !after.pending_replies@.contains_key(e.reply_for->0@),
{
}

/// Any message within the last ten seconds keeps the connection up.
pub proof fn traffic_keeps_the_connection(
    before: WebSocketSignalingClient,
    frame: signaling::InboundFrame,
    heard: u64,
    between: WebSocketSignalingClient,
    a: signaling::ReceiveAction,
    now: u64,
    after: WebSocketSignalingClient,
    b: signaling::PingAction,
)
    requires
        frame is Binary || frame is Ping || frame is Pong,
        signaling::received(before, frame, heard, between, a),
        signaling::pinged(between, signaling::PingEvent::Sent { now }, after, b),
        now <= heard + signaling::PONG_TIMEOUT_SECS,
    ensures
        b is Sleep,
        after.connected == before.connected,
{
}

/// A client without identity, credential and role connects under the bare URL of its server.
pub proof fn a_stranger_has_a_clean_url(server_url: Seq<char>)
    ensures
        ({
            let pairs = signaling::identity_pairs(None, None, None);
            encoding::with_pairs(server_url, pairs, pairs.len()) == Ok::<Seq<char>, Seq<char>>(
                server_url,
            )
        }),
{
    assert(signaling::identity_pairs(None, None, None).len() == 0);
}

/// The attempt that a task is at; one that makes a single attempt, or has ended, is at none.
pub open spec fn attempt_of(task: RetryTask) -> Option<u32> {
    match task {
        RetryTask::Once => None,
        RetryTask::Telling { attempt, .. } => Some(attempt),
        RetryTask::Pausing { attempt } => Some(attempt),
        RetryTask::Attempting { attempt } => Some(attempt),
        RetryTask::Asking { attempt, .. } => Some(attempt),
        RetryTask::Finished => None,
    }
}

/// Every further attempt costs a pause of the backoff: a task goes on to the next attempt
/// only when it is given one, and ends when there are no more.
pub proof fn every_retry_costs_a_pause(
    before: RetryTask,
    event: AttemptEvent,
    after: RetryTask,
    a: AttemptAction,
)
    requires
        before.expects(event),
        retried(before, event, after, a),
    ensures
        after is Finished <==> a is Finish,
        !(after is Finished) ==> (attempt_of(after) == attempt_of(before) || (event matches
            AttemptEvent::Delay(Some(_)) && attempt_of(after) == Some(
            (attempt_of(before)->0 + 1) as u32,
        ))),
        event matches AttemptEvent::Delay(None) ==> after is Finished && a matches
            AttemptAction::Finish(Err(_)),
        before is Attempting && (event matches AttemptEvent::Attempted(Ok(_))) ==> a
            == AttemptAction::Finish(Ok(())),
{
}

/// The attempts that a reconnect cycle has made, or is making.
pub open spec fn attempts_of(cycle: ReconnectCycle) -> Option<u32> {
    match cycle {
        ReconnectCycle::Asking { attempts } => Some(attempts),
        ReconnectCycle::Attempting { attempts, .. } => Some(attempts),
        ReconnectCycle::Pausing { attempts } => Some(attempts),
        _ => None,
    }
}

/// A reconnect cycle makes one attempt for each pause of the backoff, and none once the client
/// is connected.
pub proof fn a_cycle_makes_one_attempt_per_pause(
    before: ReconnectCycle,
    client: WebSocketSignalingClient,
    event: CycleEvent,
    after: ReconnectCycle,
    a: CycleAction,
)
    requires
        before.expects(event),
        cycled(before, client, event, after, a),
    ensures
        a is AnnounceAndAttempt <==> (event matches CycleEvent::Delay(Some(_)) && !client.connected),
        a is AnnounceAndAttempt ==> attempts_of(after) == Some(
            (attempts_of(before)->0 + 1) as u32,
        ) && a == CycleAction::AnnounceAndAttempt(
            SignalingEvent::ConnectStart { attempt: attempts_of(after)->0 },
        ),
        !(a is AnnounceAndAttempt) && attempts_of(after) is Some && attempts_of(before) is Some
            ==> attempts_of(after) == attempts_of(before),
        after is Finished <==> a is StartTasks || a is Stop,
{
}

/// No bound of the backoff is below a second; above that both are as they are set, and there
/// are as many pauses as attempts are allowed.
pub proof fn pauses_are_bounded_by_a_second(c: ReconnectConfig, b: BackoffSettings)
    requires
        call_ensures(ReconnectConfig::backoff, (&c,), b),
    ensures
        b.initial_delay >= 1 && b.max_delay >= 1,
        c.initial_delay >= 1 ==> b.initial_delay == c.initial_delay,
        c.initial_delay == 0 ==> b.initial_delay == 1,
        c.max_delay >= 1 ==> b.max_delay == c.max_delay,
        c.max_delay == 0 ==> b.max_delay == 1,
        b.max_retries == c.max_attempts,
{
}

/// A client that does not reconnect by itself makes one attempt, and its outcome is the result.
/// One that does tells the hook of the first attempt, and makes it without a pause.
pub proof fn connecting_begins_at_once(
    config: ReconnectConfig,
    r: (RetryTask, AttemptAction),
    t: &mut RetryTask,
    a: AttemptAction,
    u: &mut RetryTask,
    outcome: NetworkResult<()>,
    end: AttemptAction,
)
    requires
        call_ensures(RetryTask::connect_with_retries, (&config,), r),
        *old(t) == r.0,
        config.enabled ==> call_ensures(RetryTask::step, (t, AttemptEvent::HookDone), a),
        *old(u) == r.0,
        !config.enabled ==> call_ensures(RetryTask::step, (u, AttemptEvent::Attempted(outcome)), end),
    ensures
        config.enabled ==> r.1 == AttemptAction::Hook(
            HookEvent::SignalingConnectStart { attempt: 1 },
        ) && a is Attempt,
        !config.enabled ==> r.1 is Attempt && end == AttemptAction::Finish(outcome),
{
}

/// The first success ends connecting well. A failure asks for a pause; with one the hook is
/// told of the next attempt, which follows the pause; without one the failure is the result.
pub proof fn a_failed_attempt_is_followed_by_another(
    t: &mut RetryTask,
    u: &mut RetryTask,
    v: &mut RetryTask,
    w: &mut RetryTask,
    n: u32,
    outcome: NetworkResult<()>,
    pause: Option<u128>,
    a: AttemptAction,
    b: AttemptAction,
    c: AttemptAction,
    d: AttemptAction,
)
    requires
        *old(t) == (RetryTask::Attempting { attempt: n }),
        n < u32::MAX,
        call_ensures(RetryTask::step, (t, AttemptEvent::Attempted(outcome)), a),
        *old(u) == *final(t),
        outcome is Err ==> call_ensures(RetryTask::step, (u, AttemptEvent::Delay(pause)), b),
        *old(v) == *final(u),
        outcome is Err && pause is Some ==> call_ensures(
            RetryTask::step,
            (v, AttemptEvent::HookDone),
            c,
        ),
        *old(w) == *final(v),
        outcome is Err && pause is Some && pause->0 > 0 ==> call_ensures(
            RetryTask::step,
            (w, AttemptEvent::Woke),
            d,
        ),
    ensures
        outcome is Ok ==> a == AttemptAction::Finish(Ok(())),
        outcome is Err ==> a is NextDelay,
        outcome is Err && pause is None ==> b == AttemptAction::Finish(outcome),
        outcome is Err && pause is Some ==> {
            &&& b == AttemptAction::Hook(
                HookEvent::SignalingConnectStart { attempt: (n + 1) as u32 },
            )
            &&& pause->0 == 0 ==> c is Attempt && *final(v) == (RetryTask::Attempting {
                attempt: (n + 1) as u32,
            })
            &&& pause->0 > 0 ==> c == (AttemptAction::Sleep { nanos: pause->0 }) && d is Attempt
                && *final(w) == (RetryTask::Attempting { attempt: (n + 1) as u32 })
        },
{
}

/// A reconnect cycle first cleans up, then asks for a pause.
pub proof fn a_cycle_begins_by_cleaning_up(
    r: (ReconnectCycle, CycleAction),
    t: &mut ReconnectCycle,
    client: WebSocketSignalingClient,
    a: CycleAction,
)
    requires
        call_ensures(ReconnectCycle::run_reconnect_cycle, (), r),
        *old(t) == r.0,
        client.config.reconnect_config.max_delay <= u64::MAX / 2,
        call_ensures(ReconnectCycle::step, (t, &client, CycleEvent::CleanedUp), a),
    ensures
        r.1 is Disconnect,
        a is NextDelay,
        attempts_of(*final(t)) == Some(0u32),
{
}

/// With a pause in hand a cycle makes an attempt and tells of it, unless the client is connected
/// by then. A success starts the tasks and ends it; after a failure it pauses, for just that
/// long, and asks for the next.
pub proof fn a_cycle_attempts_until_it_succeeds(
    t: &mut ReconnectCycle,
    u: &mut ReconnectCycle,
    v: &mut ReconnectCycle,
    client: WebSocketSignalingClient,
    n: u32,
    pause: u128,
    connected: bool,
    a: CycleAction,
    b: CycleAction,
    c: CycleAction,
)
    requires
        *old(t) == (ReconnectCycle::Asking { attempts: n }),
        n < u32::MAX,
        client.config.reconnect_config.max_delay <= u64::MAX / 2,
        call_ensures(ReconnectCycle::step, (t, &client, CycleEvent::Delay(Some(pause))), a),
        *old(u) == *final(t),
        !client.connected ==> call_ensures(
            ReconnectCycle::step,
            (u, &client, CycleEvent::Attempted { connected }),
            b,
        ),
        *old(v) == *final(u),
        !client.connected && !connected ==> call_ensures(
            ReconnectCycle::step,
            (v, &client, CycleEvent::Woke),
            c,
        ),
    ensures
        client.connected ==> a is Stop,
        !client.connected ==> {
            &&& a == CycleAction::AnnounceAndAttempt(
                SignalingEvent::ConnectStart { attempt: (n + 1) as u32 },
            )
            &&& connected ==> b is StartTasks
            &&& !connected ==> b == (CycleAction::Sleep { nanos: pause }) && c is NextDelay
                && *final(v) == (ReconnectCycle::Asking { attempts: (n + 1) as u32 })
        },
{
}

/// When there are no more pauses a cycle cools down for twice the longest pause, and at least
/// two seconds, and then ends.
pub proof fn a_cycle_that_fails_cools_down(
    t: &mut ReconnectCycle,
    u: &mut ReconnectCycle,
    client: WebSocketSignalingClient,
    n: u32,
    settings: BackoffSettings,
    a: CycleAction,
    b: CycleAction,
)
    requires
        *old(t) == (ReconnectCycle::Asking { attempts: n }),
        n < u32::MAX,
        client.config.reconnect_config.max_delay <= u64::MAX / 2,
        call_ensures(ReconnectConfig::backoff, (&client.config.reconnect_config,), settings),
        call_ensures(ReconnectCycle::step, (t, &client, CycleEvent::Delay(None)), a),
        *old(u) == *final(t),
        call_ensures(ReconnectCycle::step, (u, &client, CycleEvent::Woke), b),
    ensures
        a matches CycleAction::CoolDown { secs } && secs == 2 * settings.max_delay && secs >= 2,
        b is Stop,
{
}

}
