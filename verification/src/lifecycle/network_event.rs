//! What is done when the network comes, goes or changes.
//!
//! A processor answers an event with a [`Recovery`]: the steps to take, one after the
//! other. Events that repeat within a short window are answered with none.
use crate::text::join;
use vstd::prelude::*;

verus! {

/// The pause before a new connection, in milliseconds.
pub const SETTLE_MILLIS: u64 = 100;

/// The pause after a change of network type, in milliseconds.
pub const TYPE_CHANGE_SETTLE_MILLIS: u64 = 500;

/// The default debounce window, in nanoseconds.
pub const DEFAULT_WINDOW_NANOS: u128 = 2_000_000_000;

/// What happened to the network.
#[derive(Debug, Clone, Copy, PartialEq, Eq, Hash, Structural)]
pub enum NetworkEvent {
    /// The network is back.
    Available,
    /// The network is gone.
    Lost,
    /// The network is of another type.
    TypeChanged { is_wifi: bool, is_cellular: bool },
    /// All connections are to be cleaned up.
    CleanupConnections,
}

/// The kind of an event, whatever its details.
pub open spec fn kind(e: NetworkEvent) -> int {
    match e {
        NetworkEvent::Available => 0,
        NetworkEvent::Lost => 1,
        NetworkEvent::TypeChanged { .. } => 2,
        NetworkEvent::CleanupConnections => 3,
    }
}

fn kind_index(e: &NetworkEvent) -> (k: usize)
    ensures
        k == kind(*e),
        k < 4,
{
    match e {
        NetworkEvent::Available => 0,
        NetworkEvent::Lost => 1,
        NetworkEvent::TypeChanged { .. } => 2,
        NetworkEvent::CleanupConnections => 3,
    }
}

/// How an event was dealt with.
#[derive(Debug, Clone)]
pub struct NetworkEventResult {
    pub event: NetworkEvent,
    pub success: bool,
    /// What went wrong.
    pub error: Option<String>,
    /// How long it took, in milliseconds.
    pub duration_ms: u64,
}

impl NetworkEventResult {
    /// The event was dealt with.
    pub fn success(event: NetworkEvent, duration_ms: u64) -> (r: Self)
        ensures
            r == (NetworkEventResult { event, success: true, error: None, duration_ms }),
    {
        NetworkEventResult { event, success: true, error: None, duration_ms }
    }

    /// The event could not be dealt with.
    pub fn failure(event: NetworkEvent, error: String, duration_ms: u64) -> (r: Self)
        ensures
            r == (NetworkEventResult { event, success: false, error: Some(error), duration_ms }),
    {
        NetworkEventResult { event, success: false, error: Some(error), duration_ms }
    }
}

// ── Recovery ──────────────────────────────────────────────────────────────────

/// One step of a recovery.
#[derive(Debug, Clone, Copy, PartialEq, Eq, Structural)]
pub enum RecoveryStep {
    /// Forget restarts of peer connections that are under way.
    ClearPendingRestarts,
    /// Close all peer connections.
    CloseAllPeers,
    /// Disconnect from the signaling server, if connected.
    Disconnect,
    /// Pause.
    Sleep { millis: u64 },
    /// Connect to the signaling server. Only this step can fail a recovery.
    Connect { after_cleanup: bool },
    /// Restart peer connections that have failed.
    RetryFailedConnections,
}

/// How a step ended.
#[derive(Debug)]
pub enum StepOutcome {
    Done,
    Failed { reason: String },
}

/// Steps to take, one after the other.
#[derive(Debug)]
pub struct Recovery {
    pub steps: Vec<RecoveryStep>,
    /// The step to take next.
    pub next: usize,
}

/// What the failure of a connection is called.
pub open spec fn failure_words(after_cleanup: bool, reason: Seq<char>) -> Seq<char> {
    if after_cleanup {
        "Failed to reconnect signaling after cleanup: "@ + reason
    } else {
        "WebSocket reconnect failed: "@ + reason
    }
}

/// The first step at or after `from` that is to be taken: disconnecting is left out
/// where there is no connection.
pub open spec fn upcoming(steps: Seq<RecoveryStep>, connected: bool, from: int) -> int
    decreases steps.len() - from,
{
    if from < steps.len() && !connected && steps[from] is Disconnect {
        upcoming(steps, connected, from + 1)
    } else {
        from
    }
}

impl Recovery {
    /// The recovery is within its steps.
    pub open spec fn wf(&self) -> bool {
        self.next <= self.steps@.len()
    }

    /// The step to take now, given whether the signaling client is connected; `None`
    /// says that the recovery has succeeded.
    pub fn step(&mut self, connected: bool) -> (s: Option<RecoveryStep>)
        requires
            old(self).wf(),
        ensures
            final(self).wf(),
            final(self).steps == old(self).steps,
            final(self).next == upcoming(old(self).steps@, connected, old(self).next as int),
            s == if final(self).next < final(self).steps@.len() {
                Some(final(self).steps@[final(self).next as int])
            } else {
                None
            },
    {
        while self.next < self.steps.len() && !connected && self.steps[self.next]
            == RecoveryStep::Disconnect
            invariant
                self.wf(),
                self.steps == old(self).steps,
                upcoming(self.steps@, connected, self.next as int) == upcoming(
                    old(self).steps@,
                    connected,
                    old(self).next as int,
                ),
            decreases self.steps@.len() - self.next,
        {
            self.next = self.next + 1;
        }
        if self.next < self.steps.len() {
            Some(self.steps[self.next])
        } else {
            None
        }
    }

    /// The step ended. Returns the error that the recovery fails with, if it does: a
    /// connection could not be made. Other failures are passed over.
    pub fn completed(&mut self, outcome: StepOutcome) -> (r: Result<(), String>)
        requires
            old(self).wf(),
            old(self).next < old(self).steps@.len(),
        ensures
            final(self).wf(),
            final(self).steps == old(self).steps,
            match (old(self).steps@[old(self).next as int], outcome) {
                (RecoveryStep::Connect { after_cleanup }, StepOutcome::Failed { reason }) => {
                    &&& final(self).next == final(self).steps@.len()
                    &&& r matches Err(m)
                    &&& m@ == failure_words(after_cleanup, reason@)
                },
                _ => r is Ok && final(self).next == old(self).next + 1,
            },
    {
        let len: usize = self.steps.len();
        if let RecoveryStep::Connect { after_cleanup } = self.steps[self.next] {
            if let StepOutcome::Failed { reason } = outcome {
                self.next = len;
                let m = if after_cleanup {
                    join("Failed to reconnect signaling after cleanup: ", reason.as_str())
                } else {
                    join("WebSocket reconnect failed: ", reason.as_str())
                };
                return Err(m);
            }
        }
        self.next = self.next + 1;
        Ok(())
    }
}

/// The steps of a reconnection: a fresh connection after a short pause, then peers.
pub open spec fn reconnect_steps(has_coordinator: bool) -> Seq<RecoveryStep> {
    seq![
        RecoveryStep::Disconnect,
        RecoveryStep::Sleep { millis: SETTLE_MILLIS },
        RecoveryStep::Connect { after_cleanup: false },
    ] + if has_coordinator {
        seq![RecoveryStep::RetryFailedConnections]
    } else {
        Seq::empty()
    }
}

/// The steps when the network is gone.
pub open spec fn lost_steps(has_coordinator: bool) -> Seq<RecoveryStep> {
    if has_coordinator {
        seq![RecoveryStep::ClearPendingRestarts, RecoveryStep::Disconnect]
    } else {
        seq![RecoveryStep::Disconnect]
    }
}

/// The steps when the network is of another type: as if it had gone, a pause, and as if
/// it had come back.
pub open spec fn type_changed_steps(has_coordinator: bool) -> Seq<RecoveryStep> {
    lost_steps(has_coordinator) + seq![RecoveryStep::Sleep { millis: TYPE_CHANGE_SETTLE_MILLIS }]
        + reconnect_steps(has_coordinator)
}

/// The steps of a cleanup.
pub open spec fn cleanup_steps(has_coordinator: bool) -> Seq<RecoveryStep> {
    (if has_coordinator {
        seq![RecoveryStep::ClearPendingRestarts, RecoveryStep::CloseAllPeers]
    } else {
        Seq::empty()
    }) + seq![RecoveryStep::Disconnect, RecoveryStep::Connect { after_cleanup: true }]
}

// ── Processors ────────────────────────────────────────────────────────────────

/// Answers network events. `now` is the time on a monotonic clock, in nanoseconds.
pub trait NetworkEventProcessor {
    /// The network is back.
    fn process_network_available(&mut self, now: u128) -> Recovery;

    /// The network is gone.
    fn process_network_lost(&mut self, now: u128) -> Recovery;

    /// The network is of another type.
    fn process_network_type_changed(
        &mut self,
        is_wifi: bool,
        is_cellular: bool,
        now: u128,
    ) -> Recovery;

    /// All connections are to be cleaned up. This does not depend on the network.
    fn cleanup_connections(&mut self) -> Recovery;
}

/// How repeated events are held back.
#[derive(Debug, Clone, Copy, PartialEq, Eq, Structural)]
pub struct DebounceConfig {
    /// The time in which a repeated event is ignored, in nanoseconds.
    pub window_nanos: u128,
}

impl Default for DebounceConfig {
    fn default() -> (c: Self)
        ensures
            c == (DebounceConfig { window_nanos: DEFAULT_WINDOW_NANOS }),
    {
        DebounceConfig { window_nanos: DEFAULT_WINDOW_NANOS }
    }
}

/// When events of each kind were last dealt with.
#[derive(Debug, Clone, Copy, PartialEq, Eq, Structural)]
pub struct DebounceState {
    pub last_available: Option<u128>,
    pub last_lost: Option<u128>,
    pub last_type_changed: Option<u128>,
}

/// When an event of this kind was last dealt with. Cleanups are not noted.
pub open spec fn last_time(state: DebounceState, e: NetworkEvent) -> Option<u128> {
    match e {
        NetworkEvent::Available => state.last_available,
        NetworkEvent::Lost => state.last_lost,
        NetworkEvent::TypeChanged { .. } => state.last_type_changed,
        NetworkEvent::CleanupConnections => None,
    }
}

/// The state once an event of this kind has been dealt with at `now`.
pub open spec fn noted(state: DebounceState, e: NetworkEvent, now: u128) -> DebounceState {
    match e {
        NetworkEvent::Available => DebounceState { last_available: Some(now), ..state },
        NetworkEvent::Lost => DebounceState { last_lost: Some(now), ..state },
        NetworkEvent::TypeChanged { .. } => DebounceState { last_type_changed: Some(now), ..state },
        NetworkEvent::CleanupConnections => state,
    }
}

/// The event repeats one of its kind within the window. A clock that seems to run
/// backwards counts as standing still.
pub open spec fn is_repeat(window: u128, state: DebounceState, e: NetworkEvent, now: u128) -> bool {
    match last_time(state, e) {
        Some(last) => (if now > last {
            now - last
        } else {
            0
        }) < window,
        None => false,
    }
}

/// The processor that reconnects signaling and restarts peer connections.
#[derive(Debug, Clone, Copy, PartialEq, Eq, Structural)]
pub struct DefaultNetworkEventProcessor {
    /// Whether there are peer connections to look after.
    pub has_coordinator: bool,
    pub debounce_config: DebounceConfig,
    pub debounce_state: DebounceState,
}

fn within(window: u128, last: Option<u128>, now: u128) -> (r: bool)
    ensures
        r == match last {
            Some(last) => (if now > last {
                now - last
            } else {
                0
            }) < window,
            None => false,
        },
{
    match last {
        Some(last) => {
            let elapsed: u128 = if now > last {
                now - last
            } else {
                0
            };
            elapsed < window
        },
        None => false,
    }
}

impl DefaultNetworkEventProcessor {
    /// A processor with the default window.
    pub fn new(has_coordinator: bool) -> (p: Self)
        ensures
            p.has_coordinator == has_coordinator,
            p.debounce_config == (DebounceConfig { window_nanos: DEFAULT_WINDOW_NANOS }),
            p.debounce_state == (DebounceState {
                last_available: None,
                last_lost: None,
                last_type_changed: None,
            }),
    {
        Self::new_with_debounce(has_coordinator, DebounceConfig::default())
    }

    /// A processor with a window of one's own.
    pub fn new_with_debounce(has_coordinator: bool, debounce_config: DebounceConfig) -> (p: Self)
        ensures
            p == (DefaultNetworkEventProcessor {
                has_coordinator,
                debounce_config,
                debounce_state: DebounceState {
                    last_available: None,
                    last_lost: None,
                    last_type_changed: None,
                },
            }),
    {
        DefaultNetworkEventProcessor {
            has_coordinator,
            debounce_config,
            debounce_state: DebounceState {
                last_available: None,
                last_lost: None,
                last_type_changed: None,
            },
        }
    }

    /// Whether an event at `now` is to be dealt with: not if it repeats one of its kind
    /// within the window. If so, the time is noted. Cleanups are always dealt with.
    pub fn should_process_event(&mut self, event: &NetworkEvent, now: u128) -> (r: bool)
        ensures
            *final(self) == debounced(*old(self), *event, now),
            r == !is_repeat(
                old(self).debounce_config.window_nanos,
                old(self).debounce_state,
                *event,
                now,
            ),
    {
        let window: u128 = self.debounce_config.window_nanos;
        match event {
            NetworkEvent::Available => {
                if within(window, self.debounce_state.last_available, now) {
                    return false;
                }
                self.debounce_state.last_available = Some(now);
                true
            },
            NetworkEvent::Lost => {
                if within(window, self.debounce_state.last_lost, now) {
                    return false;
                }
                self.debounce_state.last_lost = Some(now);
                true
            },
            NetworkEvent::TypeChanged { .. } => {
                if within(window, self.debounce_state.last_type_changed, now) {
                    return false;
                }
                self.debounce_state.last_type_changed = Some(now);
                true
            },
            NetworkEvent::CleanupConnections => true,
        }
    }

    fn push_lost(&self, steps: &mut Vec<RecoveryStep>)
        ensures
            final(steps)@ == old(steps)@ + lost_steps(self.has_coordinator),
    {
        if self.has_coordinator {
            steps.push(RecoveryStep::ClearPendingRestarts);
        }
        steps.push(RecoveryStep::Disconnect);
        assert(steps@ =~= old(steps)@ + lost_steps(self.has_coordinator));
    }

    /// Adds the steps of a reconnection, which no window holds back.
    fn reconnect_internal(&self, steps: &mut Vec<RecoveryStep>)
        ensures
            final(steps)@ == old(steps)@ + reconnect_steps(self.has_coordinator),
    {
        steps.push(RecoveryStep::Disconnect);
        steps.push(RecoveryStep::Sleep { millis: SETTLE_MILLIS });
        steps.push(RecoveryStep::Connect { after_cleanup: false });
        if self.has_coordinator {
            steps.push(RecoveryStep::RetryFailedConnections);
        }
        assert(steps@ =~= old(steps)@ + reconnect_steps(self.has_coordinator));
    }
}

/// The processor once it has decided on an event at `now`.
pub open spec fn debounced(
    p: DefaultNetworkEventProcessor,
    e: NetworkEvent,
    now: u128,
) -> DefaultNetworkEventProcessor {
    if is_repeat(p.debounce_config.window_nanos, p.debounce_state, e, now) {
        p
    } else {
        DefaultNetworkEventProcessor { debounce_state: noted(p.debounce_state, e, now), ..p }
    }
}

/// The steps that answer an event at `now`.
pub open spec fn answer(p: DefaultNetworkEventProcessor, e: NetworkEvent, now: u128) -> Seq<
    RecoveryStep,
> {
    if is_repeat(p.debounce_config.window_nanos, p.debounce_state, e, now) {
        Seq::empty()
    } else {
        match e {
            NetworkEvent::Available => reconnect_steps(p.has_coordinator),
            NetworkEvent::Lost => lost_steps(p.has_coordinator),
            NetworkEvent::TypeChanged { .. } => type_changed_steps(p.has_coordinator),
            NetworkEvent::CleanupConnections => cleanup_steps(p.has_coordinator),
        }
    }
}

impl NetworkEventProcessor for DefaultNetworkEventProcessor {
    fn process_network_available(&mut self, now: u128) -> (r: Recovery)
        ensures
            *final(self) == debounced(*old(self), NetworkEvent::Available, now),
            r.next == 0,
            r.steps@ == answer(*old(self), NetworkEvent::Available, now),
    {
        let mut steps: Vec<RecoveryStep> = Vec::new();
        if self.should_process_event(&NetworkEvent::Available, now) {
            self.reconnect_internal(&mut steps);
        }
        assert(steps@ =~= answer(*old(self), NetworkEvent::Available, now));
        Recovery { steps, next: 0 }
    }

    fn process_network_lost(&mut self, now: u128) -> (r: Recovery)
        ensures
            *final(self) == debounced(*old(self), NetworkEvent::Lost, now),
            r.next == 0,
            r.steps@ == answer(*old(self), NetworkEvent::Lost, now),
    {
        let mut steps: Vec<RecoveryStep> = Vec::new();
        if self.should_process_event(&NetworkEvent::Lost, now) {
            self.push_lost(&mut steps);
        }
        assert(steps@ =~= answer(*old(self), NetworkEvent::Lost, now));
        Recovery { steps, next: 0 }
    }

    fn process_network_type_changed(
        &mut self,
        is_wifi: bool,
        is_cellular: bool,
        now: u128,
    ) -> (r: Recovery)
        ensures
            *final(self) == debounced(
                *old(self),
                NetworkEvent::TypeChanged { is_wifi, is_cellular },
                now,
            ),
            r.next == 0,
            r.steps@ == answer(
                *old(self),
                NetworkEvent::TypeChanged { is_wifi, is_cellular },
                now,
            ),
    {
        let event = NetworkEvent::TypeChanged { is_wifi, is_cellular };
        let mut steps: Vec<RecoveryStep> = Vec::new();
        if self.should_process_event(&event, now) {
            self.push_lost(&mut steps);
            steps.push(RecoveryStep::Sleep { millis: TYPE_CHANGE_SETTLE_MILLIS });
            self.reconnect_internal(&mut steps);
        }
        assert(steps@ =~= answer(*old(self), event, now));
        Recovery { steps, next: 0 }
    }

    fn cleanup_connections(&mut self) -> (r: Recovery)
        ensures
            *final(self) == *old(self),
            r.next == 0,
            r.steps@ == cleanup_steps(old(self).has_coordinator),
    {
        let mut steps: Vec<RecoveryStep> = Vec::new();
        if self.has_coordinator {
            steps.push(RecoveryStep::ClearPendingRestarts);
            steps.push(RecoveryStep::CloseAllPeers);
        }
        steps.push(RecoveryStep::Disconnect);
        steps.push(RecoveryStep::Connect { after_cleanup: true });
        assert(steps@ =~= cleanup_steps(self.has_coordinator));
        Recovery { steps, next: 0 }
    }
}

/// What a handle returns for an event: the result that came back, or why there is none.
/// `send_error` says why the event could not be sent.
pub fn event_outcome(send_error: Option<String>, result: Option<NetworkEventResult>) -> (r: Result<
    NetworkEventResult,
    String,
>)
    ensures
        match (send_error, result) {
            (Some(e), _) => r matches Err(m) && m@ == "Failed to send network event: "@ + e@,
            (None, Some(result)) => r == Ok::<NetworkEventResult, String>(result),
            (None, None) => r matches Err(m) && m@ == "Failed to receive network event result"@,
        },
{
    match send_error {
        Some(e) => Err(join("Failed to send network event: ", e.as_str())),
        None => match result {
            Some(result) => Ok(result),
            None => Err("Failed to receive network event result".to_owned()),
        },
    }
}

// ── Deduplication ─────────────────────────────────────────────────────────────

/// No later event is of the same kind as event `i`.
pub open spec fn is_latest(events: Seq<NetworkEvent>, i: int) -> bool {
    forall|j: int| i < j < events.len() ==> kind(#[trigger] events[j]) != kind(events[i])
}

/// The positions below `n` of the events that are the latest of their kind.
pub open spec fn latest_positions(events: Seq<NetworkEvent>, n: int) -> Seq<int>
    decreases n,
{
    if n <= 0 {
        Seq::empty()
    } else if is_latest(events, n - 1) {
        latest_positions(events, n - 1).push(n - 1)
    } else {
        latest_positions(events, n - 1)
    }
}

/// The latest event of each kind, in the order in which they came.
pub open spec fn latest_events(events: Seq<NetworkEvent>) -> Seq<NetworkEvent> {
    latest_positions(events, events.len() as int).map_values(|i: int| events[i])
}

/// Keeps the latest event of each kind, in the order in which they came.
pub fn deduplicate_network_events(events: Vec<NetworkEvent>) -> (r: Vec<NetworkEvent>)
    ensures
        r@ == latest_events(events@),
{
    let mut last: Vec<usize> = Vec::new();
    last.push(0);
    last.push(0);
    last.push(0);
    last.push(0);
    let mut i: usize = 0;
    while i < events.len()
        invariant
            i <= events@.len(),
            last@.len() == 4,
            forall|j: int|
                0 <= j < i ==> j <= last@[kind(#[trigger] events@[j])] < i && kind(
                    events@[last@[kind(events@[j])] as int],
                ) == kind(events@[j]),
        decreases events@.len() - i,
    {
        let k: usize = kind_index(&events[i]);
        last[k] = i;
        i = i + 1;
    }
    let mut r: Vec<NetworkEvent> = Vec::new();
    let mut n: usize = 0;
    while n < events.len()
        invariant
            n <= events@.len(),
            last@.len() == 4,
            forall|j: int|
                0 <= j < events@.len() ==> j <= last@[kind(#[trigger] events@[j])] < events@.len()
                    && kind(events@[last@[kind(events@[j])] as int]) == kind(events@[j]),
            r@ == latest_positions(events@, n as int).map_values(|i: int| events@[i]),
        decreases events@.len() - n,
    {
        let k: usize = kind_index(&events[n]);
        let ghost positions = latest_positions(events@, n as int);
        if last[k] == n {
            assert(is_latest(events@, n as int)) by {
                assert forall|j: int| n < j < events@.len() implies kind(#[trigger] events@[j])
                    != kind(events@[n as int]) by {
                    assert(j <= last@[kind(events@[j])]);
                }
            }
            r.push(events[n]);
        } else {
            assert(!is_latest(events@, n as int)) by {
                let j = last@[kind(events@[n as int])] as int;
                assert(n < j < events@.len());
                assert(kind(events@[j]) == kind(events@[n as int]));
            }
        }
        n = n + 1;
        assert(r@ =~= latest_positions(events@, n as int).map_values(|i: int| events@[i]));
    }
    r
}

// ── Laws ──────────────────────────────────────────────────────────────────────

proof fn lemma_positions(events: Seq<NetworkEvent>, n: int)
    requires
        n <= events.len(),
    ensures
        forall|a: int|
            0 <= a < latest_positions(events, n).len() ==> 0 <= #[trigger] latest_positions(
                events,
                n,
            )[a] < n && is_latest(events, latest_positions(events, n)[a]),
        forall|a: int, b: int|
            0 <= a < b < latest_positions(events, n).len() ==> #[trigger] latest_positions(
                events,
                n,
            )[a] < #[trigger] latest_positions(events, n)[b],
        forall|i: int|
            0 <= i < n && #[trigger] is_latest(events, i) ==> latest_positions(events, n).contains(
                i,
            ),
    decreases n,
{
    if n > 0 {
        lemma_positions(events, n - 1);
        let before = latest_positions(events, n - 1);
        let now = latest_positions(events, n);
        assert forall|i: int| 0 <= i < n && #[trigger] is_latest(events, i) implies now.contains(
            i,
        ) by {
            if i < n - 1 {
                let a = choose|a: int| 0 <= a < before.len() && before[a] == i;
                assert(now[a] == i);
            } else {
                assert(now[now.len() - 1] == i);
            }
        }
    }
}

/// No two events that are kept are of the same kind.
pub proof fn one_event_of_each_kind_is_kept(events: Seq<NetworkEvent>, a: int, b: int)
    requires
        0 <= a < b < latest_events(events).len(),
    ensures
        kind(latest_events(events)[a]) != kind(latest_events(events)[b]),
{
    lemma_positions(events, events.len() as int);
    let positions = latest_positions(events, events.len() as int);
    assert(positions[a] < positions[b]);
    assert(is_latest(events, positions[a]));
    assert(kind(events[positions[b]]) != kind(events[positions[a]]));
}

/// An event that no later one of its kind replaces is kept.
pub proof fn the_latest_event_is_kept(events: Seq<NetworkEvent>, i: int)
    requires
        0 <= i < events.len(),
        is_latest(events, i),
    ensures
        latest_events(events).contains(events[i]),
{
    lemma_positions(events, events.len() as int);
    let positions = latest_positions(events, events.len() as int);
    let a = choose|a: int| 0 <= a < positions.len() && positions[a] == i;
    assert(latest_events(events)[a] == events[i]);
}

/// Of every kind that occurs, an event is kept.
pub proof fn every_kind_is_kept(events: Seq<NetworkEvent>, i: int)
    requires
        0 <= i < events.len(),
    ensures
        exists|a: int|
            0 <= a < latest_events(events).len() && kind(#[trigger] latest_events(events)[a])
                == kind(events[i]),
    decreases events.len() - i,
{
    if is_latest(events, i) {
        the_latest_event_is_kept(events, i);
        let a = choose|a: int|
            0 <= a < latest_events(events).len() && latest_events(events)[a] == events[i];
        assert(kind(latest_events(events)[a]) == kind(events[i]));
    } else {
        let j = choose|j: int|
            i < j < events.len() && kind(#[trigger] events[j]) == kind(events[i]);
        every_kind_is_kept(events, j);
    }
}

/// The kept events stand in the order in which they came, each the latest of its kind.
pub proof fn kept_events_keep_their_order(events: Seq<NetworkEvent>, a: int, b: int)
    requires
        0 <= a < b < latest_events(events).len(),
    ensures
        exists|i: int, j: int|
            0 <= i < j < events.len() && #[trigger] is_latest(events, i) && #[trigger] is_latest(
                events,
                j,
            ) && latest_events(events)[a] == events[i] && latest_events(events)[b] == events[j],
{
    lemma_positions(events, events.len() as int);
    let positions = latest_positions(events, events.len() as int);
    assert(positions[a] < positions[b]);
    assert(is_latest(events, positions[a]) && is_latest(events, positions[b]));
}

proof fn lemma_all_latest(events: Seq<NetworkEvent>, n: int)
    requires
        0 <= n <= events.len(),
        forall|i: int| 0 <= i < events.len() ==> #[trigger] is_latest(events, i),
    ensures
        latest_positions(events, n).len() == n,
        forall|a: int| 0 <= a < n ==> #[trigger] latest_positions(events, n)[a] == a,
    decreases n,
{
    if n > 0 {
        lemma_all_latest(events, n - 1);
        assert(is_latest(events, n - 1));
    }
}

/// Deduplicating twice is deduplicating once.
pub proof fn deduplication_is_idempotent(events: Seq<NetworkEvent>)
    ensures
        latest_events(latest_events(events)) == latest_events(events),
{
    let once = latest_events(events);
    assert forall|i: int| 0 <= i < once.len() implies #[trigger] is_latest(once, i) by {
        assert forall|j: int| i < j < once.len() implies kind(#[trigger] once[j]) != kind(
            once[i],
        ) by {
            one_event_of_each_kind_is_kept(events, i, j);
        }
    }
    lemma_all_latest(once, once.len() as int);
    assert(latest_events(once) =~= once);
}

/// Within the window a second event of the same kind is answered with nothing, and the
/// time of the first one stands.
pub proof fn a_repeat_is_ignored(
    p: DefaultNetworkEventProcessor,
    first: NetworkEvent,
    second: NetworkEvent,
    now: u128,
    later: u128,
)
    requires
        kind(first) == kind(second),
        !(first is CleanupConnections),
        !is_repeat(p.debounce_config.window_nanos, p.debounce_state, first, now),
        now <= later < now + p.debounce_config.window_nanos,
    ensures
        answer(debounced(p, first, now), second, later) == Seq::<RecoveryStep>::empty(),
        debounced(debounced(p, first, now), second, later) == debounced(p, first, now),
{
}

/// Once the window is over, an event is dealt with again.
pub proof fn after_the_window_an_event_is_dealt_with(
    p: DefaultNetworkEventProcessor,
    first: NetworkEvent,
    second: NetworkEvent,
    now: u128,
    later: u128,
)
    requires
        kind(first) == kind(second),
        !is_repeat(p.debounce_config.window_nanos, p.debounce_state, first, now),
        later >= now + p.debounce_config.window_nanos,
    ensures
        answer(debounced(p, first, now), second, later).len() > 0,
{
}

/// Events of one kind do not hold back events of another.
pub proof fn kinds_are_debounced_apart(
    p: DefaultNetworkEventProcessor,
    first: NetworkEvent,
    second: NetworkEvent,
    now: u128,
    later: u128,
)
    requires
        kind(first) != kind(second),
    ensures
        answer(debounced(p, first, now), second, later) == answer(p, second, later),
{
}

/// A cleanup is never held back.
pub proof fn cleanups_are_never_held_back(p: DefaultNetworkEventProcessor, now: u128)
    ensures
        answer(p, NetworkEvent::CleanupConnections, now) == cleanup_steps(p.has_coordinator),
        debounced(p, NetworkEvent::CleanupConnections, now) == p,
{
}

/// Whether signaling is connected after the steps, where connecting succeeds.
pub open spec fn connected_after(steps: Seq<RecoveryStep>, connected: bool) -> bool
    decreases steps.len(),
{
    if steps.len() == 0 {
        connected
    } else {
        match steps.last() {
            RecoveryStep::Disconnect => false,
            RecoveryStep::Connect { .. } => true,
            _ => connected_after(steps.drop_last(), connected),
        }
    }
}

/// Where an event is dealt with and connecting succeeds, signaling is connected
/// afterwards, unless the network is gone. That holds of a change of network type even
/// if the return of the network has just been dealt with.
pub proof fn recovery_ends_connected(
    p: DefaultNetworkEventProcessor,
    e: NetworkEvent,
    now: u128,
    connected: bool,
)
    requires
        !is_repeat(p.debounce_config.window_nanos, p.debounce_state, e, now),
    ensures
        connected_after(answer(p, e, now), connected) == !(e is Lost),
{
    reveal_with_fuel(connected_after, 12);
    let steps = answer(p, e, now);
    if p.has_coordinator && (e is Available || e is TypeChanged) {
        assert(steps.last() is RetryFailedConnections);
        assert(steps.drop_last().last() is Connect);
    }
}

/// When the network is back, signaling is connected anew after a tenth of a second, and where
/// there are peer connections those that failed are restarted, last of all. That is all, and
/// nothing is done about a repeat.
pub proof fn a_return_of_the_network_reconnects_and_restarts(
    p: &mut DefaultNetworkEventProcessor,
    now: u128,
    r: Recovery,
)
    requires
        call_ensures(
            <DefaultNetworkEventProcessor as NetworkEventProcessor>::process_network_available,
            (p, now),
            r,
        ),
        r.steps@.len() > 0,
    ensures
        r.next == 0,
        old(p).has_coordinator <==> r.steps@.last() is RetryFailedConnections,
        r.steps@.len() == if old(p).has_coordinator {
            4int
        } else {
            3
        },
        r.steps@[0] is Disconnect,
        r.steps@[1] == (RecoveryStep::Sleep { millis: 100 }),
        r.steps@[2] == (RecoveryStep::Connect { after_cleanup: false }),
{
}

/// When the network is gone, signaling is disconnected and not connected again; where there
/// are peer connections, restarts that are under way are forgotten before.
pub proof fn a_loss_of_the_network_only_disconnects(
    p: &mut DefaultNetworkEventProcessor,
    now: u128,
    r: Recovery,
    k: int,
)
    requires
        call_ensures(
            <DefaultNetworkEventProcessor as NetworkEventProcessor>::process_network_lost,
            (p, now),
            r,
        ),
        0 <= k < r.steps@.len(),
    ensures
        r.next == 0,
        r.steps@.last() is Disconnect,
        r.steps@[k] is Disconnect <==> k == r.steps@.len() - 1,
        r.steps@[k] is Disconnect || r.steps@[k] is ClearPendingRestarts,
        r.steps@.len() == if old(p).has_coordinator {
            2int
        } else {
            1
        },
{
}

/// A change of network type is answered as a loss of the network, a pause of half a second,
/// and then a return of it.
pub proof fn a_change_of_type_is_a_loss_and_a_return(
    p: &mut DefaultNetworkEventProcessor,
    q: &mut DefaultNetworkEventProcessor,
    s: &mut DefaultNetworkEventProcessor,
    is_wifi: bool,
    is_cellular: bool,
    now: u128,
    lost: Recovery,
    back: Recovery,
    changed: Recovery,
)
    requires
        old(p).has_coordinator == old(s).has_coordinator,
        old(q).has_coordinator == old(s).has_coordinator,
        call_ensures(
            <DefaultNetworkEventProcessor as NetworkEventProcessor>::process_network_lost,
            (p, now),
            lost,
        ),
        call_ensures(
            <DefaultNetworkEventProcessor as NetworkEventProcessor>::process_network_available,
            (q, now),
            back,
        ),
        call_ensures(
            <DefaultNetworkEventProcessor as NetworkEventProcessor>::process_network_type_changed,
            (s, is_wifi, is_cellular, now),
            changed,
        ),
        lost.steps@.len() > 0,
        back.steps@.len() > 0,
        changed.steps@.len() > 0,
    ensures
        changed.next == 0,
        changed.steps@ == lost.steps@ + seq![RecoveryStep::Sleep { millis: 500 }] + back.steps@,
        old(s).has_coordinator ==> changed.steps@.last() is RetryFailedConnections,
{
}

/// A cleanup closes all peers, where there are any, and always connects signaling anew at the
/// end. It is never held back, and holds nothing back.
pub proof fn a_cleanup_closes_peers_and_connects(
    p: &mut DefaultNetworkEventProcessor,
    r: Recovery,
)
    requires
        call_ensures(
            <DefaultNetworkEventProcessor as NetworkEventProcessor>::cleanup_connections,
            (p,),
            r,
        ),
    ensures
        *final(p) == *old(p),
        r.next == 0,
        r.steps@.last() == (RecoveryStep::Connect { after_cleanup: true }),
        r.steps@[r.steps@.len() - 2] is Disconnect,
        old(p).has_coordinator ==> r.steps@.len() == 4 && r.steps@[0] is ClearPendingRestarts
            && r.steps@[1] is CloseAllPeers,
        !old(p).has_coordinator ==> r.steps@.len() == 2,
{
}

/// When an event of each kind was last dealt with, as the processor notes it.
pub open spec fn noted_times(p: DefaultNetworkEventProcessor) -> (
    Option<u128>,
    Option<u128>,
    Option<u128>,
) {
    (
        p.debounce_state.last_available,
        p.debounce_state.last_lost,
        p.debounce_state.last_type_changed,
    )
}

/// An event is passed over exactly if one of its kind was dealt with less than a window ago.
/// Otherwise its time is noted, and that of no other kind; what is passed over is not noted.
pub proof fn an_event_is_passed_over_within_the_window(
    p: &mut DefaultNetworkEventProcessor,
    event: NetworkEvent,
    now: u128,
    r: bool,
)
    requires
        call_ensures(DefaultNetworkEventProcessor::should_process_event, (p, &event, now), r),
    ensures
        ({
            let (available, lost, changed) = noted_times(*old(p));
            let last = match event {
                NetworkEvent::Available => available,
                NetworkEvent::Lost => lost,
                NetworkEvent::TypeChanged { .. } => changed,
                NetworkEvent::CleanupConnections => None,
            };
            let window = old(p).debounce_config.window_nanos;
            &&& r <==> (last matches Some(t) ==> now >= t + window || window == 0)
            &&& !r ==> *final(p) == *old(p)
            &&& r ==> noted_times(*final(p)) == match event {
                NetworkEvent::Available => (Some(now), lost, changed),
                NetworkEvent::Lost => (available, Some(now), changed),
                NetworkEvent::TypeChanged { .. } => (available, lost, Some(now)),
                NetworkEvent::CleanupConnections => (available, lost, changed),
            }
        }),
        final(p).has_coordinator == old(p).has_coordinator,
        final(p).debounce_config == old(p).debounce_config,
{
}

/// Each kind of event is answered exactly if it is not passed over, and the processor is left
/// as deciding on it leaves it.
pub proof fn an_event_is_answered_unless_it_is_passed_over(
    p: &mut DefaultNetworkEventProcessor,
    q: &mut DefaultNetworkEventProcessor,
    event: NetworkEvent,
    is_wifi: bool,
    is_cellular: bool,
    now: u128,
    dealt_with: bool,
    r: Recovery,
)
    requires
        *old(p) == *old(q),
        call_ensures(
            DefaultNetworkEventProcessor::should_process_event,
            (p, &event, now),
            dealt_with,
        ),
        match event {
            NetworkEvent::Available => call_ensures(
                <DefaultNetworkEventProcessor as NetworkEventProcessor>::process_network_available,
                (q, now),
                r,
            ),
            NetworkEvent::Lost => call_ensures(
                <DefaultNetworkEventProcessor as NetworkEventProcessor>::process_network_lost,
                (q, now),
                r,
            ),
            NetworkEvent::TypeChanged { .. } => call_ensures(
                <DefaultNetworkEventProcessor as NetworkEventProcessor>::process_network_type_changed,
                (q, is_wifi, is_cellular, now),
                r,
            ),
            NetworkEvent::CleanupConnections => call_ensures(
                <DefaultNetworkEventProcessor as NetworkEventProcessor>::cleanup_connections,
                (q,),
                r,
            ),
        },
    ensures
        r.steps@.len() > 0 <==> dealt_with,
        *final(q) == *final(p),
        r.next == 0,
{
}

/// A new processor passes nothing over, holds repeats back for two seconds unless another
/// window is given, and looks after peers as it is told.
pub proof fn a_new_processor_has_noted_nothing(
    has_coordinator: bool,
    config: DebounceConfig,
    usual: DefaultNetworkEventProcessor,
    own: DefaultNetworkEventProcessor,
)
    requires
        call_ensures(DefaultNetworkEventProcessor::new, (has_coordinator,), usual),
        call_ensures(
            DefaultNetworkEventProcessor::new_with_debounce,
            (has_coordinator, config),
            own,
        ),
    ensures
        noted_times(usual) == (None::<u128>, None::<u128>, None::<u128>),
        noted_times(own) == (None::<u128>, None::<u128>, None::<u128>),
        usual.has_coordinator == has_coordinator,
        own.has_coordinator == has_coordinator,
        usual.debounce_config.window_nanos == 2_000_000_000,
        own.debounce_config == config,
{
}

/// The step to take is the next one, except that disconnecting is passed over where there is
/// no connection. Once no step is left the recovery has succeeded.
pub proof fn a_recovery_takes_its_steps_in_order(
    t: &mut Recovery,
    connected: bool,
    s: Option<RecoveryStep>,
)
    requires
        t.wf(),
        call_ensures(Recovery::step, (t, connected), s),
    ensures
        final(t).steps == old(t).steps,
        old(t).next <= final(t).next <= old(t).steps@.len(),
        s is None <==> final(t).next == old(t).steps@.len(),
        s is Some ==> s == Some(old(t).steps@[final(t).next as int]),
        connected ==> final(t).next == old(t).next,
        !connected ==> s != Some(RecoveryStep::Disconnect),
        forall|k: int|
            old(t).next <= k < final(t).next ==> (#[trigger] old(t).steps@[k]) is Disconnect,
{
    lemma_upcoming(old(t).steps@, connected, old(t).next as int);
}

proof fn lemma_upcoming(steps: Seq<RecoveryStep>, connected: bool, from: int)
    requires
        0 <= from <= steps.len(),
    ensures
        from <= upcoming(steps, connected, from) <= steps.len(),
        connected ==> upcoming(steps, connected, from) == from,
        forall|k: int|
            from <= k < upcoming(steps, connected, from) ==> (#[trigger] steps[k]) is Disconnect,
        !connected && upcoming(steps, connected, from) < steps.len() ==> !(steps[upcoming(
            steps,
            connected,
            from,
        )] is Disconnect),
    decreases steps.len() - from,
{
    if from < steps.len() && !connected && steps[from] is Disconnect {
        lemma_upcoming(steps, connected, from + 1);
    }
}

/// Only a connection that cannot be made fails a recovery, which then takes no more steps and
/// says why. Whatever else fails, the next step follows.
pub proof fn only_connecting_fails_a_recovery(
    t: &mut Recovery,
    outcome: StepOutcome,
    r: Result<(), String>,
)
    requires
        t.wf(),
        old(t).next < old(t).steps@.len(),
        call_ensures(Recovery::completed, (t, outcome), r),
    ensures
        final(t).steps == old(t).steps,
        r is Err <==> old(t).steps@[old(t).next as int] is Connect && outcome is Failed,
        r is Ok ==> final(t).next == old(t).next + 1,
        r is Err ==> final(t).next == old(t).steps@.len(),
        r matches Err(m) ==> {
            let reason = outcome->reason@;
            let after_cleanup = old(t).steps@[old(t).next as int]->after_cleanup;
            m@ == (if after_cleanup {
                "Failed to reconnect signaling after cleanup: "@
            } else {
                "WebSocket reconnect failed: "@
            }) + reason
        },
{
}

/// Of every kind of event the last one is kept, and only that: an event is kept exactly if no
/// later one is of its kind. Changes of network type are all of one kind.
pub proof fn deduplication_keeps_the_last_of_each_kind(
    events: Vec<NetworkEvent>,
    r: Vec<NetworkEvent>,
    i: int,
    a: int,
    b: int,
)
    requires
        call_ensures(deduplicate_network_events, (events,), r),
        0 <= i < events@.len(),
        0 <= a < b < r@.len(),
    ensures
        r@.len() <= events@.len(),
        events@.contains(r@[a]),
        !alike(r@[a], r@[b]),
        (forall|j: int| i < j < events@.len() ==> !#[trigger] alike(events@[i], events@[j]))
            ==> r@.contains(events@[i]),
        exists|j: int, k: int|
            0 <= j < k < events@.len() && #[trigger] events@[j] == r@[a] && #[trigger] events@[k]
                == r@[b],
{
    let all = events@;
    lemma_positions(all, all.len() as int);
    let positions = latest_positions(all, all.len() as int);
    one_event_of_each_kind_is_kept(all, a, b);
    assert(positions[a] < positions[b]);
    assert(all[positions[a]] == r@[a] && all[positions[b]] == r@[b]);
    lemma_positions_len(all, all.len() as int);
    if forall|j: int| i < j < all.len() ==> !#[trigger] alike(all[i], all[j]) {
        assert forall|j: int| i < j < all.len() implies kind(#[trigger] all[j]) != kind(all[i]) by {
            assert(!alike(all[i], all[j]));
        }
        the_latest_event_is_kept(all, i);
    }
}

/// Two events are of one kind.
pub open spec fn alike(a: NetworkEvent, b: NetworkEvent) -> bool {
    ||| a is Available && b is Available
    ||| a is Lost && b is Lost
    ||| a is TypeChanged && b is TypeChanged
    ||| a is CleanupConnections && b is CleanupConnections
}

proof fn lemma_positions_len(events: Seq<NetworkEvent>, n: int)
    requires
        0 <= n <= events.len(),
    ensures
        latest_positions(events, n).len() <= n,
    decreases n,
{
    if n > 0 {
        lemma_positions_len(events, n - 1);
    }
}

/// A single event is kept as it is, and without events there are none.
pub proof fn few_events_are_all_kept(events: Vec<NetworkEvent>, r: Vec<NetworkEvent>)
    requires
        call_ensures(deduplicate_network_events, (events,), r),
        events@.len() <= 1,
    ensures
        r@ == events@,
{
    let all = events@;
    reveal_with_fuel(latest_positions, 2);
    assert(latest_positions(all, 0).len() == 0);
    if all.len() == 1 {
        assert(is_latest(all, 0));
    }
    assert(r@ =~= events@);
}

/// What comes back for an event is its result; without one it is said whether it could not be
/// sent or was not answered.
pub proof fn an_event_brings_its_result(
    send_error: Option<String>,
    result: Option<NetworkEventResult>,
    r: Result<NetworkEventResult, String>,
)
    requires
        call_ensures(event_outcome, (send_error, result), r),
    ensures
        r is Ok <==> send_error is None && result is Some,
        r is Ok ==> r->Ok_0 == result->0,
        send_error is Some ==> r->Err_0@ == "Failed to send network event: "@ + send_error->0@,
        send_error is None && result is None ==> r->Err_0@
            == "Failed to receive network event result"@,
{
}

/// A result is of the event and the time that it is made for; it holds an error exactly if it
/// is none of success.
pub proof fn a_result_says_how_an_event_went(
    event: NetworkEvent,
    words: String,
    duration_ms: u64,
    good: NetworkEventResult,
    bad: NetworkEventResult,
)
    requires
        call_ensures(NetworkEventResult::success, (event, duration_ms), good),
        call_ensures(NetworkEventResult::failure, (event, words, duration_ms), bad),
    ensures
        good.success && good.error is None,
        !bad.success && bad.error == Some(words),
        good.event == event && bad.event == event,
        good.duration_ms == duration_ms && bad.duration_ms == duration_ms,
{
}

/// Unless it is said otherwise, a repeated event is held back for two seconds.
pub proof fn repeats_are_held_back_for_two_seconds(c: DebounceConfig)
    requires
        call_ensures(<DebounceConfig as Default>::default, (), c),
    ensures
        c.window_nanos == 2_000_000_000,
{
}

}
