//! Route throttling: when a route may be tried, and for how long a failed
//! route is left alone.
//!
//! The managers decide; they do not connect. A caller asks for the next
//! step, makes the attempt where one is called for, and reports how it went.
use vstd::prelude::*;

verus! {

/// Where and how a route connects.
pub struct ConnectionParams {
    pub host: String,
    pub sni: String,
    pub port: u16,
}

/// Why the transport under a WebSocket could not be set up.
#[derive(Clone, Copy, Debug, PartialEq, Eq, Structural)]
pub enum TransportConnectError {
    /// The TCP connection could not be made.
    TcpConnectionFailed,
    /// The host name could not be resolved.
    DnsError,
    /// The TLS handshake failed.
    SslFailedHandshake,
}

/// Why a WebSocket could not be opened.
#[derive(Clone, Copy, Debug, PartialEq, Eq, Structural)]
pub enum WebSocketConnectError {
    /// The transport under it could not be set up.
    Transport(TransportConnectError),
    /// The attempt took too long.
    Timeout,
    /// The upgrade to a WebSocket was refused.
    WebSocketError,
}

/// How one attempt on a route went.
#[derive(Clone, Copy, Debug, PartialEq, Eq, Structural)]
pub enum AttemptResult {
    /// The route is connected.
    Connected,
    /// The attempt failed.
    Failed(WebSocketConnectError),
    /// The time allowed for connecting ran out.
    TimedOut,
}

/// What came of asking a manager for a connection.
#[derive(Clone, Copy, Debug, PartialEq, Eq)]
pub enum ConnectionAttemptOutcome {
    /// An attempt was made, with this result.
    Attempted(Result<(), WebSocketConnectError>),
    /// No attempt was made: every route is left alone until this time at the
    /// earliest.
    WaitUntil(u64),
    /// The time allowed for connecting ran out.
    TimedOut,
}

/// The state of a service after a connection attempt.
#[derive(Clone, Copy, Debug, PartialEq, Eq, Structural)]
pub enum ServiceState {
    /// Connected.
    Active,
    /// The attempt failed.
    Error(WebSocketConnectError),
    /// No route may be tried before this time.
    Cooldown(u64),
    /// The time allowed for connecting ran out.
    ConnectionTimedOut,
    /// No connection was asked for.
    Inactive,
}

/// The state in which an outcome leaves the service.
pub open spec fn service_state(outcome: ConnectionAttemptOutcome) -> ServiceState {
    match outcome {
        ConnectionAttemptOutcome::Attempted(Ok(_)) => ServiceState::Active,
        ConnectionAttemptOutcome::Attempted(Err(e)) => ServiceState::Error(e),
        ConnectionAttemptOutcome::WaitUntil(t) => ServiceState::Cooldown(t),
        ConnectionAttemptOutcome::TimedOut => ServiceState::ConnectionTimedOut,
    }
}

impl ServiceState {
    /// The state in which an outcome leaves the service.
    pub fn from_outcome(outcome: ConnectionAttemptOutcome) -> (r: ServiceState)
        ensures
            r == service_state(outcome),
            !(r is Inactive),
    {
        match outcome {
            ConnectionAttemptOutcome::Attempted(Ok(())) => ServiceState::Active,
            ConnectionAttemptOutcome::Attempted(Err(e)) => ServiceState::Error(e),
            ConnectionAttemptOutcome::WaitUntil(t) => ServiceState::Cooldown(t),
            ConnectionAttemptOutcome::TimedOut => ServiceState::ConnectionTimedOut,
        }
    }
}

/// The longest time, in milliseconds, for which a failed route is left alone.
pub const MAX_COOLDOWN_INTERVAL_MS: u64 = 64_000;

/// For how many milliseconds a route is left alone after this many failures
/// in a row: not at all after the first, one second after the second, and
/// twice as long after each further one, up to the longest interval.
pub open spec fn cooldown_interval(failures: nat) -> nat {
    if failures <= 1 {
        0
    } else if failures == 2 {
        1_000
    } else if failures == 3 {
        2_000
    } else if failures == 4 {
        4_000
    } else if failures == 5 {
        8_000
    } else if failures == 6 {
        16_000
    } else if failures == 7 {
        32_000
    } else {
        64_000
    }
}

/// For how many milliseconds a route is left alone after this many failures
/// in a row.
pub fn cooldown_interval_ms(failures: u32) -> (r: u64)
    ensures
        r == cooldown_interval(failures as nat),
        r <= MAX_COOLDOWN_INTERVAL_MS,
{
    if failures <= 1 {
        0
    } else if failures == 2 {
        1_000
    } else if failures == 3 {
        2_000
    } else if failures == 4 {
        4_000
    } else if failures == 5 {
        8_000
    } else if failures == 6 {
        16_000
    } else if failures == 7 {
        32_000
    } else {
        MAX_COOLDOWN_INTERVAL_MS
    }
}

/// What a manager remembers of one route: how many attempts failed in a row,
/// and until when the route is left alone.
pub struct RouteModel {
    pub failures: nat,
    pub cooldown_until: nat,
}

/// What to do with one route.
#[derive(Clone, Copy, Debug, PartialEq, Eq, Structural)]
pub enum RouteStep {
    /// Try to connect.
    Attempt,
    /// Leave the route alone until this time.
    WaitUntil(u64),
}

impl RouteStep {
    /// What the caller is told where no attempt is made.
    pub open spec fn spec_outcome(self) -> Option<ConnectionAttemptOutcome> {
        match self {
            RouteStep::Attempt => None,
            RouteStep::WaitUntil(t) => Some(ConnectionAttemptOutcome::WaitUntil(t)),
        }
    }

    /// What the caller is told where no attempt is made; `None` where one is
    /// to be made.
    pub fn outcome(self) -> (r: Option<ConnectionAttemptOutcome>)
        ensures
            r == self.spec_outcome(),
    {
        match self {
            RouteStep::Attempt => None,
            RouteStep::WaitUntil(t) => Some(ConnectionAttemptOutcome::WaitUntil(t)),
        }
    }
}

/// Whether a route is left alone at the time `now`.
pub open spec fn in_cooldown(route: RouteModel, now: nat) -> bool {
    route.failures > 0 && now < route.cooldown_until
}

/// What to do with a route at the time `now`.
pub open spec fn route_step(route: RouteModel, now: u64) -> RouteStep {
    if in_cooldown(route, now as nat) {
        RouteStep::WaitUntil(route.cooldown_until as u64)
    } else {
        RouteStep::Attempt
    }
}

/// The smaller of a sum and the largest number a `u64` holds.
pub open spec fn capped(n: int) -> nat {
    if n > u64::MAX {
        u64::MAX as nat
    } else if n < 0 {
        0
    } else {
        n as nat
    }
}

/// The smaller of a count and the largest number a `u32` holds.
pub open spec fn capped_count(n: nat) -> nat {
    if n > u32::MAX {
        u32::MAX as nat
    } else {
        n
    }
}

/// A route after an attempt at the time `now` went as `result` says: a
/// connected route has no failures; a failed one has one more, and is left
/// alone for the interval that goes with their number.
pub open spec fn route_after(route: RouteModel, now: u64, result: AttemptResult) -> RouteModel {
    match result {
        AttemptResult::Connected => RouteModel { failures: 0, cooldown_until: 0 },
        _ => RouteModel {
            failures: capped_count(route.failures + 1),
            cooldown_until: capped(now + cooldown_interval(capped_count(route.failures + 1))),
        },
    }
}

/// What a caller is told after an attempt.
pub open spec fn attempt_outcome(result: AttemptResult) -> ConnectionAttemptOutcome {
    match result {
        AttemptResult::Connected => ConnectionAttemptOutcome::Attempted(Ok(())),
        AttemptResult::Failed(e) => ConnectionAttemptOutcome::Attempted(Err(e)),
        AttemptResult::TimedOut => ConnectionAttemptOutcome::TimedOut,
    }
}

/// Throttles the attempts on one route.
pub struct SingleRouteThrottlingConnectionManager {
    params: ConnectionParams,
    connection_timeout_ms: u64,
    failures: u32,
    cooldown_until: u64,
}

impl View for SingleRouteThrottlingConnectionManager {
    type V = RouteModel;

    closed spec fn view(&self) -> RouteModel {
        RouteModel { failures: self.failures as nat, cooldown_until: self.cooldown_until as nat }
    }
}

impl SingleRouteThrottlingConnectionManager {
    /// A route without failures is not left alone.
    pub closed spec fn wf(&self) -> bool {
        self.failures == 0 ==> self.cooldown_until == 0
    }

    /// Where the route connects.
    pub closed spec fn spec_params(&self) -> ConnectionParams {
        self.params
    }

    /// How long an attempt may take, in milliseconds.
    pub closed spec fn spec_timeout(&self) -> u64 {
        self.connection_timeout_ms
    }

    /// What the manager remembers fits the machine's numbers.
    pub proof fn lemma_view_bounded(&self)
        ensures
            self@.failures <= u32::MAX,
            self@.cooldown_until <= u64::MAX,
    {
    }

    /// A manager for one route that was not tried yet.
    pub fn new(connection_params: ConnectionParams, connection_timeout_ms: u64) -> (r: Self)
        ensures
            r.wf(),
            r@ == (RouteModel { failures: 0, cooldown_until: 0 }),
            r.spec_params() == connection_params,
            r.spec_timeout() == connection_timeout_ms,
    {
        Self { params: connection_params, connection_timeout_ms, failures: 0, cooldown_until: 0 }
    }

    /// Where the route connects.
    pub fn connection_params(&self) -> (r: &ConnectionParams)
        ensures
            *r == self.spec_params(),
    {
        &self.params
    }

    /// How long an attempt may take, in milliseconds.
    pub fn connection_timeout_ms(&self) -> (r: u64)
        ensures
            r == self.spec_timeout(),
    {
        self.connection_timeout_ms
    }

    /// Says whether the route may be tried at the time `now`, or until when
    /// it is left alone.
    pub fn next_step(&self, now: u64) -> (r: RouteStep)
        ensures
            r == route_step(self@, now),
    {
        if self.failures > 0 && now < self.cooldown_until {
            RouteStep::WaitUntil(self.cooldown_until)
        } else {
            RouteStep::Attempt
        }
    }

    /// Takes note of how an attempt at the time `now` went.
    pub fn record(&mut self, now: u64, result: AttemptResult) -> (r: ConnectionAttemptOutcome)
        requires
            old(self).wf(),
        ensures
            final(self).wf(),
            final(self)@ == route_after(old(self)@, now, result),
            final(self).spec_params() == old(self).spec_params(),
            final(self).spec_timeout() == old(self).spec_timeout(),
            r == attempt_outcome(result),
    {
        match result {
            AttemptResult::Connected => {
                self.failures = 0;
                self.cooldown_until = 0;
                ConnectionAttemptOutcome::Attempted(Ok(()))
            },
            AttemptResult::Failed(e) => {
                self.note_failure(now);
                ConnectionAttemptOutcome::Attempted(Err(e))
            },
            AttemptResult::TimedOut => {
                self.note_failure(now);
                ConnectionAttemptOutcome::TimedOut
            },
        }
    }

    fn note_failure(&mut self, now: u64)
        ensures
            final(self).wf(),
            final(self)@ == (RouteModel {
                failures: capped_count(old(self)@.failures + 1),
                cooldown_until: capped(
                    now + cooldown_interval(capped_count(old(self)@.failures + 1)),
                ),
            }),
            final(self).params == old(self).params,
            final(self).connection_timeout_ms == old(self).connection_timeout_ms,
    {
        let failures = self.failures.saturating_add(1);
        self.failures = failures;
        self.cooldown_until = now.saturating_add(cooldown_interval_ms(failures));
    }
}

/// What to do with a list of routes.
#[derive(Clone, Copy, Debug, PartialEq, Eq)]
pub enum MultiRouteStep {
    /// Try to connect over the route at this place in the list.
    Attempt(usize),
    /// Make no further attempt; this is what came of asking.
    Done(ConnectionAttemptOutcome),
}

/// The earliest time at which one of the routes that are left alone at the
/// time `now` may be tried again, if any route is left alone.
pub open spec fn earliest_retry(routes: Seq<RouteModel>, now: nat) -> Option<nat>
    decreases routes.len(),
{
    if routes.len() == 0 {
        None
    } else {
        let before = earliest_retry(routes.drop_last(), now);
        let last = routes.last();
        if in_cooldown(last, now) {
            match before {
                Some(t) if t <= last.cooldown_until => Some(t),
                _ => Some(last.cooldown_until),
            }
        } else {
            before
        }
    }
}

/// What is left to say when no route can be tried: to wait until the earliest
/// time at which a route may be tried again, or, where no route is left alone,
/// that the time ran out.
pub open spec fn exhausted_outcome(routes: Seq<RouteModel>, now: u64) -> ConnectionAttemptOutcome {
    match earliest_retry(routes, now as nat) {
        Some(t) => ConnectionAttemptOutcome::WaitUntil(t as u64),
        None => ConnectionAttemptOutcome::TimedOut,
    }
}

/// The first route at or after the place `from` that is not left alone at
/// the time `now`.
pub open spec fn first_ready(routes: Seq<RouteModel>, from: int, now: nat) -> Option<int>
    decreases routes.len() - from,
{
    if from < 0 || from >= routes.len() {
        None
    } else if !in_cooldown(routes[from], now) {
        Some(from)
    } else {
        first_ready(routes, from + 1, now)
    }
}

/// What to do with a list of routes at the time `now`, when the routes before
/// the place `from` were dealt with: try the first one that is not left
/// alone, or stop where there is none.
pub open spec fn multi_route_step(routes: Seq<RouteModel>, from: int, now: u64) -> MultiRouteStep {
    match first_ready(routes, from, now as nat) {
        Some(i) => MultiRouteStep::Attempt(i as usize),
        None => MultiRouteStep::Done(exhausted_outcome(routes, now)),
    }
}

/// Tries several routes in the order in which they were given.
pub struct MultiRouteConnectionManager {
    routes: Vec<SingleRouteThrottlingConnectionManager>,
    connection_timeout_ms: u64,
}

impl View for MultiRouteConnectionManager {
    type V = Seq<RouteModel>;

    closed spec fn view(&self) -> Seq<RouteModel> {
        Seq::new(self.routes@.len(), |i: int| self.routes@[i]@)
    }
}

impl MultiRouteConnectionManager {
    /// Every route is well formed.
    pub closed spec fn wf(&self) -> bool {
        forall|i: int| 0 <= i < self.routes@.len() ==> (#[trigger] self.routes@[i]).wf()
    }

    /// Where the route at the place `i` connects.
    pub closed spec fn spec_params(&self, i: int) -> ConnectionParams {
        self.routes@[i].spec_params()
    }

    /// How long one round of attempts may take, in milliseconds.
    pub closed spec fn spec_timeout(&self) -> u64 {
        self.connection_timeout_ms
    }

    /// How long one round of attempts may take, in milliseconds.
    pub fn connection_timeout_ms(&self) -> (r: u64)
        ensures
            r == self.spec_timeout(),
    {
        self.connection_timeout_ms
    }

    /// A manager for the given routes, tried in this order.
    pub fn new(routes: Vec<SingleRouteThrottlingConnectionManager>, connection_timeout_ms: u64) -> (r:
        Self)
        requires
            forall|i: int| 0 <= i < routes@.len() ==> (#[trigger] routes@[i]).wf(),
        ensures
            r.wf(),
            r@.len() == routes@.len(),
            forall|i: int| 0 <= i < routes@.len() ==> #[trigger] r@[i] == routes@[i]@,
            forall|i: int|
                0 <= i < routes@.len() ==> #[trigger] r.spec_params(i) == routes@[i].spec_params(),
            r.spec_timeout() == connection_timeout_ms,
    {
        Self { routes, connection_timeout_ms }
    }

    /// A manager for routes that were not tried yet, one for each of the
    /// given parameters, in their order.
    pub fn from_params(connection_params: Vec<ConnectionParams>, connection_timeout_ms: u64) -> (r:
        Self)
        ensures
            r.wf(),
            r@.len() == connection_params@.len(),
            forall|i: int|
                0 <= i < connection_params@.len() ==> #[trigger] r@[i] == (RouteModel {
                    failures: 0,
                    cooldown_until: 0,
                }),
            forall|i: int|
                0 <= i < connection_params@.len() ==> #[trigger] r.spec_params(i)
                    == connection_params@[i],
            r.spec_timeout() == connection_timeout_ms,
    {
        let ghost given = connection_params@;
        let mut params = connection_params;
        let mut reversed: Vec<SingleRouteThrottlingConnectionManager> = Vec::new();
        while params.len() > 0
            invariant
                params@.len() + reversed@.len() == given.len(),
                params@ == given.take(params@.len() as int),
                forall|j: int|
                    0 <= j < reversed@.len() ==> (#[trigger] reversed@[j]).wf() && reversed@[j]@ == (
                    RouteModel { failures: 0, cooldown_until: 0 }) && reversed@[j].spec_params()
                        == given[given.len() - 1 - j],
            decreases params@.len(),
        {
            let last = params.pop();
            match last {
                Some(p) => {
                    reversed.push(SingleRouteThrottlingConnectionManager::new(p, connection_timeout_ms));
                },
                None => {},
            }
        }
        let mut routes: Vec<SingleRouteThrottlingConnectionManager> = Vec::new();
        while reversed.len() > 0
            invariant
                reversed@.len() + routes@.len() == given.len(),
                forall|j: int|
                    0 <= j < reversed@.len() ==> (#[trigger] reversed@[j]).wf() && reversed@[j]@ == (
                    RouteModel { failures: 0, cooldown_until: 0 }) && reversed@[j].spec_params()
                        == given[given.len() - 1 - j],
                forall|j: int|
                    0 <= j < routes@.len() ==> (#[trigger] routes@[j]).wf() && routes@[j]@ == (
                    RouteModel { failures: 0, cooldown_until: 0 }) && routes@[j].spec_params()
                        == given[j],
            decreases reversed@.len(),
        {
            let last = reversed.pop();
            match last {
                Some(route) => {
                    routes.push(route);
                },
                None => {},
            }
        }
        Self { routes, connection_timeout_ms }
    }

    /// How many routes there are.
    pub fn len(&self) -> (r: usize)
        ensures
            r == self@.len(),
    {
        self.routes.len()
    }

    /// Where the route at the place `index` connects.
    pub fn connection_params(&self, index: usize) -> (r: &ConnectionParams)
        requires
            index < self@.len(),
        ensures
            *r == self.spec_params(index as int),
    {
        self.routes[index].connection_params()
    }

    /// The earliest time at which a route that is left alone may be tried
    /// again.
    fn earliest_retry_time(&self, now: u64) -> (r: Option<u64>)
        ensures
            match r {
                Some(t) => earliest_retry(self@, now as nat) == Some(t as nat),
                None => earliest_retry(self@, now as nat) is None,
            },
    {
        let mut best: Option<u64> = None;
        let mut i: usize = 0;
        while i < self.routes.len()
            invariant
                0 <= i <= self.routes@.len(),
                match best {
                    Some(t) => earliest_retry(self@.take(i as int), now as nat) == Some(t as nat),
                    None => earliest_retry(self@.take(i as int), now as nat) is None,
                },
            decreases self.routes@.len() - i,
        {
            proof {
                assert(self@.take(i + 1).drop_last() =~= self@.take(i as int));
                assert(self@.take(i + 1).last() == self.routes@[i as int]@);
                self.routes@[i as int].lemma_view_bounded();
            }
            match self.routes[i].next_step(now) {
                RouteStep::WaitUntil(until) => {
                    best = match best {
                        Some(t) => if t <= until {
                            Some(t)
                        } else {
                            Some(until)
                        },
                        None => Some(until),
                    };
                },
                RouteStep::Attempt => {},
            }
            i = i + 1;
        }
        proof {
            assert(self@.take(self.routes@.len() as int) =~= self@);
        }
        best
    }

    /// Says which route to try at the time `now`, when the routes before the
    /// place `from` were dealt with, or what came of asking where none is
    /// left to try.
    pub fn next_step(&self, from: usize, now: u64) -> (r: MultiRouteStep)
        ensures
            r == multi_route_step(self@, from as int, now),
    {
        let mut i: usize = from;
        while i < self.routes.len()
            invariant
                from <= i,
                first_ready(self@, from as int, now as nat) == first_ready(
                    self@,
                    i as int,
                    now as nat,
                ),
            decreases self.routes@.len() - i,
        {
            match self.routes[i].next_step(now) {
                RouteStep::Attempt => {
                    return MultiRouteStep::Attempt(i);
                },
                RouteStep::WaitUntil(_) => {},
            }
            i = i + 1;
        }
        match self.earliest_retry_time(now) {
            Some(t) => MultiRouteStep::Done(ConnectionAttemptOutcome::WaitUntil(t)),
            None => MultiRouteStep::Done(ConnectionAttemptOutcome::TimedOut),
        }
    }

    /// Takes note of how an attempt on the route at the place `index` went.
    /// A connected route, or time that ran out, ends the asking; after a
    /// failure the routes after it are still to be tried.
    pub fn record(&mut self, index: usize, now: u64, result: AttemptResult) -> (r: Option<
        ConnectionAttemptOutcome,
    >)
        requires
            old(self).wf(),
            index < old(self)@.len(),
        ensures
            final(self).wf(),
            final(self)@ == old(self)@.update(
                index as int,
                route_after(old(self)@[index as int], now, result),
            ),
            forall|i: int|
                0 <= i < old(self)@.len() ==> #[trigger] final(self).spec_params(i) == old(
                    self,
                ).spec_params(i),
            final(self).spec_timeout() == old(self).spec_timeout(),
            r == (match result {
                AttemptResult::Failed(_) => None,
                _ => Some(attempt_outcome(result)),
            }),
    {
        let mut route = self.routes.remove(index);
        let outcome = route.record(now, result);
        self.routes.insert(index, route);
        assert(final(self)@ =~= old(self)@.update(
            index as int,
            route_after(old(self)@[index as int], now, result),
        ));
        match result {
            AttemptResult::Failed(_) => None,
            _ => Some(outcome),
        }
    }
}

} // verus!
