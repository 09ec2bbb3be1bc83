//! Health of servers and of the cluster.
//!
//! Each server reports a [`HealthCheck`]. The proxy folds the latest check
//! of every server into one [`ClusterHealth`].

use vstd::prelude::*;
use vstd::seq_lib::{commutative_foldl, lemma_fold_left_permutation};
use crate::load::LoadFactor;
use crate::server::ServerId;
use crate::time::Timestamp;

verus! {

/// Health of a service, from best to worst, and `Unknown` where there is no
/// recent report.
#[derive(Debug, Clone, Copy, PartialEq, Eq, Structural)]
pub enum HealthStatus {
    /// Operating normally.
    Healthy,
    /// Impaired but still working.
    Degraded,
    /// Not responding, or failed.
    Unhealthy,
    /// No recent check.
    Unknown,
}

impl Default for HealthStatus {
    fn default() -> (s: Self)
        ensures
            s == HealthStatus::Unknown,
    {
        HealthStatus::Unknown
    }
}

impl HealthStatus {
    /// A service is operational while it is healthy or degraded.
    pub open spec fn operational(self) -> bool {
        self == HealthStatus::Healthy || self == HealthStatus::Degraded
    }

    /// The class a status is counted under: `Unknown` counts as `Unhealthy`,
    /// every other status as itself.
    pub open spec fn counted_as(self) -> HealthStatus {
        if self == HealthStatus::Unknown {
            HealthStatus::Unhealthy
        } else {
            self
        }
    }

    /// Whether the service is operational.
    pub fn is_operational(&self) -> (b: bool)
        ensures
            b == self.operational(),
    {
        matches!(*self, HealthStatus::Healthy | HealthStatus::Degraded)
    }
}

/// Health of one component of a server.
#[derive(Debug, Clone)]
pub struct ComponentHealth {
    /// Name of the component.
    pub name: String,
    /// Its health.
    pub status: HealthStatus,
    /// Details, if there are any.
    pub details: Option<String>,
    /// Response time in milliseconds, where that applies.
    pub response_time_ms: Option<u64>,
}

impl ComponentHealth {
    /// A healthy component of the given name.
    pub fn healthy(name: &str) -> (c: Self)
        ensures
            c.name@ == name@,
            c.status == HealthStatus::Healthy,
            c.details is None,
            c.response_time_ms is None,
    {
        ComponentHealth {
            name: name.to_owned(),
            status: HealthStatus::Healthy,
            details: None,
            response_time_ms: None,
        }
    }

    /// An unhealthy component of the given name, with the reason.
    pub fn unhealthy(name: &str, details: &str) -> (c: Self)
        ensures
            c.name@ == name@,
            c.status == HealthStatus::Unhealthy,
            c.details matches Some(d) && d@ == details@,
            c.response_time_ms is None,
    {
        ComponentHealth {
            name: name.to_owned(),
            status: HealthStatus::Unhealthy,
            details: Some(details.to_owned()),
            response_time_ms: None,
        }
    }
}

/// What a health check is asked to include.
#[derive(Debug, Clone, Copy, PartialEq, Eq, Structural)]
pub struct HealthCheckRequest {
    /// Include the checks of the single components.
    pub include_components: bool,
    /// Include system metrics.
    pub include_metrics: bool,
}

impl Default for HealthCheckRequest {
    fn default() -> (r: Self)
        ensures
            !r.include_components,
            !r.include_metrics,
    {
        HealthCheckRequest { include_components: false, include_metrics: false }
    }
}

/// Bit pattern of the single-precision number sixty, the tick rate that a
/// healthy server is credited with.
pub const TICK_RATE_SIXTY_BITS: u32 = 0x4270_0000;

/// Bit pattern of the single-precision number zero.
pub const ZERO_BITS: u32 = 0;

/// One server's report of its own health.
///
/// Tick rate and processor usage are measurements that this library carries
/// and never computes with. They are kept as the bit patterns of
/// single-precision binary numbers, exactly as measured.
#[derive(Debug, Clone)]
pub struct HealthCheck {
    /// The reporting server.
    pub server_id: ServerId,
    /// Its overall health.
    pub status: HealthStatus,
    /// When the check was made.
    pub timestamp: Timestamp,
    /// Players connected.
    pub player_count: u32,
    /// Players the server can take.
    pub capacity: u32,
    /// Seconds since the server started.
    pub uptime_secs: u64,
    /// Average ticks per second, as a bit pattern.
    pub tick_rate_bits: u32,
    /// Memory in use, in megabytes.
    pub memory_mb: u32,
    /// Processor usage in percent, as a bit pattern.
    pub cpu_percent_bits: u32,
    /// Checks of the single components.
    pub components: Vec<ComponentHealth>,
    /// A message, if there is one.
    pub message: Option<String>,
}

impl HealthCheck {
    /// What [`HealthCheck::healthy`] fills in, but for the time.
    pub open spec fn is_healthy_report(self, server_id: ServerId, player_count: u32, capacity: u32)
        -> bool {
        &&& self.server_id == server_id
        &&& self.status == HealthStatus::Healthy
        &&& self.player_count == player_count
        &&& self.capacity == capacity
        &&& self.uptime_secs == 0
        &&& self.tick_rate_bits == TICK_RATE_SIXTY_BITS
        &&& self.memory_mb == 0
        &&& self.cpu_percent_bits == ZERO_BITS
        &&& self.components@.len() == 0
        &&& self.message is None
    }

    /// What [`HealthCheck::unhealthy`] fills in, but for the time.
    pub open spec fn is_unhealthy_report(self, server_id: ServerId, message: String) -> bool {
        &&& self.server_id == server_id
        &&& self.status == HealthStatus::Unhealthy
        &&& self.player_count == 0
        &&& self.capacity == 0
        &&& self.uptime_secs == 0
        &&& self.tick_rate_bits == ZERO_BITS
        &&& self.memory_mb == 0
        &&& self.cpu_percent_bits == ZERO_BITS
        &&& self.components@.len() == 0
        &&& self.message == Some(message)
    }

    /// A healthy report made at `timestamp`.
    pub fn healthy_at(server_id: ServerId, player_count: u32, capacity: u32, timestamp: Timestamp)
        -> (check: Self)
        ensures
            check.is_healthy_report(server_id, player_count, capacity),
            check.timestamp == timestamp,
    {
        HealthCheck {
            server_id,
            status: HealthStatus::Healthy,
            timestamp,
            player_count,
            capacity,
            uptime_secs: 0,
            tick_rate_bits: TICK_RATE_SIXTY_BITS,
            memory_mb: 0,
            cpu_percent_bits: ZERO_BITS,
            components: Vec::new(),
            message: None,
        }
    }

    /// An unhealthy report made at `timestamp`.
    pub fn unhealthy_at(server_id: ServerId, message: String, timestamp: Timestamp) -> (check:
        Self)
        ensures
            check.is_unhealthy_report(server_id, message),
            check.timestamp == timestamp,
    {
        HealthCheck {
            server_id,
            status: HealthStatus::Unhealthy,
            timestamp,
            player_count: 0,
            capacity: 0,
            uptime_secs: 0,
            tick_rate_bits: ZERO_BITS,
            memory_mb: 0,
            cpu_percent_bits: ZERO_BITS,
            components: Vec::new(),
            message: Some(message),
        }
    }

    /// A healthy report, stamped with the current time.
    pub fn healthy(server_id: ServerId, player_count: u32, capacity: u32) -> (check: Self)
        ensures
            check.is_healthy_report(server_id, player_count, capacity),
    {
        Self::healthy_at(server_id, player_count, capacity, Timestamp::now())
    }

    /// An unhealthy report, stamped with the current time.
    pub fn unhealthy(server_id: ServerId, message: String) -> (check: Self)
        ensures
            check.is_unhealthy_report(server_id, message),
    {
        Self::unhealthy_at(server_id, message, Timestamp::now())
    }

    /// The share of the capacity that is in use.
    pub fn load_factor(&self) -> (load: LoadFactor)
        ensures
            load == LoadFactor::ratio(self.player_count, self.capacity),
            load.well_formed(),
    {
        LoadFactor::of(self.player_count, self.capacity)
    }
}

/// Running totals of a fold over health checks.
pub struct Tally {
    /// Checks counted as healthy.
    pub healthy: nat,
    /// Checks counted as degraded.
    pub degraded: nat,
    /// Checks counted as unhealthy; unknown ones are among them.
    pub unhealthy: nat,
    /// Sum of the player counts.
    pub players: nat,
    /// Sum of the capacities.
    pub capacity: nat,
}

impl Tally {
    /// The totals of no checks at all.
    pub open spec fn zero() -> Tally {
        Tally { healthy: 0, degraded: 0, unhealthy: 0, players: 0, capacity: 0 }
    }

    /// The totals after one more check.
    pub open spec fn with(self, check: HealthCheck) -> Tally {
        let class = check.status.counted_as();
        Tally {
            healthy: self.healthy + if class == HealthStatus::Healthy { 1nat } else { 0nat },
            degraded: self.degraded + if class == HealthStatus::Degraded { 1nat } else { 0nat },
            unhealthy: self.unhealthy + if class == HealthStatus::Unhealthy { 1nat } else { 0nat },
            players: self.players + check.player_count as nat,
            capacity: self.capacity + check.capacity as nat,
        }
    }

    /// The totals of a sequence of checks.
    pub open spec fn of(checks: Seq<HealthCheck>) -> Tally {
        checks.fold_left(Tally::zero(), |t: Tally, c: HealthCheck| t.with(c))
    }

    /// Every total fits the 32-bit counters of a [`ClusterHealth`].
    pub open spec fn fits(self) -> bool {
        &&& self.healthy <= u32::MAX
        &&& self.degraded <= u32::MAX
        &&& self.unhealthy <= u32::MAX
        &&& self.players <= u32::MAX
        &&& self.capacity <= u32::MAX
    }

    /// The status of a cluster with these totals.
    ///
    /// Unhealthy where something is unhealthy and nothing healthy; else
    /// degraded where something is degraded or unhealthy; else healthy
    /// where something is healthy; else, with nothing counted, unknown.
    pub open spec fn status(self) -> HealthStatus {
        if self.unhealthy > 0 && self.healthy == 0 {
            HealthStatus::Unhealthy
        } else if self.degraded > 0 || self.unhealthy > 0 {
            HealthStatus::Degraded
        } else if self.healthy > 0 {
            HealthStatus::Healthy
        } else {
            HealthStatus::Unknown
        }
    }
}

/// Health of the whole cluster, derived from the servers' checks.
#[derive(Debug, Clone, Copy, PartialEq, Eq, Structural)]
pub struct ClusterHealth {
    /// Overall status.
    pub status: HealthStatus,
    /// Servers counted as healthy.
    pub healthy_servers: u32,
    /// Servers counted as degraded.
    pub degraded_servers: u32,
    /// Servers counted as unhealthy, the unknown ones among them.
    pub unhealthy_servers: u32,
    /// Players on all servers.
    pub total_players: u32,
    /// Capacity of all servers.
    pub total_capacity: u32,
    /// When the aggregation was made.
    pub timestamp: Timestamp,
}

/// The running totals as the loop of [`ClusterHealth::at`] holds them.
struct Counters {
    healthy: u128,
    degraded: u128,
    unhealthy: u128,
    players: u128,
    capacity: u128,
}

impl Counters {
    spec fn tally(self) -> Tally {
        Tally {
            healthy: self.healthy as nat,
            degraded: self.degraded as nat,
            unhealthy: self.unhealthy as nat,
            players: self.players as nat,
            capacity: self.capacity as nat,
        }
    }
}

/// Folds the checks into counters that cannot overflow: a slice has fewer
/// than 2^64 elements and each adds less than 2^32.
fn count(checks: &[HealthCheck]) -> (c: Counters)
    ensures
        c.tally() == Tally::of(checks@),
{
    let mut c = Counters { healthy: 0, degraded: 0, unhealthy: 0, players: 0, capacity: 0 };
    let n: usize = checks.len();
    let mut i: usize = 0;
    while i < n
        invariant
            n == checks@.len(),
            i <= n,
            c.tally() == Tally::of(checks@.take(i as int)),
            c.healthy <= i,
            c.degraded <= i,
            c.unhealthy <= i,
            c.players <= i * 0x1_0000_0000,
            c.capacity <= i * 0x1_0000_0000,
        decreases n - i,
    {
        let check = &checks[i];
        proof {
            assert(checks@.take(i + 1).drop_last() =~= checks@.take(i as int));
            assert(checks@.take(i + 1).last() == checks@[i as int]);
        }
        match check.status {
            HealthStatus::Healthy => {
                c.healthy = c.healthy + 1;
            },
            HealthStatus::Degraded => {
                c.degraded = c.degraded + 1;
            },
            HealthStatus::Unhealthy | HealthStatus::Unknown => {
                c.unhealthy = c.unhealthy + 1;
            },
        }
        c.players = c.players + check.player_count as u128;
        c.capacity = c.capacity + check.capacity as u128;
        i = i + 1;
    }
    proof {
        assert(checks@.take(n as int) =~= checks@);
    }
    c
}

impl ClusterHealth {
    /// The aggregate of `checks`, stamped `timestamp`.
    pub open spec fn summary(checks: Seq<HealthCheck>, timestamp: Timestamp) -> ClusterHealth
        recommends
            Tally::of(checks).fits(),
    {
        let t = Tally::of(checks);
        ClusterHealth {
            status: t.status(),
            healthy_servers: t.healthy as u32,
            degraded_servers: t.degraded as u32,
            unhealthy_servers: t.unhealthy as u32,
            total_players: t.players as u32,
            total_capacity: t.capacity as u32,
            timestamp,
        }
    }

    /// Whether `self` is the aggregate of `checks`, whatever its time stamp.
    pub open spec fn summarizes(self, checks: Seq<HealthCheck>) -> bool {
        self == Self::summary(checks, self.timestamp)
    }

    /// Aggregates the checks as of `timestamp`.
    ///
    /// Gives nothing where a count or a sum does not fit its 32-bit counter.
    pub fn at(checks: &[HealthCheck], timestamp: Timestamp) -> (r: Option<Self>)
        ensures
            r == if Tally::of(checks@).fits() {
                Some(Self::summary(checks@, timestamp))
            } else {
                None
            },
    {
        let c = count(checks);
        let max: u128 = u32::MAX as u128;
        if c.healthy > max || c.degraded > max || c.unhealthy > max || c.players > max
            || c.capacity > max {
            return None;
        }
        let status = if c.unhealthy > 0 && c.healthy == 0 {
            HealthStatus::Unhealthy
        } else if c.degraded > 0 || c.unhealthy > 0 {
            HealthStatus::Degraded
        } else if c.healthy > 0 {
            HealthStatus::Healthy
        } else {
            HealthStatus::Unknown
        };
        Some(
            ClusterHealth {
                status,
                healthy_servers: c.healthy as u32,
                degraded_servers: c.degraded as u32,
                unhealthy_servers: c.unhealthy as u32,
                total_players: c.players as u32,
                total_capacity: c.capacity as u32,
                timestamp,
            },
        )
    }

    /// Aggregates the checks, stamped with the current time.
    ///
    /// The counts and sums have to fit their 32-bit counters.
    pub fn new(checks: &[HealthCheck]) -> (r: Self)
        requires
            Tally::of(checks@).fits(),
        ensures
            r.summarizes(checks@),
    {
        Self::at(checks, Timestamp::now()).unwrap()
    }

    /// The share of the cluster's capacity that is in use.
    pub fn load_factor(&self) -> (load: LoadFactor)
        ensures
            load == LoadFactor::ratio(self.total_players, self.total_capacity),
            load.well_formed(),
    {
        LoadFactor::of(self.total_players, self.total_capacity)
    }
}

/// Whether `index` is the place of the first check of `server` in the
/// sequence.
pub open spec fn is_place_of(checks: Seq<HealthCheck>, server: Seq<char>, index: int) -> bool {
    &&& 0 <= index < checks.len()
    &&& checks[index].server_id@ == server
    &&& forall|j: int| 0 <= j < index ==> (#[trigger] checks[j]).server_id@ != server
}

/// Whether the sequence holds a check of `server`.
pub open spec fn reports_on(checks: Seq<HealthCheck>, server: Seq<char>) -> bool {
    exists|i: int| 0 <= i < checks.len() && (#[trigger] checks[i]).server_id@ == server
}

/// The place of the first check of `server` in the sequence, where there is
/// one.
pub open spec fn place_of(checks: Seq<HealthCheck>, server: Seq<char>) -> int {
    choose|index: int| is_place_of(checks, server, index)
}

/// Where there is a first check of a server, [`place_of`] names its place.
pub proof fn lemma_place_of(checks: Seq<HealthCheck>, server: Seq<char>, index: int)
    requires
        is_place_of(checks, server, index),
    ensures
        place_of(checks, server) == index,
        reports_on(checks, server),
{
    let chosen = place_of(checks, server);
    assert(is_place_of(checks, server, chosen));
    if chosen < index {
        assert(checks[chosen].server_id@ != server);
    } else if index < chosen {
        assert(checks[index].server_id@ != server);
    }
}

/// The latest health check of every server: what the proxy keeps and
/// aggregates.
#[derive(Debug)]
pub struct HealthSnapshots {
    /// The checks, in the order in which their servers first reported.
    pub checks: Vec<HealthCheck>,
}

impl HealthSnapshots {
    /// No server has more than one check.
    pub open spec fn well_formed(self) -> bool {
        forall|i: int, j: int|
            0 <= i < j < self.checks@.len() ==> (#[trigger] self.checks@[i]).server_id@ != (
            #[trigger] self.checks@[j]).server_id@
    }

    /// The checks after `check` came in. The latest check of a server wins:
    /// a check replaces the one kept for its server unless that one is
    /// later, and is added where none is kept.
    pub open spec fn with(self, check: HealthCheck) -> Seq<HealthCheck> {
        let checks = self.checks@;
        if !reports_on(checks, check.server_id@) {
            checks.push(check)
        } else {
            let place = place_of(checks, check.server_id@);
            if checks[place].timestamp.later_than(check.timestamp) {
                checks
            } else {
                checks.update(place, check)
            }
        }
    }

    /// Whether `check` is taken in: it is, unless a later check of its
    /// server is kept.
    pub open spec fn takes(self, check: HealthCheck) -> bool {
        let checks = self.checks@;
        reports_on(checks, check.server_id@) ==> !checks[place_of(
            checks,
            check.server_id@,
        )].timestamp.later_than(check.timestamp)
    }

    /// No checks at all.
    pub fn new() -> (s: Self)
        ensures
            s.checks@.len() == 0,
            s.well_formed(),
    {
        HealthSnapshots { checks: Vec::new() }
    }

    /// The place of the check kept for `server`, if one is kept.
    pub fn find(&self, server: &ServerId) -> (r: Option<usize>)
        ensures
            match r {
                Some(index) => is_place_of(self.checks@, server@, index as int),
                None => !reports_on(self.checks@, server@),
            },
    {
        let n: usize = self.checks.len();
        let mut i: usize = 0;
        while i < n
            invariant
                n == self.checks@.len(),
                i <= n,
                forall|j: int| 0 <= j < i ==> (#[trigger] self.checks@[j]).server_id@ != server@,
            decreases n - i,
        {
            if self.checks[i].server_id == *server {
                return Some(i);
            }
            i = i + 1;
        }
        None
    }

    /// Takes in a check; the latest check of each server wins. Says
    /// whether the check was taken.
    pub fn record(&mut self, check: HealthCheck) -> (taken: bool)
        ensures
            final(self).checks@ == old(self).with(check),
            taken == old(self).takes(check),
            old(self).well_formed() ==> final(self).well_formed(),
    {
        match self.find(&check.server_id) {
            None => {
                self.checks.push(check);
                true
            },
            Some(index) => {
                proof {
                    lemma_place_of(self.checks@, check.server_id@, index as int);
                }
                if self.checks[index].timestamp.is_after(&check.timestamp) {
                    false
                } else {
                    self.checks[index] = check;
                    true
                }
            },
        }
    }

    /// The status under which the proxy sees a server at `now`: what the
    /// server last reported, or `Unknown` where it has reported nothing or
    /// its last check is more than `deadline_secs` old.
    pub open spec fn observed(self, server: Seq<char>, now: Timestamp, deadline_secs: u32)
        -> HealthStatus {
        let checks = self.checks@;
        if !reports_on(checks, server) {
            HealthStatus::Unknown
        } else {
            let check = checks[place_of(checks, server)];
            if now.later_than(check.timestamp.after(deadline_secs)) {
                HealthStatus::Unknown
            } else {
                check.status
            }
        }
    }

    /// How the proxy sees a server at `now`; see [`HealthSnapshots::observed`].
    /// What the server reported of itself stays as it is.
    pub fn observed_status(&self, server: &ServerId, now: Timestamp, deadline_secs: u32) -> (status:
        HealthStatus)
        ensures
            status == self.observed(server@, now, deadline_secs),
    {
        match self.find(server) {
            None => HealthStatus::Unknown,
            Some(index) => {
                proof {
                    lemma_place_of(self.checks@, server@, index as int);
                }
                let check = &self.checks[index];
                if now.is_after(&check.timestamp.plus_seconds(deadline_secs)) {
                    HealthStatus::Unknown
                } else {
                    check.status
                }
            },
        }
    }

    /// The checks that are kept.
    pub fn as_slice(&self) -> (checks: &[HealthCheck])
        ensures
            checks@ == self.checks@,
    {
        self.checks.as_slice()
    }
}

/// Whether some check of the sequence is counted under `class`.
pub open spec fn has_class(checks: Seq<HealthCheck>, class: HealthStatus) -> bool {
    exists|i: int| 0 <= i < checks.len() && (#[trigger] checks[i]).status.counted_as() == class
}

/// The three counts add up to the number of checks, and a count is positive
/// exactly where some check is counted under its class.
pub proof fn lemma_tally_counts(checks: Seq<HealthCheck>)
    ensures
        Tally::of(checks).healthy + Tally::of(checks).degraded + Tally::of(checks).unhealthy
            == checks.len(),
        Tally::of(checks).healthy > 0 <==> has_class(checks, HealthStatus::Healthy),
        Tally::of(checks).degraded > 0 <==> has_class(checks, HealthStatus::Degraded),
        Tally::of(checks).unhealthy > 0 <==> has_class(checks, HealthStatus::Unhealthy),
    decreases checks.len(),
{
    if checks.len() > 0 {
        let front = checks.drop_last();
        let last = checks.last();
        lemma_tally_counts(front);
        assert(Tally::of(checks) == Tally::of(front).with(last));
        assert forall|class: HealthStatus| has_class(front, class) implies has_class(
            checks,
            class,
        ) by {
            let i = choose|i: int|
                0 <= i < front.len() && (#[trigger] front[i]).status.counted_as() == class;
            assert(checks[i] == front[i]);
        }
        assert forall|class: HealthStatus|
            has_class(checks, class) && last.status.counted_as() != class implies has_class(
            front,
            class,
        ) by {
            let i = choose|i: int|
                0 <= i < checks.len() && (#[trigger] checks[i]).status.counted_as() == class;
            assert(front[i] == checks[i]);
        }
        assert(checks[checks.len() - 1] == last);
    }
}

/// The cluster's status, read off the checks themselves.
///
/// It is unknown exactly for no checks at all; unhealthy exactly where some
/// check is unhealthy or unknown and none is healthy; healthy exactly where
/// there are checks and all of them are healthy; degraded in every other
/// case, so in particular where a healthy check stands beside an unhealthy
/// one.
pub proof fn lemma_cluster_status(checks: Seq<HealthCheck>)
    ensures
        Tally::of(checks).status() == HealthStatus::Unknown <==> checks.len() == 0,
        Tally::of(checks).status() == HealthStatus::Unhealthy <==> has_class(
            checks,
            HealthStatus::Unhealthy,
        ) && !has_class(checks, HealthStatus::Healthy),
        Tally::of(checks).status() == HealthStatus::Healthy <==> checks.len() > 0 && (forall|i: int|
            0 <= i < checks.len() ==> (#[trigger] checks[i]).status == HealthStatus::Healthy),
        has_class(checks, HealthStatus::Healthy) && has_class(checks, HealthStatus::Unhealthy)
            ==> Tally::of(checks).status() == HealthStatus::Degraded,
{
    lemma_tally_counts(checks);
    let t = Tally::of(checks);
    if t.status() == HealthStatus::Healthy {
        assert forall|i: int| 0 <= i < checks.len() implies (#[trigger] checks[i]).status
            == HealthStatus::Healthy by {
            let class = checks[i].status.counted_as();
            assert(has_class(checks, class));
        }
    }
    if checks.len() > 0 && forall|i: int|
        0 <= i < checks.len() ==> (#[trigger] checks[i]).status == HealthStatus::Healthy {
        assert(checks[0].status.counted_as() == HealthStatus::Healthy);
        assert(has_class(checks, HealthStatus::Healthy));
    }
}

/// Order does not matter: two sequences that hold the same checks, each as
/// often as the other, have the same totals and so the same aggregate.
pub proof fn lemma_aggregate_ignores_order(
    a: Seq<HealthCheck>,
    b: Seq<HealthCheck>,
    timestamp: Timestamp,
)
    requires
        a.to_multiset() == b.to_multiset(),
    ensures
        Tally::of(a) == Tally::of(b),
        ClusterHealth::summary(a, timestamp) == ClusterHealth::summary(b, timestamp),
{
    let f = |t: Tally, c: HealthCheck| t.with(c);
    assert(commutative_foldl(f));
    lemma_fold_left_permutation(a, b, f, Tally::zero());
}

} // verus!
