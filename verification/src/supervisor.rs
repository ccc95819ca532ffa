//! Keeping a QUIC connection alive: when to reconnect and what is published meanwhile.
use crate::client_error::RelayClientError;
use crate::duration::{Duration, MAX_NANOS};
use vstd::arithmetic::power2::{lemma2_to64, pow2};
use vstd::bits::lemma_u32_shl_is_mul;
use vstd::prelude::*;

verus! {

/// How long to wait between attempts to connect.
#[derive(Debug, Clone, Copy, PartialEq, Eq)]
pub struct QuicSupervisorConfig {
    pub initial_backoff: Duration,
    pub max_backoff: Duration,
}

impl Default for QuicSupervisorConfig {
    fn default() -> (res: Self)
        ensures
            res.initial_backoff.nanos() == 25_000_000,
            res.max_backoff.nanos() == 2_000_000_000,
            supervisor_config_check(res) is Ok,
    {
        QuicSupervisorConfig {
            initial_backoff: Duration::from_millis(25),
            max_backoff: Duration::from_secs(2),
        }
    }
}

/// What a check of a supervisor configuration gives: the initial wait is checked first.
pub open spec fn supervisor_config_check(config: QuicSupervisorConfig) -> Result<
    (),
    RelayClientError,
> {
    if config.initial_backoff.nanos() == 0 {
        Err(RelayClientError::InvalidConfig("QUIC supervisor initial_backoff is zero"))
    } else if config.max_backoff.nanos() < config.initial_backoff.nanos() {
        Err(RelayClientError::InvalidConfig("QUIC supervisor max_backoff is below initial_backoff"))
    } else {
        Ok(())
    }
}

/// Checks that there is a wait, and that it is not above its own limit.
pub fn validate_supervisor_config(config: QuicSupervisorConfig) -> (res: Result<
    (),
    RelayClientError,
>)
    ensures
        res == supervisor_config_check(config),
{
    if config.initial_backoff.is_zero() {
        return Err(RelayClientError::InvalidConfig("QUIC supervisor initial_backoff is zero"));
    }
    if config.max_backoff.is_shorter_than(&config.initial_backoff) {
        return Err(
            RelayClientError::InvalidConfig("QUIC supervisor max_backoff is below initial_backoff"),
        );
    }
    Ok(())
}

/// The smaller of two numbers.
pub open spec fn lesser(a: nat, b: nat) -> nat {
    if a <= b {
        a
    } else {
        b
    }
}

/// The wait after `failures` failed attempts before jitter: the initial wait, doubled for each
/// failure up to the sixteenth, and at most `max`.
pub open spec fn base_backoff(initial: nat, max: nat, failures: nat) -> nat {
    lesser(lesser(initial * pow2(lesser(failures, 16)), MAX_NANOS as nat), max)
}

/// The eighths of the base wait that are waited after `failures` failed attempts: seven, eight
/// or nine.
pub open spec fn jitter_eighths(failures: nat) -> nat {
    7 + failures * 1_103_515_245 % 0x1_0000_0000 % 3
}

/// The wait after `failures` failed attempts, in nanoseconds.
pub open spec fn backoff(initial: nat, max: nat, failures: nat) -> nat {
    lesser(
        lesser(base_backoff(initial, max, failures) * jitter_eighths(failures), MAX_NANOS as nat)
            / 8,
        max,
    )
}

/// How long to wait before the next attempt to connect, after `failures` failed ones.
///
/// The jitter depends on the number of failures alone, so that the submission path needs neither
/// randomness nor shared state.
pub fn reconnect_backoff(config: QuicSupervisorConfig, failures: u32) -> (res: Duration)
    ensures
        res.nanos() == backoff(
            config.initial_backoff.nanos(),
            config.max_backoff.nanos(),
            failures as nat,
        ),
        res.nanos() <= config.max_backoff.nanos(),
{
    let exponent: u32 = if failures < 16 {
        failures
    } else {
        16
    };
    proof {
        lemma2_to64();
        lemma_pow2_up_to_16(exponent as nat);
        lemma_u32_shl_is_mul(1, exponent);
    }
    let multiplier: u32 = 1u32 << exponent;
    let base = config.initial_backoff.saturating_mul(multiplier).at_most(config.max_backoff);
    let jitter_bucket: u32 = failures.wrapping_mul(1_103_515_245) % 3;
    let eighths: u32 = 7 + jitter_bucket;
    base.saturating_mul(eighths).divided_by(8).at_most(config.max_backoff)
}

proof fn lemma_pow2_up_to_16(e: nat)
    requires
        e <= 16,
    ensures
        1 <= pow2(e) <= 0x1_0000,
{
    lemma2_to64();
    vstd::arithmetic::power2::lemma_pow2_pos(e);
    if e < 16 {
        vstd::arithmetic::power2::lemma_pow2_strictly_increases(e, 16);
    }
}

/// No wait is above the configured limit.
pub proof fn lemma_backoff_is_capped(initial: nat, max: nat, failures: nat)
    ensures
        backoff(initial, max, failures) <= max,
{
}

/// A wait is between seven and nine eighths of its base, cut to the limit, as long as nine times
/// the base is representable.
pub proof fn lemma_backoff_jitter_is_bounded(initial: nat, max: nat, failures: nat)
    requires
        9 * base_backoff(initial, max, failures) <= MAX_NANOS,
    ensures
        7 * base_backoff(initial, max, failures) / 8 <= backoff(initial, max, failures),
        backoff(initial, max, failures) <= 9 * base_backoff(initial, max, failures) / 8,
{
    let base = base_backoff(initial, max, failures);
    let eighths = jitter_eighths(failures);
    assert(7 * base <= base * eighths <= 9 * base) by (nonlinear_arith)
        requires
            7 <= eighths <= 9,
    ;
}

/// The base wait never shrinks as failures add up, and stops growing at the sixteenth.
pub proof fn lemma_base_backoff_grows(initial: nat, max: nat, fewer: nat, more: nat)
    requires
        fewer <= more,
    ensures
        base_backoff(initial, max, fewer) <= base_backoff(initial, max, more),
        fewer >= 16 ==> base_backoff(initial, max, fewer) == base_backoff(initial, max, more),
{
    let a = pow2(lesser(fewer, 16));
    let b = pow2(lesser(more, 16));
    if lesser(fewer, 16) < lesser(more, 16) {
        vstd::arithmetic::power2::lemma_pow2_strictly_increases(
            lesser(fewer, 16),
            lesser(more, 16),
        );
    }
    assert(initial * a <= initial * b) by (nonlinear_arith)
        requires
            a <= b,
    ;
}

/// What a supervisor knows between two steps.
#[derive(Debug, Clone, Copy, PartialEq, Eq)]
pub struct SupervisorState {
    /// The failed attempts since the last connection.
    pub failures: u32,
    /// The connections that were made, modulo the counter's range.
    pub generation: u64,
    /// Whether a connection is up and published.
    pub connected: bool,
}

/// What happens to a supervisor.
#[derive(Debug, Clone, Copy, PartialEq, Eq, Structural)]
pub enum SupervisorEvent {
    /// An attempt to connect succeeded.
    Connected,
    /// An attempt to connect failed.
    ConnectFailed,
    /// The published connection closed.
    Closed,
}

/// What a supervisor does next.
#[derive(Debug, Clone, Copy, PartialEq, Eq)]
pub enum SupervisorAction {
    /// Publish the new connection and its generation, then wait until it closes.
    PublishAndWait,
    /// Withdraw whatever is published, wait, then connect.
    WithdrawAndRetry(Duration),
}

impl SupervisorState {
    /// Whether `event` can happen now.
    pub open spec fn admits(self, event: SupervisorEvent) -> bool {
        self.connected <==> event == SupervisorEvent::Closed
    }

    /// The state after `event`.
    pub open spec fn after(self, event: SupervisorEvent) -> SupervisorState {
        match event {
            SupervisorEvent::Connected => SupervisorState {
                failures: 0,
                generation: ((self.generation + 1) % 0x1_0000_0000_0000_0000) as u64,
                connected: true,
            },
            SupervisorEvent::ConnectFailed => SupervisorState {
                failures: if self.failures == u32::MAX {
                    u32::MAX
                } else {
                    (self.failures + 1) as u32
                },
                generation: self.generation,
                connected: false,
            },
            SupervisorEvent::Closed => SupervisorState { connected: false, ..self },
        }
    }

    /// The failures by which the wait after `event` is chosen.
    pub open spec fn counted_failures(self, event: SupervisorEvent) -> nat {
        if event == SupervisorEvent::ConnectFailed {
            self.failures as nat
        } else {
            0
        }
    }

    /// A supervisor before its first attempt to connect.
    pub fn new() -> (res: Self)
        ensures
            res == (SupervisorState { failures: 0, generation: 0, connected: false }),
    {
        SupervisorState { failures: 0, generation: 0, connected: false }
    }

    /// Takes note of an event and says what to do.
    pub fn step(&mut self, config: QuicSupervisorConfig, event: SupervisorEvent) -> (res:
        SupervisorAction)
        requires
            old(self).admits(event),
        ensures
            *final(self) == old(self).after(event),
            final(self).connected == (event == SupervisorEvent::Connected),
            final(self).generation as int == (if event == SupervisorEvent::Connected {
                (old(self).generation + 1) % 0x1_0000_0000_0000_0000
            } else {
                old(self).generation as int
            }),
            final(self).failures as int == (match event {
                SupervisorEvent::Connected => 0,
                SupervisorEvent::ConnectFailed => if old(self).failures < u32::MAX {
                    old(self).failures + 1
                } else {
                    old(self).failures as int
                },
                SupervisorEvent::Closed => old(self).failures as int,
            }),
            event == SupervisorEvent::Connected ==> res == SupervisorAction::PublishAndWait,
            event != SupervisorEvent::Connected ==> (res matches SupervisorAction::WithdrawAndRetry(
                delay,
            ) && delay.nanos() == backoff(
                config.initial_backoff.nanos(),
                config.max_backoff.nanos(),
                old(self).counted_failures(event),
            )),
            event == SupervisorEvent::ConnectFailed ==> res->WithdrawAndRetry_0.nanos() == backoff(
                config.initial_backoff.nanos(),
                config.max_backoff.nanos(),
                old(self).failures as nat,
            ),
            event == SupervisorEvent::Closed ==> res->WithdrawAndRetry_0.nanos() == backoff(
                config.initial_backoff.nanos(),
                config.max_backoff.nanos(),
                0,
            ),
    {
        match event {
            SupervisorEvent::Connected => {
                self.failures = 0;
                self.generation = self.generation.wrapping_add(1);
                self.connected = true;
                SupervisorAction::PublishAndWait
            },
            SupervisorEvent::ConnectFailed => {
                let delay = reconnect_backoff(config, self.failures);
                self.failures = self.failures.saturating_add(1);
                SupervisorAction::WithdrawAndRetry(delay)
            },
            SupervisorEvent::Closed => {
                self.connected = false;
                SupervisorAction::WithdrawAndRetry(reconnect_backoff(config, 0))
            },
        }
    }
}

/// The state after a run of events.
pub open spec fn after_all(state: SupervisorState, events: Seq<SupervisorEvent>) -> SupervisorState
    decreases events.len(),
{
    if events.len() == 0 {
        state
    } else {
        after_all(state, events.drop_last()).after(events.last())
    }
}

/// Whether each event of a run can happen when it does.
pub open spec fn admits_all(state: SupervisorState, events: Seq<SupervisorEvent>) -> bool
    decreases events.len(),
{
    events.len() == 0 || (admits_all(state, events.drop_last()) && after_all(
        state,
        events.drop_last(),
    ).admits(events.last()))
}

/// How many attempts of a run connected.
pub open spec fn connections(events: Seq<SupervisorEvent>) -> nat
    decreases events.len(),
{
    if events.len() == 0 {
        0
    } else {
        connections(events.drop_last()) + (if events.last() == SupervisorEvent::Connected {
            1nat
        } else {
            0nat
        })
    }
}

/// How many failed attempts a run ends with, since it last connected.
pub open spec fn recent_failures(events: Seq<SupervisorEvent>) -> nat
    decreases events.len(),
{
    if events.len() == 0 {
        0
    } else {
        match events.last() {
            SupervisorEvent::Connected => 0,
            SupervisorEvent::ConnectFailed => recent_failures(events.drop_last()) + 1,
            SupervisorEvent::Closed => recent_failures(events.drop_last()),
        }
    }
}

/// Over any run of a fresh supervisor, the generation counts the connections that were made, the
/// failures are those since the last connection, and a connection is published exactly from when
/// it was made until it closes.
pub proof fn lemma_supervisor_run(state: SupervisorState, events: Seq<SupervisorEvent>)
    requires
        state == (SupervisorState { failures: 0, generation: 0, connected: false }),
        admits_all(state, events),
    ensures
        after_all(state, events).generation == connections(events) % 0x1_0000_0000_0000_0000,
        after_all(state, events).failures == lesser(recent_failures(events), u32::MAX as nat),
        after_all(state, events).connected <==> events.len() > 0 && events.last()
            == SupervisorEvent::Connected,
    decreases events.len(),
{
    if events.len() > 0 {
        lemma_supervisor_run(state, events.drop_last());
    }
}

/// Once a connection was up, its loss is followed by the wait of a first attempt, whatever
/// failed before it.
pub proof fn lemma_connection_resets_backoff(state: SupervisorState)
    ensures
        state.after(SupervisorEvent::Connected).after(SupervisorEvent::Closed).failures == 0,
        state.after(SupervisorEvent::Connected).after(SupervisorEvent::Closed).counted_failures(
            SupervisorEvent::ConnectFailed,
        ) == 0,
{
}

/// Whether QUIC submissions can be made now, and over which connection.
#[derive(Debug, Clone, Copy, PartialEq, Eq)]
pub struct QuicReadiness {
    pub ready: bool,
    pub generation: u64,
}

/// The readiness of a client: `open` says of the published connection, where there is one,
/// whether it is still open; a client without a counter is at generation zero.
pub fn quic_readiness(open: Option<bool>, generation: Option<u64>) -> (res: QuicReadiness)
    ensures
        res.ready == (open == Some(true)),
        res.generation == (match generation {
            Some(n) => n,
            None => 0,
        }),
{
    let ready: bool = match open {
        Some(still_open) => still_open,
        None => false,
    };
    let generation: u64 = match generation {
        Some(n) => n,
        None => 0,
    };
    QuicReadiness { ready, generation }
}

/// A supervisor needs an initial wait, and a limit that is not below it; the wait is looked at
/// first.
pub proof fn lemma_which_supervisor_configurations_are_usable(config: QuicSupervisorConfig)
    ensures
        config.initial_backoff.nanos() == 0 ==> supervisor_config_check(config) == Err::<
            (),
            RelayClientError,
        >(RelayClientError::InvalidConfig("QUIC supervisor initial_backoff is zero")),
        0 < config.initial_backoff.nanos() && config.max_backoff.nanos()
            < config.initial_backoff.nanos() ==> supervisor_config_check(config) == Err::<
            (),
            RelayClientError,
        >(RelayClientError::InvalidConfig("QUIC supervisor max_backoff is below initial_backoff")),
        0 < config.initial_backoff.nanos() <= config.max_backoff.nanos() ==> supervisor_config_check(
            config,
        ) is Ok,
{
}

/// The base wait starts at the initial one and doubles with each failure up to the sixteenth, and
/// is cut to the limit at each step.
pub proof fn lemma_base_backoff_doubles(initial: nat, max: nat, failures: nat)
    requires
        initial <= MAX_NANOS,
        max <= MAX_NANOS,
    ensures
        base_backoff(initial, max, 0) == (if initial <= max {
            initial
        } else {
            max
        }),
        failures < 16 ==> base_backoff(initial, max, failures + 1) == (if 2 * base_backoff(
            initial,
            max,
            failures,
        ) <= max {
            2 * base_backoff(initial, max, failures)
        } else {
            max
        }),
        failures >= 16 ==> base_backoff(initial, max, failures) == base_backoff(initial, max, 16),
{
    lemma2_to64();
    assert(initial * pow2(0) == initial) by (nonlinear_arith)
        requires
            pow2(0) == 1,
    ;
    if failures < 16 {
        vstd::arithmetic::power2::lemma_pow2_unfold(failures + 1);
        let power = pow2(failures);
        assert(initial * (2 * power) == 2 * (initial * power)) by (nonlinear_arith);
    }
}

/// The wait is as many eighths of the base wait as the jitter of that many failures says, rounded
/// down and cut to the limit; where so many eighths are too long to be told, an eighth of the
/// longest span takes their place.
pub proof fn lemma_wait_is_eighths_of_the_base(initial: nat, max: nat, failures: nat)
    ensures
        ({
            let eighths = 7 + (failures * 1_103_515_245 % 4_294_967_296) % 3;
            let product = base_backoff(initial, max, failures) * eighths;
            let wait = if product <= 18_446_744_073_709_551_615_999_999_999 {
                product / 8
            } else {
                18_446_744_073_709_551_615_999_999_999nat / 8
            };
            &&& 7 <= eighths <= 9
            &&& backoff(initial, max, failures) == (if wait <= max {
                wait
            } else {
                max
            })
        }),
{
}

/// What an event makes of a supervisor: a connection clears the failures and counts up the
/// generation, a failed attempt counts up the failures as far as they go, and a closed connection
/// changes nothing but that it is no longer there.
pub proof fn lemma_what_events_change(state: SupervisorState)
    ensures
        ({
            let next = state.after(SupervisorEvent::Connected);
            &&& next.connected
            &&& next.failures == 0
            &&& state.generation < u64::MAX ==> next.generation == state.generation + 1
            &&& state.generation == u64::MAX ==> next.generation == 0
        }),
        ({
            let next = state.after(SupervisorEvent::ConnectFailed);
            &&& !next.connected
            &&& next.generation == state.generation
            &&& state.failures < u32::MAX ==> next.failures == state.failures + 1
            &&& state.failures == u32::MAX ==> next.failures == u32::MAX
        }),
        ({
            let next = state.after(SupervisorEvent::Closed);
            &&& !next.connected
            &&& next.generation == state.generation
            &&& next.failures == state.failures
        }),
        state.counted_failures(SupervisorEvent::ConnectFailed) == state.failures,
        state.counted_failures(SupervisorEvent::Closed) == 0,
        state.admits(SupervisorEvent::Closed) <==> state.connected,
        state.admits(SupervisorEvent::Connected) <==> !state.connected,
        state.admits(SupervisorEvent::ConnectFailed) <==> !state.connected,
{
}

/// After any number of failed attempts in a row since the last connection, the next failed attempt
/// is followed by the wait of that many failures.
pub proof fn lemma_failures_in_a_row(state: SupervisorState, count: nat)
    requires
        state.failures == 0,
        !state.connected,
        count <= u32::MAX,
    ensures
        after_all(state, Seq::new(count, |i: int| SupervisorEvent::ConnectFailed)).failures == count,
        after_all(state, Seq::new(count, |i: int| SupervisorEvent::ConnectFailed)).generation
            == state.generation,
        !after_all(state, Seq::new(count, |i: int| SupervisorEvent::ConnectFailed)).connected,
    decreases count,
{
    if count > 0 {
        let events = Seq::new(count, |i: int| SupervisorEvent::ConnectFailed);
        let fewer = Seq::new((count - 1) as nat, |i: int| SupervisorEvent::ConnectFailed);
        assert(events.drop_last() =~= fewer);
        lemma_failures_in_a_row(state, (count - 1) as nat);
    }
}

} // verus!
