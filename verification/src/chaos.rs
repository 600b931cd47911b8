//! The chaos engine: seeded, replayable injection of latency and failures.
//!
//! Rates are whole numbers of millionths: [`RATE_SCALE`] stands for certainty.

use vstd::prelude::*;
use crate::prng::{chacha8_between, draw_between, draw_ratio, ratio_draw};

verus! {

/// The rate that stands for certainty: rates count millionths.
pub const RATE_SCALE: u32 = 1_000_000;

/// The policy of the chaos engine.
#[derive(Debug, Clone, Copy, PartialEq, Eq, Structural)]
pub struct ChaosConfig {
    pub enabled: bool,
    pub seed: u64,
    pub global_failure_rate: u32,
    pub payment_failure_rate: u32,
    pub rug_rate: u32,
    pub min_latency_ms: u64,
    pub max_latency_ms: u64,
}

impl ChaosConfig {
    /// Every rate is at most [`RATE_SCALE`], and the latency range is not empty
    /// where latency is injected at all: where the policy is enabled and the upper
    /// latency is not zero.
    pub open spec fn valid(self) -> bool {
        &&& self.global_failure_rate <= RATE_SCALE
        &&& self.payment_failure_rate <= RATE_SCALE
        &&& self.rug_rate <= RATE_SCALE
        &&& (!self.enabled || self.max_latency_ms == 0 || self.min_latency_ms <= self.max_latency_ms)
    }

    /// The policy that injects nothing.
    pub open spec fn quiet() -> ChaosConfig {
        ChaosConfig {
            enabled: false,
            seed: 0,
            global_failure_rate: 0,
            payment_failure_rate: 0,
            rug_rate: 0,
            min_latency_ms: 0,
            max_latency_ms: 0,
        }
    }

    /// Whether the policy is [`valid`](ChaosConfig::valid).
    pub fn is_valid(&self) -> (ok: bool)
        ensures
            ok == self.valid(),
    {
        self.global_failure_rate <= RATE_SCALE && self.payment_failure_rate <= RATE_SCALE && self.rug_rate
            <= RATE_SCALE && (!self.enabled || self.max_latency_ms == 0 || self.min_latency_ms
            <= self.max_latency_ms)
    }
}

impl Default for ChaosConfig {
    fn default() -> (cfg: ChaosConfig)
        ensures
            cfg == ChaosConfig::quiet(),
    {
        ChaosConfig {
            enabled: false,
            seed: 0,
            global_failure_rate: 0,
            payment_failure_rate: 0,
            rug_rate: 0,
            min_latency_ms: 0,
            max_latency_ms: 0,
        }
    }
}

/// The status code of an injected network failure, by the index drawn.
pub open spec fn failure_code(index: u64) -> u16 {
    if index == 0 {
        503
    } else if index == 1 {
        429
    } else {
        504
    }
}

/// One of the status codes of an injected network failure.
pub open spec fn is_failure_code(code: u16) -> bool {
    code == 503 || code == 429 || code == 504
}

/// The state of a chaos engine: its policy, and how far into the random stream of
/// the policy's seed it has drawn.
pub struct ChaosState {
    pub config: ChaosConfig,
    pub position: u128,
}

impl ChaosState {
    /// The state after `cfg` is installed: the stream starts over from the seed of
    /// `cfg`, whatever was drawn before.
    pub open spec fn configured(self, cfg: ChaosConfig) -> ChaosState {
        ChaosState { config: cfg, position: 0 }
    }

    /// The same policy, `position` words into the stream.
    pub open spec fn at(self, position: u128) -> ChaosState {
        ChaosState { position, ..self }
    }

    /// A draw that is true with the given rate, and the state after it. A disabled
    /// engine draws nothing and says no.
    pub open spec fn flip(self, rate: u32) -> (bool, ChaosState) {
        if !self.config.enabled {
            (false, self)
        } else {
            let drawn = ratio_draw(self.config.seed, self.position, rate, RATE_SCALE);
            (drawn.0, self.at(drawn.1))
        }
    }

    /// The roll for a network failure: with the global failure rate a failure is
    /// injected, and a second draw picks its status code.
    pub open spec fn network_failure(self) -> (Option<u16>, ChaosState) {
        let hit = self.flip(self.config.global_failure_rate);
        if hit.0 {
            let pick = chacha8_between(self.config.seed, hit.1.position, 0, 2);
            (Some(failure_code(pick.0)), self.at(pick.1))
        } else {
            (None, hit.1)
        }
    }

    /// The roll for a failed payment.
    pub open spec fn payment_failure(self) -> (bool, ChaosState) {
        self.flip(self.config.payment_failure_rate)
    }

    /// The roll for a request dropped after its payment.
    pub open spec fn rug_pull(self) -> (bool, ChaosState) {
        self.flip(self.config.rug_rate)
    }

    /// The milliseconds of latency to inject, and the state after the draw. Nothing
    /// is drawn where the engine is disabled or the upper latency is zero.
    pub open spec fn latency(self) -> (u64, ChaosState) {
        if !self.config.enabled || self.config.max_latency_ms == 0 {
            (0, self)
        } else {
            let drawn = chacha8_between(
                self.config.seed,
                self.position,
                self.config.min_latency_ms,
                self.config.max_latency_ms,
            );
            (drawn.0, self.at(drawn.1))
        }
    }
}

/// A roll that the pipeline asks of the engine.
pub enum Roll {
    Latency,
    NetworkFailure,
    PaymentFailure,
    RugPull,
}

/// What a roll gave.
pub enum RollResult {
    Latency(u64),
    NetworkFailure(Option<u16>),
    PaymentFailure(bool),
    RugPull(bool),
}

impl ChaosState {
    /// What `roll` gives in this state, and the state after it.
    pub open spec fn rolled(self, roll: Roll) -> (RollResult, ChaosState) {
        match roll {
            Roll::Latency => (RollResult::Latency(self.latency().0), self.latency().1),
            Roll::NetworkFailure => (RollResult::NetworkFailure(self.network_failure().0), self.network_failure().1),
            Roll::PaymentFailure => (RollResult::PaymentFailure(self.payment_failure().0), self.payment_failure().1),
            Roll::RugPull => (RollResult::RugPull(self.rug_pull().0), self.rug_pull().1),
        }
    }

    /// What a sequence of rolls gives, one after the other, from this state on.
    pub open spec fn replay(self, rolls: Seq<Roll>) -> Seq<RollResult>
        decreases rolls.len(),
    {
        if rolls.len() == 0 {
            Seq::empty()
        } else {
            seq![self.rolled(rolls[0]).0] + self.rolled(rolls[0]).1.replay(rolls.drop_first())
        }
    }
}

/// Chaos can be replayed: once a policy is installed, what a sequence of rolls
/// gives depends on the policy and the sequence alone, not on what the engine did
/// before.
pub proof fn lemma_replay_after_reseed(before: ChaosState, other: ChaosState, cfg: ChaosConfig, rolls: Seq<Roll>)
    ensures
        before.configured(cfg).replay(rolls) == other.configured(cfg).replay(rolls),
        before.configured(cfg) == (ChaosState { config: cfg, position: 0 }),
{
}

/// No roll changes the policy, and a disabled engine draws nothing: every roll
/// leaves it as it was and injects nothing.
pub proof fn lemma_rolls_keep_policy(state: ChaosState, roll: Roll)
    ensures
        state.rolled(roll).1.config == state.config,
        !state.config.enabled ==> state.rolled(roll).1 == state,
        !state.config.enabled ==> state.latency().0 == 0 && state.network_failure().0 is None
            && !state.payment_failure().0 && !state.rug_pull().0,
{
}

/// At a failure rate of zero no network failure is injected; at a rate of
/// [`RATE_SCALE`] an enabled engine always injects one, with one of the three status
/// codes. The same holds of the two other rates.
pub proof fn lemma_rate_bounds(state: ChaosState)
    ensures
        state.config.global_failure_rate == 0 ==> state.network_failure().0 is None,
        state.config.enabled && state.config.global_failure_rate == RATE_SCALE ==> state.network_failure().0 is Some,
        state.network_failure().0 matches Some(code) ==> is_failure_code(code),
        state.config.payment_failure_rate == 0 ==> !state.payment_failure().0,
        state.config.enabled && state.config.payment_failure_rate == RATE_SCALE ==> state.payment_failure().0,
        state.config.rug_rate == 0 ==> !state.rug_pull().0,
        state.config.enabled && state.config.rug_rate == RATE_SCALE ==> state.rug_pull().0,
{
}

/// Without latency to inject nothing is drawn and nobody is suspended: where the
/// engine is disabled or the upper latency is zero, the delay is zero and the state
/// is as before.
pub proof fn lemma_no_latency(state: ChaosState)
    requires
        !state.config.enabled || state.config.max_latency_ms == 0,
    ensures
        state.latency().0 == 0,
        state.latency().1 == state,
{
}

/// The chaos engine. Every roll moves the random stream on, so rolls take the
/// engine by `&mut`.
pub struct ChaosEngine {
    config: ChaosConfig,
    position: u128,
}

impl View for ChaosEngine {
    type V = ChaosState;

    closed spec fn view(&self) -> ChaosState {
        ChaosState { config: self.config, position: self.position }
    }
}

impl Default for ChaosEngine {
    fn default() -> (engine: ChaosEngine)
        ensures
            engine@ == (ChaosState { config: ChaosConfig::quiet(), position: 0 }),
            engine.wf(),
    {
        ChaosEngine::new()
    }
}

impl ChaosEngine {
    /// The policy in force is valid.
    pub open spec fn wf(&self) -> bool {
        self@.config.valid()
    }

    /// An engine that injects nothing, at the start of the stream of seed 0.
    pub fn new() -> (engine: ChaosEngine)
        ensures
            engine@ == (ChaosState { config: ChaosConfig::quiet(), position: 0 }),
            engine.wf(),
    {
        ChaosEngine { config: ChaosConfig::default(), position: 0 }
    }

    /// Installs a policy. The stream starts over from the policy's seed, so that
    /// what follows can be replayed.
    pub fn set_config(&mut self, new_config: ChaosConfig)
        requires
            new_config.valid(),
        ensures
            final(self)@ == old(self)@.configured(new_config),
            final(self).wf(),
    {
        self.position = 0;
        self.config = new_config;
    }

    /// The policy in force.
    pub fn get_config(&self) -> (cfg: ChaosConfig)
        ensures
            cfg == self@.config,
    {
        self.config
    }

    /// Draws true with the given rate, unless the engine is disabled.
    fn roll(&mut self, rate: u32) -> (hit: bool)
        requires
            rate <= RATE_SCALE,
        ensures
            hit == old(self)@.flip(rate).0,
            final(self)@ == old(self)@.flip(rate).1,
    {
        if !self.config.enabled {
            return false;
        }
        let (hit, position) = draw_ratio(self.config.seed, self.position, rate, RATE_SCALE);
        self.position = position;
        hit
    }

    /// Rolls for a network failure, and picks its status code among 503, 429 and
    /// 504. A disabled engine, or a rate of zero, never injects one; a rate of
    /// [`RATE_SCALE`] always does.
    pub fn roll_network_failure(&mut self) -> (r: Option<u16>)
        requires
            old(self).wf(),
        ensures
            r == old(self)@.network_failure().0,
            final(self)@ == old(self)@.network_failure().1,
            final(self).wf(),
            r matches Some(code) ==> is_failure_code(code),
            !old(self)@.config.enabled || old(self)@.config.global_failure_rate == 0 ==> r is None,
            old(self)@.config.enabled && old(self)@.config.global_failure_rate == RATE_SCALE ==> r is Some,
    {
        let rate = self.config.global_failure_rate;
        if self.roll(rate) {
            let errors: [u16; 3] = [503, 429, 504];
            let (index, position) = draw_between(self.config.seed, self.position, 0, 2);
            self.position = position;
            return Some(errors[index as usize]);
        }
        None
    }

    /// Rolls for a failed payment.
    pub fn roll_payment_failure(&mut self) -> (hit: bool)
        requires
            old(self).wf(),
        ensures
            hit == old(self)@.payment_failure().0,
            final(self)@ == old(self)@.payment_failure().1,
            final(self).wf(),
            !old(self)@.config.enabled || old(self)@.config.payment_failure_rate == 0 ==> !hit,
            old(self)@.config.enabled && old(self)@.config.payment_failure_rate == RATE_SCALE ==> hit,
    {
        let rate = self.config.payment_failure_rate;
        self.roll(rate)
    }

    /// Rolls for a request that is dropped after its payment went through.
    pub fn roll_rug_pull(&mut self) -> (hit: bool)
        requires
            old(self).wf(),
        ensures
            hit == old(self)@.rug_pull().0,
            final(self)@ == old(self)@.rug_pull().1,
            final(self).wf(),
            !old(self)@.config.enabled || old(self)@.config.rug_rate == 0 ==> !hit,
            old(self)@.config.enabled && old(self)@.config.rug_rate == RATE_SCALE ==> hit,
    {
        let rate = self.config.rug_rate;
        self.roll(rate)
    }

    /// Draws the latency to inject, in milliseconds, uniformly between the lower and
    /// the upper latency of the policy. The caller suspends for that long; zero
    /// means no suspension. A disabled engine, or an upper latency of zero, gives
    /// zero and draws nothing.
    pub fn inject_latency(&mut self) -> (delay: u64)
        requires
            old(self).wf(),
        ensures
            delay == old(self)@.latency().0,
            final(self)@ == old(self)@.latency().1,
            final(self).wf(),
            !old(self)@.config.enabled || old(self)@.config.max_latency_ms == 0 ==> delay == 0 && final(self)@
                == old(self)@,
            old(self)@.config.enabled && old(self)@.config.max_latency_ms != 0
                ==> old(self)@.config.min_latency_ms <= delay <= old(self)@.config.max_latency_ms,
    {
        if !self.config.enabled || self.config.max_latency_ms == 0 {
            return 0;
        }
        let (delay, position) = draw_between(
            self.config.seed,
            self.position,
            self.config.min_latency_ms,
            self.config.max_latency_ms,
        );
        self.position = position;
        delay
    }
}

} // verus!
