//! Failure injection: configuration, probabilistic decisions and message
//! corruption.
//!
//! Probabilities are carried in parts per ten thousand, so the health table
//! is exact integer arithmetic.  Random draws come from the process RNG and
//! nothing is assumed of them beyond their range; every decision function
//! states what holds of each possible outcome.

use vstd::prelude::*;

verus! {

/// One part-per-ten-thousand scale: the value that stands for certainty.
pub const RATE_SCALE: u32 = 10000;

/// ASCII code of the digit nine.
pub const DIGIT_NINE: u8 = 57;

/// ASCII code of the capital letter X.
pub const LETTER_X: u8 = 88;

/// Relies on rand's `random_range` over an inclusive `u64` range: the
/// result lies within the range.  The draw is random, so nothing else is
/// promised.
#[verifier::external_body]
fn random_u64_inclusive(lo: u64, hi: u64) -> (r: u64)
    requires
        lo <= hi,
    ensures
        lo <= r <= hi,
{
    rand::random_range(lo..=hi)
}

/// Relies on rand's `random`: one random byte.
#[verifier::external_body]
fn random_byte() -> u8 {
    rand::random::<u8>()
}

/// A random value below `bound`.
fn random_u32_below(bound: u32) -> (r: u32)
    requires
        bound >= 1,
    ensures
        r < bound,
{
    random_u64_inclusive(0, (bound - 1) as u64) as u32
}

/// A random index in `lo..hi`.
fn random_usize_between(lo: usize, hi: usize) -> (r: usize)
    requires
        lo < hi,
    ensures
        lo <= r < hi,
{
    random_u64_inclusive(lo as u64, (hi - 1) as u64) as usize
}

/// Configuration for communication failure injection.  Rates are parts per
/// ten thousand of `RATE_SCALE`.
#[derive(Debug, Clone, Copy, PartialEq, Eq, Structural)]
pub struct FailureConfig {
    /// Master switch for all failure injection.
    pub enabled: bool,
    /// Connection health percentage: 100 perfect, 0 severely degraded.
    pub connection_health: u8,
    /// Probability that an outgoing message is dropped.
    pub packet_loss_permyriad: u32,
    /// Minimum delay before sending a message, in milliseconds.
    pub delay_min_ms: u64,
    /// Maximum delay before sending a message, in milliseconds.
    pub delay_max_ms: u64,
    /// Probability that a message is corrupted before sending.
    pub corruption_permyriad: u32,
    /// Probability that the connection is forcefully dropped.
    pub force_disconnect_permyriad: u32,
}

impl FailureConfig {
    /// The configuration that `from_health` derives from a health reading:
    /// rates grow linearly as health falls, corruption only below fifty,
    /// disconnects only below twenty-five, and nothing at full health.
    pub open spec fn spec_from_health(health: u8) -> FailureConfig {
        let h = if health > 100 {
            100
        } else {
            health as int
        };
        FailureConfig {
            enabled: h < 100,
            connection_health: h as u8,
            packet_loss_permyriad: ((100 - h) * 50) as u32,
            delay_min_ms: 0,
            delay_max_ms: ((100 - h) * 10) as u64,
            corruption_permyriad: if h < 50 {
                ((100 - h) * 10) as u32
            } else {
                0
            },
            force_disconnect_permyriad: if h < 25 {
                ((100 - h) * 5) as u32
            } else {
                0
            },
        }
    }

    /// All rates within scale, health within percent, delays ordered.
    pub open spec fn spec_is_valid(&self) -> bool {
        &&& self.connection_health <= 100
        &&& self.packet_loss_permyriad <= RATE_SCALE
        &&& self.corruption_permyriad <= RATE_SCALE
        &&& self.force_disconnect_permyriad <= RATE_SCALE
        &&& self.delay_min_ms <= self.delay_max_ms
    }

    /// Create a configuration from a connection health reading (0 to 100).
    /// At full health injection is disabled and every rate is zero.
    pub fn from_health(health: u8) -> (r: Self)
        ensures
            r == FailureConfig::spec_from_health(health),
            r.spec_is_valid(),
            health >= 100 ==> !r.enabled && r.packet_loss_permyriad == 0 && r.delay_max_ms == 0
                && r.corruption_permyriad == 0 && r.force_disconnect_permyriad == 0,
    {
        let health = if health > 100 {
            100
        } else {
            health
        };
        let inverse = (100 - health) as u32;

        Self {
            enabled: health < 100,
            connection_health: health,
            packet_loss_permyriad: inverse * 50,
            delay_min_ms: 0,
            delay_max_ms: (inverse * 10) as u64,
            corruption_permyriad: if health < 50 {
                inverse * 10
            } else {
                0
            },
            force_disconnect_permyriad: if health < 25 {
                inverse * 5
            } else {
                0
            },
        }
    }

    /// Replace this configuration with the one derived from `health`.
    pub fn set_health(&mut self, health: u8)
        ensures
            *final(self) == FailureConfig::spec_from_health(health),
    {
        *self = Self::from_health(health);
    }

    /// Validate that every rate and the delay window are within range.
    pub fn is_valid(&self) -> (r: bool)
        ensures
            r == self.spec_is_valid(),
    {
        self.connection_health <= 100 && self.packet_loss_permyriad <= RATE_SCALE
            && self.corruption_permyriad <= RATE_SCALE && self.force_disconnect_permyriad
            <= RATE_SCALE && self.delay_min_ms <= self.delay_max_ms
    }
}

impl Default for FailureConfig {
    /// Injection disabled, full health, all rates zero.
    fn default() -> (r: Self)
        ensures
            r == (FailureConfig {
                enabled: false,
                connection_health: 100u8,
                packet_loss_permyriad: 0u32,
                delay_min_ms: 0u64,
                delay_max_ms: 0u64,
                corruption_permyriad: 0u32,
                force_disconnect_permyriad: 0u32,
            }),
    {
        Self {
            enabled: false,
            connection_health: 100,
            packet_loss_permyriad: 0,
            delay_min_ms: 0,
            delay_max_ms: 0,
            corruption_permyriad: 0,
            force_disconnect_permyriad: 0,
        }
    }
}

/// A byte advanced by `k` wrapping increments.
pub open spec fn spec_bump(b: u8, k: nat) -> u8 {
    ((b + k) % 256) as u8
}

/// The bytes with each position advanced by its own number of wrapping
/// increments.
pub open spec fn spec_bumped(original: Seq<u8>, counts: Seq<nat>) -> Seq<u8> {
    Seq::new(original.len(), |j: int| spec_bump(original[j], counts[j]))
}

/// The total of a sequence of counts.
pub open spec fn spec_sum(counts: Seq<nat>) -> nat
    decreases counts.len(),
{
    if counts.len() == 0 {
        0
    } else {
        spec_sum(counts.drop_last()) + counts.last()
    }
}

/// What corruption can produce from a non-empty message: the four length
/// bytes overwritten with nines, the two MID bytes overwritten, one to
/// three wrapping byte bumps, a proper non-empty prefix, an extension by
/// one to ten bytes — or, only for messages too short for the overwritten
/// header field, the message unchanged.
pub open spec fn spec_corruption_outcome(original: Seq<u8>, r: Seq<u8>) -> bool {
    ||| (original.len() < 8 && r == original)
    ||| (original.len() >= 4 && r == original.update(0, DIGIT_NINE).update(1, DIGIT_NINE).update(
        2,
        DIGIT_NINE,
    ).update(3, DIGIT_NINE))
    ||| (original.len() >= 8 && r == original.update(4, LETTER_X).update(5, LETTER_X))
    ||| (exists|counts: Seq<nat>|
        {
            &&& counts.len() == original.len()
            &&& 1 <= #[trigger] spec_sum(counts) <= 3
            &&& r == spec_bumped(original, counts)
        })
    ||| (1 <= r.len() < original.len() && r == original.take(r.len() as int))
    ||| (original.len() < r.len() <= original.len() + 10 && r.take(original.len() as int)
        == original)
}

/// A sequence of zero counts sums to zero.
proof fn lemma_sum_zeros(n: nat)
    ensures
        spec_sum(Seq::new(n, |j: int| 0nat)) == 0,
    decreases n,
{
    if n > 0 {
        let c = Seq::new(n, |j: int| 0nat);
        assert(c.drop_last() =~= Seq::new((n - 1) as nat, |j: int| 0nat));
        lemma_sum_zeros((n - 1) as nat);
    }
}

/// Incrementing one count increments the total.
proof fn lemma_sum_update_inc(counts: Seq<nat>, i: int)
    requires
        0 <= i < counts.len(),
    ensures
        spec_sum(counts.update(i, (counts[i] + 1) as nat)) == spec_sum(counts) + 1,
    decreases counts.len(),
{
    let updated = counts.update(i, (counts[i] + 1) as nat);
    if i == counts.len() - 1 {
        assert(updated.drop_last() =~= counts.drop_last());
    } else {
        assert(updated.drop_last() =~= counts.drop_last().update(i, (counts[i] + 1) as nat));
        lemma_sum_update_inc(counts.drop_last(), i);
    }
}

/// One wrapping increment at a position advances that position's count.
proof fn lemma_bump_step(original: Seq<u8>, counts: Seq<nat>, idx: int)
    requires
        counts.len() == original.len(),
        0 <= idx < original.len(),
        counts[idx] <= 3,
    ensures
        spec_bumped(original, counts).update(
            idx,
            (if spec_bumped(original, counts)[idx] == 255 {
                0u8
            } else {
                (spec_bumped(original, counts)[idx] + 1) as u8
            }),
        ) == spec_bumped(original, counts.update(idx, (counts[idx] + 1) as nat)),
{
    let before = spec_bumped(original, counts);
    let after = spec_bumped(original, counts.update(idx, (counts[idx] + 1) as nat));
    let bumped = if before[idx] == 255 {
        0u8
    } else {
        (before[idx] + 1) as u8
    };
    vstd::arithmetic::div_mod::lemma_add_mod_noop(
        original[idx] + counts[idx],
        1,
        256,
    );
    assert(bumped == spec_bump(original[idx], (counts[idx] + 1) as nat));
    assert(before.update(idx, bumped) =~= after);
}

/// No count exceeds the total.
proof fn lemma_elem_le_sum(counts: Seq<nat>, i: int)
    requires
        0 <= i < counts.len(),
    ensures
        counts[i] <= spec_sum(counts),
    decreases counts.len(),
{
    if i < counts.len() - 1 {
        lemma_elem_le_sum(counts.drop_last(), i);
    }
}

/// The five outbound decisions, all taken at one point so that no random
/// state crosses a suspension: whether to cut the connection, whether to
/// drop the frame, how long to delay, whether the frame was corrupted, and
/// the bytes to put on the wire.
pub struct FailureDecisions {
    /// Terminate the connection instead of sending.
    pub disconnect: bool,
    /// Silently skip this frame.
    pub drop_packet: bool,
    /// Sleep this long before sending, in milliseconds.
    pub delay_ms: u64,
    /// Whether the frame bytes were corrupted.
    pub corrupt: bool,
    /// The bytes to send (the original frame unless corrupted).
    pub bytes: Vec<u8>,
}

/// Failure injection simulator making probabilistic decisions from a
/// configuration.
pub struct FailureSimulator {
    config: FailureConfig,
}

impl FailureSimulator {
    /// The configuration the simulator draws its decisions from.
    pub closed spec fn spec_config(&self) -> FailureConfig {
        self.config
    }

    /// Create a new simulator from a configuration.
    pub fn new(config: FailureConfig) -> (r: Self)
        ensures
            r.spec_config() == config,
    {
        Self { config }
    }

    /// Check if failure injection is enabled.
    pub fn is_enabled(&self) -> (r: bool)
        ensures
            r == self.spec_config().enabled,
    {
        self.config.enabled
    }

    /// Get the current configuration.
    pub fn config(&self) -> (r: &FailureConfig)
        ensures
            *r == self.spec_config(),
    {
        &self.config
    }

    /// Decide whether the next message should be dropped.  Never when
    /// injection is disabled or the loss rate is zero; always when the
    /// rate reaches certainty.
    pub fn should_drop_packet(&mut self) -> (r: bool)
        ensures
            *final(self) == *old(self),
            !old(self).spec_config().enabled || old(self).spec_config().packet_loss_permyriad == 0
                ==> !r,
            old(self).spec_config().enabled && old(self).spec_config().packet_loss_permyriad
                >= RATE_SCALE ==> r,
    {
        if !self.config.enabled || self.config.packet_loss_permyriad == 0 {
            return false;
        }
        random_u32_below(RATE_SCALE) < self.config.packet_loss_permyriad
    }

    /// The delay to apply before the next message, in milliseconds: zero
    /// when injection is disabled or no delay window is configured, and
    /// otherwise within the configured window.
    pub fn get_delay(&mut self) -> (r: u64)
        ensures
            *final(self) == *old(self),
            r <= old(self).spec_config().delay_max_ms,
            !old(self).spec_config().enabled || old(self).spec_config().delay_max_ms == 0 ==> r
                == 0,
            old(self).spec_config().enabled && old(self).spec_config().delay_max_ms > 0 ==> r >= (
            if old(self).spec_config().delay_min_ms <= old(self).spec_config().delay_max_ms {
                old(self).spec_config().delay_min_ms
            } else {
                old(self).spec_config().delay_max_ms
            }),
    {
        if !self.config.enabled || self.config.delay_max_ms == 0 {
            return 0;
        }
        if self.config.delay_min_ms >= self.config.delay_max_ms {
            self.config.delay_max_ms
        } else {
            random_u64_inclusive(self.config.delay_min_ms, self.config.delay_max_ms)
        }
    }

    /// Decide whether the next message should be corrupted.  Never when
    /// injection is disabled or the corruption rate is zero; always when
    /// the rate reaches certainty.
    pub fn should_corrupt_message(&mut self) -> (r: bool)
        ensures
            *final(self) == *old(self),
            !old(self).spec_config().enabled || old(self).spec_config().corruption_permyriad == 0
                ==> !r,
            old(self).spec_config().enabled && old(self).spec_config().corruption_permyriad
                >= RATE_SCALE ==> r,
    {
        if !self.config.enabled || self.config.corruption_permyriad == 0 {
            return false;
        }
        random_u32_below(RATE_SCALE) < self.config.corruption_permyriad
    }

    /// Decide whether the connection should be forcefully dropped.  Never
    /// when injection is disabled or the disconnect rate is zero; always
    /// when the rate reaches certainty.
    pub fn should_disconnect(&mut self) -> (r: bool)
        ensures
            *final(self) == *old(self),
            !old(self).spec_config().enabled || old(self).spec_config().force_disconnect_permyriad
                == 0 ==> !r,
            old(self).spec_config().enabled && old(self).spec_config().force_disconnect_permyriad
                >= RATE_SCALE ==> r,
    {
        if !self.config.enabled || self.config.force_disconnect_permyriad == 0 {
            return false;
        }
        random_u32_below(RATE_SCALE) < self.config.force_disconnect_permyriad
    }

    /// Corrupt a message by one of five random mutations: a lying length
    /// field, a mangled MID field, one to three bytes bumped by one, a
    /// truncation, or appended garbage.  An empty message is returned
    /// unchanged; every non-empty outcome is one of the shapes of
    /// `spec_corruption_outcome`.
    pub fn corrupt_message(&mut self, original: &[u8]) -> (r: Vec<u8>)
        ensures
            *final(self) == *old(self),
            original@.len() == 0 ==> r@ == original@,
            r@.len() >= 1 || original@.len() == 0,
            r@.len() <= original@.len() + 10,
            original@.len() > 0 ==> {
                ||| r@.len() == original@.len()
                ||| (1 <= r@.len() < original@.len() && r@ == original@.take(r@.len() as int))
                ||| (original@.len() < r@.len() && r@.take(original@.len() as int) == original@)
            },
            original@.len() > 0 ==> spec_corruption_outcome(original@, r@),
    {
        if original.len() == 0 {
            return copy_bytes(original);
        }

        let corruption_type = random_u32_below(5);

        if corruption_type == 0 {
            corrupt_length_field(original)
        } else if corruption_type == 1 {
            corrupt_mid_field(original)
        } else if corruption_type == 2 {
            let cap = if original.len() < 3 {
                original.len()
            } else {
                3
            };
            let num_flips = random_usize_between(1, cap + 1);
            let mut corrupted = copy_bytes(original);
            let ghost mut counts: Seq<nat> = Seq::new(original@.len(), |j: int| 0nat);
            proof {
                lemma_sum_zeros(original@.len());
                assert(corrupted@ =~= spec_bumped(original@, counts));
            }
            let mut k: usize = 0;
            while k < num_flips
                invariant
                    corrupted@.len() == original@.len(),
                    original@.len() >= 1,
                    k <= num_flips <= 3,
                    counts.len() == original@.len(),
                    spec_sum(counts) == k,
                    corrupted@ == spec_bumped(original@, counts),
                decreases num_flips - k,
            {
                let idx = random_usize_between(0, corrupted.len());
                proof {
                    lemma_elem_le_sum(counts, idx as int);
                }
                corrupted = bump_byte_at(&corrupted, idx);
                proof {
                    lemma_bump_step(original@, counts, idx as int);
                    lemma_sum_update_inc(counts, idx as int);
                    counts = counts.update(idx as int, (counts[idx as int] + 1) as nat);
                }
                k = k + 1;
            }
            corrupted
        } else if corruption_type == 3 {
            if original.len() >= 2 {
                let new_len = random_usize_between(1, original.len());
                let mut corrupted = copy_bytes(original);
                corrupted.truncate(new_len);
                proof {
                    assert(corrupted@ =~= original@.take(new_len as int));
                }
                corrupted
            } else {
                copy_bytes(original)
            }
        } else {
            let garbage_count = random_usize_between(1, 11);
            let mut corrupted = copy_bytes(original);
            proof {
                assert(corrupted@.take(original@.len() as int) =~= original@);
            }
            let mut k: usize = 0;
            while k < garbage_count
                invariant
                    corrupted@.len() == original@.len() + k,
                    k <= garbage_count <= 10,
                    corrupted@.take(original@.len() as int) == original@,
                decreases garbage_count - k,
            {
                corrupted.push(random_byte());
                proof {
                    assert(corrupted@.take(original@.len() as int) =~= original@);
                }
                k = k + 1;
            }
            corrupted
        }
    }
}

/// Copy a slice into an owned vector.
fn copy_bytes(src: &[u8]) -> (r: Vec<u8>)
    ensures
        r@ == src@,
{
    let mut r: Vec<u8> = Vec::new();
    crate::protocol::field::extend_bytes(&mut r, src);
    r
}

/// Overwrite the four length bytes with ASCII nines; shorter messages are
/// returned unchanged.
fn corrupt_length_field(src: &[u8]) -> (r: Vec<u8>)
    ensures
        src@.len() >= 4 ==> r@ == src@.update(0, DIGIT_NINE).update(1, DIGIT_NINE).update(
            2,
            DIGIT_NINE,
        ).update(3, DIGIT_NINE),
        src@.len() < 4 ==> r@ == src@,
        r@.len() == src@.len(),
{
    let mut r = copy_bytes(src);
    if r.len() >= 4 {
        let mut i: usize = 0;
        while i < 4
            invariant
                r@.len() == src@.len() >= 4,
                0 <= i <= 4,
                forall|j: int| 0 <= j < i ==> r@[j] == DIGIT_NINE,
                forall|j: int| i <= j < src@.len() ==> r@[j] == src@[j],
            decreases 4 - i,
        {
            r.set(i, DIGIT_NINE);
            i = i + 1;
        }
        proof {
            assert(r@ =~= src@.update(0, DIGIT_NINE).update(1, DIGIT_NINE).update(
                2,
                DIGIT_NINE,
            ).update(3, DIGIT_NINE));
        }
    }
    r
}

/// Overwrite two MID bytes with an ASCII letter; messages shorter than the
/// header prefix are returned unchanged.
fn corrupt_mid_field(src: &[u8]) -> (r: Vec<u8>)
    ensures
        src@.len() >= 8 ==> r@ == src@.update(4, LETTER_X).update(5, LETTER_X),
        src@.len() < 8 ==> r@ == src@,
        r@.len() == src@.len(),
{
    let mut r = copy_bytes(src);
    if r.len() >= 8 {
        r.set(4, LETTER_X);
        r.set(5, LETTER_X);
        proof {
            assert(r@ =~= src@.update(4, LETTER_X).update(5, LETTER_X));
        }
    }
    r
}

/// A copy of the bytes with the byte at `idx` bumped by one, wrapping.
fn bump_byte_at(src: &Vec<u8>, idx: usize) -> (r: Vec<u8>)
    requires
        idx < src@.len(),
    ensures
        r@.len() == src@.len(),
        r@ == src@.update(idx as int, (if src@[idx as int] == 255 {
            0u8
        } else {
            (src@[idx as int] + 1) as u8
        })),
{
    let b = src[idx];
    let bumped: u8 = if b == 255 {
        0
    } else {
        b + 1
    };
    let mut r = copy_bytes(src.as_slice());
    r.set(idx, bumped);
    r
}

/// Take the five outbound decisions for one frame at a single point.
///
/// With injection disabled, every decision is benign and the frame passes
/// through unchanged.  A rate at certainty forces its decision.  Whatever
/// the draws, the delay stays within the configured window, an uncorrupted
/// frame passes through unchanged, and a corrupted frame is one of the
/// stated corruption outcomes.
pub fn plan_send(config: &FailureConfig, message: &[u8]) -> (r: FailureDecisions)
    ensures
        !config.enabled ==> !r.disconnect && !r.drop_packet && r.delay_ms == 0 && !r.corrupt
            && r.bytes@ == message@,
        config.force_disconnect_permyriad == 0 ==> !r.disconnect,
        config.enabled && config.force_disconnect_permyriad >= RATE_SCALE ==> r.disconnect,
        config.packet_loss_permyriad == 0 ==> !r.drop_packet,
        config.enabled && config.packet_loss_permyriad >= RATE_SCALE ==> r.drop_packet,
        r.delay_ms <= config.delay_max_ms,
        config.enabled && config.delay_max_ms > 0 ==> r.delay_ms >= (if config.delay_min_ms
            <= config.delay_max_ms {
            config.delay_min_ms
        } else {
            config.delay_max_ms
        }),
        config.corruption_permyriad == 0 ==> !r.corrupt,
        config.enabled && config.corruption_permyriad >= RATE_SCALE ==> r.corrupt,
        !r.corrupt ==> r.bytes@ == message@,
        r.corrupt && message@.len() > 0 ==> spec_corruption_outcome(message@, r.bytes@),
        r.bytes@.len() <= message@.len() + 10,
        message@.len() > 0 ==> r.bytes@.len() >= 1,
        message@.len() > 0 ==> {
            ||| r.bytes@.len() == message@.len()
            ||| (1 <= r.bytes@.len() < message@.len() && r.bytes@ == message@.take(
                r.bytes@.len() as int,
            ))
            ||| (message@.len() < r.bytes@.len() && r.bytes@.take(message@.len() as int)
                == message@)
        },
{
    let mut simulator = FailureSimulator::new(config.clone());

    let disconnect = simulator.should_disconnect();
    let drop_packet = simulator.should_drop_packet();
    let delay_ms = simulator.get_delay();
    let corrupt = simulator.should_corrupt_message();

    let bytes = if corrupt {
        simulator.corrupt_message(message)
    } else {
        copy_bytes(message)
    };

    FailureDecisions { disconnect, drop_packet, delay_ms, corrupt, bytes }
}

} // verus!
