//! The nutrient economy: a bounded pool, funded by the network's size and
//! territory, spent all-or-nothing.
//!
//! Amounts are fixed-point: [`NUTRIENT_SCALE`] units make one nutrient. Rates
//! are in units per second, fractions in thousandths and frame time in
//! microseconds.

use vstd::prelude::*;
use crate::state::GameState;
use crate::stats::NetworkStats;

verus! {

/// Units of an amount that make one nutrient.
pub const NUTRIENT_SCALE: u64 = 1000;

/// Thousandths that make a whole fraction.
pub const FRACTION_SCALE: u32 = 1000;

/// Microseconds in a second.
pub const MICROS_PER_SECOND: u64 = 1_000_000;

/// The global nutrient pool, the currency of every player action.
#[derive(Clone, Copy, PartialEq, Eq, Structural, Debug)]
pub struct Nutrients {
    /// Current nutrients
    pub current: u64,
    /// Most nutrients that can be stored
    pub max: u64,
}

/// The smaller of two amounts.
pub open spec fn min_amount(a: int, b: int) -> int {
    if a <= b {
        a
    } else {
        b
    }
}

impl Default for Nutrients {
    /// Half of a store of one hundred nutrients.
    fn default() -> (r: Nutrients)
        ensures
            r.current == 50 * NUTRIENT_SCALE,
            r.max == 100 * NUTRIENT_SCALE,
    {
        Nutrients { current: 50 * NUTRIENT_SCALE, max: 100 * NUTRIENT_SCALE }
    }
}

impl Nutrients {
    pub open spec fn wf(self) -> bool {
        self.current <= self.max
    }

    /// A pool holding `current` of at most `max`.
    pub fn new(current: u64, max: u64) -> (r: Nutrients)
        ensures
            r.current == current,
            r.max == max,
    {
        Nutrients { current, max }
    }

    /// Add `amount`, stopping at `max`.
    pub fn add(&mut self, amount: u64)
        ensures
            final(self).current == min_amount(old(self).current + amount, old(self).max as int),
            final(self).max == old(self).max,
    {
        if self.current >= self.max || amount >= self.max - self.current {
            self.current = self.max;
        } else {
            self.current = self.current + amount;
        }
    }

    /// Spend `amount` if the pool holds that much; otherwise change nothing.
    pub fn spend(&mut self, amount: u64) -> (r: bool)
        ensures
            r == (old(self).current >= amount),
            r ==> final(self).current == old(self).current - amount,
            !r ==> final(self).current == old(self).current,
            final(self).max == old(self).max,
    {
        if self.current >= amount {
            self.current = self.current - amount;
            true
        } else {
            false
        }
    }

    /// Whether the pool holds at least `amount`.
    pub fn can_afford(&self, amount: u64) -> (r: bool)
        ensures
            r == (self.current >= amount),
    {
        self.current >= amount
    }

    /// How full the pool is, in thousandths; zero for a pool of no capacity.
    pub fn percentage(&self) -> (r: u64)
        requires
            self.wf(),
        ensures
            r == (if self.max == 0 {
                0
            } else {
                (self.current * FRACTION_SCALE) as int / self.max as int
            }),
            r <= FRACTION_SCALE,
    {
        if self.max == 0 {
            return 0;
        }
        let scaled: u128 = self.current as u128 * FRACTION_SCALE as u128;
        let r: u128 = scaled / self.max as u128;
        assert(r <= FRACTION_SCALE) by (nonlinear_arith)
            requires
                r == scaled / self.max as u128,
                scaled == self.current * 1000,
                self.current <= self.max,
                self.max > 0,
        ;
        r as u64
    }

    /// Raise the capacity by `amount`.
    pub fn increase_max(&mut self, amount: u64)
        requires
            old(self).max + amount <= u64::MAX,
        ensures
            final(self).max == old(self).max + amount,
            final(self).current == old(self).current,
    {
        self.max = self.max + amount;
    }
}

/// Prices of the player's actions.
#[derive(Clone, Copy, PartialEq, Eq, Structural, Debug)]
pub struct NutrientCosts {
    /// Cost to grow one tendril segment
    pub growth_cost: u64,
    /// Cost per second of network ability use
    pub ability_cost_per_second: u64,
    /// Base cost to cleanse corruption from a segment
    pub cleanse_base_cost: u64,
    /// Added cost of cleansing a fully corrupted segment
    pub cleanse_level_multiplier: u64,
}

impl Default for NutrientCosts {
    fn default() -> (r: NutrientCosts)
        ensures
            r.growth_cost == 5 * NUTRIENT_SCALE,
            r.ability_cost_per_second == 2 * NUTRIENT_SCALE,
            r.cleanse_base_cost == 10 * NUTRIENT_SCALE,
            r.cleanse_level_multiplier == 2 * NUTRIENT_SCALE,
    {
        NutrientCosts {
            growth_cost: 5 * NUTRIENT_SCALE,
            ability_cost_per_second: 2 * NUTRIENT_SCALE,
            cleanse_base_cost: 10 * NUTRIENT_SCALE,
            cleanse_level_multiplier: 2 * NUTRIENT_SCALE,
        }
    }
}

impl NutrientCosts {
    /// The cost of cleansing a segment at `corruption_level` thousandths.
    pub open spec fn cleanse_cost_spec(self, corruption_level: u32) -> int {
        self.cleanse_base_cost + (corruption_level * self.cleanse_level_multiplier) / FRACTION_SCALE as int
    }

    /// The cost of cleansing a segment: the base cost, plus the level
    /// multiplier in proportion to `corruption_level`, in thousandths.
    pub fn cleanse_cost(&self, corruption_level: u32) -> (r: u64)
        requires
            corruption_level <= FRACTION_SCALE,
            self.cleanse_base_cost + self.cleanse_level_multiplier <= u64::MAX,
        ensures
            r == self.cleanse_cost_spec(corruption_level),
    {
        let level: u128 = corruption_level as u128;
        let mult: u128 = self.cleanse_level_multiplier as u128;
        assert(level * mult <= 1000 * mult) by (nonlinear_arith)
            requires
                level <= 1000,
        ;
        let extra: u128 = level * mult / FRACTION_SCALE as u128;
        assert(extra <= mult) by (nonlinear_arith)
            requires
                extra == level * mult / 1000,
                level * mult <= 1000 * mult,
        ;
        self.cleanse_base_cost + extra as u64
    }
}

/// Rates of passive income.
#[derive(Clone, Copy, PartialEq, Eq, Structural, Debug)]
pub struct PassiveNutrientConfig {
    /// Units per second for each connected segment
    pub per_segment_rate: u32,
    /// Units per second at full territory coverage
    pub territory_bonus_rate: u32,
}

impl Default for PassiveNutrientConfig {
    fn default() -> (r: PassiveNutrientConfig)
        ensures
            r.per_segment_rate == 100,
            r.territory_bonus_rate == 1000,
    {
        PassiveNutrientConfig { per_segment_rate: 100, territory_bonus_rate: 1000 }
    }
}

/// Where nutrients came from.
#[derive(Clone, Copy, PartialEq, Eq, Structural, Debug)]
pub enum NutrientSource {
    /// Dropped by defeated enemies
    EnemyDrop,
    /// Collected from environment nodes
    EnvironmentNode,
    /// Passive generation from network
    PassiveAbsorption,
    /// From decomposing severed segments
    Decomposition,
    /// For testing/debugging
    Debug,
}

/// What nutrients were spent on.
#[derive(Clone, Copy, PartialEq, Eq, Structural, Debug)]
pub enum NutrientPurpose {
    /// Growing new tendril segments
    Growth,
    /// Using network abilities
    Ability,
    /// Cleansing corruption
    Cleanse,
    /// For testing/debugging
    Debug,
}

/// Notice that nutrients were gained.
#[derive(Clone, Copy, PartialEq, Eq, Structural, Debug)]
pub struct NutrientsGained {
    pub amount: u64,
    pub source: NutrientSource,
}

impl NutrientsGained {
    pub fn new(amount: u64, source: NutrientSource) -> (r: NutrientsGained)
        ensures
            r.amount == amount,
            r.source == source,
    {
        NutrientsGained { amount, source }
    }
}

/// Notice that nutrients were spent.
#[derive(Clone, Copy, PartialEq, Eq, Structural, Debug)]
pub struct NutrientsSpent {
    pub amount: u64,
    pub purpose: NutrientPurpose,
}

impl NutrientsSpent {
    pub fn new(amount: u64, purpose: NutrientPurpose) -> (r: NutrientsSpent)
        ensures
            r.amount == amount,
            r.purpose == purpose,
    {
        NutrientsSpent { amount, purpose }
    }
}

/// Notice that a spend failed for want of nutrients.
#[derive(Clone, Copy, PartialEq, Eq, Structural, Debug)]
pub struct NutrientSpendFailed {
    pub amount_needed: u64,
    pub amount_available: u64,
    pub purpose: NutrientPurpose,
}

impl NutrientSpendFailed {
    pub fn new(amount_needed: u64, amount_available: u64, purpose: NutrientPurpose) -> (r: NutrientSpendFailed)
        ensures
            r.amount_needed == amount_needed,
            r.amount_available == amount_available,
            r.purpose == purpose,
    {
        NutrientSpendFailed { amount_needed, amount_available, purpose }
    }

    /// How many more nutrients were needed; zero if none were missing.
    pub fn deficit(&self) -> (r: u64)
        ensures
            r == (if self.amount_needed > self.amount_available {
                self.amount_needed - self.amount_available
            } else {
                0
            }),
    {
        if self.amount_needed > self.amount_available {
            self.amount_needed - self.amount_available
        } else {
            0
        }
    }
}

/// The income, in units, of a frame of `delta_micros` microseconds: each
/// connected segment earns its rate, and territory earns the bonus rate in
/// proportion to its coverage.
pub open spec fn passive_income_spec(stats: NetworkStats, config: PassiveNutrientConfig, delta_micros: u32) -> int {
    ((stats.connected_segments * config.per_segment_rate * FRACTION_SCALE + stats.territory_coverage
        * config.territory_bonus_rate) * delta_micros) / (FRACTION_SCALE * MICROS_PER_SECOND) as int
}

/// The income of a frame, capped at the largest amount.
pub fn passive_income(stats: &NetworkStats, config: &PassiveNutrientConfig, delta_micros: u32) -> (r: u64)
    ensures
        r == min_amount(passive_income_spec(*stats, *config, delta_micros), u64::MAX as int),
{
    let c: u128 = stats.connected_segments as u128;
    let rate: u128 = config.per_segment_rate as u128;
    let cov: u128 = stats.territory_coverage as u128;
    let bonus: u128 = config.territory_bonus_rate as u128;
    let dt: u128 = delta_micros as u128;
    assert(c * rate <= 0xffff_ffff * 0xffff_ffff) by (nonlinear_arith)
        requires
            c <= 0xffff_ffff,
            rate <= 0xffff_ffff,
    ;
    assert(cov * bonus <= 0xffff_ffff * 0xffff_ffff) by (nonlinear_arith)
        requires
            cov <= 0xffff_ffff,
            bonus <= 0xffff_ffff,
    ;
    let per_second: u128 = c * rate * 1000 + cov * bonus;
    assert(per_second * dt <= 0x1_0000_0000_0000_0000_0000 * 0xffff_ffff) by (nonlinear_arith)
        requires
            per_second <= 0x1_0000_0000_0000_0000_0000,
            dt <= 0xffff_ffff,
    ;
    let total: u128 = per_second * dt / 1_000_000_000;
    if total > u64::MAX as u128 {
        u64::MAX
    } else {
        total as u64
    }
}

/// One frame of passive income: while playing, add the frame's income to the
/// pool and report it, unless it is zero.
pub fn passive_nutrient_generation(
    state: GameState,
    delta_micros: u32,
    network_stats: &NetworkStats,
    config: &PassiveNutrientConfig,
    nutrients: &mut Nutrients,
) -> (r: Option<NutrientsGained>)
    ensures
        ({
            let income = min_amount(passive_income_spec(*network_stats, *config, delta_micros), u64::MAX as int);
            if state == GameState::Playing && income > 0 {
                &&& r == Some(NutrientsGained { amount: income as u64, source: NutrientSource::PassiveAbsorption })
                &&& final(nutrients).current == min_amount(old(nutrients).current + income, old(nutrients).max as int)
                &&& final(nutrients).max == old(nutrients).max
            } else {
                &&& r == None::<NutrientsGained>
                &&& *final(nutrients) == *old(nutrients)
            }
        }),
{
    if state != GameState::Playing {
        return None;
    }
    let total = passive_income(network_stats, config, delta_micros);
    if total > 0 {
        nutrients.add(total);
        Some(NutrientsGained::new(total, NutrientSource::PassiveAbsorption))
    } else {
        None
    }
}

/// Spend `amount` for `purpose`, reporting the spend, or the shortfall when
/// the pool holds less.
pub fn try_spend_nutrients(amount: u64, purpose: NutrientPurpose, nutrients: &mut Nutrients) -> (r: Result<
    NutrientsSpent,
    NutrientSpendFailed,
>)
    ensures
        old(nutrients).current >= amount ==> {
            &&& r == Ok::<NutrientsSpent, NutrientSpendFailed>(NutrientsSpent { amount, purpose })
            &&& final(nutrients).current == old(nutrients).current - amount
            &&& final(nutrients).max == old(nutrients).max
        },
        old(nutrients).current < amount ==> {
            &&& r == Err::<NutrientsSpent, NutrientSpendFailed>(
                NutrientSpendFailed { amount_needed: amount, amount_available: old(nutrients).current, purpose },
            )
            &&& *final(nutrients) == *old(nutrients)
        },
{
    let available = nutrients.current;
    if nutrients.spend(amount) {
        Ok(NutrientsSpent::new(amount, purpose))
    } else {
        Err(NutrientSpendFailed::new(amount, available, purpose))
    }
}

} // verus!
