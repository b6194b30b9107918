//! Bounded one-axis score arithmetic and the value types shared across the
//! colony: dimensional positions, configuration, engine metric records and the
//! error kinds of every operation.
//!
//! Every dimensional axis lives in the closed range `[-100, 100]`. The
//! stability-weighted update scales with floor division, the two-vector blend
//! takes the truncated mean, and both clamp their results back into that
//! range, so axis updates are total functions.

use vstd::prelude::*;

verus! {

/// Lowest value a dimensional axis may take.
pub const AXIS_MIN: i64 = -100;

/// Highest value a dimensional axis may take.
pub const AXIS_MAX: i64 = 100;

/// An axis value is valid when it lies inside the closed bounded range.
pub open spec fn valid_axis(v: int) -> bool {
    AXIS_MIN <= v <= AXIS_MAX
}

/// Truncating integer division (rounds toward zero), the rounding rule of
/// `blend`.
pub open spec fn div_trunc(a: int, d: int) -> int {
    if a >= 0 {
        a / d
    } else {
        -((-a) / d)
    }
}

/// Clamps a mathematical integer into the bounded axis range.
pub open spec fn clamp_axis(v: int) -> int {
    if v > AXIS_MAX {
        AXIS_MAX as int
    } else if v < AXIS_MIN {
        AXIS_MIN as int
    } else {
        v
    }
}

/// The damping factor a stability scalar yields: `100 / stability`, with a
/// zero stability falling back to a factor of `1` rather than failing.
pub open spec fn stability_factor(stability: u64) -> int {
    if stability == 0 {
        1
    } else {
        100int / (stability as int)
    }
}

/// What `calculate_dimension_update` returns: scale the impact by the
/// stability factor with floor division (falling back to the unscaled impact
/// if the product leaves the signed 64-bit range), add it to the current
/// value (falling back to the current value if the sum leaves that range),
/// and clamp.
pub open spec fn spec_merge_dimension(current: i64, impact: i64, stability: u64) -> int {
    let factor = stability_factor(stability);
    let scaled = if impact * factor < i64::MIN || impact * factor > i64::MAX {
        impact as int
    } else {
        (impact * factor) / 100
    };
    let shifted = if current + scaled < i64::MIN || current + scaled > i64::MAX {
        current as int
    } else {
        current + scaled
    };
    clamp_axis(shifted)
}

/// Floor division of a signed value by 100 (rounds toward negative infinity).
fn floor_div_100(x: i64) -> (quotient: i64)
    ensures
        quotient as int == (x as int) / 100,
{
    if x >= 0 {
        ((x as u64) / 100) as i64
    } else {
        let magnitude: u128 = (-(x as i128)) as u128;
        let whole: u128 = magnitude / 100;
        let rest: u128 = magnitude % 100;
        proof {
            if rest == 0 {
                vstd::arithmetic::div_mod::lemma_fundamental_div_mod_converse(
                    x as int,
                    100,
                    -(whole as int),
                    0,
                );
            } else {
                vstd::arithmetic::div_mod::lemma_fundamental_div_mod_converse(
                    x as int,
                    100,
                    -(whole as int) - 1,
                    100 - rest as int,
                );
            }
        }
        if rest == 0 {
            -(whole as i64)
        } else {
            -(whole as i64) - 1
        }
    }
}

/// Applies a stability-weighted impact to one bounded axis.
///
/// Total: every input yields a value in the bounded axis range.
pub fn calculate_dimension_update(current: i64, impact: i64, stability: u64) -> (updated: i64)
    ensures
        updated as int == spec_merge_dimension(current, impact, stability),
        valid_axis(updated as int),
{
    let factor: u64 = if stability == 0 {
        1
    } else {
        100 / stability
    };
    let scaled: i64 = match impact.checked_mul(factor as i64) {
        Some(product) => floor_div_100(product),
        None => impact,
    };
    let shifted: i64 = match current.checked_add(scaled) {
        Some(sum) => sum,
        None => current,
    };
    if shifted > AXIS_MAX {
        AXIS_MAX
    } else if shifted < AXIS_MIN {
        AXIS_MIN
    } else {
        shifted
    }
}

/// What `blend` returns: the truncated mean of the two axes, clamped.
pub open spec fn spec_blend(a: i64, b: i64) -> int {
    clamp_axis(div_trunc(a + b, 2))
}

/// Blends two bounded axes into their (truncated, clamped) mean; used when two
/// whole dimensional vectors are merged rather than updated from an impact.
pub fn blend(a: i64, b: i64) -> (merged: i64)
    ensures
        merged as int == spec_blend(a, b),
        valid_axis(merged as int),
{
    let sum: i128 = a as i128 + b as i128;
    let half: i128 = match sum.checked_div(2) {
        Some(quotient) => quotient,
        None => 0,
    };
    if half > AXIS_MAX as i128 {
        AXIS_MAX
    } else if half < AXIS_MIN as i128 {
        AXIS_MIN
    } else {
        half as i64
    }
}

/// Every error kind an operation of this crate can signal. All failures abort
/// the whole operation with no partial state change.
#[derive(Clone, Copy, Debug, PartialEq, Eq, Structural)]
pub enum CreatureError {
    /// A cell's energy lay below the fixed cost of generating a thought.
    InsufficientEnergy,
    /// A merged dimensional vector failed the bounds check. Unreachable given
    /// the clamping update, retained as the design's defensive safety net.
    InvalidDimensionalUpdate,
    /// An operation referenced an identity that never registered.
    AgentNotFound,
    /// A reserved caller-facing policy outcome for strategies rejected before
    /// analysis; no operation of this crate produces it.
    InvalidStrategy,
    /// The analysis scored a higher risk than the configured ceiling.
    RiskTooHigh,
    /// The analysis scored a lower confidence than the configured floor.
    LowConfidence,
}

/// A six-axis bounded score vector: an agent's or the colony's accumulated
/// quality profile.
#[derive(Clone, Copy, Debug, PartialEq, Eq, Structural)]
pub struct DimensionalPosition {
    pub emergence: i64,
    pub coherence: i64,
    pub resilience: i64,
    pub intelligence: i64,
    pub efficiency: i64,
    pub integration: i64,
}

/// The all-zero position every cell and colony starts from.
pub open spec fn spec_origin_position() -> DimensionalPosition {
    DimensionalPosition {
        emergence: 0,
        coherence: 0,
        resilience: 0,
        intelligence: 0,
        efficiency: 0,
        integration: 0,
    }
}

/// Blending two positions, axis by axis.
pub open spec fn spec_blend_position(a: DimensionalPosition, b: DimensionalPosition) -> DimensionalPosition {
    DimensionalPosition {
        emergence: spec_blend(a.emergence, b.emergence) as i64,
        coherence: spec_blend(a.coherence, b.coherence) as i64,
        resilience: spec_blend(a.resilience, b.resilience) as i64,
        intelligence: spec_blend(a.intelligence, b.intelligence) as i64,
        efficiency: spec_blend(a.efficiency, b.efficiency) as i64,
        integration: spec_blend(a.integration, b.integration) as i64,
    }
}

/// Applying a stability-weighted impact to a whole position, axis by axis.
pub open spec fn spec_merge_position(
    current: DimensionalPosition,
    impact: DimensionalPosition,
    stability: u64,
) -> DimensionalPosition {
    DimensionalPosition {
        emergence: spec_merge_dimension(current.emergence, impact.emergence, stability) as i64,
        coherence: spec_merge_dimension(current.coherence, impact.coherence, stability) as i64,
        resilience: spec_merge_dimension(current.resilience, impact.resilience, stability) as i64,
        intelligence: spec_merge_dimension(current.intelligence, impact.intelligence, stability) as i64,
        efficiency: spec_merge_dimension(current.efficiency, impact.efficiency, stability) as i64,
        integration: spec_merge_dimension(current.integration, impact.integration, stability) as i64,
    }
}

impl DimensionalPosition {
    /// A position is well formed when every axis lies in the bounded range.
    pub open spec fn wf(self) -> bool {
        valid_axis(self.emergence as int) && valid_axis(self.coherence as int)
            && valid_axis(self.resilience as int) && valid_axis(self.intelligence as int)
            && valid_axis(self.efficiency as int) && valid_axis(self.integration as int)
    }
}

impl Default for DimensionalPosition {
    /// The all-zero position.
    fn default() -> (origin: Self)
        ensures
            origin == spec_origin_position(),
            origin.wf(),
    {
        DimensionalPosition {
            emergence: 0,
            coherence: 0,
            resilience: 0,
            intelligence: 0,
            efficiency: 0,
            integration: 0,
        }
    }
}

/// The validate-and-merge capability a dimensional score vector offers.
pub trait DimensionalState: Sized {
    /// What validity means for this state.
    spec fn spec_valid(&self) -> bool;

    /// The state that merging with `other` yields.
    spec fn spec_impact(&self, other: &Self) -> Self;

    /// Reports whether the state passes its bounds check.
    fn is_valid(&self) -> (valid: bool)
        ensures
            valid == self.spec_valid(),
    ;

    /// Merges this state with another; total, so the merge always succeeds and
    /// the merged state is again valid.
    fn calculate_impact(&self, other: &Self) -> (merged: Result<Self, CreatureError>)
        ensures
            merged matches Ok(m) && m == self.spec_impact(other),
            merged matches Ok(m) ==> m.spec_valid(),
    ;
}

impl DimensionalState for DimensionalPosition {
    open spec fn spec_valid(&self) -> bool {
        self.wf()
    }

    open spec fn spec_impact(&self, other: &Self) -> Self {
        spec_blend_position(*self, *other)
    }

    fn is_valid(&self) -> (valid: bool)
        ensures
            valid == self.spec_valid(),
    {
        self.emergence >= AXIS_MIN && self.emergence <= AXIS_MAX
            && self.coherence >= AXIS_MIN && self.coherence <= AXIS_MAX
            && self.resilience >= AXIS_MIN && self.resilience <= AXIS_MAX
            && self.intelligence >= AXIS_MIN && self.intelligence <= AXIS_MAX
            && self.efficiency >= AXIS_MIN && self.efficiency <= AXIS_MAX
            && self.integration >= AXIS_MIN && self.integration <= AXIS_MAX
    }

    fn calculate_impact(&self, other: &Self) -> (merged: Result<Self, CreatureError>)
        ensures
            merged matches Ok(m) && m == self.spec_impact(other),
            merged matches Ok(m) ==> m.spec_valid(),
    {
        Ok(DimensionalPosition {
            emergence: blend(self.emergence, other.emergence),
            coherence: blend(self.coherence, other.coherence),
            resilience: blend(self.resilience, other.resilience),
            intelligence: blend(self.intelligence, other.intelligence),
            efficiency: blend(self.efficiency, other.efficiency),
            integration: blend(self.integration, other.integration),
        })
    }
}

/// Caller-facing policy thresholds. The defaults reject nothing; stricter
/// values turn on the reserved risk and confidence gates.
#[derive(Clone, Copy, Debug, PartialEq, Eq, Structural)]
pub struct CreatureConfig {
    /// Analyses whose coherence-derived confidence lies below this are rejected.
    pub min_confidence: u64,
    /// Analyses whose risk score lies above this are rejected.
    pub max_risk_score: u64,
    /// The stability index above which the colony may evolve.
    pub evolution_threshold: u64,
    /// The fixed energy a thought costs.
    pub energy_cost_per_thought: u64,
}

/// The permissive default configuration: no gate ever fires.
pub open spec fn spec_default_config() -> CreatureConfig {
    CreatureConfig {
        min_confidence: 0,
        max_risk_score: u64::MAX,
        evolution_threshold: 90,
        energy_cost_per_thought: 10,
    }
}

impl Default for CreatureConfig {
    fn default() -> (config: Self)
        ensures
            config == spec_default_config(),
    {
        CreatureConfig {
            min_confidence: 0,
            max_risk_score: u64::MAX,
            evolution_threshold: 90,
            energy_cost_per_thought: 10,
        }
    }
}

/// The colony-wide six-axis score vector.
#[derive(Clone, Copy, Debug, PartialEq, Eq, Structural)]
pub struct DimensionalScores {
    pub emergence: i64,
    pub coherence: i64,
    pub resilience: i64,
    pub intelligence: i64,
    pub efficiency: i64,
    pub integration: i64,
}

impl DimensionalScores {
    /// Colony scores are well formed when every axis lies in the bounded range.
    pub open spec fn wf(self) -> bool {
        valid_axis(self.emergence as int) && valid_axis(self.coherence as int)
            && valid_axis(self.resilience as int) && valid_axis(self.intelligence as int)
            && valid_axis(self.efficiency as int) && valid_axis(self.integration as int)
    }
}

/// The all-zero colony score vector.
pub open spec fn spec_origin_scores() -> DimensionalScores {
    DimensionalScores {
        emergence: 0,
        coherence: 0,
        resilience: 0,
        intelligence: 0,
        efficiency: 0,
        integration: 0,
    }
}

/// Folding one thought's impact into the colony scores, axis by axis.
pub open spec fn spec_blend_scores(
    scores: DimensionalScores,
    impact: DimensionalPosition,
) -> DimensionalScores {
    DimensionalScores {
        emergence: spec_blend(scores.emergence, impact.emergence) as i64,
        coherence: spec_blend(scores.coherence, impact.coherence) as i64,
        resilience: spec_blend(scores.resilience, impact.resilience) as i64,
        intelligence: spec_blend(scores.intelligence, impact.intelligence) as i64,
        efficiency: spec_blend(scores.efficiency, impact.efficiency) as i64,
        integration: spec_blend(scores.integration, impact.integration) as i64,
    }
}

impl Default for DimensionalScores {
    /// The all-zero colony score vector.
    fn default() -> (origin: Self)
        ensures
            origin == spec_origin_scores(),
            origin.wf(),
    {
        DimensionalScores {
            emergence: 0,
            coherence: 0,
            resilience: 0,
            intelligence: 0,
            efficiency: 0,
            integration: 0,
        }
    }
}

/// Copies a vector of plain values element by element.
pub fn copy_values<T: Copy>(values: &Vec<T>) -> (out: Vec<T>)
    ensures
        out@ == values@,
{
    let mut out: Vec<T> = Vec::new();
    let mut i: usize = 0;
    while i < values.len()
        invariant
            i <= values@.len(),
            out@ == values@.take(i as int),
        decreases values@.len() - i,
    {
        proof {
            assert(values@.take(i as int + 1) =~= values@.take(i as int).push(values@[i as int]));
        }
        out.push(values[i]);
        i += 1;
    }
    proof {
        assert(values@.take(values@.len() as int) =~= values@);
    }
    out
}

/// Order metrics of an evolved state tensor: a global coherence scalar, one
/// local coherence per tensor cell, and a stability scalar, each on the 0-100
/// scale.
#[derive(Debug)]
pub struct CoherenceMetrics {
    pub global_coherence: u64,
    pub local_coherences: Vec<u64>,
    pub stability: u64,
}

/// The ghost image of `CoherenceMetrics`.
pub ghost struct CoherenceMetricsView {
    pub global_coherence: u64,
    pub local_coherences: Seq<u64>,
    pub stability: u64,
}

impl View for CoherenceMetrics {
    type V = CoherenceMetricsView;

    open spec fn view(&self) -> CoherenceMetricsView {
        CoherenceMetricsView {
            global_coherence: self.global_coherence,
            local_coherences: self.local_coherences@,
            stability: self.stability,
        }
    }
}

/// Risk metrics of an evolved state tensor, each on the 0-100 scale.
#[derive(Clone, Copy, Debug, PartialEq, Eq, Structural)]
pub struct RiskMetrics {
    pub risk_score: u64,
    pub expected_return: u64,
    pub volatility: u64,
    pub correlation: u64,
}

/// For all inputs, a merged axis lies in the bounded range: iterated updates
/// can never drift outside it.
pub proof fn lemma_merge_dimension_bounded(current: i64, impact: i64, stability: u64)
    ensures
        valid_axis(spec_merge_dimension(current, impact, stability)),
{
}

/// Blending is commutative: `blend(a, b) == blend(b, a)` for all axes.
pub proof fn lemma_blend_commutative(a: i64, b: i64)
    ensures
        spec_blend(a, b) == spec_blend(b, a),
{
}

/// The zero-stability fallback makes a stability of `0` behave exactly like a
/// stability of `100`: both yield a damping factor of `1`.
pub proof fn lemma_merge_zero_stability_matches_full(current: i64, impact: i64)
    ensures
        spec_merge_dimension(current, impact, 0) == spec_merge_dimension(current, impact, 100),
{
}

/// With no impact, a stability of `0` and a stability of `1` agree. (On a
/// nonzero impact they need not: stability `1` yields a factor of `100` and
/// applies the impact in full, while stability `0` falls back to a factor of
/// `1` and applies only a hundredth of it.)
pub proof fn lemma_merge_zero_stability_matches_unit_on_no_impact(current: i64)
    ensures
        spec_merge_dimension(current, 0, 0) == spec_merge_dimension(current, 0, 1),
{
}

/// The axis an in-range start reaches after a whole sequence of
/// stability-weighted updates, applied in order.
pub open spec fn apply_updates(start: i64, updates: Seq<(i64, u64)>) -> int
    decreases updates.len(),
{
    if updates.len() == 0 {
        start as int
    } else {
        let previous = apply_updates(start, updates.drop_last());
        spec_merge_dimension(previous as i64, updates.last().0, updates.last().1)
    }
}

/// An axis built purely from merge updates, starting in range, stays in range
/// after arbitrarily many applications: no drift outside the bounds.
pub proof fn lemma_apply_updates_bounded(start: i64, updates: Seq<(i64, u64)>)
    requires
        valid_axis(start as int),
    ensures
        valid_axis(apply_updates(start, updates)),
    decreases updates.len(),
{
    if updates.len() > 0 {
        lemma_apply_updates_bounded(start, updates.drop_last());
    }
}

/// A position merged from any inputs is well formed: the vector-level
/// validity gate can never fail.
pub proof fn lemma_merge_position_wf(
    current: DimensionalPosition,
    impact: DimensionalPosition,
    stability: u64,
)
    ensures
        spec_merge_position(current, impact, stability).wf(),
{
}

/// A blended position is well formed.
pub proof fn lemma_blend_position_wf(a: DimensionalPosition, b: DimensionalPosition)
    ensures
        spec_blend_position(a, b).wf(),
{
}

} // verus!
