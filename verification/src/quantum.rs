//! The deterministic state-evolution engine: a fixed-shape tensor of
//! fixed-point complex amplitudes derived from a byte payload, evolved through
//! a fixed number of contraction rounds, and reduced to coherence and risk
//! metrics.
//!
//! The concrete kernels are this crate's documented modeling choice: the
//! payload is folded into a rolling hash, the hash seeds one bounded amplitude
//! per tensor cell, and each evolution round applies three pointwise linear
//! phase-wrap mixes (a market step, a risk step and a return step), each a
//! small integer combination of the two components folded back onto the
//! centered range, so every amplitude stays inside `[-AMP_BOUND, AMP_BOUND]`
//! by construction while the embedded payload keeps shaping the evolved
//! tensor through every round.
//! Every stage is a pure function of the payload bytes alone, so identical
//! payloads yield bit-identical analyses.

use vstd::prelude::*;
use vstd::arithmetic::div_mod::lemma_mod_multiples_vanish;
use crate::types::CoherenceMetrics;
use crate::types::CoherenceMetricsView;
use crate::types::CreatureError;
use crate::types::DimensionalPosition;
use crate::types::RiskMetrics;
use crate::types::clamp_axis;
use crate::types::valid_axis;
use crate::cell::Thought;
use crate::cell::ThoughtView;
use crate::cell::copy_bytes;

verus! {

/// Cells in the state tensor: a 16 x 16 x 16 x 16 shape, stored flat.
pub const TENSOR_CELLS: usize = 65536;

/// Every amplitude component stays inside `[-AMP_BOUND, AMP_BOUND]`.
pub const AMP_BOUND: i64 = 1000;

/// The fixed number of evolution rounds one analysis applies.
pub const EVOLUTION_ROUNDS: usize = 10;

/// Modulus of the rolling payload hash.
pub const HASH_MODULUS: u64 = 16777216;

/// Seed of the rolling payload hash.
pub const HASH_SEED: u64 = 7;

/// One fixed-point complex amplitude of the state tensor.
#[derive(Clone, Copy, Debug, PartialEq, Eq, Structural)]
pub struct Amplitude {
    pub re: i64,
    pub im: i64,
}

/// An attractor descriptor of the phase space: purely descriptive
/// configuration in this design.
#[derive(Clone, Copy, Debug, PartialEq, Eq, Structural)]
pub struct Attractor {
    pub center: DimensionalPosition,
    pub strength: u64,
}

/// The engine's phase-space descriptor: embedding dimension, attractor
/// descriptors and their Lyapunov-exponent scalars.
#[derive(Debug)]
pub struct PhaseSpace {
    pub embedding_dimension: u64,
    pub attractors: Vec<Attractor>,
    pub lyapunov_exponents: Vec<i64>,
}

/// The ghost image of `PhaseSpace`.
pub ghost struct PhaseSpaceView {
    pub embedding_dimension: u64,
    pub attractors: Seq<Attractor>,
    pub lyapunov_exponents: Seq<i64>,
}

impl PhaseSpace {
    /// A field-for-field copy of the phase-space descriptor.
    pub fn duplicate(&self) -> (copy: PhaseSpace)
        ensures
            copy@ == self@,
    {
        PhaseSpace {
            embedding_dimension: self.embedding_dimension,
            attractors: crate::types::copy_values(&self.attractors),
            lyapunov_exponents: crate::types::copy_values(&self.lyapunov_exponents),
        }
    }
}

impl View for PhaseSpace {
    type V = PhaseSpaceView;

    open spec fn view(&self) -> PhaseSpaceView {
        PhaseSpaceView {
            embedding_dimension: self.embedding_dimension,
            attractors: self.attractors@,
            lyapunov_exponents: self.lyapunov_exponents@,
        }
    }
}

/// The metrics one analysis returns, each scalar on the 0-100 scale.
#[derive(Clone, Copy, Debug, PartialEq, Eq, Structural)]
pub struct QuantumAnalysis {
    pub risk_score: u64,
    pub expected_return: u64,
    pub coherence_score: u64,
    pub stability_score: u64,
}

/// The evolution engine: the current state tensor, the phase-space
/// configuration, and the metrics of the latest analysis.
#[derive(Debug)]
pub struct QuantumState {
    pub amplitudes: Vec<Amplitude>,
    pub phase_space: PhaseSpace,
    pub coherence_metrics: CoherenceMetrics,
}

/// The ghost image of `QuantumState`.
pub ghost struct QuantumStateView {
    pub amplitudes: Seq<Amplitude>,
    pub phase_space: PhaseSpaceView,
    pub coherence_metrics: CoherenceMetricsView,
}

impl View for QuantumState {
    type V = QuantumStateView;

    open spec fn view(&self) -> QuantumStateView {
        QuantumStateView {
            amplitudes: self.amplitudes@,
            phase_space: self.phase_space@,
            coherence_metrics: self.coherence_metrics@,
        }
    }
}

/// Absolute value of a mathematical integer.
pub open spec fn abs_i(x: int) -> int {
    if x >= 0 {
        x
    } else {
        -x
    }
}

/// Caps a scalar at 100.
pub open spec fn min100(v: int) -> int {
    if v > 100 {
        100
    } else {
        v
    }
}

/// Both components of the amplitude lie in the bounded fixed-point range.
pub open spec fn amp_bounded(a: Amplitude) -> bool {
    -AMP_BOUND <= a.re <= AMP_BOUND && -AMP_BOUND <= a.im <= AMP_BOUND
}

/// One step of the rolling payload hash.
pub open spec fn hash_step(h: int, b: u8) -> int {
    (h * 31 + b) % (HASH_MODULUS as int)
}

/// The rolling hash of a whole payload, folded left to right.
pub open spec fn payload_hash(bytes: Seq<u8>) -> int
    decreases bytes.len(),
{
    if bytes.len() == 0 {
        HASH_SEED as int
    } else {
        hash_step(payload_hash(bytes.drop_last()), bytes.last())
    }
}

/// The content-addressed embedding: the amplitude tensor cell `k` receives
/// from a payload hash `h`.
pub open spec fn embed_amp(h: int, k: int) -> Amplitude {
    Amplitude {
        re: ((h + 7 * k) % 2001 - 1000) as i64,
        im: ((h + 13 * k + 5) % 2001 - 1000) as i64,
    }
}

/// Folds an intermediate mix back onto the centered amplitude range
/// `[-AMP_BOUND, AMP_BOUND]`: the phase-wrap every kernel step ends with.
pub open spec fn wrap_amp(x: int) -> int {
    x % 2001 - 1000
}

/// The market step: a pointwise linear phase-wrap mix.
pub open spec fn market_amp(a: Amplitude) -> Amplitude {
    Amplitude {
        re: wrap_amp(3 * a.re + 5 * a.im + 7) as i64,
        im: wrap_amp(2 * a.re + 11 * a.im + 13) as i64,
    }
}

/// The risk step: a second pointwise linear phase-wrap mix.
pub open spec fn risk_amp(a: Amplitude) -> Amplitude {
    Amplitude {
        re: wrap_amp(7 * a.re + 3 * a.im + 29) as i64,
        im: wrap_amp(5 * a.re + 9 * a.im + 31) as i64,
    }
}

/// The return step: a third pointwise linear phase-wrap mix.
pub open spec fn return_amp(a: Amplitude) -> Amplitude {
    Amplitude {
        re: wrap_amp(9 * a.re + 2 * a.im + 17) as i64,
        im: wrap_amp(4 * a.re + 13 * a.im + 19) as i64,
    }
}

/// One full evolution round: market, then risk, then return step.
pub open spec fn step_amp_spec(a: Amplitude) -> Amplitude {
    return_amp(risk_amp(market_amp(a)))
}

/// The amplitude a tensor cell holds after `rounds` evolution rounds.
pub open spec fn evolve_amp(a: Amplitude, rounds: nat) -> Amplitude
    decreases rounds,
{
    if rounds == 0 {
        a
    } else {
        step_amp_spec(evolve_amp(a, (rounds - 1) as nat))
    }
}

/// The initial market-state tensor a payload embeds to.
pub open spec fn spec_market_state(bytes: Seq<u8>) -> Seq<Amplitude> {
    Seq::new(TENSOR_CELLS as nat, |k: int| embed_amp(payload_hash(bytes), k))
}

/// The evolved tensor one analysis of the payload produces.
pub open spec fn spec_evolved_state(bytes: Seq<u8>) -> Seq<Amplitude> {
    Seq::new(
        TENSOR_CELLS as nat,
        |k: int| evolve_amp(embed_amp(payload_hash(bytes), k), EVOLUTION_ROUNDS as nat),
    )
}

/// The combined absolute load of one amplitude.
pub open spec fn abs2(a: Amplitude) -> int {
    abs_i(a.re as int) + abs_i(a.im as int)
}

/// Sum of the absolute loads over a tensor.
pub open spec fn sum_abs(s: Seq<Amplitude>) -> int
    decreases s.len(),
{
    if s.len() == 0 {
        0
    } else {
        sum_abs(s.drop_last()) + abs2(s.last())
    }
}

/// Greatest absolute load over a tensor.
pub open spec fn max_abs2(s: Seq<Amplitude>) -> int
    decreases s.len(),
{
    if s.len() == 0 {
        0
    } else if abs2(s.last()) > max_abs2(s.drop_last()) {
        abs2(s.last())
    } else {
        max_abs2(s.drop_last())
    }
}

/// Sum of the absolute imaginary components over a tensor.
pub open spec fn sum_abs_im(s: Seq<Amplitude>) -> int
    decreases s.len(),
{
    if s.len() == 0 {
        0
    } else {
        sum_abs_im(s.drop_last()) + abs_i(s.last().im as int)
    }
}

/// Sum of the positive real components over a tensor.
pub open spec fn sum_pos_re(s: Seq<Amplitude>) -> int
    decreases s.len(),
{
    if s.len() == 0 {
        0
    } else if s.last().re > 0 {
        sum_pos_re(s.drop_last()) + s.last().re
    } else {
        sum_pos_re(s.drop_last())
    }
}

/// Global coherence: 100 minus the mean absolute load, normalized to 0-100.
pub open spec fn spec_global_coherence(s: Seq<Amplitude>) -> int {
    100 - min100(sum_abs(s) * 100 / 131072000)
}

/// Local coherence of one tensor cell: 100 minus its normalized load.
pub open spec fn spec_local_coherence(a: Amplitude) -> int {
    100 - min100(abs2(a) / 20)
}

/// Stability: 100 minus the normalized peak load of the tensor.
pub open spec fn spec_stability(s: Seq<Amplitude>) -> int {
    100 - min100(max_abs2(s) / 20)
}

/// Risk score: the mean imaginary magnitude, normalized to 0-100.
pub open spec fn spec_risk_score(s: Seq<Amplitude>) -> int {
    min100(sum_abs_im(s) * 100 / 65536000)
}

/// The raw return measure: mean positive real mass, normalized to 0-100.
pub open spec fn spec_return_base(s: Seq<Amplitude>) -> int {
    min100(sum_pos_re(s) * 100 / 65536000)
}

/// Expected return: the raw return measure damped by global coherence.
pub open spec fn spec_expected_return(s: Seq<Amplitude>) -> int {
    spec_return_base(s) * spec_global_coherence(s) / 100
}

/// The coherence metrics an analysis of a tensor records.
pub open spec fn spec_coherence_view(s: Seq<Amplitude>) -> CoherenceMetricsView {
    CoherenceMetricsView {
        global_coherence: spec_global_coherence(s) as u64,
        local_coherences: Seq::new(s.len(), |k: int| spec_local_coherence(s[k]) as u64),
        stability: spec_stability(s) as u64,
    }
}

/// The full analysis one payload deterministically yields.
pub open spec fn spec_analysis(bytes: Seq<u8>) -> QuantumAnalysis {
    let s = spec_evolved_state(bytes);
    QuantumAnalysis {
        risk_score: spec_risk_score(s) as u64,
        expected_return: spec_expected_return(s) as u64,
        coherence_score: spec_global_coherence(s) as u64,
        stability_score: spec_stability(s) as u64,
    }
}

/// The aggregate tensor measures are never negative.
pub proof fn lemma_tensor_measures_nonneg(s: Seq<Amplitude>)
    ensures
        sum_abs(s) >= 0,
        max_abs2(s) >= 0,
        sum_abs_im(s) >= 0,
        sum_pos_re(s) >= 0,
    decreases s.len(),
{
    if s.len() > 0 {
        lemma_tensor_measures_nonneg(s.drop_last());
    }
}

/// Two analyses over identical payload bytes are bit-identical: the analysis
/// is a pure function of the payload alone.
pub proof fn lemma_analysis_deterministic(a: Seq<u8>, b: Seq<u8>)
    requires
        a == b,
    ensures
        spec_analysis(a) == spec_analysis(b),
{
}

/// The confidence a thought derives from an analysis.
pub open spec fn spec_confidence_of(a: QuantumAnalysis) -> u64 {
    a.coherence_score
}

/// The dimensional impact a thought derives from an analysis: risk, return,
/// coherence and stability mapped onto the six axes and clamped.
pub open spec fn spec_impact_of(a: QuantumAnalysis) -> DimensionalPosition {
    DimensionalPosition {
        emergence: clamp_axis(a.expected_return - a.risk_score) as i64,
        coherence: clamp_axis(a.coherence_score - 50) as i64,
        resilience: clamp_axis(a.stability_score - 50) as i64,
        intelligence: clamp_axis((a.coherence_score + a.expected_return) / 2 - 50) as i64,
        efficiency: clamp_axis(50 - a.risk_score) as i64,
        integration: clamp_axis((a.coherence_score + a.stability_score) / 2 - 50) as i64,
    }
}

/// The thought the engine creates from a payload, an analysis, a fresh token
/// and a logical timestamp.
pub open spec fn spec_create_thought(
    bytes: Seq<u8>,
    a: QuantumAnalysis,
    token: u128,
    timestamp: u64,
) -> ThoughtView {
    ThoughtView {
        id: token,
        content: bytes,
        confidence: spec_confidence_of(a),
        dimensional_impact: spec_impact_of(a),
        timestamp: timestamp,
    }
}

/// The engine state `QuantumState::new` yields: an all-zero tensor, the fixed
/// phase-space descriptor, and perfect-order metrics.
pub open spec fn spec_initial_engine() -> QuantumStateView {
    QuantumStateView {
        amplitudes: Seq::new(TENSOR_CELLS as nat, |k: int| Amplitude { re: 0, im: 0 }),
        phase_space: PhaseSpaceView {
            embedding_dimension: 4,
            attractors: Seq::empty(),
            lyapunov_exponents: Seq::empty(),
        },
        coherence_metrics: CoherenceMetricsView {
            global_coherence: 100,
            local_coherences: Seq::empty(),
            stability: 100,
        },
    }
}

/// The phase-wrap on a bounded intermediate mix: shifts the value into the
/// nonnegative range by whole periods, reduces it, and recenters it.
fn wrap_amp_exec(x: i64) -> (wrapped: i64)
    requires
        -100000 <= x <= 100000,
    ensures
        wrapped as int == wrap_amp(x as int),
        -1000 <= wrapped <= 1000,
{
    proof {
        // shifting by 50 whole periods of 2001 leaves the residue unchanged
        lemma_mod_multiples_vanish(50, x as int, 2001);
    }
    let shifted: u64 = (x + 100050) as u64;
    let residue: u64 = shifted % 2001;
    residue as i64 - 1000
}

/// Clamps a wide intermediate value into the bounded axis range.
fn clamp_axis_wide(v: i128) -> (clamped: i64)
    ensures
        clamped as int == clamp_axis(v as int),
        valid_axis(clamped as int),
{
    if v > 100 {
        100
    } else if v < -100 {
        -100
    } else {
        v as i64
    }
}

impl QuantumState {
    /// A fresh engine: zeroed tensor, fixed phase space, perfect-order metrics.
    pub fn new() -> (engine: QuantumState)
        ensures
            engine@ == spec_initial_engine(),
    {
        let mut amplitudes: Vec<Amplitude> = Vec::new();
        let mut k: usize = 0;
        while k < TENSOR_CELLS
            invariant
                k <= TENSOR_CELLS,
                amplitudes@.len() == k as int,
                forall|j: int| 0 <= j < k ==> amplitudes@[j] == (Amplitude { re: 0i64, im: 0i64 }),
            decreases TENSOR_CELLS - k,
        {
            amplitudes.push(Amplitude { re: 0, im: 0 });
            k += 1;
        }
        let engine = QuantumState {
            amplitudes,
            phase_space: PhaseSpace {
                embedding_dimension: 4,
                attractors: Vec::new(),
                lyapunov_exponents: Vec::new(),
            },
            coherence_metrics: CoherenceMetrics {
                global_coherence: 100,
                local_coherences: Vec::new(),
                stability: 100,
            },
        };
        proof {
            assert(engine@.amplitudes =~= spec_initial_engine().amplitudes);
            assert(engine@ =~~= spec_initial_engine());
        }
        engine
    }

    /// Embeds the payload into the initial market-state tensor.
    fn create_market_state(&self, strategy_data: &[u8]) -> (state: Vec<Amplitude>)
        ensures
            state@ == spec_market_state(strategy_data@),
            state@.len() == TENSOR_CELLS,
            forall|k: int| 0 <= k < state@.len() ==> amp_bounded(#[trigger] state@[k]),
    {
        let mut h: u64 = HASH_SEED;
        let mut i: usize = 0;
        while i < strategy_data.len()
            invariant
                i <= strategy_data@.len(),
                h < HASH_MODULUS,
                h as int == payload_hash(strategy_data@.take(i as int)),
            decreases strategy_data@.len() - i,
        {
            proof {
                assert(strategy_data@.take(i as int + 1).drop_last() =~= strategy_data@.take(
                    i as int,
                ));
                assert(strategy_data@.take(i as int + 1).last() == strategy_data@[i as int]);
            }
            h = (h * 31 + (strategy_data[i] as u64)) % HASH_MODULUS;
            i += 1;
        }
        proof {
            assert(strategy_data@.take(strategy_data@.len() as int) =~= strategy_data@);
        }
        let mut state: Vec<Amplitude> = Vec::new();
        let mut k: usize = 0;
        while k < TENSOR_CELLS
            invariant
                k <= TENSOR_CELLS,
                h < HASH_MODULUS,
                h as int == payload_hash(strategy_data@),
                state@.len() == k as int,
                forall|j: int| 0 <= j < k ==> #[trigger] state@[j] == embed_amp(
                    payload_hash(strategy_data@),
                    j,
                ),
                forall|j: int| 0 <= j < k ==> amp_bounded(#[trigger] state@[j]),
            decreases TENSOR_CELLS - k,
        {
            let re_raw: u64 = (h + 7 * (k as u64)) % 2001;
            let im_raw: u64 = (h + 13 * (k as u64) + 5) % 2001;
            let amp = Amplitude { re: re_raw as i64 - 1000, im: im_raw as i64 - 1000 };
            state.push(amp);
            k += 1;
        }
        proof {
            assert(state@ =~= spec_market_state(strategy_data@));
        }
        state
    }

    /// One full evolution round applied to one amplitude.
    #[verifier::rlimit(50)]
    fn step_amp(a: Amplitude) -> (stepped: Amplitude)
        requires
            amp_bounded(a),
        ensures
            stepped == step_amp_spec(a),
            amp_bounded(stepped),
    {
        let m = Amplitude {
            re: wrap_amp_exec(3 * a.re + 5 * a.im + 7),
            im: wrap_amp_exec(2 * a.re + 11 * a.im + 13),
        };
        let s = Amplitude {
            re: wrap_amp_exec(7 * m.re + 3 * m.im + 29),
            im: wrap_amp_exec(5 * m.re + 9 * m.im + 31),
        };
        let stepped = Amplitude {
            re: wrap_amp_exec(9 * s.re + 2 * s.im + 17),
            im: wrap_amp_exec(4 * s.re + 13 * s.im + 19),
        };
        stepped
    }

    /// Evolves the whole tensor through the fixed number of rounds.
    fn evolve_state(&self, initial_state: &Vec<Amplitude>) -> (evolved: Vec<Amplitude>)
        requires
            forall|k: int| 0 <= k < initial_state@.len() ==> amp_bounded(
                #[trigger] initial_state@[k],
            ),
        ensures
            evolved@.len() == initial_state@.len(),
            forall|k: int| 0 <= k < evolved@.len() ==> #[trigger] evolved@[k] == evolve_amp(
                initial_state@[k],
                EVOLUTION_ROUNDS as nat,
            ),
            forall|k: int| 0 <= k < evolved@.len() ==> amp_bounded(#[trigger] evolved@[k]),
    {
        let mut evolved: Vec<Amplitude> = Vec::new();
        let mut k: usize = 0;
        while k < initial_state.len()
            invariant
                k <= initial_state@.len(),
                evolved@.len() == k as int,
                forall|j: int| 0 <= j < initial_state@.len() ==> amp_bounded(
                    #[trigger] initial_state@[j],
                ),
                forall|j: int| 0 <= j < k ==> #[trigger] evolved@[j] == evolve_amp(
                    initial_state@[j],
                    EVOLUTION_ROUNDS as nat,
                ),
                forall|j: int| 0 <= j < k ==> amp_bounded(#[trigger] evolved@[j]),
            decreases initial_state@.len() - k,
        {
            let mut a = initial_state[k];
            let mut round: usize = 0;
            while round < EVOLUTION_ROUNDS
                invariant
                    round <= EVOLUTION_ROUNDS,
                    k < initial_state@.len(),
                    amp_bounded(initial_state@[k as int]),
                    a == evolve_amp(initial_state@[k as int], round as nat),
                    amp_bounded(a),
                decreases EVOLUTION_ROUNDS - round,
            {
                a = Self::step_amp(a);
                round += 1;
            }
            evolved.push(a);
            k += 1;
        }
        evolved
    }

    /// Reduces an evolved tensor to its coherence metrics.
    fn analyze_coherence(&self, state: &Vec<Amplitude>) -> (metrics: CoherenceMetrics)
        requires
            forall|k: int| 0 <= k < state@.len() ==> amp_bounded(#[trigger] state@[k]),
            state@.len() <= TENSOR_CELLS,
        ensures
            metrics@ == spec_coherence_view(state@),
    {
        let mut total: u64 = 0;
        let mut peak: u64 = 0;
        let mut locals: Vec<u64> = Vec::new();
        let mut i: usize = 0;
        while i < state.len()
            invariant
                i <= state@.len(),
                state@.len() <= TENSOR_CELLS,
                forall|k: int| 0 <= k < state@.len() ==> amp_bounded(#[trigger] state@[k]),
                total as int == sum_abs(state@.take(i as int)),
                total <= 2000 * (i as int),
                peak as int == max_abs2(state@.take(i as int)),
                peak <= 2000,
                locals@.len() == i as int,
                forall|k: int| 0 <= k < i ==> #[trigger] locals@[k] as int == spec_local_coherence(
                    state@[k],
                ),
            decreases state@.len() - i,
        {
            proof {
                assert(state@.take(i as int + 1).drop_last() =~= state@.take(i as int));
                assert(state@.take(i as int + 1).last() == state@[i as int]);
            }
            let a = state[i];
            let ar: u64 = if a.re >= 0 {
                a.re as u64
            } else {
                (-a.re) as u64
            };
            let ai: u64 = if a.im >= 0 {
                a.im as u64
            } else {
                (-a.im) as u64
            };
            let load: u64 = ar + ai;
            total = total + load;
            if load > peak {
                peak = load;
            }
            let reduced: u64 = load / 20;
            let local: u64 = if reduced > 100 {
                0
            } else {
                100 - reduced
            };
            locals.push(local);
            i += 1;
        }
        proof {
            assert(state@.take(state@.len() as int) =~= state@);
        }
        let scaled: u64 = total * 100;
        let normalized: u64 = scaled / 131072000;
        let global: u64 = if normalized > 100 {
            0
        } else {
            100 - normalized
        };
        let peak_normalized: u64 = peak / 20;
        let stability: u64 = if peak_normalized > 100 {
            0
        } else {
            100 - peak_normalized
        };
        let metrics = CoherenceMetrics {
            global_coherence: global,
            local_coherences: locals,
            stability,
        };
        proof {
            assert(metrics@.local_coherences =~= spec_coherence_view(state@).local_coherences);
        }
        metrics
    }

    /// Reduces an evolved tensor and its coherence metrics to risk metrics.
    fn calculate_risk_metrics(
        &self,
        state: &Vec<Amplitude>,
        coherence: &CoherenceMetrics,
    ) -> (metrics: RiskMetrics)
        requires
            forall|k: int| 0 <= k < state@.len() ==> amp_bounded(#[trigger] state@[k]),
            state@.len() <= TENSOR_CELLS,
            coherence.global_coherence as int == spec_global_coherence(state@),
            coherence.global_coherence <= 100,
        ensures
            metrics.risk_score as int == spec_risk_score(state@),
            metrics.expected_return as int == spec_expected_return(state@),
            metrics.volatility as int == min100(max_abs2(state@) / 20),
            metrics.correlation as int == spec_global_coherence(state@),
    {
        let mut im_mass: u64 = 0;
        let mut pos_mass: u64 = 0;
        let mut peak_load: u64 = 0;
        let mut i: usize = 0;
        while i < state.len()
            invariant
                i <= state@.len(),
                state@.len() <= TENSOR_CELLS,
                forall|k: int| 0 <= k < state@.len() ==> amp_bounded(#[trigger] state@[k]),
                im_mass as int == sum_abs_im(state@.take(i as int)),
                im_mass <= 1000 * (i as int),
                pos_mass as int == sum_pos_re(state@.take(i as int)),
                pos_mass <= 1000 * (i as int),
                peak_load as int == max_abs2(state@.take(i as int)),
                peak_load <= 2000,
            decreases state@.len() - i,
        {
            proof {
                assert(state@.take(i as int + 1).drop_last() =~= state@.take(i as int));
                assert(state@.take(i as int + 1).last() == state@[i as int]);
            }
            let a = state[i];
            let ai: u64 = if a.im >= 0 {
                a.im as u64
            } else {
                (-a.im) as u64
            };
            im_mass = im_mass + ai;
            if a.re > 0 {
                pos_mass = pos_mass + a.re as u64;
            }
            let ar: u64 = if a.re >= 0 {
                a.re as u64
            } else {
                (-a.re) as u64
            };
            let load: u64 = ar + ai;
            if load > peak_load {
                peak_load = load;
            }
            i += 1;
        }
        proof {
            assert(state@.take(state@.len() as int) =~= state@);
        }
        let risk_scaled: u64 = im_mass * 100;
        let risk_normalized: u64 = risk_scaled / 65536000;
        let risk_score: u64 = if risk_normalized > 100 {
            100
        } else {
            risk_normalized
        };
        let return_scaled: u64 = pos_mass * 100;
        let return_normalized: u64 = return_scaled / 65536000;
        let return_base: u64 = if return_normalized > 100 {
            100
        } else {
            return_normalized
        };
        proof {
            assert(return_base * coherence.global_coherence <= 10000) by (nonlinear_arith)
                requires
                    return_base <= 100,
                    coherence.global_coherence <= 100,
                    return_base >= 0,
                    coherence.global_coherence >= 0,
            ;
        }
        let expected_return: u64 = return_base * coherence.global_coherence / 100;
        let load_normalized: u64 = peak_load / 20;
        let volatility: u64 = if load_normalized > 100 {
            100
        } else {
            load_normalized
        };
        RiskMetrics {
            risk_score,
            expected_return,
            volatility,
            correlation: coherence.global_coherence,
        }
    }

    /// Runs the full deterministic pipeline on the payload: embed, evolve the
    /// fixed number of rounds, and reduce to metrics. Never fails; the evolved
    /// tensor and its coherence metrics are stored as the engine's state.
    pub fn analyze_strategy(&mut self, strategy_data: &[u8]) -> (outcome: Result<
        QuantumAnalysis,
        CreatureError,
    >)
        ensures
            outcome matches Ok(analysis) && analysis == spec_analysis(strategy_data@),
            final(self)@.amplitudes == spec_evolved_state(strategy_data@),
            final(self)@.coherence_metrics == spec_coherence_view(
                spec_evolved_state(strategy_data@),
            ),
            final(self)@.phase_space == old(self)@.phase_space,
    {
        let market_state = self.create_market_state(strategy_data);
        let evolved_state = self.evolve_state(&market_state);
        proof {
            assert(evolved_state@ =~= spec_evolved_state(strategy_data@));
        }
        let coherence = self.analyze_coherence(&evolved_state);
        proof {
            lemma_tensor_measures_nonneg(evolved_state@);
        }
        let risk_metrics = self.calculate_risk_metrics(&evolved_state, &coherence);
        let analysis = QuantumAnalysis {
            risk_score: risk_metrics.risk_score,
            expected_return: risk_metrics.expected_return,
            coherence_score: coherence.global_coherence,
            stability_score: coherence.stability,
        };
        self.amplitudes = evolved_state;
        self.coherence_metrics = coherence;
        Ok(analysis)
    }

    /// Builds a thought from a payload and an analysis: the content carries
    /// the payload bytes, the confidence comes from the coherence score, and
    /// the dimensional impact maps the analysis onto the six axes, clamped.
    pub fn create_thought(
        context: &[u8],
        analysis: &QuantumAnalysis,
        token: u128,
        timestamp: u64,
    ) -> (thought: Thought)
        ensures
            thought@ == spec_create_thought(context@, *analysis, token, timestamp),
            thought@.dimensional_impact.wf(),
    {
        let content = copy_bytes(context);
        let mean_cr: u128 = (analysis.coherence_score as u128 + analysis.expected_return as u128)
            / 2;
        let mean_cs: u128 = (analysis.coherence_score as u128 + analysis.stability_score as u128)
            / 2;
        let impact = DimensionalPosition {
            emergence: clamp_axis_wide(
                analysis.expected_return as i128 - analysis.risk_score as i128,
            ),
            coherence: clamp_axis_wide(analysis.coherence_score as i128 - 50),
            resilience: clamp_axis_wide(analysis.stability_score as i128 - 50),
            intelligence: clamp_axis_wide(mean_cr as i128 - 50),
            efficiency: clamp_axis_wide(50 - analysis.risk_score as i128),
            integration: clamp_axis_wide(mean_cs as i128 - 50),
        };
        Thought {
            id: token,
            content,
            confidence: analysis.coherence_score,
            dimensional_impact: impact,
            timestamp,
        }
    }
}

} // verus!
