//! A population of interacting agents ("cells") that turn byte payloads into
//! scored, bounded "thoughts", fold those thoughts into multi-axis dimensional
//! score vectors, and drive a deterministic state-evolution engine whose
//! risk/return/coherence metrics gate derived strategy records.
//!
//! The creature is host-abstracted: it consumes a caller identity and a byte
//! payload as plain values, owns all its state, and returns plain values. The
//! identifiers of thoughts and strategies are assigned deterministically
//! (cell identity and log position for thoughts, insertion order for
//! strategies), so a whole run is a pure function of its inputs.

pub mod cell;
pub mod colony;
pub mod quantum;
pub mod types;

use vstd::prelude::*;
use crate::cell::Thought;
use crate::cell::THOUGHT_ENERGY_COST;
use crate::cell::spec_next_thought;
use crate::cell::spec_thought_token;
use crate::colony::Colony;
use crate::colony::ColonyView;
use crate::colony::colony_wf;
use crate::colony::spec_cell_index;
use crate::colony::spec_colony_after_thought;
use crate::colony::spec_has_cell;
use crate::colony::spec_new_colony;
use crate::colony::MAX_CELLS;
use crate::quantum::QuantumAnalysis;
use crate::quantum::QuantumState;
use crate::quantum::QuantumStateView;
use crate::quantum::spec_analysis;
use crate::quantum::spec_coherence_view;
use crate::quantum::spec_evolved_state;
use crate::quantum::spec_initial_engine;
use crate::types::CreatureConfig;
use crate::types::CreatureError;
use crate::types::DimensionalScores;
use crate::types::spec_origin_scores;

verus! {

/// What a successful strategy analysis returns to the caller.
#[derive(Clone, Copy, Debug, PartialEq, Eq, Structural)]
pub struct StrategyAnalysis {
    pub risk_score: u64,
    pub expected_return: u64,
    pub is_valid: bool,
    pub thought_id: u128,
}

/// A derived, persisted artifact built from a thought and an analysis; keyed
/// by insertion order and never mutated after creation.
#[derive(Clone, Copy, Debug, PartialEq, Eq, Structural)]
pub struct Strategy {
    pub risk_score: u64,
    pub expected_return: u64,
    pub thought_id: u128,
    pub is_valid: bool,
}

/// The caller-facing creature: the colony of cells, the evolution engine, a
/// mirror of the colony-wide dimensional scores, the persisted strategy
/// records, and the policy configuration.
#[derive(Debug)]
pub struct Creature {
    pub colony: Colony,
    pub quantum_state: QuantumState,
    pub dimensional_scores: DimensionalScores,
    pub strategies: Vec<Strategy>,
    pub config: CreatureConfig,
}

/// The ghost image of `Creature`.
pub ghost struct CreatureView {
    pub colony: ColonyView,
    pub quantum_state: QuantumStateView,
    pub dimensional_scores: DimensionalScores,
    pub strategies: Seq<Strategy>,
    pub config: CreatureConfig,
}

impl View for Creature {
    type V = CreatureView;

    open spec fn view(&self) -> CreatureView {
        CreatureView {
            colony: self.colony@,
            quantum_state: self.quantum_state@,
            dimensional_scores: self.dimensional_scores,
            strategies: self.strategies@,
            config: self.config,
        }
    }
}

/// The creature invariant: the colony invariant holds and the creature's
/// score mirror agrees with the colony's scores.
pub open spec fn creature_wf(c: CreatureView) -> bool {
    &&& colony_wf(c.colony)
    &&& c.dimensional_scores == c.colony.dimensional_scores
}

/// The state a fresh creature starts in.
pub open spec fn spec_new_creature(config: CreatureConfig) -> CreatureView {
    CreatureView {
        colony: spec_new_colony(),
        quantum_state: spec_initial_engine(),
        dimensional_scores: spec_origin_scores(),
        strategies: Seq::empty(),
        config: config,
    }
}

/// The engine state after one analysis of the payload.
pub open spec fn spec_engine_after(engine: QuantumStateView, data: Seq<u8>) -> QuantumStateView {
    QuantumStateView {
        amplitudes: spec_evolved_state(data),
        coherence_metrics: spec_coherence_view(spec_evolved_state(data)),
        phase_space: engine.phase_space,
    }
}

/// Everything but the engine's derived tensor state is unchanged: how an
/// aborted operation leaves the creature.
pub open spec fn spec_aborted(pre: CreatureView, post: CreatureView) -> bool {
    &&& post.colony == pre.colony
    &&& post.strategies == pre.strategies
    &&& post.dimensional_scores == pre.dimensional_scores
    &&& post.config == pre.config
}

/// The full outcome relation of `Creature::analyze_strategy`: exactly one
/// case applies, and each pins the result and the whole post state down.
pub open spec fn spec_strategy_outcome(
    pre: CreatureView,
    post: CreatureView,
    sender: u64,
    data: Seq<u8>,
    outcome: Result<StrategyAnalysis, CreatureError>,
) -> bool {
    let a = spec_analysis(data);
    let gates_pass = a.risk_score <= pre.config.max_risk_score && a.coherence_score
        >= pre.config.min_confidence;
    let registered = spec_has_cell(pre.colony.cells, sender);
    let cell = pre.colony.cells[spec_cell_index(pre.colony.cells, sender)];
    let token = spec_thought_token(cell.id, cell.thoughts.len() as int);
    &&& post.config == pre.config
    &&& post.quantum_state == spec_engine_after(pre.quantum_state, data)
    &&& (a.risk_score > pre.config.max_risk_score ==> spec_aborted(pre, post)
        && outcome == Result::<StrategyAnalysis, CreatureError>::Err(CreatureError::RiskTooHigh))
    &&& (a.risk_score <= pre.config.max_risk_score && a.coherence_score
        < pre.config.min_confidence ==> spec_aborted(pre, post) && outcome == Result::<
        StrategyAnalysis,
        CreatureError,
    >::Err(CreatureError::LowConfidence))
    &&& (gates_pass && !registered ==> spec_aborted(pre, post) && outcome
        == Result::<StrategyAnalysis, CreatureError>::Err(CreatureError::AgentNotFound))
    &&& (gates_pass && registered && cell.energy < THOUGHT_ENERGY_COST
        ==> spec_aborted(pre, post) && outcome == Result::<StrategyAnalysis, CreatureError>::Err(
        CreatureError::InsufficientEnergy,
    ))
    &&& (gates_pass && registered && cell.energy >= THOUGHT_ENERGY_COST ==> {
        &&& post.colony == spec_colony_after_thought(pre.colony, sender, data, a)
        &&& post.dimensional_scores == post.colony.dimensional_scores
        &&& post.strategies == pre.strategies.push(
            Strategy {
                risk_score: a.risk_score,
                expected_return: a.expected_return,
                thought_id: token,
                is_valid: true,
            },
        )
        &&& outcome == Result::<StrategyAnalysis, CreatureError>::Ok(
            StrategyAnalysis {
                risk_score: a.risk_score,
                expected_return: a.expected_return,
                is_valid: true,
                thought_id: token,
            },
        )
    })
}

impl Creature {
    /// A fresh creature under the given policy configuration.
    pub fn new(config: CreatureConfig) -> (creature: Creature)
        ensures
            creature@ == spec_new_creature(config),
            creature_wf(creature@),
    {
        let creature = Creature {
            colony: Colony::new(),
            quantum_state: QuantumState::new(),
            dimensional_scores: DimensionalScores::default(),
            strategies: Vec::new(),
            config,
        };
        proof {
            assert(creature@.strategies =~= Seq::<Strategy>::empty());
            assert(creature@ =~~= spec_new_creature(config));
        }
        creature
    }

    /// Registers a caller identity with the colony (idempotent).
    pub fn add_cell(&mut self, address: u64) -> (outcome: Result<(), CreatureError>)
        requires
            creature_wf(old(self)@),
            old(self)@.colony.cells.len() < MAX_CELLS || spec_has_cell(
                old(self)@.colony.cells,
                address,
            ),
        ensures
            creature_wf(final(self)@),
            outcome matches Ok(u) && u == (),
            final(self)@ == (CreatureView { colony: final(self)@.colony, ..old(self)@ }),
            spec_has_cell(old(self)@.colony.cells, address) ==> final(self)@.colony == old(
                self,
            )@.colony,
            !spec_has_cell(old(self)@.colony.cells, address) ==> final(self)@.colony
                == crate::colony::spec_colony_with_cell(old(self)@.colony, address),
    {
        self.colony.add_cell(address)
    }

    /// Persists a strategy record derived from a thought and an analysis;
    /// returns the record's key (its insertion position).
    fn create_strategy(&mut self, thought: &Thought, analysis: QuantumAnalysis) -> (strategy_id:
        u128)
        ensures
            strategy_id == old(self)@.strategies.len() as u128,
            final(self)@ == (CreatureView {
                strategies: old(self)@.strategies.push(
                    Strategy {
                        risk_score: analysis.risk_score,
                        expected_return: analysis.expected_return,
                        thought_id: thought@.id,
                        is_valid: true,
                    },
                ),
                ..old(self)@
            }),
    {
        let strategy_id = self.strategies.len() as u128;
        self.strategies.push(
            Strategy {
                risk_score: analysis.risk_score,
                expected_return: analysis.expected_return,
                thought_id: thought.id,
                is_valid: true,
            },
        );
        strategy_id
    }

    /// Analyzes a strategy payload end to end: runs the engine, applies the
    /// configured policy gates, records a thought for the caller's cell,
    /// persists a strategy record, and returns the scores. Every failure
    /// aborts with no change to the colony or the records; only the engine's
    /// derived tensor state reflects the analysis.
    pub fn analyze_strategy(&mut self, sender: u64, strategy_data: Vec<u8>) -> (outcome: Result<
        StrategyAnalysis,
        CreatureError,
    >)
        requires
            creature_wf(old(self)@),
        ensures
            creature_wf(final(self)@),
            spec_strategy_outcome(old(self)@, final(self)@, sender, strategy_data@, outcome),
    {
        let analysis = match self.quantum_state.analyze_strategy(strategy_data.as_slice()) {
            Ok(a) => a,
            Err(e) => {
                return Err(e);
            },
        };
        if analysis.risk_score > self.config.max_risk_score {
            return Err(CreatureError::RiskTooHigh);
        }
        if analysis.coherence_score < self.config.min_confidence {
            return Err(CreatureError::LowConfidence);
        }
        let thought = match self.colony.generate_thought(
            sender,
            strategy_data.as_slice(),
            &analysis,
        ) {
            Ok(t) => t,
            Err(e) => {
                return Err(e);
            },
        };
        self.dimensional_scores = self.colony.dimensional_scores;
        let _strategy_id = self.create_strategy(&thought, analysis);
        Ok(
            StrategyAnalysis {
                risk_score: analysis.risk_score,
                expected_return: analysis.expected_return,
                is_valid: true,
                thought_id: thought.id,
            },
        )
    }

    /// The colony-wide dimensional scores; read-only.
    pub fn get_dimensional_scores(&self) -> (scores: DimensionalScores)
        ensures
            scores == self@.dimensional_scores,
    {
        self.dimensional_scores
    }

    /// Looks a persisted strategy record up by its key.
    pub fn get_strategy(&self, strategy_id: u128) -> (found: Option<Strategy>)
        ensures
            strategy_id < self@.strategies.len() ==> found == Some(
                self@.strategies[strategy_id as int],
            ),
            strategy_id >= self@.strategies.len() ==> found is None,
    {
        if strategy_id < self.strategies.len() as u128 {
            Some(self.strategies[strategy_id as usize])
        } else {
            None
        }
    }
}

} // verus!
