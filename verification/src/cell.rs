//! Agents ("cells"): per-identity records that spend energy to turn payloads
//! and analyses into thoughts, and fold each thought's impact into their own
//! bounded dimensional position.

use vstd::prelude::*;
use crate::types::CreatureError;
use crate::types::DimensionalPosition;
use crate::types::DimensionalState;
use crate::types::spec_merge_position;
use crate::types::spec_origin_position;
use crate::quantum::PhaseSpace;
use crate::quantum::PhaseSpaceView;
use crate::quantum::QuantumAnalysis;
use crate::quantum::QuantumState;
use crate::quantum::spec_create_thought;
use crate::quantum::spec_impact_of;

verus! {

/// Energy a cell spends on each generated thought.
pub const THOUGHT_ENERGY_COST: u64 = 10;

/// Energy a freshly registered cell starts with.
pub const INITIAL_ENERGY: u64 = 100;

/// Damping scalar a freshly registered cell starts with.
pub const INITIAL_STABILITY: u64 = 100;

/// An immutable record produced by the evolution engine: an opaque token, the
/// content bytes it was generated from, a confidence score, a proposed
/// dimensional impact, and a logical creation timestamp.
#[derive(Debug)]
pub struct Thought {
    pub id: u128,
    pub content: Vec<u8>,
    pub confidence: u64,
    pub dimensional_impact: DimensionalPosition,
    pub timestamp: u64,
}

/// The ghost image of `Thought`.
pub ghost struct ThoughtView {
    pub id: u128,
    pub content: Seq<u8>,
    pub confidence: u64,
    pub dimensional_impact: DimensionalPosition,
    pub timestamp: u64,
}

impl View for Thought {
    type V = ThoughtView;

    open spec fn view(&self) -> ThoughtView {
        ThoughtView {
            id: self.id,
            content: self.content@,
            confidence: self.confidence,
            dimensional_impact: self.dimensional_impact,
            timestamp: self.timestamp,
        }
    }
}

/// Copies a byte slice into a fresh vector.
pub fn copy_bytes(source: &[u8]) -> (out: Vec<u8>)
    ensures
        out@ == source@,
{
    let mut out: Vec<u8> = Vec::new();
    let mut i: usize = 0;
    while i < source.len()
        invariant
            i <= source@.len(),
            out@ == source@.take(i as int),
        decreases source@.len() - i,
    {
        proof {
            assert(source@.take(i as int + 1) =~= source@.take(i as int).push(source@[i as int]));
        }
        out.push(source[i]);
        i += 1;
    }
    proof {
        assert(source@.take(source@.len() as int) =~= source@);
    }
    out
}

/// A field-for-field copy of a thought.
pub fn duplicate_thought(thought: &Thought) -> (copy: Thought)
    ensures
        copy@ == thought@,
{
    Thought {
        id: thought.id,
        content: copy_bytes(thought.content.as_slice()),
        confidence: thought.confidence,
        dimensional_impact: thought.dimensional_impact,
        timestamp: thought.timestamp,
    }
}

/// A per-identity agent: energy, an append-only thought log, a bounded
/// dimensional position, a snapshot of the engine's phase-space configuration,
/// and a stability damping scalar.
#[derive(Debug)]
pub struct Cell {
    pub id: u64,
    pub energy: u64,
    pub thoughts: Vec<Thought>,
    pub dimensional_position: DimensionalPosition,
    pub quantum_config: PhaseSpace,
    pub stability: u64,
}

/// The ghost image of `Cell`.
pub ghost struct CellView {
    pub id: u64,
    pub energy: u64,
    pub thoughts: Seq<ThoughtView>,
    pub dimensional_position: DimensionalPosition,
    pub quantum_config: PhaseSpaceView,
    pub stability: u64,
}

impl View for Cell {
    type V = CellView;

    open spec fn view(&self) -> CellView {
        CellView {
            id: self.id,
            energy: self.energy,
            thoughts: self.thoughts@.map_values(|t: Thought| t@),
            dimensional_position: self.dimensional_position,
            quantum_config: self.quantum_config@,
            stability: self.stability,
        }
    }
}

/// The state a freshly registered cell starts in.
pub open spec fn spec_new_cell(id: u64, config: PhaseSpaceView) -> CellView {
    CellView {
        id: id,
        energy: INITIAL_ENERGY,
        thoughts: Seq::empty(),
        dimensional_position: spec_origin_position(),
        quantum_config: config,
        stability: INITIAL_STABILITY,
    }
}

/// The unique token the next thought of a cell receives: the cell identity in
/// the high 64 bits, the log position in the low 64 bits.
pub open spec fn spec_thought_token(cell_id: u64, log_len: int) -> u128 {
    (cell_id * 0x10000000000000000 + log_len) as u128
}

/// The thought the cell's next generation yields.
pub open spec fn spec_next_thought(
    cell: CellView,
    context: Seq<u8>,
    analysis: QuantumAnalysis,
) -> ThoughtView {
    spec_create_thought(
        context,
        analysis,
        spec_thought_token(cell.id, cell.thoughts.len() as int),
        cell.thoughts.len() as u64,
    )
}

/// The cell state after one successful thought generation: energy down by the
/// fixed cost, the thought appended, the position merged with its impact.
pub open spec fn spec_cell_after_thought(
    cell: CellView,
    context: Seq<u8>,
    analysis: QuantumAnalysis,
) -> CellView {
    CellView {
        id: cell.id,
        energy: (cell.energy - THOUGHT_ENERGY_COST) as u64,
        thoughts: cell.thoughts.push(spec_next_thought(cell, context, analysis)),
        dimensional_position: spec_merge_position(
            cell.dimensional_position,
            spec_impact_of(analysis),
            cell.stability,
        ),
        quantum_config: cell.quantum_config,
        stability: cell.stability,
    }
}

/// Repeated generation strictly decreases energy by the fixed cost each time:
/// above the cost the transition takes exactly one cost's worth of energy and
/// appends exactly one thought (below it, `generate_thought`'s contract
/// refuses the call with no state change, so no further decrease happens).
pub proof fn lemma_generation_strictly_decreases_energy(
    cell: CellView,
    context: Seq<u8>,
    analysis: QuantumAnalysis,
)
    requires
        cell.energy >= THOUGHT_ENERGY_COST,
    ensures
        spec_cell_after_thought(cell, context, analysis).energy == cell.energy
            - THOUGHT_ENERGY_COST,
        spec_cell_after_thought(cell, context, analysis).energy < cell.energy,
        spec_cell_after_thought(cell, context, analysis).thoughts.len() == cell.thoughts.len() + 1,
{
}

impl Cell {
    /// A fresh cell for a newly registered identity, carrying a snapshot of
    /// the engine's phase-space configuration.
    pub fn new(id: u64, quantum_config: PhaseSpace) -> (cell: Cell)
        ensures
            cell@ == spec_new_cell(id, quantum_config@),
    {
        let cell = Cell {
            id,
            energy: INITIAL_ENERGY,
            thoughts: Vec::new(),
            dimensional_position: DimensionalPosition::default(),
            quantum_config,
            stability: INITIAL_STABILITY,
        };
        proof {
            assert(cell@.thoughts =~= Seq::<ThoughtView>::empty());
        }
        cell
    }

    /// Merges a thought's impact into the cell's position, axis by axis, and
    /// commits the candidate only after the defensive bounds check passes
    /// (which the clamping update guarantees it always does).
    fn update_dimensions(&mut self, thought: &Thought) -> (outcome: Result<(), CreatureError>)
        ensures
            outcome matches Ok(u) && u == (),
            final(self)@ == (CellView {
                dimensional_position: spec_merge_position(
                    old(self)@.dimensional_position,
                    thought@.dimensional_impact,
                    old(self)@.stability,
                ),
                ..old(self)@
            }),
    {
        let candidate = DimensionalPosition {
            emergence: crate::types::calculate_dimension_update(
                self.dimensional_position.emergence,
                thought.dimensional_impact.emergence,
                self.stability,
            ),
            coherence: crate::types::calculate_dimension_update(
                self.dimensional_position.coherence,
                thought.dimensional_impact.coherence,
                self.stability,
            ),
            resilience: crate::types::calculate_dimension_update(
                self.dimensional_position.resilience,
                thought.dimensional_impact.resilience,
                self.stability,
            ),
            intelligence: crate::types::calculate_dimension_update(
                self.dimensional_position.intelligence,
                thought.dimensional_impact.intelligence,
                self.stability,
            ),
            efficiency: crate::types::calculate_dimension_update(
                self.dimensional_position.efficiency,
                thought.dimensional_impact.efficiency,
                self.stability,
            ),
            integration: crate::types::calculate_dimension_update(
                self.dimensional_position.integration,
                thought.dimensional_impact.integration,
                self.stability,
            ),
        };
        if candidate.is_valid() {
            self.dimensional_position = candidate;
            Ok(())
        } else {
            Err(CreatureError::InvalidDimensionalUpdate)
        }
    }

    /// The single mutating entry point of a cell: refuses below the energy
    /// cost with no state change; otherwise creates the thought, merges its
    /// impact, deducts the cost and appends the thought, as one atomic unit.
    pub fn generate_thought(
        &mut self,
        context: &[u8],
        quantum_analysis: &QuantumAnalysis,
    ) -> (outcome: Result<Thought, CreatureError>)
        ensures
            old(self)@.energy < THOUGHT_ENERGY_COST ==> (outcome matches Err(e) && e
                == CreatureError::InsufficientEnergy && final(self)@ == old(self)@),
            old(self)@.energy >= THOUGHT_ENERGY_COST ==> (outcome matches Ok(thought) && thought@
                == spec_next_thought(old(self)@, context@, *quantum_analysis) && final(self)@
                == spec_cell_after_thought(old(self)@, context@, *quantum_analysis)),
    {
        if self.energy < THOUGHT_ENERGY_COST {
            return Err(CreatureError::InsufficientEnergy);
        }
        let log_len = self.thoughts.len();
        let token: u128 = (self.id as u128) * 0x10000000000000000u128 + (log_len as u128);
        let thought = QuantumState::create_thought(
            context,
            quantum_analysis,
            token,
            log_len as u64,
        );
        match self.update_dimensions(&thought) {
            Ok(()) => (),
            Err(e) => {
                return Err(e);
            },
        }
        self.energy = self.energy - THOUGHT_ENERGY_COST;
        let returned = duplicate_thought(&thought);
        self.thoughts.push(thought);
        proof {
            assert(self@.thoughts =~= spec_cell_after_thought(
                old(self)@,
                context@,
                *quantum_analysis,
            ).thoughts);
        }
        Ok(returned)
    }
}

} // verus!
