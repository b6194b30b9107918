//! The aggregate ("colony"): the owner of all cells, the colony-wide
//! dimensional scores, the energy bookkeeping, and the derived metrics that
//! gate the evolution-stage transition.

use vstd::prelude::*;
use crate::types::CreatureError;
use crate::types::DimensionalPosition;
use crate::types::DimensionalScores;
use crate::types::blend;
use crate::types::spec_blend_scores;
use crate::types::spec_origin_scores;
use crate::cell::Cell;
use crate::cell::CellView;
use crate::cell::Thought;
use crate::cell::INITIAL_ENERGY;
use crate::cell::THOUGHT_ENERGY_COST;
use crate::cell::spec_cell_after_thought;
use crate::cell::spec_new_cell;
use crate::cell::spec_next_thought;
use crate::quantum::QuantumAnalysis;
use crate::quantum::QuantumState;
use crate::quantum::QuantumStateView;
use crate::quantum::spec_initial_engine;

verus! {

/// Upper bound on the number of cells one colony holds; a capacity limit of
/// the in-memory representation, far beyond what any host can register.
pub const MAX_CELLS: u64 = 4294967295;

/// Stability index above which the colony may evolve.
pub const EVOLUTION_STABILITY_THRESHOLD: u64 = 90;

/// Average energy above which the colony may evolve.
pub const EVOLUTION_ENERGY_THRESHOLD: u64 = 80;

/// Derived colony-wide metrics: average energy, total thought count, a
/// stability index on the 0-100 scale, and the evolution-stage counter.
#[derive(Clone, Copy, Debug, PartialEq, Eq, Structural)]
pub struct ColonyMetrics {
    pub average_energy: u64,
    pub total_thoughts: u64,
    pub stability_index: u64,
    pub evolution_stage: u64,
}

/// The aggregate: cells keyed by their unique identity, colony-wide scores,
/// the engine configuration, the energy total, the cell count and the derived
/// metrics.
#[derive(Debug)]
pub struct Colony {
    pub cells: Vec<Cell>,
    pub dimensional_scores: DimensionalScores,
    pub quantum_state: QuantumState,
    pub total_energy: u64,
    pub cell_count: u64,
    pub metrics: ColonyMetrics,
}

/// The ghost image of `Colony`.
pub ghost struct ColonyView {
    pub cells: Seq<CellView>,
    pub dimensional_scores: DimensionalScores,
    pub quantum_state: QuantumStateView,
    pub total_energy: u64,
    pub cell_count: u64,
    pub metrics: ColonyMetrics,
}

impl View for Colony {
    type V = ColonyView;

    open spec fn view(&self) -> ColonyView {
        ColonyView {
            cells: self.cells@.map_values(|c: Cell| c@),
            dimensional_scores: self.dimensional_scores,
            quantum_state: self.quantum_state@,
            total_energy: self.total_energy,
            cell_count: self.cell_count,
            metrics: self.metrics,
        }
    }
}

/// Sum of the cells' remaining energy.
pub open spec fn sum_energy(cells: Seq<CellView>) -> int
    decreases cells.len(),
{
    if cells.len() == 0 {
        0
    } else {
        sum_energy(cells.drop_last()) + cells.last().energy
    }
}

/// Sum of the cells' thought-log lengths.
pub open spec fn sum_thoughts(cells: Seq<CellView>) -> int
    decreases cells.len(),
{
    if cells.len() == 0 {
        0
    } else {
        sum_thoughts(cells.drop_last()) + cells.last().thoughts.len()
    }
}

/// Some cell carries the given identity.
pub open spec fn spec_has_cell(cells: Seq<CellView>, id: u64) -> bool {
    exists|i: int| 0 <= i < cells.len() && #[trigger] cells[i].id == id
}

/// The position of the cell carrying the given identity (unique under the
/// colony invariant).
pub open spec fn spec_cell_index(cells: Seq<CellView>, id: u64) -> int {
    choose|i: int| 0 <= i < cells.len() && #[trigger] cells[i].id == id
}

/// The colony invariant: the count mirrors the cell sequence, identities are
/// unique, every cell's energy accounts exactly for its generated thoughts,
/// every position and the colony scores are bounded, and the aggregate
/// counters mirror the cells they summarize.
pub open spec fn colony_wf(c: ColonyView) -> bool {
    &&& c.cell_count as int == c.cells.len()
    &&& c.cells.len() <= MAX_CELLS
    &&& forall|i: int, j: int|
        0 <= i < j < c.cells.len() ==> (#[trigger] c.cells[i].id) != (#[trigger] c.cells[j].id)
    &&& forall|i: int|
        0 <= i < c.cells.len() ==> (#[trigger] c.cells[i]).energy + THOUGHT_ENERGY_COST
            * c.cells[i].thoughts.len() == INITIAL_ENERGY
    &&& forall|i: int| 0 <= i < c.cells.len() ==> (#[trigger] c.cells[i]).dimensional_position.wf()
    &&& forall|i: int| 0 <= i < c.cells.len() ==> (#[trigger] c.cells[i]).stability == 100
    &&& c.total_energy as int == sum_energy(c.cells)
    &&& c.metrics.total_thoughts as int == sum_thoughts(c.cells)
    &&& c.dimensional_scores.wf()
    &&& c.metrics.stability_index <= 100
    &&& c.metrics.evolution_stage <= c.metrics.total_thoughts
}

/// Larger of two integers.
pub open spec fn max2(a: int, b: int) -> int {
    if b > a {
        b
    } else {
        a
    }
}

/// Smaller of two integers.
pub open spec fn min2(a: int, b: int) -> int {
    if b < a {
        b
    } else {
        a
    }
}

/// Largest axis of the colony scores.
pub open spec fn spec_max_axis(s: DimensionalScores) -> int {
    max2(
        max2(max2(s.emergence as int, s.coherence as int), max2(s.resilience as int, s.intelligence as int)),
        max2(s.efficiency as int, s.integration as int),
    )
}

/// Smallest axis of the colony scores.
pub open spec fn spec_min_axis(s: DimensionalScores) -> int {
    min2(
        min2(min2(s.emergence as int, s.coherence as int), min2(s.resilience as int, s.intelligence as int)),
        min2(s.efficiency as int, s.integration as int),
    )
}

/// The stability index: 100 minus half the spread between the largest and the
/// smallest colony score axis. Bounded 0-100 for well-formed scores, and 100
/// exactly when all six axes agree.
pub open spec fn spec_stability_index(s: DimensionalScores) -> int {
    100 - (spec_max_axis(s) - spec_min_axis(s)) / 2
}

/// The evolution trigger: high stability and high average energy together.
pub open spec fn spec_should_evolve(m: ColonyMetrics) -> bool {
    m.stability_index > EVOLUTION_STABILITY_THRESHOLD && m.average_energy
        > EVOLUTION_ENERGY_THRESHOLD
}

/// The colony state right after folding one thought into the scores and
/// recomputing the derived metrics; the evolution stage advances exactly when
/// the trigger turns on (edge-sensitive: it does not fire again while the
/// metrics merely stay above the thresholds).
pub open spec fn spec_metrics_after(c: ColonyView, impact: DimensionalPosition) -> ColonyView {
    let scores = spec_blend_scores(c.dimensional_scores, impact);
    let refreshed = ColonyMetrics {
        average_energy: (c.total_energy as int / c.cell_count as int) as u64,
        total_thoughts: (c.metrics.total_thoughts + 1) as u64,
        stability_index: spec_stability_index(scores) as u64,
        evolution_stage: c.metrics.evolution_stage,
    };
    let fired = spec_should_evolve(refreshed) && !spec_should_evolve(c.metrics);
    ColonyView {
        dimensional_scores: scores,
        metrics: ColonyMetrics {
            evolution_stage: if fired {
                (c.metrics.evolution_stage + 1) as u64
            } else {
                c.metrics.evolution_stage
            },
            ..refreshed
        },
        ..c
    }
}

/// The evolution stage advances exactly once per threshold crossing: folding
/// one thought bumps it by one exactly when the trigger was off before and is
/// on after the recomputation, and leaves it unchanged otherwise — in
/// particular on every later call whose metrics merely stay above the
/// thresholds.
pub proof fn lemma_evolution_stage_edge_triggered(c: ColonyView, impact: DimensionalPosition)
    requires
        c.metrics.evolution_stage < u64::MAX,
    ensures
        !spec_should_evolve(c.metrics) && spec_should_evolve(
            spec_metrics_after(c, impact).metrics,
        ) ==> spec_metrics_after(c, impact).metrics.evolution_stage
            == c.metrics.evolution_stage + 1,
        spec_should_evolve(c.metrics) ==> spec_metrics_after(c, impact).metrics.evolution_stage
            == c.metrics.evolution_stage,
        !spec_should_evolve(spec_metrics_after(c, impact).metrics) ==> spec_metrics_after(
            c,
            impact,
        ).metrics.evolution_stage == c.metrics.evolution_stage,
{
}

/// The whole colony transition one successfully recorded thought causes.
pub open spec fn spec_colony_after_thought(
    c: ColonyView,
    sender: u64,
    context: Seq<u8>,
    analysis: QuantumAnalysis,
) -> ColonyView {
    let i = spec_cell_index(c.cells, sender);
    let cell = c.cells[i];
    let thought = spec_next_thought(cell, context, analysis);
    let mid = ColonyView {
        cells: c.cells.update(i, spec_cell_after_thought(cell, context, analysis)),
        total_energy: (c.total_energy - THOUGHT_ENERGY_COST) as u64,
        ..c
    };
    spec_metrics_after(mid, thought.dimensional_impact)
}

/// The state a fresh colony starts in.
pub open spec fn spec_new_colony() -> ColonyView {
    ColonyView {
        cells: Seq::empty(),
        dimensional_scores: spec_origin_scores(),
        quantum_state: spec_initial_engine(),
        total_energy: 0,
        cell_count: 0,
        metrics: ColonyMetrics {
            average_energy: 0,
            total_thoughts: 0,
            stability_index: 0,
            evolution_stage: 0,
        },
    }
}

/// The colony after registering a fresh identity.
pub open spec fn spec_colony_with_cell(c: ColonyView, address: u64) -> ColonyView {
    ColonyView {
        cells: c.cells.push(spec_new_cell(address, c.quantum_state.phase_space)),
        total_energy: (c.total_energy + INITIAL_ENERGY) as u64,
        cell_count: (c.cell_count + 1) as u64,
        ..c
    }
}

/// Sums of cell energy are bounded by the per-cell energy accounting.
proof fn lemma_sums_bounded(cells: Seq<CellView>)
    requires
        forall|i: int|
            0 <= i < cells.len() ==> (#[trigger] cells[i]).energy + THOUGHT_ENERGY_COST
                * cells[i].thoughts.len() == INITIAL_ENERGY,
    ensures
        0 <= sum_energy(cells) <= INITIAL_ENERGY * cells.len(),
        0 <= sum_thoughts(cells) <= 10 * cells.len(),
    decreases cells.len(),
{
    if cells.len() > 0 {
        assert(forall|i: int|
            0 <= i < cells.drop_last().len() ==> cells.drop_last()[i] == cells[i]);
        lemma_sums_bounded(cells.drop_last());
        assert(cells.last().energy + THOUGHT_ENERGY_COST * cells.last().thoughts.len()
            == INITIAL_ENERGY);
    }
}

/// Replacing one cell shifts the energy and thought sums by that cell's own
/// change.
proof fn lemma_sums_update(cells: Seq<CellView>, i: int, cell: CellView)
    requires
        0 <= i < cells.len(),
    ensures
        sum_energy(cells.update(i, cell)) == sum_energy(cells) - cells[i].energy + cell.energy,
        sum_thoughts(cells.update(i, cell)) == sum_thoughts(cells) - cells[i].thoughts.len()
            + cell.thoughts.len(),
    decreases cells.len(),
{
    if i == cells.len() - 1 {
        assert(cells.update(i, cell).drop_last() =~= cells.drop_last());
    } else {
        assert(cells.update(i, cell).drop_last() =~= cells.drop_last().update(i, cell));
        lemma_sums_update(cells.drop_last(), i, cell);
    }
}

/// Appending one cell adds its energy and thought count to the sums.
proof fn lemma_sums_push(cells: Seq<CellView>, cell: CellView)
    ensures
        sum_energy(cells.push(cell)) == sum_energy(cells) + cell.energy,
        sum_thoughts(cells.push(cell)) == sum_thoughts(cells) + cell.thoughts.len(),
{
    assert(cells.push(cell).drop_last() =~= cells);
}

impl Colony {
    /// An empty colony with a fresh engine configuration.
    pub fn new() -> (colony: Colony)
        ensures
            colony@ == spec_new_colony(),
            colony_wf(colony@),
    {
        let colony = Colony {
            cells: Vec::new(),
            dimensional_scores: DimensionalScores::default(),
            quantum_state: QuantumState::new(),
            total_energy: 0,
            cell_count: 0,
            metrics: ColonyMetrics {
                average_energy: 0,
                total_thoughts: 0,
                stability_index: 0,
                evolution_stage: 0,
            },
        };
        proof {
            assert(colony@.cells =~= Seq::<CellView>::empty());
            assert(colony@ =~~= spec_new_colony());
        }
        colony
    }

    /// Finds the position of the cell registered under an identity.
    fn find_cell(&self, address: u64) -> (found: Option<usize>)
        ensures
            match found {
                Some(i) => i < self@.cells.len() && self@.cells[i as int].id == address,
                None => !spec_has_cell(self@.cells, address),
            },
    {
        let mut i: usize = 0;
        while i < self.cells.len()
            invariant
                i <= self@.cells.len(),
                self@.cells.len() == self.cells@.len(),
                forall|j: int| 0 <= j < i ==> (#[trigger] self@.cells[j]).id != address,
            decreases self@.cells.len() - i,
        {
            if self.cells[i].id == address {
                return Some(i);
            }
            i += 1;
        }
        None
    }

    /// Registers an identity: a no-op if it already holds a cell, otherwise a
    /// fresh cell with the starting energy, folded into the colony totals.
    /// (The safer idempotent reading of registration: a duplicate never
    /// discards an existing cell.)
    pub fn add_cell(&mut self, address: u64) -> (outcome: Result<(), CreatureError>)
        requires
            colony_wf(old(self)@),
            old(self)@.cells.len() < MAX_CELLS || spec_has_cell(old(self)@.cells, address),
        ensures
            colony_wf(final(self)@),
            outcome matches Ok(u) && u == (),
            spec_has_cell(old(self)@.cells, address) ==> final(self)@ == old(self)@,
            !spec_has_cell(old(self)@.cells, address) ==> final(self)@ == spec_colony_with_cell(
                old(self)@,
                address,
            ),
    {
        match self.find_cell(address) {
            Some(_) => Ok(()),
            None => {
                proof {
                    lemma_sums_bounded(self@.cells);
                }
                let config = self.quantum_state.phase_space.duplicate();
                let cell = Cell::new(address, config);
                self.cells.push(cell);
                self.cell_count = self.cell_count + 1;
                self.total_energy = self.total_energy + INITIAL_ENERGY;
                proof {
                    assert(self@.cells =~= old(self)@.cells.push(cell@));
                    lemma_sums_push(old(self)@.cells, cell@);
                    assert(self@ =~~= spec_colony_with_cell(old(self)@, address));
                }
                Ok(())
            },
        }
    }

    /// Whether the current metrics sit above both evolution thresholds.
    fn should_evolve(&self) -> (ready: bool)
        ensures
            ready == spec_should_evolve(self@.metrics),
    {
        self.metrics.stability_index > EVOLUTION_STABILITY_THRESHOLD
            && self.metrics.average_energy > EVOLUTION_ENERGY_THRESHOLD
    }

    /// Advances the evolution stage by one; the transition's further side
    /// effects are a hook left open by this design.
    fn trigger_evolution(&mut self) -> (outcome: Result<(), CreatureError>)
        requires
            old(self)@.metrics.evolution_stage < u64::MAX,
        ensures
            outcome matches Ok(u) && u == (),
            final(self)@ == (ColonyView {
                metrics: ColonyMetrics {
                    evolution_stage: (old(self)@.metrics.evolution_stage + 1) as u64,
                    ..old(self)@.metrics
                },
                ..old(self)@
            }),
    {
        self.metrics.evolution_stage = self.metrics.evolution_stage + 1;
        Ok(())
    }

    /// The stability index of the current colony scores.
    fn compute_stability_index(&self) -> (index: u64)
        requires
            self@.dimensional_scores.wf(),
        ensures
            index as int == spec_stability_index(self@.dimensional_scores),
            index <= 100,
    {
        let s = self.dimensional_scores;
        let mut hi: i64 = s.emergence;
        if s.coherence > hi {
            hi = s.coherence;
        }
        if s.resilience > hi {
            hi = s.resilience;
        }
        if s.intelligence > hi {
            hi = s.intelligence;
        }
        if s.efficiency > hi {
            hi = s.efficiency;
        }
        if s.integration > hi {
            hi = s.integration;
        }
        let mut lo: i64 = s.emergence;
        if s.coherence < lo {
            lo = s.coherence;
        }
        if s.resilience < lo {
            lo = s.resilience;
        }
        if s.intelligence < lo {
            lo = s.intelligence;
        }
        if s.efficiency < lo {
            lo = s.efficiency;
        }
        if s.integration < lo {
            lo = s.integration;
        }
        let spread: u64 = (hi - lo) as u64;
        100 - spread / 2
    }

    /// Folds a recorded thought into the colony scores and recomputes the
    /// derived metrics; fires the edge-sensitive evolution trigger when the
    /// metrics cross both thresholds.
    fn update_metrics(&mut self, thought: &Thought) -> (outcome: Result<(), CreatureError>)
        requires
            old(self)@.dimensional_scores.wf(),
            old(self)@.cell_count > 0,
            old(self)@.metrics.total_thoughts < u64::MAX,
            old(self)@.metrics.evolution_stage <= old(self)@.metrics.total_thoughts,
        ensures
            outcome matches Ok(u) && u == (),
            final(self)@ == spec_metrics_after(old(self)@, thought@.dimensional_impact),
    {
        let was_ready = self.should_evolve();
        self.dimensional_scores = DimensionalScores {
            emergence: blend(self.dimensional_scores.emergence, thought.dimensional_impact.emergence),
            coherence: blend(self.dimensional_scores.coherence, thought.dimensional_impact.coherence),
            resilience: blend(
                self.dimensional_scores.resilience,
                thought.dimensional_impact.resilience,
            ),
            intelligence: blend(
                self.dimensional_scores.intelligence,
                thought.dimensional_impact.intelligence,
            ),
            efficiency: blend(
                self.dimensional_scores.efficiency,
                thought.dimensional_impact.efficiency,
            ),
            integration: blend(
                self.dimensional_scores.integration,
                thought.dimensional_impact.integration,
            ),
        };
        self.metrics.average_energy = self.total_energy / self.cell_count;
        self.metrics.total_thoughts = self.metrics.total_thoughts + 1;
        self.metrics.stability_index = self.compute_stability_index();
        let ready = self.should_evolve();
        if ready && !was_ready {
            match self.trigger_evolution() {
                Ok(()) => (),
                Err(e) => {
                    return Err(e);
                },
            }
        }
        Ok(())
    }

    /// Records one thought for the identity: looks the cell up, delegates the
    /// generation to it, folds the thought into the colony-wide scores and
    /// metrics, and persists the updated cell — atomically; every failure
    /// leaves the colony exactly as it was.
    #[verifier::rlimit(100)]
    pub fn generate_thought(
        &mut self,
        sender: u64,
        context: &[u8],
        quantum_analysis: &QuantumAnalysis,
    ) -> (outcome: Result<Thought, CreatureError>)
        requires
            colony_wf(old(self)@),
        ensures
            colony_wf(final(self)@),
            !spec_has_cell(old(self)@.cells, sender) ==> (outcome matches Err(e) && e
                == CreatureError::AgentNotFound && final(self)@ == old(self)@),
            spec_has_cell(old(self)@.cells, sender) && old(self)@.cells[spec_cell_index(
                old(self)@.cells,
                sender,
            )].energy < THOUGHT_ENERGY_COST ==> (outcome matches Err(e) && e
                == CreatureError::InsufficientEnergy && final(self)@ == old(self)@),
            spec_has_cell(old(self)@.cells, sender) && old(self)@.cells[spec_cell_index(
                old(self)@.cells,
                sender,
            )].energy >= THOUGHT_ENERGY_COST ==> (outcome matches Ok(thought) && thought@
                == spec_next_thought(
                old(self)@.cells[spec_cell_index(old(self)@.cells, sender)],
                context@,
                *quantum_analysis,
            ) && final(self)@ == spec_colony_after_thought(
                old(self)@,
                sender,
                context@,
                *quantum_analysis,
            )),
    {
        let found = self.find_cell(sender);
        match found {
            None => Err(CreatureError::AgentNotFound),
            Some(i) => {
                proof {
                    let gi = spec_cell_index(old(self)@.cells, sender);
                    assert(spec_has_cell(old(self)@.cells, sender));
                    assert(0 <= gi < old(self)@.cells.len() && old(self)@.cells[gi].id == sender);
                    if gi != i as int {
                        assert(old(self)@.cells[gi].id != old(self)@.cells[i as int].id);
                    }
                    assert(gi == i as int);
                    lemma_sums_bounded(old(self)@.cells);
                }
                let mut cell = self.cells.remove(i);
                let generated = cell.generate_thought(context, quantum_analysis);
                match generated {
                    Err(e) => {
                        self.cells.insert(i, cell);
                        proof {
                            assert(cell@ == old(self)@.cells[i as int]);
                            assert(self@.cells =~= old(self)@.cells);
                            assert(self@ =~~= old(self)@);
                        }
                        Err(e)
                    },
                    Ok(thought) => {
                        self.cells.insert(i, cell);
                        proof {
                            assert(self@.cells =~= old(self)@.cells.update(i as int, cell@));
                            lemma_sums_update(old(self)@.cells, i as int, cell@);
                            assert forall|j: int| 0 <= j < self@.cells.len() implies (
                            #[trigger] self@.cells[j]).energy + THOUGHT_ENERGY_COST
                                * self@.cells[j].thoughts.len() == INITIAL_ENERGY by {
                                if j != i as int {
                                    assert(self@.cells[j] == old(self)@.cells[j]);
                                }
                            }
                            lemma_sums_bounded(self@.cells);
                        }
                        self.total_energy = self.total_energy - THOUGHT_ENERGY_COST;
                        let folded = self.update_metrics(&thought);
                        match folded {
                            Err(e) => Err(e),
                            Ok(()) => {
                                proof {
                                    let target = spec_colony_after_thought(
                                        old(self)@,
                                        sender,
                                        context@,
                                        *quantum_analysis,
                                    );
                                    assert(self@.cells =~= target.cells);
                                    assert(self@.metrics == target.metrics);
                                    assert(self@ =~~= target);
                                }
                                Ok(thought)
                            },
                        }
                    },
                }
            },
        }
    }
}

} // verus!
