use creature_colony::cell::Cell;
use creature_colony::colony::Colony;
use creature_colony::quantum::PhaseSpace;
use creature_colony::quantum::QuantumAnalysis;
use creature_colony::quantum::QuantumState;
use creature_colony::types::CreatureConfig;
use creature_colony::types::CreatureError;
use creature_colony::types::DimensionalPosition;
use creature_colony::Creature;

fn neutral_analysis() -> QuantumAnalysis {
    // risk == return and all scalars 50: the derived impact is zero on every
    // axis, so colony scores stay put and the stability index stays 100
    QuantumAnalysis {
        risk_score: 50,
        expected_return: 50,
        coherence_score: 50,
        stability_score: 50,
    }
}

fn bare_phase_space() -> PhaseSpace {
    PhaseSpace {
        embedding_dimension: 4,
        attractors: Vec::new(),
        lyapunov_exponents: Vec::new(),
    }
}

#[test]
fn cell_rejects_below_energy_cost() {
    // an agent with energy 5 refuses generation and keeps its state
    let mut cell = Cell {
        id: 1,
        energy: 5,
        thoughts: Vec::new(),
        dimensional_position: DimensionalPosition::default(),
        quantum_config: bare_phase_space(),
        stability: 100,
    };
    let analysis = neutral_analysis();
    let outcome = cell.generate_thought(b"payload", &analysis);
    assert_eq!(outcome.unwrap_err(), CreatureError::InsufficientEnergy);
    assert_eq!(cell.energy, 5);
    assert_eq!(cell.thoughts.len(), 0);
}

#[test]
fn cell_spends_energy_until_exhausted() {
    // repeated generation strictly decreases energy by the fixed cost each
    // time, then the boundary call is rejected with no further change
    let mut cell = Cell::new(7, bare_phase_space());
    let analysis = neutral_analysis();
    assert_eq!(cell.energy, 100);
    for round in 0..10u64 {
        let thought = cell.generate_thought(b"spend", &analysis).unwrap();
        assert_eq!(cell.energy, 100 - 10 * (round + 1));
        assert_eq!(cell.thoughts.len() as u64, round + 1);
        assert_eq!(thought.timestamp, round);
        assert_eq!(thought.id, (7u128 << 64) | round as u128);
    }
    let rejected = cell.generate_thought(b"spend", &analysis);
    assert_eq!(rejected.unwrap_err(), CreatureError::InsufficientEnergy);
    assert_eq!(cell.energy, 0);
    assert_eq!(cell.thoughts.len(), 10);
}

#[test]
fn colony_registration_is_idempotent() {
    let mut colony = Colony::new();
    colony.add_cell(11).unwrap();
    assert_eq!(colony.cell_count, 1);
    assert_eq!(colony.total_energy, 100);
    colony.add_cell(11).unwrap();
    assert_eq!(colony.cell_count, 1);
    assert_eq!(colony.total_energy, 100);
    assert_eq!(colony.cells.len(), 1);
    assert_eq!(colony.cells[0].energy, 100);
}

#[test]
fn colony_rejects_unknown_identity() {
    let mut colony = Colony::new();
    colony.add_cell(11).unwrap();
    let analysis = neutral_analysis();
    let outcome = colony.generate_thought(12, b"payload", &analysis);
    assert_eq!(outcome.unwrap_err(), CreatureError::AgentNotFound);
    assert_eq!(colony.metrics.total_thoughts, 0);
    assert_eq!(colony.cells[0].energy, 100);
}

#[test]
fn colony_records_first_thought() {
    // register agent A with energy 100, record one thought with coherence 50:
    // energy 90, thought log length 1, colony total thoughts 1
    let mut colony = Colony::new();
    colony.add_cell(7).unwrap();
    let analysis = neutral_analysis();
    let thought = colony.generate_thought(7, b"payload_x", &analysis).unwrap();
    assert_eq!(thought.confidence, 50);
    assert_eq!(colony.cells[0].energy, 90);
    assert_eq!(colony.cells[0].thoughts.len(), 1);
    assert_eq!(colony.metrics.total_thoughts, 1);
    assert_eq!(colony.metrics.average_energy, 90);
    assert_eq!(colony.metrics.stability_index, 100);
    assert_eq!(colony.dimensional_scores.emergence, 0);
    assert_eq!(colony.dimensional_scores.integration, 0);
}

#[test]
fn colony_evolution_fires_once_per_crossing() {
    // two cells; average energy runs 95, 90, 85 while the stability index
    // stays 100: the trigger crosses its thresholds on the first thought and
    // must not fire again while the metrics merely stay above them
    let mut colony = Colony::new();
    colony.add_cell(1).unwrap();
    colony.add_cell(2).unwrap();
    let analysis = neutral_analysis();
    assert_eq!(colony.metrics.evolution_stage, 0);

    colony.generate_thought(1, b"first", &analysis).unwrap();
    assert_eq!(colony.metrics.average_energy, 95);
    assert_eq!(colony.metrics.stability_index, 100);
    assert_eq!(colony.metrics.evolution_stage, 1);

    colony.generate_thought(2, b"second", &analysis).unwrap();
    assert_eq!(colony.metrics.average_energy, 90);
    assert_eq!(colony.metrics.evolution_stage, 1);

    colony.generate_thought(1, b"third", &analysis).unwrap();
    assert_eq!(colony.metrics.average_energy, 85);
    assert_eq!(colony.metrics.evolution_stage, 1);
}

#[test]
fn creature_analyzes_end_to_end() {
    let mut creature = Creature::new(CreatureConfig::default());
    creature.add_cell(9).unwrap();
    let outcome = creature.analyze_strategy(9, b"a strategy payload".to_vec()).unwrap();
    assert!(outcome.is_valid);
    assert!(outcome.risk_score <= 100);
    assert!(outcome.expected_return <= 100);
    assert_eq!(outcome.thought_id, 9u128 << 64);
    let stored = creature.get_strategy(0).unwrap();
    assert_eq!(stored.risk_score, outcome.risk_score);
    assert_eq!(stored.expected_return, outcome.expected_return);
    assert_eq!(stored.thought_id, outcome.thought_id);
    assert!(stored.is_valid);
    assert!(creature.get_strategy(1).is_none());
    assert_eq!(creature.colony.cells[0].energy, 90);
    assert_eq!(creature.get_dimensional_scores(), creature.colony.dimensional_scores);
}

#[test]
fn creature_runs_are_deterministic() {
    // two creatures fed the same payloads end in bit-identical results
    let run = || {
        let mut creature = Creature::new(CreatureConfig::default());
        creature.add_cell(3).unwrap();
        let first = creature.analyze_strategy(3, b"alpha".to_vec()).unwrap();
        let second = creature.analyze_strategy(3, b"beta".to_vec()).unwrap();
        (first, second, creature.get_dimensional_scores())
    };
    let left = run();
    let right = run();
    assert_eq!(left.0, right.0);
    assert_eq!(left.1, right.1);
    assert_eq!(left.2, right.2);
}

#[test]
fn creature_accepts_empty_payload() {
    // no hard-coded payload validation exists: an empty strategy analyzes
    // like any other byte string
    let mut creature = Creature::new(CreatureConfig::default());
    creature.add_cell(9).unwrap();
    let outcome = creature.analyze_strategy(9, Vec::new()).unwrap();
    assert!(outcome.is_valid);
    assert_eq!(creature.colony.metrics.total_thoughts, 1);
    assert_eq!(creature.strategies.len(), 1);
}

#[test]
fn creature_rejects_unregistered_caller() {
    let mut creature = Creature::new(CreatureConfig::default());
    let outcome = creature.analyze_strategy(5, b"payload".to_vec());
    assert_eq!(outcome.unwrap_err(), CreatureError::AgentNotFound);
    assert_eq!(creature.strategies.len(), 0);
}

#[test]
fn creature_confidence_gate_rejects() {
    // coherence scores never exceed 100, so a floor of 101 always rejects
    let config = CreatureConfig {
        min_confidence: 101,
        ..CreatureConfig::default()
    };
    let mut creature = Creature::new(config);
    creature.add_cell(9).unwrap();
    let outcome = creature.analyze_strategy(9, b"payload".to_vec());
    assert_eq!(outcome.unwrap_err(), CreatureError::LowConfidence);
    assert_eq!(creature.colony.cells[0].energy, 100);
    assert_eq!(creature.strategies.len(), 0);
}

#[test]
fn creature_risk_gate_rejects() {
    let payload = b"a risky strategy payload".to_vec();
    let mut probe = QuantumState::new();
    let analysis = probe.analyze_strategy(&payload).unwrap();
    assert!(analysis.risk_score > 0, "probe payload must carry some risk");
    let config = CreatureConfig {
        max_risk_score: analysis.risk_score - 1,
        ..CreatureConfig::default()
    };
    let mut creature = Creature::new(config);
    creature.add_cell(9).unwrap();
    let outcome = creature.analyze_strategy(9, payload);
    assert_eq!(outcome.unwrap_err(), CreatureError::RiskTooHigh);
    assert_eq!(creature.colony.cells[0].energy, 100);
    assert_eq!(creature.strategies.len(), 0);
}

#[test]
fn creature_propagates_energy_exhaustion() {
    let mut creature = Creature::new(CreatureConfig::default());
    creature.add_cell(9).unwrap();
    for _ in 0..10 {
        creature.analyze_strategy(9, b"spend it".to_vec()).unwrap();
    }
    assert_eq!(creature.colony.cells[0].energy, 0);
    assert_eq!(creature.strategies.len(), 10);
    let outcome = creature.analyze_strategy(9, b"spend it".to_vec());
    assert_eq!(outcome.unwrap_err(), CreatureError::InsufficientEnergy);
    assert_eq!(creature.strategies.len(), 10);
    assert_eq!(creature.colony.metrics.total_thoughts, 10);
}
