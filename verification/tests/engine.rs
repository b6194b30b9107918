use creature_colony::quantum::QuantumAnalysis;
use creature_colony::quantum::QuantumState;
use creature_colony::quantum::AMP_BOUND;
use creature_colony::quantum::TENSOR_CELLS;

#[test]
fn analysis_is_deterministic() {
    // identical payload bytes -> bit-identical analyses, tensors and metrics
    let payload: Vec<u8> = (0u8..64).map(|b| b.wrapping_mul(37).wrapping_add(5)).collect();
    let mut left = QuantumState::new();
    let mut right = QuantumState::new();
    let a = left.analyze_strategy(&payload).unwrap();
    let b = right.analyze_strategy(&payload).unwrap();
    assert_eq!(a, b);
    assert_eq!(left.amplitudes.len(), right.amplitudes.len());
    for k in 0..left.amplitudes.len() {
        assert_eq!(left.amplitudes[k], right.amplitudes[k]);
    }
    assert_eq!(
        left.coherence_metrics.global_coherence,
        right.coherence_metrics.global_coherence
    );
    assert_eq!(left.coherence_metrics.stability, right.coherence_metrics.stability);
}

#[test]
fn analysis_exact_values() {
    // expected values computed independently from the documented kernel and
    // metric formulas; the differing stability scores witness that the
    // payload reaches the evolved tensor
    let mut engine = QuantumState::new();
    let a = engine.analyze_strategy(b"alpha").unwrap();
    assert_eq!(
        a,
        QuantumAnalysis {
            risk_score: 50,
            expected_return: 12,
            coherence_score: 50,
            stability_score: 2,
        }
    );
    let b = engine.analyze_strategy(b"a strategy payload").unwrap();
    assert_eq!(
        b,
        QuantumAnalysis {
            risk_score: 50,
            expected_return: 12,
            coherence_score: 50,
            stability_score: 3,
        }
    );
}

#[test]
fn analysis_scores_are_bounded() {
    let payloads: [&[u8]; 3] = [b"alpha", b"a longer strategy payload with more bytes", &[0xff; 200]];
    for payload in payloads {
        let mut engine = QuantumState::new();
        let a = engine.analyze_strategy(payload).unwrap();
        assert!(a.risk_score <= 100);
        assert!(a.expected_return <= 100);
        assert!(a.coherence_score <= 100);
        assert!(a.stability_score <= 100);
    }
}

#[test]
fn engine_keeps_fixed_tensor_shape() {
    let mut engine = QuantumState::new();
    assert_eq!(engine.amplitudes.len(), TENSOR_CELLS);
    let _ = engine.analyze_strategy(b"shape check").unwrap();
    assert_eq!(engine.amplitudes.len(), TENSOR_CELLS);
    assert_eq!(engine.coherence_metrics.local_coherences.len(), TENSOR_CELLS);
    for amp in engine.amplitudes.iter() {
        assert!(amp.re.abs() <= AMP_BOUND);
        assert!(amp.im.abs() <= AMP_BOUND);
    }
}

#[test]
fn empty_payload_still_analyzes() {
    // the whole pipeline is total: an empty payload hashes to the seed and
    // analyzes like any other byte string
    let mut engine = QuantumState::new();
    let a = engine.analyze_strategy(b"").unwrap();
    assert!(a.coherence_score <= 100);
}

#[test]
fn thought_carries_payload_and_confidence() {
    let analysis = QuantumAnalysis {
        risk_score: 30,
        expected_return: 70,
        coherence_score: 80,
        stability_score: 60,
    };
    let thought = QuantumState::create_thought(b"observed market data", &analysis, 42, 3);
    assert_eq!(thought.id, 42);
    assert_eq!(thought.timestamp, 3);
    assert_eq!(thought.confidence, 80);
    assert_eq!(thought.content, b"observed market data".to_vec());
}

#[test]
fn thought_impact_maps_analysis_onto_axes() {
    let analysis = QuantumAnalysis {
        risk_score: 30,
        expected_return: 70,
        coherence_score: 80,
        stability_score: 60,
    };
    let thought = QuantumState::create_thought(b"x", &analysis, 0, 0);
    let impact = thought.dimensional_impact;
    assert_eq!(impact.emergence, 40); // return - risk
    assert_eq!(impact.coherence, 30); // coherence - 50
    assert_eq!(impact.resilience, 10); // stability - 50
    assert_eq!(impact.intelligence, 25); // (coherence + return) / 2 - 50
    assert_eq!(impact.efficiency, 20); // 50 - risk
    assert_eq!(impact.integration, 20); // (coherence + stability) / 2 - 50
}

#[test]
fn thought_impact_clamps_extreme_analyses() {
    let analysis = QuantumAnalysis {
        risk_score: u64::MAX,
        expected_return: 0,
        coherence_score: u64::MAX,
        stability_score: 0,
    };
    let thought = QuantumState::create_thought(b"x", &analysis, 0, 0);
    let impact = thought.dimensional_impact;
    assert_eq!(impact.emergence, -100);
    assert_eq!(impact.coherence, 100);
    assert_eq!(impact.resilience, -50);
    assert_eq!(impact.intelligence, 100);
    assert_eq!(impact.efficiency, -100);
    assert_eq!(impact.integration, 100);
}
