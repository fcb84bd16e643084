use ternary_forgiveness::{Action, Interaction, Relationship};

#[test]
fn test_relationship_new() {
    let rel: Relationship<f64> = Relationship::new(0.5);
    assert!((rel.trust_score - 0.5).abs() < 1e-10);
    assert_eq!(rel.total_interactions(), 0);
}

#[test]
fn fresh_relationship_has_no_history_or_window() {
    let rel: Relationship<f64> = Relationship::new(0.25);
    assert!(rel.history.is_empty());
    assert_eq!(rel.consecutive_cooperations, 0);
    assert_eq!(rel.consecutive_defections, 0);
    assert_eq!(rel.last_forgiveness_round, None);
    assert!(!rel.in_forgiveness_window);
}

#[test]
fn total_interactions_adds_both_totals() {
    let mut rel: Relationship<u32> = Relationship::new(7);
    rel.total_cooperations = 4;
    rel.total_defections = 3;
    rel.history.push(Interaction { round: 0, action: Action::Cooperate, trust_before: 7, trust_after: 8 });
    assert_eq!(rel.total_interactions(), 7);
}
