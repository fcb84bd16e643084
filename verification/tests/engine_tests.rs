use ternary_forgiveness::{
    Action, ForgivenessConfig, ForgivenessEngine, ForgivenessRate, TrustAdjustment,
};

fn default_config() -> ForgivenessConfig<f64> {
    ForgivenessConfig {
        forgiveness_rate: 0.05,
        max_trust: 1.0,
        min_trust: 0.0,
        defection_penalty: 0.3,
        cooperation_bonus: 0.1,
        forgiveness_window: 5,
        forgiveness_threshold: 3,
        enabled: true,
    }
}

/// Processes an action the way a caller of the engine does: plan, compute the score, record.
fn process(engine: &mut ForgivenessEngine<f64>, rel: usize, action: Action) -> f64 {
    let adj = match engine.plan_action(rel, action) {
        Some(adj) => adj,
        None => return 0.0,
    };
    let cfg = *engine.config();
    let before = engine.get_relationship(rel).unwrap().trust_score;
    let after = match adj {
        TrustAdjustment::EnhancedBonus => {
            (before + cfg.cooperation_bonus * (1.0 + cfg.forgiveness_rate)).min(cfg.max_trust)
        }
        TrustAdjustment::Bonus => (before + cfg.cooperation_bonus).min(cfg.max_trust),
        TrustAdjustment::Penalty => (before - cfg.defection_penalty).max(cfg.min_trust),
    };
    assert!(engine.record_action(rel, action, after));
    after
}

#[test]
fn test_consecutive_tracking() {
    let mut engine = ForgivenessEngine::new(default_config());
    let rel = engine.add_relationship(0.5);

    process(&mut engine, rel, Action::Cooperate);
    process(&mut engine, rel, Action::Cooperate);
    assert_eq!(engine.get_relationship(rel).unwrap().consecutive_cooperations, 2);

    process(&mut engine, rel, Action::Defect);
    assert_eq!(engine.get_relationship(rel).unwrap().consecutive_cooperations, 0);
    assert_eq!(engine.get_relationship(rel).unwrap().consecutive_defections, 1);
}

#[test]
fn test_forgiveness_window_activation() {
    let config = ForgivenessConfig { forgiveness_threshold: 3, ..default_config() };
    let mut engine = ForgivenessEngine::new(config);
    let rel = engine.add_relationship(0.5);

    process(&mut engine, rel, Action::Cooperate);
    assert!(!engine.is_forgiving(rel));
    process(&mut engine, rel, Action::Cooperate);
    assert!(!engine.is_forgiving(rel));
    process(&mut engine, rel, Action::Cooperate);
    assert!(engine.is_forgiving(rel));
}

#[test]
fn test_interaction_history() {
    let mut engine = ForgivenessEngine::new(default_config());
    let rel = engine.add_relationship(0.5);
    process(&mut engine, rel, Action::Cooperate);
    process(&mut engine, rel, Action::Defect);
    let r = engine.get_relationship(rel).unwrap();
    assert_eq!(r.history.len(), 2);
    assert_eq!(r.history[0].action, Action::Cooperate);
    assert_eq!(r.history[1].action, Action::Defect);
}

#[test]
fn new_engine_starts_empty_in_round_zero() {
    let engine: ForgivenessEngine<f64> = ForgivenessEngine::new(default_config());
    assert_eq!(engine.current_round(), 0);
    assert_eq!(engine.rps_cycle_length(), 3);
    assert!(engine.relationships().is_empty());
    assert!(engine.get_relationship(0).is_none());
    assert!(!engine.is_forgiving(0));
    assert_eq!(engine.forgiving_count(), 0);
}

#[test]
fn add_relationship_returns_consecutive_indices() {
    let mut engine = ForgivenessEngine::new(default_config());
    assert_eq!(engine.add_relationship(0.5), 0);
    assert_eq!(engine.add_relationship(0.8), 1);
    assert_eq!(engine.relationships().len(), 2);
    assert!((engine.get_relationship(1).unwrap().trust_score - 0.8).abs() < 1e-12);
}

#[test]
fn plan_picks_enhanced_bonus_at_threshold() {
    let mut engine = ForgivenessEngine::new(default_config());
    let rel = engine.add_relationship(0.5);
    assert_eq!(engine.plan_action(rel, Action::Cooperate), Some(TrustAdjustment::Bonus));
    process(&mut engine, rel, Action::Cooperate);
    assert_eq!(engine.plan_action(rel, Action::Cooperate), Some(TrustAdjustment::Bonus));
    process(&mut engine, rel, Action::Cooperate);
    // the third cooperation in a row reaches the threshold of three
    assert_eq!(engine.plan_action(rel, Action::Cooperate), Some(TrustAdjustment::EnhancedBonus));
    assert_eq!(engine.plan_action(rel, Action::Defect), Some(TrustAdjustment::Penalty));
    assert_eq!(engine.plan_action(5, Action::Defect), None);
}

#[test]
fn plan_never_enhances_when_disabled() {
    let config = ForgivenessConfig { enabled: false, forgiveness_threshold: 0, ..default_config() };
    let mut engine = ForgivenessEngine::new(config);
    let rel = engine.add_relationship(0.5);
    assert_eq!(engine.plan_action(rel, Action::Cooperate), Some(TrustAdjustment::Bonus));
}

#[test]
fn record_action_updates_trust_and_history() {
    let mut engine = ForgivenessEngine::new(default_config());
    let rel = engine.add_relationship(0.5);
    assert!(engine.record_action(rel, Action::Defect, 0.2));
    let r = engine.get_relationship(rel).unwrap();
    assert_eq!(r.trust_score, 0.2);
    assert_eq!(r.history[0].round, 0);
    assert_eq!(r.history[0].trust_before, 0.5);
    assert_eq!(r.history[0].trust_after, 0.2);
    assert_eq!(r.total_defections, 1);
    assert_eq!(r.total_interactions(), 1);
    assert!(!engine.record_action(3, Action::Defect, 0.0));
}

#[test]
fn defection_closes_window() {
    let config = ForgivenessConfig { forgiveness_threshold: 1, ..default_config() };
    let mut engine = ForgivenessEngine::new(config);
    let rel = engine.add_relationship(0.5);
    process(&mut engine, rel, Action::Cooperate);
    assert!(engine.is_forgiving(rel));
    assert_eq!(engine.get_relationship(rel).unwrap().last_forgiveness_round, Some(0));
    process(&mut engine, rel, Action::Defect);
    assert!(!engine.is_forgiving(rel));
    // the round of the last forgiveness stays recorded
    assert_eq!(engine.get_relationship(rel).unwrap().last_forgiveness_round, Some(0));
}

#[test]
fn repair_restarts_cooperation() {
    let mut engine = ForgivenessEngine::new(default_config());
    let rel = engine.add_relationship(0.8);
    for _ in 0..5 {
        process(&mut engine, rel, Action::Defect);
    }
    engine.next_round();
    assert!(engine.record_repair(rel, 0.5));
    let r = engine.get_relationship(rel).unwrap();
    assert_eq!(r.consecutive_defections, 0);
    assert_eq!(r.consecutive_cooperations, 1);
    assert!(r.in_forgiveness_window);
    assert_eq!(r.last_forgiveness_round, Some(1));
    assert_eq!(r.trust_score, 0.5);
    assert_eq!(r.history.len(), 5);
    assert!(!engine.record_repair(9, 0.5));
}

#[test]
fn forgiveness_plan_follows_window_and_cycle() {
    let mut engine = ForgivenessEngine::new(default_config());
    engine.set_rps_cycle_length(3);
    let outside = engine.add_relationship(0.1);
    let inside = engine.add_relationship(0.1);
    let at_max = engine.add_relationship(1.0);
    process(&mut engine, inside, Action::Cooperate);
    process(&mut engine, inside, Action::Cooperate);
    let below = vec![true, true, false];
    // round 0 is on the cycle boundary
    assert_eq!(
        engine.forgiveness_plan(&below),
        vec![Some(ForgivenessRate::Half), Some(ForgivenessRate::Doubled), None]
    );
    engine.next_round();
    assert_eq!(engine.current_round(), 1);
    assert_eq!(
        engine.forgiveness_plan(&below),
        vec![Some(ForgivenessRate::Half), Some(ForgivenessRate::Full), None]
    );
    assert!(engine.set_trust_score(outside, 0.125));
    assert_eq!(engine.get_relationship(outside).unwrap().trust_score, 0.125);
    assert!(!engine.set_trust_score(at_max + 1, 0.0));
}

#[test]
fn disabled_engine_plans_no_forgiveness() {
    let config = ForgivenessConfig { enabled: false, ..default_config() };
    let mut engine = ForgivenessEngine::new(config);
    engine.set_rps_cycle_length(0);
    engine.add_relationship(0.1);
    engine.add_relationship(0.2);
    assert_eq!(engine.forgiveness_plan(&vec![true, true]), vec![None, None]);
}

#[test]
fn window_setting_does_not_change_plans() {
    let mut a = ForgivenessEngine::new(ForgivenessConfig { forgiveness_window: 1, ..default_config() });
    let mut b = ForgivenessEngine::new(ForgivenessConfig { forgiveness_window: 10, ..default_config() });
    for engine in [&mut a, &mut b] {
        let rel = engine.add_relationship(0.5);
        process(engine, rel, Action::Cooperate);
        process(engine, rel, Action::Cooperate);
        engine.next_round();
    }
    assert_eq!(a.forgiveness_plan(&vec![true]), b.forgiveness_plan(&vec![true]));
    assert_eq!(a.plan_action(0, Action::Cooperate), b.plan_action(0, Action::Cooperate));
}

#[test]
fn forgiving_count_counts_windows_and_streaks() {
    let mut engine = ForgivenessEngine::new(default_config());
    let a = engine.add_relationship(0.5);
    let b = engine.add_relationship(0.5);
    let _c = engine.add_relationship(0.5);
    process(&mut engine, a, Action::Cooperate);
    process(&mut engine, b, Action::Defect);
    assert_eq!(engine.forgiving_count(), 1);
    engine.record_repair(b, 0.6);
    assert_eq!(engine.forgiving_count(), 2);
}

#[test]
fn history_rounds_follow_the_round_counter() {
    let mut engine = ForgivenessEngine::new(default_config());
    let rel = engine.add_relationship(0.5);
    process(&mut engine, rel, Action::Cooperate);
    engine.next_round();
    engine.next_round();
    process(&mut engine, rel, Action::Defect);
    let r = engine.get_relationship(rel).unwrap();
    assert_eq!(r.history[0].round, 0);
    assert_eq!(r.history[1].round, 2);
    assert_eq!(r.total_cooperations, 1);
    assert_eq!(r.total_defections, 1);
}

#[test]
fn zero_threshold_opens_window_at_first_cooperation() {
    let config = ForgivenessConfig { forgiveness_threshold: 0, ..default_config() };
    let mut engine = ForgivenessEngine::new(config);
    let rel = engine.add_relationship(0.5);
    assert_eq!(engine.plan_action(rel, Action::Cooperate), Some(TrustAdjustment::EnhancedBonus));
    let t = process(&mut engine, rel, Action::Cooperate);
    assert!((t - 0.605).abs() < 1e-12);
    assert!(engine.is_forgiving(rel));
}
