use tachyon_core::RcuRuleEngine;
use tachyon_core::RulesetSnapshot;

#[test]
fn reader_observes_consistent_snapshot_during_replace() {
    let engine = RcuRuleEngine::default();
    assert!(!engine.allows("aether.stream.core.state.mutation"));

    engine.replace_ruleset(vec!["aether.stream.core.state.mutation".to_string()]);
    assert!(engine.allows("aether.stream.core.state.mutation"));
    assert!(!engine.allows("aether.stream.core.admin"));
}

#[test]
fn fresh_engine_denies_everything() {
    let engine = RcuRuleEngine::default();
    assert!(!engine.allows("x"));
    assert!(!engine.allows(""));
}

#[test]
fn replace_installs_exactly_the_new_subjects() {
    let engine = RcuRuleEngine::default();
    engine.replace_ruleset(vec!["svc.billing.read".to_string()]);
    assert!(engine.allows("svc.billing.read"));
    assert!(!engine.allows("svc.billing.write"));
}

#[test]
fn replacement_is_whole_never_mixed() {
    let engine = RcuRuleEngine::default();
    engine.replace_ruleset(vec!["a".to_string()]);
    assert!(engine.allows("a") && !engine.allows("b"));
    engine.replace_ruleset(vec!["b".to_string()]);
    assert!(!engine.allows("a") && engine.allows("b"));
    // At no point may a query see parts of both rulesets.
    assert!(!(engine.allows("a") && engine.allows("b")));
}

#[test]
fn clones_share_the_current_snapshot() {
    let writer = RcuRuleEngine::default();
    let reader = writer.clone();
    assert!(!reader.allows("shared.subject"));
    writer.replace_ruleset(vec!["shared.subject".to_string()]);
    assert!(reader.allows("shared.subject"));
}

#[test]
fn snapshot_membership_is_exact() {
    let snapshot = RulesetSnapshot::from_subjects(vec![
        "alpha".to_string(),
        "beta".to_string(),
    ]);
    assert!(snapshot.allows("alpha"));
    assert!(snapshot.allows("beta"));
    assert!(!snapshot.allows("gamma"));
    assert!(!snapshot.allows(""));
    assert!(!snapshot.allows("alph"));
    assert!(!snapshot.allows("alphaa"));
}

#[test]
fn duplicate_subjects_collapse_to_one_membership() {
    let snapshot =
        RulesetSnapshot::from_subjects(vec!["dup".to_string(), "dup".to_string()]);
    assert!(snapshot.allows("dup"));
    assert!(!snapshot.allows("other"));
}

#[test]
fn default_snapshot_is_empty() {
    let snapshot = RulesetSnapshot::default();
    assert!(!snapshot.allows("anything"));
    assert!(snapshot.subjects().is_empty());
}

#[test]
fn inspection_hook_supports_read_modify_write() {
    let engine = RcuRuleEngine::default();
    engine.replace_ruleset(vec!["keep.me".to_string()]);
    let mut subjects = engine.current_snapshot().subjects();
    subjects.push("add.me".to_string());
    engine.replace_ruleset(subjects);
    assert!(engine.allows("keep.me"));
    assert!(engine.allows("add.me"));
    assert!(!engine.allows("drop.me"));
}
