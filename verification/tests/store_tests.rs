use cognitive_orchestrator::store::{ContextStore, StoreError};

#[test]
fn ensure_creates_with_defaults() {
    let mut store = ContextStore::new();
    let id = "ctx-1".to_owned();
    store.ensure(&id);
    let ctx = store.get(&id).unwrap();
    assert_eq!(ctx.context_id, "ctx-1");
    assert!(ctx.active_goals.is_empty());
    assert!(ctx.memory_vectors.is_empty());
    assert_eq!(ctx.viral_metrics.virality_score_e4, 0);
    assert_eq!(ctx.viral_metrics.engagement_nodes, 32);
    assert_eq!(ctx.viral_metrics.hook_rate_e4, 500);
    assert_eq!(ctx.viral_metrics.amplification_factor_e4, 10000);
    assert_eq!(ctx.viral_metrics.quantum_fidelity_e4, 9900);
    assert!(!ctx.created_at.is_empty());
}

#[test]
fn ensure_twice_keeps_the_same_context() {
    let mut store = ContextStore::new();
    let id = "ctx-2".to_owned();
    store.ensure(&id);
    let created_first = store.get(&id).unwrap().created_at.clone();
    store.ensure(&id);
    let ctx = store.get(&id).unwrap();
    assert_eq!(ctx.created_at, created_first);
    assert_eq!(ctx.viral_metrics.engagement_nodes, 32);
}

#[test]
fn get_before_ensure_is_not_found() {
    let store = ContextStore::new();
    let id = "never-seen".to_owned();
    match store.get(&id) {
        Err(StoreError::NotFound) => {}
        Ok(_) => panic!("unexpected context"),
    }
    match store.metrics(&id) {
        Err(StoreError::NotFound) => {}
        Ok(_) => panic!("unexpected metrics"),
    }
}

#[test]
fn contexts_are_kept_apart() {
    let mut store = ContextStore::new();
    let a = "a".to_owned();
    let b = "b".to_owned();
    store.ensure(&a);
    store.ensure(&b);
    assert!(store.contains(&a));
    assert!(store.contains(&b));
    assert_eq!(store.get(&a).unwrap().context_id, "a");
    assert_eq!(store.get(&b).unwrap().context_id, "b");
}
