use cronback::spinner::{
    dispatch_decision, lag_exceeded, reached_tick_cap, settle_inflight, yield_duration_ms, DispatchDecision,
    DispatchProgress, InflightDispatch, TemporalStates, TriggerStatus, TriggerTemporalState,
};

fn state(id: &str, tick: i64) -> TriggerTemporalState {
    TriggerTemporalState { trigger_id: id.to_string(), next_tick: tick }
}

fn ids(states: &[TriggerTemporalState]) -> Vec<(String, i64)> {
    states.iter().map(|s| (s.trigger_id.clone(), s.next_tick)).collect()
}

#[test]
fn due_triggers_come_earliest_first() {
    let mut states = TemporalStates::new();
    states.push(state("c", 30));
    states.push(state("a", 10));
    states.push(state("d", 40));
    states.push(state("b", 20));
    let due = states.take_due(25, 10);
    assert_eq!(ids(&due), vec![("a".to_string(), 10), ("b".to_string(), 20)]);
    assert_eq!(states.len(), 2);
    // Nothing else is due yet.
    assert!(states.take_due(25, 10).is_empty());
    let due = states.take_due(100, 10);
    assert_eq!(ids(&due), vec![("c".to_string(), 30), ("d".to_string(), 40)]);
    assert_eq!(states.len(), 0);
}

#[test]
fn due_triggers_are_capped_per_tick() {
    let mut states = TemporalStates::new();
    for (i, t) in [5, 1, 3, 2, 4].iter().enumerate() {
        states.push(state(&format!("t{i}"), *t));
    }
    let due = states.take_due(10, 2);
    assert_eq!(due.len(), 2);
    assert!(reached_tick_cap(due.len(), 2));
    assert_eq!(due[0].next_tick, 1);
    assert_eq!(due[1].next_tick, 2);
    assert_eq!(states.len(), 3);
    let due = states.take_due(10, 0);
    assert!(due.is_empty());
    assert_eq!(states.len(), 3);
}

#[test]
fn dispatched_triggers_are_requeued_or_retired() {
    let mut states = TemporalStates::new();
    states.push(state("x", 50));
    let due = vec![state("a", 10), state("b", 11), state("c", 12)];
    let flush = states.requeue(due, &vec![Some(70), None, Some(60)]);
    assert_eq!(flush, vec!["b".to_string()]);
    assert_eq!(states.len(), 3);
    let due = states.take_due(1_000, 10);
    assert_eq!(ids(&due), vec![("x".to_string(), 50), ("c".to_string(), 60), ("a".to_string(), 70)]);
}

#[test]
fn finished_dispatches_are_settled() {
    let inflight = vec![
        InflightDispatch { trigger_id: "a".to_string(), ran_at: 1, handle: 'a' },
        InflightDispatch { trigger_id: "b".to_string(), ran_at: 2, handle: 'b' },
        InflightDispatch { trigger_id: "c".to_string(), ran_at: 3, handle: 'c' },
        InflightDispatch { trigger_id: "d".to_string(), ran_at: 4, handle: 'd' },
    ];
    let progress = vec![
        DispatchProgress::Succeeded,
        DispatchProgress::Running,
        DispatchProgress::Failed,
        DispatchProgress::Running,
    ];
    let (pending, succeeded) = settle_inflight(inflight, &progress);
    assert_eq!(pending.iter().map(|d| d.handle).collect::<Vec<_>>(), vec!['b', 'd']);
    assert_eq!(succeeded, vec![("a".to_string(), 1)]);
}

#[test]
fn yield_and_lag() {
    assert_eq!(yield_duration_ms(1_000, 200), 800);
    assert_eq!(yield_duration_ms(1_000, 1_000), 0);
    assert_eq!(yield_duration_ms(1_000, 5_000), 0);
    assert!(!lag_exceeded(20_000, 10_000));
    assert!(lag_exceeded(20_001, 10_000));
    assert!(!lag_exceeded(0, 10_000));
    assert!(lag_exceeded(i64::MAX, i64::MIN));
    assert!(!reached_tick_cap(3, 4));
}

#[test]
fn dispatch_decisions() {
    assert!(dispatch_decision(None) == DispatchDecision::Ignore);
    assert!(dispatch_decision(Some(&TriggerStatus::Paused)) == DispatchDecision::SkipPaused);
    assert!(dispatch_decision(Some(&TriggerStatus::Scheduled)) == DispatchDecision::Dispatch);
    assert!(dispatch_decision(Some(&TriggerStatus::OnDemand)) == DispatchDecision::Dispatch);
}

#[test]
fn one_tick_takes_the_earliest_due_only() {
    let mut states = TemporalStates::new();
    for (id, t) in [("late", 50), ("d3", 7), ("d1", 3), ("later", 60), ("d2", 5)] {
        states.push(state(id, t));
    }
    // Three are due at 10 and at most two are taken: the two earliest.
    let due = states.take_due(10, 2);
    assert_eq!(ids(&due), vec![("d1".to_string(), 3), ("d2".to_string(), 5)]);
    // The third due state and the two later ones stay.
    assert_eq!(states.len(), 3);
    let rest = states.take_due(100, 10);
    assert_eq!(ids(&rest), vec![("d3".to_string(), 7), ("late".to_string(), 50), ("later".to_string(), 60)]);
}
