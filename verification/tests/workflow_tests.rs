use cascade_router::node::Node;
use cascade_router::select::select_destination;
use cascade_router::session::{StreamInfo, SubscribeSession};
use cascade_router::workflow::{Action, CascadeError, Event, Phase, Workflow};
use cascade_router::CascadeMode;

fn node(alias: &str, url: &str) -> Node {
    Node { alias: alias.to_string(), url: url.to_string() }
}

fn three_node_selection() -> (Node, Workflow) {
    let all = vec![node("a", "http://a"), node("b", "http://b"), node("c", "http://c")];
    let serving = vec![node("a", "http://a")];
    let sel = select_destination(&all, &serving).unwrap();
    let destination = sel.destination.clone();
    let workflow = Workflow::new(
        CascadeMode::Push,
        3,
        true,
        "http://public".to_string(),
        sel,
        "stream0".to_string(),
    );
    (destination, workflow)
}

fn origin_sessions() -> Vec<StreamInfo> {
    vec![StreamInfo {
        id: "stream0".to_string(),
        sessions: vec![
            SubscribeSession { id: "1".to_string(), cascade: None },
            SubscribeSession { id: "2".to_string(), cascade: Some("relay".to_string()) },
        ],
    }]
}

#[test]
fn push_success_checked_twice_then_cleanup() {
    let (destination, mut w) = three_node_selection();
    assert!(destination.alias == "b" || destination.alias == "c");

    match w.next_action() {
        Action::Push { origin, destination: dst, stream, callback } => {
            assert_eq!(origin.alias, "a");
            assert_eq!(dst.alias, destination.alias);
            assert_eq!(stream, "stream0");
            assert_eq!(callback, "http://public");
        },
        other => panic!("expected a push, got {:?}", other),
    }
    w.step(Event::EstablishOutcome { ok: true });

    match w.next_action() {
        Action::HealthCheck { node, stream } => {
            assert_eq!(node.alias, destination.alias);
            assert_eq!(stream, "stream0");
        },
        other => panic!("expected a health check, got {:?}", other),
    }
    w.step(Event::HealthOutcome { present: false });
    assert!(matches!(w.next_action(), Action::HealthCheck { .. }));
    w.step(Event::HealthOutcome { present: true });

    match w.next_action() {
        Action::FetchStreamInfo { node } => assert_eq!(node.alias, "a"),
        other => panic!("expected a session fetch, got {:?}", other),
    }
    w.step(Event::SessionsOutcome { infos: Some(origin_sessions()) });

    match w.next_action() {
        Action::DeleteSession { node, stream, session_id } => {
            assert_eq!(node.alias, "a");
            assert_eq!(stream, "stream0");
            assert_eq!(session_id, "1");
        },
        other => panic!("expected a deletion, got {:?}", other),
    }
    w.step(Event::DeleteOutcome { ok: true });

    assert!(w.is_finished());
    match w.phase {
        Phase::Done { attempts_used } => assert_eq!(attempts_used, 2),
        other => panic!("expected success, got {:?}", other),
    }
}

#[test]
fn verification_exhausted_after_three_failed_checks() {
    let (_, mut w) = three_node_selection();
    w.step(Event::EstablishOutcome { ok: true });
    for _ in 0..3 {
        assert!(matches!(w.next_action(), Action::HealthCheck { .. }));
        w.step(Event::HealthOutcome { present: false });
    }
    assert!(w.is_finished());
    assert!(matches!(w.next_action(), Action::Finished));
    match w.phase {
        Phase::Failed { error } => {
            assert_eq!(error, CascadeError::VerificationExhausted { attempts: 3 });
        },
        other => panic!("expected exhaustion, got {:?}", other),
    }
}

#[test]
fn establishment_failure_ends_the_workflow_at_once() {
    let (_, mut w) = three_node_selection();
    w.step(Event::EstablishOutcome { ok: false });
    assert!(w.is_finished());
    assert!(matches!(w.next_action(), Action::Finished));
    match w.phase {
        Phase::Failed { error } => {
            assert_eq!(error, CascadeError::EstablishmentFailed { mode: CascadeMode::Push });
        },
        other => panic!("expected an establishment failure, got {:?}", other),
    }
}

#[test]
fn pull_mode_instructs_the_destination() {
    let all = vec![node("a", "http://a"), node("b", "http://b")];
    let serving = vec![node("a", "http://a")];
    let sel = select_destination(&all, &serving).unwrap();
    let w = Workflow::new(
        CascadeMode::Pull,
        1,
        false,
        "http://public".to_string(),
        sel,
        "stream0".to_string(),
    );
    match w.next_action() {
        Action::Pull { destination, origin, stream } => {
            assert_eq!(destination.alias, "b");
            assert_eq!(origin.alias, "a");
            assert_eq!(stream, "stream0");
        },
        other => panic!("expected a pull, got {:?}", other),
    }
}

#[test]
fn success_without_cleanup_finishes_after_verification() {
    let all = vec![node("a", "http://a"), node("b", "http://b")];
    let serving = vec![node("a", "http://a")];
    let sel = select_destination(&all, &serving).unwrap();
    let mut w = Workflow::new(
        CascadeMode::Push,
        3,
        false,
        "http://public".to_string(),
        sel,
        "stream0".to_string(),
    );
    w.step(Event::EstablishOutcome { ok: true });
    w.step(Event::HealthOutcome { present: true });
    match w.phase {
        Phase::Done { attempts_used } => assert_eq!(attempts_used, 1),
        other => panic!("expected success, got {:?}", other),
    }
}

#[test]
fn one_failed_deletion_does_not_stop_the_others() {
    let (_, mut w) = three_node_selection();
    w.step(Event::EstablishOutcome { ok: true });
    w.step(Event::HealthOutcome { present: true });
    let infos = vec![StreamInfo {
        id: "stream0".to_string(),
        sessions: vec![
            SubscribeSession { id: "1".to_string(), cascade: None },
            SubscribeSession { id: "2".to_string(), cascade: None },
        ],
    }];
    w.step(Event::SessionsOutcome { infos: Some(infos) });
    assert!(
        matches!(w.next_action(), Action::DeleteSession { session_id, .. } if session_id == "1")
    );
    w.step(Event::DeleteOutcome { ok: false });
    assert!(
        matches!(w.next_action(), Action::DeleteSession { session_id, .. } if session_id == "2")
    );
    w.step(Event::DeleteOutcome { ok: true });
    match w.phase {
        Phase::Done { attempts_used } => assert_eq!(attempts_used, 1),
        other => panic!("expected success, got {:?}", other),
    }
}

#[test]
fn registry_failure_abandons_cleanup_but_not_the_workflow() {
    let (_, mut w) = three_node_selection();
    w.step(Event::EstablishOutcome { ok: true });
    w.step(Event::HealthOutcome { present: true });
    w.step(Event::SessionsOutcome { infos: None });
    match w.phase {
        Phase::Done { attempts_used } => assert_eq!(attempts_used, 1),
        other => panic!("expected success, got {:?}", other),
    }
}

#[test]
fn nothing_to_delete_finishes_cleanup_at_once() {
    let (_, mut w) = three_node_selection();
    w.step(Event::EstablishOutcome { ok: true });
    w.step(Event::HealthOutcome { present: true });
    let infos = vec![StreamInfo {
        id: "stream0".to_string(),
        sessions: vec![SubscribeSession { id: "2".to_string(), cascade: Some("relay".to_string()) }],
    }];
    w.step(Event::SessionsOutcome { infos: Some(infos) });
    assert!(w.is_finished());
    assert!(matches!(w.phase, Phase::Done { attempts_used: 1 }));
}
