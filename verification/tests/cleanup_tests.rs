use cascade_router::session::{sessions_to_delete, StreamInfo, SubscribeSession};

fn session(id: &str, cascade: Option<&str>) -> SubscribeSession {
    SubscribeSession { id: id.to_string(), cascade: cascade.map(|c| c.to_string()) }
}

#[test]
fn deletes_exactly_the_untagged_sessions() {
    let infos = vec![StreamInfo {
        id: "stream0".to_string(),
        sessions: vec![session("1", None), session("2", Some("relay"))],
    }];
    let plan = sessions_to_delete(&infos, &"stream0".to_string());
    assert_eq!(plan, vec!["1".to_string()]);
}

#[test]
fn other_streams_are_left_alone() {
    let infos = vec![StreamInfo {
        id: "other".to_string(),
        sessions: vec![session("1", None)],
    }];
    let plan = sessions_to_delete(&infos, &"stream0".to_string());
    assert!(plan.is_empty());
}

#[test]
fn all_tagged_sessions_means_nothing_to_delete() {
    let infos = vec![StreamInfo {
        id: "stream0".to_string(),
        sessions: vec![session("1", Some("x")), session("2", Some("y"))],
    }];
    let plan = sessions_to_delete(&infos, &"stream0".to_string());
    assert!(plan.is_empty());
}

#[test]
fn matching_entries_contribute_in_order() {
    let infos = vec![
        StreamInfo {
            id: "stream0".to_string(),
            sessions: vec![session("1", None), session("2", Some("relay")), session("3", None)],
        },
        StreamInfo { id: "other".to_string(), sessions: vec![session("4", None)] },
        StreamInfo { id: "stream0".to_string(), sessions: vec![session("5", None)] },
    ];
    let plan = sessions_to_delete(&infos, &"stream0".to_string());
    assert_eq!(plan, vec!["1".to_string(), "3".to_string(), "5".to_string()]);
}

#[test]
fn empty_stream_list_gives_an_empty_plan() {
    let infos: Vec<StreamInfo> = vec![];
    let plan = sessions_to_delete(&infos, &"stream0".to_string());
    assert!(plan.is_empty());
}
