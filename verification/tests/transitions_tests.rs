use jgf::jira::{Status, Transition};
use jgf::transitions::{
    TransitionResolution, find_transition_by_name, resolve_transition, status_matches_logical,
};

fn status(name: &str) -> Status {
    Status {
        id: String::from("s1"),
        name: String::from(name),
        description: None,
        status_category: None,
    }
}

fn transition(id: &str, name: &str, to: &str) -> Transition {
    Transition {
        id: String::from(id),
        name: String::from(name),
        to: status(to),
    }
}

#[test]
fn resolver_matches_display_name() {
    // Tracker offers one transition named "Start Progress" toward
    // "In Progress"; the target "in progress" resolves to its id.
    let ts = vec![transition("11", "Start Progress", "In Progress")];
    match resolve_transition("in progress", &ts) {
        TransitionResolution::Resolved { id } => assert_eq!(id, "11"),
        TransitionResolution::NoMatch { .. } => panic!("expected a resolution"),
    }
}

#[test]
fn resolver_is_case_insensitive() {
    let ts = vec![transition("7", "START PROGRESS", "Weird")];
    match resolve_transition("start progress", &ts) {
        TransitionResolution::Resolved { id } => assert_eq!(id, "7"),
        TransitionResolution::NoMatch { .. } => panic!("expected a resolution"),
    }
}

#[test]
fn resolver_prefers_display_name_over_destination() {
    // A later transition whose display name matches wins over an earlier
    // one that only matches by destination.
    let ts = vec![
        transition("1", "Something", "Done"),
        transition("2", "Done", "Closed"),
    ];
    match resolve_transition("Done", &ts) {
        TransitionResolution::Resolved { id } => assert_eq!(id, "2"),
        TransitionResolution::NoMatch { .. } => panic!("expected a resolution"),
    }
}

#[test]
fn resolver_uses_locale_aliases() {
    let ts = vec![transition("31", "전환", "진행 중")];
    match resolve_transition("In Progress", &ts) {
        TransitionResolution::Resolved { id } => assert_eq!(id, "31"),
        TransitionResolution::NoMatch { .. } => panic!("expected a resolution"),
    }
    let review = vec![transition("41", "이동", "검토 중")];
    match resolve_transition("In Review", &review) {
        TransitionResolution::Resolved { id } => assert_eq!(id, "41"),
        TransitionResolution::NoMatch { .. } => panic!("expected a resolution"),
    }
}

#[test]
fn resolver_unique_match_is_found_anywhere_in_the_list() {
    // With exactly one matching transition, its position does not matter.
    for pos in 0..3 {
        let mut ts = vec![
            transition("a", "Foo", "Bar"),
            transition("b", "Baz", "Qux"),
        ];
        ts.insert(pos, transition("target", "Close", "Done"));
        match resolve_transition("done", &ts) {
            TransitionResolution::Resolved { id } => assert_eq!(id, "target"),
            TransitionResolution::NoMatch { .. } => panic!("expected a resolution"),
        }
    }
}

#[test]
fn resolver_failure_enumerates_destinations_without_duplicates() {
    let ts = vec![
        transition("1", "Go", "To Do"),
        transition("2", "Move", "Blocked"),
        transition("3", "Jump", "To Do"),
    ];
    match resolve_transition("done", &ts) {
        TransitionResolution::Resolved { .. } => panic!("nothing should match"),
        TransitionResolution::NoMatch { available } => {
            assert_eq!(available, vec![String::from("To Do"), String::from("Blocked")]);
        }
    }
}

#[test]
fn resolver_failure_on_empty_list() {
    let ts: Vec<Transition> = Vec::new();
    match resolve_transition("done", &ts) {
        TransitionResolution::Resolved { .. } => panic!("nothing should match"),
        TransitionResolution::NoMatch { available } => assert!(available.is_empty()),
    }
}

#[test]
fn find_transition_by_name_matches_name_or_destination() {
    let ts = vec![
        transition("1", "Start", "In Progress"),
        transition("2", "Finish", "Done"),
    ];
    assert_eq!(find_transition_by_name(&ts, "finish"), Some(String::from("2")));
    assert_eq!(find_transition_by_name(&ts, "in progress"), Some(String::from("1")));
    assert_eq!(find_transition_by_name(&ts, "nope"), None);
}

#[test]
fn logical_status_matching() {
    assert!(status_matches_logical("In Progress", "In Progress"));
    assert!(status_matches_logical("IN PROGRESS", "In Progress"));
    assert!(status_matches_logical("진행 중", "In Progress"));
    assert!(status_matches_logical("완료", "Done"));
    assert!(status_matches_logical("Review", "In Review"));
    assert!(status_matches_logical("리뷰 중", "In Review"));
    assert!(!status_matches_logical("Done", "In Progress"));
    assert!(!status_matches_logical("진행 중", "Done"));
}
