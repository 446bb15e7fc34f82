use glowdoc::debounce::{
    trigger_cause, ChangeKind, ChangeNotification, DebouncePolicy, DEBOUNCE_WINDOW_NANOS,
};

const MS: u64 = 1_000_000;

fn note(paths: &[&str], at_ms: u64) -> ChangeNotification {
    ChangeNotification {
        affected_paths: paths.iter().map(|p| p.to_string()).collect(),
        kind: ChangeKind::Modified,
        observed_at: at_ms * MS,
    }
}

#[test]
fn window_is_200_ms() {
    assert_eq!(DEBOUNCE_WINDOW_NANOS, 200_000_000);
}

#[test]
fn first_notification_triggers() {
    let mut policy = DebouncePolicy::new();
    let trigger = policy.observe(&note(&["docs/a.md"], 5));
    assert_eq!(trigger.unwrap().cause, "a.md");
    assert_eq!(policy.last_trigger("docs/a.md"), Some(5 * MS));
    assert_eq!(policy.last_trigger("docs/b.md"), None);
}

#[test]
fn burst_on_one_path_emits_one_trigger() {
    let mut policy = DebouncePolicy::new();
    let queue: Vec<ChangeNotification> =
        [0u64, 40, 90, 130, 199, 200].iter().map(|t| note(&["docs/a.md"], *t)).collect();
    let triggers = policy.observe_all(&queue);
    assert_eq!(triggers.len(), 1);
    assert_eq!(policy.last_trigger("docs/a.md"), Some(0));
}

#[test]
fn burst_that_outlasts_the_window_triggers_again() {
    // Every gap is below the window, but the third notification comes more
    // than one window after the first, which was the last to be recorded.
    let mut policy = DebouncePolicy::new();
    let queue = vec![note(&["a"], 0), note(&["a"], 150), note(&["a"], 300)];
    assert_eq!(policy.observe_all(&queue).len(), 2);
    assert_eq!(policy.last_trigger("a"), Some(300 * MS));
}

#[test]
fn spaced_pair_emits_two_triggers() {
    let mut policy = DebouncePolicy::new();
    assert!(policy.observe(&note(&["docs/a.md"], 0)).is_some());
    assert!(policy.observe(&note(&["docs/a.md"], 201)).is_some());
    assert_eq!(policy.last_trigger("docs/a.md"), Some(201 * MS));
}

#[test]
fn exactly_one_window_later_is_still_dropped() {
    let mut policy = DebouncePolicy::new();
    assert!(policy.observe(&note(&["a"], 10)).is_some());
    assert!(policy.observe(&note(&["a"], 210)).is_none());
    assert_eq!(policy.last_trigger("a"), Some(10 * MS));
    let mut one_more = note(&["a"], 210);
    one_more.observed_at += 1;
    assert!(policy.observe(&one_more).is_some());
}

#[test]
fn different_paths_each_trigger_inside_one_window() {
    let mut policy = DebouncePolicy::new();
    assert!(policy.observe(&note(&["a"], 0)).is_some());
    assert!(policy.observe(&note(&["b"], 10)).is_some());
    assert!(policy.observe(&note(&["a"], 20)).is_none());
    assert!(policy.observe(&note(&["b"], 30)).is_none());
}

#[test]
fn paths_of_one_notification_are_judged_and_recorded_together() {
    let mut policy = DebouncePolicy::new();
    assert!(policy.observe(&note(&["old"], 0)).is_some());
    // `old` is recent, `new` is unknown: the rename is accepted and both
    // entries move to its instant.
    assert!(policy.would_accept(&note(&["old", "new"], 50)));
    assert!(policy.observe(&note(&["old", "new"], 50)).is_some());
    assert_eq!(policy.last_trigger("old"), Some(50 * MS));
    assert_eq!(policy.last_trigger("new"), Some(50 * MS));
    assert!(policy.observe(&note(&["old", "new"], 100)).is_none());
    assert_eq!(policy.last_trigger("old"), Some(50 * MS));
}

#[test]
fn notification_without_paths_is_dropped() {
    let mut policy = DebouncePolicy::new();
    assert!(policy.observe(&note(&[], 0)).is_none());
}

#[test]
fn earlier_instant_never_qualifies() {
    let mut policy = DebouncePolicy::new();
    assert!(policy.observe(&note(&["a"], 1000)).is_some());
    assert!(policy.observe(&note(&["a"], 0)).is_none());
    assert_eq!(policy.last_trigger("a"), Some(1000 * MS));
}

#[test]
fn cause_is_the_file_name_of_the_first_path() {
    assert_eq!(trigger_cause(&vec!["docs/guide/intro.md".to_string(), "x".to_string()]), "intro.md");
    assert_eq!(trigger_cause(&vec!["intro.md".to_string()]), "intro.md");
    assert_eq!(trigger_cause(&vec!["docs/guide/".to_string()]), "files");
    assert_eq!(trigger_cause(&vec![]), "files");
}
