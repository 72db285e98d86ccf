use tin::Event;
use tin::paths::reminder_name;

#[test]
fn event_names_match_the_host() {
    assert_eq!(Event::Stop.name(), "Stop");
    assert_eq!(Event::PreCompact.name(), "PreCompact");
    assert_eq!(Event::SessionStart.name(), "SessionStart");
    assert_eq!(Event::UserPromptSubmit.name(), "UserPromptSubmit");
}

#[test]
fn only_entry_events_accept_context() {
    assert!(!Event::Stop.accepts_context());
    assert!(!Event::PreCompact.accepts_context());
    assert!(Event::SessionStart.accepts_context());
    assert!(Event::UserPromptSubmit.accepts_context());
}

#[test]
fn distinct_sessions_get_distinct_markers() {
    let ids = ["a", "ab", "b", "é", "e\u{301}", "abc", "0"];
    for x in ids {
        for y in ids {
            if x != y {
                assert_ne!(reminder_name(&Some(x.to_string())), reminder_name(&Some(y.to_string())));
            }
        }
    }
}
