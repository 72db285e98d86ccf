use tin::staleness::{age, describe, detail, Inspection};

#[test]
fn age_counts_seconds_up_to_eighty_nine() {
    assert_eq!(age(0), "0 seconds ago");
    assert_eq!(age(1), "1 second ago");
    assert_eq!(age(89), "89 seconds ago");
}

#[test]
fn age_switches_units_at_ninety() {
    assert_eq!(age(90), "1 minute ago");
    assert_eq!(age(150), "2 minutes ago");
    assert_eq!(age(5399), "89 minutes ago");
    assert_eq!(age(5400), "1 hour ago");
    assert_eq!(age(129_599), "35 hours ago");
    assert_eq!(age(129_600), "1 day ago");
    assert_eq!(age(172_800), "2 days ago");
}

#[test]
fn detail_names_each_finding() {
    let found = Inspection::Found { bytes: 12, written_seconds_ago: Some(120) };
    assert_eq!(detail("notes.md", &found, "absent"), "notes.md  written 2 minutes ago");
    let empty = Inspection::Found { bytes: 0, written_seconds_ago: Some(5) };
    assert_eq!(detail("notes.md", &empty, "absent"), "notes.md  tin warning: empty, it holds nothing");
    let untimed = Inspection::Found { bytes: 3, written_seconds_ago: None };
    assert_eq!(detail("notes.md", &untimed, "absent"), "notes.md  write time unavailable");
    assert_eq!(detail("t.jsonl", &Inspection::Missing, "gone from the host"), "t.jsonl  tin warning: gone from the host");
    let failed = Inspection::Failed { message: "denied".to_string() };
    assert_eq!(detail("x", &failed, "absent"), "x  tin warning: cannot inspect it: denied");
}

#[test]
fn describe_reports_a_document_not_written_yet() {
    assert_eq!(describe(".tin/context.md", &Inspection::Missing), ".tin/context.md  tin warning: not created yet");
}
