use tin::usage::{percent_used, usage, TranscriptRead};

fn observation(used: u64, window: u64) -> String {
    format!(
        r#"{{"payload":{{"type":"token_count","info":{{"last_token_usage":{{"total_tokens":{used}}},"model_context_window":{window}}}}}}}"#
    )
}

fn read(lines: &[&str]) -> TranscriptRead {
    TranscriptRead::Lines { lines: lines.iter().map(|l| l.to_string()).collect(), failure: None }
}

#[test]
fn percent_used_is_what_the_status_line_shows() {
    assert_eq!(percent_used(233_760, 258_400), 90);
    assert_eq!(percent_used(206_720, 258_400), 79);
    assert_eq!(percent_used(208_000, 258_400), 80);
    assert_eq!(percent_used(0, 258_400), 0);
    assert_eq!(percent_used(12_000, 258_400), 0);
    assert_eq!(percent_used(258_400, 258_400), 100);
    assert_eq!(percent_used(900_000, 258_400), 100);
    assert_eq!(percent_used(5, 12_000), 100);
    assert_eq!(percent_used(u64::MAX, u64::MAX), 100);
}

#[test]
fn usage_figure_never_falls_as_usage_grows() {
    let mut last = 0;
    for used in (0..300_000u64).step_by(997) {
        let p = percent_used(used, 258_400);
        assert!(p >= last && p <= 100);
        last = p;
    }
}

#[test]
fn the_last_token_count_decides() {
    let first = observation(50_000, 258_400);
    let second = observation(233_760, 258_400);
    let other = r#"{"payload":{"type":"message","text":"hi"}}"#;
    let r = read(&[first.as_str(), "", other, "  ", second.as_str(), other]);
    assert_eq!(usage("t.jsonl", &r), Ok(90));
}

#[test]
fn a_token_count_without_numbers_makes_usage_unknown() {
    let good = observation(233_760, 258_400);
    let broken = r#"{"payload":{"type":"token_count","info":null}}"#;
    let zero = observation(10, 0);
    let unknown = "Context usage is unknown; no usable token_count observation. Save manually when needed.".to_string();
    assert_eq!(usage("t", &read(&[good.as_str(), broken])), Err(unknown.clone()));
    assert_eq!(usage("t", &read(&[zero.as_str()])), Err(unknown.clone()));
    assert_eq!(usage("t", &read(&[])), Err(unknown));
}

#[test]
fn a_line_that_is_not_json_stops_the_reading() {
    let good = observation(233_760, 258_400);
    let r = usage("t", &read(&["{not json", good.as_str()]));
    assert!(r.is_err());
    assert!(r.unwrap_err().contains("key must be a string"));
}

#[test]
fn reading_failures_are_reported() {
    let unopened = TranscriptRead::Unopened { message: "No such file or directory (os error 2)".to_string() };
    assert_eq!(
        usage("/tmp/gone.jsonl", &unopened),
        Err("Cannot read /tmp/gone.jsonl: No such file or directory (os error 2)".to_string())
    );
    let good = observation(233_760, 258_400);
    let cut = TranscriptRead::Lines { lines: vec![good], failure: Some("stream did not contain valid UTF-8".to_string()) };
    assert_eq!(usage("t", &cut), Err("stream did not contain valid UTF-8".to_string()));
}
