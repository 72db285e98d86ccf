use tin::config::{Config, Document, Restore, Save};
use tin::hook::{
    entry, entry_reply, failure, invalid_input, pre_compact_start, recorded_transcript, reset_due, status,
    stop_decide, stop_finish, stop_start, transcript_unreachable, warning, DocumentSight, HookInput, HookOutput,
    MarkerOutcome, NoteRead, PointerRead, PreCompactStart, StopDecision, StopStart,
};
use tin::paths::{find, Lookup, Resolution};
use tin::staleness::Inspection;
use tin::usage::TranscriptRead;
use tin::Event;

const ROOT: &str = "/work/project";

fn observation(used: u64, window: u64) -> String {
    format!(
        r#"{{"payload":{{"type":"token_count","info":{{"last_token_usage":{{"total_tokens":{used}}},"model_context_window":{window}}}}}}}"#
    )
}

fn config(threshold_percent: u64) -> Config {
    Config {
        save: Save {
            threshold_percent,
            transcript_pointer: true,
            instructions: "Record the goal, progress and next steps.".to_string(),
        },
        restore: Restore { instructions: "Read the notes the current task needs.".to_string() },
        documents: vec![Document { path: ".tin/context.md".to_string(), save: true }],
    }
}

fn input(session: &str, transcript: Option<&str>) -> HookInput {
    HookInput {
        session_id: Some(session.to_string()),
        source: None,
        transcript_path: transcript.map(|t| t.to_string()),
        stop_hook_active: false,
    }
}

fn inside(depth: usize) -> Vec<Resolution> {
    let mut probes: Vec<Resolution> = (0..depth).map(|_| Resolution::Missing).collect();
    probes.push(Resolution::Resolved { canonical: ROOT.to_string() });
    probes
}

fn transcript(used: u64, window: u64) -> TranscriptRead {
    TranscriptRead::Lines { lines: vec![observation(used, window)], failure: None }
}

/// Stop as the program runs it, with the marker outcome given.
fn stop(config: &Config, input: &HookInput, read: &TranscriptRead, marker: MarkerOutcome) -> Result<HookOutput, String> {
    match stop_start(input) {
        StopStart::Done { reply } => Ok(reply),
        StopStart::Fail { message } => Err(message),
        StopStart::Measure { transcript } => match stop_decide(config, ROOT, input, &transcript, read, &inside(3))? {
            StopDecision::Quiet => Ok(HookOutput::Empty),
            StopDecision::Remind { files, .. } => stop_finish(ROOT, &files, &config.save.instructions, &marker),
        },
    }
}

fn session_text(event: Event, note: NoteRead, written: Option<u64>) -> String {
    let sights = vec![DocumentSight {
        ancestors: inside(2),
        seen: match written {
            Some(s) => Inspection::Found { bytes: 40, written_seconds_ago: Some(s) },
            None => Inspection::Missing,
        },
    }];
    let pointer = PointerRead::Recorded {
        contents: format!("{ROOT}/conversation.jsonl\n"),
        seen: Inspection::Found { bytes: 900, written_seconds_ago: Some(30) },
    };
    entry(event, ROOT, &config(80), "/work/project/.tin/runtime/warning.txt", &note, &sights, &inside(2), &pointer)
        .unwrap()
}

fn is_block(out: &HookOutput) -> bool {
    matches!(out, HookOutput::Block { .. })
}

#[test]
fn configured_files_are_saved_by_agent_and_restored_through_hooks() {
    let c = config(80);
    let path = "/work/project/conversation.jsonl";
    // 90% as the Codex status line shows it.
    let ninety = transcript(233_760, 258_400);
    let first = stop(&c, &input("test-session", Some(path)), &ninety, MarkerOutcome::Created).unwrap();
    match &first {
        HookOutput::Block { reason } => assert!(reason.contains("context.md")),
        _ => panic!("expected a block"),
    }
    let mut active = input("test-session", None);
    active.stop_hook_active = true;
    assert!(matches!(stop(&c, &active, &ninety, MarkerOutcome::Created), Ok(HookOutput::Empty)));
    // The reminder was given this cycle.
    assert!(matches!(
        stop(&c, &input("test-session", Some(path)), &ninety, MarkerOutcome::AlreadyThere),
        Ok(HookOutput::Empty)
    ));
    match pre_compact_start(&input("test-session", Some(path)), &c) {
        PreCompactStart::Record { transcript } => assert_eq!(transcript, path),
        _ => panic!("expected a record"),
    }
    for source in ["compact", "startup", "clear"] {
        let mut i = input("test-session", None);
        i.source = Some(source.to_string());
        assert_eq!(reset_due(Event::SessionStart, &i), source == "compact");
        let text = session_text(Event::SessionStart, NoteRead::Absent, Some(60));
        assert!(text.contains(".tin/context.md"));
        assert!(text.contains("written "));
        assert!(!text.contains("Goal: ship the lightweight hooks."));
        assert!(text.contains("conversation.jsonl"));
    }
    // After the reset the marker is new again.
    assert!(is_block(&stop(&c, &input("test-session", Some(path)), &ninety, MarkerOutcome::Created).unwrap()));
    assert!(matches!(
        stop(&c, &input("test-session", Some(path)), &ninety, MarkerOutcome::AlreadyThere),
        Ok(HookOutput::Empty)
    ));
    let fallback = session_text(Event::UserPromptSubmit, NoteRead::Absent, Some(60));
    assert!(fallback.contains(".tin/context.md"));
    assert!(matches!(
        stop(&config(98), &input("below-threshold", Some(path)), &ninety, MarkerOutcome::Created),
        Ok(HookOutput::Empty)
    ));
}

#[test]
fn warning_reaches_agent_without_blocking() {
    // No configuration anywhere above: nothing to do.
    assert_eq!(find(&vec![ROOT.to_string(), "/work".to_string(), "/".to_string()], &vec![Lookup::Missing, Lookup::Missing, Lookup::Missing]), Ok(None));
    let c = config(80);
    let missing = "/work/project/missing.jsonl";
    let message = match pre_compact_start(&input("test-session", Some(missing)), &c) {
        PreCompactStart::Record { transcript } => transcript_unreachable(&transcript, "No such file or directory (os error 2)"),
        _ => panic!("expected a record"),
    };
    let output = failure(Event::PreCompact, &message, &None);
    match &output {
        HookOutput::SystemMessage { text } => assert!(text.contains("tin warning:")),
        _ => panic!("expected a system message"),
    }
    assert!(!is_block(&output));
    let text = session_text(Event::SessionStart, NoteRead::Read { message, removal_failure: None }, Some(5));
    assert!(text.contains("previous hook did not complete"));
}

#[test]
fn threshold_matches_the_codex_status_line() {
    let c = config(80);
    let path = "/work/project/conversation.jsonl";
    // Exactly 80% of the window, which the status line shows as 79% used.
    assert!(matches!(
        stop(&c, &input("shown-79", Some(path)), &transcript(206_720, 258_400), MarkerOutcome::Created),
        Ok(HookOutput::Empty)
    ));
    assert!(is_block(
        &stop(&c, &input("shown-80", Some(path)), &transcript(208_000, 258_400), MarkerOutcome::Created).unwrap()
    ));
}

#[test]
fn status_prints_the_session_start_entry_for_hostless_agents() {
    let sights = vec![DocumentSight {
        ancestors: inside(2),
        seen: Inspection::Found { bytes: 15, written_seconds_ago: Some(3) },
    }];
    let note = NoteRead::Read { message: "Stop failed".to_string(), removal_failure: None };
    let printed = status(ROOT, &config(80), "/work/project/.tin/runtime/warning.txt", &note, &sights, &inside(2), &PointerRead::Absent)
        .unwrap();
    assert!(printed.contains(".tin/context.md  written "));
    assert!(printed.contains("tin warning: Stop failed"));
    let entry_text = entry(
        Event::SessionStart,
        ROOT,
        &config(80),
        "/work/project/.tin/runtime/warning.txt",
        &note,
        &sights,
        &inside(2),
        &PointerRead::Absent,
    )
    .unwrap();
    assert_eq!(printed, entry_text, "status and SessionStart should deliver the same entry");
}

#[test]
fn session_start_entry_is_exact() {
    let text = session_text(Event::SessionStart, NoteRead::Absent, Some(7200));
    assert_eq!(
        text,
        "tin context for /work/project, paths relative to it.\nRead the notes the current task needs.\ntin records paths, not contents: read what the current task needs, because a copy here would only be a snapshot. You can ask to save context at any time, in any language; tell the user that once. Help: tin --help\n\nUpdate when saving:\n  .tin/context.md  written 2 hours ago\n\nRaw conversation: /work/project/conversation.jsonl  written 30 seconds ago\nThe host's own record of the session before its last compaction, not a summary. If it is newer than the notes above, it holds work they are missing.\n"
    );
    let prompt = session_text(Event::UserPromptSubmit, NoteRead::Absent, None);
    assert_eq!(
        prompt,
        "tin context for /work/project, paths relative to it. Read what the current task needs if it is not loaded.\n\nUpdate when saving:\n  .tin/context.md  tin warning: not created yet\n\nRaw conversation: /work/project/conversation.jsonl  written 30 seconds ago\n"
    );
}

#[test]
fn entry_groups_documents_and_reports_note_trouble() {
    let mut c = config(80);
    c.documents.push(Document { path: "ARCHITECTURE.md".to_string(), save: false });
    c.save.transcript_pointer = false;
    let sights = vec![
        DocumentSight { ancestors: inside(2), seen: Inspection::Missing },
        DocumentSight { ancestors: inside(0), seen: Inspection::Found { bytes: 0, written_seconds_ago: Some(1) } },
    ];
    let note = NoteRead::Read { message: "Stop failed".to_string(), removal_failure: Some("denied".to_string()) };
    let text = entry(Event::UserPromptSubmit, ROOT, &c, "/work/project/.tin/runtime/warning.txt", &note, &sights, &vec![], &PointerRead::Absent)
        .unwrap();
    assert_eq!(
        text,
        "tin context for /work/project, paths relative to it. Read what the current task needs if it is not loaded.\n\ntin warning: Stop failed\nTell the user; the previous hook did not complete.\ntin warning: Cannot remove /work/project/.tin/runtime/warning.txt: denied\n\nUpdate when saving:\n  .tin/context.md  tin warning: not created yet\n\nRead-only reference:\n  ARCHITECTURE.md  tin warning: empty, it holds nothing\n"
    );
    let unreadable = NoteRead::Unreadable { message: "denied".to_string() };
    let text = entry(Event::UserPromptSubmit, ROOT, &c, "/w", &unreadable, &sights, &vec![], &PointerRead::Absent).unwrap();
    assert!(text.contains("tin warning: Cannot read /w: denied. Tell the user.\n"));
}

#[test]
fn entry_refuses_a_document_outside_the_project() {
    let sights = vec![DocumentSight {
        ancestors: vec![Resolution::Resolved { canonical: "/elsewhere".to_string() }],
        seen: Inspection::Missing,
    }];
    let r = entry(Event::SessionStart, ROOT, &config(80), "/w", &NoteRead::Absent, &sights, &inside(1), &PointerRead::Absent);
    assert_eq!(r, Err("Path leaves the project: .tin/context.md".to_string()));
}

#[test]
fn stop_reports_its_failures() {
    let c = config(80);
    let mut no_path = input("s", None);
    no_path.stop_hook_active = false;
    assert_eq!(
        stop(&c, &no_path, &transcript(1, 2), MarkerOutcome::Created).err(),
        Some("No transcript path; context usage is unknown. Save manually when needed.".to_string())
    );
    let ninety = transcript(233_760, 258_400);
    assert_eq!(
        stop(&c, &input("s", Some("t")), &ninety, MarkerOutcome::Failed { message: "denied".to_string() }).err(),
        Some("Cannot record save reminder: denied".to_string())
    );
    assert_eq!(
        stop(&c, &input("s", Some("t")), &ninety, MarkerOutcome::NoDirectory { message: "read-only".to_string() }).err(),
        Some("read-only".to_string())
    );
    let mut anonymous = input("", Some("t"));
    anonymous.session_id = None;
    assert_eq!(
        stop(&c, &anonymous, &ninety, MarkerOutcome::Created).err(),
        Some("No session ID; cannot deduplicate save reminders. Save manually when needed.".to_string())
    );
    let mut reference_only = config(80);
    reference_only.documents[0].save = false;
    assert!(matches!(stop(&reference_only, &input("s", Some("t")), &ninety, MarkerOutcome::Created), Ok(HookOutput::Empty)));
}

#[test]
fn stop_reason_is_exact() {
    let files = vec!["a.md".to_string(), "b.md".to_string()];
    let out = stop_finish("/p", &files, "Be brief.", &MarkerOutcome::Created).unwrap();
    match out {
        HookOutput::Block { reason } => assert_eq!(
            reason,
            "tin: Update these files in /p now, then finish. Do not call another save command.\na.md\nb.md\nBe brief.\nDo not change read-only reference files. If saving fails, tell the user; do not keep retrying.\nThen tell the user the notes are current as of this moment, so starting a fresh thread now loses nothing. Work after this point is at risk until the next save, and an automatic compaction can arrive without passing through this reminder. Name the host's own command for it; tin does not know the interface. Help: tin --help"
        ),
        _ => panic!("expected a block"),
    }
}

#[test]
fn warnings_go_where_the_event_can_carry_them() {
    let text = "tin warning: boom\nTell the user briefly. Keep usable material, decide the next step, and do not report a failed save or restore as successful.";
    match warning(Event::SessionStart, "boom") {
        HookOutput::Context { event, text: t } => {
            assert_eq!(event, Event::SessionStart);
            assert_eq!(t, text);
        },
        _ => panic!("expected context"),
    }
    match warning(Event::Stop, "boom") {
        HookOutput::SystemMessage { text: t } => assert_eq!(t, text),
        _ => panic!("expected a system message"),
    }
    match failure(Event::Stop, "boom", &Some("disk full".to_string())) {
        HookOutput::SystemMessage { text: t } => {
            assert!(t.starts_with("tin warning: boom; Cannot retain warning for the next entry: disk full\n"))
        },
        _ => panic!("expected a system message"),
    }
    match invalid_input(Event::UserPromptSubmit, "EOF while parsing a value at line 1 column 0") {
        HookOutput::Context { text: t, .. } => {
            assert!(t.starts_with("tin warning: Invalid hook input: EOF while parsing a value at line 1 column 0\n"))
        },
        _ => panic!("expected context"),
    }
}

#[test]
fn pre_compact_follows_the_configuration() {
    let mut c = config(80);
    assert!(matches!(pre_compact_start(&input("s", None), &c), PreCompactStart::Fail { .. }));
    c.save.transcript_pointer = false;
    assert!(matches!(pre_compact_start(&input("s", None), &c), PreCompactStart::Done { reply: HookOutput::Empty }));
    assert_eq!(
        transcript_unreachable(r"\\?\C:\t.jsonl", "gone"),
        r"Cannot reach the transcript at C:\t.jsonl: gone"
    );
    assert_eq!(recorded_transcript("  /t.jsonl \n"), "/t.jsonl");
}

#[test]
fn entry_reply_carries_the_event() {
    match entry_reply(Event::UserPromptSubmit, "x".to_string()) {
        HookOutput::Context { event, text } => {
            assert_eq!(event, Event::UserPromptSubmit);
            assert_eq!(text, "x");
        },
        _ => panic!("expected context"),
    }
}

#[test]
fn both_entries_list_the_same_paths() {
    let start = session_text(Event::SessionStart, NoteRead::Absent, Some(60));
    let prompt = session_text(Event::UserPromptSubmit, NoteRead::Absent, Some(60));
    let listing = "\nUpdate when saving:\n  .tin/context.md  written 60 seconds ago\n";
    assert!(start.contains(listing));
    assert!(prompt.contains(listing));
}

#[test]
fn entry_does_not_depend_on_what_documents_hold() {
    let sight = |bytes| vec![DocumentSight {
        ancestors: inside(2),
        seen: Inspection::Found { bytes, written_seconds_ago: Some(42) },
    }];
    let small = entry(Event::SessionStart, ROOT, &config(80), "/w", &NoteRead::Absent, &sight(15), &inside(2), &PointerRead::Absent);
    let large = entry(Event::SessionStart, ROOT, &config(80), "/w", &NoteRead::Absent, &sight(9000), &inside(2), &PointerRead::Absent);
    assert_eq!(small, large);
}

#[test]
fn reminder_is_given_once_per_compaction_cycle() {
    let c = config(80);
    let path = "/work/project/conversation.jsonl";
    let ninety = transcript(233_760, 258_400);
    let mut marker = false;
    let mut replies = Vec::new();
    let mut compact = input("cycle", None);
    compact.source = Some("compact".to_string());
    let mut startup = input("cycle", None);
    startup.source = Some("startup".to_string());
    let calls = [(Event::Stop, input("cycle", Some(path))), (Event::SessionStart, startup.clone_input()), (Event::Stop, input("cycle", Some(path))),
        (Event::SessionStart, compact.clone_input()), (Event::Stop, input("cycle", Some(path))), (Event::Stop, input("cycle", Some(path)))];
    for (event, call) in calls.iter() {
        match event {
            Event::Stop => {
                let outcome = if marker { MarkerOutcome::AlreadyThere } else { MarkerOutcome::Created };
                replies.push(is_block(&stop(&c, call, &ninety, outcome).unwrap()));
                marker = true;
            },
            _ => {
                if reset_due(*event, call) {
                    marker = false;
                }
            },
        }
    }
    assert_eq!(replies, vec![true, false, true, false]);
}

trait CloneInput {
    fn clone_input(&self) -> HookInput;
}

impl CloneInput for HookInput {
    fn clone_input(&self) -> HookInput {
        HookInput {
            session_id: self.session_id.clone(),
            source: self.source.clone(),
            transcript_path: self.transcript_path.clone(),
            stop_hook_active: self.stop_hook_active,
        }
    }
}

#[test]
fn recorded_path_is_reported_trimmed() {
    let mut c = config(80);
    c.documents.clear();
    let pointer = PointerRead::Recorded {
        contents: "  /work/project/conversation.jsonl \n".to_string(),
        seen: Inspection::Missing,
    };
    let text = entry(Event::UserPromptSubmit, ROOT, &c, "/w", &NoteRead::Absent, &vec![], &inside(2), &pointer).unwrap();
    assert!(text.ends_with("\nRaw conversation: /work/project/conversation.jsonl  tin warning: gone from the host\n"));
}
