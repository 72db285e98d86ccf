use vstd::prelude::*;
use crate::config::{Config, Document};
use crate::event::Event;
use crate::paths::{Resolution, local_path, local_path_result, reminder_name_result, reminder_path, shown, shown_text, trim, trimmed};
use crate::staleness::{Inspection, detail, describe, detail_text};
use crate::text::{joined, join_texts};
use crate::usage::{TranscriptRead, transcript_usage, usage};

verus! {

/// The fields of a hook's JSON input that tin reads, besides `cwd`.
pub struct HookInput {
    pub session_id: Option<String>,
    pub source: Option<String>,
    pub transcript_path: Option<String>,
    pub stop_hook_active: bool,
}

/// A hook's reply to the host.
pub enum HookOutput {
    /// `{}`: nothing to add.
    Empty,
    /// `{"decision": "block", "reason": ...}`: the agent must act before it stops.
    Block { reason: String },
    /// `{"hookSpecificOutput": {"hookEventName": ..., "additionalContext": ...}}`.
    Context { event: Event, text: String },
    /// `{"systemMessage": ...}`: shown to the user.
    SystemMessage { text: String },
}

/// A reply, with its texts as character sequences.
pub enum Reply {
    Empty,
    Block { reason: Seq<char> },
    Context { event: Event, text: Seq<char> },
    SystemMessage { text: Seq<char> },
}

impl View for HookOutput {
    type V = Reply;

    open spec fn view(&self) -> Reply {
        match self {
            HookOutput::Empty => Reply::Empty,
            HookOutput::Block { reason } => Reply::Block { reason: reason@ },
            HookOutput::Context { event, text } => Reply::Context { event: *event, text: text@ },
            HookOutput::SystemMessage { text } => Reply::SystemMessage { text: text@ },
        }
    }
}

/// A warning for the agent: what went wrong, and how to treat it.
pub open spec fn warning_text(message: Seq<char>) -> Seq<char> {
    "tin warning: "@ + message
        + "\nTell the user briefly. Keep usable material, decide the next step, and do not report a failed save or restore as successful."@
}

/// How a warning reaches the agent: as context where the event takes it,
/// else as a message to the user. A warning never blocks.
pub open spec fn warning_reply(event: Event, message: Seq<char>) -> Reply {
    if event.takes_context() {
        Reply::Context { event, text: warning_text(message) }
    } else {
        Reply::SystemMessage { text: warning_text(message) }
    }
}

fn context(event: Event, text: String) -> (r: HookOutput)
    ensures
        r@ == (Reply::Context { event, text: text@ }),
{
    HookOutput::Context { event, text }
}

pub fn warning(event: Event, message: &str) -> (r: HookOutput)
    ensures
        r@ == warning_reply(event, message@),
{
    let mut text = String::from_str("tin warning: ");
    text.append(message);
    text.append(
        "\nTell the user briefly. Keep usable material, decide the next step, and do not report a failed save or restore as successful.",
    );
    if event.accepts_context() {
        context(event, text)
    } else {
        HookOutput::SystemMessage { text }
    }
}

/// The reply when the hook input is not what the host should send.
pub fn invalid_input(event: Event, reason: &str) -> (r: HookOutput)
    ensures
        r@ == warning_reply(event, "Invalid hook input: "@ + reason@),
{
    let mut m = String::from_str("Invalid hook input: ");
    m.append(reason);
    warning(event, m.as_str())
}

/// The message of a failed hook, with why it could not be kept for the
/// next entry when keeping it failed.
pub open spec fn failure_message(message: Seq<char>, retention: Option<String>) -> Seq<char> {
    match retention {
        None => message,
        Some(e) => message + "; Cannot retain warning for the next entry: "@ + e@,
    }
}

/// Whether a failure of this event is kept in `.tin/runtime/warning.txt`
/// for the next entry: the events whose reply cannot carry context to the
/// agent keep it, so the agent still hears of it.
pub open spec fn warning_is_kept(event: Event) -> bool {
    !event.takes_context()
}

pub fn keeps_warning(event: Event) -> (r: bool)
    ensures
        r == warning_is_kept(event),
{
    !event.accepts_context()
}

/// The reply when handling an event failed with `message`. `retention` is
/// why keeping the warning for the next entry failed, if it did.
pub fn failure(event: Event, message: &str, retention: &Option<String>) -> (r: HookOutput)
    ensures
        r@ == warning_reply(event, failure_message(message@, *retention)),
{
    match retention {
        None => warning(event, message),
        Some(e) => {
            let mut m = String::from_str(message);
            m.append("; Cannot retain warning for the next entry: ");
            m.append(e.as_str());
            warning(event, m.as_str())
        },
    }
}

// ---------------------------------------------------------------- Stop

/// What Stop does first.
pub enum StopStart {
    /// Reply with this and stop.
    Done { reply: HookOutput },
    /// Fail with this message.
    Fail { message: String },
    /// Measure the context usage the transcript at this path records.
    Measure { transcript: String },
}

pub open spec fn no_transcript_for_usage() -> Seq<char> {
    "No transcript path; context usage is unknown. Save manually when needed."@
}

/// Stop is quiet while the host is already continuing because of a Stop
/// reply, so a save request never loops; without a transcript the usage
/// cannot be known.
pub fn stop_start(input: &HookInput) -> (r: StopStart)
    ensures
        input.stop_hook_active ==> (r matches StopStart::Done { reply } && reply@ == Reply::Empty),
        !input.stop_hook_active && input.transcript_path is None ==> (r matches StopStart::Fail { message }
            && message@ == no_transcript_for_usage()),
        !input.stop_hook_active && input.transcript_path is Some ==> (r matches StopStart::Measure { transcript }
            && transcript@ == input.transcript_path->0@),
{
    if input.stop_hook_active {
        return StopStart::Done { reply: HookOutput::Empty };
    }
    match &input.transcript_path {
        None => StopStart::Fail { message: String::from_str("No transcript path; context usage is unknown. Save manually when needed.") },
        Some(p) => StopStart::Measure { transcript: p.clone() },
    }
}

/// The paths of the documents the agent updates when saving, in order.
pub open spec fn saved_paths(docs: Seq<Document>) -> Seq<Seq<char>>
    decreases docs.len(),
{
    if docs.len() == 0 {
        Seq::empty()
    } else if docs.last().save {
        saved_paths(docs.drop_last()).push(docs.last().path@)
    } else {
        saved_paths(docs.drop_last())
    }
}

pub open spec fn views(items: Seq<String>) -> Seq<Seq<char>> {
    items.map_values(|s: String| s@)
}

/// The paths of the documents marked `save = true`, in order.
pub fn saved_documents(docs: &Vec<Document>) -> (r: Vec<String>)
    ensures
        views(r@) == saved_paths(docs@),
{
    let n = docs.len();
    let mut r: Vec<String> = Vec::new();
    let mut i: usize = 0;
    while i < n
        invariant
            n == docs@.len(),
            i <= n,
            views(r@) == saved_paths(docs@.take(i as int)),
        decreases n - i,
    {
        proof {
            assert(docs@.take(i + 1).drop_last() =~= docs@.take(i as int));
            assert(docs@.take(i + 1).last() == docs@[i as int]);
        }
        if docs[i].save {
            r.push(docs[i].path.clone());
            assert(views(r@) =~= saved_paths(docs@.take(i as int)).push(docs@[i as int].path@));
        }
        i = i + 1;
    }
    assert(docs@.take(n as int) =~= docs@);
    r
}

/// What Stop decides once it can measure.
pub enum StopDecision {
    /// Nothing is due: reply `{}`.
    Quiet,
    /// A save is due: record the reminder at `marker`, then ask for `files`.
    Remind { marker: String, files: Vec<String> },
}

/// What Stop decides: a reminder is due when the usage the status line
/// shows has reached the threshold and some document is to be saved; it is
/// recorded per session, inside the project.
pub open spec fn stop_decision(
    config: Config,
    root: Seq<char>,
    input: HookInput,
    transcript: Seq<char>,
    read: TranscriptRead,
    marker_ancestors: Seq<Resolution>,
) -> Result<Option<(Seq<char>, Seq<Seq<char>>)>, Seq<char>> {
    match transcript_usage(transcript, read) {
        Err(m) => Err(m),
        Ok(p) => {
            if p < config.save.threshold_percent || saved_paths(config.documents@).len() == 0 {
                Ok(None)
            } else {
                match reminder_name_result(input.session_id) {
                    Err(m) => Err(m),
                    Ok(name) => match local_path_result(root, name, marker_ancestors) {
                        Err(m) => Err(m),
                        Ok(marker) => Ok(Some((marker, saved_paths(config.documents@)))),
                    },
                }
            }
        },
    }
}

pub fn stop_decide(
    config: &Config,
    root: &str,
    input: &HookInput,
    transcript: &str,
    read: &TranscriptRead,
    marker_ancestors: &Vec<Resolution>,
) -> (r: Result<StopDecision, String>)
    ensures
        match r {
            Ok(StopDecision::Quiet) => stop_decision(*config, root@, *input, transcript@, *read, marker_ancestors@)
                == Ok::<Option<(Seq<char>, Seq<Seq<char>>)>, Seq<char>>(None),
            Ok(StopDecision::Remind { marker, files }) => stop_decision(*config, root@, *input, transcript@, *read, marker_ancestors@)
                == Ok::<Option<(Seq<char>, Seq<Seq<char>>)>, Seq<char>>(Some((marker@, views(files@)))),
            Err(m) => stop_decision(*config, root@, *input, transcript@, *read, marker_ancestors@)
                == Err::<Option<(Seq<char>, Seq<Seq<char>>)>, Seq<char>>(m@),
        },
{
    let p = usage(transcript, read)?;
    let files = saved_documents(&config.documents);
    if p < config.save.threshold_percent || files.len() == 0 {
        return Ok(StopDecision::Quiet);
    }
    let marker = reminder_path(root, &input.session_id, marker_ancestors)?;
    Ok(StopDecision::Remind { marker, files })
}

/// What creating the reminder marker found.
pub enum MarkerOutcome {
    /// The marker is new: this session has not been reminded since its last compaction.
    Created,
    /// The marker was already there: the reminder was given.
    AlreadyThere,
    /// The marker's directory could not be made; the reason.
    NoDirectory { message: String },
    /// The marker could not be created for another reason.
    Failed { message: String },
}

/// The request to save: which files, where, how, and what to tell the user.
pub open spec fn save_request(root: Seq<char>, files: Seq<Seq<char>>, instructions: Seq<char>) -> Seq<char> {
    "tin: Update these files in "@ + shown_text(root) + " now, then finish. Do not call another save command.\n"@
        + joined(files, "\n"@) + "\n"@ + instructions
        + "\nDo not change read-only reference files. If saving fails, tell the user; do not keep retrying.\nThen tell the user the notes are current as of this moment, so starting a fresh thread now loses nothing. Work after this point is at risk until the next save, and an automatic compaction can arrive without passing through this reminder. Name the host's own command for it; tin does not know the interface. Help: tin --help"@
}

/// Stop's reply once the marker was tried: only a new marker asks for a save.
pub open spec fn stop_reply(root: Seq<char>, files: Seq<Seq<char>>, instructions: Seq<char>, marker: MarkerOutcome) -> Result<Reply, Seq<char>> {
    match marker {
        MarkerOutcome::Created => Ok(Reply::Block { reason: save_request(root, files, instructions) }),
        MarkerOutcome::AlreadyThere => Ok(Reply::Empty),
        MarkerOutcome::NoDirectory { message } => Err(message@),
        MarkerOutcome::Failed { message } => Err("Cannot record save reminder: "@ + message@),
    }
}

pub fn stop_finish(root: &str, files: &Vec<String>, instructions: &str, marker: &MarkerOutcome) -> (r: Result<HookOutput, String>)
    ensures
        match r {
            Ok(out) => stop_reply(root@, views(files@), instructions@, *marker) == Ok::<Reply, Seq<char>>(out@),
            Err(m) => stop_reply(root@, views(files@), instructions@, *marker) == Err::<Reply, Seq<char>>(m@),
        },
{
    match marker {
        MarkerOutcome::Created => {
            let mut reason = String::from_str("tin: Update these files in ");
            let place = shown(root);
            reason.append(place.as_str());
            reason.append(" now, then finish. Do not call another save command.\n");
            let list = join_texts(files, "\n");
            reason.append(list.as_str());
            reason.append("\n");
            reason.append(instructions);
            reason.append(
                "\nDo not change read-only reference files. If saving fails, tell the user; do not keep retrying.\nThen tell the user the notes are current as of this moment, so starting a fresh thread now loses nothing. Work after this point is at risk until the next save, and an automatic compaction can arrive without passing through this reminder. Name the host's own command for it; tin does not know the interface. Help: tin --help",
            );
            Ok(HookOutput::Block { reason })
        },
        MarkerOutcome::AlreadyThere => Ok(HookOutput::Empty),
        MarkerOutcome::NoDirectory { message } => Err(message.clone()),
        MarkerOutcome::Failed { message } => {
            let mut m = String::from_str("Cannot record save reminder: ");
            m.append(message.as_str());
            Err(m)
        },
    }
}

// ---------------------------------------------------------------- PreCompact

/// What PreCompact does first.
pub enum PreCompactStart {
    /// Reply with this and stop.
    Done { reply: HookOutput },
    /// Fail with this message.
    Fail { message: String },
    /// Check that the transcript at this path is reachable, then record its path.
    Record { transcript: String },
}

pub open spec fn no_transcript_for_pointer() -> Seq<char> {
    "No transcript path; cannot record where the raw conversation is kept"@
}

/// PreCompact records where the host keeps the raw conversation, when the
/// configuration asks for it; without a path there is nothing to record.
pub fn pre_compact_start(input: &HookInput, config: &Config) -> (r: PreCompactStart)
    ensures
        !config.save.transcript_pointer ==> (r matches PreCompactStart::Done { reply } && reply@ == Reply::Empty),
        config.save.transcript_pointer && input.transcript_path is None ==> (r matches PreCompactStart::Fail { message }
            && message@ == no_transcript_for_pointer()),
        config.save.transcript_pointer && input.transcript_path is Some ==> (r matches PreCompactStart::Record { transcript }
            && transcript@ == input.transcript_path->0@),
{
    if !config.save.transcript_pointer {
        return PreCompactStart::Done { reply: HookOutput::Empty };
    }
    match &input.transcript_path {
        None => PreCompactStart::Fail { message: String::from_str("No transcript path; cannot record where the raw conversation is kept") },
        Some(p) => PreCompactStart::Record { transcript: p.clone() },
    }
}

/// The failure when the transcript cannot be reached: recording a pointer
/// that does not resolve would be a quiet half-success.
pub fn transcript_unreachable(transcript: &str, message: &str) -> (r: String)
    ensures
        r@ == "Cannot reach the transcript at "@ + shown_text(transcript@) + ": "@ + message@,
{
    let mut r = String::from_str("Cannot reach the transcript at ");
    let s = shown(transcript);
    r.append(s.as_str());
    r.append(": ");
    r.append(message);
    r
}

/// Where PreCompact keeps the path of the raw conversation, in the project.
/// tin keeps the path, never the bytes.
pub open spec fn pointer_name() -> Seq<char> {
    ".tin/runtime/last-transcript-path.txt"@
}

/// The runtime directory, and the warning left for the next entry.
pub open spec fn runtime_name() -> Seq<char> {
    ".tin/runtime"@
}

pub open spec fn warning_note_name() -> Seq<char> {
    ".tin/runtime/warning.txt"@
}

pub fn pointer_file() -> (r: &'static str)
    ensures
        r@ == pointer_name(),
{
    ".tin/runtime/last-transcript-path.txt"
}

pub fn runtime_directory() -> (r: &'static str)
    ensures
        r@ == runtime_name(),
{
    ".tin/runtime"
}

pub fn warning_note() -> (r: &'static str)
    ensures
        r@ == warning_note_name(),
{
    ".tin/runtime/warning.txt"
}

/// What PreCompact records: the transcript's path as the agent should read it.
pub fn pointer_record(transcript: &str) -> (r: String)
    ensures
        r@ == shown_text(transcript@),
{
    shown(transcript)
}

/// The failure when writing a runtime file fails.
pub fn write_failure(path: &str, message: &str) -> (r: String)
    ensures
        r@ == "Cannot write "@ + shown_text(path@) + ": "@ + message@,
{
    let mut r = String::from_str("Cannot write ");
    let s = shown(path);
    r.append(s.as_str());
    r.append(": ");
    r.append(message);
    r
}

// ---------------------------------------------------------------- the entry

/// A SessionStart after compaction starts a new cycle: the save reminder
/// may be given again.
pub open spec fn resets_reminder(event: Event, input: HookInput) -> bool {
    event is SessionStart && (input.source matches Some(s) && s@ == "compact"@)
}

pub fn reset_due(event: Event, input: &HookInput) -> (r: bool)
    ensures
        r == resets_reminder(event, *input),
{
    match event {
        Event::SessionStart => match &input.source {
            Some(s) => crate::text::same_text(s.as_str(), "compact"),
            None => false,
        },
        _ => false,
    }
}

pub fn reset_failure(message: &str) -> (r: String)
    ensures
        r@ == "Cannot reset save reminder: "@ + message@,
{
    let mut r = String::from_str("Cannot reset save reminder: ");
    r.append(message);
    r
}

/// What reading the warning a failed hook left found.
pub enum NoteRead {
    /// No warning was left.
    Absent,
    /// A warning was left, and removing it failed for `removal_failure` if it did.
    Read { message: String, removal_failure: Option<String> },
    /// The warning could not be read.
    Unreadable { message: String },
}

/// What the disk says about one configured document: how the ancestors of
/// its path resolve, nearest first, and what is at the path.
pub struct DocumentSight {
    pub ancestors: Vec<Resolution>,
    pub seen: Inspection,
}

/// What reading the recorded transcript path found.
pub enum PointerRead {
    /// Nothing is recorded.
    Absent,
    /// The recorded text, and what is at the path it names once trimmed.
    Recorded { contents: String, seen: Inspection },
    /// The record could not be read.
    Unreadable { message: String },
}

/// The path a recorded pointer names.
pub fn recorded_transcript(contents: &str) -> (r: String)
    ensures
        r@ == trimmed(contents@),
{
    trim(contents).to_owned()
}

/// The opening of the entry. SessionStart happens once, so it can afford
/// prose; UserPromptSubmit comes with every prompt and only repeats where the
/// paths are relative to.
pub open spec fn entry_intro(event: Event, root: Seq<char>, restore: Seq<char>) -> Seq<char> {
    if event is SessionStart {
        "tin context for "@ + shown_text(root) + ", paths relative to it.\n"@ + restore
            + "\ntin records paths, not contents: read what the current task needs, because a copy here would only be a snapshot. You can ask to save context at any time, in any language; tell the user that once. Help: tin --help\n"@
    } else {
        "tin context for "@ + shown_text(root) + ", paths relative to it. Read what the current task needs if it is not loaded.\n"@
    }
}

/// What the entry says of a warning a failed hook left at `note_path`.
pub open spec fn entry_note(note_path: Seq<char>, note: NoteRead) -> Seq<char> {
    match note {
        NoteRead::Absent => Seq::empty(),
        NoteRead::Read { message, removal_failure } => {
            "\ntin warning: "@ + message@ + "\nTell the user; the previous hook did not complete.\n"@
                + match removal_failure {
                    None => Seq::empty(),
                    Some(e) => "tin warning: Cannot remove "@ + shown_text(note_path) + ": "@ + e@ + "\n"@,
                }
        },
        NoteRead::Unreadable { message } => {
            "tin warning: Cannot read "@ + shown_text(note_path) + ": "@ + message@ + ". Tell the user.\n"@
        },
    }
}

/// The lines of the first `n` documents whose `save` flag is `save`.
pub open spec fn doc_lines(docs: Seq<Document>, sights: Seq<DocumentSight>, save: bool, n: nat) -> Seq<Seq<char>>
    decreases n,
{
    if n == 0 {
        Seq::empty()
    } else if docs[n - 1].save == save {
        doc_lines(docs, sights, save, (n - 1) as nat).push(detail_text(docs[n - 1].path@, sights[n - 1].seen, "not created yet"@))
    } else {
        doc_lines(docs, sights, save, (n - 1) as nat)
    }
}

/// Each line indented by two spaces and ended.
pub open spec fn bulleted(lines: Seq<Seq<char>>) -> Seq<char>
    decreases lines.len(),
{
    if lines.len() == 0 {
        Seq::empty()
    } else {
        bulleted(lines.drop_last()) + "  "@ + lines.last() + "\n"@
    }
}

/// A heading and its lines; nothing when there are no lines.
pub open spec fn section(heading: Seq<char>, lines: Seq<Seq<char>>) -> Seq<char> {
    if lines.len() == 0 { Seq::empty() } else { heading + bulleted(lines) }
}

pub open spec fn writable_heading() -> Seq<char> {
    "\nUpdate when saving:\n"@
}

pub open spec fn reference_heading() -> Seq<char> {
    "\nRead-only reference:\n"@
}

/// What the entry says of the recorded raw conversation.
pub open spec fn entry_pointer(event: Event, pointer: PointerRead) -> Seq<char> {
    match pointer {
        PointerRead::Absent => Seq::empty(),
        PointerRead::Recorded { contents, seen } => {
            "\nRaw conversation: "@ + detail_text(trimmed(contents@), seen, "gone from the host"@) + "\n"@
                + if event is SessionStart {
                    "The host's own record of the session before its last compaction, not a summary. If it is newer than the notes above, it holds work they are missing.\n"@
                } else {
                    Seq::<char>::empty()
                }
        },
        PointerRead::Unreadable { message } => {
            "tin warning: cannot read the recorded transcript path: "@ + message@ + "\n"@
        },
    }
}

/// The whole entry: where the project is, any warning left behind, the
/// documents to update when saving, the read-only references, each with
/// how stale it is, and the recorded raw conversation.
pub open spec fn entry_text(
    event: Event,
    root: Seq<char>,
    config: Config,
    note_path: Seq<char>,
    note: NoteRead,
    sights: Seq<DocumentSight>,
    pointer: PointerRead,
) -> Seq<char> {
    let docs = config.documents@;
    entry_intro(event, root, config.restore.instructions@) + entry_note(note_path, note)
        + section(writable_heading(), doc_lines(docs, sights, true, docs.len()))
        + section(reference_heading(), doc_lines(docs, sights, false, docs.len()))
        + if config.save.transcript_pointer { entry_pointer(event, pointer) } else { Seq::<char>::empty() }
}

/// The first document, among the first `n`, whose path does not resolve inside the project.
pub open spec fn first_stray(root: Seq<char>, docs: Seq<Document>, sights: Seq<DocumentSight>, n: nat) -> Option<Seq<char>>
    decreases n,
{
    if n == 0 {
        None
    } else {
        match first_stray(root, docs, sights, (n - 1) as nat) {
            Some(m) => Some(m),
            None => match local_path_result(root, docs[n - 1].path@, sights[n - 1].ancestors@) {
                Err(m) => Some(m),
                Ok(_) => None,
            },
        }
    }
}

/// The entry, or why it cannot be given: a document, or the recorded
/// pointer, whose path does not resolve inside the project.
pub open spec fn entry_result(
    event: Event,
    root: Seq<char>,
    config: Config,
    note_path: Seq<char>,
    note: NoteRead,
    sights: Seq<DocumentSight>,
    pointer_ancestors: Seq<Resolution>,
    pointer: PointerRead,
) -> Result<Seq<char>, Seq<char>> {
    match first_stray(root, config.documents@, sights, config.documents@.len()) {
        Some(m) => Err(m),
        None => {
            if config.save.transcript_pointer && local_path_result(root, pointer_name(), pointer_ancestors) is Err {
                Err(local_path_result(root, pointer_name(), pointer_ancestors)->Err_0)
            } else {
                Ok(entry_text(event, root, config, note_path, note, sights, pointer))
            }
        },
    }
}

proof fn lemma_stray_sticks(root: Seq<char>, docs: Seq<Document>, sights: Seq<DocumentSight>, i: nat, n: nat, m: Seq<char>)
    requires
        i <= n,
        first_stray(root, docs, sights, i) == Some(m),
    ensures
        first_stray(root, docs, sights, n) == Some(m),
    decreases n - i,
{
    if i < n {
        lemma_stray_sticks(root, docs, sights, i + 1, n, m);
    }
}

fn append_section(text: &mut String, heading: &str, lines: &Vec<String>)
    ensures
        final(text)@ == old(text)@ + section(heading@, views(lines@)),
{
    let n = lines.len();
    if n == 0 {
        assert(old(text)@ + section(heading@, views(lines@)) =~= old(text)@);
        return;
    }
    let ghost start = text@;
    text.append(heading);
    let ghost lv = views(lines@);
    let mut i: usize = 0;
    while i < n
        invariant
            n == lines@.len(),
            lv == views(lines@),
            i <= n,
            text@ == start + heading@ + bulleted(lv.take(i as int)),
        decreases n - i,
    {
        proof {
            assert(lv.take(i + 1).drop_last() =~= lv.take(i as int));
            assert(lv.take(i + 1).last() == lines@[i as int]@);
        }
        text.append("  ");
        text.append(lines[i].as_str());
        text.append("\n");
        proof {
            assert(text@ =~= start + heading@ + bulleted(lv.take(i + 1)));
        }
        i = i + 1;
    }
    assert(lv.take(n as int) =~= lv);
    assert(text@ =~= start + (heading@ + bulleted(lv)));
}

/// The entry SessionStart and UserPromptSubmit hand back, and `tin status`
/// prints: paths and how stale each is, never the contents of a document.
/// `sights` holds what the disk says of each configured document, in order;
/// `pointer_ancestors` how the ancestors of the recorded pointer's path resolve.
pub fn entry(
    event: Event,
    root: &str,
    config: &Config,
    note_path: &str,
    note: &NoteRead,
    sights: &Vec<DocumentSight>,
    pointer_ancestors: &Vec<Resolution>,
    pointer: &PointerRead,
) -> (r: Result<String, String>)
    requires
        sights@.len() == config.documents@.len(),
    ensures
        match r {
            Ok(t) => entry_result(event, root@, *config, note_path@, *note, sights@, pointer_ancestors@, *pointer)
                == Ok::<Seq<char>, Seq<char>>(t@),
            Err(m) => entry_result(event, root@, *config, note_path@, *note, sights@, pointer_ancestors@, *pointer)
                == Err::<Seq<char>, Seq<char>>(m@),
        },
{
    let docs = &config.documents;
    let n = docs.len();
    let mut writable: Vec<String> = Vec::new();
    let mut reference: Vec<String> = Vec::new();
    let mut i: usize = 0;
    while i < n
        invariant
            n == docs@.len(),
            n == sights@.len(),
            *docs == config.documents,
            i <= n,
            first_stray(root@, docs@, sights@, i as nat) is None,
            views(writable@) == doc_lines(docs@, sights@, true, i as nat),
            views(reference@) == doc_lines(docs@, sights@, false, i as nat),
        decreases n - i,
    {
        let doc = &docs[i];
        let sight = &sights[i];
        match local_path(root, doc.path.as_str(), &sight.ancestors) {
            Err(m) => {
                proof { lemma_stray_sticks(root@, docs@, sights@, (i + 1) as nat, n as nat, m@); }
                return Err(m);
            },
            Ok(_) => {},
        }
        let line = describe(doc.path.as_str(), &sight.seen);
        if doc.save {
            writable.push(line);
            assert(views(writable@) =~= doc_lines(docs@, sights@, true, i as nat).push(line@));
        } else {
            reference.push(line);
            assert(views(reference@) =~= doc_lines(docs@, sights@, false, i as nat).push(line@));
        }
        i = i + 1;
    }
    if config.save.transcript_pointer {
        match local_path(root, pointer_file(), pointer_ancestors) {
            Err(m) => return Err(m),
            Ok(_) => {},
        }
    }
    let mut text = if matches!(event, Event::SessionStart) {
        let mut t = String::from_str("tin context for ");
        let place = shown(root);
        t.append(place.as_str());
        t.append(", paths relative to it.\n");
        t.append(config.restore.instructions.as_str());
        t.append(
            "\ntin records paths, not contents: read what the current task needs, because a copy here would only be a snapshot. You can ask to save context at any time, in any language; tell the user that once. Help: tin --help\n",
        );
        t
    } else {
        let mut t = String::from_str("tin context for ");
        let place = shown(root);
        t.append(place.as_str());
        t.append(", paths relative to it. Read what the current task needs if it is not loaded.\n");
        t
    };
    let ghost intro = text@;
    match note {
        NoteRead::Absent => {},
        NoteRead::Read { message, removal_failure } => {
            text.append("\ntin warning: ");
            text.append(message.as_str());
            text.append("\nTell the user; the previous hook did not complete.\n");
            match removal_failure {
                None => {},
                Some(e) => {
                    text.append("tin warning: Cannot remove ");
                    let s = shown(note_path);
                    text.append(s.as_str());
                    text.append(": ");
                    text.append(e.as_str());
                    text.append("\n");
                },
            }
        },
        NoteRead::Unreadable { message } => {
            text.append("tin warning: Cannot read ");
            let s = shown(note_path);
            text.append(s.as_str());
            text.append(": ");
            text.append(message.as_str());
            text.append(". Tell the user.\n");
        },
    }
    assert(text@ =~= intro + entry_note(note_path@, *note));
    append_section(&mut text, "\nUpdate when saving:\n", &writable);
    append_section(&mut text, "\nRead-only reference:\n", &reference);
    let ghost before_pointer = text@;
    if config.save.transcript_pointer {
        match pointer {
            PointerRead::Absent => {},
            PointerRead::Recorded { contents, seen } => {
                let recorded = recorded_transcript(contents.as_str());
                text.append("\nRaw conversation: ");
                let line = detail(recorded.as_str(), seen, "gone from the host");
                text.append(line.as_str());
                text.append("\n");
                if matches!(event, Event::SessionStart) {
                    text.append(
                        "The host's own record of the session before its last compaction, not a summary. If it is newer than the notes above, it holds work they are missing.\n",
                    );
                }
            },
            PointerRead::Unreadable { message } => {
                text.append("tin warning: cannot read the recorded transcript path: ");
                text.append(message.as_str());
                text.append("\n");
            },
        }
        assert(text@ =~= before_pointer + entry_pointer(event, *pointer));
    }
    proof {
        assert(n as nat == config.documents@.len());
    }
    Ok(text)
}

/// What `tin status` prints: the entry SessionStart delivers, for agents
/// whose host runs no tin hooks.
pub fn status(
    root: &str,
    config: &Config,
    note_path: &str,
    note: &NoteRead,
    sights: &Vec<DocumentSight>,
    pointer_ancestors: &Vec<Resolution>,
    pointer: &PointerRead,
) -> (r: Result<String, String>)
    requires
        sights@.len() == config.documents@.len(),
    ensures
        match r {
            Ok(t) => entry_result(Event::SessionStart, root@, *config, note_path@, *note, sights@, pointer_ancestors@, *pointer)
                == Ok::<Seq<char>, Seq<char>>(t@),
            Err(m) => entry_result(Event::SessionStart, root@, *config, note_path@, *note, sights@, pointer_ancestors@, *pointer)
                == Err::<Seq<char>, Seq<char>>(m@),
        },
{
    entry(Event::SessionStart, root, config, note_path, note, sights, pointer_ancestors, pointer)
}

/// The reply that carries an entry.
pub fn entry_reply(event: Event, text: String) -> (r: HookOutput)
    ensures
        r@ == (Reply::Context { event, text: text@ }),
{
    context(event, text)
}

} // verus!
