//! What holds of the library as a whole, across its functions and calls.
use vstd::prelude::*;
use vstd::utf8::{encode_utf8, encode_utf8_decode_utf8};
use crate::config::{Config, Document, DocumentProbe, documents_verdict, first_problem, is_reserved};
use crate::event::Event;
use crate::hook::{
    HookInput, MarkerOutcome, NoteRead, Reply, entry_intro, entry_text, saved_paths, stop_decision,
    stop_reply, warning_reply, failure_message,
};
use crate::paths::{
    Resolution, containment, leaves_base, local_path_result, path_joined, path_parts,
    reminder_name_text,
};
use crate::text::{hex, hex_char};
use crate::usage::{TranscriptRead, shown_percent_used, transcript_usage, usage_after, json_parse, json_member, json_text, json_unsigned};
use crate::paths::trimmed;

verus! {

proof fn lemma_hex_len(b: Seq<u8>)
    ensures
        hex(b).len() == 2 * b.len(),
    decreases b.len(),
{
    if b.len() > 0 {
        lemma_hex_len(b.drop_last());
    }
}

proof fn lemma_hex_char_injective(x: nat, y: nat)
    requires
        x < 16,
        y < 16,
        hex_char(x) == hex_char(y),
    ensures
        x == y,
{
}

proof fn lemma_hex_injective(a: Seq<u8>, b: Seq<u8>)
    requires
        hex(a) == hex(b),
    ensures
        a == b,
    decreases a.len(),
{
    lemma_hex_len(a);
    lemma_hex_len(b);
    if a.len() > 0 {
        let (x, y) = (a.last(), b.last());
        let ha = hex(a.drop_last());
        let hb = hex(b.drop_last());
        lemma_hex_len(a.drop_last());
        lemma_hex_len(b.drop_last());
        assert(hex(a)[ha.len() as int] == hex_char((x / 16) as nat));
        assert(hex(b)[hb.len() as int] == hex_char((y / 16) as nat));
        assert(hex(a)[ha.len() as int + 1] == hex_char((x % 16) as nat));
        assert(hex(b)[hb.len() as int + 1] == hex_char((y % 16) as nat));
        lemma_hex_char_injective((x / 16) as nat, (y / 16) as nat);
        lemma_hex_char_injective((x % 16) as nat, (y % 16) as nat);
        assert(x == y);
        assert(ha =~= hex(a).subrange(0, ha.len() as int));
        assert(hb =~= hex(b).subrange(0, hb.len() as int));
        lemma_hex_injective(a.drop_last(), b.drop_last());
        assert(a =~= a.drop_last().push(x));
        assert(b =~= b.drop_last().push(y));
    } else {
        assert(a =~= b);
    }
}

/// Different sessions never share a reminder marker, so one session's
/// reminder never silences another's.
pub proof fn law_sessions_have_their_own_marker(a: Seq<char>, b: Seq<char>)
    requires
        a != b,
    ensures
        reminder_name_text(a) != reminder_name_text(b),
{
    if reminder_name_text(a) == reminder_name_text(b) {
        let prefix = ".tin/runtime/reminded-"@;
        assert(hex(encode_utf8(a)) =~= reminder_name_text(a).subrange(prefix.len() as int, reminder_name_text(a).len() as int));
        assert(hex(encode_utf8(b)) =~= reminder_name_text(b).subrange(prefix.len() as int, reminder_name_text(b).len() as int));
        lemma_hex_injective(encode_utf8(a), encode_utf8(b));
        encode_utf8_decode_utf8(a);
        encode_utf8_decode_utf8(b);
    }
}

/// The figure the status line shows never exceeds a hundred, and never falls
/// as more of the window is used.
pub proof fn law_usage_figure_is_monotone(used: nat, more: nat, window: nat)
    requires
        used <= more,
    ensures
        shown_percent_used(used, window) <= 100,
        shown_percent_used(used, window) <= shown_percent_used(more, window),
{
    if window > 12000 {
        let e = (window - 12000) as nat;
        let s1: nat = if used > 12000 { (used - 12000) as nat } else { 0 };
        let s2: nat = if more > 12000 { (more - 12000) as nat } else { 0 };
        let r1: nat = if s1 < e { (e - s1) as nat } else { 0 };
        let r2: nat = if s2 < e { (e - s2) as nat } else { 0 };
        assert(r2 <= r1 && r1 <= e);
        assert((r2 * 200 + e) / (2 * e) <= (r1 * 200 + e) / (2 * e)) by (nonlinear_arith)
            requires
                r2 <= r1,
                e > 0,
        {
            assert(r2 * 200 + e <= r1 * 200 + e);
            vstd::arithmetic::div_mod::lemma_div_is_ordered((r2 * 200 + e) as int, (r1 * 200 + e) as int, (2 * e) as int);
        }
        assert((r1 * 200 + e) / (2 * e) <= 100) by (nonlinear_arith)
            requires
                r1 <= e,
                e > 0,
        {
            assert(r1 * 200 + e < 101 * (2 * e));
        }
    }
}

/// Stop asks for a save only when the usage the status line shows has
/// reached the threshold and some document is to be saved; the request
/// names exactly the documents marked for saving, in order.
pub proof fn law_reminder_only_when_due(
    config: Config,
    root: Seq<char>,
    input: HookInput,
    transcript: Seq<char>,
    read: TranscriptRead,
    ancestors: Seq<Resolution>,
    marker: Seq<char>,
    files: Seq<Seq<char>>,
)
    requires
        stop_decision(config, root, input, transcript, read, ancestors)
            == Ok::<Option<(Seq<char>, Seq<Seq<char>>)>, Seq<char>>(Some((marker, files))),
    ensures
        transcript_usage(transcript, read) is Ok,
        transcript_usage(transcript, read)->Ok_0 >= config.save.threshold_percent,
        files == saved_paths(config.documents@),
        files.len() > 0,
{
}

/// Below the threshold Stop stays quiet, whatever else holds.
pub proof fn law_quiet_below_threshold(
    config: Config,
    root: Seq<char>,
    input: HookInput,
    transcript: Seq<char>,
    read: TranscriptRead,
    ancestors: Seq<Resolution>,
)
    requires
        transcript_usage(transcript, read) is Ok,
        transcript_usage(transcript, read)->Ok_0 < config.save.threshold_percent,
    ensures
        stop_decision(config, root, input, transcript, read, ancestors)
            == Ok::<Option<(Seq<char>, Seq<Seq<char>>)>, Seq<char>>(None),
{
}

/// A save is requested once per compaction cycle: only the Stop that creates
/// the session's marker asks; while the marker stands, Stop is quiet.
pub proof fn law_one_reminder_per_cycle(root: Seq<char>, files: Seq<Seq<char>>, instructions: Seq<char>, marker: MarkerOutcome)
    ensures
        marker is AlreadyThere ==> stop_reply(root, files, instructions, marker) == Ok::<Reply, Seq<char>>(Reply::Empty),
        stop_reply(root, files, instructions, marker) matches Ok(Reply::Block { .. }) ==> marker is Created,
{
}

/// A warning never blocks the agent: it is context or a message to the user.
pub proof fn law_warnings_never_block(event: Event, message: Seq<char>, retention: Option<String>)
    ensures
        !(warning_reply(event, message) is Block),
        !(warning_reply(event, failure_message(message, retention)) is Block),
        !(warning_reply(event, message) is Empty),
{
}

/// A warning kept by a failed hook reaches the next entry: the entry
/// carries it right after its opening, with the request to tell the user.
pub proof fn law_kept_warning_reaches_next_entry(
    event: Event,
    root: Seq<char>,
    config: Config,
    note_path: Seq<char>,
    message: String,
    sights: Seq<crate::hook::DocumentSight>,
    pointer: crate::hook::PointerRead,
)
    ensures
        ({
            let text = entry_text(event, root, config, note_path, NoteRead::Read { message, removal_failure: None }, sights, pointer);
            let start = entry_intro(event, root, config.restore.instructions@).len();
            let expected = "\ntin warning: "@ + message@ + "\nTell the user; the previous hook did not complete.\n"@;
            text.subrange(start as int, (start + expected.len()) as int) == expected
        }),
{
    let text = entry_text(event, root, config, note_path, NoteRead::Read { message, removal_failure: None }, sights, pointer);
    let intro = entry_intro(event, root, config.restore.instructions@);
    let expected = "\ntin warning: "@ + message@ + "\nTell the user; the previous hook did not complete.\n"@;
    assert(crate::hook::entry_note(note_path, NoteRead::Read { message, removal_failure: None }) =~= expected);
    assert(text.subrange(intro.len() as int, (intro.len() + expected.len()) as int) =~= expected);
}

/// A path inside the project never climbs out of it: a name that resolves
/// has no component that leaves the directory it is joined to, and the
/// nearest ancestor of the joined path that exists lies within the project.
pub proof fn law_paths_stay_inside(root: Seq<char>, name: Seq<char>, probes: Seq<Resolution>, path: Seq<char>)
    requires
        local_path_result(root, name, probes) == Ok::<Seq<char>, Seq<char>>(path),
    ensures
        path == path_joined(root, name),
        forall|i: int| 0 <= i < path_parts(name).len() ==> !leaves_base(#[trigger] path_parts(name)[i]),
        containment(root, name, probes) is Ok,
{
}

/// An accepted configuration names at least one document, and none of them
/// lies in the runtime directory or is something other than a file.
pub proof fn law_accepted_documents(root: Seq<char>, docs: Seq<Document>, probes: Seq<DocumentProbe>)
    requires
        probes.len() == docs.len(),
        documents_verdict(root, docs, probes) == Ok::<(), Seq<char>>(()),
    ensures
        docs.len() > 0,
        forall|i: int| 0 <= i < docs.len() ==> !is_reserved(#[trigger] docs[i].path@) && !probes[i].other_than_file,
{
    assert forall|i: int| 0 <= i < docs.len() implies !is_reserved(#[trigger] docs[i].path@) && !probes[i].other_than_file by {
        lemma_no_problem_before(root, docs, probes, docs.len(), (i + 1) as nat);
    }
}

proof fn lemma_no_problem_before(root: Seq<char>, docs: Seq<Document>, probes: Seq<DocumentProbe>, n: nat, k: nat)
    requires
        1 <= k <= n,
        first_problem(root, docs, probes, n) is None,
    ensures
        crate::config::document_problem(root, docs[k - 1], probes[k - 1]) is None,
    decreases n - k,
{
    if k < n {
        lemma_no_problem_before(root, docs, probes, (n - 1) as nat, k);
    }
}

/// SessionStart and UserPromptSubmit carry the same paths: after their
/// opening and any warning, both entries list the same documents, grouped
/// the same way, with the same staleness.
pub proof fn law_both_entries_carry_the_paths(
    root: Seq<char>,
    config: Config,
    note_path: Seq<char>,
    note: NoteRead,
    sights: Seq<crate::hook::DocumentSight>,
    pointer: crate::hook::PointerRead,
)
    ensures
        ({
            let docs = config.documents@;
            let listing = crate::hook::section(crate::hook::writable_heading(), crate::hook::doc_lines(docs, sights, true, docs.len()))
                + crate::hook::section(crate::hook::reference_heading(), crate::hook::doc_lines(docs, sights, false, docs.len()));
            let start = entry_intro(Event::SessionStart, root, config.restore.instructions@).len()
                + crate::hook::entry_note(note_path, note).len();
            let prompt_start = entry_intro(Event::UserPromptSubmit, root, config.restore.instructions@).len()
                + crate::hook::entry_note(note_path, note).len();
            &&& entry_text(Event::SessionStart, root, config, note_path, note, sights, pointer)
                .subrange(start as int, (start + listing.len()) as int) == listing
            &&& entry_text(Event::UserPromptSubmit, root, config, note_path, note, sights, pointer)
                .subrange(prompt_start as int, (prompt_start + listing.len()) as int) == listing
        }),
{
    let docs = config.documents@;
    let w = crate::hook::section(crate::hook::writable_heading(), crate::hook::doc_lines(docs, sights, true, docs.len()));
    let r = crate::hook::section(crate::hook::reference_heading(), crate::hook::doc_lines(docs, sights, false, docs.len()));
    let listing = w + r;
    let note_text = crate::hook::entry_note(note_path, note);
    let a = entry_intro(Event::SessionStart, root, config.restore.instructions@);
    let b = entry_intro(Event::UserPromptSubmit, root, config.restore.instructions@);
    let tail_a = if config.save.transcript_pointer { crate::hook::entry_pointer(Event::SessionStart, pointer) } else { Seq::<char>::empty() };
    let tail_b = if config.save.transcript_pointer { crate::hook::entry_pointer(Event::UserPromptSubmit, pointer) } else { Seq::<char>::empty() };
    assert(entry_text(Event::SessionStart, root, config, note_path, note, sights, pointer) =~= (a + note_text) + listing + tail_a);
    assert(entry_text(Event::UserPromptSubmit, root, config, note_path, note, sights, pointer) =~= (b + note_text) + listing + tail_b);
    assert(((a + note_text) + listing + tail_a).subrange((a + note_text).len() as int, ((a + note_text).len() + listing.len()) as int) =~= listing);
    assert(((b + note_text) + listing + tail_b).subrange((b + note_text).len() as int, ((b + note_text).len() + listing.len()) as int) =~= listing);
}

// ------------------------------------------------ the reminder's cycle

/// Whether the marker of a session stands after a call, when it stood
/// (`present`) before: a Stop whose decision was to remind (`reminds`)
/// leaves it standing, a SessionStart after compaction removes it, and
/// nothing else touches it.
pub open spec fn marker_after(present: bool, event: Event, input: HookInput, reminds: bool) -> bool {
    if event is Stop {
        present || reminds
    } else if crate::hook::resets_reminder(event, input) {
        false
    } else {
        present
    }
}

/// Whether the marker stands before call `k` of a session's calls, each an
/// event, its input, and for a Stop whether its decision was to remind.
pub open spec fn marker_before(calls: Seq<(Event, HookInput, bool)>, k: nat) -> bool
    decreases k,
{
    if k == 0 {
        false
    } else {
        marker_after(marker_before(calls, (k - 1) as nat), calls[k - 1].0, calls[k - 1].1, calls[k - 1].2)
    }
}

/// What creating the marker finds when it stands or not.
pub open spec fn marker_outcome(present: bool) -> MarkerOutcome {
    if present { MarkerOutcome::AlreadyThere } else { MarkerOutcome::Created }
}

proof fn lemma_marker_stays(calls: Seq<(Event, HookInput, bool)>, j: nat, m: nat)
    requires
        j < m <= calls.len(),
        calls[j as int].0 is Stop,
        calls[j as int].2,
        forall|i: int| j < i < m ==> !crate::hook::resets_reminder(#[trigger] calls[i].0, calls[i].1),
    ensures
        marker_before(calls, m),
    decreases m - j,
{
    if m > j + 1 {
        lemma_marker_stays(calls, j, (m - 1) as nat);
    }
}

proof fn lemma_marker_gone(calls: Seq<(Event, HookInput, bool)>, r: nat, m: nat)
    requires
        r < m <= calls.len(),
        crate::hook::resets_reminder(calls[r as int].0, calls[r as int].1),
        forall|i: int| r < i < m ==> !((#[trigger] calls[i].0) is Stop && calls[i].2),
    ensures
        !marker_before(calls, m),
    decreases m - r,
{
    if m > r + 1 {
        lemma_marker_gone(calls, r, (m - 1) as nat);
    }
}

/// Once a Stop has asked for a save, every later Stop of the session is
/// quiet until a SessionStart after compaction; SessionStart on startup or
/// clear, PreCompact and UserPromptSubmit do not re-enable the request.
pub proof fn law_reminder_stays_given(
    calls: Seq<(Event, HookInput, bool)>,
    j: nat,
    k: nat,
    root: Seq<char>,
    files: Seq<Seq<char>>,
    instructions: Seq<char>,
)
    requires
        j < k < calls.len(),
        calls[j as int].0 is Stop,
        calls[j as int].2,
        calls[k as int].0 is Stop,
        forall|i: int| j < i < k ==> !crate::hook::resets_reminder(#[trigger] calls[i].0, calls[i].1),
    ensures
        marker_before(calls, k),
        stop_reply(root, files, instructions, marker_outcome(marker_before(calls, k))) == Ok::<Reply, Seq<char>>(Reply::Empty),
{
    lemma_marker_stays(calls, j, k);
}

/// After a SessionStart that follows compaction, the first Stop whose
/// decision is to remind asks for a save again.
pub proof fn law_compaction_renews_reminder(
    calls: Seq<(Event, HookInput, bool)>,
    r: nat,
    k: nat,
    root: Seq<char>,
    files: Seq<Seq<char>>,
    instructions: Seq<char>,
)
    requires
        r < k < calls.len(),
        crate::hook::resets_reminder(calls[r as int].0, calls[r as int].1),
        forall|i: int| r < i < k ==> !((#[trigger] calls[i].0) is Stop && calls[i].2),
    ensures
        !marker_before(calls, k),
        stop_reply(root, files, instructions, marker_outcome(marker_before(calls, k)))
            == Ok::<Reply, Seq<char>>(Reply::Block { reason: crate::hook::save_request(root, files, instructions) }),
{
    lemma_marker_gone(calls, r, k);
}

/// Only a SessionStart whose source is `compact` resets the reminder.
pub proof fn law_only_compaction_resets(event: Event, input: HookInput)
    ensures
        crate::hook::resets_reminder(event, input) ==> event is SessionStart,
        !(event is SessionStart) ==> !crate::hook::resets_reminder(event, input),
        (input.source matches Some(s) && (s@ == "startup"@ || s@ == "clear"@)) ==> !crate::hook::resets_reminder(event, input),
        input.source is None ==> !crate::hook::resets_reminder(event, input),
{
    reveal_strlit("startup");
    reveal_strlit("clear");
    reveal_strlit("compact");
    if let Some(s) = input.source {
        if s@ == "startup"@ {
            assert(s@[0] != "compact"@[0]);
        }
        if s@ == "clear"@ {
            assert(s@.len() != "compact"@.len());
        }
    }
}

// ------------------------------------------------ the kept warning

/// The warning left for the next entry after an event failed with
/// `message`, when `note` was left before.
pub open spec fn note_after_failure(note: Option<Seq<char>>, event: Event, message: Seq<char>) -> Option<Seq<char>> {
    if crate::hook::warning_is_kept(event) { Some(message) } else { note }
}

/// A Stop or PreCompact that fails keeps exactly the message its warning
/// carries, and the next entry reports it as a hook that did not complete;
/// a SessionStart or UserPromptSubmit that fails keeps nothing, since its
/// reply already reaches the agent.
pub proof fn law_failure_is_kept_for_the_next_entry(
    failed: Event,
    message: Seq<char>,
    before: Option<Seq<char>>,
    next: Event,
    root: Seq<char>,
    config: Config,
    note_path: Seq<char>,
    kept: String,
    sights: Seq<crate::hook::DocumentSight>,
    pointer: crate::hook::PointerRead,
)
    requires
        kept@ == message,
    ensures
        (failed is Stop || failed is PreCompact) ==> note_after_failure(before, failed, message) == Some(message),
        (failed is SessionStart || failed is UserPromptSubmit) ==> note_after_failure(before, failed, message) == before,
        warning_reply(failed, failure_message(message, None)) == warning_reply(failed, message),
        ({
            let text = entry_text(next, root, config, note_path, NoteRead::Read { message: kept, removal_failure: None }, sights, pointer);
            let start = entry_intro(next, root, config.restore.instructions@).len();
            let expected = "\ntin warning: "@ + message + "\nTell the user; the previous hook did not complete.\n"@;
            text.subrange(start as int, (start + expected.len()) as int) == expected
        }),
{
    law_kept_warning_reaches_next_entry(next, root, config, note_path, kept, sights, pointer);
}

// ------------------------------------------------ the recorded conversation

proof fn lemma_trim_keeps_trimmed(x: Seq<char>)
    requires
        x.len() == 0 || (!crate::paths::is_white(x[0]) && !crate::paths::is_white(x.last())),
    ensures
        crate::paths::trimmed(x) == x,
{
}

/// What PreCompact records is what the next entry reports: the entry names
/// the recorded path, as shown and trimmed, under "Raw conversation"; a path
/// that neither starts nor ends with white space is named exactly as shown.
pub proof fn law_recorded_path_is_reported(
    transcript: Seq<char>,
    recorded: String,
    seen: crate::staleness::Inspection,
    event: Event,
)
    requires
        recorded@ == crate::paths::shown_text(transcript),
    ensures
        ({
            let part = crate::hook::entry_pointer(event, crate::hook::PointerRead::Recorded { contents: recorded, seen });
            let expected = "\nRaw conversation: "@ + crate::paths::trimmed(crate::paths::shown_text(transcript)) + "  "@;
            part.subrange(0, expected.len() as int) == expected
        }),
        (recorded@.len() == 0 || (!crate::paths::is_white(recorded@[0]) && !crate::paths::is_white(recorded@.last())))
            ==> crate::paths::trimmed(crate::paths::shown_text(transcript)) == crate::paths::shown_text(transcript),
{
    if recorded@.len() == 0 || (!crate::paths::is_white(recorded@[0]) && !crate::paths::is_white(recorded@.last())) {
        lemma_trim_keeps_trimmed(recorded@);
    }
    let part = crate::hook::entry_pointer(event, crate::hook::PointerRead::Recorded { contents: recorded, seen });
    let expected = "\nRaw conversation: "@ + crate::paths::trimmed(crate::paths::shown_text(transcript)) + "  "@;
    reveal_strlit("  written ");
    reveal_strlit("  write time unavailable");
    reveal_strlit("  tin warning: ");
    reveal_strlit("  tin warning: cannot inspect it: ");
    reveal_strlit("  tin warning: empty, it holds nothing");
    reveal_strlit("  ");
    assert(part.subrange(0, expected.len() as int) =~= expected);
}

/// `tin init` never overwrites: a file that is already there is reported as
/// kept, and only a file it created is reported as created.
pub proof fn law_init_keeps_existing_files(name: Seq<char>, path: Seq<char>, outcome: crate::paths::Creation)
    ensures
        outcome is Existing ==> crate::paths::creation_report_text(name, path, outcome) == Ok::<Seq<char>, Seq<char>>("Kept "@ + name),
        crate::paths::creation_report_text(name, path, outcome) == Ok::<Seq<char>, Seq<char>>("Created "@ + name)
            ==> outcome is Created,
{
    reveal_strlit("Kept ");
    reveal_strlit("Created ");
    if outcome is Existing {
        assert(("Kept "@ + name)[0] != ("Created "@ + name)[0]);
    }
}

/// A session's marker is the marker name joined to the project root, after
/// the same checks as any project path.
pub proof fn law_marker_path(root: Seq<char>, session: String, probes: Seq<Resolution>, path: Seq<char>)
    requires
        session@.len() > 0,
        local_path_result(root, reminder_name_text(session@), probes) == Ok::<Seq<char>, Seq<char>>(path),
    ensures
        path == path_joined(root, reminder_name_text(session@)),
        crate::paths::reminder_name_result(Some(session)) == Ok::<Seq<char>, Seq<char>>(reminder_name_text(session@)),
{
}

// ------------------------------------------------ the marker's place

proof fn lemma_hex_digits(b: Seq<u8>)
    ensures
        forall|i: int| 0 <= i < hex(b).len() ==> ('0' <= #[trigger] hex(b)[i] <= '9' || 'a' <= hex(b)[i] <= 'f'),
    decreases b.len(),
{
    if b.len() > 0 {
        let h = hex(b.drop_last());
        lemma_hex_digits(b.drop_last());
        let last = b.last();
        let hi = hex_char((last / 16) as nat);
        let lo = hex_char((last % 16) as nat);
        assert('0' <= hi <= '9' || 'a' <= hi <= 'f');
        assert('0' <= lo <= '9' || 'a' <= lo <= 'f');
        assert forall|i: int| 0 <= i < hex(b).len() implies ('0' <= #[trigger] hex(b)[i] <= '9' || 'a' <= hex(b)[i] <= 'f') by {
            if i < h.len() {
                assert(hex(b)[i] == h[i]);
            }
        }
    }
}

/// A session's marker is a plain file directly in `.tin/runtime`, whatever
/// the session ID holds (`../x`, `a/b`): what follows `reminded-` is only
/// hexadecimal digits, so it holds no separator and no `..`.
pub proof fn law_marker_stays_in_runtime(session: Seq<char>)
    ensures
        ({
            let name = reminder_name_text(session);
            let prefix = ".tin/runtime/reminded-"@;
            &&& name.subrange(0, prefix.len() as int) == prefix
            &&& forall|i: int| prefix.len() <= i < name.len() ==> ('0' <= #[trigger] name[i] <= '9' || 'a' <= name[i] <= 'f')
        }),
{
    let prefix = ".tin/runtime/reminded-"@;
    let name = reminder_name_text(session);
    lemma_hex_digits(encode_utf8(session));
    assert(name.subrange(0, prefix.len() as int) =~= prefix);
    assert forall|i: int| prefix.len() <= i < name.len() implies ('0' <= #[trigger] name[i] <= '9' || 'a' <= name[i] <= 'f') by {
        assert(name[i] == hex(encode_utf8(session))[i - prefix.len()]);
    }
}

// ------------------------------------------------ paths, never contents

/// Two findings that differ at most in how many bytes a non-empty file holds.
pub open spec fn same_but_size(a: crate::staleness::Inspection, b: crate::staleness::Inspection) -> bool {
    match (a, b) {
        (
            crate::staleness::Inspection::Found { bytes: x, written_seconds_ago: s },
            crate::staleness::Inspection::Found { bytes: y, written_seconds_ago: t },
        ) => (x == 0) == (y == 0) && s == t,
        _ => a == b,
    }
}

/// Two views of the configured documents that agree on everything but the
/// size of non-empty files.
pub open spec fn alike(one: Seq<crate::hook::DocumentSight>, other: Seq<crate::hook::DocumentSight>) -> bool {
    &&& one.len() == other.len()
    &&& forall|i: int| 0 <= i < one.len() ==> (#[trigger] one[i]).ancestors@ == other[i].ancestors@
        && same_but_size(one[i].seen, other[i].seen)
}

proof fn lemma_alike_lines(docs: Seq<Document>, one: Seq<crate::hook::DocumentSight>, other: Seq<crate::hook::DocumentSight>, save: bool, n: nat)
    requires
        alike(one, other),
        n <= one.len(),
    ensures
        crate::hook::doc_lines(docs, one, save, n) == crate::hook::doc_lines(docs, other, save, n),
    decreases n,
{
    if n > 0 {
        lemma_alike_lines(docs, one, other, save, (n - 1) as nat);
        let k = n - 1;
        assert(one[k].ancestors@ == other[k].ancestors@ && same_but_size(one[k].seen, other[k].seen));
        assert(crate::staleness::detail_text(docs[k].path@, one[k].seen, "not created yet"@)
            == crate::staleness::detail_text(docs[k].path@, other[k].seen, "not created yet"@));
    }
}

proof fn lemma_alike_strays(root: Seq<char>, docs: Seq<Document>, one: Seq<crate::hook::DocumentSight>, other: Seq<crate::hook::DocumentSight>, n: nat)
    requires
        alike(one, other),
        n <= one.len(),
    ensures
        crate::hook::first_stray(root, docs, one, n) == crate::hook::first_stray(root, docs, other, n),
    decreases n,
{
    if n > 0 {
        lemma_alike_strays(root, docs, one, other, (n - 1) as nat);
        assert(one[n - 1].ancestors@ == other[n - 1].ancestors@);
    }
}

/// The entry carries paths and ages, never contents: what the configured
/// documents hold changes nothing in it, as long as each stays empty or
/// non-empty and keeps its write time.
pub proof fn law_entry_ignores_contents(
    event: Event,
    root: Seq<char>,
    config: Config,
    note_path: Seq<char>,
    note: NoteRead,
    one: Seq<crate::hook::DocumentSight>,
    other: Seq<crate::hook::DocumentSight>,
    pointer_ancestors: Seq<Resolution>,
    pointer: crate::hook::PointerRead,
)
    requires
        one.len() == config.documents@.len(),
        alike(one, other),
    ensures
        crate::hook::entry_result(event, root, config, note_path, note, one, pointer_ancestors, pointer)
            == crate::hook::entry_result(event, root, config, note_path, note, other, pointer_ancestors, pointer),
{
    let docs = config.documents@;
    lemma_alike_lines(docs, one, other, true, docs.len());
    lemma_alike_lines(docs, one, other, false, docs.len());
    lemma_alike_strays(root, docs, one, other, docs.len());
}

// ------------------------------------------------ laws stated from outside the definitions

/// The paths of the documents marked for saving.
pub open spec fn marked_paths(docs: Seq<Document>) -> Seq<Seq<char>> {
    docs.filter(|d: Document| d.save).map_values(|d: Document| d.path@)
}

/// The files Stop asks for are exactly the documents marked `save = true`,
/// in configured order, wherever they stand in the list: the configured
/// documents filtered by their `save` flag.
pub proof fn law_saved_files_are_the_marked_documents(docs: Seq<Document>)
    ensures
        saved_paths(docs) == marked_paths(docs),
    decreases docs.len(),
{
    reveal(Seq::filter);
    if docs.len() > 0 {
        law_saved_files_are_the_marked_documents(docs.drop_last());
        let f = docs.drop_last().filter(|d: Document| d.save);
        if docs.last().save {
            assert(docs.filter(|d: Document| d.save) == f.push(docs.last()));
            assert(marked_paths(docs) =~= marked_paths(docs.drop_last()).push(docs.last().path@));
        } else {
            assert(docs.filter(|d: Document| d.save) == f);
        }
    } else {
        assert(marked_paths(docs) =~= Seq::<Seq<char>>::empty());
    }
}

/// Every document marked for saving is among the files Stop asks for, and
/// there are as many files as marked documents.
pub proof fn law_every_marked_document_is_asked_for(docs: Seq<Document>, i: int)
    requires
        0 <= i < docs.len(),
        docs[i].save,
    ensures
        saved_paths(docs).contains(docs[i].path@),
        saved_paths(docs).len() == docs.filter(|d: Document| d.save).len(),
        saved_paths(docs).len() > 0,
{
    law_saved_files_are_the_marked_documents(docs);
    let f = docs.filter(|d: Document| d.save);
    docs.filter_lemma(|d: Document| d.save);
    assert(f.contains(docs[i]));
    let j = choose|j: int| 0 <= j < f.len() && f[j] == docs[i];
    assert(marked_paths(docs)[j] == docs[i].path@);
}

/// When the usage the status line shows has reached the threshold, some
/// document is marked for saving, and the session's marker resolves inside
/// the project, Stop decides to remind, asking for the marked documents.
pub proof fn law_reminder_when_due(
    config: Config,
    root: Seq<char>,
    input: HookInput,
    transcript: Seq<char>,
    read: TranscriptRead,
    ancestors: Seq<Resolution>,
    percent: nat,
    i: int,
    name: Seq<char>,
    marker: Seq<char>,
)
    requires
        transcript_usage(transcript, read) == Ok::<nat, Seq<char>>(percent),
        percent >= config.save.threshold_percent,
        0 <= i < config.documents@.len(),
        config.documents@[i].save,
        crate::paths::reminder_name_result(input.session_id) == Ok::<Seq<char>, Seq<char>>(name),
        local_path_result(root, name, ancestors) == Ok::<Seq<char>, Seq<char>>(marker),
    ensures
        stop_decision(config, root, input, transcript, read, ancestors)
            == Ok::<Option<(Seq<char>, Seq<Seq<char>>)>, Seq<char>>(Some((marker, marked_paths(config.documents@)))),
{
    law_every_marked_document_is_asked_for(config.documents@, i);
    law_saved_files_are_the_marked_documents(config.documents@);
}

/// Whether a transcript line is a JSON token_count entry recording `used`
/// tokens of a `window`, read through the parser's own calls.
pub open spec fn records_usage(line: Seq<char>, used: u64, window: u64) -> bool {
    trimmed(line).len() > 0 && match json_parse(line) {
        Ok(v) => {
            let p = json_member(v, "payload"@);
            let info = json_member(p, "info"@);
            &&& json_text(json_member(p, "type"@)) == Some("token_count"@)
            &&& json_unsigned(json_member(json_member(info, "last_token_usage"@), "total_tokens"@)) == Some(used)
            &&& json_unsigned(json_member(info, "model_context_window"@)) == Some(window)
        },
        Err(_) => false,
    }
}

/// Whether a transcript line changes nothing: blank, or JSON that is not a
/// token_count entry.
pub open spec fn inert(line: Seq<char>) -> bool {
    trimmed(line).len() == 0 || match json_parse(line) {
        Ok(v) => json_text(json_member(json_member(v, "payload"@), "type"@)) != Some("token_count"@),
        Err(_) => false,
    }
}

proof fn lemma_inert_tail(lines: Seq<Seq<char>>, k: nat, n: nat, result: Option<nat>)
    requires
        k <= n <= lines.len(),
        usage_after(lines, k) == Ok::<Option<nat>, Seq<char>>(result),
        forall|j: int| k <= j < n ==> inert(#[trigger] lines[j]),
    ensures
        usage_after(lines, n) == Ok::<Option<nat>, Seq<char>>(result),
    decreases n - k,
{
    if k < n {
        lemma_inert_tail(lines, k, (n - 1) as nat, result);
        assert(inert(lines[n - 1]));
    }
}

/// The last token_count entry decides: whatever the lines before it
/// recorded, a readable transcript whose last token_count line records
/// `used` of a `window` above zero, followed only by blank lines or other
/// JSON entries, shows the usage of that line.
pub proof fn law_last_token_count_decides(
    lines: Seq<Seq<char>>,
    k: int,
    used: u64,
    window: u64,
)
    requires
        0 <= k < lines.len(),
        window > 0,
        usage_after(lines, k as nat) is Ok,
        records_usage(lines[k], used, window),
        forall|j: int| k < j < lines.len() ==> inert(#[trigger] lines[j]),
    ensures
        usage_after(lines, lines.len()) == Ok::<Option<nat>, Seq<char>>(Some(shown_percent_used(used as nat, window as nat))),
{
    assert(usage_after(lines, (k + 1) as nat) == Ok::<Option<nat>, Seq<char>>(Some(shown_percent_used(used as nat, window as nat))));
    lemma_inert_tail(lines, (k + 1) as nat, lines.len(), Some(shown_percent_used(used as nat, window as nat)));
}

/// A path whose nearest existing ancestor lies within the project resolves
/// to the name joined to the root; one whose nearest existing ancestor lies
/// outside is refused as leaving the project.
pub proof fn law_nearest_ancestor_decides(root: Seq<char>, name: Seq<char>, probes: Seq<Resolution>, k: int, canonical: String)
    requires
        !crate::paths::not_project_relative(name),
        0 <= k < probes.len(),
        forall|j: int| 0 <= j < k ==> (#[trigger] probes[j]) is Missing,
        probes[k] == (Resolution::Resolved { canonical }),
    ensures
        crate::paths::path_within(canonical@, root) ==> local_path_result(root, name, probes)
            == Ok::<Seq<char>, Seq<char>>(path_joined(root, name)),
        !crate::paths::path_within(canonical@, root) ==> local_path_result(root, name, probes)
            == Err::<Seq<char>, Seq<char>>("Path leaves the project: "@ + name),
{
    lemma_containment_skips(root, name, probes, 0, k);
}

proof fn lemma_containment_skips(root: Seq<char>, name: Seq<char>, probes: Seq<Resolution>, i: int, k: int)
    requires
        0 <= i <= k < probes.len(),
        forall|j: int| 0 <= j < k ==> (#[trigger] probes[j]) is Missing,
    ensures
        containment(root, name, probes.subrange(i, probes.len() as int)) == containment(root, name, probes.subrange(k, probes.len() as int)),
        containment(root, name, probes) == containment(root, name, probes.subrange(0, probes.len() as int)),
    decreases k - i,
{
    assert(probes.subrange(0, probes.len() as int) =~= probes);
    if i < k {
        let here = probes.subrange(i, probes.len() as int);
        assert(here[0] == probes[i]);
        assert(here.drop_first() =~= probes.subrange(i + 1, probes.len() as int));
        lemma_containment_skips(root, name, probes, i + 1, k);
    }
    let at = probes.subrange(k, probes.len() as int);
    assert(at[0] == probes[k]);
}

/// The project is the nearest ancestor that holds a configuration: when
/// every nearer one was looked at and holds none, it is found; a failed
/// lookup on the way is the error; none at all means no project.
pub proof fn law_nearest_configuration_is_the_project(ancestors: Seq<String>, lookups: Seq<crate::paths::Lookup>, k: int)
    requires
        lookups.len() == ancestors.len(),
        0 <= k <= lookups.len(),
        forall|j: int| 0 <= j < k ==> (#[trigger] lookups[j]) is Missing,
    ensures
        k < lookups.len() && lookups[k] is Found ==> crate::paths::nearest_project(ancestors, lookups, 0)
            == Ok::<Option<Seq<char>>, Seq<char>>(Some(ancestors[k]@)),
        k < lookups.len() && lookups[k] is Failed ==> crate::paths::nearest_project(ancestors, lookups, 0)
            == Err::<Option<Seq<char>>, Seq<char>>(lookups[k]->Failed_message@),
        k == lookups.len() ==> crate::paths::nearest_project(ancestors, lookups, 0)
            == Ok::<Option<Seq<char>>, Seq<char>>(None),
{
    lemma_nearest_skips(ancestors, lookups, 0, k);
}

proof fn lemma_nearest_skips(ancestors: Seq<String>, lookups: Seq<crate::paths::Lookup>, i: int, k: int)
    requires
        0 <= i <= k <= lookups.len(),
        forall|j: int| 0 <= j < k ==> (#[trigger] lookups[j]) is Missing,
    ensures
        crate::paths::nearest_project(ancestors, lookups, i as nat) == crate::paths::nearest_project(ancestors, lookups, k as nat),
    decreases k - i,
{
    if i < k {
        assert(lookups[i] is Missing);
        lemma_nearest_skips(ancestors, lookups, i + 1, k);
    }
}

/// Only a SessionStart whose source is exactly `compact` renews the save
/// reminder: any other source (`startup`, `resume`, `clear`, or none) and
/// any other event leaves it given.
pub proof fn law_reset_exactly_on_compaction(event: Event, input: HookInput)
    ensures
        crate::hook::resets_reminder(event, input) <==> (event is SessionStart && input.source is Some
            && input.source->0@ == "compact"@),
{
}

} // verus!
