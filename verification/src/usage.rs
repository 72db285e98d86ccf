use vstd::prelude::*;
use crate::paths::{trim, trimmed, shown, shown_text};
use crate::text::same_text;

verus! {

/// `serde_json::Value`, carried through opaquely: the library reads it only
/// through the calls below.
#[verifier::external_type_specification]
#[verifier::external_body]
pub struct ExJsonValue(serde_json::Value);

/// What `serde_json::from_str::<Value>` makes of a text: the value, or the
/// error's message.
pub uninterp spec fn json_parse(text: Seq<char>) -> Result<serde_json::Value, Seq<char>>;

/// `value[key]` on a `serde_json::Value`.
pub uninterp spec fn json_member(value: serde_json::Value, key: Seq<char>) -> serde_json::Value;

/// `Value::as_str`: the text of a JSON string, nothing for any other value.
pub uninterp spec fn json_text(value: serde_json::Value) -> Option<Seq<char>>;

/// `Value::as_u64`: the number when it is a non-negative integer that fits in 64 bits.
pub uninterp spec fn json_unsigned(value: serde_json::Value) -> Option<u64>;

/// Calls `serde_json::from_str` for a `serde_json::Value`; an error becomes its message.
/// The contract claims only that the outcome is the parser's reading of `text`.
#[verifier::external_body]
pub(crate) fn parse_json(text: &str) -> (r: Result<serde_json::Value, String>)
    ensures
        match r {
            Ok(v) => json_parse(text@) == Ok::<serde_json::Value, Seq<char>>(v),
            Err(m) => json_parse(text@) == Err::<serde_json::Value, Seq<char>>(m@),
        },
{
    match serde_json::from_str::<serde_json::Value>(text) {
        Ok(v) => Ok(v),
        Err(e) => Err(e.to_string()),
    }
}

/// Calls `Index<&str>` on a `serde_json::Value` (`Value::Null` where there is no such member).
#[verifier::external_body]
pub(crate) fn member<'a>(value: &'a serde_json::Value, key: &str) -> (r: &'a serde_json::Value)
    ensures
        *r == json_member(*value, key@),
{
    &value[key]
}

/// Calls `serde_json::Value::as_str`.
#[verifier::external_body]
pub(crate) fn as_text(value: &serde_json::Value) -> (r: Option<&str>)
    ensures
        match r {
            Some(s) => json_text(*value) == Some(s@),
            None => json_text(*value) is None,
        },
{
    value.as_str()
}

/// Calls `serde_json::Value::as_u64`.
#[verifier::external_body]
fn as_unsigned(value: &serde_json::Value) -> (r: Option<u64>)
    ensures
        r == json_unsigned(*value),
{
    value.as_u64()
}

/// The tokens Codex counts against a window before any conversation.
pub const BASELINE_TOKENS: u64 = 12000;

/// The "Context N% used" figure the Codex status line shows for `used`
/// tokens of a `window`: the share of the window beyond the baseline that
/// is left, rounded half up to a whole percent, taken from a hundred.
pub open spec fn shown_percent_used(used: nat, window: nat) -> nat {
    if window <= 12000 {
        100
    } else {
        let effective = (window - 12000) as nat;
        let spent: nat = if used > 12000 { (used - 12000) as nat } else { 0 };
        let remaining: nat = if spent < effective { (effective - spent) as nat } else { 0 };
        (100 - (remaining * 200 + effective) / (2 * effective)) as nat
    }
}

proof fn lemma_rounded_share(remaining: nat, effective: nat)
    requires
        effective > 0,
        remaining <= effective,
    ensures
        (remaining * 200 + effective) / (2 * effective) <= 100,
{
    assert(remaining * 200 + effective < 101 * (2 * effective)) by (nonlinear_arith)
        requires
            effective > 0,
            remaining <= effective,
    ;
    assert((remaining * 200 + effective) / (2 * effective) < 101) by (nonlinear_arith)
        requires
            effective > 0,
            remaining * 200 + effective < 101 * (2 * effective),
    ;
}

/// The percentage the status line shows for `used` tokens of a `window`.
pub fn percent_used(used: u64, window: u64) -> (r: u64)
    ensures
        r == shown_percent_used(used as nat, window as nat),
        r <= 100,
{
    if window <= BASELINE_TOKENS {
        return 100;
    }
    let effective: u128 = (window - BASELINE_TOKENS) as u128;
    let spent: u128 = if used > BASELINE_TOKENS { (used - BASELINE_TOKENS) as u128 } else { 0 };
    let remaining: u128 = if spent < effective { effective - spent } else { 0 };
    proof {
        lemma_rounded_share(remaining as nat, effective as nat);
        assert(remaining * 200 + effective <= 201 * effective) by (nonlinear_arith)
            requires remaining <= effective;
    }
    let left: u128 = (remaining * 200 + effective) / (2 * effective);
    (100 - left) as u64
}

/// `value["payload"]`
pub open spec fn payload(value: serde_json::Value) -> serde_json::Value {
    json_member(value, "payload"@)
}

/// Whether a transcript entry records token usage: its `payload.type` is the
/// string `token_count`.
pub open spec fn is_token_count(value: serde_json::Value) -> bool {
    json_text(json_member(payload(value), "type"@)) == Some("token_count"@)
}

/// The usage a token_count entry records, as the status line shows it, from
/// `payload.info.last_token_usage.total_tokens` and
/// `payload.info.model_context_window`; nothing when either is not an
/// unsigned integer or the window is zero.
pub open spec fn recorded_percent(value: serde_json::Value) -> Option<nat> {
    let info = json_member(payload(value), "info"@);
    let used = json_unsigned(json_member(json_member(info, "last_token_usage"@), "total_tokens"@));
    let window = json_unsigned(json_member(info, "model_context_window"@));
    match (used, window) {
        (Some(u), Some(w)) => if w > 0 { Some(shown_percent_used(u as nat, w as nat)) } else { None },
        _ => None,
    }
}

/// The usage known after reading one more line of the transcript, when it was `known` before.
pub open spec fn after_line(known: Option<nat>, line: Seq<char>) -> Result<Option<nat>, Seq<char>> {
    if trimmed(line).len() == 0 {
        Ok(known)
    } else {
        match json_parse(line) {
            Err(m) => Err(m),
            Ok(v) => if is_token_count(v) { Ok(recorded_percent(v)) } else { Ok(known) },
        }
    }
}

/// The usage known after the first `n` lines: the last token_count entry
/// decides, and the first line that is not JSON stops the reading.
pub open spec fn usage_after(lines: Seq<Seq<char>>, n: nat) -> Result<Option<nat>, Seq<char>>
    decreases n,
{
    if n == 0 {
        Ok(None)
    } else {
        match usage_after(lines, (n - 1) as nat) {
            Err(m) => Err(m),
            Ok(known) => after_line(known, lines[n - 1]),
        }
    }
}

/// What reading a transcript found.
pub enum TranscriptRead {
    /// The file could not be opened; the reason.
    Unopened { message: String },
    /// The lines read, in order, and the reason reading stopped early, if it did.
    Lines { lines: Vec<String>, failure: Option<String> },
}

pub open spec fn line_views(lines: Seq<String>) -> Seq<Seq<char>> {
    lines.map_values(|l: String| l@)
}

/// The message when no entry tells the usage.
pub open spec fn unknown_usage_text() -> Seq<char> {
    "Context usage is unknown; no usable token_count observation. Save manually when needed."@
}

/// The context usage a transcript at `path` records, as the status line shows it.
pub open spec fn transcript_usage(path: Seq<char>, read: TranscriptRead) -> Result<nat, Seq<char>> {
    match read {
        TranscriptRead::Unopened { message } => Err("Cannot read "@ + shown_text(path) + ": "@ + message@),
        TranscriptRead::Lines { lines, failure } => {
            match usage_after(line_views(lines@), lines@.len()) {
                Err(m) => Err(m),
                Ok(known) => match failure {
                    Some(f) => Err(f@),
                    None => match known {
                        Some(p) => Ok(p),
                        None => Err(unknown_usage_text()),
                    },
                },
            }
        },
    }
}


fn line_effect(known: Option<u64>, line: &str) -> (r: Result<Option<u64>, String>)
    requires
        known matches Some(p) ==> p <= 100,
    ensures
        match r {
            Ok(k) => after_line(opt_nat(known), line@) == Ok::<Option<nat>, Seq<char>>(opt_nat(k))
                && (k matches Some(p) ==> p <= 100),
            Err(m) => after_line(opt_nat(known), line@) == Err::<Option<nat>, Seq<char>>(m@),
        },
{
    if trim(line).is_empty() {
        return Ok(known);
    }
    let value = match parse_json(line) {
        Ok(v) => v,
        Err(m) => return Err(m),
    };
    let payload = member(&value, "payload");
    let kind = member(payload, "type");
    let counts = match as_text(kind) {
        Some(t) => same_text(t, "token_count"),
        None => false,
    };
    if !counts {
        return Ok(known);
    }
    let info = member(payload, "info");
    let used = as_unsigned(member(member(info, "last_token_usage"), "total_tokens"));
    let window = as_unsigned(member(info, "model_context_window"));
    match (used, window) {
        (Some(u), Some(w)) => {
            if w > 0 {
                Ok(Some(percent_used(u, w)))
            } else {
                Ok(None)
            }
        },
        _ => Ok(None),
    }
}

pub open spec fn opt_nat(o: Option<u64>) -> Option<nat> {
    match o {
        Some(p) => Some(p as nat),
        None => None,
    }
}

/// The context usage the transcript at `path` records, as the Codex status
/// line shows it, from what reading the transcript found.
pub fn usage(path: &str, read: &TranscriptRead) -> (r: Result<u64, String>)
    ensures
        match r {
            Ok(p) => transcript_usage(path@, *read) == Ok::<nat, Seq<char>>(p as nat) && p <= 100,
            Err(m) => transcript_usage(path@, *read) == Err::<nat, Seq<char>>(m@),
        },
{
    match read {
        TranscriptRead::Unopened { message } => {
            let mut m = String::from_str("Cannot read ");
            let s = shown(path);
            m.append(s.as_str());
            m.append(": ");
            m.append(message.as_str());
            Err(m)
        },
        TranscriptRead::Lines { lines, failure } => {
            let ghost views = line_views(lines@);
            let n = lines.len();
            let mut known: Option<u64> = None;
            let mut i: usize = 0;
            while i < n
                invariant
                    n == lines@.len(),
                    views == line_views(lines@),
                    *read == (TranscriptRead::Lines { lines: *lines, failure: *failure }),
                    i <= n,
                    usage_after(views, i as nat) == Ok::<Option<nat>, Seq<char>>(opt_nat(known)),
                    known matches Some(p) ==> p <= 100,
                decreases n - i,
            {
                assert(views[i as int] == lines@[i as int]@);
                match line_effect(known, lines[i].as_str()) {
                    Ok(k) => {
                        known = k;
                    },
                    Err(m) => {
                        assert(usage_after(views, (i + 1) as nat) == Err::<Option<nat>, Seq<char>>(m@));
                        proof { lemma_failure_sticks(views, (i + 1) as nat, n as nat, m@); }
                        return Err(m);
                    },
                }
                i = i + 1;
            }
            match failure {
                Some(f) => Err(f.clone()),
                None => match known {
                    Some(p) => Ok(p),
                    None => Err(String::from_str("Context usage is unknown; no usable token_count observation. Save manually when needed.")),
                },
            }
        },
    }
}

/// Once a line stops the reading, no later line changes the outcome.
proof fn lemma_failure_sticks(lines: Seq<Seq<char>>, i: nat, n: nat, m: Seq<char>)
    requires
        i <= n,
        usage_after(lines, i) == Err::<Option<nat>, Seq<char>>(m),
    ensures
        usage_after(lines, n) == Err::<Option<nat>, Seq<char>>(m),
    decreases n - i,
{
    if i < n {
        lemma_failure_sticks(lines, i + 1, n, m);
    }
}

} // verus!
