//! The decisions of the release packaging: which asset name a target gets,
//! which triple the host compiler reports, how the archive is written, and
//! whether the plugin declares the crate's version.
use vstd::prelude::*;
use crate::text::{same_text, starts_with_text};
use crate::usage::{json_parse, json_member, json_text};
use vstd::utf8::{valid_utf8, decode_utf8};

verus! {

/// The asset label people recognise for a target triple; an unknown triple
/// keeps its triple.
pub open spec fn label_text(triple: Seq<char>) -> Seq<char> {
    if triple == "x86_64-pc-windows-msvc"@ {
        "windows-x64"@
    } else if triple == "aarch64-pc-windows-msvc"@ {
        "windows-arm64"@
    } else if triple == "aarch64-apple-darwin"@ {
        "macos-arm64"@
    } else if triple == "x86_64-apple-darwin"@ {
        "macos-x64"@
    } else {
        triple
    }
}

pub fn label(triple: &str) -> (r: String)
    ensures
        r@ == label_text(triple@),
{
    if same_text(triple, "x86_64-pc-windows-msvc") {
        String::from_str("windows-x64")
    } else if same_text(triple, "aarch64-pc-windows-msvc") {
        String::from_str("windows-arm64")
    } else if same_text(triple, "aarch64-apple-darwin") {
        String::from_str("macos-arm64")
    } else if same_text(triple, "x86_64-apple-darwin") {
        String::from_str("macos-x64")
    } else {
        triple.to_owned()
    }
}

/// Where the line that starts at `i` ends: the next `\n`, or the end of the text.
pub open spec fn line_end(s: Seq<char>, i: nat) -> nat
    decreases s.len() - i,
{
    if i >= s.len() {
        s.len()
    } else if s[i as int] == '\n' {
        i
    } else {
        line_end(s, i + 1)
    }
}

pub proof fn lemma_line_end_bounds(s: Seq<char>, i: nat)
    requires
        i <= s.len(),
    ensures
        i <= line_end(s, i) <= s.len(),
    decreases s.len() - i,
{
    if i < s.len() && s[i as int] != '\n' {
        lemma_line_end_bounds(s, i + 1);
    }
}

/// The line from `i` to `e`: a `\r` before the `\n` that ends it goes with
/// the line ending; a `\r` at the very end of the text stays.
pub open spec fn line_between(s: Seq<char>, i: nat, e: nat) -> Seq<char> {
    let piece = s.subrange(i as int, e as int);
    if e < s.len() && piece.len() > 0 && piece.last() == '\r' { piece.drop_last() } else { piece }
}

/// The lines from position `i` on.
pub open spec fn lines_from(s: Seq<char>, i: nat) -> Seq<Seq<char>>
    decreases s.len() + 1 - i,
{
    if i >= s.len() {
        Seq::empty()
    } else {
        let e = line_end(s, i);
        proof { lemma_line_end_bounds(s, i); }
        seq![line_between(s, i, e)] + lines_from(s, e + 1)
    }
}

/// What `str::lines` yields: the text split after each `\n`, each line
/// without its `\n` or `\r\n`; a text that ends with `\n` has no empty last line.
pub open spec fn text_lines(s: Seq<char>) -> Seq<Seq<char>> {
    lines_from(s, 0)
}

/// What follows `host: ` on the first of the lines that starts with it.
pub open spec fn host_from(lines: Seq<Seq<char>>) -> Option<Seq<char>>
    decreases lines.len(),
{
    if lines.len() == 0 {
        None
    } else if 6 <= lines[0].len() && lines[0].subrange(0, 6) == "host: "@ {
        Some(lines[0].subrange(6, lines[0].len() as int))
    } else {
        host_from(lines.drop_first())
    }
}

pub open spec fn no_host_text() -> Seq<char> {
    "rustc -vV reported no host triple"@
}

/// The host triple in the text `rustc -vV` printed.
pub fn host_in_report(report: &str) -> (r: Result<String, String>)
    ensures
        match host_from(text_lines(report@)) {
            Some(t) => r matches Ok(s) && s@ == t,
            None => r matches Err(m) && m@ == no_host_text(),
        },
{
    let ghost s = report@;
    let n = report.unicode_len();
    let prefix = "host: ";
    proof { reveal_strlit("host: "); }
    let mut i: usize = 0;
    while i < n
        invariant
            n == s.len(),
            s == report@,
            prefix@ == "host: "@,
            prefix@.len() == 6,
            i <= n,
            host_from(text_lines(s)) == host_from(lines_from(s, i as nat)),
        decreases n - i,
    {
        let mut e: usize = i;
        while e < n && report.get_char(e) != '\n'
            invariant
                n == s.len(),
                s == report@,
                i <= e <= n,
                line_end(s, i as nat) == line_end(s, e as nat),
            decreases n - e,
        {
            e = e + 1;
        }
        assert(line_end(s, e as nat) == e);
        let mut end: usize = e;
        if e < n && e > i && report.get_char(e - 1) == '\r' {
            end = e - 1;
        }
        let line = report.substring_char(i, end);
        proof {
            assert(line@ == line_between(s, i as nat, e as nat));
            let rest = lines_from(s, (e + 1) as nat);
            assert(lines_from(s, i as nat) == seq![line@] + rest);
            assert((seq![line@] + rest).drop_first() =~= rest);
            assert((seq![line@] + rest)[0] == line@);
        }
        if starts_with_text(line, prefix) {
            return Ok(line.substring_char(6, line.unicode_len()).to_owned());
        }
        if e == n {
            assert(lines_from(s, (e + 1) as nat) == Seq::<Seq<char>>::empty());
            assert(host_from(Seq::<Seq<char>>::empty()) is None);
            assert(host_from(lines_from(s, i as nat)) == host_from(lines_from(s, (e + 1) as nat)));
            return Err(String::from_str("rustc -vV reported no host triple"));
        }
        i = e + 1;
    }
    Err(String::from_str("rustc -vV reported no host triple"))
}

/// What `String::from_utf8` reports for bytes that are not UTF-8.
pub uninterp spec fn utf8_error_text(bytes: Seq<u8>) -> Seq<char>;

/// Calls `String::from_utf8`. The contract claims what its documentation
/// says: the bytes decode exactly when they are valid UTF-8, to the
/// characters they encode; the error's message is only named.
#[verifier::external_body]
fn utf8_text(bytes: &[u8]) -> (r: Result<String, String>)
    ensures
        match r {
            Ok(t) => valid_utf8(bytes@) && t@ == decode_utf8(bytes@),
            Err(m) => !valid_utf8(bytes@) && m@ == utf8_error_text(bytes@),
        },
{
    match String::from_utf8(bytes.to_vec()) {
        Ok(t) => Ok(t),
        Err(e) => Err(e.to_string()),
    }
}

pub open spec fn rustc_failed_text() -> Seq<char> {
    "rustc -vV failed"@
}

/// The host triple from a run of `rustc -vV`: whether it succeeded, and
/// what it printed.
pub open spec fn host_triple_result(succeeded: bool, stdout: Seq<u8>) -> Result<Seq<char>, Seq<char>> {
    if !succeeded {
        Err(rustc_failed_text())
    } else if !valid_utf8(stdout) {
        Err(utf8_error_text(stdout))
    } else {
        match host_from(text_lines(decode_utf8(stdout))) {
            Some(t) => Ok(t),
            None => Err(no_host_text()),
        }
    }
}

pub fn host_triple(succeeded: bool, stdout: &[u8]) -> (r: Result<String, String>)
    ensures
        match r {
            Ok(t) => host_triple_result(succeeded, stdout@) == Ok::<Seq<char>, Seq<char>>(t@),
            Err(m) => host_triple_result(succeeded, stdout@) == Err::<Seq<char>, Seq<char>>(m@),
        },
{
    if !succeeded {
        return Err(String::from_str("rustc -vV failed"));
    }
    let report = utf8_text(stdout)?;
    host_in_report(report.as_str())
}

/// The executable cargo builds for a target triple.
pub open spec fn executable_for(triple: Seq<char>) -> Seq<char> {
    if occurs("windows"@, triple) { "tin.exe"@ } else { "tin"@ }
}

pub fn executable_name(triple: &str) -> (r: &'static str)
    ensures
        r@ == executable_for(triple@),
{
    if contains_text(triple, "windows") { "tin.exe" } else { "tin" }
}

/// The failure when the build left no executable at `path`.
pub fn missing_executable(path: &str) -> (r: String)
    ensures
        r@ == "Built executable is missing: "@ + path@,
{
    let mut r = String::from_str("Built executable is missing: ");
    r.append(path);
    r
}

/// Whether `needle` occurs in `text`.
pub open spec fn occurs(needle: Seq<char>, text: Seq<char>) -> bool {
    exists|i: int| 0 <= i && i + needle.len() <= text.len() && #[trigger] text.subrange(i, i + needle.len()) == needle
}

fn contains_text(text: &str, needle: &str) -> (r: bool)
    ensures
        r == occurs(needle@, text@),
{
    let n = text.unicode_len();
    let k = needle.unicode_len();
    if k > n {
        return false;
    }
    if k == 0 {
        assert(text@.subrange(0, 0int + needle@.len()) =~= needle@);
        return true;
    }
    let mut i: usize = 0;
    while i <= n - k
        invariant
            n == text@.len(),
            k == needle@.len(),
            1 <= k <= n,
            i <= n - k + 1,
            forall|j: int| 0 <= j < i ==> #[trigger] text@.subrange(j, j + k) != needle@,
        decreases n - k + 1 - i,
    {
        let window = text.substring_char(i, i + k);
        if same_text(window, needle) {
            return true;
        }
        i = i + 1;
    }
    false
}

/// How a release archive is written.
pub enum ArchiveFormat {
    /// `tar -a -c -f NAME.zip`, with bsdtar.
    Zip,
    /// `tar -z -c -f NAME.tar.gz`, with GNU tar, which has no zip writer.
    TarGz,
}

/// bsdtar can write a zip; any other tar would silently write an
/// uncompressed tar when asked for one.
pub open spec fn archive_format_for(tar_version: Seq<char>) -> ArchiveFormat {
    if occurs("bsdtar"@, tar_version) { ArchiveFormat::Zip } else { ArchiveFormat::TarGz }
}

/// The archive format, from what `tar --version` printed.
pub fn archive_format(tar_version: &str) -> (r: ArchiveFormat)
    ensures
        r == archive_format_for(tar_version@),
{
    if contains_text(tar_version, "bsdtar") { ArchiveFormat::Zip } else { ArchiveFormat::TarGz }
}

/// The archive's file name for a package directory called `name`.
pub fn archive_name(format: &ArchiveFormat, name: &str) -> (r: String)
    ensures
        r@ == name@ + match format { ArchiveFormat::Zip => ".zip"@, ArchiveFormat::TarGz => ".tar.gz"@ },
{
    let mut r = String::from_str(name);
    match format {
        ArchiveFormat::Zip => r.append(".zip"),
        ArchiveFormat::TarGz => r.append(".tar.gz"),
    }
    r
}

/// `toml::Value`, carried through opaquely: the library reads it only
/// through the calls below.
#[verifier::external_type_specification]
#[verifier::external_body]
pub struct ExTomlValue(toml::Value);

/// What `toml::from_str::<toml::Value>` makes of a text: the value, or the error's message.
pub uninterp spec fn toml_parse(text: Seq<char>) -> Result<toml::Value, Seq<char>>;

/// `toml::Value::get` with a key: the member of a table, nothing otherwise.
pub uninterp spec fn toml_member(value: toml::Value, key: Seq<char>) -> Option<toml::Value>;

/// `toml::Value::as_str`: the text of a TOML string.
pub uninterp spec fn toml_text(value: toml::Value) -> Option<Seq<char>>;

/// Calls `toml::from_str` for a `toml::Value`; an error becomes its message.
#[verifier::external_body]
fn parse_toml(text: &str) -> (r: Result<toml::Value, String>)
    ensures
        match r {
            Ok(v) => toml_parse(text@) == Ok::<toml::Value, Seq<char>>(v),
            Err(m) => toml_parse(text@) == Err::<toml::Value, Seq<char>>(m@),
        },
{
    match toml::from_str::<toml::Value>(text) {
        Ok(v) => Ok(v),
        Err(e) => Err(e.to_string()),
    }
}

/// Calls `toml::Value::get` with a key.
#[verifier::external_body]
fn toml_get<'a>(value: &'a toml::Value, key: &str) -> (r: Option<&'a toml::Value>)
    ensures
        match r {
            Some(v) => toml_member(*value, key@) == Some(*v),
            None => toml_member(*value, key@) is None,
        },
{
    value.get(key)
}

/// Calls `toml::Value::as_str`.
#[verifier::external_body]
fn toml_as_str(value: &toml::Value) -> (r: Option<&str>)
    ensures
        match r {
            Some(s) => toml_text(*value) == Some(s@),
            None => toml_text(*value) is None,
        },
{
    value.as_str()
}

/// The crate version a Cargo manifest declares under `[package]`.
pub open spec fn manifest_version(value: toml::Value) -> Option<Seq<char>> {
    match toml_member(value, "package"@) {
        Some(p) => match toml_member(p, "version"@) {
            Some(v) => toml_text(v),
            None => None,
        },
        None => None,
    }
}

/// The verdict on the versions: the plugin manifest must repeat the crate's
/// version, or the release would declare a version the marketplace does not serve.
pub open spec fn version_verdict(manifest: Seq<char>, plugin: Result<Seq<char>, Seq<char>>) -> Result<(), Seq<char>> {
    match toml_parse(manifest) {
        Err(m) => Err(m),
        Ok(t) => match manifest_version(t) {
            None => Err("Cargo.toml has no package version"@),
            Some(c) => match plugin {
                Err(m) => Err(m),
                Ok(text) => match json_parse(text) {
                    Err(m) => Err(m),
                    Ok(j) => match json_text(json_member(j, "version"@)) {
                        None => Err("plugin.json has no version"@),
                        Some(p) => if p == c {
                            Ok(())
                        } else {
                            Err("Version mismatch: Cargo.toml "@ + c + ", plugin.json "@ + p)
                        },
                    },
                },
            },
        },
    }
}

/// Checks that `plugin.json` (as read, or why it could not be) declares the
/// version of the Cargo manifest `manifest`.
pub fn check_version(manifest: &str, plugin: &Result<String, String>) -> (r: Result<(), String>)
    ensures
        match r {
            Ok(_) => version_verdict(manifest@, match plugin { Ok(t) => Ok(t@), Err(m) => Err(m@) }) is Ok,
            Err(m) => version_verdict(manifest@, match plugin { Ok(t) => Ok(t@), Err(m) => Err(m@) })
                == Err::<(), Seq<char>>(m@),
        },
{
    let parsed = parse_toml(manifest)?;
    let crate_version = match toml_get(&parsed, "package") {
        Some(p) => match toml_get(p, "version") {
            Some(v) => toml_as_str(v),
            None => None,
        },
        None => None,
    };
    let crate_version = match crate_version {
        Some(c) => c,
        None => return Err(String::from_str("Cargo.toml has no package version")),
    };
    let text = match plugin {
        Ok(t) => t,
        Err(m) => return Err(m.clone()),
    };
    let json = crate::usage::parse_json(text.as_str())?;
    let plugin_version = match crate::usage::as_text(crate::usage::member(&json, "version")) {
        Some(p) => p,
        None => return Err(String::from_str("plugin.json has no version")),
    };
    if same_text(plugin_version, crate_version) {
        Ok(())
    } else {
        let mut m = String::from_str("Version mismatch: Cargo.toml ");
        m.append(crate_version);
        m.append(", plugin.json ");
        m.append(plugin_version);
        Err(m)
    }
}

/// What `serde_json::from_slice::<Value>` makes of bytes: the value, or the error's message.
pub uninterp spec fn json_parse_bytes(bytes: Seq<u8>) -> Result<serde_json::Value, Seq<char>>;

/// Calls `serde_json::from_slice` for a `serde_json::Value`; an error becomes its message.
/// The contract claims only that the outcome is the parser's reading of `bytes`.
#[verifier::external_body]
fn parse_json_bytes(bytes: &[u8]) -> (r: Result<serde_json::Value, String>)
    ensures
        match r {
            Ok(v) => json_parse_bytes(bytes@) == Ok::<serde_json::Value, Seq<char>>(v),
            Err(m) => json_parse_bytes(bytes@) == Err::<serde_json::Value, Seq<char>>(m@),
        },
{
    match serde_json::from_slice::<serde_json::Value>(bytes) {
        Ok(v) => Ok(v),
        Err(e) => Err(e.to_string()),
    }
}

/// Where cargo writes, from a run of `cargo metadata`: whether it succeeded,
/// and what it printed.
pub open spec fn target_dir_result(succeeded: bool, stdout: Seq<u8>) -> Result<Seq<char>, Seq<char>> {
    if !succeeded {
        Err("cargo metadata failed"@)
    } else {
        match json_parse_bytes(stdout) {
            Err(m) => Err(m),
            Ok(j) => match json_text(json_member(j, "target_directory"@)) {
                Some(d) => Ok(d),
                None => Err("cargo metadata reported no target directory"@),
            },
        }
    }
}

pub fn target_dir(succeeded: bool, stdout: &[u8]) -> (r: Result<String, String>)
    ensures
        match r {
            Ok(d) => target_dir_result(succeeded, stdout@) == Ok::<Seq<char>, Seq<char>>(d@),
            Err(m) => target_dir_result(succeeded, stdout@) == Err::<Seq<char>, Seq<char>>(m@),
        },
{
    if !succeeded {
        return Err(String::from_str("cargo metadata failed"));
    }
    let json = parse_json_bytes(stdout)?;
    match crate::usage::as_text(crate::usage::member(&json, "target_directory")) {
        Some(d) => Ok(d.to_owned()),
        None => Err(String::from_str("cargo metadata reported no target directory")),
    }
}

} // verus!
