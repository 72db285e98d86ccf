use vstd::prelude::*;
use vstd::utf8::encode_utf8;
use crate::text::{hex, push_hex, starts_with_text};

verus! {

/// The kind of one component of a path, as the platform's path parser reads it.
#[derive(Clone, Copy, Debug, PartialEq, Eq, Structural)]
pub enum PathPart {
    /// A Windows prefix such as `C:` or `\\server\share`.
    Prefix,
    /// The root separator.
    RootDir,
    /// `.`
    CurDir,
    /// `..`
    ParentDir,
    /// Any other name.
    Normal,
}

/// What resolving one ancestor of a path on disk found.
pub enum Resolution {
    /// The ancestor does not exist.
    Missing,
    /// The ancestor exists; its canonical form.
    Resolved { canonical: String },
    /// Resolving failed for another reason, given as text.
    Failed { message: String },
}

/// The components `std::path::Path::components` yields for `name`. Like the
/// two names below, it follows the path rules of the platform the crate is
/// built for (Windows and Unix read `C:\x` differently); within one build it
/// depends on its arguments alone.
pub uninterp spec fn path_parts(name: Seq<char>) -> Seq<PathPart>;

/// `Path::new(base).join(name)`, as text.
pub uninterp spec fn path_joined(base: Seq<char>, name: Seq<char>) -> Seq<char>;

/// `Path::new(path).starts_with(base)`: whether `base` is a whole-component prefix of `path`.
pub uninterp spec fn path_within(path: Seq<char>, base: Seq<char>) -> bool;

/// Unicode White_Space, the characters `char::is_whitespace` accepts.
pub open spec fn is_white(c: char) -> bool {
    let u = c as u32;
    (0x9 <= u && u <= 0xd) || u == 0x20 || u == 0x85 || u == 0xa0 || u == 0x1680
        || (0x2000 <= u && u <= 0x200a) || u == 0x2028 || u == 0x2029 || u == 0x202f
        || u == 0x205f || u == 0x3000
}

/// The text without its leading white space.
pub open spec fn without_leading_white(s: Seq<char>) -> Seq<char>
    decreases s.len(),
{
    if s.len() > 0 && is_white(s[0]) { without_leading_white(s.drop_first()) } else { s }
}

/// The text without its trailing white space.
pub open spec fn without_trailing_white(s: Seq<char>) -> Seq<char>
    decreases s.len(),
{
    if s.len() > 0 && is_white(s.last()) { without_trailing_white(s.drop_last()) } else { s }
}

/// What `str::trim` gives: the text without leading and trailing white space.
pub open spec fn trimmed(text: Seq<char>) -> Seq<char> {
    without_trailing_white(without_leading_white(text))
}

/// Calls `std::path::Path::components` and tells each component's variant apart.
/// The contract claims only that the result is the parser's own reading of `name`.
#[verifier::external_body]
fn components(name: &str) -> (r: Vec<PathPart>)
    ensures
        r@ == path_parts(name@),
{
    std::path::Path::new(name).components().map(|c| match c {
        std::path::Component::Prefix(_) => PathPart::Prefix,
        std::path::Component::RootDir => PathPart::RootDir,
        std::path::Component::CurDir => PathPart::CurDir,
        std::path::Component::ParentDir => PathPart::ParentDir,
        std::path::Component::Normal(_) => PathPart::Normal,
    }).collect()
}

/// Calls `std::path::Path::join`; the contract claims the text is the joined path.
#[verifier::external_body]
fn join(base: &str, name: &str) -> (r: String)
    ensures
        r@ == path_joined(base@, name@),
{
    std::path::Path::new(base).join(name).display().to_string()
}

/// Calls `std::path::Path::starts_with`; the contract names its answer.
#[verifier::external_body]
fn within(path: &str, base: &str) -> (r: bool)
    ensures
        r == path_within(path@, base@),
{
    std::path::Path::new(path).starts_with(base)
}

fn white(c: char) -> (r: bool)
    ensures
        r == is_white(c),
{
    let u = c as u32;
    (0x9 <= u && u <= 0xd) || u == 0x20 || u == 0x85 || u == 0xa0 || u == 0x1680
        || (0x2000 <= u && u <= 0x200a) || u == 0x2028 || u == 0x2029 || u == 0x202f
        || u == 0x205f || u == 0x3000
}

/// The text without leading and trailing white space, as `str::trim` gives it.
pub fn trim(text: &str) -> (r: &str)
    ensures
        r@ == trimmed(text@),
{
    let n = text.unicode_len();
    let ghost s = text@;
    let mut a: usize = 0;
    assert(s.subrange(0, n as int) =~= s);
    while a < n && white(text.get_char(a))
        invariant
            n == s.len(),
            s == text@,
            a <= n,
            without_leading_white(s) == without_leading_white(s.subrange(a as int, n as int)),
        decreases n - a,
    {
        assert(s.subrange(a as int, n as int).drop_first() =~= s.subrange(a + 1, n as int));
        a = a + 1;
    }
    assert(without_leading_white(s) == s.subrange(a as int, n as int));
    let mut b: usize = n;
    let ghost front = s.subrange(a as int, n as int);
    assert(front.subrange(0, (n - a) as int) =~= front);
    while b > a && white(text.get_char(b - 1))
        invariant
            n == s.len(),
            s == text@,
            a <= b <= n,
            front == s.subrange(a as int, n as int),
            without_trailing_white(front) == without_trailing_white(s.subrange(a as int, b as int)),
        decreases b - a,
    {
        assert(s.subrange(a as int, b as int).drop_last() =~= s.subrange(a as int, b - 1));
        b = b - 1;
    }
    text.substring_char(a, b)
}

/// The Windows verbatim prefix `\\?\`.
pub open spec fn verbatim_prefix() -> Seq<char> {
    seq!['\\', '\\', '?', '\\']
}

/// A path as the agent should read it: a verbatim drive path (`\\?\C:\...`)
/// loses its `\\?\`; anything else, verbatim UNC paths included, is kept,
/// because stripping their prefix would change what they point at.
pub open spec fn shown_text(p: Seq<char>) -> Seq<char> {
    let rest = p.subrange(4, p.len() as int);
    if p.len() >= 4 && p.subrange(0, 4) == verbatim_prefix() && encode_utf8(rest).len() > 1
        && encode_utf8(rest)[1] == 0x3a {
        rest
    } else {
        p
    }
}

pub fn shown(path: &str) -> (r: String)
    ensures
        r@ == shown_text(path@),
{
    let prefix = "\\\\?\\";
    proof {
        reveal_strlit("\\\\?\\");
        assert(prefix@ =~= verbatim_prefix());
    }
    if starts_with_text(path, prefix) {
        let rest = path.substring_char(4, path.unicode_len());
        let bytes = rest.as_bytes();
        if bytes.len() > 1 && bytes[1] == 0x3a {
            return rest.to_owned();
        }
    }
    path.to_owned()
}

/// Whether a component climbs out of, or starts over from outside, the directory it is joined to.
pub open spec fn leaves_base(part: PathPart) -> bool {
    part is ParentDir || part is RootDir || part is Prefix
}

/// A name that cannot be a path inside the project, whatever is on disk:
/// blank, or with a component that leaves the directory it is joined to.
pub open spec fn not_project_relative(name: Seq<char>) -> bool {
    trimmed(name).len() == 0 || exists|i: int|
        0 <= i < path_parts(name).len() && #[trigger] leaves_base(path_parts(name)[i])
}

/// Walks the ancestors of the joined path, nearest first: the first one
/// that exists must lie within `root`; a failure to resolve is reported as is.
pub open spec fn containment(root: Seq<char>, name: Seq<char>, probes: Seq<Resolution>) -> Result<(), Seq<char>>
    decreases probes.len(),
{
    if probes.len() == 0 {
        Ok(())
    } else {
        match probes[0] {
            Resolution::Missing => containment(root, name, probes.drop_first()),
            Resolution::Resolved { canonical } => {
                if path_within(canonical@, root) {
                    Ok(())
                } else {
                    Err("Path leaves the project: "@ + name)
                }
            },
            Resolution::Failed { message } => Err(message@),
        }
    }
}

/// The outcome of resolving `name` inside the project at `root`, given what
/// resolving each ancestor of the joined path found, nearest first.
pub open spec fn local_path_result(root: Seq<char>, name: Seq<char>, probes: Seq<Resolution>) -> Result<Seq<char>, Seq<char>> {
    if not_project_relative(name) {
        Err("Expected a project-relative path: "@ + name)
    } else {
        match containment(root, name, probes) {
            Ok(_) => Ok(path_joined(root, name)),
            Err(m) => Err(m),
        }
    }
}

/// Whether some component leaves the directory the path is joined to.
pub open spec fn some_part_leaves(parts: Seq<PathPart>) -> bool {
    exists|i: int| 0 <= i < parts.len() && #[trigger] leaves_base(parts[i])
}

/// Whether a name is refused before anything on disk is looked at: it is
/// blank once trimmed, or one of its components, as the path parser read
/// them, is `..`, a root or a Windows prefix.
pub open spec fn refused(blank: bool, parts: Seq<PathPart>) -> bool {
    blank || some_part_leaves(parts)
}

/// The refusal, from whether the name is blank and the components the
/// path parser reads in it.
pub fn refuses(blank: bool, parts: &Vec<PathPart>) -> (r: bool)
    ensures
        r == refused(blank, parts@),
{
    if blank {
        return true;
    }
    let n = parts.len();
    let mut i: usize = 0;
    while i < n
        invariant
            n == parts@.len(),
            i <= n,
            forall|k: int| 0 <= k < i ==> !leaves_base(#[trigger] parts@[k]),
        decreases n - i,
    {
        match parts[i] {
            PathPart::ParentDir | PathPart::RootDir | PathPart::Prefix => {
                assert(leaves_base(parts@[i as int]));
                return true;
            },
            _ => {},
        }
        i = i + 1;
    }
    false
}

/// Whether `name` is blank or leaves the directory it is joined to.
pub fn escapes(name: &str) -> (r: bool)
    ensures
        r == not_project_relative(name@),
        r == refused(trimmed(name@).len() == 0, path_parts(name@)),
{
    let blank = trim(name).is_empty();
    let parts = components(name);
    refuses(blank, &parts)
}

fn contained(root: &str, name: &str, probes: &Vec<Resolution>) -> (r: Result<(), String>)
    ensures
        match r {
            Ok(_) => containment(root@, name@, probes@) == Ok::<(), Seq<char>>(()),
            Err(m) => containment(root@, name@, probes@) == Err::<(), Seq<char>>(m@),
        },
{
    let n = probes.len();
    let mut i: usize = 0;
    assert(probes@.skip(0) =~= probes@);
    while i < n
        invariant
            n == probes@.len(),
            i <= n,
            containment(root@, name@, probes@) == containment(root@, name@, probes@.skip(i as int)),
        decreases n - i,
    {
        assert(probes@.skip(i as int)[0] == probes@[i as int]);
        assert(probes@.skip(i as int).drop_first() =~= probes@.skip(i + 1));
        match &probes[i] {
            Resolution::Missing => {},
            Resolution::Resolved { canonical } => {
                if within(canonical.as_str(), root) {
                    return Ok(());
                } else {
                    let mut m = String::from_str("Path leaves the project: ");
                    m.append(name);
                    return Err(m);
                }
            },
            Resolution::Failed { message } => {
                return Err(message.clone());
            },
        }
        i = i + 1;
    }
    Ok(())
}

/// The path of `name` inside the project at `root`. `probes` holds what
/// resolving each ancestor of the joined path found, nearest first; only
/// those up to the first that exists are looked at.
pub fn local_path(root: &str, name: &str, probes: &Vec<Resolution>) -> (r: Result<String, String>)
    ensures
        match r {
            Ok(p) => local_path_result(root@, name@, probes@) == Ok::<Seq<char>, Seq<char>>(p@),
            Err(m) => local_path_result(root@, name@, probes@) == Err::<Seq<char>, Seq<char>>(m@),
        },
{
    if escapes(name) {
        let mut m = String::from_str("Expected a project-relative path: ");
        m.append(name);
        return Err(m);
    }
    match contained(root, name, probes) {
        Ok(_) => Ok(join(root, name)),
        Err(m) => Err(m),
    }
}

/// The project-relative name of the marker that records a save reminder for
/// a session: the session ID's UTF-8 bytes in hexadecimal, so any ID is a
/// safe file name and different IDs never share a marker.
pub open spec fn reminder_name_text(session: Seq<char>) -> Seq<char> {
    ".tin/runtime/reminded-"@ + hex(encode_utf8(session))
}

/// The error when a session has no usable ID.
pub open spec fn no_session_text() -> Seq<char> {
    "No session ID; cannot deduplicate save reminders. Save manually when needed."@
}

pub open spec fn reminder_name_result(session_id: Option<String>) -> Result<Seq<char>, Seq<char>> {
    match session_id {
        Some(id) => if id@.len() > 0 { Ok(reminder_name_text(id@)) } else { Err(no_session_text()) },
        None => Err(no_session_text()),
    }
}

pub fn reminder_name(session_id: &Option<String>) -> (r: Result<String, String>)
    ensures
        match r {
            Ok(p) => reminder_name_result(*session_id) == Ok::<Seq<char>, Seq<char>>(p@),
            Err(m) => reminder_name_result(*session_id) == Err::<Seq<char>, Seq<char>>(m@),
        },
{
    match session_id {
        Some(id) => {
            if id.as_str().is_empty() {
                Err(String::from_str("No session ID; cannot deduplicate save reminders. Save manually when needed."))
            } else {
                let mut name = String::from_str(".tin/runtime/reminded-");
                push_hex(&mut name, id.as_str().as_bytes());
                Ok(name)
            }
        },
        None => Err(String::from_str("No session ID; cannot deduplicate save reminders. Save manually when needed.")),
    }
}

/// Where the save reminder of a session is recorded, inside the project at
/// `root`; `probes` are the resolutions of the marker's ancestors.
pub fn reminder_path(root: &str, session_id: &Option<String>, probes: &Vec<Resolution>) -> (r: Result<String, String>)
    ensures
        match reminder_name_result(*session_id) {
            Err(m) => r matches Err(e) && e@ == m,
            Ok(name) => match r {
                Ok(p) => local_path_result(root@, name, probes@) == Ok::<Seq<char>, Seq<char>>(p@),
                Err(m) => local_path_result(root@, name, probes@) == Err::<Seq<char>, Seq<char>>(m@),
            },
        },
{
    let name = reminder_name(session_id)?;
    local_path(root, name.as_str(), probes)
}

/// Whether a directory holds `.tin/config.toml`.
pub enum Lookup {
    Found,
    Missing,
    /// Looking failed for another reason, given as text.
    Failed { message: String },
}

/// The project that holds a directory: the nearest of `ancestors`, from
/// `i` on, whose lookup found a configuration; a failed lookup on the way
/// is an error, and none found means there is no project.
pub open spec fn nearest_project(ancestors: Seq<String>, lookups: Seq<Lookup>, i: nat) -> Result<Option<Seq<char>>, Seq<char>>
    decreases lookups.len() - i,
{
    if i >= lookups.len() {
        Ok(None)
    } else {
        match lookups[i as int] {
            Lookup::Found => Ok(Some(ancestors[i as int]@)),
            Lookup::Missing => nearest_project(ancestors, lookups, i + 1),
            Lookup::Failed { message } => Err(message@),
        }
    }
}

/// The root of the project that holds a directory. `ancestors` are the
/// canonical directory and its ancestors, nearest first; `lookups` what
/// looking for `.tin/config.toml` in each found.
pub fn find(ancestors: &Vec<String>, lookups: &Vec<Lookup>) -> (r: Result<Option<String>, String>)
    requires
        lookups@.len() == ancestors@.len(),
    ensures
        match r {
            Ok(Some(root)) => nearest_project(ancestors@, lookups@, 0) == Ok::<Option<Seq<char>>, Seq<char>>(Some(root@)),
            Ok(None) => nearest_project(ancestors@, lookups@, 0) == Ok::<Option<Seq<char>>, Seq<char>>(None),
            Err(m) => nearest_project(ancestors@, lookups@, 0) == Err::<Option<Seq<char>>, Seq<char>>(m@),
        },
{
    let n = lookups.len();
    let mut i: usize = 0;
    while i < n
        invariant
            n == lookups@.len(),
            n == ancestors@.len(),
            i <= n,
            nearest_project(ancestors@, lookups@, 0) == nearest_project(ancestors@, lookups@, i as nat),
        decreases n - i,
    {
        match &lookups[i] {
            Lookup::Found => return Ok(Some(ancestors[i].clone())),
            Lookup::Missing => {},
            Lookup::Failed { message } => return Err(message.clone()),
        }
        i = i + 1;
    }
    Ok(None)
}

/// What creating one of the files `tin init` writes found.
pub enum Creation {
    /// The file was new and now holds its content.
    Created,
    /// A file was already there; it is kept as it is.
    Existing,
    /// Creating it failed for another reason, given as text.
    Refused { message: String },
}

/// What `tin init` reports for the file `name` at `path`: existing files are
/// never overwritten, only kept.
pub open spec fn creation_report_text(name: Seq<char>, path: Seq<char>, outcome: Creation) -> Result<Seq<char>, Seq<char>> {
    match outcome {
        Creation::Created => Ok("Created "@ + name),
        Creation::Existing => Ok("Kept "@ + name),
        Creation::Refused { message } => Err(shown_text(path) + ": "@ + message@),
    }
}

pub fn creation_report(name: &str, path: &str, outcome: &Creation) -> (r: Result<String, String>)
    ensures
        match r {
            Ok(line) => creation_report_text(name@, path@, *outcome) == Ok::<Seq<char>, Seq<char>>(line@),
            Err(m) => creation_report_text(name@, path@, *outcome) == Err::<Seq<char>, Seq<char>>(m@),
        },
{
    match outcome {
        Creation::Created => {
            let mut line = String::from_str("Created ");
            line.append(name);
            Ok(line)
        },
        Creation::Existing => {
            let mut line = String::from_str("Kept ");
            line.append(name);
            Ok(line)
        },
        Creation::Refused { message } => {
            let mut m = shown(path);
            m.append(": ");
            m.append(message.as_str());
            Err(m)
        },
    }
}

} // verus!
