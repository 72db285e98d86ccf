use vstd::prelude::*;
use crate::paths::{Resolution, local_path, local_path_result};

verus! {

/// When and how the agent is asked to save.
pub struct Save {
    /// The lowest "Context N% used" figure, as the Codex status line shows it,
    /// at which the Stop hook asks for a save.
    pub threshold_percent: u64,
    /// Whether PreCompact records where the host keeps the raw conversation.
    pub transcript_pointer: bool,
    /// What the agent should write when saving.
    pub instructions: String,
}

/// What the agent is told when work resumes.
pub struct Restore {
    pub instructions: String,
}

/// One configured document: a project-relative path, and whether the agent
/// updates it when saving (`save`) or only reads it.
pub struct Document {
    pub path: String,
    pub save: bool,
}

/// A project's `.tin/config.toml`.
pub struct Config {
    pub save: Save,
    pub restore: Restore,
    pub documents: Vec<Document>,
}

/// What the disk says about one configured document: how each ancestor of
/// its joined path resolves, nearest first, and whether something other
/// than a file stands at the path.
pub struct DocumentProbe {
    pub ancestors: Vec<Resolution>,
    pub other_than_file: bool,
}

/// The project-relative directory that holds hook evidence.
pub open spec fn runtime_dir() -> Seq<char> {
    ".tin/runtime/"@
}

/// The path with Windows separators read as `/`.
pub open spec fn slashed(p: Seq<char>) -> Seq<char> {
    p.map_values(|c: char| if c == '\\' { '/' } else { c })
}

/// Whether a configured path lies in the reserved runtime directory,
/// whichever separator it is written with.
pub open spec fn is_reserved(p: Seq<char>) -> bool {
    runtime_dir().len() <= p.len() && slashed(p).subrange(0, runtime_dir().len() as int) == runtime_dir()
}

pub open spec fn reserved_text() -> Seq<char> {
    "Documents must not use .tin/runtime/ (reserved for hook evidence)"@
}

pub open spec fn no_document_text() -> Seq<char> {
    "Configure at least one document"@
}

/// What is wrong with one document, if anything: its path must stay in the
/// project, avoid the runtime directory, and not name a directory or other
/// non-file. A document that does not exist yet is fine.
pub open spec fn document_problem(root: Seq<char>, doc: Document, probe: DocumentProbe) -> Option<Seq<char>> {
    match local_path_result(root, doc.path@, probe.ancestors@) {
        Err(m) => Some(m),
        Ok(_) => {
            if is_reserved(doc.path@) {
                Some(reserved_text())
            } else if probe.other_than_file {
                Some("Not a file: "@ + doc.path@)
            } else {
                None
            }
        },
    }
}

/// The first problem among the first `n` documents.
pub open spec fn first_problem(root: Seq<char>, docs: Seq<Document>, probes: Seq<DocumentProbe>, n: nat) -> Option<Seq<char>>
    decreases n,
{
    if n == 0 {
        None
    } else {
        match first_problem(root, docs, probes, (n - 1) as nat) {
            Some(m) => Some(m),
            None => document_problem(root, docs[n - 1], probes[n - 1]),
        }
    }
}

/// The verdict on a configuration's documents.
pub open spec fn documents_verdict(root: Seq<char>, docs: Seq<Document>, probes: Seq<DocumentProbe>) -> Result<(), Seq<char>> {
    if docs.len() == 0 {
        Err(no_document_text())
    } else {
        match first_problem(root, docs, probes, docs.len()) {
            Some(m) => Err(m),
            None => Ok(()),
        }
    }
}

/// Whether `path`, read with `/` for `\`, starts with `.tin/runtime/`.
pub fn reserved(path: &str) -> (r: bool)
    ensures
        r == is_reserved(path@),
{
    let prefix = ".tin/runtime/";
    let n = prefix.unicode_len();
    if path.unicode_len() < n {
        return false;
    }
    let mut i: usize = 0;
    while i < n
        invariant
            n == prefix@.len(),
            prefix@ == runtime_dir(),
            n <= path@.len(),
            i <= n,
            forall|k: int| 0 <= k < i ==> slashed(path@)[k] == prefix@[k],
        decreases n - i,
    {
        let c = path.get_char(i);
        let c = if c == '\\' { '/' } else { c };
        if c != prefix.get_char(i) {
            assert(slashed(path@).subrange(0, n as int)[i as int] != runtime_dir()[i as int]);
            return false;
        }
        i = i + 1;
    }
    assert(slashed(path@).subrange(0, n as int) =~= runtime_dir());
    true
}

impl Config {
    /// Checks the documents of a configuration read from the project at `root`:
    /// there is at least one, and each passes, in order, the checks of
    /// `document_problem`; the first problem found is the error.
    pub fn check_documents(&self, root: &str, probes: &Vec<DocumentProbe>) -> (r: Result<(), String>)
        requires
            probes@.len() == self.documents@.len(),
        ensures
            match r {
                Ok(_) => documents_verdict(root@, self.documents@, probes@) == Ok::<(), Seq<char>>(()),
                Err(m) => documents_verdict(root@, self.documents@, probes@) == Err::<(), Seq<char>>(m@),
            },
    {
        let n = self.documents.len();
        if n == 0 {
            return Err(String::from_str("Configure at least one document"));
        }
        let mut i: usize = 0;
        while i < n
            invariant
                n == self.documents@.len(),
                n == probes@.len(),
                i <= n,
                first_problem(root@, self.documents@, probes@, i as nat) is None,
            decreases n - i,
        {
            let doc = &self.documents[i];
            let probe = &probes[i];
            match local_path(root, doc.path.as_str(), &probe.ancestors) {
                Err(m) => {
                    proof { lemma_problem_sticks(root@, self.documents@, probes@, (i + 1) as nat, n as nat, m@); }
                    return Err(m);
                },
                Ok(_) => {},
            }
            if reserved(doc.path.as_str()) {
                proof { lemma_problem_sticks(root@, self.documents@, probes@, (i + 1) as nat, n as nat, reserved_text()); }
                return Err(String::from_str("Documents must not use .tin/runtime/ (reserved for hook evidence)"));
            }
            if probe.other_than_file {
                let mut m = String::from_str("Not a file: ");
                m.append(doc.path.as_str());
                proof { lemma_problem_sticks(root@, self.documents@, probes@, (i + 1) as nat, n as nat, m@); }
                return Err(m);
            }
            i = i + 1;
        }
        Ok(())
    }
}

/// Once a document has a problem, it stays the first one.
proof fn lemma_problem_sticks(root: Seq<char>, docs: Seq<Document>, probes: Seq<DocumentProbe>, i: nat, n: nat, m: Seq<char>)
    requires
        i <= n,
        first_problem(root, docs, probes, i) == Some(m),
    ensures
        first_problem(root, docs, probes, n) == Some(m),
    decreases n - i,
{
    if i < n {
        lemma_problem_sticks(root, docs, probes, i + 1, n, m);
    }
}

} // verus!
