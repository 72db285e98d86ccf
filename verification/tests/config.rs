use tin::config::{reserved, Config, Document, DocumentProbe, Restore, Save};
use tin::paths::Resolution;

fn config(docs: &[(&str, bool)]) -> Config {
    Config {
        save: Save { threshold_percent: 80, transcript_pointer: true, instructions: "Write it down.".to_string() },
        restore: Restore { instructions: "Read what matters.".to_string() },
        documents: docs.iter().map(|(p, s)| Document { path: p.to_string(), save: *s }).collect(),
    }
}

fn inside(root: &str, other_than_file: bool) -> DocumentProbe {
    DocumentProbe {
        ancestors: vec![Resolution::Missing, Resolution::Resolved { canonical: root.to_string() }],
        other_than_file,
    }
}

#[test]
fn reserved_reads_backslashes_as_slashes() {
    assert!(reserved(".tin/runtime/notes.md"));
    assert!(reserved(r".tin\runtime\notes.md"));
    assert!(!reserved(".tin/runtime"));
    assert!(!reserved(".tin/context.md"));
}

#[test]
fn check_documents_accepts_files_inside_the_project() {
    let c = config(&[(".tin/context.md", true), ("ARCHITECTURE.md", false)]);
    assert_eq!(c.check_documents("/p", &vec![inside("/p", false), inside("/p", false)]), Ok(()));
}

#[test]
fn check_documents_reports_the_first_problem() {
    assert_eq!(config(&[]).check_documents("/p", &vec![]), Err("Configure at least one document".to_string()));
    let c = config(&[("a.md", true), (".tin/runtime/x.md", true), ("notes", true)]);
    assert_eq!(
        c.check_documents("/p", &vec![inside("/p", false), inside("/p", false), inside("/p", true)]),
        Err("Documents must not use .tin/runtime/ (reserved for hook evidence)".to_string())
    );
    let c = config(&[("a.md", true), ("notes", true)]);
    assert_eq!(
        c.check_documents("/p", &vec![inside("/p", false), inside("/p", true)]),
        Err("Not a file: notes".to_string())
    );
    let c = config(&[("../a.md", true)]);
    assert_eq!(
        c.check_documents("/p", &vec![inside("/p", false)]),
        Err("Expected a project-relative path: ../a.md".to_string())
    );
}
