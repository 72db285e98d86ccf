use tin::paths::{creation_report, escapes, refuses, trim, Creation, PathPart, local_path, reminder_name, reminder_path, shown, Resolution};

fn probes_to(root: &str, depth: usize) -> Vec<Resolution> {
    let mut probes: Vec<Resolution> = (0..depth).map(|_| Resolution::Missing).collect();
    probes.push(Resolution::Resolved { canonical: root.to_string() });
    probes
}

#[test]
fn shown_drops_the_verbatim_prefix_of_a_drive_path() {
    assert_eq!(shown(r"\\?\C:\work\tin"), r"C:\work\tin");
    assert_eq!(shown(r"\\?\UNC\server\share"), r"\\?\UNC\server\share");
    assert_eq!(shown("/home/me/project"), "/home/me/project");
    assert_eq!(shown(r"\\?\"), r"\\?\");
}

#[test]
fn escapes_refuses_blank_and_climbing_names() {
    assert!(escapes(""));
    assert!(escapes("   "));
    assert!(escapes("../outside.md"));
    assert!(escapes("docs/../../outside.md"));
    assert!(escapes("/etc/passwd"));
    assert!(!escapes("docs/PLAN.md"));
    assert!(!escapes("./notes.md"));
}

#[test]
fn local_path_joins_a_name_that_stays_inside() {
    let root = "/work/project";
    assert_eq!(local_path(root, "docs/PLAN.md", &probes_to(root, 2)), Ok("/work/project/docs/PLAN.md".to_string()));
}

#[test]
fn local_path_refuses_names_that_leave_the_project() {
    let root = "/work/project";
    assert_eq!(
        local_path(root, "../secret.md", &probes_to(root, 1)),
        Err("Expected a project-relative path: ../secret.md".to_string())
    );
    let elsewhere = vec![Resolution::Missing, Resolution::Resolved { canonical: "/elsewhere/docs".to_string() }];
    assert_eq!(
        local_path(root, "linked/PLAN.md", &elsewhere),
        Err("Path leaves the project: linked/PLAN.md".to_string())
    );
    let failed = vec![Resolution::Failed { message: "Permission denied (os error 13)".to_string() }];
    assert_eq!(local_path(root, "a.md", &failed), Err("Permission denied (os error 13)".to_string()));
}

#[test]
fn reminder_name_spells_the_session_in_hexadecimal() {
    assert_eq!(reminder_name(&Some("ab".to_string())), Ok(".tin/runtime/reminded-6162".to_string()));
    assert_eq!(reminder_name(&Some("é".to_string())), Ok(".tin/runtime/reminded-c3a9".to_string()));
    let refusal = "No session ID; cannot deduplicate save reminders. Save manually when needed.".to_string();
    assert_eq!(reminder_name(&Some(String::new())), Err(refusal.clone()));
    assert_eq!(reminder_name(&None), Err(refusal));
}

#[test]
fn reminder_path_lies_in_the_runtime_directory() {
    let root = "/p";
    assert_eq!(
        reminder_path(root, &Some("s".to_string()), &probes_to(root, 3)),
        Ok("/p/.tin/runtime/reminded-73".to_string())
    );
}

#[test]
fn init_reports_each_file_it_writes_or_keeps() {
    assert_eq!(creation_report(".tin/config.toml", "/p/.tin/config.toml", &Creation::Created), Ok("Created .tin/config.toml".to_string()));
    assert_eq!(creation_report(".tin/.gitignore", "/p/.tin/.gitignore", &Creation::Existing), Ok("Kept .tin/.gitignore".to_string()));
    assert_eq!(
        creation_report(".tin/config.toml", r"\\?\C:\p\.tin\config.toml", &Creation::Refused { message: "denied".to_string() }),
        Err(r"C:\p\.tin\config.toml: denied".to_string())
    );
}

#[test]
fn refuses_reads_the_parsed_components() {
    assert!(refuses(true, &vec![PathPart::Normal]));
    assert!(refuses(false, &vec![PathPart::Normal, PathPart::ParentDir]));
    assert!(refuses(false, &vec![PathPart::RootDir, PathPart::Normal]));
    assert!(refuses(false, &vec![PathPart::Prefix]));
    assert!(!refuses(false, &vec![PathPart::CurDir, PathPart::Normal]));
    assert!(!refuses(false, &vec![]));
}

#[test]
fn trim_removes_what_std_removes() {
    for text in ["", "  a b  ", "\u{3000}x\u{85}", "\t\n\r\u{0b}\u{0c}", "\u{200b}y", "\u{2028}z\u{202f}", "\u{a0}\u{1680}w\u{205f}"] {
        assert_eq!(trim(text), text.trim(), "{text:?}");
    }
}

#[test]
fn a_marker_stays_in_the_runtime_directory() {
    assert_eq!(reminder_name(&Some("../x".to_string())), Ok(".tin/runtime/reminded-2e2e2f78".to_string()));
    assert_eq!(reminder_name(&Some("a/b".to_string())), Ok(".tin/runtime/reminded-612f62".to_string()));
}
