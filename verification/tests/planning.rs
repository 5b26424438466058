use unzipper::entry::ZipEntry;
use unzipper::plan::{FsAction, plan_entries, plan_entry};

fn file_entry(name: &str, data: &[u8], comment: &str, mode: Option<u32>) -> ZipEntry {
    ZipEntry {
        name: String::from(name),
        comment: String::from(comment),
        size: data.len() as u64,
        mode,
        safe_path: Some(String::from(name)),
        data: data.to_vec(),
    }
}

#[test]
fn skipped_entry_plans_nothing() {
    let e = ZipEntry {
        name: String::from("../evil"),
        comment: String::from(""),
        size: 4,
        mode: None,
        safe_path: None,
        data: b"boom".to_vec(),
    };
    assert!(plan_entry(0, &e).is_none());
}

#[test]
fn directory_entry_makes_no_file_write() {
    let e = ZipEntry {
        name: String::from("docs/"),
        comment: String::from(""),
        size: 0,
        mode: None,
        safe_path: Some(String::from("docs")),
        data: Vec::new(),
    };
    let p = plan_entry(0, &e).unwrap();
    assert_eq!(p.lines, vec![String::from("File 0 extracted to  \"docs\"")]);
    assert_eq!(p.actions, vec![FsAction::MkDir(String::from("docs"))]);
}

#[test]
fn directory_entry_with_mode_sets_permissions_after_creation() {
    let e = ZipEntry {
        name: String::from("d/"),
        comment: String::from(""),
        size: 0,
        mode: Some(0o40755),
        safe_path: Some(String::from("d")),
        data: Vec::new(),
    };
    let p = plan_entry(2, &e).unwrap();
    assert_eq!(p.lines, vec![String::from("File 2 extracted to  \"d\"")]);
    assert_eq!(
        p.actions,
        vec![
            FsAction::MkDir(String::from("d")),
            FsAction::SetMode(String::from("d"), 0o40755),
        ]
    );
}

#[test]
fn file_entry_writes_declared_bytes() {
    let e = file_entry("a.txt", b"hi", "", None);
    let p = plan_entry(1, &e).unwrap();
    assert_eq!(
        p.lines,
        vec![String::from("File 1 extracted to \"a.txt\" (2 bytes )")]
    );
    assert_eq!(
        p.actions,
        vec![FsAction::WriteFile(String::from("a.txt"), b"hi".to_vec())]
    );
}

#[test]
fn comment_line_precedes_progress_line() {
    let e = file_entry("a.txt", b"abc", "note", Some(0o100644));
    let p = plan_entry(5, &e).unwrap();
    assert_eq!(
        p.lines,
        vec![
            String::from("File 5 comment:note"),
            String::from("File 5 extracted to \"a.txt\" (3 bytes )"),
        ]
    );
    assert_eq!(
        p.actions,
        vec![
            FsAction::WriteFile(String::from("a.txt"), b"abc".to_vec()),
            FsAction::SetMode(String::from("a.txt"), 0o100644),
        ]
    );
}

#[test]
fn entries_planned_in_index_order() {
    let entries = vec![
        ZipEntry {
            name: String::from("docs/"),
            comment: String::from(""),
            size: 0,
            mode: None,
            safe_path: Some(String::from("docs")),
            data: Vec::new(),
        },
        file_entry("docs/readme.txt", b"hi", "", None),
    ];
    let p = plan_entries(&entries);
    assert_eq!(
        p.lines,
        vec![
            String::from("File 0 extracted to  \"docs\""),
            String::from("File 1 extracted to \"docs/readme.txt\" (2 bytes )"),
        ]
    );
    assert_eq!(
        p.actions,
        vec![
            FsAction::MkDir(String::from("docs")),
            FsAction::WriteFile(String::from("docs/readme.txt"), b"hi".to_vec()),
        ]
    );
}

#[test]
fn skipped_entries_keep_other_indices() {
    let entries = vec![
        ZipEntry {
            name: String::from("../evil"),
            comment: String::from("bad"),
            size: 1,
            mode: None,
            safe_path: None,
            data: b"x".to_vec(),
        },
        file_entry("ok.txt", b"ok", "", None),
    ];
    let p = plan_entries(&entries);
    assert_eq!(
        p.lines,
        vec![String::from("File 1 extracted to \"ok.txt\" (2 bytes )")]
    );
    assert_eq!(
        p.actions,
        vec![FsAction::WriteFile(String::from("ok.txt"), b"ok".to_vec())]
    );
}

#[test]
fn no_entries_plan_nothing() {
    let p = plan_entries(&Vec::new());
    assert!(p.lines.is_empty());
    assert!(p.actions.is_empty());
}

#[test]
fn planning_twice_gives_the_same_plan() {
    let entries = vec![
        file_entry("a.txt", b"one", "", Some(0o100644)),
        file_entry("b.txt", b"two", "c", None),
    ];
    let p1 = plan_entries(&entries);
    let p2 = plan_entries(&entries);
    assert_eq!(p1.lines, p2.lines);
    assert_eq!(p1.actions, p2.actions);
}
