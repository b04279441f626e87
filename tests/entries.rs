use font_provision::{is_safe_entry_name, plan_entry, EntryKind, EntryPlan};

const BASE: &str = "/home/ada/.fonts";

#[test]
fn font_entry_lands_in_font_directory() {
    match plan_entry(BASE, "NotoSans-Regular.ttf", EntryKind::File) {
        EntryPlan::WriteFile(p) => assert_eq!(p, "/home/ada/.fonts/NotoSans-Regular.ttf"),
        other => panic!("unexpected {:?}", other),
    }
}

#[test]
fn nested_entries_stay_nested() {
    match plan_entry(BASE, "docs/LICENSE.txt", EntryKind::File) {
        EntryPlan::WriteFile(p) => assert_eq!(p, "/home/ada/.fonts/docs/LICENSE.txt"),
        other => panic!("unexpected {:?}", other),
    }
    match plan_entry(BASE, "docs/", EntryKind::Directory) {
        EntryPlan::CreateDir(p) => assert_eq!(p, "/home/ada/.fonts/docs/"),
        other => panic!("unexpected {:?}", other),
    }
}

#[test]
fn escaping_entries_are_rejected() {
    for name in ["../../evil", "a/../../b", "..", "a/..", "a\\..\\b", "/etc/passwd", "\\evil", "C:evil", ""] {
        assert!(matches!(plan_entry(BASE, name, EntryKind::File), EntryPlan::Reject), "{}", name);
        assert!(!is_safe_entry_name(name), "{}", name);
    }
}

#[test]
fn dots_inside_names_are_allowed() {
    for name in ["..hidden", "a/..b", "b../c", "./x", "a/./b", "x.."] {
        assert!(is_safe_entry_name(name), "{}", name);
    }
}

#[test]
fn symbolic_links_are_skipped() {
    assert!(matches!(plan_entry(BASE, "link", EntryKind::Symlink), EntryPlan::Skip));
    assert!(matches!(plan_entry(BASE, "../../evil", EntryKind::Symlink), EntryPlan::Skip));
}
