use sten::events::{compose_path, summary_line, Action, ChangeKind};

#[test]
fn composed_path_is_root_slash_rel() {
    assert_eq!(
        compose_path("/home/u/Sync", "docs/report.pdf"),
        "/home/u/Sync/docs/report.pdf"
    );
}

#[test]
fn composed_path_keeps_a_trailing_separator() {
    assert_eq!(compose_path("/home/u/Sync/", "docs/report.pdf"), "/home/u/Sync/docs/report.pdf");
}

#[test]
fn composed_path_with_empty_root_is_the_relative_path() {
    assert_eq!(compose_path("", "docs/report.pdf"), "docs/report.pdf");
}

#[test]
fn summary_names_kind_action_and_path() {
    assert_eq!(
        summary_line(ChangeKind::File, Action::Deleted, "/home/u/Sync/docs/report.pdf"),
        "File Deleted: /home/u/Sync/docs/report.pdf"
    );
    assert_eq!(
        summary_line(ChangeKind::File, Action::Modified, "/a/b"),
        "File Modified: /a/b"
    );
}
