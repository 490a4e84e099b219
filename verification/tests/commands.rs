use claw_kernel::commands::{
    check_monitor_permission, dump_path_in, requested_dump_path, tree_parse_error,
};
use claw_kernel::models::AppInfo;

#[test]
fn requested_dump_path_uses_given_path() {
    assert_eq!(
        requested_dump_path(Some("/tmp/tree.xml".to_string())),
        Some("/tmp/tree.xml".to_string())
    );
}

#[test]
fn requested_dump_path_empty_or_absent_means_default() {
    assert_eq!(requested_dump_path(Some(String::new())), None);
    assert_eq!(requested_dump_path(None), None);
    assert_eq!(requested_dump_path(Some(" ".to_string())), Some(" ".to_string()));
}

#[test]
fn dump_path_in_documents_directory() {
    assert_eq!(
        dump_path_in("/Users/me/Documents"),
        "/Users/me/Documents/frontmost_ax_ui.xml"
    );
    assert_eq!(dump_path_in("/Users/me/Documents/"), "/Users/me/Documents/frontmost_ax_ui.xml");
    assert_eq!(dump_path_in(""), "frontmost_ax_ui.xml");
    assert_eq!(dump_path_in("/"), "/frontmost_ax_ui.xml");
}

#[test]
fn dump_path_in_agrees_with_std_path_join() {
    for dir in ["/Users/me/Documents", "/Users/me/Documents/", "", "/", "rel/dir", "ü"] {
        let joined = std::path::Path::new(dir)
            .join("frontmost_ax_ui.xml")
            .to_string_lossy()
            .into_owned();
        assert_eq!(dump_path_in(dir), joined);
    }
}

#[test]
fn monitor_permission_granted() {
    assert_eq!(check_monitor_permission(true), Ok(()));
}

#[test]
fn monitor_permission_missing() {
    assert_eq!(
        check_monitor_permission(false),
        Err("Accessibility permission required. Enable in System Settings → Privacy & Security → Accessibility.".to_string())
    );
}

#[test]
fn parse_error_message() {
    assert_eq!(
        tree_parse_error("missing field `childCount` at line 1 column 234"),
        "Failed to parse AX tree JSON: missing field `childCount` at line 1 column 234"
    );
    assert_eq!(tree_parse_error(""), "Failed to parse AX tree JSON: ");
}

#[test]
fn app_info_holds_its_fields() {
    let info = AppInfo {
        pid: 501,
        bundle_identifier: Some("com.apple.finder".to_string()),
        name: None,
    };
    let copy = info.clone();
    assert_eq!(copy.pid, 501);
    assert_eq!(copy.bundle_identifier.as_deref(), Some("com.apple.finder"));
    assert!(copy.name.is_none());
}
