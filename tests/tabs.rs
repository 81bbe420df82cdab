use tabfs::diff::diff_tabs;
use tabfs::tabs::{apply_to_tab_list, contains_tab, is_safe_tab_name};
use tabfs::{Tab, Workspace, WorkspaceAction};

fn s(x: &str) -> String {
    x.to_string()
}

fn tab(name: &str, url: &str, is_open: bool) -> Tab {
    Tab { name: s(name), url: s(url), is_open }
}

fn sample() -> Vec<Tab> {
    vec![tab("a", "http://a", true), tab("b", "http://b", false)]
}

#[test]
fn create_then_remove_restores_tabs() {
    let tabs = sample();
    let created = apply_to_tab_list(&tabs, &WorkspaceAction::CreateTab(s("x")));
    assert_eq!(created.len(), 3);
    let removed = apply_to_tab_list(&created, &WorkspaceAction::RemoveTab(s("x")));
    assert_eq!(removed, tabs);
}

#[test]
fn create_existing_name_changes_nothing() {
    let tabs = sample();
    assert_eq!(apply_to_tab_list(&tabs, &WorkspaceAction::CreateTab(s("a"))), tabs);
}

#[test]
fn create_appends_closed_empty_tab() {
    assert_eq!(
        apply_to_tab_list(&sample(), &WorkspaceAction::CreateTab(s("c"))),
        vec![tab("a", "http://a", true), tab("b", "http://b", false), tab("c", "", false)]
    );
}

#[test]
fn open_close_and_change_url() {
    let tabs = sample();
    assert_eq!(
        apply_to_tab_list(&tabs, &WorkspaceAction::OpenTab(s("b"))),
        vec![tab("a", "http://a", true), tab("b", "http://b", true)]
    );
    assert_eq!(
        apply_to_tab_list(&tabs, &WorkspaceAction::CloseTab(s("a"))),
        vec![tab("a", "http://a", false), tab("b", "http://b", false)]
    );
    assert_eq!(
        apply_to_tab_list(&tabs, &WorkspaceAction::ChangeTabUrl(s("b"), s("http://c"))),
        vec![tab("a", "http://a", true), tab("b", "http://c", false)]
    );
    assert_eq!(apply_to_tab_list(&tabs, &WorkspaceAction::OpenTab(s("zz"))), tabs);
}

#[test]
fn remove_drops_only_that_name() {
    assert_eq!(
        apply_to_tab_list(&sample(), &WorkspaceAction::RemoveTab(s("a"))),
        vec![tab("b", "http://b", false)]
    );
    assert_eq!(apply_to_tab_list(&vec![], &WorkspaceAction::RemoveTab(s("a"))), vec![]);
}

#[test]
fn workspace_apply_action_keeps_other_fields() {
    let mut w = Workspace { id: s("w1"), name: s("Work"), path: s("/ws"), tabs: sample() };
    w.apply_action(&WorkspaceAction::RemoveTab(s("b")));
    assert_eq!(w.id, "w1");
    assert_eq!(w.path, "/ws");
    assert_eq!(w.tabs, vec![tab("a", "http://a", true)]);
}

#[test]
fn contains_tab_by_name() {
    assert!(contains_tab(&sample(), &s("b")));
    assert!(!contains_tab(&sample(), &s("c")));
}

#[test]
fn diff_of_equal_tabs_is_empty() {
    assert_eq!(diff_tabs(&sample(), &sample()), vec![]);
}

#[test]
fn diff_reports_removals_then_changes() {
    let before = sample();
    let after = vec![tab("b", "http://b2", true), tab("c", "", true)];
    assert_eq!(
        diff_tabs(&before, &after),
        vec![
            WorkspaceAction::RemoveTab(s("a")),
            WorkspaceAction::ChangeTabUrl(s("b"), s("http://b2")),
            WorkspaceAction::OpenTab(s("b")),
            WorkspaceAction::CreateTab(s("c")),
            WorkspaceAction::OpenTab(s("c")),
        ]
    );
}

#[test]
fn diff_reports_close() {
    let after = vec![tab("a", "http://a", false), tab("b", "http://b", false)];
    assert_eq!(diff_tabs(&sample(), &after), vec![WorkspaceAction::CloseTab(s("a"))]);
}

#[test]
fn action_equality_and_copy() {
    let a = WorkspaceAction::ChangeTabUrl(s("x"), s("u"));
    assert!(a.same_as(&a.duplicate()));
    assert!(!a.same_as(&WorkspaceAction::ChangeTabUrl(s("x"), s("v"))));
    assert!(!a.same_as(&WorkspaceAction::OpenTab(s("x"))));
}

#[test]
fn safe_tab_names() {
    assert!(is_safe_tab_name("home"));
    assert!(is_safe_tab_name("..."));
    assert!(is_safe_tab_name(".blog"));
    assert!(!is_safe_tab_name(""));
    assert!(!is_safe_tab_name("."));
    assert!(!is_safe_tab_name(".."));
    assert!(!is_safe_tab_name("a/b"));
    assert!(!is_safe_tab_name("a\\b"));
    assert!(!is_safe_tab_name("a\0"));
}
