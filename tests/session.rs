use tabfs::diff::diff_tabs;
use tabfs::{
    ApiWorkspace, FromBrowserMessage, Session, SessionEffect, Tab, ToBrowserMessage, Workspace,
    WorkspaceAction,
};

fn s(x: &str) -> String {
    x.to_string()
}

fn tab(name: &str, url: &str, is_open: bool) -> Tab {
    Tab { name: s(name), url: s(url), is_open }
}

fn workspace(id: &str, path: &str, tabs: Vec<Tab>) -> Workspace {
    Workspace { id: s(id), name: s("Work"), path: s(path), tabs }
}

fn start(id: &str) -> FromBrowserMessage {
    FromBrowserMessage::StartWorkspace(s(id))
}

fn act(id: &str, a: WorkspaceAction) -> FromBrowserMessage {
    FromBrowserMessage::WorkspaceAction(s(id), a)
}

#[test]
fn connect_lists_all_workspaces() {
    let ws = vec![workspace("w1", "/ws", vec![]), workspace("w2", "/other", vec![])];
    let (session, msg) = Session::connect(ws.clone());
    assert_eq!(msg, ToBrowserMessage::AllWorkspaces(ws.clone()));
    assert_eq!(session.workspaces(), ws);
    assert!(!session.is_closed());
}

#[test]
fn start_then_create_tab_scenario() {
    let (mut session, _) = Session::connect(vec![workspace("w1", "/ws", vec![])]);
    let load = ToBrowserMessage::LoadWorkspace(ApiWorkspace {
        id: s("w1"),
        name: s("Work"),
        tabs: vec![],
    });
    assert_eq!(
        session.handle_message(&start("w1")),
        SessionEffect::SendAndWatch(load, s("w1"), s("/ws"))
    );
    let create = WorkspaceAction::CreateTab(s("home"));
    assert_eq!(
        session.handle_message(&act("w1", create.clone())),
        SessionEffect::ApplyToDisk(s("/ws"), create.clone())
    );
    // the watcher sees the write: no echo goes back
    assert_eq!(session.watch_event(&s("w1"), &create), None);
    assert_eq!(session.workspaces()[0].tabs, vec![tab("home", "", false)]);
}

#[test]
fn external_new_tab_is_forwarded() {
    let (mut session, _) = Session::connect(vec![workspace("w1", "/ws", vec![])]);
    session.handle_message(&start("w1"));
    let actions = diff_tabs(&vec![], &vec![tab("blog", "http://blog.example", false)]);
    assert_eq!(
        actions,
        vec![
            WorkspaceAction::CreateTab(s("blog")),
            WorkspaceAction::ChangeTabUrl(s("blog"), s("http://blog.example")),
        ]
    );
    for a in &actions {
        assert_eq!(
            session.watch_event(&s("w1"), a),
            Some(ToBrowserMessage::WorkspaceAction(s("w1"), a.clone()))
        );
    }
    assert_eq!(session.workspaces()[0].tabs, vec![tab("blog", "http://blog.example", false)]);
}

#[test]
fn unknown_ids_are_ignored() {
    let ws = vec![workspace("w1", "/ws", vec![tab("a", "http://a", true)])];
    let (mut session, _) = Session::connect(ws.clone());
    assert_eq!(session.handle_message(&start("nope")), SessionEffect::Nothing);
    assert_eq!(
        session.handle_message(&act("nope", WorkspaceAction::RemoveTab(s("a")))),
        SessionEffect::Nothing
    );
    assert_eq!(session.workspaces(), ws);
    // the unknown id was not started, so a known id's action is not misrouted
    assert_eq!(
        session.watch_event(&s("nope"), &WorkspaceAction::CloseTab(s("a"))),
        None
    );
    assert_eq!(session.workspaces(), ws);
}

#[test]
fn action_on_unstarted_workspace_is_ignored() {
    let (mut session, _) = Session::connect(vec![workspace("w1", "/ws", vec![])]);
    assert_eq!(
        session.handle_message(&act("w1", WorkspaceAction::CreateTab(s("x")))),
        SessionEffect::Nothing
    );
}

#[test]
fn nothing_forwarded_before_start() {
    let (mut session, _) = Session::connect(vec![workspace("w1", "/ws", vec![])]);
    let a = WorkspaceAction::CreateTab(s("x"));
    assert_eq!(session.watch_event(&s("w1"), &a), None);
    assert!(matches!(session.handle_message(&start("w1")), SessionEffect::SendAndWatch(..)));
    assert_eq!(
        session.watch_event(&s("w1"), &a),
        Some(ToBrowserMessage::WorkspaceAction(s("w1"), a.clone()))
    );
}

#[test]
fn second_start_resends_without_new_watch() {
    let (mut session, _) =
        Session::connect(vec![workspace("w1", "/ws", vec![tab("a", "", false)])]);
    session.handle_message(&start("w1"));
    session.watch_event(&s("w1"), &WorkspaceAction::OpenTab(s("a")));
    let load = ToBrowserMessage::LoadWorkspace(ApiWorkspace {
        id: s("w1"),
        name: s("Work"),
        tabs: vec![tab("a", "", true)],
    });
    assert_eq!(session.handle_message(&start("w1")), SessionEffect::Send(load));
}

#[test]
fn echo_suppressed_and_unrelated_change_forwarded() {
    let (mut session, _) =
        Session::connect(vec![workspace("w1", "/ws", vec![tab("x", "", false), tab("y", "", false)])]);
    session.handle_message(&start("w1"));
    let change = WorkspaceAction::ChangeTabUrl(s("x"), s("http://a"));
    session.handle_message(&act("w1", change.clone()));
    assert_eq!(session.watch_event(&s("w1"), &change), None);
    let other = WorkspaceAction::OpenTab(s("y"));
    assert_eq!(
        session.watch_event(&s("w1"), &other),
        Some(ToBrowserMessage::WorkspaceAction(s("w1"), other.clone()))
    );
    assert_eq!(
        session.workspaces()[0].tabs,
        vec![tab("x", "http://a", false), tab("y", "", true)]
    );
}

#[test]
fn unrelated_change_before_echo_is_not_lost() {
    let (mut session, _) = Session::connect(vec![workspace("w1", "/ws", vec![tab("y", "", false)])]);
    session.handle_message(&start("w1"));
    session.handle_message(&act("w1", WorkspaceAction::CreateTab(s("x"))));
    let other = WorkspaceAction::OpenTab(s("y"));
    assert_eq!(
        session.watch_event(&s("w1"), &other),
        Some(ToBrowserMessage::WorkspaceAction(s("w1"), other.clone()))
    );
}

#[test]
fn watch_ended_stops_forwarding() {
    let (mut session, _) = Session::connect(vec![workspace("w1", "/ws", vec![])]);
    session.handle_message(&start("w1"));
    assert_eq!(session.watch_ended(&s("w1")), Some(ToBrowserMessage::WatchStopped(s("w1"))));
    assert_eq!(session.watch_ended(&s("w1")), None);
    assert_eq!(session.watch_event(&s("w1"), &WorkspaceAction::CreateTab(s("x"))), None);
    assert!(matches!(session.handle_message(&start("w1")), SessionEffect::SendAndWatch(..)));
}

#[test]
fn disconnect_stops_everything() {
    let (mut session, _) = Session::connect(vec![
        workspace("w1", "/ws", vec![]),
        workspace("w2", "/ws2", vec![]),
    ]);
    session.handle_message(&start("w2"));
    session.handle_message(&start("w1"));
    assert_eq!(session.disconnect(), vec![s("w2"), s("w1")]);
    assert!(session.is_closed());
    assert_eq!(session.watch_event(&s("w1"), &WorkspaceAction::CreateTab(s("x"))), None);
    assert_eq!(session.handle_message(&start("w1")), SessionEffect::Nothing);
    assert_eq!(session.disconnect(), Vec::<String>::new());
}

#[test]
fn bad_tab_name_still_goes_to_disk() {
    let (mut session, _) = Session::connect(vec![workspace("w1", "/ws", vec![])]);
    session.handle_message(&start("w1"));
    let a = WorkspaceAction::CreateTab(s("../etc"));
    // the write itself refuses the name; the session flags and hands it on
    assert_eq!(
        session.handle_message(&act("w1", a.clone())),
        SessionEffect::ApplyToDisk(s("/ws"), a.clone())
    );
    assert_eq!(session.watch_event(&s("w1"), &a), None);
}

#[test]
fn forwarded_changes_name_their_workspace() {
    let (mut session, _) = Session::connect(vec![
        workspace("w1", "/ws", vec![]),
        workspace("w2", "/ws2", vec![]),
    ]);
    session.handle_message(&start("w1"));
    session.handle_message(&start("w2"));
    let a = WorkspaceAction::CreateTab(s("x"));
    assert_eq!(
        session.watch_event(&s("w2"), &a),
        Some(ToBrowserMessage::WorkspaceAction(s("w2"), a.clone()))
    );
    assert_eq!(session.workspaces()[0].tabs, vec![]);
    assert_eq!(session.workspaces()[1].tabs, vec![tab("x", "", false)]);
}
