use vstd::prelude::*;
use crate::model::{
    ActionView, FromBrowserMessage, FromBrowserView, ToBrowserMessage,
    ToBrowserView, Workspace, WorkspaceAction, WorkspaceView, api_view, duplicate_workspaces,
    workspaces_view,
};
use crate::tabs::apply_to_tabs;

verus! {

/// A workspace the client has started, with the echo expected from the client's
/// last write to it, if one is still awaited.
#[derive(Clone, Debug, PartialEq, Eq)]
pub struct ActiveWorkspace {
    pub id: String,
    pub pending: Option<WorkspaceAction>,
}

pub struct ActiveView {
    pub id: Seq<char>,
    pub pending: Option<ActionView>,
}

pub open spec fn pending_view(p: Option<WorkspaceAction>) -> Option<ActionView> {
    match p {
        Some(a) => Some(a@),
        None => None,
    }
}

impl View for ActiveWorkspace {
    type V = ActiveView;

    open spec fn view(&self) -> ActiveView {
        ActiveView { id: self.id@, pending: pending_view(self.pending) }
    }
}

pub open spec fn actives_view(act: Seq<ActiveWorkspace>) -> Seq<ActiveView> {
    act.map_values(|a: ActiveWorkspace| a@)
}

/// The state of one client connection: the workspaces it was shown when it
/// connected (kept up to date with what the watchers report), the workspaces it
/// has started, and whether it has gone.
pub struct Session {
    workspaces: Vec<Workspace>,
    active: Vec<ActiveWorkspace>,
    closed: bool,
}

pub struct SessionView {
    pub snapshot: Seq<WorkspaceView>,
    pub active: Seq<ActiveView>,
    pub closed: bool,
}

impl View for Session {
    type V = SessionView;

    closed spec fn view(&self) -> SessionView {
        SessionView {
            snapshot: workspaces_view(self.workspaces@),
            active: actives_view(self.active@),
            closed: self.closed,
        }
    }
}

/// What the caller is to do after a client message.
#[derive(Debug, PartialEq, Eq)]
pub enum SessionEffect {
    Nothing,
    Send(ToBrowserMessage),
    /// Send the message, then watch the workspace with this id at this path.
    SendAndWatch(ToBrowserMessage, String, String),
    /// Apply the action to the workspace directory at this path.
    ApplyToDisk(String, WorkspaceAction),
}

pub enum EffectView {
    Nothing,
    Send(ToBrowserView),
    SendAndWatch(ToBrowserView, Seq<char>, Seq<char>),
    ApplyToDisk(Seq<char>, ActionView),
}

impl View for SessionEffect {
    type V = EffectView;

    open spec fn view(&self) -> EffectView {
        match self {
            SessionEffect::Nothing => EffectView::Nothing,
            SessionEffect::Send(m) => EffectView::Send(m@),
            SessionEffect::SendAndWatch(m, id, p) => EffectView::SendAndWatch(m@, id@, p@),
            SessionEffect::ApplyToDisk(p, a) => EffectView::ApplyToDisk(p@, a@),
        }
    }
}

/// `i` is the first position of a workspace with this id.
pub open spec fn first_workspace(ws: Seq<WorkspaceView>, id: Seq<char>, i: int) -> bool {
    &&& 0 <= i < ws.len()
    &&& ws[i].id == id
    &&& forall|j: int| 0 <= j < i ==> (#[trigger] ws[j]).id != id
}

/// The first position of a workspace with this id, if there is one.
pub open spec fn lookup_workspace(ws: Seq<WorkspaceView>, id: Seq<char>) -> Option<int> {
    if exists|i: int| first_workspace(ws, id, i) {
        Some(choose|i: int| first_workspace(ws, id, i))
    } else {
        None
    }
}

/// `k` is the first position of a started workspace with this id.
pub open spec fn first_active(act: Seq<ActiveView>, id: Seq<char>, k: int) -> bool {
    &&& 0 <= k < act.len()
    &&& act[k].id == id
    &&& forall|j: int| 0 <= j < k ==> (#[trigger] act[j]).id != id
}

/// The first position of a started workspace with this id, if there is one.
pub open spec fn lookup_active(act: Seq<ActiveView>, id: Seq<char>) -> Option<int> {
    if exists|k: int| first_active(act, id, k) {
        Some(choose|k: int| first_active(act, id, k))
    } else {
        None
    }
}

/// The load message for the workspace at position `i`.
pub open spec fn load_message(s: SessionView, i: int) -> ToBrowserView {
    ToBrowserView::LoadWorkspace(api_view(s.snapshot[i]))
}

/// One client message. An unknown id changes nothing and does nothing. Starting
/// a known workspace sends its public part; the first time, it also starts a
/// watch and records the workspace as started. An action on a started
/// workspace is recorded as the echo to expect and is written to disk; one on a
/// workspace not started is ignored. A closed session ignores everything.
pub open spec fn on_message(s: SessionView, m: FromBrowserView) -> (SessionView, EffectView) {
    if s.closed {
        (s, EffectView::Nothing)
    } else {
        match m {
            FromBrowserView::StartWorkspace(id) => match lookup_workspace(s.snapshot, id) {
                None => (s, EffectView::Nothing),
                Some(i) => if lookup_active(s.active, id) is Some {
                    (s, EffectView::Send(load_message(s, i)))
                } else {
                    (
                        SessionView {
                            active: s.active.push(ActiveView { id, pending: None }),
                            ..s
                        },
                        EffectView::SendAndWatch(load_message(s, i), id, s.snapshot[i].path),
                    )
                },
            },
            FromBrowserView::WorkspaceAction(id, a) => match lookup_workspace(s.snapshot, id) {
                None => (s, EffectView::Nothing),
                Some(i) => match lookup_active(s.active, id) {
                    None => (s, EffectView::Nothing),
                    Some(k) => (
                        SessionView {
                            active: s.active.update(k, ActiveView { id, pending: Some(a) }),
                            ..s
                        },
                        EffectView::ApplyToDisk(s.snapshot[i].path, a),
                    ),
                },
            },
        }
    }
}

/// The snapshot with the action applied to the tabs of the workspace with this id.
pub open spec fn snapshot_after(ws: Seq<WorkspaceView>, id: Seq<char>, a: ActionView) -> Seq<
    WorkspaceView,
> {
    match lookup_workspace(ws, id) {
        Some(i) => ws.update(i, WorkspaceView { tabs: apply_to_tabs(ws[i].tabs, a), ..ws[i] }),
        None => ws,
    }
}

/// One action seen on disk by the watch of workspace `id`. On a started
/// workspace of an open session the snapshot takes the action in and the
/// awaited echo is cleared; the action is forwarded unless it is that echo.
/// Otherwise nothing changes and nothing is sent.
pub open spec fn on_watch(s: SessionView, id: Seq<char>, a: ActionView) -> (
    SessionView,
    Option<ToBrowserView>,
) {
    if s.closed {
        (s, None)
    } else {
        match lookup_active(s.active, id) {
            None => (s, None),
            Some(k) => {
                let next = SessionView {
                    snapshot: snapshot_after(s.snapshot, id, a),
                    active: s.active.update(k, ActiveView { id, pending: None }),
                    closed: false,
                };
                if s.active[k].pending == Some(a) {
                    (next, None)
                } else {
                    (next, Some(ToBrowserView::WorkspaceAction(id, a)))
                }
            },
        }
    }
}

/// The watch of workspace `id` has ended. A started workspace is no longer
/// started and the client is told so; otherwise nothing changes and nothing is
/// sent.
pub open spec fn on_watch_ended(s: SessionView, id: Seq<char>) -> (
    SessionView,
    Option<ToBrowserView>,
) {
    match lookup_active(s.active, id) {
        Some(k) => (
            SessionView { active: s.active.remove(k), ..s },
            Some(ToBrowserView::WatchStopped(id)),
        ),
        None => (s, None),
    }
}

/// The client has gone: nothing is started any more and the session is closed.
pub open spec fn on_disconnect(s: SessionView) -> SessionView {
    SessionView { snapshot: s.snapshot, active: Seq::empty(), closed: true }
}

/// The position of the first workspace with this id.
pub fn find_workspace(ws: &Vec<Workspace>, id: &String) -> (r: Option<usize>)
    ensures
        match r {
            Some(i) => lookup_workspace(workspaces_view(ws@), id@) == Some(i as int),
            None => lookup_workspace(workspaces_view(ws@), id@) is None,
        },
{
    let ghost v = workspaces_view(ws@);
    let mut i: usize = 0;
    while i < ws.len()
        invariant
            i <= ws.len(),
            v == workspaces_view(ws@),
            forall|j: int| 0 <= j < i ==> (#[trigger] v[j]).id != id@,
        decreases ws.len() - i,
    {
        if ws[i].id.eq(id) {
            assert(first_workspace(v, id@, i as int));
            assert forall|c: int| first_workspace(v, id@, c) implies c == i by {
                if c < i {
                    assert(v[c].id != id@);
                } else if c > i {
                    assert(v[i as int].id != id@);
                }
            }
            return Some(i);
        }
        i += 1;
    }
    assert(!exists|c: int| first_workspace(v, id@, c)) by {
        if exists|c: int| first_workspace(v, id@, c) {
            let c = choose|c: int| first_workspace(v, id@, c);
            assert(v[c].id == id@);
        }
    }
    None
}

/// The position of the first started workspace with this id.
fn find_active(act: &Vec<ActiveWorkspace>, id: &String) -> (r: Option<usize>)
    ensures
        match r {
            Some(k) => lookup_active(actives_view(act@), id@) == Some(k as int),
            None => lookup_active(actives_view(act@), id@) is None,
        },
{
    let ghost v = actives_view(act@);
    let mut k: usize = 0;
    while k < act.len()
        invariant
            k <= act.len(),
            v == actives_view(act@),
            forall|j: int| 0 <= j < k ==> (#[trigger] v[j]).id != id@,
        decreases act.len() - k,
    {
        if act[k].id.eq(id) {
            assert(first_active(v, id@, k as int));
            assert forall|c: int| first_active(v, id@, c) implies c == k by {
                if c < k {
                    assert(v[c].id != id@);
                } else if c > k {
                    assert(v[k as int].id != id@);
                }
            }
            return Some(k);
        }
        k += 1;
    }
    assert(!exists|c: int| first_active(v, id@, c)) by {
        if exists|c: int| first_active(v, id@, c) {
            let c = choose|c: int| first_active(v, id@, c);
            assert(v[c].id == id@);
        }
    }
    None
}

impl Session {
    /// A new connection shown these workspaces: nothing started yet, and the
    /// message that lists them all.
    pub fn connect(workspaces: Vec<Workspace>) -> (r: (Session, ToBrowserMessage))
        ensures
            r.0@ == (SessionView {
                snapshot: workspaces_view(workspaces@),
                active: Seq::empty(),
                closed: false,
            }),
            r.1@ == ToBrowserView::AllWorkspaces(workspaces_view(workspaces@)),
    {
        let shown = duplicate_workspaces(&workspaces);
        let s = Session { workspaces, active: Vec::new(), closed: false };
        assert(actives_view(s.active@) =~= Seq::empty());
        (s, ToBrowserMessage::AllWorkspaces(shown))
    }

    /// Handles one client message, as [`on_message`] describes.
    pub fn handle_message(&mut self, m: &FromBrowserMessage) -> (r: SessionEffect)
        ensures
            (final(self)@, r@) == on_message(old(self)@, m@),
    {
        if self.closed {
            return SessionEffect::Nothing;
        }
        match m {
            FromBrowserMessage::StartWorkspace(id) => {
                match find_workspace(&self.workspaces, id) {
                    None => SessionEffect::Nothing,
                    Some(i) => {
                        let msg = ToBrowserMessage::LoadWorkspace(self.workspaces[i].to_api());
                        match find_active(&self.active, id) {
                            Some(_) => SessionEffect::Send(msg),
                            None => {
                                let ghost before = self.active@;
                                self.active.push(ActiveWorkspace { id: id.clone(), pending: None });
                                assert(actives_view(self.active@) =~= actives_view(before).push(
                                    ActiveView { id: id@, pending: None },
                                ));
                                SessionEffect::SendAndWatch(
                                    msg,
                                    id.clone(),
                                    self.workspaces[i].path.clone(),
                                )
                            },
                        }
                    },
                }
            },
            FromBrowserMessage::WorkspaceAction(id, a) => {
                match find_workspace(&self.workspaces, id) {
                    None => SessionEffect::Nothing,
                    Some(i) => match find_active(&self.active, id) {
                        None => SessionEffect::Nothing,
                        Some(k) => {
                            let ghost before = self.active@;
                            let entry = ActiveWorkspace { id: id.clone(), pending: Some(a.duplicate()) };
                            self.active.set(k, entry);
                            assert(actives_view(self.active@) =~= actives_view(before).update(
                                k as int,
                                ActiveView { id: id@, pending: Some(a@) },
                            ));
                            SessionEffect::ApplyToDisk(self.workspaces[i].path.clone(), a.duplicate())
                        },
                    },
                }
            },
        }
    }

    /// Handles one action seen on disk by the watch of workspace `id`, as
    /// [`on_watch`] describes: the message to forward, if any.
    pub fn watch_event(&mut self, id: &String, a: &WorkspaceAction) -> (r: Option<ToBrowserMessage>)
        ensures
            (final(self)@, match r {
                Some(m) => Some(m@),
                None => None,
            }) == on_watch(old(self)@, id@, a@),
    {
        if self.closed {
            return None;
        }
        match find_active(&self.active, id) {
            None => None,
            Some(k) => {
                let echo = match &self.active[k].pending {
                    Some(p) => p.same_as(a),
                    None => false,
                };
                let ghost act_before = self.active@;
                self.active.set(k, ActiveWorkspace { id: id.clone(), pending: None });
                assert(actives_view(self.active@) =~= actives_view(act_before).update(
                    k as int,
                    ActiveView { id: id@, pending: None },
                ));
                let ghost ws_before = self.workspaces@;
                match find_workspace(&self.workspaces, id) {
                    Some(i) => {
                        let mut w = self.workspaces[i].duplicate();
                        w.apply_action(a);
                        self.workspaces.set(i, w);
                        assert(workspaces_view(self.workspaces@) =~= workspaces_view(
                            ws_before,
                        ).update(
                            i as int,
                            WorkspaceView {
                                tabs: apply_to_tabs(workspaces_view(ws_before)[i as int].tabs, a@),
                                ..workspaces_view(ws_before)[i as int]
                            },
                        ));
                    },
                    None => {},
                }
                if echo {
                    None
                } else {
                    Some(ToBrowserMessage::WorkspaceAction(id.clone(), a.duplicate()))
                }
            },
        }
    }

    /// The watch of workspace `id` has ended, as [`on_watch_ended`] describes:
    /// the message to send, if any.
    pub fn watch_ended(&mut self, id: &String) -> (r: Option<ToBrowserMessage>)
        ensures
            (final(self)@, match r {
                Some(m) => Some(m@),
                None => None,
            }) == on_watch_ended(old(self)@, id@),
    {
        match find_active(&self.active, id) {
            Some(k) => {
                let ghost before = self.active@;
                self.active.remove(k);
                assert(actives_view(self.active@) =~= actives_view(before).remove(k as int));
                Some(ToBrowserMessage::WatchStopped(id.clone()))
            },
            None => None,
        }
    }

    /// The client has gone: closes the session and returns the ids of the
    /// workspaces whose watches are to be stopped.
    pub fn disconnect(&mut self) -> (r: Vec<String>)
        ensures
            final(self)@ == on_disconnect(old(self)@),
            r@.len() == old(self)@.active.len(),
            forall|k: int| 0 <= k < r@.len() ==> (#[trigger] r@[k])@ == old(self)@.active[k].id,
    {
        let mut ids: Vec<String> = Vec::new();
        let mut k: usize = 0;
        while k < self.active.len()
            invariant
                k <= self.active.len(),
                ids@.len() == k,
                forall|j: int| 0 <= j < k ==> (#[trigger] ids@[j])@ == self.active@[j].id@,
            decreases self.active.len() - k,
        {
            ids.push(self.active[k].id.clone());
            k += 1;
        }
        self.active = Vec::new();
        self.closed = true;
        assert(actives_view(self.active@) =~= Seq::empty());
        ids
    }

    /// The workspaces as the session now knows them.
    pub fn workspaces(&self) -> (r: Vec<Workspace>)
        ensures
            workspaces_view(r@) == self@.snapshot,
    {
        duplicate_workspaces(&self.workspaces)
    }

    /// Whether the client has gone.
    pub fn is_closed(&self) -> (r: bool)
        ensures
            r == self@.closed,
    {
        self.closed
    }
}

} // verus!
