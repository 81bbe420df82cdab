use vstd::prelude::*;

verus! {

/// A named URL slot of a workspace; the name identifies it among its siblings.
#[derive(Clone, Debug, PartialEq, Eq)]
pub struct Tab {
    pub name: String,
    pub url: String,
    pub is_open: bool,
}

/// The mathematical value of a [`Tab`].
pub struct TabView {
    pub name: Seq<char>,
    pub url: Seq<char>,
    pub is_open: bool,
}

impl View for Tab {
    type V = TabView;

    open spec fn view(&self) -> TabView {
        TabView { name: self.name@, url: self.url@, is_open: self.is_open }
    }
}

/// The values of a sequence of tabs.
pub open spec fn tabs_view(tabs: Seq<Tab>) -> Seq<TabView> {
    tabs.map_values(|t: Tab| t@)
}

/// A directory on disk mirrored as a list of tabs.
#[derive(Clone, Debug, PartialEq, Eq)]
pub struct Workspace {
    pub id: String,
    pub name: String,
    pub path: String,
    pub tabs: Vec<Tab>,
}

pub struct WorkspaceView {
    pub id: Seq<char>,
    pub name: Seq<char>,
    pub path: Seq<char>,
    pub tabs: Seq<TabView>,
}

impl View for Workspace {
    type V = WorkspaceView;

    open spec fn view(&self) -> WorkspaceView {
        WorkspaceView {
            id: self.id@,
            name: self.name@,
            path: self.path@,
            tabs: tabs_view(self.tabs@),
        }
    }
}

/// The values of a sequence of workspaces.
pub open spec fn workspaces_view(ws: Seq<Workspace>) -> Seq<WorkspaceView> {
    ws.map_values(|w: Workspace| w@)
}

/// What the client is shown of a workspace: everything but its path on disk.
#[derive(Clone, Debug, PartialEq, Eq)]
pub struct ApiWorkspace {
    pub id: String,
    pub name: String,
    pub tabs: Vec<Tab>,
}

pub struct ApiWorkspaceView {
    pub id: Seq<char>,
    pub name: Seq<char>,
    pub tabs: Seq<TabView>,
}

impl View for ApiWorkspace {
    type V = ApiWorkspaceView;

    open spec fn view(&self) -> ApiWorkspaceView {
        ApiWorkspaceView { id: self.id@, name: self.name@, tabs: tabs_view(self.tabs@) }
    }
}

/// The public part of a workspace.
pub open spec fn api_view(w: WorkspaceView) -> ApiWorkspaceView {
    ApiWorkspaceView { id: w.id, name: w.name, tabs: w.tabs }
}

/// One change to a workspace's tabs, used both for what a client asks and for
/// what is seen on disk.
#[derive(Clone, Debug, PartialEq, Eq)]
pub enum WorkspaceAction {
    OpenTab(String),
    CloseTab(String),
    /// Tab name, new url.
    ChangeTabUrl(String, String),
    CreateTab(String),
    RemoveTab(String),
}

pub enum ActionView {
    OpenTab(Seq<char>),
    CloseTab(Seq<char>),
    ChangeTabUrl(Seq<char>, Seq<char>),
    CreateTab(Seq<char>),
    RemoveTab(Seq<char>),
}

impl View for WorkspaceAction {
    type V = ActionView;

    open spec fn view(&self) -> ActionView {
        match self {
            WorkspaceAction::OpenTab(n) => ActionView::OpenTab(n@),
            WorkspaceAction::CloseTab(n) => ActionView::CloseTab(n@),
            WorkspaceAction::ChangeTabUrl(n, u) => ActionView::ChangeTabUrl(n@, u@),
            WorkspaceAction::CreateTab(n) => ActionView::CreateTab(n@),
            WorkspaceAction::RemoveTab(n) => ActionView::RemoveTab(n@),
        }
    }
}

/// A message sent to the client.
#[derive(Clone, Debug, PartialEq, Eq)]
pub enum ToBrowserMessage {
    AllWorkspaces(Vec<Workspace>),
    /// A change seen on disk in the started workspace with this id.
    WorkspaceAction(String, WorkspaceAction),
    LoadWorkspace(ApiWorkspace),
    /// The watch of the workspace with this id has stopped: no more changes of
    /// it will come until it is started again.
    WatchStopped(String),
}

pub enum ToBrowserView {
    AllWorkspaces(Seq<WorkspaceView>),
    WorkspaceAction(Seq<char>, ActionView),
    LoadWorkspace(ApiWorkspaceView),
    WatchStopped(Seq<char>),
}

impl View for ToBrowserMessage {
    type V = ToBrowserView;

    open spec fn view(&self) -> ToBrowserView {
        match self {
            ToBrowserMessage::AllWorkspaces(ws) => ToBrowserView::AllWorkspaces(
                workspaces_view(ws@),
            ),
            ToBrowserMessage::WorkspaceAction(id, a) => ToBrowserView::WorkspaceAction(id@, a@),
            ToBrowserMessage::LoadWorkspace(w) => ToBrowserView::LoadWorkspace(w@),
            ToBrowserMessage::WatchStopped(id) => ToBrowserView::WatchStopped(id@),
        }
    }
}

/// A message received from the client.
#[derive(Clone, Debug, PartialEq, Eq)]
pub enum FromBrowserMessage {
    /// The client wants the actions of this workspace from now on.
    StartWorkspace(String),
    WorkspaceAction(String, WorkspaceAction),
}

pub enum FromBrowserView {
    StartWorkspace(Seq<char>),
    WorkspaceAction(Seq<char>, ActionView),
}

impl View for FromBrowserMessage {
    type V = FromBrowserView;

    open spec fn view(&self) -> FromBrowserView {
        match self {
            FromBrowserMessage::StartWorkspace(id) => FromBrowserView::StartWorkspace(id@),
            FromBrowserMessage::WorkspaceAction(id, a) => FromBrowserView::WorkspaceAction(
                id@,
                a@,
            ),
        }
    }
}

impl Tab {
    /// A field-by-field copy.
    pub fn duplicate(&self) -> (r: Tab)
        ensures
            r@ == self@,
    {
        Tab { name: self.name.clone(), url: self.url.clone(), is_open: self.is_open }
    }
}

/// A copy of a list of tabs.
pub fn duplicate_tabs(tabs: &Vec<Tab>) -> (r: Vec<Tab>)
    ensures
        tabs_view(r@) == tabs_view(tabs@),
{
    let mut out: Vec<Tab> = Vec::new();
    let mut i: usize = 0;
    while i < tabs.len()
        invariant
            i <= tabs.len(),
            out@.len() == i,
            forall|j: int| 0 <= j < i ==> #[trigger] out@[j]@ == tabs@[j]@,
        decreases tabs.len() - i,
    {
        out.push(tabs[i].duplicate());
        i += 1;
    }
    assert(tabs_view(out@) =~= tabs_view(tabs@));
    out
}

impl Workspace {
    /// A copy of every field.
    pub fn duplicate(&self) -> (r: Workspace)
        ensures
            r@ == self@,
    {
        Workspace {
            id: self.id.clone(),
            name: self.name.clone(),
            path: self.path.clone(),
            tabs: duplicate_tabs(&self.tabs),
        }
    }

    /// The workspace as the client sees it, without its path.
    pub fn to_api(&self) -> (r: ApiWorkspace)
        ensures
            r@ == api_view(self@),
    {
        ApiWorkspace {
            id: self.id.clone(),
            name: self.name.clone(),
            tabs: duplicate_tabs(&self.tabs),
        }
    }
}

/// A copy of a list of workspaces.
pub fn duplicate_workspaces(ws: &Vec<Workspace>) -> (r: Vec<Workspace>)
    ensures
        workspaces_view(r@) == workspaces_view(ws@),
{
    let mut out: Vec<Workspace> = Vec::new();
    let mut i: usize = 0;
    while i < ws.len()
        invariant
            i <= ws.len(),
            out@.len() == i,
            forall|j: int| 0 <= j < i ==> #[trigger] out@[j]@ == ws@[j]@,
        decreases ws.len() - i,
    {
        out.push(ws[i].duplicate());
        i += 1;
    }
    assert(workspaces_view(out@) =~= workspaces_view(ws@));
    out
}

impl WorkspaceAction {
    /// A copy of the action.
    pub fn duplicate(&self) -> (r: WorkspaceAction)
        ensures
            r@ == self@,
    {
        match self {
            WorkspaceAction::OpenTab(n) => WorkspaceAction::OpenTab(n.clone()),
            WorkspaceAction::CloseTab(n) => WorkspaceAction::CloseTab(n.clone()),
            WorkspaceAction::ChangeTabUrl(n, u) => WorkspaceAction::ChangeTabUrl(
                n.clone(),
                u.clone(),
            ),
            WorkspaceAction::CreateTab(n) => WorkspaceAction::CreateTab(n.clone()),
            WorkspaceAction::RemoveTab(n) => WorkspaceAction::RemoveTab(n.clone()),
        }
    }

    /// The name of the tab the action is about.
    pub fn target(&self) -> (r: &String)
        ensures
            r@ == crate::tabs::action_target(self@),
    {
        match self {
            WorkspaceAction::OpenTab(n) => n,
            WorkspaceAction::CloseTab(n) => n,
            WorkspaceAction::ChangeTabUrl(n, _) => n,
            WorkspaceAction::CreateTab(n) => n,
            WorkspaceAction::RemoveTab(n) => n,
        }
    }

    /// Whether two actions are the same change.
    pub fn same_as(&self, other: &WorkspaceAction) -> (r: bool)
        ensures
            r == (self@ == other@),
    {
        match (self, other) {
            (WorkspaceAction::OpenTab(a), WorkspaceAction::OpenTab(b)) => a.eq(b),
            (WorkspaceAction::CloseTab(a), WorkspaceAction::CloseTab(b)) => a.eq(b),
            (WorkspaceAction::ChangeTabUrl(a, u), WorkspaceAction::ChangeTabUrl(b, v)) => a.eq(b)
                && u.eq(v),
            (WorkspaceAction::CreateTab(a), WorkspaceAction::CreateTab(b)) => a.eq(b),
            (WorkspaceAction::RemoveTab(a), WorkspaceAction::RemoveTab(b)) => a.eq(b),
            _ => false,
        }
    }
}

} // verus!
