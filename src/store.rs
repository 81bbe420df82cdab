use vstd::prelude::*;
use crate::model::{Workspace, WorkspaceAction, WorkspaceView, duplicate_workspaces, workspaces_view};
use crate::session::{find_workspace, first_workspace, lookup_workspace, snapshot_after};
use crate::tabs::apply_to_tabs;

verus! {

/// No two workspaces share an id.
pub open spec fn ids_unique(ws: Seq<WorkspaceView>) -> bool {
    forall|i: int, j: int|
        0 <= i < ws.len() && 0 <= j < ws.len() && i != j ==> (#[trigger] ws[i]).id != (
        #[trigger] ws[j]).id
}

/// The registry of known workspaces. Ids are unique within it.
pub struct WorkspaceStore {
    workspaces: Vec<Workspace>,
}

impl View for WorkspaceStore {
    type V = Seq<WorkspaceView>;

    closed spec fn view(&self) -> Seq<WorkspaceView> {
        workspaces_view(self.workspaces@)
    }
}

impl WorkspaceStore {
    pub open spec fn wf(&self) -> bool {
        ids_unique(self@)
    }

    /// An empty registry.
    pub fn new() -> (r: WorkspaceStore)
        ensures
            r@ == Seq::<WorkspaceView>::empty(),
            r.wf(),
    {
        let r = WorkspaceStore { workspaces: Vec::new() };
        assert(r@ =~= Seq::<WorkspaceView>::empty());
        r
    }

    /// Adds a discovered workspace at the end, unless its id is already taken;
    /// returns whether it was added.
    pub fn add_workspace(&mut self, w: Workspace) -> (added: bool)
        requires
            old(self).wf(),
        ensures
            final(self).wf(),
            added == (lookup_workspace(old(self)@, w@.id) is None),
            added ==> final(self)@ == old(self)@.push(w@),
            !added ==> final(self)@ == old(self)@,
    {
        match find_workspace(&self.workspaces, &w.id) {
            Some(_) => false,
            None => {
                let ghost before = self@;
                let ghost wv = w@;
                proof {
                    assert forall|j: int| 0 <= j < before.len() implies (#[trigger] before[j]).id
                        != wv.id by {
                        if before[j].id == wv.id {
                            lemma_first_workspace_exists(before, wv.id, j);
                        }
                    }
                }
                self.workspaces.push(w);
                assert(self@ =~= before.push(wv));
                true
            },
        }
    }

    /// A copy of every workspace, in the order they were added.
    pub fn get_all_workspaces(&self) -> (r: Vec<Workspace>)
        ensures
            workspaces_view(r@) == self@,
    {
        duplicate_workspaces(&self.workspaces)
    }

    /// A copy of the workspace with this id, if there is one.
    pub fn find(&self, id: &String) -> (r: Option<Workspace>)
        ensures
            match r {
                Some(w) => lookup_workspace(self@, id@) is Some && w@ == self@[lookup_workspace(
                    self@,
                    id@,
                )->Some_0],
                None => forall|i: int| 0 <= i < self@.len() ==> (#[trigger] self@[i]).id != id@,
            },
    {
        match find_workspace(&self.workspaces, id) {
            Some(i) => Some(self.workspaces[i].duplicate()),
            None => {
                proof {
                    assert forall|i: int| 0 <= i < self@.len() implies (#[trigger] self@[i]).id
                        != id@ by {
                        if self@[i].id == id@ {
                            lemma_first_workspace_exists(self@, id@, i);
                        }
                    }
                }
                None
            },
        }
    }

    /// Takes in a change seen on disk: the tabs of the workspace with this id
    /// get the action applied; an unknown id changes nothing.
    pub fn apply_action(&mut self, id: &String, a: &WorkspaceAction)
        requires
            old(self).wf(),
        ensures
            final(self).wf(),
            final(self)@ == snapshot_after(old(self)@, id@, a@),
    {
        let ghost before = self@;
        match find_workspace(&self.workspaces, id) {
            Some(i) => {
                let mut w = self.workspaces[i].duplicate();
                w.apply_action(a);
                self.workspaces.set(i, w);
                assert(self@ =~= before.update(
                    i as int,
                    WorkspaceView { tabs: apply_to_tabs(before[i as int].tabs, a@), ..before[i as int] },
                ));
            },
            None => {},
        }
    }

    /// How many workspaces are known.
    pub fn len(&self) -> (r: usize)
        ensures
            r == self@.len(),
    {
        self.workspaces.len()
    }
}

/// If some workspace has this id, a first one has it.
pub proof fn lemma_first_workspace_exists(ws: Seq<WorkspaceView>, id: Seq<char>, k: int)
    requires
        0 <= k < ws.len(),
        ws[k].id == id,
    ensures
        exists|c: int| first_workspace(ws, id, c),
    decreases k,
{
    if forall|j: int| 0 <= j < k ==> (#[trigger] ws[j]).id != id {
        assert(first_workspace(ws, id, k));
    } else {
        let j = choose|j: int| 0 <= j < k && (#[trigger] ws[j]).id != id == false;
        lemma_first_workspace_exists(ws, id, j);
    }
}

} // verus!
