use vstd::prelude::*;
use vstd::string::StrSliceExecFns;
use crate::model::{ActionView, Tab, TabView, Workspace, WorkspaceAction, tabs_view};

verus! {

/// Whether some tab carries this name.
pub open spec fn has_tab(tabs: Seq<TabView>, name: Seq<char>) -> bool {
    exists|i: int| 0 <= i < tabs.len() && (#[trigger] tabs[i]).name == name
}

/// The tab that `CreateTab(name)` adds: closed, with an empty url.
pub open spec fn fresh_tab(name: Seq<char>) -> TabView {
    TabView { name, url: Seq::empty(), is_open: false }
}

/// The tabs left once every tab with this name is taken out, in their order.
pub open spec fn without_tab(tabs: Seq<TabView>, name: Seq<char>) -> Seq<TabView>
    decreases tabs.len(),
{
    if tabs.len() == 0 {
        tabs
    } else {
        let rest = without_tab(tabs.drop_last(), name);
        if tabs.last().name == name {
            rest
        } else {
            rest.push(tabs.last())
        }
    }
}

/// The name of the tab that an action is about.
pub open spec fn action_target(a: ActionView) -> Seq<char> {
    match a {
        ActionView::OpenTab(n) => n,
        ActionView::CloseTab(n) => n,
        ActionView::ChangeTabUrl(n, _) => n,
        ActionView::CreateTab(n) => n,
        ActionView::RemoveTab(n) => n,
    }
}

/// What an action that edits a tab in place makes of the tab it targets.
pub open spec fn edit_tab(t: TabView, a: ActionView) -> TabView {
    match a {
        ActionView::OpenTab(_) => TabView { is_open: true, ..t },
        ActionView::CloseTab(_) => TabView { is_open: false, ..t },
        ActionView::ChangeTabUrl(_, u) => TabView { url: u, ..t },
        _ => t,
    }
}

/// A tab after an in-place edit: changed if it is the action's target.
pub open spec fn edit_if_target(t: TabView, a: ActionView) -> TabView {
    if t.name == action_target(a) {
        edit_tab(t, a)
    } else {
        t
    }
}

/// The tabs after an action: `CreateTab` appends a fresh tab unless the name is
/// taken, `RemoveTab` drops the tabs of that name, and the others edit every
/// tab of that name, leaving the rest as they were.
pub open spec fn apply_to_tabs(tabs: Seq<TabView>, a: ActionView) -> Seq<TabView> {
    match a {
        ActionView::CreateTab(n) => if has_tab(tabs, n) {
            tabs
        } else {
            tabs.push(fresh_tab(n))
        },
        ActionView::RemoveTab(n) => without_tab(tabs, n),
        _ => tabs.map_values(|t: TabView| edit_if_target(t, a)),
    }
}

/// Removing a name that no tab carries changes nothing.
pub proof fn lemma_without_absent(tabs: Seq<TabView>, name: Seq<char>)
    requires
        !has_tab(tabs, name),
    ensures
        without_tab(tabs, name) == tabs,
    decreases tabs.len(),
{
    if tabs.len() > 0 {
        let init = tabs.drop_last();
        assert(!has_tab(init, name)) by {
            if has_tab(init, name) {
                let i = choose|i: int| 0 <= i < init.len() && (#[trigger] init[i]).name == name;
                assert(tabs[i].name == name);
            }
        }
        lemma_without_absent(init, name);
        assert(tabs.last().name != name) by {
            assert(tabs[tabs.len() - 1].name == tabs.last().name);
        }
        assert(init.push(tabs.last()) =~= tabs);
    }
}

/// Whether some tab of the list carries this name.
pub fn contains_tab(tabs: &Vec<Tab>, name: &String) -> (r: bool)
    ensures
        r == has_tab(tabs_view(tabs@), name@),
{
    let mut i: usize = 0;
    while i < tabs.len()
        invariant
            i <= tabs.len(),
            forall|j: int| 0 <= j < i ==> (#[trigger] tabs@[j]).name@ != name@,
        decreases tabs.len() - i,
    {
        if tabs[i].name.eq(name) {
            assert(tabs_view(tabs@)[i as int].name == name@);
            return true;
        }
        i += 1;
    }
    assert(!has_tab(tabs_view(tabs@), name@)) by {
        if has_tab(tabs_view(tabs@), name@) {
            let k = choose|k: int|
                0 <= k < tabs_view(tabs@).len() && (#[trigger] tabs_view(tabs@)[k]).name
                    == name@;
            assert(tabs@[k].name@ == name@);
        }
    }
    false
}

/// The tabs with every tab of this name left out.
fn remove_tabs_named(tabs: &Vec<Tab>, name: &String) -> (r: Vec<Tab>)
    ensures
        tabs_view(r@) == without_tab(tabs_view(tabs@), name@),
{
    let mut out: Vec<Tab> = Vec::new();
    let mut i: usize = 0;
    while i < tabs.len()
        invariant
            i <= tabs.len(),
            tabs_view(out@) == without_tab(tabs_view(tabs@).take(i as int), name@),
        decreases tabs.len() - i,
    {
        let ghost before = tabs_view(tabs@).take(i as int);
        let ghost after = tabs_view(tabs@).take(i + 1);
        assert(after.drop_last() =~= before);
        assert(after.last() == tabs@[i as int]@);
        if !tabs[i].name.eq(name) {
            let t = tabs[i].duplicate();
            out.push(t);
            assert(tabs_view(out@) =~= without_tab(before, name@).push(t@));
        }
        i += 1;
    }
    assert(tabs_view(tabs@).take(tabs.len() as int) =~= tabs_view(tabs@));
    out
}

/// The tabs with each tab of the action's target name edited by the action.
fn edit_tabs_named(tabs: &Vec<Tab>, action: &WorkspaceAction) -> (r: Vec<Tab>)
    requires
        !(action is CreateTab),
        !(action is RemoveTab),
    ensures
        tabs_view(r@) == apply_to_tabs(tabs_view(tabs@), action@),
{
    let name = action.target();
    let mut out: Vec<Tab> = Vec::new();
    let mut i: usize = 0;
    while i < tabs.len()
        invariant
            i <= tabs.len(),
            name@ == action_target(action@),
            out@.len() == i,
            forall|j: int| 0 <= j < i ==> #[trigger] out@[j]@ == edit_if_target(tabs@[j]@, action@),
        decreases tabs.len() - i,
    {
        let ghost old_out = out@;
        let t = &tabs[i];
        let edited = if t.name.eq(name) {
            match action {
                WorkspaceAction::OpenTab(_) => Tab {
                    name: t.name.clone(),
                    url: t.url.clone(),
                    is_open: true,
                },
                WorkspaceAction::CloseTab(_) => Tab {
                    name: t.name.clone(),
                    url: t.url.clone(),
                    is_open: false,
                },
                WorkspaceAction::ChangeTabUrl(_, u) => Tab {
                    name: t.name.clone(),
                    url: u.clone(),
                    is_open: t.is_open,
                },
                _ => t.duplicate(),
            }
        } else {
            t.duplicate()
        };
        assert(t@ == tabs@[i as int]@);
        assert(t.name@ == name@ ==> edited@ == edit_tab(t@, action@));
        assert(t.name@ != name@ ==> edited@ == t@);
        assert(edited@ == edit_if_target(tabs@[i as int]@, action@));
        out.push(edited);
        assert(forall|j: int| 0 <= j < i ==> out@[j] == old_out[j]);
        i += 1;
    }
    assert(tabs_view(out@) =~= tabs_view(tabs@).map_values(|t: TabView| edit_if_target(t, action@)));
    out
}

/// The tabs after an action, as [`apply_to_tabs`] describes.
pub fn apply_to_tab_list(tabs: &Vec<Tab>, action: &WorkspaceAction) -> (r: Vec<Tab>)
    ensures
        tabs_view(r@) == apply_to_tabs(tabs_view(tabs@), action@),
{
    match action {
        WorkspaceAction::CreateTab(n) => {
            let mut out = crate::model::duplicate_tabs(tabs);
            if !contains_tab(tabs, n) {
                let t = Tab { name: n.clone(), url: String::new(), is_open: false };
                out.push(t);
                assert(tabs_view(out@) =~= tabs_view(tabs@).push(fresh_tab(n@)));
            }
            out
        },
        WorkspaceAction::RemoveTab(n) => remove_tabs_named(tabs, n),
        _ => edit_tabs_named(tabs, action),
    }
}

impl Workspace {
    /// Applies an action to the workspace's tabs; the other fields stay.
    pub fn apply_action(&mut self, action: &WorkspaceAction)
        ensures
            final(self)@.tabs == apply_to_tabs(old(self)@.tabs, action@),
            final(self)@.id == old(self)@.id,
            final(self)@.name == old(self)@.name,
            final(self)@.path == old(self)@.path,
    {
        self.tabs = apply_to_tab_list(&self.tabs, action);
    }
}

/// A name that can stand as one directory of a workspace: not empty, not `.`
/// or `..`, and without a path separator or a NUL.
pub open spec fn safe_tab_name(name: Seq<char>) -> bool {
    &&& name.len() > 0
    &&& name != seq!['.']
    &&& name != seq!['.', '.']
    &&& forall|i: int| 0 <= i < name.len() ==> #[trigger] name[i] != '/' && name[i] != '\\'
        && name[i] != '\0'
}

/// Whether the name is safe to use as a tab directory, as [`safe_tab_name`]
/// states.
pub fn is_safe_tab_name(name: &str) -> (r: bool)
    ensures
        r == safe_tab_name(name@),
{
    let n = name.unicode_len();
    if n == 0 {
        return false;
    }
    let mut i: usize = 0;
    let mut dots: usize = 0;
    while i < n
        invariant
            n == name@.len(),
            i <= n,
            dots <= i,
            dots == i <==> forall|j: int| 0 <= j < i ==> name@[j] == '.',
            forall|j: int| 0 <= j < i ==> #[trigger] name@[j] != '/' && name@[j] != '\\'
                && name@[j] != '\0',
        decreases n - i,
    {
        let c = name.get_char(i);
        if c == '/' || c == '\\' || c == '\0' {
            return false;
        }
        if c == '.' && dots == i {
            dots = dots + 1;
        }
        i += 1;
    }
    if dots == n && n <= 2 {
        assert(name@ =~= seq!['.'] || name@ =~= seq!['.', '.']);
        false
    } else {
        assert(name@ != seq!['.']) by {
            if name@ == seq!['.'] {
                assert(forall|j: int| 0 <= j < n ==> name@[j] == '.');
            }
        }
        assert(name@ != seq!['.', '.']) by {
            if name@ == seq!['.', '.'] {
                assert(forall|j: int| 0 <= j < n ==> name@[j] == '.');
            }
        }
        true
    }
}

} // verus!
