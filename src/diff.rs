use vstd::prelude::*;
use crate::model::{ActionView, Tab, TabView, WorkspaceAction, tabs_view};
use crate::tabs::{contains_tab, has_tab};

verus! {

pub open spec fn actions_view(v: Seq<WorkspaceAction>) -> Seq<ActionView> {
    v.map_values(|a: WorkspaceAction| a@)
}

/// `i` is the first position of a tab with this name.
pub open spec fn first_tab(tabs: Seq<TabView>, name: Seq<char>, i: int) -> bool {
    &&& 0 <= i < tabs.len()
    &&& tabs[i].name == name
    &&& forall|j: int| 0 <= j < i ==> (#[trigger] tabs[j]).name != name
}

/// The first position of a tab with this name, if there is one.
pub open spec fn lookup_tab(tabs: Seq<TabView>, name: Seq<char>) -> Option<int> {
    if exists|i: int| first_tab(tabs, name, i) {
        Some(choose|i: int| first_tab(tabs, name, i))
    } else {
        None
    }
}

/// `seq![a]` when `c` holds, else nothing.
pub open spec fn one_if(c: bool, a: ActionView) -> Seq<ActionView> {
    if c {
        seq![a]
    } else {
        Seq::empty()
    }
}

/// The actions that bring tab `t` about, given the tabs there were before: a
/// new name is created, then given its url if that is not empty, then opened
/// if it is open; a known name gets its url changed and is opened or closed
/// where those differ from the first tab of that name before.
pub open spec fn tab_changes(before: Seq<TabView>, t: TabView) -> Seq<ActionView> {
    match lookup_tab(before, t.name) {
        None => seq![ActionView::CreateTab(t.name)] + one_if(
            t.url.len() > 0,
            ActionView::ChangeTabUrl(t.name, t.url),
        ) + one_if(t.is_open, ActionView::OpenTab(t.name)),
        Some(i) => one_if(before[i].url != t.url, ActionView::ChangeTabUrl(t.name, t.url))
            + if before[i].is_open == t.is_open {
            Seq::empty()
        } else if t.is_open {
            seq![ActionView::OpenTab(t.name)]
        } else {
            seq![ActionView::CloseTab(t.name)]
        },
    }
}

/// A `RemoveTab` for each earlier tab, in order, whose name is gone.
pub open spec fn removals(before: Seq<TabView>, after: Seq<TabView>) -> Seq<ActionView>
    decreases before.len(),
{
    if before.len() == 0 {
        Seq::empty()
    } else {
        removals(before.drop_last(), after) + one_if(
            !has_tab(after, before.last().name),
            ActionView::RemoveTab(before.last().name),
        )
    }
}

/// The changes of each later tab, in order.
pub open spec fn additions(before: Seq<TabView>, after: Seq<TabView>) -> Seq<ActionView>
    decreases after.len(),
{
    if after.len() == 0 {
        Seq::empty()
    } else {
        additions(before, after.drop_last()) + tab_changes(before, after.last())
    }
}

/// The actions that describe how the tabs went from `before` to `after`: the
/// removals first, then the changes of each later tab.
pub open spec fn changes_between(before: Seq<TabView>, after: Seq<TabView>) -> Seq<ActionView> {
    removals(before, after) + additions(before, after)
}

/// The position of the first tab with this name.
fn find_tab(tabs: &Vec<Tab>, name: &String) -> (r: Option<usize>)
    ensures
        match r {
            Some(i) => lookup_tab(tabs_view(tabs@), name@) == Some(i as int),
            None => lookup_tab(tabs_view(tabs@), name@) is None,
        },
{
    let ghost v = tabs_view(tabs@);
    let mut i: usize = 0;
    while i < tabs.len()
        invariant
            i <= tabs.len(),
            v == tabs_view(tabs@),
            forall|j: int| 0 <= j < i ==> (#[trigger] v[j]).name != name@,
        decreases tabs.len() - i,
    {
        if tabs[i].name.eq(name) {
            assert(first_tab(v, name@, i as int));
            assert forall|c: int| first_tab(v, name@, c) implies c == i by {
                if c < i {
                    assert(v[c].name != name@);
                } else if c > i {
                    assert(v[i as int].name != name@);
                }
            }
            return Some(i);
        }
        i += 1;
    }
    assert(!exists|c: int| first_tab(v, name@, c)) by {
        if exists|c: int| first_tab(v, name@, c) {
            let c = choose|c: int| first_tab(v, name@, c);
            assert(v[c].name == name@);
        }
    }
    None
}

/// Appends the actions that bring tab `t` about.
fn push_tab_changes(before: &Vec<Tab>, t: &Tab, out: &mut Vec<WorkspaceAction>)
    ensures
        actions_view(final(out)@) == actions_view(old(out)@) + tab_changes(tabs_view(before@), t@),
{
    let ghost start = actions_view(out@);
    match find_tab(before, &t.name) {
        None => {
            out.push(WorkspaceAction::CreateTab(t.name.clone()));
            if !t.url.as_str().is_empty() {
                out.push(WorkspaceAction::ChangeTabUrl(t.name.clone(), t.url.clone()));
            }
            if t.is_open {
                out.push(WorkspaceAction::OpenTab(t.name.clone()));
            }
            assert(actions_view(out@) =~= start + tab_changes(tabs_view(before@), t@));
        },
        Some(i) => {
            let b = &before[i];
            if !b.url.eq(&t.url) {
                out.push(WorkspaceAction::ChangeTabUrl(t.name.clone(), t.url.clone()));
            }
            if b.is_open != t.is_open {
                if t.is_open {
                    out.push(WorkspaceAction::OpenTab(t.name.clone()));
                } else {
                    out.push(WorkspaceAction::CloseTab(t.name.clone()));
                }
            }
            assert(actions_view(out@) =~= start + tab_changes(tabs_view(before@), t@));
        },
    }
}

/// The actions that describe how the tabs went from `before` to `after`, as
/// [`changes_between`] states.
pub fn diff_tabs(before: &Vec<Tab>, after: &Vec<Tab>) -> (r: Vec<WorkspaceAction>)
    ensures
        actions_view(r@) == changes_between(tabs_view(before@), tabs_view(after@)),
{
    let ghost bv = tabs_view(before@);
    let ghost av = tabs_view(after@);
    let mut out: Vec<WorkspaceAction> = Vec::new();
    let mut i: usize = 0;
    assert(actions_view(out@) =~= removals(bv.take(0), av));
    while i < before.len()
        invariant
            i <= before.len(),
            bv == tabs_view(before@),
            av == tabs_view(after@),
            actions_view(out@) == removals(bv.take(i as int), av),
        decreases before.len() - i,
    {
        let ghost prev = actions_view(out@);
        assert(bv.take(i + 1).drop_last() =~= bv.take(i as int));
        assert(bv.take(i + 1).last() == before@[i as int]@);
        if !contains_tab(after, &before[i].name) {
            out.push(WorkspaceAction::RemoveTab(before[i].name.clone()));
        }
        assert(actions_view(out@) =~= removals(bv.take(i + 1), av));
        i += 1;
    }
    assert(bv.take(before.len() as int) =~= bv);
    let ghost removed = actions_view(out@);
    let mut j: usize = 0;
    assert(actions_view(out@) =~= removed + additions(bv, av.take(0)));
    while j < after.len()
        invariant
            j <= after.len(),
            bv == tabs_view(before@),
            av == tabs_view(after@),
            actions_view(out@) == removed + additions(bv, av.take(j as int)),
        decreases after.len() - j,
    {
        assert(av.take(j + 1).drop_last() =~= av.take(j as int));
        assert(av.take(j + 1).last() == after@[j as int]@);
        push_tab_changes(before, &after[j], &mut out);
        assert(actions_view(out@) =~= removed + additions(bv, av.take(j + 1)));
        j += 1;
    }
    assert(av.take(after.len() as int) =~= av);
    out
}

} // verus!
