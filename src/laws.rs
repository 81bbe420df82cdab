use vstd::prelude::*;
use crate::model::{ActionView, FromBrowserView, TabView, ToBrowserView};
use crate::session::{
    ActiveView, EffectView, SessionView, first_active, load_message, lookup_active,
    lookup_workspace, on_disconnect, on_message, on_watch,
};
use crate::tabs::{apply_to_tabs, fresh_tab, has_tab, lemma_without_absent};

verus! {

/// If some started workspace has this id, a first one has it.
proof fn lemma_first_active_exists(act: Seq<ActiveView>, id: Seq<char>, k: int)
    requires
        0 <= k < act.len(),
        act[k].id == id,
    ensures
        exists|c: int| first_active(act, id, c),
    decreases k,
{
    if forall|j: int| 0 <= j < k ==> (#[trigger] act[j]).id != id {
        assert(first_active(act, id, k));
    } else {
        let j = choose|j: int| 0 <= j < k && (#[trigger] act[j]).id != id == false;
        lemma_first_active_exists(act, id, j);
    }
}

/// The first started workspace with an id stays first when its entry is
/// replaced by one with the same id.
proof fn lemma_lookup_active_update(act: Seq<ActiveView>, id: Seq<char>, k: int, e: ActiveView)
    requires
        lookup_active(act, id) == Some(k),
        e.id == id,
    ensures
        lookup_active(act.update(k, e), id) == Some(k),
{
    assert(first_active(act, id, k));
    let up = act.update(k, e);
    assert(first_active(up, id, k));
    assert forall|c: int| first_active(up, id, c) implies c == k by {
        if c < k {
            assert(up[c].id == act[c].id);
        } else if c > k {
            assert(up[k].id == id);
        }
    }
}

/// A request that names a workspace the session was not shown changes nothing
/// and does nothing, whether it starts the workspace or acts on it.
pub proof fn law_unknown_id_is_ignored(s: SessionView, id: Seq<char>, a: ActionView)
    requires
        lookup_workspace(s.snapshot, id) is None,
    ensures
        on_message(s, FromBrowserView::StartWorkspace(id)) == (s, EffectView::Nothing),
        on_message(s, FromBrowserView::WorkspaceAction(id, a)) == (s, EffectView::Nothing),
{
}

/// Before a known workspace is started no change of it is forwarded; starting
/// it sends its load message, once, together with the order to watch it, and
/// from then on it counts as started.
pub proof fn law_load_before_actions(s: SessionView, id: Seq<char>, a: ActionView)
    requires
        !s.closed,
        lookup_workspace(s.snapshot, id) is Some,
        lookup_active(s.active, id) is None,
    ensures
        on_watch(s, id, a) == (s, None::<ToBrowserView>),
        ({
            let i = lookup_workspace(s.snapshot, id)->Some_0;
            let (next, effect) = on_message(s, FromBrowserView::StartWorkspace(id));
            &&& effect == EffectView::SendAndWatch(load_message(s, i), id, s.snapshot[i].path)
            &&& lookup_active(next.active, id) == Some(s.active.len() as int)
            &&& next.snapshot == s.snapshot
        }),
{
    let act = s.active;
    let up = act.push(ActiveView { id, pending: None });
    let n = act.len() as int;
    assert forall|j: int| 0 <= j < n implies (#[trigger] act[j]).id != id by {
        if act[j].id == id {
            lemma_first_active_exists(act, id, j);
        }
    }
    assert(first_active(up, id, n)) by {
        assert forall|j: int| 0 <= j < n implies (#[trigger] up[j]).id != id by {
            assert(up[j] == act[j]);
        }
    }
    assert forall|c: int| first_active(up, id, c) implies c == n by {
        if c < n {
            assert(up[c] == act[c]);
        }
    }
}

/// Starting a known workspace in an open session sends exactly one message, the
/// load message of that workspace, whether or not it was started before, and
/// leaves it started.
pub proof fn law_start_sends_one_load(s: SessionView, id: Seq<char>)
    requires
        !s.closed,
        lookup_workspace(s.snapshot, id) is Some,
    ensures
        ({
            let i = lookup_workspace(s.snapshot, id)->Some_0;
            let (next, effect) = on_message(s, FromBrowserView::StartWorkspace(id));
            &&& effect == EffectView::Send(load_message(s, i)) || effect
                == EffectView::SendAndWatch(load_message(s, i), id, s.snapshot[i].path)
            &&& load_message(s, i) == ToBrowserView::LoadWorkspace(
                crate::model::api_view(s.snapshot[i]),
            )
            &&& lookup_active(next.active, id) is Some
            &&& next.snapshot == s.snapshot
        }),
{
    if lookup_active(s.active, id) is None {
        law_load_before_actions(s, id, ActionView::CreateTab(id));
    }
}

/// After the client acts on a started workspace, the first change its watch
/// reports that equals that action is the echo and is not forwarded, and the
/// change reported next, being a different one, is forwarded as it is.
pub proof fn law_echo_suppressed_once(
    s: SessionView,
    id: Seq<char>,
    a: ActionView,
    b: ActionView,
)
    requires
        !s.closed,
        lookup_workspace(s.snapshot, id) is Some,
        lookup_active(s.active, id) is Some,
        b != a,
    ensures
        ({
            let (s1, effect) = on_message(s, FromBrowserView::WorkspaceAction(id, a));
            let (s2, first) = on_watch(s1, id, a);
            let (s3, second) = on_watch(s2, id, b);
            &&& effect is ApplyToDisk
            &&& first is None
            &&& second == Some(ToBrowserView::WorkspaceAction(id, b))
        }),
{
    let k = lookup_active(s.active, id)->Some_0;
    let e1 = ActiveView { id, pending: Some(a) };
    lemma_lookup_active_update(s.active, id, k, e1);
    let s1 = on_message(s, FromBrowserView::WorkspaceAction(id, a)).0;
    let e2 = ActiveView { id, pending: None };
    lemma_lookup_active_update(s1.active, id, k, e2);
}

/// A change on disk that differs from the echo awaited for a started workspace
/// is always forwarded: suppression never hides a change the client did not make.
pub proof fn law_other_changes_forwarded(s: SessionView, id: Seq<char>, b: ActionView)
    requires
        !s.closed,
        lookup_active(s.active, id) is Some,
        s.active[lookup_active(s.active, id)->Some_0].pending != Some(b),
    ensures
        on_watch(s, id, b).1 == Some(ToBrowserView::WorkspaceAction(id, b)),
{
}

/// Once the client is gone, no change on disk is sent to it and no request does
/// anything.
pub proof fn law_nothing_after_disconnect(
    s: SessionView,
    id: Seq<char>,
    a: ActionView,
    m: FromBrowserView,
)
    ensures
        on_disconnect(s).active.len() == 0,
        on_watch(on_disconnect(s), id, a) == (on_disconnect(s), None::<ToBrowserView>),
        on_message(on_disconnect(s), m) == (on_disconnect(s), EffectView::Nothing),
{
}

/// Creating a tab whose name is free and then removing it leaves the tabs as
/// they were.
pub proof fn law_create_then_remove(tabs: Seq<TabView>, name: Seq<char>)
    requires
        !has_tab(tabs, name),
    ensures
        apply_to_tabs(
            apply_to_tabs(tabs, ActionView::CreateTab(name)),
            ActionView::RemoveTab(name),
        ) == tabs,
{
    let pushed = tabs.push(fresh_tab(name));
    assert(pushed.drop_last() =~= tabs);
    lemma_without_absent(tabs, name);
}

} // verus!
