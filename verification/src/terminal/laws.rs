//! What holds of the terminal panel whatever happens to it.
use vstd::prelude::*;

use crate::seqs::{first_at_is, first_at_props};
use crate::terminal::panel::{
    agent_added, at_least, close_call, ensured, has_agent, has_pty, input_tab, keyed_by, open_call,
    output_call, queued, reordered, resize_call, shell_added, subscribe_call, tab_closed, tab_ix, tab_of,
    tab_set, tabs_for, tabs_moved, turned, wants_shell, write_call, PanelView, TabView, TabsView,
};
use crate::terminal::tabs::TabKind;
use crate::wire::{target_name, Call, ValueView};

verus! {

/// The agent's tab stands in the first slot or nowhere.
pub open spec fn pinned(tabs: Seq<TabView>) -> bool {
    forall|i: int| 0 <= i < tabs.len() && (#[trigger] tabs[i]).kind == TabKind::Agent ==> i == 0
}

/// The keys of the tabs are distinct, and none is larger than `limit`.
pub open spec fn distinct_keys(tabs: Seq<TabView>, limit: u64) -> bool {
    &&& forall|i: int| 0 <= i < tabs.len() ==> (#[trigger] tabs[i]).key <= limit
    &&& forall|i: int, j: int|
        0 <= i < tabs.len() && 0 <= j < tabs.len() && (#[trigger] tabs[i]).key == (
        #[trigger] tabs[j]).key ==> i == j
}

/// The active index names a tab; it is zero when there is none.
pub open spec fn in_range(t: TabsView) -> bool {
    t.active < t.tabs.len() || (t.tabs.len() == 0 && t.active == 0)
}

/// A chat's tabs are in order.
pub open spec fn orderly(t: TabsView, limit: u64) -> bool {
    pinned(t.tabs) && distinct_keys(t.tabs, limit) && in_range(t) && t.tabs.len() < usize::MAX
}

/// Every chat's tabs are in order.
pub open spec fn all_orderly(p: PanelView) -> bool {
    forall|chat: Seq<char>| #[trigger] p.chats.contains_key(chat) ==> orderly(p.chats[chat], p.tab_seq)
}

proof fn orderly_for(p: PanelView, chat: Seq<char>)
    requires
        all_orderly(p),
    ensures
        orderly(tabs_for(p, chat), p.tab_seq),
{
}

/// The first tab is the agent's, and no other is.
pub open spec fn agent_first(tabs: Seq<TabView>) -> bool {
    &&& has_agent(tabs)
    &&& forall|i: int| 1 <= i < tabs.len() ==> (#[trigger] tabs[i]).kind == TabKind::Pty
}

/// A chat of shells alone, or of none, gets the agent's tab, and gets it first.
pub proof fn the_agents_tab_is_made_first(p: PanelView, chat: Seq<char>)
    requires
        forall|i: int|
            0 <= i < tabs_for(p, chat).tabs.len() ==> (#[trigger] tabs_for(p, chat).tabs[i]).kind
                == TabKind::Pty,
    ensures
        agent_first(tabs_for(agent_added(p, chat), chat).tabs),
{
    let before = tabs_for(p, chat).tabs;
    let now = tabs_for(agent_added(p, chat), chat).tabs;
    if has_agent(before) {
        assert(before[0].kind == TabKind::Pty);
    }
    assert forall|i: int| 1 <= i < now.len() implies (#[trigger] now[i]).kind == TabKind::Pty by {
        assert(now[i] == before[i - 1]);
    }
}

/// The agent's tab is pinned: it is made once, and asking for it again, opening a
/// shell, closing one and dropping one, wherever it is dropped, leave it in the
/// first slot as the only one of its kind.
pub proof fn the_agents_tab_stays_first(
    p: PanelView,
    chat: Seq<char>,
    key: u64,
    from: usize,
    over: usize,
)
    requires
        agent_first(tabs_for(p, chat).tabs),
    ensures
        agent_added(p, chat) == p,
        agent_first(tabs_for(shell_added(p, chat), chat).tabs),
        tabs_for(shell_added(p, chat), chat).tabs[0] == tabs_for(p, chat).tabs[0],
        ({
            let t = tabs_for(p, chat);
            let closed = tab_closed(t, tab_ix(t.tabs, key)).tabs;
            tab_of(p, chat, key) is Some && tab_of(p, chat, key)->0.kind == TabKind::Pty
                ==> agent_first(closed) && closed[0] == t.tabs[0]
        }),
        ({
            let t = tabs_for(p, chat);
            let dropped = tabs_for(reordered(p, chat, from, at_least(over, 1)), chat).tabs;
            (from < t.tabs.len() ==> t.tabs[from as int].kind == TabKind::Pty) ==> agent_first(
                dropped,
            ) && dropped[0] == t.tabs[0]
        }),
{
    let t = tabs_for(p, chat);
    let opened = tabs_for(shell_added(p, chat), chat).tabs;
    assert forall|i: int| 1 <= i < opened.len() implies (#[trigger] opened[i]).kind
        == TabKind::Pty by {
        if i < t.tabs.len() {
            assert(opened[i] == t.tabs[i]);
        }
    }
    let k = tab_ix(t.tabs, key);
    first_at_props(t.tabs, keyed_by(key), 0);
    if tab_of(p, chat, key) is Some && tab_of(p, chat, key)->0.kind == TabKind::Pty {
        let closed = tab_closed(t, k).tabs;
        assert(k >= 1);
        assert forall|i: int| 1 <= i < closed.len() implies (#[trigger] closed[i]).kind
            == TabKind::Pty by {
            assert(closed[i] == (if i < k {
                t.tabs[i]
            } else {
                t.tabs[i + 1]
            }));
        }
    }
    let to = at_least(over, 1);
    let dropped = tabs_for(reordered(p, chat, from, to), chat).tabs;
    if from < t.tabs.len() && t.tabs[from as int].kind == TabKind::Pty && to < t.tabs.len() {
        assert(from >= 1);
        assert forall|i: int| 0 <= i < dropped.len() implies #[trigger] dropped[i] == t.tabs[origin(
            from as int,
            to as int,
            i,
        )] by {}
    }
}

/// Giving a chat its agent's tab keeps all tabs in order, puts the agent's tab
/// first, and keeps the active tab active.
pub proof fn adding_the_agent_keeps_order(p: PanelView, chat: Seq<char>)
    requires
        all_orderly(p),
        p.tab_seq < u64::MAX,
        tabs_for(p, chat).tabs.len() + 1 < usize::MAX,
    ensures
        all_orderly(agent_added(p, chat)),
        has_agent(tabs_for(agent_added(p, chat), chat).tabs),
        ({
            let t = tabs_for(p, chat);
            let now = tabs_for(agent_added(p, chat), chat);
            t.tabs.len() > 0 ==> now.tabs[now.active as int] == t.tabs[t.active as int]
        }),
{
    let t = tabs_for(p, chat);
    orderly_for(p, chat);
    let q = agent_added(p, chat);
    if !has_agent(t.tabs) {
        let now = q.chats[chat];
        assert forall|i: int| 0 < i < now.tabs.len() implies #[trigger] now.tabs[i] == t.tabs[i
            - 1] by {}
        assert forall|i: int|
            0 <= i < now.tabs.len() && (#[trigger] now.tabs[i]).kind == TabKind::Agent implies i
            == 0 by {
            if i > 0 {
                assert(t.tabs[i - 1].kind == TabKind::Agent);
                assert(i - 1 == 0);
            }
        }
        assert(orderly(now, q.tab_seq));
        assert forall|c: Seq<char>| #[trigger] q.chats.contains_key(c) implies orderly(
            q.chats[c],
            q.tab_seq,
        ) by {
            if c != chat {
                assert(p.chats.contains_key(c));
                assert(orderly(p.chats[c], p.tab_seq));
            }
        }
    }
}

/// Opening a shell keeps all tabs in order and makes the new tab active.
pub proof fn opening_a_shell_keeps_order(p: PanelView, chat: Seq<char>)
    requires
        all_orderly(p),
        p.tab_seq < u64::MAX,
        tabs_for(p, chat).tabs.len() + 1 < usize::MAX,
    ensures
        all_orderly(shell_added(p, chat)),
        ({
            let now = tabs_for(shell_added(p, chat), chat);
            now.tabs[now.active as int].kind == TabKind::Pty && now.tabs[now.active as int].key
                == p.tab_seq + 1
        }),
{
    let t = tabs_for(p, chat);
    orderly_for(p, chat);
    let q = shell_added(p, chat);
    let now = q.chats[chat];
    assert forall|i: int| 0 <= i < t.tabs.len() implies #[trigger] now.tabs[i] == t.tabs[i] by {}
    assert(orderly(now, q.tab_seq));
    assert forall|c: Seq<char>| #[trigger] q.chats.contains_key(c) implies orderly(
        q.chats[c],
        q.tab_seq,
    ) by {
        if c != chat {
            assert(p.chats.contains_key(c));
            assert(orderly(p.chats[c], p.tab_seq));
        }
    }
}

/// Closing a shell keeps the chat's tabs in order. The agent's tab stays where
/// it is.
pub proof fn closing_a_shell_keeps_order(t: TabsView, i: int, limit: u64)
    requires
        orderly(t, limit),
        0 <= i < t.tabs.len(),
        t.tabs[i].kind == TabKind::Pty,
    ensures
        orderly(tab_closed(t, i), limit),
        has_agent(t.tabs) ==> has_agent(tab_closed(t, i).tabs),
{
    let now = tab_closed(t, i);
    assert forall|j: int| 0 <= j < now.tabs.len() implies #[trigger] now.tabs[j] == (if j < i {
        t.tabs[j]
    } else {
        t.tabs[j + 1]
    }) by {}
    assert forall|j: int|
        0 <= j < now.tabs.len() && (#[trigger] now.tabs[j]).kind == TabKind::Agent implies j
        == 0 by {
        let o = if j < i {
            j
        } else {
            j + 1
        };
        assert(now.tabs[j] == t.tabs[o]);
        assert(t.tabs[o].kind == TabKind::Agent);
    }
    assert forall|a: int, b: int|
        0 <= a < now.tabs.len() && 0 <= b < now.tabs.len() && (#[trigger] now.tabs[a]).key == (
        #[trigger] now.tabs[b]).key implies a == b by {
        let oa = if a < i {
            a
        } else {
            a + 1
        };
        let ob = if b < i {
            b
        } else {
            b + 1
        };
        assert(now.tabs[a] == t.tabs[oa] && now.tabs[b] == t.tabs[ob]);
    }
}

/// A drop among the shells keeps the chat's tabs in order: the agent's tab is
/// never displaced, and the active tab stays active.
pub proof fn a_drop_keeps_order(t: TabsView, from: usize, to: usize, limit: u64)
    requires
        orderly(t, limit),
        1 <= from < t.tabs.len(),
        1 <= to < t.tabs.len(),
    ensures
        orderly(tabs_moved(t, from, to), limit),
        tabs_moved(t, from, to).tabs[0] == t.tabs[0],
        tabs_moved(t, from, to).tabs[tabs_moved(t, from, to).active as int]
            == t.tabs[t.active as int],
{
    let now = tabs_moved(t, from, to);
    let f = from as int;
    let g = to as int;
    assert(now.tabs.len() == t.tabs.len());
    assert forall|j: int| 0 <= j < now.tabs.len() implies #[trigger] now.tabs[j] == t.tabs[origin(
        f,
        g,
        j,
    )] && 0 <= origin(f, g, j) < t.tabs.len() by {}
    assert forall|j: int|
        0 <= j < now.tabs.len() && (#[trigger] now.tabs[j]).kind == TabKind::Agent implies j
        == 0 by {
        assert(now.tabs[j] == t.tabs[origin(f, g, j)]);
        assert(t.tabs[origin(f, g, j)].kind == TabKind::Agent);
    }
    assert forall|a: int, b: int|
        0 <= a < now.tabs.len() && 0 <= b < now.tabs.len() && (#[trigger] now.tabs[a]).key == (
        #[trigger] now.tabs[b]).key implies a == b by {
        assert(now.tabs[a] == t.tabs[origin(f, g, a)]);
        assert(now.tabs[b] == t.tabs[origin(f, g, b)]);
    }
    assert forall|a: int| 0 <= a < now.tabs.len() implies (#[trigger] now.tabs[a]).key
        <= limit by {
        assert(now.tabs[a] == t.tabs[origin(f, g, a)]);
    }
}

/// The slot that the item in slot `j` stood in before a move.
spec fn origin(from: int, to: int, j: int) -> int {
    if j == to {
        from
    } else if from < to && from <= j < to {
        j + 1
    } else if to < from && to < j <= from {
        j - 1
    } else {
        j
    }
}

/// Making sure of a chat's tabs twice is as good as once.
pub proof fn ensuring_is_idempotent(p: PanelView, selected: Option<Seq<char>>, engine: bool)
    ensures
        ensured(ensured(p, selected, engine), selected, engine) == ensured(p, selected, engine),
{
    if let Some(chat) = selected {
        let a = agent_added(p, chat);
        assert(has_agent(tabs_for(a, chat).tabs));
        assert(agent_added(a, chat) == a);
        let q = ensured(p, selected, engine);
        if wants_shell(p, chat) && engine {
            let before = tabs_for(a, chat).tabs;
            let now = tabs_for(q, chat).tabs;
            assert(now[0] == before[0]);
            assert(now[before.len() as int].kind == TabKind::Pty);
            assert(has_pty(now));
            assert(agent_added(q, chat) == q);
        }
    }
}

/// What the panel does for the selected chat leaves the tabs of the others
/// alone: a chat that is returned to has the tabs that it had.
pub proof fn other_chats_keep_their_tabs(
    p: PanelView,
    selected: Option<Seq<char>>,
    engine: bool,
    other: Seq<char>,
)
    requires
        selected != Some(other),
    ensures
        tabs_for(ensured(turned(p, selected), selected, engine), other) == tabs_for(p, other),
{
}

/// With an engine, the selected chat ends up with the agent's tab first and a
/// shell to type in.
pub proof fn an_open_panel_has_a_shell(p: PanelView, chat: Seq<char>)
    ensures
        has_agent(tabs_for(ensured(p, Some(chat), true), chat).tabs),
        has_pty(tabs_for(ensured(p, Some(chat), true), chat).tabs),
{
    let a = agent_added(p, chat);
    if wants_shell(p, chat) {
        let before = tabs_for(a, chat).tabs;
        let now = tabs_for(ensured(p, Some(chat), true), chat).tabs;
        assert(now[0] == before[0]);
        assert(now[before.len() as int].kind == TabKind::Pty);
    }
}

/// Keys that come in two bursts are pending as one text, in the order typed.
pub proof fn bursts_join(p: PanelView, selected: Option<Seq<char>>, a: Seq<u8>, b: Seq<u8>)
    ensures
        queued(queued(p, selected, a), selected, b).chats =~= queued(p, selected, a + b).chats,
{
    match input_tab(p, selected) {
        None => {},
        Some(t) => {
            let chat = selected->0;
            let tabs = tabs_for(p, chat);
            let q = queued(p, selected, a);
            let i = tabs.active as int;
            let once = TabView { pending: t.pending + a, ..t };
            assert(tabs_for(q, chat).tabs[i] == once);
            assert((t.pending + a) + b =~= t.pending + (a + b));
            let twice = TabView { pending: t.pending + (a + b), ..t };
            assert(tabs.tabs.update(i, once).update(i, twice) =~= tabs.tabs.update(i, twice));
        },
    }
}

/// A tab that was changed reads back as changed, and the tabs of other keys are
/// as they were.
pub proof fn a_changed_tab_reads_back(
    p: PanelView,
    chat: Seq<char>,
    key: u64,
    t: TabView,
    other: u64,
)
    requires
        tab_of(p, chat, key) is Some,
        t.key == key,
    ensures
        tab_of(tab_set(p, chat, key, t), chat, key) == Some(t),
        other != key ==> tab_of(tab_set(p, chat, key, t), chat, other) == tab_of(p, chat, other),
{
    let tabs = tabs_for(p, chat).tabs;
    let i = tab_ix(tabs, key);
    first_at_props(tabs, keyed_by(key), 0);
    let next = tabs.update(i, t);
    assert forall|j: int| 0 <= j < i implies !keyed_by(key)(#[trigger] next[j]) by {
        assert(!keyed_by(key)(tabs[j]));
    }
    assert(keyed_by(key)(tabs[i]));
    first_at_is(next, keyed_by(key), i);
    if other != key {
        let k = tab_ix(tabs, other);
        first_at_props(tabs, keyed_by(other), 0);
        assert forall|j: int| 0 <= j < k implies !keyed_by(other)(#[trigger] next[j]) by {
            assert(!keyed_by(other)(tabs[j]));
        }
        if k < tabs.len() {
            assert(keyed_by(other)(tabs[k]));
            assert(next[k] == tabs[k]);
        }
        first_at_is(next, keyed_by(other), k);
    }
}

/// A flush leaves nothing behind, and forgets nothing else about the tab.
pub proof fn a_flush_empties_the_tab(p: PanelView, chat: Seq<char>, key: u64)
    requires
        tab_of(p, chat, key) is Some,
    ensures
        ({
            let t = tab_of(p, chat, key)->0;
            let q = tab_set(p, chat, key, TabView { pending: Seq::empty(), ..t });
            tab_of(q, chat, key) == Some(TabView { pending: Seq::<u8>::empty(), ..t })
        }),
{
    let t = tab_of(p, chat, key)->0;
    first_at_props(tabs_for(p, chat).tabs, keyed_by(key), 0);
    a_changed_tab_reads_back(p, chat, key, TabView { pending: Seq::empty(), ..t }, key);
}

/// A stream that breaks off is taken up behind the last frame that arrived: the
/// next subscription asks for what follows it.
pub proof fn a_stream_resumes_behind_its_last_frame(
    p: PanelView,
    chat: Seq<char>,
    key: u64,
    seq: u64,
    terminal: Seq<char>,
    target: Option<Seq<char>>,
)
    requires
        tab_of(p, chat, key) is Some,
    ensures
        ({
            let t = tab_of(p, chat, key)->0;
            let q = tab_set(p, chat, key, TabView { last_seq: seq, ..t });
            &&& tab_of(q, chat, key) is Some
            &&& tab_of(q, chat, key)->0.last_seq == seq
            &&& subscribe_call(terminal, tab_of(q, chat, key)->0.last_seq, target).params["afterSeq"@]
                == ValueView::Int(seq as int)
        }),
{
    let t = tab_of(p, chat, key)->0;
    first_at_props(tabs_for(p, chat).tabs, keyed_by(key), 0);
    a_changed_tab_reads_back(p, chat, key, TabView { last_seq: seq, ..t }, key);
    reveal_strlit("targetDeviceId");
    reveal_strlit("afterSeq");
    assert("afterSeq"@.len() == 8 && target_name().len() == 14);
}

/// Whether a call goes to a device, or stays with the connected engine.
pub open spec fn goes_to(call: Call, target: Option<Seq<char>>) -> bool {
    match target {
        Some(device) => call.params.contains_key(target_name()) && call.params[target_name()]
            == ValueView::Text(device),
        None => !call.params.contains_key(target_name()),
    }
}

/// Every call about a chat's terminals goes to the chat's host device, and to
/// no other.
pub proof fn terminal_calls_reach_the_host(
    chat: Seq<char>,
    terminal: Seq<char>,
    tool: Seq<char>,
    bytes: Seq<u8>,
    cols: u16,
    rows: u16,
    after: u64,
    target: Option<Seq<char>>,
)
    ensures
        goes_to(open_call(chat, cols, rows, target), target),
        goes_to(close_call(terminal, target), target),
        goes_to(subscribe_call(terminal, after, target), target),
        goes_to(write_call(terminal, bytes, target), target),
        goes_to(resize_call(terminal, cols, rows, target), target),
        goes_to(output_call(chat, tool, target), target),
{
    reveal_strlit("targetDeviceId");
    reveal_strlit("chatId");
    reveal_strlit("cols");
    reveal_strlit("rows");
    reveal_strlit("terminalId");
    reveal_strlit("afterSeq");
    reveal_strlit("data");
    reveal_strlit("toolId");
    assert(target_name().len() == 14);
    assert("chatId"@ != target_name() && "cols"@ != target_name() && "rows"@ != target_name());
    assert("terminalId"@ != target_name() && "afterSeq"@ != target_name());
    assert("data"@ != target_name() && "toolId"@ != target_name());
}

}
