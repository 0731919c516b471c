//! What the terminal panel's tabs and feed are for.
use vstd::prelude::*;

use crate::laws::calls::{goes_to, names_differ, says_text};
use crate::laws::terminal::{
    is_active, is_target, nothing_changed, one_tab_changed, same_but, same_tabs, tabs_in,
    the_target_is_the_host, views_tell_the_tabs,
};
use crate::proto::{Chat, HarnessId, SessionMessageEntry};
use crate::seqs::first_at_is;
use crate::state::{chat_named, AppState};
use crate::terminal::feed::{
    exec_feed, feed_views, row_style, FeedEntry, FeedGlyph, FeedStatus, FeedView, OutputView,
};
use crate::terminal::laws::an_open_panel_has_a_shell;
use crate::terminal::panel::{
    fetch_all, fetch_calls, kinds, tab_views, tabs_for, texts, FeedFrame, PanelBody, PanelView,
    Queued, SessionStart, StateChange, TabChip, TabGlyph, TabPlace, TabView, TerminalPanel,
    TerminalTab, ToolOutputReply,
};
use crate::terminal::tabs::{
    active_after_close, active_after_reorder, clamp_terminal_height, drop_index, next_pty_number,
    pty_count, reorder_tabs, slide_offset, slides_preview_the_drop, the_active_tab_survives_a_close,
    the_active_tab_survives_a_move, TabKind,
};
use crate::terminal::view::paste_bytes;
use crate::text::decimal;
use crate::wire::{opt, Call, Method, Request};

verus! {

/// The number of shells among the first `n` tabs.
pub open spec fn shells_in(tabs: Seq<TerminalTab>, n: int) -> int
    decreases n,
{
    if n <= 0 {
        0
    } else {
        shells_in(tabs, n - 1) + (if tabs[n - 1].kind is Pty {
            1int
        } else {
            0int
        })
    }
}

/// The number of shells among the first `n` kinds.
pub open spec fn shell_kinds(list: Seq<TabKind>, n: int) -> int
    decreases n,
{
    if n <= 0 {
        0
    } else {
        shell_kinds(list, n - 1) + (if list[n - 1] is Pty {
            1int
        } else {
            0int
        })
    }
}

proof fn count_of_kinds(list: Seq<TabKind>, n: int)
    requires
        0 <= n <= list.len(),
    ensures
        pty_count(list.take(n)) == shell_kinds(list, n),
    decreases n,
{
    if n > 0 {
        count_of_kinds(list, n - 1);
        assert(list.take(n).drop_last() =~= list.take(n - 1));
        assert(list.take(n).last() == list[n - 1]);
    } else {
        assert(list.take(0) =~= Seq::<TabKind>::empty());
    }
}

proof fn count_of_tabs(tabs: Seq<TerminalTab>, n: int)
    requires
        0 <= n <= tabs.len(),
    ensures
        shell_kinds(kinds(tab_views(tabs)), n) == shells_in(tabs, n),
    decreases n,
{
    if n > 0 {
        count_of_tabs(tabs, n - 1);
        assert(kinds(tab_views(tabs))[n - 1] == tabs[n - 1].kind);
    }
}

/// A new shell is the last tab of its chat and the active one, goes by a key of
/// its own and by its number among the shells, and is opened where the chat lives.
/// Nothing opens without an engine.
pub proof fn a_new_shell_is_the_last_tab(
    p: &mut TerminalPanel,
    state: &AppState,
    chat: &str,
    s: Option<SessionStart>,
)
    requires
        old(p).tab_seq < u64::MAX,
        call_ensures(TerminalPanel::open_tab, (p, state, chat), s),
        old(p).chats@.contains_key(chat@),
        tabs_in(*old(p), chat@).len() <= usize::MAX,
    ensures
        s is Some <==> state.engine is Some,
        s is None ==> forall|c: Seq<char>| #[trigger] same_tabs(*old(p), *final(p), c),
        s matches Some(start) ==> {
            let had = tabs_in(*old(p), chat@);
            let now = tabs_in(*final(p), chat@);
            let n = had.len() as int;
            &&& final(p).chats@.contains_key(chat@)
            &&& now.len() == n + 1
            &&& forall|j: int| 0 <= j < n ==> (#[trigger] now[j])@ == had[j]@
            &&& now[n].kind is Pty && now[n].terminal_id is None && now[n].exited is None
                && now[n].last_seq == 0 && now[n].cols == 80 && now[n].rows == 24
            &&& now[n].coalescer@.len() == 0
            &&& now[n].key == old(p).tab_seq + 1 && final(p).tab_seq == now[n].key
            &&& now[n].title@ == "Terminal "@ + decimal((shells_in(had, n) + 1) as nat)
            &&& final(p).chats@[chat@].active == n
            &&& start.chat@ == chat@ && start.key == now[n].key
            &&& is_target(*state, chat@, opt(start.target))
            &&& forall|c: Seq<char>| c != chat@ ==> #[trigger] same_tabs(*old(p), *final(p), c)
        },
{
    the_target_is_the_host(*state, chat@);
    views_tell_the_tabs(*old(p), chat@);
    views_tell_the_tabs(*final(p), chat@);
    if state.engine is None {
        nothing_changed(*old(p), *final(p));
    } else {
        let had = tabs_in(*old(p), chat@);
        let n = had.len() as int;
        let list = kinds(tab_views(had));
        assert(list.take(n) =~= list);
        count_of_kinds(list, n);
        count_of_tabs(had, n);
        assert(old(p)@.chats[chat@].tabs =~= tab_views(had));
        let views = final(p)@.chats[chat@].tabs;
        assert forall|j: int| 0 <= j < n implies (#[trigger] tabs_in(*final(p), chat@)[j])@
            == had[j]@ by {
            assert(views[j] == old(p)@.chats[chat@].tabs[j]);
        }
        assert(views[n] == tabs_in(*final(p), chat@)[n]@);
        assert forall|c: Seq<char>| c != chat@ implies #[trigger] same_tabs(
            *old(p),
            *final(p),
            c,
        ) by {
            views_tell_the_tabs(*old(p), c);
            views_tell_the_tabs(*final(p), c);
        }
    }
}

/// The agent's tab comes first: a chat that lacks it gets it before its shells,
/// all of which stay, and the active tab stays active.
pub proof fn the_agent_comes_first(p: &mut TerminalPanel, chat: &str)
    requires
        old(p).tab_seq < u64::MAX,
        call_ensures(TerminalPanel::ensure_agent_tab, (p, chat), ()),
        old(p).chats@.contains_key(chat@),
        old(p).chats@[chat@].active < usize::MAX,
    ensures
        final(p).chats@.contains_key(chat@),
        ({
            let had = tabs_in(*old(p), chat@);
            let now = tabs_in(*final(p), chat@);
            &&& now.len() > 0 && now[0].kind is Agent
            &&& had.len() > 0 && had[0].kind is Agent ==> now.len() == had.len() && forall|j: int|
                0 <= j < had.len() ==> (#[trigger] now[j])@ == had[j]@
            &&& had.len() == 0 || had[0].kind is Pty ==> {
                &&& now.len() == had.len() + 1
                &&& forall|j: int| 0 <= j < had.len() ==> (#[trigger] had[j])@ == now[j + 1]@
                &&& had.len() > 0 ==> final(p).chats@[chat@].active == old(p).chats@[chat@].active
                    + 1
            }
        }),
{
    views_tell_the_tabs(*old(p), chat@);
    views_tell_the_tabs(*final(p), chat@);
    let had = tabs_in(*old(p), chat@);
    let now = tabs_in(*final(p), chat@);
    let views = final(p)@.chats[chat@].tabs;
    let was = old(p)@.chats[chat@].tabs;
    assert(views[0] == now[0]@);
    if had.len() > 0 {
        assert(was[0] == had[0]@);
    }
    if had.len() > 0 && had[0].kind is Agent {
        nothing_changed(*old(p), *final(p));
        assert(same_tabs(*old(p), *final(p), chat@));
        assert forall|j: int| 0 <= j < had.len() implies (#[trigger] now[j])@ == had[j]@ by {
            assert(had[j]@ == tabs_in(*old(p), chat@)[j]@);
        }
    } else {
        assert forall|j: int| 0 <= j < had.len() implies (#[trigger] had[j])@ == now[j + 1]@ by {
            assert(views[j + 1] == was[j]);
            assert(views[j + 1] == now[j + 1]@);
        }
    }
}

/// Opening the panel on a chat, with an engine, leaves the chat with the agent's
/// tab first and a shell; closing it leaves all tabs alone and starts nothing.
pub proof fn opening_gives_a_shell(
    a: &mut TerminalPanel,
    b: &mut TerminalPanel,
    state: &AppState,
    x: Option<SessionStart>,
    y: Option<SessionStart>,
)
    requires
        call_ensures(TerminalPanel::set_open, (a, state, true), x),
        call_ensures(TerminalPanel::set_open, (b, state, false), y),
        state.selected_chat is Some,
        state.engine is Some,
    ensures
        final(a).open && !final(b).open,
        final(a).chats@.contains_key(state.selected_chat->0@),
        tabs_in(*final(a), state.selected_chat->0@).len() > 0,
        tabs_in(*final(a), state.selected_chat->0@)[0].kind is Agent,
        exists|i: int|
            0 <= i < tabs_in(*final(a), state.selected_chat->0@).len() && (#[trigger] tabs_in(
                *final(a),
                state.selected_chat->0@,
            )[i]).kind is Pty,
        y is None,
        forall|c: Seq<char>| #[trigger] same_tabs(*old(b), *final(b), c),
{
    let chat = state.selected_chat->0@;
    let p = PanelView { open: true, ..old(a)@ };
    an_open_panel_has_a_shell(p, chat);
    views_tell_the_tabs(*final(a), chat);
    let views = tabs_for(final(a)@, chat).tabs;
    assert(final(a)@.open);
    assert(final(a)@.chats.contains_key(chat)) by {
        if !final(a)@.chats.contains_key(chat) {
            assert(views.len() == 0);
        }
    }
    assert(views[0] == tabs_in(*final(a), chat)[0]@);
    let i = choose|i: int| 0 <= i < views.len() && (#[trigger] views[i]).kind == TabKind::Pty;
    assert(views[i] == tabs_in(*final(a), chat)[i]@);
    assert(tabs_in(*final(a), chat)[i].kind is Pty);
    assert forall|c: Seq<char>| #[trigger] same_tabs(*old(b), *final(b), c) by {
        views_tell_the_tabs(*old(b), c);
        views_tell_the_tabs(*final(b), c);
    }
}

/// Another chat ends what was about the one before: drags, links and lit rows.
/// The same chat ends nothing.
pub proof fn another_chat_ends_what_was(
    p: &mut TerminalPanel,
    state: &AppState,
    r: StateChange,
)
    requires
        call_ensures(TerminalPanel::on_state_changed, (p, state), r),
        !old(p).open,
    ensures
        r.switched <==> opt(state.selected_chat) != opt(old(p).last_selected),
        opt(final(p).last_selected) == opt(state.selected_chat),
        r.switched ==> r.redraw && final(p).drag is None && final(p).pending_anchor is None
            && final(p).flash_ids@.len() == 0 && final(p).last_tail_fp == (0usize, 0usize),
        !r.switched ==> final(p).drag == old(p).drag && opt(final(p).pending_anchor) == opt(
            old(p).pending_anchor,
        ) && final(p).flash_ids@.len() == old(p).flash_ids@.len() && final(p).last_tail_fp == old(p).last_tail_fp,
        r.start is None,
        forall|c: Seq<char>| #[trigger] same_tabs(*old(p), *final(p), c),
{
    assert(texts(final(p).flash_ids@).len() == final(p).flash_ids@.len());
    assert(texts(old(p).flash_ids@).len() == old(p).flash_ids@.len());
    assert(final(p)@.drag == final(p).drag && final(p)@.tail == final(p).last_tail_fp);
    assert(final(p)@.last_selected == opt(final(p).last_selected));
    assert(final(p)@.anchor == opt(final(p).pending_anchor));
    assert forall|c: Seq<char>| #[trigger] same_tabs(*old(p), *final(p), c) by {
        views_tell_the_tabs(*old(p), c);
        views_tell_the_tabs(*final(p), c);
    }
}

/// What is pasted is queued on the active tab of the selected chat, as the bytes
/// of a paste.
pub proof fn a_paste_goes_to_the_active_tab(
    p: &mut TerminalPanel,
    state: &AppState,
    text: &str,
    bracketed: bool,
    back: bool,
    r: Option<Queued>,
    bytes: Vec<u8>,
    i: int,
)
    requires
        call_ensures(TerminalPanel::paste_text, (p, state, text, bracketed, back), r),
        call_ensures(paste_bytes, (text, bracketed), bytes),
        state.selected_chat is Some,
        is_active(*old(p), state.selected_chat->0@, i),
        tabs_in(*old(p), state.selected_chat->0@)[i].exited is None,
    ensures
        r is Some,
        same_but(*old(p), *final(p), state.selected_chat->0@, i),
        tabs_in(*final(p), state.selected_chat->0@)[i].coalescer@ == tabs_in(
            *old(p),
            state.selected_chat->0@,
        )[i].coalescer@ + bytes@,
        r->0.key == tabs_in(*old(p), state.selected_chat->0@)[i].key,
{
    let chat = state.selected_chat->0@;
    views_tell_the_tabs(*old(p), chat);
    let t = tabs_in(*old(p), chat)[i]@;
    let now = TabView { pending: t.pending + bytes@, ..t };
    one_tab_changed(*old(p), *final(p), chat, i, now);
    assert(tabs_in(*final(p), chat)[i]@.pending == now.pending);
}

/// The active tab is the one in the active slot of the selected chat; the panel
/// shows it, and the wheel scrolls it.
pub proof fn the_active_tab_is_shown(
    p: &TerminalPanel,
    state: &AppState,
    i: int,
    tab: Option<&TerminalTab>,
    agent: bool,
    lines: i32,
    key: Option<u64>,
    b: PanelBody,
)
    requires
        call_ensures(TerminalPanel::active_tab, (p, state), tab),
        call_ensures(TerminalPanel::active_is_agent, (p, state), agent),
        call_ensures(TerminalPanel::scroll_active, (p, state, lines), key),
        call_ensures(TerminalPanel::body, (p, state), b),
    ensures
        state.selected_chat is None ==> tab is None && !agent && key is None && b is Empty,
        state.selected_chat is Some ==> !(b is Empty),
        state.selected_chat is Some && is_active(*p, state.selected_chat->0@, i) ==> {
            let t = tabs_in(*p, state.selected_chat->0@)[i];
            &&& tab is Some && tab->0@ == t@
            &&& agent <==> t.kind is Agent
            &&& b is Feed <==> t.kind is Agent
            &&& b is Terminal <==> t.kind is Pty
            &&& lines != 0 ==> key == Some(t.key)
            &&& lines == 0 ==> key is None
        },
{
    if state.selected_chat is Some {
        views_tell_the_tabs(*p, state.selected_chat->0@);
    }
}

/// Selecting a slot that holds a tab makes it active; another slot changes
/// nothing. No tab changes.
pub proof fn selecting_a_tab_makes_it_active(
    p: &mut TerminalPanel,
    chat: &str,
    ix: usize,
    changed: bool,
)
    requires
        call_ensures(TerminalPanel::select_tab, (p, chat, ix), changed),
        old(p).chats@.contains_key(chat@),
    ensures
        changed <==> ix < tabs_in(*old(p), chat@).len(),
        final(p).chats@.contains_key(chat@),
        changed ==> final(p).chats@[chat@].active == ix,
        !changed ==> final(p).chats@[chat@].active == old(p).chats@[chat@].active,
        tabs_in(*final(p), chat@).len() == tabs_in(*old(p), chat@).len(),
        forall|j: int|
            0 <= j < tabs_in(*old(p), chat@).len() ==> (#[trigger] tabs_in(*final(p), chat@)[j])@
                == tabs_in(*old(p), chat@)[j]@,
        forall|c: Seq<char>| c != chat@ ==> #[trigger] same_tabs(*old(p), *final(p), c),
{
    views_tell_the_tabs(*old(p), chat@);
    views_tell_the_tabs(*final(p), chat@);
    assert forall|j: int| 0 <= j < tabs_in(*old(p), chat@).len() implies (#[trigger] tabs_in(
        *final(p),
        chat@,
    )[j])@ == tabs_in(*old(p), chat@)[j]@ by {
        assert(final(p)@.chats[chat@].tabs[j] == old(p)@.chats[chat@].tabs[j]);
    }
    assert forall|c: Seq<char>| c != chat@ implies #[trigger] same_tabs(*old(p), *final(p), c) by {
        views_tell_the_tabs(*old(p), c);
        views_tell_the_tabs(*final(p), c);
    }
}

/// A link shows the agent's tab, scrolls to its first command and lights all that
/// it names.
pub proof fn a_link_lights_its_commands(
    p: &mut TerminalPanel,
    state: &AppState,
    ids: Vec<String>,
    lit: bool,
)
    requires
        old(p).tab_seq < u64::MAX,
        call_ensures(TerminalPanel::reveal_agent_commands, (p, state, ids), lit),
    ensures
        lit <==> state.selected_chat is Some,
        state.selected_chat matches Some(chat) ==> {
            &&& final(p).chats@.contains_key(chat@)
            &&& is_active(*final(p), chat@, 0)
            &&& tabs_in(*final(p), chat@)[0].kind is Agent
            &&& ids@.len() > 0 ==> opt(final(p).pending_anchor) == Some(ids@[0]@)
            &&& ids@.len() == 0 ==> final(p).pending_anchor is None
            &&& final(p).flash_ids@.len() == ids@.len()
            &&& forall|i: int| 0 <= i < ids@.len() ==> (#[trigger] final(p).flash_ids@[i])@
                == ids@[i]@
        },
{
    if state.selected_chat is Some {
        let chat = state.selected_chat->0@;
        views_tell_the_tabs(*final(p), chat);
        views_tell_the_tabs(*old(p), chat);
        assert(texts(final(p).flash_ids@) == texts(ids@));
        assert(texts(final(p).flash_ids@).len() == final(p).flash_ids@.len());
        assert(texts(ids@).len() == ids@.len());
        assert forall|i: int| 0 <= i < ids@.len() implies (#[trigger] final(p).flash_ids@[i])@
            == ids@[i]@ by {
            assert(texts(final(p).flash_ids@)[i] == texts(ids@)[i]);
        }
        assert(final(p)@.anchor == opt(final(p).pending_anchor));
        assert(final(p)@.chats[chat].tabs[0] == tabs_in(*final(p), chat)[0]@);
    }
}

/// Whether a chat shows a row of its feed open.
pub open spec fn shows_open(p: TerminalPanel, chat: Seq<char>, id: Seq<char>, last: bool) -> bool {
    &&& p.chats@.contains_key(chat)
    &&& p.chats@[chat].feed_pinned@.contains_key(id) || (last
        && !p.chats@[chat].feed_dismissed@.contains_key(id))
}

/// A click on a row opens it when it is closed and closes it when it is open, the
/// last row of the feed among them, and touches no other.
pub proof fn a_click_flips_the_row(
    p: &mut TerminalPanel,
    transcript: &Vec<SessionMessageEntry>,
    chat: &str,
    id: &str,
    feed: Vec<FeedEntry>,
    other: Seq<char>,
    other_last: bool,
)
    requires
        call_ensures(TerminalPanel::toggle_feed_row, (p, transcript, chat, id), ()),
        call_ensures(exec_feed, (transcript, true), feed),
        old(p).chats@.contains_key(chat@),
    ensures
        ({
            let last = feed@.len() > 0 && feed@.last().id@ == id@;
            &&& shows_open(*final(p), chat@, id@, last) == !shows_open(*old(p), chat@, id@, last)
            &&& other != id@ ==> shows_open(*final(p), chat@, other, other_last) == shows_open(
                *old(p),
                chat@,
                other,
                other_last,
            )
        }),
        forall|c: Seq<char>| #[trigger] same_tabs(*old(p), *final(p), c),
{
    views_tell_the_tabs(*old(p), chat@);
    views_tell_the_tabs(*final(p), chat@);
    let views = feed_views(feed@);
    assert(views.len() == feed@.len());
    if feed@.len() > 0 {
        assert(views.last() == feed@.last()@);
    }
    let a = old(p).chats@[chat@];
    let b = final(p).chats@[chat@];
    assert(a@.pinned == a.feed_pinned@.dom() && a@.dismissed == a.feed_dismissed@.dom());
    assert(b@.pinned == b.feed_pinned@.dom() && b@.dismissed == b.feed_dismissed@.dom());
    assert(final(p)@.chats[chat@] == b@);
    assert(old(p)@.chats[chat@] == a@);
    assert forall|k: Seq<char>| b.feed_pinned@.contains_key(k) == #[trigger] b@.pinned.contains(
        k,
    ) by {}
    assert forall|k: Seq<char>| a.feed_pinned@.contains_key(k) == #[trigger] a@.pinned.contains(
        k,
    ) by {}
    assert forall|k: Seq<char>| b.feed_dismissed@.contains_key(k)
        == #[trigger] b@.dismissed.contains(k) by {}
    assert forall|k: Seq<char>| a.feed_dismissed@.contains_key(k)
        == #[trigger] a@.dismissed.contains(k) by {}
    assert forall|c: Seq<char>| #[trigger] same_tabs(*old(p), *final(p), c) by {
        views_tell_the_tabs(*old(p), c);
        views_tell_the_tabs(*final(p), c);
        if c == chat@ {
            assert forall|j: int| 0 <= j < tabs_in(*old(p), c).len() implies (#[trigger] tabs_in(
                *old(p),
                c,
            )[j])@ == tabs_in(*final(p), c)[j]@ by {
                assert(final(p)@.chats[c].tabs[j] == old(p)@.chats[c].tabs[j]);
            }
        }
    }
}

/// Whether a request asks for the output of a command of a chat, where the chat
/// lives.
pub open spec fn asks_output(c: Call, state: AppState, chat: Seq<char>, tool: Seq<char>) -> bool {
    &&& c.method == Method::ToolOutput
    &&& says_text(c, "chatId"@, chat)
    &&& says_text(c, "toolId"@, tool)
    &&& exists|target: Option<Seq<char>>| #[trigger] is_target(state, chat, target) && goes_to(
        c,
        target,
    )
}

/// The output of a finished command is asked for once: while it is neither known
/// nor asked for. Without an engine there is none to be had.
pub proof fn output_is_asked_for_once(
    p: &mut TerminalPanel,
    state: &AppState,
    chat: &str,
    tool: &str,
    status: FeedStatus,
    r: Option<Request>,
)
    requires
        call_ensures(TerminalPanel::ensure_feed_fetch, (p, state, chat, tool, status), r),
        old(p).chats@.contains_key(chat@),
    ensures
        ({
            let t = old(p).chats@[chat@];
            let now = final(p).chats@[chat@];
            let needed = !(status is Running) && !t.feed_outputs@.contains_key(tool@)
                && !t.feed_pending@.contains_key(tool@);
            &&& r is Some <==> needed && state.engine is Some
            &&& final(p).chats@.contains_key(chat@)
            &&& r is Some ==> asks_output(r->0@, *state, chat@, tool@)
                && now.feed_pending@.contains_key(tool@)
            &&& needed && state.engine is None ==> now.feed_outputs@.contains_key(tool@)
                && now.feed_outputs@[tool@]@ is Unavailable
        }),
{
    names_differ();
    the_target_is_the_host(*state, chat@);
    views_tell_the_tabs(*old(p), chat@);
    views_tell_the_tabs(*final(p), chat@);
    let a = old(p).chats@[chat@];
    let b = final(p).chats@[chat@];
    let target = crate::terminal::panel::target_of(
        state.chats@,
        opt(state.local_device_id),
        chat@,
    );
    assert(is_target(*state, chat@, target));
    assert(a@.outputs.contains_key(tool@) == a.feed_outputs@.contains_key(tool@));
    assert(a@.pending.contains(tool@) == a.feed_pending@.contains_key(tool@));
    assert(b@.outputs.contains_key(tool@) == b.feed_outputs@.contains_key(tool@));
    assert(b@.pending.contains(tool@) == b.feed_pending@.contains_key(tool@));
    assert(final(p)@.chats[chat@] == b@);
    if b.feed_outputs@.contains_key(tool@) {
        assert(b@.outputs[tool@] == b.feed_outputs@[tool@]@);
    }
    if r is Some {
        assert(goes_to(r->0@, target));
    }
}

/// What came of a question about output is kept: the output that was found, or
/// that there is none. A failed question may be asked again.
pub proof fn an_answer_about_output_is_kept(
    p: &mut TerminalPanel,
    chat: &str,
    tool: &str,
    reply: Option<ToolOutputReply>,
    redraw: bool,
)
    requires
        call_ensures(TerminalPanel::on_tool_output, (p, chat, tool, reply), redraw),
        old(p).chats@.contains_key(chat@),
    ensures
        final(p).chats@.contains_key(chat@),
        redraw <==> reply is Some,
        ({
            let t = old(p).chats@[chat@];
            let now = final(p).chats@[chat@];
            &&& !now.feed_pending@.contains_key(tool@)
            &&& reply is None ==> (now.feed_outputs@.contains_key(tool@)
                == t.feed_outputs@.contains_key(tool@))
            &&& reply matches Some(x) ==> now.feed_outputs@.contains_key(tool@)
            &&& reply matches Some(x) ==> (x.found && x.output is Some
                ==> now.feed_outputs@[tool@]@ == (OutputView::Loaded {
                output: x.output->0@,
                truncated: x.truncated,
            }))
            &&& reply matches Some(x) ==> (!x.found || x.output is None
                ==> now.feed_outputs@[tool@]@ is Unavailable)
        }),
{
    views_tell_the_tabs(*old(p), chat@);
    views_tell_the_tabs(*final(p), chat@);
    let a = old(p).chats@[chat@];
    let b = final(p).chats@[chat@];
    assert(a@.outputs.contains_key(tool@) == a.feed_outputs@.contains_key(tool@));
    assert(b@.outputs.contains_key(tool@) == b.feed_outputs@.contains_key(tool@));
    assert(b@.pending.contains(tool@) == b.feed_pending@.contains_key(tool@));
    assert(final(p)@.chats[chat@] == b@);
    if b.feed_outputs@.contains_key(tool@) {
        assert(b@.outputs[tool@] == b.feed_outputs@[tool@]@);
    }
}

/// A dropped tab lands in the slot that it was carried over, never in the first;
/// the others keep their order, and the active tab stays active. A tab of another
/// chat lands nowhere.
pub proof fn a_dropped_tab_lands(
    p: &mut TerminalPanel,
    chat: &str,
    dragged: &str,
    from: usize,
    to: int,
)
    requires
        call_ensures(TerminalPanel::drop_tab, (p, chat, dragged, from), ()),
        old(p).chats@.contains_key(chat@),
        old(p).drag is Some,
        to == (if old(p).drag->0.over < 1 {
            1
        } else {
            old(p).drag->0.over as int
        }),
        from < tabs_in(*old(p), chat@).len(),
        to < tabs_in(*old(p), chat@).len(),
    ensures
        final(p).drag is None,
        chat@ != dragged@ ==> forall|c: Seq<char>| #[trigger] same_tabs(*old(p), *final(p), c),
        chat@ == dragged@ ==> {
            let had = tab_views(tabs_in(*old(p), chat@));
            let now = tab_views(tabs_in(*final(p), chat@));
            let active = old(p).chats@[chat@].active as int;
            &&& final(p).chats@.contains_key(chat@)
            &&& now.len() == had.len()
            &&& now[to] == had[from as int]
            &&& now.remove(to) == had.remove(from as int)
            &&& active < had.len() ==> final(p).chats@[chat@].active < now.len()
                && now[final(p).chats@[chat@].active as int] == had[active]
        },
{
    views_tell_the_tabs(*old(p), chat@);
    views_tell_the_tabs(*final(p), chat@);
    assert(final(p)@.drag == final(p).drag);
    if chat@ == dragged@ {
        let had = tab_views(tabs_in(*old(p), chat@));
        let now = tab_views(tabs_in(*final(p), chat@));
        assert(old(p)@.chats[chat@].tabs == had);
        assert(final(p)@.chats[chat@].tabs == now);
        assert(now == had.remove(from as int).insert(to, had[from as int]));
        assert(now.remove(to) =~= had.remove(from as int));
        let active = old(p).chats@[chat@].active as int;
        if active < had.len() {
            the_active_tab_survives_a_move(had, active, from as int, to);
        }
    } else {
        assert forall|c: Seq<char>| #[trigger] same_tabs(*old(p), *final(p), c) by {
            views_tell_the_tabs(*old(p), c);
            views_tell_the_tabs(*final(p), c);
        }
    }
}

/// A drag remembers where it began, what it is over and what it was over before;
/// the slides start anew exactly when it is over something else. A drag that ended
/// elsewhere is over.
pub proof fn a_drag_remembers_its_way(
    a: &mut TerminalPanel,
    from: usize,
    over: usize,
    changed: bool,
    b: &mut TerminalPanel,
    dragging: bool,
)
    requires
        old(a).drag is Some ==> old(a).drag->0.epoch < usize::MAX,
        call_ensures(TerminalPanel::update_drag_over, (a, from, over), changed),
        call_ensures(TerminalPanel::heal_drag, (b, dragging), ()),
    ensures
        final(a).drag is Some && final(a).drag->0.over == over,
        old(a).drag is None ==> final(a).drag->0.from == from && final(a).drag->0.prev_over == from
            && changed,
        old(a).drag matches Some(d) ==> final(a).drag->0.from == d.from && (changed <==> d.over
            != over) && (d.over != over ==> final(a).drag->0.prev_over == d.over),
        dragging ==> final(b).drag == old(b).drag,
        !dragging ==> final(b).drag is None,
{
    assert(final(a)@.drag == final(a).drag && old(a)@.drag == old(a).drag);
    assert(final(b)@.drag == final(b).drag && old(b)@.drag == old(b).drag);
}

proof fn fetches_ask_for_rows(
    p: PanelView,
    state: AppState,
    chat: Seq<char>,
    feed: Seq<FeedView>,
    n: int,
    engine: bool,
    target: Option<Seq<char>>,
    k: int,
)
    requires
        0 <= n <= feed.len(),
        is_target(state, chat, target),
        0 <= k < fetch_calls(p, chat, feed, n, engine, target).len(),
    ensures
        exists|i: int|
            0 <= i < n && asks_output(
                fetch_calls(p, chat, feed, n, engine, target)[k],
                state,
                chat,
                (#[trigger] feed[i]).id,
            ),
    decreases n,
{
    names_differ();
    if n > 0 {
        let asked = fetch_calls(p, chat, feed, n - 1, engine, target);
        if k < asked.len() {
            fetches_ask_for_rows(p, state, chat, feed, n - 1, engine, target, k);
        } else {
            let c = fetch_calls(p, chat, feed, n, engine, target)[k];
            assert(goes_to(c, target));
            assert(asks_output(c, state, chat, feed[n - 1].id));
        }
    }
}

/// The feed has a row for each command of the transcript, in order: with its own
/// text and mark, and lit while a link points at it. What it asks for is the
/// output of its rows. A link is followed once.
pub proof fn the_feed_has_its_rows(
    p: &mut TerminalPanel,
    state: &AppState,
    chat: &str,
    now: i64,
    bottom: bool,
    f: FeedFrame,
    dot: crate::proto::Indicator,
    feed: Vec<FeedEntry>,
    i: int,
    k: int,
    mark: (FeedGlyph, bool),
)
    requires
        call_ensures(TerminalPanel::feed_frame, (p, state, chat, now, bottom), f),
        call_ensures(AppState::indicator_for, (state, chat, now), dot),
        call_ensures(exec_feed, (&state.transcript, !(dot is Quiet)), feed),
        0 <= i < feed@.len() ==> call_ensures(row_style, (feed@[i].status,), mark),
    ensures
        f.rows@.len() == feed@.len(),
        0 <= i < feed@.len() ==> {
            let row = f.rows@[i];
            &&& row.entry@ == feed@[i]@
            &&& row.glyph == mark.0
            &&& row.bright == mark.1
            &&& row.flashing <==> exists|j: int|
                0 <= j < old(p).flash_ids@.len() && (#[trigger] old(p).flash_ids@[j])@
                    == feed@[i].id@
        },
        final(p).pending_anchor is None,
        0 <= k < f.fetches@.len() ==> exists|j: int|
            0 <= j < feed@.len() && asks_output(
                f.fetches@[k]@,
                *state,
                chat@,
                (#[trigger] feed@[j]).id@,
            ),
{
    the_target_is_the_host(*state, chat@);
    let views = feed_views(feed@);
    assert(views.len() == feed@.len());
    let target = crate::terminal::panel::target_of(
        state.chats@,
        opt(state.local_device_id),
        chat@,
    );
    let settled = PanelView {
        anchor: None,
        tail: crate::terminal::panel::fingerprint(tabs_for(old(p)@, chat@), views),
        ..old(p)@
    };
    let n = views.len() as int;
    let engine = state.engine is Some;
    fetching_keeps_the_rest(settled, chat@, views, n, engine);
    assert(final(p)@.anchor == opt(final(p).pending_anchor));
    if 0 <= i < feed@.len() {
        let row = f.rows@[i];
        assert(views[i] == feed@[i]@);
        assert(row@.entry == views[i]);
        let flash = texts(old(p).flash_ids@);
        assert(final(p)@.flash == flash);
        assert(row.flashing == flash.contains(feed@[i].id@));
        if row.flashing {
            let j = choose|j: int| 0 <= j < flash.len() && flash[j] == feed@[i].id@;
            assert(old(p).flash_ids@[j]@ == feed@[i].id@);
        } else {
            assert forall|j: int| 0 <= j < old(p).flash_ids@.len() implies (
            #[trigger] old(p).flash_ids@[j])@ != feed@[i].id@ by {
                assert(flash[j] == old(p).flash_ids@[j]@);
                if flash[j] == feed@[i].id@ {
                    assert(flash.contains(feed@[i].id@));
                }
            }
        }
    }
    if 0 <= k < f.fetches@.len() {
        let calls = crate::terminal::panel::calls(f.fetches@);
        assert(calls[k] == f.fetches@[k]@);
        assert(calls.len() == f.fetches@.len());
        fetches_ask_for_rows(settled, *state, chat@, views, n, engine, target, k);
        let j = choose|j: int|
            0 <= j < n && asks_output(calls[k], *state, chat@, (#[trigger] views[j]).id);
        assert(views[j] == feed@[j]@);
        assert(asks_output(f.fetches@[k]@, *state, chat@, feed@[j].id@));
    }
}

proof fn fetching_keeps_the_rest(
    p: PanelView,
    chat: Seq<char>,
    feed: Seq<FeedView>,
    n: int,
    engine: bool,
)
    ensures
        fetch_all(p, chat, feed, n, engine).flash == p.flash,
        fetch_all(p, chat, feed, n, engine).anchor == p.anchor,
        fetch_all(p, chat, feed, n, engine).drag == p.drag,
    decreases n,
{
    if n > 0 {
        fetching_keeps_the_rest(p, chat, feed, n - 1, engine);
    }
}

/// The bar has a chip for each tab, in order: its key and kind, whether it is the
/// active one and whether its process is over; a shell goes by its own title.
/// Without a drag all stand still, and the dragged one leaves its slot empty.
pub proof fn the_bar_shows_the_tabs(
    p: &TerminalPanel,
    state: &AppState,
    chat: &str,
    now: i64,
    chips: Vec<TabChip>,
    i: int,
)
    requires
        call_ensures(TerminalPanel::tab_bar, (p, state, chat, now), chips),
        p.chats@.contains_key(chat@),
        0 <= i < tabs_in(*p, chat@).len(),
    ensures
        chips@.len() == tabs_in(*p, chat@).len(),
        ({
            let t = tabs_in(*p, chat@)[i];
            let c = chips@[i];
            &&& c.key == t.key && c.kind == t.kind
            &&& c.selected <==> i == p.chats@[chat@].active
            &&& c.exited <==> t.exited is Some
            &&& t.kind is Pty ==> c.title@ == t.title@ && c.glyph is Terminal
            &&& t.kind is Agent ==> !(c.glyph is Terminal)
            &&& p.drag is None ==> c.place is Still
            &&& p.drag matches Some(d) ==> (c.place is Spacer <==> i == d.from) && !(
            c.place is Still)
        }),
{
    views_tell_the_tabs(*p, chat@);
    assert(p@.chats[chat@].tabs[i] == tabs_in(*p, chat@)[i]@);
    assert(chips@[i]@ == chips@[i]@);
    assert(p@.drag == p.drag);
}

/// Moving an item puts it in its slot and keeps the others in their order; a slot
/// that is not there moves nothing.
pub proof fn a_moved_item_lands<T>(tabs: &mut Vec<T>, from: usize, to: usize)
    requires
        call_ensures(reorder_tabs::<T>, (tabs, from, to), ()),
    ensures
        from < old(tabs)@.len() && to < old(tabs)@.len() ==> final(tabs)@.len() == old(tabs)@.len()
            && final(tabs)@[to as int] == old(tabs)@[from as int] && final(tabs)@.remove(to as int)
            == old(tabs)@.remove(from as int),
        from >= old(tabs)@.len() || to >= old(tabs)@.len() ==> final(tabs)@ == old(tabs)@,
{
    if from < old(tabs)@.len() && to < old(tabs)@.len() {
        assert(final(tabs)@.remove(to as int) =~= old(tabs)@.remove(from as int));
    }
}

/// The active index follows its item through a move and through the removal of
/// another.
pub proof fn the_active_index_follows<T>(
    s: Seq<T>,
    active: usize,
    from: usize,
    to: usize,
    closed: usize,
    left: usize,
    a: usize,
    b: usize,
)
    requires
        active < s.len() && from < s.len() && to < s.len() && closed < s.len(),
        left == s.len() - 1,
        call_ensures(active_after_reorder, (active, from, to), a),
        call_ensures(active_after_close, (active, closed, left), b),
    ensures
        a < s.len(),
        s.remove(from as int).insert(to as int, s[from as int])[a as int] == s[active as int],
        s.len() > 1 ==> b < s.len() - 1,
        closed != active ==> s.remove(closed as int)[b as int] == s[active as int],
        closed == active && active + 1 < s.len() ==> b == active,
        closed == active && active + 1 == s.len() && s.len() > 1 ==> b == active - 1,
{
    the_active_tab_survives_a_move(s, active as int, from as int, to as int);
    the_active_tab_survives_a_close(s, active as int, closed as int);
}

/// While one item is dragged over a slot, the others slide exactly to where the
/// drop would put them.
pub proof fn items_slide_to_where_they_will_be<T>(
    s: Seq<T>,
    ix: usize,
    from: usize,
    over: usize,
    d: i32,
)
    requires
        ix < s.len() && from < s.len() && over < s.len() && ix != from,
        call_ensures(slide_offset, (ix, from, over), d),
    ensures
        s.remove(from as int).insert(over as int, s[from as int])[ix + d] == s[ix as int],
        -1 <= d <= 1,
{
    slides_preview_the_drop(s, ix as int, from as int, over as int);
}

/// The slot under the pointer is the one whose width it lies in, the first before
/// them all and the last behind.
pub proof fn the_slot_lies_under_the_pointer(rel: i64, width: i64, count: usize, ix: usize)
    requires
        call_ensures(drop_index, (rel, width, count), ix),
        count > 0,
        width > 0,
    ensures
        ix < count,
        rel < 0 ==> ix == 0,
        0 <= rel && rel < width * count ==> width * ix <= rel < width * (ix + 1),
        0 <= rel && rel >= width * count ==> ix == count - 1,
{
    let r = rel as int;
    let w = width as int;
    let c = count as int;
    if r >= 0 {
        let q = r / w;
        assert(w * q <= r < w * (q + 1)) by (nonlinear_arith)
            requires
                q == r / w,
                w > 0,
        ;
        if r < w * c {
            assert(q < c) by (nonlinear_arith)
                requires
                    w * q <= r,
                    r < w * c,
                    w > 0,
            ;
        } else {
            assert(q >= c) by (nonlinear_arith)
                requires
                    r < w * (q + 1),
                    r >= w * c,
                    w > 0,
            ;
        }
    }
}

/// The panel is as high as asked, but at least a hundred and sixty pixels, and
/// else at most fifty-five hundredths of the viewport.
pub proof fn the_panel_keeps_its_bounds(height: Option<i64>, viewport: i64, h: i64)
    requires
        call_ensures(clamp_terminal_height, (height, viewport), h),
    ensures
        h >= 160_000,
        height is None ==> h == 160_000,
        h > 160_000 ==> h * 100 <= viewport * 55,
        height matches Some(x) ==> (x >= 160_000 && x * 100 <= viewport * 55 ==> h == x),
{
}

/// A shell's number is one more than the number of shells.
pub proof fn a_shell_s_number(list: &Vec<TabKind>, n: usize)
    requires
        call_ensures(next_pty_number, (list,), n),
    ensures
        n == shell_kinds(list@, list@.len() as int) + 1,
{
    count_of_kinds(list@, list@.len() as int);
    assert(list@.take(list@.len() as int) =~= list@);
}

/// The feed scrolls to the row that a link names; else it follows new output at
/// its end, and only from there. A feed without rows scrolls nowhere.
pub proof fn the_feed_scrolls(
    p: &mut TerminalPanel,
    state: &AppState,
    chat: &str,
    now: i64,
    bottom: bool,
    f: FeedFrame,
    dot: crate::proto::Indicator,
    feed: Vec<FeedEntry>,
    k: int,
)
    requires
        call_ensures(TerminalPanel::feed_frame, (p, state, chat, now, bottom), f),
        call_ensures(AppState::indicator_for, (state, chat, now), dot),
        call_ensures(exec_feed, (&state.transcript, !(dot is Quiet)), feed),
        feed@.len() <= usize::MAX,
    ensures
        old(p).pending_anchor is Some && 0 <= k < feed@.len() && feed@[k].id@
            == old(p).pending_anchor->0@ && (forall|j: int|
            0 <= j < k ==> (#[trigger] feed@[j]).id@ != old(p).pending_anchor->0@) ==> f.scroll
            == Some(crate::terminal::panel::FeedScroll::ToItem(k as usize)),
        old(p).pending_anchor is None && !bottom ==> f.scroll is None,
        old(p).pending_anchor is None && feed@.len() == 0 ==> f.scroll is None,
        old(p).pending_anchor is None && bottom && feed@.len() > 0 && feed@.len()
            != old(p).last_tail_fp.0 ==> f.scroll == Some(
            crate::terminal::panel::FeedScroll::ToBottom,
        ),
        final(p).last_tail_fp.0 == feed@.len(),
{
    let views = feed_views(feed@);
    assert(views.len() == feed@.len());
    assert(old(p)@.anchor == opt(old(p).pending_anchor) && old(p)@.tail == old(p).last_tail_fp);
    assert(final(p)@.tail == final(p).last_tail_fp);
    let settled = PanelView {
        anchor: None,
        tail: crate::terminal::panel::fingerprint(tabs_for(old(p)@, chat@), views),
        ..old(p)@
    };
    fetching_keeps_the_tail(settled, chat@, views, views.len() as int, state.engine is Some);
    if old(p).pending_anchor is Some && 0 <= k < feed@.len() && feed@[k].id@
        == old(p).pending_anchor->0@ && (forall|j: int|
        0 <= j < k ==> (#[trigger] feed@[j]).id@ != old(p).pending_anchor->0@) {
        let q = crate::terminal::panel::row_named(old(p).pending_anchor->0@);
        assert forall|j: int| 0 <= j < k implies !q(#[trigger] views[j]) by {
            assert(views[j] == feed@[j]@);
            assert(feed@[j].id@ != old(p).pending_anchor->0@);
        }
        assert(views[k] == feed@[k]@);
        assert(q(views[k]));
        first_at_is(views, q, k);
    }
}

proof fn fetching_keeps_the_tail(
    p: PanelView,
    chat: Seq<char>,
    feed: Seq<FeedView>,
    n: int,
    engine: bool,
)
    ensures
        fetch_all(p, chat, feed, n, engine).tail == p.tail,
    decreases n,
{
    if n > 0 {
        fetching_keeps_the_tail(p, chat, feed, n - 1, engine);
    }
}

/// A row of the feed shows what is under its command while it is open, and
/// nothing while it is closed.
pub proof fn open_rows_show_their_output(
    p: &mut TerminalPanel,
    state: &AppState,
    chat: &str,
    now: i64,
    bottom: bool,
    f: FeedFrame,
    i: int,
)
    requires
        call_ensures(TerminalPanel::feed_frame, (p, state, chat, now, bottom), f),
        0 <= i < f.rows@.len(),
        final(p).chats@.contains_key(chat@),
    ensures
        ({
            let row = f.rows@[i];
            let id = row.entry.id@;
            let open = shows_open(*final(p), chat@, id, i == f.rows@.len() - 1);
            let outputs = final(p).chats@[chat@].feed_outputs@;
            &&& row.expansion is Collapsed <==> !open
            &&& open && row.entry.status is Running ==> row.expansion is StillRunning
            &&& open && !(row.entry.status is Running) && !outputs.contains_key(id)
                ==> row.expansion is Loading
            &&& open && !(row.entry.status is Running) && outputs.contains_key(id)
                && outputs[id]@ is Unavailable ==> row.expansion is Unavailable
        }),
{
    views_tell_the_tabs(*final(p), chat@);
    let row = f.rows@[i];
    let id = row.entry.id@;
    let b = final(p).chats@[chat@];
    assert(row@.entry == row.entry@);
    assert(row@.expansion == row.expansion@);
    assert(final(p)@.chats[chat@] == b@);
    assert(b@.pinned.contains(id) == b.feed_pinned@.contains_key(id));
    assert(b@.dismissed.contains(id) == b.feed_dismissed@.contains_key(id));
    assert(b@.outputs.contains_key(id) == b.feed_outputs@.contains_key(id));
    if b.feed_outputs@.contains_key(id) {
        assert(b@.outputs[id] == b.feed_outputs@[id]@);
    }
}

/// The agent's tab goes by the agent's name, spins while a command runs, and else
/// shows the agent's program. Beside a dragged tab the others slide from where
/// they stood to where they would be.
pub proof fn the_agent_s_tab_shows_the_agent(
    p: &TerminalPanel,
    state: &AppState,
    chat: &str,
    now: i64,
    chips: Vec<TabChip>,
    i: int,
    dot: crate::proto::Indicator,
    feed: Vec<FeedEntry>,
    row: Chat,
    k: int,
    title: String,
    start: i32,
    end: i32,
)
    requires
        call_ensures(TerminalPanel::tab_bar, (p, state, chat, now), chips),
        p.chats@.contains_key(chat@),
        0 <= i < tabs_in(*p, chat@).len(),
        call_ensures(AppState::indicator_for, (state, chat, now), dot),
        call_ensures(exec_feed, (&state.transcript, !(dot is Quiet)), feed),
        crate::laws::selection::is_first(state.chats@, chat@, k),
        row == state.chats@[k],
        call_ensures(crate::terminal::tabs::agent_tab_title, (Some(&row),), title),
        p.drag matches Some(d) ==> i <= usize::MAX && call_ensures(
            slide_offset,
            (i as usize, d.from, d.prev_over),
            start,
        ) && call_ensures(slide_offset, (i as usize, d.from, d.over), end),
    ensures
        ({
            let t = tabs_in(*p, chat@)[i];
            let c = chips@[i];
            let running = exists|j: int|
                0 <= j < feed@.len() && (#[trigger] feed@[j]).status is Running;
            &&& t.kind is Agent ==> c.title@ == title@
            &&& t.kind is Agent && running ==> c.glyph is Spinner
            &&& t.kind is Agent && !running && row.config is Some ==> c.glyph == TabGlyph::Harness(
                row.config->0.harness,
            )
            &&& t.kind is Agent && !running && row.config is None ==> c.glyph == TabGlyph::Harness(
                HarnessId::Pi,
            )
            &&& p.drag matches Some(d) ==> (i != d.from ==> c.place == (TabPlace::Slide {
                start,
                target: end,
            }))
        }),
{
    views_tell_the_tabs(*p, chat@);
    assert(p@.chats[chat@].tabs[i] == tabs_in(*p, chat@)[i]@);
    assert(chips@[i]@ == chips@[i]@);
    assert(p@.drag == p.drag);
    let q = chat_named(chat@);
    assert forall|j: int| 0 <= j < k implies !q(#[trigger] state.chats@[j]) by {
        assert(state.chats@[j].id@ != chat@);
    }
    assert(q(state.chats@[k]));
    first_at_is(state.chats@, q, k);
    let views = feed_views(feed@);
    assert(views.len() == feed@.len());
    assert forall|j: int| 0 <= j < feed@.len() implies views[j] == (#[trigger] feed@[j])@ by {}
    if exists|j: int| 0 <= j < feed@.len() && (#[trigger] feed@[j]).status is Running {
        let j = choose|j: int| 0 <= j < feed@.len() && (#[trigger] feed@[j]).status is Running;
        assert(views[j].status == FeedStatus::Running);
        assert(crate::terminal::panel::runs(views));
    }
    if crate::terminal::panel::runs(views) {
        let j = choose|j: int|
            0 <= j < views.len() && (#[trigger] views[j]).status == FeedStatus::Running;
        assert(feed@[j].status is Running);
    }
}

/// A tab that is carried over the bar is over the slot under the pointer, but
/// never over the first; a tab of another chat is over none.
pub proof fn a_carried_tab_is_over_a_slot(
    p: &mut TerminalPanel,
    chat: &str,
    carried: &str,
    from: usize,
    rel: i64,
    changed: bool,
    count: usize,
    slot: usize,
)
    requires
        old(p).drag is Some ==> old(p).drag->0.epoch < usize::MAX,
        call_ensures(TerminalPanel::drag_over, (p, chat, carried, from, rel), changed),
        old(p).chats@.contains_key(chat@),
        count == tabs_in(*old(p), chat@).len(),
        call_ensures(drop_index, (rel, 118, count), slot),
    ensures
        chat@ != carried@ ==> final(p).drag == old(p).drag && !changed,
        chat@ == carried@ ==> final(p).drag is Some && final(p).drag->0.over == (if slot < 1 {
            1
        } else {
            slot as int
        }),
        forall|c: Seq<char>| #[trigger] same_tabs(*old(p), *final(p), c),
{
    views_tell_the_tabs(*old(p), chat@);
    assert(final(p)@.drag == final(p).drag && old(p)@.drag == old(p).drag);
    assert forall|c: Seq<char>| #[trigger] same_tabs(*old(p), *final(p), c) by {
        views_tell_the_tabs(*old(p), c);
        views_tell_the_tabs(*final(p), c);
    }
}

/// A new panel is closed and has no tabs.
pub proof fn a_new_panel_is_closed(p: TerminalPanel)
    requires
        call_ensures(TerminalPanel::new, (), p),
    ensures
        !p.open && p.drag is None && p.pending_anchor is None && p.flash_ids@.len() == 0,
        forall|chat: Seq<char>| !(#[trigger] p.chats@.contains_key(chat)),
{
    assert(p@.open == p.open && p@.drag == p.drag && p@.anchor == opt(p.pending_anchor));
    assert(texts(p.flash_ids@).len() == p.flash_ids@.len());
    assert forall|chat: Seq<char>| !(#[trigger] p.chats@.contains_key(chat)) by {
        views_tell_the_tabs(p, chat);
    }
}

/// Rows that have been lit long enough are lit no longer, and nothing else
/// changes.
pub proof fn lit_rows_go_out(p: &mut TerminalPanel)
    requires
        call_ensures(TerminalPanel::clear_flash, (p,), ()),
    ensures
        final(p).flash_ids@.len() == 0,
        opt(final(p).pending_anchor) == opt(old(p).pending_anchor) && final(p).open == old(p).open,
        forall|c: Seq<char>| #[trigger] same_tabs(*old(p), *final(p), c),
{
    assert(texts(final(p).flash_ids@).len() == final(p).flash_ids@.len());
    assert(final(p)@.anchor == opt(final(p).pending_anchor));
    assert(final(p)@.open == final(p).open);
    assert forall|c: Seq<char>| #[trigger] same_tabs(*old(p), *final(p), c) by {
        views_tell_the_tabs(*old(p), c);
        views_tell_the_tabs(*final(p), c);
    }
}

/// A session starts exactly when the selected chat has no shell and there is an
/// engine; it is that of the new shell.
pub proof fn a_chat_without_a_shell_gets_one(
    p: &mut TerminalPanel,
    state: &AppState,
    s: Option<SessionStart>,
)
    requires
        call_ensures(TerminalPanel::ensure_tab, (p, state), s),
    ensures
        state.selected_chat is None || state.engine is None ==> s is None,
        state.selected_chat matches Some(chat) ==> (old(p).chats@.contains_key(chat@) ==> {
            let had = tabs_in(*old(p), chat@);
            let shell = exists|i: int| 0 <= i < had.len() && (#[trigger] had[i]).kind is Pty;
            &&& shell ==> s is None
            &&& s matches Some(x) ==> x.chat@ == chat@ && is_target(*state, chat@, opt(x.target))
        }),
{
    if state.selected_chat is Some {
        let chat = state.selected_chat->0@;
        the_target_is_the_host(*state, chat);
        views_tell_the_tabs(*old(p), chat);
        if old(p).chats@.contains_key(chat) {
            let had = tabs_in(*old(p), chat);
            let views = old(p)@.chats[chat].tabs;
            if exists|i: int| 0 <= i < had.len() && (#[trigger] had[i]).kind is Pty {
                let i = choose|i: int| 0 <= i < had.len() && (#[trigger] had[i]).kind is Pty;
                let now = tabs_for(crate::terminal::panel::agent_added(old(p)@, chat), chat).tabs;
                assert(views[i] == had[i]@);
                if crate::terminal::panel::has_agent(views) {
                    assert(now[i].kind == TabKind::Pty);
                } else {
                    assert(now[i + 1] == views[i]);
                    assert(now[i + 1].kind == TabKind::Pty);
                }
                assert(crate::terminal::panel::has_pty(now));
            }
        }
    }
}

/// A committed move moves the tab and ends the drag.
pub proof fn a_committed_move_moves_the_tab(
    p: &mut TerminalPanel,
    chat: &str,
    from: usize,
    to: usize,
)
    requires
        call_ensures(TerminalPanel::commit_reorder, (p, chat, from, to), ()),
        old(p).chats@.contains_key(chat@),
        from < tabs_in(*old(p), chat@).len(),
        to < tabs_in(*old(p), chat@).len(),
    ensures
        final(p).drag is None,
        final(p).chats@.contains_key(chat@),
        ({
            let had = tab_views(tabs_in(*old(p), chat@));
            let now = tab_views(tabs_in(*final(p), chat@));
            &&& now.len() == had.len()
            &&& now[to as int] == had[from as int]
            &&& now.remove(to as int) == had.remove(from as int)
        }),
{
    views_tell_the_tabs(*old(p), chat@);
    views_tell_the_tabs(*final(p), chat@);
    assert(final(p)@.drag == final(p).drag);
    let had = tab_views(tabs_in(*old(p), chat@));
    let now = tab_views(tabs_in(*final(p), chat@));
    assert(old(p)@.chats[chat@].tabs == had);
    assert(final(p)@.chats[chat@].tabs == now);
    assert(now.remove(to as int) =~= had.remove(from as int));
}

/// The feed stands at its end when no more than two pixels are left below.
pub proof fn the_end_of_the_feed(offset: i64, most: i64, r: bool)
    requires
        call_ensures(crate::terminal::feed::feed_at_bottom, (offset, most), r),
    ensures
        r <==> most + offset <= 2_000,
{
}

}
