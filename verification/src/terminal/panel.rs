//! The terminal panel's state: tabs per chat over the engine's shells, the
//! pinned tab of the agent, and what each event makes of them. Chats keep their
//! tabs while another is shown; nothing runs while the panel is closed.
use vstd::prelude::*;
use vstd::string::*;

use crate::keyed::{IdSet, Keyed};
use crate::proto::{indicator, Chat, HarnessId, Indicator, SessionMessageEntry};
use crate::seqs::{first_at, first_at_is, first_at_props};
use crate::state::{at, chat_ix, find_chat, AppState};
use crate::terminal::codec::{
    base64_text, decode_base64, encode_base64, fits_base64, frame_bytes,
};
use crate::terminal::feed::{
    exec_feed, expansion, expansion_lines, expansion_of, feed_of, feed_views, follow_target,
    is_feed_row_expanded, row_open, row_style, scroll_target, tail_lines, ExpansionView,
    FeedEntry, FeedExpansion, FeedGlyph, FeedOutput, FeedStatus, FeedView, OutputView,
};
use crate::terminal::tabs::{
    active_after_close, active_after_reorder, active_closed, active_moved, agent_tab_title,
    agent_title, backoff, backoff_ms, drop_index, exit_message, exit_text, failure_message,
    failure_text, moved, next_pty_number, pty_count, reorder_tabs, slide, slide_offset, slot_at,
    TabKind, TAB_WIDTH,
};
use crate::terminal::view::{
    keystroke, keystroke_bytes, paste_bytes, pasted, InputCoalescer, Modifiers,
};
use crate::text::{decimal, decimal_text, same};
use crate::wire::{
    copy_opt, is_text, opt, routed, same_opt, with_target, Call, Method, Request, Value, ValueView,
};

verus! {

/// A tab. The screen behind it belongs to whoever draws; the tab knows its size.
#[derive(Debug)]
pub struct TerminalTab {
    pub key: u64,
    pub kind: TabKind,
    pub title: String,
    /// The engine's shell, once it is open.
    pub terminal_id: Option<String>,
    pub cols: u16,
    pub rows: u16,
    pub exited: Option<i32>,
    /// The last frame that arrived; a reconnect resumes behind it.
    pub last_seq: u64,
    pub coalescer: InputCoalescer,
}

/// What a tab holds.
pub ghost struct TabView {
    pub key: u64,
    pub kind: TabKind,
    pub title: Seq<char>,
    pub terminal_id: Option<Seq<char>>,
    pub cols: u16,
    pub rows: u16,
    pub exited: Option<i32>,
    pub last_seq: u64,
    pub pending: Seq<u8>,
}

impl View for TerminalTab {
    type V = TabView;

    open spec fn view(&self) -> TabView {
        TabView {
            key: self.key,
            kind: self.kind,
            title: self.title@,
            terminal_id: opt(self.terminal_id),
            cols: self.cols,
            rows: self.rows,
            exited: self.exited,
            last_seq: self.last_seq,
            pending: self.coalescer@,
        }
    }
}

/// The tabs of a chat, and the state of its command feed.
pub struct ChatTabs {
    pub tabs: Vec<TerminalTab>,
    pub active: usize,
    /// Rows opened by hand.
    pub feed_pinned: IdSet,
    /// Rows closed by hand.
    pub feed_dismissed: IdSet,
    /// Replies about output, by tool.
    pub feed_outputs: Keyed<FeedOutput>,
    /// Questions about output that are under way.
    pub feed_pending: IdSet,
}

/// What a chat's tabs and feed hold.
pub ghost struct TabsView {
    pub tabs: Seq<TabView>,
    pub active: usize,
    pub pinned: Set<Seq<char>>,
    pub dismissed: Set<Seq<char>>,
    pub outputs: Map<Seq<char>, OutputView>,
    pub pending: Set<Seq<char>>,
}

/// What some tabs hold.
pub open spec fn tab_views(v: Seq<TerminalTab>) -> Seq<TabView> {
    v.map_values(|t: TerminalTab| t@)
}

impl View for ChatTabs {
    type V = TabsView;

    open spec fn view(&self) -> TabsView {
        TabsView {
            tabs: tab_views(self.tabs@),
            active: self.active,
            pinned: self.feed_pinned@.dom(),
            dismissed: self.feed_dismissed@.dom(),
            outputs: self.feed_outputs@.map_values(|o: FeedOutput| o@),
            pending: self.feed_pending@.dom(),
        }
    }
}

/// A chat without tabs.
pub open spec fn no_tabs() -> TabsView {
    TabsView {
        tabs: Seq::empty(),
        active: 0,
        pinned: Set::empty(),
        dismissed: Set::empty(),
        outputs: Map::empty(),
        pending: Set::empty(),
    }
}

impl ChatTabs {
    pub open spec fn wf(self) -> bool {
        self.feed_pinned.wf() && self.feed_dismissed.wf() && self.feed_outputs.wf()
            && self.feed_pending.wf()
    }

    fn new() -> (c: ChatTabs)
        ensures
            c.wf(),
            c@ == no_tabs(),
    {
        let c = ChatTabs {
            tabs: Vec::new(),
            active: 0,
            feed_pinned: Keyed::new(),
            feed_dismissed: Keyed::new(),
            feed_outputs: Keyed::new(),
            feed_pending: Keyed::new(),
        };
        proof {
            assert(c@.tabs =~= no_tabs().tabs);
            assert(c@.pinned =~= no_tabs().pinned);
            assert(c@.dismissed =~= no_tabs().dismissed);
            assert(c@.outputs =~= no_tabs().outputs);
            assert(c@.pending =~= no_tabs().pending);
        }
        c
    }
}

/// A drag of a tab; `epoch` counts the slots that it passed over.
#[derive(Debug, Clone, Copy, PartialEq, Eq, Structural)]
pub struct DragState {
    pub from: usize,
    pub over: usize,
    pub epoch: usize,
    pub prev_over: usize,
}

/// The panel.
pub struct TerminalPanel {
    pub chats: Keyed<ChatTabs>,
    pub open: bool,
    pub tab_seq: u64,
    pub drag: Option<DragState>,
    pub last_selected: Option<String>,
    /// The tool whose row has to be scrolled to.
    pub pending_anchor: Option<String>,
    /// The tools whose rows are lit.
    pub flash_ids: Vec<String>,
    /// Number of rows and height of the last, when the feed was last drawn.
    pub last_tail_fp: (usize, usize),
}

/// What the panel holds.
pub ghost struct PanelView {
    pub chats: Map<Seq<char>, TabsView>,
    pub open: bool,
    pub tab_seq: u64,
    pub drag: Option<DragState>,
    pub last_selected: Option<Seq<char>>,
    pub anchor: Option<Seq<char>>,
    pub flash: Seq<Seq<char>>,
    pub tail: (usize, usize),
}

/// The texts of a list.
pub open spec fn texts(v: Seq<String>) -> Seq<Seq<char>> {
    v.map_values(|s: String| s@)
}

impl View for TerminalPanel {
    type V = PanelView;

    open spec fn view(&self) -> PanelView {
        PanelView {
            chats: self.chats@.map_values(|c: ChatTabs| c@),
            open: self.open,
            tab_seq: self.tab_seq,
            drag: self.drag,
            last_selected: opt(self.last_selected),
            anchor: opt(self.pending_anchor),
            flash: texts(self.flash_ids@),
            tail: self.last_tail_fp,
        }
    }
}

/// The tabs of a chat; a chat that the panel has not met has none.
pub open spec fn tabs_for(p: PanelView, chat: Seq<char>) -> TabsView {
    if p.chats.contains_key(chat) {
        p.chats[chat]
    } else {
        no_tabs()
    }
}

/// The panel with other tabs for a chat.
pub open spec fn with_tabs(p: PanelView, chat: Seq<char>, t: TabsView) -> PanelView {
    PanelView { chats: p.chats.insert(chat, t), ..p }
}

/// A tab that nothing has happened to.
pub open spec fn blank_tab(key: u64, kind: TabKind, title: Seq<char>) -> TabView {
    TabView {
        key,
        kind,
        title,
        terminal_id: None,
        cols: 80,
        rows: 24,
        exited: None,
        last_seq: 0,
        pending: Seq::empty(),
    }
}

/// The kinds of some tabs.
pub open spec fn kinds(tabs: Seq<TabView>) -> Seq<TabKind> {
    tabs.map_values(|t: TabView| t.kind)
}

/// Whether the first tab is the agent's.
pub open spec fn has_agent(tabs: Seq<TabView>) -> bool {
    tabs.len() > 0 && tabs[0].kind == TabKind::Agent
}

/// Whether a shell is among the tabs.
pub open spec fn has_pty(tabs: Seq<TabView>) -> bool {
    exists|i: int| 0 <= i < tabs.len() && (#[trigger] tabs[i]).kind == TabKind::Pty
}

/// The index behind `i`.
pub open spec fn bumped(i: usize) -> usize {
    if i < usize::MAX {
        (i + 1) as usize
    } else {
        i
    }
}

/// The panel with the agent's tab in the first slot of a chat. The tab that was
/// active stays active.
pub open spec fn agent_added(p: PanelView, chat: Seq<char>) -> PanelView {
    let t = tabs_for(p, chat);
    if has_agent(t.tabs) {
        p
    } else {
        let key = (p.tab_seq + 1) as u64;
        let next = TabsView {
            tabs: seq![blank_tab(key, TabKind::Agent, ""@)] + t.tabs,
            active: if t.tabs.len() > 0 {
                bumped(t.active)
            } else {
                t.active
            },
            ..t
        };
        PanelView { tab_seq: key, ..with_tabs(p, chat, next) }
    }
}

/// The title of the next shell.
pub open spec fn shell_number(tabs: Seq<TabView>) -> Seq<char> {
    "Terminal "@ + decimal(pty_count(kinds(tabs)) + 1)
}

/// The panel with one more shell in a chat, which becomes its active tab.
pub open spec fn shell_added(p: PanelView, chat: Seq<char>) -> PanelView {
    let t = tabs_for(p, chat);
    let key = (p.tab_seq + 1) as u64;
    let next = TabsView {
        tabs: t.tabs.push(blank_tab(key, TabKind::Pty, shell_number(t.tabs))),
        active: t.tabs.len() as usize,
        ..t
    };
    PanelView { tab_seq: key, ..with_tabs(p, chat, next) }
}

/// Whether the selected chat lacks a shell.
pub open spec fn wants_shell(p: PanelView, chat: Seq<char>) -> bool {
    !has_pty(tabs_for(agent_added(p, chat), chat).tabs)
}

/// The panel once the selected chat has the agent's tab and, when there is an
/// engine to run it, a shell.
pub open spec fn ensured(p: PanelView, selected: Option<Seq<char>>, engine: bool) -> PanelView {
    match selected {
        None => p,
        Some(chat) => if wants_shell(p, chat) && engine {
            shell_added(agent_added(p, chat), chat)
        } else {
            agent_added(p, chat)
        },
    }
}

/// The device that hosts a chat, when it is not this one: where every call for
/// the chat's terminals has to go.
pub open spec fn target_of(
    chats: Seq<Chat>,
    local: Option<Seq<char>>,
    chat: Seq<char>,
) -> Option<Seq<char>> {
    match at(chats, chat_ix(chats, chat)) {
        None => None,
        Some(c) => if local == Some(c.device_id@) {
            None
        } else {
            Some(c.device_id@)
        },
    }
}

/// The device that hosts a chat, when it is not this one.
pub fn chat_target(state: &AppState, chat: &str) -> (t: Option<String>)
    ensures
        opt(t) == target_of(state.chats@, opt(state.local_device_id), chat@),
{
    let i: usize = find_chat(&state.chats, chat);
    proof {
        first_at_props(state.chats@, crate::state::chat_named(chat@), 0);
    }
    if i < state.chats.len() {
        if is_text(&state.local_device_id, state.chats[i].device_id.as_str()) {
            None
        } else {
            Some(state.chats[i].device_id.clone())
        }
    } else {
        None
    }
}

/// A terminal session to run for a tab.
#[derive(Debug)]
pub struct SessionStart {
    pub chat: String,
    pub key: u64,
    pub target: Option<String>,
}

/// Whether a session is to be run, and for which tab.
pub open spec fn starts(
    s: Option<SessionStart>,
    wanted: bool,
    chat: Seq<char>,
    key: u64,
    target: Option<Seq<char>>,
) -> bool {
    match s {
        Some(s) => wanted && s.chat@ == chat && s.key == key && opt(s.target) == target,
        None => !wanted,
    }
}

/// The session of a shell that [`ensured`] adds.
pub open spec fn starts_ensured(
    s: Option<SessionStart>,
    p: PanelView,
    selected: Option<Seq<char>>,
    engine: bool,
    chats: Seq<Chat>,
    local: Option<Seq<char>>,
) -> bool {
    match selected {
        None => s is None,
        Some(chat) => starts(
            s,
            wants_shell(p, chat) && engine,
            chat,
            (agent_added(p, chat).tab_seq + 1) as u64,
            target_of(chats, local, chat),
        ),
    }
}

impl TerminalPanel {
    /// The maps of the panel are sound.
    pub open spec fn wf(self) -> bool {
        &&& self.chats.wf()
        &&& forall|chat: Seq<char>| #[trigger]
            self.chats@.contains_key(chat) ==> self.chats@[chat].wf()
    }

    /// Keys for two more tabs are left.
    pub open spec fn has_room(self) -> bool {
        self.tab_seq + 2 <= u64::MAX
    }

    pub fn new() -> (p: TerminalPanel)
        ensures
            p.wf(),
            p@ == (PanelView {
                chats: Map::empty(),
                open: false,
                tab_seq: 0,
                drag: None,
                last_selected: None,
                anchor: None,
                flash: Seq::empty(),
                tail: (0, 0),
            }),
    {
        let p = TerminalPanel {
            chats: Keyed::new(),
            open: false,
            tab_seq: 0,
            drag: None,
            last_selected: None,
            pending_anchor: None,
            flash_ids: Vec::new(),
            last_tail_fp: (0, 0),
        };
        proof {
            assert(p@.chats =~= Map::<Seq<char>, TabsView>::empty());
            assert(p@.flash =~= Seq::<Seq<char>>::empty());
        }
        p
    }

    /// Takes a chat's tabs out, to be put back changed.
    fn take_chat(&mut self, chat: &str) -> (c: ChatTabs)
        requires
            old(self).wf(),
        ensures
            c.wf(),
            c@ == tabs_for(old(self)@, chat@),
            final(self).wf(),
            final(self)@ == (PanelView { chats: old(self)@.chats.remove(chat@), ..old(self)@ }),
            final(self).tab_seq == old(self).tab_seq,
    {
        let c = match self.chats.remove(chat) {
            Some(c) => c,
            None => ChatTabs::new(),
        };
        assert(self@.chats =~= old(self)@.chats.remove(chat@));
        c
    }

    fn put_chat(&mut self, chat: &str, c: ChatTabs)
        requires
            old(self).wf(),
            c.wf(),
        ensures
            final(self).wf(),
            final(self)@ == with_tabs(old(self)@, chat@, c@),
            final(self).tab_seq == old(self).tab_seq,
    {
        self.chats.insert(chat.to_owned(), c);
        assert(self@.chats =~= old(self)@.chats.insert(chat@, c@));
    }

    /// Gives a chat the agent's tab, in the first slot, unless it has it.
    pub fn ensure_agent_tab(&mut self, chat: &str)
        requires
            old(self).wf(),
            old(self).tab_seq < u64::MAX,
        ensures
            final(self).wf(),
            final(self)@ == agent_added(old(self)@, chat@),
    {
        if let Some(c) = self.chats.get(chat) {
            if c.tabs.len() > 0 && c.tabs[0].kind == TabKind::Agent {
                assert(c@.tabs[0].kind == TabKind::Agent);
                return ;
            }
        }
        let ghost before = self@;
        let mut c: ChatTabs = self.take_chat(chat);
        assert(tab_views(c.tabs@).len() == c.tabs@.len());
        proof {
            if c.tabs@.len() > 0 {
                assert(tab_views(c.tabs@)[0] == c.tabs@[0]@);
            }
        }
        self.tab_seq = self.tab_seq + 1;
        let ghost had = c@;
        let tab = TerminalTab {
            key: self.tab_seq,
            kind: TabKind::Agent,
            title: "".to_owned(),
            terminal_id: None,
            cols: 80,
            rows: 24,
            exited: None,
            last_seq: 0,
            coalescer: InputCoalescer::default(),
        };
        let ghost new_tab = tab@;
        c.tabs.insert(0, tab);
        if c.tabs.len() > 1 && c.active < usize::MAX {
            c.active = c.active + 1;
        }
        proof {
            assert(tab_views(c.tabs@) =~= seq![new_tab] + had.tabs);
        }
        self.put_chat(chat, c);
        proof {
            assert(self@.chats =~= agent_added(before, chat@).chats);
        }
    }

    /// Opens a shell in a chat, when there is an engine to run it.
    pub fn open_tab(&mut self, state: &AppState, chat: &str) -> (s: Option<SessionStart>)
        requires
            old(self).wf(),
            old(self).tab_seq < u64::MAX,
        ensures
            final(self).wf(),
            final(self)@ == (if state.engine is Some {
                shell_added(old(self)@, chat@)
            } else {
                old(self)@
            }),
            starts(
                s,
                state.engine is Some,
                chat@,
                (old(self).tab_seq + 1) as u64,
                target_of(state.chats@, opt(state.local_device_id), chat@),
            ),
    {
        if state.engine.is_none() {
            return None;
        }
        let ghost before = self@;
        let mut c: ChatTabs = self.take_chat(chat);
        self.tab_seq = self.tab_seq + 1;
        let ghost had = c@;
        c.tabs.push(
            TerminalTab {
                key: self.tab_seq,
                kind: TabKind::Pty,
                title: String::new(),
                terminal_id: None,
                cols: 80,
                rows: 24,
                exited: None,
                last_seq: 0,
                coalescer: InputCoalescer::default(),
            },
        );
        let last: usize = c.tabs.len() - 1;
        let mut kind_list: Vec<TabKind> = Vec::new();
        let mut i: usize = 0;
        while i < last
            invariant
                i <= last,
                c.tabs@.len() == last + 1,
                kind_list@.len() == i,
                forall|j: int| 0 <= j < i ==> kind_list@[j] == (#[trigger] c.tabs@[j]).kind,
            decreases last - i,
        {
            kind_list.push(c.tabs[i].kind);
            i += 1;
        }
        proof {
            assert forall|j: int| 0 <= j < last implies tab_views(c.tabs@)[j] == had.tabs[j] by {
                assert(c.tabs@[j]@ == had.tabs[j]);
            }
            assert forall|j: int| 0 <= j < last implies kind_list@[j] == kinds(had.tabs)[j] by {
                assert(c.tabs@[j]@ == had.tabs[j]);
            }
            assert(kind_list@ =~= kinds(had.tabs));
        }
        let number: usize = next_pty_number(&kind_list);
        let mut title: String = "Terminal ".to_owned();
        title.append(decimal_text(number as u64).as_str());
        c.tabs[last].title = title;
        c.active = last;
        proof {
            let key = (before.tab_seq + 1) as u64;
            assert(tab_views(c.tabs@)[last as int] == blank_tab(
                key,
                TabKind::Pty,
                shell_number(had.tabs),
            ));
            assert(tab_views(c.tabs@) =~= had.tabs.push(
                blank_tab(key, TabKind::Pty, shell_number(had.tabs)),
            ));
        }
        self.put_chat(chat, c);
        proof {
            assert(self@.chats =~= shell_added(before, chat@).chats);
        }
        Some(
            SessionStart {
                chat: chat.to_owned(),
                key: self.tab_seq,
                target: chat_target(state, chat),
            },
        )
    }

    fn lacks_shell(&self, chat: &str) -> (r: bool)
        requires
            self.wf(),
        ensures
            r == !has_pty(tabs_for(self@, chat@).tabs),
    {
        match self.chats.get(chat) {
            None => true,
            Some(c) => {
                let mut i: usize = 0;
                while i < c.tabs.len()
                    invariant
                        i <= c.tabs@.len(),
                        c@ == tabs_for(self@, chat@),
                        forall|j: int| 0 <= j < i ==> (#[trigger] c.tabs@[j]).kind != TabKind::Pty,
                    decreases c.tabs@.len() - i,
                {
                    if c.tabs[i].kind == TabKind::Pty {
                        assert(tab_views(c.tabs@)[i as int].kind == TabKind::Pty);
                        return false;
                    }
                    i += 1;
                }
                assert forall|j: int| 0 <= j < tab_views(c.tabs@).len() implies (
                #[trigger] tab_views(c.tabs@)[j]).kind != TabKind::Pty by {
                    assert(c.tabs@[j].kind != TabKind::Pty);
                }
                true
            },
        }
    }

    /// Gives the selected chat its agent's tab and its first shell.
    pub fn ensure_tab(&mut self, state: &AppState) -> (s: Option<SessionStart>)
        requires
            old(self).wf(),
            old(self).has_room(),
        ensures
            final(self).wf(),
            final(self)@ == ensured(
                old(self)@,
                opt(state.selected_chat),
                state.engine is Some,
            ),
            starts_ensured(
                s,
                old(self)@,
                opt(state.selected_chat),
                state.engine is Some,
                state.chats@,
                opt(state.local_device_id),
            ),
    {
        match &state.selected_chat {
            None => None,
            Some(chat) => {
                self.ensure_agent_tab(chat.as_str());
                if self.lacks_shell(chat.as_str()) {
                    self.open_tab(state, chat.as_str())
                } else {
                    None
                }
            },
        }
    }

    /// Opens or closes the panel. Opening gives the selected chat its tabs;
    /// closing leaves every session running.
    pub fn set_open(&mut self, state: &AppState, open: bool) -> (s: Option<SessionStart>)
        requires
            old(self).wf(),
            old(self).has_room(),
        ensures
            final(self).wf(),
            ({
                let p = PanelView { open, ..old(self)@ };
                &&& open ==> final(self)@ == ensured(
                    p,
                    opt(state.selected_chat),
                    state.engine is Some,
                )
                &&& open ==> starts_ensured(
                    s,
                    p,
                    opt(state.selected_chat),
                    state.engine is Some,
                    state.chats@,
                    opt(state.local_device_id),
                )
                &&& !open ==> final(self)@ == p && s is None
            }),
    {
        self.open = open;
        if open {
            self.ensure_tab(state)
        } else {
            None
        }
    }

    /// Whether the chat's active tab is the agent's.
    pub open spec fn agent_is_active(p: PanelView, selected: Option<Seq<char>>) -> bool {
        match selected {
            None => false,
            Some(chat) => {
                let t = tabs_for(p, chat);
                t.active < t.tabs.len() && t.tabs[t.active as int].kind == TabKind::Agent
            },
        }
    }

    pub fn active_is_agent(&self, state: &AppState) -> (r: bool)
        requires
            self.wf(),
        ensures
            r == TerminalPanel::agent_is_active(self@, opt(state.selected_chat)),
    {
        match self.active_tab(state) {
            Some(t) => t.kind == TabKind::Agent,
            None => false,
        }
    }

    /// The active tab of the selected chat.
    pub open spec fn active_view(p: PanelView, selected: Option<Seq<char>>) -> Option<TabView> {
        match selected {
            None => None,
            Some(chat) => {
                let t = tabs_for(p, chat);
                if t.active < t.tabs.len() {
                    Some(t.tabs[t.active as int])
                } else {
                    None
                }
            },
        }
    }

    pub fn active_tab(&self, state: &AppState) -> (r: Option<&TerminalTab>)
        requires
            self.wf(),
        ensures
            match r {
                Some(t) => TerminalPanel::active_view(self@, opt(state.selected_chat)) == Some(t@),
                None => TerminalPanel::active_view(self@, opt(state.selected_chat)) is None,
            },
    {
        match &state.selected_chat {
            None => None,
            Some(chat) => match self.chats.get(chat.as_str()) {
                None => None,
                Some(c) => {
                    assert(tab_views(c.tabs@).len() == c.tabs@.len());
                    if c.active < c.tabs.len() {
                        assert(tab_views(c.tabs@)[c.active as int] == c.tabs@[c.active as int]@);
                        Some(&c.tabs[c.active])
                    } else {
                        None
                    }
                },
            },
        }
    }
}

/// A change of the app's state, as the panel took it.
#[derive(Debug)]
pub struct StateChange {
    /// Another chat is selected: the feed scrolls from scratch.
    pub switched: bool,
    pub start: Option<SessionStart>,
    /// The panel has to be drawn again.
    pub redraw: bool,
}

/// The panel turned to another chat: drags, links and the feed's baseline were
/// about the one before.
pub open spec fn turned(p: PanelView, selected: Option<Seq<char>>) -> PanelView {
    if selected == p.last_selected {
        p
    } else {
        PanelView {
            last_selected: selected,
            drag: None,
            anchor: None,
            flash: Seq::empty(),
            tail: (0, 0),
            ..p
        }
    }
}

/// The tab with a key: its index, or the number of tabs.
pub open spec fn tab_ix(tabs: Seq<TabView>, key: u64) -> int {
    first_at(tabs, keyed_by(key), 0)
}

/// The condition of being the tab with a key.
pub open spec fn keyed_by(key: u64) -> spec_fn(TabView) -> bool {
    |t: TabView| t.key == key
}

/// The tab with a key in a chat.
pub open spec fn tab_of(p: PanelView, chat: Seq<char>, key: u64) -> Option<TabView> {
    at(tabs_for(p, chat).tabs, tab_ix(tabs_for(p, chat).tabs, key))
}

/// The panel with the tab of a key in a chat changed; without that tab nothing
/// changes.
pub open spec fn tab_set(p: PanelView, chat: Seq<char>, key: u64, t: TabView) -> PanelView {
    let tabs = tabs_for(p, chat);
    let i = tab_ix(tabs.tabs, key);
    if 0 <= i < tabs.tabs.len() {
        with_tabs(p, chat, TabsView { tabs: tabs.tabs.update(i, t), ..tabs })
    } else {
        p
    }
}

fn find_tab(c: &ChatTabs, key: u64) -> (i: usize)
    ensures
        i == tab_ix(c@.tabs, key),
        i <= c.tabs@.len(),
        i < c.tabs@.len() ==> c@.tabs[i as int] == c.tabs@[i as int]@,
{
    let mut i: usize = 0;
    while i < c.tabs.len() && c.tabs[i].key != key
        invariant
            i <= c.tabs@.len(),
            forall|j: int| 0 <= j < i ==> (#[trigger] c.tabs@[j]).key != key,
        decreases c.tabs@.len() - i,
    {
        i += 1;
    }
    proof {
        let views = tab_views(c.tabs@);
        assert forall|j: int| 0 <= j < i implies !keyed_by(key)(#[trigger] views[j]) by {
            assert(views[j] == c.tabs@[j]@);
            assert(c.tabs@[j].key != key);
        }
        if i < c.tabs@.len() {
            assert(views[i as int] == c.tabs@[i as int]@);
        }
        first_at_is(views, keyed_by(key), i as int);
    }
    i
}

/// What a terminal's stream delivers.
#[derive(Debug, Clone, PartialEq, Eq)]
pub enum TerminalEvent {
    Data { seq: u64, data: String },
    Exit { seq: u64, exit_code: i32 },
}

/// Whether to go on with a stream.
#[derive(Debug, Clone, Copy, PartialEq, Eq, Structural)]
pub enum StreamDisposition {
    Continue,
    Stop,
}

/// A session under way: the tab it runs for, and how often it failed to
/// connect since the last frame.
#[derive(Debug)]
pub struct SessionRun {
    pub chat: String,
    pub key: u64,
    pub target: Option<String>,
    pub attempt: u32,
}

/// What a session does next.
pub enum SessionNext {
    /// Nothing more.
    Stop,
    /// Release the shell and do nothing more.
    Release(Request),
    /// Subscribe to the stream.
    Subscribe(Request),
    /// Wait, in milliseconds, and subscribe again.
    Wait(u64),
}

/// What a session does next, in words.
pub ghost enum NextView {
    Stop,
    Release(Call),
    Subscribe(Call),
    Wait(int),
}

impl View for SessionNext {
    type V = NextView;

    open spec fn view(&self) -> NextView {
        match self {
            SessionNext::Stop => NextView::Stop,
            SessionNext::Release(r) => NextView::Release(r@),
            SessionNext::Subscribe(r) => NextView::Subscribe(r@),
            SessionNext::Wait(ms) => NextView::Wait(*ms as int),
        }
    }
}

/// The call that opens a shell.
pub open spec fn open_call(
    chat: Seq<char>,
    cols: u16,
    rows: u16,
    target: Option<Seq<char>>,
) -> Call {
    routed(
        Call {
            method: Method::OpenTerminal,
            params: Map::empty().insert("chatId"@, ValueView::Text(chat)).insert(
                "cols"@,
                ValueView::Int(cols as int),
            ).insert("rows"@, ValueView::Int(rows as int)),
        },
        target,
    )
}

/// The call that closes a shell.
pub open spec fn close_call(terminal: Seq<char>, target: Option<Seq<char>>) -> Call {
    routed(
        Call {
            method: Method::CloseTerminal,
            params: Map::empty().insert("terminalId"@, ValueView::Text(terminal)),
        },
        target,
    )
}

/// The call that subscribes to a shell's output behind a frame.
pub open spec fn subscribe_call(
    terminal: Seq<char>,
    after: u64,
    target: Option<Seq<char>>,
) -> Call {
    routed(
        Call {
            method: Method::SubscribeTerminal,
            params: Map::empty().insert("terminalId"@, ValueView::Text(terminal)).insert(
                "afterSeq"@,
                ValueView::Int(after as int),
            ),
        },
        target,
    )
}

/// The call that writes bytes to a shell.
pub open spec fn write_call(
    terminal: Seq<char>,
    bytes: Seq<u8>,
    target: Option<Seq<char>>,
) -> Call {
    routed(
        Call {
            method: Method::WriteTerminal,
            params: Map::empty().insert("terminalId"@, ValueView::Text(terminal)).insert(
                "data"@,
                ValueView::Text(base64_text(bytes)),
            ),
        },
        target,
    )
}

/// The call that resizes a shell.
pub open spec fn resize_call(
    terminal: Seq<char>,
    cols: u16,
    rows: u16,
    target: Option<Seq<char>>,
) -> Call {
    routed(
        Call {
            method: Method::ResizeTerminal,
            params: Map::empty().insert("terminalId"@, ValueView::Text(terminal)).insert(
                "cols"@,
                ValueView::Int(cols as int),
            ).insert("rows"@, ValueView::Int(rows as int)),
        },
        target,
    )
}

/// The call that asks for the output of a command.
pub open spec fn output_call(
    chat: Seq<char>,
    tool: Seq<char>,
    target: Option<Seq<char>>,
) -> Call {
    routed(
        Call {
            method: Method::ToolOutput,
            params: Map::empty().insert("chatId"@, ValueView::Text(chat)).insert(
                "toolId"@,
                ValueView::Text(tool),
            ),
        },
        target,
    )
}

fn write_request(terminal: &str, bytes: &[u8], target: &Option<String>) -> (r: Request)
    requires
        fits_base64(bytes@.len()),
    ensures
        r@ == write_call(terminal@, bytes@, opt(*target)),
        frame_bytes(base64_text(bytes@)) == bytes@,
{
    let data: String = encode_base64(bytes);
    with_target(
        Request::new(Method::WriteTerminal).with_text("terminalId", terminal).with_text(
            "data",
            data.as_str(),
        ),
        target,
    )
}

/// Bytes for a tab's screen.
#[derive(Debug)]
pub struct ScreenFeed {
    pub chat: String,
    pub key: u64,
    pub bytes: Vec<u8>,
}

/// Whether there are bytes for a tab's screen, and which.
pub open spec fn feeds(
    f: Option<ScreenFeed>,
    wanted: bool,
    chat: Seq<char>,
    key: u64,
    bytes: Seq<u8>,
) -> bool {
    match f {
        Some(f) => wanted && f.chat@ == chat && f.key == key && f.bytes@ == bytes,
        None => !wanted,
    }
}

impl TerminalPanel {
    /// Takes a change of the app's state in.
    pub fn on_state_changed(&mut self, state: &AppState) -> (r: StateChange)
        requires
            old(self).wf(),
            old(self).has_room(),
        ensures
            final(self).wf(),
            ({
                let selected = opt(state.selected_chat);
                let p = turned(old(self)@, selected);
                &&& r.switched == (selected != old(self)@.last_selected)
                &&& old(self).open ==> final(self)@ == ensured(p, selected, state.engine is Some)
                &&& old(self).open ==> starts_ensured(
                    r.start,
                    p,
                    selected,
                    state.engine is Some,
                    state.chats@,
                    opt(state.local_device_id),
                )
                &&& !old(self).open ==> final(self)@ == p && r.start is None
                &&& r.redraw == (r.switched || (old(self).open && TerminalPanel::agent_is_active(
                    final(self)@,
                    selected,
                )))
            }),
    {
        let switched: bool = !same_opt(&state.selected_chat, &self.last_selected);
        if switched {
            self.last_selected = copy_opt(&state.selected_chat);
            self.drag = None;
            self.pending_anchor = None;
            self.flash_ids = Vec::new();
            self.last_tail_fp = (0, 0);
            assert(self@.flash =~= Seq::<Seq<char>>::empty());
        }
        assert(self@.chats =~= old(self)@.chats);
        assert(self@ == turned(old(self)@, opt(state.selected_chat)));
        let start: Option<SessionStart> = if self.open {
            self.ensure_tab(state)
        } else {
            None
        };
        let redraw: bool = switched || (self.open && self.active_is_agent(state));
        StateChange { switched, start, redraw }
    }

    /// The tab of a session, when it is still there.
    fn run_tab(&self, chat: &str, key: u64) -> (r: Option<&TerminalTab>)
        requires
            self.wf(),
        ensures
            match r {
                Some(t) => tab_of(self@, chat@, key) == Some(t@),
                None => tab_of(self@, chat@, key) is None,
            },
    {
        match self.chats.get(chat) {
            None => {
                proof {
                    first_at_props(no_tabs().tabs, keyed_by(key), 0);
                }
                None
            },
            Some(c) => {
                let i: usize = find_tab(c, key);
                assert(c@.tabs.len() == c.tabs@.len());
                if i < c.tabs.len() {
                    Some(&c.tabs[i])
                } else {
                    None
                }
            },
        }
    }

    /// The call that opens the shell of a session, in the size of its tab.
    pub fn open_request(&self, run: &SessionRun) -> (r: Request)
        requires
            self.wf(),
        ensures
            r@ == (match tab_of(self@, run.chat@, run.key) {
                Some(t) => open_call(run.chat@, t.cols, t.rows, opt(run.target)),
                None => open_call(run.chat@, 80, 24, opt(run.target)),
            }),
    {
        let (cols, rows): (u16, u16) = match self.run_tab(run.chat.as_str(), run.key) {
            Some(t) => (t.cols, t.rows),
            None => (80, 24),
        };
        with_target(
            Request::new(Method::OpenTerminal).with_text("chatId", run.chat.as_str()).with(
                "cols",
                Value::Int(cols as u64),
            ).with("rows", Value::Int(rows as u64)),
            &run.target,
        )
    }

    /// Changes the tab with a key, if it is there.
    fn change_tab(
        &mut self,
        chat: &str,
        key: u64,
        terminal_id: Option<String>,
        exited: Option<i32>,
        last_seq: u64,
    ) -> (changed: bool)
        requires
            old(self).wf(),
        ensures
            final(self).wf(),
            changed == (tab_of(old(self)@, chat@, key) is Some),
            final(self)@ == (match tab_of(old(self)@, chat@, key) {
                Some(t) => tab_set(
                    old(self)@,
                    chat@,
                    key,
                    TabView { terminal_id: opt(terminal_id), exited, last_seq, ..t },
                ),
                None => old(self)@,
            }),
    {
        if self.run_tab(chat, key).is_none() {
            return false;
        }
        let ghost before = self@;
        let mut c: ChatTabs = self.take_chat(chat);
        let ghost had = c@;
        let i: usize = find_tab(&c, key);
        proof {
            first_at_props(tabs_for(before, chat@).tabs, keyed_by(key), 0);
            assert(c@.tabs.len() == c.tabs@.len());
        }
        c.tabs[i].terminal_id = terminal_id;
        c.tabs[i].exited = exited;
        c.tabs[i].last_seq = last_seq;
        proof {
            let t = TabView { terminal_id: opt(terminal_id), exited, last_seq, ..had.tabs[i as int] };
            assert(c@.tabs =~= had.tabs.update(i as int, t));
        }
        self.put_chat(chat, c);
        proof {
            let t = TabView { terminal_id: opt(terminal_id), exited, last_seq, ..had.tabs[i as int] };
            assert(self@.chats =~= tab_set(before, chat@, key, t).chats);
        }
        true
    }

    /// The reply to opening a shell. A failure is shown on the tab, which is
    /// then over. A shell whose tab was closed meanwhile is released.
    pub fn on_opened(
        &mut self,
        run: &SessionRun,
        reply: Result<String, String>,
    ) -> (r: (SessionNext, Option<ScreenFeed>))
        requires
            old(self).wf(),
        ensures
            final(self).wf(),
            ({
                let tab = tab_of(old(self)@, run.chat@, run.key);
                match reply {
                    Ok(id) => {
                        &&& r.1 is None
                        &&& match tab {
                            Some(t) => {
                                &&& r.0@ == NextView::Subscribe(
                                    subscribe_call(id@, t.last_seq, opt(run.target)),
                                )
                                &&& final(self)@ == tab_set(
                                    old(self)@,
                                    run.chat@,
                                    run.key,
                                    TabView { terminal_id: Some(id@), ..t },
                                )
                            },
                            None => {
                                &&& r.0@ == NextView::Release(close_call(id@, opt(run.target)))
                                &&& final(self)@ == old(self)@
                            },
                        }
                    },
                    Err(error) => {
                        &&& r.0@ == NextView::Stop
                        &&& feeds(
                            r.1,
                            tab is Some,
                            run.chat@,
                            run.key,
                            vstd::utf8::encode_utf8(failure_text(error@)),
                        )
                        &&& final(self)@ == (match tab {
                            Some(t) => tab_set(
                                old(self)@,
                                run.chat@,
                                run.key,
                                TabView { exited: Some(-1i32), ..t },
                            ),
                            None => old(self)@,
                        })
                    },
                }
            }),
    {
        let (terminal_id, exited, last_seq): (Option<String>, Option<i32>, u64) =
            match self.run_tab(run.chat.as_str(), run.key) {
            Some(t) => (copy_opt(&t.terminal_id), t.exited, t.last_seq),
            None => {
                return match reply {
                    Ok(id) => {
                        let close = with_target(
                            Request::new(Method::CloseTerminal).with_text(
                                "terminalId",
                                id.as_str(),
                            ),
                            &run.target,
                        );
                        (SessionNext::Release(close), None)
                    },
                    Err(_) => (SessionNext::Stop, None),
                };
            },
        };
        match reply {
            Ok(id) => {
                self.change_tab(run.chat.as_str(), run.key, Some(id.clone()), exited, last_seq);
                (
                    SessionNext::Subscribe(subscribe_request(id.as_str(), last_seq, &run.target)),
                    None,
                )
            },
            Err(error) => {
                self.change_tab(run.chat.as_str(), run.key, terminal_id, Some(-1), last_seq);
                let bytes: Vec<u8> = failure_message(error.as_str());
                (
                    SessionNext::Stop,
                    Some(ScreenFeed { chat: run.chat.clone(), key: run.key, bytes }),
                )
            },
        }
    }

    /// Subscribing again: the stream resumes behind the last frame, unless the
    /// tab was closed.
    pub fn resubscribe(&self, run: &SessionRun, terminal_id: &str) -> (next: SessionNext)
        requires
            self.wf(),
        ensures
            next@ == (match tab_of(self@, run.chat@, run.key) {
                Some(t) => NextView::Subscribe(
                    subscribe_call(terminal_id@, t.last_seq, opt(run.target)),
                ),
                None => NextView::Stop,
            }),
    {
        match self.run_tab(run.chat.as_str(), run.key) {
            Some(t) => SessionNext::Subscribe(
                subscribe_request(terminal_id, t.last_seq, &run.target),
            ),
            None => SessionNext::Stop,
        }
    }

    /// The stream ended without an exit: reconnect after a while, unless the
    /// tab is closed or over.
    pub fn on_stream_end(&self, run: &mut SessionRun) -> (next: SessionNext)
        requires
            self.wf(),
        ensures
            ({
                let over = match tab_of(self@, old(run).chat@, old(run).key) {
                    Some(t) => t.exited is Some,
                    None => true,
                };
                &&& over ==> next@ == NextView::Stop && *final(run) == *old(run)
                &&& !over ==> next@ == NextView::Wait(backoff(old(run).attempt as int))
                &&& !over ==> *final(run) == (SessionRun {
                    attempt: next_attempt(old(run).attempt),
                    ..*old(run)
                })
            }),
    {
        let over: bool = match self.run_tab(run.chat.as_str(), run.key) {
            Some(t) => t.exited.is_some(),
            None => true,
        };
        if over {
            SessionNext::Stop
        } else {
            on_subscribe_failed(run)
        }
    }

    /// A frame of a shell's stream: output for the screen, or the end of the
    /// process. A frame that arrives clears the count of failed attempts.
    pub fn apply_stream_event(
        &mut self,
        run: &mut SessionRun,
        event: TerminalEvent,
    ) -> (r: (StreamDisposition, Option<ScreenFeed>))
        requires
            old(self).wf(),
        ensures
            final(self).wf(),
            *final(run) == (SessionRun { attempt: 0, ..*old(run) }),
            ({
                let chat = old(run).chat@;
                let key = old(run).key;
                match tab_of(old(self)@, chat, key) {
                    None => r.0 == StreamDisposition::Stop && r.1 is None && final(self)@ == old(
                        self,
                    )@,
                    Some(t) => match event {
                        TerminalEvent::Data { seq, data } => {
                            &&& r.0 == StreamDisposition::Continue
                            &&& feeds(r.1, true, chat, key, frame_bytes(data@))
                            &&& final(self)@ == tab_set(
                                old(self)@,
                                chat,
                                key,
                                TabView { last_seq: seq, ..t },
                            )
                        },
                        TerminalEvent::Exit { seq, exit_code } => {
                            &&& r.0 == StreamDisposition::Stop
                            &&& feeds(
                                r.1,
                                true,
                                chat,
                                key,
                                vstd::utf8::encode_utf8(exit_text(exit_code as int)),
                            )
                            &&& final(self)@ == tab_set(
                                old(self)@,
                                chat,
                                key,
                                TabView { last_seq: seq, exited: Some(exit_code), ..t },
                            )
                        },
                    },
                }
            }),
    {
        run.attempt = 0;
        let (terminal_id, exited): (Option<String>, Option<i32>) = match self.run_tab(
            run.chat.as_str(),
            run.key,
        ) {
            Some(t) => (copy_opt(&t.terminal_id), t.exited),
            None => {
                return (StreamDisposition::Stop, None);
            },
        };
        match event {
            TerminalEvent::Data { seq, data } => {
                self.change_tab(run.chat.as_str(), run.key, terminal_id, exited, seq);
                let bytes: Vec<u8> = decode_base64(data.as_str());
                (
                    StreamDisposition::Continue,
                    Some(ScreenFeed { chat: run.chat.clone(), key: run.key, bytes }),
                )
            },
            TerminalEvent::Exit { seq, exit_code } => {
                self.change_tab(run.chat.as_str(), run.key, terminal_id, Some(exit_code), seq);
                let bytes: Vec<u8> = exit_message(exit_code);
                (
                    StreamDisposition::Stop,
                    Some(ScreenFeed { chat: run.chat.clone(), key: run.key, bytes }),
                )
            },
        }
    }

    /// What the screen answers to a query in the output goes straight back to
    /// the shell.
    pub fn answer_request(
        &self,
        state: &AppState,
        chat: &str,
        key: u64,
        responses: &Vec<u8>,
    ) -> (r: Option<Request>)
        requires
            self.wf(),
            fits_base64(responses@.len()),
        ensures
            ({
                let target = target_of(state.chats@, opt(state.local_device_id), chat@);
                let id = match tab_of(self@, chat@, key) {
                    Some(t) => t.terminal_id,
                    None => None,
                };
                match r {
                    Some(request) => responses@.len() > 0 && id is Some && request@ == write_call(
                        id->0,
                        responses@,
                        target,
                    ),
                    None => responses@.len() == 0 || id is None,
                }
            }),
    {
        if responses.len() == 0 {
            return None;
        }
        match self.run_tab(chat, key) {
            None => None,
            Some(t) => match &t.terminal_id {
                None => None,
                Some(id) => Some(
                    write_request(id.as_str(), responses.as_slice(), &chat_target(state, chat)),
                ),
            },
        }
    }
}

/// The number of the next attempt to connect.
pub open spec fn next_attempt(attempt: u32) -> u32 {
    if attempt < u32::MAX {
        (attempt + 1) as u32
    } else {
        attempt
    }
}

/// Subscribing failed: try again after a while that grows with each attempt.
pub fn on_subscribe_failed(run: &mut SessionRun) -> (next: SessionNext)
    ensures
        next@ == NextView::Wait(backoff(old(run).attempt as int)),
        *final(run) == (SessionRun { attempt: next_attempt(old(run).attempt), ..*old(run) }),
{
    let ms: u64 = backoff_ms(run.attempt);
    if run.attempt < u32::MAX {
        run.attempt = run.attempt + 1;
    }
    SessionNext::Wait(ms)
}

fn subscribe_request(terminal_id: &str, after: u64, target: &Option<String>) -> (r: Request)
    ensures
        r@ == subscribe_call(terminal_id@, after, opt(*target)),
{
    with_target(
        Request::new(Method::SubscribeTerminal).with_text("terminalId", terminal_id).with(
            "afterSeq",
            Value::Int(after),
        ),
        target,
    )
}

/// Input that a tab took: whether a flush has to be scheduled for it.
#[derive(Debug)]
pub struct Queued {
    pub chat: String,
    pub key: u64,
    pub flush: bool,
    /// The tab's screen is scrolled back and returns to its live end.
    pub snap: bool,
}

/// What came of a flush.
pub enum Flushed {
    Nothing,
    /// The shell is not open yet: flush again in a while.
    Again,
    Write(Request),
}

/// The panel with the active tab of the selected chat changed.
pub open spec fn active_set(p: PanelView, chat: Seq<char>, t: TabView) -> PanelView {
    let tabs = tabs_for(p, chat);
    with_tabs(p, chat, TabsView { tabs: tabs.tabs.update(tabs.active as int, t), ..tabs })
}

/// The tab that input goes to: the active one, while its process lives.
pub open spec fn input_tab(p: PanelView, selected: Option<Seq<char>>) -> Option<TabView> {
    match TerminalPanel::active_view(p, selected) {
        Some(t) if t.exited is None => Some(t),
        _ => None,
    }
}

/// The panel with bytes queued on the tab that input goes to.
pub open spec fn queued(p: PanelView, selected: Option<Seq<char>>, bytes: Seq<u8>) -> PanelView {
    match input_tab(p, selected) {
        Some(t) => active_set(p, selected->0, TabView { pending: t.pending + bytes, ..t }),
        None => p,
    }
}

/// What queueing tells: a flush is due when the tab had nothing pending, and a
/// screen that is scrolled back returns to its live end.
pub open spec fn queue_result(
    r: Option<Queued>,
    p: PanelView,
    selected: Option<Seq<char>>,
    bytes: Seq<u8>,
    scrolled_back: bool,
) -> bool {
    match (r, input_tab(p, selected)) {
        (Some(q), Some(t)) => q.chat@ == selected->0 && q.key == t.key && q.flush == (
        t.pending.len() == 0 && bytes.len() > 0) && q.snap == scrolled_back,
        (None, None) => true,
        _ => false,
    }
}

/// A key press.
#[derive(Debug)]
pub struct Keystroke {
    pub key: String,
    pub key_char: Option<String>,
    pub modifiers: Modifiers,
}

/// What a key press was.
pub enum KeyOutcome {
    /// Paste the clipboard.
    Paste,
    /// Input, taken or dropped.
    Consumed(Option<Queued>),
    /// Not the terminal's.
    Pass,
}

/// Whether a key press asks to paste.
pub open spec fn is_paste(k: Keystroke) -> bool {
    k.key@ == "v"@ && (k.modifiers.platform || (k.modifiers.control && k.modifiers.shift))
}

/// A new size of the active tab. It is announced to the engine, once it has
/// held for a while, when there is an engine.
#[derive(Debug)]
pub struct GridResize {
    pub chat: String,
    pub key: u64,
    pub announce: bool,
    pub terminal_id: Option<String>,
    pub target: Option<String>,
}

/// A reply about the output of a command.
#[derive(Debug)]
pub struct ToolOutputReply {
    pub found: bool,
    pub output: Option<String>,
    pub truncated: bool,
}

/// What is kept of a reply.
pub open spec fn kept_reply(r: ToolOutputReply) -> OutputView {
    match r.output {
        Some(output) if r.found => OutputView::Loaded { output: output@, truncated: r.truncated },
        _ => OutputView::Unavailable,
    }
}

/// A tab that was closed.
pub struct ClosedTab {
    /// The last shell is gone and the panel is open: it has to close.
    pub toggle_drawer: bool,
    /// The call that releases the shell.
    pub request: Option<Request>,
}

/// The tabs of a chat after the tab at `i` is closed.
pub open spec fn tab_closed(t: TabsView, i: int) -> TabsView {
    TabsView {
        tabs: t.tabs.remove(i),
        active: active_closed(t.active as int, i, t.tabs.len() - 1) as usize,
        ..t
    }
}

/// The tabs of a chat after a row of its feed was clicked.
pub open spec fn row_toggled(t: TabsView, tool: Seq<char>, is_last: bool) -> TabsView {
    if row_open(t.pinned, t.dismissed, tool, is_last) {
        TabsView { pinned: t.pinned.remove(tool), dismissed: t.dismissed.insert(tool), ..t }
    } else {
        TabsView { dismissed: t.dismissed.remove(tool), pinned: t.pinned.insert(tool), ..t }
    }
}

/// A click always flips a row, and touches no other row.
pub proof fn a_click_flips_one_row(
    t: TabsView,
    tool: Seq<char>,
    is_last: bool,
    other: Seq<char>,
    other_last: bool,
)
    ensures
        ({
            let now = row_toggled(t, tool, is_last);
            &&& row_open(now.pinned, now.dismissed, tool, is_last) == !row_open(
                t.pinned,
                t.dismissed,
                tool,
                is_last,
            )
            &&& other != tool ==> row_open(now.pinned, now.dismissed, other, other_last)
                == row_open(t.pinned, t.dismissed, other, other_last)
        }),
{
}

/// Whether a command is the last of the feed.
pub open spec fn is_tail(feed: Seq<FeedView>, tool: Seq<char>) -> bool {
    feed.len() > 0 && feed.last().id == tool
}

/// Whether the output of a command has to be asked for.
pub open spec fn needs_fetch(t: TabsView, tool: Seq<char>, status: FeedStatus) -> bool {
    status != FeedStatus::Running && !t.outputs.contains_key(tool) && !t.pending.contains(tool)
}

/// The panel after the output of a command was asked for, if it had to be.
/// Without an engine there is nothing to be had.
pub open spec fn fetched(
    p: PanelView,
    chat: Seq<char>,
    tool: Seq<char>,
    status: FeedStatus,
    engine: bool,
) -> PanelView {
    let t = tabs_for(p, chat);
    if status == FeedStatus::Running {
        p
    } else if !needs_fetch(t, tool, status) {
        with_tabs(p, chat, t)
    } else if engine {
        with_tabs(p, chat, TabsView { pending: t.pending.insert(tool), ..t })
    } else {
        with_tabs(
            p,
            chat,
            TabsView { outputs: t.outputs.insert(tool, OutputView::Unavailable), ..t },
        )
    }
}

/// The larger of two indices.
pub open spec fn at_least(i: usize, low: usize) -> usize {
    if i < low {
        low
    } else {
        i
    }
}

/// The drag after the pointer moved over a slot.
pub open spec fn dragged(d: Option<DragState>, from: usize, over: usize) -> DragState {
    match d {
        None => DragState { from, over, epoch: 0, prev_over: from },
        Some(d) => if d.over == over {
            d
        } else {
            DragState { from: d.from, over, epoch: (d.epoch + 1) as usize, prev_over: d.over }
        },
    }
}

/// The tabs of a chat after a move.
pub open spec fn tabs_moved(t: TabsView, from: usize, to: usize) -> TabsView {
    TabsView {
        tabs: moved(t.tabs, from as int, to as int),
        active: active_moved(t.active as int, from as int, to as int) as usize,
        ..t
    }
}

/// The panel after a drag was dropped.
pub open spec fn reordered(p: PanelView, chat: Seq<char>, from: usize, to: usize) -> PanelView {
    if p.chats.contains_key(chat) {
        PanelView { drag: None, ..with_tabs(p, chat, tabs_moved(p.chats[chat], from, to)) }
    } else {
        PanelView { drag: None, ..p }
    }
}

impl TerminalPanel {
    /// Queues keyboard bytes on the active tab.
    pub fn queue_input(&mut self, state: &AppState, bytes: &[u8], scrolled_back: bool) -> (r: Option<
        Queued,
    >)
        requires
            old(self).wf(),
        ensures
            final(self).wf(),
            final(self)@ == queued(old(self)@, opt(state.selected_chat), bytes@),
            queue_result(r, old(self)@, opt(state.selected_chat), bytes@, scrolled_back),
    {
        match self.active_tab(state) {
            None => {
                return None;
            },
            Some(t) => {
                if t.exited.is_some() {
                    return None;
                }
            },
        }
        match &state.selected_chat {
            None => None,
            Some(chat) => {
                let ghost before = self@;
                let mut c: ChatTabs = self.take_chat(chat.as_str());
                let ghost had = c@;
                let i: usize = c.active;
                assert(had.tabs.len() == c.tabs@.len());
                assert(had.tabs[i as int] == c.tabs@[i as int]@);
                let key: u64 = c.tabs[i].key;
                let flush: bool = c.tabs[i].coalescer.push(bytes);
                proof {
                    let t = had.tabs[i as int];
                    assert(c@.tabs =~= had.tabs.update(
                        i as int,
                        TabView { pending: t.pending + bytes@, ..t },
                    ));
                }
                self.put_chat(chat.as_str(), c);
                assert(self@.chats =~= queued(before, Some(chat@), bytes@).chats);
                Some(Queued { chat: chat.clone(), key, flush, snap: scrolled_back })
            },
        }
    }

    /// Writes what is pending on a tab. While its shell is still being opened
    /// the bytes are kept.
    pub fn flush_input(&mut self, state: &AppState, chat: &str, key: u64) -> (r: Flushed)
        requires
            old(self).wf(),
            tab_of(old(self)@, chat@, key) matches Some(t) ==> fits_base64(t.pending.len()),
        ensures
            final(self).wf(),
            ({
                let tab = tab_of(old(self)@, chat@, key);
                if state.engine is None || tab is None || tab->0.pending.len() == 0 {
                    r is Nothing && final(self)@ == old(self)@
                } else {
                    let t = tab->0;
                    match t.terminal_id {
                        None => final(self)@ == old(self)@ && (if t.exited is None {
                            r is Again
                        } else {
                            r is Nothing
                        }),
                        Some(id) => {
                            &&& r matches Flushed::Write(request) && request@ == write_call(
                                id,
                                t.pending,
                                target_of(state.chats@, opt(state.local_device_id), chat@),
                            )
                            &&& frame_bytes(base64_text(t.pending)) == t.pending
                            &&& final(self)@ == tab_set(
                                old(self)@,
                                chat@,
                                key,
                                TabView { pending: Seq::empty(), ..t },
                            )
                        },
                    }
                }
            }),
    {
        if state.engine.is_none() {
            return Flushed::Nothing;
        }
        let id: String = match self.run_tab(chat, key) {
            None => {
                return Flushed::Nothing;
            },
            Some(t) => {
                if t.coalescer.is_empty() {
                    return Flushed::Nothing;
                }
                match &t.terminal_id {
                    None => {
                        return if t.exited.is_none() {
                            Flushed::Again
                        } else {
                            Flushed::Nothing
                        };
                    },
                    Some(id) => id.clone(),
                }
            },
        };
        let ghost before = self@;
        let mut c: ChatTabs = self.take_chat(chat);
        let ghost had = c@;
        let i: usize = find_tab(&c, key);
        proof {
            first_at_props(tabs_for(before, chat@).tabs, keyed_by(key), 0);
            assert(c@.tabs.len() == c.tabs@.len());
        }
        let bytes: Vec<u8> = c.tabs[i].coalescer.take();
        proof {
            let t = TabView { pending: Seq::empty(), ..had.tabs[i as int] };
            assert(c@.tabs =~= had.tabs.update(i as int, t));
        }
        self.put_chat(chat, c);
        proof {
            let t = TabView { pending: Seq::empty(), ..had.tabs[i as int] };
            assert(self@.chats =~= tab_set(before, chat@, key, t).chats);
        }
        Flushed::Write(
            write_request(id.as_str(), bytes.as_slice(), &chat_target(state, chat)),
        )
    }

    /// Pastes text on the active tab.
    pub fn paste_text(
        &mut self,
        state: &AppState,
        text: &str,
        bracketed: bool,
        scrolled_back: bool,
    ) -> (r: Option<Queued>)
        requires
            old(self).wf(),
        ensures
            final(self).wf(),
            final(self)@ == queued(
                old(self)@,
                opt(state.selected_chat),
                pasted(text@, bracketed),
            ),
            queue_result(
                r,
                old(self)@,
                opt(state.selected_chat),
                pasted(text@, bracketed),
                scrolled_back,
            ),
    {
        let bytes: Vec<u8> = paste_bytes(text, bracketed);
        self.queue_input(state, bytes.as_slice(), scrolled_back)
    }

    /// A key press in the terminal: a paste, input for the shell, or somebody
    /// else's key.
    pub fn on_key_down(
        &mut self,
        state: &AppState,
        k: &Keystroke,
        app_cursor: bool,
        scrolled_back: bool,
    ) -> (r: KeyOutcome)
        requires
            old(self).wf(),
        ensures
            final(self).wf(),
            ({
                let bytes = keystroke(k.key@, opt(k.key_char), k.modifiers, app_cursor);
                if is_paste(*k) {
                    r is Paste && final(self)@ == old(self)@
                } else {
                    match bytes {
                        None => r is Pass && final(self)@ == old(self)@,
                        Some(b) => {
                            &&& final(self)@ == queued(old(self)@, opt(state.selected_chat), b)
                            &&& r matches KeyOutcome::Consumed(q) && queue_result(
                                q,
                                old(self)@,
                                opt(state.selected_chat),
                                b,
                                scrolled_back,
                            )
                        },
                    }
                }
            }),
    {
        if same(k.key.as_str(), "v") && (k.modifiers.platform || (k.modifiers.control
            && k.modifiers.shift)) {
            return KeyOutcome::Paste;
        }
        let key_char: Option<&str> = match &k.key_char {
            Some(c) => Some(c.as_str()),
            None => None,
        };
        match keystroke_bytes(k.key.as_str(), key_char, &k.modifiers, app_cursor) {
            None => KeyOutcome::Pass,
            Some(bytes) => KeyOutcome::Consumed(
                self.queue_input(state, bytes.as_slice(), scrolled_back),
            ),
        }
    }

    /// The size that was measured for the active tab. Nothing happens when it is
    /// the size it has.
    pub fn on_grid_metrics(&mut self, state: &AppState, cols: u16, rows: u16) -> (r: Option<
        GridResize,
    >)
        requires
            old(self).wf(),
        ensures
            final(self).wf(),
            match TerminalPanel::active_view(old(self)@, opt(state.selected_chat)) {
                None => r is None && final(self)@ == old(self)@,
                Some(t) => if t.cols == cols && t.rows == rows {
                    r is None && final(self)@ == old(self)@
                } else {
                    let chat = state.selected_chat->0@;
                    &&& final(self)@ == active_set(old(self)@, chat, TabView { cols, rows, ..t })
                    &&& r matches Some(g) && g.chat@ == chat && g.key == t.key && g.announce == (
                    state.engine is Some) && opt(g.terminal_id) == t.terminal_id && opt(g.target)
                        == target_of(state.chats@, opt(state.local_device_id), chat)
                },
            },
    {
        let (key, terminal_id): (u64, Option<String>) = match self.active_tab(state) {
            None => {
                return None;
            },
            Some(t) => {
                if t.cols == cols && t.rows == rows {
                    return None;
                }
                (t.key, copy_opt(&t.terminal_id))
            },
        };
        match &state.selected_chat {
            None => None,
            Some(chat) => {
                let ghost before = self@;
                let mut c: ChatTabs = self.take_chat(chat.as_str());
                let ghost had = c@;
                let i: usize = c.active;
                assert(had.tabs.len() == c.tabs@.len());
                assert(had.tabs[i as int] == c.tabs@[i as int]@);
                c.tabs[i].cols = cols;
                c.tabs[i].rows = rows;
                let ghost t = TabView { cols, rows, ..had.tabs[i as int] };
                assert(c@.tabs =~= had.tabs.update(i as int, t));
                self.put_chat(chat.as_str(), c);
                assert(self@.chats =~= active_set(before, chat@, t).chats);
                Some(
                    GridResize {
                        chat: chat.clone(),
                        key,
                        announce: state.engine.is_some(),
                        terminal_id,
                        target: chat_target(state, chat.as_str()),
                    },
                )
            },
        }
    }

    /// The call that announces a size once it has held: the size of that moment,
    /// to the shell that the tab has by then, or else the one it had.
    pub fn resize_request(&self, g: &GridResize) -> (r: Option<Request>)
        requires
            self.wf(),
        ensures
            ({
                let tab = tab_of(self@, g.chat@, g.key);
                let id = match tab {
                    Some(t) => match t.terminal_id {
                        Some(id) => Some(id),
                        None => opt(g.terminal_id),
                    },
                    None => None,
                };
                match r {
                    Some(request) => id is Some && request@ == resize_call(
                        id->0,
                        tab->0.cols,
                        tab->0.rows,
                        opt(g.target),
                    ),
                    None => id is None,
                }
            }),
    {
        match self.run_tab(g.chat.as_str(), g.key) {
            None => None,
            Some(t) => {
                let id: &String = match &t.terminal_id {
                    Some(id) => id,
                    None => match &g.terminal_id {
                        Some(id) => id,
                        None => {
                            return None;
                        },
                    },
                };
                Some(
                    with_target(
                        Request::new(Method::ResizeTerminal).with_text(
                            "terminalId",
                            id.as_str(),
                        ).with("cols", Value::Int(t.cols as u64)).with(
                            "rows",
                            Value::Int(t.rows as u64),
                        ),
                        &g.target,
                    ),
                )
            },
        }
    }

    /// The tab that a turn of the wheel scrolls.
    pub fn scroll_active(&self, state: &AppState, delta_lines: i32) -> (key: Option<u64>)
        requires
            self.wf(),
        ensures
            key == (match TerminalPanel::active_view(self@, opt(state.selected_chat)) {
                Some(t) if delta_lines != 0 => Some(t.key),
                _ => None,
            }),
    {
        if delta_lines == 0 {
            return None;
        }
        match self.active_tab(state) {
            Some(t) => Some(t.key),
            None => None,
        }
    }

    /// Makes a tab active; the result tells whether there is one in that slot.
    pub fn select_tab(&mut self, chat: &str, ix: usize) -> (changed: bool)
        requires
            old(self).wf(),
        ensures
            final(self).wf(),
            changed == (ix < tabs_for(old(self)@, chat@).tabs.len()),
            final(self)@ == (if changed {
                with_tabs(
                    old(self)@,
                    chat@,
                    TabsView { active: ix, ..tabs_for(old(self)@, chat@) },
                )
            } else {
                old(self)@
            }),
    {
        match self.chats.get(chat) {
            None => {
                return false;
            },
            Some(c) => {
                assert(c@.tabs.len() == c.tabs@.len());
                if ix >= c.tabs.len() {
                    return false;
                }
            },
        }
        let ghost before = self@;
        let mut c: ChatTabs = self.take_chat(chat);
        c.active = ix;
        self.put_chat(chat, c);
        assert(self@.chats =~= with_tabs(
            before,
            chat@,
            TabsView { active: ix, ..tabs_for(before, chat@) },
        ).chats);
        true
    }

    /// Follows a link from the transcript: shows the agent's tab, scrolls to the
    /// first of the commands and lights them all.
    pub fn reveal_agent_commands(&mut self, state: &AppState, tool_ids: Vec<String>) -> (lit: bool)
        requires
            old(self).wf(),
            old(self).tab_seq < u64::MAX,
        ensures
            final(self).wf(),
            lit == (state.selected_chat is Some),
            final(self)@ == (match opt(state.selected_chat) {
                None => old(self)@,
                Some(chat) => {
                    let p = agent_added(old(self)@, chat);
                    PanelView {
                        anchor: if tool_ids@.len() > 0 {
                            Some(tool_ids@[0]@)
                        } else {
                            None
                        },
                        flash: texts(tool_ids@),
                        ..with_tabs(p, chat, TabsView { active: 0, ..tabs_for(p, chat) })
                    }
                },
            }),
    {
        match &state.selected_chat {
            None => false,
            Some(chat) => {
                let ghost start = self@;
                self.ensure_agent_tab(chat.as_str());
                let ghost p = self@;
                let mut c: ChatTabs = self.take_chat(chat.as_str());
                c.active = 0;
                self.put_chat(chat.as_str(), c);
                self.pending_anchor = if tool_ids.len() > 0 {
                    Some(tool_ids[0].clone())
                } else {
                    None
                };
                self.flash_ids = tool_ids;
                proof {
                    assert(self@.chats =~= with_tabs(
                        p,
                        chat@,
                        TabsView { active: 0, ..tabs_for(p, chat@) },
                    ).chats);
                }
                true
            },
        }
    }

    /// The rows of a link have been lit long enough.
    pub fn clear_flash(&mut self)
        requires
            old(self).wf(),
        ensures
            final(self).wf(),
            final(self)@ == (PanelView { flash: Seq::empty(), ..old(self)@ }),
    {
        self.flash_ids = Vec::new();
        assert(self@.flash =~= Seq::<Seq<char>>::empty());
        assert(self@.chats =~= old(self)@.chats);
    }

    /// A click on a row of the feed.
    pub fn toggle_feed_row(
        &mut self,
        transcript: &Vec<SessionMessageEntry>,
        chat: &str,
        tool_id: &str,
    )
        requires
            old(self).wf(),
        ensures
            final(self).wf(),
            final(self)@ == with_tabs(
                old(self)@,
                chat@,
                row_toggled(
                    tabs_for(old(self)@, chat@),
                    tool_id@,
                    is_tail(feed_of(transcript@, true), tool_id@),
                ),
            ),
    {
        let feed: Vec<FeedEntry> = exec_feed(transcript, true);
        let ghost views = feed_views(feed@);
        assert(views.len() == feed@.len());
        let is_last: bool = if feed.len() > 0 {
            assert(views[feed@.len() - 1] == feed@[feed@.len() - 1]@);
            same(feed[feed.len() - 1].id.as_str(), tool_id)
        } else {
            false
        };
        let ghost before = self@;
        let mut c: ChatTabs = self.take_chat(chat);
        let ghost had = c@;
        if is_feed_row_expanded(Some(&c.feed_pinned), Some(&c.feed_dismissed), tool_id, is_last) {
            c.feed_pinned.remove(tool_id);
            c.feed_dismissed.insert(tool_id.to_owned(), ());
        } else {
            c.feed_dismissed.remove(tool_id);
            c.feed_pinned.insert(tool_id.to_owned(), ());
        }
        proof {
            let now = row_toggled(had, tool_id@, is_last);
            assert(c@.pinned =~= now.pinned);
            assert(c@.dismissed =~= now.dismissed);
        }
        self.put_chat(chat, c);
        assert(self@.chats =~= before.chats.insert(chat@, row_toggled(had, tool_id@, is_last)));
    }

    /// Asks for the output of a command, unless it runs, is known, or was asked
    /// for.
    pub fn ensure_feed_fetch(
        &mut self,
        state: &AppState,
        chat: &str,
        tool_id: &str,
        status: FeedStatus,
    ) -> (r: Option<Request>)
        requires
            old(self).wf(),
        ensures
            final(self).wf(),
            final(self)@ == fetched(old(self)@, chat@, tool_id@, status, state.engine is Some),
            match r {
                Some(request) => needs_fetch(tabs_for(old(self)@, chat@), tool_id@, status)
                    && state.engine is Some && request@ == output_call(
                    chat@,
                    tool_id@,
                    target_of(state.chats@, opt(state.local_device_id), chat@),
                ),
                None => !needs_fetch(tabs_for(old(self)@, chat@), tool_id@, status)
                    || state.engine is None,
            },
            final(self).last_tail_fp == old(self).last_tail_fp,
            final(self).tab_seq == old(self).tab_seq,
    {
        if status == FeedStatus::Running {
            return None;
        }
        let ghost before = self@;
        let mut c: ChatTabs = self.take_chat(chat);
        let ghost had = c@;
        let needed: bool = !c.feed_outputs.contains(tool_id) && !c.feed_pending.contains(tool_id);
        assert(needed == needs_fetch(had, tool_id@, status));
        if needed {
            if state.engine.is_some() {
                c.feed_pending.insert(tool_id.to_owned(), ());
                assert(c@.pending =~= had.pending.insert(tool_id@));
            } else {
                c.feed_outputs.insert(tool_id.to_owned(), FeedOutput::Unavailable);
                assert(c@.outputs =~= had.outputs.insert(tool_id@, OutputView::Unavailable));
            }
        }
        self.put_chat(chat, c);
        assert(self@.chats =~= fetched(before, chat@, tool_id@, status, state.engine is Some).chats);
        if needed && state.engine.is_some() {
            Some(
                with_target(
                    Request::new(Method::ToolOutput).with_text("chatId", chat).with_text(
                        "toolId",
                        tool_id,
                    ),
                    &chat_target(state, chat),
                ),
            )
        } else {
            None
        }
    }

    /// The reply about the output of a command. That there is none is an answer
    /// too, and kept; a failed call is not, and may be made again. The result
    /// tells whether the panel has to be drawn again.
    pub fn on_tool_output(
        &mut self,
        chat: &str,
        tool_id: &str,
        reply: Option<ToolOutputReply>,
    ) -> (redraw: bool)
        requires
            old(self).wf(),
        ensures
            final(self).wf(),
            redraw == (old(self)@.chats.contains_key(chat@) && reply is Some),
            final(self)@ == (if old(self)@.chats.contains_key(chat@) {
                let t = old(self)@.chats[chat@];
                with_tabs(
                    old(self)@,
                    chat@,
                    TabsView {
                        pending: t.pending.remove(tool_id@),
                        outputs: match reply {
                            Some(r) => t.outputs.insert(tool_id@, kept_reply(r)),
                            None => t.outputs,
                        },
                        ..t
                    },
                )
            } else {
                old(self)@
            }),
    {
        if !self.chats.contains(chat) {
            return false;
        }
        let ghost before = self@;
        let mut c: ChatTabs = self.take_chat(chat);
        let ghost had = c@;
        c.feed_pending.remove(tool_id);
        assert(c@.pending =~= had.pending.remove(tool_id@));
        let redraw: bool = reply.is_some();
        match reply {
            None => {},
            Some(r) => {
                let ghost kept_view = kept_reply(r);
                let ToolOutputReply { found, output, truncated } = r;
                let kept_output: FeedOutput = match output {
                    Some(text) => if found {
                        FeedOutput::Loaded { output: text, truncated }
                    } else {
                        FeedOutput::Unavailable
                    },
                    None => FeedOutput::Unavailable,
                };
                assert(kept_output@ == kept_view);
                c.feed_outputs.insert(tool_id.to_owned(), kept_output);
                assert(c@.outputs =~= had.outputs.insert(tool_id@, kept_view));
            },
        }
        let ghost now = c@;
        self.put_chat(chat, c);
        assert(self@.chats =~= before.chats.insert(chat@, now));
        redraw
    }

    /// Closes a shell's tab. The agent's tab cannot be closed.
    pub fn close_tab(&mut self, state: &AppState, chat: &str, key: u64) -> (r: Option<ClosedTab>)
        requires
            old(self).wf(),
        ensures
            final(self).wf(),
            match tab_of(old(self)@, chat@, key) {
                Some(t) if t.kind == TabKind::Pty => {
                    let had = tabs_for(old(self)@, chat@);
                    let now = tab_closed(had, tab_ix(had.tabs, key));
                    &&& final(self)@ == (PanelView {
                        drag: None,
                        ..with_tabs(old(self)@, chat@, now)
                    })
                    &&& r matches Some(c) && c.toggle_drawer == (old(self).open && !has_pty(
                        now.tabs,
                    )) && match c.request {
                        Some(request) => state.engine is Some && t.terminal_id is Some && request@
                            == close_call(
                            t.terminal_id->0,
                            target_of(state.chats@, opt(state.local_device_id), chat@),
                        ),
                        None => state.engine is None || t.terminal_id is None,
                    }
                },
                _ => r is None && final(self)@ == old(self)@,
            },
    {
        let terminal_id: Option<String> = match self.run_tab(chat, key) {
            None => {
                return None;
            },
            Some(t) => {
                if t.kind == TabKind::Agent {
                    return None;
                }
                copy_opt(&t.terminal_id)
            },
        };
        let ghost before = self@;
        let mut c: ChatTabs = self.take_chat(chat);
        let ghost had = c@;
        let i: usize = find_tab(&c, key);
        proof {
            first_at_props(tabs_for(before, chat@).tabs, keyed_by(key), 0);
            assert(c@.tabs.len() == c.tabs@.len());
        }
        c.tabs.remove(i);
        c.active = active_after_close(c.active, i, c.tabs.len());
        proof {
            assert(tab_views(c.tabs@) =~= had.tabs.remove(i as int));
        }
        let ghost now = c@;
        self.put_chat(chat, c);
        self.drag = None;
        proof {
            assert(self@.chats =~= before.chats.insert(chat@, now));
            assert(tabs_for(self@, chat@) == now);
        }
        let toggle_drawer: bool = self.open && self.lacks_shell(chat);
        let request: Option<Request> = match terminal_id {
            Some(id) => if state.engine.is_some() {
                Some(
                    with_target(
                        Request::new(Method::CloseTerminal).with_text("terminalId", id.as_str()),
                        &chat_target(state, chat),
                    ),
                )
            } else {
                None
            },
            None => None,
        };
        Some(ClosedTab { toggle_drawer, request })
    }

    /// Moves a tab to where it was dropped.
    pub fn commit_reorder(&mut self, chat: &str, from: usize, to: usize)
        requires
            old(self).wf(),
        ensures
            final(self).wf(),
            final(self)@ == reordered(old(self)@, chat@, from, to),
    {
        let ghost before = self@;
        if self.chats.contains(chat) {
            let mut c: ChatTabs = self.take_chat(chat);
            let ghost had = c@;
            reorder_tabs(&mut c.tabs, from, to);
            c.active = active_after_reorder(c.active, from, to);
            proof {
                assert(c@.tabs =~= moved(had.tabs, from as int, to as int));
            }
            self.put_chat(chat, c);
        }
        self.drag = None;
        assert(self@.chats =~= reordered(before, chat@, from, to).chats);
    }

    /// A tab is dragged over a slot. The result tells whether the slides start
    /// anew.
    pub fn update_drag_over(&mut self, from: usize, over: usize) -> (changed: bool)
        requires
            old(self).wf(),
            old(self).drag is Some ==> old(self).drag->0.epoch < usize::MAX,
        ensures
            final(self).wf(),
            final(self)@ == (PanelView {
                drag: Some(dragged(old(self)@.drag, from, over)),
                ..old(self)@
            }),
            changed == (final(self)@.drag != old(self)@.drag),
    {
        let (next, changed): (DragState, bool) = match self.drag {
            None => (DragState { from, over, epoch: 0, prev_over: from }, true),
            Some(d) => if d.over == over {
                (d, false)
            } else {
                (
                    DragState { from: d.from, over, epoch: d.epoch + 1, prev_over: d.over },
                    true,
                )
            },
        };
        self.drag = Some(next);
        assert(self@.chats =~= old(self)@.chats);
        changed
    }

    /// The pointer carries a tab over the tab bar of a chat. The first slot
    /// belongs to the agent. A tab of another chat is not let in.
    pub fn drag_over(&mut self, chat: &str, dragged_chat: &str, from: usize, rel: i64) -> (changed:
        bool)
        requires
            old(self).wf(),
            old(self).drag is Some ==> old(self).drag->0.epoch < usize::MAX,
        ensures
            final(self).wf(),
            ({
                let count = tabs_for(old(self)@, chat@).tabs.len() as int;
                let over = at_least(slot_at(rel as int, TAB_WIDTH as int, count) as usize, 1);
                &&& chat@ == dragged_chat@ ==> final(self)@ == (PanelView {
                    drag: Some(dragged(old(self)@.drag, from, over)),
                    ..old(self)@
                })
                &&& chat@ != dragged_chat@ ==> final(self)@ == old(self)@
                &&& changed == (final(self)@.drag != old(self)@.drag)
            }),
    {
        if !same(chat, dragged_chat) {
            return false;
        }
        let count: usize = match self.chats.get(chat) {
            Some(c) => {
                assert(c@.tabs.len() == c.tabs@.len());
                c.tabs.len()
            },
            None => 0,
        };
        let slot: usize = drop_index(rel, TAB_WIDTH, count);
        let over: usize = if slot < 1 {
            1
        } else {
            slot
        };
        self.update_drag_over(from, over)
    }

    /// A tab is dropped on the tab bar of a chat. The first slot belongs to the
    /// agent. A tab of another chat is sent back.
    pub fn drop_tab(&mut self, chat: &str, dragged_chat: &str, from: usize)
        requires
            old(self).wf(),
        ensures
            final(self).wf(),
            final(self)@ == (if chat@ == dragged_chat@ {
                reordered(
                    old(self)@,
                    chat@,
                    from,
                    at_least(
                        match old(self).drag {
                            Some(d) => d.over,
                            None => from,
                        },
                        1,
                    ),
                )
            } else {
                PanelView { drag: None, ..old(self)@ }
            }),
    {
        if !same(chat, dragged_chat) {
            self.drag = None;
            assert(self@.chats =~= old(self)@.chats);
            return ;
        }
        let over: usize = match self.drag {
            Some(d) => d.over,
            None => from,
        };
        let to: usize = if over < 1 {
            1
        } else {
            over
        };
        self.commit_reorder(chat, from, to);
    }

    /// A drag that ended outside the bar is over.
    pub fn heal_drag(&mut self, dragging: bool)
        requires
            old(self).wf(),
        ensures
            final(self).wf(),
            final(self)@ == (PanelView {
                drag: if dragging {
                    old(self)@.drag
                } else {
                    None
                },
                ..old(self)@
            }),
    {
        if !dragging {
            self.drag = None;
        }
        assert(self@.chats =~= old(self)@.chats);
    }
}

/// A row of the feed, ready to draw.
#[derive(Debug)]
pub struct FeedRow {
    pub entry: FeedEntry,
    pub flashing: bool,
    pub glyph: FeedGlyph,
    /// The command stands out.
    pub bright: bool,
    pub expansion: FeedExpansion,
}

/// What a row of the feed shows.
pub ghost struct RowView {
    pub entry: FeedView,
    pub flashing: bool,
    pub glyph: FeedGlyph,
    pub bright: bool,
    pub expansion: ExpansionView,
}

impl View for FeedRow {
    type V = RowView;

    open spec fn view(&self) -> RowView {
        RowView {
            entry: self.entry@,
            flashing: self.flashing,
            glyph: self.glyph,
            bright: self.bright,
            expansion: self.expansion@,
        }
    }
}

/// How the feed scrolls.
#[derive(Debug, Clone, Copy, PartialEq, Eq, Structural)]
pub enum FeedScroll {
    ToItem(usize),
    ToBottom,
}

/// The feed in one frame. Without rows there are no commands yet.
pub struct FeedFrame {
    pub scroll: Option<FeedScroll>,
    pub rows: Vec<FeedRow>,
    /// Questions about output to send.
    pub fetches: Vec<Request>,
}

/// The condition of being the row of a tool.
pub open spec fn row_named(id: Seq<char>) -> spec_fn(FeedView) -> bool {
    |e: FeedView| e.id == id
}

/// The row that an anchor names.
pub open spec fn anchor_row(feed: Seq<FeedView>, anchor: Option<Seq<char>>) -> Option<usize> {
    match anchor {
        None => None,
        Some(id) => {
            let i = first_at(feed, row_named(id), 0);
            if i < feed.len() {
                Some(i as usize)
            } else {
                None
            }
        },
    }
}

/// The kept reply about a command.
pub open spec fn output_for(t: TabsView, tool: Seq<char>) -> Option<OutputView> {
    if t.outputs.contains_key(tool) {
        Some(t.outputs[tool])
    } else {
        None
    }
}

/// Number of rows and height of the last.
pub open spec fn fingerprint(t: TabsView, feed: Seq<FeedView>) -> (usize, usize) {
    (
        feed.len() as usize,
        if feed.len() == 0 {
            0
        } else {
            let tail = feed.last();
            expansion_lines(
                row_open(t.pinned, t.dismissed, tail.id, true),
                tail.status,
                output_for(t, tail.id),
            ) as usize
        },
    )
}

/// How the feed scrolls: links always land, and new output is followed only
/// from the bottom.
pub open spec fn scroll_of(
    prev: (usize, usize),
    cur: (usize, usize),
    anchor: Option<usize>,
    at_bottom: bool,
) -> Option<FeedScroll> {
    match scroll_target(prev, cur, anchor) {
        None => None,
        Some(ix) => if anchor is Some {
            Some(FeedScroll::ToItem(ix))
        } else if at_bottom {
            Some(FeedScroll::ToBottom)
        } else {
            None
        },
    }
}

/// Whether the row at `i` is open.
pub open spec fn open_at(t: TabsView, feed: Seq<FeedView>, i: int) -> bool {
    row_open(t.pinned, t.dismissed, feed[i].id, i == feed.len() - 1)
}

/// The panel after the first `n` rows asked for the output they need.
pub open spec fn fetch_all(
    p: PanelView,
    chat: Seq<char>,
    feed: Seq<FeedView>,
    n: int,
    engine: bool,
) -> PanelView
    decreases n,
{
    if n <= 0 {
        p
    } else {
        let before = fetch_all(p, chat, feed, n - 1, engine);
        if open_at(tabs_for(before, chat), feed, n - 1) {
            fetched(before, chat, feed[n - 1].id, feed[n - 1].status, engine)
        } else {
            before
        }
    }
}

/// The questions that the first `n` rows ask.
pub open spec fn fetch_calls(
    p: PanelView,
    chat: Seq<char>,
    feed: Seq<FeedView>,
    n: int,
    engine: bool,
    target: Option<Seq<char>>,
) -> Seq<Call>
    decreases n,
{
    if n <= 0 {
        Seq::empty()
    } else {
        let before = fetch_all(p, chat, feed, n - 1, engine);
        let asked = fetch_calls(p, chat, feed, n - 1, engine, target);
        let t = tabs_for(before, chat);
        if open_at(t, feed, n - 1) && engine && needs_fetch(
            t,
            feed[n - 1].id,
            feed[n - 1].status,
        ) {
            asked.push(output_call(chat, feed[n - 1].id, target))
        } else {
            asked
        }
    }
}

/// What some requests say.
pub open spec fn calls(v: Seq<Request>) -> Seq<Call> {
    v.map_values(|r: Request| r@)
}

/// What the row at `i` shows.
pub open spec fn row_at(p: PanelView, chat: Seq<char>, feed: Seq<FeedView>, i: int) -> RowView {
    let t = tabs_for(p, chat);
    RowView {
        entry: feed[i],
        flashing: p.flash.contains(feed[i].id),
        glyph: match feed[i].status {
            FeedStatus::Running => FeedGlyph::Spinner,
            FeedStatus::Failed => FeedGlyph::Cross,
            _ => FeedGlyph::Prompt,
        },
        bright: feed[i].status == FeedStatus::Running || feed[i].status == FeedStatus::Failed,
        expansion: expansion_of(open_at(t, feed, i), feed[i].status, output_for(t, feed[i].id)),
    }
}

/// The glyph of a tab.
#[derive(Debug, Clone, Copy, PartialEq, Eq, Structural)]
pub enum TabGlyph {
    Spinner,
    Harness(HarnessId),
    Terminal,
}

/// Where a tab stands while one is dragged.
#[derive(Debug, Clone, Copy, PartialEq, Eq, Structural)]
pub enum TabPlace {
    Still,
    /// The dragged tab's own slot is left empty.
    Spacer,
    /// Slides from one offset to another, in slots.
    Slide { start: i32, target: i32 },
}

/// A tab of the bar, ready to draw. Only shells can be closed and dragged.
#[derive(Debug)]
pub struct TabChip {
    pub key: u64,
    pub kind: TabKind,
    pub title: String,
    pub selected: bool,
    pub exited: bool,
    pub glyph: TabGlyph,
    pub place: TabPlace,
}

/// What a tab of the bar shows.
pub ghost struct ChipView {
    pub key: u64,
    pub kind: TabKind,
    pub title: Seq<char>,
    pub selected: bool,
    pub exited: bool,
    pub glyph: TabGlyph,
    pub place: TabPlace,
}

impl View for TabChip {
    type V = ChipView;

    open spec fn view(&self) -> ChipView {
        ChipView {
            key: self.key,
            kind: self.kind,
            title: self.title@,
            selected: self.selected,
            exited: self.exited,
            glyph: self.glyph,
            place: self.place,
        }
    }
}

/// Where the tab at `ix` stands during a drag.
pub open spec fn place_of(drag: Option<DragState>, ix: int) -> TabPlace {
    match drag {
        None => TabPlace::Still,
        Some(d) => if ix == d.from {
            TabPlace::Spacer
        } else {
            TabPlace::Slide {
                start: slide(ix, d.from as int, d.prev_over as int) as i32,
                target: slide(ix, d.from as int, d.over as int) as i32,
            }
        },
    }
}

/// Whether a command of the feed runs.
pub open spec fn runs(feed: Seq<FeedView>) -> bool {
    exists|i: int| 0 <= i < feed.len() && (#[trigger] feed[i]).status == FeedStatus::Running
}

/// The agent program of a chat.
pub open spec fn harness_of(chat: Option<&Chat>) -> HarnessId {
    match chat {
        Some(c) => match c.config {
            Some(config) => config.harness,
            None => HarnessId::Pi,
        },
        None => HarnessId::Pi,
    }
}

/// What the tab at `i` shows.
pub open spec fn chip_at(
    t: TabsView,
    i: int,
    drag: Option<DragState>,
    row: Option<&Chat>,
    running: bool,
) -> ChipView {
    let tab = t.tabs[i];
    let agent = tab.kind == TabKind::Agent;
    ChipView {
        key: tab.key,
        kind: tab.kind,
        title: if agent {
            agent_title(row)
        } else {
            tab.title
        },
        selected: i == t.active,
        exited: tab.exited is Some,
        glyph: if !agent {
            TabGlyph::Terminal
        } else if running {
            TabGlyph::Spinner
        } else {
            TabGlyph::Harness(harness_of(row))
        },
        place: place_of(drag, i),
    }
}

/// Whether a chat's session shows any sign of life.
pub open spec fn is_live(state: &AppState, chat: Seq<char>, now: int) -> bool {
    indicator(state.session_of(chat), now) != Indicator::Quiet
}

/// The row of a chat.
pub open spec fn row_of<'a>(state: &'a AppState, chat: Seq<char>) -> Option<&'a Chat> {
    let i = chat_ix(state.chats@, chat);
    if 0 <= i < state.chats@.len() {
        Some(&state.chats@[i])
    } else {
        None
    }
}

/// What stands in a panel without a chat.
pub const NO_CHAT: &'static str = "Select a chat to open a terminal";

/// What stands in a feed without rows.
pub const NO_COMMANDS: &'static str = "no commands yet";

/// What fills the panel.
#[derive(Debug, Clone, Copy, PartialEq, Eq, Structural)]
pub enum PanelBody {
    /// No chat is selected.
    Empty,
    Feed,
    Terminal,
}

fn lit(flash: &Vec<String>, id: &str) -> (r: bool)
    ensures
        r == texts(flash@).contains(id@),
{
    let mut i: usize = 0;
    while i < flash.len()
        invariant
            i <= flash@.len(),
            forall|j: int| 0 <= j < i ==> (#[trigger] flash@[j])@ != id@,
        decreases flash@.len() - i,
    {
        if same(flash[i].as_str(), id) {
            assert(texts(flash@)[i as int] == id@);
            return true;
        }
        i += 1;
    }
    assert forall|j: int| 0 <= j < texts(flash@).len() implies texts(flash@)[j] != id@ by {
        assert(flash@[j]@ != id@);
    }
    false
}

impl TerminalPanel {
    fn row_is_open(&self, chat: &str, id: &str, is_last: bool) -> (r: bool)
        requires
            self.wf(),
        ensures
            r == row_open(
                tabs_for(self@, chat@).pinned,
                tabs_for(self@, chat@).dismissed,
                id@,
                is_last,
            ),
    {
        match self.chats.get(chat) {
            Some(c) => is_feed_row_expanded(
                Some(&c.feed_pinned),
                Some(&c.feed_dismissed),
                id,
                is_last,
            ),
            None => is_feed_row_expanded(None, None, id, is_last),
        }
    }

    fn kept_output(&self, chat: &str, id: &str) -> (r: Option<&FeedOutput>)
        requires
            self.wf(),
        ensures
            match r {
                Some(o) => output_for(tabs_for(self@, chat@), id@) == Some(o@),
                None => output_for(tabs_for(self@, chat@), id@) is None,
            },
    {
        match self.chats.get(chat) {
            Some(c) => c.feed_outputs.get(id),
            None => None,
        }
    }

    /// The agent's feed in one frame: where it scrolls, what it asks the engine
    /// for, and its rows.
    pub fn feed_frame(
        &mut self,
        state: &AppState,
        chat: &str,
        now: i64,
        at_bottom: bool,
    ) -> (f: FeedFrame)
        requires
            old(self).wf(),
        ensures
            final(self).wf(),
            ({
                let feed = feed_of(state.transcript@, is_live(state, chat@, now as int));
                let cur = fingerprint(tabs_for(old(self)@, chat@), feed);
                let settled = PanelView { anchor: None, tail: cur, ..old(self)@ };
                let engine = state.engine is Some;
                let n = feed.len() as int;
                &&& final(self)@ == fetch_all(settled, chat@, feed, n, engine)
                &&& f.scroll == scroll_of(
                    old(self)@.tail,
                    cur,
                    anchor_row(feed, old(self)@.anchor),
                    at_bottom,
                )
                &&& calls(f.fetches@) == fetch_calls(
                    settled,
                    chat@,
                    feed,
                    n,
                    engine,
                    target_of(state.chats@, opt(state.local_device_id), chat@),
                )
                &&& f.rows@.len() == n
                &&& forall|i: int|
                    0 <= i < n ==> (#[trigger] f.rows@[i])@ == row_at(final(self)@, chat@, feed, i)
            }),
    {
        let live: bool = match state.indicator_for(chat, now) {
            Indicator::Quiet => false,
            _ => true,
        };
        let mut entries: Vec<FeedEntry> = exec_feed(&state.transcript, live);
        let ghost feed = feed_views(entries@);
        let ghost before = self@;
        let n: usize = entries.len();
        assert(feed.len() == n);
        assert forall|i: int| 0 <= i < n implies feed[i] == (#[trigger] entries@[i])@ by {}
        let anchor: Option<usize> = match &self.pending_anchor {
            None => None,
            Some(id) => {
                let mut i: usize = 0;
                while i < n && !same(entries[i].id.as_str(), id.as_str())
                    invariant
                        i <= n == entries@.len(),
                        feed == feed_views(entries@),
                        forall|j: int| 0 <= j < i ==> (#[trigger] feed[j]).id != id@,
                    decreases n - i,
                {
                    assert(feed[i as int] == entries@[i as int]@);
                    i += 1;
                }
                proof {
                    if i < n {
                        assert(feed[i as int] == entries@[i as int]@);
                    }
                    first_at_is(feed, row_named(id@), i as int);
                }
                if i < n {
                    Some(i)
                } else {
                    None
                }
            },
        };
        self.pending_anchor = None;
        let tail_height: usize = if n == 0 {
            0
        } else {
            let tail: &FeedEntry = &entries[n - 1];
            assert(feed.last() == tail@);
            assert(self@.chats =~= before.chats);
            let open: bool = self.row_is_open(chat, tail.id.as_str(), true);
            tail_lines(open, tail.status, self.kept_output(chat, tail.id.as_str()))
        };
        let cur: (usize, usize) = (n, tail_height);
        let scroll: Option<FeedScroll> = match follow_target(self.last_tail_fp, cur, anchor) {
            None => None,
            Some(ix) => if anchor.is_some() {
                Some(FeedScroll::ToItem(ix))
            } else if at_bottom {
                Some(FeedScroll::ToBottom)
            } else {
                None
            },
        };
        self.last_tail_fp = cur;
        let ghost settled = self@;
        let ghost engine = state.engine is Some;
        let ghost target = target_of(state.chats@, opt(state.local_device_id), chat@);
        assert(settled.chats =~= before.chats);
        assert(settled == (PanelView { anchor: None, tail: cur, ..before }));
        let mut fetches: Vec<Request> = Vec::new();
        let mut i: usize = 0;
        assert(calls(fetches@) =~= Seq::<Call>::empty());
        while i < n
            invariant
                i <= n == entries@.len(),
                feed == feed_views(entries@),
                self.wf(),
                engine == (state.engine is Some),
                target == target_of(state.chats@, opt(state.local_device_id), chat@),
                self@ == fetch_all(settled, chat@, feed, i as int, engine),
                calls(fetches@) == fetch_calls(settled, chat@, feed, i as int, engine, target),
            decreases n - i,
        {
            assert(feed[i as int] == entries@[i as int]@);
            let open: bool = self.row_is_open(chat, entries[i].id.as_str(), i == n - 1);
            if open {
                match self.ensure_feed_fetch(state, chat, entries[i].id.as_str(), entries[i].status) {
                    Some(request) => {
                        let ghost had = fetches@;
                        fetches.push(request);
                        assert(calls(fetches@) =~= calls(had).push(request@));
                    },
                    None => {},
                }
            }
            i += 1;
        }
        let mut rows: Vec<FeedRow> = Vec::new();
        let mut k: usize = 0;
        while entries.len() > 0
            invariant
                k + entries@.len() == n == feed.len(),
                self.wf(),
                forall|j: int| 0 <= j < entries@.len() ==> (#[trigger] entries@[j])@ == feed[k + j],
                rows@.len() == k,
                forall|j: int|
                    0 <= j < k ==> (#[trigger] rows@[j])@ == row_at(self@, chat@, feed, j),
            decreases entries@.len(),
        {
            let ghost had = entries@;
            assert(had[0]@ == feed[k as int]);
            let entry: FeedEntry = entries.remove(0);
            assert forall|j: int| 0 <= j < entries@.len() implies (#[trigger] entries@[j])@ == feed[k
                + 1 + j] by {
                assert(entries@[j] == had[j + 1]);
            }
            let open: bool = self.row_is_open(chat, entry.id.as_str(), k == n - 1);
            let shown: FeedExpansion = expansion(
                open,
                entry.status,
                self.kept_output(chat, entry.id.as_str()),
            );
            let flashing: bool = lit(&self.flash_ids, entry.id.as_str());
            let style: (FeedGlyph, bool) = row_style(entry.status);
            rows.push(
                FeedRow { entry, flashing, glyph: style.0, bright: style.1, expansion: shown },
            );
            k += 1;
        }
        FeedFrame { scroll, rows, fetches }
    }

    /// The tab bar of a chat.
    pub fn tab_bar(&self, state: &AppState, chat: &str, now: i64) -> (chips: Vec<TabChip>)
        requires
            self.wf(),
        ensures
            ({
                let t = tabs_for(self@, chat@);
                let running = runs(feed_of(state.transcript@, is_live(state, chat@, now as int)));
                &&& chips@.len() == t.tabs.len()
                &&& forall|i: int|
                    0 <= i < chips@.len() ==> (#[trigger] chips@[i])@ == chip_at(
                        t,
                        i,
                        self@.drag,
                        row_of(state, chat@),
                        running,
                    )
            }),
    {
        let mut chips: Vec<TabChip> = Vec::new();
        let c: &ChatTabs = match self.chats.get(chat) {
            None => {
                return chips;
            },
            Some(c) => c,
        };
        let ghost t = c@;
        assert(t == tabs_for(self@, chat@));
        assert(t.tabs.len() == c.tabs@.len());
        let at_row: usize = find_chat(&state.chats, chat);
        proof {
            first_at_props(state.chats@, crate::state::chat_named(chat@), 0);
        }
        let row: Option<&Chat> = if at_row < state.chats.len() {
            Some(&state.chats[at_row])
        } else {
            None
        };
        let harness: HarnessId = match row {
            Some(r) => match &r.config {
                Some(config) => config.harness,
                None => HarnessId::Pi,
            },
            None => HarnessId::Pi,
        };
        let live: bool = match state.indicator_for(chat, now) {
            Indicator::Quiet => false,
            _ => true,
        };
        let entries: Vec<FeedEntry> = exec_feed(&state.transcript, live);
        let ghost feed = feed_views(entries@);
        assert(feed == feed_of(state.transcript@, is_live(state, chat@, now as int)));
        let mut running: bool = false;
        let mut e: usize = 0;
        while e < entries.len()
            invariant
                e <= entries@.len(),
                feed == feed_views(entries@),
                running ==> runs(feed),
                !running ==> forall|j: int|
                    0 <= j < e ==> (#[trigger] feed[j]).status != FeedStatus::Running,
            decreases entries@.len() - e,
        {
            assert(feed[e as int] == entries@[e as int]@);
            if entries[e].status == FeedStatus::Running {
                assert(feed[e as int].status == FeedStatus::Running);
                running = true;
            }
            e += 1;
        }
        assert(running == runs(feed));
        let mut i: usize = 0;
        while i < c.tabs.len()
            invariant
                i <= c.tabs@.len(),
                t == c@,
                harness == harness_of(row),
                chips@.len() == i,
                forall|j: int|
                    0 <= j < i ==> (#[trigger] chips@[j])@ == chip_at(
                        t,
                        j,
                        self.drag,
                        row,
                        running,
                    ),
            decreases c.tabs@.len() - i,
        {
            let tab: &TerminalTab = &c.tabs[i];
            assert(t.tabs[i as int] == tab@);
            let (title, glyph): (String, TabGlyph) = match tab.kind {
                TabKind::Agent => (
                    agent_tab_title(row),
                    if running {
                        TabGlyph::Spinner
                    } else {
                        TabGlyph::Harness(harness)
                    },
                ),
                TabKind::Pty => (tab.title.clone(), TabGlyph::Terminal),
            };
            let place: TabPlace = match self.drag {
                None => TabPlace::Still,
                Some(d) => if i == d.from {
                    TabPlace::Spacer
                } else {
                    TabPlace::Slide {
                        start: slide_offset(i, d.from, d.prev_over),
                        target: slide_offset(i, d.from, d.over),
                    }
                },
            };
            chips.push(
                TabChip {
                    key: tab.key,
                    kind: tab.kind,
                    title,
                    selected: i == c.active,
                    exited: tab.exited.is_some(),
                    glyph,
                    place,
                },
            );
            i += 1;
        }
        chips
    }

    /// What fills the panel: the feed takes no keys, a terminal does.
    pub fn body(&self, state: &AppState) -> (b: PanelBody)
        requires
            self.wf(),
        ensures
            b == (if state.selected_chat is None {
                PanelBody::Empty
            } else if TerminalPanel::agent_is_active(self@, opt(state.selected_chat)) {
                PanelBody::Feed
            } else {
                PanelBody::Terminal
            }),
    {
        if state.selected_chat.is_none() {
            PanelBody::Empty
        } else if self.active_is_agent(state) {
            PanelBody::Feed
        } else {
            PanelBody::Terminal
        }
    }
}

}
