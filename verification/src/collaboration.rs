//! The room of a parent agent and its children: whom the composer speaks to,
//! what it sends, and what the room shows.
use vstd::prelude::*;
use vstd::string::*;

use crate::proto::{
    Chat, ChildAgent, ChildAgentStatus, CollaborationMessage, CollaborationSession,
    CollaborationSpeaker, MessagePart, MessageRole, SessionMessageEntry,
};
use crate::seqs::{any, first_at, first_at_is, first_at_props, kept, kept_step};
use crate::state::{at, chat_ix, AppState};
use crate::text::{decimal, decimal_text, same, trim, trimmed};
use crate::wire::{copy_opt, is_text, opt, same_opt};

verus! {

/// Whom the composer speaks to.
#[derive(Debug, Clone, Copy, PartialEq, Eq, Structural)]
pub enum ComposeMode {
    /// Parent and child.
    Room,
    /// The selected child alone.
    Child,
    /// The selected child, to take up a new mission.
    Resume,
    /// A child to be.
    Spawn,
}

/// The agents that can be spawned. Each goes by its name in lower case.
#[derive(Debug, Clone, Copy, PartialEq, Eq, Structural)]
pub enum AgentKind {
    Worker,
    Scout,
    Researcher,
    Reviewer,
    Oracle,
}

#[derive(Debug, Clone, Copy, PartialEq, Eq, Structural)]
pub enum CollaborationAction {
    Room,
    Steer,
    Resume,
    Spawn,
    Stop,
}

/// A request to the collaboration, and the device that it goes to: always the
/// chat's host.
#[derive(Debug)]
pub struct ControlRequest {
    pub chat_id: String,
    pub action: CollaborationAction,
    pub child_id: Option<String>,
    pub agent: Option<AgentKind>,
    pub message: Option<String>,
    pub target_device: String,
}

/// What a request says.
pub ghost struct ControlView {
    pub chat_id: Seq<char>,
    pub action: CollaborationAction,
    pub child_id: Option<Seq<char>>,
    pub agent: Option<AgentKind>,
    pub message: Option<Seq<char>>,
    pub target_device: Seq<char>,
}

impl View for ControlRequest {
    type V = ControlView;

    open spec fn view(&self) -> ControlView {
        ControlView {
            chat_id: self.chat_id@,
            action: self.action,
            child_id: opt(self.child_id),
            agent: self.agent,
            message: opt(self.message),
            target_device: self.target_device@,
        }
    }
}

/// The panel.
#[derive(Debug)]
pub struct CollaborationPanel {
    pub selected_child: Option<String>,
    pub mode: ComposeMode,
    pub agent: AgentKind,
    pub busy: bool,
    /// What came of the last request, and whether it went well.
    pub notice: Option<(bool, String)>,
}

/// What the panel holds.
pub ghost struct CollaborationView {
    pub selected_child: Option<Seq<char>>,
    pub mode: ComposeMode,
    pub agent: AgentKind,
    pub busy: bool,
    pub notice: Option<(bool, Seq<char>)>,
}

/// The view of a notice.
pub open spec fn notice_view(n: Option<(bool, String)>) -> Option<(bool, Seq<char>)> {
    match n {
        Some((ok, text)) => Some((ok, text@)),
        None => None,
    }
}

impl View for CollaborationPanel {
    type V = CollaborationView;

    open spec fn view(&self) -> CollaborationView {
        CollaborationView {
            selected_child: opt(self.selected_child),
            mode: self.mode,
            agent: self.agent,
            busy: self.busy,
            notice: notice_view(self.notice),
        }
    }
}

/// The condition of being the child with an id.
pub open spec fn child_named(id: Seq<char>) -> spec_fn(ChildAgent) -> bool {
    |c: ChildAgent| c.id@ == id
}

/// The condition of being a child that somebody should look at.
pub open spec fn wants_attention() -> spec_fn(ChildAgent) -> bool {
    |c: ChildAgent|
        c.status == ChildAgentStatus::Working || c.status == ChildAgentStatus::NeedsAttention
}

/// The condition of being a child at work.
pub open spec fn at_work() -> spec_fn(ChildAgent) -> bool {
    |c: ChildAgent|
        c.status == ChildAgentStatus::Starting || c.status == ChildAgentStatus::Working
}

/// The child that is selected when none was: the first that wants attention, or
/// else the last.
pub open spec fn default_child(children: Seq<ChildAgent>) -> Option<Seq<char>> {
    let i = first_at(children, wants_attention(), 0);
    if i < children.len() {
        Some(children[i].id@)
    } else if children.len() > 0 {
        Some(children.last().id@)
    } else {
        None
    }
}

/// The selected child after the children changed: one that is gone gives way.
pub open spec fn healed(
    selected: Option<Seq<char>>,
    children: Seq<ChildAgent>,
) -> Option<Seq<char>> {
    match selected {
        Some(id) if any(children, child_named(id)) => Some(id),
        _ => default_child(children),
    }
}

/// The children of the selected chat.
pub open spec fn children_of(state: &AppState) -> Seq<ChildAgent> {
    match state.collaboration() {
        Some(c) => c.children@,
        None => Seq::empty(),
    }
}

/// What stands in the composer while it is empty.
pub open spec fn placeholder_of(mode: ComposeMode) -> Seq<char> {
    match mode {
        ComposeMode::Room => "Message parent and child"@,
        ComposeMode::Child => "Steer this child"@,
        ComposeMode::Resume => "Give this child its next mission"@,
        ComposeMode::Spawn => "Describe the child mission"@,
    }
}

/// What stands in the composer while it is empty.
pub fn placeholder(mode: ComposeMode) -> (s: &'static str)
    ensures
        s@ == placeholder_of(mode),
{
    match mode {
        ComposeMode::Room => "Message parent and child",
        ComposeMode::Child => "Steer this child",
        ComposeMode::Resume => "Give this child its next mission",
        ComposeMode::Spawn => "Describe the child mission",
    }
}

/// What a mode asks for.
pub open spec fn action_of(mode: ComposeMode) -> CollaborationAction {
    match mode {
        ComposeMode::Room => CollaborationAction::Room,
        ComposeMode::Child => CollaborationAction::Steer,
        ComposeMode::Resume => CollaborationAction::Resume,
        ComposeMode::Spawn => CollaborationAction::Spawn,
    }
}

pub open spec fn status_text(status: ChildAgentStatus) -> Seq<char> {
    match status {
        ChildAgentStatus::Starting => "starting"@,
        ChildAgentStatus::Working => "working"@,
        ChildAgentStatus::NeedsAttention => "needs you"@,
        ChildAgentStatus::Completed => "complete"@,
        ChildAgentStatus::Failed => "failed"@,
        ChildAgentStatus::Stopped => "stopped"@,
    }
}

/// The label of a child's status.
pub fn status_label(status: ChildAgentStatus) -> (s: &'static str)
    ensures
        s@ == status_text(status),
{
    match status {
        ChildAgentStatus::Starting => "starting",
        ChildAgentStatus::Working => "working",
        ChildAgentStatus::NeedsAttention => "needs you",
        ChildAgentStatus::Completed => "complete",
        ChildAgentStatus::Failed => "failed",
        ChildAgentStatus::Stopped => "stopped",
    }
}

/// The tones that a status is painted in.
#[derive(Debug, Clone, Copy, PartialEq, Eq, Structural)]
pub enum Tone {
    Accent,
    Warning,
    Danger,
    Faint,
    Text,
}

/// The tone of a child's status.
pub open spec fn tone_of(status: ChildAgentStatus) -> Tone {
    match status {
        ChildAgentStatus::Working | ChildAgentStatus::Starting => Tone::Accent,
        ChildAgentStatus::NeedsAttention => Tone::Warning,
        ChildAgentStatus::Failed => Tone::Danger,
        ChildAgentStatus::Completed | ChildAgentStatus::Stopped => Tone::Faint,
    }
}

/// The panel in another mode; what was noticed before is forgotten.
pub open spec fn in_mode(v: CollaborationView, mode: ComposeMode) -> CollaborationView {
    CollaborationView { mode, notice: None, ..v }
}

/// The row of the selected chat.
pub open spec fn selected_row(state: &AppState) -> Option<Chat> {
    match state.selected_chat {
        Some(id) => at(state.chats@, chat_ix(state.chats@, id@)),
        None => None,
    }
}

fn find_child(children: &Vec<ChildAgent>, id: &str) -> (i: usize)
    ensures
        i == first_at(children@, child_named(id@), 0),
        i <= children@.len(),
        i < children@.len() <==> any(children@, child_named(id@)),
{
    let mut i: usize = 0;
    while i < children.len() && !same(children[i].id.as_str(), id)
        invariant
            i <= children@.len(),
            forall|j: int| 0 <= j < i ==> (#[trigger] children@[j]).id@ != id@,
        decreases children@.len() - i,
    {
        i += 1;
    }
    proof {
        first_at_is(children@, child_named(id@), i as int);
        crate::seqs::found_iff_any(children@, child_named(id@));
    }
    i
}

impl CollaborationPanel {
    pub fn new() -> (p: CollaborationPanel)
        ensures
            p@ == (CollaborationView {
                selected_child: None,
                mode: ComposeMode::Room,
                agent: AgentKind::Worker,
                busy: false,
                notice: None,
            }),
    {
        CollaborationPanel {
            selected_child: None,
            mode: ComposeMode::Room,
            agent: AgentKind::Worker,
            busy: false,
            notice: None,
        }
    }

    /// The app's state changed: a selected child that is gone gives way.
    pub fn on_state_changed(&mut self, state: &AppState)
        ensures
            final(self)@ == (CollaborationView {
                selected_child: healed(old(self)@.selected_child, children_of(state)),
                ..old(self)@
            }),
    {
        match state.selected_collaboration() {
            None => {
                self.selected_child = None;
                proof {
                    let none = Seq::<ChildAgent>::empty();
                    first_at_props(none, wants_attention(), 0);
                }
            },
            Some(c) => {
                let stays: bool = match &self.selected_child {
                    Some(id) => find_child(&c.children, id.as_str()) < c.children.len(),
                    None => false,
                };
                if !stays {
                    let mut i: usize = 0;
                    while i < c.children.len() && !(c.children[i].status
                        == ChildAgentStatus::Working || c.children[i].status
                        == ChildAgentStatus::NeedsAttention)
                        invariant
                            i <= c.children@.len(),
                            forall|j: int|
                                0 <= j < i ==> !wants_attention()(#[trigger] c.children@[j]),
                        decreases c.children@.len() - i,
                    {
                        i += 1;
                    }
                    proof {
                        first_at_is(c.children@, wants_attention(), i as int);
                    }
                    self.selected_child = if i < c.children.len() {
                        Some(c.children[i].id.clone())
                    } else if c.children.len() > 0 {
                        Some(c.children[c.children.len() - 1].id.clone())
                    } else {
                        None
                    };
                }
            },
        }
    }

    /// Turns the composer to somebody else.
    pub fn select_mode(&mut self, mode: ComposeMode) -> (hint: &'static str)
        ensures
            final(self)@ == in_mode(old(self)@, mode),
            hint@ == placeholder_of(mode),
    {
        self.mode = mode;
        self.notice = None;
        placeholder(mode)
    }

    /// Chooses the agent to spawn.
    pub fn select_agent(&mut self, agent: AgentKind)
        ensures
            final(self)@ == (CollaborationView { agent, ..old(self)@ }),
    {
        self.agent = agent;
    }

    /// Selects a child. A composer that was about another child, or one to be,
    /// turns to the room.
    pub fn select_child(&mut self, id: String)
        ensures
            ({
                let v = CollaborationView { selected_child: Some(id@), ..old(self)@ };
                final(self)@ == (if v.mode == ComposeMode::Spawn || v.mode == ComposeMode::Resume {
                    in_mode(v, ComposeMode::Room)
                } else {
                    v
                })
            }),
    {
        self.selected_child = Some(id);
        match self.mode {
            ComposeMode::Spawn | ComposeMode::Resume => {
                self.select_mode(ComposeMode::Room);
            },
            _ => {},
        }
    }

    /// Sends what the composer holds. Nothing is sent while a request is under
    /// way, without text, or without a chat; without an engine that is said.
    pub fn submit(&mut self, state: &AppState, draft: &str) -> (r: Option<ControlRequest>)
        ensures
            ({
                let ready = !old(self).busy && trimmed(draft@).len() > 0 && selected_row(
                    state,
                ) is Some;
                &&& !ready ==> r is None && final(self)@ == old(self)@
                &&& ready && state.engine is None ==> r is None && final(self)@ == (
                CollaborationView {
                    notice: Some((false, "Engine not connected"@)),
                    ..old(self)@
                })
                &&& ready && state.engine is Some ==> {
                    &&& final(self)@ == (CollaborationView { busy: true, notice: None, ..old(self)@ })
                    &&& r matches Some(request) && request@ == (ControlView {
                        chat_id: selected_row(state)->0.id@,
                        action: action_of(old(self).mode),
                        child_id: old(self)@.selected_child,
                        agent: if old(self).mode == ComposeMode::Spawn {
                            Some(old(self).agent)
                        } else {
                            None
                        },
                        message: Some(trimmed(draft@)),
                        target_device: selected_row(state)->0.device_id@,
                    })
                }
            }),
    {
        if self.busy {
            return None;
        }
        let message: String = trim(draft);
        if message.as_str().is_empty() {
            return None;
        }
        let chat: &Chat = match state.selected_chat_row() {
            None => {
                return None;
            },
            Some(c) => c,
        };
        if state.engine.is_none() {
            self.notice = Some((false, "Engine not connected".to_owned()));
            return None;
        }
        let action: CollaborationAction = match self.mode {
            ComposeMode::Room => CollaborationAction::Room,
            ComposeMode::Child => CollaborationAction::Steer,
            ComposeMode::Resume => CollaborationAction::Resume,
            ComposeMode::Spawn => CollaborationAction::Spawn,
        };
        let agent: Option<AgentKind> = if self.mode == ComposeMode::Spawn {
            Some(self.agent)
        } else {
            None
        };
        self.busy = true;
        self.notice = None;
        Some(
            ControlRequest {
                chat_id: chat.id.clone(),
                action,
                child_id: copy_opt(&self.selected_child),
                agent,
                message: Some(message),
                target_device: chat.device_id.clone(),
            },
        )
    }

    /// The reply to what was sent. A message that arrived leaves the composer,
    /// and a spawned child turns it to the room; the result tells whether to
    /// empty it.
    pub fn on_reply(&mut self, reply: Result<String, String>) -> (clear: bool)
        ensures
            clear == reply is Ok,
            final(self)@ == (match reply {
                Ok(message) => {
                    let v = CollaborationView {
                        busy: false,
                        notice: Some((true, message@)),
                        ..old(self)@
                    };
                    if old(self).mode == ComposeMode::Spawn {
                        in_mode(v, ComposeMode::Room)
                    } else {
                        v
                    }
                },
                Err(error) => CollaborationView {
                    busy: false,
                    notice: Some((false, error@)),
                    ..old(self)@
                },
            }),
    {
        self.busy = false;
        match reply {
            Ok(message) => {
                self.notice = Some((true, message));
                if self.mode == ComposeMode::Spawn {
                    self.select_mode(ComposeMode::Room);
                }
                true
            },
            Err(error) => {
                self.notice = Some((false, error));
                false
            },
        }
    }

    /// Tells the selected child to do something, such as to stop.
    pub fn control_child(
        &mut self,
        state: &AppState,
        action: CollaborationAction,
    ) -> (r: Option<ControlRequest>)
        ensures
            ({
                let row = selected_row(state);
                if old(self).selected_child is Some && row is Some && state.engine is Some {
                    &&& final(self)@ == (CollaborationView { busy: true, ..old(self)@ })
                    &&& r matches Some(request) && request@ == (ControlView {
                        chat_id: row->0.id@,
                        action,
                        child_id: old(self)@.selected_child,
                        agent: None,
                        message: None,
                        target_device: row->0.device_id@,
                    })
                } else {
                    r is None && final(self)@ == old(self)@
                }
            }),
    {
        if self.selected_child.is_none() || state.engine.is_none() {
            return None;
        }
        match state.selected_chat_row() {
            None => None,
            Some(chat) => {
                self.busy = true;
                Some(
                    ControlRequest {
                        chat_id: chat.id.clone(),
                        action,
                        child_id: copy_opt(&self.selected_child),
                        agent: None,
                        message: None,
                        target_device: chat.device_id.clone(),
                    },
                )
            },
        }
    }

    /// The reply to a control.
    pub fn on_control_reply(&mut self, error: Option<String>)
        ensures
            final(self)@ == (CollaborationView {
                busy: false,
                notice: Some(
                    match error {
                        None => (true, "control delivered"@),
                        Some(e) => (false, e@),
                    },
                ),
                ..old(self)@
            }),
    {
        self.busy = false;
        self.notice = Some(
            match error {
                None => (true, "control delivered".to_owned()),
                Some(e) => (false, e),
            },
        );
    }
}

/// The selected child is one of the children, there is one whenever there are
/// children, and looking again changes nothing.
pub proof fn the_selection_is_a_child(selected: Option<Seq<char>>, children: Seq<ChildAgent>)
    ensures
        healed(selected, children) is Some <==> children.len() > 0,
        healed(selected, children) is Some ==> any(
            children,
            child_named(healed(selected, children)->0),
        ),
        healed(healed(selected, children), children) == healed(selected, children),
{
    let i = first_at(children, wants_attention(), 0);
    first_at_props(children, wants_attention(), 0);
    let h = healed(selected, children);
    if selected is Some && any(children, child_named(selected->0)) {
        let k = choose|k: int|
            0 <= k < children.len() && child_named(selected->0)(#[trigger] children[k]);
        assert(children.len() > 0);
    } else if i < children.len() {
        assert(child_named(h->0)(children[i]));
    } else if children.len() > 0 {
        assert(child_named(h->0)(children[children.len() - 1]));
    }
}

/// Texts put together, with a separator between any two.
pub open spec fn joined(parts: Seq<Seq<char>>, sep: Seq<char>) -> Seq<char>
    decreases parts.len(),
{
    if parts.len() == 0 {
        Seq::empty()
    } else if parts.len() == 1 {
        parts[0]
    } else {
        joined(parts.drop_last(), sep) + sep + parts.last()
    }
}

/// The texts among the parts of a message.
pub open spec fn part_texts(parts: Seq<MessagePart>) -> Seq<Seq<char>>
    decreases parts.len(),
{
    if parts.len() == 0 {
        Seq::empty()
    } else {
        match parts.last() {
            MessagePart::Text { text, .. } => part_texts(parts.drop_last()).push(text@),
            _ => part_texts(parts.drop_last()),
        }
    }
}

/// The last message of the assistant: its index, or minus one.
pub open spec fn last_assistant(entries: Seq<SessionMessageEntry>) -> int
    decreases entries.len(),
{
    if entries.len() == 0 {
        -1
    } else if entries.last().role == MessageRole::Assistant {
        entries.len() - 1
    } else {
        last_assistant(entries.drop_last())
    }
}

/// What the parent said last: the text of the assistant's last message, when
/// there is any.
pub open spec fn latest_reply(entries: Seq<SessionMessageEntry>) -> Option<Seq<char>> {
    let i = last_assistant(entries);
    if i < 0 {
        None
    } else {
        let text = joined(part_texts(entries[i].parts@), "\n"@);
        if trimmed(text).len() == 0 {
            None
        } else {
            Some(text)
        }
    }
}

fn join_parts(parts: &Vec<MessagePart>) -> (s: String)
    ensures
        s@ == joined(part_texts(parts@), "\n"@),
{
    let mut s: String = String::new();
    let mut first: bool = true;
    let mut i: usize = 0;
    assert(parts@.take(0) =~= Seq::<MessagePart>::empty());
    while i < parts.len()
        invariant
            i <= parts@.len(),
            first == (part_texts(parts@.take(i as int)).len() == 0),
            s@ == joined(part_texts(parts@.take(i as int)), "\n"@),
        decreases parts@.len() - i,
    {
        let ghost before = part_texts(parts@.take(i as int));
        proof {
            assert(parts@.take(i + 1).drop_last() =~= parts@.take(i as int));
            assert(parts@.take(i + 1).last() == parts@[i as int]);
        }
        match &parts[i] {
            MessagePart::Text { text, .. } => {
                proof {
                    let now = before.push(text@);
                    assert(now.drop_last() =~= before);
                    assert(now.last() == text@);
                    if first {
                        assert(Seq::<char>::empty() + text@ =~= text@);
                    }
                }
                if !first {
                    s.append("\n");
                }
                s.append(text.as_str());
                first = false;
            },
            _ => {},
        }
        i += 1;
    }
    assert(parts@.take(i as int) =~= parts@);
    s
}

/// What the parent said last.
pub fn parent_reply(entries: &Vec<SessionMessageEntry>) -> (r: Option<String>)
    ensures
        opt(r) == latest_reply(entries@),
{
    let mut n: usize = entries.len();
    assert(entries@.take(n as int) =~= entries@);
    while n > 0 && entries[n - 1].role != MessageRole::Assistant
        invariant
            n <= entries@.len(),
            last_assistant(entries@) == last_assistant(entries@.take(n as int)),
        decreases n,
    {
        assert(entries@.take(n as int).drop_last() =~= entries@.take(n - 1));
        n -= 1;
    }
    if n == 0 {
        return None;
    }
    assert(entries@.take(n as int).last() == entries@[n - 1]);
    let text: String = join_parts(&entries[n - 1].parts);
    if trim(text.as_str()).as_str().is_empty() {
        None
    } else {
        Some(text)
    }
}

/// How many messages the room shows.
pub const ROOM_MESSAGES: usize = 20;

/// The condition of being a message of the room or of the selected child.
pub open spec fn heard(selected: Option<Seq<char>>) -> spec_fn(CollaborationMessage) -> bool {
    |m: CollaborationMessage| m.child_id is None || opt(m.child_id) == selected
}

/// The last items of a list.
pub open spec fn last_of<T>(s: Seq<T>, n: int) -> Seq<T> {
    if s.len() > n {
        s.skip(s.len() - n)
    } else {
        s
    }
}

/// The messages that the room shows.
pub open spec fn room_of(
    messages: Seq<CollaborationMessage>,
    selected: Option<Seq<char>>,
) -> Seq<CollaborationMessage> {
    last_of(kept(messages, heard(selected)), ROOM_MESSAGES as int)
}

/// A child's row.
#[derive(Debug)]
pub struct ChildRow {
    pub id: String,
    pub agent: String,
    /// What the child does, or what for, or how it stands.
    pub detail: String,
    pub status: ChildAgentStatus,
    pub tone: Tone,
    pub selected: bool,
    pub running: bool,
}

/// What a child's row shows.
pub ghost struct ChildView {
    pub id: Seq<char>,
    pub agent: Seq<char>,
    pub detail: Seq<char>,
    pub status: ChildAgentStatus,
    pub tone: Tone,
    pub selected: bool,
    pub running: bool,
}

impl View for ChildRow {
    type V = ChildView;

    open spec fn view(&self) -> ChildView {
        ChildView {
            id: self.id@,
            agent: self.agent@,
            detail: self.detail@,
            status: self.status,
            tone: self.tone,
            selected: self.selected,
            running: self.running,
        }
    }
}

pub open spec fn child_view(c: ChildAgent, selected: Option<Seq<char>>) -> ChildView {
    ChildView {
        id: c.id@,
        agent: c.agent@,
        detail: match c.activity {
            Some(a) => a@,
            None => match c.goal {
                Some(g) => g@,
                None => status_text(c.status),
            },
        },
        status: c.status,
        tone: tone_of(c.status),
        selected: selected == Some(c.id@),
        running: at_work()(c),
    }
}

/// The row of a child.
pub fn child_row(c: &ChildAgent, selected: &Option<String>) -> (r: ChildRow)
    ensures
        r@ == child_view(*c, opt(*selected)),
{
    let detail: String = match &c.activity {
        Some(a) => a.clone(),
        None => match &c.goal {
            Some(g) => g.clone(),
            None => status_label(c.status).to_owned(),
        },
    };
    let (tone, running): (Tone, bool) = match c.status {
        ChildAgentStatus::Starting | ChildAgentStatus::Working => (Tone::Accent, true),
        ChildAgentStatus::NeedsAttention => (Tone::Warning, false),
        ChildAgentStatus::Failed => (Tone::Danger, false),
        ChildAgentStatus::Completed | ChildAgentStatus::Stopped => (Tone::Faint, false),
    };
    ChildRow {
        id: c.id.clone(),
        agent: c.agent.clone(),
        detail,
        status: c.status,
        tone,
        selected: is_text(selected, c.id.as_str()),
        running,
    }
}

/// A message of the room.
#[derive(Debug)]
pub struct RoomLine {
    pub label: String,
    pub tone: Tone,
    pub body: String,
}

/// What a message of the room shows.
pub ghost struct LineView {
    pub label: Seq<char>,
    pub tone: Tone,
    pub body: Seq<char>,
}

impl View for RoomLine {
    type V = LineView;

    open spec fn view(&self) -> LineView {
        LineView { label: self.label@, tone: self.tone, body: self.body@ }
    }
}

/// What a message shows: a child goes by the name of the selected one.
pub open spec fn line_view(m: CollaborationMessage, child: Option<Seq<char>>) -> LineView {
    LineView {
        label: match m.speaker {
            CollaborationSpeaker::You => "you"@,
            CollaborationSpeaker::Parent => "parent"@,
            CollaborationSpeaker::Child => match child {
                Some(name) => name,
                None => "child"@,
            },
            CollaborationSpeaker::System => "room"@,
        },
        tone: match m.speaker {
            CollaborationSpeaker::You => Tone::Text,
            CollaborationSpeaker::Parent => Tone::Accent,
            CollaborationSpeaker::Child => Tone::Warning,
            CollaborationSpeaker::System => Tone::Faint,
        },
        body: m.body@,
    }
}

/// What stands in a room where nothing has been said.
pub const NOTHING_SAID: &'static str = "Select a child, then talk to everyone in one room.";

/// What stands over the parent's last words.
pub const LATEST_LABEL: &'static str = "parent \u{b7} latest";

/// What can be done to the selected child.
#[derive(Debug, Clone, Copy, PartialEq, Eq, Structural)]
pub enum ChildControl {
    Stop,
    Resume,
}

/// The panel in one frame.
#[derive(Debug)]
pub struct RoomFrame {
    /// How many children are at work.
    pub active: usize,
    pub parent_working: bool,
    pub children: Vec<ChildRow>,
    pub lines: Vec<RoomLine>,
    pub parent_reply: Option<String>,
    /// Nothing has been said.
    pub empty: bool,
    pub control: Option<ChildControl>,
    /// The agents to choose from are shown in place of the modes.
    pub choosing_agent: bool,
    pub notice: String,
    pub notice_is_error: bool,
    pub can_send: bool,
}

/// The child with an id.
pub open spec fn child_of(children: Seq<ChildAgent>, id: Option<Seq<char>>) -> Option<ChildAgent> {
    match id {
        Some(id) => crate::seqs::found(children, child_named(id)),
        None => None,
    }
}

/// What can be done to a child.
pub open spec fn control_of(child: Option<ChildAgent>) -> Option<ChildControl> {
    match child {
        None => None,
        Some(c) => Some(
            if at_work()(c) || c.status == ChildAgentStatus::NeedsAttention {
                ChildControl::Stop
            } else {
                ChildControl::Resume
            },
        ),
    }
}

/// What stands beside the send button.
pub open spec fn notice_text(notice: Option<(bool, Seq<char>)>, available: bool) -> Seq<char> {
    match notice {
        Some((_, text)) => text,
        None => if available {
            "return to send"@
        } else {
            "start a pi session to connect"@
        },
    }
}

/// The number of active children, in words.
pub open spec fn active_text(n: nat) -> Seq<char> {
    decimal(n) + " active"@
}

/// The number of active children, in words.
pub fn active_label(n: usize) -> (s: String)
    ensures
        s@ == active_text(n as nat),
{
    let mut s: String = decimal_text(n as u64);
    s.append(" active");
    s
}

/// The tone of the number of active children.
pub fn active_tone(n: usize) -> (t: Tone)
    ensures
        t == (if n > 0 {
            Tone::Accent
        } else {
            Tone::Faint
        }),
{
    if n > 0 {
        Tone::Accent
    } else {
        Tone::Faint
    }
}

/// What stands under the parent's name, and its tone.
pub fn parent_status(working: bool) -> (r: (&'static str, Tone))
    ensures
        r.0@ == (if working {
            "coordinating"@
        } else {
            "ready"@
        }),
        r.1 == (if working {
            Tone::Accent
        } else {
            Tone::Faint
        }),
{
    if working {
        ("coordinating", Tone::Accent)
    } else {
        ("ready", Tone::Faint)
    }
}

/// The text of the send button.
pub fn send_label(can_send: bool) -> (s: &'static str)
    ensures
        s@ == (if can_send {
            "send"@
        } else {
            "sending"@
        }),
{
    if can_send {
        "send"
    } else {
        "sending"
    }
}

/// The text of the button that controls a child.
pub fn control_label(control: ChildControl) -> (s: &'static str)
    ensures
        s@ == (match control {
            ChildControl::Stop => "stop"@,
            ChildControl::Resume => "resume with message"@,
        }),
{
    match control {
        ChildControl::Stop => "stop",
        ChildControl::Resume => "resume with message",
    }
}

/// A button that turns the composer.
#[derive(Debug, Clone, Copy)]
pub struct ModeButton {
    pub mode: ComposeMode,
    pub label: &'static str,
    pub selected: bool,
}

/// Whether a button turns the composer to a mode, under a label.
pub open spec fn is_button(
    b: ModeButton,
    mode: ComposeMode,
    label: Seq<char>,
    now: ComposeMode,
) -> bool {
    b.mode == mode && b.label@ == label && b.selected == (now == mode)
}

/// The buttons over the composer, and the one under the children.
pub fn mode_buttons(now: ComposeMode) -> (r: (ModeButton, ModeButton, ModeButton))
    ensures
        is_button(r.0, ComposeMode::Room, "room"@, now),
        is_button(r.1, ComposeMode::Child, "child only"@, now),
        is_button(r.2, ComposeMode::Spawn, "+ new child"@, now),
{
    (
        ModeButton { mode: ComposeMode::Room, label: "room", selected: now == ComposeMode::Room },
        ModeButton {
            mode: ComposeMode::Child,
            label: "child only",
            selected: now == ComposeMode::Child,
        },
        ModeButton {
            mode: ComposeMode::Spawn,
            label: "+ new child",
            selected: now == ComposeMode::Spawn,
        },
    )
}

/// The messages of the selected chat's collaboration.
pub open spec fn messages_of(state: &AppState) -> Seq<CollaborationMessage> {
    match state.collaboration() {
        Some(c) => c.messages@,
        None => Seq::empty(),
    }
}

/// The children shown as rows.
pub open spec fn child_views(v: Seq<ChildRow>) -> Seq<ChildView> {
    v.map_values(|c: ChildRow| c@)
}

/// The messages shown as lines.
pub open spec fn line_views(v: Seq<RoomLine>) -> Seq<LineView> {
    v.map_values(|l: RoomLine| l@)
}

fn child_rows(children: &Vec<ChildAgent>, selected: &Option<String>) -> (r: (Vec<ChildRow>, usize))
    ensures
        child_views(r.0@) == children@.map_values(|c: ChildAgent| child_view(c, opt(*selected))),
        r.1 == kept(children@, at_work()).len(),
{
    let mut rows: Vec<ChildRow> = Vec::new();
    let mut active: usize = 0;
    let ghost f = |c: ChildAgent| child_view(c, opt(*selected));
    let mut i: usize = 0;
    assert(child_views(rows@) =~= children@.take(0).map_values(f));
    while i < children.len()
        invariant
            i <= children@.len(),
            f == (|c: ChildAgent| child_view(c, opt(*selected))),
            child_views(rows@) == children@.take(i as int).map_values(f),
            active == kept(children@.take(i as int), at_work()).len(),
            active <= i,
        decreases children@.len() - i,
    {
        let ghost had = rows@;
        proof {
            kept_step(children@, at_work(), i as int);
        }
        let row: ChildRow = child_row(&children[i], selected);
        if row.running {
            active += 1;
        }
        let ghost shown = row@;
        rows.push(row);
        proof {
            assert(child_views(rows@) =~= child_views(had).push(shown));
            assert(children@.take(i + 1).map_values(f) =~= children@.take(i as int).map_values(
                f,
            ).push(shown));
        }
        i += 1;
    }
    assert(children@.take(i as int) =~= children@);
    (rows, active)
}

fn is_heard(m: &CollaborationMessage, selected: &Option<String>) -> (r: bool)
    ensures
        r == heard(opt(*selected))(*m),
{
    m.child_id.is_none() || same_opt(&m.child_id, selected)
}

fn room_lines(
    messages: &Vec<CollaborationMessage>,
    selected: &Option<String>,
    child: Option<&ChildAgent>,
) -> (lines: Vec<RoomLine>)
    ensures
        line_views(lines@) == room_of(messages@, opt(*selected)).map_values(
            |m: CollaborationMessage|
                line_view(
                    m,
                    match child {
                        Some(c) => Some(c.agent@),
                        None => None,
                    },
                ),
        ),
{
    let ghost p = heard(opt(*selected));
    let ghost name = match child {
        Some(c) => Some(c.agent@),
        None => None,
    };
    let ghost f = |m: CollaborationMessage| line_view(m, name);
    let mut lines: Vec<RoomLine> = Vec::new();
    let mut i: usize = 0;
    assert(line_views(lines@) =~= kept(messages@.take(0), p).map_values(f));
    while i < messages.len()
        invariant
            i <= messages@.len(),
            p == heard(opt(*selected)),
            name == (match child {
                Some(c) => Some(c.agent@),
                None => None,
            }),
            f == (|m: CollaborationMessage| line_view(m, name)),
            line_views(lines@) == kept(messages@.take(i as int), p).map_values(f),
        decreases messages@.len() - i,
    {
        let ghost had = kept(messages@.take(i as int), p);
        let ghost old_lines = lines@;
        proof {
            kept_step(messages@, p, i as int);
        }
        let m: &CollaborationMessage = &messages[i];
        if is_heard(m, selected) {
            let (label, tone): (String, Tone) = match m.speaker {
                CollaborationSpeaker::You => ("you".to_owned(), Tone::Text),
                CollaborationSpeaker::Parent => ("parent".to_owned(), Tone::Accent),
                CollaborationSpeaker::Child => (
                    match child {
                        Some(c) => c.agent.clone(),
                        None => "child".to_owned(),
                    },
                    Tone::Warning,
                ),
                CollaborationSpeaker::System => ("room".to_owned(), Tone::Faint),
            };
            let line = RoomLine { label, tone, body: m.body.clone() };
            let ghost shown = line@;
            lines.push(line);
            proof {
                assert(line_views(lines@) =~= line_views(old_lines).push(shown));
                assert(had.push(*m).map_values(f) =~= had.map_values(f).push(shown));
            }
        }
        i += 1;
    }
    proof {
        assert(messages@.take(i as int) =~= messages@);
    }
    let ghost all = kept(messages@, p);
    assert(lines@.len() == line_views(lines@).len());
    if lines.len() > ROOM_MESSAGES {
        let cut: usize = lines.len() - ROOM_MESSAGES;
        let ghost before = lines@;
        let tail: Vec<RoomLine> = lines.split_off(cut);
        proof {
            assert(line_views(tail@) =~= line_views(before).skip(cut as int));
            assert(all.skip(cut as int).map_values(f) =~= all.map_values(f).skip(cut as int));
        }
        tail
    } else {
        lines
    }
}

impl CollaborationPanel {
    /// The panel in one frame. A panel without a selected child selects the
    /// first.
    pub fn frame(&mut self, state: &AppState) -> (f: RoomFrame)
        ensures
            ({
                let children = children_of(state);
                let selected = match old(self)@.selected_child {
                    Some(id) => Some(id),
                    None => if children.len() > 0 {
                        Some(children[0].id@)
                    } else {
                        None
                    },
                };
                let child = child_of(children, selected);
                let name = match child {
                    Some(c) => Some(c.agent@),
                    None => None,
                };
                let room = room_of(messages_of(state), selected);
                &&& final(self)@ == (CollaborationView { selected_child: selected, ..old(self)@ })
                &&& f.active == kept(children, at_work()).len()
                &&& f.parent_working == (state.collaboration() matches Some(c) && c.parent_working)
                &&& child_views(f.children@) == children.map_values(
                    |c: ChildAgent| child_view(c, selected),
                )
                &&& line_views(f.lines@) == room.map_values(
                    |m: CollaborationMessage| line_view(m, name),
                )
                &&& opt(f.parent_reply) == latest_reply(state.transcript@)
                &&& f.empty == (room.len() == 0 && latest_reply(state.transcript@) is None)
                &&& f.control == control_of(child)
                &&& f.choosing_agent == (old(self).mode == ComposeMode::Spawn)
                &&& f.notice@ == notice_text(
                    old(self)@.notice,
                    state.collaboration() matches Some(c) && c.available,
                )
                &&& f.notice_is_error == (old(self)@.notice matches Some((ok, _)) && !ok)
                &&& f.can_send == !old(self).busy
            }),
    {
        let reply: Option<String> = parent_reply(&state.transcript);
        let choosing_agent: bool = self.mode == ComposeMode::Spawn;
        let collaboration: Option<&CollaborationSession> = state.selected_collaboration();
        let available: bool = match collaboration {
            Some(c) => c.available,
            None => false,
        };
        let (notice, notice_is_error): (String, bool) = match &self.notice {
            Some((ok, text)) => (text.clone(), !*ok),
            None => (
                if available {
                    "return to send".to_owned()
                } else {
                    "start a pi session to connect".to_owned()
                },
                false,
            ),
        };
        match collaboration {
            None => {
                let children: Vec<ChildRow> = Vec::new();
                let lines: Vec<RoomLine> = Vec::new();
                proof {
                    let none = Seq::<ChildAgent>::empty();
                    let quiet = Seq::<CollaborationMessage>::empty();
                    assert(children_of(state) =~= none);
                    assert(messages_of(state) =~= quiet);
                    let selected = opt(self.selected_child);
                    assert(child_views(children@) =~= none.map_values(
                        |c: ChildAgent| child_view(c, selected),
                    ));
                    if selected is Some {
                        first_at_props(none, child_named(selected->0), 0);
                    }
                    let name = Option::<Seq<char>>::None;
                    assert(room_of(quiet, selected) =~= quiet);
                    assert(line_views(lines@) =~= quiet.map_values(
                        |m: CollaborationMessage| line_view(m, name),
                    ));
                }
                RoomFrame {
                    active: 0,
                    parent_working: false,
                    children,
                    lines,
                    empty: reply.is_none(),
                    parent_reply: reply,
                    control: None,
                    choosing_agent,
                    notice,
                    notice_is_error,
                    can_send: !self.busy,
                }
            },
            Some(c) => {
                if self.selected_child.is_none() && c.children.len() > 0 {
                    self.selected_child = Some(c.children[0].id.clone());
                }
                let child: Option<&ChildAgent> = match &self.selected_child {
                    Some(id) => {
                        let i: usize = find_child(&c.children, id.as_str());
                        if i < c.children.len() {
                            Some(&c.children[i])
                        } else {
                            None
                        }
                    },
                    None => None,
                };
                let control: Option<ChildControl> = match child {
                    None => None,
                    Some(k) => Some(
                        match k.status {
                            ChildAgentStatus::Starting
                            | ChildAgentStatus::Working
                            | ChildAgentStatus::NeedsAttention => ChildControl::Stop,
                            _ => ChildControl::Resume,
                        },
                    ),
                };
                let (children, active): (Vec<ChildRow>, usize) = child_rows(
                    &c.children,
                    &self.selected_child,
                );
                let lines: Vec<RoomLine> = room_lines(&c.messages, &self.selected_child, child);
                assert(line_views(lines@).len() == lines@.len());
                let empty: bool = lines.len() == 0 && reply.is_none();
                RoomFrame {
                    active,
                    parent_working: c.parent_working,
                    children,
                    lines,
                    empty,
                    parent_reply: reply,
                    control,
                    choosing_agent,
                    notice,
                    notice_is_error,
                    can_send: !self.busy,
                }
            },
        }
    }
}

}
