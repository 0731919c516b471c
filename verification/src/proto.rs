//! The rows that the engine serves, and what every surface derives from them:
//! sort orders, staleness, the boot gate, labels and relative times.
//!
//! A time is a number of microseconds since the Unix epoch.
use vstd::prelude::*;
use vstd::string::*;

use crate::order::{ordered, sort_ranked, Rank};
use crate::text::{
    after_last, chars_of, decimal, decimal_text, last_segment, same, text_of, trim, trimmed,
};
use crate::wire::{copy_opt, opt};

verus! {

/// The agent program behind a chat.
#[derive(Debug, Clone, Copy, PartialEq, Eq, Structural)]
pub enum HarnessId {
    Pi,
    ClaudeCode,
    Codex,
    Cursor,
    Mock,
}

impl HarnessId {
    /// The program's name in small letters, with something between its words.
    pub open spec fn spelled(self, between: Seq<char>) -> Seq<char> {
        match self {
            HarnessId::Pi => "pi"@,
            HarnessId::ClaudeCode => crate::text::uncameled("ClaudeCode"@, between),
            HarnessId::Codex => "codex"@,
            HarnessId::Cursor => "cursor"@,
            HarnessId::Mock => "mock"@,
        }
    }

    /// The program's name in small letters, with something between its words.
    pub fn spell(self, between: &str) -> (s: String)
        ensures
            s@ == self.spelled(between@),
    {
        match self {
            HarnessId::Pi => "pi".to_owned(),
            HarnessId::ClaudeCode => crate::text::uncamel("ClaudeCode", between),
            HarnessId::Codex => "codex".to_owned(),
            HarnessId::Cursor => "cursor".to_owned(),
            HarnessId::Mock => "mock".to_owned(),
        }
    }
}

/// A chat's agent settings. The reasoning level, the sandbox and the model's
/// own options are carried as the engine writes them.
#[derive(Debug, PartialEq, Eq)]
pub struct ChatConfig {
    pub harness: HarnessId,
    pub model: Option<String>,
    pub reasoning: Option<String>,
    pub model_options: String,
    pub sandbox: String,
}

impl Clone for ChatConfig {
    fn clone(&self) -> (r: Self)
        ensures
            r == *self,
    {
        ChatConfig {
            harness: self.harness,
            model: copy_opt(&self.model),
            reasoning: copy_opt(&self.reasoning),
            model_options: self.model_options.clone(),
            sandbox: self.sandbox.clone(),
        }
    }
}

/// A chat row.
#[derive(Debug, Clone, PartialEq, Eq)]
pub struct Chat {
    pub id: String,
    pub device_id: String,
    pub title: Option<String>,
    pub archived: bool,
    pub cwd: Option<String>,
    pub branch: Option<String>,
    pub config: Option<ChatConfig>,
    pub last_command: Option<String>,
    pub last_message_at: Option<i64>,
    pub created_at: i64,
    pub project_id: Option<String>,
    pub last_seen_at: Option<i64>,
}

/// A project row: a folder on a device.
#[derive(Debug, Clone, PartialEq, Eq)]
pub struct Project {
    pub id: String,
    pub device_id: String,
    pub path: String,
    /// The name to show.
    pub display_name: String,
    pub git_detected: bool,
    pub created_at: i64,
}

#[derive(Debug, Clone, Copy, PartialEq, Eq, Structural)]
pub enum SessionStatus {
    Idle,
    Working,
    AwaitingInput,
    Errored,
}

/// The live session of a chat.
#[derive(Debug, Clone, PartialEq, Eq)]
pub struct Session {
    pub chat_id: String,
    pub device_id: String,
    pub status: SessionStatus,
    pub started_at: Option<i64>,
    pub updated_at: i64,
}

/// A device row.
#[derive(Debug, PartialEq, Eq)]
pub struct Device {
    pub id: String,
    pub name: String,
    pub platform: String,
    pub last_seen_at: Option<i64>,
    pub created_at: Option<i64>,
    pub version: Option<String>,
}

impl Clone for Device {
    fn clone(&self) -> (r: Self)
        ensures
            r == *self,
    {
        Device {
            id: self.id.clone(),
            name: self.name.clone(),
            platform: self.platform.clone(),
            last_seen_at: self.last_seen_at,
            created_at: self.created_at,
            version: copy_opt(&self.version),
        }
    }
}

#[derive(Debug, Clone, Copy, PartialEq, Eq, Structural)]
pub enum MessageRole {
    User,
    Assistant,
    System,
}

/// A tool call: shell commands are told apart, other tools are not read.
#[derive(Debug, Clone, PartialEq, Eq)]
pub enum ToolCall {
    Exec { command: String },
    Other,
}

/// A part of a message. A tool part holds its call as JSON text, too, the form
/// in which the model writes it.
#[derive(Debug, Clone, PartialEq, Eq)]
pub enum MessagePart {
    Text { id: String, text: String },
    Tool { id: String, call: ToolCall, call_json: String, is_error: bool, resolved: bool },
    Other,
}

/// A message of a transcript.
#[derive(Debug, Clone, PartialEq, Eq)]
pub struct SessionMessageEntry {
    pub id: String,
    pub role: MessageRole,
    pub parts: Vec<MessagePart>,
    pub created_at: i64,
    pub device_id: String,
    pub streaming: bool,
    pub continuation_of: Option<String>,
}

#[derive(Debug, Clone, Copy, PartialEq, Eq, Structural)]
pub enum ChildAgentStatus {
    Starting,
    Working,
    NeedsAttention,
    Completed,
    Failed,
    Stopped,
}

/// A child agent of a collaboration.
#[derive(Debug, Clone, PartialEq, Eq)]
pub struct ChildAgent {
    pub id: String,
    pub agent: String,
    pub status: ChildAgentStatus,
    pub activity: Option<String>,
    pub goal: Option<String>,
}

#[derive(Debug, Clone, Copy, PartialEq, Eq, Structural)]
pub enum CollaborationSpeaker {
    You,
    Parent,
    Child,
    System,
}

/// A message in the room of a collaboration.
#[derive(Debug, Clone, PartialEq, Eq)]
pub struct CollaborationMessage {
    pub speaker: CollaborationSpeaker,
    pub child_id: Option<String>,
    pub body: String,
}

/// A parent agent with its children.
#[derive(Debug, Clone, PartialEq, Eq)]
pub struct CollaborationSession {
    pub chat_id: String,
    pub available: bool,
    pub parent_working: bool,
    pub children: Vec<ChildAgent>,
    pub messages: Vec<CollaborationMessage>,
}

/// A paired peer, as the pairing service lists it.
#[derive(Debug, Clone, PartialEq, Eq)]
pub struct PeerView {
    pub device_id: String,
    pub name: String,
    pub platform: String,
    pub endpoint: String,
    pub role: String,
    pub revoked: bool,
    pub paired_at: i64,
}

/// The dot of a chat row.
#[derive(Debug, Clone, Copy, PartialEq, Eq, Structural)]
pub enum Indicator {
    Quiet,
    Working,
    AwaitingInput,
    Errored,
}

/// The full display status of a chat.
#[derive(Debug, Clone, Copy, PartialEq, Eq, Structural)]
pub enum ChatIndicator {
    Working,
    AwaitingInput,
    Errored,
    Completed,
    Idle,
}

#[derive(Debug, Clone, PartialEq, Eq)]
pub enum ConnectionStatus {
    Connecting,
    Ready,
    Failed(String),
}

/// What the window shows in place of the app until the engine answers.
#[derive(Debug, Clone, PartialEq, Eq)]
pub enum GatePhase {
    Loading,
    Ready,
    Failed(String),
}

/// A live session that has not been heard of for longer than this, in
/// milliseconds, counts as dead.
pub const SESSION_STALE_MS: i64 = 45_000;

/// A session whose last sign of life is too old. A sign from the future, by
/// another clock, counts as fresh.
pub open spec fn is_stale(session: Session, now: int) -> bool {
    now - session.updated_at > SESSION_STALE_MS * 1000
}

pub open spec fn indicator(session: Option<&Session>, now: int) -> Indicator {
    match session {
        None => Indicator::Quiet,
        Some(s) => match s.status {
            SessionStatus::Idle => Indicator::Quiet,
            SessionStatus::Errored => Indicator::Errored,
            SessionStatus::Working => if is_stale(*s, now) {
                Indicator::Quiet
            } else {
                Indicator::Working
            },
            SessionStatus::AwaitingInput => if is_stale(*s, now) {
                Indicator::Quiet
            } else {
                Indicator::AwaitingInput
            },
        },
    }
}

/// The dot of a session: a session that claims to be live but is stale has
/// none, and an error stays visible.
pub fn effective_indicator(session: Option<&Session>, now: i64) -> (i: Indicator)
    ensures
        i == indicator(session, now as int),
{
    match session {
        None => Indicator::Quiet,
        Some(s) => {
            let age: i128 = now as i128 - s.updated_at as i128;
            let stale: bool = age > 45_000_000;
            match s.status {
                SessionStatus::Idle => Indicator::Quiet,
                SessionStatus::Errored => Indicator::Errored,
                SessionStatus::Working => if stale {
                    Indicator::Quiet
                } else {
                    Indicator::Working
                },
                SessionStatus::AwaitingInput => if stale {
                    Indicator::Quiet
                } else {
                    Indicator::AwaitingInput
                },
            }
        },
    }
}

impl Chat {
    /// Whether the chat has a message that nobody has looked at.
    pub open spec fn is_unseen(self) -> bool {
        match (self.last_message_at, self.last_seen_at) {
            (None, _) => false,
            (Some(_), None) => true,
            (Some(message), Some(seen)) => seen < message,
        }
    }

    pub fn unseen(&self) -> (r: bool)
        ensures
            r == self.is_unseen(),
    {
        match (self.last_message_at, self.last_seen_at) {
            (None, _) => false,
            (Some(_), None) => true,
            (Some(message), Some(seen)) => seen < message,
        }
    }

    /// When something last happened in the chat.
    pub open spec fn recency(self) -> int {
        match self.last_message_at {
            Some(t) => t as int,
            None => self.created_at as int,
        }
    }

    pub fn last_activity(&self) -> (t: i64)
        ensures
            t == self.recency(),
    {
        match self.last_message_at {
            Some(t) => t,
            None => self.created_at,
        }
    }

    /// Whether the chat belongs to the project.
    pub open spec fn in_project(self, project_id: Seq<char>) -> bool {
        opt(self.project_id) == Some(project_id)
    }
}

pub open spec fn status_of(chat: Chat, session: Option<&Session>, now: int) -> ChatIndicator {
    match indicator(session, now) {
        Indicator::Working => ChatIndicator::Working,
        Indicator::AwaitingInput => ChatIndicator::AwaitingInput,
        Indicator::Errored => if chat.is_unseen() {
            ChatIndicator::Errored
        } else {
            ChatIndicator::Idle
        },
        Indicator::Quiet => if chat.is_unseen() {
            ChatIndicator::Completed
        } else {
            ChatIndicator::Idle
        },
    }
}

/// The display status of a chat: live states win, then an unseen error, then
/// an unseen result.
pub fn display_status(chat: &Chat, session: Option<&Session>, now: i64) -> (s: ChatIndicator)
    ensures
        s == status_of(*chat, session, now as int),
{
    match effective_indicator(session, now) {
        Indicator::Working => ChatIndicator::Working,
        Indicator::AwaitingInput => ChatIndicator::AwaitingInput,
        Indicator::Errored => if chat.unseen() {
            ChatIndicator::Errored
        } else {
            ChatIndicator::Idle
        },
        Indicator::Quiet => if chat.unseen() {
            ChatIndicator::Completed
        } else {
            ChatIndicator::Idle
        },
    }
}

/// A dead session never looks live, whatever status it was left with, and
/// marking a chat seen never makes it look live either.
pub proof fn stale_sessions_never_look_live(chat: Chat, session: Session, now: int)
    requires
        is_stale(session, now),
    ensures
        status_of(chat, Some(&session), now) != ChatIndicator::Working,
        status_of(chat, Some(&session), now) != ChatIndicator::AwaitingInput,
{
}

/// What the window shows for a connection.
pub fn gate_phase(connection: &ConnectionStatus) -> (g: GatePhase)
    ensures
        match *connection {
            ConnectionStatus::Connecting => g is Loading,
            ConnectionStatus::Ready => g is Ready,
            ConnectionStatus::Failed(m) => g == GatePhase::Failed(m),
        },
{
    match connection {
        ConnectionStatus::Connecting => GatePhase::Loading,
        ConnectionStatus::Ready => GatePhase::Ready,
        ConnectionStatus::Failed(m) => GatePhase::Failed(m.clone()),
    }
}

/// The sidebar's order of chats: most recent first, equal times by id.
pub open spec fn chat_key(c: Chat) -> (int, Seq<char>) {
    (-c.recency(), c.id@)
}

/// Projects in order of their creation. Equal times go by id, which is a choice:
/// it gives every device the same order.
pub open spec fn project_key(p: Project) -> (int, Seq<char>) {
    (p.created_at as int, p.id@)
}

/// Tabs in order of their creation. Equal times go by id, which is a choice like
/// that for projects.
pub open spec fn tab_key(c: &Chat) -> (int, Seq<char>) {
    (c.created_at as int, c.id@)
}

/// The Sessions list: recency alone, whatever the status. Equal times go by id,
/// which is a choice like that for projects.
pub open spec fn active_key(row: (ChatIndicator, &Chat)) -> (int, Seq<char>) {
    chat_key(*row.1)
}

/// Devices by id.
pub open spec fn device_key(d: Device) -> (int, Seq<char>) {
    (0, d.id@)
}

/// Sorts chats for the sidebar.
pub fn sort_chats(chats: &mut Vec<Chat>)
    ensures
        final(chats)@ == ordered(old(chats)@, |c: Chat| chat_key(c)),
{
    let mut ranks: Vec<Rank> = Vec::new();
    let mut i: usize = 0;
    while i < chats.len()
        invariant
            i <= chats@.len(),
            ranks@.len() == i,
            forall|j: int| 0 <= j < i ==> (#[trigger] ranks@[j])@ == chat_key(chats@[j]),
        decreases chats@.len() - i,
    {
        ranks.push(
            Rank { number: -(chats[i].last_activity() as i128), id: chats[i].id.clone() },
        );
        i += 1;
    }
    sort_ranked(chats, ranks, Ghost(|c: Chat| chat_key(c)));
}

/// Sorts projects for the sidebar.
pub fn sort_projects(projects: &mut Vec<Project>)
    ensures
        final(projects)@ == ordered(old(projects)@, |p: Project| project_key(p)),
{
    let mut ranks: Vec<Rank> = Vec::new();
    let mut i: usize = 0;
    while i < projects.len()
        invariant
            i <= projects@.len(),
            ranks@.len() == i,
            forall|j: int| 0 <= j < i ==> (#[trigger] ranks@[j])@ == project_key(projects@[j]),
        decreases projects@.len() - i,
    {
        ranks.push(Rank { number: projects[i].created_at as i128, id: projects[i].id.clone() });
        i += 1;
    }
    sort_ranked(projects, ranks, Ghost(|p: Project| project_key(p)));
}

/// Sorts the tabs of a project.
pub fn sort_tabs(chats: &mut Vec<&Chat>)
    ensures
        final(chats)@ == ordered(old(chats)@, |c: &Chat| tab_key(c)),
{
    let mut ranks: Vec<Rank> = Vec::new();
    let mut i: usize = 0;
    while i < chats.len()
        invariant
            i <= chats@.len(),
            ranks@.len() == i,
            forall|j: int| 0 <= j < i ==> (#[trigger] ranks@[j])@ == tab_key(chats@[j]),
        decreases chats@.len() - i,
    {
        ranks.push(Rank { number: chats[i].created_at as i128, id: chats[i].id.clone() });
        i += 1;
    }
    sort_ranked(chats, ranks, Ghost(|c: &Chat| tab_key(c)));
}

/// Sorts the rows of the Sessions list.
pub fn sort_active(rows: &mut Vec<(ChatIndicator, &Chat)>)
    ensures
        final(rows)@ == ordered(old(rows)@, |r: (ChatIndicator, &Chat)| active_key(r)),
{
    let mut ranks: Vec<Rank> = Vec::new();
    let mut i: usize = 0;
    while i < rows.len()
        invariant
            i <= rows@.len(),
            ranks@.len() == i,
            forall|j: int| 0 <= j < i ==> (#[trigger] ranks@[j])@ == active_key(rows@[j]),
        decreases rows@.len() - i,
    {
        let chat: &Chat = rows[i].1;
        ranks.push(Rank { number: -(chat.last_activity() as i128), id: chat.id.clone() });
        i += 1;
    }
    sort_ranked(rows, ranks, Ghost(|r: (ChatIndicator, &Chat)| active_key(r)));
}

/// Sorts devices by id.
pub fn sort_devices(devices: &mut Vec<Device>)
    ensures
        final(devices)@ == ordered(old(devices)@, |d: Device| device_key(d)),
{
    let mut ranks: Vec<Rank> = Vec::new();
    let mut i: usize = 0;
    while i < devices.len()
        invariant
            i <= devices@.len(),
            ranks@.len() == i,
            forall|j: int| 0 <= j < i ==> (#[trigger] ranks@[j])@ == device_key(devices@[j]),
        decreases devices@.len() - i,
    {
        ranks.push(Rank { number: 0, id: devices[i].id.clone() });
        i += 1;
    }
    sort_ranked(devices, ranks, Ghost(|d: Device| device_key(d)));
}

/// `s` without the slashes at its end.
pub open spec fn without_slashes(s: Seq<char>) -> Seq<char>
    decreases s.len(),
{
    if s.len() > 0 && s.last() == '/' {
        without_slashes(s.drop_last())
    } else {
        s
    }
}

/// The last folder of a path; the path itself when it is nothing but slashes.
pub open spec fn folder_label(path: Seq<char>) -> Seq<char> {
    let name = after_last(without_slashes(path), '/');
    if name.len() == 0 {
        path
    } else {
        name
    }
}

/// The label of a working directory.
pub open spec fn label_of(cwd: Option<Seq<char>>) -> Seq<char> {
    match cwd {
        Some(c) => if trimmed(c).len() == 0 {
            "No project"@
        } else {
            folder_label(trimmed(c))
        },
        None => "No project"@,
    }
}

fn cut_slashes(path: &str) -> (r: String)
    ensures
        r@ == without_slashes(path@),
{
    let cs: Vec<char> = chars_of(path);
    let mut to: usize = cs.len();
    assert(cs@.subrange(0, to as int) =~= path@);
    while to > 0 && cs[to - 1] == '/'
        invariant
            to <= cs@.len(),
            cs@ == path@,
            without_slashes(path@) == without_slashes(cs@.subrange(0, to as int)),
        decreases to,
    {
        assert(cs@.subrange(0, to as int).drop_last() =~= cs@.subrange(0, to - 1));
        to -= 1;
    }
    text_of(&cs, 0, to)
}

/// The last folder of a path.
pub fn folder_name(path: &str) -> (s: String)
    ensures
        s@ == folder_label(path@),
{
    let bare: String = cut_slashes(path);
    let name: String = last_segment(bare.as_str(), '/').to_owned();
    if name.as_str().is_empty() {
        path.to_owned()
    } else {
        name
    }
}

/// The label of a working directory: its last folder.
pub fn project_label(cwd: Option<&str>) -> (s: String)
    ensures
        s@ == label_of(crate::terminal::view::opt_text(cwd)),
{
    match cwd {
        None => "No project".to_owned(),
        Some(c) => {
            let path: String = trim(c);
            if path.as_str().is_empty() {
                "No project".to_owned()
            } else {
                folder_name(path.as_str())
            }
        },
    }
}

/// The label of a chat's working directory.
pub open spec fn chat_label(c: Chat) -> Seq<char> {
    label_of(opt(c.cwd))
}

/// A group of the sidebar.
#[derive(Debug)]
pub struct ChatGroup<'a> {
    pub label: String,
    pub chats: Vec<&'a Chat>,
}

/// The labels of some chats, each where it first occurs.
pub open spec fn labels_of(chats: Seq<Chat>) -> Seq<Seq<char>>
    decreases chats.len(),
{
    if chats.len() == 0 {
        Seq::empty()
    } else {
        let before = labels_of(chats.drop_last());
        let label = chat_label(chats.last());
        if before.contains(label) {
            before
        } else {
            before.push(label)
        }
    }
}

/// The chats with a label, in order.
pub open spec fn labelled(chats: Seq<Chat>, label: Seq<char>) -> Seq<Chat>
    decreases chats.len(),
{
    if chats.len() == 0 {
        Seq::empty()
    } else if chat_label(chats.last()) == label {
        labelled(chats.drop_last(), label).push(chats.last())
    } else {
        labelled(chats.drop_last(), label)
    }
}

/// The chats that references point at.
pub open spec fn deref(chats: Seq<&Chat>) -> Seq<Chat> {
    chats.map_values(|c: &Chat| *c)
}

/// Groups chats by the folder they work in. Groups stand in the order in which
/// their labels first occur, and chats keep their order.
pub fn group_chats<'a>(chats: &Vec<&'a Chat>) -> (groups: Vec<ChatGroup<'a>>)
    ensures
        groups@.len() == labels_of(deref(chats@)).len(),
        forall|g: int|
            0 <= g < groups@.len() ==> (#[trigger] groups@[g]).label@ == labels_of(
                deref(chats@),
            )[g] && deref(groups@[g].chats@) == labelled(deref(chats@), groups@[g].label@),
{
    let mut groups: Vec<ChatGroup<'a>> = Vec::new();
    let ghost all = deref(chats@);
    let mut i: usize = 0;
    assert(all.take(0) =~= Seq::<Chat>::empty());
    while i < chats.len()
        invariant
            i <= chats@.len(),
            all == deref(chats@),
            groups@.len() == labels_of(all.take(i as int)).len(),
            forall|g: int|
                0 <= g < groups@.len() ==> (#[trigger] groups@[g]).label@ == labels_of(
                    all.take(i as int),
                )[g] && deref(groups@[g].chats@) == labelled(all.take(i as int), groups@[g].label@),
        decreases chats@.len() - i,
    {
        let chat: &'a Chat = chats[i];
        let cwd: Option<&str> = match &chat.cwd {
            Some(c) => Some(c.as_str()),
            None => None,
        };
        let label: String = project_label(cwd);
        let ghost before = all.take(i as int);
        let ghost now = all.take(i + 1);
        let ghost labels = labels_of(before);
        proof {
            assert(now.drop_last() =~= before);
            assert(now.last() == *chat);
            labels_distinct(before);
            labelled_unknown(before, label@);
        }
        let mut g: usize = 0;
        while g < groups.len() && !same(groups[g].label.as_str(), label.as_str())
            invariant
                g <= groups@.len(),
                forall|j: int| 0 <= j < g ==> (#[trigger] groups@[j]).label@ != label@,
            decreases groups@.len() - g,
        {
            g += 1;
        }
        if g < groups.len() {
            proof {
                assert(labels[g as int] == label@);
                assert(labels.contains(label@));
            }
            let ghost old_groups = groups@;
            let mut group: ChatGroup<'a> = ChatGroup { label: String::new(), chats: Vec::new() };
            std::mem::swap(&mut group, &mut groups[g]);
            group.chats.push(chat);
            assert(deref(group.chats@) =~= deref(old_groups[g as int].chats@).push(*chat));
            groups.set(g, group);
            assert forall|k: int| 0 <= k < groups@.len() implies (#[trigger] groups@[k]).label@
                == labels_of(now)[k] && deref(groups@[k].chats@) == labelled(
                now,
                groups@[k].label@,
            ) by {
                assert(old_groups[k].label@ == labels[k]);
                if k != g {
                    assert(labels[k] != labels[g as int]);
                }
            }
        } else {
            proof {
                assert(!labels.contains(label@)) by {
                    if labels.contains(label@) {
                        let k = choose|k: int| 0 <= k < labels.len() && labels[k] == label@;
                        assert(groups@[k].label@ == label@);
                    }
                }
            }
            let ghost old_groups = groups@;
            let mut only: Vec<&'a Chat> = Vec::new();
            only.push(chat);
            assert(deref(only@) =~= seq![*chat]);
            groups.push(ChatGroup { label, chats: only });
            assert forall|k: int| 0 <= k < groups@.len() implies (#[trigger] groups@[k]).label@
                == labels_of(now)[k] && deref(groups@[k].chats@) == labelled(
                now,
                groups@[k].label@,
            ) by {
                if k < old_groups.len() {
                    assert(old_groups[k].label@ == labels[k]);
                } else {
                    assert(labelled(before, label@) =~= Seq::<Chat>::empty());
                    assert(deref(groups@[k].chats@) =~= labelled(now, label@));
                }
            }
        }
        i += 1;
    }
    assert(all.take(chats@.len() as int) =~= all);
    groups
}

proof fn labels_distinct(chats: Seq<Chat>)
    ensures
        labels_of(chats).no_duplicates(),
    decreases chats.len(),
{
    if chats.len() > 0 {
        labels_distinct(chats.drop_last());
    }
}

/// No chat carries a label that is not among the labels.
proof fn labelled_unknown(chats: Seq<Chat>, label: Seq<char>)
    ensures
        !labels_of(chats).contains(label) ==> labelled(chats, label).len() == 0,
    decreases chats.len(),
{
    if chats.len() > 0 {
        labelled_unknown(chats.drop_last(), label);
        let before = labels_of(chats.drop_last());
        let mine = chat_label(chats.last());
        if before.contains(label) {
            if !before.contains(mine) {
                let k = choose|k: int| 0 <= k < before.len() && before[k] == label;
                assert(before.push(mine)[k] == label);
            }
        }
        if !before.contains(mine) {
            assert(before.push(mine)[before.len() as int] == mine);
        }
    }
}

/// The relative time that is shown for an age in seconds. Weeks give way to months
/// after five of them, and a month counts thirty days: both are choices, since a
/// calendar would need the dates.
pub open spec fn age_text(secs: int) -> Seq<char> {
    let minutes = secs / 60;
    let hours = secs / 3600;
    let days = secs / 86400;
    if secs < 60 {
        "now"@
    } else if minutes < 60 {
        decimal(minutes as nat) + "m"@
    } else if hours < 24 {
        decimal(hours as nat) + "h"@
    } else if days < 7 {
        decimal(days as nat) + "d"@
    } else if days < 35 {
        decimal((days / 7) as nat) + "w"@
    } else if days < 365 {
        decimal((days / 30) as nat) + "mo"@
    } else {
        decimal((days / 365) as nat) + "y"@
    }
}

/// How long ago `then` was; the future is now.
pub open spec fn time_ago(then: int, now: int) -> Seq<char> {
    if now <= then {
        "now"@
    } else {
        age_text((now - then) / 1_000_000)
    }
}

fn counted(n: u64, unit: &str) -> (s: String)
    ensures
        s@ == decimal(n as nat) + unit@,
{
    let mut s: String = decimal_text(n);
    s.append(unit);
    s
}

/// How long ago `then` was, in the largest unit that fits.
pub fn format_time_ago(then: i64, now: i64) -> (s: String)
    ensures
        s@ == time_ago(then as int, now as int),
{
    if now <= then {
        return "now".to_owned();
    }
    let age: u64 = (now as i128 - then as i128) as u64;
    let secs: u64 = age / 1_000_000;
    let minutes: u64 = secs / 60;
    let hours: u64 = secs / 3600;
    let days: u64 = secs / 86400;
    if secs < 60 {
        "now".to_owned()
    } else if minutes < 60 {
        counted(minutes, "m")
    } else if hours < 24 {
        counted(hours, "h")
    } else if days < 7 {
        counted(days, "d")
    } else if days < 35 {
        counted(days / 7, "w")
    } else if days < 365 {
        counted(days / 30, "mo")
    } else {
        counted(days / 365, "y")
    }
}

/// Where a chat works: its folder, its branch, or both.
pub open spec fn location_of(c: Chat) -> Option<Seq<char>> {
    let folder = match c.cwd {
        Some(cwd) if trimmed(cwd@).len() > 0 => Some(folder_label(trimmed(cwd@))),
        _ => None,
    };
    let branch = match c.branch {
        Some(b) if trimmed(b@).len() > 0 => Some(trimmed(b@)),
        _ => None,
    };
    match (folder, branch) {
        (Some(f), Some(b)) => Some(f + " \u{b7} "@ + b),
        (Some(f), None) => Some(f),
        (None, Some(b)) => Some(b),
        (None, None) => None,
    }
}

/// A trimmed text, when anything is left of it.
pub fn trimmed_or_none(o: &Option<String>) -> (r: Option<String>)
    ensures
        match r {
            Some(s) => o is Some && trimmed(o->0@).len() > 0 && s@ == trimmed(o->0@),
            None => o is None || trimmed(o->0@).len() == 0,
        },
{
    match o {
        None => None,
        Some(s) => {
            let t: String = trim(s.as_str());
            if t.as_str().is_empty() {
                None
            } else {
                Some(t)
            }
        },
    }
}

/// Where a chat works, for its row.
pub fn chat_location(chat: &Chat) -> (s: Option<String>)
    ensures
        opt(s) == location_of(*chat),
{
    let folder: Option<String> = match &chat.cwd {
        None => None,
        Some(cwd) => if trim(cwd.as_str()).as_str().is_empty() {
            None
        } else {
            Some(project_label(Some(cwd.as_str())))
        },
    };
    let branch: Option<String> = trimmed_or_none(&chat.branch);
    match (folder, branch) {
        (Some(f), Some(b)) => {
            let mut s: String = f;
            s.append(" \u{b7} ");
            s.append(b.as_str());
            Some(s)
        },
        (Some(f), None) => Some(f),
        (None, Some(b)) => Some(b),
        (None, None) => None,
    }
}

}
