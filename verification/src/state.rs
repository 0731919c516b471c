//! App state: how the engine is reached, the entity lists, the selection and
//! the selected chat's transcript. Reducers fold what the engine sends into the
//! state; whoever owns the state carries out the effects they ask for.
use vstd::prelude::*;
use vstd::string::*;

use crate::ids::utc_now;
use crate::keyed::Keyed;
use crate::order::{ordered, ordered_commutes, ordered_members};
use crate::proto::{
    chat_key, deref, device_key, display_status, effective_indicator, gate_phase, indicator, project_key,
    sort_active, sort_chats, sort_devices, sort_projects, sort_tabs, status_of, tab_key, active_key,
    Chat, ChatConfig, ChatIndicator, CollaborationSession, ConnectionStatus, Device, GatePhase,
    HarnessId, Indicator, MessagePart, MessageRole, PeerView, Project, Session, SessionMessageEntry,
    SessionStatus,
};
use crate::saved::{json_text, saved_chat};
use crate::seqs::{any, first_at, first_at_is, first_at_props, found, found_iff_any, kept, kept_step};
use crate::text::{chars_of, decimal, decimal_text, same};
use crate::wire::{copy_opt, is_text, opt, same_opt, Call, Method, Request, Value, ValueView};

verus! {

/// Everything needed to reach, or start, an engine.
#[derive(Debug, Clone, PartialEq, Eq)]
pub struct EngineBootConfig {
    pub data_dir: String,
    pub ipc_port: u16,
    pub nova_port: u16,
    pub update_url: Option<String>,
    pub default_harness: HarnessId,
}

/// How the engine was reached.
#[derive(Debug, Clone, PartialEq, Eq)]
pub enum EngineMode {
    /// Embedded in this process.
    InProcess,
    /// A separate daemon.
    Remote { url: String },
}

/// How long the probe of the port may take, in milliseconds.
pub const PROBE_TIMEOUT_MS: u64 = 750;

/// The address of a daemon on this machine.
pub open spec fn daemon_url(port: u16) -> Seq<char> {
    "ws://127.0.0.1:"@ + decimal(port as nat)
}

/// The address of a daemon on this machine.
pub fn ipc_url(port: u16) -> (s: String)
    ensures
        s@ == daemon_url(port),
{
    let mut s: String = "ws://127.0.0.1:".to_owned();
    s.append(decimal_text(port as u64).as_str());
    s
}

/// What to do next to get at an engine.
#[derive(Debug, Clone, PartialEq, Eq)]
pub enum BootStep {
    /// See whether anything accepts connections on the port.
    Probe { port: u16 },
    /// Connect to the daemon.
    Connect { url: String },
    /// Assemble an engine in this process.
    Embed,
    /// Serve the embedded engine on the port, for other viewports.
    Serve { port: u16 },
    /// Done. `serving` tells whether other viewports can attach to this one.
    Ready { mode: EngineMode, serving: bool },
    Failed { message: String },
}

/// What came of a step.
#[derive(Debug, Clone, PartialEq, Eq)]
pub enum BootEvent {
    Probed { listening: bool },
    Connected { ok: bool },
    Assembled,
    AssembleFailed { message: String },
    Bound { ok: bool },
}

/// The step that follows `step` after `event`: a daemon is used when it answers
/// as one, otherwise an engine is embedded; only assembling it can fail the
/// boot, and a port that is taken costs other viewports, not this one.
pub open spec fn boot_follows(
    config: EngineBootConfig,
    step: BootStep,
    event: BootEvent,
    next: BootStep,
) -> bool {
    match (step, event) {
        (BootStep::Probe { .. }, BootEvent::Probed { listening: true }) => next matches BootStep::Connect {
            url,
        } && url@ == daemon_url(config.ipc_port),
        (BootStep::Probe { .. }, BootEvent::Probed { listening: false }) => next is Embed,
        (BootStep::Connect { url }, BootEvent::Connected { ok: true }) => next
            == (BootStep::Ready { mode: EngineMode::Remote { url }, serving: false }),
        (BootStep::Connect { .. }, BootEvent::Connected { ok: false }) => next is Embed,
        (BootStep::Embed, BootEvent::Assembled) => next == (BootStep::Serve {
            port: config.ipc_port,
        }),
        (BootStep::Embed, BootEvent::AssembleFailed { message }) => next == (BootStep::Failed {
            message,
        }),
        (BootStep::Serve { .. }, BootEvent::Bound { ok }) => next == (BootStep::Ready {
            mode: EngineMode::InProcess,
            serving: ok,
        }),
        _ => next == step,
    }
}

/// The first step of a boot.
pub fn boot_start(config: &EngineBootConfig) -> (step: BootStep)
    ensures
        step == (BootStep::Probe { port: config.ipc_port }),
{
    BootStep::Probe { port: config.ipc_port }
}

/// The step after `step`, given what came of it. An event that does not belong
/// to the step changes nothing.
pub fn boot_next(config: &EngineBootConfig, step: BootStep, event: BootEvent) -> (next: BootStep)
    ensures
        boot_follows(*config, step, event, next),
{
    match (step, event) {
        (BootStep::Probe { port }, BootEvent::Probed { listening }) => if listening {
            BootStep::Connect { url: ipc_url(config.ipc_port) }
        } else {
            BootStep::Embed
        },
        (BootStep::Connect { url }, BootEvent::Connected { ok }) => if ok {
            BootStep::Ready { mode: EngineMode::Remote { url }, serving: false }
        } else {
            BootStep::Embed
        },
        (BootStep::Embed, BootEvent::Assembled) => BootStep::Serve { port: config.ipc_port },
        (BootStep::Embed, BootEvent::AssembleFailed { message }) => BootStep::Failed { message },
        (BootStep::Serve { port }, BootEvent::Bound { ok }) => BootStep::Ready {
            mode: EngineMode::InProcess,
            serving: ok,
        },
        (other, _) => other,
    }
}

/// Whether a boot takes the steps `a`, `b` and `c` to its end, by what the
/// outside did: whether the port answered, whether it answered as an engine, how
/// assembling went and whether the port could be bound.
pub open spec fn boot_goes(
    config: EngineBootConfig,
    listening: bool,
    engine: bool,
    assembled: Option<String>,
    bound: bool,
    a: BootStep,
    b: BootStep,
    c: BootStep,
    end: BootStep,
) -> bool {
    &&& boot_follows(
        config,
        BootStep::Probe { port: config.ipc_port },
        BootEvent::Probed { listening },
        a,
    )
    &&& boot_follows(config, a, BootEvent::Connected { ok: engine }, b)
    &&& boot_follows(
        config,
        b,
        match assembled {
            Some(message) => BootEvent::AssembleFailed { message },
            None => BootEvent::Assembled,
        },
        c,
    )
    &&& boot_follows(config, c, BootEvent::Bound { ok: bound }, end)
}

/// A daemon that answers as one is used; in every other case the window runs
/// its own engine, unless that cannot be assembled, and a taken port never
/// fails the boot.
pub proof fn boot_outcomes(
    config: EngineBootConfig,
    listening: bool,
    engine: bool,
    assembled: Option<String>,
    bound: bool,
    a: BootStep,
    b: BootStep,
    c: BootStep,
    end: BootStep,
)
    requires
        boot_goes(config, listening, engine, assembled, bound, a, b, c, end),
    ensures
        listening && engine ==> (end matches BootStep::Ready {
            mode: EngineMode::Remote { url },
            serving: false,
        } && url@ == daemon_url(config.ipc_port)),
        !(listening && engine) && assembled is None ==> end == (BootStep::Ready {
            mode: EngineMode::InProcess,
            serving: bound,
        }),
        !(listening && engine) && assembled is Some ==> end == (BootStep::Failed {
            message: assembled->0,
        }),
{
}

/// What tearing an engine down takes.
#[derive(Debug, Clone, Copy, PartialEq, Eq, Structural)]
pub enum ShutdownStep {
    /// Accept no more viewports.
    StopServing,
    /// Let runs finish and flush documents.
    DrainEngine,
}

/// The engine that the boot arrived at.
#[derive(Debug, Clone, PartialEq, Eq)]
pub struct EngineHandle {
    pub mode: EngineMode,
    pub serving: bool,
}

impl EngineHandle {
    pub fn mode(&self) -> (m: &EngineMode)
        ensures
            *m == self.mode,
    {
        &self.mode
    }

    /// How to tear the engine down, in order. New viewports are turned away
    /// first, so that none connects to stores that are closing; a daemon
    /// outlives its viewports.
    pub fn shutdown(&self) -> (steps: Vec<ShutdownStep>)
        ensures
            steps@ == (match self.mode {
                EngineMode::Remote { .. } => Seq::<ShutdownStep>::empty(),
                EngineMode::InProcess => if self.serving {
                    seq![ShutdownStep::StopServing, ShutdownStep::DrainEngine]
                } else {
                    seq![ShutdownStep::DrainEngine]
                },
            }),
    {
        let mut steps: Vec<ShutdownStep> = Vec::new();
        match &self.mode {
            EngineMode::Remote { .. } => {},
            EngineMode::InProcess => {
                if self.serving {
                    steps.push(ShutdownStep::StopServing);
                }
                steps.push(ShutdownStep::DrainEngine);
            },
        }
        assert(steps@ =~= (match self.mode {
            EngineMode::Remote { .. } => Seq::<ShutdownStep>::empty(),
            EngineMode::InProcess => if self.serving {
                seq![ShutdownStep::StopServing, ShutdownStep::DrainEngine]
            } else {
                seq![ShutdownStep::DrainEngine]
            },
        }));
        steps
    }
}

/// Something that the owner of the state has to do.
pub enum Effect {
    /// Draw again.
    Notify,
    /// Call the engine and forget about the reply.
    Call(Request),
    /// Subscribe to a method without parameters.
    Watch(Method),
    /// Subscribe to the transcript of a chat, in place of any other transcript.
    WatchTranscript(String),
    /// Remember the selection in the data directory, for a replacement process.
    SaveSelection { dir: String, selected: Option<String> },
    /// Tell the supervisor that this window is attached and live.
    AnnounceReady,
    /// Restore the selection once chats have arrived.
    RestoreLater,
}

/// What an effect says.
pub ghost enum EffectView {
    Notify,
    Call(Call),
    Watch(Method),
    WatchTranscript(Seq<char>),
    SaveSelection { dir: Seq<char>, selected: Option<Seq<char>> },
    AnnounceReady,
    RestoreLater,
}

impl View for Effect {
    type V = EffectView;

    open spec fn view(&self) -> EffectView {
        match self {
            Effect::Notify => EffectView::Notify,
            Effect::Call(r) => EffectView::Call(r@),
            Effect::Watch(m) => EffectView::Watch(*m),
            Effect::WatchTranscript(c) => EffectView::WatchTranscript(c@),
            Effect::SaveSelection { dir, selected } => EffectView::SaveSelection {
                dir: dir@,
                selected: opt(*selected),
            },
            Effect::AnnounceReady => EffectView::AnnounceReady,
            Effect::RestoreLater => EffectView::RestoreLater,
        }
    }
}

/// What some effects say.
pub open spec fn effects(v: Seq<Effect>) -> Seq<EffectView> {
    v.map_values(|e: Effect| e@)
}

/// Adds an effect.
fn ask(out: &mut Vec<Effect>, e: Effect)
    ensures
        effects(final(out)@) == effects(old(out)@).push(e@),
{
    out.push(e);
    assert(effects(out@) =~= effects(old(out)@).push(e@));
}

/// The file in the data directory that remembers the selection.
pub const SELECTION_FILE: &'static str = "hotreload-state.json";

/// How often to look for chats before restoring the selection, and how many
/// milliseconds to wait in between.
pub const RESTORE_POLLS: u32 = 50;

pub const RESTORE_POLL_MS: u64 = 100;

/// The root of the app's state. The fields are open, for views to read.
pub struct AppState {
    pub connection: ConnectionStatus,
    /// Workspace devices and paired peers, by id.
    pub devices: Vec<Device>,
    pub workspace_devices: Vec<Device>,
    pub nova_devices: Vec<Device>,
    /// Sorted by creation.
    pub projects: Vec<Project>,
    /// Sorted by recency; archived chats are among them.
    pub chats: Vec<Chat>,
    pub sessions: Vec<Session>,
    pub collaborations: Vec<CollaborationSession>,
    pub selected_project: Option<String>,
    pub selected_chat: Option<String>,
    /// The first chat was selected at boot, or somebody has selected since.
    pub auto_selected: bool,
    /// The selected chat is the boot's choice, made before the remembered one
    /// was looked for; nobody has selected since.
    pub boot_selected: bool,
    /// The selection that the replaced process left has been looked for.
    pub restore_looked: bool,
    pub transcript: Vec<SessionMessageEntry>,
    /// When the selected chat's turn began to work, on a clock that never runs
    /// backwards, in microseconds.
    pub working_since: Option<u64>,
    /// Messages sent from here that no transcript has confirmed, by chat.
    pub echoes: Keyed<Vec<SessionMessageEntry>>,
    pub local_device_id: Option<String>,
    /// The latest update report, as the engine sent it.
    pub update: Option<String>,
    pub data_dir: Option<String>,
    /// The developer setting for hot reload.
    pub hotreload: bool,
    /// The environment asks for hot reload.
    pub hotreload_env: bool,
    /// The supervisor has been told that the window is live.
    pub announced: bool,
    pub engine: Option<EngineHandle>,
    /// The chat whose transcript is subscribed to.
    pub transcript_watch: Option<String>,
}

/// The condition of being the chat with an id.
pub open spec fn chat_named(id: Seq<char>) -> spec_fn(Chat) -> bool {
    |c: Chat| c.id@ == id
}

/// The condition of being the project with an id.
pub open spec fn project_named(id: Seq<char>) -> spec_fn(Project) -> bool {
    |p: Project| p.id@ == id
}

/// The condition of being the device with an id.
pub open spec fn device_named(id: Seq<char>) -> spec_fn(Device) -> bool {
    |d: Device| d.id@ == id
}

/// The condition of being the session of a chat.
pub open spec fn session_named(chat: Seq<char>) -> spec_fn(Session) -> bool {
    |s: Session| s.chat_id@ == chat
}

/// The condition of being the collaboration of a chat.
pub open spec fn collaboration_named(chat: Seq<char>) -> spec_fn(CollaborationSession) -> bool {
    |c: CollaborationSession| c.chat_id@ == chat
}

/// The chat with an id: its index, or the number of chats.
pub open spec fn chat_ix(chats: Seq<Chat>, id: Seq<char>) -> int {
    first_at(chats, chat_named(id), 0)
}

pub open spec fn project_ix(projects: Seq<Project>, id: Seq<char>) -> int {
    first_at(projects, project_named(id), 0)
}

pub open spec fn device_ix(devices: Seq<Device>, id: Seq<char>) -> int {
    first_at(devices, device_named(id), 0)
}

pub open spec fn session_ix(sessions: Seq<Session>, chat: Seq<char>) -> int {
    first_at(sessions, session_named(chat), 0)
}

/// The item at an index, when there is one.
pub open spec fn at<T>(s: Seq<T>, i: int) -> Option<T> {
    if 0 <= i < s.len() {
        Some(s[i])
    } else {
        None
    }
}

/// The same for a reference.
pub open spec fn is_at<T>(r: Option<&T>, s: Seq<T>, i: int) -> bool {
    match r {
        Some(x) => 0 <= i < s.len() && *x == s[i],
        None => !(0 <= i < s.len()),
    }
}

/// Putting a list in order loses none of its members.
proof fn order_keeps_any<T>(s: Seq<T>, key: spec_fn(T) -> (int, Seq<char>), p: spec_fn(T) -> bool)
    ensures
        first_at(ordered(s, key), p, 0) < ordered(s, key).len() <==> first_at(s, p, 0) < s.len(),
        ordered(s, key).len() == s.len(),
{
    let o = ordered(s, key);
    ordered_members(s, key);
    crate::order::ordered_is_permutation(s, key);
    found_iff_any(s, p);
    found_iff_any(o, p);
    if any(s, p) {
        let i = choose|i: int| 0 <= i < s.len() && p(#[trigger] s[i]);
        assert(s.contains(s[i]));
        assert(o.contains(s[i]));
        let j = choose|j: int| 0 <= j < o.len() && o[j] == s[i];
        assert(p(o[j]));
    }
    if any(o, p) {
        let i = choose|i: int| 0 <= i < o.len() && p(#[trigger] o[i]);
        assert(o.contains(o[i]));
        assert(s.contains(o[i]));
        let j = choose|j: int| 0 <= j < s.len() && s[j] == o[i];
        assert(p(s[j]));
    }
}

/// Whether a message with that id is among the entries.
pub open spec fn has_entry(entries: Seq<SessionMessageEntry>, id: Seq<char>) -> bool {
    any(entries, |e: SessionMessageEntry| e.id@ == id)
}

pub open spec fn by_recency() -> spec_fn(Chat) -> (int, Seq<char>) {
    |c: Chat| chat_key(c)
}

pub open spec fn by_creation() -> spec_fn(Project) -> (int, Seq<char>) {
    |p: Project| project_key(p)
}

pub open spec fn by_device_id() -> spec_fn(Device) -> (int, Seq<char>) {
    |d: Device| device_key(d)
}

pub fn find_chat(chats: &Vec<Chat>, id: &str) -> (i: usize)
    ensures
        i == chat_ix(chats@, id@),
        i <= chats@.len(),
{
    let mut i: usize = 0;
    while i < chats.len() && !same(chats[i].id.as_str(), id)
        invariant
            i <= chats@.len(),
            forall|j: int| 0 <= j < i ==> (#[trigger] chats@[j]).id@ != id@,
        decreases chats@.len() - i,
    {
        i += 1;
    }
    proof {
        first_at_is(chats@, chat_named(id@), i as int);
    }
    i
}

pub fn find_project(projects: &Vec<Project>, id: &str) -> (i: usize)
    ensures
        i == project_ix(projects@, id@),
        i <= projects@.len(),
{
    let mut i: usize = 0;
    while i < projects.len() && !same(projects[i].id.as_str(), id)
        invariant
            i <= projects@.len(),
            forall|j: int| 0 <= j < i ==> (#[trigger] projects@[j]).id@ != id@,
        decreases projects@.len() - i,
    {
        i += 1;
    }
    proof {
        first_at_is(projects@, project_named(id@), i as int);
    }
    i
}

pub fn find_device(devices: &Vec<Device>, id: &str) -> (i: usize)
    ensures
        i == device_ix(devices@, id@),
        i <= devices@.len(),
{
    let mut i: usize = 0;
    while i < devices.len() && !same(devices[i].id.as_str(), id)
        invariant
            i <= devices@.len(),
            forall|j: int| 0 <= j < i ==> (#[trigger] devices@[j]).id@ != id@,
        decreases devices@.len() - i,
    {
        i += 1;
    }
    proof {
        first_at_is(devices@, device_named(id@), i as int);
    }
    i
}

fn find_session(sessions: &Vec<Session>, chat: &str) -> (i: usize)
    ensures
        i == session_ix(sessions@, chat@),
        i <= sessions@.len(),
{
    let mut i: usize = 0;
    while i < sessions.len() && !same(sessions[i].chat_id.as_str(), chat)
        invariant
            i <= sessions@.len(),
            forall|j: int| 0 <= j < i ==> (#[trigger] sessions@[j]).chat_id@ != chat@,
        decreases sessions@.len() - i,
    {
        i += 1;
    }
    proof {
        first_at_is(sessions@, session_named(chat@), i as int);
    }
    i
}

fn entry_exists(entries: &Vec<SessionMessageEntry>, id: &str) -> (r: bool)
    ensures
        r == has_entry(entries@, id@),
{
    let mut i: usize = 0;
    while i < entries.len()
        invariant
            i <= entries@.len(),
            forall|j: int| 0 <= j < i ==> (#[trigger] entries@[j]).id@ != id@,
        decreases entries@.len() - i,
    {
        if same(entries[i].id.as_str(), id) {
            return true;
        }
        i += 1;
    }
    false
}

/// Whether the chat's session claims to be at work.
pub open spec fn is_working(sessions: Seq<Session>, chat: Option<Seq<char>>) -> bool {
    chat is Some && any(
        sessions,
        |s: Session| s.chat_id@ == chat->0 && s.status == SessionStatus::Working,
    )
}

/// The working clock after a look at the sessions: it starts when work begins,
/// stops when it ends, and is left alone in between.
pub open spec fn clock(since: Option<u64>, working: bool, now: u64) -> Option<u64> {
    if working {
        match since {
            None => Some(now),
            Some(t) => Some(t),
        }
    } else {
        None
    }
}

/// Workspace devices with paired peers merged in: a peer brings the row with
/// its id up to date, or becomes a row of its own.
pub open spec fn merged(workspace: Seq<Device>, peers: Seq<Device>) -> Seq<Device>
    decreases peers.len(),
{
    if peers.len() == 0 {
        workspace
    } else {
        let before = merged(workspace, peers.drop_last());
        let peer = peers.last();
        let i = device_ix(before, peer.id@);
        if i < before.len() {
            before.update(
                i,
                Device {
                    name: peer.name,
                    platform: peer.platform,
                    last_seen_at: match peer.last_seen_at {
                        Some(t) => Some(t),
                        None => before[i].last_seen_at,
                    },
                    ..before[i]
                },
            )
        } else {
            before.push(peer)
        }
    }
}

/// The characters of output in a part of a message: its text, or the call of a
/// tool as the model wrote it.
pub open spec fn part_chars(p: MessagePart) -> nat {
    match p {
        MessagePart::Text { text, .. } => text@.len(),
        MessagePart::Tool { call_json, .. } => call_json@.len(),
        MessagePart::Other => 0,
    }
}

pub open spec fn parts_chars(parts: Seq<MessagePart>) -> nat
    decreases parts.len(),
{
    if parts.len() == 0 {
        0
    } else {
        parts_chars(parts.drop_last()) + part_chars(parts.last())
    }
}

/// The characters that the assistant wrote in some entries.
pub open spec fn assistant_chars(entries: Seq<SessionMessageEntry>) -> nat
    decreases entries.len(),
{
    if entries.len() == 0 {
        0
    } else if entries.last().role == MessageRole::Assistant {
        assistant_chars(entries.drop_last()) + parts_chars(entries.last().parts@)
    } else {
        assistant_chars(entries.drop_last())
    }
}

/// Where the current turn begins: behind the last message of the user.
pub open spec fn turn_start(entries: Seq<SessionMessageEntry>) -> int
    decreases entries.len(),
{
    if entries.len() == 0 {
        0
    } else if entries.last().role == MessageRole::User {
        entries.len() as int
    } else {
        turn_start(entries.drop_last())
    }
}

/// The characters that the assistant wrote in the current turn.
pub open spec fn turn_chars(entries: Seq<SessionMessageEntry>) -> nat {
    assistant_chars(entries.subrange(turn_start(entries), entries.len() as int))
}

impl Default for AppState {
    fn default() -> (s: Self)
        ensures
            s.is_new(),
    {
        AppState::new()
    }
}

impl AppState {
    /// Nothing is known yet.
    pub open spec fn is_new(self) -> bool {
        &&& self.wf()
        &&& self.connection is Connecting
        &&& self.devices@.len() == 0
        &&& self.workspace_devices@.len() == 0
        &&& self.nova_devices@.len() == 0
        &&& self.projects@.len() == 0
        &&& self.chats@.len() == 0
        &&& self.sessions@.len() == 0
        &&& self.collaborations@.len() == 0
        &&& self.selected_project is None
        &&& self.selected_chat is None
        &&& !self.auto_selected
        &&& !self.boot_selected
        &&& !self.restore_looked
        &&& self.transcript@.len() == 0
        &&& self.working_since is None
        &&& self.echo_map() == Map::<Seq<char>, Seq<SessionMessageEntry>>::empty()
        &&& self.local_device_id is None
        &&& self.update is None
        &&& self.data_dir is None
        &&& !self.hotreload
        &&& !self.hotreload_env
        &&& !self.announced
        &&& self.engine is None
        &&& self.transcript_watch is None
    }

    /// The echo lists are sound, the transcript that is subscribed to is that of
    /// the selected chat, and without a selected chat no turn of one runs. The
    /// functions need sound echo lists only; they keep all of it.
    pub open spec fn wf(self) -> bool {
        &&& self.echoes.wf()
        &&& self.transcript_watch is Some ==> opt(self.transcript_watch) == opt(self.selected_chat)
        &&& self.selected_chat is None ==> self.working_since is None
        &&& self.selected_chat is None ==> !self.boot_selected
    }

    /// The unconfirmed messages of each chat.
    pub open spec fn echo_map(self) -> Map<Seq<char>, Seq<SessionMessageEntry>> {
        self.echoes@.map_values(|v: Vec<SessionMessageEntry>| v@)
    }

    /// The unconfirmed messages of a chat.
    pub open spec fn echoes_of(self, chat: Seq<char>) -> Seq<SessionMessageEntry> {
        if self.echo_map().contains_key(chat) {
            self.echo_map()[chat]
        } else {
            Seq::empty()
        }
    }

    pub fn new() -> (s: AppState)
        ensures
            s.is_new(),
    {
        let s = AppState {
            connection: ConnectionStatus::Connecting,
            devices: Vec::new(),
            workspace_devices: Vec::new(),
            nova_devices: Vec::new(),
            projects: Vec::new(),
            chats: Vec::new(),
            sessions: Vec::new(),
            collaborations: Vec::new(),
            selected_project: None,
            selected_chat: None,
            auto_selected: false,
            boot_selected: false,
            restore_looked: false,
            transcript: Vec::new(),
            working_since: None,
            echoes: Keyed::new(),
            local_device_id: None,
            update: None,
            data_dir: None,
            hotreload: false,
            hotreload_env: false,
            announced: false,
            engine: None,
            transcript_watch: None,
        };
        assert(s.echo_map() =~= Map::<Seq<char>, Seq<SessionMessageEntry>>::empty());
        s
    }

    /// Takes the list of chats over, in sidebar order. A selected chat that is
    /// no longer among them takes its transcript and its clock with it.
    pub fn apply_chats(&mut self, chats: Vec<Chat>)
        requires
            old(self).echoes.wf(),
        ensures
            final(self).echoes.wf(),
            old(self).wf() ==> final(self).wf(),
            final(self).chats@ == ordered(chats@, by_recency()),
            ({
                let gone = old(self).selected_chat is Some && chat_ix(
                    chats@,
                    old(self).selected_chat->0@,
                ) >= chats@.len();
                &&& gone ==> final(self).selected_chat is None && final(self).transcript@.len() == 0
                    && final(self).transcript_watch is None && final(self).working_since is None
                    && !final(self).boot_selected
                &&& !gone ==> final(self).selected_chat == old(self).selected_chat
                    && final(self).transcript == old(self).transcript
                    && final(self).transcript_watch == old(self).transcript_watch
                    && final(self).working_since == old(self).working_since
                    && final(self).boot_selected == old(self).boot_selected
            }),
            final(self).selected_chat matches Some(id) ==> chat_ix(final(self).chats@, id@)
                < final(self).chats@.len(),
            *final(self) == (AppState {
                chats: final(self).chats,
                selected_chat: final(self).selected_chat,
                boot_selected: final(self).boot_selected,
                transcript: final(self).transcript,
                transcript_watch: final(self).transcript_watch,
                working_since: final(self).working_since,
                ..*old(self)
            }),
    {
        proof {
            if let Some(id) = &self.selected_chat {
                order_keeps_any(chats@, by_recency(), chat_named(id@));
            }
        }
        let gone: bool = match &self.selected_chat {
            Some(id) => find_chat(&chats, id.as_str()) >= chats.len(),
            None => false,
        };
        let mut sorted: Vec<Chat> = chats;
        sort_chats(&mut sorted);
        assert(sorted@ == ordered(chats@, by_recency()));
        self.chats = sorted;
        if gone {
            self.selected_chat = None;
            self.boot_selected = false;
            self.transcript = Vec::new();
            self.transcript_watch = None;
            self.working_since = None;
        }
    }

    /// Takes the sessions over and looks at the clock.
    pub fn apply_sessions(&mut self, sessions: Vec<Session>, clock_now: u64)
        requires
            old(self).echoes.wf(),
        ensures
            final(self).echoes.wf(),
            old(self).wf() ==> final(self).wf(),
            *final(self) == (AppState {
                sessions,
                working_since: clock(
                    old(self).working_since,
                    is_working(sessions@, opt(old(self).selected_chat)),
                    clock_now,
                ),
                ..*old(self)
            }),
    {
        self.sessions = sessions;
        self.refresh_working_clock(clock_now);
    }

    pub fn apply_collaborations(&mut self, collaborations: Vec<CollaborationSession>)
        requires
            old(self).echoes.wf(),
        ensures
            final(self).echoes.wf(),
            old(self).wf() ==> final(self).wf(),
            *final(self) == (AppState { collaborations, ..*old(self) }),
    {
        self.collaborations = collaborations;
    }

    /// Takes the list of projects over, in creation order. A selection that is
    /// not, or no longer, among them becomes the first of them.
    pub fn apply_projects(&mut self, projects: Vec<Project>)
        requires
            old(self).echoes.wf(),
        ensures
            final(self).echoes.wf(),
            old(self).wf() ==> final(self).wf(),
            final(self).projects@ == ordered(projects@, by_creation()),
            ({
                let alive = old(self).selected_project is Some && project_ix(
                    projects@,
                    old(self).selected_project->0@,
                ) < projects@.len();
                &&& alive ==> final(self).selected_project == old(self).selected_project
                &&& !alive ==> final(self).selected_project == (if final(self).projects@.len() > 0 {
                    Some(final(self).projects@[0].id)
                } else {
                    None
                })
            }),
            final(self).selected_project is Some <==> projects@.len() > 0,
            final(self).selected_project matches Some(id) ==> project_ix(
                final(self).projects@,
                id@,
            ) < final(self).projects@.len(),
            *final(self) == (AppState {
                projects: final(self).projects,
                selected_project: final(self).selected_project,
                ..*old(self)
            }),
    {
        proof {
            order_keeps_any(projects@, by_creation(), project_named(""@));
            if let Some(id) = &self.selected_project {
                order_keeps_any(projects@, by_creation(), project_named(id@));
                found_iff_any(projects@, project_named(id@));
            }
        }
        let alive: bool = match &self.selected_project {
            Some(id) => find_project(&projects, id.as_str()) < projects.len(),
            None => false,
        };
        let mut sorted: Vec<Project> = projects;
        sort_projects(&mut sorted);
        assert(sorted@ == ordered(projects@, by_creation()));
        self.projects = sorted;
        if !alive {
            self.selected_project = if self.projects.len() > 0 {
                Some(self.projects[0].id.clone())
            } else {
                None
            };
            proof {
                if self.projects@.len() > 0 {
                    let id = self.projects@[0].id@;
                    assert(project_named(id)(self.projects@[0]));
                    found_iff_any(self.projects@, project_named(id));
                }
            }
        }
    }

    /// Stamps a chat's configuration ahead of the engine's confirmation.
    pub fn apply_chat_config(&mut self, chat_id: &str, config: ChatConfig)
        requires
            old(self).echoes.wf(),
        ensures
            final(self).echoes.wf(),
            old(self).wf() ==> final(self).wf(),
            ({
                let i = chat_ix(old(self).chats@, chat_id@);
                if i < old(self).chats@.len() {
                    final(self).chats@ == old(self).chats@.update(
                        i,
                        Chat { config: Some(config), ..old(self).chats@[i] },
                    )
                } else {
                    final(self).chats@ == old(self).chats@
                }
            }),
            *final(self) == (AppState { chats: final(self).chats, ..*old(self) }),
    {
        let i: usize = find_chat(&self.chats, chat_id);
        if i < self.chats.len() {
            self.chats[i].config = Some(config);
        }
    }

    pub fn apply_devices(&mut self, devices: Vec<Device>)
        requires
            old(self).echoes.wf(),
        ensures
            final(self).echoes.wf(),
            old(self).wf() ==> final(self).wf(),
            final(self).devices@ == ordered(
                merged(devices@, old(self).nova_devices@),
                by_device_id(),
            ),
            *final(self) == (AppState {
                workspace_devices: devices,
                devices: final(self).devices,
                ..*old(self)
            }),
    {
        self.workspace_devices = devices;
        self.rebuild_devices();
    }

    pub fn apply_nova_devices(&mut self, devices: Vec<Device>)
        requires
            old(self).echoes.wf(),
        ensures
            final(self).echoes.wf(),
            old(self).wf() ==> final(self).wf(),
            final(self).devices@ == ordered(
                merged(old(self).workspace_devices@, devices@),
                by_device_id(),
            ),
            *final(self) == (AppState {
                nova_devices: devices,
                devices: final(self).devices,
                ..*old(self)
            }),
    {
        self.nova_devices = devices;
        self.rebuild_devices();
    }

    fn rebuild_devices(&mut self)
        requires
            old(self).echoes.wf(),
        ensures
            final(self).echoes.wf(),
            old(self).wf() ==> final(self).wf(),
            final(self).devices@ == ordered(
                merged(old(self).workspace_devices@, old(self).nova_devices@),
                by_device_id(),
            ),
            *final(self) == (AppState { devices: final(self).devices, ..*old(self) }),
    {
        let mut rows: Vec<Device> = Vec::new();
        let mut i: usize = 0;
        while i < self.workspace_devices.len()
            invariant
                *self == *old(self),
                i <= self.workspace_devices@.len(),
                rows@ == self.workspace_devices@.take(i as int),
            decreases self.workspace_devices@.len() - i,
        {
            rows.push(self.workspace_devices[i].clone());
            i += 1;
            assert(rows@ =~= self.workspace_devices@.take(i as int));
        }
        assert(rows@ =~= self.workspace_devices@);
        let ghost peers = self.nova_devices@;
        let mut k: usize = 0;
        assert(peers.take(0) =~= Seq::<Device>::empty());
        while k < self.nova_devices.len()
            invariant
                *self == *old(self),
                peers == self.nova_devices@,
                k <= peers.len(),
                rows@ == merged(self.workspace_devices@, peers.take(k as int)),
            decreases peers.len() - k,
        {
            proof {
                assert(peers.take(k + 1).drop_last() =~= peers.take(k as int));
                assert(peers.take(k + 1).last() == peers[k as int]);
            }
            let peer: &Device = &self.nova_devices[k];
            let at: usize = find_device(&rows, peer.id.as_str());
            if at < rows.len() {
                rows[at].name = peer.name.clone();
                rows[at].platform = peer.platform.clone();
                rows[at].last_seen_at = match peer.last_seen_at {
                    Some(t) => Some(t),
                    None => rows[at].last_seen_at,
                };
            } else {
                rows.push(peer.clone());
            }
            k += 1;
            assert(rows@ =~= merged(self.workspace_devices@, peers.take(k as int)));
        }
        assert(peers.take(k as int) =~= peers);
        sort_devices(&mut rows);
        self.devices = rows;
    }

    pub fn apply_update(&mut self, status: String)
        requires
            old(self).echoes.wf(),
        ensures
            final(self).echoes.wf(),
            old(self).wf() ==> final(self).wf(),
            *final(self) == (AppState { update: Some(status), ..*old(self) }),
    {
        self.update = Some(status);
    }

    /// Takes the selected chat's transcript over. What it holds is confirmed,
    /// and no longer an echo.
    pub fn apply_transcript(&mut self, entries: Vec<SessionMessageEntry>, clock_now: u64)
        requires
            old(self).echoes.wf(),
        ensures
            final(self).echoes.wf(),
            old(self).wf() ==> final(self).wf(),
            final(self).echo_map() == (match old(self).selected_chat {
                Some(chat) if old(self).echo_map().contains_key(chat@) => old(
                    self,
                ).echo_map().insert(chat@, unconfirmed(old(self).echo_map()[chat@], entries@)),
                _ => old(self).echo_map(),
            }),
            *final(self) == (AppState {
                echoes: final(self).echoes,
                transcript: entries,
                working_since: clock(
                    old(self).working_since,
                    is_working(old(self).sessions@, opt(old(self).selected_chat)),
                    clock_now,
                ),
                ..*old(self)
            }),
    {
        let selected: Option<String> = copy_opt(&self.selected_chat);
        if let Some(chat) = selected {
            if let Some(list) = self.echoes.remove(chat.as_str()) {
                let ghost before = list@;
                let mut list: Vec<SessionMessageEntry> = list;
                prune(&mut list, &entries);
                self.echoes.insert(chat, list);
                assert(self.echo_map() =~= old(self).echo_map().insert(
                    chat@,
                    unconfirmed(before, entries@),
                ));
            } else {
                assert(self.echo_map() =~= old(self).echo_map());
            }
        }
        self.transcript = entries;
        self.refresh_working_clock(clock_now);
    }

    /// Shows a message before the engine confirms it; one with the same id is
    /// shown once.
    pub fn push_echo(&mut self, chat_id: &str, entry: SessionMessageEntry)
        requires
            old(self).echoes.wf(),
        ensures
            final(self).echoes.wf(),
            old(self).wf() ==> final(self).wf(),
            final(self).echo_map() == old(self).echo_map().insert(
                chat_id@,
                if has_entry(old(self).echoes_of(chat_id@), entry.id@) {
                    old(self).echoes_of(chat_id@)
                } else {
                    old(self).echoes_of(chat_id@).push(entry)
                },
            ),
            *final(self) == (AppState { echoes: final(self).echoes, ..*old(self) }),
    {
        let mut list: Vec<SessionMessageEntry> = match self.echoes.remove(chat_id) {
            Some(list) => list,
            None => Vec::new(),
        };
        assert(list@ =~= old(self).echoes_of(chat_id@));
        if !entry_exists(&list, entry.id.as_str()) {
            list.push(entry);
        }
        let ghost now = list@;
        self.echoes.insert(chat_id.to_owned(), list);
        assert(self.echo_map() =~= old(self).echo_map().insert(chat_id@, now));
    }

    /// Takes an echo back: sending failed.
    pub fn remove_echo(&mut self, chat_id: &str, message_id: &str)
        requires
            old(self).echoes.wf(),
        ensures
            final(self).echoes.wf(),
            old(self).wf() ==> final(self).wf(),
            final(self).echo_map() == (if old(self).echo_map().contains_key(chat_id@) {
                old(self).echo_map().insert(
                    chat_id@,
                    kept(
                        old(self).echo_map()[chat_id@],
                        |e: SessionMessageEntry| e.id@ != message_id@,
                    ),
                )
            } else {
                old(self).echo_map()
            }),
            *final(self) == (AppState { echoes: final(self).echoes, ..*old(self) }),
    {
        if let Some(list) = self.echoes.remove(chat_id) {
            let ghost before = list@;
            let ghost p = |e: SessionMessageEntry| e.id@ != message_id@;
            let mut list: Vec<SessionMessageEntry> = list;
            let mut i: usize = 0;
            let ghost mut done: int = 0;
            assert(before.take(0) =~= Seq::<SessionMessageEntry>::empty());
            assert(before.skip(0) =~= before);
            assert(Seq::<SessionMessageEntry>::empty() + before =~= before);
            while i < list.len()
                invariant
                    p == (|e: SessionMessageEntry| e.id@ != message_id@),
                    0 <= done <= before.len(),
                    i == kept(before.take(done), p).len(),
                    list@ == kept(before.take(done), p) + before.skip(done),
                decreases before.len() - done,
            {
                assert(list@[i as int] == before[done]);
                proof {
                    kept_step(before, p, done);
                }
                if same(list[i].id.as_str(), message_id) {
                    list.remove(i);
                } else {
                    i += 1;
                }
                proof {
                    assert(list@ =~= kept(before.take(done + 1), p) + before.skip(done + 1));
                    done = done + 1;
                }
            }
            proof {
                assert(done == before.len());
                assert(before.take(done) =~= before);
                assert(list@ =~= kept(before, p));
            }
            let ghost now = list@;
            self.echoes.insert(chat_id.to_owned(), list);
            assert(self.echo_map() =~= old(self).echo_map().insert(chat_id@, now));
        } else {
            assert(self.echo_map() =~= old(self).echo_map());
        }
    }

    /// The unconfirmed messages of the selected chat, in the order in which they
    /// were sent.
    pub fn pending_echoes(&self) -> (r: Vec<&SessionMessageEntry>)
        requires
            self.echoes.wf(),
        ensures
            r@.map_values(|e: &SessionMessageEntry| *e) == (match self.selected_chat {
                Some(chat) => self.echoes_of(chat@),
                None => Seq::empty(),
            }),
    {
        let mut r: Vec<&SessionMessageEntry> = Vec::new();
        let ghost f = |e: &SessionMessageEntry| *e;
        if let Some(chat) = &self.selected_chat {
            if let Some(list) = self.echoes.get(chat.as_str()) {
                let mut i: usize = 0;
                while i < list.len()
                    invariant
                        f == (|e: &SessionMessageEntry| *e),
                        i <= list@.len(),
                        r@.map_values(f) == list@.take(i as int),
                    decreases list@.len() - i,
                {
                    let ghost before = r@;
                    r.push(&list[i]);
                    proof {
                        assert(f(&list@[i as int]) == list@[i as int]);
                        assert(r@.map_values(f) =~= before.map_values(f).push(list@[i as int]));
                        assert(list@.take(i + 1) =~= list@.take(i as int).push(list@[i as int]));
                    }
                    i += 1;
                }
                assert(list@.take(list@.len() as int) =~= list@);
                assert(self.echo_map()[chat@] == list@);
            } else {
                assert(r@.map_values(f) =~= self.echoes_of(chat@));
            }
        }
        assert(r@.map_values(f) =~= (match self.selected_chat {
            Some(chat) => self.echoes_of(chat@),
            None => Seq::empty(),
        }));
        r
    }

    fn refresh_working_clock(&mut self, clock_now: u64)
        requires
            old(self).echoes.wf(),
        ensures
            final(self).echoes.wf(),
            old(self).wf() ==> final(self).wf(),
            *final(self) == (AppState {
                working_since: clock(
                    old(self).working_since,
                    is_working(old(self).sessions@, opt(old(self).selected_chat)),
                    clock_now,
                ),
                ..*old(self)
            }),
    {
        match (self.working_since, self.working()) {
            (None, true) => {
                self.working_since = Some(clock_now);
            },
            (Some(_), false) => {
                self.working_since = None;
            },
            _ => {},
        }
    }

    /// Whether the selected chat's turn is running, by the sessions. The clock
    /// that measures it starts with the next look at them.
    pub fn working(&self) -> (r: bool)
        ensures
            r == is_working(self.sessions@, opt(self.selected_chat)),
    {
        let mut working: bool = false;
        if let Some(chat) = &self.selected_chat {
            let ghost p = |s: Session| s.chat_id@ == chat@ && s.status == SessionStatus::Working;
            let mut i: usize = 0;
            while i < self.sessions.len() && !working
                invariant
                    p == (|s: Session| s.chat_id@ == chat@ && s.status == SessionStatus::Working),
                    i <= self.sessions@.len(),
                    working ==> any(self.sessions@, p),
                    !working ==> forall|j: int| 0 <= j < i ==> !p(#[trigger] self.sessions@[j]),
                decreases self.sessions@.len() - i + (if working { 0int } else { 1 }),
            {
                if same(self.sessions[i].chat_id.as_str(), chat.as_str()) && self.sessions[i].status
                    == SessionStatus::Working {
                    assert(p(self.sessions@[i as int]));
                    working = true;
                } else {
                    i += 1;
                }
            }
        }
        working
    }
}

/// The echoes that no entry confirms.
pub open spec fn unconfirmed(
    echoes: Seq<SessionMessageEntry>,
    entries: Seq<SessionMessageEntry>,
) -> Seq<SessionMessageEntry> {
    kept(echoes, |e: SessionMessageEntry| !has_entry(entries, e.id@))
}

fn prune(list: &mut Vec<SessionMessageEntry>, entries: &Vec<SessionMessageEntry>)
    ensures
        final(list)@ == unconfirmed(old(list)@, entries@),
{
    let ghost before = list@;
    let ghost p = |e: SessionMessageEntry| !has_entry(entries@, e.id@);
    let mut i: usize = 0;
    let ghost mut done: int = 0;
    assert(before.take(0) =~= Seq::<SessionMessageEntry>::empty());
    assert(before.skip(0) =~= before);
    assert(Seq::<SessionMessageEntry>::empty() + before =~= before);
    while i < list.len()
        invariant
            p == (|e: SessionMessageEntry| !has_entry(entries@, e.id@)),
            0 <= done <= before.len(),
            i == kept(before.take(done), p).len(),
            list@ == kept(before.take(done), p) + before.skip(done),
        decreases before.len() - done,
    {
        assert(list@[i as int] == before[done]);
        proof {
            kept_step(before, p, done);
        }
        if entry_exists(entries, list[i].id.as_str()) {
            list.remove(i);
        } else {
            i += 1;
        }
        proof {
            assert(list@ =~= kept(before.take(done + 1), p) + before.skip(done + 1));
            done = done + 1;
        }
    }
    proof {
        assert(done == before.len());
        assert(before.take(done) =~= before);
        assert(list@ =~= kept(before, p));
    }
}

/// A number of tokens in a number of seconds, both scaled alike.
#[derive(Debug, Clone, Copy, PartialEq, Eq, Structural)]
pub struct TokenRate {
    pub tokens: u128,
    pub seconds: u128,
}

/// Four characters make a token, near enough for a live reading.
pub const CHARS_PER_TOKEN: u128 = 4;

/// How long the screen shows one frame, in microseconds: sixty in a second.
pub const FRAME_MICROS: u64 = 16_667;

/// The live speed of `chars` characters in `elapsed` microseconds. There is
/// none before anything was written, nor in less time than a frame takes: the
/// first frame of a turn would flash an absurd figure.
pub fn live_tokens_per_sec(chars: u64, elapsed: u64) -> (r: Option<TokenRate>)
    ensures
        r == (if chars == 0 || elapsed < FRAME_MICROS {
            None
        } else {
            Some(
                TokenRate {
                    tokens: (chars * 1_000_000) as u128,
                    seconds: (CHARS_PER_TOKEN * elapsed) as u128,
                },
            )
        }),
{
    if chars == 0 || elapsed < FRAME_MICROS {
        None
    } else {
        Some(
            TokenRate {
                tokens: chars as u128 * 1_000_000,
                seconds: CHARS_PER_TOKEN * elapsed as u128,
            },
        )
    }
}

/// Later entries and parts only add to what is counted.
proof fn chars_grow(entries: Seq<SessionMessageEntry>, i: int)
    requires
        0 <= i <= entries.len(),
    ensures
        assistant_chars(entries.take(i)) <= assistant_chars(entries),
    decreases entries.len() - i,
{
    if i == entries.len() {
        assert(entries.take(i) =~= entries);
    } else {
        chars_grow(entries, i + 1);
        assert(entries.take(i + 1).drop_last() =~= entries.take(i));
    }
}

proof fn parts_grow(parts: Seq<MessagePart>, i: int)
    requires
        0 <= i <= parts.len(),
    ensures
        parts_chars(parts.take(i)) <= parts_chars(parts),
    decreases parts.len() - i,
{
    if i == parts.len() {
        assert(parts.take(i) =~= parts);
    } else {
        parts_grow(parts, i + 1);
        assert(parts.take(i + 1).drop_last() =~= parts.take(i));
    }
}

fn count_parts(parts: &Vec<MessagePart>) -> (n: u64)
    requires
        parts_chars(parts@) <= u64::MAX,
    ensures
        n == parts_chars(parts@),
{
    let mut n: u64 = 0;
    let mut i: usize = 0;
    assert(parts@.take(0) =~= Seq::<MessagePart>::empty());
    while i < parts.len()
        invariant
            i <= parts@.len(),
            parts_chars(parts@) <= u64::MAX,
            n == parts_chars(parts@.take(i as int)),
        decreases parts@.len() - i,
    {
        proof {
            assert(parts@.take(i + 1).drop_last() =~= parts@.take(i as int));
            assert(parts@.take(i + 1).last() == parts@[i as int]);
            parts_grow(parts@, i + 1);
        }
        let here: u64 = match &parts[i] {
            MessagePart::Text { text, .. } => chars_of(text.as_str()).len() as u64,
            MessagePart::Tool { call_json, .. } => chars_of(call_json.as_str()).len() as u64,
            MessagePart::Other => 0,
        };
        n = n + here;
        i += 1;
    }
    assert(parts@.take(i as int) =~= parts@);
    n
}

/// A new message of the user begins a new turn: what was written before it no
/// longer counts.
pub proof fn a_prompt_starts_a_turn(
    before: Seq<SessionMessageEntry>,
    prompt: SessionMessageEntry,
    after: Seq<SessionMessageEntry>,
)
    requires
        prompt.role == MessageRole::User,
        forall|i: int| 0 <= i < after.len() ==> (#[trigger] after[i]).role != MessageRole::User,
    ensures
        turn_chars(before.push(prompt) + after) == assistant_chars(after),
{
    turn_starts_behind(before.push(prompt), after);
    let all = before.push(prompt) + after;
    assert(all.subrange(before.len() as int + 1, all.len() as int) =~= after);
}

proof fn turn_starts_behind(head: Seq<SessionMessageEntry>, after: Seq<SessionMessageEntry>)
    requires
        head.len() > 0,
        head.last().role == MessageRole::User,
        forall|i: int| 0 <= i < after.len() ==> (#[trigger] after[i]).role != MessageRole::User,
    ensures
        turn_start(head + after) == head.len(),
    decreases after.len(),
{
    if after.len() == 0 {
        assert(head + after =~= head);
    } else {
        let init = after.drop_last();
        assert((head + after).drop_last() =~= head + init);
        assert((head + after).last() == after[after.len() - 1]);
        turn_starts_behind(head, init);
    }
}

/// Every id of the workspace and of the peers has a row, and no id has two
/// unless the workspace itself repeats it: a newly paired device can be picked
/// at once.
pub proof fn merged_devices_cover(workspace: Seq<Device>, peers: Seq<Device>, id: Seq<char>)
    ensures
        any(merged(workspace, peers), device_named(id)) <==> any(
            workspace,
            device_named(id),
        ) || any(peers, device_named(id)),
        distinct_ids(workspace) ==> distinct_ids(merged(workspace, peers)),
    decreases peers.len(),
{
    let p = device_named(id);
    if peers.len() > 0 {
        let init = peers.drop_last();
        let peer = peers.last();
        let before = merged(workspace, init);
        let now = merged(workspace, peers);
        merged_devices_cover(workspace, init, id);
        let q = device_named(peer.id@);
        first_at_props(before, q, 0);
        let i = device_ix(before, peer.id@);
        if any(before, p) {
            let k = choose|k: int| 0 <= k < before.len() && p(#[trigger] before[k]);
            assert(p(now[k]));
        }
        if any(peers, p) {
            let k = choose|k: int| 0 <= k < peers.len() && p(#[trigger] peers[k]);
            if k < init.len() {
                assert(p(init[k]));
                let j = choose|j: int| 0 <= j < before.len() && p(#[trigger] before[j]);
                assert(p(now[j]));
            } else if i < before.len() {
                assert(p(now[i]));
            } else {
                assert(p(now[before.len() as int]));
            }
        }
        if any(now, p) {
            let k = choose|k: int| 0 <= k < now.len() && p(#[trigger] now[k]);
            if k < before.len() {
                assert(p(before[k]));
                if any(init, p) {
                    let j = choose|j: int| 0 <= j < init.len() && p(#[trigger] init[j]);
                    assert(p(peers[j]));
                }
            } else {
                assert(p(peers[peers.len() - 1]));
            }
        }
        if distinct_ids(workspace) {
            assert forall|a: int, b: int|
                0 <= a < now.len() && 0 <= b < now.len() && (#[trigger] now[a]).id@ == (
                #[trigger] now[b]).id@ implies a == b by {
                if a < before.len() {
                    assert(now[a].id@ == before[a].id@);
                }
                if b < before.len() {
                    assert(now[b].id@ == before[b].id@);
                }
                if i >= before.len() {
                    if a < before.len() && b == before.len() {
                        assert(!q(before[a]));
                    }
                    if b < before.len() && a == before.len() {
                        assert(!q(before[b]));
                    }
                }
            }
        }
    }
}

/// No two devices share an id.
pub open spec fn distinct_ids(devices: Seq<Device>) -> bool {
    forall|a: int, b: int|
        0 <= a < devices.len() && 0 <= b < devices.len() && (#[trigger] devices[a]).id@ == (
        #[trigger] devices[b]).id@ ==> a == b
}

/// A confirmed message is never shown twice: no echo that is left shares its id
/// with an entry of the transcript.
pub proof fn echoes_never_repeat_the_transcript(
    echoes: Seq<SessionMessageEntry>,
    entries: Seq<SessionMessageEntry>,
    echo: SessionMessageEntry,
)
    requires
        unconfirmed(echoes, entries).contains(echo),
    ensures
        !has_entry(entries, echo.id@),
        echoes.contains(echo),
{
    crate::seqs::kept_members(echoes, |e: SessionMessageEntry| !has_entry(entries, e.id@));
}

/// An echo that the transcript does not confirm stays.
pub proof fn unconfirmed_echoes_stay(
    echoes: Seq<SessionMessageEntry>,
    entries: Seq<SessionMessageEntry>,
    echo: SessionMessageEntry,
)
    requires
        echoes.contains(echo),
        !has_entry(entries, echo.id@),
    ensures
        unconfirmed(echoes, entries).contains(echo),
{
    crate::seqs::kept_members(echoes, |e: SessionMessageEntry| !has_entry(entries, e.id@));
}

impl AppState {
    /// How many characters the assistant has written in the current turn.
    pub fn current_turn_streamed(&self) -> (n: u64)
        requires
            turn_chars(self.transcript@) <= u64::MAX,
        ensures
            n == turn_chars(self.transcript@),
    {
        let total: usize = self.transcript.len();
        let ghost all = self.transcript@;
        let mut start: usize = total;
        assert(all.take(total as int) =~= all);
        while start > 0 && self.transcript[start - 1].role != MessageRole::User
            invariant
                start <= total == all.len(),
                all == self.transcript@,
                turn_start(all) == turn_start(all.take(start as int)),
            decreases start,
        {
            assert(all.take(start as int).drop_last() =~= all.take(start - 1));
            start -= 1;
        }
        let ghost turn = all.subrange(start as int, total as int);
        assert(turn_start(all) == start) by {
            if start > 0 {
                assert(all.take(start as int).last() == all[start - 1]);
            }
        }
        let mut n: u64 = 0;
        let mut i: usize = start;
        assert(turn.take(0) =~= Seq::<SessionMessageEntry>::empty());
        while i < total
            invariant
                start <= i <= total == all.len(),
                all == self.transcript@,
                turn == all.subrange(start as int, total as int),
                assistant_chars(turn) <= u64::MAX,
                n == assistant_chars(turn.take(i - start)),
            decreases total - i,
        {
            proof {
                let k = i - start;
                assert(turn.take(k + 1).drop_last() =~= turn.take(k));
                assert(turn.take(k + 1).last() == all[i as int]);
                chars_grow(turn, k + 1);
            }
            if self.transcript[i].role == MessageRole::Assistant {
                n = n + count_parts(&self.transcript[i].parts);
            }
            i += 1;
        }
        assert(turn.take(total - start) =~= turn);
        n
    }

    /// The live speed of the selected chat's turn.
    pub fn live_tokens_per_sec(&self, clock_now: u64) -> (r: Option<TokenRate>)
        requires
            turn_chars(self.transcript@) <= u64::MAX,
        ensures
            match self.working_since {
                None => r is None,
                Some(started) => {
                    let chars = turn_chars(self.transcript@);
                    if chars == 0 || clock_now - started < FRAME_MICROS {
                        r is None
                    } else {
                        r == Some(
                            TokenRate {
                                tokens: (chars * 1_000_000) as u128,
                                seconds: (CHARS_PER_TOKEN * (clock_now - started)) as u128,
                            },
                        )
                    }
                },
            },
    {
        match self.working_since {
            None => None,
            Some(started) => {
                let elapsed: u64 = clock_now.saturating_sub(started);
                live_tokens_per_sec(self.current_turn_streamed(), elapsed)
            },
        }
    }

    /// The chats that are not archived, in sidebar order.
    pub open spec fn visible(self) -> Seq<Chat> {
        kept(self.chats@, |c: Chat| !c.archived)
    }

    pub fn visible_chats(&self) -> (r: Vec<&Chat>)
        ensures
            deref(r@) == self.visible(),
    {
        let mut r: Vec<&Chat> = Vec::new();
        let ghost p = |c: Chat| !c.archived;
        let mut i: usize = 0;
        assert(deref(r@) =~= kept(self.chats@.take(0), p));
        while i < self.chats.len()
            invariant
                p == (|c: Chat| !c.archived),
                i <= self.chats@.len(),
                deref(r@) == kept(self.chats@.take(i as int), p),
            decreases self.chats@.len() - i,
        {
            proof {
                kept_step(self.chats@, p, i as int);
            }
            if !self.chats[i].archived {
                let ghost before = r@;
                r.push(&self.chats[i]);
                assert(deref(r@) =~= deref(before).push(self.chats@[i as int]));
            }
            i += 1;
        }
        assert(self.chats@.take(self.chats@.len() as int) =~= self.chats@);
        r
    }

    pub fn selected_project_row(&self) -> (r: Option<&Project>)
        ensures
            match self.selected_project {
                Some(id) => is_at(r, self.projects@, project_ix(self.projects@, id@)),
                None => r is None,
            },
    {
        match &self.selected_project {
            Some(id) => self.project_row(id.as_str()),
            None => None,
        }
    }

    pub fn project_row(&self, project_id: &str) -> (r: Option<&Project>)
        ensures
            is_at(r, self.projects@, project_ix(self.projects@, project_id@)),
    {
        let i: usize = find_project(&self.projects, project_id);
        proof {
            first_at_props(self.projects@, project_named(project_id@), 0);
        }
        if i < self.projects.len() {
            Some(&self.projects[i])
        } else {
            None
        }
    }

    pub fn project_for_chat(&self, chat: &Chat) -> (r: Option<&Project>)
        ensures
            match chat.project_id {
                Some(id) => is_at(r, self.projects@, project_ix(self.projects@, id@)),
                None => r is None,
            },
    {
        match &chat.project_id {
            Some(id) => self.project_row(id.as_str()),
            None => None,
        }
    }

    /// The tabs of a project: its chats that are not archived, in order of
    /// creation.
    pub open spec fn tabs_of(self, project_id: Seq<char>) -> Seq<Chat> {
        ordered(
            kept(self.chats@, |c: Chat| !c.archived && c.in_project(project_id)),
            |c: Chat| tab_key(&c),
        )
    }

    pub fn chats_in_project(&self, project_id: &str) -> (r: Vec<&Chat>)
        ensures
            deref(r@) == self.tabs_of(project_id@),
    {
        let mut r: Vec<&Chat> = Vec::new();
        let ghost p = |c: Chat| !c.archived && c.in_project(project_id@);
        let mut i: usize = 0;
        assert(deref(r@) =~= kept(self.chats@.take(0), p));
        while i < self.chats.len()
            invariant
                p == (|c: Chat| !c.archived && c.in_project(project_id@)),
                i <= self.chats@.len(),
                deref(r@) == kept(self.chats@.take(i as int), p),
            decreases self.chats@.len() - i,
        {
            proof {
                kept_step(self.chats@, p, i as int);
            }
            if !self.chats[i].archived && is_text(&self.chats[i].project_id, project_id) {
                let ghost before = r@;
                r.push(&self.chats[i]);
                assert(deref(r@) =~= deref(before).push(self.chats@[i as int]));
            }
            i += 1;
        }
        assert(self.chats@.take(self.chats@.len() as int) =~= self.chats@);
        proof {
            ordered_commutes(
                r@,
                |c: &Chat| *c,
                |c: &Chat| tab_key(c),
                |c: Chat| tab_key(&c),
            );
        }
        sort_tabs(&mut r);
        r
    }

    pub fn device_name(&self, device_id: &str) -> (r: Option<&str>)
        ensures
            match r {
                Some(name) => at(
                    self.devices@,
                    device_ix(self.devices@, device_id@),
                ) matches Some(d) && name@ == d.name@,
                None => at(self.devices@, device_ix(self.devices@, device_id@)) is None,
            },
    {
        let i: usize = find_device(&self.devices, device_id);
        proof {
            first_at_props(self.devices@, device_named(device_id@), 0);
        }
        if i < self.devices.len() {
            Some(self.devices[i].name.as_str())
        } else {
            None
        }
    }

    /// When a known device was last seen: nothing for an unknown device.
    pub fn device_last_seen(&self, device_id: &str) -> (r: Option<Option<i64>>)
        ensures
            r == (match at(self.devices@, device_ix(self.devices@, device_id@)) {
                Some(d) => Some(d.last_seen_at),
                None => None,
            }),
    {
        let i: usize = find_device(&self.devices, device_id);
        proof {
            first_at_props(self.devices@, device_named(device_id@), 0);
        }
        if i < self.devices.len() {
            Some(self.devices[i].last_seen_at)
        } else {
            None
        }
    }

    /// Whether a device counts as online: this one always does, an unknown one
    /// gets the benefit of the doubt, and of any other `seen_recently` decides,
    /// which is about the time that [`Self::device_last_seen`] gives.
    pub fn device_online(&self, device_id: &str, seen_recently: bool) -> (r: bool)
        ensures
            r == (opt(self.local_device_id) == Some(device_id@) || at(
                self.devices@,
                device_ix(self.devices@, device_id@),
            ) is None || seen_recently),
    {
        if is_text(&self.local_device_id, device_id) {
            return true;
        }
        match self.device_last_seen(device_id) {
            Some(_) => seen_recently,
            None => true,
        }
    }

    /// Whether the selected project's folder has git.
    pub fn selected_project_git(&self) -> (r: bool)
        ensures
            r == (match self.selected_project {
                Some(id) => match at(self.projects@, project_ix(self.projects@, id@)) {
                    Some(p) => p.git_detected,
                    None => false,
                },
                None => false,
            }),
    {
        match self.selected_project_row() {
            Some(p) => p.git_detected,
            None => false,
        }
    }

    /// The session of a chat.
    pub open spec fn session_of(&self, chat_id: Seq<char>) -> Option<&Session> {
        let i = session_ix(self.sessions@, chat_id);
        if 0 <= i < self.sessions@.len() {
            Some(&self.sessions@[i])
        } else {
            None
        }
    }

    pub fn session_for(&self, chat_id: &str) -> (r: Option<&Session>)
        ensures
            r == self.session_of(chat_id@),
    {
        let i: usize = find_session(&self.sessions, chat_id);
        proof {
            first_at_props(self.sessions@, session_named(chat_id@), 0);
        }
        if i < self.sessions.len() {
            Some(&self.sessions[i])
        } else {
            None
        }
    }

    pub fn display_status_for(&self, chat: &Chat, now: i64) -> (s: ChatIndicator)
        ensures
            s == status_of(*chat, self.session_of(chat.id@), now as int),
    {
        display_status(chat, self.session_for(chat.id.as_str()), now)
    }

    pub fn indicator_for(&self, chat_id: &str, now: i64) -> (i: Indicator)
        ensures
            i == indicator(self.session_of(chat_id@), now as int),
    {
        effective_indicator(self.session_for(chat_id), now)
    }

    /// The chats of the Sessions list, before they are put in order: those that
    /// are not archived and whose project exists.
    pub open spec fn overview_members(self) -> Seq<Chat> {
        kept(
            self.chats@,
            |c: Chat|
                !c.archived && c.project_id is Some && project_ix(
                    self.projects@,
                    c.project_id->0@,
                ) < self.projects@.len(),
        )
    }

    /// The Sessions list.
    pub open spec fn overview(&self, now: int) -> Seq<(ChatIndicator, Chat)> {
        ordered(
            self.overview_members().map_values(
                |c: Chat| (status_of(c, self.session_of(c.id@), now), c),
            ),
            |r: (ChatIndicator, Chat)| chat_key(r.1),
        )
    }

    pub fn overview_chats(&self, now: i64) -> (r: Vec<(ChatIndicator, &Chat)>)
        ensures
            r@.map_values(|r: (ChatIndicator, &Chat)| (r.0, *r.1)) == self.overview(now as int),
    {
        let mut r: Vec<(ChatIndicator, &Chat)> = Vec::new();
        let ghost p = |c: Chat|
            !c.archived && c.project_id is Some && project_ix(self.projects@, c.project_id->0@)
                < self.projects@.len();
        let ghost f = |r: (ChatIndicator, &Chat)| (r.0, *r.1);
        let ghost g = |c: Chat| (status_of(c, self.session_of(c.id@), now as int), c);
        let mut i: usize = 0;
        assert(r@.map_values(f) =~= kept(self.chats@.take(0), p).map_values(g));
        while i < self.chats.len()
            invariant
                p == (|c: Chat|
                    !c.archived && c.project_id is Some && project_ix(
                        self.projects@,
                        c.project_id->0@,
                    ) < self.projects@.len()),
                f == (|r: (ChatIndicator, &Chat)| (r.0, *r.1)),
                g == (|c: Chat| (status_of(c, self.session_of(c.id@), now as int), c)),
                i <= self.chats@.len(),
                r@.map_values(f) == kept(self.chats@.take(i as int), p).map_values(g),
            decreases self.chats@.len() - i,
        {
            proof {
                kept_step(self.chats@, p, i as int);
            }
            let chat: &Chat = &self.chats[i];
            let live: bool = match &chat.project_id {
                Some(id) => self.project_row(id.as_str()).is_some(),
                None => false,
            };
            proof {
                if chat.project_id is Some {
                    first_at_props(
                        self.projects@,
                        project_named(chat.project_id->0@),
                        0,
                    );
                }
            }
            if !chat.archived && live {
                let ghost before = r@;
                let ghost had = kept(self.chats@.take(i as int), p);
                let status: ChatIndicator = self.display_status_for(chat, now);
                r.push((status, chat));
                proof {
                    assert(r@.map_values(f) =~= before.map_values(f).push(g(*chat)));
                    assert(had.push(*chat).map_values(g) =~= had.map_values(g).push(g(*chat)));
                }
            }
            i += 1;
        }
        assert(self.chats@.take(self.chats@.len() as int) =~= self.chats@);
        proof {
            ordered_commutes(
                r@,
                f,
                |r: (ChatIndicator, &Chat)| active_key(r),
                |r: (ChatIndicator, Chat)| chat_key(r.1),
            );
        }
        sort_active(&mut r);
        r
    }

    /// The Sessions list stands in order of recency whatever the statuses are:
    /// a change of status never moves a row.
    pub proof fn status_never_moves_rows(&self, now: int)
        ensures
            self.overview(now).map_values(|r: (ChatIndicator, Chat)| r.1) == ordered(
                self.overview_members(),
                by_recency(),
            ),
    {
        let g = |c: Chat| (status_of(c, self.session_of(c.id@), now), c);
        let second = |r: (ChatIndicator, Chat)| r.1;
        let members = self.overview_members();
        ordered_commutes(
            members.map_values(g),
            second,
            |r: (ChatIndicator, Chat)| chat_key(r.1),
            by_recency(),
        );
        assert(members.map_values(g).map_values(second) =~= members);
    }

    pub fn selected_chat_row(&self) -> (r: Option<&Chat>)
        ensures
            match self.selected_chat {
                Some(id) => is_at(r, self.chats@, chat_ix(self.chats@, id@)),
                None => r is None,
            },
    {
        match &self.selected_chat {
            Some(id) => {
                let i: usize = find_chat(&self.chats, id.as_str());
                proof {
                    first_at_props(self.chats@, chat_named(id@), 0);
                }
                if i < self.chats.len() {
                    Some(&self.chats[i])
                } else {
                    None
                }
            },
            None => None,
        }
    }

    /// The collaboration of the selected chat.
    pub open spec fn collaboration(&self) -> Option<&CollaborationSession> {
        match self.selected_chat {
            Some(id) => {
                let i = first_at(
                    self.collaborations@,
                    collaboration_named(id@),
                    0,
                );
                if 0 <= i < self.collaborations@.len() {
                    Some(&self.collaborations@[i])
                } else {
                    None
                }
            },
            None => None,
        }
    }

    pub fn selected_collaboration(&self) -> (r: Option<&CollaborationSession>)
        ensures
            r == self.collaboration(),
    {
        match &self.selected_chat {
            Some(id) => {
                let mut i: usize = 0;
                while i < self.collaborations.len() && !same(
                    self.collaborations[i].chat_id.as_str(),
                    id.as_str(),
                )
                    invariant
                        i <= self.collaborations@.len(),
                        forall|j: int|
                            0 <= j < i ==> (#[trigger] self.collaborations@[j]).chat_id@ != id@,
                    decreases self.collaborations@.len() - i,
                {
                    i += 1;
                }
                proof {
                    first_at_is(
                        self.collaborations@,
                        collaboration_named(id@),
                        i as int,
                    );
                }
                if i < self.collaborations.len() {
                    Some(&self.collaborations[i])
                } else {
                    None
                }
            },
            None => None,
        }
    }

    pub fn gate(&self) -> (g: GatePhase)
        ensures
            match self.connection {
                ConnectionStatus::Connecting => g is Loading,
                ConnectionStatus::Ready => g is Ready,
                ConnectionStatus::Failed(m) => g == GatePhase::Failed(m),
            },
    {
        gate_phase(&self.connection)
    }

    pub fn engine(&self) -> (e: Option<&EngineHandle>)
        ensures
            match e {
                Some(h) => self.engine == Some(*h),
                None => self.engine is None,
            },
    {
        match &self.engine {
            Some(h) => Some(h),
            None => None,
        }
    }

    pub fn set_hotreload(&mut self, on: bool)
        requires
            old(self).echoes.wf(),
        ensures
            final(self).echoes.wf(),
            old(self).wf() ==> final(self).wf(),
            *final(self) == (AppState { hotreload: on, ..*old(self) }),
    {
        self.hotreload = on;
    }
}

/// The chats after one was looked at: an unseen chat is stamped.
pub open spec fn seen_chats(chats: Seq<Chat>, id: Seq<char>, now: i64) -> Seq<Chat> {
    let i = chat_ix(chats, id);
    if i < chats.len() && chats[i].is_unseen() {
        chats.update(i, Chat { last_seen_at: Some(now), ..chats[i] })
    } else {
        chats
    }
}

/// The call that tells the other devices that a chat was looked at.
pub open spec fn seen_call(id: Seq<char>) -> Call {
    Call {
        method: Method::Mutate,
        params: Map::empty().insert("op"@, ValueView::Text("markChatSeen"@)).insert(
            "chatId"@,
            ValueView::Text(id),
        ),
    }
}

/// What looking at a chat asks for: nothing unless it was unseen.
pub open spec fn seen_effects(chats: Seq<Chat>, id: Seq<char>, engine: bool) -> Seq<EffectView> {
    let i = chat_ix(chats, id);
    if i < chats.len() && chats[i].is_unseen() {
        if engine {
            seq![EffectView::Notify, EffectView::Call(seen_call(id))]
        } else {
            seq![EffectView::Notify]
        }
    } else {
        Seq::empty()
    }
}

/// The project of the chat with that id, if it has one.
pub open spec fn project_for(chats: Seq<Chat>, id: Seq<char>) -> Option<String> {
    match at(chats, chat_ix(chats, id)) {
        Some(c) => c.project_id,
        None => None,
    }
}

/// What remembering a selection asks for: nothing without a place for it.
pub open spec fn save_effects(
    dir: Option<Seq<char>>,
    selected: Option<Seq<char>>,
) -> Seq<EffectView> {
    match dir {
        Some(dir) => seq![EffectView::SaveSelection { dir, selected }],
        None => Seq::empty(),
    }
}

/// What selecting another chat asks for.
pub open spec fn select_effects(
    chats: Seq<Chat>,
    engine: bool,
    dir: Option<Seq<char>>,
    chat: Option<Seq<char>>,
) -> Seq<EffectView> {
    let seen = match chat {
        Some(id) => seen_effects(chats, id, engine),
        None => Seq::empty(),
    };
    let watch = match chat {
        Some(id) if engine => seq![EffectView::WatchTranscript(id)],
        _ => Seq::empty(),
    };
    seen + watch + save_effects(dir, chat) + seq![EffectView::Notify]
}

/// What turning to another chat, or to none, does and asks for. What the boot
/// chooses before the remembered chat was looked for is not remembered over it.
pub open spec fn switches(
    before: AppState,
    after: AppState,
    chat_id: Option<String>,
    now: i64,
    boot: bool,
    out: Seq<EffectView>,
) -> bool {
    &&& after.chats@ == (match chat_id {
        Some(id) => seen_chats(before.chats@, id@, now),
        None => before.chats@,
    })
    &&& out == select_effects(
        before.chats@,
        before.engine is Some,
        if boot {
            None
        } else {
            before.save_dir()
        },
        opt(chat_id),
    )
    &&& after.transcript@.len() == 0
    &&& after == (AppState {
        chats: after.chats,
        selected_chat: chat_id,
        auto_selected: true,
        boot_selected: boot,
        transcript: after.transcript,
        working_since: None,
        selected_project: match chat_id {
            Some(id) => match project_for(before.chats@, id@) {
                Some(p) => Some(p),
                None => before.selected_project,
            },
            None => before.selected_project,
        },
        transcript_watch: if before.engine is Some {
            chat_id
        } else {
            None
        },
        ..before
    })
}

/// What selecting the chat that is selected asks for: it is marked seen, and the
/// boot's choice is remembered now that somebody has made it theirs.
pub open spec fn again_effects(before: AppState, chat: Option<Seq<char>>) -> Seq<EffectView> {
    let seen = match chat {
        Some(id) => seen_effects(before.chats@, id, before.engine is Some),
        None => Seq::empty(),
    };
    seen + (if before.boot_selected {
        save_effects(before.save_dir(), chat)
    } else {
        Seq::empty()
    })
}

/// What selecting a chat, or none, does and asks for.
pub open spec fn selects(
    before: AppState,
    after: AppState,
    chat_id: Option<String>,
    now: i64,
    out: Seq<EffectView>,
) -> bool {
    if opt(before.selected_chat) == opt(chat_id) {
        &&& out == again_effects(before, opt(chat_id))
        &&& after.chats@ == (match chat_id {
            Some(id) => seen_chats(before.chats@, id@, now),
            None => before.chats@,
        })
        &&& after == (AppState { chats: after.chats, boot_selected: false, ..before })
    } else {
        switches(before, after, chat_id, now, false, out)
    }
}

/// Looking at a chat a second time changes nothing and asks for nothing, unless
/// the clock stands before the message that is looked at.
pub proof fn seen_once_is_enough(chats: Seq<Chat>, id: Seq<char>, now: i64, later: i64, engine: bool)
    requires
        at(chats, chat_ix(chats, id)) matches Some(c) ==> (c.is_unseen() && c.last_message_at is Some
            ==> c.last_message_at->0 <= now),
    ensures
        seen_chats(seen_chats(chats, id, now), id, later) == seen_chats(chats, id, now),
        seen_effects(seen_chats(chats, id, now), id, engine) == Seq::<EffectView>::empty(),
{
    let i = chat_ix(chats, id);
    let once = seen_chats(chats, id, now);
    first_at_props(chats, chat_named(id), 0);
    assert forall|j: int| 0 <= j < i implies (#[trigger] once[j]).id@ != id by {
        assert(chats[j].id@ != id);
    }
    if i < chats.len() {
        assert(chats[i].id@ == id);
        first_at_is(once, chat_named(id), i);
    } else {
        first_at_is(once, chat_named(id), once.len() as int);
    }
}

/// The watches that stand as long as the engine is attached.
pub open spec fn standing_watches() -> Seq<EffectView> {
    seq![
        EffectView::Watch(Method::WatchSessions),
        EffectView::Watch(Method::WatchCollaborations),
        EffectView::Watch(Method::WatchChats),
        EffectView::Watch(Method::WatchDevices),
        EffectView::Watch(Method::WatchProjects),
        EffectView::Watch(Method::UpdateStatus),
        EffectView::Watch(Method::LocalDevice),
        EffectView::Watch(Method::NovaWatchPeers),
    ]
}

/// The device id in a reply: under `id`, or else under `deviceId`, when it is a
/// text.
pub fn reported_device(id: Option<Value>, device_id: Option<Value>) -> (r: Option<String>)
    ensures
        r == (match (match id {
            Some(v) => Some(v),
            None => device_id,
        }) {
            Some(Value::Text(s)) => Some(s),
            _ => None,
        }),
{
    let value: Option<Value> = match id {
        Some(v) => Some(v),
        None => device_id,
    };
    match value {
        Some(Value::Text(s)) => Some(s),
        _ => None,
    }
}

/// The device row of a paired peer.
pub open spec fn peer_device(p: PeerView) -> Device {
    Device {
        id: p.device_id,
        name: p.name,
        platform: p.platform,
        last_seen_at: None,
        created_at: Some(p.paired_at),
        version: None,
    }
}

/// The device rows of the peers that are still trusted.
pub open spec fn peer_devices(peers: Seq<PeerView>) -> Seq<Device> {
    kept(peers, |p: PeerView| !p.revoked).map_values(|p: PeerView| peer_device(p))
}

/// The device rows of the peers that are still trusted.
pub fn devices_from_peers(peers: &Vec<PeerView>) -> (r: Vec<Device>)
    ensures
        r@ == peer_devices(peers@),
{
    let ghost p = |p: PeerView| !p.revoked;
    let ghost f = |p: PeerView| peer_device(p);
    let mut r: Vec<Device> = Vec::new();
    let mut i: usize = 0;
    assert(r@ =~= kept(peers@.take(0), p).map_values(f));
    while i < peers.len()
        invariant
            p == (|p: PeerView| !p.revoked),
            f == (|p: PeerView| peer_device(p)),
            i <= peers@.len(),
            r@ == kept(peers@.take(i as int), p).map_values(f),
        decreases peers@.len() - i,
    {
        let ghost had = kept(peers@.take(i as int), p);
        proof {
            kept_step(peers@, p, i as int);
        }
        let peer: &PeerView = &peers[i];
        if !peer.revoked {
            r.push(
                Device {
                    id: peer.device_id.clone(),
                    name: peer.name.clone(),
                    platform: peer.platform.clone(),
                    last_seen_at: None,
                    created_at: Some(peer.paired_at),
                    version: None,
                },
            );
            assert(had.push(*peer).map_values(f) =~= had.map_values(f).push(f(*peer)));
        }
        i += 1;
    }
    assert(peers@.take(peers@.len() as int) =~= peers@);
    r
}

/// The condition of being a chat that is not archived.
pub open spec fn not_archived() -> spec_fn(Chat) -> bool {
    |c: Chat| !c.archived
}

/// Whether the selected chat is among some chats.
pub open spec fn selection_stays(s: AppState, chats: Seq<Chat>) -> bool {
    s.selected_chat matches Some(id) && chat_ix(chats, id@) < chats.len()
}

/// What a frame that drops the selection asks for. The boot's choice was never
/// remembered, and need not be forgotten.
pub open spec fn drop_effects(before: AppState, chats: Seq<Chat>) -> Seq<EffectView> {
    if before.selected_chat is Some && !before.boot_selected && !selection_stays(before, chats) {
        save_effects(before.save_dir(), None)
    } else {
        Seq::empty()
    }
}

/// The chat that a frame of chats selects by itself.
pub open spec fn boot_choice(before: AppState, chats: Seq<Chat>) -> Option<Chat> {
    if !selection_stays(before, chats) && !before.auto_selected {
        found(ordered(chats, by_recency()), not_archived())
    } else {
        None
    }
}

/// What a frame of chats does and asks for.
pub open spec fn takes_chats(
    before: AppState,
    after: AppState,
    chats: Seq<Chat>,
    now: i64,
    out: Seq<EffectView>,
) -> bool {
    let sorted = ordered(chats, by_recency());
    let stays = selection_stays(before, chats);
    match boot_choice(before, chats) {
        Some(first) => {
            &&& out == drop_effects(before, chats) + select_effects(
                sorted,
                before.engine is Some,
                if before.restore_looked {
                    before.save_dir()
                } else {
                    None
                },
                Some(first.id@),
            ) + seq![EffectView::Notify]
            &&& after.chats@ == seen_chats(sorted, first.id@, now)
            &&& after.transcript@.len() == 0
            &&& after == (AppState {
                chats: after.chats,
                selected_chat: Some(first.id),
                auto_selected: true,
                boot_selected: !before.restore_looked,
                transcript: after.transcript,
                working_since: None,
                selected_project: match project_for(sorted, first.id@) {
                    Some(p) => Some(p),
                    None => before.selected_project,
                },
                transcript_watch: if before.engine is Some {
                    Some(first.id)
                } else {
                    None
                },
                ..before
            })
        },
        None => {
            &&& out == drop_effects(before, chats) + seq![EffectView::Notify]
            &&& after.chats@ == sorted
            &&& if before.selected_chat is Some && !stays {
                &&& after.transcript@.len() == 0
                &&& after == (AppState {
                    chats: after.chats,
                    selected_chat: None,
                    boot_selected: false,
                    transcript: after.transcript,
                    transcript_watch: None,
                    working_since: None,
                    ..before
                })
            } else {
                after == (AppState { chats: after.chats, ..before })
            }
        },
    }
}

/// Whether a remembered selection is restored: hot reload is on, the chat is
/// there, and nobody has selected another.
pub open spec fn restores(s: AppState, saved: Option<String>) -> bool {
    &&& s.selected_chat is None || s.boot_selected
    &&& s.reloading()
    &&& s.data_dir is Some
    &&& saved matches Some(id) && chat_ix(s.chats@, id@) < s.chats@.len()
}

/// What restoring a remembered selection does and asks for. Where nothing is
/// restored, the boot's choice stands, and is remembered now.
pub open spec fn restored(
    before: AppState,
    after: AppState,
    saved: Option<String>,
    now: i64,
    out: Seq<EffectView>,
) -> bool {
    let looked = AppState { restore_looked: true, ..before };
    if restores(before, saved) {
        selects(looked, after, saved, now, out)
    } else {
        &&& after == (AppState { boot_selected: false, ..looked })
        &&& out == (if before.boot_selected {
            save_effects(before.save_dir(), opt(before.selected_chat))
        } else {
            Seq::empty()
        })
    }
}

/// Looking at a chat leaves every chat where it is.
proof fn seen_chats_stay(chats: Seq<Chat>, id: Seq<char>, now: i64, other: Seq<char>)
    ensures
        seen_chats(chats, id, now).len() == chats.len(),
        chat_ix(seen_chats(chats, id, now), other) == chat_ix(chats, other),
{
    let after = seen_chats(chats, id, now);
    let k = chat_ix(chats, other);
    first_at_props(chats, chat_named(id), 0);
    first_at_props(chats, chat_named(other), 0);
    assert forall|j: int| 0 <= j < k implies !chat_named(other)(#[trigger] after[j]) by {
        assert(!chat_named(other)(chats[j]));
        assert(after[j].id == chats[j].id);
    }
    if k < chats.len() {
        assert(chat_named(other)(chats[k]));
        assert(after[k].id == chats[k].id);
    }
    first_at_is(after, chat_named(other), k);
}

/// Under hot reload the chat that the replaced process had open is open again
/// once the first chats are there and the selection was restored, if it still
/// exists; until then nothing is remembered over it.
pub proof fn the_open_chat_comes_back(
    before: AppState,
    chats: Seq<Chat>,
    landed: AppState,
    out: Seq<EffectView>,
    saved: String,
    after: AppState,
    more: Seq<EffectView>,
    now: i64,
    later: i64,
)
    requires
        before.selected_chat is None,
        !before.restore_looked,
        before.reloading(),
        before.data_dir is Some,
        chat_ix(chats, saved@) < chats.len(),
        takes_chats(before, landed, chats, now, out),
        restored(landed, after, Some(saved), later, more),
    ensures
        opt(after.selected_chat) == Some(saved@),
        forall|i: int| 0 <= i < out.len() ==> !((#[trigger] out[i]) is SaveSelection),
{
    order_keeps_any(chats, by_recency(), chat_named(saved@));
    let sorted = ordered(chats, by_recency());
    if let Some(first) = boot_choice(before, chats) {
        seen_chats_stay(sorted, first.id@, now, saved@);
    }
}

/// Under hot reload the selection is remembered once the first chats are there
/// and the remembered one was looked for: what the last effect on it asks to keep
/// is the chat that is selected.
pub proof fn the_selection_is_remembered(
    before: AppState,
    chats: Seq<Chat>,
    landed: AppState,
    out: Seq<EffectView>,
    saved: Option<String>,
    after: AppState,
    more: Seq<EffectView>,
    now: i64,
    later: i64,
)
    requires
        before.selected_chat is None,
        !before.restore_looked,
        before.reloading(),
        before.data_dir is Some,
        takes_chats(before, landed, chats, now, out),
        restored(landed, after, saved, later, more),
    ensures
        after.selected_chat is Some ==> more.contains(
            EffectView::SaveSelection {
                dir: before.data_dir->0@,
                selected: opt(after.selected_chat),
            },
        ),
{
    let save = EffectView::SaveSelection {
        dir: before.data_dir->0@,
        selected: opt(after.selected_chat),
    };
    assert(landed.save_dir() == Some(before.data_dir->0@));
    if after.selected_chat is Some {
        let saves = save_effects(landed.save_dir(), opt(after.selected_chat));
        assert(saves[0] == save);
        if restores(landed, saved) {
            let seen = seen_effects(landed.chats@, saved->0@, landed.engine is Some);
            if opt(landed.selected_chat) == opt(saved) {
                assert(more == seen + saves);
                assert(more[seen.len() as int] == save);
            } else {
                let watch: Seq<EffectView> = if landed.engine is Some {
                    seq![EffectView::WatchTranscript(saved->0@)]
                } else {
                    Seq::empty()
                };
                assert(more == seen + watch + saves + seq![EffectView::Notify]);
                assert(more[(seen + watch).len() as int] == save);
            }
        } else {
            assert(more == saves);
        }
    }
}

impl AppState {
    /// Whether hot reload is on, by the setting or by the environment.
    pub open spec fn reloading(self) -> bool {
        self.hotreload || self.hotreload_env
    }

    /// Where the selection is remembered, while hot reload is on.
    pub open spec fn save_dir(self) -> Option<Seq<char>> {
        if self.reloading() {
            opt(self.data_dir)
        } else {
            None
        }
    }

    /// Marks a chat seen when it has something unseen: stamps the row at once
    /// and tells the engine.
    pub fn mark_chat_seen_at(&mut self, chat_id: &str, now: i64) -> (out: Vec<Effect>)
        requires
            old(self).echoes.wf(),
        ensures
            final(self).echoes.wf(),
            old(self).wf() ==> final(self).wf(),
            final(self).chats@ == seen_chats(old(self).chats@, chat_id@, now),
            effects(out@) == seen_effects(old(self).chats@, chat_id@, old(self).engine is Some),
            *final(self) == (AppState { chats: final(self).chats, ..*old(self) }),
    {
        let mut out: Vec<Effect> = Vec::new();
        let i: usize = find_chat(&self.chats, chat_id);
        assert(effects(out@) =~= Seq::<EffectView>::empty());
        if i < self.chats.len() && self.chats[i].unseen() {
            self.chats[i].last_seen_at = Some(now);
            ask(&mut out, Effect::Notify);
            if self.engine.is_some() {
                let request = Request::new(Method::Mutate).with_text("op", "markChatSeen").with_text(
                    "chatId",
                    chat_id,
                );
                ask(&mut out, Effect::Call(request));
            }
            assert(effects(out@) =~= seen_effects(
                old(self).chats@,
                chat_id@,
                old(self).engine is Some,
            ));
        }
        out
    }

    /// Turns to another chat, or to none.
    fn switch_chat(&mut self, chat_id: Option<String>, now: i64, boot: bool) -> (out: Vec<Effect>)
        requires
            old(self).echoes.wf(),
            boot ==> chat_id is Some,
        ensures
            final(self).wf(),
            switches(*old(self), *final(self), chat_id, now, boot, effects(out@)),
    {
        let mut out: Vec<Effect> = Vec::new();
        assert(effects(out@) =~= Seq::<EffectView>::empty());
        self.selected_chat = copy_opt(&chat_id);
        self.auto_selected = true;
        self.boot_selected = boot;
        self.transcript = Vec::new();
        self.transcript_watch = None;
        self.working_since = None;
        if let Some(id) = &chat_id {
            let i: usize = find_chat(&self.chats, id.as_str());
            if i < self.chats.len() {
                if let Some(project) = &self.chats[i].project_id {
                    self.selected_project = Some(project.clone());
                }
            }
            out = self.mark_chat_seen_at(id.as_str(), now);
        }
        let ghost seen = effects(out@);
        if self.engine.is_some() {
            if let Some(id) = &chat_id {
                ask(&mut out, Effect::WatchTranscript(id.clone()));
            }
            self.transcript_watch = copy_opt(&chat_id);
        }
        let ghost watched = effects(out@);
        if !boot {
            self.persist_hotreload(&mut out);
        }
        let ghost saved = effects(out@);
        ask(&mut out, Effect::Notify);
        proof {
            let before = *old(self);
            let watch = match chat_id {
                Some(id) if before.engine is Some => seq![EffectView::WatchTranscript(id@)],
                _ => Seq::empty(),
            };
            let dir = if boot {
                None
            } else {
                before.save_dir()
            };
            assert(watched =~= seen + watch);
            assert(saved =~= watched + save_effects(dir, opt(chat_id)));
            assert(effects(out@) =~= select_effects(
                before.chats@,
                before.engine is Some,
                dir,
                opt(chat_id),
            ));
        }
        out
    }

    /// Selects a chat, or none. Another chat brings its project and its
    /// transcript along and is marked seen; selecting the same one again only
    /// marks it seen, and makes the boot's choice one's own.
    pub fn select_chat_at(&mut self, chat_id: Option<String>, now: i64) -> (out: Vec<Effect>)
        requires
            old(self).echoes.wf(),
        ensures
            final(self).echoes.wf(),
            old(self).wf() ==> final(self).wf(),
            selects(*old(self), *final(self), chat_id, now, effects(out@)),
    {
        if !same_opt(&self.selected_chat, &chat_id) {
            return self.switch_chat(chat_id, now, false);
        }
        let mut out: Vec<Effect> = Vec::new();
        assert(effects(out@) =~= Seq::<EffectView>::empty());
        if let Some(id) = &chat_id {
            out = self.mark_chat_seen_at(id.as_str(), now);
        }
        let ghost seen = effects(out@);
        if self.boot_selected {
            self.persist_hotreload(&mut out);
            self.boot_selected = false;
        }
        assert(effects(out@) =~= again_effects(*old(self), opt(chat_id)));
        out
    }

    /// Marks a chat seen at the time of day.
    pub fn mark_chat_seen(&mut self, chat_id: &str) -> (out: Vec<Effect>)
        requires
            old(self).echoes.wf(),
        ensures
            final(self).echoes.wf(),
            old(self).wf() ==> final(self).wf(),
            exists|now: i64|
                final(self).chats@ == #[trigger] seen_chats(old(self).chats@, chat_id@, now),
            effects(out@) == seen_effects(old(self).chats@, chat_id@, old(self).engine is Some),
            *final(self) == (AppState { chats: final(self).chats, ..*old(self) }),
    {
        let now: i64 = utc_now();
        self.mark_chat_seen_at(chat_id, now)
    }

    /// Selects a chat, or none, at the time of day.
    pub fn select_chat(&mut self, chat_id: Option<String>) -> (out: Vec<Effect>)
        requires
            old(self).echoes.wf(),
        ensures
            final(self).echoes.wf(),
            old(self).wf() ==> final(self).wf(),
            exists|now: i64| #[trigger]
                selects(*old(self), *final(self), chat_id, now, effects(out@)),
    {
        let now: i64 = utc_now();
        self.select_chat_at(chat_id, now)
    }

    /// Asks for the selection to be remembered, while hot reload is on.
    fn persist_hotreload(&self, out: &mut Vec<Effect>)
        ensures
            effects(final(out)@) == effects(old(out)@) + save_effects(
                self.save_dir(),
                opt(self.selected_chat),
            ),
    {
        if self.hotreload || self.hotreload_env {
            if let Some(dir) = &self.data_dir {
                ask(
                    out,
                    Effect::SaveSelection {
                        dir: dir.clone(),
                        selected: copy_opt(&self.selected_chat),
                    },
                );
                assert(effects(out@) =~= effects(old(out)@) + save_effects(
                    self.save_dir(),
                    opt(self.selected_chat),
                ));
                return ;
            }
        }
        assert(effects(out@) =~= effects(old(out)@) + save_effects(
            self.save_dir(),
            opt(self.selected_chat),
        ));
    }

    /// Selects a project; which chat to land on is the caller's choice. The
    /// result tells whether anything changed.
    pub fn select_project(&mut self, project_id: Option<String>) -> (changed: bool)
        requires
            old(self).echoes.wf(),
        ensures
            final(self).echoes.wf(),
            old(self).wf() ==> final(self).wf(),
            changed == (opt(old(self).selected_project) != opt(project_id)),
            !changed ==> *final(self) == *old(self),
            changed ==> *final(self) == (AppState { selected_project: project_id, ..*old(self) }),
    {
        if same_opt(&self.selected_project, &project_id) {
            return false;
        }
        self.selected_project = project_id;
        true
    }

    /// The boot begins, or begins again after it failed.
    pub fn begin_boot(&mut self, config: &EngineBootConfig)
        requires
            old(self).echoes.wf(),
        ensures
            final(self).echoes.wf(),
            old(self).wf() ==> final(self).wf(),
            *final(self) == (AppState {
                connection: ConnectionStatus::Connecting,
                data_dir: Some(config.data_dir),
                ..*old(self)
            }),
    {
        self.connection = ConnectionStatus::Connecting;
        self.data_dir = Some(config.data_dir.clone());
    }

    /// The boot failed.
    pub fn boot_failed(&mut self, message: String)
        requires
            old(self).echoes.wf(),
        ensures
            final(self).echoes.wf(),
            old(self).wf() ==> final(self).wf(),
            *final(self) == (AppState {
                connection: ConnectionStatus::Failed(message),
                ..*old(self)
            }),
    {
        self.connection = ConnectionStatus::Failed(message);
    }

    /// What attaching an engine asks for.
    pub open spec fn attach_effects(self) -> Seq<EffectView> {
        let transcript = match self.selected_chat {
            Some(id) => seq![EffectView::WatchTranscript(id@)],
            None => Seq::empty(),
        };
        let reload = if self.reloading() {
            if self.announced {
                seq![EffectView::RestoreLater]
            } else {
                seq![EffectView::AnnounceReady, EffectView::RestoreLater]
            }
        } else {
            Seq::empty()
        };
        standing_watches() + transcript + reload + seq![EffectView::Notify]
    }

    /// Attaches the engine: the app is ready, the standing watches begin, and a
    /// chat that is already selected gets its transcript again. Under hot
    /// reload the supervisor is told once, and the selection is restored when
    /// chats have arrived.
    pub fn attach_engine(&mut self, handle: EngineHandle) -> (out: Vec<Effect>)
        requires
            old(self).echoes.wf(),
        ensures
            final(self).echoes.wf(),
            old(self).wf() ==> final(self).wf(),
            effects(out@) == old(self).attach_effects(),
            *final(self) == (AppState {
                connection: ConnectionStatus::Ready,
                engine: Some(handle),
                transcript_watch: match old(self).selected_chat {
                    Some(id) => Some(id),
                    None => old(self).transcript_watch,
                },
                announced: old(self).announced || old(self).reloading(),
                ..*old(self)
            }),
    {
        self.connection = ConnectionStatus::Ready;
        self.engine = Some(handle);
        let mut out: Vec<Effect> = Vec::new();
        assert(effects(out@) =~= Seq::<EffectView>::empty());
        ask(&mut out, Effect::Watch(Method::WatchSessions));
        ask(&mut out, Effect::Watch(Method::WatchCollaborations));
        ask(&mut out, Effect::Watch(Method::WatchChats));
        ask(&mut out, Effect::Watch(Method::WatchDevices));
        ask(&mut out, Effect::Watch(Method::WatchProjects));
        ask(&mut out, Effect::Watch(Method::UpdateStatus));
        ask(&mut out, Effect::Watch(Method::LocalDevice));
        ask(&mut out, Effect::Watch(Method::NovaWatchPeers));
        assert(effects(out@) =~= standing_watches());
        if let Some(id) = &self.selected_chat {
            let chat: String = id.clone();
            self.transcript_watch = Some(chat.clone());
            ask(&mut out, Effect::WatchTranscript(chat));
        }
        if self.hotreload || self.hotreload_env {
            if !self.announced {
                self.announced = true;
                ask(&mut out, Effect::AnnounceReady);
            }
            ask(&mut out, Effect::RestoreLater);
        }
        ask(&mut out, Effect::Notify);
        assert(effects(out@) =~= old(self).attach_effects());
        out
    }

    /// Whether the restore of the selection should wait for another poll:
    /// nothing has arrived, nobody has selected, and polls are left.
    pub fn restore_waits(&self, polls: u32) -> (r: bool)
        ensures
            r == (polls < RESTORE_POLLS && self.chats@.len() == 0 && self.selected_chat is None),
    {
        polls < RESTORE_POLLS && self.chats.len() == 0 && self.selected_chat.is_none()
    }

    /// Reopens the chat that the replaced process had open: `saved` is what its
    /// file held. What somebody selected meanwhile wins, and so does a chat's
    /// absence; the boot's own choice gives way, or is remembered from now on.
    pub fn restore_hotreload(&mut self, saved: Option<String>, now: i64) -> (out: Vec<Effect>)
        requires
            old(self).echoes.wf(),
        ensures
            final(self).echoes.wf(),
            old(self).wf() ==> final(self).wf(),
            restored(*old(self), *final(self), saved, now, effects(out@)),
    {
        self.restore_looked = true;
        let free: bool = self.selected_chat.is_none() || self.boot_selected;
        if free && (self.hotreload || self.hotreload_env) && self.data_dir.is_some() {
            if let Some(id) = saved {
                if find_chat(&self.chats, id.as_str()) < self.chats.len() {
                    return self.select_chat_at(Some(id), now);
                }
            }
        }
        let mut out: Vec<Effect> = Vec::new();
        assert(effects(out@) =~= Seq::<EffectView>::empty());
        if self.boot_selected {
            self.persist_hotreload(&mut out);
            self.boot_selected = false;
        }
        assert(effects(out@) =~= (if old(self).boot_selected {
            save_effects(old(self).save_dir(), opt(old(self).selected_chat))
        } else {
            Seq::empty()
        }));
        out
    }

    /// Reopens the chat that the replaced process had open, by the body of its
    /// file; there is none when there is no file.
    pub fn restore_from(&mut self, body: Option<String>, now: i64) -> (out: Vec<Effect>)
        requires
            old(self).echoes.wf(),
        ensures
            final(self).echoes.wf(),
            old(self).wf() ==> final(self).wf(),
            exists|saved: Option<String>|
                opt(saved) == (match body {
                    Some(b) => json_text(b@, "selected_chat"@),
                    None => None,
                }) && #[trigger] restored(*old(self), *final(self), saved, now, effects(out@)),
    {
        let saved: Option<String> = match &body {
            Some(b) => saved_chat(b.as_str()),
            None => None,
        };
        self.restore_hotreload(saved, now)
    }

    /// A frame of the chats watch. The first frame that finds nothing selected
    /// selects the most recent chat; later ones never do. A selection that goes
    /// with its chat is forgotten in the data directory, too.
    pub fn on_chats(&mut self, chats: Vec<Chat>, now: i64) -> (out: Vec<Effect>)
        requires
            old(self).echoes.wf(),
        ensures
            final(self).echoes.wf(),
            old(self).wf() ==> final(self).wf(),
            takes_chats(*old(self), *final(self), chats@, now, effects(out@)),
    {
        let had: bool = self.selected_chat.is_some();
        let boot: bool = self.boot_selected;
        self.apply_chats(chats);
        let mut out: Vec<Effect> = Vec::new();
        assert(effects(out@) =~= Seq::<EffectView>::empty());
        if had && !boot && self.selected_chat.is_none() {
            self.persist_hotreload(&mut out);
        }
        let ghost dropped = effects(out@);
        assert(dropped =~= drop_effects(*old(self), chats@));
        if self.selected_chat.is_none() && !self.auto_selected {
            let mut i: usize = 0;
            while i < self.chats.len() && self.chats[i].archived
                invariant
                    i <= self.chats@.len(),
                    forall|j: int| 0 <= j < i ==> (#[trigger] self.chats@[j]).archived,
                decreases self.chats@.len() - i,
            {
                i += 1;
            }
            proof {
                first_at_is(self.chats@, not_archived(), i as int);
            }
            if i < self.chats.len() {
                let id: String = self.chats[i].id.clone();
                let before_look: bool = !self.restore_looked;
                let mut more: Vec<Effect> = self.switch_chat(Some(id), now, before_look);
                let ghost picked = effects(more@);
                out.append(&mut more);
                assert(effects(out@) =~= dropped + picked);
            }
        }
        let ghost told = effects(out@);
        ask(&mut out, Effect::Notify);
        assert(effects(out@) =~= told + seq![EffectView::Notify]);
        out
    }

    /// A frame of the transcript watch of a chat. A watch that outlived the
    /// selection of its chat changes nothing.
    pub fn on_transcript(
        &mut self,
        chat_id: &str,
        entries: Vec<SessionMessageEntry>,
        clock_now: u64,
    ) -> (applied: bool)
        requires
            old(self).echoes.wf(),
        ensures
            final(self).echoes.wf(),
            old(self).wf() ==> final(self).wf(),
            applied == (opt(old(self).selected_chat) == Some(chat_id@)),
            !applied ==> *final(self) == *old(self),
            applied ==> final(self).transcript == entries,
            applied ==> final(self).echoes_of(chat_id@) == unconfirmed(
                old(self).echoes_of(chat_id@),
                entries@,
            ),
            applied ==> *final(self) == (AppState {
                echoes: final(self).echoes,
                transcript: entries,
                working_since: clock(
                    old(self).working_since,
                    is_working(old(self).sessions@, Some(chat_id@)),
                    clock_now,
                ),
                ..*old(self)
            }),
    {
        if is_text(&self.selected_chat, chat_id) {
            self.apply_transcript(entries, clock_now);
            assert(self.echoes_of(chat_id@) =~= unconfirmed(
                old(self).echoes_of(chat_id@),
                entries@,
            ));
            true
        } else {
            false
        }
    }

    /// The reply to the probe for this device's own id.
    pub fn on_local_device(&mut self, id: Option<Value>, device_id: Option<Value>)
        requires
            old(self).echoes.wf(),
        ensures
            final(self).echoes.wf(),
            old(self).wf() ==> final(self).wf(),
            *final(self) == (AppState {
                local_device_id: match (match id {
                    Some(v) => Some(v),
                    None => device_id,
                }) {
                    Some(Value::Text(s)) => Some(s),
                    _ => old(self).local_device_id,
                },
                ..*old(self)
            }),
    {
        if let Some(found_id) = reported_device(id, device_id) {
            self.local_device_id = Some(found_id);
        }
    }

    /// A frame of the watch of paired peers.
    pub fn on_peers(&mut self, peers: &Vec<PeerView>)
        requires
            old(self).echoes.wf(),
        ensures
            final(self).echoes.wf(),
            old(self).wf() ==> final(self).wf(),
            final(self).nova_devices@ == peer_devices(peers@),
            final(self).devices@ == ordered(
                merged(old(self).workspace_devices@, peer_devices(peers@)),
                by_device_id(),
            ),
            *final(self) == (AppState {
                nova_devices: final(self).nova_devices,
                devices: final(self).devices,
                ..*old(self)
            }),
    {
        self.apply_nova_devices(devices_from_peers(peers));
    }
}

}
