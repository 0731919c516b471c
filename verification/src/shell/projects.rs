//! The projects sidebar: switching projects, the projects and Sessions lists,
//! the palette that adds a project, and the dialogs that rename and remove one.
use vstd::prelude::*;
use vstd::string::*;

use crate::ids::{is_fresh_id, mint_id, utc_now};
use crate::keyed::Keyed;
use crate::proto::{Chat, Device, Project};
use crate::seqs::{first_at, first_at_is, first_at_props, found, kept, kept_step};
use crate::settings::appearance::{lowercase, to_lower};
use crate::state::{
    again_effects, at, chat_ix, device_ix, effects, find_device, project_for, project_ix, seen_chats,
    select_effects, selects, AppState, Effect, EffectView,
};
use crate::terminal::panel::DragState;
use crate::terminal::tabs::{drop_index, moved, reorder_tabs, slot_at};
use crate::text::{contains, occurs_in, same, trim, trimmed};
use crate::wire::{copy_opt, is_text, opt, Call, Method, Request, Value, ValueView};

verus! {

/// Height of a project row with its gap, in pixels.
pub const PROJECT_ROW_SLOT: i64 = 31;

/// What fills the main area.
#[derive(Debug, Clone, Copy, PartialEq, Eq, Structural)]
pub enum Route {
    Chat,
    Settings,
}

/// A folder that the palette can open.
#[derive(Debug)]
pub struct FolderEntry {
    pub name: String,
    pub full_path: String,
    pub is_repo: bool,
}

/// A folder on the way to the one shown.
#[derive(Debug)]
pub struct Crumb {
    pub label: String,
    pub full_path: String,
}

/// A folder that the palette shows: its subfolders, its parent, and the way to
/// it from the root.
#[derive(Debug)]
pub struct FolderListing {
    pub path: String,
    pub parent: Option<String>,
    pub crumbs: Vec<Crumb>,
    pub folders: Vec<FolderEntry>,
}

/// Something that is fetched.
#[derive(Debug)]
pub enum Loadable<T> {
    Idle,
    Loading,
    Ready(T),
    Error(String),
}

/// The palette that adds a project.
#[derive(Debug)]
pub struct CreateProjectFlow {
    /// This device, once it is known.
    pub device: Option<Device>,
    pub query: String,
    pub browser: Loadable<FolderListing>,
    /// The folder that was asked for; none is the home folder.
    pub browser_path: Option<String>,
    pub home: Option<String>,
    /// Whether the folder shown is a repository, as far as is known.
    pub browser_repo: bool,
    /// The highlighted row.
    pub active: usize,
    pub submit_busy: bool,
    pub error: Option<String>,
}

/// The dialog that renames a project.
#[derive(Debug)]
pub struct RenameProjectDialog {
    pub project_id: String,
    pub text: String,
}

/// The sidebar's state.
pub struct Shell {
    pub route: Route,
    /// The project of the last visit, kept across runs.
    pub last_project_id: Option<String>,
    /// The order that projects were dragged into, kept across runs.
    pub project_order: Vec<String>,
    /// The chat that was last shown in each project.
    pub project_last_chat: Keyed<String>,
    pub project_drag: Option<DragState>,
    pub add_project: Option<CreateProjectFlow>,
    /// The project whose menu is open.
    pub project_menu: Option<String>,
    pub rename_project_dialog: Option<RenameProjectDialog>,
    pub delete_project_confirm: Option<String>,
    pub sidebar_notice: Option<String>,
}

/// The condition of being a chat of a project that is not archived.
pub open spec fn shown_in(project: Seq<char>) -> spec_fn(Chat) -> bool {
    |c: Chat| !c.archived && c.in_project(project)
}

/// The condition of being that chat, of that project, and not archived.
pub open spec fn is_shown(id: Seq<char>, project: Seq<char>) -> spec_fn(Chat) -> bool {
    |c: Chat| !c.archived && c.id@ == id && c.in_project(project)
}

/// The chat to land on in a project: the one last shown there, if it still is
/// there, or else the most recent.
pub open spec fn landing_chat(
    chats: Seq<Chat>,
    last: Map<Seq<char>, String>,
    project: Seq<char>,
) -> Option<Seq<char>> {
    if last.contains_key(project) && crate::seqs::any(
        chats,
        is_shown(last[project]@, project),
    ) {
        Some(last[project]@)
    } else {
        match found(chats, shown_in(project)) {
            Some(c) => Some(c.id@),
            None => None,
        }
    }
}

/// The call that makes a chat in a project.
pub open spec fn create_chat_call(chat: Seq<char>, project: Seq<char>) -> Call {
    Call {
        method: Method::Mutate,
        params: Map::empty().insert("op"@, ValueView::Text("createChat"@)).insert(
            "chatId"@,
            ValueView::Text(chat),
        ).insert("projectId"@, ValueView::Text(project)),
    }
}

/// The call that makes a project of a folder.
pub open spec fn create_project_call(
    project: Seq<char>,
    device: Seq<char>,
    path: Seq<char>,
    git: bool,
) -> Call {
    Call {
        method: Method::Mutate,
        params: Map::empty().insert("op"@, ValueView::Text("createProject"@)).insert(
            "projectId"@,
            ValueView::Text(project),
        ).insert("deviceId"@, ValueView::Text(device)).insert("path"@, ValueView::Text(path)).insert(
            "gitDetected"@,
            ValueView::Bool(git),
        ),
    }
}

/// The call that renames a project.
pub open spec fn rename_call(project: Seq<char>, name: Seq<char>) -> Call {
    Call {
        method: Method::Mutate,
        params: Map::empty().insert("op"@, ValueView::Text("renameProject"@)).insert(
            "projectId"@,
            ValueView::Text(project),
        ).insert("name"@, ValueView::Text(name)),
    }
}

/// The call that removes a project.
pub open spec fn delete_call(project: Seq<char>) -> Call {
    Call {
        method: Method::Mutate,
        params: Map::empty().insert("op"@, ValueView::Text("deleteProject"@)).insert(
            "projectId"@,
            ValueView::Text(project),
        ),
    }
}

/// The call that lists a folder, or the home folder.
pub open spec fn list_call(path: Option<Seq<char>>) -> Call {
    Call {
        method: Method::ListFolders,
        params: match path {
            Some(p) => Map::empty().insert("path"@, ValueView::Text(p)),
            None => Map::empty(),
        },
    }
}

/// The project that is selected after a chat of it was asked for: a chat that
/// was not selected before brings its own along.
pub open spec fn lands_in(
    before: AppState,
    project: Seq<char>,
    chat: Option<Seq<char>>,
) -> Seq<char> {
    match chat {
        Some(id) if opt(before.selected_chat) != chat => match project_for(before.chats@, id) {
            Some(p) => p@,
            None => project,
        },
        _ => project,
    }
}

/// Whether no two chats share an id.
pub open spec fn distinct_chats(chats: Seq<Chat>) -> bool {
    forall|a: int, b: int|
        0 <= a < chats.len() && 0 <= b < chats.len() && (#[trigger] chats[a]).id@ == (
        #[trigger] chats[b]).id@ ==> a == b
}

/// Landing in a project lands in that project.
pub proof fn landing_stays_in_the_project(
    before: AppState,
    last: Map<Seq<char>, String>,
    project: Seq<char>,
)
    requires
        distinct_chats(before.chats@),
    ensures
        lands_in(before, project, landing_chat(before.chats@, last, project)) == project,
{
    let chats = before.chats@;
    if let Some(id) = landing_chat(chats, last, project) {
        let p = crate::state::chat_named(id);
        first_at_props(chats, p, 0);
        let k = if last.contains_key(project) && crate::seqs::any(
            chats,
            is_shown(last[project]@, project),
        ) {
            choose|k: int|
                0 <= k < chats.len() && is_shown(last[project]@, project)(#[trigger] chats[k])
        } else {
            first_at_props(chats, shown_in(project), 0);
            first_at(chats, shown_in(project), 0)
        };
        assert(p(chats[k]));
        let i = chat_ix(chats, id);
        assert(p(chats[i]));
        assert(i == k);
    }
}

/// Opening a canvas calls nothing: no empty chat is left behind.
pub proof fn a_canvas_makes_no_chat(before: AppState, i: int)
    requires
        0 <= i < selection_effects(before, None).len(),
    ensures
        !(selection_effects(before, None)[i] is Call),
{
}

/// Whether the app's state is that of before with another selection: only what
/// depends on the selection differs.
pub open spec fn selected_again(
    before: AppState,
    after: AppState,
    project: Seq<char>,
    chat: Option<Seq<char>>,
    now: i64,
) -> bool {
    &&& opt(after.selected_project) == Some(project)
    &&& opt(after.selected_chat) == chat
    &&& after.chats@ == (match chat {
        Some(id) => seen_chats(before.chats@, id, now),
        None => before.chats@,
    })
    &&& opt(before.selected_chat) == chat ==> after.transcript == before.transcript
        && after.transcript_watch == before.transcript_watch && after.auto_selected
        == before.auto_selected && after.working_since == before.working_since
    &&& opt(before.selected_chat) != chat ==> after.transcript@.len() == 0 && opt(
        after.transcript_watch,
    ) == (if before.engine is Some {
        chat
    } else {
        None
    }) && after.auto_selected && after.working_since is None
    &&& after == (AppState {
        selected_project: after.selected_project,
        selected_chat: after.selected_chat,
        chats: after.chats,
        transcript: after.transcript,
        transcript_watch: after.transcript_watch,
        auto_selected: after.auto_selected,
        boot_selected: false,
        working_since: after.working_since,
        ..before
    })
}

/// What that selection asks for.
pub open spec fn selection_effects(before: AppState, chat: Option<Seq<char>>) -> Seq<EffectView> {
    if opt(before.selected_chat) == chat {
        again_effects(before, chat)
    } else {
        select_effects(before.chats@, before.engine is Some, before.save_dir(), chat)
    }
}

impl Shell {
    pub open spec fn wf(self) -> bool {
        self.project_last_chat.wf()
    }

    pub fn new() -> (s: Shell)
        ensures
            s.wf(),
            s.route == Route::Chat,
            s.last_project_id is None,
            s.project_order@.len() == 0,
            s.project_last_chat@ == Map::<Seq<char>, String>::empty(),
            s.project_drag is None,
            s.add_project is None,
            s.project_menu is None,
            s.rename_project_dialog is None,
            s.delete_project_confirm is None,
            s.sidebar_notice is None,
    {
        Shell {
            route: Route::Chat,
            last_project_id: None,
            project_order: Vec::new(),
            project_last_chat: Keyed::new(),
            project_drag: None,
            add_project: None,
            project_menu: None,
            rename_project_dialog: None,
            delete_project_confirm: None,
            sidebar_notice: None,
        }
    }

    /// The chat to land on in a project.
    fn landing(&self, state: &AppState, project_id: &str) -> (t: Option<String>)
        requires
            self.wf(),
        ensures
            opt(t) == landing_chat(state.chats@, self.project_last_chat@, project_id@),
    {
        if let Some(last) = self.project_last_chat.get(project_id) {
            let mut i: usize = 0;
            while i < state.chats.len()
                invariant
                    i <= state.chats@.len(),
                    self.project_last_chat@.contains_key(project_id@),
                    *last == self.project_last_chat@[project_id@],
                    forall|j: int|
                        0 <= j < i ==> !is_shown(last@, project_id@)(#[trigger] state.chats@[j]),
                decreases state.chats@.len() - i,
            {
                let c: &Chat = &state.chats[i];
                if !c.archived && same(c.id.as_str(), last.as_str()) && is_text(
                    &c.project_id,
                    project_id,
                ) {
                    assert(is_shown(last@, project_id@)(state.chats@[i as int]));
                    return Some(last.clone());
                }
                i += 1;
            }
        }
        let mut i: usize = 0;
        while i < state.chats.len() && (state.chats[i].archived || !is_text(
            &state.chats[i].project_id,
            project_id,
        ))
            invariant
                i <= state.chats@.len(),
                forall|j: int| 0 <= j < i ==> !shown_in(project_id@)(#[trigger] state.chats@[j]),
            decreases state.chats@.len() - i,
        {
            i += 1;
        }
        proof {
            first_at_is(state.chats@, shown_in(project_id@), i as int);
        }
        if i < state.chats.len() {
            Some(state.chats[i].id.clone())
        } else {
            None
        }
    }

    /// Lands in a project, and remembers it for the next run.
    pub fn activate_project(&mut self, state: &mut AppState, project_id: String, now: i64) -> (out:
        Vec<Effect>)
        requires
            old(self).wf(),
            old(state).echoes.wf(),
        ensures
            final(self).wf(),
            final(state).echoes.wf(),
            old(state).wf() ==> final(state).wf(),
            *final(self) == (Shell {
                route: Route::Chat,
                last_project_id: Some(project_id),
                ..*old(self)
            }),
            ({
                let chat = landing_chat(
                    old(state).chats@,
                    old(self).project_last_chat@,
                    project_id@,
                );
                &&& selected_again(
                    *old(state),
                    *final(state),
                    lands_in(*old(state), project_id@, chat),
                    chat,
                    now,
                )
                &&& effects(out@) == selection_effects(*old(state), chat)
            }),
    {
        self.route = Route::Chat;
        let target: Option<String> = self.landing(state, project_id.as_str());
        state.select_project(Some(project_id.clone()));
        let out: Vec<Effect> = state.select_chat_at(target, now);
        self.last_project_id = Some(project_id);
        out
    }
}

/// What opening a new session came to.
pub enum NewSession {
    /// There is no project: the palette opens, and asks for the home folder.
    AddProject(Option<Request>),
    /// An empty canvas is shown.
    Canvas(Vec<Effect>),
}

/// A chat to be made: its id, and the call that makes it.
pub struct CreateSession {
    pub chat_id: String,
    pub request: Request,
}

/// A palette that was just opened.
pub open spec fn is_fresh_flow(f: CreateProjectFlow, device: Option<Device>, loading: bool) -> bool {
    &&& f.device == device
    &&& f.query@.len() == 0
    &&& if loading {
        f.browser is Loading
    } else {
        f.browser is Idle
    }
    &&& f.browser_path is None
    &&& f.home is None
    &&& !f.browser_repo
    &&& f.active == 0
    &&& !f.submit_busy
    &&& f.error is None
}

/// This device, when it is among the devices.
pub open spec fn local_device(state: AppState) -> Option<Device> {
    match state.local_device_id {
        Some(id) => at(state.devices@, device_ix(state.devices@, id@)),
        None => None,
    }
}

/// A call, or none.
pub open spec fn asks(r: Option<Request>, call: Option<Call>) -> bool {
    match (r, call) {
        (Some(r), Some(call)) => r@ == call,
        (None, None) => true,
        _ => false,
    }
}

/// What came of choosing a folder.
pub enum Submitted {
    Nothing,
    /// The folder has a project already: it is shown, with a new session.
    Existing { out: Vec<Effect>, session: Option<CreateSession> },
    /// The project is being made.
    Creating { project_id: String, request: Request },
}

/// The project of a folder on a device: its index, or the number of projects.
pub open spec fn same_folder(device: Seq<char>, path: Seq<char>) -> spec_fn(Project) -> bool {
    |p: Project| p.device_id@ == device && p.path@ == path
}

/// The condition of not being the project with an id.
pub open spec fn other_project(id: Seq<char>) -> spec_fn(Project) -> bool {
    |p: Project| p.id@ != id
}

/// The folder that the palette shows, when it can be chosen.
pub open spec fn chosen(f: CreateProjectFlow) -> Option<(Device, FolderListing)> {
    match (f.device, f.browser) {
        (Some(d), Loadable::Ready(l)) if !f.submit_busy => Some((d, l)),
        _ => None,
    }
}

/// What choosing the folder that the palette shows does, under the given ids
/// and at the given time.
pub open spec fn submitted(
    shell: Shell,
    state: AppState,
    shell_after: Shell,
    after: AppState,
    r: Submitted,
    project_id: String,
    chat_id: String,
    now: i64,
) -> bool {
    match (match shell.add_project {
        Some(f) if state.engine is Some => chosen(f),
        _ => None,
    }) {
        None => r is Nothing && shell_after == shell && after == state,
        Some((device, listing)) => {
            let here = found(
                state.projects@,
                same_folder(device.id@, listing.path@),
            );
            match here {
                Some(existing) => {
                    let chat = landing_chat(
                        state.chats@,
                        shell.project_last_chat@,
                        existing.id@,
                    );
                    &&& r matches Submitted::Existing { out, session: Some(c) } && effects(
                        out@,
                    ) == selection_effects(state, chat) && c.chat_id == chat_id
                        && c.request@ == create_chat_call(chat_id@, existing.id@)
                    &&& selected_again(
                        state,
                        after,
                        lands_in(state, existing.id@, chat),
                        chat,
                        now,
                    )
                    &&& shell_after == (Shell {
                        add_project: None,
                        route: Route::Chat,
                        last_project_id: Some(existing.id),
                        ..shell
                    })
                },
                None => {
                    let f = shell.add_project->0;
                    let row = Project {
                        id: project_id,
                        device_id: device.id,
                        path: listing.path,
                        display_name: after.projects@.last().display_name,
                        git_detected: f.browser_repo,
                        created_at: now,
                    };
                    &&& r matches Submitted::Creating { project_id: id, request } && id@
                        == project_id@ && request@ == create_project_call(
                        project_id@,
                        device.id@,
                        listing.path@,
                        f.browser_repo,
                    )
                    &&& project_ix(state.projects@, project_id@) >= state.projects@.len()
                        ==> after.projects@ == state.projects@.push(row) && row.display_name@
                        == crate::proto::folder_label(listing.path@)
                    &&& project_ix(state.projects@, project_id@) < state.projects@.len()
                        ==> after.projects@ == state.projects@
                    &&& after == (AppState { projects: after.projects, ..state })
                    &&& shell_after == (Shell {
                        add_project: Some(
                            CreateProjectFlow { submit_busy: true, error: None, ..f },
                        ),
                        ..shell
                    })
                },
            }
        },
    }
}

/// What the reply to making a project does, under the given id for its first chat
/// and at the given time: it is shown with a new chat, or its row goes again and
/// the palette says why.
pub open spec fn project_made(
    shell: Shell,
    state: AppState,
    shell_after: Shell,
    after: AppState,
    r: (Vec<Effect>, Option<CreateSession>),
    project_id: String,
    chat_id: String,
    error: Option<String>,
    now: i64,
) -> bool {
    match error {
        None => {
            let chat = landing_chat(state.chats@, shell.project_last_chat@, project_id@);
            &&& effects(r.0@) == selection_effects(state, chat)
            &&& selected_again(state, after, lands_in(state, project_id@, chat), chat, now)
            &&& match r.1 {
                Some(c) => state.engine is Some && c.chat_id == chat_id && c.request@
                    == create_chat_call(chat_id@, project_id@) && shell_after == (Shell {
                    add_project: None,
                    route: Route::Chat,
                    last_project_id: Some(project_id),
                    ..shell
                }),
                None => state.engine is None && opt(shell_after.sidebar_notice) == Some(
                    "Engine not connected"@,
                ) && shell_after == (Shell {
                    add_project: None,
                    route: Route::Chat,
                    last_project_id: Some(project_id),
                    sidebar_notice: shell_after.sidebar_notice,
                    ..shell
                }),
            }
        },
        Some(e) => {
            &&& r.0@.len() == 0
            &&& r.1 is None
            &&& after.projects@ == kept(state.projects@, other_project(project_id@))
            &&& after == (AppState { projects: after.projects, ..state })
            &&& shell_after == (Shell {
                add_project: match shell.add_project {
                    Some(f) => Some(CreateProjectFlow { submit_busy: false, error: Some(e), ..f }),
                    None => None,
                },
                ..shell
            })
        },
    }
}

/// A palette that asked for a folder.
pub open spec fn asked(f: CreateProjectFlow, path: Option<String>, now: CreateProjectFlow) -> bool {
    now == (CreateProjectFlow { browser_path: path, browser: Loadable::Loading, active: 0, ..f })
}

impl Shell {
    /// Opens the palette that adds a project, in the home folder of this device.
    pub fn open_add_project(&mut self, state: &AppState) -> (r: Option<Request>)
        requires
            old(self).wf(),
        ensures
            final(self).wf(),
            ({
                let device = local_device(*state);
                let loads = device is Some && state.engine is Some;
                &&& final(self).add_project matches Some(f) && is_fresh_flow(f, device, loads)
                &&& *final(self) == (Shell { add_project: final(self).add_project, ..*old(self) })
                &&& asks(
                    r,
                    if loads {
                        Some(list_call(None))
                    } else {
                        None
                    },
                )
            }),
    {
        let device: Option<Device> = match &state.local_device_id {
            None => None,
            Some(id) => {
                let i: usize = find_device(&state.devices, id.as_str());
                proof {
                    first_at_props(state.devices@, crate::state::device_named(id@), 0);
                }
                if i < state.devices.len() {
                    Some(state.devices[i].clone())
                } else {
                    None
                }
            },
        };
        let has_device: bool = device.is_some();
        self.add_project = Some(
            CreateProjectFlow {
                device,
                query: String::new(),
                browser: Loadable::Idle,
                browser_path: None,
                home: None,
                browser_repo: false,
                active: 0,
                submit_busy: false,
                error: None,
            },
        );
        if has_device {
            self.load_project_folders(state, None)
        } else {
            None
        }
    }

    /// Asks for a folder, or for the home folder.
    pub fn load_project_folders(&mut self, state: &AppState, path: Option<String>) -> (r: Option<
        Request,
    >)
        requires
            old(self).wf(),
        ensures
            final(self).wf(),
            match old(self).add_project {
                Some(f) if state.engine is Some => {
                    &&& final(self).add_project matches Some(now) && asked(f, path, now)
                    &&& *final(self) == (Shell { add_project: final(self).add_project, ..*old(self) })
                    &&& asks(r, Some(list_call(opt(path))))
                },
                _ => r is None && *final(self) == *old(self),
            },
    {
        if state.engine.is_none() {
            return None;
        }
        match &mut self.add_project {
            None => None,
            Some(flow) => {
                let request: Request = match &path {
                    Some(p) => Request::new(Method::ListFolders).with_text("path", p.as_str()),
                    None => Request::new(Method::ListFolders),
                };
                flow.browser_path = path;
                flow.browser = Loadable::Loading;
                flow.active = 0;
                Some(request)
            },
        }
    }

    /// The reply about a folder. The folder that came in place of none is the
    /// home folder.
    pub fn on_folders(&mut self, went_home: bool, reply: Result<FolderListing, String>)
        requires
            old(self).wf(),
        ensures
            final(self).wf(),
            match old(self).add_project {
                None => *final(self) == *old(self),
                Some(f) => *final(self) == (Shell {
                    add_project: Some(
                        match reply {
                            Ok(listing) => CreateProjectFlow {
                                home: if went_home {
                                    final(self).add_project->0.home
                                } else {
                                    f.home
                                },
                                browser: Loadable::Ready(listing),
                                ..f
                            },
                            Err(message) => CreateProjectFlow {
                                browser: Loadable::Error(message),
                                ..f
                            },
                        },
                    ),
                    ..*old(self)
                }) && (went_home && reply is Ok ==> opt(final(self).add_project->0.home) == Some(
                    reply->Ok_0.path@,
                )),
            },
    {
        match &mut self.add_project {
            None => {},
            Some(flow) => {
                match reply {
                    Ok(listing) => {
                        if went_home {
                            flow.home = Some(listing.path.clone());
                        }
                        flow.browser = Loadable::Ready(listing);
                    },
                    Err(message) => {
                        flow.browser = Loadable::Error(message);
                    },
                }
            },
        }
    }

    /// Shows an empty canvas in a project. The chat is made when its first
    /// message is sent.
    pub fn open_new_session(
        &mut self,
        state: &mut AppState,
        project_id: Option<String>,
        now: i64,
    ) -> (r: NewSession)
        requires
            old(self).wf(),
            old(state).echoes.wf(),
        ensures
            final(self).wf(),
            final(state).echoes.wf(),
            old(state).wf() ==> final(state).wf(),
            ({
                let project = match project_id {
                    Some(id) => Some(id@),
                    None => opt(old(state).selected_project),
                };
                match project {
                    None => {
                        let device = local_device(*old(state));
                        let loads = device is Some && old(state).engine is Some;
                        &&& *final(state) == *old(state)
                        &&& final(self).add_project matches Some(f) && is_fresh_flow(
                            f,
                            device,
                            loads,
                        )
                        &&& *final(self) == (Shell {
                            add_project: final(self).add_project,
                            ..*old(self)
                        })
                        &&& r matches NewSession::AddProject(request) && asks(
                            request,
                            if loads {
                                Some(list_call(None))
                            } else {
                                None
                            },
                        )
                    },
                    Some(id) => {
                        &&& *final(self) == (Shell { route: Route::Chat, ..*old(self) })
                        &&& selected_again(*old(state), *final(state), id, None, now)
                        &&& r matches NewSession::Canvas(out) && effects(out@)
                            == selection_effects(*old(state), None)
                    },
                }
            }),
    {
        let project: Option<String> = match project_id {
            Some(id) => Some(id),
            None => copy_opt(&state.selected_project),
        };
        match project {
            None => NewSession::AddProject(self.open_add_project(state)),
            Some(id) => {
                self.route = Route::Chat;
                state.select_project(Some(id));
                NewSession::Canvas(state.select_chat_at(None, now))
            },
        }
    }

    /// The call that makes the chat `chat_id` in a project. Without an engine
    /// that is said.
    pub fn create_session_with(
        &mut self,
        state: &AppState,
        chat_id: String,
        project_id: &str,
    ) -> (r: Option<CreateSession>)
        requires
            old(self).wf(),
        ensures
            final(self).wf(),
            match r {
                Some(c) => state.engine is Some && c.chat_id == chat_id && c.request@
                    == create_chat_call(chat_id@, project_id@) && *final(self) == *old(self),
                None => state.engine is None && opt(final(self).sidebar_notice) == Some(
                    "Engine not connected"@,
                ) && *final(self) == (Shell {
                    sidebar_notice: final(self).sidebar_notice,
                    ..*old(self)
                }),
            },
    {
        if state.engine.is_none() {
            self.sidebar_notice = Some("Engine not connected".to_owned());
            return None;
        }
        let request: Request = Request::new(Method::Mutate).with_text("op", "createChat").with_text(
            "chatId",
            chat_id.as_str(),
        ).with_text("projectId", project_id);
        Some(CreateSession { chat_id, request })
    }

    /// Makes a chat with a fresh id in a project.
    pub fn create_session_in_project(&mut self, state: &AppState, project_id: &str) -> (r: Option<
        CreateSession,
    >)
        requires
            old(self).wf(),
        ensures
            final(self).wf(),
            match r {
                Some(c) => state.engine is Some && is_fresh_id(c.chat_id@) && c.request@
                    == create_chat_call(c.chat_id@, project_id@) && *final(self) == *old(self),
                None => state.engine is None && opt(final(self).sidebar_notice) == Some(
                    "Engine not connected"@,
                ) && *final(self) == (Shell {
                    sidebar_notice: final(self).sidebar_notice,
                    ..*old(self)
                }),
            },
    {
        self.create_session_with(state, mint_id(), project_id)
    }

    /// The reply to making a chat: it is shown, or the failure is.
    pub fn on_session_created(
        &mut self,
        state: &mut AppState,
        chat_id: String,
        error: Option<String>,
        now: i64,
    ) -> (out: Vec<Effect>)
        requires
            old(self).wf(),
            old(state).echoes.wf(),
        ensures
            final(self).wf(),
            final(state).echoes.wf(),
            old(state).wf() ==> final(state).wf(),
            match error {
                None => {
                    &&& *final(self) == *old(self)
                    &&& selects(*old(state), *final(state), Some(chat_id), now, effects(out@))
                },
                Some(e) => {
                    &&& *final(state) == *old(state)
                    &&& out@.len() == 0
                    &&& opt(final(self).sidebar_notice) == Some(
                        "Couldn't create the session: "@ + e@,
                    )
                    &&& *final(self) == (Shell {
                        sidebar_notice: final(self).sidebar_notice,
                        ..*old(self)
                    })
                },
            },
    {
        match error {
            None => state.select_chat_at(Some(chat_id), now),
            Some(e) => {
                let mut s: String = "Couldn't create the session: ".to_owned();
                s.append(e.as_str());
                self.sidebar_notice = Some(s);
                Vec::new()
            },
        }
    }

    /// Chooses the folder that the palette shows, under the given fresh ids. A
    /// folder that has a project is shown; any other is made one, and its row
    /// stands at once.
    pub fn submit_add_project_with(
        &mut self,
        state: &mut AppState,
        project_id: String,
        chat_id: String,
        now: i64,
    ) -> (r: Submitted)
        requires
            old(self).wf(),
            old(state).echoes.wf(),
        ensures
            final(self).wf(),
            final(state).echoes.wf(),
            old(state).wf() ==> final(state).wf(),
            submitted(
                *old(self),
                *old(state),
                *final(self),
                *final(state),
                r,
                project_id,
                chat_id,
                now,
            ),
    {
        if state.engine.is_none() {
            return Submitted::Nothing;
        }
        let (device_id, path, git): (String, String, bool) = match &self.add_project {
            None => {
                return Submitted::Nothing;
            },
            Some(f) => {
                if f.submit_busy {
                    return Submitted::Nothing;
                }
                match (&f.device, &f.browser) {
                    (Some(d), Loadable::Ready(l)) => (d.id.clone(), l.path.clone(), f.browser_repo),
                    _ => {
                        return Submitted::Nothing;
                    },
                }
            },
        };
        let mut i: usize = 0;
        while i < state.projects.len() && !(same(
            state.projects[i].device_id.as_str(),
            device_id.as_str(),
        ) && same(state.projects[i].path.as_str(), path.as_str()))
            invariant
                i <= state.projects@.len(),
                forall|j: int|
                    0 <= j < i ==> !same_folder(device_id@, path@)(#[trigger] state.projects@[j]),
            decreases state.projects@.len() - i,
        {
            i += 1;
        }
        proof {
            first_at_is(state.projects@, same_folder(device_id@, path@), i as int);
        }
        if i < state.projects.len() {
            let existing: String = state.projects[i].id.clone();
            self.add_project = None;
            let out: Vec<Effect> = self.activate_project(state, existing.clone(), now);
            let session: Option<CreateSession> = self.create_session_with(
                state,
                chat_id,
                existing.as_str(),
            );
            return Submitted::Existing { out, session };
        }
        match &mut self.add_project {
            None => {},
            Some(f) => {
                f.submit_busy = true;
                f.error = None;
            },
        }
        let known: usize = crate::state::find_project(&state.projects, project_id.as_str());
        if known >= state.projects.len() {
            let display_name: String = crate::proto::folder_name(path.as_str());
            state.projects.push(
                Project {
                    id: project_id.clone(),
                    device_id: device_id.clone(),
                    path: path.clone(),
                    display_name,
                    git_detected: git,
                    created_at: now,
                },
            );
        }
        let request: Request = Request::new(Method::Mutate).with_text(
            "op",
            "createProject",
        ).with_text("projectId", project_id.as_str()).with_text(
            "deviceId",
            device_id.as_str(),
        ).with_text("path", path.as_str()).with("gitDetected", Value::Bool(git));
        Submitted::Creating { project_id, request }
    }

    /// Chooses the folder that the palette shows, under fresh ids and at the
    /// time of day.
    pub fn submit_add_project(&mut self, state: &mut AppState) -> (r: Submitted)
        requires
            old(self).wf(),
            old(state).echoes.wf(),
        ensures
            final(self).wf(),
            final(state).echoes.wf(),
            old(state).wf() ==> final(state).wf(),
            exists|project_id: String, chat_id: String, now: i64|
                is_fresh_id(project_id@) && is_fresh_id(chat_id@) && #[trigger] submitted(
                    *old(self),
                    *old(state),
                    *final(self),
                    *final(state),
                    r,
                    project_id,
                    chat_id,
                    now,
                ),
    {
        let project_id: String = mint_id();
        let chat_id: String = mint_id();
        let now: i64 = utc_now();
        self.submit_add_project_with(state, project_id, chat_id, now)
    }

    /// The reply to making a project, under the given id for its first chat.
    pub fn on_project_created_with(
        &mut self,
        state: &mut AppState,
        project_id: String,
        chat_id: String,
        error: Option<String>,
        now: i64,
    ) -> (r: (Vec<Effect>, Option<CreateSession>))
        requires
            old(self).wf(),
            old(state).echoes.wf(),
        ensures
            final(self).wf(),
            final(state).echoes.wf(),
            old(state).wf() ==> final(state).wf(),
            project_made(
                *old(self),
                *old(state),
                *final(self),
                *final(state),
                r,
                project_id,
                chat_id,
                error,
                now,
            ),
    {
        match error {
            None => {
                self.add_project = None;
                let out: Vec<Effect> = self.activate_project(state, project_id.clone(), now);
                let session: Option<CreateSession> = self.create_session_with(
                    state,
                    chat_id,
                    project_id.as_str(),
                );
                (out, session)
            },
            Some(e) => {
                drop_project(&mut state.projects, project_id.as_str());
                match &mut self.add_project {
                    None => {},
                    Some(f) => {
                        f.submit_busy = false;
                        f.error = Some(e);
                    },
                }
                (Vec::new(), None)
            },
        }
    }

    /// The reply to making a project; its first chat gets a fresh id.
    pub fn on_project_created(
        &mut self,
        state: &mut AppState,
        project_id: String,
        error: Option<String>,
    ) -> (r: (Vec<Effect>, Option<CreateSession>))
        requires
            old(self).wf(),
            old(state).echoes.wf(),
        ensures
            final(self).wf(),
            final(state).echoes.wf(),
            old(state).wf() ==> final(state).wf(),
            exists|chat_id: String, now: i64|
                is_fresh_id(chat_id@) && #[trigger] project_made(
                    *old(self),
                    *old(state),
                    *final(self),
                    *final(state),
                    r,
                    project_id,
                    chat_id,
                    error,
                    now,
                ),
    {
        let chat_id: String = mint_id();
        let now: i64 = utc_now();
        self.on_project_created_with(state, project_id, chat_id, error, now)
    }
}

fn drop_project(projects: &mut Vec<Project>, id: &str)
    ensures
        final(projects)@ == kept(old(projects)@, other_project(id@)),
{
    let ghost before = projects@;
    let ghost p = other_project(id@);
    let mut i: usize = 0;
    let ghost mut done: int = 0;
    assert(before.take(0) =~= Seq::<Project>::empty());
    assert(before.skip(0) =~= before);
    assert(Seq::<Project>::empty() + before =~= before);
    while i < projects.len()
        invariant
            p == other_project(id@),
            0 <= done <= before.len(),
            i == kept(before.take(done), p).len(),
            projects@ == kept(before.take(done), p) + before.skip(done),
        decreases before.len() - done,
    {
        assert(projects@[i as int] == before[done]);
        proof {
            kept_step(before, p, done);
        }
        if same(projects[i].id.as_str(), id) {
            projects.remove(i);
        } else {
            i += 1;
        }
        proof {
            assert(projects@ =~= kept(before.take(done + 1), p) + before.skip(done + 1));
            done = done + 1;
        }
    }
    proof {
        assert(done == before.len());
        assert(before.take(done) =~= before);
        assert(projects@ =~= kept(before, p));
    }
}

/// A project that could not be made leaves no trace in the list.
pub proof fn a_failed_project_leaves_no_trace(projects: Seq<Project>, row: Project)
    requires
        forall|i: int| 0 <= i < projects.len() ==> (#[trigger] projects[i]).id@ != row.id@,
    ensures
        kept(projects.push(row), other_project(row.id@)) == projects,
{
    let all = projects.push(row);
    assert(all.drop_last() =~= projects);
    keeps_all(projects, row.id@);
}

proof fn keeps_all(projects: Seq<Project>, id: Seq<char>)
    requires
        forall|i: int| 0 <= i < projects.len() ==> (#[trigger] projects[i]).id@ != id,
    ensures
        kept(projects, other_project(id)) == projects,
    decreases projects.len(),
{
    if projects.len() > 0 {
        keeps_all(projects.drop_last(), id);
        assert(projects.last().id@ != id);
        assert(projects.drop_last().push(projects.last()) =~= projects);
    }
}

/// The folders of a palette.
pub open spec fn folders_of(f: Option<CreateProjectFlow>) -> Seq<FolderEntry> {
    match f {
        Some(f) => match f.browser {
            Loadable::Ready(l) => l.folders@,
            _ => Seq::empty(),
        },
        None => Seq::empty(),
    }
}

/// The folders at some indices; an index out of range names none.
pub open spec fn picked(folders: Seq<FolderEntry>, matches: Seq<usize>) -> Seq<FolderEntry>
    decreases matches.len(),
{
    if matches.len() == 0 {
        Seq::empty()
    } else if matches.last() < folders.len() {
        picked(folders, matches.drop_last()).push(folders[matches.last() as int])
    } else {
        picked(folders, matches.drop_last())
    }
}

/// The indices of the first `n` folders whose names hold a query, whatever the case
/// of either; a blank query is held by every name.
pub open spec fn matching(folders: Seq<FolderEntry>, query: Seq<char>, n: int) -> Seq<usize>
    decreases n,
{
    if n <= 0 {
        Seq::empty()
    } else if occurs_in(lowercase(folders[n - 1].name@), lowercase(trimmed(query))) {
        matching(folders, query, n - 1).push((n - 1) as usize)
    } else {
        matching(folders, query, n - 1)
    }
}

/// A palette that went into a folder.
pub open spec fn descended(
    f: CreateProjectFlow,
    path: String,
    repo: bool,
    now: CreateProjectFlow,
    engine: bool,
) -> bool {
    &&& now.query@.len() == 0
    &&& if engine {
        now == (CreateProjectFlow {
            browser_repo: repo,
            query: now.query,
            browser_path: Some(path),
            browser: Loadable::Loading,
            active: 0,
            ..f
        })
    } else {
        now == (CreateProjectFlow { browser_repo: repo, query: now.query, ..f })
    }
}

/// The parent of the folder that a palette shows.
pub open spec fn parent_of(f: Option<CreateProjectFlow>) -> Option<String> {
    match f {
        Some(f) => match f.browser {
            Loadable::Ready(l) => l.parent,
            _ => None,
        },
        None => None,
    }
}

/// A palette that went to another folder, of which it is not known whether it
/// is a repository.
pub open spec fn jumped(
    before: Shell,
    after: Shell,
    r: Option<Request>,
    path: Option<String>,
    engine: bool,
) -> bool {
    match before.add_project {
        None => r is None && after == before,
        Some(f) => {
            let there = CreateProjectFlow { browser_repo: false, ..f };
            &&& after == (Shell {
                add_project: Some(
                    if engine {
                        CreateProjectFlow {
                            browser_path: path,
                            browser: Loadable::Loading,
                            active: 0,
                            ..there
                        }
                    } else {
                        there
                    },
                ),
                ..before
            })
            &&& asks(
                r,
                if engine {
                    Some(list_call(opt(path)))
                } else {
                    None
                },
            )
        },
    }
}

/// The keys of a menu.
#[derive(Debug, Clone, Copy, PartialEq, Eq, Structural)]
pub enum MenuKey {
    Up,
    Down,
    Enter,
    ModEnter,
    Escape,
    Backspace,
    Other,
}

/// What a key does in the palette.
#[derive(Debug, Clone, Copy, PartialEq, Eq, Structural)]
pub enum PaletteAction {
    /// Go into the highlighted folder.
    Open,
    /// Go to the parent folder.
    GoUp,
    Close,
    /// Move the highlight by one, up or down.
    Step { down: bool },
    /// Choose the folder shown.
    Submit,
    Ignore,
}

/// What a key does in the palette: the arrows to the sides are about folders,
/// not about the text.
pub open spec fn palette_action(key: Seq<char>, menu: MenuKey, query_empty: bool) -> PaletteAction {
    if key == "right"@ {
        PaletteAction::Open
    } else if key == "left"@ {
        PaletteAction::GoUp
    } else {
        match menu {
            MenuKey::Escape => PaletteAction::Close,
            MenuKey::Up => PaletteAction::Step { down: false },
            MenuKey::Down => PaletteAction::Step { down: true },
            MenuKey::Enter | MenuKey::ModEnter => PaletteAction::Submit,
            MenuKey::Backspace => if query_empty {
                PaletteAction::GoUp
            } else {
                PaletteAction::Ignore
            },
            MenuKey::Other => PaletteAction::Ignore,
        }
    }
}

/// The drag of a project row over a slot; a drag of another row starts anew.
pub open spec fn row_dragged(d: Option<DragState>, from: usize, over: usize) -> DragState {
    match d {
        Some(d) if d.from == from => if d.over == over {
            d
        } else {
            DragState { from, over, epoch: (d.epoch + 1) as usize, prev_over: d.over }
        },
        _ => DragState { from, over, epoch: 0, prev_over: from },
    }
}

impl Shell {
    /// The folders of the palette that match its query: those at `matches`.
    pub fn add_project_filtered(&self, matches: &Vec<usize>) -> (r: Vec<&FolderEntry>)
        ensures
            r@.map_values(|e: &FolderEntry| *e) == picked(
                folders_of(self.add_project),
                matches@,
            ),
    {
        let mut r: Vec<&FolderEntry> = Vec::new();
        let ghost f = |e: &FolderEntry| *e;
        let ghost folders = folders_of(self.add_project);
        assert(matches@.take(0) =~= Seq::<usize>::empty());
        assert(r@.map_values(f) =~= Seq::<FolderEntry>::empty());
        match &self.add_project {
            Some(flow) => match &flow.browser {
                Loadable::Ready(l) => {
                    let mut i: usize = 0;
                    while i < matches.len()
                        invariant
                            i <= matches@.len(),
                            f == (|e: &FolderEntry| *e),
                            folders == l.folders@,
                            r@.map_values(f) == picked(folders, matches@.take(i as int)),
                        decreases matches@.len() - i,
                    {
                        proof {
                            assert(matches@.take(i + 1).drop_last() =~= matches@.take(i as int));
                            assert(matches@.take(i + 1).last() == matches@[i as int]);
                        }
                        if matches[i] < l.folders.len() {
                            let ghost had = r@;
                            r.push(&l.folders[matches[i]]);
                            proof {
                                let e = folders[matches@[i as int] as int];
                                assert(f(&e) == e);
                                assert(r@.map_values(f) =~= had.map_values(f).push(e));
                            }
                        }
                        i += 1;
                    }
                    assert(matches@.take(i as int) =~= matches@);
                    return r;
                },
                _ => {},
            },
            None => {},
        }
        proof {
            picked_of_nothing(matches@);
        }
        r
    }

    /// Goes into a folder.
    pub fn add_project_descend(&mut self, state: &AppState, full: String, is_repo: bool) -> (r:
        Option<Request>)
        requires
            old(self).wf(),
        ensures
            final(self).wf(),
            *final(self) == (Shell { add_project: final(self).add_project, ..*old(self) }),
            match old(self).add_project {
                None => final(self).add_project is None && r is None,
                Some(f) => {
                    &&& final(self).add_project matches Some(now) && descended(
                        f,
                        full,
                        is_repo,
                        now,
                        state.engine is Some,
                    )
                    &&& asks(
                        r,
                        if state.engine is Some {
                            Some(list_call(Some(full@)))
                        } else {
                            None
                        },
                    )
                },
            },
    {
        match &mut self.add_project {
            None => {
                return None;
            },
            Some(flow) => {
                flow.browser_repo = is_repo;
                flow.query = String::new();
            },
        }
        self.load_project_folders(state, Some(full))
    }

    /// The indices of the folders that match what was typed. That a match is an
    /// occurrence in the name, and keeps the list's order, is a choice.
    pub fn add_project_matches(&self) -> (r: Vec<usize>)
        ensures
            ({
                let folders = folders_of(self.add_project);
                let query = match self.add_project {
                    Some(f) => f.query@,
                    None => Seq::empty(),
                };
                r@ == matching(folders, query, folders.len() as int)
            }),
    {
        let mut r: Vec<usize> = Vec::new();
        if let Some(f) = &self.add_project {
            if let Loadable::Ready(l) = &f.browser {
                let typed: String = trim(f.query.as_str());
                let needle: String = to_lower(typed.as_str());
                let mut i: usize = 0;
                while i < l.folders.len()
                    invariant
                        i <= l.folders@.len(),
                        needle@ == lowercase(trimmed(f.query@)),
                        r@ == matching(l.folders@, f.query@, i as int),
                    decreases l.folders@.len() - i,
                {
                    if contains(to_lower(l.folders[i].name.as_str()).as_str(), needle.as_str()) {
                        r.push(i);
                    }
                    i += 1;
                }
            }
        }
        r
    }

    /// Goes into the highlighted one of the folders at `matches`.
    pub fn add_project_open_active(&mut self, state: &AppState, matches: &Vec<usize>) -> (r: Option<
        Request,
    >)
        requires
            old(self).wf(),
        ensures
            final(self).wf(),
            ({
                let rows = picked(folders_of(old(self).add_project), matches@);
                match old(self).add_project {
                    Some(f) if f.active < rows.len() => {
                        let entry = rows[f.active as int];
                        &&& final(self).add_project matches Some(now) && descended(
                            f,
                            entry.full_path,
                            entry.is_repo,
                            now,
                            state.engine is Some,
                        )
                        &&& *final(self) == (Shell {
                            add_project: final(self).add_project,
                            ..*old(self)
                        })
                        &&& asks(
                            r,
                            if state.engine is Some {
                                Some(list_call(Some(entry.full_path@)))
                            } else {
                                None
                            },
                        )
                    },
                    _ => r is None && *final(self) == *old(self),
                }
            }),
    {
        let active: usize = match &self.add_project {
            None => {
                return None;
            },
            Some(f) => f.active,
        };
        let (full, is_repo): (String, bool) = {
            let rows: Vec<&FolderEntry> = self.add_project_filtered(matches);
            let ghost f = |e: &FolderEntry| *e;
            assert(rows@.map_values(f).len() == rows@.len());
            if active >= rows.len() {
                return None;
            }
            assert(rows@.map_values(f)[active as int] == *rows@[active as int]);
            (rows[active].full_path.clone(), rows[active].is_repo)
        };
        self.add_project_descend(state, full, is_repo)
    }

    /// Goes to a folder on the way to the one shown, or to the home folder.
    pub fn add_project_jump(&mut self, state: &AppState, path: Option<String>) -> (r: Option<
        Request,
    >)
        requires
            old(self).wf(),
        ensures
            final(self).wf(),
            jumped(*old(self), *final(self), r, path, state.engine is Some),
    {
        match &mut self.add_project {
            None => {
                return None;
            },
            Some(flow) => {
                flow.browser_repo = false;
            },
        }
        self.load_project_folders(state, path)
    }

    /// Goes to the parent of the folder shown.
    pub fn add_project_go_up(&mut self, state: &AppState) -> (r: Option<Request>)
        requires
            old(self).wf(),
        ensures
            final(self).wf(),
            match parent_of(old(self).add_project) {
                None => r is None && *final(self) == *old(self),
                Some(path) => jumped(
                    *old(self),
                    *final(self),
                    r,
                    Some(path),
                    state.engine is Some,
                ),
            },
    {
        let parent: Option<String> = match &self.add_project {
            Some(f) => match &f.browser {
                Loadable::Ready(l) => copy_opt(&l.parent),
                _ => None,
            },
            None => None,
        };
        match parent {
            None => None,
            Some(path) => self.add_project_jump(state, Some(path)),
        }
    }

    /// Asks again for the folder that could not be had.
    pub fn add_project_retry(&mut self, state: &AppState) -> (r: Option<Request>)
        requires
            old(self).wf(),
        ensures
            final(self).wf(),
            match old(self).add_project {
                Some(f) if state.engine is Some => {
                    &&& *final(self) == (Shell {
                        add_project: Some(
                            CreateProjectFlow { browser: Loadable::Loading, active: 0, ..f },
                        ),
                        ..*old(self)
                    })
                    &&& asks(r, Some(list_call(opt(f.browser_path))))
                },
                _ => r is None && *final(self) == *old(self),
            },
    {
        let path: Option<String> = match &self.add_project {
            Some(f) => copy_opt(&f.browser_path),
            None => None,
        };
        self.load_project_folders(state, path)
    }

    /// What a key does in the palette.
    pub fn add_project_key(&self, key: &str, menu: MenuKey) -> (a: PaletteAction)
        ensures
            a == palette_action(
                key@,
                menu,
                match self.add_project {
                    Some(f) => f.query@.len() == 0,
                    None => false,
                },
            ),
    {
        if same(key, "right") {
            return PaletteAction::Open;
        }
        if same(key, "left") {
            return PaletteAction::GoUp;
        }
        match menu {
            MenuKey::Escape => PaletteAction::Close,
            MenuKey::Up => PaletteAction::Step { down: false },
            MenuKey::Down => PaletteAction::Step { down: true },
            MenuKey::Enter | MenuKey::ModEnter => PaletteAction::Submit,
            MenuKey::Backspace => {
                let empty: bool = match &self.add_project {
                    Some(f) => f.query.as_str().is_empty(),
                    None => false,
                };
                if empty {
                    PaletteAction::GoUp
                } else {
                    PaletteAction::Ignore
                }
            },
            MenuKey::Other => PaletteAction::Ignore,
        }
    }

    /// The highlight moved; without a row to stand on it is on the first.
    pub fn add_project_step(&mut self, to: Option<usize>)
        requires
            old(self).wf(),
        ensures
            final(self).wf(),
            *final(self) == (Shell {
                add_project: match old(self).add_project {
                    Some(f) => Some(
                        CreateProjectFlow {
                            active: match to {
                                Some(i) => i,
                                None => 0,
                            },
                            ..f
                        },
                    ),
                    None => None,
                },
                ..*old(self)
            }),
    {
        match &mut self.add_project {
            None => {},
            Some(flow) => {
                flow.active = match to {
                    Some(i) => i,
                    None => 0,
                };
            },
        }
    }

    /// The query changed: the highlight goes back to the first row.
    pub fn add_project_query(&mut self, query: String)
        requires
            old(self).wf(),
        ensures
            final(self).wf(),
            *final(self) == (Shell {
                add_project: match old(self).add_project {
                    Some(f) => Some(CreateProjectFlow { query, active: 0, ..f }),
                    None => None,
                },
                ..*old(self)
            }),
    {
        match &mut self.add_project {
            None => {},
            Some(flow) => {
                flow.query = query;
                flow.active = 0;
            },
        }
    }

    /// Closes the palette.
    pub fn close_add_project(&mut self)
        requires
            old(self).wf(),
        ensures
            final(self).wf(),
            *final(self) == (Shell { add_project: None, ..*old(self) }),
    {
        self.add_project = None;
    }

    /// Opens the dialog that renames a project, with the name that it has.
    pub fn open_rename_project(&mut self, state: &AppState, project_id: String)
        requires
            old(self).wf(),
        ensures
            final(self).wf(),
            ({
                let i = project_ix(state.projects@, project_id@);
                &&& final(self).rename_project_dialog matches Some(d) && d.project_id == project_id
                    && d.text@ == (match at(state.projects@, i) {
                    Some(p) => p.display_name@,
                    None => Seq::empty(),
                })
                &&& *final(self) == (Shell {
                    project_menu: None,
                    rename_project_dialog: final(self).rename_project_dialog,
                    ..*old(self)
                })
            }),
    {
        self.project_menu = None;
        let text: String = match state.project_row(project_id.as_str()) {
            Some(p) => p.display_name.clone(),
            None => String::new(),
        };
        self.rename_project_dialog = Some(RenameProjectDialog { project_id, text });
    }

    /// Renames the project of the dialog, unless nothing was written.
    pub fn submit_rename_project(&mut self) -> (r: Option<Request>)
        requires
            old(self).wf(),
        ensures
            final(self).wf(),
            *final(self) == (Shell { rename_project_dialog: None, ..*old(self) }),
            asks(
                r,
                match old(self).rename_project_dialog {
                    Some(d) if trimmed(d.text@).len() > 0 => Some(
                        rename_call(d.project_id@, trimmed(d.text@)),
                    ),
                    _ => None,
                },
            ),
    {
        let dialog: Option<RenameProjectDialog> = self.rename_project_dialog.take();
        match dialog {
            None => None,
            Some(d) => {
                let name: String = trim(d.text.as_str());
                if name.as_str().is_empty() {
                    None
                } else {
                    Some(
                        Request::new(Method::Mutate).with_text("op", "renameProject").with_text(
                            "projectId",
                            d.project_id.as_str(),
                        ).with_text("name", name.as_str()),
                    )
                }
            },
        }
    }

    /// Asks whether to remove a project.
    pub fn confirm_delete(&mut self, project_id: String)
        requires
            old(self).wf(),
        ensures
            final(self).wf(),
            *final(self) == (Shell {
                project_menu: None,
                delete_project_confirm: Some(project_id),
                ..*old(self)
            }),
    {
        self.project_menu = None;
        self.delete_project_confirm = Some(project_id);
    }

    /// Removes a project.
    pub fn delete_project(&mut self, project_id: &str) -> (r: Request)
        requires
            old(self).wf(),
        ensures
            final(self).wf(),
            *final(self) == (Shell { delete_project_confirm: None, ..*old(self) }),
            r@ == delete_call(project_id@),
    {
        self.delete_project_confirm = None;
        Request::new(Method::Mutate).with_text("op", "deleteProject").with_text(
            "projectId",
            project_id,
        )
    }

    /// A project row is dragged over a slot. The result tells whether the slides
    /// start anew.
    pub fn update_project_drag_over(&mut self, from: usize, over: usize) -> (changed: bool)
        requires
            old(self).wf(),
            old(self).project_drag is Some ==> old(self).project_drag->0.epoch < usize::MAX,
        ensures
            final(self).wf(),
            *final(self) == (Shell {
                project_drag: Some(row_dragged(old(self).project_drag, from, over)),
                ..*old(self)
            }),
            changed == !(old(self).project_drag matches Some(d) && d.from == from && d.over == over),
    {
        let (next, changed): (DragState, bool) = match self.project_drag {
            Some(d) => if d.from != from {
                (DragState { from, over, epoch: 0, prev_over: from }, true)
            } else if d.over == over {
                (d, false)
            } else {
                (DragState { from, over, epoch: d.epoch + 1, prev_over: d.over }, true)
            },
            None => (DragState { from, over, epoch: 0, prev_over: from }, true),
        };
        self.project_drag = Some(next);
        changed
    }

    /// The pointer carries a project row over the list of `count` rows.
    pub fn project_drag_over(&mut self, from: usize, rel: i64, count: usize) -> (changed: bool)
        requires
            old(self).wf(),
            old(self).project_drag is Some ==> old(self).project_drag->0.epoch < usize::MAX,
        ensures
            final(self).wf(),
            *final(self) == (Shell {
                project_drag: Some(
                    row_dragged(
                        old(self).project_drag,
                        from,
                        slot_at(rel as int, PROJECT_ROW_SLOT as int, count as int) as usize,
                    ),
                ),
                ..*old(self)
            }),
            changed == (final(self).project_drag != old(self).project_drag),
    {
        let over: usize = drop_index(rel, PROJECT_ROW_SLOT, count);
        self.update_project_drag_over(from, over)
    }

    /// Keeps the order that a drag made of `order`, which is the order shown.
    /// The result tells whether there is anything to save.
    pub fn commit_project_reorder(&mut self, order: Vec<String>, from: usize, to: usize) -> (save:
        bool)
        requires
            old(self).wf(),
        ensures
            final(self).wf(),
            save == (from < order@.len()),
            save ==> final(self).project_order@ == moved(order@, from as int, to as int),
            !save ==> final(self).project_order == old(self).project_order,
            *final(self) == (Shell {
                project_order: final(self).project_order,
                project_drag: None,
                ..*old(self)
            }),
    {
        let mut order: Vec<String> = order;
        let save: bool = from < order.len();
        if save {
            reorder_tabs(&mut order, from, to);
            self.project_order = order;
        }
        self.project_drag = None;
        save
    }

    /// Opens the menu of a project.
    pub fn open_project_menu(&mut self, project_id: String)
        requires
            old(self).wf(),
        ensures
            final(self).wf(),
            *final(self) == (Shell { project_menu: Some(project_id), ..*old(self) }),
    {
        self.project_menu = Some(project_id);
    }

    /// Closes the menu of a project.
    pub fn close_project_menu(&mut self)
        requires
            old(self).wf(),
        ensures
            final(self).wf(),
            *final(self) == (Shell { project_menu: None, ..*old(self) }),
    {
        self.project_menu = None;
    }

    /// Closes the dialog that renames a project.
    pub fn cancel_rename(&mut self)
        requires
            old(self).wf(),
        ensures
            final(self).wf(),
            *final(self) == (Shell { rename_project_dialog: None, ..*old(self) }),
    {
        self.rename_project_dialog = None;
    }

    /// Closes the dialog that removes a project.
    pub fn cancel_delete(&mut self)
        requires
            old(self).wf(),
        ensures
            final(self).wf(),
            *final(self) == (Shell { delete_project_confirm: None, ..*old(self) }),
    {
        self.delete_project_confirm = None;
    }

    /// A project row is dropped.
    pub fn drop_project_row(&mut self, order: Vec<String>, from: usize) -> (save: bool)
        requires
            old(self).wf(),
        ensures
            final(self).wf(),
            save == (from < order@.len()),
            save ==> final(self).project_order@ == moved(
                order@,
                from as int,
                match old(self).project_drag {
                    Some(d) => d.over as int,
                    None => from as int,
                },
            ),
            !save ==> final(self).project_order == old(self).project_order,
            *final(self) == (Shell {
                project_order: final(self).project_order,
                project_drag: None,
                ..*old(self)
            }),
    {
        let to: usize = match self.project_drag {
            Some(d) => d.over,
            None => from,
        };
        self.commit_project_reorder(order, from, to)
    }
}

proof fn picked_of_nothing(matches: Seq<usize>)
    ensures
        picked(Seq::<FolderEntry>::empty(), matches) == Seq::<FolderEntry>::empty(),
    decreases matches.len(),
{
    if matches.len() > 0 {
        picked_of_nothing(matches.drop_last());
    }
}

}
