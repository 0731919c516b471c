//! What the projects sidebar and its overlays show.
use vstd::prelude::*;
use vstd::string::*;

use crate::ids::utc_now;
use crate::proto::{
    format_time_ago, status_of, time_ago, trimmed_or_none, Chat, ChatIndicator, HarnessId, Project,
};
use crate::shell::projects::{
    folders_of, picked, Crumb, CreateProjectFlow, FolderEntry, FolderListing, Loadable, Shell,
};
use crate::state::{at, project_ix, AppState};
use crate::terminal::panel::{place_of, DragState, TabPlace};
use crate::terminal::tabs::slide_offset;
use crate::text::{
    chars_of, decimal, decimal_text, occurs_at, one_line, same, single_line, starts_with, trimmed,
};
use crate::theme::{hairline_lightness, Paint, SchemeMirror, Theme, WHOLE};
use crate::wire::{copy_opt, is_text, opt, texts};

verus! {

/// How urgent the live states are: the smaller, the more urgent.
#[derive(Debug, Clone, Copy, PartialEq, Eq, Structural)]
pub struct AttentionRanks {
    pub working: u32,
    pub awaiting: u32,
}

/// Whether a status is live.
pub open spec fn is_live_status(s: ChatIndicator) -> bool {
    s == ChatIndicator::Working || s == ChatIndicator::AwaitingInput
}

/// How urgent a live status is.
pub open spec fn urgency(ranks: AttentionRanks, s: ChatIndicator) -> u32 {
    if s == ChatIndicator::Working {
        ranks.working
    } else {
        ranks.awaiting
    }
}

/// The most urgent live status among the chats of a project; of two that are
/// equally urgent, the first.
pub open spec fn attention(
    state: &AppState,
    chats: Seq<Chat>,
    project: Seq<char>,
    now: int,
    ranks: AttentionRanks,
) -> Option<ChatIndicator>
    decreases chats.len(),
{
    if chats.len() == 0 {
        None
    } else {
        let before = attention(state, chats.drop_last(), project, now, ranks);
        let c = chats.last();
        let s = status_of(c, state.session_of(c.id@), now);
        if c.archived || !c.in_project(project) || !is_live_status(s) {
            before
        } else {
            match before {
                None => Some(s),
                Some(held) => if urgency(ranks, s) < urgency(ranks, held) {
                    Some(s)
                } else {
                    Some(held)
                },
            }
        }
    }
}

/// The most urgent live status among the chats of a project.
pub fn project_attention(state: &AppState, project: &str, now: i64, ranks: AttentionRanks) -> (r:
    Option<ChatIndicator>)
    ensures
        r == attention(state, state.chats@, project@, now as int, ranks),
{
    let mut held: Option<ChatIndicator> = None;
    let mut i: usize = 0;
    assert(state.chats@.take(0) =~= Seq::<Chat>::empty());
    while i < state.chats.len()
        invariant
            i <= state.chats@.len(),
            held == attention(state, state.chats@.take(i as int), project@, now as int, ranks),
            held is Some ==> is_live_status(held->0),
        decreases state.chats@.len() - i,
    {
        let c: &Chat = &state.chats[i];
        proof {
            assert(state.chats@.take(i + 1).drop_last() =~= state.chats@.take(i as int));
            assert(state.chats@.take(i + 1).last() == *c);
        }
        let status: ChatIndicator = state.display_status_for(c, now);
        let live: bool = match status {
            ChatIndicator::Working | ChatIndicator::AwaitingInput => true,
            _ => false,
        };
        if !c.archived && is_text(&c.project_id, project) && live {
            held = match held {
                None => Some(status),
                Some(h) => {
                    let mine: u32 = rank(ranks, status);
                    let theirs: u32 = rank(ranks, h);
                    if mine < theirs {
                        Some(status)
                    } else {
                        Some(h)
                    }
                },
            };
        }
        i += 1;
    }
    assert(state.chats@.take(i as int) =~= state.chats@);
    held
}

fn rank(ranks: AttentionRanks, s: ChatIndicator) -> (r: u32)
    ensures
        r == urgency(ranks, s),
{
    match s {
        ChatIndicator::Working => ranks.working,
        _ => ranks.awaiting,
    }
}

/// A project shows a dot exactly when one of its chats is live, and no live
/// chat of it is more urgent than the dot.
pub proof fn the_dot_is_the_most_urgent(
    state: &AppState,
    chats: Seq<Chat>,
    project: Seq<char>,
    now: int,
    ranks: AttentionRanks,
    i: int,
)
    requires
        0 <= i < chats.len(),
        !chats[i].archived,
        chats[i].in_project(project),
        is_live_status(status_of(chats[i], state.session_of(chats[i].id@), now)),
    ensures
        attention(state, chats, project, now, ranks) is Some,
        urgency(ranks, attention(state, chats, project, now, ranks)->0) <= urgency(
            ranks,
            status_of(chats[i], state.session_of(chats[i].id@), now),
        ),
    decreases chats.len(),
{
    if i < chats.len() - 1 {
        the_dot_is_the_most_urgent(state, chats.drop_last(), project, now, ranks, i);
    }
}

/// The last project with an id: its index, or minus one.
pub open spec fn last_project(projects: Seq<Project>, id: Seq<char>) -> int
    decreases projects.len(),
{
    if projects.len() == 0 {
        -1
    } else if projects.last().id@ == id {
        projects.len() - 1
    } else {
        last_project(projects.drop_last(), id)
    }
}

/// The projects in a given order of ids: each once, and none that the order does
/// not name.
pub open spec fn arranged(projects: Seq<Project>, order: Seq<Seq<char>>) -> Seq<Project>
    decreases order.len(),
{
    if order.len() == 0 {
        Seq::empty()
    } else {
        let before = arranged(projects, order.drop_last());
        let i = last_project(projects, order.last());
        if order.drop_last().contains(order.last()) || i < 0 {
            before
        } else {
            before.push(projects[i])
        }
    }
}

proof fn last_project_found(projects: Seq<Project>, id: Seq<char>)
    ensures
        -1 <= last_project(projects, id) < projects.len(),
        last_project(projects, id) >= 0 ==> projects[last_project(projects, id)].id@ == id,
        last_project(projects, id) < 0 ==> forall|i: int|
            0 <= i < projects.len() ==> (#[trigger] projects[i]).id@ != id,
    decreases projects.len(),
{
    if projects.len() > 0 && projects.last().id@ != id {
        last_project_found(projects.drop_last(), id);
        if last_project(projects, id) < 0 {
            assert forall|i: int| 0 <= i < projects.len() implies (#[trigger] projects[i]).id@
                != id by {
                if i < projects.len() - 1 {
                    assert(projects.drop_last()[i].id@ != id);
                }
            }
        }
    }
}

/// The list shows every project that the order names, each once and no other,
/// so an order that names them all hides none.
pub proof fn every_named_project_is_shown_once(
    projects: Seq<Project>,
    order: Seq<Seq<char>>,
    id: Seq<char>,
)
    ensures
        ({
            let rows = arranged(projects, order);
            &&& (exists|k: int| 0 <= k < rows.len() && (#[trigger] rows[k]).id@ == id)
                <==> order.contains(id) && last_project(projects, id) >= 0
            &&& forall|a: int, b: int|
                0 <= a < rows.len() && 0 <= b < rows.len() && (#[trigger] rows[a]).id@ == id && (
                #[trigger] rows[b]).id@ == id ==> a == b
        }),
    decreases order.len(),
{
    if order.len() > 0 {
        let init = order.drop_last();
        let before = arranged(projects, init);
        let rows = arranged(projects, order);
        let i = last_project(projects, order.last());
        every_named_project_is_shown_once(projects, init, id);
        last_project_found(projects, order.last());
        assert(order =~= init.push(order.last()));
        assert(order.contains(id) <==> init.contains(id) || order.last() == id) by {
            if order.contains(id) {
                let k = choose|k: int| 0 <= k < order.len() && order[k] == id;
                if k < init.len() {
                    assert(init[k] == id);
                }
            }
            if init.contains(id) {
                let k = choose|k: int| 0 <= k < init.len() && init[k] == id;
                assert(order[k] == id);
            }
            if order.last() == id {
                assert(order[order.len() - 1] == id);
            }
        }
        if !init.contains(order.last()) && i >= 0 {
            assert(rows[before.len() as int].id@ == order.last());
            if exists|k: int| 0 <= k < before.len() && (#[trigger] before[k]).id@ == id {
                let k = choose|k: int| 0 <= k < before.len() && (#[trigger] before[k]).id@ == id;
                assert(rows[k].id@ == id);
            }
            assert forall|a: int, b: int|
                0 <= a < rows.len() && 0 <= b < rows.len() && (#[trigger] rows[a]).id@ == id && (
                #[trigger] rows[b]).id@ == id implies a == b by {
                if a < before.len() {
                    assert(before[a].id@ == id);
                }
                if b < before.len() {
                    assert(before[b].id@ == id);
                }
            }
        }
    }
}

fn find_last(projects: &Vec<Project>, id: &str) -> (r: Option<usize>)
    ensures
        match r {
            Some(i) => last_project(projects@, id@) == i && i < projects@.len(),
            None => last_project(projects@, id@) == -1,
        },
{
    let mut n: usize = projects.len();
    assert(projects@.take(n as int) =~= projects@);
    while n > 0
        invariant
            n <= projects@.len(),
            last_project(projects@, id@) == last_project(projects@.take(n as int), id@),
        decreases n,
    {
        assert(projects@.take(n as int).drop_last() =~= projects@.take(n - 1));
        assert(projects@.take(n as int).last() == projects@[n - 1]);
        if same(projects[n - 1].id.as_str(), id) {
            return Some(n - 1);
        }
        n -= 1;
    }
    None
}

/// A row of the projects list.
#[derive(Debug)]
pub struct ProjectRow {
    pub id: String,
    pub name: String,
    pub selected: bool,
    pub attention: Option<ChatIndicator>,
    pub place: TabPlace,
}

/// What a row of the projects list shows.
pub ghost struct ProjectRowView {
    pub id: Seq<char>,
    pub name: Seq<char>,
    pub selected: bool,
    pub attention: Option<ChatIndicator>,
    pub place: TabPlace,
}

impl View for ProjectRow {
    type V = ProjectRowView;

    open spec fn view(&self) -> ProjectRowView {
        ProjectRowView {
            id: self.id@,
            name: self.name@,
            selected: self.selected,
            attention: self.attention,
            place: self.place,
        }
    }
}

/// What the row of a project shows in slot `i`.
pub open spec fn project_row_view(
    state: &AppState,
    p: Project,
    i: int,
    drag: Option<DragState>,
    now: int,
    ranks: AttentionRanks,
) -> ProjectRowView {
    ProjectRowView {
        id: p.id@,
        name: p.display_name@,
        selected: opt(state.selected_project) == Some(p.id@),
        attention: attention(state, state.chats@, p.id@, now, ranks),
        place: place_of(drag, i),
    }
}

/// A row of the Sessions list.
#[derive(Debug)]
pub struct SessionRow {
    pub id: String,
    pub title: String,
    pub time_ago: String,
    pub folder: String,
    pub branch: Option<String>,
    pub last_command: Option<String>,
    pub harness: Option<HarnessId>,
    pub status: ChatIndicator,
    pub selected: bool,
}

/// What a row of the Sessions list shows.
pub ghost struct SessionRowView {
    pub id: Seq<char>,
    pub title: Seq<char>,
    pub time_ago: Seq<char>,
    pub folder: Seq<char>,
    pub branch: Option<Seq<char>>,
    pub last_command: Option<Seq<char>>,
    pub harness: Option<HarnessId>,
    pub status: ChatIndicator,
    pub selected: bool,
}

impl View for SessionRow {
    type V = SessionRowView;

    open spec fn view(&self) -> SessionRowView {
        SessionRowView {
            id: self.id@,
            title: self.title@,
            time_ago: self.time_ago@,
            folder: self.folder@,
            branch: opt(self.branch),
            last_command: opt(self.last_command),
            harness: self.harness,
            status: self.status,
            selected: self.selected,
        }
    }
}

/// What the row of a chat shows.
pub open spec fn session_row_view(
    state: &AppState,
    row: (ChatIndicator, Chat),
    now: int,
) -> SessionRowView {
    let c = row.1;
    SessionRowView {
        id: c.id@,
        title: one_line(
            match c.title {
                Some(t) => t@,
                None => "New session"@,
            },
        ),
        time_ago: time_ago(c.recency(), now),
        folder: match c.project_id {
            Some(id) => match at(state.projects@, project_ix(state.projects@, id@)) {
                Some(p) => p.display_name@,
                None => "?"@,
            },
            None => "?"@,
        },
        branch: match c.branch {
            Some(b) if trimmed(b@).len() > 0 => Some(trimmed(b@)),
            _ => None,
        },
        last_command: opt(c.last_command),
        harness: match c.config {
            Some(config) => Some(config.harness),
            None => None,
        },
        status: row.0,
        selected: opt(state.selected_chat) == Some(c.id@),
    }
}

/// What some rows of the Sessions list show.
pub open spec fn session_views(v: Seq<SessionRow>) -> Seq<SessionRowView> {
    v.map_values(|r: SessionRow| r@)
}

/// The Sessions list at a given time.
pub fn active_rows_at(state: &AppState, now: i64) -> (rows: Vec<SessionRow>)
    ensures
        session_views(rows@) == state.overview(now as int).map_values(
            |r: (ChatIndicator, Chat)| session_row_view(state, r, now as int),
        ),
{
    let overview: Vec<(ChatIndicator, &Chat)> = state.overview_chats(now);
    let ghost f = |r: (ChatIndicator, &Chat)| (r.0, *r.1);
    let ghost g = |r: (ChatIndicator, Chat)| session_row_view(state, r, now as int);
    let ghost list = overview@.map_values(f);
    let mut rows: Vec<SessionRow> = Vec::new();
    let mut i: usize = 0;
    assert(session_views(rows@) =~= list.take(0).map_values(g));
    while i < overview.len()
        invariant
            i <= overview@.len(),
            f == (|r: (ChatIndicator, &Chat)| (r.0, *r.1)),
            g == (|r: (ChatIndicator, Chat)| session_row_view(state, r, now as int)),
            list == overview@.map_values(f),
            session_views(rows@) == list.take(i as int).map_values(g),
        decreases overview@.len() - i,
    {
        let status: ChatIndicator = overview[i].0;
        let chat: &Chat = overview[i].1;
        assert(list[i as int] == (status, *chat));
        let title: String = match &chat.title {
            Some(t) => single_line(t.as_str()),
            None => single_line("New session"),
        };
        let folder: String = match state.project_for_chat(chat) {
            Some(p) => p.display_name.clone(),
            None => "?".to_owned(),
        };
        let harness: Option<HarnessId> = match &chat.config {
            Some(config) => Some(config.harness),
            None => None,
        };
        let row = SessionRow {
            id: chat.id.clone(),
            title,
            time_ago: format_time_ago(chat.last_activity(), now),
            folder,
            branch: trimmed_or_none(&chat.branch),
            last_command: copy_opt(&chat.last_command),
            harness,
            status,
            selected: is_text(&state.selected_chat, chat.id.as_str()),
        };
        let ghost shown = row@;
        let ghost had = rows@;
        rows.push(row);
        proof {
            assert(shown == g(list[i as int]));
            assert(session_views(rows@) =~= session_views(had).push(shown));
            assert(list.take(i + 1).map_values(g) =~= list.take(i as int).map_values(g).push(shown));
        }
        i += 1;
    }
    assert(list.take(i as int) =~= list);
    rows
}

/// The Sessions list at the time of day.
pub fn render_active_rows(state: &AppState) -> (rows: Vec<SessionRow>)
    ensures
        exists|now: i64|
            session_views(rows@) == (#[trigger] state.overview(now as int)).map_values(
                |r: (ChatIndicator, Chat)| session_row_view(state, r, now as int),
            ),
{
    let now: i64 = utc_now();
    active_rows_at(state, now)
}

/// The dot of a status: its paint, and the alpha that it is laid on with.
pub open spec fn dot_of(status: ChatIndicator, theme: Theme, mirror: SchemeMirror) -> (Paint, u64) {
    match status {
        ChatIndicator::Working => (Paint::Oklch { l: 718, c: 202, h: 349_761 }, 850_000_000),
        ChatIndicator::AwaitingInput => (theme.accent, 900_000_000),
        ChatIndicator::Errored => (theme.danger, WHOLE),
        ChatIndicator::Completed => (
            Paint::Tint { lightness: hairline_lightness(mirror.scheme), alpha: 160_000_000 },
            WHOLE,
        ),
        ChatIndicator::Idle => (
            Paint::Tint { lightness: hairline_lightness(mirror.scheme), alpha: 140_000_000 },
            WHOLE,
        ),
    }
}

/// The dot of a status.
pub fn status_dot_color(status: ChatIndicator, theme: &Theme, mirror: &SchemeMirror) -> (d: (
    Paint,
    u64,
))
    ensures
        d == dot_of(status, *theme, *mirror),
{
    match status {
        ChatIndicator::Working => (Paint::Oklch { l: 718, c: 202, h: 349_761 }, 850_000_000),
        ChatIndicator::AwaitingInput => (theme.accent, 900_000_000),
        ChatIndicator::Errored => (theme.danger, WHOLE),
        ChatIndicator::Completed => (crate::theme::white_alpha(mirror, 160_000_000), WHOLE),
        ChatIndicator::Idle => (crate::theme::white_alpha(mirror, 140_000_000), WHOLE),
    }
}

/// How many folders a path names.
pub open spec fn folder_count(path: Seq<char>) -> nat
    decreases path.len(),
{
    if path.len() == 0 {
        0
    } else {
        let begins = path.last() != '/' && (path.len() == 1 || path[path.len() - 2] == '/');
        folder_count(path.drop_last()) + (if begins {
            1nat
        } else {
            0nat
        })
    }
}

fn count_folders(path: &str) -> (n: usize)
    ensures
        n == folder_count(path@),
        n < usize::MAX,
{
    let cs: Vec<char> = chars_of(path);
    let mut n: usize = 0;
    let mut i: usize = 0;
    assert(cs@.take(0) =~= Seq::<char>::empty());
    while i < cs.len()
        invariant
            i <= cs@.len(),
            cs@ == path@,
            n == folder_count(cs@.take(i as int)),
            2 * n <= i + 1,
            i == 0 || cs@[i - 1] == '/' ==> 2 * n <= i,
        decreases cs@.len() - i,
    {
        proof {
            let now = cs@.take(i + 1);
            assert(now.drop_last() =~= cs@.take(i as int));
            assert(now.last() == cs@[i as int]);
            if i > 0 {
                assert(now[now.len() - 2] == cs@[i - 1]);
            }
        }
        if cs[i] != '/' && (i == 0 || cs[i - 1] == '/') {
            n += 1;
        }
        i += 1;
    }
    assert(cs@.take(i as int) =~= path@);
    n
}

/// Whether a path is the home folder or lies below it.
pub open spec fn below(path: Seq<char>, home: Seq<char>) -> bool {
    path == home || occurs_at(path, home + "/"@, 0)
}

/// How many folders of the way to `path` fold into one: the root, and the way to
/// the home folder when `path` is below it.
pub open spec fn folded(path: Seq<char>, home: Option<Seq<char>>) -> int {
    match home {
        Some(h) if below(path, h) => 1 + folder_count(h) as int,
        _ => 1,
    }
}

fn fold_count(path: &str, home: &Option<String>) -> (n: usize)
    ensures
        n == folded(path@, opt(*home)),
{
    match home {
        None => 1,
        Some(h) => {
            let mut prefix: String = h.clone();
            prefix.append("/");
            if same(path, h.as_str()) || starts_with(path, prefix.as_str()) {
                1 + count_folders(h.as_str())
            } else {
                1
            }
        },
    }
}

/// A folder of the breadcrumbs. The last one is the folder shown, and cannot be
/// clicked.
#[derive(Debug)]
pub struct CrumbView {
    pub label: String,
    pub full_path: String,
    pub current: bool,
}

/// What a folder of the breadcrumbs shows.
pub ghost struct CrumbShown {
    pub label: Seq<char>,
    pub full_path: Seq<char>,
    pub current: bool,
}

impl View for CrumbView {
    type V = CrumbShown;

    open spec fn view(&self) -> CrumbShown {
        CrumbShown { label: self.label@, full_path: self.full_path@, current: self.current }
    }
}

/// The breadcrumbs of a folder, behind the home crumb.
pub open spec fn crumbs_of(listing: FolderListing, home: Option<Seq<char>>) -> Seq<CrumbShown> {
    let all = listing.crumbs@;
    let from = folded(listing.path@, home);
    Seq::new(
        if all.len() > from {
            (all.len() - from) as nat
        } else {
            0
        },
        |i: int|
            CrumbShown {
                label: all[from + i].label@,
                full_path: all[from + i].full_path@,
                current: from + i == all.len() - 1,
            },
    )
}

/// What some breadcrumbs show.
pub open spec fn crumb_views(v: Seq<CrumbView>) -> Seq<CrumbShown> {
    v.map_values(|c: CrumbView| c@)
}

/// The breadcrumbs of a folder, behind the home crumb.
pub fn visible_crumbs(listing: &FolderListing, home: &Option<String>) -> (crumbs: Vec<CrumbView>)
    ensures
        crumb_views(crumbs@) == crumbs_of(*listing, opt(*home)),
{
    let from: usize = fold_count(listing.path.as_str(), home);
    let n: usize = listing.crumbs.len();
    let mut crumbs: Vec<CrumbView> = Vec::new();
    let mut i: usize = from;
    while i < n
        invariant
            from <= i,
            from < n ==> i <= n,
            from >= n ==> i == from,
            n == listing.crumbs@.len(),
            crumbs@.len() == i - from,
            forall|j: int|
                0 <= j < i - from ==> (#[trigger] crumbs@[j])@ == (CrumbShown {
                    label: listing.crumbs@[from + j].label@,
                    full_path: listing.crumbs@[from + j].full_path@,
                    current: from + j == n - 1,
                }),
        decreases n - i,
    {
        let c: &Crumb = &listing.crumbs[i];
        crumbs.push(
            CrumbView {
                label: c.label.clone(),
                full_path: c.full_path.clone(),
                current: i == n - 1,
            },
        );
        i += 1;
    }
    proof {
        let want = crumbs_of(*listing, opt(*home));
        assert forall|j: int| 0 <= j < want.len() implies crumb_views(crumbs@)[j] == want[j] by {
            assert(crumb_views(crumbs@)[j] == crumbs@[j]@);
        }
        assert(crumb_views(crumbs@) =~= want);
    }
    crumbs
}

/// A folder of the palette's list. A repository is marked.
#[derive(Debug)]
pub struct FolderRow {
    pub name: String,
    pub full_path: String,
    pub is_repo: bool,
    pub highlighted: bool,
}

/// Whether rows show folders, the one at `active` highlighted.
pub open spec fn rows_show(rows: Seq<FolderRow>, folders: Seq<FolderEntry>, active: usize) -> bool {
    &&& rows.len() == folders.len()
    &&& forall|i: int|
        0 <= i < rows.len() ==> {
            let r = #[trigger] rows[i];
            r.name == folders[i].name && r.full_path == folders[i].full_path && r.is_repo
                == folders[i].is_repo && r.highlighted == (i == active)
        }
}

/// What the palette shows in place of, or as, its list.
#[derive(Debug)]
pub enum PaletteList {
    Skeleton,
    /// With a button that tries again.
    Error(String),
    Note(&'static str),
    Rows(Vec<FolderRow>),
}

/// The palette in one frame.
#[derive(Debug)]
pub struct PaletteFrame {
    /// Nothing is shown of the way without a folder.
    pub crumbs: Option<Vec<CrumbView>>,
    /// The home folder is the one shown.
    pub at_home: bool,
    pub list: PaletteList,
    /// The folder cannot be chosen yet.
    pub submit_dimmed: bool,
    pub submit_label: &'static str,
    /// Why the folder could not be made a project.
    pub error: Option<String>,
}

/// What the palette shows in place of, or as, its list.
pub open spec fn list_of(
    f: CreateProjectFlow,
    folders: Seq<FolderEntry>,
    list: PaletteList,
) -> bool {
    match f.browser {
        Loadable::Loading | Loadable::Idle => list is Skeleton,
        Loadable::Error(message) => list matches PaletteList::Error(m) && m@ == message@,
        Loadable::Ready(_) => if folders.len() > 0 {
            list matches PaletteList::Rows(rows) && rows_show(rows@, folders, f.active)
        } else {
            list matches PaletteList::Note(note) && note@ == (if f.query@.len() == 0 {
                "No folders here"@
            } else {
                "No folders match"@
            })
        },
    }
}

fn folder_rows(folders: &Vec<&FolderEntry>, active: usize) -> (rows: Vec<FolderRow>)
    ensures
        rows_show(rows@, folders@.map_values(|e: &FolderEntry| *e), active),
{
    let ghost want = folders@.map_values(|e: &FolderEntry| *e);
    let mut rows: Vec<FolderRow> = Vec::new();
    let mut i: usize = 0;
    while i < folders.len()
        invariant
            i <= folders@.len(),
            want == folders@.map_values(|e: &FolderEntry| *e),
            rows_show(rows@, want.take(i as int), active),
        decreases folders@.len() - i,
    {
        let entry: &FolderEntry = folders[i];
        assert(want[i as int] == *entry);
        let ghost had = rows@;
        rows.push(
            FolderRow {
                name: entry.name.clone(),
                full_path: entry.full_path.clone(),
                is_repo: entry.is_repo,
                highlighted: i == active,
            },
        );
        assert forall|j: int| 0 <= j < rows@.len() implies {
            let r = #[trigger] rows@[j];
            let e = want.take(i + 1)[j];
            r.name == e.name && r.full_path == e.full_path && r.is_repo == e.is_repo
                && r.highlighted == (j == active)
        } by {
            if j < i {
                assert(rows@[j] == had[j]);
                assert(want.take(i + 1)[j] == want.take(i as int)[j]);
            }
        }
        i += 1;
    }
    assert(want.take(i as int) =~= want);
    rows
}

impl Shell {
    /// The projects list in one frame. `order` is the order to show: the one
    /// that projects were dragged into, completed by the others. `dragging`
    /// tells whether anything is being dragged; a drag that ended elsewhere is
    /// over.
    pub fn project_rows_at(
        &mut self,
        state: &AppState,
        order: &Vec<String>,
        dragging: bool,
        now: i64,
        ranks: AttentionRanks,
    ) -> (rows: Vec<ProjectRow>)
        requires
            old(self).wf(),
        ensures
            final(self).wf(),
            *final(self) == (Shell {
                project_drag: if dragging {
                    old(self).project_drag
                } else {
                    None
                },
                ..*old(self)
            }),
            ({
                let shown = arranged(state.projects@, texts(order@));
                &&& rows@.len() == shown.len()
                &&& forall|i: int|
                    0 <= i < rows@.len() ==> (#[trigger] rows@[i])@ == project_row_view(
                        state,
                        shown[i],
                        i,
                        final(self).project_drag,
                        now as int,
                        ranks,
                    )
            }),
    {
        if !dragging {
            self.project_drag = None;
        }
        let ghost ids = texts(order@);
        let mut rows: Vec<ProjectRow> = Vec::new();
        let mut k: usize = 0;
        assert(ids.take(0) =~= Seq::<Seq<char>>::empty());
        while k < order.len()
            invariant
                k <= order@.len(),
                ids == texts(order@),
                rows@.len() == arranged(state.projects@, ids.take(k as int)).len(),
                forall|i: int|
                    0 <= i < rows@.len() ==> (#[trigger] rows@[i])@ == project_row_view(
                        state,
                        arranged(state.projects@, ids.take(k as int))[i],
                        i,
                        self.project_drag,
                        now as int,
                        ranks,
                    ),
            decreases order@.len() - k,
        {
            let ghost before = ids.take(k as int);
            proof {
                assert(ids.take(k + 1).drop_last() =~= before);
                assert(ids.take(k + 1).last() == order@[k as int]@);
            }
            let mut seen: bool = false;
            let mut j: usize = 0;
            while j < k && !seen
                invariant
                    j <= k < order@.len(),
                    ids == texts(order@),
                    before == ids.take(k as int),
                    seen ==> before.contains(order@[k as int]@),
                    !seen ==> forall|a: int|
                        0 <= a < j ==> (#[trigger] before[a]) != order@[k as int]@,
                decreases k - j + (if seen { 0int } else { 1 }),
            {
                assert(before[j as int] == order@[j as int]@);
                if order[j] == order[k] {
                    assert(before[j as int] == order@[k as int]@);
                    seen = true;
                } else {
                    j += 1;
                }
            }
            assert(seen == before.contains(order@[k as int]@));
            if !seen {
                if let Some(i) = find_last(&state.projects, order[k].as_str()) {
                    let p: &Project = &state.projects[i];
                    let slot: usize = rows.len();
                    let place: TabPlace = match self.project_drag {
                        None => TabPlace::Still,
                        Some(d) => if slot == d.from {
                            TabPlace::Spacer
                        } else {
                            TabPlace::Slide {
                                start: slide_offset(slot, d.from, d.prev_over),
                                target: slide_offset(slot, d.from, d.over),
                            }
                        },
                    };
                    rows.push(
                        ProjectRow {
                            id: p.id.clone(),
                            name: p.display_name.clone(),
                            selected: is_text(&state.selected_project, p.id.as_str()),
                            attention: project_attention(state, p.id.as_str(), now, ranks),
                            place,
                        },
                    );
                }
            }
            k += 1;
        }
        assert(ids.take(k as int) =~= ids);
        rows
    }

    /// The palette in one frame, of whose folders those at `matches` match its
    /// query; nothing when it is closed.
    pub fn palette_frame(&self, matches: &Vec<usize>) -> (f: Option<PaletteFrame>)
        ensures
            match self.add_project {
                None => f is None,
                Some(flow) => f matches Some(frame) && {
                    let rows = picked(folders_of(self.add_project), matches@);
                    &&& list_of(flow, rows, frame.list)
                    &&& opt(frame.error) == opt(flow.error)
                    &&& frame.submit_dimmed == (flow.submit_busy || !(flow.browser is Ready))
                    &&& frame.submit_label@ == (if flow.submit_busy {
                        "Adding\u{2026}"@
                    } else {
                        "use this folder"@
                    })
                    &&& match flow.browser {
                        Loadable::Ready(listing) => {
                            &&& frame.at_home == (opt(flow.home) == Some(listing.path@))
                            &&& frame.crumbs matches Some(crumbs) && crumb_views(crumbs@)
                                == crumbs_of(listing, opt(flow.home))
                        },
                        _ => frame.crumbs is None && !frame.at_home,
                    }
                },
            },
    {
        match &self.add_project {
            None => None,
            Some(flow) => {
                let rows: Vec<&FolderEntry> = self.add_project_filtered(matches);
                assert(rows@.map_values(|e: &FolderEntry| *e).len() == rows@.len());
                let list: PaletteList = match &flow.browser {
                    Loadable::Loading | Loadable::Idle => PaletteList::Skeleton,
                    Loadable::Error(message) => PaletteList::Error(message.clone()),
                    Loadable::Ready(_) => if rows.len() > 0 {
                        PaletteList::Rows(folder_rows(&rows, flow.active))
                    } else if flow.query.as_str().is_empty() {
                        PaletteList::Note("No folders here")
                    } else {
                        PaletteList::Note("No folders match")
                    },
                };
                let (crumbs, at_home, ready): (Option<Vec<CrumbView>>, bool, bool) =
                    match &flow.browser {
                    Loadable::Ready(listing) => (
                        Some(visible_crumbs(listing, &flow.home)),
                        is_text(&flow.home, listing.path.as_str()),
                        true,
                    ),
                    _ => (None, false, false),
                };
                Some(
                    PaletteFrame {
                        crumbs,
                        at_home,
                        list,
                        submit_dimmed: flow.submit_busy || !ready,
                        submit_label: if flow.submit_busy {
                            "Adding\u{2026}"
                        } else {
                            "use this folder"
                        },
                        error: copy_opt(&flow.error),
                    },
                )
            },
        }
    }
}

/// What the dialog that removes a project says.
pub open spec fn delete_text(name: Seq<char>, count: nat) -> Seq<char> {
    "Removing \u{201c}"@ + name + "\u{201d} permanently deletes its "@ + (if count == 1 {
        "1 session"@
    } else {
        decimal(count) + " sessions"@
    }) + ". This can\u{2019}t be undone."@
}

/// What the dialog that removes a project says, by its name and its number of
/// sessions.
pub fn delete_copy(state: &AppState, project_id: &str) -> (s: String)
    ensures
        s@ == delete_text(
            match at(state.projects@, project_ix(state.projects@, project_id@)) {
                Some(p) => p.display_name@,
                None => "this project"@,
            },
            state.tabs_of(project_id@).len(),
        ),
{
    let chats: Vec<&Chat> = state.chats_in_project(project_id);
    assert(crate::proto::deref(chats@).len() == chats@.len());
    let count: usize = chats.len();
    let mut s: String = "Removing \u{201c}".to_owned();
    match state.project_row(project_id) {
        Some(p) => {
            s.append(p.display_name.as_str());
        },
        None => {
            s.append("this project");
        },
    }
    s.append("\u{201d} permanently deletes its ");
    if count == 1 {
        s.append("1 session");
    } else {
        let mut n: String = decimal_text(count as u64);
        n.append(" sessions");
        s.append(n.as_str());
    }
    s.append(". This can\u{2019}t be undone.");
    s
}

}
