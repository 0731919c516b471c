//! What the sidebar, the palette and the font menus show and pick.
use vstd::prelude::*;

use crate::laws::calls::says_text;
use crate::laws::lists::has_project;
use crate::model_cache::{list_keys_are_distinct, HarnessDescriptor, Model, ModelCatalogCache};
use crate::order::{ordered, ordered_members};
use crate::proto::{deref, format_time_ago, Chat, ChatIndicator, HarnessId, Project};
use crate::seqs::{kept, kept_members};
use crate::settings::appearance::{
    arrange_fonts, by_lowercase, names_monospace, deduped, lowercase, AppearanceEvent,
    AppearancePage, FontKind,
};
use crate::shell::paths::breadcrumbs;
use crate::shell::projects::{Crumb, matching, picked, FolderEntry, FolderListing, Loadable, Shell};
use crate::shell::sidebar::{
    active_rows_at, arranged, attention, crumb_views, delete_copy,
    every_named_project_is_shown_once, last_project, project_attention, session_views,
    status_dot_color, the_dot_is_the_most_urgent, visible_crumbs, AttentionRanks, CrumbView,
    PaletteFrame, ProjectRow, SessionRow,
};
use crate::state::AppState;
use crate::text::{decimal, occurs_in, one_line, trimmed};
use crate::theme::{Paint, SchemeMirror, Theme};
use crate::wire::{opt, texts, Method, Request};

verus! {

/// The urgency of a live status.
pub open spec fn how_urgent(ranks: AttentionRanks, s: ChatIndicator) -> int {
    if s is Working {
        ranks.working as int
    } else {
        ranks.awaiting as int
    }
}

proof fn the_dot_is_of_a_chat(
    state: &AppState,
    chats: Seq<Chat>,
    project: Seq<char>,
    now: int,
    ranks: AttentionRanks,
) -> (i: int)
    requires
        attention(state, chats, project, now, ranks) is Some,
    ensures
        0 <= i < chats.len(),
        !chats[i].archived && chats[i].in_project(project),
        attention(state, chats, project, now, ranks) == Some(
            crate::proto::status_of(chats[i], state.session_of(chats[i].id@), now),
        ),
        attention(state, chats, project, now, ranks)->0 is Working || attention(
            state,
            chats,
            project,
            now,
            ranks,
        )->0 is AwaitingInput,
    decreases chats.len(),
{
    let rest = chats.drop_last();
    let before = attention(state, rest, project, now, ranks);
    let c = chats.last();
    let s = crate::proto::status_of(c, state.session_of(c.id@), now);
    if attention(state, chats, project, now, ranks) == before && before is Some {
        let i = the_dot_is_of_a_chat(state, rest, project, now, ranks);
        i
    } else {
        chats.len() - 1
    }
}

/// A project's dot is the status of one of its chats that works or waits, and
/// none of them is more urgent; a project without such a chat has none.
pub proof fn a_project_shows_its_most_urgent_chat(
    state: &AppState,
    project: &str,
    now: i64,
    ranks: AttentionRanks,
    r: Option<ChatIndicator>,
    i: int,
    status: ChatIndicator,
)
    requires
        call_ensures(project_attention, (state, project, now, ranks), r),
        0 <= i < state.chats@.len(),
        call_ensures(AppState::display_status_for, (state, &state.chats@[i], now), status),
    ensures
        r matches Some(s) ==> s is Working || s is AwaitingInput,
        ({
            let c = state.chats@[i];
            !c.archived && opt(c.project_id) == Some(project@) && (status is Working
                || status is AwaitingInput) ==> r is Some && how_urgent(ranks, r->0) <= how_urgent(
                ranks,
                status,
            )
        }),
        (forall|k: int|
            0 <= k < state.chats@.len() ==> (#[trigger] state.chats@[k]).archived || opt(
                state.chats@[k].project_id,
            ) != Some(project@)) ==> r is None,
{
    let c = state.chats@[i];
    if !c.archived && opt(c.project_id) == Some(project@) && (status is Working
        || status is AwaitingInput) {
        the_dot_is_the_most_urgent(state, state.chats@, project@, now as int, ranks, i);
    }
    if r is Some {
        let k = the_dot_is_of_a_chat(state, state.chats@, project@, now as int, ranks);
        assert(!state.chats@[k].archived);
    }
}

/// The list shows each project that the order names once, under its own name;
/// the selected one is marked, and each has its own dot.
pub proof fn the_list_shows_the_projects(
    s: &mut Shell,
    state: &AppState,
    order: &Vec<String>,
    dragging: bool,
    now: i64,
    ranks: AttentionRanks,
    rows: Vec<ProjectRow>,
    k: int,
    text: &str,
    dot: Option<ChatIndicator>,
    id: Seq<char>,
)
    requires
        call_ensures(Shell::project_rows_at, (s, state, order, dragging, now, ranks), rows),
        0 <= k < rows@.len(),
        text@ == rows@[k].id@,
        call_ensures(project_attention, (state, text, now, ranks), dot),
    ensures
        rows@[k].attention == dot,
        rows@[k].selected <==> opt(state.selected_project) == Some(rows@[k].id@),
        exists|i: int|
            0 <= i < state.projects@.len() && (#[trigger] state.projects@[i]).id@ == rows@[k].id@
                && state.projects@[i].display_name@ == rows@[k].name@,
        !dragging ==> rows@[k].place is Still && final(s).project_drag is None,
        dragging ==> final(s).project_drag == old(s).project_drag,
        (exists|j: int| 0 <= j < rows@.len() && (#[trigger] rows@[j]).id@ == id) <==> texts(
            order@,
        ).contains(id) && has_project(state.projects@, id),
        forall|a: int, b: int|
            0 <= a < b < rows@.len() ==> (#[trigger] rows@[a]).id@ != (#[trigger] rows@[b]).id@,
{
    let shown = arranged(state.projects@, texts(order@));
    assert(rows@[k]@.id == shown[k].id@);
    arranged_are_projects(state.projects@, texts(order@), k);
    last_is_there(state.projects@, id);
    every_named_project_is_shown_once(state.projects@, texts(order@), id);
    assert forall|j: int| 0 <= j < rows@.len() implies (#[trigger] rows@[j]).id@
        == shown[j].id@ by {
        assert(rows@[j]@.id == shown[j].id@);
    }
    if exists|j: int| 0 <= j < rows@.len() && (#[trigger] rows@[j]).id@ == id {
        let j = choose|j: int| 0 <= j < rows@.len() && (#[trigger] rows@[j]).id@ == id;
        assert(shown[j].id@ == id);
    }
    if exists|j: int| 0 <= j < shown.len() && (#[trigger] shown[j]).id@ == id {
        let j = choose|j: int| 0 <= j < shown.len() && (#[trigger] shown[j]).id@ == id;
        assert(rows@[j].id@ == id);
    }
    assert forall|a: int, b: int| 0 <= a < b < rows@.len() implies (#[trigger] rows@[a]).id@ != (
    #[trigger] rows@[b]).id@ by {
        every_named_project_is_shown_once(state.projects@, texts(order@), shown[a].id@);
        if shown[a].id@ == shown[b].id@ {
            assert(a == b);
        }
    }
}

proof fn last_is_there(projects: Seq<Project>, id: Seq<char>)
    ensures
        last_project(projects, id) >= 0 <==> has_project(projects, id),
        -1 <= last_project(projects, id) < projects.len(),
        last_project(projects, id) >= 0 ==> projects[last_project(projects, id)].id@ == id,
    decreases projects.len(),
{
    if projects.len() > 0 {
        let rest = projects.drop_last();
        last_is_there(rest, id);
        if projects.last().id@ == id {
            assert(projects[projects.len() - 1].id@ == id);
        } else if has_project(projects, id) {
            let i = choose|i: int| 0 <= i < projects.len() && (#[trigger] projects[i]).id@ == id;
            assert(rest[i].id@ == id);
        } else if has_project(rest, id) {
            let i = choose|i: int| 0 <= i < rest.len() && (#[trigger] rest[i]).id@ == id;
            assert(projects[i].id@ == id);
        }
    }
}

proof fn arranged_are_projects(projects: Seq<Project>, order: Seq<Seq<char>>, k: int)
    requires
        0 <= k < arranged(projects, order).len(),
    ensures
        exists|i: int|
            0 <= i < projects.len() && #[trigger] projects[i] == arranged(projects, order)[k],
    decreases order.len(),
{
    let before = arranged(projects, order.drop_last());
    let i = last_project(projects, order.last());
    last_is_there(projects, order.last());
    if k < before.len() {
        arranged_are_projects(projects, order.drop_last(), k);
    } else {
        assert(projects[i] == arranged(projects, order)[k]);
    }
}

/// The sessions are the chats of the overview, row by row: with their status,
/// their title on one line, the time since something happened in them, and the
/// name of their project.
pub proof fn the_sessions_show_the_overview(
    state: &AppState,
    now: i64,
    rows: Vec<SessionRow>,
    all: Vec<(ChatIndicator, &Chat)>,
    k: int,
    at: i64,
    ago: String,
    project: Option<&Project>,
)
    requires
        call_ensures(active_rows_at, (state, now), rows),
        call_ensures(AppState::overview_chats, (state, now), all),
        0 <= k < all@.len(),
        call_ensures(Chat::last_activity, (all@[k].1,), at),
        call_ensures(format_time_ago, (at, now), ago),
        call_ensures(AppState::project_for_chat, (state, all@[k].1), project),
    ensures
        rows@.len() == all@.len(),
        ({
            let c = *all@[k].1;
            let r = rows@[k];
            &&& r.id@ == c.id@
            &&& r.status == all@[k].0
            &&& c.title matches Some(t) ==> r.title@ == one_line(t@)
            &&& c.title is None ==> r.title@ == one_line("New session"@)
            &&& r.time_ago@ == ago@
            &&& project matches Some(p) ==> r.folder@ == p.display_name@
            &&& project is None ==> r.folder@ == "?"@
            &&& r.selected <==> opt(state.selected_chat) == Some(c.id@)
            &&& opt(r.last_command) == opt(c.last_command)
            &&& c.branch is Some && trimmed(c.branch->0@).len() > 0 ==> opt(r.branch) == Some(
                trimmed(c.branch->0@),
            )
            &&& c.branch is None || trimmed(c.branch->0@).len() == 0 ==> r.branch is None
            &&& r.harness is Some <==> c.config is Some
            &&& c.config is Some ==> r.harness == Some(c.config->0.harness)
        }),
{
    let o = state.overview(now as int);
    let views = session_views(rows@);
    let rs = all@.map_values(|r: (ChatIndicator, &Chat)| (r.0, *r.1));
    assert(rs == o);
    assert(views.len() == rows@.len() && rs.len() == all@.len());
    assert(rs[k] == (all@[k].0, *all@[k].1));
    assert(views[k] == rows@[k]@);
}

/// A working chat has a dot of its own, a waiting one that of the accent, and a
/// failed one that of danger, at full strength; the others are grey.
pub proof fn dots_have_their_colors(
    status: ChatIndicator,
    theme: &Theme,
    mirror: &SchemeMirror,
    d: (Paint, u64),
)
    requires
        call_ensures(status_dot_color, (status, theme, mirror), d),
    ensures
        status is Working <==> d.1 == 850_000_000,
        status is AwaitingInput ==> d.0 == theme.accent && d.1 == 900_000_000,
        status is Errored ==> d.0 == theme.danger && d.1 == 1_000_000_000,
        status is Completed || status is Idle ==> d.0 is Tint && d.1 == 1_000_000_000,
        status is Working ==> d.0 is Oklch,
{
}

/// The way that is shown is the end of the way to the folder: its last crumb is
/// the folder, and no other is marked as it.
pub proof fn the_way_ends_at_the_folder(
    listing: &FolderListing,
    home: &Option<String>,
    crumbs: Vec<CrumbView>,
    k: int,
)
    requires
        call_ensures(visible_crumbs, (listing, home), crumbs),
        0 <= k < crumbs@.len(),
    ensures
        crumbs@.len() < listing.crumbs@.len(),
        ({
            let c = listing.crumbs@[listing.crumbs@.len() - crumbs@.len() + k];
            crumbs@[k].label@ == c.label@ && crumbs@[k].full_path@ == c.full_path@
        }),
        crumbs@[k].current <==> k == crumbs@.len() - 1,
        *home is None ==> crumbs@.len() == listing.crumbs@.len() - 1,
{
    let views = crumb_views(crumbs@);
    assert(views.len() == crumbs@.len());
    assert(views[k] == crumbs@[k]@);
}

proof fn matching_members(folders: Seq<FolderEntry>, query: Seq<char>, n: int)
    requires
        0 <= n <= folders.len() <= usize::MAX,
    ensures
        forall|i: int|
            0 <= i < n ==> (matching(folders, query, n).contains(i as usize) <==> occurs_in(
                lowercase((#[trigger] folders[i]).name@),
                lowercase(trimmed(query)),
            )),
        forall|k: int|
            0 <= k < matching(folders, query, n).len() ==> #[trigger] matching(folders, query, n)[k]
                < n,
        forall|j: int, k: int|
            0 <= j < k < matching(folders, query, n).len() ==> #[trigger] matching(
                folders,
                query,
                n,
            )[j] < #[trigger] matching(folders, query, n)[k],
    decreases n,
{
    if n > 0 {
        matching_members(folders, query, n - 1);
        let before = matching(folders, query, n - 1);
        let now = matching(folders, query, n);
        assert forall|i: int| 0 <= i < n implies (now.contains(i as usize) <==> occurs_in(
            lowercase((#[trigger] folders[i]).name@),
            lowercase(trimmed(query)),
        )) by {
            if i < n - 1 {
                if before.contains(i as usize) {
                    let k = choose|k: int| 0 <= k < before.len() && before[k] == i as usize;
                    assert(now[k] == i as usize);
                } else if now.contains(i as usize) {
                    let k = choose|k: int| 0 <= k < now.len() && now[k] == i as usize;
                    if k < before.len() {
                        assert(before[k] == i as usize);
                    }
                }
            } else {
                if now.len() > before.len() {
                    assert(now[before.len() as int] == i as usize);
                } else if now.contains(i as usize) {
                    let k = choose|k: int| 0 <= k < now.len() && now[k] == i as usize;
                    assert(before[k] < n - 1);
                }
            }
        }
    }
}

/// The folders that match are those whose names hold what was typed, whatever the
/// case of either, in the order of the list.
pub proof fn matches_hold_what_was_typed(s: &Shell, r: Vec<usize>, i: int)
    requires
        call_ensures(Shell::add_project_matches, (s,), r),
        s.add_project is Some,
        s.add_project->0.browser is Ready,
        0 <= i < s.add_project->0.browser->Ready_0.folders@.len(),
        s.add_project->0.browser->Ready_0.folders@.len() <= usize::MAX,
    ensures
        r@.contains(i as usize) <==> occurs_in(
            lowercase(s.add_project->0.browser->Ready_0.folders@[i].name@),
            lowercase(trimmed(s.add_project->0.query@)),
        ),
        forall|k: int|
            0 <= k < r@.len() ==> #[trigger] r@[k] < s.add_project->0.browser->Ready_0.folders@.len(),
        forall|j: int, k: int| 0 <= j < k < r@.len() ==> #[trigger] r@[j] < #[trigger] r@[k],
{
    let folders = s.add_project->0.browser->Ready_0.folders@;
    matching_members(folders, s.add_project->0.query@, folders.len() as int);
}

proof fn picking_picks(folders: Seq<FolderEntry>, matches: Seq<usize>)
    requires
        forall|k: int| 0 <= k < matches.len() ==> #[trigger] matches[k] < folders.len(),
    ensures
        picked(folders, matches).len() == matches.len(),
        forall|k: int|
            0 <= k < matches.len() ==> picked(folders, matches)[k] == folders[#[trigger] matches[k] as int],
    decreases matches.len(),
{
    if matches.len() > 0 {
        let rest = matches.drop_last();
        assert forall|k: int| 0 <= k < rest.len() implies #[trigger] rest[k] < folders.len() by {
            assert(matches[k] < folders.len());
        }
        picking_picks(folders, rest);
        assert(matches[matches.len() - 1] < folders.len());
        assert forall|k: int| 0 <= k < matches.len() implies picked(folders, matches)[k]
            == folders[#[trigger] matches[k] as int] by {
            if k < rest.len() {
                assert(rest[k] == matches[k]);
                assert(picked(folders, rest)[k] == folders[rest[k] as int]);
            }
        }
    }
}

/// Going into the highlighted row goes into the folder that the row shows.
pub proof fn the_highlighted_folder_is_opened(
    s: &mut Shell,
    state: &AppState,
    matches: &Vec<usize>,
    r: Option<Request>,
)
    requires
        call_ensures(Shell::add_project_open_active, (s, state, matches), r),
        state.engine is Some,
        old(s).add_project is Some,
        old(s).add_project->0.browser is Ready,
        forall|k: int|
            0 <= k < matches@.len() ==> #[trigger] matches@[k]
                < old(s).add_project->0.browser->Ready_0.folders@.len(),
    ensures
        r is Some <==> old(s).add_project->0.active < matches@.len(),
        r matches Some(q) ==> {
            let f = old(s).add_project->0;
            let entry = f.browser->Ready_0.folders@[matches@[f.active as int] as int];
            &&& q@.method == Method::ListFolders
            &&& says_text(q@, "path"@, entry.full_path@)
            &&& final(s).add_project is Some
            &&& final(s).add_project->0.browser_repo == entry.is_repo
            &&& final(s).add_project->0.query@.len() == 0
        },
        r is None ==> *final(s) == *old(s),
{
    let folders = old(s).add_project->0.browser->Ready_0.folders@;
    picking_picks(folders, matches@);
    if r is Some {
        let k = old(s).add_project->0.active as int;
        assert(picked(folders, matches@)[k] == folders[matches@[k] as int]);
    }
}

/// Trying again asks for the same folder; jumping asks for the one that was
/// clicked, of which nothing is known yet.
pub proof fn the_palette_jumps_and_retries(
    a: &mut Shell,
    b: &mut Shell,
    state: &AppState,
    path: Option<String>,
    jump: Option<Request>,
    again: Option<Request>,
)
    requires
        state.engine is Some,
        old(a).add_project is Some,
        old(b).add_project is Some,
        call_ensures(Shell::add_project_jump, (a, state, path), jump),
        call_ensures(Shell::add_project_retry, (b, state), again),
    ensures
        jump is Some && jump->0@.method == Method::ListFolders,
        path matches Some(x) ==> says_text(jump->0@, "path"@, x@),
        path is None ==> !jump->0@.params.contains_key("path"@),
        !final(a).add_project->0.browser_repo && final(a).add_project->0.browser is Loading,
        again is Some && again->0@.method == Method::ListFolders,
        old(b).add_project->0.browser_path matches Some(x) ==> says_text(again->0@, "path"@, x@),
        old(b).add_project->0.browser_path is None ==> !again->0@.params.contains_key("path"@),
        final(b).add_project->0.browser is Loading && opt(final(b).add_project->0.browser_path)
            == opt(old(b).add_project->0.browser_path),
{
}

/// Typing and stepping move the highlight: to the first row, and to where they
/// say.
pub proof fn the_highlight_moves(
    a: &mut Shell,
    query: String,
    b: &mut Shell,
    to: Option<usize>,
)
    requires
        old(a).add_project is Some,
        old(b).add_project is Some,
        call_ensures(Shell::add_project_query, (a, query), ()),
        call_ensures(Shell::add_project_step, (b, to), ()),
    ensures
        final(a).add_project is Some && final(a).add_project->0.query == query
            && final(a).add_project->0.active == 0,
        final(b).add_project is Some,
        to matches Some(i) ==> final(b).add_project->0.active == i,
        to is None ==> final(b).add_project->0.active == 0,
        final(b).add_project->0.query == old(b).add_project->0.query,
{
}

/// The palette lists the folders that match, the highlighted one marked, and
/// while there are none says why; a folder can be chosen once it is there.
pub proof fn the_palette_lists_the_matches(
    s: &Shell,
    matches: &Vec<usize>,
    f: Option<PaletteFrame>,
    k: int,
)
    requires
        call_ensures(Shell::palette_frame, (s, matches), f),
        s.add_project is Some,
    ensures
        f is Some,
        ({
            let flow = s.add_project->0;
            let frame = f->0;
            &&& frame.submit_dimmed <==> flow.submit_busy || !(flow.browser is Ready)
            &&& flow.browser is Idle || flow.browser is Loading ==> frame.list is Skeleton
            &&& flow.browser matches Loadable::Error(e) ==> frame.list is Error
                && frame.list->Error_0@ == e@
            &&& frame.crumbs is Some <==> flow.browser is Ready
            &&& opt(frame.error) == opt(flow.error)
            &&& flow.browser matches Loadable::Ready(l) ==> {
                &&& frame.at_home <==> opt(flow.home) == Some(l.path@)
                &&& (forall|m: int| 0 <= m < matches@.len() ==> #[trigger] matches@[m]
                    < l.folders@.len()) && matches@.len() > 0 ==> {
                    &&& frame.list is Rows
                    &&& frame.list->Rows_0@.len() == matches@.len()
                    &&& 0 <= k < matches@.len() ==> {
                        let row = frame.list->Rows_0@[k];
                        let entry = l.folders@[matches@[k] as int];
                        row.name == entry.name && row.full_path == entry.full_path && row.is_repo
                            == entry.is_repo && (row.highlighted <==> k == flow.active)
                    }
                }
                &&& matches@.len() == 0 ==> frame.list is Note
            }
        }),
{
    let flow = s.add_project->0;
    if let Loadable::Ready(l) = flow.browser {
        if forall|m: int| 0 <= m < matches@.len() ==> #[trigger] matches@[m] < l.folders@.len() {
            picking_picks(l.folders@, matches@);
            if 0 <= k < matches@.len() {
                assert(picked(l.folders@, matches@)[k] == l.folders@[matches@[k] as int]);
            }
        }
    }
}

/// The dialog that removes a project names it and counts the sessions that go
/// with it.
pub proof fn the_dialog_counts_the_sessions(
    state: &AppState,
    project: &str,
    s: String,
    row: Option<&Project>,
    chats: Vec<&Chat>,
)
    requires
        call_ensures(delete_copy, (state, project), s),
        call_ensures(AppState::project_row, (state, project), row),
        call_ensures(AppState::chats_in_project, (state, project), chats),
    ensures
        ({
            let name = match row {
                Some(p) => p.display_name@,
                None => "this project"@,
            };
            let count = if chats@.len() == 1 {
                "1 session"@
            } else {
                decimal(chats@.len()) + " sessions"@
            };
            s@ == "Removing \u{201c}"@ + name + "\u{201d} permanently deletes its "@ + count
                + ". This can\u{2019}t be undone."@
        }),
{
    assert(deref(chats@).len() == chats@.len());
}

proof fn deduping_keeps(s: Seq<Seq<char>>)
    ensures
        forall|x: Seq<char>| #[trigger] deduped(s).contains(x) <==> s.contains(x),
        s.len() > 0 ==> deduped(s).len() > 0 && deduped(s).last() == s.last(),
        forall|i: int|
            0 <= i < deduped(s).len() - 1 ==> #[trigger] deduped(s)[i] != deduped(s)[i + 1],
    decreases s.len(),
{
    if s.len() > 1 {
        let rest = s.drop_last();
        deduping_keeps(rest);
        assert(rest.last() == s[s.len() - 2]);
        let had = deduped(rest);
        let now = deduped(s);
        assert forall|x: Seq<char>| #[trigger] now.contains(x) <==> s.contains(x) by {
            if s.contains(x) {
                let i = choose|i: int| 0 <= i < s.len() && s[i] == x;
                if i < rest.len() {
                    assert(rest[i] == x);
                    assert(rest.contains(x));
                    assert(had.contains(x));
                    let k = choose|k: int| 0 <= k < had.len() && had[k] == x;
                    assert(now[k] == x);
                } else if s.last() == s[s.len() - 2] {
                    assert(now.last() == x);
                } else {
                    assert(now.last() == x);
                }
            }
            if now.contains(x) {
                let k = choose|k: int| 0 <= k < now.len() && now[k] == x;
                if k < had.len() {
                    assert(had[k] == x);
                    assert(had.contains(x));
                    assert(rest.contains(x));
                    let i = choose|i: int| 0 <= i < rest.len() && rest[i] == x;
                    assert(s[i] == x);
                } else {
                    assert(s[s.len() - 1] == x);
                }
            }
        }
        assert forall|i: int| 0 <= i < now.len() - 1 implies #[trigger] now[i] != now[i + 1] by {
            if i + 1 < had.len() {
                assert(had[i] != had[i + 1]);
            }
        }
    }
}

/// The families in a list are the families given, none right behind itself.
pub proof fn every_family_is_offered(fonts: Vec<String>, r: Vec<String>, name: String, i: int)
    requires
        call_ensures(arrange_fonts, (fonts,), r),
    ensures
        fonts@.contains(name) ==> texts(r@).contains(name@),
        0 <= i < r@.len() ==> exists|k: int|
            0 <= k < fonts@.len() && (#[trigger] fonts@[k])@ == r@[i]@,
        0 <= i < r@.len() - 1 ==> r@[i]@ != r@[i + 1]@,
{
    let o = ordered(fonts@, by_lowercase());
    let t = texts(o);
    let d = texts(r@);
    ordered_members(fonts@, by_lowercase());
    deduping_keeps(t);
    assert(d == deduped(t));
    assert(d.len() == r@.len() && t.len() == o.len());
    if fonts@.contains(name) {
        assert(o.contains(name));
        let k = choose|k: int| 0 <= k < o.len() && o[k] == name;
        assert(t[k] == name@);
        assert(t.contains(name@));
        assert(d.contains(name@));
    }
    if 0 <= i < r@.len() {
        assert(d[i] == r@[i]@);
        assert(d.contains(d[i]));
        assert(t.contains(d[i]));
        let k = choose|k: int| 0 <= k < t.len() && t[k] == d[i];
        assert(t[k] == o[k]@);
        assert(o.contains(o[k]));
        assert(fonts@.contains(o[k]));
        let m = choose|m: int| 0 <= m < fonts@.len() && fonts@[m] == o[k];
        assert(fonts@[m]@ == r@[i]@);
    }
    if 0 <= i < r@.len() - 1 {
        assert(d[i] == r@[i]@ && d[i + 1] == r@[i + 1]@);
    }
}

/// A menu offers families of its own role alone, and of those the ones whose
/// names hold what was typed, eighty at most.
pub proof fn a_menu_offers_its_role(
    p: &AppearancePage,
    kind: FontKind,
    query: &str,
    r: Vec<String>,
    i: int,
    name: &str,
    code: bool,
)
    requires
        call_ensures(AppearancePage::matching_fonts, (p, kind, query), r),
        0 <= i < r@.len(),
        name@ == r@[i]@,
        call_ensures(AppearancePage::is_monospace, (name,), code),
    ensures
        r@.len() <= 80,
        code <==> kind is Code,
        texts(p.available_fonts@).contains(r@[i]@),
        lowercase(trimmed(query@)).len() > 0 ==> occurs_in(
            lowercase(r@[i]@),
            lowercase(trimmed(query@)),
        ),
{
    let fonts = texts(p.available_fonts@);
    let f = crate::settings::appearance::offered(kind, lowercase(trimmed(query@)));
    let all = kept(fonts, f);
    kept_members(fonts, f);
    let t = texts(r@);
    assert(t.len() == r@.len());
    assert(t[i] == r@[i]@);
    assert(all[i] == t[i]);
    assert(all.contains(all[i]));
    assert(f(all[i]));
}

/// A family that is picked, or typed, is that of its own role; the other role
/// keeps its family, and what is told is what stands.
pub proof fn a_picked_family_is_kept(
    a: &mut AppearancePage,
    b: &mut AppearancePage,
    kind: FontKind,
    font: String,
    x: AppearanceEvent,
    y: AppearanceEvent,
)
    requires
        call_ensures(AppearancePage::set_font, (a, kind, font), x),
        call_ensures(AppearancePage::on_edited, (b, kind, font), y),
    ensures
        kind is Ui ==> final(a).ui_font == font && final(a).code_font == old(a).code_font,
        kind is Code ==> final(a).code_font == font && final(a).ui_font == old(a).ui_font,
        kind is Ui ==> final(b).ui_font == font && final(b).code_font == old(b).code_font,
        kind is Code ==> final(b).code_font == font && final(b).ui_font == old(b).ui_font,
        x == (AppearanceEvent::Changed {
            ui_font: final(a).ui_font,
            code_font: final(a).code_font,
        }),
        y == (AppearanceEvent::Changed {
            ui_font: final(b).ui_font,
            code_font: final(b).code_font,
        }),
        final(a).open_menu is None && final(b).open_menu == Some(kind),
{
}

/// A click on a trigger opens its menu, and closes the one that is open; a click
/// within four tenths of a second after a menu was dismissed does neither.
pub proof fn a_trigger_toggles_its_menu(
    p: &mut AppearancePage,
    kind: FontKind,
    now: u64,
)
    requires
        call_ensures(AppearancePage::toggle_menu, (p, kind, now), ()),
    ensures
        old(p).menu_dismissed_at matches Some(at) ==> (now - at < 400 ==> final(p).open_menu
            == old(p).open_menu && final(p).menu_dismissed_at is None),
        old(p).menu_dismissed_at is None || now - old(p).menu_dismissed_at->0 >= 400 ==> {
            &&& old(p).open_menu == Some(kind) ==> final(p).open_menu is None
            &&& old(p).open_menu != Some(kind) ==> final(p).open_menu == Some(kind)
        },
        final(p).ui_font == old(p).ui_font && final(p).code_font == old(p).code_font,
{
}

/// What is stored for a program on a device is read back for it, and for no other
/// program or device.
pub proof fn a_stored_catalog_is_read_back(
    c: &mut ModelCatalogCache,
    harness: HarnessId,
    device: &str,
    models: Vec<Model>,
    changed: bool,
    later: &ModelCatalogCache,
    got: Option<&Vec<Model>>,
    before: &ModelCatalogCache,
    other: HarnessId,
    elsewhere: &str,
    x: Option<&Vec<Model>>,
    y: Option<&Vec<Model>>,
)
    requires
        *before == *old(c),
        call_ensures(ModelCatalogCache::store_models, (c, harness, device, models), changed),
        *later == *final(c),
        call_ensures(ModelCatalogCache::models_for, (later, harness, device), got),
        call_ensures(ModelCatalogCache::models_for, (before, other, elsewhere), x),
        call_ensures(ModelCatalogCache::models_for, (later, other, elsewhere), y),
    ensures
        got is Some,
        crate::model_cache::model_views(got->0@) == crate::model_cache::model_views(models@),
        other != harness || elsewhere@ != device@ ==> (x is Some <==> y is Some),
        (other != harness || elsewhere@ != device@) && x is Some ==> crate::model_cache::model_views(
            x->0@,
        ) == crate::model_cache::model_views(y->0@),
{
    if other != harness || elsewhere@ != device@ {
        if crate::model_cache::list_key(harness, device@) == crate::model_cache::list_key(
            other,
            elsewhere@,
        ) {
            list_keys_are_distinct(harness, device@, other, elsewhere@);
        }
    }
}

/// The same of the programs of a device.
pub proof fn stored_programs_are_read_back(
    c: &mut ModelCatalogCache,
    device: &str,
    list: Vec<HarnessDescriptor>,
    changed: bool,
    later: &ModelCatalogCache,
    got: Option<&Vec<HarnessDescriptor>>,
)
    requires
        call_ensures(ModelCatalogCache::store_harnesses, (c, device, list), changed),
        *later == *final(c),
        call_ensures(ModelCatalogCache::harnesses_for, (later, device), got),
    ensures
        got is Some,
        crate::model_cache::descriptor_views(got->0@) == crate::model_cache::descriptor_views(
            list@,
        ),
{
}

proof fn folders_are_segments(path: Seq<char>)
    ensures
        crate::shell::sidebar::folder_count(path) == crate::shell::paths::segments(path).len(),
    decreases path.len(),
{
    if path.len() > 0 {
        folders_are_segments(path.drop_last());
        let before = crate::shell::paths::segments(path.drop_last());
        if path.last() != '/' && !(path.len() == 1 || path[path.len() - 2] == '/') {
            some_segment(path.drop_last());
        }
    }
}

proof fn some_segment(path: Seq<char>)
    requires
        path.len() > 0,
        path.last() != '/',
    ensures
        crate::shell::paths::segments(path).len() > 0,
    decreases path.len(),
{
    if path.len() > 1 && path[path.len() - 2] != '/' {
        some_segment(path.drop_last());
    }
}

/// Below the home folder the way to it is folded away: as many crumbs are shown
/// as there are folders between the two. Elsewhere only the root is.
pub proof fn the_way_to_the_home_folder_is_folded(
    listing: &FolderListing,
    home: &Option<String>,
    crumbs: Vec<CrumbView>,
    path: &str,
    text: &str,
    all: Vec<Crumb>,
    up: Vec<Crumb>,
)
    requires
        call_ensures(visible_crumbs, (listing, home), crumbs),
        *home is Some,
        path@ == listing.path@,
        text@ == (*home)->0@,
        call_ensures(breadcrumbs, (path,), all),
        call_ensures(breadcrumbs, (text,), up),
        listing.crumbs@.len() == all@.len(),
    ensures
        ({
            let h = (*home)->0@;
            let p = listing.path@;
            let under = p == h || (p.len() > h.len() && p.take(h.len() as int) == h
                && p[h.len() as int] == '/');
            &&& under && all@.len() >= up@.len() ==> crumbs@.len() == all@.len() - up@.len()
            &&& !under ==> crumbs@.len() == all@.len() - 1
        }),
{
    let h = (*home)->0@;
    let p = listing.path@;
    folders_are_segments(h);
    let views = crumb_views(crumbs@);
    assert(views.len() == crumbs@.len());
    reveal_strlit("/");
    let part = h + "/"@;
    if p.len() > h.len() && p.take(h.len() as int) == h && p[h.len() as int] == '/' {
        assert(p.subrange(0, part.len() as int) =~= part) by {
            assert forall|i: int| 0 <= i < part.len() implies p[i] == part[i] by {
                if i < h.len() {
                    assert(p.take(h.len() as int)[i] == h[i]);
                }
            }
        }
    }
    if crate::text::occurs_at(p, part, 0) {
        assert(p.subrange(0, part.len() as int) == part);
        assert(p.take(h.len() as int) =~= h) by {
            assert forall|i: int| 0 <= i < h.len() implies p[i] == h[i] by {
                assert(p.subrange(0, part.len() as int)[i] == part[i]);
            }
        }
        assert(p.subrange(0, part.len() as int)[h.len() as int] == part[h.len() as int]);
    }
}

/// The palette opens empty, on this device, and asks for the home folder when
/// there is somebody to ask.
pub proof fn the_palette_opens_at_home(
    s: &mut Shell,
    state: &AppState,
    r: Option<Request>,
    name: &str,
    known: Option<&str>,
)
    requires
        call_ensures(Shell::open_add_project, (s, state), r),
        state.local_device_id matches Some(id) ==> name@ == id@,
        call_ensures(AppState::device_name, (state, name), known),
    ensures
        final(s).add_project is Some,
        ({
            let f = final(s).add_project->0;
            let loads = state.local_device_id is Some && known is Some && state.engine is Some;
            &&& f.query@.len() == 0 && f.active == 0 && !f.submit_busy && f.error is None
            &&& f.browser_path is None && f.home is None
            &&& f.device is Some <==> state.local_device_id is Some && known is Some
            &&& f.device matches Some(d) ==> d.name@ == known->0@
            &&& r is Some <==> loads
            &&& r matches Some(q) ==> q@.method == Method::ListFolders && !q@.params.contains_key(
                "path"@,
            ) && f.browser is Loading
            &&& r is None ==> f.browser is Idle
        }),
        final(s).route == old(s).route && final(s).project_order == old(s).project_order,
{
}

/// The button of the palette says what it does, and while it does it so.
pub proof fn the_palette_s_button_says_what_it_does(
    s: &Shell,
    matches: &Vec<usize>,
    f: Option<PaletteFrame>,
)
    requires
        call_ensures(Shell::palette_frame, (s, matches), f),
        s.add_project is Some,
    ensures
        s.add_project->0.submit_busy ==> f->0.submit_label@ == "Adding\u{2026}"@,
        !s.add_project->0.submit_busy ==> f->0.submit_label@ == "use this folder"@,
        s.add_project->0.browser is Ready && matches@.len() == 0 && s.add_project->0.query@.len()
            == 0 ==> f->0.list is Note && f->0.list->Note_0@ == "No folders here"@,
        s.add_project->0.browser is Ready && matches@.len() == 0 && s.add_project->0.query@.len()
            > 0 ==> f->0.list is Note && f->0.list->Note_0@ == "No folders match"@,
{
}

/// A family is one for code exactly when its name says so: by one of these words.
pub proof fn code_families_say_so(lower: &str, r: bool)
    requires
        call_ensures(names_monospace, (lower,), r),
    ensures
        occurs_in(lower@, "mono"@) || occurs_in(lower@, "code"@) || occurs_in(
            lower@,
            "courier"@,
        ) || occurs_in(lower@, "menlo"@) || occurs_in(lower@, "monaco"@) || occurs_in(
            lower@,
            "consolas"@,
        ) || occurs_in(lower@, "cascadia"@) || occurs_in(lower@, "fixed"@) || occurs_in(
            lower@,
            "terminal"@,
        ) || occurs_in(lower@, "typewriter"@) ==> r,
        r ==> occurs_in(lower@, "mono"@) || occurs_in(lower@, "monospace"@) || occurs_in(
            lower@,
            "code"@,
        ) || occurs_in(lower@, "courier"@) || occurs_in(lower@, "menlo"@) || occurs_in(
            lower@,
            "monaco"@,
        ) || occurs_in(lower@, "consolas"@) || occurs_in(lower@, "cascadia"@) || occurs_in(
            lower@,
            "fixed"@,
        ) || occurs_in(lower@, "terminal"@) || occurs_in(lower@, "typewriter"@),
{
}

/// The page knows the families of the system, its own two, and those that are in
/// use.
pub proof fn the_page_knows_its_families(
    ui: String,
    code: String,
    installed: Vec<String>,
    p: AppearancePage,
    i: int,
)
    requires
        call_ensures(AppearancePage::new, (ui, code, installed), p),
    ensures
        p.ui_font == ui && p.code_font == code,
        texts(p.available_fonts@).contains("Geist"@),
        texts(p.available_fonts@).contains("Geist Mono"@),
        texts(p.available_fonts@).contains(ui@),
        texts(p.available_fonts@).contains(code@),
        0 <= i < installed@.len() ==> texts(p.available_fonts@).contains(installed@[i]@),
{
    let (geist, mono) = choose|geist: String, mono: String|
        geist@ == "Geist"@ && mono@ == "Geist Mono"@ && texts(p.available_fonts@) == deduped(
            texts(
                #[trigger] ordered(
                    installed@.push(geist).push(mono).push(ui).push(code),
                    by_lowercase(),
                ),
            ),
        );
    let fonts = installed@.push(geist).push(mono).push(ui).push(code);
    let o = ordered(fonts, by_lowercase());
    let n = installed@.len() as int;
    deduping_keeps(texts(o));
    ordered_members(fonts, by_lowercase());
    named_in(fonts, o, n);
    named_in(fonts, o, n + 1);
    named_in(fonts, o, n + 2);
    named_in(fonts, o, n + 3);
    if 0 <= i < n {
        assert(fonts[i] == installed@[i]);
        named_in(fonts, o, i);
    }
}

proof fn named_in(fonts: Seq<String>, o: Seq<String>, i: int)
    requires
        0 <= i < fonts.len(),
        forall|x: String| #[trigger] o.contains(x) <==> fonts.contains(x),
    ensures
        texts(o).contains(fonts[i]@),
{
    assert(fonts.contains(fonts[i]));
    assert(o.contains(fonts[i]));
    let k = choose|k: int| 0 <= k < o.len() && o[k] == fonts[i];
    assert(texts(o)[k] == fonts[i]@);
}

}
