//! What the projects sidebar's operations are for.
use vstd::prelude::*;

use crate::laws::calls::{names_differ, operations_differ, says_text, says_value};
use crate::seqs::first_at_is;
use crate::shell::projects::{
    CreateSession, Loadable, MenuKey, NewSession, PaletteAction, Shell, Submitted,
};
use crate::state::{project_named, AppState, Effect};
use crate::text::trimmed;
use crate::wire::{opt, Call, Method, Request, ValueView};

verus! {

/// Whether a call asks the engine for an operation on its data.
pub open spec fn mutates(c: Call, op: Seq<char>) -> bool {
    c.method == Method::Mutate && says_text(c, "op"@, op)
}

/// A rename that was written asks to rename the project of the dialog to what was
/// written, and to do nothing else; a blank one asks for nothing. Either way the
/// dialog closes, and nothing else changes.
pub proof fn a_rename_renames(s: &mut Shell, r: Option<Request>)
    requires
        call_ensures(Shell::submit_rename_project, (s,), r),
    ensures
        old(s).rename_project_dialog is None ==> r is None,
        old(s).rename_project_dialog matches Some(d) ==> trimmed(d.text@).len() == 0 ==> r is None,
        old(s).rename_project_dialog matches Some(d) ==> trimmed(d.text@).len() > 0 ==> {
            &&& r is Some
            &&& mutates(r->0@, "renameProject"@)
            &&& !mutates(r->0@, "deleteProject"@)
            &&& says_text(r->0@, "projectId"@, d.project_id@)
            &&& says_text(r->0@, "name"@, trimmed(d.text@))
            &&& forall|k: Seq<char>|
                #[trigger] r->0@.params.contains_key(k) ==> k == "op"@ || k == "projectId"@ || k
                    == "name"@
        },
        final(s).rename_project_dialog is None,
        final(s).route == old(s).route && final(s).add_project == old(s).add_project,
        final(s).project_order == old(s).project_order,
        final(s).delete_project_confirm == old(s).delete_project_confirm,
{
    names_differ();
    operations_differ();
}

/// Removing a project asks to delete that project, and to do nothing else.
pub proof fn a_removal_removes(s: &mut Shell, project: &str, r: Request)
    requires
        call_ensures(Shell::delete_project, (s, project), r),
    ensures
        mutates(r@, "deleteProject"@),
        says_text(r@, "projectId"@, project@),
        forall|k: Seq<char>|
            #[trigger] r@.params.contains_key(k) ==> k == "op"@ || k == "projectId"@,
        final(s).delete_project_confirm is None,
        final(s).rename_project_dialog == old(s).rename_project_dialog,
        final(s).project_order == old(s).project_order,
{
    names_differ();
}

/// A new session asks to make the chat with the given id in the given project, and
/// to do nothing else; without an engine the sidebar says so.
pub proof fn a_new_session_makes_a_chat(
    s: &mut Shell,
    state: &AppState,
    chat: String,
    project: &str,
    r: Option<CreateSession>,
)
    requires
        call_ensures(Shell::create_session_with, (s, state, chat, project), r),
    ensures
        state.engine is None ==> r is None && final(s).sidebar_notice is Some,
        state.engine is Some ==> {
            &&& r is Some
            &&& r->0.chat_id@ == chat@
            &&& mutates(r->0.request@, "createChat"@)
            &&& says_text(r->0.request@, "chatId"@, chat@)
            &&& says_text(r->0.request@, "projectId"@, project@)
            &&& forall|k: Seq<char>|
                #[trigger] r->0.request@.params.contains_key(k) ==> k == "op"@ || k == "projectId"@
                    || k == "chatId"@
            &&& *final(s) == *old(s)
        },
{
    names_differ();
}

/// A fresh session is made under an id that is its own: the request names the id
/// that the caller is given.
pub proof fn a_fresh_session_is_named(
    s: &mut Shell,
    state: &AppState,
    project: &str,
    r: Option<CreateSession>,
)
    requires
        call_ensures(Shell::create_session_in_project, (s, state, project), r),
    ensures
        r is Some <==> state.engine is Some,
        r matches Some(c) ==> mutates(c.request@, "createChat"@) && says_text(
            c.request@,
            "chatId"@,
            c.chat_id@,
        ) && says_text(c.request@, "projectId"@, project@),
{
    names_differ();
}

/// No two operations of the sidebar ask for the same thing: what renames does not
/// delete, what makes a chat makes no project.
pub proof fn operations_ask_for_different_things(
    a: &mut Shell,
    renamed: Option<Request>,
    b: &mut Shell,
    removed: &str,
    removal: Request,
    c: &mut Shell,
    state: &AppState,
    chat: String,
    project: &str,
    made: Option<CreateSession>,
)
    requires
        call_ensures(Shell::submit_rename_project, (a,), renamed),
        renamed is Some,
        call_ensures(Shell::delete_project, (b, removed), removal),
        call_ensures(Shell::create_session_with, (c, state, chat, project), made),
        made is Some,
    ensures
        renamed->0@.params["op"@] != removal@.params["op"@],
        renamed->0@.params["op"@] != made->0.request@.params["op"@],
        removal@.params["op"@] != made->0.request@.params["op"@],
{
    names_differ();
    operations_differ();
}

/// Choosing a folder that has no project asks to make one of that folder on that
/// device, and shows it in the list at once, as the only change.
pub proof fn a_new_folder_becomes_a_project(
    s: &mut Shell,
    state: &mut AppState,
    project: String,
    chat: String,
    now: i64,
    r: Submitted,
)
    requires
        call_ensures(Shell::submit_add_project_with, (s, state, project, chat, now), r),
        old(state).engine is Some,
        old(s).add_project is Some,
        !old(s).add_project->0.submit_busy,
        old(s).add_project->0.device is Some,
        old(s).add_project->0.browser is Ready,
        forall|i: int|
            0 <= i < old(state).projects@.len() ==> {
                let p = #[trigger] old(state).projects@[i];
                p.id@ != project@ && !(p.device_id@ == old(s).add_project->0.device->0.id@
                    && p.path@ == old(s).add_project->0.browser->Ready_0.path@)
            },
    ensures
        r is Creating,
        ({
            let f = old(s).add_project->0;
            let c = r->Creating_request@;
            let rows = final(state).projects@;
            &&& r->Creating_project_id@ == project@
            &&& mutates(c, "createProject"@)
            &&& says_text(c, "projectId"@, project@)
            &&& says_text(c, "deviceId"@, f.device->0.id@)
            &&& says_text(c, "path"@, f.browser->Ready_0.path@)
            &&& says_value(c, "gitDetected"@, ValueView::Bool(f.browser_repo))
            &&& rows.len() == old(state).projects@.len() + 1
            &&& rows.last().id@ == project@
            &&& rows.last().device_id@ == f.device->0.id@
            &&& rows.last().path@ == f.browser->Ready_0.path@
            &&& rows.last().git_detected == f.browser_repo
            &&& rows.drop_last() == old(state).projects@
        }),
        final(s).add_project is Some,
        final(s).add_project->0.submit_busy,
        final(state).selected_chat == old(state).selected_chat,
        final(state).chats == old(state).chats,
{
    names_differ();
    let f = old(s).add_project->0;
    let projects = old(state).projects@;
    let same = crate::shell::projects::same_folder(
        f.device->0.id@,
        f.browser->Ready_0.path@,
    );
    assert forall|i: int| 0 <= i < projects.len() implies !same(#[trigger] projects[i]) by {
        assert(projects[i].id@ != project@);
    }
    first_at_is(projects, same, projects.len() as int);
    assert forall|i: int| 0 <= i < projects.len() implies !project_named(project@)(
        #[trigger] projects[i],
    ) by {
        assert(projects[i].id@ != project@);
    }
    first_at_is(projects, project_named(project@), projects.len() as int);
    assert(final(state).projects@.drop_last() =~= projects);
}

/// Choosing a folder that has a project opens that project and begins a session in
/// it: no second project is made.
pub proof fn a_known_folder_is_opened(
    s: &mut Shell,
    state: &mut AppState,
    project: String,
    chat: String,
    now: i64,
    r: Submitted,
    i: int,
)
    requires
        call_ensures(Shell::submit_add_project_with, (s, state, project, chat, now), r),
        old(state).engine is Some,
        old(s).add_project is Some,
        !old(s).add_project->0.submit_busy,
        old(s).add_project->0.device is Some,
        old(s).add_project->0.browser is Ready,
        0 <= i < old(state).projects@.len(),
        old(state).projects@[i].device_id@ == old(s).add_project->0.device->0.id@,
        old(state).projects@[i].path@ == old(s).add_project->0.browser->Ready_0.path@,
        forall|j: int|
            0 <= j < i ==> !((#[trigger] old(state).projects@[j]).device_id@ == old(s).add_project->0.device->0.id@ && old(state).projects@[j].path@ == old(s).add_project->0.browser->Ready_0.path@),
    ensures
        r is Existing,
        r->Existing_session is Some,
        ({
            let c = r->Existing_session->0;
            &&& c.chat_id@ == chat@
            &&& mutates(c.request@, "createChat"@)
            &&& says_text(c.request@, "chatId"@, chat@)
            &&& says_text(c.request@, "projectId"@, old(state).projects@[i].id@)
        }),
        final(state).projects == old(state).projects,
        final(s).add_project is None,
        opt(final(s).last_project_id) == Some(old(state).projects@[i].id@),
{
    names_differ();
    let f = old(s).add_project->0;
    let projects = old(state).projects@;
    let same = crate::shell::projects::same_folder(
        f.device->0.id@,
        f.browser->Ready_0.path@,
    );
    assert forall|j: int| 0 <= j < i implies !same(#[trigger] projects[j]) by {}
    assert(same(projects[i]));
    first_at_is(projects, same, i);
}

/// Nothing is chosen without an engine, a palette, a device, or a folder that has
/// arrived, nor twice.
pub proof fn nothing_is_chosen_too_early(
    s: &mut Shell,
    state: &mut AppState,
    project: String,
    chat: String,
    now: i64,
    r: Submitted,
)
    requires
        call_ensures(Shell::submit_add_project_with, (s, state, project, chat, now), r),
        old(state).engine is None || old(s).add_project is None || old(s).add_project->0.submit_busy || old(s).add_project->0.device is None || !(old(s).add_project->0.browser is Ready),
    ensures
        r is Nothing,
        *final(s) == *old(s),
        *final(state) == *old(state),
{
}

/// The palette asks for the folder that it is sent to, by its path, or for the home
/// folder by none; it shows that it waits, with the first row highlighted.
pub proof fn the_palette_asks_for_the_folder(
    s: &mut Shell,
    state: &AppState,
    path: Option<String>,
    r: Option<Request>,
)
    requires
        call_ensures(Shell::load_project_folders, (s, state, path), r),
        old(s).add_project is Some,
        state.engine is Some,
    ensures
        r is Some,
        r->0@.method == Method::ListFolders,
        path matches Some(p) ==> says_text(r->0@, "path"@, p@),
        path is None ==> !r->0@.params.contains_key("path"@),
        final(s).add_project is Some,
        final(s).add_project->0.browser is Loading,
        opt(final(s).add_project->0.browser_path) == opt(path),
        final(s).add_project->0.active == 0,
        final(s).add_project->0.query == old(s).add_project->0.query,
{
}

/// Going into a folder asks for that folder, remembers whether it is a repository
/// and forgets what was typed; going up asks for the parent.
pub proof fn the_palette_walks(
    a: &mut Shell,
    b: &mut Shell,
    state: &AppState,
    full: String,
    repo: bool,
    down: Option<Request>,
    up: Option<Request>,
)
    requires
        call_ensures(Shell::add_project_descend, (a, state, full, repo), down),
        old(a).add_project is Some,
        call_ensures(Shell::add_project_go_up, (b, state), up),
        old(b).add_project is Some,
        old(b).add_project->0.browser is Ready,
        state.engine is Some,
    ensures
        down is Some && down->0@.method == Method::ListFolders && says_text(
            down->0@,
            "path"@,
            full@,
        ),
        final(a).add_project is Some && final(a).add_project->0.query@.len() == 0 && final(a).add_project->0.browser_repo == repo,
        old(b).add_project->0.browser->Ready_0.parent matches Some(p) ==> up is Some
            && up->0@.method == Method::ListFolders && says_text(up->0@, "path"@, p@) && !final(b).add_project->0.browser_repo,
        old(b).add_project->0.browser->Ready_0.parent is None ==> up is None && *final(b) == *old(b),
{
}

/// What came of a folder is shown: the folder, or why there is none. The folder
/// that came in place of none is the home folder from then on.
pub proof fn a_folder_that_arrives_is_shown(
    s: &mut Shell,
    home: bool,
    reply: Result<crate::shell::projects::FolderListing, String>,
)
    requires
        call_ensures(Shell::on_folders, (s, home, reply), ()),
        old(s).add_project is Some,
    ensures
        final(s).add_project is Some,
        reply matches Ok(l) ==> final(s).add_project->0.browser == Loadable::Ready(l),
        reply matches Ok(l) ==> home ==> opt(final(s).add_project->0.home) == Some(l.path@),
        reply matches Err(e) ==> final(s).add_project->0.browser == (Loadable::<
            crate::shell::projects::FolderListing,
        >::Error(e)),
        !home || reply is Err ==> final(s).add_project->0.home == old(s).add_project->0.home,
        final(s).add_project->0.query == old(s).add_project->0.query,
{
}

/// Keys of the palette: sideways walks the folders, escape closes, the arrows step,
/// enter chooses, and backspace goes up only when there is nothing to erase.
pub proof fn keys_of_the_palette(s: &Shell, key: &str, menu: MenuKey, a: PaletteAction)
    requires
        call_ensures(Shell::add_project_key, (s, key, menu), a),
        s.add_project is Some,
    ensures
        key@ == "right"@ ==> a is Open,
        key@ == "left"@ ==> a is GoUp,
        key@ != "right"@ && key@ != "left"@ ==> {
            &&& menu is Escape ==> a is Close
            &&& menu is Up ==> a == (PaletteAction::Step { down: false })
            &&& menu is Down ==> a == (PaletteAction::Step { down: true })
            &&& menu is Enter || menu is ModEnter ==> a is Submit
            &&& menu is Backspace && s.add_project->0.query@.len() == 0 ==> a is GoUp
            &&& menu is Backspace && s.add_project->0.query@.len() > 0 ==> a is Ignore
            &&& menu is Other ==> a is Ignore
        },
{
    reveal_strlit("right");
    reveal_strlit("left");
    assert("right"@.len() == 5 && "left"@.len() == 4);
}

/// Opening a canvas stays in the project that was asked for, or in the selected
/// one, and shows no chat; without any project the palette opens.
pub proof fn a_canvas_is_empty(
    s: &mut Shell,
    state: &mut AppState,
    project: Option<String>,
    now: i64,
    r: NewSession,
)
    requires
        call_ensures(Shell::open_new_session, (s, state, project, now), r),
    ensures
        project matches Some(p) ==> r is Canvas && opt(final(state).selected_project) == Some(p@)
            && final(state).selected_chat is None && final(s).route is Chat,
        project is None && old(state).selected_project is Some ==> r is Canvas && opt(
            final(state).selected_project,
        ) == opt(old(state).selected_project) && final(state).selected_chat is None,
        project is None && old(state).selected_project is None ==> r is AddProject && *final(state)
            == *old(state) && final(s).add_project is Some,
        final(state).projects == old(state).projects,
{
}

/// A project that was made is opened and gets a session; one that could not be
/// made goes again, and the palette says why.
pub proof fn a_made_project_is_opened(
    s: &mut Shell,
    state: &mut AppState,
    project: String,
    chat: String,
    error: Option<String>,
    now: i64,
    r: (Vec<Effect>, Option<CreateSession>),
)
    requires
        call_ensures(Shell::on_project_created_with, (s, state, project, chat, error, now), r),
    ensures
        error is None ==> final(s).add_project is None && final(s).route is Chat && opt(
            final(s).last_project_id,
        ) == Some(project@),
        error is None && old(state).engine is Some ==> r.1 is Some && mutates(
            r.1->0.request@,
            "createChat"@,
        ) && says_text(r.1->0.request@, "projectId"@, project@) && says_text(
            r.1->0.request@,
            "chatId"@,
            chat@,
        ),
        error is Some ==> r.1 is None && final(state).chats == old(state).chats && (forall|i: int|
            0 <= i < final(state).projects@.len() ==> (#[trigger] final(state).projects@[i]).id@
                != project@),
        error matches Some(e) ==> old(s).add_project is Some ==> opt(
            final(s).add_project->0.error,
        ) == Some(e@) && !final(s).add_project->0.submit_busy,
{
    names_differ();
    if error is Some {
        let p = crate::shell::projects::other_project(project@);
        crate::seqs::kept_members(old(state).projects@, p);
        let rows = final(state).projects@;
        assert forall|i: int| 0 <= i < rows.len() implies (#[trigger] rows[i]).id@ != project@ by {
            assert(rows.contains(rows[i]));
            assert(p(rows[i]));
        }
    }
}

/// The dialog that renames begins with the project's name.
pub proof fn a_rename_begins_with_the_name(
    s: &mut Shell,
    state: &AppState,
    project: String,
    i: int,
)
    requires
        call_ensures(Shell::open_rename_project, (s, state, project), ()),
        0 <= i < state.projects@.len(),
        state.projects@[i].id@ == project@,
        forall|j: int| 0 <= j < i ==> (#[trigger] state.projects@[j]).id@ != project@,
    ensures
        final(s).rename_project_dialog is Some,
        final(s).rename_project_dialog->0.project_id@ == project@,
        final(s).rename_project_dialog->0.text@ == state.projects@[i].display_name@,
{
    let p = project_named(project@);
    assert forall|j: int| 0 <= j < i implies !p(#[trigger] state.projects@[j]) by {
        assert(state.projects@[j].id@ != project@);
    }
    assert(p(state.projects@[i]));
    first_at_is(state.projects@, p, i);
}

/// Dropping a row keeps every project in the order, puts the row where it was
/// dropped, and keeps the others in their order.
pub proof fn a_dropped_row_lands_where_it_was_dropped(
    s: &mut Shell,
    order: Vec<String>,
    from: usize,
    to: usize,
    save: bool,
)
    requires
        call_ensures(Shell::commit_project_reorder, (s, order, from, to), save),
        from < order@.len(),
        to < order@.len(),
    ensures
        save,
        final(s).project_order@.len() == order@.len(),
        final(s).project_order@[to as int] == order@[from as int],
        final(s).project_order@.remove(to as int) == order@.remove(from as int),
        final(s).project_drag is None,
{
    let now = final(s).project_order@;
    assert(now == order@.remove(from as int).insert(to as int, order@[from as int]));
    assert(now.remove(to as int) =~= order@.remove(from as int));
}

/// A new sidebar shows the chat, and nothing over it.
pub proof fn a_new_sidebar_shows_the_chat(s: Shell)
    requires
        call_ensures(Shell::new, (), s),
    ensures
        s.route is Chat && s.add_project is None && s.rename_project_dialog is None
            && s.delete_project_confirm is None && s.project_menu is None && s.project_drag is None,
        s.project_order@.len() == 0 && s.last_project_id is None && s.sidebar_notice is None,
{
}

/// What is closed is closed, and nothing else with it.
pub proof fn closing_closes_one_thing(a: &mut Shell, b: &mut Shell)
    requires
        call_ensures(Shell::close_add_project, (a,), ()),
        call_ensures(Shell::close_project_menu, (b,), ()),
    ensures
        final(a).add_project is None && final(a).project_menu == old(a).project_menu
            && final(a).route == old(a).route,
        final(b).project_menu is None && final(b).add_project == old(b).add_project,
{
}

/// Under fresh ids a folder is chosen as under given ones: what is asked names the
/// id that the caller is given.
pub proof fn fresh_ids_are_named(
    s: &mut Shell,
    state: &mut AppState,
    r: Submitted,
)
    requires
        call_ensures(Shell::submit_add_project, (s, state), r),
    ensures
        r matches Submitted::Creating { project_id, request } ==> mutates(
            request@,
            "createProject"@,
        ) && says_text(request@, "projectId"@, project_id@),
        r matches Submitted::Existing { session: Some(c), .. } ==> mutates(
            c.request@,
            "createChat"@,
        ) && says_text(c.request@, "chatId"@, c.chat_id@),
        old(state).engine is None || old(s).add_project is None ==> r is Nothing,
{
    names_differ();
}

/// A made project's first chat has a fresh id, which the request names.
pub proof fn a_made_project_gets_a_fresh_chat(
    s: &mut Shell,
    state: &mut AppState,
    project: String,
    error: Option<String>,
    r: (Vec<Effect>, Option<CreateSession>),
)
    requires
        call_ensures(Shell::on_project_created, (s, state, project, error), r),
    ensures
        r.1 is Some <==> error is None && old(state).engine is Some,
        r.1 matches Some(c) ==> mutates(c.request@, "createChat"@) && says_text(
            c.request@,
            "chatId"@,
            c.chat_id@,
        ) && says_text(c.request@, "projectId"@, project@),
{
    names_differ();
}

/// A row that is carried over the list is over the row under the pointer.
pub proof fn a_carried_row_is_over_a_row(
    s: &mut Shell,
    from: usize,
    rel: i64,
    count: usize,
    changed: bool,
    slot: usize,
)
    requires
        old(s).project_drag is Some ==> old(s).project_drag->0.epoch < usize::MAX,
        call_ensures(Shell::project_drag_over, (s, from, rel, count), changed),
        call_ensures(crate::terminal::tabs::drop_index, (rel, 31, count), slot),
    ensures
        final(s).project_drag is Some,
        final(s).project_drag->0.over == slot && final(s).project_drag->0.from == from,
        final(s).project_order == old(s).project_order,
{
}

}
