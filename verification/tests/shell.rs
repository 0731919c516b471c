use nova_ui::proto::{Chat, ChatIndicator, Device, Project, Session, SessionStatus};
use nova_ui::shell::paths::{breadcrumbs, child_path, listing as listing_at, FolderName};
use nova_ui::shell::projects::{
    Crumb, FolderEntry, FolderListing, Loadable, MenuKey, NewSession, PaletteAction, Route, Shell,
    Submitted, PROJECT_ROW_SLOT,
};
use nova_ui::shell::sidebar::{
    active_rows_at, delete_copy, project_attention, render_active_rows, status_dot_color,
    visible_crumbs, AttentionRanks, PaletteList,
};
use nova_ui::state::{AppState, Effect, EngineHandle, EngineMode};
use nova_ui::terminal::panel::TabPlace;
use nova_ui::theme::{Paint, Platform, SchemeMirror, Theme, WHOLE};
use nova_ui::wire::{Method, Request, Value};

const NOW: i64 = 1_800_000_000_000_000;
const MINUTE: i64 = 60_000_000;

const RANKS: AttentionRanks = AttentionRanks {
    awaiting: 0,
    working: 1,
};

fn project(id: &str, path: &str, created: i64) -> Project {
    Project {
        id: id.into(),
        device_id: "here".into(),
        path: path.into(),
        display_name: path.trim_start_matches('/').into(),
        git_detected: true,
        created_at: created,
    }
}

fn chat(id: &str, project: &str, created: i64) -> Chat {
    Chat {
        id: id.into(),
        device_id: "here".into(),
        title: None,
        archived: false,
        cwd: None,
        branch: None,
        config: None,
        last_command: None,
        last_message_at: None,
        created_at: created,
        project_id: Some(project.into()),
        last_seen_at: None,
    }
}

fn session(chat: &str, status: SessionStatus) -> Session {
    Session {
        chat_id: chat.into(),
        device_id: "here".into(),
        status,
        started_at: None,
        updated_at: NOW,
    }
}

fn app() -> AppState {
    let mut state = AppState::new();
    let handle = EngineHandle {
        mode: EngineMode::InProcess,
        serving: true,
    };
    let _ = state.attach_engine(handle);
    state.on_local_device(None, Some(Value::Text("here".into())));
    state.apply_devices(vec![Device {
        id: "here".into(),
        name: "This one".into(),
        platform: "linux".into(),
        last_seen_at: None,
        created_at: None,
        version: None,
    }]);
    state.apply_projects(vec![project("p", "/one", 1), project("q", "/two", 2)]);
    state.apply_chats(vec![
        chat("a", "p", 10),
        chat("b", "p", 20),
        chat("c", "q", 30),
    ]);
    state
}

fn text<'a>(request: &'a Request, name: &str) -> Option<&'a str> {
    match request.param(name) {
        Some(Value::Text(s)) => Some(s),
        _ => None,
    }
}

fn listing(path: &str, names: &[&str]) -> FolderListing {
    FolderListing {
        path: path.into(),
        parent: Some("/".into()),
        crumbs: vec![
            Crumb {
                label: "/".into(),
                full_path: "/".into(),
            },
            Crumb {
                label: path.trim_start_matches('/').into(),
                full_path: path.into(),
            },
        ],
        folders: names
            .iter()
            .map(|n| FolderEntry {
                name: n.to_string(),
                full_path: format!("{path}/{n}"),
                is_repo: *n == "repo",
            })
            .collect(),
    }
}

#[test]
fn a_project_opens_on_the_chat_last_shown_there() {
    let mut state = app();
    let mut shell = Shell::new();
    shell.route = Route::Settings;
    shell.project_last_chat.insert("p".into(), "a".into());
    let _ = shell.activate_project(&mut state, "p".into(), NOW);
    assert_eq!(shell.route, Route::Chat);
    assert_eq!(shell.last_project_id, Some("p".to_string()));
    assert_eq!(state.selected_project, Some("p".to_string()));
    assert_eq!(state.selected_chat, Some("a".to_string()));
    // A chat that is gone gives way to the first that is there.
    shell.project_last_chat.insert("p".into(), "gone".into());
    let _ = shell.activate_project(&mut state, "p".into(), NOW);
    assert_eq!(state.selected_chat, Some("b".to_string()));
    // One of another project does too.
    shell.project_last_chat.insert("p".into(), "c".into());
    let _ = shell.activate_project(&mut state, "p".into(), NOW);
    assert_eq!(state.selected_project, Some("p".to_string()));
    assert_eq!(state.selected_chat, Some("b".to_string()));
}

#[test]
fn a_new_session_is_a_canvas_and_no_chat() {
    let mut state = app();
    let mut shell = Shell::new();
    let _ = shell.activate_project(&mut state, "p".into(), NOW);
    match shell.open_new_session(&mut state, Some("q".into()), NOW) {
        NewSession::Canvas(out) => {
            assert!(out.iter().all(|e| !matches!(e, Effect::Call(_))));
        }
        NewSession::AddProject(_) => panic!("there is a project"),
    }
    assert_eq!(state.selected_project, Some("q".to_string()));
    assert_eq!(state.selected_chat, None);
    // Without any project the palette opens.
    let mut empty = app();
    empty.apply_projects(vec![]);
    match shell.open_new_session(&mut empty, None, NOW) {
        NewSession::AddProject(Some(request)) => {
            assert!(request.method() == Method::ListFolders);
        }
        _ => panic!("no palette"),
    }
    assert!(shell.add_project.is_some());
}

#[test]
fn sessions_get_fresh_ids() {
    let mut state = app();
    let mut shell = Shell::new();
    let one = shell.create_session_in_project(&state, "p").unwrap();
    let two = shell.create_session_in_project(&state, "p").unwrap();
    assert_eq!(one.chat_id.len(), 36);
    assert_ne!(one.chat_id, two.chat_id);
    assert_eq!(one.chat_id.as_bytes()[14], b'4');
    assert!(one.request.method() == Method::Mutate);
    assert_eq!(text(&one.request, "op"), Some("createChat"));
    assert_eq!(text(&one.request, "chatId"), Some(one.chat_id.as_str()));
    assert_eq!(text(&one.request, "projectId"), Some("p"));
    let _ = shell.on_session_created(&mut state, one.chat_id.clone(), None, NOW);
    assert_eq!(state.selected_chat, Some(one.chat_id));
    let out = shell.on_session_created(&mut state, two.chat_id, Some("full".into()), NOW);
    assert!(out.is_empty());
    assert_eq!(
        shell.sidebar_notice,
        Some("Couldn't create the session: full".to_string())
    );
    state.engine = None;
    assert!(shell.create_session_in_project(&state, "p").is_none());
    assert_eq!(shell.sidebar_notice, Some("Engine not connected".to_string()));
}

#[test]
fn the_palette_walks_the_folders() {
    let state = app();
    let mut shell = Shell::new();
    let home = shell.open_add_project(&state).unwrap();
    assert!(home.method() == Method::ListFolders);
    assert!(home.param("path").is_none());
    shell.on_folders(true, Ok(listing("/home", &["docs", "repo"])));
    let flow = shell.add_project.as_ref().unwrap();
    assert_eq!(flow.home, Some("/home".to_string()));
    assert_eq!(flow.device.as_ref().unwrap().id, "here");
    let names: Vec<&str> = shell
        .add_project_filtered(&vec![1, 0, 7])
        .iter()
        .map(|f| f.name.as_str())
        .collect();
    assert_eq!(names, ["repo", "docs"]);
    assert_eq!(shell.add_project_matches(), [0, 1]);
    shell.add_project_query(" RE".into());
    assert_eq!(shell.add_project_matches(), [1]);
    let into = shell.add_project_open_active(&state, &vec![1]).unwrap();
    assert_eq!(text(&into, "path"), Some("/home/repo"));
    let flow = shell.add_project.as_ref().unwrap();
    assert!(flow.browser_repo);
    assert_eq!(flow.query, "");
    assert!(matches!(flow.browser, Loadable::Loading));
    shell.on_folders(false, Ok(listing("/home/repo", &[])));
    let up = shell.add_project_go_up(&state).unwrap();
    assert_eq!(text(&up, "path"), Some("/"));
    let again = shell.add_project_jump(&state, Some("/home/repo".into())).unwrap();
    assert_eq!(text(&again, "path"), Some("/home/repo"));
    shell.on_folders(false, Err("denied".into()));
    let retry = shell.add_project_retry(&state).unwrap();
    assert_eq!(text(&retry, "path"), Some("/home/repo"));
    shell.on_folders(false, Ok(listing("/home/repo", &["a", "repo"])));
    shell.add_project_step(Some(1));
    match shell.palette_frame(&vec![0, 1]).unwrap().list {
        PaletteList::Rows(rows) => {
            assert_eq!(rows[1].full_path, "/home/repo/repo");
            assert!(rows[1].is_repo && rows[1].highlighted && !rows[0].highlighted);
        }
        _ => panic!("no rows"),
    }
    let none = shell.palette_frame(&vec![]).unwrap().list;
    assert!(matches!(none, PaletteList::Note("No folders here")));
    shell.on_folders(false, Err("denied".into()));
    let frame = shell.palette_frame(&vec![]).unwrap();
    assert!(matches!(frame.list, PaletteList::Error(m) if m == "denied"));
    assert!(frame.submit_dimmed);
    shell.close_add_project();
    assert!(shell.palette_frame(&vec![]).is_none());
}

#[test]
fn keys_of_the_palette() {
    let state = app();
    let mut shell = Shell::new();
    let _ = shell.open_add_project(&state);
    let act = |s: &Shell, key: &str, menu: MenuKey| s.add_project_key(key, menu);
    assert_eq!(act(&shell, "right", MenuKey::Other), PaletteAction::Open);
    assert_eq!(act(&shell, "left", MenuKey::Other), PaletteAction::GoUp);
    assert_eq!(act(&shell, "escape", MenuKey::Escape), PaletteAction::Close);
    assert_eq!(
        act(&shell, "down", MenuKey::Down),
        PaletteAction::Step { down: true }
    );
    assert_eq!(act(&shell, "enter", MenuKey::Enter), PaletteAction::Submit);
    assert_eq!(act(&shell, "backspace", MenuKey::Backspace), PaletteAction::GoUp);
    shell.add_project_query("x".into());
    assert_eq!(act(&shell, "backspace", MenuKey::Backspace), PaletteAction::Ignore);
    shell.add_project_step(Some(4));
    assert_eq!(shell.add_project.as_ref().unwrap().active, 4);
}

#[test]
fn a_new_folder_becomes_a_project_at_once() {
    let mut state = app();
    let mut shell = Shell::new();
    let _ = shell.open_add_project(&state);
    shell.on_folders(true, Ok(listing("/home/new", &[])));
    let (id, request) = match shell.submit_add_project(&mut state) {
        Submitted::Creating {
            project_id,
            request,
        } => (project_id, request),
        _ => panic!("not created"),
    };
    assert_eq!(text(&request, "op"), Some("createProject"));
    assert_eq!(text(&request, "path"), Some("/home/new"));
    assert_eq!(text(&request, "deviceId"), Some("here"));
    assert_eq!(state.projects.len(), 3);
    assert_eq!(state.projects[2].id, id);
    assert_eq!(state.projects[2].display_name, "new");
    // A second press while it is made does nothing.
    assert!(matches!(
        shell.submit_add_project(&mut state),
        Submitted::Nothing
    ));
    let frame = shell.palette_frame(&vec![]).unwrap();
    assert_eq!(frame.submit_label, "Adding…");
    let (_, session) =
        shell.on_project_created(&mut state, id.clone(), None);
    let session = session.unwrap();
    assert_eq!(session.chat_id.len(), 36);
    assert_eq!(text(&session.request, "projectId"), Some(id.as_str()));
    assert_eq!(state.selected_project, Some(id));
    assert!(shell.add_project.is_none());
}

#[test]
fn a_project_that_cannot_be_made_goes_again() {
    let mut state = app();
    let mut shell = Shell::new();
    let _ = shell.open_add_project(&state);
    shell.on_folders(true, Ok(listing("/home/new", &[])));
    let id = match shell.submit_add_project_with(&mut state, "n".into(), "x".into(), NOW) {
        Submitted::Creating { project_id, .. } => project_id,
        _ => panic!("not created"),
    };
    assert_eq!(state.projects.len(), 3);
    let (out, session) =
        shell.on_project_created_with(&mut state, id, "x".into(), Some("disk".into()), NOW);
    assert!(out.is_empty() && session.is_none());
    assert_eq!(state.projects.len(), 2);
    let flow = shell.add_project.as_ref().unwrap();
    assert_eq!(flow.error, Some("disk".to_string()));
    assert!(!flow.submit_busy);
}

#[test]
fn a_known_folder_is_opened_not_doubled() {
    let mut state = app();
    let mut shell = Shell::new();
    let _ = shell.open_add_project(&state);
    shell.on_folders(true, Ok(listing("/two", &[])));
    match shell.submit_add_project_with(&mut state, "n".into(), "x".into(), NOW) {
        Submitted::Existing { session, .. } => {
            assert_eq!(text(&session.unwrap().request, "projectId"), Some("q"));
        }
        _ => panic!("doubled"),
    }
    assert_eq!(state.projects.len(), 2);
    assert_eq!(state.selected_project, Some("q".to_string()));
    assert!(shell.add_project.is_none());
}

#[test]
fn projects_are_renamed_and_removed_by_hand() {
    let state = app();
    let mut shell = Shell::new();
    shell.open_rename_project(&state, "p".into());
    assert_eq!(shell.rename_project_dialog.as_ref().unwrap().text, "one");
    shell.rename_project_dialog.as_mut().unwrap().text = "  First ".into();
    let request = shell.submit_rename_project().unwrap();
    assert_eq!(text(&request, "projectId"), Some("p"));
    assert_eq!(text(&request, "name"), Some("First"));
    assert!(shell.rename_project_dialog.is_none());
    shell.open_project_menu("p".into());
    shell.close_project_menu();
    assert_eq!(shell.project_menu, None);
    shell.open_rename_project(&state, "p".into());
    shell.cancel_rename();
    assert!(shell.submit_rename_project().is_none());
    shell.confirm_delete("p".into());
    shell.cancel_delete();
    assert_eq!(shell.delete_project_confirm, None);
    shell.open_project_menu("q".into());
    shell.confirm_delete("q".into());
    assert_eq!(shell.delete_project_confirm, Some("q".to_string()));
    assert_eq!(shell.project_menu, None);
    let request = shell.delete_project("q");
    assert_eq!(text(&request, "op"), Some("deleteProject"));
    assert_eq!(text(&request, "projectId"), Some("q"));
    assert_eq!(shell.delete_project_confirm, None);
    assert_eq!(
        delete_copy(&state, "p"),
        "Removing “one” permanently deletes its 2 sessions. This can’t be undone."
    );
    assert_eq!(
        delete_copy(&state, "q"),
        "Removing “two” permanently deletes its 1 session. This can’t be undone."
    );
}

#[test]
fn rows_are_dragged_into_an_order_that_is_kept() {
    let mut shell = Shell::new();
    let order: Vec<String> = vec!["a".into(), "b".into(), "c".into()];
    assert!(shell.project_drag_over(0, 2 * PROJECT_ROW_SLOT, 3));
    assert!(!shell.project_drag_over(0, 2 * PROJECT_ROW_SLOT + 5, 3));
    assert!(shell.drop_project_row(order.clone(), 0));
    assert_eq!(shell.project_order, ["b", "c", "a"]);
    assert!(shell.project_drag.is_none());
    assert!(!shell.commit_project_reorder(order, 9, 0));
    assert_eq!(shell.project_order, ["b", "c", "a"]);
}

#[test]
fn the_dot_of_a_project_is_its_most_urgent_chat() {
    let mut state = app();
    assert_eq!(project_attention(&state, "p", NOW, RANKS), None);
    state.apply_sessions(
        vec![
            session("a", SessionStatus::Working),
            session("c", SessionStatus::Working),
        ],
        0,
    );
    assert_eq!(
        project_attention(&state, "p", NOW, RANKS),
        Some(ChatIndicator::Working)
    );
    state.apply_sessions(
        vec![
            session("a", SessionStatus::Working),
            session("b", SessionStatus::AwaitingInput),
        ],
        0,
    );
    assert_eq!(
        project_attention(&state, "p", NOW, RANKS),
        Some(ChatIndicator::AwaitingInput)
    );
    assert_eq!(project_attention(&state, "q", NOW, RANKS), None);
}

#[test]
fn the_projects_list_follows_the_order_and_the_drag() {
    let mut state = app();
    let _ = state.select_project(Some("p".into()));
    let mut shell = Shell::new();
    let order: Vec<String> = vec!["q".into(), "gone".into(), "p".into(), "q".into()];
    let rows = shell.project_rows_at(&state, &order, false, NOW, RANKS);
    let names: Vec<&str> = rows.iter().map(|r| r.name.as_str()).collect();
    assert_eq!(names, ["two", "one"]);
    assert!(!rows[0].selected && rows[1].selected);
    assert_eq!(rows[0].place, TabPlace::Still);
    let _ = shell.update_project_drag_over(1, 0);
    let rows = shell.project_rows_at(&state, &order, true, NOW, RANKS);
    assert_eq!(rows[1].place, TabPlace::Spacer);
    assert_eq!(
        rows[0].place,
        TabPlace::Slide {
            start: 0,
            target: 1
        }
    );
    // A drag that ended elsewhere is forgotten.
    let _ = shell.project_rows_at(&state, &order, false, NOW, RANKS);
    assert!(shell.project_drag.is_none());
}

#[test]
fn the_sessions_list_shows_what_is_going_on() {
    let mut state = app();
    let mut busy = chat("a", "p", NOW - 5 * MINUTE);
    busy.title = Some("two\nlines".into());
    busy.branch = Some("  ".into());
    state.apply_chats(vec![
        busy,
        chat("b", "nowhere", NOW - 10 * MINUTE),
        chat("c", "q", NOW - 20 * MINUTE),
    ]);
    state.apply_sessions(
        vec![
            session("a", SessionStatus::Working),
            session("b", SessionStatus::AwaitingInput),
        ],
        0,
    );
    let rows = active_rows_at(&state, NOW);
    let a = rows.iter().find(|r| r.id == "a").unwrap();
    assert_eq!(a.title, "two lines");
    assert_eq!(a.time_ago, "5m");
    assert_eq!(a.folder, "one");
    assert_eq!(a.branch, None);
    assert_eq!(a.status, ChatIndicator::Working);
    let c = rows.iter().find(|r| r.id == "c").unwrap();
    assert_eq!(c.title, "New session");
    assert_eq!(c.status, ChatIndicator::Idle);
    // A chat whose project is gone is not listed.
    assert_eq!(rows.len(), 2);
    assert_eq!(render_active_rows(&state).len(), 2);
}

#[test]
fn dots_have_their_colors() {
    let mirror = SchemeMirror::default();
    let theme = Theme::dark(Platform::Other);
    let (paint, alpha) = status_dot_color(ChatIndicator::Working, &theme, &mirror);
    assert_eq!(
        paint,
        Paint::Oklch {
            l: 718,
            c: 202,
            h: 349_761
        }
    );
    assert_eq!(alpha, 850_000_000);
    let (paint, alpha) = status_dot_color(ChatIndicator::Errored, &theme, &mirror);
    assert_eq!((paint, alpha), (theme.danger, WHOLE));
}

#[test]
fn breadcrumbs_start_behind_home() {
    let crumb = |label: &str, full_path: &str| Crumb {
        label: label.into(),
        full_path: full_path.into(),
    };
    let listing = FolderListing {
        path: "/home/me/src".into(),
        parent: Some("/home/me".into()),
        crumbs: vec![
            crumb("/", "/"),
            crumb("home", "/home"),
            crumb("me", "/home/me"),
            crumb("src", "/home/me/src"),
        ],
        folders: vec![],
    };
    let shown = visible_crumbs(&listing, &Some("/home/me".into()));
    assert_eq!(shown.len(), 1);
    assert_eq!(shown[0].label, "src");
    assert!(shown[0].current);
    let all = visible_crumbs(&listing, &None);
    let labels: Vec<&str> = all.iter().map(|c| c.label.as_str()).collect();
    assert_eq!(labels, ["home", "me", "src"]);
    assert!(!all[0].current);
}

#[test]
fn paths_lead_from_the_root() {
    let way: Vec<(String, String)> = breadcrumbs("/home//me/")
        .into_iter()
        .map(|c| (c.label, c.full_path))
        .collect();
    let expected = [("/", "/"), ("home", "/home"), ("me", "/home/me")];
    assert_eq!(way.len(), 3);
    for (have, want) in way.iter().zip(expected) {
        assert_eq!((have.0.as_str(), have.1.as_str()), want);
    }
    assert_eq!(breadcrumbs("/").len(), 1);
    assert_eq!(child_path("/", "etc"), "/etc");
    assert_eq!(child_path("/home", "me"), "/home/me");
    let names = vec![FolderName {
        name: "src".into(),
        is_repo: true,
    }];
    let home = listing_at("/home/me".into(), &names);
    assert_eq!(home.parent.as_deref(), Some("/home"));
    assert_eq!(home.folders[0].full_path, "/home/me/src");
    assert!(home.folders[0].is_repo);
    assert_eq!(listing_at("/home".into(), &names).parent.as_deref(), Some("/"));
    assert_eq!(listing_at("/".into(), &names).parent, None);
}
