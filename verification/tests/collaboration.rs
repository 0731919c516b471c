use nova_ui::collaboration::{
    active_label, active_tone, child_row, control_label, mode_buttons, parent_reply,
    parent_status, placeholder, send_label, status_label, AgentKind, ChildControl,
    CollaborationAction, CollaborationPanel, ComposeMode, Tone, LATEST_LABEL, NOTHING_SAID,
};
use nova_ui::proto::{
    Chat, ChildAgent, ChildAgentStatus, CollaborationMessage, CollaborationSession,
    CollaborationSpeaker, MessagePart, MessageRole, SessionMessageEntry,
};
use nova_ui::state::{AppState, EngineHandle, EngineMode};

fn child(id: &str, agent: &str, status: ChildAgentStatus) -> ChildAgent {
    ChildAgent {
        id: id.into(),
        agent: agent.into(),
        status,
        activity: None,
        goal: None,
    }
}

fn said(speaker: CollaborationSpeaker, child: Option<&str>, body: &str) -> CollaborationMessage {
    CollaborationMessage {
        speaker,
        child_id: child.map(str::to_string),
        body: body.into(),
    }
}

fn app(children: Vec<ChildAgent>, messages: Vec<CollaborationMessage>) -> AppState {
    let mut state = AppState::new();
    let handle = EngineHandle {
        mode: EngineMode::InProcess,
        serving: true,
    };
    let _ = state.attach_engine(handle);
    state.apply_chats(vec![Chat {
        id: "c".into(),
        device_id: "host".into(),
        title: None,
        archived: false,
        cwd: None,
        branch: None,
        config: None,
        last_command: None,
        last_message_at: None,
        created_at: 0,
        project_id: None,
        last_seen_at: None,
    }]);
    let _ = state.select_chat_at(Some("c".into()), 0);
    state.apply_collaborations(vec![CollaborationSession {
        chat_id: "c".into(),
        available: true,
        parent_working: true,
        children,
        messages,
    }]);
    state
}

fn entry(role: MessageRole, texts: &[&str]) -> SessionMessageEntry {
    SessionMessageEntry {
        id: "m".into(),
        role,
        parts: texts
            .iter()
            .map(|t| MessagePart::Text {
                id: "p".into(),
                text: t.to_string(),
            })
            .collect(),
        created_at: 0,
        device_id: "host".into(),
        streaming: false,
        continuation_of: None,
    }
}

#[test]
fn a_draft_goes_to_the_chat_s_host() {
    let state = app(vec![child("k", "scout", ChildAgentStatus::Working)], vec![]);
    let mut panel = CollaborationPanel::new();
    panel.on_state_changed(&state);
    assert!(panel.submit(&state, "   ").is_none());
    let request = panel.submit(&state, "  look here \n").unwrap();
    assert_eq!(request.chat_id, "c");
    assert_eq!(request.target_device, "host");
    assert_eq!(request.message, Some("look here".to_string()));
    assert_eq!(request.action, CollaborationAction::Room);
    assert_eq!(request.child_id, Some("k".to_string()));
    assert_eq!(request.agent, None);
    // One at a time.
    assert!(panel.busy);
    assert!(panel.submit(&state, "again").is_none());
    assert!(panel.on_reply(Ok("delivered".into())));
    assert!(!panel.busy);
    assert_eq!(panel.notice, Some((true, "delivered".to_string())));
}

#[test]
fn spawning_names_the_agent_and_ends_in_the_room() {
    let state = app(vec![], vec![]);
    let mut panel = CollaborationPanel::new();
    assert_eq!(panel.select_mode(ComposeMode::Spawn), "Describe the child mission");
    panel.select_agent(AgentKind::Oracle);
    let request = panel.submit(&state, "find out").unwrap();
    assert_eq!(request.action, CollaborationAction::Spawn);
    assert_eq!(request.agent, Some(AgentKind::Oracle));
    assert!(panel.on_reply(Ok("spawned".into())));
    assert_eq!(panel.mode, ComposeMode::Room);
}

#[test]
fn a_refused_draft_is_kept() {
    let state = app(vec![], vec![]);
    let mut panel = CollaborationPanel::new();
    let _ = panel.submit(&state, "hello");
    assert!(!panel.on_reply(Err("no session".into())));
    assert_eq!(panel.notice, Some((false, "no session".to_string())));
    assert!(!panel.busy);
}

#[test]
fn without_an_engine_the_panel_says_so() {
    let mut state = app(vec![], vec![]);
    state.engine = None;
    let mut panel = CollaborationPanel::new();
    assert!(panel.submit(&state, "hello").is_none());
    assert_eq!(
        panel.notice,
        Some((false, "Engine not connected".to_string()))
    );
}

#[test]
fn the_selection_heals() {
    let mut panel = CollaborationPanel::new();
    let state = app(
        vec![
            child("a", "worker", ChildAgentStatus::Completed),
            child("b", "scout", ChildAgentStatus::NeedsAttention),
            child("c", "oracle", ChildAgentStatus::Completed),
        ],
        vec![],
    );
    panel.on_state_changed(&state);
    assert_eq!(panel.selected_child, Some("b".to_string()));
    panel.select_child("c".into());
    panel.on_state_changed(&state);
    assert_eq!(panel.selected_child, Some("c".to_string()));
    let fewer = app(
        vec![
            child("a", "worker", ChildAgentStatus::Completed),
            child("d", "scout", ChildAgentStatus::Stopped),
        ],
        vec![],
    );
    panel.on_state_changed(&fewer);
    assert_eq!(panel.selected_child, Some("d".to_string()));
    panel.on_state_changed(&app(vec![], vec![]));
    assert_eq!(panel.selected_child, None);
}

#[test]
fn another_child_takes_the_composer_back_to_the_room() {
    let mut panel = CollaborationPanel::new();
    let _ = panel.select_mode(ComposeMode::Resume);
    panel.select_child("a".into());
    assert_eq!(panel.mode, ComposeMode::Room);
    let _ = panel.select_mode(ComposeMode::Child);
    panel.select_child("b".into());
    assert_eq!(panel.mode, ComposeMode::Child);
}

#[test]
fn a_child_is_stopped_by_hand() {
    let state = app(vec![child("k", "scout", ChildAgentStatus::Working)], vec![]);
    let mut panel = CollaborationPanel::new();
    assert!(panel.control_child(&state, CollaborationAction::Stop).is_none());
    panel.on_state_changed(&state);
    let request = panel.control_child(&state, CollaborationAction::Stop).unwrap();
    assert_eq!(request.action, CollaborationAction::Stop);
    assert_eq!(request.child_id, Some("k".to_string()));
    assert_eq!(request.message, None);
    panel.on_control_reply(None);
    assert_eq!(panel.notice, Some((true, "control delivered".to_string())));
    panel.on_control_reply(Some("gone".into()));
    assert_eq!(panel.notice, Some((false, "gone".to_string())));
}

#[test]
fn the_parent_s_last_words_are_the_last_text_it_wrote() {
    assert_eq!(parent_reply(&vec![]), None);
    let entries = vec![
        entry(MessageRole::Assistant, &["early"]),
        entry(MessageRole::Assistant, &["one", "two"]),
        entry(MessageRole::User, &["thanks"]),
    ];
    assert_eq!(parent_reply(&entries), Some("one\ntwo".to_string()));
    // A last message without text says nothing.
    let silent = vec![
        entry(MessageRole::Assistant, &["early"]),
        entry(MessageRole::Assistant, &["  "]),
    ];
    assert_eq!(parent_reply(&silent), None);
}

#[test]
fn the_room_shows_its_children_and_lines() {
    let state = app(
        vec![
            child("k", "scout", ChildAgentStatus::Working),
            child("l", "oracle", ChildAgentStatus::Completed),
        ],
        vec![
            said(CollaborationSpeaker::You, None, "go"),
            said(CollaborationSpeaker::Child, Some("k"), "found it"),
            said(CollaborationSpeaker::Child, Some("l"), "not shown"),
        ],
    );
    let mut panel = CollaborationPanel::new();
    panel.on_state_changed(&state);
    panel.select_child("k".into());
    let frame = panel.frame(&state);
    assert_eq!(frame.active, 1);
    assert!(frame.parent_working);
    assert_eq!(frame.children.len(), 2);
    assert!(frame.children[0].selected && frame.children[0].running);
    assert_eq!(frame.control, Some(ChildControl::Stop));
    let lines: Vec<(&str, &str)> = frame
        .lines
        .iter()
        .map(|l| (l.label.as_str(), l.body.as_str()))
        .collect();
    assert_eq!(lines, [("you", "go"), ("scout", "found it")]);
    assert_eq!(frame.notice, "return to send");
    assert!(!frame.empty && frame.can_send);
    panel.select_child("l".into());
    assert_eq!(panel.frame(&state).control, Some(ChildControl::Resume));
}

#[test]
fn rows_and_labels() {
    let mut c = child("k", "scout", ChildAgentStatus::NeedsAttention);
    let row = child_row(&c, &None);
    assert_eq!(row.detail, "needs you");
    assert_eq!(row.tone, Tone::Warning);
    c.goal = Some("map the code".into());
    assert_eq!(child_row(&c, &None).detail, "map the code");
    c.activity = Some("reading".into());
    assert_eq!(child_row(&c, &None).detail, "reading");
    assert_eq!(status_label(ChildAgentStatus::Completed), "complete");
    assert_eq!(placeholder(ComposeMode::Room), "Message parent and child");
    assert_eq!(active_label(12), "12 active");
    assert_eq!(active_tone(0), Tone::Faint);
    assert_eq!(parent_status(true), ("coordinating", Tone::Accent));
    assert_eq!(parent_status(false), ("ready", Tone::Faint));
    assert_eq!(send_label(false), "sending");
    assert_eq!(control_label(ChildControl::Resume), "resume with message");
    let (room, child, spawn) = mode_buttons(ComposeMode::Child);
    assert_eq!((room.label, room.selected), ("room", false));
    assert_eq!((child.label, child.selected), ("child only", true));
    assert_eq!((spawn.label, spawn.selected), ("+ new child", false));
    assert_eq!(LATEST_LABEL, "parent · latest");
    assert!(NOTHING_SAID.starts_with("Select a child"));
}
