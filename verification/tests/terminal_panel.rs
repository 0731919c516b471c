use nova_ui::proto::{
    Chat, HarnessId, MessagePart, MessageRole, Session, SessionMessageEntry, SessionStatus,
    ToolCall,
};
use nova_ui::state::{AppState, EngineHandle, EngineMode};
use nova_ui::terminal::codec::{decode_base64, encode_base64};
use nova_ui::terminal::feed::{FeedExpansion, FeedStatus, FEED_FLASH_MS};
use nova_ui::terminal::panel::{
    chat_target, on_subscribe_failed, ClosedTab, FeedScroll, Flushed, KeyOutcome, Keystroke,
    PanelBody, Queued, SessionNext, SessionRun, StreamDisposition, TabGlyph, TabPlace,
    TerminalEvent, TerminalPanel, ToolOutputReply,
};
use nova_ui::terminal::tabs::TabKind;
use nova_ui::terminal::view::Modifiers;
use nova_ui::wire::{Method, Request, Value};

const NOW: i64 = 1_800_000_000_000_000;

fn chat(id: &str, device: &str) -> Chat {
    Chat {
        id: id.into(),
        device_id: device.into(),
        title: None,
        archived: false,
        cwd: None,
        branch: None,
        config: None,
        last_command: None,
        last_message_at: None,
        created_at: 0,
        project_id: None,
        last_seen_at: None,
    }
}

fn app(selected: &str) -> AppState {
    let mut state = AppState::new();
    let handle = EngineHandle {
        mode: EngineMode::InProcess,
        serving: true,
    };
    let _ = state.attach_engine(handle);
    state.on_local_device(None, Some(Value::Text("here".into())));
    state.apply_chats(vec![chat("near", "here"), chat("far", "there")]);
    let _ = state.select_chat_at(Some(selected.into()), NOW);
    state
}

fn command(id: &str, line: &str, resolved: bool) -> SessionMessageEntry {
    SessionMessageEntry {
        id: format!("m-{id}"),
        role: MessageRole::Assistant,
        parts: vec![MessagePart::Tool {
            id: id.into(),
            call: ToolCall::Exec {
                command: line.into(),
            },
            call_json: String::new(),
            is_error: false,
            resolved,
        }],
        created_at: 0,
        device_id: "here".into(),
        streaming: false,
        continuation_of: None,
    }
}

fn text<'a>(request: &'a Request, name: &str) -> Option<&'a str> {
    match request.param(name) {
        Some(Value::Text(s)) => Some(s),
        _ => None,
    }
}

fn number(request: &Request, name: &str) -> Option<u64> {
    match request.param(name) {
        Some(Value::Int(n)) => Some(*n),
        _ => None,
    }
}

fn kinds(panel: &TerminalPanel, chat: &str) -> Vec<TabKind> {
    panel
        .chats
        .get(chat)
        .map(|c| c.tabs.iter().map(|t| t.kind).collect())
        .unwrap_or_default()
}

/// An open panel on a chat, with its shell running.
fn running(state: &AppState, chat: &str) -> (TerminalPanel, SessionRun) {
    let mut panel = TerminalPanel::new();
    let start = panel.set_open(state, true).unwrap();
    assert_eq!(start.chat, chat);
    let run = SessionRun {
        chat: start.chat,
        key: start.key,
        target: start.target,
        attempt: 0,
    };
    let (next, _) = panel.on_opened(&run, Ok("t1".into()));
    assert!(matches!(next, SessionNext::Subscribe(_)));
    (panel, run)
}

#[test]
fn opening_gives_the_chat_an_agent_tab_and_a_shell() {
    let state = app("near");
    let mut panel = TerminalPanel::new();
    let start = panel.set_open(&state, true).unwrap();
    assert_eq!(kinds(&panel, "near"), [TabKind::Agent, TabKind::Pty]);
    assert_eq!(start.chat, "near");
    assert_eq!(start.target, None);
    assert_eq!(panel.chats.get("near").unwrap().active, 1);
    assert!(panel.body(&state) == PanelBody::Terminal);
    // Once more changes nothing.
    assert!(panel.ensure_tab(&state).is_none());
    assert_eq!(kinds(&panel, "near"), [TabKind::Agent, TabKind::Pty]);
    assert_eq!(panel.chats.get("near").unwrap().tabs[1].title, "Terminal 1");
}

#[test]
fn without_an_engine_no_shell_opens() {
    let mut state = AppState::new();
    state.apply_chats(vec![chat("near", "here")]);
    let _ = state.select_chat_at(Some("near".into()), NOW);
    let mut panel = TerminalPanel::new();
    assert!(panel.set_open(&state, true).is_none());
    assert!(kinds(&panel, "near").iter().all(|k| *k == TabKind::Agent));
}

#[test]
fn calls_are_routed_to_the_chat_s_host() {
    let state = app("far");
    assert_eq!(chat_target(&state, "far"), Some("there".to_string()));
    assert_eq!(chat_target(&state, "near"), None);
    assert_eq!(chat_target(&state, "gone"), None);
    let (mut panel, run) = running(&state, "far");
    let open = panel.open_request(&run);
    assert!(open.method() == Method::OpenTerminal);
    assert_eq!(text(&open, "chatId"), Some("far"));
    assert_eq!(text(&open, "targetDeviceId"), Some("there"));
    assert_eq!(number(&open, "cols"), Some(80));
    assert_eq!(number(&open, "rows"), Some(24));
    let _ = panel.queue_input(&state, b"ls\r", false);
    match panel.flush_input(&state, "far", run.key) {
        Flushed::Write(request) => {
            assert_eq!(text(&request, "targetDeviceId"), Some("there"));
            assert_eq!(text(&request, "terminalId"), Some("t1"));
            assert_eq!(decode_base64(text(&request, "data").unwrap()), b"ls\r");
        }
        _ => panic!("nothing written"),
    }
}

#[test]
fn a_stream_resumes_where_it_broke_off() {
    let state = app("near");
    let (mut panel, mut run) = running(&state, "near");
    run.attempt = 3;
    let event = TerminalEvent::Data {
        seq: 7,
        data: encode_base64(b"hello"),
    };
    let (go, feed) = panel.apply_stream_event(&mut run, event);
    assert_eq!(go, StreamDisposition::Continue);
    assert_eq!(feed.unwrap().bytes, b"hello");
    assert_eq!(run.attempt, 0);
    match panel.on_stream_end(&mut run) {
        SessionNext::Wait(ms) => assert_eq!(ms, 500),
        _ => panic!("gave up"),
    }
    assert_eq!(run.attempt, 1);
    match panel.resubscribe(&run, "t1") {
        SessionNext::Subscribe(request) => {
            assert!(request.method() == Method::SubscribeTerminal);
            assert_eq!(number(&request, "afterSeq"), Some(7));
        }
        _ => panic!("gave up"),
    }
    match on_subscribe_failed(&mut run) {
        SessionNext::Wait(ms) => assert_eq!(ms, 1000),
        _ => panic!("gave up"),
    }
    assert_eq!(run.attempt, 2);
}

#[test]
fn an_exit_ends_the_session() {
    let state = app("near");
    let (mut panel, mut run) = running(&state, "near");
    let event = TerminalEvent::Exit {
        seq: 9,
        exit_code: 130,
    };
    let (go, feed) = panel.apply_stream_event(&mut run, event);
    assert_eq!(go, StreamDisposition::Stop);
    let shown = String::from_utf8(feed.unwrap().bytes).unwrap();
    assert!(shown.contains("[process exited 130]"));
    assert_eq!(panel.active_tab(&state).unwrap().exited, Some(130));
    assert!(matches!(panel.on_stream_end(&mut run), SessionNext::Stop));
    // Input to a dead shell is dropped.
    assert!(panel.queue_input(&state, b"x", false).is_none());
}

#[test]
fn a_shell_that_does_not_open_says_so() {
    let state = app("near");
    let mut panel = TerminalPanel::new();
    let start = panel.set_open(&state, true).unwrap();
    let run = SessionRun {
        chat: start.chat,
        key: start.key,
        target: start.target,
        attempt: 0,
    };
    let (next, feed) = panel.on_opened(&run, Err("no pty".into()));
    assert!(matches!(next, SessionNext::Stop));
    let shown = String::from_utf8(feed.unwrap().bytes).unwrap();
    assert!(shown.contains("no pty"));
}

#[test]
fn a_shell_that_opens_too_late_is_released() {
    let state = app("near");
    let mut panel = TerminalPanel::new();
    let start = panel.set_open(&state, true).unwrap();
    let run = SessionRun {
        chat: start.chat,
        key: start.key,
        target: start.target,
        attempt: 0,
    };
    let ClosedTab {
        toggle_drawer,
        request,
    } = panel.close_tab(&state, "near", run.key).unwrap();
    assert!(toggle_drawer);
    assert!(request.is_none());
    let (next, feed) = panel.on_opened(&run, Ok("t1".into()));
    assert!(feed.is_none());
    match next {
        SessionNext::Release(request) => {
            assert!(request.method() == Method::CloseTerminal);
            assert_eq!(text(&request, "terminalId"), Some("t1"));
        }
        _ => panic!("the shell leaks"),
    }
}

#[test]
fn the_agent_tab_cannot_be_closed() {
    let state = app("near");
    let (mut panel, run) = running(&state, "near");
    let agent = panel.chats.get("near").unwrap().tabs[0].key;
    assert!(panel.close_tab(&state, "near", agent).is_none());
    let closed = panel.close_tab(&state, "near", run.key).unwrap();
    assert!(closed.toggle_drawer);
    assert_eq!(text(&closed.request.unwrap(), "terminalId"), Some("t1"));
    assert_eq!(kinds(&panel, "near"), [TabKind::Agent]);
}

#[test]
fn one_flush_writes_the_whole_burst() {
    let state = app("near");
    let (mut panel, run) = running(&state, "near");
    let first: Queued = panel.queue_input(&state, b"a", false).unwrap();
    assert!(first.flush);
    let second = panel.queue_input(&state, b"bc", false).unwrap();
    assert!(!second.flush);
    match panel.flush_input(&state, "near", run.key) {
        Flushed::Write(request) => {
            assert_eq!(decode_base64(text(&request, "data").unwrap()), b"abc");
        }
        _ => panic!("nothing written"),
    }
    assert!(matches!(
        panel.flush_input(&state, "near", run.key),
        Flushed::Nothing
    ));
}

#[test]
fn a_key_brings_the_screen_back_to_its_end() {
    let state = app("near");
    let (mut panel, _) = running(&state, "near");
    assert!(panel.queue_input(&state, b"a", true).unwrap().snap);
    assert!(!panel.queue_input(&state, b"a", false).unwrap().snap);
}

#[test]
fn input_waits_for_the_shell() {
    let state = app("near");
    let mut panel = TerminalPanel::new();
    let start = panel.set_open(&state, true).unwrap();
    let _ = panel.queue_input(&state, b"early", false);
    assert!(matches!(
        panel.flush_input(&state, "near", start.key),
        Flushed::Again
    ));
}

#[test]
fn keys_are_typed_pasted_or_passed_on() {
    let state = app("near");
    let (mut panel, run) = running(&state, "near");
    let press = |key: &str, key_char: Option<&str>, modifiers: Modifiers| Keystroke {
        key: key.into(),
        key_char: key_char.map(str::to_string),
        modifiers,
    };
    let command = Modifiers {
        platform: true,
        ..Modifiers::default()
    };
    let typed = panel.on_key_down(&state, &press("a", Some("a"), Modifiers::default()), false, false);
    assert!(matches!(typed, KeyOutcome::Consumed(Some(_))));
    let paste = panel.on_key_down(&state, &press("v", Some("v"), command), false, false);
    assert!(matches!(paste, KeyOutcome::Paste));
    let other = panel.on_key_down(&state, &press("capslock", None, Modifiers::default()), false, false);
    assert!(matches!(other, KeyOutcome::Pass));
    let _ = panel.paste_text(&state, "x\ny", true, false);
    match panel.flush_input(&state, "near", run.key) {
        Flushed::Write(request) => {
            let bytes = decode_base64(text(&request, "data").unwrap());
            assert!(bytes.starts_with(b"a\x1b[200~"));
            assert!(bytes.ends_with(b"\x1b[201~"));
        }
        _ => panic!("nothing written"),
    }
}

#[test]
fn a_new_grid_is_announced_once() {
    let state = app("near");
    let (mut panel, _) = running(&state, "near");
    let resize = panel.on_grid_metrics(&state, 100, 30).unwrap();
    assert!(resize.announce);
    let request = panel.resize_request(&resize).unwrap();
    assert!(request.method() == Method::ResizeTerminal);
    assert_eq!(number(&request, "cols"), Some(100));
    assert_eq!(number(&request, "rows"), Some(30));
    assert!(panel.on_grid_metrics(&state, 100, 30).is_none());
}

#[test]
fn device_answers_go_back_to_the_shell() {
    let state = app("near");
    let (panel, run) = running(&state, "near");
    assert!(panel
        .answer_request(&state, "near", run.key, &vec![])
        .is_none());
    let request = panel
        .answer_request(&state, "near", run.key, &b"\x1b[0n".to_vec())
        .unwrap();
    assert!(request.method() == Method::WriteTerminal);
    assert_eq!(decode_base64(text(&request, "data").unwrap()), b"\x1b[0n");
}

#[test]
fn shells_are_dragged_and_the_agent_tab_stays_first() {
    let state = app("near");
    let (mut panel, _) = running(&state, "near");
    let _ = panel.open_tab(&state, "near");
    let _ = panel.open_tab(&state, "near");
    let keys = |p: &TerminalPanel| -> Vec<u64> {
        p.chats.get("near").unwrap().tabs.iter().map(|t| t.key).collect()
    };
    let before = keys(&panel);
    assert!(panel.drag_over("near", "near", 3, 10));
    let chips = panel.tab_bar(&state, "near", NOW);
    assert_eq!(chips[3].place, TabPlace::Spacer);
    assert_eq!(
        chips[1].place,
        TabPlace::Slide {
            start: 0,
            target: 1
        }
    );
    panel.drop_tab("near", "near", 3);
    assert_eq!(keys(&panel), [before[0], before[3], before[1], before[2]]);
    assert_eq!(kinds(&panel, "near")[0], TabKind::Agent);
    assert!(panel.drag.is_none());
    // The tab that was active still is.
    let active = panel.chats.get("near").unwrap().active;
    assert_eq!(keys(&panel)[active], before[3]);
    // A drag from another chat is not taken.
    assert!(!panel.drag_over("near", "far", 1, 200));
    panel.heal_drag(false);
    assert!(panel.drag.is_none());
}

#[test]
fn tabs_are_named_and_marked() {
    let mut state = app("near");
    let (mut panel, run) = running(&state, "near");
    state.apply_transcript(vec![command("t", "sleep 9", false)], 0);
    state.apply_sessions(
        vec![Session {
            chat_id: "near".into(),
            device_id: "here".into(),
            status: SessionStatus::Working,
            started_at: None,
            updated_at: NOW,
        }],
        0,
    );
    let chips = panel.tab_bar(&state, "near", NOW);
    assert_eq!(chips[0].title, "agent's terminal");
    assert_eq!(chips[0].glyph, TabGlyph::Spinner);
    assert_eq!(chips[1].title, "Terminal 1");
    assert_eq!(chips[1].glyph, TabGlyph::Terminal);
    assert!(chips[1].selected);
    assert!(!chips[0].selected);
    // A minute later the session is as good as dead.
    let later = panel.tab_bar(&state, "near", NOW + 60_000_000);
    assert_eq!(later[0].glyph, TabGlyph::Harness(HarnessId::Pi));
    assert!(panel.select_tab("near", 0));
    assert!(!panel.select_tab("near", 2));
    assert!(panel.active_is_agent(&state));
    assert!(panel.body(&state) == PanelBody::Feed);
    assert_eq!(panel.scroll_active(&state, 0), None);
    assert!(panel.select_tab("near", 1));
    assert_eq!(panel.scroll_active(&state, 3), Some(run.key));
}

#[test]
fn a_click_flips_a_row_and_a_second_flips_it_back() {
    let mut state = app("near");
    state.apply_transcript(
        vec![command("a", "ls", true), command("b", "pwd", true)],
        0,
    );
    let mut panel = TerminalPanel::new();
    let _ = panel.set_open(&state, true);
    let open = |p: &mut TerminalPanel, i: usize| {
        let frame = p.feed_frame(&state, "near", NOW, true);
        frame.rows[i].expansion != FeedExpansion::Collapsed
    };
    assert!(!open(&mut panel, 0));
    assert!(open(&mut panel, 1));
    panel.toggle_feed_row(&state.transcript, "near", "a");
    panel.toggle_feed_row(&state.transcript, "near", "b");
    assert!(open(&mut panel, 0));
    assert!(!open(&mut panel, 1));
    panel.toggle_feed_row(&state.transcript, "near", "a");
    assert!(!open(&mut panel, 0));
    assert!(!open(&mut panel, 1));
}

#[test]
fn output_is_asked_for_once_and_kept() {
    let mut state = app("far");
    state.apply_transcript(vec![command("a", "ls", true)], 0);
    let mut panel = TerminalPanel::new();
    let _ = panel.set_open(&state, true);
    let frame = panel.feed_frame(&state, "far", NOW, true);
    assert_eq!(frame.rows.len(), 1);
    assert_eq!(frame.rows[0].entry.command, "ls");
    assert_eq!(frame.rows[0].expansion, FeedExpansion::Loading);
    assert_eq!(frame.fetches.len(), 1);
    let ask = &frame.fetches[0];
    assert!(ask.method() == Method::ToolOutput);
    assert_eq!(text(ask, "chatId"), Some("far"));
    assert_eq!(text(ask, "toolId"), Some("a"));
    assert_eq!(text(ask, "targetDeviceId"), Some("there"));
    assert!(panel.feed_frame(&state, "far", NOW, true).fetches.is_empty());
    let reply = ToolOutputReply {
        found: true,
        output: Some("one\ntwo".into()),
        truncated: false,
    };
    assert!(panel.on_tool_output("far", "a", Some(reply)));
    let frame = panel.feed_frame(&state, "far", NOW, true);
    assert!(frame.fetches.is_empty());
    assert_eq!(
        frame.rows[0].expansion,
        FeedExpansion::Lines(vec!["one".into(), "two".into()])
    );
    // The taller row is followed from the bottom, and only from there.
    assert_eq!(frame.scroll, Some(FeedScroll::ToBottom));
    assert!(panel.feed_frame(&state, "far", NOW, true).scroll.is_none());
}

#[test]
fn no_record_is_an_answer_and_no_answer_is_none() {
    let mut state = app("near");
    state.apply_transcript(vec![command("a", "ls", true)], 0);
    let mut panel = TerminalPanel::new();
    let _ = panel.set_open(&state, true);
    let first = panel.ensure_feed_fetch(&state, "near", "a", FeedStatus::Done);
    assert!(first.is_some());
    let reply = ToolOutputReply {
        found: false,
        output: None,
        truncated: false,
    };
    let _ = panel.on_tool_output("near", "a", Some(reply));
    let again = panel.ensure_feed_fetch(&state, "near", "a", FeedStatus::Done);
    assert!(again.is_none());
    // A running command has no output to ask for.
    let running = panel.ensure_feed_fetch(&state, "near", "b", FeedStatus::Running);
    assert!(running.is_none());
}

#[test]
fn links_light_their_rows_and_scroll_to_the_first() {
    let mut state = app("near");
    state.apply_transcript(
        vec![
            command("a", "ls", true),
            command("b", "pwd", true),
            command("c", "id", true),
        ],
        0,
    );
    let mut panel = TerminalPanel::new();
    let _ = panel.set_open(&state, true);
    assert!(panel.reveal_agent_commands(&state, vec!["b".into(), "c".into()]));
    assert!(panel.active_is_agent(&state));
    let frame = panel.feed_frame(&state, "near", NOW, false);
    assert_eq!(frame.scroll, Some(FeedScroll::ToItem(1)));
    let lit: Vec<bool> = frame.rows.iter().map(|r| r.flashing).collect();
    assert_eq!(lit, [false, true, true]);
    panel.clear_flash();
    let frame = panel.feed_frame(&state, "near", NOW, false);
    assert!(frame.rows.iter().all(|r| !r.flashing));
    assert_eq!(FEED_FLASH_MS, 1600);
}

#[test]
fn another_chat_gets_its_own_tabs() {
    let mut state = app("near");
    let (mut panel, run) = running(&state, "near");
    let _ = state.select_chat_at(Some("far".into()), NOW);
    let change = panel.on_state_changed(&state);
    assert!(change.switched && change.redraw);
    assert_eq!(change.start.unwrap().target, Some("there".to_string()));
    assert_eq!(kinds(&panel, "far"), [TabKind::Agent, TabKind::Pty]);
    // The first chat's shell is as it was.
    let kept = panel.chats.get("near").unwrap();
    assert_eq!(kept.tabs[1].key, run.key);
    assert_eq!(kept.tabs[1].terminal_id, Some("t1".to_string()));
    let same = panel.on_state_changed(&state);
    assert!(!same.switched && same.start.is_none());
}

#[test]
fn the_agent_s_tab_is_never_displaced() {
    let state = app("near");
    let (mut panel, run) = running(&state, "near");
    let agent = panel.chats.get("near").unwrap().tabs[0].key;
    let _ = panel.open_tab(&state, "near");
    panel.ensure_agent_tab("near");
    for rel in [-50, 0, 130, 9000] {
        let _ = panel.drag_over("near", "near", 2, rel);
        panel.drop_tab("near", "near", 2);
    }
    let _ = panel.close_tab(&state, "near", run.key);
    let tabs = &panel.chats.get("near").unwrap().tabs;
    assert_eq!(tabs[0].key, agent);
    assert_eq!(kinds(&panel, "near"), [TabKind::Agent, TabKind::Pty]);
}
