use nova_ui::proto::{
    chat_location, display_status, effective_indicator, format_time_ago, gate_phase, group_chats,
    project_label, sort_active, sort_chats, sort_tabs, Chat, ChatConfig, ChatIndicator,
    ConnectionStatus, Device, GatePhase, HarnessId, Indicator, MessagePart, MessageRole, PeerView,
    Project, Session, SessionMessageEntry, SessionStatus, ToolCall, SESSION_STALE_MS,
};
use nova_ui::saved::{saved_chat, selection_body};
use nova_ui::state::{
    boot_next, boot_start, ipc_url, live_tokens_per_sec, reported_device, AppState, BootEvent,
    BootStep, Effect, EngineBootConfig, EngineHandle, EngineMode, ShutdownStep, FRAME_MICROS,
    PROBE_TIMEOUT_MS, RESTORE_POLLS, SELECTION_FILE,
};
use nova_ui::wire::{Method, Value};

const SECOND: i64 = 1_000_000;
const MINUTE: i64 = 60 * SECOND;

fn base() -> i64 {
    chrono::DateTime::parse_from_rfc3339("2026-07-19T12:00:00Z")
        .unwrap()
        .timestamp_micros()
}

fn utc_now() -> i64 {
    chrono::Utc::now().timestamp_micros()
}

fn chat(id: &str, created_min: i64, last_msg_min: Option<i64>) -> Chat {
    Chat {
        id: id.into(),
        device_id: "dev".into(),
        title: None,
        archived: false,
        cwd: None,
        branch: None,
        config: None,
        last_command: None,
        last_message_at: last_msg_min.map(|m| base() + m * MINUTE),
        created_at: base() + created_min * MINUTE,
        project_id: None,
        last_seen_at: None,
    }
}

fn project(id: &str, device_id: &str, path: &str, created_min: i64) -> Project {
    Project {
        id: id.into(),
        device_id: device_id.into(),
        path: path.into(),
        display_name: path.into(),
        git_detected: false,
        created_at: base() + created_min * MINUTE,
    }
}

fn session(chat_id: &str, status: SessionStatus, updated_secs_ago: i64, now: i64) -> Session {
    Session {
        chat_id: chat_id.into(),
        device_id: "dev".into(),
        status,
        started_at: None,
        updated_at: now - updated_secs_ago * SECOND,
    }
}

fn entry(id: &str, role: MessageRole, parts: Vec<MessagePart>) -> SessionMessageEntry {
    SessionMessageEntry {
        id: id.into(),
        role,
        parts,
        created_at: 0,
        device_id: "d".into(),
        streaming: false,
        continuation_of: None,
    }
}

fn handle() -> EngineHandle {
    EngineHandle {
        mode: EngineMode::InProcess,
        serving: true,
    }
}

fn boot_config() -> EngineBootConfig {
    EngineBootConfig {
        data_dir: "/data".into(),
        ipc_port: 27654,
        nova_port: 27655,
        update_url: None,
        default_harness: HarnessId::Mock,
    }
}

#[test]
fn chats_sort_by_last_message_desc_with_created_fallback() {
    let mut chats = vec![
        chat("a", 0, Some(10)),
        chat("b", 5, None), // no messages → keys on created_at (+5min)
        chat("c", 1, Some(30)),
        chat("d", 40, None), // created after every message
    ];
    sort_chats(&mut chats);
    let order: Vec<&str> = chats.iter().map(|c| c.id.as_str()).collect();
    assert_eq!(order, ["d", "c", "a", "b"]);
}

#[test]
fn chat_sort_ties_are_deterministic() {
    let mut chats = vec![chat("z", 0, Some(10)), chat("a", 0, Some(10))];
    sort_chats(&mut chats);
    assert_eq!(chats[0].id, "a");
}

#[test]
fn working_indicator_staleness() {
    let now = utc_now();
    // Fresh working session shows.
    let fresh = session("c", SessionStatus::Working, 10, now);
    assert_eq!(effective_indicator(Some(&fresh), now), Indicator::Working);
    // Stale working session is suppressed — crashed backend, not eternal spinner.
    let stale = session("c", SessionStatus::Working, 46, now);
    assert_eq!(effective_indicator(Some(&stale), now), Indicator::Quiet);
    // Exactly at the boundary still shows (strictly-older-than semantics).
    let edge = session("c", SessionStatus::Working, 45, now);
    assert_eq!(effective_indicator(Some(&edge), now), Indicator::Working);
    // Future timestamps (clock skew) count as fresh.
    let skewed = session("c", SessionStatus::Working, -30, now);
    assert_eq!(effective_indicator(Some(&skewed), now), Indicator::Working);
    assert_eq!(SESSION_STALE_MS, 45_000);
}

#[test]
fn indicator_kinds() {
    let now = utc_now();
    assert_eq!(effective_indicator(None, now), Indicator::Quiet);
    let idle = session("c", SessionStatus::Idle, 0, now);
    assert_eq!(effective_indicator(Some(&idle), now), Indicator::Quiet);
    // Errored is not staleness-gated: the error stays visible.
    let errored = session("c", SessionStatus::Errored, 600, now);
    assert_eq!(effective_indicator(Some(&errored), now), Indicator::Errored);
    let awaiting = session("c", SessionStatus::AwaitingInput, 5, now);
    assert_eq!(
        effective_indicator(Some(&awaiting), now),
        Indicator::AwaitingInput
    );
    let awaiting_stale = session("c", SessionStatus::AwaitingInput, 300, now);
    assert_eq!(
        effective_indicator(Some(&awaiting_stale), now),
        Indicator::Quiet
    );
}

#[test]
fn display_status_derivation() {
    let now = utc_now();
    let mut c = chat("c", 0, Some(10));
    // Live states win regardless of seen.
    let working = session("c", SessionStatus::Working, 5, now);
    assert_eq!(
        display_status(&c, Some(&working), now),
        ChatIndicator::Working
    );
    let awaiting = session("c", SessionStatus::AwaitingInput, 5, now);
    assert_eq!(
        display_status(&c, Some(&awaiting), now),
        ChatIndicator::AwaitingInput
    );
    // Finished + unseen = Completed (no session row at all).
    assert_eq!(display_status(&c, None, now), ChatIndicator::Completed);
    // Idle session + unseen = Completed.
    let idle = session("c", SessionStatus::Idle, 5, now);
    assert_eq!(
        display_status(&c, Some(&idle), now),
        ChatIndicator::Completed
    );
    // Stale working session falls back to the seen check.
    let stale = session("c", SessionStatus::Working, 300, now);
    assert_eq!(
        display_status(&c, Some(&stale), now),
        ChatIndicator::Completed
    );
    // Seen after the last message = Idle.
    c.last_seen_at = c.last_message_at.map(|t| t + MINUTE);
    assert_eq!(display_status(&c, Some(&idle), now), ChatIndicator::Idle);
    // Errored + unseen = Errored; seen clears it to Idle.
    let errored = session("c", SessionStatus::Errored, 600, now);
    assert_eq!(display_status(&c, Some(&errored), now), ChatIndicator::Idle);
    c.last_seen_at = None;
    assert_eq!(
        display_status(&c, Some(&errored), now),
        ChatIndicator::Errored
    );
    // No messages at all: nothing to see — Idle.
    let fresh = chat("f", 0, None);
    assert_eq!(display_status(&fresh, None, now), ChatIndicator::Idle);
}

#[test]
fn active_list_sorts_by_recency_only_status_never_moves_rows() {
    let a = chat("a", 0, Some(10)); // Completed (older)
    let b = chat("b", 0, Some(20)); // Completed (newer)
    let c = chat("c", 0, Some(5)); // AwaitingInput
    let d = chat("d", 0, Some(1)); // Working
    let mut rows = vec![
        (ChatIndicator::Completed, &a),
        (ChatIndicator::Completed, &b),
        (ChatIndicator::AwaitingInput, &c),
        (ChatIndicator::Working, &d),
    ];
    sort_active(&mut rows);
    let order: Vec<&str> = rows.iter().map(|(_, c)| c.id.as_str()).collect();
    assert_eq!(order, ["b", "a", "c", "d"], "recency desc, status ignored");

    // Opening a completed session (completed → seen → idle) must NOT
    // change its position (user report: rows jumped under the pointer).
    let mut seen = vec![
        (ChatIndicator::Idle, &a),
        (ChatIndicator::Completed, &b),
        (ChatIndicator::AwaitingInput, &c),
        (ChatIndicator::Working, &d),
    ];
    sort_active(&mut seen);
    let order_after: Vec<&str> = seen.iter().map(|(_, c)| c.id.as_str()).collect();
    assert_eq!(order, order_after);
}

#[test]
fn tabs_order_by_creation_not_activity() {
    let a = chat("a", 5, Some(100)); // created later, very active
    let b = chat("b", 1, Some(2));
    let mut tabs = vec![&a, &b];
    sort_tabs(&mut tabs);
    let order: Vec<&str> = tabs.iter().map(|c| c.id.as_str()).collect();
    assert_eq!(order, ["b", "a"]);
}

#[test]
fn apply_projects_sorts_and_heals_selection() {
    let mut state = AppState::new();
    state.apply_projects(vec![
        project("s2", "dev", "/b", 2),
        project("s1", "dev", "/a", 1),
    ]);
    let ids: Vec<&str> = state.projects.iter().map(|s| s.id.as_str()).collect();
    assert_eq!(ids, ["s1", "s2"]);
    // First frame auto-selects the first project.
    assert_eq!(state.selected_project.as_deref(), Some("s1"));
    state.selected_project = Some("s2".into());
    // Vanished selection heals to the first project.
    state.apply_projects(vec![project("s1", "dev", "/a", 1)]);
    assert_eq!(state.selected_project.as_deref(), Some("s1"));
    // No projects at all: selection clears.
    state.apply_projects(vec![]);
    assert_eq!(state.selected_project, None);
}

#[test]
fn live_tokens_per_sec_derivation() {
    let rate = |chars: u64, seconds: u64| {
        live_tokens_per_sec(chars, seconds * 1_000_000)
            .map(|r| r.tokens as f64 / r.seconds as f64)
    };
    // 800 chars at ~4 chars/token over 10s → 20 tok/s.
    assert_eq!(
        rate(800, 10),
        Some(20.0),
        "chars ÷ chars-per-token ÷ seconds"
    );
    // Nothing streamed yet: no rate.
    assert_eq!(rate(0, 5), None);
    // Sub-frame elapsed window (the first instant of a turn): no rate,
    // so we never flash a div-by-near-zero blowup.
    assert_eq!(rate(400, 0), None);
    assert_eq!(live_tokens_per_sec(400, 1_000), None);
    assert_eq!(live_tokens_per_sec(400, FRAME_MICROS - 1), None);
    assert!(live_tokens_per_sec(400, FRAME_MICROS).is_some());
}

#[test]
fn current_turn_streamed_counts_only_this_turn() {
    fn text_entry(id: &str, role: MessageRole, text: &str, streaming: bool) -> SessionMessageEntry {
        SessionMessageEntry {
            streaming,
            ..entry(
                id,
                role,
                vec![MessagePart::Text {
                    id: format!("{id}-p"),
                    text: text.into(),
                }],
            )
        }
    }
    let tool_json = "{\"kind\":\"readFile\",\"path\":\"/src/main.rs\"}";
    let mut state = AppState::new();
    state.transcript = vec![
        // Prior turn — must NOT be counted (it precedes the last user msg).
        text_entry("u0", MessageRole::User, "earlier prompt", false),
        text_entry(
            "a-early",
            MessageRole::Assistant,
            "earlier answer that is long, real long to make the point",
            false,
        ),
        // Current turn: this user message rolls the boundary forward.
        text_entry("u1", MessageRole::User, "build it", false),
        text_entry("a1", MessageRole::Assistant, "reasoning round", false),
        text_entry("a2", MessageRole::Assistant, "another round", false),
        text_entry("a3", MessageRole::Assistant, "the live burst", true),
        // A tool round: its JSON arguments are model-generated output tokens,
        // exactly what pi's real `output` counts — so they belong in the live
        // estimate too.
        entry(
            "a4",
            MessageRole::Assistant,
            vec![MessagePart::Tool {
                id: "a4-t".into(),
                call: ToolCall::Other,
                call_json: tool_json.to_string(),
                is_error: false,
                resolved: true,
            }],
        ),
    ];
    // Tool JSON is counted (exact serialized length), on top of the text.
    let expected = ("reasoning round".chars().count()
        + "another round".chars().count()
        + "the live burst".chars().count()
        + tool_json.chars().count()) as u64;
    assert_eq!(
        state.current_turn_streamed(),
        expected,
        "tool rounds of the current turn count"
    );
}

#[test]
fn the_live_rate_needs_a_running_turn() {
    let mut state = AppState::new();
    state.transcript = vec![entry(
        "a",
        MessageRole::Assistant,
        vec![MessagePart::Text {
            id: "p".into(),
            text: "abcdefgh".into(),
        }],
    )];
    assert_eq!(state.live_tokens_per_sec(5_000_000), None);
    state.working_since = Some(1_000_000);
    let rate = state.live_tokens_per_sec(2_000_000).unwrap();
    assert_eq!(rate.tokens / rate.seconds, 2);
    // Nor is there one within the first frame.
    assert_eq!(state.live_tokens_per_sec(1_001_000), None);
    // A clock reading from before the start gives no rate.
    assert_eq!(state.live_tokens_per_sec(500_000), None);
}

#[test]
fn chats_in_project_filters_and_orders() {
    let mut state = AppState::new();
    state.apply_projects(vec![project("s1", "dev", "/a", 1)]);
    let mut in_project_new = chat("new", 5, None);
    in_project_new.project_id = Some("s1".into());
    let mut in_project_old = chat("old", 1, Some(50)); // active but created first
    in_project_old.project_id = Some("s1".into());
    let mut other = chat("other", 2, None);
    other.project_id = Some("s2".into());
    let mut archived = chat("gone", 0, None);
    archived.project_id = Some("s1".into());
    archived.archived = true;
    let dangling = chat("dangling", 3, None); // no project id
    state.apply_chats(vec![
        in_project_new,
        in_project_old,
        other,
        archived,
        dangling,
    ]);
    let ids: Vec<&str> = state
        .chats_in_project("s1")
        .iter()
        .map(|c| c.id.as_str())
        .collect();
    assert_eq!(ids, ["old", "new"]);
    // The overview shows every live-project chat (idle included) — chats of
    // unknown projects stay hidden. Completed ("old") outranks idle ("new").
    let now = utc_now();
    let overview: Vec<&str> = state
        .overview_chats(now)
        .iter()
        .map(|(_, c)| c.id.as_str())
        .collect();
    assert_eq!(overview, ["old", "new"]);
}

#[test]
fn apply_chats_drops_vanished_selection() {
    let mut state = AppState::new();
    state.apply_chats(vec![chat("a", 0, None), chat("b", 1, None)]);
    state.selected_chat = Some("a".into());
    state.transcript = vec![];
    state.apply_chats(vec![chat("b", 1, None)]);
    assert_eq!(state.selected_chat, None);
    // Still-present selection survives.
    state.selected_chat = Some("b".into());
    state.apply_chats(vec![chat("b", 1, None), chat("c", 2, None)]);
    assert_eq!(state.selected_chat.as_deref(), Some("b"));
}

#[test]
fn apply_chat_config_stamps_the_row() {
    let mut state = AppState::new();
    state.apply_chats(vec![chat("a", 0, None), chat("b", 1, None)]);
    let config = ChatConfig {
        harness: HarnessId::ClaudeCode,
        model: Some("fable-5".into()),
        reasoning: Some("xhigh".into()),
        model_options: "{}".into(),
        sandbox: "workspace-write".into(),
    };
    state.apply_chat_config("a", config.clone());
    assert_eq!(
        state.chats.iter().find(|c| c.id == "a").unwrap().config,
        Some(config)
    );
    assert!(state
        .chats
        .iter()
        .find(|c| c.id == "b")
        .unwrap()
        .config
        .is_none());
    // Unknown chat: no-op, no panic.
    state.apply_chat_config(
        "missing",
        ChatConfig {
            harness: HarnessId::ClaudeCode,
            model: None,
            reasoning: None,
            model_options: "{}".into(),
            sandbox: "workspace-write".into(),
        },
    );
}

#[test]
fn visible_chats_filters_archived() {
    let mut state = AppState::new();
    let mut archived = chat("a", 0, Some(99));
    archived.archived = true;
    state.apply_chats(vec![archived, chat("b", 1, None)]);
    let visible: Vec<&str> = state
        .visible_chats()
        .iter()
        .map(|c| c.id.as_str())
        .collect();
    assert_eq!(visible, ["b"]);
}

#[test]
fn echoes_show_until_doc_frame_confirms() {
    let mut state = AppState::new();
    state.selected_chat = Some("c1".into());
    let echo = SessionMessageEntry {
        device_id: "local".into(),
        ..entry("m1", MessageRole::User, vec![])
    };
    state.push_echo("c1", echo.clone());
    // Duplicate pushes dedupe.
    state.push_echo("c1", echo.clone());
    assert_eq!(state.pending_echoes().len(), 1);
    // Frames without the id keep the echo.
    state.apply_transcript(vec![], 0);
    assert_eq!(state.pending_echoes().len(), 1);
    // The confirming frame prunes it.
    state.apply_transcript(
        vec![SessionMessageEntry {
            id: "m1".into(),
            ..echo.clone()
        }],
        0,
    );
    assert!(state.pending_echoes().is_empty());
    // Failure path: explicit removal.
    state.push_echo(
        "c1",
        SessionMessageEntry {
            id: "m2".into(),
            ..echo.clone()
        },
    );
    state.remove_echo("c1", "m2");
    assert!(state.pending_echoes().is_empty());
    // Echoes are per chat.
    state.push_echo(
        "other",
        SessionMessageEntry {
            id: "m3".into(),
            ..echo
        },
    );
    assert!(state.pending_echoes().is_empty());
}

#[test]
fn gate_phases() {
    assert_eq!(
        gate_phase(&ConnectionStatus::Connecting),
        GatePhase::Loading
    );
    assert_eq!(
        gate_phase(&ConnectionStatus::Failed("boom".into())),
        GatePhase::Failed("boom".into())
    );
    assert_eq!(gate_phase(&ConnectionStatus::Ready), GatePhase::Ready);
}

fn chat_with_cwd(id: &str, created_min: i64, cwd: Option<&str>) -> Chat {
    let mut c = chat(id, created_min, None);
    c.cwd = cwd.map(str::to_string);
    c
}

#[test]
fn project_labels_from_cwd() {
    assert_eq!(project_label(Some("/home/w/dev/comet")), "comet");
    assert_eq!(project_label(Some("/home/w/dev/comet/")), "comet");
    assert_eq!(project_label(None), "No project");
    assert_eq!(project_label(Some("   ")), "No project");
    assert_eq!(project_label(Some("/")), "/");
}

#[test]
fn grouped_sidebar_preserves_recency_order() {
    // Input is sidebar-sorted (most recent first).
    let chats = [
        chat_with_cwd("a", 9, Some("/dev/comet")),
        chat_with_cwd("b", 8, Some("/dev/zed")),
        chat_with_cwd("c", 7, Some("/dev/comet")),
        chat_with_cwd("d", 6, None),
    ];
    let list: Vec<&Chat> = chats.iter().collect();
    let groups = group_chats(&list);
    let labels: Vec<&str> = groups.iter().map(|g| g.label.as_str()).collect();
    // Groups ordered by their most recent chat; rows keep order.
    assert_eq!(labels, ["comet", "zed", "No project"]);
    let comet_ids: Vec<&str> = groups[0].chats.iter().map(|c| c.id.as_str()).collect();
    assert_eq!(comet_ids, ["a", "c"]);
    assert!(group_chats(&vec![]).is_empty());
}

#[test]
fn relative_times_match_comet_format() {
    let now = utc_now();
    let ago = |secs: i64| now - secs * SECOND;
    assert_eq!(format_time_ago(ago(0), now), "now");
    assert_eq!(format_time_ago(ago(59), now), "now");
    assert_eq!(format_time_ago(ago(60), now), "1m");
    assert_eq!(format_time_ago(ago(59 * 60), now), "59m");
    assert_eq!(format_time_ago(ago(60 * 60), now), "1h");
    assert_eq!(format_time_ago(ago(23 * 3600 + 3599), now), "23h");
    assert_eq!(format_time_ago(ago(24 * 3600), now), "1d");
    assert_eq!(format_time_ago(ago(6 * 86400), now), "6d");
    assert_eq!(format_time_ago(ago(7 * 86400), now), "1w");
    assert_eq!(format_time_ago(ago(30 * 86400), now), "4w");
    assert_eq!(format_time_ago(ago(35 * 86400), now), "1mo");
    assert_eq!(format_time_ago(ago(400 * 86400), now), "1y");
    // Clock skew (future timestamps) clamps to "now".
    assert_eq!(format_time_ago(now + 2 * 3600 * SECOND, now), "now");
}

#[test]
fn chat_location_joins_project_and_branch() {
    let mut c = chat_with_cwd("x", 1, Some("/home/w/dev/soccertcg"));
    c.branch = Some("comet/rebalance".into());
    assert_eq!(
        chat_location(&c).as_deref(),
        Some("soccertcg · comet/rebalance")
    );
    c.branch = None;
    assert_eq!(chat_location(&c).as_deref(), Some("soccertcg"));
    c.cwd = None;
    c.branch = Some("main".into());
    assert_eq!(chat_location(&c).as_deref(), Some("main"));
    c.branch = Some("   ".into());
    assert_eq!(chat_location(&c), None);
    c.branch = None;
    assert_eq!(chat_location(&c), None);
}

#[test]
fn a_daemon_that_answers_is_used() {
    let config = boot_config();
    assert_eq!(PROBE_TIMEOUT_MS, 750);
    assert_eq!(ipc_url(27654), "ws://127.0.0.1:27654");
    let step = boot_start(&config);
    assert_eq!(step, BootStep::Probe { port: 27654 });
    let step = boot_next(&config, step, BootEvent::Probed { listening: true });
    let url = "ws://127.0.0.1:27654".to_string();
    assert_eq!(step, BootStep::Connect { url: url.clone() });
    let step = boot_next(&config, step, BootEvent::Connected { ok: true });
    assert_eq!(
        step,
        BootStep::Ready {
            mode: EngineMode::Remote { url },
            serving: false
        }
    );
}

#[test]
fn a_stranger_on_the_port_costs_other_viewports_only() {
    let config = boot_config();
    let step = boot_next(
        &config,
        boot_start(&config),
        BootEvent::Probed { listening: true },
    );
    let step = boot_next(&config, step, BootEvent::Connected { ok: false });
    assert_eq!(step, BootStep::Embed);
    let step = boot_next(&config, step, BootEvent::Assembled);
    assert_eq!(step, BootStep::Serve { port: 27654 });
    let step = boot_next(&config, step, BootEvent::Bound { ok: false });
    assert_eq!(
        step,
        BootStep::Ready {
            mode: EngineMode::InProcess,
            serving: false
        }
    );
}

#[test]
fn only_assembling_can_fail_the_boot() {
    let config = boot_config();
    let step = boot_next(
        &config,
        boot_start(&config),
        BootEvent::Probed { listening: false },
    );
    let step = boot_next(
        &config,
        step,
        BootEvent::AssembleFailed {
            message: "no disk".into(),
        },
    );
    assert_eq!(
        step,
        BootStep::Failed {
            message: "no disk".into()
        }
    );
    // An event of another step changes nothing.
    assert_eq!(
        boot_next(&config, BootStep::Embed, BootEvent::Bound { ok: true }),
        BootStep::Embed
    );
}

#[test]
fn viewports_are_turned_away_before_the_drain() {
    assert_eq!(
        handle().shutdown(),
        vec![ShutdownStep::StopServing, ShutdownStep::DrainEngine]
    );
    let alone = EngineHandle {
        mode: EngineMode::InProcess,
        serving: false,
    };
    assert_eq!(alone.shutdown(), vec![ShutdownStep::DrainEngine]);
    let remote = EngineHandle {
        mode: EngineMode::Remote { url: "ws".into() },
        serving: false,
    };
    assert!(remote.shutdown().is_empty());
    assert_eq!(remote.mode(), &EngineMode::Remote { url: "ws".into() });
}

fn watches(out: &[Effect]) -> Vec<Method> {
    out.iter()
        .filter_map(|e| match e {
            Effect::Watch(m) => Some(*m),
            _ => None,
        })
        .collect()
}

#[test]
fn attaching_starts_the_standing_watches() {
    let mut state = AppState::new();
    state.begin_boot(&boot_config());
    assert_eq!(state.data_dir.as_deref(), Some("/data"));
    state.selected_chat = Some("c".into());
    let out = state.attach_engine(handle());
    assert_eq!(state.gate(), GatePhase::Ready);
    assert_eq!(watches(&out).len(), 8);
    assert_eq!(watches(&out)[2], Method::WatchChats);
    assert!(out
        .iter()
        .any(|e| matches!(e, Effect::WatchTranscript(c) if c == "c")));
    assert!(!out.iter().any(|e| matches!(e, Effect::AnnounceReady)));
    assert!(matches!(out.last(), Some(Effect::Notify)));
    state.boot_failed("gone".into());
    assert_eq!(state.gate(), GatePhase::Failed("gone".into()));
}

#[test]
fn the_supervisor_is_told_once() {
    let mut state = AppState::new();
    state.set_hotreload(true);
    let first = state.attach_engine(handle());
    assert!(first.iter().any(|e| matches!(e, Effect::AnnounceReady)));
    assert!(first.iter().any(|e| matches!(e, Effect::RestoreLater)));
    let second = state.attach_engine(handle());
    assert!(!second.iter().any(|e| matches!(e, Effect::AnnounceReady)));
    assert!(second.iter().any(|e| matches!(e, Effect::RestoreLater)));
}

#[test]
fn selecting_a_chat_brings_its_project_and_marks_it_seen() {
    let mut state = AppState::new();
    state.attach_engine(handle());
    let mut c = chat("c", 0, Some(5));
    c.project_id = Some("p".into());
    state.apply_chats(vec![c, chat("d", 0, None)]);
    let now = base() + 60 * MINUTE;
    let out = state.select_chat_at(Some("c".into()), now);
    assert_eq!(state.selected_project.as_deref(), Some("p"));
    assert_eq!(state.transcript_watch.as_deref(), Some("c"));
    assert!(state.auto_selected);
    assert_eq!(state.chats[0].last_seen_at, Some(now));
    let calls: Vec<&Effect> = out
        .iter()
        .filter(|e| matches!(e, Effect::Call(_)))
        .collect();
    match calls[0] {
        Effect::Call(r) => {
            assert_eq!(r.method(), Method::Mutate);
            assert_eq!(r.param("op"), Some(&Value::Text("markChatSeen".into())));
            assert_eq!(r.param("chatId"), Some(&Value::Text("c".into())));
            assert_eq!(r.param_count(), 2);
        }
        _ => unreachable!(),
    }
    // Looking again asks for nothing.
    assert!(state.select_chat_at(Some("c".into()), now + 1).is_empty());
    // The canvas stays in the project.
    state.select_chat_at(None, now + 2);
    assert_eq!(state.selected_project.as_deref(), Some("p"));
    assert_eq!(state.transcript_watch, None);
}

#[test]
fn the_time_of_day_stamps_what_is_seen() {
    let mut state = AppState::new();
    state.apply_chats(vec![chat("c", 0, Some(0)), chat("d", 0, Some(0))]);
    let before = utc_now();
    state.select_chat(Some("c".into()));
    state.mark_chat_seen("d");
    let after = utc_now();
    for c in &state.chats {
        let seen = c.last_seen_at.unwrap();
        assert!(before <= seen && seen <= after);
    }
}

#[test]
fn the_first_frame_selects_the_most_recent_chat() {
    let mut state = AppState::new();
    let mut archived = chat("z", 9, Some(90));
    archived.archived = true;
    let rows = vec![chat("a", 0, Some(1)), chat("b", 0, Some(2)), archived];
    state.on_chats(rows.clone(), base());
    assert_eq!(state.selected_chat.as_deref(), Some("b"));
    // A cleared selection is left alone by later frames.
    state.select_chat_at(None, base());
    let out = state.on_chats(rows, base());
    assert_eq!(state.selected_chat, None);
    assert_eq!(out.len(), 1);
}

#[test]
fn a_stale_transcript_changes_nothing() {
    let mut state = AppState::new();
    state.selected_chat = Some("new".into());
    assert!(!state.on_transcript("old", vec![entry("m", MessageRole::User, vec![])], 0));
    assert!(state.transcript.is_empty());
    assert!(state.on_transcript("new", vec![entry("m", MessageRole::User, vec![])], 0));
    assert_eq!(state.transcript.len(), 1);
}

#[test]
fn the_working_clock_spans_the_turn() {
    let mut state = AppState::new();
    state.selected_chat = Some("c".into());
    let now = utc_now();
    state.apply_sessions(vec![session("c", SessionStatus::Working, 0, now)], 10);
    assert_eq!(state.working_since, Some(10));
    state.apply_transcript(vec![], 20);
    assert_eq!(state.working_since, Some(10));
    assert!(state.working());
    state.apply_sessions(vec![session("c", SessionStatus::Idle, 0, now)], 30);
    assert!(!state.working());
}

#[test]
fn no_turn_runs_without_a_selected_chat() {
    let now = utc_now();
    let mut state = AppState::new();
    state.apply_chats(vec![chat("a", 0, None)]);
    state.selected_chat = Some("a".into());
    state.apply_sessions(vec![session("a", SessionStatus::Working, 0, now)], 10);
    assert!(state.working());
    state.apply_chats(vec![]);
    assert_eq!(state.selected_chat, None);
    assert!(!state.working());
    assert_eq!(state.working_since, None);
}

#[test]
fn each_chat_has_its_own_clock() {
    let now = utc_now();
    let mut state = AppState::new();
    state.apply_chats(vec![chat("a", 0, None), chat("b", 1, None)]);
    let _ = state.select_chat_at(Some("a".into()), now);
    let both = || {
        vec![
            session("a", SessionStatus::Working, 0, now),
            session("b", SessionStatus::Working, 0, now),
        ]
    };
    state.apply_sessions(both(), 10);
    assert_eq!(state.working_since, Some(10));
    let _ = state.select_chat_at(Some("b".into()), now);
    // The new chat is at work, too; its own clock starts with the next frame.
    assert!(state.working());
    assert_eq!(state.working_since, None);
    state.apply_transcript(vec![], 500);
    assert_eq!(state.working_since, Some(500));
    let _ = state.select_chat_at(None, now);
    assert!(!state.working());
    assert_eq!(state.working_since, None);
}

fn saves(out: &[Effect]) -> Vec<Option<&str>> {
    out.iter()
        .filter_map(|e| match e {
            Effect::SaveSelection { selected, .. } => Some(selected.as_deref()),
            _ => None,
        })
        .collect()
}

#[test]
fn the_boot_s_choice_gives_way_to_the_chat_that_was_open() {
    let mut state = AppState::new();
    state.begin_boot(&boot_config());
    state.hotreload_env = true;
    let out = state.on_chats(vec![chat("old", 0, None), chat("new", 5, None)], 0);
    assert_eq!(state.selected_chat.as_deref(), Some("new"));
    assert!(state.boot_selected);
    assert!(saves(&out).is_empty());
    let out = state.restore_hotreload(Some("old".into()), 0);
    assert_eq!(state.selected_chat.as_deref(), Some("old"));
    assert_eq!(saves(&out), [Some("old")]);
    assert!(!state.boot_selected);
    // Somebody's own choice does not give way.
    let out = state.restore_hotreload(Some("new".into()), 0);
    assert!(out.is_empty());
    assert_eq!(state.selected_chat.as_deref(), Some("old"));
}

#[test]
fn selecting_the_boot_s_choice_makes_it_one_s_own() {
    let mut state = AppState::new();
    state.begin_boot(&boot_config());
    state.set_hotreload(true);
    let _ = state.on_chats(vec![chat("old", 0, None), chat("new", 5, None)], 0);
    let out = state.select_chat_at(Some("new".into()), 0);
    assert_eq!(saves(&out), [Some("new")]);
    assert!(state.restore_hotreload(Some("old".into()), 0).is_empty());
    assert_eq!(state.selected_chat.as_deref(), Some("new"));
}

#[test]
fn the_boot_s_choice_is_remembered_once_nothing_is_restored() {
    let mut state = AppState::new();
    state.begin_boot(&boot_config());
    state.set_hotreload(true);
    let out = state.on_chats(vec![chat("new", 5, None)], 0);
    assert!(saves(&out).is_empty());
    let out = state.restore_hotreload(Some("gone".into()), 0);
    assert_eq!(saves(&out), [Some("new")]);
    assert_eq!(state.selected_chat.as_deref(), Some("new"));
    assert!(!state.boot_selected);
    // A restore that came before any chat leaves the choice to be remembered.
    let mut late = AppState::new();
    late.begin_boot(&boot_config());
    late.set_hotreload(true);
    assert!(late.restore_hotreload(None, 0).is_empty());
    let out = late.on_chats(vec![chat("new", 5, None)], 0);
    assert_eq!(saves(&out), [Some("new")]);
}

#[test]
fn the_file_tells_which_chat_was_open() {
    assert_eq!(
        saved_chat(r#"{"selected_chat":"a\"b"}"#).as_deref(),
        Some("a\"b")
    );
    for body in ["", "{nope", "[]", r#"{"selected_chat":null}"#, r#"{"selected_chat":7}"#, "{}"] {
        assert_eq!(saved_chat(body), None);
    }
    for id in ["", "c", "quo\"te \\ \u{1}\n é"] {
        let selected = Some(id.to_string());
        assert_eq!(saved_chat(&selection_body(&selected)), selected);
    }
    assert_eq!(selection_body(&None), r#"{"selected_chat":null}"#);
    assert_eq!(selection_body(&Some("c".into())), r#"{"selected_chat":"c"}"#);
    assert_eq!(saved_chat(&selection_body(&None)), None);
}

#[test]
fn the_chat_of_the_file_is_reopened() {
    let mut state = AppState::new();
    state.begin_boot(&boot_config());
    state.set_hotreload(true);
    let _ = state.on_chats(vec![chat("old", 0, None), chat("new", 5, None)], 0);
    let _ = state.restore_from(Some(selection_body(&Some("old".into()))), 0);
    assert_eq!(state.selected_chat.as_deref(), Some("old"));
    let mut bare = AppState::new();
    bare.begin_boot(&boot_config());
    bare.set_hotreload(true);
    let _ = bare.on_chats(vec![chat("old", 0, None)], 0);
    assert_eq!(saves(&bare.restore_from(None, 0)), [Some("old")]);
}

#[test]
fn a_selection_that_is_dropped_is_forgotten() {
    let mut state = AppState::new();
    state.begin_boot(&boot_config());
    state.set_hotreload(true);
    state.apply_chats(vec![chat("a", 0, None)]);
    let _ = state.select_chat_at(Some("a".into()), 0);
    let out = state.on_chats(vec![chat("b", 0, None)], 0);
    assert_eq!(state.selected_chat, None);
    assert_eq!(saves(&out), [None]);
    assert!(saves(&state.on_chats(vec![], 0)).is_empty());
}

#[test]
fn hot_reload_restores_the_chat_that_was_open() {
    let mut state = AppState::new();
    state.begin_boot(&boot_config());
    state.apply_chats(vec![chat("c", 0, None)]);
    // Off: nothing happens.
    assert!(state.restore_hotreload(Some("c".into()), 0).is_empty());
    assert_eq!(state.selected_chat, None);
    state.hotreload_env = true;
    assert!(state.restore_hotreload(Some("gone".into()), 0).is_empty());
    let out = state.restore_hotreload(Some("c".into()), 0);
    assert_eq!(state.selected_chat.as_deref(), Some("c"));
    assert!(out.iter().any(|e| matches!(
        e,
        Effect::SaveSelection { dir, selected } if dir == "/data" && selected.as_deref() == Some("c")
    )));
    assert_eq!(SELECTION_FILE, "hotreload-state.json");
}

#[test]
fn the_restore_waits_a_bounded_time() {
    let mut state = AppState::new();
    assert!(state.restore_waits(0));
    assert!(!state.restore_waits(RESTORE_POLLS));
    state.apply_chats(vec![chat("c", 0, None)]);
    assert!(!state.restore_waits(0));
}

fn device(id: &str, name: &str, seen: Option<i64>) -> Device {
    Device {
        id: id.into(),
        name: name.into(),
        platform: "linux".into(),
        last_seen_at: seen,
        created_at: None,
        version: Some("1".into()),
    }
}

#[test]
fn paired_peers_join_the_devices() {
    let mut state = AppState::new();
    state.apply_devices(vec![device("b", "old name", Some(7)), device("a", "first", None)]);
    let peer = |id: &str, revoked: bool| PeerView {
        device_id: id.into(),
        name: "peer".into(),
        platform: "mac".into(),
        endpoint: "e".into(),
        role: "peer".into(),
        revoked,
        paired_at: 3,
    };
    state.on_peers(&vec![peer("c", false), peer("b", false), peer("x", true)]);
    let ids: Vec<&str> = state.devices.iter().map(|d| d.id.as_str()).collect();
    assert_eq!(ids, ["a", "b", "c"]);
    // The peer's name wins; what it does not know is kept.
    assert_eq!(state.device_name("b"), Some("peer"));
    assert_eq!(state.device_last_seen("b"), Some(Some(7)));
    assert_eq!(state.devices[1].version.as_deref(), Some("1"));
    assert_eq!(state.device_name("x"), None);
}

#[test]
fn presence_gives_the_benefit_of_the_doubt() {
    let mut state = AppState::new();
    state.apply_devices(vec![device("a", "A", None)]);
    assert!(!state.device_online("a", false));
    assert!(state.device_online("a", true));
    assert!(state.device_online("unknown", false));
    state.on_local_device(Some(Value::Text("a".into())), None);
    assert!(state.device_online("a", false));
}

#[test]
fn the_local_device_is_reported_under_either_name() {
    assert_eq!(
        reported_device(None, Some(Value::Text("d".into()))),
        Some("d".into())
    );
    assert_eq!(
        reported_device(Some(Value::Text("i".into())), Some(Value::Text("d".into()))),
        Some("i".into())
    );
    // A value that is no text hides the other.
    assert_eq!(
        reported_device(Some(Value::Int(1)), Some(Value::Text("d".into()))),
        None
    );
    assert_eq!(reported_device(None, None), None);
}

#[test]
fn rows_are_found_by_selection() {
    let mut state = AppState::new();
    let mut p = project("p", "dev", "/p", 0);
    p.git_detected = true;
    state.apply_projects(vec![p]);
    assert!(state.selected_project_git());
    let mut c = chat("c", 0, None);
    c.project_id = Some("p".into());
    state.apply_chats(vec![c]);
    assert!(state.project_for_chat(&state.chats[0]).is_some());
    assert!(state.selected_chat_row().is_none());
    state.selected_chat = Some("c".into());
    assert_eq!(state.selected_chat_row().unwrap().id, "c");
    assert!(state.project_row("q").is_none());
    assert!(state.select_project(None));
    assert!(!state.select_project(None));
    assert!(state.selected_project_row().is_none());
    state.apply_update("ready".into());
    assert_eq!(state.update.as_deref(), Some("ready"));
}
