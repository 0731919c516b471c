use nova_ui::keyed::{IdSet, Keyed};
use nova_ui::proto::{
    Chat, ChatConfig, HarnessId, MessagePart, MessageRole, SessionMessageEntry, ToolCall,
};
use nova_ui::terminal::codec::{choose_bytes, decode_base64, encode_base64};
use nova_ui::terminal::feed::{
    exec_feed, expansion, expansion_note, feed_at_bottom, follow_target, is_feed_row_expanded,
    output_display_lines, row_style, tail_lines, FeedExpansion, FeedGlyph, FeedOutput, FeedStatus,
    FEED_OUTPUT_MAX_LINES,
};
use nova_ui::terminal::tabs::{
    active_after_close, active_after_reorder, agent_tab_name, agent_tab_title, backoff_ms,
    clamp_terminal_height, drop_index, exit_message, failure_message, harness_label, next_pty_number, reorder_tabs,
    shell_title, short_model_name, slide_offset, toggle_binding, TabKind, TAB_WIDTH,
};
use nova_ui::theme::Platform;

#[test]
fn output_display_lines_tail_caps_with_markers() {
    // Short output passes through untouched.
    assert_eq!(output_display_lines("a\nb", false), vec!["a", "b"]);
    // View cap: last FEED_OUTPUT_MAX_LINES kept, hidden count marked.
    let big: String = (1..=30).map(|n| format!("line {n}\n")).collect();
    let lines = output_display_lines(&big, false);
    assert_eq!(lines.len(), FEED_OUTPUT_MAX_LINES + 1);
    assert_eq!(lines[0], "… 6 earlier lines");
    assert_eq!(lines[1], "line 7");
    assert_eq!(lines.last().unwrap(), "line 30");
    // Capture truncation gets its own marker, both markers stack.
    let lines = output_display_lines(&big, true);
    assert_eq!(lines[0], "… truncated to the last 64 KB");
    assert_eq!(lines[1], "… 6 earlier lines");
}

fn exec_entry(id: &str, command: &str, is_error: bool, resolved: bool) -> SessionMessageEntry {
    SessionMessageEntry {
        id: id.into(),
        role: MessageRole::Assistant,
        parts: vec![MessagePart::Tool {
            id: format!("tool-{id}"),
            call: ToolCall::Exec {
                command: command.into(),
            },
            call_json: String::new(),
            is_error,
            resolved,
        }],
        created_at: 0,
        device_id: "dev".into(),
        streaming: false,
        continuation_of: None,
    }
}

#[test]
fn exec_feed_extracts_commands_in_transcript_order() {
    let mut text_entry = exec_entry("m0", "ignored", false, true);
    text_entry.parts = vec![MessagePart::Text {
        id: "t".into(),
        text: "prose".into(),
    }];
    let entries = vec![
        text_entry,
        exec_entry("m1", "ls -la", false, true),
        exec_entry("m2", "cargo test\n--quiet", false, false),
        exec_entry("m3", "false", true, true),
    ];
    let feed = exec_feed(&entries, true);
    assert_eq!(feed.len(), 3, "non-exec parts never enter the feed");
    assert_eq!(feed[0].command, "ls -la");
    assert_eq!(feed[0].status, FeedStatus::Done);
    // Multi-line commands collapse to one terminal line.
    assert_eq!(feed[1].command, "cargo test --quiet");
    assert_eq!(feed[1].status, FeedStatus::Running);
    assert_eq!(feed[2].status, FeedStatus::Failed);
    // Deep-link ids are the tool part ids.
    assert_eq!(feed[1].id, "tool-m2");
}

#[test]
fn exec_feed_unresolved_in_a_dead_session_is_not_running() {
    let entries = vec![exec_entry("m1", "sleep 99", false, false)];
    assert_eq!(exec_feed(&entries, true)[0].status, FeedStatus::Running);
    // A crashed session must never leave an eternal spinner.
    assert_eq!(exec_feed(&entries, false)[0].status, FeedStatus::Unfinished);
}

#[test]
fn follow_target_anchor_wins_then_fingerprint_changes_follow_tail() {
    // Deep-link anchor wins outright.
    assert_eq!(follow_target((5, 0), (5, 0), Some(2)), Some(2));
    assert_eq!(follow_target((5, 0), (6, 1), Some(0)), Some(0));
    // A grown feed pins to its new tail.
    assert_eq!(follow_target((5, 3), (6, 1), None), Some(5));
    assert_eq!(follow_target((0, 0), (4, 2), None), Some(3));
    // Same length but the tail row's expansion changed (output loaded,
    // auto-collapse as the tail moved): still follows.
    assert_eq!(follow_target((5, 1), (5, 24), None), Some(4));
    assert_eq!(follow_target((5, 24), (5, 0), None), Some(4));
    // A fully unchanged fingerprint never scrolls.
    assert_eq!(follow_target((5, 3), (5, 3), None), None);
    assert_eq!(follow_target((0, 0), (0, 0), None), None);
}

/// A length in pixels, in thousandths.
fn px(length: f32) -> i64 {
    (length * 1000.0) as i64
}

#[test]
fn feed_follow_gates_on_at_bottom() {
    // Pinned to the tail (offset == -max): follow engages.
    assert!(feed_at_bottom(px(-480.0), px(480.0)));
    // Sub-pixel landing tolerance still counts.
    assert!(feed_at_bottom(px(-478.5), px(480.0)));
    // Scrolled back even a line: follow disengages.
    assert!(!feed_at_bottom(px(-460.0), px(480.0)));
    // Fresh handle / content that fits (max 0, offset 0): follow engages
    // so a chat switch's first frame and short feeds still tail.
    assert!(feed_at_bottom(px(0.0), px(0.0)));
    assert!(feed_at_bottom(i64::MIN, i64::MIN));
}

/// A height in pixels, in thousandths; none when it is not finite.
fn height(length: f32) -> Option<i64> {
    if length.is_finite() {
        Some(px(length))
    } else {
        None
    }
}

#[test]
fn height_clamps_between_160_and_55vh() {
    assert_eq!(clamp_terminal_height(height(300.0), px(900.0)), px(300.0));
    assert_eq!(clamp_terminal_height(height(10.0), px(900.0)), px(160.0));
    assert_eq!(clamp_terminal_height(height(4000.0), px(900.0)), px(900.0 * 0.55));
    // Tiny windows: min wins over the 55vh cap.
    assert_eq!(clamp_terminal_height(height(200.0), px(100.0)), px(160.0));
    assert_eq!(clamp_terminal_height(height(f32::NAN), px(900.0)), px(160.0));
    assert_eq!(clamp_terminal_height(height(f32::INFINITY), i64::MIN), px(160.0));
}

fn ids(names: &[&str]) -> IdSet {
    let mut set: IdSet = Keyed::new();
    for name in names {
        set.insert(name.to_string(), ());
    }
    set
}

#[test]
fn feed_row_expansion_auto_tail_with_manual_overrides() {
    // The latest row auto-expands; older rows auto-collapse.
    assert!(is_feed_row_expanded(None, None, "c", true));
    assert!(!is_feed_row_expanded(None, None, "a", false));
    // A pinned older row stays expanded.
    assert!(is_feed_row_expanded(Some(&ids(&["a"])), None, "a", false));
    // A dismissed latest row stays collapsed.
    assert!(!is_feed_row_expanded(None, Some(&ids(&["c"])), "c", true));
    // A dismissal on an older row is a no-op; a pin on the latest is a no-op.
    assert!(!is_feed_row_expanded(None, Some(&ids(&["a"])), "a", false));
    assert!(is_feed_row_expanded(Some(&ids(&["c"])), None, "c", true));
}

fn config(harness: HarnessId, model: Option<&str>) -> ChatConfig {
    ChatConfig {
        harness,
        model: model.map(str::to_string),
        reasoning: None,
        model_options: "{}".into(),
        sandbox: "workspace-write".into(),
    }
}

#[test]
fn agent_tab_name_rules() {
    // Model wins, provider prefix stripped.
    assert_eq!(
        agent_tab_name(Some(&config(HarnessId::Pi, Some("vendor/opus-4.5")))),
        "opus-4.5"
    );
    assert_eq!(
        agent_tab_name(Some(&config(HarnessId::Pi, Some("gpt-5.1")))),
        "gpt-5.1"
    );
    // No model: harness brand name.
    assert_eq!(agent_tab_name(Some(&config(HarnessId::Pi, None))), "pi");
    // No config at all: generic.
    assert_eq!(agent_tab_name(None), "agent");
    // The title wraps the name with the possessive.
    assert_eq!(agent_tab_title(None), "agent's terminal");
}

#[test]
fn the_title_names_the_model_of_the_chat() {
    let chat = Chat {
        id: "c".into(),
        device_id: "d".into(),
        title: None,
        archived: false,
        cwd: None,
        branch: None,
        config: Some(config(HarnessId::Codex, Some("openai/gpt-5.1"))),
        last_command: None,
        last_message_at: None,
        created_at: 0,
        project_id: None,
        last_seen_at: None,
    };
    assert_eq!(agent_tab_title(Some(&chat)), "gpt-5.1's terminal");
}

#[test]
fn short_model_name_strips_provider_prefix() {
    assert_eq!(short_model_name("vendor/opus-4.5"), "opus-4.5");
    assert_eq!(short_model_name("gpt-5.1"), "gpt-5.1");
    assert_eq!(short_model_name(""), "");
}

#[test]
fn harness_labels_are_spaced_and_small() {
    assert_eq!(harness_label(HarnessId::Pi), "pi");
    assert_eq!(harness_label(HarnessId::Codex), "codex");
    assert_eq!(harness_label(HarnessId::Cursor), "cursor");
    let two_words = harness_label(HarnessId::ClaudeCode);
    assert!(two_words.ends_with(" code"));
    assert_eq!(two_words, two_words.to_lowercase());
}

#[test]
fn pty_numbering_skips_the_pinned_agent_tab() {
    assert_eq!(next_pty_number(&vec![TabKind::Agent]), 1);
    assert_eq!(next_pty_number(&vec![TabKind::Agent, TabKind::Pty]), 2);
    assert_eq!(next_pty_number(&vec![]), 1);
}

#[test]
fn drop_index_clamped_keeps_agent_tab_pinned() {
    // Slot 0 belongs to the agent tab: every drop position clamps to 1+.
    // (drop_index is floor-based: hovering slot k lands at index k.)
    assert_eq!(TAB_WIDTH, 118);
    assert_eq!(drop_index(0, TAB_WIDTH, 4).max(1), 1);
    assert_eq!(drop_index(59, TAB_WIDTH, 4).max(1), 1);
    assert_eq!(drop_index(177, TAB_WIDTH, 4).max(1), 1);
    assert_eq!(drop_index(295, TAB_WIDTH, 4).max(1), 2);
}

#[test]
fn backoff_doubles_and_caps() {
    assert_eq!(backoff_ms(0), 500);
    assert_eq!(backoff_ms(1), 1000);
    assert_eq!(backoff_ms(2), 2000);
    assert_eq!(backoff_ms(3), 4000);
    assert_eq!(backoff_ms(4), 8000);
    assert_eq!(backoff_ms(10), 8000);
    assert_eq!(backoff_ms(u32::MAX), 8000);
}

#[test]
fn reorder_moves_forward_and_backward() {
    let mut v = vec!["a", "b", "c", "d"];
    reorder_tabs(&mut v, 0, 2);
    assert_eq!(v, ["b", "c", "a", "d"]);
    reorder_tabs(&mut v, 3, 0);
    assert_eq!(v, ["d", "b", "c", "a"]);
    // Out-of-range / no-op moves leave the vec untouched.
    reorder_tabs(&mut v, 9, 0);
    reorder_tabs(&mut v, 1, 1);
    assert_eq!(v, ["d", "b", "c", "a"]);
}

#[test]
fn moving_back_gives_the_row_as_it_was() {
    let mut v = vec![1, 2, 3, 4, 5];
    reorder_tabs(&mut v, 1, 4);
    assert_eq!(v, [1, 3, 4, 5, 2]);
    reorder_tabs(&mut v, 4, 1);
    assert_eq!(v, [1, 2, 3, 4, 5]);
}

#[test]
fn drop_index_quantizes_and_clamps() {
    assert_eq!(drop_index(-10, 150, 3), 0);
    assert_eq!(drop_index(0, 150, 3), 0);
    assert_eq!(drop_index(149, 150, 3), 0);
    assert_eq!(drop_index(150, 150, 3), 1);
    assert_eq!(drop_index(700, 150, 3), 2);
    assert_eq!(drop_index(50, 150, 0), 0);
}

#[test]
fn slide_offsets_shift_toward_the_gap() {
    // Dragging 0 over 2: tabs 1 and 2 slide left one slot.
    assert_eq!(slide_offset(0, 0, 2), 0);
    assert_eq!(slide_offset(1, 0, 2), -1);
    assert_eq!(slide_offset(2, 0, 2), -1);
    assert_eq!(slide_offset(3, 0, 2), 0);
    // Dragging 3 over 1: tabs 1 and 2 slide right.
    assert_eq!(slide_offset(0, 3, 1), 0);
    assert_eq!(slide_offset(1, 3, 1), 1);
    assert_eq!(slide_offset(2, 3, 1), 1);
    assert_eq!(slide_offset(3, 3, 1), 0);
    // Hovering the origin: nothing moves.
    for ix in 0..4 {
        assert_eq!(slide_offset(ix, 2, 2), 0);
    }
}

#[test]
fn slides_show_where_the_drop_puts_each_tab() {
    let mut v = vec![0, 1, 2, 3];
    reorder_tabs(&mut v, 3, 1);
    for ix in 0..3 {
        let lands = v.iter().position(|t| *t == ix).unwrap() as i32;
        assert_eq!(lands, ix as i32 + slide_offset(ix, 3, 1));
    }
}

#[test]
fn active_index_tracks_reorders() {
    // The active tab itself moves.
    assert_eq!(active_after_reorder(1, 1, 3), 3);
    // A tab hopping over the active one from the left shifts it down.
    assert_eq!(active_after_reorder(2, 0, 3), 1);
    // …and from the right shifts it up.
    assert_eq!(active_after_reorder(1, 3, 0), 2);
    // Disjoint moves leave it alone.
    assert_eq!(active_after_reorder(0, 2, 3), 0);
}

#[test]
fn active_index_tracks_closes() {
    assert_eq!(active_after_close(2, 0, 3), 1); // close left of active
    assert_eq!(active_after_close(1, 1, 2), 1); // close active mid-list
    assert_eq!(active_after_close(2, 2, 2), 1); // close active at tail
    assert_eq!(active_after_close(0, 0, 0), 0); // last tab closed
}

#[test]
fn exit_message_format() {
    let text = String::from_utf8(exit_message(0)).unwrap();
    assert!(text.contains("[process exited 0]"));
    let text = String::from_utf8(exit_message(137)).unwrap();
    assert!(text.contains("[process exited 137]"));
    assert!(text.starts_with("\r\n"));
    assert!(text.ends_with("\r\n"));
    let text = String::from_utf8(exit_message(-1)).unwrap();
    assert!(text.contains("[process exited -1]"));
}

#[test]
fn failures_are_written_into_the_grid() {
    let text = String::from_utf8(failure_message("no shell ✗")).unwrap();
    assert!(text.contains("no shell ✗"));
}

#[test]
fn shell_titles() {
    assert_eq!(shell_title("/bin/zsh"), "zsh");
    assert_eq!(shell_title("/usr/local/bin/fish"), "fish");
    assert_eq!(shell_title("C:\\Windows\\System32\\cmd.exe"), "cmd.exe");
    assert_eq!(shell_title("bash"), "bash");
    assert_eq!(shell_title(""), "terminal");
}

#[test]
fn base64_round_trip_and_tolerance() {
    assert_eq!(decode_base64("aGk="), b"hi".to_vec());
    assert_eq!(
        decode_base64("aGk"),
        b"hi".to_vec(),
        "unpadded input tolerated"
    );
    assert_eq!(
        decode_base64("!!!"),
        Vec::<u8>::new(),
        "garbage decodes to nothing"
    );
    assert_eq!(encode_base64(b"hi"), "aGk=");
}

#[test]
fn bytes_come_back_out_of_base64() {
    for len in 0..70u8 {
        let bytes: Vec<u8> = (0..len).map(|n| n.wrapping_mul(37)).collect();
        let text = encode_base64(&bytes);
        assert_eq!(decode_base64(&text), bytes);
        assert_eq!(decode_base64(text.trim_end_matches('=')), bytes);
    }
}

#[test]
fn the_padded_reading_wins() {
    assert_eq!(choose_bytes(Some(vec![1]), Some(vec![2])), vec![1]);
    assert_eq!(choose_bytes(None, Some(vec![2])), vec![2]);
    assert_eq!(choose_bytes(None, None), Vec::<u8>::new());
}

#[test]
fn expansions_tell_what_is_known_of_the_output() {
    let loaded = FeedOutput::Loaded {
        output: "one\ntwo".into(),
        truncated: false,
    };
    assert_eq!(tail_lines(false, FeedStatus::Done, Some(&loaded)), 0);
    assert_eq!(tail_lines(true, FeedStatus::Done, Some(&loaded)), 2);
    assert_eq!(tail_lines(true, FeedStatus::Running, Some(&loaded)), 1);
    assert_eq!(
        expansion(false, FeedStatus::Done, Some(&loaded)),
        FeedExpansion::Collapsed
    );
    let shown = expansion(true, FeedStatus::Done, Some(&loaded));
    assert_eq!(
        shown,
        FeedExpansion::Lines(vec!["one".into(), "two".into()])
    );
    assert_eq!(expansion_note(&shown), None);
    let running = expansion(true, FeedStatus::Running, None);
    assert_eq!(expansion_note(&running), Some("still running…"));
    let fetching = expansion(true, FeedStatus::Done, None);
    assert_eq!(expansion_note(&fetching), Some("fetching output…"));
    let missing = expansion(true, FeedStatus::Failed, Some(&FeedOutput::Unavailable));
    assert_eq!(expansion_note(&missing), Some("output unavailable"));
    let silent = FeedOutput::Loaded {
        output: String::new(),
        truncated: false,
    };
    let silent = expansion(true, FeedStatus::Done, Some(&silent));
    assert_eq!(expansion_note(&silent), Some("(no output)"));
}

#[test]
fn the_counted_height_has_both_markers() {
    let big: String = (1..=30).map(|n| format!("line {n}\n")).collect();
    let output = FeedOutput::Loaded {
        output: big,
        truncated: true,
    };
    assert_eq!(
        tail_lines(true, FeedStatus::Done, Some(&output)),
        FEED_OUTPUT_MAX_LINES + 2
    );
}

#[test]
fn only_a_running_command_spins() {
    assert_eq!(row_style(FeedStatus::Running), (FeedGlyph::Spinner, true));
    assert_eq!(row_style(FeedStatus::Failed), (FeedGlyph::Cross, true));
    assert_eq!(row_style(FeedStatus::Done), (FeedGlyph::Prompt, false));
    assert_eq!(row_style(FeedStatus::Unfinished), (FeedGlyph::Prompt, false));
}

#[test]
fn the_toggle_has_one_key_per_platform() {
    assert_eq!(toggle_binding(Platform::MacOs), "cmd-j");
    assert_eq!(toggle_binding(Platform::Windows), "ctrl-j");
    assert_eq!(toggle_binding(Platform::Other), "ctrl-j");
}
