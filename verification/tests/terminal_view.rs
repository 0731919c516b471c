use nova_ui::terminal::view::{
    background_runs, control_bytes, grid_size, indexed_rgb, indexed_rgb_for_theme, keystroke_bytes,
    paste_bytes, prepaint, resolve_color, shape_row, terminal_bg, terminal_fg, BgRun, Cell,
    CellColor, CursorPos, GridSnapshot, InputCoalescer, Modifiers, ANSI16_DARK, ANSI16_LIGHT,
    COALESCE_MS, RESIZE_DEBOUNCE_MS, TERM_FONT_SIZE, TERM_LINE_HEIGHT, TERM_PADDING,
};
use nova_ui::theme::{Paint, Platform, Rgb, Theme};

fn mods() -> Modifiers {
    Modifiers::default()
}

#[test]
fn printables_prefer_key_char() {
    assert_eq!(
        keystroke_bytes("a", Some("a"), &mods(), false),
        Some(b"a".to_vec())
    );
    assert_eq!(
        keystroke_bytes(
            "a",
            Some("A"),
            &Modifiers {
                shift: true,
                ..mods()
            },
            false
        ),
        Some(b"A".to_vec())
    );
    // Multi-byte characters pass through as UTF-8.
    assert_eq!(
        keystroke_bytes("e", Some("é"), &mods(), false),
        Some("é".as_bytes().to_vec())
    );
    // Named single-char keys fall back to the key name.
    assert_eq!(
        keystroke_bytes("/", None, &mods(), false),
        Some(b"/".to_vec())
    );
    // Unknown multi-char keys are not ours.
    assert_eq!(keystroke_bytes("capslock", None, &mods(), false), None);
}

#[test]
fn control_keys_and_sequences() {
    assert_eq!(
        keystroke_bytes("enter", None, &mods(), false),
        Some(b"\r".to_vec())
    );
    assert_eq!(
        keystroke_bytes("backspace", None, &mods(), false),
        Some(vec![0x7f])
    );
    assert_eq!(
        keystroke_bytes("tab", None, &mods(), false),
        Some(b"\t".to_vec())
    );
    assert_eq!(
        keystroke_bytes(
            "tab",
            None,
            &Modifiers {
                shift: true,
                ..mods()
            },
            false
        ),
        Some(b"\x1b[Z".to_vec())
    );
    assert_eq!(
        keystroke_bytes("escape", None, &mods(), false),
        Some(vec![0x1b])
    );
    assert_eq!(
        keystroke_bytes("delete", None, &mods(), false),
        Some(b"\x1b[3~".to_vec())
    );
    assert_eq!(
        keystroke_bytes("pageup", None, &mods(), false),
        Some(b"\x1b[5~".to_vec())
    );
    assert_eq!(
        keystroke_bytes("f5", None, &mods(), false),
        Some(b"\x1b[15~".to_vec())
    );
}

#[test]
fn every_named_key_has_its_sequence() {
    let table: Vec<(&str, &[u8])> = vec![
        ("space", b" "),
        ("down", b"\x1b[B"),
        ("right", b"\x1b[C"),
        ("left", b"\x1b[D"),
        ("end", b"\x1b[F"),
        ("insert", b"\x1b[2~"),
        ("pagedown", b"\x1b[6~"),
        ("f1", b"\x1bOP"),
        ("f2", b"\x1bOQ"),
        ("f3", b"\x1bOR"),
        ("f4", b"\x1bOS"),
        ("f6", b"\x1b[17~"),
        ("f7", b"\x1b[18~"),
        ("f8", b"\x1b[19~"),
        ("f9", b"\x1b[20~"),
        ("f10", b"\x1b[21~"),
        ("f11", b"\x1b[23~"),
        ("f12", b"\x1b[24~"),
    ];
    for (key, bytes) in table {
        assert_eq!(
            keystroke_bytes(key, Some("x"), &mods(), false),
            Some(bytes.to_vec()),
            "{key}"
        );
    }
}

#[test]
fn arrows_respect_app_cursor_mode() {
    assert_eq!(
        keystroke_bytes("up", None, &mods(), false),
        Some(b"\x1b[A".to_vec())
    );
    assert_eq!(
        keystroke_bytes("up", None, &mods(), true),
        Some(b"\x1bOA".to_vec())
    );
    assert_eq!(
        keystroke_bytes("home", None, &mods(), false),
        Some(b"\x1b[H".to_vec())
    );
    assert_eq!(
        keystroke_bytes("end", None, &mods(), true),
        Some(b"\x1bOF".to_vec())
    );
}

#[test]
fn ctrl_combos_map_to_control_bytes() {
    let ctrl = Modifiers {
        control: true,
        ..mods()
    };
    assert_eq!(
        keystroke_bytes("c", Some("c"), &ctrl, false),
        Some(vec![0x03])
    );
    assert_eq!(keystroke_bytes("z", None, &ctrl, false), Some(vec![0x1a]));
    assert_eq!(
        keystroke_bytes("space", None, &ctrl, false),
        Some(vec![0x00])
    );
    assert_eq!(keystroke_bytes("[", None, &ctrl, false), Some(vec![0x1b]));
    assert_eq!(keystroke_bytes("_", None, &ctrl, false), Some(vec![0x1f]));
    // Ctrl+1 has no caret encoding — not ours.
    assert_eq!(keystroke_bytes("1", Some("1"), &ctrl, false), None);
}

#[test]
fn control_bytes_by_themselves() {
    assert_eq!(control_bytes(""), None);
    assert_eq!(control_bytes("a"), Some(vec![1]));
    assert_eq!(control_bytes("@"), Some(vec![0]));
    assert_eq!(control_bytes("\\"), Some(vec![0x1c]));
    assert_eq!(control_bytes("]"), Some(vec![0x1d]));
    assert_eq!(control_bytes("^"), Some(vec![0x1e]));
    assert_eq!(control_bytes("/"), Some(vec![0x1f]));
    assert_eq!(control_bytes("?"), Some(vec![0x7f]));
    assert_eq!(control_bytes("backspace"), Some(vec![0x08]));
    assert_eq!(control_bytes("enter"), Some(vec![0x0d]));
    assert_eq!(control_bytes("é"), None);
    assert_eq!(control_bytes("up"), None);
}

#[test]
fn alt_prefixes_escape() {
    let alt = Modifiers {
        alt: true,
        ..mods()
    };
    assert_eq!(
        keystroke_bytes("b", Some("b"), &alt, false),
        Some(vec![0x1b, b'b'])
    );
    let alt_ctrl = Modifiers {
        alt: true,
        control: true,
        ..mods()
    };
    assert_eq!(
        keystroke_bytes("c", None, &alt_ctrl, false),
        Some(vec![0x1b, 0x03])
    );
}

#[test]
fn platform_primary_combos_fall_through() {
    let cmd = Modifiers {
        platform: true,
        ..mods()
    };
    assert_eq!(keystroke_bytes("j", Some("j"), &cmd, false), None);
    assert_eq!(keystroke_bytes("enter", None, &cmd, false), None);
}

#[test]
fn paste_wraps_when_bracketed() {
    assert_eq!(paste_bytes("hi", false), b"hi".to_vec());
    assert_eq!(paste_bytes("hi", true), b"\x1b[200~hi\x1b[201~".to_vec());
    // Close-bracket injection is stripped.
    assert_eq!(
        paste_bytes("a\x1b[201~rm -rf", true),
        b"\x1b[200~arm -rf\x1b[201~".to_vec()
    );
}

#[test]
fn paste_removes_terminators_until_none_is_left() {
    assert_eq!(paste_bytes("\x1b[201~\x1b[201~x", false), b"x".to_vec());
    // One that a removal joins together is removed, too.
    assert_eq!(paste_bytes("\x1b[20\x1b[201~1~", false), b"".to_vec());
    assert_eq!(
        paste_bytes("\x1b[20\x1b[201~1~", true),
        b"\x1b[200~\x1b[201~".to_vec()
    );
    assert_eq!(paste_bytes("é", false), "é".as_bytes().to_vec());
}

#[test]
fn coalescer_schedules_once_per_burst() {
    let mut c = InputCoalescer::default();
    assert!(c.is_empty());
    assert!(c.push(b"a"), "first push schedules the flush");
    assert!(!c.push(b"b"), "subsequent pushes ride the pending flush");
    assert!(!c.push(b"c"));
    assert_eq!(c.take(), b"abc".to_vec());
    assert!(c.is_empty());
    // Next burst schedules again.
    assert!(c.push(b"d"));
    // Empty pushes never schedule.
    let mut c = InputCoalescer::default();
    assert!(!c.push(b""));
}

#[test]
fn cube_and_grayscale_resolution() {
    // 16 = cube origin (0,0,0); 231 = cube max (255,255,255).
    assert_eq!(indexed_rgb(16), (0, 0, 0));
    assert_eq!(indexed_rgb(231), (255, 255, 255));
    // 196 = pure red corner: 16 + 36*5.
    assert_eq!(indexed_rgb(196), (255, 0, 0));
    // 21 = pure blue corner.
    assert_eq!(indexed_rgb(21), (0, 0, 255));
    // Grayscale ramp: 232 → 8, 255 → 238.
    assert_eq!(indexed_rgb(232), (8, 8, 8));
    assert_eq!(indexed_rgb(255), (238, 238, 238));
    // ANSI range hits the palette table.
    assert_eq!(indexed_rgb(1), ANSI16_DARK[1]);
}

#[test]
fn terminal_surface_and_ansi_roles_follow_the_theme() {
    let dark = Theme::dark(Platform::Other);
    let light = Theme::light(Platform::Other);
    assert_eq!(
        terminal_bg(&dark),
        Paint::Solid(Rgb { r: 9, g: 9, b: 9 })
    );
    assert_eq!(terminal_bg(&light), light.bg);
    assert_eq!(terminal_fg(&light), light.text);
    assert_eq!(indexed_rgb_for_theme(1, &dark), ANSI16_DARK[1]);
    assert_eq!(indexed_rgb_for_theme(1, &light), ANSI16_LIGHT[1]);
    assert_ne!(ANSI16_LIGHT[7], (0xff, 0xff, 0xff));
}

#[test]
fn explicit_colors_stay_as_written() {
    let light = Theme::light(Platform::Other);
    assert_eq!(
        resolve_color(CellColor::Rgb(1, 2, 3), &light),
        Paint::Solid(Rgb { r: 1, g: 2, b: 3 })
    );
    assert_eq!(
        resolve_color(CellColor::Indexed(196), &light),
        Paint::Solid(Rgb { r: 255, g: 0, b: 0 })
    );
    assert_eq!(resolve_color(CellColor::Foreground, &light), light.text);
    assert_eq!(resolve_color(CellColor::Background, &light), light.bg);
}

#[test]
fn timing_constants_match_spec() {
    assert_eq!(COALESCE_MS, 12);
    assert_eq!(RESIZE_DEBOUNCE_MS, 80);
}

#[test]
fn terminal_metrics() {
    assert_eq!((TERM_FONT_SIZE, TERM_LINE_HEIGHT, TERM_PADDING), (13, 18, 12));
}

#[test]
fn grids_are_clamped() {
    assert_eq!(grid_size(80, 24), (80, 24));
    assert_eq!(grid_size(-3, 0), (2, 1));
    assert_eq!(grid_size(9000, 501), (500, 500));
}

fn cell(ch: char) -> Cell {
    Cell {
        ch,
        fg: CellColor::Foreground,
        bg: CellColor::Background,
        bold: false,
        italic: false,
        underline: false,
        dim: false,
        hidden: false,
        wide: false,
        wide_spacer: false,
    }
}

#[test]
fn like_backgrounds_merge() {
    let theme = Theme::dark(Platform::Other);
    let red = Cell {
        bg: CellColor::Indexed(196),
        ..cell('a')
    };
    // The same color by another name.
    let also_red = Cell {
        bg: CellColor::Rgb(255, 0, 0),
        ..cell('b')
    };
    let blue = Cell {
        bg: CellColor::Rgb(0, 0, 255),
        ..cell('c')
    };
    let row = vec![cell('x'), red, also_red, blue, cell('y'), blue];
    let runs = background_runs(&row, &theme);
    let red_paint = Paint::Solid(Rgb { r: 255, g: 0, b: 0 });
    let blue_paint = Paint::Solid(Rgb { r: 0, g: 0, b: 255 });
    assert_eq!(
        runs,
        vec![
            BgRun { start: 1, len: 2, paint: red_paint },
            BgRun { start: 3, len: 1, paint: blue_paint },
            BgRun { start: 5, len: 1, paint: blue_paint },
        ]
    );
    assert!(background_runs(&vec![cell('x')], &theme).is_empty());
}

#[test]
fn wide_glyphs_are_pinned_to_their_columns() {
    let theme = Theme::dark(Platform::Other);
    let bold = Cell {
        bold: true,
        ..cell('b')
    };
    let wide = Cell {
        wide: true,
        ..cell('漢')
    };
    let spacer = Cell {
        wide_spacer: true,
        ..cell(' ')
    };
    let hidden = Cell {
        hidden: true,
        ..cell('é')
    };
    let row = vec![cell('a'), bold, wide, spacer, hidden, cell('z'), cell('é')];
    let segments = shape_row(&row, &theme);
    let shown: Vec<(usize, &str)> = segments
        .iter()
        .map(|s| (s.column, s.text.as_str()))
        .collect();
    assert_eq!(shown, [(0, "ab"), (2, "漢"), (4, " z"), (6, "é")]);
    let lens: Vec<Vec<usize>> = segments
        .iter()
        .map(|s| s.runs.iter().map(|r| r.len).collect())
        .collect();
    assert_eq!(lens, [vec![1, 1], vec![3], vec![2], vec![2]]);
    assert!(segments[0].runs[1].style.bold);
}

#[test]
fn a_grid_becomes_a_paint_plan() {
    let theme = Theme::light(Platform::Other);
    let grid = GridSnapshot {
        lines: vec![vec![cell('h'), cell('i')], vec![]],
        cursor: Some(CursorPos { row: 0, col: 2 }),
    };
    let plan = prepaint(Some(&grid), &theme, false);
    assert_eq!(plan.lines.len(), 2);
    assert_eq!(plan.lines[0][0].text, "hi");
    assert!(plan.lines[1].is_empty());
    let cursor = plan.cursor.unwrap();
    assert!(!cursor.filled);
    assert_eq!(cursor.alpha, 550_000_000);
    assert_eq!(cursor.paint, theme.text);
    let nothing = prepaint(None, &theme, true);
    assert!(nothing.lines.is_empty() && nothing.backgrounds.is_empty() && nothing.cursor.is_none());
}

#[test]
fn no_paste_closes_its_own_bracket() {
    let end = b"\x1b[201~";
    for text in [
        "a\x1b[201~b\x1b[201~\x1b[201~",
        "\x1b[20\x1b[201~1~",
        "\x1b[2\x1b[20\x1b[201~1~01~",
        "\x1b[20\x1b[201~ 1~",
        "é\x1b[201~\x1b[20",
        "\x1b[A\x1b",
        "",
    ] {
        let bytes = paste_bytes(text, true);
        let at: Vec<usize> = (0..=bytes.len() - end.len())
            .filter(|i| bytes[*i..].starts_with(end))
            .collect();
        assert_eq!(at, [bytes.len() - end.len()], "{text:?}");
    }
}
