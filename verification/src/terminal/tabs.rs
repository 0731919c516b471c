//! Tab arithmetic: reordering, closing, dropping and sliding, and the names and
//! numbers that tabs go by.
use vstd::prelude::*;
use vstd::string::*;

use crate::proto::{Chat, ChatConfig, HarnessId};
use crate::text::{after_last, after_last_of, decimal_signed, last_segment, last_segment_of, signed_text, trim, trimmed};
use crate::theme::Platform;

verus! {

/// Width of a tab, in pixels.
pub const TAB_WIDTH: i64 = 118;

/// What a tab shows: a shell, or the commands that the agent ran.
#[derive(Debug, Clone, Copy, PartialEq, Eq, Structural)]
pub enum TabKind {
    Pty,
    Agent,
}

/// How long to wait before reconnecting: 500 ms, doubling up to 8 s.
pub open spec fn backoff(attempt: int) -> int {
    if attempt <= 0 {
        500
    } else if attempt == 1 {
        1_000
    } else if attempt == 2 {
        2_000
    } else if attempt == 3 {
        4_000
    } else {
        8_000
    }
}

/// How long to wait before the given attempt to reconnect, in milliseconds.
pub fn backoff_ms(attempt: u32) -> (ms: u64)
    ensures
        ms == backoff(attempt as int),
{
    if attempt == 0 {
        500
    } else if attempt == 1 {
        1_000
    } else if attempt == 2 {
        2_000
    } else if attempt == 3 {
        4_000
    } else {
        8_000
    }
}

/// Each wait is twice the one before until the ceiling is reached, and none is
/// longer than the ceiling.
pub proof fn backoff_doubles_to_the_ceiling(attempt: int)
    requires
        attempt >= 0,
    ensures
        backoff(attempt + 1) == (if 2 * backoff(attempt) < 8_000 {
            2 * backoff(attempt)
        } else {
            8_000
        }),
        500 <= backoff(attempt) <= 8_000,
{
}

/// A list with the item at `from` moved to `to`; out of range, nothing moves.
pub open spec fn moved<T>(s: Seq<T>, from: int, to: int) -> Seq<T> {
    if 0 <= from < s.len() && 0 <= to < s.len() {
        s.remove(from).insert(to, s[from])
    } else {
        s
    }
}

/// Moves a tab.
pub fn reorder_tabs<T>(tabs: &mut Vec<T>, from: usize, to: usize)
    ensures
        final(tabs)@ == moved(old(tabs)@, from as int, to as int),
{
    if from >= tabs.len() || to >= tabs.len() || from == to {
        assert(from < tabs@.len() && to < tabs@.len() ==> tabs@ =~= tabs@.remove(
            from as int,
        ).insert(to as int, tabs@[from as int]));
        return ;
    }
    let tab = tabs.remove(from);
    tabs.insert(to, tab);
}

/// Moving back undoes a move.
pub proof fn moving_back_undoes<T>(s: Seq<T>, from: int, to: int)
    requires
        0 <= from < s.len(),
        0 <= to < s.len(),
    ensures
        moved(moved(s, from, to), to, from) == s,
{
    let m = moved(s, from, to);
    assert(m.len() == s.len());
    assert(m[to] == s[from]);
    assert(m.remove(to) =~= s.remove(from));
    assert(moved(m, to, from) =~= s);
}

/// A move neither loses nor doubles a tab.
pub proof fn moving_keeps_the_tabs<T>(s: Seq<T>, from: int, to: int)
    ensures
        moved(s, from, to).to_multiset() == s.to_multiset(),
        moved(s, from, to).len() == s.len(),
{
    broadcast use vstd::seq_lib::group_to_multiset_ensures;

    if 0 <= from < s.len() && 0 <= to < s.len() {
        let rest = s.remove(from);
        assert(rest.to_multiset() =~= s.to_multiset().remove(s[from]));
        assert(rest.insert(to, s[from]).to_multiset() =~= rest.to_multiset().insert(s[from]));
        assert(s.to_multiset().count(s[from]) > 0) by {
            assert(s.contains(s[from]));
        }
        assert(moved(s, from, to).to_multiset() =~= s.to_multiset());
    }
}

/// The least height of the panel, in thousandths of a pixel.
pub const TERMINAL_MIN_HEIGHT: i64 = 160_000;

/// The most of the viewport that the panel takes, in hundredths.
pub const TERMINAL_MAX_VH: i64 = 55;

/// The largest height of the panel. In a tiny window the least height is the
/// largest, too.
pub open spec fn height_cap(viewport: int) -> int {
    let part = viewport * TERMINAL_MAX_VH / 100;
    if part < TERMINAL_MIN_HEIGHT {
        TERMINAL_MIN_HEIGHT as int
    } else {
        part
    }
}

/// The height of the panel when a height is asked for; none stands for one that
/// is not finite.
pub open spec fn panel_height(height: Option<i64>, viewport: int) -> int {
    match height {
        None => TERMINAL_MIN_HEIGHT as int,
        Some(h) => if h < TERMINAL_MIN_HEIGHT {
            TERMINAL_MIN_HEIGHT as int
        } else if h > height_cap(viewport) {
            height_cap(viewport)
        } else {
            h as int
        },
    }
}

/// The height of the panel, in thousandths of a pixel, as the viewport is.
pub fn clamp_terminal_height(height: Option<i64>, viewport_h: i64) -> (h: i64)
    ensures
        h == panel_height(height, viewport_h as int),
{
    let cap: i64 = if viewport_h <= 0 {
        TERMINAL_MIN_HEIGHT
    } else {
        let part: i64 = (viewport_h as u128 * 55 / 100) as i64;
        if part < TERMINAL_MIN_HEIGHT {
            TERMINAL_MIN_HEIGHT
        } else {
            part
        }
    };
    match height {
        None => TERMINAL_MIN_HEIGHT,
        Some(h) => if h < TERMINAL_MIN_HEIGHT {
            TERMINAL_MIN_HEIGHT
        } else if h > cap {
            cap
        } else {
            h
        },
    }
}

/// The panel is never lower than its least height and never higher than its
/// largest, and a height that it has is one that it keeps.
pub proof fn heights_settle(height: Option<i64>, viewport: i64)
    ensures
        TERMINAL_MIN_HEIGHT <= panel_height(height, viewport as int) <= height_cap(viewport as int),
        panel_height(
            Some(panel_height(height, viewport as int) as i64),
            viewport as int,
        ) == panel_height(height, viewport as int),
{
    assert(height_cap(viewport as int) <= i64::MAX);
}

/// The slot that a pointer at `rel` pixels is over.
pub open spec fn slot_at(rel: int, width: int, count: int) -> int {
    if count == 0 || width <= 0 || rel < 0 {
        0
    } else if rel / width < count - 1 {
        rel / width
    } else {
        count - 1
    }
}

/// Where a drag that hovers at a pixel inside the strip would land; a part of a
/// pixel makes no difference.
pub fn drop_index(rel: i64, width: i64, count: usize) -> (ix: usize)
    ensures
        ix == slot_at(rel as int, width as int, count as int),
{
    if count == 0 || width <= 0 || rel < 0 {
        return 0;
    }
    let slot: u64 = rel as u64 / width as u64;
    let last: usize = count - 1;
    if slot < last as u64 {
        slot as usize
    } else {
        last
    }
}

/// By how many slots tab `ix` slides while `from` is dragged over `over`: the
/// tabs between the two shift toward the gap.
pub open spec fn slide(ix: int, from: int, over: int) -> int {
    if from < ix <= over {
        -1
    } else if over <= ix < from {
        1
    } else {
        0
    }
}

pub fn slide_offset(ix: usize, from: usize, over: usize) -> (d: i32)
    ensures
        d == slide(ix as int, from as int, over as int),
{
    if from < over && ix > from && ix <= over {
        -1
    } else if over < from && ix >= over && ix < from {
        1
    } else {
        0
    }
}

/// The slides preview the drop: a tab that is not dragged slides exactly to the
/// slot where the drop puts it.
pub proof fn slides_preview_the_drop<T>(s: Seq<T>, ix: int, from: int, over: int)
    requires
        0 <= ix < s.len(),
        0 <= from < s.len(),
        0 <= over < s.len(),
        ix != from,
    ensures
        moved(s, from, over)[ix + slide(ix, from, over)] == s[ix],
{
}

/// The active index after a move.
pub open spec fn active_moved(active: int, from: int, to: int) -> int {
    if active == from {
        to
    } else if from < active && to >= active {
        active - 1
    } else if from > active && to <= active {
        active + 1
    } else {
        active
    }
}

pub fn active_after_reorder(active: usize, from: usize, to: usize) -> (ix: usize)
    ensures
        ix == active_moved(active as int, from as int, to as int),
{
    if active == from {
        to
    } else if from < active && to >= active {
        active - 1
    } else if from > active && to <= active {
        active + 1
    } else {
        active
    }
}

/// A move never changes which tab is active.
pub proof fn the_active_tab_survives_a_move<T>(s: Seq<T>, active: int, from: int, to: int)
    requires
        0 <= active < s.len(),
        0 <= from < s.len(),
        0 <= to < s.len(),
    ensures
        0 <= active_moved(active, from, to) < s.len(),
        moved(s, from, to)[active_moved(active, from, to)] == s[active],
{
}

/// The active index after a tab is closed.
pub open spec fn active_closed(active: int, closed: int, left: int) -> int {
    let shifted = if closed < active {
        active - 1
    } else {
        active
    };
    if left == 0 {
        0
    } else if shifted < left - 1 {
        shifted
    } else {
        left - 1
    }
}

/// The active index after the tab at `closed` is gone and `len_after` are left.
pub fn active_after_close(active: usize, closed: usize, len_after: usize) -> (ix: usize)
    ensures
        ix == active_closed(active as int, closed as int, len_after as int),
{
    let shifted: usize = if closed < active {
        active - 1
    } else {
        active
    };
    if len_after == 0 {
        0
    } else if shifted < len_after - 1 {
        shifted
    } else {
        len_after - 1
    }
}

/// Closing another tab leaves the active one active, and the active index stays
/// in range as long as a tab is left.
pub proof fn the_active_tab_survives_a_close<T>(s: Seq<T>, active: int, closed: int)
    requires
        0 <= active < s.len(),
        0 <= closed < s.len(),
    ensures
        s.len() > 1 ==> 0 <= active_closed(active, closed, s.len() - 1) < s.len() - 1,
        closed != active ==> s.remove(closed)[active_closed(active, closed, s.len() - 1)]
            == s[active],
{
}

/// The number of shells among some tabs.
pub open spec fn pty_count(kinds: Seq<TabKind>) -> nat
    decreases kinds.len(),
{
    if kinds.len() == 0 {
        0
    } else {
        pty_count(kinds.drop_last()) + (if kinds.last() == TabKind::Pty {
            1nat
        } else {
            0nat
        })
    }
}

/// The number of the next shell. The agent's tab has none.
pub fn next_pty_number(kinds: &Vec<TabKind>) -> (n: usize)
    requires
        kinds@.len() < usize::MAX,
    ensures
        n == pty_count(kinds@) + 1,
{
    let mut n: usize = 1;
    let mut i: usize = 0;
    assert(kinds@.take(0) =~= Seq::<TabKind>::empty());
    while i < kinds.len()
        invariant
            i <= kinds@.len() < usize::MAX,
            n == pty_count(kinds@.take(i as int)) + 1,
            n <= i + 1,
        decreases kinds@.len() - i,
    {
        proof {
            assert(kinds@.take(i + 1).drop_last() =~= kinds@.take(i as int));
            assert(kinds@.take(i + 1).last() == kinds@[i as int]);
        }
        if kinds[i] == TabKind::Pty {
            n += 1;
        }
        i += 1;
    }
    assert(kinds@.take(i as int) =~= kinds@);
    n
}

/// The name of an agent program, as its tab shows it.
pub open spec fn harness_name(harness: HarnessId) -> Seq<char> {
    harness.spelled(" "@)
}

pub fn harness_label(harness: HarnessId) -> (s: String)
    ensures
        s@ == harness_name(harness),
{
    harness.spell(" ")
}

/// A model's name without its provider.
pub fn short_model_name(model: &str) -> (s: &str)
    ensures
        s@ == after_last(model@, '/'),
{
    last_segment(model, '/')
}

/// Whom the agent's tab is named after: the model, or else the program, or else
/// just an agent.
pub open spec fn agent_name(config: Option<ChatConfig>) -> Seq<char> {
    match config {
        None => "agent"@,
        Some(c) => match c.model {
            Some(m) => after_last(m@, '/'),
            None => harness_name(c.harness),
        },
    }
}

pub fn agent_tab_name(config: Option<&ChatConfig>) -> (s: String)
    ensures
        s@ == agent_name(match config {
            Some(c) => Some(*c),
            None => None,
        }),
{
    match config {
        None => "agent".to_owned(),
        Some(c) => match &c.model {
            Some(m) => short_model_name(m.as_str()).to_owned(),
            None => harness_label(c.harness),
        },
    }
}

/// The title of the agent's tab.
pub open spec fn agent_title(chat: Option<&Chat>) -> Seq<char> {
    agent_name(match chat {
        Some(c) => c.config,
        None => None,
    }) + "'s terminal"@
}

pub fn agent_tab_title(chat: Option<&Chat>) -> (s: String)
    ensures
        s@ == agent_title(chat),
{
    let config: Option<&ChatConfig> = match chat {
        Some(c) => match &c.config {
            Some(config) => Some(config),
            None => None,
        },
        None => None,
    };
    let mut s: String = agent_tab_name(config);
    s.append("'s terminal");
    s
}

/// The key that toggles the terminal.
pub fn toggle_binding(platform: Platform) -> (s: &'static str)
    ensures
        s@ == (if platform == Platform::MacOs {
            "cmd-j"@
        } else {
            "ctrl-j"@
        }),
{
    match platform {
        Platform::MacOs => "cmd-j",
        _ => "ctrl-j",
    }
}

/// What a terminal shows when its process has exited: a dim line of its own.
pub open spec fn exit_text(code: int) -> Seq<char> {
    "\r\n\x1b[90m[process exited "@ + decimal_signed(code) + "]\x1b[0m\r\n"@
}

pub fn exit_message(code: i32) -> (v: Vec<u8>)
    ensures
        v@ == vstd::utf8::encode_utf8(exit_text(code as int)),
{
    let mut s: String = "\r\n\x1b[90m[process exited ".to_owned();
    s.append(signed_text(code as i64).as_str());
    s.append("]\x1b[0m\r\n");
    s.as_str().as_bytes_vec()
}

/// What a terminal shows when it could not be opened.
pub open spec fn failure_text(error: Seq<char>) -> Seq<char> {
    "\x1b[31mfailed to open terminal: "@ + error + "\x1b[0m\r\n"@
}

pub fn failure_message(error: &str) -> (v: Vec<u8>)
    ensures
        v@ == vstd::utf8::encode_utf8(failure_text(error@)),
{
    let mut s: String = "\x1b[31mfailed to open terminal: ".to_owned();
    s.append(error);
    s.append("\x1b[0m\r\n");
    s.as_str().as_bytes_vec()
}

/// The title of a shell: the last part of its path.
pub open spec fn shell_name(shell: Seq<char>) -> Seq<char> {
    let name = trimmed(after_last_of(shell, '/', '\\'));
    if name.len() == 0 {
        "terminal"@
    } else {
        name
    }
}

pub fn shell_title(shell: &str) -> (s: String)
    ensures
        s@ == shell_name(shell@),
{
    let name: String = trim(last_segment_of(shell, '/', '\\').as_str());
    if name.as_str().is_empty() {
        "terminal".to_owned()
    } else {
        name
    }
}

}
