//! The agent's command feed: every shell command of the transcript, what an
//! expanded row shows, and where the feed scrolls.
use vstd::prelude::*;
use vstd::string::*;

use crate::keyed::IdSet;
use crate::proto::{MessagePart, SessionMessageEntry, ToolCall};
use crate::text::{decimal, decimal_text, lines, lines_of, one_line, single_line};

verus! {

/// How many lines of output an expanded row shows.
pub const FEED_OUTPUT_MAX_LINES: usize = 24;

/// How long the rows of a link stay lit, in milliseconds.
pub const FEED_FLASH_MS: u64 = 1600;

/// How much output of a command is kept, in kilobytes.
pub const TOOL_OUTPUT_MAX_KB: u64 = 64;

/// How a command of the feed stands.
#[derive(Debug, Clone, Copy, PartialEq, Eq, Structural)]
pub enum FeedStatus {
    Running,
    Done,
    Failed,
    /// No result, and the session is gone: never an eternal spinner.
    Unfinished,
}

/// A command of the feed.
#[derive(Debug, Clone, PartialEq, Eq)]
pub struct FeedEntry {
    /// The id of the tool part, which links point at.
    pub id: String,
    pub command: String,
    pub status: FeedStatus,
}

/// What a row of the feed says.
pub ghost struct FeedView {
    pub id: Seq<char>,
    pub command: Seq<char>,
    pub status: FeedStatus,
}

impl View for FeedEntry {
    type V = FeedView;

    open spec fn view(&self) -> FeedView {
        FeedView { id: self.id@, command: self.command@, status: self.status }
    }
}

/// What some rows say.
pub open spec fn feed_views(v: Seq<FeedEntry>) -> Seq<FeedView> {
    v.map_values(|e: FeedEntry| e@)
}

/// How a command stands: an error is an error, a result a result, and without
/// either it runs as long as its session lives.
pub open spec fn command_status(is_error: bool, resolved: bool, live: bool) -> FeedStatus {
    if is_error {
        FeedStatus::Failed
    } else if resolved {
        FeedStatus::Done
    } else if live {
        FeedStatus::Running
    } else {
        FeedStatus::Unfinished
    }
}

/// The rows of some parts of a message: its shell commands, on one line each.
pub open spec fn parts_feed(parts: Seq<MessagePart>, live: bool) -> Seq<FeedView>
    decreases parts.len(),
{
    if parts.len() == 0 {
        Seq::empty()
    } else {
        let before = parts_feed(parts.drop_last(), live);
        match parts.last() {
            MessagePart::Tool {
                id,
                call: ToolCall::Exec { command },
                call_json,
                is_error,
                resolved,
            } => before.push(
                FeedView {
                    id: id@,
                    command: one_line(command@),
                    status: command_status(is_error, resolved, live),
                },
            ),
            _ => before,
        }
    }
}

/// The rows of a transcript.
pub open spec fn feed_of(entries: Seq<SessionMessageEntry>, live: bool) -> Seq<FeedView>
    decreases entries.len(),
{
    if entries.len() == 0 {
        Seq::empty()
    } else {
        feed_of(entries.drop_last(), live) + parts_feed(entries.last().parts@, live)
    }
}

fn push_parts(feed: &mut Vec<FeedEntry>, parts: &Vec<MessagePart>, live: bool)
    ensures
        feed_views(final(feed)@) == feed_views(old(feed)@) + parts_feed(parts@, live),
{
    let mut i: usize = 0;
    assert(parts@.take(0) =~= Seq::<MessagePart>::empty());
    assert(feed_views(feed@) + parts_feed(parts@.take(0), live) =~= feed_views(feed@));
    while i < parts.len()
        invariant
            i <= parts@.len(),
            feed_views(feed@) == feed_views(old(feed)@) + parts_feed(parts@.take(i as int), live),
        decreases parts@.len() - i,
    {
        let ghost had = feed@;
        proof {
            assert(parts@.take(i + 1).drop_last() =~= parts@.take(i as int));
            assert(parts@.take(i + 1).last() == parts@[i as int]);
        }
        match &parts[i] {
            MessagePart::Tool {
                id,
                call: ToolCall::Exec { command },
                call_json,
                is_error,
                resolved,
            } => {
                let status: FeedStatus = if *is_error {
                    FeedStatus::Failed
                } else if *resolved {
                    FeedStatus::Done
                } else if live {
                    FeedStatus::Running
                } else {
                    FeedStatus::Unfinished
                };
                let entry = FeedEntry {
                    id: id.clone(),
                    command: single_line(command.as_str()),
                    status,
                };
                let ghost seen = entry@;
                feed.push(entry);
                proof {
                    assert(feed_views(feed@) =~= feed_views(had).push(seen));
                    assert(feed_views(feed@) =~= feed_views(old(feed)@) + parts_feed(
                        parts@.take(i + 1),
                        live,
                    ));
                }
            },
            _ => {},
        }
        i += 1;
    }
    assert(parts@.take(i as int) =~= parts@);
}

/// Every shell command of a transcript, in order. `live` tells whether the
/// session that launched them is alive.
pub fn exec_feed(entries: &Vec<SessionMessageEntry>, live: bool) -> (feed: Vec<FeedEntry>)
    ensures
        feed_views(feed@) == feed_of(entries@, live),
{
    let mut feed: Vec<FeedEntry> = Vec::new();
    let mut i: usize = 0;
    assert(entries@.take(0) =~= Seq::<SessionMessageEntry>::empty());
    assert(feed_views(feed@) =~= Seq::<FeedView>::empty());
    while i < entries.len()
        invariant
            i <= entries@.len(),
            feed_views(feed@) == feed_of(entries@.take(i as int), live),
        decreases entries@.len() - i,
    {
        proof {
            assert(entries@.take(i + 1).drop_last() =~= entries@.take(i as int));
            assert(entries@.take(i + 1).last() == entries@[i as int]);
        }
        push_parts(&mut feed, &entries[i].parts, live);
        i += 1;
    }
    assert(entries@.take(i as int) =~= entries@);
    feed
}

proof fn parts_never_run_dead(parts: Seq<MessagePart>, i: int)
    requires
        0 <= i < parts_feed(parts, false).len(),
    ensures
        parts_feed(parts, false)[i].status != FeedStatus::Running,
    decreases parts.len(),
{
    if parts.len() > 0 && i < parts_feed(parts.drop_last(), false).len() {
        parts_never_run_dead(parts.drop_last(), i);
    }
}

/// In a dead session nothing runs.
pub proof fn a_dead_session_runs_nothing(entries: Seq<SessionMessageEntry>, i: int)
    requires
        0 <= i < feed_of(entries, false).len(),
    ensures
        feed_of(entries, false)[i].status != FeedStatus::Running,
    decreases entries.len(),
{
    if entries.len() > 0 {
        let before = feed_of(entries.drop_last(), false);
        if i < before.len() {
            a_dead_session_runs_nothing(entries.drop_last(), i);
        } else {
            parts_never_run_dead(entries.last().parts@, i - before.len());
        }
    }
}

/// Whether the session lives has no say in which commands the feed lists, nor
/// in their order.
pub proof fn liveness_only_colors_the_feed(entries: Seq<SessionMessageEntry>)
    ensures
        feed_of(entries, true).len() == feed_of(entries, false).len(),
        forall|i: int|
            0 <= i < feed_of(entries, true).len() ==> (#[trigger] feed_of(entries, true)[i]).id
                == feed_of(entries, false)[i].id && feed_of(entries, true)[i].command == feed_of(
                entries,
                false,
            )[i].command,
    decreases entries.len(),
{
    if entries.len() > 0 {
        liveness_only_colors_the_feed(entries.drop_last());
        liveness_only_colors_parts(entries.last().parts@);
    }
}

proof fn liveness_only_colors_parts(parts: Seq<MessagePart>)
    ensures
        parts_feed(parts, true).len() == parts_feed(parts, false).len(),
        forall|i: int|
            0 <= i < parts_feed(parts, true).len() ==> (#[trigger] parts_feed(parts, true)[i]).id
                == parts_feed(parts, false)[i].id && parts_feed(parts, true)[i].command
                == parts_feed(parts, false)[i].command,
    decreases parts.len(),
{
    if parts.len() > 0 {
        liveness_only_colors_parts(parts.drop_last());
    }
}

/// Where the feed scrolls to in this frame: to a link's anchor, or else to its
/// last row when the number of rows, or the height of the last one, changed.
pub open spec fn scroll_target(
    prev: (usize, usize),
    cur: (usize, usize),
    anchor: Option<usize>,
) -> Option<usize> {
    if anchor is Some {
        anchor
    } else if prev != cur && cur.0 > 0 {
        Some((cur.0 - 1) as usize)
    } else {
        None
    }
}

pub fn follow_target(prev: (usize, usize), cur: (usize, usize), anchor: Option<usize>) -> (t: Option<
    usize,
>)
    ensures
        t == scroll_target(prev, cur, anchor),
{
    match anchor {
        Some(ix) => Some(ix),
        None => if (prev.0 != cur.0 || prev.1 != cur.1) && cur.0 > 0 {
            Some(cur.0 - 1)
        } else {
            None
        },
    }
}

/// Whether a row is open: pinned rows are, and so is the last one unless it was
/// dismissed.
pub open spec fn row_open(
    pinned: Set<Seq<char>>,
    dismissed: Set<Seq<char>>,
    id: Seq<char>,
    is_last: bool,
) -> bool {
    pinned.contains(id) || (is_last && !dismissed.contains(id))
}

/// The keys of an optional set.
pub open spec fn opt_set(s: Option<&IdSet>) -> Set<Seq<char>> {
    match s {
        Some(set) => set@.dom(),
        None => Set::empty(),
    }
}

pub fn is_feed_row_expanded(
    pinned: Option<&IdSet>,
    dismissed: Option<&IdSet>,
    id: &str,
    is_last: bool,
) -> (r: bool)
    requires
        pinned is Some ==> pinned->0.wf(),
        dismissed is Some ==> dismissed->0.wf(),
    ensures
        r == row_open(opt_set(pinned), opt_set(dismissed), id@, is_last),
{
    let pin: bool = match pinned {
        Some(s) => s.contains(id),
        None => false,
    };
    let dismissal: bool = match dismissed {
        Some(s) => s.contains(id),
        None => false,
    };
    pin || (is_last && !dismissal)
}

/// How many lines are cut from the front of `total`.
pub open spec fn hidden_lines(total: nat) -> nat {
    if total > FEED_OUTPUT_MAX_LINES {
        (total - FEED_OUTPUT_MAX_LINES) as nat
    } else {
        0
    }
}

/// The marker for output that was cut when it was captured.
pub open spec fn capture_marker() -> Seq<char> {
    "\u{2026} truncated to the last "@ + decimal(TOOL_OUTPUT_MAX_KB as nat) + " KB"@
}

/// The marker for lines that are not shown.
pub open spec fn hidden_marker(hidden: nat) -> Seq<char> {
    "\u{2026} "@ + decimal(hidden) + " earlier lines"@
}

/// What an expanded row shows: markers for what was cut, then the last lines.
pub open spec fn shown_lines(output: Seq<char>, truncated: bool) -> Seq<Seq<char>> {
    let all = lines_of(output);
    let hidden = hidden_lines(all.len());
    let capture = if truncated {
        seq![capture_marker()]
    } else {
        Seq::empty()
    };
    let cut = if hidden > 0 {
        seq![hidden_marker(hidden)]
    } else {
        Seq::empty()
    };
    capture + cut + all.skip(hidden as int)
}

/// The texts of some lines.
pub open spec fn line_views(v: Seq<String>) -> Seq<Seq<char>> {
    v.map_values(|l: String| l@)
}

fn push_line(v: &mut Vec<String>, line: String)
    ensures
        line_views(final(v)@) == line_views(old(v)@).push(line@),
{
    v.push(line);
    assert(line_views(v@) =~= line_views(old(v)@).push(line@));
}

/// The lines that an expanded row shows.
pub fn output_display_lines(output: &str, truncated: bool) -> (out: Vec<String>)
    ensures
        line_views(out@) == shown_lines(output@, truncated),
{
    let all: Vec<String> = lines(output);
    let n: usize = all.len();
    let hidden: usize = if n > FEED_OUTPUT_MAX_LINES {
        n - FEED_OUTPUT_MAX_LINES
    } else {
        0
    };
    let ghost texts = line_views(all@);
    let mut out: Vec<String> = Vec::new();
    assert(line_views(out@) =~= Seq::<Seq<char>>::empty());
    if truncated {
        let mut s: String = "\u{2026} truncated to the last ".to_owned();
        s.append(decimal_text(TOOL_OUTPUT_MAX_KB).as_str());
        s.append(" KB");
        push_line(&mut out, s);
    }
    if hidden > 0 {
        let mut s: String = "\u{2026} ".to_owned();
        s.append(decimal_text(hidden as u64).as_str());
        s.append(" earlier lines");
        push_line(&mut out, s);
    }
    let ghost head = line_views(out@);
    let mut i: usize = hidden;
    assert(head + texts.subrange(hidden as int, hidden as int) =~= head);
    while i < n
        invariant
            hidden <= i <= n == all@.len(),
            texts == line_views(all@),
            line_views(out@) == head + texts.subrange(hidden as int, i as int),
        decreases n - i,
    {
        push_line(&mut out, all[i].clone());
        proof {
            assert(texts.subrange(hidden as int, i + 1) =~= texts.subrange(
                hidden as int,
                i as int,
            ).push(texts[i as int]));
            assert((head + texts.subrange(hidden as int, i as int)).push(texts[i as int]) =~= head
                + texts.subrange(hidden as int, i + 1));
        }
        i += 1;
    }
    proof {
        assert(texts.subrange(hidden as int, n as int) =~= texts.skip(hidden as int));
        assert(line_views(out@) =~= shown_lines(output@, truncated));
    }
    out
}

/// An expanded row never shows more than the last lines and two markers, and
/// its last line is the last line of the output.
pub proof fn expanded_rows_show_the_tail(output: Seq<char>, truncated: bool)
    ensures
        shown_lines(output, truncated).len() <= FEED_OUTPUT_MAX_LINES + 2,
        lines_of(output).len() > 0 ==> shown_lines(output, truncated).len() > 0 && shown_lines(
            output,
            truncated,
        ).last() == lines_of(output).last(),
{
}

/// A reply about the output of a command, kept by the feed.
#[derive(Debug, Clone, PartialEq, Eq)]
pub enum FeedOutput {
    Loaded { output: String, truncated: bool },
    Unavailable,
}

/// What a kept reply holds.
pub ghost enum OutputView {
    Loaded { output: Seq<char>, truncated: bool },
    Unavailable,
}

impl View for FeedOutput {
    type V = OutputView;

    open spec fn view(&self) -> OutputView {
        match self {
            FeedOutput::Loaded { output, truncated } => OutputView::Loaded {
                output: output@,
                truncated: *truncated,
            },
            FeedOutput::Unavailable => OutputView::Unavailable,
        }
    }
}

/// How many lines the expansion of a row takes.
pub open spec fn expansion_lines(
    open: bool,
    status: FeedStatus,
    output: Option<OutputView>,
) -> int {
    if !open {
        0
    } else if status == FeedStatus::Running {
        1
    } else {
        match output {
            Some(OutputView::Loaded { output, truncated }) if output.len() > 0 => shown_lines(
                output,
                truncated,
            ).len() as int,
            _ => 1,
        }
    }
}

/// How near the end counts as the end, in thousandths of a pixel.
pub const FEED_FOLLOW_EPSILON: i64 = 2_000;

/// Whether the feed stands at its end, by how far it is scrolled and how far it
/// can be, both in thousandths of a pixel. Offsets are negative going down.
pub fn feed_at_bottom(offset_y: i64, max_offset_y: i64) -> (r: bool)
    ensures
        r == (max_offset_y + offset_y <= FEED_FOLLOW_EPSILON),
{
    max_offset_y as i128 + offset_y as i128 <= FEED_FOLLOW_EPSILON as i128
}

/// The height of the last row's expansion, counted without building the lines.
pub fn tail_lines(open: bool, status: FeedStatus, output: Option<&FeedOutput>) -> (n: usize)
    ensures
        n == expansion_lines(
            open,
            status,
            match output {
                Some(o) => Some(o@),
                None => None,
            },
        ),
{
    if !open {
        return 0;
    }
    if status == FeedStatus::Running {
        return 1;
    }
    match output {
        Some(FeedOutput::Loaded { output, truncated }) => {
            if output.as_str().is_empty() {
                1
            } else {
                let all: Vec<String> = lines(output.as_str());
                assert(all@.len() == line_views(all@).len());
                let total: usize = all.len();
                let shown: usize = if total > FEED_OUTPUT_MAX_LINES {
                    FEED_OUTPUT_MAX_LINES + 1
                } else {
                    total
                };
                if *truncated {
                    shown + 1
                } else {
                    shown
                }
            }
        },
        _ => 1,
    }
}

/// What an expanded row shows under its command.
#[derive(Debug, Clone, PartialEq, Eq)]
pub enum FeedExpansion {
    Collapsed,
    StillRunning,
    Loading,
    Lines(Vec<String>),
    Unavailable,
    NoOutput,
}

/// What an expansion says.
pub ghost enum ExpansionView {
    Collapsed,
    StillRunning,
    Loading,
    Lines(Seq<Seq<char>>),
    Unavailable,
    NoOutput,
}

impl View for FeedExpansion {
    type V = ExpansionView;

    open spec fn view(&self) -> ExpansionView {
        match self {
            FeedExpansion::Collapsed => ExpansionView::Collapsed,
            FeedExpansion::StillRunning => ExpansionView::StillRunning,
            FeedExpansion::Loading => ExpansionView::Loading,
            FeedExpansion::Lines(v) => ExpansionView::Lines(line_views(v@)),
            FeedExpansion::Unavailable => ExpansionView::Unavailable,
            FeedExpansion::NoOutput => ExpansionView::NoOutput,
        }
    }
}

pub open spec fn expansion_of(
    open: bool,
    status: FeedStatus,
    output: Option<OutputView>,
) -> ExpansionView {
    if !open {
        ExpansionView::Collapsed
    } else if status == FeedStatus::Running {
        ExpansionView::StillRunning
    } else {
        match output {
            None => ExpansionView::Loading,
            Some(OutputView::Unavailable) => ExpansionView::Unavailable,
            Some(OutputView::Loaded { output, truncated }) => if output.len() == 0 {
                ExpansionView::NoOutput
            } else {
                ExpansionView::Lines(shown_lines(output, truncated))
            },
        }
    }
}

/// What a row shows under its command.
pub fn expansion(open: bool, status: FeedStatus, output: Option<&FeedOutput>) -> (e: FeedExpansion)
    ensures
        e@ == expansion_of(
            open,
            status,
            match output {
                Some(o) => Some(o@),
                None => None,
            },
        ),
{
    if !open {
        return FeedExpansion::Collapsed;
    }
    if status == FeedStatus::Running {
        return FeedExpansion::StillRunning;
    }
    match output {
        None => FeedExpansion::Loading,
        Some(FeedOutput::Unavailable) => FeedExpansion::Unavailable,
        Some(FeedOutput::Loaded { output, truncated }) => if output.as_str().is_empty() {
            FeedExpansion::NoOutput
        } else {
            FeedExpansion::Lines(output_display_lines(output.as_str(), *truncated))
        },
    }
}

/// The note that stands in for output.
pub open spec fn note_of(e: ExpansionView) -> Option<Seq<char>> {
    match e {
        ExpansionView::StillRunning => Some("still running\u{2026}"@),
        ExpansionView::Loading => Some("fetching output\u{2026}"@),
        ExpansionView::Unavailable => Some("output unavailable"@),
        ExpansionView::NoOutput => Some("(no output)"@),
        _ => None,
    }
}

/// The note that stands in for output, in an expansion that shows none.
pub fn expansion_note(e: &FeedExpansion) -> (s: Option<&'static str>)
    ensures
        crate::terminal::view::opt_text(s) == note_of(e@),
{
    match e {
        FeedExpansion::StillRunning => Some("still running\u{2026}"),
        FeedExpansion::Loading => Some("fetching output\u{2026}"),
        FeedExpansion::Unavailable => Some("output unavailable"),
        FeedExpansion::NoOutput => Some("(no output)"),
        _ => None,
    }
}

/// The mark before a command.
#[derive(Debug, Clone, Copy, PartialEq, Eq, Structural)]
pub enum FeedGlyph {
    Spinner,
    Cross,
    Prompt,
}

/// The mark of a command, and whether its text stands out.
pub fn row_style(status: FeedStatus) -> (r: (FeedGlyph, bool))
    ensures
        r.0 == (match status {
            FeedStatus::Running => FeedGlyph::Spinner,
            FeedStatus::Failed => FeedGlyph::Cross,
            FeedStatus::Done | FeedStatus::Unfinished => FeedGlyph::Prompt,
        }),
        r.1 == (status == FeedStatus::Running || status == FeedStatus::Failed),
{
    match status {
        FeedStatus::Running => (FeedGlyph::Spinner, true),
        FeedStatus::Failed => (FeedGlyph::Cross, true),
        FeedStatus::Done | FeedStatus::Unfinished => (FeedGlyph::Prompt, false),
    }
}

/// The height counted for the last row is the number of lines that it shows.
pub proof fn counted_height_is_shown_height(
    open: bool,
    status: FeedStatus,
    output: Option<OutputView>,
)
    ensures
        expansion_lines(open, status, output) == (match expansion_of(open, status, output) {
            ExpansionView::Collapsed => 0,
            ExpansionView::Lines(lines) => lines.len() as int,
            _ => 1,
        }),
{
}

}
