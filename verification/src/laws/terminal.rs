//! What the terminal panel's operations are for: which shell a call is about,
//! where it goes, and what becomes of the tab.
use vstd::prelude::*;

use crate::laws::calls::{goes_to, names_differ, says_int, says_text};
use crate::seqs::{first_at_is, first_at_props};
use crate::state::{chat_named, AppState};
use crate::terminal::codec::{base64_text, frame_bytes};
use crate::terminal::panel::{
    chat_target, keyed_by, on_subscribe_failed, tab_ix, tab_of, tab_views, tabs_for, ClosedTab,
    Flushed, GridResize, KeyOutcome, Keystroke, Queued, ScreenFeed, SessionNext, SessionRun,
    StreamDisposition, TabView, TabsView, TerminalEvent, TerminalPanel, TerminalTab,
};
use crate::terminal::tabs::TabKind;
use crate::wire::{opt, Call, Method, Request};

verus! {

/// The tabs of a chat, as the panel holds them.
pub open spec fn tabs_in(p: TerminalPanel, chat: Seq<char>) -> Seq<TerminalTab> {
    p.chats@[chat].tabs@
}

/// Whether slot `i` of a chat holds the first tab with a key.
pub open spec fn is_tab(p: TerminalPanel, chat: Seq<char>, key: u64, i: int) -> bool {
    &&& p.chats@.contains_key(chat)
    &&& 0 <= i < tabs_in(p, chat).len()
    &&& tabs_in(p, chat)[i].key == key
    &&& forall|j: int| 0 <= j < i ==> (#[trigger] tabs_in(p, chat)[j]).key != key
}

/// Whether a chat has no tab with a key.
pub open spec fn no_tab(p: TerminalPanel, chat: Seq<char>, key: u64) -> bool {
    p.chats@.contains_key(chat) ==> forall|j: int|
        0 <= j < tabs_in(p, chat).len() ==> (#[trigger] tabs_in(p, chat)[j]).key != key
}

/// Whether the active tab of a chat stands in slot `i`.
pub open spec fn is_active(p: TerminalPanel, chat: Seq<char>, i: int) -> bool {
    &&& p.chats@.contains_key(chat)
    &&& p.chats@[chat].active == i
    &&& 0 <= i < tabs_in(p, chat).len()
}

/// Whether a call is about a shell, has a method and goes to a device.
pub open spec fn about_shell(
    c: Call,
    method: Method,
    terminal: Seq<char>,
    target: Option<Seq<char>>,
) -> bool {
    c.method == method && says_text(c, "terminalId"@, terminal) && goes_to(c, target)
}

/// Whether a device is where calls for a chat go: the one that hosts the chat,
/// unless it is this one or the chat is unknown.
pub open spec fn is_target(s: AppState, chat: Seq<char>, target: Option<Seq<char>>) -> bool {
    &&& forall|i: int|
        0 <= i < s.chats@.len() && (#[trigger] s.chats@[i]).id@ == chat && (forall|j: int|
            0 <= j < i ==> (#[trigger] s.chats@[j]).id@ != chat) ==> (if opt(s.local_device_id)
            == Some(s.chats@[i].device_id@) {
            target is None
        } else {
            target == Some(s.chats@[i].device_id@)
        })
    &&& (forall|i: int| 0 <= i < s.chats@.len() ==> (#[trigger] s.chats@[i]).id@ != chat)
        ==> target is None
}

/// A chat's tabs are the same in two panels.
pub open spec fn same_tabs(a: TerminalPanel, b: TerminalPanel, chat: Seq<char>) -> bool {
    &&& a.chats@.contains_key(chat) == b.chats@.contains_key(chat)
    &&& a.chats@.contains_key(chat) ==> {
        &&& tabs_in(a, chat).len() == tabs_in(b, chat).len()
        &&& a.chats@[chat].active == b.chats@[chat].active
        &&& forall|j: int|
            0 <= j < tabs_in(a, chat).len() ==> (#[trigger] tabs_in(a, chat)[j])@ == tabs_in(
                b,
                chat,
            )[j]@
    }
}

/// Two panels have the same tabs, but for slot `i` of a chat.
pub open spec fn same_but(a: TerminalPanel, b: TerminalPanel, chat: Seq<char>, i: int) -> bool {
    &&& b.chats@.contains_key(chat)
    &&& tabs_in(b, chat).len() == tabs_in(a, chat).len()
    &&& b.chats@[chat].active == a.chats@[chat].active
    &&& forall|j: int|
        0 <= j < tabs_in(a, chat).len() && j != i ==> (#[trigger] tabs_in(b, chat)[j])@ == tabs_in(
            a,
            chat,
        )[j]@
    &&& forall|other: Seq<char>| other != chat ==> #[trigger] same_tabs(a, b, other)
}

pub(crate) proof fn the_target_is_the_host(s: AppState, chat: Seq<char>)
    ensures
        is_target(
            s,
            chat,
            crate::terminal::panel::target_of(s.chats@, opt(s.local_device_id), chat),
        ),
{
    let p = chat_named(chat);
    first_at_props(s.chats@, p, 0);
    assert forall|i: int|
        0 <= i < s.chats@.len() && (#[trigger] s.chats@[i]).id@ == chat && (forall|j: int|
            0 <= j < i ==> (#[trigger] s.chats@[j]).id@ != chat) implies crate::state::chat_ix(
        s.chats@,
        chat,
    ) == i by {
        assert forall|j: int| 0 <= j < i implies !p(#[trigger] s.chats@[j]) by {
            assert(s.chats@[j].id@ != chat);
        }
        assert(p(s.chats@[i]));
        first_at_is(s.chats@, p, i);
    }
    if forall|i: int| 0 <= i < s.chats@.len() ==> (#[trigger] s.chats@[i]).id@ != chat {
        assert forall|j: int| 0 <= j < s.chats@.len() implies !p(#[trigger] s.chats@[j]) by {
            assert(s.chats@[j].id@ != chat);
        }
        first_at_is(s.chats@, p, s.chats@.len() as int);
    }
}

proof fn the_tab_is_found(p: TerminalPanel, chat: Seq<char>, key: u64, i: int)
    requires
        is_tab(p, chat, key, i),
    ensures
        tab_of(p@, chat, key) == Some(tabs_in(p, chat)[i]@),
        tab_ix(tabs_for(p@, chat).tabs, key) == i,
        tabs_for(p@, chat) == p.chats@[chat]@,
        tabs_for(p@, chat).tabs.len() == tabs_in(p, chat).len(),
{
    let tabs = tab_views(tabs_in(p, chat));
    assert(p@.chats[chat] == p.chats@[chat]@);
    assert forall|j: int| 0 <= j < i implies !keyed_by(key)(#[trigger] tabs[j]) by {
        assert(tabs_in(p, chat)[j].key != key);
    }
    assert(keyed_by(key)(tabs[i]));
    first_at_is(tabs, keyed_by(key), i);
}

proof fn no_tab_is_found(p: TerminalPanel, chat: Seq<char>, key: u64)
    requires
        no_tab(p, chat, key),
    ensures
        tab_of(p@, chat, key) is None,
{
    if p.chats@.contains_key(chat) {
        let tabs = tab_views(tabs_in(p, chat));
        assert(p@.chats[chat] == p.chats@[chat]@);
        assert forall|j: int| 0 <= j < tabs.len() implies !keyed_by(key)(#[trigger] tabs[j]) by {
            assert(tabs_in(p, chat)[j].key != key);
        }
        first_at_is(tabs, keyed_by(key), tabs.len() as int);
    } else {
        first_at_props(Seq::<TabView>::empty(), keyed_by(key), 0);
    }
}

/// What two panels' views say of their tabs.
pub(crate) proof fn views_tell_the_tabs(p: TerminalPanel, chat: Seq<char>)
    ensures
        p@.chats.contains_key(chat) == p.chats@.contains_key(chat),
        p.chats@.contains_key(chat) ==> {
            &&& p@.chats[chat] == p.chats@[chat]@
            &&& p@.chats[chat].tabs.len() == tabs_in(p, chat).len()
            &&& forall|j: int|
                0 <= j < tabs_in(p, chat).len() ==> p@.chats[chat].tabs[j] == (
                #[trigger] tabs_in(p, chat)[j])@
            &&& forall|j: int|
                0 <= j < tabs_in(p, chat).len() ==> #[trigger] p@.chats[chat].tabs[j] == (tabs_in(
                    p,
                    chat,
                )[j])@
        },
{
}

pub(crate) proof fn one_tab_changed(
    a: TerminalPanel,
    b: TerminalPanel,
    chat: Seq<char>,
    i: int,
    t: TabView,
)
    requires
        a.chats@.contains_key(chat),
        0 <= i < tabs_in(a, chat).len(),
        b@.chats == a@.chats.insert(
            chat,
            (TabsView { tabs: a.chats@[chat]@.tabs.update(i, t), ..a.chats@[chat]@ }),
        ),
    ensures
        same_but(a, b, chat, i),
        tabs_in(b, chat)[i]@ == t,
{
    views_tell_the_tabs(a, chat);
    views_tell_the_tabs(b, chat);
    assert forall|other: Seq<char>| other != chat implies #[trigger] same_tabs(a, b, other) by {
        views_tell_the_tabs(a, other);
        views_tell_the_tabs(b, other);
    }
    assert forall|j: int| 0 <= j < tabs_in(a, chat).len() && j != i implies (#[trigger] tabs_in(
        b,
        chat,
    )[j])@ == tabs_in(a, chat)[j]@ by {
        assert(b@.chats[chat].tabs[j] == a@.chats[chat].tabs[j]);
    }
}

pub(crate) proof fn nothing_changed(a: TerminalPanel, b: TerminalPanel)
    requires
        a@ == b@,
    ensures
        forall|chat: Seq<char>| #[trigger] same_tabs(a, b, chat),
{
    assert forall|chat: Seq<char>| #[trigger] same_tabs(a, b, chat) by {
        views_tell_the_tabs(a, chat);
        views_tell_the_tabs(b, chat);
    }
}

/// Calls for a chat go to the device that hosts it, and name none when that is
/// this device or the chat is unknown.
pub proof fn calls_go_to_the_host(state: &AppState, chat: &str, r: Option<String>)
    requires
        call_ensures(chat_target, (state, chat), r),
    ensures
        is_target(*state, chat@, opt(r)),
{
    the_target_is_the_host(*state, chat@);
}

/// A shell is opened for the session's chat, on its device, in the size that its
/// tab has.
pub proof fn a_shell_is_opened_in_the_size_of_its_tab(
    p: &TerminalPanel,
    run: &SessionRun,
    i: int,
    r: Request,
)
    requires
        call_ensures(TerminalPanel::open_request, (p, run), r),
        is_tab(*p, run.chat@, run.key, i),
    ensures
        r@.method == Method::OpenTerminal,
        says_text(r@, "chatId"@, run.chat@),
        says_int(r@, "cols"@, tabs_in(*p, run.chat@)[i].cols as int),
        says_int(r@, "rows"@, tabs_in(*p, run.chat@)[i].rows as int),
        goes_to(r@, opt(run.target)),
{
    names_differ();
    the_tab_is_found(*p, run.chat@, run.key, i);
}

/// Once its shell is open, a tab has it, and the session follows that shell's
/// output behind the last frame that the tab got.
pub proof fn an_opened_shell_is_followed(
    p: &mut TerminalPanel,
    run: &SessionRun,
    id: String,
    i: int,
    r: (SessionNext, Option<ScreenFeed>),
)
    requires
        call_ensures(TerminalPanel::on_opened, (p, run, Ok::<String, String>(id)), r),
        is_tab(*old(p), run.chat@, run.key, i),
    ensures
        r.0 matches SessionNext::Subscribe(q) && about_shell(
            q@,
            Method::SubscribeTerminal,
            id@,
            opt(run.target),
        ) && says_int(q@, "afterSeq"@, tabs_in(*old(p), run.chat@)[i].last_seq as int),
        r.1 is None,
        same_but(*old(p), *final(p), run.chat@, i),
        opt(tabs_in(*final(p), run.chat@)[i].terminal_id) == Some(id@),
        tabs_in(*final(p), run.chat@)[i].exited == tabs_in(*old(p), run.chat@)[i].exited,
        tabs_in(*final(p), run.chat@)[i].last_seq == tabs_in(*old(p), run.chat@)[i].last_seq,
        tabs_in(*final(p), run.chat@)[i].coalescer@ == tabs_in(
            *old(p),
            run.chat@,
        )[i].coalescer@,
{
    names_differ();
    the_tab_is_found(*old(p), run.chat@, run.key, i);
    let t = tabs_in(*old(p), run.chat@)[i]@;
    one_tab_changed(
        *old(p),
        *final(p),
        run.chat@,
        i,
        TabView { terminal_id: Some(id@), ..t },
    );
}

/// A shell whose tab was closed meanwhile is closed, too.
pub proof fn a_shell_without_a_tab_is_closed(
    p: &mut TerminalPanel,
    run: &SessionRun,
    id: String,
    r: (SessionNext, Option<ScreenFeed>),
)
    requires
        call_ensures(TerminalPanel::on_opened, (p, run, Ok::<String, String>(id)), r),
        no_tab(*old(p), run.chat@, run.key),
    ensures
        r.0 matches SessionNext::Release(q) && about_shell(
            q@,
            Method::CloseTerminal,
            id@,
            opt(run.target),
        ),
        r.1 is None,
        forall|chat: Seq<char>| #[trigger] same_tabs(*old(p), *final(p), chat),
{
    names_differ();
    no_tab_is_found(*old(p), run.chat@, run.key);
    nothing_changed(*old(p), *final(p));
}

/// A shell that could not be opened ends its tab; the tab's screen says why.
pub proof fn a_failure_to_open_is_shown(
    p: &mut TerminalPanel,
    run: &SessionRun,
    error: String,
    i: int,
    r: (SessionNext, Option<ScreenFeed>),
)
    requires
        call_ensures(TerminalPanel::on_opened, (p, run, Err::<String, String>(error)), r),
        is_tab(*old(p), run.chat@, run.key, i),
    ensures
        r.0 is Stop,
        r.1 matches Some(f) && f.chat@ == run.chat@ && f.key == run.key && (exists|
            a: Seq<char>,
            b: Seq<char>,
        |
            f.bytes@ == #[trigger] vstd::utf8::encode_utf8(a + error@ + b)),
        same_but(*old(p), *final(p), run.chat@, i),
        tabs_in(*final(p), run.chat@)[i].exited == Some(-1i32),
        opt(tabs_in(*final(p), run.chat@)[i].terminal_id) == opt(
            tabs_in(*old(p), run.chat@)[i].terminal_id,
        ),
{
    the_tab_is_found(*old(p), run.chat@, run.key, i);
    let t = tabs_in(*old(p), run.chat@)[i]@;
    one_tab_changed(*old(p), *final(p), run.chat@, i, TabView { exited: Some(-1i32), ..t });
}

/// Subscribing again follows the same shell behind the last frame of the tab, and
/// stops when the tab is gone.
pub proof fn a_reconnect_resumes(
    p: &TerminalPanel,
    run: &SessionRun,
    id: &str,
    i: int,
    r: SessionNext,
)
    requires
        call_ensures(TerminalPanel::resubscribe, (p, run, id), r),
    ensures
        is_tab(*p, run.chat@, run.key, i) ==> (r matches SessionNext::Subscribe(q) && about_shell(
            q@,
            Method::SubscribeTerminal,
            id@,
            opt(run.target),
        ) && says_int(q@, "afterSeq"@, tabs_in(*p, run.chat@)[i].last_seq as int)),
        no_tab(*p, run.chat@, run.key) ==> r is Stop,
{
    names_differ();
    if is_tab(*p, run.chat@, run.key, i) {
        the_tab_is_found(*p, run.chat@, run.key, i);
    }
    if no_tab(*p, run.chat@, run.key) {
        no_tab_is_found(*p, run.chat@, run.key);
    }
}

/// Output goes to the screen of the session's tab as the bytes that its text
/// decodes to, and the tab remembers the frame; nothing else of the tabs changes.
pub proof fn output_reaches_the_screen(
    p: &mut TerminalPanel,
    run: &mut SessionRun,
    seq: u64,
    data: String,
    i: int,
    r: (StreamDisposition, Option<ScreenFeed>),
)
    requires
        call_ensures(
            TerminalPanel::apply_stream_event,
            (p, run, TerminalEvent::Data { seq, data }),
            r,
        ),
        is_tab(*old(p), old(run).chat@, old(run).key, i),
    ensures
        r.0 is Continue,
        r.1 matches Some(f) && f.chat@ == old(run).chat@ && f.key == old(run).key && f.bytes@
            == frame_bytes(data@),
        same_but(*old(p), *final(p), old(run).chat@, i),
        tabs_in(*final(p), old(run).chat@)[i]@ == (TabView {
            last_seq: seq,
            ..tabs_in(*old(p), old(run).chat@)[i]@
        }),
        final(run).attempt == 0,
        final(run).chat == old(run).chat && final(run).key == old(run).key && final(run).target
            == old(run).target,
{
    let chat = old(run).chat@;
    the_tab_is_found(*old(p), chat, old(run).key, i);
    let t = tabs_in(*old(p), chat)[i]@;
    one_tab_changed(*old(p), *final(p), chat, i, TabView { last_seq: seq, ..t });
}

/// The end of a process ends the stream and the tab, which keeps its exit code;
/// its screen shows the code.
pub proof fn an_exit_ends_the_tab(
    p: &mut TerminalPanel,
    run: &mut SessionRun,
    seq: u64,
    code: i32,
    i: int,
    r: (StreamDisposition, Option<ScreenFeed>),
)
    requires
        call_ensures(
            TerminalPanel::apply_stream_event,
            (p, run, TerminalEvent::Exit { seq, exit_code: code }),
            r,
        ),
        is_tab(*old(p), old(run).chat@, old(run).key, i),
    ensures
        r.0 is Stop,
        r.1 matches Some(f) && f.chat@ == old(run).chat@ && f.key == old(run).key && (exists|
            a: Seq<char>,
            b: Seq<char>,
        |
            f.bytes@ == #[trigger] vstd::utf8::encode_utf8(
                a + crate::text::decimal_signed(code as int) + b,
            )),
        same_but(*old(p), *final(p), old(run).chat@, i),
        tabs_in(*final(p), old(run).chat@)[i].exited == Some(code),
        tabs_in(*final(p), old(run).chat@)[i].last_seq == seq,
{
    let chat = old(run).chat@;
    the_tab_is_found(*old(p), chat, old(run).key, i);
    let t = tabs_in(*old(p), chat)[i]@;
    one_tab_changed(
        *old(p),
        *final(p),
        chat,
        i,
        TabView { last_seq: seq, exited: Some(code), ..t },
    );
}

/// A frame for a tab that is gone ends the stream and changes nothing.
pub proof fn a_frame_without_a_tab_is_dropped(
    p: &mut TerminalPanel,
    run: &mut SessionRun,
    event: TerminalEvent,
    r: (StreamDisposition, Option<ScreenFeed>),
)
    requires
        call_ensures(TerminalPanel::apply_stream_event, (p, run, event), r),
        no_tab(*old(p), old(run).chat@, old(run).key),
    ensures
        r.0 is Stop && r.1 is None,
        forall|chat: Seq<char>| #[trigger] same_tabs(*old(p), *final(p), chat),
{
    no_tab_is_found(*old(p), old(run).chat@, old(run).key);
    nothing_changed(*old(p), *final(p));
}

/// After a frame, a reconnect asks for what is behind that very frame: none is
/// lost and none comes twice.
pub proof fn a_reconnect_asks_behind_the_last_frame(
    p: &mut TerminalPanel,
    run: &mut SessionRun,
    seq: u64,
    data: String,
    i: int,
    r: (StreamDisposition, Option<ScreenFeed>),
    later: &TerminalPanel,
    again: &SessionRun,
    id: &str,
    next: SessionNext,
)
    requires
        call_ensures(
            TerminalPanel::apply_stream_event,
            (p, run, TerminalEvent::Data { seq, data }),
            r,
        ),
        is_tab(*old(p), old(run).chat@, old(run).key, i),
        *later == *final(p),
        *again == *final(run),
        call_ensures(TerminalPanel::resubscribe, (later, again, id), next),
    ensures
        next matches SessionNext::Subscribe(q) && about_shell(
            q@,
            Method::SubscribeTerminal,
            id@,
            opt(old(run).target),
        ) && says_int(q@, "afterSeq"@, seq as int),
{
    names_differ();
    let chat = old(run).chat@;
    the_tab_is_found(*old(p), chat, old(run).key, i);
    let t = tabs_in(*old(p), chat)[i]@;
    one_tab_changed(*old(p), *final(p), chat, i, TabView { last_seq: seq, ..t });
    assert forall|j: int| 0 <= j < i implies (#[trigger] tabs_in(*later, chat)[j]).key != old(run).key by {
        assert(tabs_in(*later, chat)[j]@ == tabs_in(*old(p), chat)[j]@);
        assert(tabs_in(*old(p), chat)[j].key != old(run).key);
    }
    assert(tabs_in(*later, chat)[i].key == old(run).key) by {
        assert(tabs_in(*later, chat)[i]@.key == t.key);
    }
    the_tab_is_found(*later, chat, old(run).key, i);
}

/// A stream that ends without an exit is taken up again after a wait that
/// doubles with each failure from half a second up to eight; one of a tab that is
/// over or gone is not.
pub proof fn a_lost_stream_is_taken_up_again(
    p: &TerminalPanel,
    run: &mut SessionRun,
    i: int,
    r: SessionNext,
)
    requires
        call_ensures(TerminalPanel::on_stream_end, (p, run), r),
    ensures
        no_tab(*p, old(run).chat@, old(run).key) ==> r is Stop,
        is_tab(*p, old(run).chat@, old(run).key, i) && tabs_in(*p, old(run).chat@)[i].exited is Some
            ==> r is Stop,
        is_tab(*p, old(run).chat@, old(run).key, i) && tabs_in(*p, old(run).chat@)[i].exited is None
            ==> {
            &&& r is Wait
            &&& old(run).attempt == 0 ==> r->Wait_0 == 500
            &&& old(run).attempt == 1 ==> r->Wait_0 == 1_000
            &&& old(run).attempt == 2 ==> r->Wait_0 == 2_000
            &&& old(run).attempt == 3 ==> r->Wait_0 == 4_000
            &&& old(run).attempt > 3 ==> r->Wait_0 == 8_000
            &&& old(run).attempt < u32::MAX ==> final(run).attempt == old(run).attempt + 1
        },
{
    let key = old(run).key;
    let chat = old(run).chat@;
    if is_tab(*p, chat, key, i) {
        the_tab_is_found(*p, chat, key, i);
    }
    if no_tab(*p, chat, key) {
        no_tab_is_found(*p, chat, key);
    }
}

/// A failure to subscribe is waited out in the same way.
pub proof fn a_failed_subscription_is_tried_again(run: &mut SessionRun, r: SessionNext)
    requires
        call_ensures(on_subscribe_failed, (run,), r),
    ensures
        r is Wait,
        old(run).attempt == 0 ==> r->Wait_0 == 500,
        old(run).attempt == 1 ==> r->Wait_0 == 1_000,
        old(run).attempt == 2 ==> r->Wait_0 == 2_000,
        old(run).attempt == 3 ==> r->Wait_0 == 4_000,
        old(run).attempt > 3 ==> r->Wait_0 == 8_000,
        old(run).attempt < u32::MAX ==> final(run).attempt == old(run).attempt + 1,
        final(run).chat == old(run).chat && final(run).key == old(run).key && final(run).target
            == old(run).target,
{
}

/// What is pending on a tab is written to the tab's shell, on the device of the
/// chat, as text that decodes to it; then nothing is pending.
pub proof fn pending_input_is_written(
    p: &mut TerminalPanel,
    state: &AppState,
    chat: &str,
    key: u64,
    i: int,
    r: Flushed,
)
    requires
        call_ensures(TerminalPanel::flush_input, (p, state, chat, key), r),
        is_tab(*old(p), chat@, key, i),
        state.engine is Some,
        tabs_in(*old(p), chat@)[i].coalescer@.len() > 0,
    ensures
        ({
            let t = tabs_in(*old(p), chat@)[i];
            let now = tabs_in(*final(p), chat@)[i];
            &&& t.terminal_id is None && t.exited is None ==> r is Again && now.coalescer@
                == t.coalescer@
            &&& t.terminal_id is None && t.exited is Some ==> r is Nothing
            &&& t.terminal_id matches Some(id) ==> {
                &&& r is Write
                &&& exists|target: Option<Seq<char>>| #[trigger]
                    is_target(*state, chat@, target) && about_shell(
                        r->Write_0@,
                        Method::WriteTerminal,
                        id@,
                        target,
                    )
                &&& exists|text: Seq<char>| #[trigger]
                    says_text(r->Write_0@, "data"@, text) && frame_bytes(text) == t.coalescer@
                &&& now.coalescer@.len() == 0
                &&& now@ == (TabView { pending: Seq::empty(), ..t@ })
                &&& same_but(*old(p), *final(p), chat@, i)
            }
        }),
{
    names_differ();
    the_tab_is_found(*old(p), chat@, key, i);
    the_target_is_the_host(*state, chat@);
    let t = tabs_in(*old(p), chat@)[i]@;
    if t.terminal_id is Some {
        let target = crate::terminal::panel::target_of(
            state.chats@,
            opt(state.local_device_id),
            chat@,
        );
        assert(is_target(*state, chat@, target));
        assert(about_shell(r->Write_0@, Method::WriteTerminal, t.terminal_id->0, target));
        assert(says_text(r->Write_0@, "data"@, base64_text(t.pending)));
        one_tab_changed(*old(p), *final(p), chat@, i, TabView { pending: Seq::empty(), ..t });
    } else {
        nothing_changed(*old(p), *final(p));
        assert(same_tabs(*old(p), *final(p), chat@));
        assert(tabs_in(*old(p), chat@)[i]@ == tabs_in(*final(p), chat@)[i]@);
    }
}

/// What the screen answers goes to the shell of the tab that asked.
pub proof fn an_answer_goes_to_the_shell_that_asked(
    p: &TerminalPanel,
    state: &AppState,
    chat: &str,
    key: u64,
    responses: &Vec<u8>,
    i: int,
    r: Option<Request>,
)
    requires
        call_ensures(TerminalPanel::answer_request, (p, state, chat, key, responses), r),
        is_tab(*p, chat@, key, i),
    ensures
        r is Some <==> responses@.len() > 0 && tabs_in(*p, chat@)[i].terminal_id is Some,
        r is Some ==> (exists|target: Option<Seq<char>>| #[trigger]
            is_target(*state, chat@, target) && about_shell(
                r->0@,
                Method::WriteTerminal,
                tabs_in(*p, chat@)[i].terminal_id->0@,
                target,
            )),
        r is Some ==> says_text(r->0@, "data"@, base64_text(responses@)),
{
    names_differ();
    the_tab_is_found(*p, chat@, key, i);
    the_target_is_the_host(*state, chat@);
    if r is Some {
        let target = crate::terminal::panel::target_of(
            state.chats@,
            opt(state.local_device_id),
            chat@,
        );
        assert(is_target(*state, chat@, target));
        assert(about_shell(
            r->0@,
            Method::WriteTerminal,
            tabs_in(*p, chat@)[i].terminal_id->0@,
            target,
        ));
    }
}

/// The size that is announced is the one that the tab has by then, to the shell
/// that it has by then.
pub proof fn the_size_of_the_tab_is_announced(
    p: &TerminalPanel,
    g: &GridResize,
    i: int,
    r: Option<Request>,
)
    requires
        call_ensures(TerminalPanel::resize_request, (p, g), r),
    ensures
        no_tab(*p, g.chat@, g.key) ==> r is None,
        is_tab(*p, g.chat@, g.key, i) ==> {
            let t = tabs_in(*p, g.chat@)[i];
            &&& r is Some <==> t.terminal_id is Some || g.terminal_id is Some
            &&& t.terminal_id matches Some(id) ==> r is Some && about_shell(
                r->0@,
                Method::ResizeTerminal,
                id@,
                opt(g.target),
            )
            &&& t.terminal_id is None ==> (g.terminal_id matches Some(id) ==> r is Some
                && about_shell(r->0@, Method::ResizeTerminal, id@, opt(g.target)))
            &&& r matches Some(q) ==> says_int(q@, "cols"@, t.cols as int) && says_int(
                q@,
                "rows"@,
                t.rows as int,
            )
        },
{
    names_differ();
    if is_tab(*p, g.chat@, g.key, i) {
        the_tab_is_found(*p, g.chat@, g.key, i);
    }
    if no_tab(*p, g.chat@, g.key) {
        no_tab_is_found(*p, g.chat@, g.key);
    }
}

/// A new size is the active tab's from then on, and is announced to that tab's
/// shell and its host; the size that it has is no news.
pub proof fn a_new_size_is_taken(
    p: &mut TerminalPanel,
    state: &AppState,
    cols: u16,
    rows: u16,
    i: int,
    r: Option<GridResize>,
)
    requires
        call_ensures(TerminalPanel::on_grid_metrics, (p, state, cols, rows), r),
        state.selected_chat is Some,
        is_active(*old(p), state.selected_chat->0@, i),
    ensures
        ({
            let chat = state.selected_chat->0@;
            let t = tabs_in(*old(p), chat)[i];
            &&& r is None <==> t.cols == cols && t.rows == rows
            &&& r matches Some(g) ==> {
                &&& g.chat@ == chat && g.key == t.key && opt(g.terminal_id) == opt(t.terminal_id)
                &&& g.announce == (state.engine is Some)
                &&& is_target(*state, chat, opt(g.target))
                &&& same_but(*old(p), *final(p), chat, i)
                &&& tabs_in(*final(p), chat)[i]@ == (TabView { cols, rows, ..t@ })
            }
        }),
{
    let chat = state.selected_chat->0@;
    views_tell_the_tabs(*old(p), chat);
    the_target_is_the_host(*state, chat);
    let t = tabs_in(*old(p), chat)[i]@;
    if r is Some {
        one_tab_changed(*old(p), *final(p), chat, i, TabView { cols, rows, ..t });
    }
}

/// Closing a shell's tab closes that shell, on the device of the chat, and takes
/// that tab out of the bar, and no other. The agent's tab cannot be closed.
pub proof fn closing_a_tab_closes_its_shell(
    p: &mut TerminalPanel,
    state: &AppState,
    chat: &str,
    key: u64,
    i: int,
    r: Option<ClosedTab>,
)
    requires
        call_ensures(TerminalPanel::close_tab, (p, state, chat, key), r),
        is_tab(*old(p), chat@, key, i),
    ensures
        tabs_in(*old(p), chat@)[i].kind is Agent ==> r is None && (forall|c: Seq<char>| #[trigger]
            same_tabs(*old(p), *final(p), c)),
        tabs_in(*old(p), chat@)[i].kind is Pty ==> {
            let had = tabs_in(*old(p), chat@);
            let now = tabs_in(*final(p), chat@);
            &&& r is Some
            &&& final(p).chats@.contains_key(chat@)
            &&& now.len() == had.len() - 1
            &&& forall|j: int| 0 <= j < i ==> (#[trigger] now[j])@ == had[j]@
            &&& forall|j: int| i <= j < now.len() ==> (#[trigger] now[j])@ == had[j + 1]@
            &&& forall|c: Seq<char>| c != chat@ ==> #[trigger] same_tabs(*old(p), *final(p), c)
            &&& r->0.request is Some <==> state.engine is Some && had[i].terminal_id is Some
            &&& r->0.request matches Some(q) ==> (exists|target: Option<Seq<char>>| #[trigger]
                is_target(*state, chat@, target) && about_shell(
                    q@,
                    Method::CloseTerminal,
                    had[i].terminal_id->0@,
                    target,
                ))
            &&& r->0.toggle_drawer <==> old(p).open && (forall|j: int|
                0 <= j < now.len() ==> (#[trigger] now[j]).kind is Agent)
        },
{
    names_differ();
    the_tab_is_found(*old(p), chat@, key, i);
    the_target_is_the_host(*state, chat@);
    if tabs_in(*old(p), chat@)[i].kind is Agent {
        nothing_changed(*old(p), *final(p));
    } else {
        views_tell_the_tabs(*old(p), chat@);
        views_tell_the_tabs(*final(p), chat@);
        let had = tabs_in(*old(p), chat@);
        let now = tabs_in(*final(p), chat@);
        let left = final(p)@.chats[chat@].tabs;
        assert(left == old(p)@.chats[chat@].tabs.remove(i));
        assert forall|c: Seq<char>| c != chat@ implies #[trigger] same_tabs(
            *old(p),
            *final(p),
            c,
        ) by {
            views_tell_the_tabs(*old(p), c);
            views_tell_the_tabs(*final(p), c);
        }
        assert forall|j: int| 0 <= j < i implies (#[trigger] now[j])@ == had[j]@ by {
            assert(left[j] == old(p)@.chats[chat@].tabs[j]);
        }
        assert forall|j: int| i <= j < now.len() implies (#[trigger] now[j])@ == had[j + 1]@ by {
            assert(left[j] == old(p)@.chats[chat@].tabs[j + 1]);
        }
        let target = crate::terminal::panel::target_of(
            state.chats@,
            opt(state.local_device_id),
            chat@,
        );
        assert(is_target(*state, chat@, target));
        if r->0.request is Some {
            assert(about_shell(
                r->0.request->0@,
                Method::CloseTerminal,
                had[i].terminal_id->0@,
                target,
            ));
        }
        assert forall|j: int| 0 <= j < now.len() implies (#[trigger] now[j]).kind == left[j].kind by {
            assert(left[j] == now[j]@);
        }
        if crate::terminal::panel::has_pty(left) {
            let j = choose|j: int|
                0 <= j < left.len() && (#[trigger] left[j]).kind == TabKind::Pty;
            assert(now[j].kind == left[j].kind);
        }
    }
}

/// What is typed goes behind what is pending on the active tab of the selected
/// chat, and on no other; a tab whose process is over takes nothing.
pub proof fn input_goes_to_the_active_tab(
    p: &mut TerminalPanel,
    state: &AppState,
    bytes: &[u8],
    back: bool,
    i: int,
    r: Option<Queued>,
)
    requires
        call_ensures(TerminalPanel::queue_input, (p, state, bytes, back), r),
        state.selected_chat is Some,
        is_active(*old(p), state.selected_chat->0@, i),
    ensures
        ({
            let chat = state.selected_chat->0@;
            let t = tabs_in(*old(p), chat)[i];
            &&& r is Some <==> t.exited is None
            &&& t.exited is Some ==> (forall|c: Seq<char>| #[trigger]
                same_tabs(*old(p), *final(p), c))
            &&& t.exited is None ==> {
                &&& r->0.chat@ == chat && r->0.key == t.key && r->0.snap == back
                &&& r->0.flush <==> t.coalescer@.len() == 0 && bytes@.len() > 0
                &&& same_but(*old(p), *final(p), chat, i)
                &&& tabs_in(*final(p), chat)[i]@ == (TabView {
                    pending: t.coalescer@ + bytes@,
                    ..t@
                })
            }
        }),
{
    let chat = state.selected_chat->0@;
    views_tell_the_tabs(*old(p), chat);
    let t = tabs_in(*old(p), chat)[i]@;
    if t.exited is None {
        one_tab_changed(
            *old(p),
            *final(p),
            chat,
            i,
            TabView { pending: t.pending + bytes@, ..t },
        );
    } else {
        nothing_changed(*old(p), *final(p));
    }
}

/// A key press is the shell's when it has bytes and asks for no paste: then just
/// those bytes are queued on the active tab.
pub proof fn keys_go_to_the_active_tab(
    p: &mut TerminalPanel,
    state: &AppState,
    k: &Keystroke,
    app: bool,
    back: bool,
    i: int,
    r: KeyOutcome,
    text: Option<&str>,
    bytes: Option<Vec<u8>>,
    key: &str,
)
    requires
        call_ensures(TerminalPanel::on_key_down, (p, state, k, app, back), r),
        state.selected_chat is Some,
        is_active(*old(p), state.selected_chat->0@, i),
        tabs_in(*old(p), state.selected_chat->0@)[i].exited is None,
        key@ == k.key@,
        match text {
            Some(s) => opt(k.key_char) == Some(s@),
            None => k.key_char is None,
        },
        call_ensures(
            crate::terminal::view::keystroke_bytes,
            (key, text, &k.modifiers, app),
            bytes,
        ),
    ensures
        ({
            let chat = state.selected_chat->0@;
            let t = tabs_in(*old(p), chat)[i];
            let pastes = k.key@ == "v"@ && (k.modifiers.platform || (k.modifiers.control
                && k.modifiers.shift));
            &&& r is Paste <==> pastes
            &&& r is Pass <==> !pastes && bytes is None
            &&& !(r is Consumed) ==> (forall|c: Seq<char>| #[trigger]
                same_tabs(*old(p), *final(p), c))
            &&& r is Consumed ==> {
                &&& r->Consumed_0 is Some
                &&& r->Consumed_0->0.key == t.key && r->Consumed_0->0.chat@ == chat
                &&& same_but(*old(p), *final(p), chat, i)
                &&& tabs_in(*final(p), chat)[i]@ == (TabView {
                    pending: t.coalescer@ + bytes->0@,
                    ..t@
                })
            }
        }),
{
    let chat = state.selected_chat->0@;
    views_tell_the_tabs(*old(p), chat);
    let t = tabs_in(*old(p), chat)[i]@;
    if r is Consumed {
        one_tab_changed(
            *old(p),
            *final(p),
            chat,
            i,
            TabView { pending: t.pending + bytes->0@, ..t },
        );
    } else {
        nothing_changed(*old(p), *final(p));
    }
}

/// What is typed while a shell is being opened is not lost: the first write
/// carries all of it, in order.
pub proof fn what_is_typed_is_written(
    a: &mut TerminalPanel,
    b: &mut TerminalPanel,
    state: &AppState,
    chat: &str,
    bytes: &[u8],
    back: bool,
    i: int,
    q: Option<Queued>,
    r: Flushed,
)
    requires
        state.selected_chat is Some,
        state.selected_chat->0@ == chat@,
        state.engine is Some,
        is_active(*old(a), chat@, i),
        is_tab(*old(a), chat@, tabs_in(*old(a), chat@)[i].key, i),
        tabs_in(*old(a), chat@)[i].exited is None,
        tabs_in(*old(a), chat@)[i].terminal_id is Some,
        bytes@.len() > 0,
        call_ensures(TerminalPanel::queue_input, (a, state, bytes, back), q),
        *old(b) == *final(a),
        call_ensures(
            TerminalPanel::flush_input,
            (b, state, chat, tabs_in(*old(a), chat@)[i].key),
            r,
        ),
    ensures
        r is Write,
        says_text(r->Write_0@, "terminalId"@, tabs_in(*old(a), chat@)[i].terminal_id->0@),
        exists|text: Seq<char>| #[trigger]
            says_text(r->Write_0@, "data"@, text) && frame_bytes(text) == tabs_in(
                *old(a),
                chat@,
            )[i].coalescer@ + bytes@,
{
    let key = tabs_in(*old(a), chat@)[i].key;
    input_goes_to_the_active_tab(a, state, bytes, back, i, q);
    assert forall|j: int| 0 <= j < i implies (#[trigger] tabs_in(*old(b), chat@)[j]).key != key by {
        assert(tabs_in(*old(b), chat@)[j]@ == tabs_in(*old(a), chat@)[j]@);
        assert(tabs_in(*old(a), chat@)[j].key != key);
    }
    assert(tabs_in(*old(b), chat@)[i].key == key) by {
        assert(tabs_in(*old(b), chat@)[i]@.key == key);
    }
    assert(tabs_in(*old(b), chat@)[i].coalescer@ == tabs_in(*old(b), chat@)[i]@.pending);
    pending_input_is_written(b, state, chat, key, i, r);
}

}
