//! What a collaboration's composer and controls are for.
use vstd::prelude::*;

use crate::collaboration::{
    control_label, mode_buttons, status_label, ChildControl, ChildRow, CollaborationAction,
    CollaborationPanel, ComposeMode, ControlRequest, ModeButton, RoomFrame, RoomLine,
};
use crate::proto::{
    ChildAgent, ChildAgentStatus, CollaborationMessage, CollaborationSession, MessagePart,
    SessionMessageEntry,
};
use crate::seqs::{first_at, first_at_is, first_at_props};
use crate::state::{chat_ix, chat_named, AppState};
use crate::text::trimmed;
use crate::wire::opt;

verus! {

/// Whether the chat at `i` is the one that is selected: the first with its id.
pub open spec fn is_selected(s: &AppState, i: int) -> bool {
    &&& s.selected_chat is Some
    &&& 0 <= i < s.chats@.len()
    &&& s.chats@[i].id@ == s.selected_chat->0@
    &&& forall|j: int| 0 <= j < i ==> (#[trigger] s.chats@[j]).id@ != s.selected_chat->0@
}

proof fn selected_is_ix(s: &AppState, i: int)
    requires
        is_selected(s, i),
    ensures
        chat_ix(s.chats@, s.selected_chat->0@) == i,
{
    let id = s.selected_chat->0@;
    assert forall|j: int| 0 <= j < i implies !chat_named(id)(#[trigger] s.chats@[j]) by {
        assert(s.chats@[j].id@ != id);
    }
    assert(chat_named(id)(s.chats@[i]));
    first_at_is(s.chats@, chat_named(id), i);
}

/// A draft goes where the composer is turned to: to everybody in the room, to the
/// selected child alone, to that child as its next mission, or to a child to be.
/// It goes to the selected chat, on its host, and says what was typed.
pub proof fn a_draft_goes_where_the_composer_is_turned(
    p: &mut CollaborationPanel,
    s: &AppState,
    draft: &str,
    r: Option<ControlRequest>,
    i: int,
)
    requires
        call_ensures(CollaborationPanel::submit, (p, s, draft), r),
        !old(p).busy,
        trimmed(draft@).len() > 0,
        is_selected(s, i),
        s.engine is Some,
    ensures
        r is Some,
        old(p).mode is Room ==> r->0.action is Room,
        old(p).mode is Child ==> r->0.action is Steer,
        old(p).mode is Resume ==> r->0.action is Resume,
        old(p).mode is Spawn ==> r->0.action is Spawn,
        r->0.chat_id@ == s.chats@[i].id@,
        r->0.target_device@ == s.chats@[i].device_id@,
        opt(r->0.message) == Some(trimmed(draft@)),
        opt(r->0.child_id) == opt(old(p).selected_child),
        old(p).mode is Spawn ==> r->0.agent == Some(old(p).agent),
        !(old(p).mode is Spawn) ==> r->0.agent is None,
        final(p).busy,
        final(p).notice is None,
        final(p).mode == old(p).mode,
        final(p).agent == old(p).agent,
        opt(final(p).selected_child) == opt(old(p).selected_child),
{
    selected_is_ix(s, i);
    let v = r->0@;
    assert(final(p)@.busy && final(p)@.notice is None);
}

/// Two drafts from composers that are turned differently ask for different
/// actions.
pub proof fn different_modes_ask_for_different_actions(
    p: &mut CollaborationPanel,
    q: &mut CollaborationPanel,
    s: &AppState,
    a: &str,
    b: &str,
    r: Option<ControlRequest>,
    t: Option<ControlRequest>,
)
    requires
        call_ensures(CollaborationPanel::submit, (p, s, a), r),
        call_ensures(CollaborationPanel::submit, (q, s, b), t),
        r is Some,
        t is Some,
        old(p).mode != old(q).mode,
    ensures
        r->0.action != t->0.action,
{
    let v = r->0@;
    let w = t->0@;
}

/// Nothing is sent while a request is under way, without words, or without a
/// chat; without an engine the panel says so.
pub proof fn nothing_is_sent_in_vain(
    p: &mut CollaborationPanel,
    s: &AppState,
    draft: &str,
    r: Option<ControlRequest>,
)
    requires
        call_ensures(CollaborationPanel::submit, (p, s, draft), r),
    ensures
        old(p).busy ==> r is None,
        trimmed(draft@).len() == 0 ==> r is None,
        s.selected_chat is None ==> r is None,
        s.engine is None ==> r is None,
        r is None ==> final(p).busy == old(p).busy && final(p).mode == old(p).mode,
{
    assert(final(p)@.mode == final(p).mode && final(p)@.busy == final(p).busy);
}

/// A control is sent as it is asked for, to the selected child of the selected
/// chat, on its host, without words.
pub proof fn a_control_is_sent_as_asked(
    p: &mut CollaborationPanel,
    s: &AppState,
    action: CollaborationAction,
    r: Option<ControlRequest>,
    i: int,
)
    requires
        call_ensures(CollaborationPanel::control_child, (p, s, action), r),
        is_selected(s, i),
        s.engine is Some,
    ensures
        old(p).selected_child is None ==> r is None,
        old(p).selected_child is Some ==> r is Some && r->0.action == action && opt(r->0.child_id)
            == opt(old(p).selected_child) && r->0.chat_id@ == s.chats@[i].id@
            && r->0.target_device@ == s.chats@[i].device_id@ && r->0.message is None
            && r->0.agent is None && final(p).busy,
{
    selected_is_ix(s, i);
    if r is Some {
        let v = r->0@;
        assert(final(p)@.busy == final(p).busy);
    }
}

/// A reply ends the request and is shown, as good or as bad; only a good one
/// empties the composer, and a spawned child turns it to the room.
pub proof fn a_reply_ends_the_request(
    p: &mut CollaborationPanel,
    reply: Result<String, String>,
    clear: bool,
)
    requires
        call_ensures(CollaborationPanel::on_reply, (p, reply), clear),
    ensures
        !final(p).busy,
        clear <==> reply is Ok,
        old(p).mode is Spawn && reply is Ok ==> final(p).mode is Room,
        !(old(p).mode is Spawn && reply is Ok) ==> final(p).mode == old(p).mode,
        reply matches Err(e) ==> (final(p).notice matches Some((ok, text)) && !ok && text@ == e@),
        reply matches Ok(m) ==> (!(old(p).mode is Spawn) ==> (final(p).notice matches Some(
            (ok, text),
        ) && ok && text@ == m@)),
{
    assert(final(p)@.busy == final(p).busy && final(p)@.mode == final(p).mode);
    assert(final(p)@.notice == crate::collaboration::notice_view(final(p).notice));
}

/// Turning the composer turns it, forgets the last notice, and hints at what it is
/// turned to: different modes have different hints.
pub proof fn turning_the_composer_hints_at_the_mode(
    p: &mut CollaborationPanel,
    mode: ComposeMode,
    hint: &'static str,
    other: ComposeMode,
    q: &mut CollaborationPanel,
    hint2: &'static str,
)
    requires
        call_ensures(CollaborationPanel::select_mode, (p, mode), hint),
        call_ensures(CollaborationPanel::select_mode, (q, other), hint2),
    ensures
        final(p).mode == mode,
        final(p).notice is None,
        mode != other ==> hint@ != hint2@,
        opt(final(p).selected_child) == opt(old(p).selected_child),
{
    assert(final(p)@.mode == final(p).mode);
    reveal_strlit("Message parent and child");
    reveal_strlit("Steer this child");
    reveal_strlit("Give this child its next mission");
    reveal_strlit("Describe the child mission");
    assert("Message parent and child"@.len() == 24 && "Steer this child"@.len() == 16);
    assert("Give this child its next mission"@.len() == 32);
    assert("Describe the child mission"@.len() == 26);
}

/// Choosing a child chooses it; a composer that was about a mission turns to the
/// room, any other stays turned.
pub proof fn choosing_a_child_chooses_it(p: &mut CollaborationPanel, id: String)
    requires
        call_ensures(CollaborationPanel::select_child, (p, id), ()),
    ensures
        opt(final(p).selected_child) == Some(id@),
        old(p).mode is Spawn || old(p).mode is Resume ==> final(p).mode is Room,
        old(p).mode is Room || old(p).mode is Child ==> final(p).mode == old(p).mode,
{
    assert(final(p)@.mode == final(p).mode);
    assert(final(p)@.selected_child == opt(final(p).selected_child));
}

/// The row of a child is that child's: a working child runs, one that needs
/// somebody warns, a failed one alarms; what it does is shown before what for, and
/// both before how it stands.
pub proof fn a_row_shows_its_child(c: &ChildAgent, selected: &Option<String>, r: ChildRow)
    requires
        call_ensures(crate::collaboration::child_row, (c, selected), r),
    ensures
        r.id@ == c.id@,
        r.agent@ == c.agent@,
        r.selected <==> opt(*selected) == Some(c.id@),
        r.running <==> c.status is Starting || c.status is Working,
        c.status is Starting || c.status is Working ==> r.tone is Accent,
        c.status is NeedsAttention ==> r.tone is Warning,
        c.status is Failed ==> r.tone is Danger,
        c.status is Completed || c.status is Stopped ==> r.tone is Faint,
        c.activity matches Some(a) ==> r.detail@ == a@,
        c.activity is None ==> (c.goal matches Some(g) ==> r.detail@ == g@),
{
    let v = r@;
    assert(v.id == r.id@ && v.tone == r.tone && v.running == r.running);
}

/// What the parent said last is what the last message of the assistant says: a
/// message behind it that is not the assistant's changes nothing.
pub proof fn only_the_assistant_speaks_for_the_parent(
    before: Vec<SessionMessageEntry>,
    after: Vec<SessionMessageEntry>,
    entry: SessionMessageEntry,
    a: Option<String>,
    b: Option<String>,
)
    requires
        after@ == before@.push(entry),
        !(entry.role is Assistant),
        call_ensures(crate::collaboration::parent_reply, (&before,), a),
        call_ensures(crate::collaboration::parent_reply, (&after,), b),
    ensures
        opt(a) == opt(b),
{
    assert(after@.drop_last() =~= before@);
    assistant_bounds(before@);
    assert(after@.last() == entry);
    let i = crate::collaboration::last_assistant(before@);
    if i >= 0 {
        assert(after@[i] == before@[i]);
    }
}

proof fn assistant_bounds(entries: Seq<SessionMessageEntry>)
    ensures
        -1 <= crate::collaboration::last_assistant(entries) < entries.len(),
    decreases entries.len(),
{
    if entries.len() > 0 {
        assistant_bounds(entries.drop_last());
    }
}

/// A message of the assistant with one text speaks for the parent in those words,
/// unless they are blank.
pub proof fn the_assistant_s_last_words_are_shown(
    entries: Vec<SessionMessageEntry>,
    text: Seq<char>,
    r: Option<String>,
)
    requires
        entries@.len() > 0,
        entries@.last().role is Assistant,
        entries@.last().parts@.len() == 1,
        entries@.last().parts@[0] is Text,
        entries@.last().parts@[0]->Text_text@ == text,
        call_ensures(crate::collaboration::parent_reply, (&entries,), r),
    ensures
        trimmed(text).len() > 0 ==> opt(r) == Some(text),
        trimmed(text).len() == 0 ==> r is None,
{
    let parts = entries@.last().parts@;
    assert(parts.drop_last() =~= Seq::<MessagePart>::empty());
    assert(crate::collaboration::part_texts(parts.drop_last()) =~= Seq::<Seq<char>>::empty());
    assert(crate::collaboration::part_texts(parts) =~= seq![text]);
}

/// The frame of the room: a child at work, or one that needs somebody, can be
/// stopped, and one that has ended can be resumed; nothing can be sent while
/// something is; agents are chosen exactly while a child is spawned.
pub proof fn the_room_offers_what_can_be_done(
    p: &mut CollaborationPanel,
    s: &AppState,
    f: RoomFrame,
    k: int,
)
    requires
        call_ensures(CollaborationPanel::frame, (p, s), f),
        0 <= k < f.children@.len(),
        f.children@[k].selected,
        forall|j: int| 0 <= j < k ==> !(#[trigger] f.children@[j]).selected,
    ensures
        f.can_send <==> !old(p).busy,
        f.choosing_agent <==> old(p).mode is Spawn,
        ({
            let status = f.children@[k].status;
            let ends = status is Completed || status is Failed || status is Stopped;
            f.control == Some(
                if ends {
                    ChildControl::Resume
                } else {
                    ChildControl::Stop
                },
            )
        }),
{
    let children = crate::collaboration::children_of(s);
    let views = crate::collaboration::child_views(f.children@);
    assert forall|j: int| 0 <= j < f.children@.len() implies views[j] == (
    #[trigger] f.children@[j])@ by {}
    let selected = final(p)@.selected_child;
    assert(views.len() == f.children@.len());
    assert(children.len() == views.len());
    assert forall|j: int| 0 <= j < children.len() implies views[j]
        == crate::collaboration::child_view(#[trigger] children[j], selected) by {}
    assert(views[k].selected);
    let named = crate::collaboration::child_named(selected->0);
    assert forall|j: int| 0 <= j < k implies !named(#[trigger] children[j]) by {
        assert(!f.children@[j].selected);
        assert(!views[j].selected);
    }
    assert(named(children[k]));
    first_at_is(children, named, k);
}

/// Whether somebody should look at a child.
pub open spec fn calls_for_a_look(c: ChildAgent) -> bool {
    c.status is Working || c.status is NeedsAttention
}

/// A selected child stays selected while it is there. When it is not, the first
/// child that works or needs somebody is, or else the last, or else none.
pub proof fn a_child_stays_selected(
    p: &mut CollaborationPanel,
    s: &AppState,
    room: Option<&CollaborationSession>,
)
    requires
        call_ensures(CollaborationPanel::on_state_changed, (p, s), ()),
        call_ensures(AppState::selected_collaboration, (s,), room),
        room is Some,
    ensures
        ({
            let children = room->0.children@;
            let stays = old(p).selected_child is Some && exists|i: int|
                0 <= i < children.len() && (#[trigger] children[i]).id@
                    == old(p).selected_child->0@;
            &&& stays ==> opt(final(p).selected_child) == opt(old(p).selected_child)
            &&& children.len() == 0 ==> final(p).selected_child is None
            &&& !stays ==> forall|k: int|
                0 <= k < children.len() && calls_for_a_look(#[trigger] children[k]) && (forall|
                    j: int,
                |
                    0 <= j < k ==> !calls_for_a_look(#[trigger] children[j])) ==> opt(
                    final(p).selected_child,
                ) == Some(children[k].id@)
            &&& !stays && children.len() > 0 && (forall|j: int|
                0 <= j < children.len() ==> !calls_for_a_look(#[trigger] children[j])) ==> opt(
                final(p).selected_child,
            ) == Some(children.last().id@)
        }),
        final(p).mode == old(p).mode && final(p).busy == old(p).busy,
{
    let children = room->0.children@;
    assert(final(p)@.selected_child == opt(final(p).selected_child));
    assert(final(p)@.mode == final(p).mode && final(p)@.busy == final(p).busy);
    let w = crate::collaboration::wants_attention();
    assert forall|k: int| 0 <= k < children.len() implies w(children[k]) == calls_for_a_look(
        #[trigger] children[k],
    ) by {}
    first_at_props(children, w, 0);
    if let Some(id) = &old(p).selected_child {
        let q = crate::collaboration::child_named(id@);
        if exists|i: int| 0 <= i < children.len() && (#[trigger] children[i]).id@ == id@ {
            let i = choose|i: int| 0 <= i < children.len() && (#[trigger] children[i]).id@ == id@;
            assert(q(children[i]));
            assert(crate::seqs::any(children, q));
        }
        if crate::seqs::any(children, q) {
            let i = choose|i: int| 0 <= i < children.len() && q(#[trigger] children[i]);
            assert(children[i].id@ == id@);
        }
    }
    assert forall|k: int|
        0 <= k < children.len() && calls_for_a_look(#[trigger] children[k]) && (forall|j: int|
            0 <= j < k ==> !calls_for_a_look(#[trigger] children[j])) implies first_at(
        children,
        w,
        0,
    ) == k by {
        assert forall|j: int| 0 <= j < k implies !w(#[trigger] children[j]) by {
            assert(!calls_for_a_look(children[j]));
        }
        assert(w(children[k]));
        first_at_is(children, w, k);
    }
    if forall|j: int| 0 <= j < children.len() ==> !calls_for_a_look(#[trigger] children[j]) {
        assert forall|j: int| 0 <= j < children.len() implies !w(#[trigger] children[j]) by {
            assert(!calls_for_a_look(children[j]));
        }
        first_at_is(children, w, children.len() as int);
    }
}

/// Whether a line shows a message: its words, under the name of who said them.
pub open spec fn line_shows(l: RoomLine, m: CollaborationMessage) -> bool {
    &&& l.body@ == m.body@
    &&& m.speaker is You ==> l.label@ == "you"@ && l.tone is Text
    &&& m.speaker is Parent ==> l.label@ == "parent"@ && l.tone is Accent
    &&& m.speaker is System ==> l.label@ == "room"@ && l.tone is Faint
    &&& m.speaker is Child ==> l.tone is Warning
}

/// The room shows its last twenty messages at most, among them none of a child
/// that is not selected, each as it was said; the newest that can be heard comes
/// last.
pub proof fn the_room_shows_what_can_be_heard(
    p: &mut CollaborationPanel,
    s: &AppState,
    f: RoomFrame,
    room: Option<&CollaborationSession>,
    k: int,
)
    requires
        call_ensures(CollaborationPanel::frame, (p, s), f),
        call_ensures(AppState::selected_collaboration, (s,), room),
        room is Some,
    ensures
        f.lines@.len() <= 20,
        f.parent_working == room->0.parent_working,
        0 <= k < f.lines@.len() ==> exists|i: int|
            0 <= i < room->0.messages@.len() && line_shows(
                f.lines@[k],
                #[trigger] room->0.messages@[i],
            ) && (room->0.messages@[i].child_id is None || opt(room->0.messages@[i].child_id)
                == opt(final(p).selected_child)),
        ({
            let messages = room->0.messages@;
            messages.len() > 0 && (messages.last().child_id is None || opt(
                messages.last().child_id,
            ) == opt(final(p).selected_child)) ==> f.lines@.len() > 0 && line_shows(
                f.lines@.last(),
                messages.last(),
            )
        }),
{
    let messages = room->0.messages@;
    let selected = final(p)@.selected_child;
    assert(selected == opt(final(p).selected_child));
    let h = crate::collaboration::heard(selected);
    let all = crate::seqs::kept(messages, h);
    let shown = crate::collaboration::room_of(messages, selected);
    let views = crate::collaboration::line_views(f.lines@);
    assert(views.len() == f.lines@.len());
    assert(views.len() == shown.len());
    crate::seqs::kept_members(messages, h);
    let skip = all.len() - shown.len();
    assert forall|j: int| 0 <= j < shown.len() implies shown[j] == all[skip + j] by {}
    if 0 <= k < f.lines@.len() {
        assert(views[k] == f.lines@[k]@);
        assert(all.contains(all[skip + k]));
        assert(messages.contains(all[skip + k]));
        let i = choose|i: int| 0 <= i < messages.len() && messages[i] == all[skip + k];
        assert(h(messages[i]));
        assert(line_shows(f.lines@[k], messages[i]));
    }
    if messages.len() > 0 && h(messages.last()) {
        assert(all.last() == messages.last());
        assert(shown.last() == all.last());
        assert(views.last() == f.lines@.last()@);
    }
}

proof fn working_children(children: Seq<ChildAgent>, n: int)
    requires
        0 <= n <= children.len(),
    ensures
        crate::seqs::kept(children.take(n), crate::collaboration::at_work()).len() == busy_children(
            children,
            n,
        ),
    decreases n,
{
    if n > 0 {
        working_children(children, n - 1);
        crate::seqs::kept_step(children, crate::collaboration::at_work(), n - 1);
    } else {
        assert(children.take(0) =~= Seq::<ChildAgent>::empty());
    }
}

/// The number of children at work among the first `n`.
pub open spec fn busy_children(children: Seq<ChildAgent>, n: int) -> int
    decreases n,
{
    if n <= 0 {
        0
    } else {
        busy_children(children, n - 1) + (if children[n - 1].status is Starting || children[n
            - 1].status is Working {
            1int
        } else {
            0int
        })
    }
}

/// The room counts the children that start or work, and lists all of them.
pub proof fn the_room_counts_its_children(
    p: &mut CollaborationPanel,
    s: &AppState,
    f: RoomFrame,
    room: Option<&CollaborationSession>,
    k: int,
    id: &Option<String>,
    row: ChildRow,
)
    requires
        call_ensures(CollaborationPanel::frame, (p, s), f),
        call_ensures(AppState::selected_collaboration, (s,), room),
        room is Some,
        opt(*id) == opt(final(p).selected_child),
        0 <= k < room->0.children@.len(),
        call_ensures(crate::collaboration::child_row, (&room->0.children@[k], id), row),
    ensures
        f.active == busy_children(room->0.children@, room->0.children@.len() as int),
        f.children@.len() == room->0.children@.len(),
        f.children@[k]@ == row@,
{
    let children = room->0.children@;
    working_children(children, children.len() as int);
    assert(children.take(children.len() as int) =~= children);
    let views = crate::collaboration::child_views(f.children@);
    assert(views.len() == f.children@.len());
    assert(final(p)@.selected_child == opt(final(p).selected_child));
    assert(views[k] == f.children@[k]@);
}

/// What a control came to is said, as good or as bad.
pub proof fn a_control_is_answered(p: &mut CollaborationPanel, error: Option<String>)
    requires
        call_ensures(CollaborationPanel::on_control_reply, (p, error), ()),
    ensures
        !final(p).busy,
        final(p).notice is Some,
        error is None ==> (final(p).notice matches Some((ok, text)) && ok),
        error matches Some(e) ==> (final(p).notice matches Some((ok, text)) && !ok && text@ == e@),
        final(p).mode == old(p).mode,
{
    assert(final(p)@.busy == final(p).busy && final(p)@.mode == final(p).mode);
    assert(final(p)@.notice == crate::collaboration::notice_view(final(p).notice));
}

/// Each status of a child has a label of its own.
pub proof fn statuses_have_their_own_labels(
    a: ChildAgentStatus,
    b: ChildAgentStatus,
    x: &'static str,
    y: &'static str,
)
    requires
        call_ensures(status_label, (a,), x),
        call_ensures(status_label, (b,), y),
    ensures
        a != b ==> x@ != y@,
        a is NeedsAttention ==> x@ == "needs you"@,
{
    reveal_strlit("starting");
    reveal_strlit("working");
    reveal_strlit("needs you");
    reveal_strlit("complete");
    reveal_strlit("failed");
    reveal_strlit("stopped");
    assert("starting"@.len() == 8 && "starting"@[0] == 's');
    assert("working"@.len() == 7 && "working"@[0] == 'w');
    assert("needs you"@.len() == 9);
    assert("complete"@.len() == 8 && "complete"@[0] == 'c');
    assert("failed"@.len() == 6);
    assert("stopped"@.len() == 7 && "stopped"@[0] == 's');
}

/// The buttons turn the composer to the room, to the child and to a child to be,
/// and the one that it is turned to is marked.
pub proof fn the_buttons_turn_the_composer(
    now: ComposeMode,
    r: (ModeButton, ModeButton, ModeButton),
    stop: &'static str,
    resume: &'static str,
)
    requires
        call_ensures(mode_buttons, (now,), r),
        call_ensures(control_label, (ChildControl::Stop,), stop),
        call_ensures(control_label, (ChildControl::Resume,), resume),
    ensures
        r.0.mode is Room && r.1.mode is Child && r.2.mode is Spawn,
        r.0.selected <==> now is Room,
        r.1.selected <==> now is Child,
        r.2.selected <==> now is Spawn,
        stop@ == "stop"@ && resume@ == "resume with message"@,
{
}

/// A new composer speaks to the room, with nobody selected and nothing under way.
pub proof fn a_new_composer_speaks_to_the_room(p: CollaborationPanel)
    requires
        call_ensures(CollaborationPanel::new, (), p),
    ensures
        p.mode is Room && p.selected_child is None && !p.busy && p.notice is None,
{
    assert(p@.mode == p.mode && p@.busy == p.busy);
    assert(p@.selected_child == opt(p.selected_child));
    assert(p@.notice == crate::collaboration::notice_view(p.notice));
}

/// The agent that is chosen is the one that is spawned next.
pub proof fn the_chosen_agent_is_spawned(
    p: &mut CollaborationPanel,
    agent: crate::collaboration::AgentKind,
    q: &mut CollaborationPanel,
    s: &AppState,
    draft: &str,
    r: Option<ControlRequest>,
)
    requires
        call_ensures(CollaborationPanel::select_agent, (p, agent), ()),
        *old(q) == *final(p),
        call_ensures(CollaborationPanel::submit, (q, s, draft), r),
        r is Some,
    ensures
        final(p).agent == agent && final(p).mode == old(p).mode,
        old(p).mode is Spawn ==> r->0.agent == Some(agent),
{
    assert(final(p)@.agent == final(p).agent && final(p)@.mode == final(p).mode);
    let v = r->0@;
}

/// What stands at the head of the room: how many are active, and whether the
/// parent works; the send button says whether it sends.
pub proof fn the_head_of_the_room(
    n: usize,
    s: String,
    t: crate::collaboration::Tone,
    working: bool,
    r: (&'static str, crate::collaboration::Tone),
    can: bool,
    l: &'static str,
)
    requires
        call_ensures(crate::collaboration::active_label, (n,), s),
        call_ensures(crate::collaboration::active_tone, (n,), t),
        call_ensures(crate::collaboration::parent_status, (working,), r),
        call_ensures(crate::collaboration::send_label, (can,), l),
    ensures
        s@ == crate::text::decimal(n as nat) + " active"@,
        t is Accent <==> n > 0,
        working ==> r.0@ == "coordinating"@ && r.1 is Accent,
        !working ==> r.0@ == "ready"@ && r.1 is Faint,
        can ==> l@ == "send"@,
        !can ==> l@ == "sending"@,
{
}

}
