//! What selecting, attaching and restoring are for.
use vstd::prelude::*;

use crate::laws::calls::{names_differ, says_text};
use crate::proto::{Chat, PeerView, Session, SessionMessageEntry};
use crate::seqs::{first_at_is, first_at_props};
use crate::shell::projects::Shell;
use crate::state::{
    chat_ix, chat_named, effects, seen_effects, select_effects, AppState, Effect, EffectView,
    EngineHandle,
};
use crate::wire::{opt, Method};

verus! {

/// Whether the transcript of a chat is asked for.
pub open spec fn asks_transcript(out: Seq<Effect>, id: Seq<char>) -> bool {
    exists|k: int|
        0 <= k < out.len() && ((#[trigger] out[k]) matches Effect::WatchTranscript(c) && c@ == id)
}

/// Whether a selection is asked to be remembered in a directory.
pub open spec fn asks_save(out: Seq<Effect>, dir: Seq<char>, selected: Option<Seq<char>>) -> bool {
    exists|k: int|
        0 <= k < out.len() && ((#[trigger] out[k]) matches Effect::SaveSelection {
            dir: d,
            selected: s,
        } && d@ == dir && opt(s) == selected)
}

/// Whether the engine is told that a chat was looked at.
pub open spec fn asks_seen(out: Seq<Effect>, id: Seq<char>) -> bool {
    exists|k: int|
        0 <= k < out.len() && ((#[trigger] out[k]) matches Effect::Call(r) && r@.method
            == Method::Mutate && says_text(r@, "op"@, "markChatSeen"@) && says_text(
            r@,
            "chatId"@,
            id,
        ))
}

/// Whether the window is asked to draw again.
pub open spec fn asks_redraw(out: Seq<Effect>) -> bool {
    exists|k: int| 0 <= k < out.len() && (#[trigger] out[k]) is Notify
}

/// Whether a method is asked to be watched.
pub open spec fn asks_watch(out: Seq<Effect>, method: Method) -> bool {
    exists|k: int|
        0 <= k < out.len() && ((#[trigger] out[k]) matches Effect::Watch(m) && m == method)
}

/// Whether anything is asked to be remembered.
pub open spec fn saves_nothing(out: Seq<Effect>) -> bool {
    forall|k: int| 0 <= k < out.len() ==> !((#[trigger] out[k]) is SaveSelection)
}

/// Whether the chat at `i` is the first with an id.
pub open spec fn is_first(chats: Seq<Chat>, id: Seq<char>, i: int) -> bool {
    &&& 0 <= i < chats.len()
    &&& chats[i].id@ == id
    &&& forall|j: int| 0 <= j < i ==> (#[trigger] chats[j]).id@ != id
}

proof fn first_is_ix(chats: Seq<Chat>, id: Seq<char>, i: int)
    requires
        is_first(chats, id, i),
    ensures
        chat_ix(chats, id) == i,
{
    assert forall|j: int| 0 <= j < i implies !chat_named(id)(#[trigger] chats[j]) by {
        assert(chats[j].id@ != id);
    }
    assert(chat_named(id)(chats[i]));
    first_at_is(chats, chat_named(id), i);
}

/// What the view of some effects holds at a place is there.
proof fn effect_at(out: Seq<Effect>, k: int)
    requires
        0 <= k < out.len(),
    ensures
        effects(out)[k] == out[k]@,
        effects(out).len() == out.len(),
{
}

proof fn transcript_in(out: Seq<Effect>, id: Seq<char>, k: int)
    requires
        0 <= k < effects(out).len(),
        effects(out)[k] == EffectView::WatchTranscript(id),
    ensures
        asks_transcript(out, id),
{
    effect_at(out, k);
    assert(out[k] is WatchTranscript);
}

proof fn save_in(out: Seq<Effect>, dir: Seq<char>, selected: Option<Seq<char>>, k: int)
    requires
        0 <= k < effects(out).len(),
        effects(out)[k] == (EffectView::SaveSelection { dir, selected }),
    ensures
        asks_save(out, dir, selected),
{
    effect_at(out, k);
    assert(out[k] is SaveSelection);
}

proof fn notify_in(out: Seq<Effect>, k: int)
    requires
        0 <= k < effects(out).len(),
        effects(out)[k] == EffectView::Notify,
    ensures
        asks_redraw(out),
{
    effect_at(out, k);
    assert(out[k] is Notify);
}

/// What the effects of turning to a chat hold, at an offset.
proof fn turning_asks(
    out: Seq<Effect>,
    from: int,
    chats: Seq<Chat>,
    engine: bool,
    dir: Option<Seq<char>>,
    id: Seq<char>,
)
    requires
        0 <= from,
        ({
            let e = select_effects(chats, engine, dir, Some(id));
            from + e.len() <= effects(out).len() && effects(out).subrange(from, from + e.len()) == e
        }),
    ensures
        engine ==> asks_transcript(out, id),
        dir is Some ==> asks_save(out, dir->0, Some(id)),
        asks_redraw(out),
        forall|i: int|
            #[trigger] is_first(chats, id, i) && chats[i].is_unseen() && engine ==> asks_seen(
                out,
                id,
            ),
{
    let e = select_effects(chats, engine, dir, Some(id));
    let seen = seen_effects(chats, id, engine);
    let part = effects(out).subrange(from, from + e.len());
    if engine {
        let k = seen.len() as int;
        assert(e[k] == EffectView::WatchTranscript(id));
        assert(part[k] == effects(out)[from + k]);
        transcript_in(out, id, from + k);
    }
    if let Some(d) = dir {
        let k = seen.len() + (if engine {
            1int
        } else {
            0
        });
        assert(e[k] == (EffectView::SaveSelection { dir: d, selected: Some(id) }));
        assert(part[k] == effects(out)[from + k]);
        save_in(out, d, Some(id), from + k);
    }
    let last = e.len() - 1;
    assert(e[last] == EffectView::Notify);
    assert(part[last] == effects(out)[from + last]);
    notify_in(out, from + last);
    assert forall|i: int|
        #[trigger] is_first(chats, id, i) && chats[i].is_unseen() && engine implies asks_seen(
        out,
        id,
    ) by {
        first_is_ix(chats, id, i);
        assert(seen.len() == 2);
        assert(e[1] == seen[1]);
        assert(part[1] == effects(out)[from + 1]);
        seen_in(out, id, from + 1);
    }
}

proof fn seen_in(out: Seq<Effect>, id: Seq<char>, k: int)
    requires
        0 <= k < effects(out).len(),
        effects(out)[k] == EffectView::Call(crate::state::seen_call(id)),
    ensures
        asks_seen(out, id),
{
    effect_at(out, k);
    names_differ();
    assert(out[k] is Call);
    let r = out[k]->Call_0;
    assert(r@ == crate::state::seen_call(id));
    assert(says_text(r@, "op"@, "markChatSeen"@) && says_text(r@, "chatId"@, id));
}

/// Selecting another chat opens it: its live transcript is asked for and the old
/// one is put away, its project comes along, it is marked seen here and with the
/// engine, and the selection is remembered under hot reload.
pub proof fn selecting_opens_the_chat(s: &mut AppState, id: String, now: i64, out: Vec<Effect>)
    requires
        call_ensures(AppState::select_chat_at, (s, Some(id), now), out),
        opt(old(s).selected_chat) != Some(id@),
    ensures
        opt(final(s).selected_chat) == Some(id@),
        final(s).transcript@.len() == 0,
        old(s).engine is Some ==> asks_transcript(out@, id@) && opt(final(s).transcript_watch)
            == Some(id@),
        old(s).engine is None ==> final(s).transcript_watch is None,
        (old(s).hotreload || old(s).hotreload_env) && old(s).data_dir is Some ==> asks_save(
            out@,
            old(s).data_dir->0@,
            Some(id@),
        ),
        !(old(s).hotreload || old(s).hotreload_env) ==> saves_nothing(out@),
        asks_redraw(out@),
        forall|i: int|
            #[trigger] is_first(old(s).chats@, id@, i) ==> {
                let c = old(s).chats@[i];
                &&& c.project_id is Some ==> final(s).selected_project == c.project_id
                &&& c.is_unseen() ==> final(s).chats@[i].last_seen_at == Some(now)
                &&& c.is_unseen() && old(s).engine is Some ==> asks_seen(out@, id@)
            },
        final(s).chats@.len() == old(s).chats@.len(),
        forall|j: int|
            0 <= j < old(s).chats@.len() && old(s).chats@[j].id@ != id@ ==> (
            #[trigger] final(s).chats@[j]) == old(s).chats@[j],
        final(s).projects == old(s).projects && final(s).sessions == old(s).sessions,
        final(s).echoes == old(s).echoes && final(s).engine == old(s).engine,
        final(s).devices == old(s).devices && final(s).connection == old(s).connection,
{
    let chats = old(s).chats@;
    let engine = old(s).engine is Some;
    let dir = old(s).save_dir();
    let e = select_effects(chats, engine, dir, Some(id@));
    assert(effects(out@).subrange(0, e.len() as int) =~= e);
    turning_asks(out@, 0, chats, engine, dir, id@);
    first_at_props(chats, chat_named(id@), 0);
    assert forall|i: int| #[trigger] is_first(chats, id@, i) implies {
        let c = chats[i];
        &&& c.project_id is Some ==> final(s).selected_project == c.project_id
        &&& c.is_unseen() ==> final(s).chats@[i].last_seen_at == Some(now)
        &&& c.is_unseen() && engine ==> asks_seen(out@, id@)
    } by {
        first_is_ix(chats, id@, i);
    }
    if !(old(s).hotreload || old(s).hotreload_env) {
        assert forall|k: int| 0 <= k < out@.len() implies !((#[trigger] out@[k]) is SaveSelection) by {
            effect_at(out@, k);
            assert(e[k] == out@[k]@);
        }
    }
    assert forall|j: int| 0 <= j < chats.len() && chats[j].id@ != id@ implies (
    #[trigger] final(s).chats@[j]) == chats[j] by {
        if chat_ix(chats, id@) == j {
            assert(chat_named(id@)(chats[j]));
        }
    }
}

/// Selecting none opens nothing: no transcript is asked for and none is watched,
/// and the project stays.
pub proof fn selecting_none_opens_nothing(
    s: &mut AppState,
    now: i64,
    out: Vec<Effect>,
    k: int,
)
    requires
        call_ensures(AppState::select_chat_at, (s, None, now), out),
        old(s).selected_chat is Some,
        0 <= k < out@.len(),
    ensures
        final(s).selected_chat is None,
        final(s).transcript@.len() == 0,
        final(s).transcript_watch is None,
        final(s).chats@ == old(s).chats@,
        final(s).selected_project == old(s).selected_project,
        !(out@[k] is WatchTranscript),
        !(out@[k] is Call),
{
    effect_at(out@, k);
}

/// Selecting the selected chat again leaves the view as it is, and looks at it.
pub proof fn selecting_again_only_looks(s: &mut AppState, id: String, now: i64, out: Vec<Effect>)
    requires
        call_ensures(AppState::select_chat_at, (s, Some(id), now), out),
        opt(old(s).selected_chat) == Some(id@),
    ensures
        final(s).selected_chat == old(s).selected_chat,
        final(s).transcript == old(s).transcript,
        final(s).transcript_watch == old(s).transcript_watch,
        final(s).selected_project == old(s).selected_project,
        final(s).working_since == old(s).working_since,
        forall|k: int| 0 <= k < out@.len() ==> !((#[trigger] out@[k]) is WatchTranscript),
        forall|i: int|
            #[trigger] is_first(old(s).chats@, id@, i) && old(s).chats@[i].is_unseen()
                ==> final(s).chats@[i].last_seen_at == Some(now) && (old(s).engine is Some
                ==> asks_seen(out@, id@)),
{
    let chats = old(s).chats@;
    assert forall|k: int| 0 <= k < out@.len() implies !((#[trigger] out@[k]) is WatchTranscript) by {
        effect_at(out@, k);
    }
    assert forall|i: int|
        #[trigger] is_first(chats, id@, i) && chats[i].is_unseen() implies final(s).chats@[i].last_seen_at
        == Some(now) && (old(s).engine is Some ==> asks_seen(out@, id@)) by {
        first_is_ix(chats, id@, i);
        if old(s).engine is Some {
            let seen = seen_effects(chats, id@, true);
            assert(seen.len() == 2);
            assert(effects(out@)[1] == seen[1]);
            seen_in(out@, id@, 1);
        }
    }
}

/// A frame of chats that leaves another chat selected than before opens that chat.
pub proof fn a_frame_that_selects_opens_the_chat(
    s: &mut AppState,
    chats: Vec<Chat>,
    now: i64,
    out: Vec<Effect>,
)
    requires
        call_ensures(AppState::on_chats, (s, chats, now), out),
    ensures
        asks_redraw(out@),
        final(s).selected_chat matches Some(id) ==> opt(old(s).selected_chat) != Some(id@) ==> {
            &&& final(s).transcript@.len() == 0
            &&& old(s).engine is Some ==> asks_transcript(out@, id@)
            &&& old(s).engine is Some ==> opt(final(s).transcript_watch) == Some(id@)
        },
        final(s).transcript_watch matches Some(id) ==> opt(old(s).transcript_watch) != Some(id@)
            ==> asks_transcript(out@, id@),
        old(s).auto_selected && old(s).selected_chat is None ==> final(s).selected_chat is None,
        final(s).chats@.len() == chats@.len(),
{
    let sorted = crate::order::ordered(chats@, crate::state::by_recency());
    crate::order::ordered_is_permutation(chats@, crate::state::by_recency());
    let drop = crate::state::drop_effects(*old(s), chats@);
    let all = effects(out@);
    notify_in(out@, all.len() - 1);
    if let Some(first) = crate::state::boot_choice(*old(s), chats@) {
        let engine = old(s).engine is Some;
        let dir = if old(s).restore_looked {
            old(s).save_dir()
        } else {
            None
        };
        let e = select_effects(sorted, engine, dir, Some(first.id@));
        let from = drop.len() as int;
        assert(all.subrange(from, from + e.len()) =~= e);
        turning_asks(out@, from, sorted, engine, dir, first.id@);
        first_at_props(sorted, chat_named(first.id@), 0);
        assert(final(s).chats@.len() == sorted.len());
    }
}

/// A restore that selects another chat than before opens that chat, and it is the
/// one that was remembered.
pub proof fn a_restore_opens_the_chat(
    s: &mut AppState,
    saved: Option<String>,
    now: i64,
    out: Vec<Effect>,
)
    requires
        call_ensures(AppState::restore_hotreload, (s, saved, now), out),
    ensures
        final(s).selected_chat matches Some(id) ==> opt(old(s).selected_chat) != Some(id@) ==> {
            &&& opt(saved) == Some(id@)
            &&& final(s).transcript@.len() == 0
            &&& old(s).engine is Some ==> asks_transcript(out@, id@)
            &&& old(s).engine is Some ==> opt(final(s).transcript_watch) == Some(id@)
        },
        final(s).transcript_watch matches Some(id) ==> opt(old(s).transcript_watch) != Some(id@)
            ==> asks_transcript(out@, id@) || opt(old(s).selected_chat) == Some(id@),
        !(old(s).hotreload || old(s).hotreload_env) ==> final(s).selected_chat
            == old(s).selected_chat && saves_nothing(out@),
        old(s).selected_chat is Some && !old(s).boot_selected ==> final(s).selected_chat
            == old(s).selected_chat,
{
    if crate::state::restores(*old(s), saved) && opt(old(s).selected_chat) != opt(saved) {
        let chats = old(s).chats@;
        let engine = old(s).engine is Some;
        let dir = old(s).save_dir();
        let e = select_effects(chats, engine, dir, opt(saved));
        assert(effects(out@).subrange(0, e.len() as int) =~= e);
        turning_asks(out@, 0, chats, engine, dir, saved->0@);
    }
    if !(old(s).hotreload || old(s).hotreload_env) {
        assert(effects(out@).len() == out@.len());
    }
}

/// Landing in a project by another chat than the selected one opens that chat,
/// and shows the chat view.
pub proof fn activating_a_project_opens_its_chat(
    shell: &mut Shell,
    s: &mut AppState,
    project: String,
    now: i64,
    out: Vec<Effect>,
)
    requires
        call_ensures(Shell::activate_project, (shell, s, project, now), out),
    ensures
        final(shell).route is Chat,
        opt(final(shell).last_project_id) == Some(project@),
        final(s).selected_chat matches Some(id) ==> opt(old(s).selected_chat) != Some(id@) ==> {
            &&& final(s).transcript@.len() == 0
            &&& old(s).engine is Some ==> asks_transcript(out@, id@)
            &&& old(s).engine is Some ==> opt(final(s).transcript_watch) == Some(id@)
        },
        final(s).selected_chat is None ==> opt(final(s).selected_project) == Some(project@),
        final(s).projects == old(s).projects,
        final(shell).project_order == old(shell).project_order,
{
    if let Some(id) = &final(s).selected_chat {
        if opt(old(s).selected_chat) != Some(id@) {
            let chats = old(s).chats@;
            let engine = old(s).engine is Some;
            let dir = old(s).save_dir();
            let e = select_effects(chats, engine, dir, Some(id@));
            assert(effects(out@).subrange(0, e.len() as int) =~= e);
            turning_asks(out@, 0, chats, engine, dir, id@);
        }
    }
}

/// A session that was made is opened; one that was not is reported, and the view
/// stays.
pub proof fn a_made_session_is_opened(
    shell: &mut Shell,
    s: &mut AppState,
    id: String,
    error: Option<String>,
    now: i64,
    out: Vec<Effect>,
)
    requires
        call_ensures(Shell::on_session_created, (shell, s, id, error, now), out),
    ensures
        error is None ==> opt(final(s).selected_chat) == Some(id@) && *final(shell) == *old(shell),
        error is None && old(s).engine is Some && opt(old(s).selected_chat) != Some(id@)
            ==> asks_transcript(out@, id@),
        error is Some ==> *final(s) == *old(s) && out@.len() == 0 && final(shell).sidebar_notice is Some,
{
    if error is None && opt(old(s).selected_chat) != Some(id@) {
        let chats = old(s).chats@;
        let engine = old(s).engine is Some;
        let dir = old(s).save_dir();
        let e = select_effects(chats, engine, dir, Some(id@));
        assert(effects(out@).subrange(0, e.len() as int) =~= e);
        turning_asks(out@, 0, chats, engine, dir, id@);
    }
}

proof fn watch_in(out: Seq<Effect>, m: Method, k: int)
    requires
        0 <= k < effects(out).len(),
        effects(out)[k] == EffectView::Watch(m),
    ensures
        asks_watch(out, m),
{
    effect_at(out, k);
    assert(out[k] is Watch);
}

/// Attaching an engine makes the app ready and follows everything that it shows:
/// sessions, collaborations, chats, devices, projects, updates, this device and
/// the peers, and the transcript of a chat that is selected already.
pub proof fn attaching_follows_everything(s: &mut AppState, handle: EngineHandle, out: Vec<Effect>)
    requires
        call_ensures(AppState::attach_engine, (s, handle), out),
    ensures
        final(s).connection is Ready,
        final(s).engine == Some(handle),
        asks_watch(out@, Method::WatchSessions),
        asks_watch(out@, Method::WatchCollaborations),
        asks_watch(out@, Method::WatchChats),
        asks_watch(out@, Method::WatchDevices),
        asks_watch(out@, Method::WatchProjects),
        asks_watch(out@, Method::UpdateStatus),
        asks_watch(out@, Method::LocalDevice),
        asks_watch(out@, Method::NovaWatchPeers),
        final(s).selected_chat == old(s).selected_chat,
        old(s).selected_chat matches Some(id) ==> asks_transcript(out@, id@) && opt(
            final(s).transcript_watch,
        ) == Some(id@),
        asks_redraw(out@),
        ({
            let tells = exists|k: int| 0 <= k < out@.len() && (#[trigger] out@[k]) is AnnounceReady;
            let restores = exists|k: int|
                0 <= k < out@.len() && (#[trigger] out@[k]) is RestoreLater;
            let on = old(s).hotreload || old(s).hotreload_env;
            &&& tells <==> on && !old(s).announced
            &&& restores <==> on
            &&& on ==> final(s).announced
        }),
        final(s).chats == old(s).chats && final(s).projects == old(s).projects,
{
    let all = effects(out@);
    let n = all.len() as int;
    assert(all.len() == out@.len());
    watch_in(out@, Method::WatchSessions, 0);
    watch_in(out@, Method::WatchCollaborations, 1);
    watch_in(out@, Method::WatchChats, 2);
    watch_in(out@, Method::WatchDevices, 3);
    watch_in(out@, Method::WatchProjects, 4);
    watch_in(out@, Method::UpdateStatus, 5);
    watch_in(out@, Method::LocalDevice, 6);
    watch_in(out@, Method::NovaWatchPeers, 7);
    if let Some(id) = &old(s).selected_chat {
        transcript_in(out@, id@, 8);
    }
    notify_in(out@, n - 1);
    assert forall|k: int| 0 <= k < n implies (#[trigger] out@[k])@ == all[k] by {}
    let on = old(s).hotreload || old(s).hotreload_env;
    if on {
        assert(out@[n - 2]@ == EffectView::RestoreLater);
        assert(out@[n - 2] is RestoreLater);
        if !old(s).announced {
            assert(out@[n - 3]@ == EffectView::AnnounceReady);
            assert(out@[n - 3] is AnnounceReady);
        }
    }
    if exists|k: int| 0 <= k < n && (#[trigger] out@[k]) is AnnounceReady {
        let k = choose|k: int| 0 <= k < n && (#[trigger] out@[k]) is AnnounceReady;
        assert(all[k] is AnnounceReady);
    }
    if exists|k: int| 0 <= k < n && (#[trigger] out@[k]) is RestoreLater {
        let k = choose|k: int| 0 <= k < n && (#[trigger] out@[k]) is RestoreLater;
        assert(all[k] is RestoreLater);
    }
}

/// The turn of the selected chat runs exactly when a session of that chat works.
pub proof fn working_is_the_selected_session(s: &AppState, r: bool)
    requires
        call_ensures(AppState::working, (s,), r),
    ensures
        r <==> s.selected_chat is Some && exists|i: int|
            0 <= i < s.sessions@.len() && (#[trigger] s.sessions@[i]).chat_id@
                == s.selected_chat->0@ && s.sessions@[i].status is Working,
{
    if let Some(id) = &s.selected_chat {
        let p = |x: Session| x.chat_id@ == id@ && x.status is Working;
        if exists|i: int|
            0 <= i < s.sessions@.len() && (#[trigger] s.sessions@[i]).chat_id@ == id@
                && s.sessions@[i].status is Working {
            let i = choose|i: int|
                0 <= i < s.sessions@.len() && (#[trigger] s.sessions@[i]).chat_id@ == id@
                    && s.sessions@[i].status is Working;
            assert((|x: Session|
                x.chat_id@ == id@ && x.status == crate::proto::SessionStatus::Working)(
                s.sessions@[i],
            ));
        }
    }
}

/// The clock of a turn starts when its session begins to work, runs on as long as
/// it works, and stops with it.
pub proof fn the_clock_spans_the_turn(
    s: &mut AppState,
    sessions: Vec<Session>,
    clock: u64,
    t: &AppState,
    working: bool,
)
    requires
        call_ensures(AppState::apply_sessions, (s, sessions, clock), ()),
        *t == *final(s),
        call_ensures(AppState::working, (t,), working),
    ensures
        final(s).sessions == sessions,
        final(s).working_since is Some <==> working,
        working && old(s).working_since is Some ==> final(s).working_since
            == old(s).working_since,
        working && old(s).working_since is None ==> final(s).working_since == Some(clock),
        final(s).selected_chat == old(s).selected_chat && final(s).transcript
            == old(s).transcript,
{
}

/// A transcript replaces the one before, for the selected chat only.
pub proof fn a_transcript_belongs_to_its_chat(
    s: &mut AppState,
    chat: &str,
    entries: Vec<SessionMessageEntry>,
    clock: u64,
    applied: bool,
)
    requires
        call_ensures(AppState::on_transcript, (s, chat, entries, clock), applied),
    ensures
        applied <==> opt(old(s).selected_chat) == Some(chat@),
        applied ==> final(s).transcript == entries,
        !applied ==> *final(s) == *old(s),
        final(s).selected_chat == old(s).selected_chat && final(s).chats == old(s).chats,
{
}

/// Peers that are trusted become devices under their own id and name; revoked
/// ones do not.
pub proof fn trusted_peers_become_devices(
    peers: &Vec<PeerView>,
    r: Vec<crate::proto::Device>,
    i: int,
)
    requires
        call_ensures(crate::state::devices_from_peers, (peers,), r),
        0 <= i < peers@.len(),
    ensures
        !peers@[i].revoked ==> exists|k: int|
            0 <= k < r@.len() && (#[trigger] r@[k]).id@ == peers@[i].device_id@ && r@[k].name@
                == peers@[i].name@ && r@[k].platform@ == peers@[i].platform@,
        r@.len() <= peers@.len(),
        forall|k: int|
            0 <= k < r@.len() ==> exists|j: int|
                0 <= j < peers@.len() && !peers@[j].revoked && (#[trigger] peers@[j]).device_id@ == (
                #[trigger] r@[k]).id@,
{
    let p = |x: PeerView| !x.revoked;
    let all = crate::seqs::kept(peers@, p);
    crate::seqs::kept_members(peers@, p);
    kept_shorter(peers@, p);
    if !peers@[i].revoked {
        assert(p(peers@[i]));
        assert(peers@.contains(peers@[i]));
        assert(all.contains(peers@[i]));
        let k = choose|k: int| 0 <= k < all.len() && all[k] == peers@[i];
        assert(r@[k].id@ == peers@[i].device_id@);
    }
    assert forall|k: int| 0 <= k < r@.len() implies exists|j: int|
        0 <= j < peers@.len() && !peers@[j].revoked && (#[trigger] peers@[j]).device_id@ == (
        #[trigger] r@[k]).id@ by {
        assert(all.contains(all[k]));
        assert(peers@.contains(all[k]));
        let j = choose|j: int| 0 <= j < peers@.len() && peers@[j] == all[k];
        assert(p(all[k]));
        assert(peers@[j].device_id@ == r@[k].id@);
    }
}

proof fn kept_shorter<T>(s: Seq<T>, p: spec_fn(T) -> bool)
    ensures
        crate::seqs::kept(s, p).len() <= s.len(),
    decreases s.len(),
{
    if s.len() > 0 {
        kept_shorter(s.drop_last(), p);
    }
}

/// A selected chat that a frame no longer has is forgotten where the selection is
/// remembered, unless the boot had chosen it; nothing is selected in its place
/// once somebody, or the boot, has selected.
pub proof fn a_lost_chat_is_forgotten(
    s: &mut AppState,
    chats: Vec<Chat>,
    now: i64,
    out: Vec<Effect>,
)
    requires
        call_ensures(AppState::on_chats, (s, chats, now), out),
        old(s).selected_chat is Some,
        forall|i: int|
            0 <= i < chats@.len() ==> (#[trigger] chats@[i]).id@ != old(s).selected_chat->0@,
        !old(s).boot_selected,
        old(s).auto_selected,
    ensures
        (old(s).hotreload || old(s).hotreload_env) && old(s).data_dir is Some ==> asks_save(
            out@,
            old(s).data_dir->0@,
            None,
        ),
        final(s).selected_chat is None && final(s).transcript@.len() == 0,
        forall|k: int| 0 <= k < out@.len() ==> !((#[trigger] out@[k]) is WatchTranscript),
{
    let id = old(s).selected_chat->0@;
    let p = chat_named(id);
    assert forall|i: int| 0 <= i < chats@.len() implies !p(#[trigger] chats@[i]) by {
        assert(chats@[i].id@ != id);
    }
    first_at_is(chats@, p, chats@.len() as int);
    if (old(s).hotreload || old(s).hotreload_env) && old(s).data_dir is Some {
        assert(effects(out@)[0] == (EffectView::SaveSelection {
            dir: old(s).data_dir->0@,
            selected: None,
        }));
        save_in(out@, old(s).data_dir->0@, None, 0);
    }
    assert forall|k: int| 0 <= k < out@.len() implies !((#[trigger] out@[k]) is WatchTranscript) by {
        effect_at(out@, k);
    }
}

/// Selecting what the boot chose makes it one's own: it is remembered now.
pub proof fn the_boot_s_choice_becomes_one_s_own(
    s: &mut AppState,
    id: String,
    now: i64,
    out: Vec<Effect>,
)
    requires
        call_ensures(AppState::select_chat_at, (s, Some(id), now), out),
        opt(old(s).selected_chat) == Some(id@),
    ensures
        !final(s).boot_selected,
        old(s).boot_selected && (old(s).hotreload || old(s).hotreload_env) && old(s).data_dir is Some
            ==> asks_save(out@, old(s).data_dir->0@, Some(id@)),
        !old(s).boot_selected ==> saves_nothing(out@),
{
    let seen = seen_effects(old(s).chats@, id@, old(s).engine is Some);
    if old(s).boot_selected && (old(s).hotreload || old(s).hotreload_env)
        && old(s).data_dir is Some {
        let k = seen.len() as int;
        assert(effects(out@)[k] == (EffectView::SaveSelection {
            dir: old(s).data_dir->0@,
            selected: Some(id@),
        }));
        save_in(out@, old(s).data_dir->0@, Some(id@), k);
    }
    if !old(s).boot_selected {
        assert forall|k: int| 0 <= k < out@.len() implies !((#[trigger] out@[k]) is SaveSelection) by {
            effect_at(out@, k);
            assert(seen[k] == out@[k]@);
        }
    }
}

/// The chat that a body remembers is the one that is restored: reading what was
/// written for a chat restores as that chat does.
pub proof fn what_was_written_is_restored(
    selected: Option<String>,
    body: String,
    text: &str,
    got: Option<String>,
)
    requires
        call_ensures(crate::saved::selection_body, (&selected,), body),
        text@ == body@,
        call_ensures(crate::saved::saved_chat, (text,), got),
    ensures
        opt(got) == opt(selected),
{
}

/// Restoring from a file restores the chat that the file names, if it is there and
/// nobody has selected; without a file nothing is selected.
pub proof fn a_file_restores_its_chat(
    s: &mut AppState,
    body: Option<String>,
    now: i64,
    out: Vec<Effect>,
    text: &str,
    saved: Option<String>,
    i: int,
)
    requires
        call_ensures(AppState::restore_from, (s, body, now), out),
        body matches Some(b) ==> text@ == b@,
        call_ensures(crate::saved::saved_chat, (text,), saved),
    ensures
        body is Some && saved is Some && is_first(old(s).chats@, saved->0@, i)
            && old(s).selected_chat is None && (old(s).hotreload || old(s).hotreload_env)
            && old(s).data_dir is Some ==> opt(final(s).selected_chat) == opt(saved),
        body is None || saved is None || !(old(s).hotreload || old(s).hotreload_env)
            ==> final(s).selected_chat == old(s).selected_chat,
        final(s).restore_looked,
{
    if saved is Some && is_first(old(s).chats@, saved->0@, i) {
        first_is_ix(old(s).chats@, saved->0@, i);
    }
}

}
