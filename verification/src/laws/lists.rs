//! What the state makes of what the engine sends, and what is read from it.
use vstd::prelude::*;

use crate::laws::calls::names_differ;
use crate::laws::selection::{asks_redraw, asks_seen};
use crate::laws::shown::{active_at, has_news};
use crate::order::{ordered, ordered_is_in_order, ordered_is_permutation, ordered_members, text_le};
use crate::proto::{
    chat_key, deref, Chat, ChatConfig, ChatIndicator, CollaborationSession, ConnectionStatus,
    Device, GatePhase, MessagePart, PeerView, Project, Session, SessionMessageEntry,
};
use crate::seqs::{any, first_at, first_at_is, first_at_props, kept, kept_members};
use crate::state::{
    at, boot_next, boot_start, by_device_id, by_recency, chat_ix, chat_named, device_ix,
    device_named, effects, has_entry, live_tokens_per_sec, merged, merged_devices_cover,
    parts_chars, project_named, reported_device, session_named, turn_chars, turn_start, AppState,
    BootEvent, BootStep, Effect, EngineBootConfig, EngineHandle, EngineMode, ShutdownStep,
    TokenRate,
};
use crate::text::decimal;
use crate::settings::nova::{LocalDevice, NovaPage};
use crate::wire::{opt, Method, Request, Value};

verus! {

/// A boot first sees whether anything listens on the port; what answers as an
/// engine there is used, and else one is assembled here and served. Only
/// assembling can fail the boot.
pub proof fn the_boot_goes_its_way(
    config: &EngineBootConfig,
    first: BootStep,
    heard: BootStep,
    silent: BootStep,
    joined: BootStep,
    refused: BootStep,
    made: BootStep,
    broken: BootStep,
    end: BootStep,
    message: String,
    url: String,
    port: u16,
    ok: bool,
)
    requires
        call_ensures(boot_start, (config,), first),
        call_ensures(boot_next, (config, first, BootEvent::Probed { listening: true }), heard),
        call_ensures(boot_next, (config, first, BootEvent::Probed { listening: false }), silent),
        call_ensures(
            boot_next,
            (config, BootStep::Connect { url }, BootEvent::Connected { ok: true }),
            joined,
        ),
        call_ensures(
            boot_next,
            (config, BootStep::Connect { url }, BootEvent::Connected { ok: false }),
            refused,
        ),
        call_ensures(boot_next, (config, BootStep::Embed, BootEvent::Assembled), made),
        call_ensures(
            boot_next,
            (config, BootStep::Embed, BootEvent::AssembleFailed { message }),
            broken,
        ),
        call_ensures(
            boot_next,
            (config, BootStep::Serve { port }, BootEvent::Bound { ok }),
            end,
        ),
    ensures
        first == (BootStep::Probe { port: config.ipc_port }),
        heard is Connect && heard->url@ == "ws://127.0.0.1:"@ + decimal(config.ipc_port as nat),
        silent is Embed,
        joined == (BootStep::Ready { mode: EngineMode::Remote { url }, serving: false }),
        refused is Embed,
        made == (BootStep::Serve { port: config.ipc_port }),
        broken == (BootStep::Failed { message }),
        end == (BootStep::Ready { mode: EngineMode::InProcess, serving: ok }),
{
}

/// An engine of this process is drained, after its port was closed if it had one;
/// a daemon is left alone.
pub proof fn an_engine_is_taken_down(h: &EngineHandle, steps: Vec<ShutdownStep>)
    requires
        call_ensures(EngineHandle::shutdown, (h,), steps),
    ensures
        h.mode is Remote ==> steps@.len() == 0,
        h.mode is InProcess ==> steps@.len() > 0 && steps@.last() is DrainEngine,
        h.mode is InProcess && h.serving ==> steps@.len() == 2 && steps@[0] is StopServing,
        h.mode is InProcess && !h.serving ==> steps@.len() == 1,
{
}

/// Whether some chat has an id.
pub open spec fn has_chat(chats: Seq<Chat>, id: Seq<char>) -> bool {
    exists|i: int| 0 <= i < chats.len() && (#[trigger] chats[i]).id@ == id
}

/// Whether some project has an id.
pub open spec fn has_project(projects: Seq<Project>, id: Seq<char>) -> bool {
    exists|i: int| 0 <= i < projects.len() && (#[trigger] projects[i]).id@ == id
}

/// Whether some device has an id.
pub open spec fn has_device(devices: Seq<Device>, id: Seq<char>) -> bool {
    exists|i: int| 0 <= i < devices.len() && (#[trigger] devices[i]).id@ == id
}

proof fn chat_there(chats: Seq<Chat>, id: Seq<char>)
    ensures
        has_chat(chats, id) <==> chat_ix(chats, id) < chats.len(),
        0 <= chat_ix(chats, id) <= chats.len(),
        has_chat(chats, id) ==> chats[chat_ix(chats, id)].id@ == id,
        forall|j: int| 0 <= j < chat_ix(chats, id) ==> (#[trigger] chats[j]).id@ != id,
{
    let p = chat_named(id);
    first_at_props(chats, p, 0);
    let k = chat_ix(chats, id);
    if has_chat(chats, id) {
        let i = choose|i: int| 0 <= i < chats.len() && (#[trigger] chats[i]).id@ == id;
        assert(p(chats[i]));
    }
    assert forall|j: int| 0 <= j < k implies (#[trigger] chats[j]).id@ != id by {
        assert(!p(chats[j]));
    }
    if k < chats.len() {
        assert(p(chats[k]));
        assert(chats[k].id@ == id);
    }
}

proof fn project_there(projects: Seq<Project>, id: Seq<char>)
    ensures
        has_project(projects, id) <==> crate::state::project_ix(projects, id) < projects.len(),
        0 <= crate::state::project_ix(projects, id) <= projects.len(),
        has_project(projects, id) ==> projects[crate::state::project_ix(projects, id)].id@ == id,
{
    let p = project_named(id);
    first_at_props(projects, p, 0);
    let k = crate::state::project_ix(projects, id);
    if has_project(projects, id) {
        let i = choose|i: int| 0 <= i < projects.len() && (#[trigger] projects[i]).id@ == id;
        assert(p(projects[i]));
    }
    if k < projects.len() {
        assert(p(projects[k]));
        assert(projects[k].id@ == id);
    }
}

proof fn device_there(devices: Seq<Device>, id: Seq<char>)
    ensures
        has_device(devices, id) <==> device_ix(devices, id) < devices.len(),
        0 <= device_ix(devices, id) <= devices.len(),
        has_device(devices, id) ==> devices[device_ix(devices, id)].id@ == id,
        forall|j: int| 0 <= j < device_ix(devices, id) ==> (#[trigger] devices[j]).id@ != id,
        has_device(devices, id) <==> any(devices, device_named(id)),
{
    let p = device_named(id);
    first_at_props(devices, p, 0);
    let k = device_ix(devices, id);
    if has_device(devices, id) {
        let i = choose|i: int| 0 <= i < devices.len() && (#[trigger] devices[i]).id@ == id;
        assert(p(devices[i]));
    }
    if any(devices, p) {
        let i = choose|i: int| 0 <= i < devices.len() && p(#[trigger] devices[i]);
        assert(devices[i].id@ == id);
    }
    assert forall|j: int| 0 <= j < k implies (#[trigger] devices[j]).id@ != id by {
        assert(!p(devices[j]));
    }
    if k < devices.len() {
        assert(p(devices[k]));
        assert(devices[k].id@ == id);
    }
}

/// The chats are those that came, the latest first; a selected chat that is not
/// among them is no longer selected, and nothing of it is shown.
pub proof fn chats_are_taken_over(s: &mut AppState, chats: Vec<Chat>)
    requires
        call_ensures(AppState::apply_chats, (s, chats), ()),
    ensures
        final(s).chats@.to_multiset() == chats@.to_multiset(),
        forall|i: int, j: int|
            0 <= i < j < final(s).chats@.len() ==> active_at(#[trigger] final(s).chats@[i])
                >= active_at(#[trigger] final(s).chats@[j]),
        old(s).selected_chat matches Some(id) ==> {
            &&& has_chat(chats@, id@) ==> final(s).selected_chat == old(s).selected_chat
                && final(s).transcript == old(s).transcript && final(s).transcript_watch == old(s).transcript_watch
            &&& !has_chat(chats@, id@) ==> final(s).selected_chat is None && final(s).transcript@.len()
                == 0 && final(s).transcript_watch is None && final(s).working_since is None
        },
        old(s).selected_chat is None ==> final(s).selected_chat is None,
        final(s).sessions == old(s).sessions && final(s).projects == old(s).projects
            && final(s).selected_project == old(s).selected_project,
{
    ordered_is_permutation(chats@, by_recency());
    ordered_is_in_order(chats@, by_recency());
    if let Some(id) = &old(s).selected_chat {
        chat_there(chats@, id@);
    }
}

/// The projects are those that came, the oldest first; a selected project that is
/// among them stays, and else the first is selected, if there is one.
pub proof fn projects_are_taken_over(s: &mut AppState, projects: Vec<Project>)
    requires
        call_ensures(AppState::apply_projects, (s, projects), ()),
    ensures
        final(s).projects@.to_multiset() == projects@.to_multiset(),
        final(s).projects@.len() == projects@.len(),
        forall|i: int, j: int|
            0 <= i < j < final(s).projects@.len() ==> (#[trigger] final(s).projects@[i]).created_at
                <= (#[trigger] final(s).projects@[j]).created_at,
        projects@.len() == 0 ==> final(s).selected_project is None,
        projects@.len() > 0 ==> {
            let stays = old(s).selected_project is Some && has_project(
                projects@,
                old(s).selected_project->0@,
            );
            &&& stays ==> final(s).selected_project == old(s).selected_project
            &&& !stays ==> final(s).selected_project == Some(final(s).projects@[0].id)
        },
        final(s).selected_chat == old(s).selected_chat && final(s).chats == old(s).chats,
{
    let key = crate::state::by_creation();
    ordered_is_permutation(projects@, key);
    ordered_is_in_order(projects@, key);
    if let Some(id) = &old(s).selected_project {
        project_there(projects@, id@);
    }
}

/// A configuration is the chat's at once, and no other row changes.
pub proof fn a_configuration_is_shown_at_once(
    s: &mut AppState,
    chat: &str,
    config: ChatConfig,
    i: int,
)
    requires
        call_ensures(AppState::apply_chat_config, (s, chat, config), ()),
        crate::laws::selection::is_first(old(s).chats@, chat@, i),
    ensures
        final(s).chats@.len() == old(s).chats@.len(),
        final(s).chats@[i].config == Some(config),
        final(s).chats@[i].id == old(s).chats@[i].id && final(s).chats@[i].title == old(s).chats@[i].title,
        forall|j: int|
            0 <= j < final(s).chats@.len() && j != i ==> #[trigger] final(s).chats@[j] == old(s).chats@[j],
{
    let p = chat_named(chat@);
    assert forall|j: int| 0 <= j < i implies !p(#[trigger] old(s).chats@[j]) by {
        assert(old(s).chats@[j].id@ != chat@);
    }
    assert(p(old(s).chats@[i]));
    first_at_is(old(s).chats@, p, i);
}

proof fn merging_keeps_names(workspace: Seq<Device>, peers: Seq<Device>, j: int)
    requires
        0 <= j < peers.len(),
        forall|k: int| j < k < peers.len() ==> (#[trigger] peers[k]).id@ != peers[j].id@,
    ensures
        exists|i: int|
            0 <= i < merged(workspace, peers).len() && (#[trigger] merged(workspace, peers)[i]).id@
                == peers[j].id@ && merged(workspace, peers)[i].name == peers[j].name && merged(
                workspace,
                peers,
            )[i].platform == peers[j].platform,
    decreases peers.len(),
{
    let rest = peers.drop_last();
    let before = merged(workspace, rest);
    let peer = peers.last();
    let now = merged(workspace, peers);
    device_there(before, peer.id@);
    let at = device_ix(before, peer.id@);
    if j == peers.len() - 1 {
        if at < before.len() {
            assert(now[at].id@ == peer.id@);
        } else {
            assert(now[before.len() as int] == peer);
        }
    } else {
        assert forall|k: int| j < k < rest.len() implies (#[trigger] rest[k]).id@ != rest[j].id@ by {
            assert(peers[k].id@ != peers[j].id@);
        }
        merging_keeps_names(workspace, rest, j);
        let i = choose|i: int|
            0 <= i < before.len() && (#[trigger] before[i]).id@ == peers[j].id@ && before[i].name
                == peers[j].name && before[i].platform == peers[j].platform;
        assert(peers[peers.len() - 1].id@ != peers[j].id@);
        assert(now[i] == before[i]);
    }
}

proof fn merging_leaves_others(workspace: Seq<Device>, peers: Seq<Device>, i: int)
    requires
        0 <= i < workspace.len(),
        forall|k: int| 0 <= k < peers.len() ==> (#[trigger] peers[k]).id@ != workspace[i].id@,
    ensures
        i < merged(workspace, peers).len(),
        merged(workspace, peers)[i] == workspace[i],
    decreases peers.len(),
{
    if peers.len() > 0 {
        let rest = peers.drop_last();
        assert forall|k: int| 0 <= k < rest.len() implies (#[trigger] rest[k]).id@
            != workspace[i].id@ by {
            assert(peers[k].id@ != workspace[i].id@);
        }
        merging_leaves_others(workspace, rest, i);
        device_there(merged(workspace, rest), peers.last().id@);
        assert(peers[peers.len() - 1].id@ != workspace[i].id@);
    }
}

/// Whether devices are those of the workspace with the peers worked in: every
/// device of either is there and no other, the latest word of a peer gives its
/// name, and a device that is no peer is as the workspace has it.
pub open spec fn works_in(devices: Seq<Device>, workspace: Seq<Device>, peers: Seq<Device>) -> bool {
    &&& forall|id: Seq<char>| #[trigger]
        has_device(devices, id) <==> has_device(workspace, id) || has_device(peers, id)
    &&& forall|j: int|
        0 <= j < peers.len() && (forall|k: int|
            j < k < peers.len() ==> (#[trigger] peers[k]).id@ != peers[j].id@) ==> exists|i: int|
            0 <= i < devices.len() && (#[trigger] devices[i]).id@ == (#[trigger] peers[j]).id@
                && devices[i].name == peers[j].name && devices[i].platform == peers[j].platform
    &&& forall|j: int|
        0 <= j < workspace.len() && !has_device(peers, (#[trigger] workspace[j]).id@)
            ==> devices.contains(workspace[j])
    &&& forall|i: int, j: int|
        0 <= i < j < devices.len() ==> text_le(
            (#[trigger] devices[i]).id@,
            (#[trigger] devices[j]).id@,
        )
}

proof fn ordering_works_in(workspace: Seq<Device>, peers: Seq<Device>)
    ensures
        works_in(ordered(merged(workspace, peers), by_device_id()), workspace, peers),
{
    let all = merged(workspace, peers);
    let devices = ordered(all, by_device_id());
    ordered_members(all, by_device_id());
    ordered_is_in_order(all, by_device_id());
    assert forall|id: Seq<char>| #[trigger]
        has_device(devices, id) <==> has_device(workspace, id) || has_device(peers, id) by {
        merged_devices_cover(workspace, peers, id);
        device_there(all, id);
        device_there(workspace, id);
        device_there(peers, id);
        if has_device(devices, id) {
            let i = choose|i: int| 0 <= i < devices.len() && (#[trigger] devices[i]).id@ == id;
            assert(devices.contains(devices[i]));
            assert(all.contains(devices[i]));
            let k = choose|k: int| 0 <= k < all.len() && all[k] == devices[i];
            assert(all[k].id@ == id);
        }
        if has_device(all, id) {
            let i = choose|i: int| 0 <= i < all.len() && (#[trigger] all[i]).id@ == id;
            assert(all.contains(all[i]));
            assert(devices.contains(all[i]));
            let k = choose|k: int| 0 <= k < devices.len() && devices[k] == all[i];
            assert(devices[k].id@ == id);
        }
    }
    assert forall|j: int|
        0 <= j < peers.len() && (forall|k: int|
            j < k < peers.len() ==> (#[trigger] peers[k]).id@ != peers[j].id@) implies exists|
        i: int,
    |
        0 <= i < devices.len() && (#[trigger] devices[i]).id@ == (#[trigger] peers[j]).id@
            && devices[i].name == peers[j].name && devices[i].platform == peers[j].platform by {
        merging_keeps_names(workspace, peers, j);
        let i = choose|i: int|
            0 <= i < all.len() && (#[trigger] all[i]).id@ == peers[j].id@ && all[i].name
                == peers[j].name && all[i].platform == peers[j].platform;
        assert(all.contains(all[i]));
        assert(devices.contains(all[i]));
        let k = choose|k: int| 0 <= k < devices.len() && devices[k] == all[i];
        assert(devices[k].id@ == peers[j].id@);
    }
    assert forall|j: int|
        0 <= j < workspace.len() && !has_device(
            peers,
            (#[trigger] workspace[j]).id@,
        ) implies devices.contains(workspace[j]) by {
        assert forall|k: int| 0 <= k < peers.len() implies (#[trigger] peers[k]).id@
            != workspace[j].id@ by {
            if peers[k].id@ == workspace[j].id@ {
                assert(has_device(peers, workspace[j].id@));
            }
        }
        merging_leaves_others(workspace, peers, j);
        assert(all.contains(all[j]));
    }
    assert forall|i: int, j: int| 0 <= i < j < devices.len() implies text_le(
        (#[trigger] devices[i]).id@,
        (#[trigger] devices[j]).id@,
    ) by {
        let key = by_device_id();
        assert(crate::order::rank_le(key(devices[i]), key(devices[j])));
    }
}

/// The devices are those of the workspace with the peers worked in, whichever of
/// the two is news.
pub proof fn devices_are_worked_together(
    a: &mut AppState,
    b: &mut AppState,
    c: &mut AppState,
    workspace: Vec<Device>,
    nova: Vec<Device>,
    peers: &Vec<PeerView>,
    rows: Vec<Device>,
)
    requires
        call_ensures(AppState::apply_devices, (a, workspace), ()),
        call_ensures(AppState::apply_nova_devices, (b, nova), ()),
        call_ensures(AppState::on_peers, (c, peers), ()),
        call_ensures(crate::state::devices_from_peers, (peers,), rows),
    ensures
        works_in(final(a).devices@, workspace@, old(a).nova_devices@),
        works_in(final(b).devices@, old(b).workspace_devices@, nova@),
        works_in(final(c).devices@, old(c).workspace_devices@, rows@),
        final(a).chats == old(a).chats && final(b).chats == old(b).chats && final(c).chats == old(c).chats,
{
    ordering_works_in(workspace@, old(a).nova_devices@);
    ordering_works_in(old(b).workspace_devices@, nova@);
    ordering_works_in(old(c).workspace_devices@, rows@);
}

/// Whether an entry with an id is among some entries.
pub open spec fn holds(entries: Seq<SessionMessageEntry>, id: Seq<char>) -> bool {
    exists|i: int| 0 <= i < entries.len() && (#[trigger] entries[i]).id@ == id
}

proof fn entry_there(entries: Seq<SessionMessageEntry>, id: Seq<char>)
    ensures
        has_entry(entries, id) <==> holds(entries, id),
{
    let p = |e: SessionMessageEntry| e.id@ == id;
    if holds(entries, id) {
        let i = choose|i: int| 0 <= i < entries.len() && (#[trigger] entries[i]).id@ == id;
        assert(p(entries[i]));
    }
}

/// A sent message is shown with those before it until a transcript confirms it,
/// and once only.
pub proof fn an_echo_is_shown_once(
    s: &mut AppState,
    chat: &str,
    entry: SessionMessageEntry,
    before: Vec<&SessionMessageEntry>,
    was: &AppState,
    t: &AppState,
    after: Vec<&SessionMessageEntry>,
)
    requires
        opt(old(s).selected_chat) == Some(chat@),
        *was == *old(s),
        call_ensures(AppState::pending_echoes, (was,), before),
        call_ensures(AppState::push_echo, (s, chat, entry), ()),
        *t == *final(s),
        call_ensures(AppState::pending_echoes, (t,), after),
    ensures
        ({
            let had = exists|i: int|
                0 <= i < before@.len() && (#[trigger] before@[i]).id@ == entry.id@;
            &&& had ==> after@.len() == before@.len()
            &&& !had ==> after@.len() == before@.len() + 1 && *after@.last() == entry
            &&& forall|i: int|
                0 <= i < before@.len() ==> *(#[trigger] after@[i]) == *before@[i]
        }),
{
    let a = before@.map_values(|e: &SessionMessageEntry| *e);
    let b = after@.map_values(|e: &SessionMessageEntry| *e);
    assert(a.len() == before@.len() && b.len() == after@.len());
    assert(a == old(s).echoes_of(chat@));
    assert(b == final(s).echoes_of(chat@));
    entry_there(a, entry.id@);
    assert forall|i: int| 0 <= i < before@.len() implies a[i] == *(#[trigger] before@[i]) by {}
    assert forall|i: int| 0 <= i < after@.len() implies b[i] == *(#[trigger] after@[i]) by {}
    if holds(a, entry.id@) {
        let i = choose|i: int| 0 <= i < a.len() && (#[trigger] a[i]).id@ == entry.id@;
        assert(before@[i].id@ == entry.id@);
    } else {
        assert forall|i: int| 0 <= i < before@.len() implies (#[trigger] before@[i]).id@
            != entry.id@ by {
            assert(a[i] == *before@[i]);
        }
        assert(b[before@.len() as int] == entry);
    }
}

/// A transcript takes those messages off the pending ones that it holds, and a
/// failure the one that failed; the others stay.
pub proof fn confirmed_echoes_go(
    a: &mut AppState,
    entries: Vec<SessionMessageEntry>,
    clock: u64,
    b: &mut AppState,
    chat: &str,
    failed: &str,
    e: SessionMessageEntry,
)
    requires
        opt(old(a).selected_chat) == Some(chat@),
        call_ensures(AppState::apply_transcript, (a, entries, clock), ()),
        call_ensures(AppState::remove_echo, (b, chat, failed), ()),
    ensures
        final(a).transcript == entries,
        final(a).echoes_of(chat@).contains(e) <==> old(a).echoes_of(chat@).contains(e) && !holds(
            entries@,
            e.id@,
        ),
        final(b).echoes_of(chat@).contains(e) <==> old(b).echoes_of(chat@).contains(e) && e.id@
            != failed@,
        forall|other: Seq<char>|
            other != chat@ ==> #[trigger] final(a).echoes_of(other) == old(a).echoes_of(other),
        forall|other: Seq<char>|
            other != chat@ ==> #[trigger] final(b).echoes_of(other) == old(b).echoes_of(other),
{
    let had = old(a).echoes_of(chat@);
    let p = |x: SessionMessageEntry| !has_entry(entries@, x.id@);
    kept_members(had, p);
    entry_there(entries@, e.id@);
    let q = |x: SessionMessageEntry| x.id@ != failed@;
    kept_members(old(b).echoes_of(chat@), q);
    assert(had.contains(e) == had.contains(e));
    assert(old(b).echoes_of(chat@).contains(e) == old(b).echoes_of(chat@).contains(e));
    if old(a).echo_map().contains_key(chat@) {
        assert(final(a).echoes_of(chat@) == kept(had, p));
        assert(kept(had, p).contains(e) == (had.contains(e) && p(e)));
    }
    if old(b).echo_map().contains_key(chat@) {
        assert(final(b).echoes_of(chat@) == kept(old(b).echoes_of(chat@), q));
        assert(kept(old(b).echoes_of(chat@), q).contains(e) == (old(b).echoes_of(chat@).contains(e)
            && q(e)));
    }
}

/// The speed is a quarter of the characters by the time that they took; there is
/// none before anything was written, nor within a sixtieth of a second.
pub proof fn a_token_is_four_characters(chars: u64, elapsed: u64, r: Option<TokenRate>)
    requires
        call_ensures(live_tokens_per_sec, (chars, elapsed), r),
    ensures
        r is Some <==> chars > 0 && elapsed >= 16_667,
        r matches Some(t) ==> t.seconds > 0 && t.tokens * (4 * elapsed) == t.seconds * (chars
            * 1_000_000),
{
    if r is Some {
        let c = chars as int;
        let e = elapsed as int;
        assert(c * 1_000_000 <= 18_446_744_073_709_551_615 * 1_000_000);
        assert(r->0.tokens == c * 1_000_000);
        assert(r->0.seconds == 4 * e);
        assert((c * 1_000_000) * (4 * e) == (4 * e) * (c * 1_000_000)) by (nonlinear_arith);
    }
}

proof fn one_more_entry(entries: Seq<SessionMessageEntry>, e: SessionMessageEntry)
    ensures
        e.role is User ==> turn_chars(entries.push(e)) == 0,
        e.role is System ==> turn_chars(entries.push(e)) == turn_chars(entries),
        e.role is Assistant ==> turn_chars(entries.push(e)) == turn_chars(entries) + parts_chars(
            e.parts@,
        ),
{
    let now = entries.push(e);
    assert(now.drop_last() =~= entries);
    turn_start_bounds(entries);
    let from = turn_start(entries);
    if e.role is User {
        assert(now.subrange(now.len() as int, now.len() as int) =~= Seq::<
            SessionMessageEntry,
        >::empty());
    } else {
        let a = now.subrange(from, now.len() as int);
        let b = entries.subrange(from, entries.len() as int);
        assert(a.drop_last() =~= b);
        assert(a.last() == e);
    }
}

proof fn turn_start_bounds(entries: Seq<SessionMessageEntry>)
    ensures
        0 <= turn_start(entries) <= entries.len(),
    decreases entries.len(),
{
    if entries.len() > 0 {
        turn_start_bounds(entries.drop_last());
    }
}

/// What the assistant writes counts from the last message of the user on: its
/// text and the calls that it makes, and nothing that others write.
pub proof fn only_the_assistant_s_turn_counts(
    a: &AppState,
    b: &AppState,
    e: SessionMessageEntry,
    n: u64,
    m: u64,
)
    requires
        call_ensures(AppState::current_turn_streamed, (a,), n),
        call_ensures(AppState::current_turn_streamed, (b,), m),
        b.transcript@ == a.transcript@.push(e),
    ensures
        e.role is User ==> m == 0,
        e.role is System ==> m == n,
        e.role is Assistant && e.parts@.len() == 0 ==> m == n,
        e.role is Assistant && e.parts@.len() == 1 && e.parts@[0] is Text ==> m == n
            + e.parts@[0]->text@.len(),
        e.role is Assistant && e.parts@.len() == 1 && e.parts@[0] is Tool ==> m == n
            + e.parts@[0]->call_json@.len(),
        e.role is Assistant && e.parts@.len() == 1 && e.parts@[0] is Other ==> m == n,
{
    one_more_entry(a.transcript@, e);
    if e.parts@.len() == 1 {
        assert(e.parts@.drop_last() =~= Seq::<MessagePart>::empty());
        assert(parts_chars(e.parts@.drop_last()) == 0);
        assert(e.parts@.last() == e.parts@[0]);
    }
}

proof fn kept_in_order<T>(s: Seq<T>, p: spec_fn(T) -> bool, i: int, j: int) -> (r: (int, int))
    requires
        0 <= i < j < kept(s, p).len(),
    ensures
        0 <= r.0 < r.1 < s.len(),
        s[r.0] == kept(s, p)[i],
        s[r.1] == kept(s, p)[j],
    decreases s.len(),
{
    let rest = s.drop_last();
    let had = kept(rest, p);
    if j < had.len() {
        kept_in_order(rest, p, i, j)
    } else {
        kept_members(rest, p);
        assert(had.contains(had[i]));
        let a = choose|a: int| 0 <= a < rest.len() && rest[a] == had[i];
        (a, s.len() - 1)
    }
}

/// The chats in the list are those that are not archived, in the order that they
/// have.
pub proof fn archived_chats_are_not_shown(s: &AppState, r: Vec<&Chat>, c: Chat, i: int, j: int)
    requires
        call_ensures(AppState::visible_chats, (s,), r),
    ensures
        deref(r@).contains(c) <==> s.chats@.contains(c) && !c.archived,
        0 <= i < j < r@.len() ==> exists|a: int, b: int|
            0 <= a < b < s.chats@.len() && #[trigger] s.chats@[a] == *r@[i] && #[trigger] s.chats@[b]
                == *r@[j],
{
    let p = |c: Chat| !c.archived;
    kept_members(s.chats@, p);
    assert(deref(r@) == kept(s.chats@, p));
    assert(kept(s.chats@, p).contains(c) == (s.chats@.contains(c) && p(c)));
    if 0 <= i < j < r@.len() {
        assert(deref(r@)[i] == *r@[i] && deref(r@)[j] == *r@[j]);
        assert(deref(r@).len() == r@.len());
        let (a, b) = kept_in_order(s.chats@, p, i, j);
        assert(s.chats@[a] == *r@[i] && s.chats@[b] == *r@[j]);
    }
}

/// The tabs of a project are its chats that are not archived, the oldest first.
pub proof fn a_project_has_its_chats(s: &AppState, project: &str, r: Vec<&Chat>, c: Chat)
    requires
        call_ensures(AppState::chats_in_project, (s, project), r),
    ensures
        deref(r@).contains(c) <==> s.chats@.contains(c) && !c.archived && opt(c.project_id) == Some(
            project@,
        ),
        forall|i: int, j: int|
            0 <= i < j < r@.len() ==> (#[trigger] r@[i]).created_at <= (#[trigger] r@[j]).created_at,
{
    let p = |c: Chat| !c.archived && c.in_project(project@);
    let key = |c: Chat| crate::proto::tab_key(&c);
    let all = kept(s.chats@, p);
    kept_members(s.chats@, p);
    ordered_members(all, key);
    ordered_is_in_order(all, key);
    let d = deref(r@);
    assert(d == ordered(all, key));
    assert(all.contains(c) == (s.chats@.contains(c) && p(c)));
    assert(ordered(all, key).contains(c) <==> all.contains(c));
    assert forall|i: int, j: int| 0 <= i < j < r@.len() implies (#[trigger] r@[i]).created_at <= (
    #[trigger] r@[j]).created_at by {
        assert(d[i] == *r@[i] && d[j] == *r@[j]);
        assert(crate::order::rank_le(key(d[i]), key(d[j])));
    }
}

/// The sessions list the chats that are not archived and whose project is there,
/// each with its own status, the latest first.
pub proof fn the_overview_lists_live_projects(
    s: &AppState,
    now: i64,
    r: Vec<(ChatIndicator, &Chat)>,
    k: int,
    status: ChatIndicator,
    c: Chat,
)
    requires
        call_ensures(AppState::overview_chats, (s, now), r),
        0 <= k < r@.len(),
        call_ensures(AppState::display_status_for, (s, r@[k].1, now), status),
    ensures
        r@[k].0 == status,
        s.chats@.contains(*r@[k].1),
        !r@[k].1.archived && r@[k].1.project_id is Some && has_project(
            s.projects@,
            r@[k].1.project_id->0@,
        ),
        forall|i: int, j: int|
            0 <= i < j < r@.len() ==> active_at(*(#[trigger] r@[i]).1) >= active_at(
                *(#[trigger] r@[j]).1,
            ),
        s.chats@.contains(c) && !c.archived && c.project_id is Some && has_project(
            s.projects@,
            c.project_id->0@,
        ) ==> exists|i: int| 0 <= i < r@.len() && *(#[trigger] r@[i]).1 == c,
{
    let f = |c: Chat| (crate::proto::status_of(c, s.session_of(c.id@), now as int), c);
    let key = |x: (ChatIndicator, Chat)| chat_key(x.1);
    let p = |c: Chat|
        !c.archived && c.project_id is Some && crate::state::project_ix(
            s.projects@,
            c.project_id->0@,
        ) < s.projects@.len();
    let members = s.overview_members();
    assert(members == kept(s.chats@, p));
    let rows = members.map_values(f);
    let all = s.overview(now as int);
    let views = r@.map_values(|x: (ChatIndicator, &Chat)| (x.0, *x.1));
    assert(all == ordered(rows, key));
    assert(views == all);
    assert(views.len() == r@.len());
    assert forall|i: int| 0 <= i < r@.len() implies views[i] == ((#[trigger] r@[i]).0, *r@[i].1) by {}
    kept_members(s.chats@, p);
    ordered_members(rows, key);
    ordered_is_in_order(rows, key);
    assert(all.contains(all[k]));
    assert(rows.contains(all[k]));
    let m = choose|m: int| 0 <= m < rows.len() && rows[m] == all[k];
    assert(rows[m] == f(members[m]));
    assert(members.contains(members[m]));
    project_there(s.projects@, r@[k].1.project_id->0@);
    assert forall|i: int, j: int| 0 <= i < j < r@.len() implies active_at(*(#[trigger] r@[i]).1)
        >= active_at(*(#[trigger] r@[j]).1) by {
        assert(crate::order::rank_le(key(all[i]), key(all[j])));
        assert(views[i] == (r@[i].0, *r@[i].1) && views[j] == (r@[j].0, *r@[j].1));
    }
    if s.chats@.contains(c) && !c.archived && c.project_id is Some && has_project(
        s.projects@,
        c.project_id->0@,
    ) {
        project_there(s.projects@, c.project_id->0@);
        assert(p(c));
        assert(members.contains(c));
        let n = choose|n: int| 0 <= n < members.len() && members[n] == c;
        assert(rows[n] == f(c));
        assert(rows.contains(rows[n]));
        assert(all.contains(f(c)));
        let i = choose|i: int| 0 <= i < all.len() && all[i] == f(c);
        assert(views[i] == (r@[i].0, *r@[i].1));
    }
}

/// What is looked up by its id has that id, and nothing is found only where
/// nothing has it.
pub proof fn rows_are_found_by_their_ids(
    s: &AppState,
    project: &str,
    device: &str,
    chat: &str,
    row: Option<&Project>,
    name: Option<&str>,
    session: Option<&Session>,
)
    requires
        call_ensures(AppState::project_row, (s, project), row),
        call_ensures(AppState::device_name, (s, device), name),
        call_ensures(AppState::session_for, (s, chat), session),
    ensures
        row is Some <==> has_project(s.projects@, project@),
        row matches Some(p) ==> p.id@ == project@ && s.projects@.contains(*p),
        name is Some <==> has_device(s.devices@, device@),
        name matches Some(n) ==> exists|i: int|
            0 <= i < s.devices@.len() && (#[trigger] s.devices@[i]).id@ == device@
                && s.devices@[i].name@ == n@,
        session matches Some(x) ==> x.chat_id@ == chat@ && s.sessions@.contains(*x),
        session is None ==> forall|i: int|
            0 <= i < s.sessions@.len() ==> (#[trigger] s.sessions@[i]).chat_id@ != chat@,
{
    project_there(s.projects@, project@);
    device_there(s.devices@, device@);
    let q = session_named(chat@);
    first_at_props(s.sessions@, q, 0);
    let k = crate::state::session_ix(s.sessions@, chat@);
    if session is Some {
        assert(s.sessions@.contains(s.sessions@[k]));
        assert(q(s.sessions@[k]));
    } else {
        assert forall|i: int| 0 <= i < s.sessions@.len() implies (#[trigger] s.sessions@[i]).chat_id@
            != chat@ by {
            assert(!q(s.sessions@[i]));
        }
    }
    if name is Some {
        let i = device_ix(s.devices@, device@);
        assert(s.devices@[i].id@ == device@);
    }
}

/// What is selected is found by its id: the chat, its project, and the
/// collaboration of the chat.
pub proof fn the_selection_is_found(
    s: &AppState,
    chat: Option<&Chat>,
    project: Option<&Project>,
    room: Option<&CollaborationSession>,
    git: bool,
)
    requires
        call_ensures(AppState::selected_chat_row, (s,), chat),
        call_ensures(AppState::selected_project_row, (s,), project),
        call_ensures(AppState::selected_collaboration, (s,), room),
        call_ensures(AppState::selected_project_git, (s,), git),
    ensures
        chat is Some <==> s.selected_chat is Some && has_chat(s.chats@, s.selected_chat->0@),
        chat matches Some(c) ==> c.id@ == s.selected_chat->0@ && s.chats@.contains(*c),
        project is Some <==> s.selected_project is Some && has_project(
            s.projects@,
            s.selected_project->0@,
        ),
        project matches Some(p) ==> p.id@ == s.selected_project->0@ && s.projects@.contains(*p),
        room matches Some(x) ==> s.selected_chat is Some && x.chat_id@ == s.selected_chat->0@
            && s.collaborations@.contains(*x),
        git <==> project is Some && project->0.git_detected,
{
    if let Some(id) = &s.selected_chat {
        chat_there(s.chats@, id@);
        let q = crate::state::collaboration_named(id@);
        first_at_props(s.collaborations@, q, 0);
        if room is Some {
            let k = first_at(s.collaborations@, q, 0);
            assert(q(s.collaborations@[k]));
            assert(s.collaborations@.contains(s.collaborations@[k]));
        }
    }
    if let Some(id) = &s.selected_project {
        project_there(s.projects@, id@);
    }
}

/// This device is online, and so is one that nobody knows; another is when it was
/// seen of late.
pub proof fn this_device_is_online(s: &AppState, device: &str, recent: bool, r: bool)
    requires
        call_ensures(AppState::device_online, (s, device, recent), r),
    ensures
        opt(s.local_device_id) == Some(device@) ==> r,
        !has_device(s.devices@, device@) ==> r,
        opt(s.local_device_id) != Some(device@) && has_device(s.devices@, device@) ==> r == recent,
{
    device_there(s.devices@, device@);
}

/// The engine's device goes by its `id`, or else by its `deviceId`; what is no
/// text is no id, and the one that is known stays.
pub proof fn the_engine_names_its_device(
    s: &mut AppState,
    id: Option<Value>,
    device: Option<Value>,
    r: Option<String>,
)
    requires
        call_ensures(AppState::on_local_device, (s, id, device), ()),
        call_ensures(reported_device, (id, device), r),
    ensures
        id matches Some(v) ==> (r is Some <==> v is Text),
        id is None ==> (r is Some <==> device is Some && device->0 is Text),
        id is Some && id->0 is Text ==> r == Some(id->0->Text_0),
        id is None && device is Some && device->0 is Text ==> r == Some(device->0->Text_0),
        r is Some ==> final(s).local_device_id == r,
        r is None ==> *final(s) == *old(s),
{
}

/// Looking at a chat with news stamps it, tells the engine and draws again; a
/// chat without news is left alone.
pub proof fn a_look_is_told(s: &mut AppState, chat: &str, now: i64, out: Vec<Effect>, i: int)
    requires
        call_ensures(AppState::mark_chat_seen_at, (s, chat, now), out),
        crate::laws::selection::is_first(old(s).chats@, chat@, i),
    ensures
        final(s).chats@.len() == old(s).chats@.len(),
        has_news(old(s).chats@[i]) ==> final(s).chats@[i].last_seen_at == Some(now) && asks_redraw(
            out@,
        ) && (old(s).engine is Some ==> asks_seen(out@, chat@)),
        has_news(old(s).chats@[i]) && old(s).engine is None ==> forall|k: int|
            0 <= k < out@.len() ==> (#[trigger] out@[k]) is Notify,
        !has_news(old(s).chats@[i]) ==> out@.len() == 0 && final(s).chats@ == old(s).chats@,
        forall|j: int|
            0 <= j < final(s).chats@.len() && j != i ==> #[trigger] final(s).chats@[j] == old(s).chats@[j],
        final(s).selected_chat == old(s).selected_chat,
{
    names_differ();
    let p = chat_named(chat@);
    assert forall|j: int| 0 <= j < i implies !p(#[trigger] old(s).chats@[j]) by {
        assert(old(s).chats@[j].id@ != chat@);
    }
    assert(p(old(s).chats@[i]));
    first_at_is(old(s).chats@, p, i);
    assert(effects(out@).len() == out@.len());
    assert forall|k: int| 0 <= k < out@.len() implies effects(out@)[k] == (#[trigger] out@[k])@ by {}
    if has_news(old(s).chats@[i]) {
        assert(effects(out@)[0] == out@[0]@);
        assert(out@[0] is Notify);
        if old(s).engine is Some {
            assert(effects(out@)[1] == out@[1]@);
            assert(out@[1] is Call);
        }
    }
}

/// A boot that begins is shown as connecting and keeps its directory; one that
/// failed says why.
pub proof fn a_boot_is_shown(
    a: &mut AppState,
    config: &EngineBootConfig,
    b: &mut AppState,
    message: String,
    c: &AppState,
    polls: u32,
    waits: bool,
)
    requires
        call_ensures(AppState::begin_boot, (a, config), ()),
        call_ensures(AppState::boot_failed, (b, message), ()),
        call_ensures(AppState::restore_waits, (c, polls), waits),
    ensures
        final(a).connection is Connecting && final(a).data_dir == Some(config.data_dir),
        final(b).connection == ConnectionStatus::Failed(message),
        waits <==> polls < 50 && c.chats@.len() == 0 && c.selected_chat is None,
        final(a).chats == old(a).chats && final(b).chats == old(b).chats,
{
}

/// The speed that is shown is that of the running turn, since it began.
pub proof fn the_speed_is_that_of_the_turn(
    s: &AppState,
    now: u64,
    r: Option<TokenRate>,
    n: u64,
    elapsed: u64,
    free: Option<TokenRate>,
)
    requires
        call_ensures(AppState::current_turn_streamed, (s,), n),
        call_ensures(AppState::live_tokens_per_sec, (s, now), r),
        call_ensures(live_tokens_per_sec, (n, elapsed), free),
        s.working_since is Some ==> now >= s.working_since->0 && elapsed == now
            - s.working_since->0,
    ensures
        s.working_since is None ==> r is None,
        s.working_since is Some ==> r == free,
{
}

proof fn merging_keeps_the_rest(workspace: Seq<Device>, peer: Device, i: int)
    requires
        0 <= i < workspace.len(),
        workspace[i].id@ == peer.id@,
        forall|j: int| 0 <= j < i ==> (#[trigger] workspace[j]).id@ != peer.id@,
    ensures
        merged(workspace, seq![peer]).len() == workspace.len(),
        merged(workspace, seq![peer])[i] == (Device {
            name: peer.name,
            platform: peer.platform,
            last_seen_at: if peer.last_seen_at is Some {
                peer.last_seen_at
            } else {
                workspace[i].last_seen_at
            },
            ..workspace[i]
        }),
{
    let peers = seq![peer];
    assert(peers.drop_last() =~= Seq::<Device>::empty());
    assert(merged(workspace, peers.drop_last()) == workspace);
    assert(peers.last() == peer);
    let p = device_named(peer.id@);
    assert forall|j: int| 0 <= j < i implies !p(#[trigger] workspace[j]) by {
        assert(workspace[j].id@ != peer.id@);
    }
    assert(p(workspace[i]));
    first_at_is(workspace, p, i);
}

/// A device of the workspace that is a peer, too, keeps what the peer does not
/// tell: when it was last seen, unless the peer was since, when it was made, and
/// its version.
pub proof fn a_peer_tells_what_it_knows(
    s: &mut AppState,
    nova: Vec<Device>,
    i: int,
)
    requires
        call_ensures(AppState::apply_nova_devices, (s, nova), ()),
        nova@.len() == 1,
        0 <= i < old(s).workspace_devices@.len(),
        old(s).workspace_devices@[i].id@ == nova@[0].id@,
        forall|j: int|
            0 <= j < i ==> (#[trigger] old(s).workspace_devices@[j]).id@ != nova@[0].id@,
    ensures
        exists|k: int|
            0 <= k < final(s).devices@.len() && ({
                let d = #[trigger] final(s).devices@[k];
                let w = old(s).workspace_devices@[i];
                &&& d.id == w.id && d.name == nova@[0].name && d.platform == nova@[0].platform
                &&& d.created_at == w.created_at && d.version == w.version
                &&& nova@[0].last_seen_at is Some ==> d.last_seen_at == nova@[0].last_seen_at
                &&& nova@[0].last_seen_at is None ==> d.last_seen_at == w.last_seen_at
            }),
{
    let w = old(s).workspace_devices@;
    let peer = nova@[0];
    assert(nova@ =~= seq![peer]);
    merging_keeps_the_rest(w, peer, i);
    let all = merged(w, nova@);
    ordered_members(all, by_device_id());
    assert(all.contains(all[i]));
    assert(final(s).devices@.contains(all[i]));
    let k = choose|k: int| 0 <= k < final(s).devices@.len() && final(s).devices@[k] == all[i];
    assert(final(s).devices@[k] == all[i]);
}

/// A peer's row dates from its pairing; when it was last seen is not known.
pub proof fn a_peer_dates_from_its_pairing(peers: &Vec<PeerView>, rows: Vec<Device>, k: int)
    requires
        call_ensures(crate::state::devices_from_peers, (peers,), rows),
        0 <= k < rows@.len(),
    ensures
        rows@[k].last_seen_at is None,
        exists|j: int|
            0 <= j < peers@.len() && !peers@[j].revoked && rows@[k].id == (
            #[trigger] peers@[j]).device_id && rows@[k].created_at == Some(peers@[j].paired_at)
                && rows@[k].name == peers@[j].name && rows@[k].platform == peers@[j].platform,
{
    let p = |x: PeerView| !x.revoked;
    let all = kept(peers@, p);
    kept_members(peers@, p);
    assert(rows@[k] == crate::state::peer_device(all[k]));
    assert(all.contains(all[k]));
    assert(peers@.contains(all[k]));
    let j = choose|j: int| 0 <= j < peers@.len() && peers@[j] == all[k];
    assert(p(all[k]));
    assert(rows@[k].id == peers@[j].device_id);
}

/// A refresh asks who this engine is and who its peers are; what comes of it is
/// shown, and the peers become devices.
pub proof fn a_refresh_asks_and_shows(
    page: &NovaPage,
    state: &AppState,
    r: Option<(Request, Request)>,
    p: &mut NovaPage,
    s: &mut AppState,
    local: Option<LocalDevice>,
    peers: Option<Vec<PeerView>>,
)
    requires
        call_ensures(NovaPage::refresh, (page, state), r),
        call_ensures(NovaPage::on_refreshed, (p, s, local, peers), ()),
    ensures
        r is Some <==> state.engine is Some,
        r matches Some((a, b)) ==> a@.method == Method::NovaLocalDevice && b@.method
            == Method::NovaListPeers,
        final(p).local == local,
        peers matches Some(v) ==> final(p).peers == v && forall|i: int|
            0 <= i < v@.len() && !v@[i].revoked ==> has_device(
                final(s).devices@,
                (#[trigger] v@[i]).device_id@,
            ),
        peers is None ==> final(p).peers == old(p).peers && *final(s) == *old(s),
        final(p).busy == old(p).busy,
{
    if let Some(v) = peers {
        let rows = crate::state::peer_devices(v@);
        let q = |x: PeerView| !x.revoked;
        let all = kept(v@, q);
        kept_members(v@, q);
        ordering_works_in(old(s).workspace_devices@, rows);
        assert forall|i: int| 0 <= i < v@.len() && !v@[i].revoked implies has_device(
            final(s).devices@,
            (#[trigger] v@[i]).device_id@,
        ) by {
            assert(q(v@[i]));
            assert(v@.contains(v@[i]));
            assert(all.contains(v@[i]));
            let k = choose|k: int| 0 <= k < all.len() && all[k] == v@[i];
            assert(rows[k].id@ == v@[i].device_id@);
            assert(has_device(rows, v@[i].device_id@));
        }
    }
}

/// What the engine reports is kept as it came.
pub proof fn reports_are_kept(
    a: &mut AppState,
    rooms: Vec<CollaborationSession>,
    b: &mut AppState,
    update: String,
    c: &mut AppState,
    on: bool,
)
    requires
        call_ensures(AppState::apply_collaborations, (a, rooms), ()),
        call_ensures(AppState::apply_update, (b, update), ()),
        call_ensures(AppState::set_hotreload, (c, on), ()),
    ensures
        final(a).collaborations == rooms && final(a).sessions == old(a).sessions,
        final(b).update == Some(update) && final(b).chats == old(b).chats,
        final(c).hotreload == on && final(c).hotreload_env == old(c).hotreload_env,
{
}

/// Selecting a project selects it, tells whether it is another, and leaves the
/// chat to the caller.
pub proof fn a_project_is_selected(s: &mut AppState, project: Option<String>, changed: bool)
    requires
        call_ensures(AppState::select_project, (s, project), changed),
    ensures
        opt(final(s).selected_project) == opt(project),
        changed <==> opt(old(s).selected_project) != opt(project),
        final(s).selected_chat == old(s).selected_chat && final(s).chats == old(s).chats
            && final(s).transcript == old(s).transcript,
{
}

/// At the time of day, a chat is looked at and selected as at any other time.
pub proof fn the_time_of_day_makes_no_difference(
    a: &mut AppState,
    chat: &str,
    seen: Vec<Effect>,
    b: &mut AppState,
    id: String,
    out: Vec<Effect>,
    i: int,
)
    requires
        call_ensures(AppState::mark_chat_seen, (a, chat), seen),
        crate::laws::selection::is_first(old(a).chats@, chat@, i),
        call_ensures(AppState::select_chat, (b, Some(id)), out),
    ensures
        has_news(old(a).chats@[i]) && old(a).engine is Some ==> asks_seen(seen@, chat@),
        has_news(old(a).chats@[i]) ==> final(a).chats@[i].last_seen_at is Some,
        !has_news(old(a).chats@[i]) ==> seen@.len() == 0 && final(a).chats@ == old(a).chats@,
        opt(final(b).selected_chat) == Some(id@),
        opt(old(b).selected_chat) != Some(id@) && old(b).engine is Some
            ==> crate::laws::selection::asks_transcript(out@, id@),
{
    names_differ();
    let p = chat_named(chat@);
    assert forall|j: int| 0 <= j < i implies !p(#[trigger] old(a).chats@[j]) by {
        assert(old(a).chats@[j].id@ != chat@);
    }
    assert(p(old(a).chats@[i]));
    first_at_is(old(a).chats@, p, i);
    assert(effects(seen@).len() == seen@.len());
    if has_news(old(a).chats@[i]) && old(a).engine is Some {
        assert(effects(seen@)[1] == seen@[1]@);
        assert(seen@[1] is Call);
    }
    if opt(old(b).selected_chat) != Some(id@) && old(b).engine is Some {
        let n = crate::state::seen_effects(old(b).chats@, id@, true).len() as int;
        assert(effects(out@)[n] == crate::state::EffectView::WatchTranscript(id@));
        assert(effects(out@)[n] == out@[n]@);
        assert(out@[n] is WatchTranscript);
    }
}

/// What is read of the state is what it holds: the engine, how far the connection
/// is, and when a device was last seen.
pub proof fn the_state_is_read(
    s: &AppState,
    e: Option<&EngineHandle>,
    g: GatePhase,
    device: &str,
    seen: Option<Option<i64>>,
)
    requires
        call_ensures(AppState::engine, (s,), e),
        call_ensures(AppState::gate, (s,), g),
        call_ensures(AppState::device_last_seen, (s, device), seen),
    ensures
        e is Some <==> s.engine is Some,
        e matches Some(h) ==> s.engine == Some(*h),
        g is Ready <==> s.connection is Ready,
        g is Loading <==> s.connection is Connecting,
        s.connection matches ConnectionStatus::Failed(m) ==> g == GatePhase::Failed(m),
        seen is Some <==> has_device(s.devices@, device@),
        seen matches Some(t) ==> exists|i: int|
            0 <= i < s.devices@.len() && (#[trigger] s.devices@[i]).id@ == device@
                && s.devices@[i].last_seen_at == t,
{
    device_there(s.devices@, device@);
    if seen is Some {
        let i = device_ix(s.devices@, device@);
        assert(s.devices@[i].id@ == device@);
    }
}

/// A new state knows nothing, and is connecting.
pub proof fn a_new_state_knows_nothing(s: AppState)
    requires
        call_ensures(AppState::new, (), s),
    ensures
        s.connection is Connecting && s.engine is None,
        s.chats@.len() == 0 && s.projects@.len() == 0 && s.devices@.len() == 0 && s.sessions@.len()
            == 0,
        s.selected_chat is None && s.selected_project is None && s.transcript@.len() == 0,
        !s.auto_selected && !s.boot_selected && !s.restore_looked && s.transcript_watch is None,
{
}

}
