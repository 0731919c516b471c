//! What the settings pages ask for, of whom, and what they say of it.
use vstd::prelude::*;

use crate::laws::calls::{goes_to, names_differ, says_int, says_text, says_value};
use crate::proto::PeerView;
use crate::seqs::{first_at_is, kept_members};
use crate::settings::developer::{DeveloperEvent, DeveloperPage};
use crate::settings::nova::{
    found_row, ranges_of, scan_ranges, FoundPeer, FoundRow, NovaCall, NovaFrame, NovaPage,
    ScanEvent,
};
use crate::settings::pi::{
    decode_snapshot, PiOpenAiCompatible, PiSection, next_transport, next_trust, selected_row,
    PackageAction, PiCall, PiDialog, PiSettingsPage, PiSettingsScope, PiSettingsSnapshot,
};
use crate::shell::projects::Loadable;
use crate::state::{project_named, AppState};
use crate::text::{lines_of, trimmed};
use crate::wire::{opt, texts, Call, Method, Request, Value, ValueView};

verus! {

/// Whether a call says nothing but a device.
pub open spec fn names_device(c: Call, method: Method, device: Seq<char>) -> bool {
    &&& c.method == method
    &&& says_text(c, "deviceId"@, device)
    &&& forall|k: Seq<char>| #[trigger] c.params.contains_key(k) ==> k == "deviceId"@
}

/// Whether a call is under way on a page that has nothing else new: what was
/// typed, found and paired stays.
pub open spec fn waits(before: NovaPage, after: NovaPage) -> bool {
    &&& after.busy && after.error is None && after.status is None
    &&& after.endpoint == before.endpoint && after.code == before.code && after.ranges
        == before.ranges
    &&& after.peers == before.peers && after.local == before.local && after.pairing_code
        == before.pairing_code
}

/// Testing, revoking and forgetting a peer are about that peer, and are three
/// different things.
pub proof fn a_peer_is_tested_revoked_or_forgotten(
    a: &mut NovaPage,
    b: &mut NovaPage,
    c: &mut NovaPage,
    state: &AppState,
    device: &str,
    tested: Option<NovaCall>,
    revoked: Option<NovaCall>,
    forgotten: Option<NovaCall>,
)
    requires
        call_ensures(NovaPage::test_peer, (a, state, device), tested),
        call_ensures(NovaPage::revoke, (b, state, device), revoked),
        call_ensures(NovaPage::forget, (c, state, device), forgotten),
    ensures
        state.engine is None ==> tested is None && revoked is None && forgotten is None && *final(a)
            == *old(a) && *final(b) == *old(b) && *final(c) == *old(c),
        state.engine is Some ==> {
            &&& tested is Some && names_device(
                tested->0.request@,
                Method::NovaTestPeer,
                device@,
            ) && tested->0.success@ == "direct connection verified"@
            &&& revoked is Some && names_device(
                revoked->0.request@,
                Method::NovaRevokePeer,
                device@,
            ) && revoked->0.success@ == "device revoked"@
            &&& forgotten is Some && names_device(
                forgotten->0.request@,
                Method::NovaForgetPeer,
                device@,
            ) && forgotten->0.success@ == "device forgotten"@
            &&& waits(*old(a), *final(a)) && waits(*old(b), *final(b)) && waits(
                *old(c),
                *final(c),
            )
        },
{
}

/// Pairing hands over the ticket and the code that were typed, without the space
/// around them; without a ticket or with a code that is not six digits it asks
/// for both.
pub proof fn pairing_hands_over_ticket_and_code(
    p: &mut NovaPage,
    state: &AppState,
    r: Option<NovaCall>,
)
    requires
        call_ensures(NovaPage::pair, (p, state), r),
    ensures
        ({
            let endpoint = trimmed(old(p).endpoint@);
            let code = trimmed(old(p).code@);
            let ok = endpoint.len() > 0 && code.len() == 6 && (forall|i: int|
                0 <= i < 6 ==> '0' <= (#[trigger] code[i]) <= '9');
            &&& r is Some <==> ok && state.engine is Some
            &&& r matches Some(c) ==> c.request@.method == Method::NovaPairPeer && says_text(
                c.request@,
                "endpoint"@,
                endpoint,
            ) && says_text(c.request@, "code"@, code) && waits(*old(p), *final(p))
            &&& !ok ==> final(p).error is Some && final(p).busy == old(p).busy
                && final(p).endpoint == old(p).endpoint && final(p).code == old(p).code
        }),
{
    names_differ();
}

/// A code is asked for without more ado; what comes back is shown, and nothing
/// is refreshed for it.
pub proof fn a_pairing_code_is_shown(
    a: &mut NovaPage,
    state: &AppState,
    r: Option<NovaCall>,
    b: &mut NovaPage,
    success: &'static str,
    code: Option<String>,
    again: bool,
)
    requires
        call_ensures(NovaPage::begin_pairing, (a, state), r),
        call_ensures(
            NovaPage::on_reply,
            (b, Method::NovaBeginPairing, success, Ok::<Option<String>, String>(code)),
            again,
        ),
    ensures
        r is Some <==> state.engine is Some,
        r matches Some(c) ==> c.request@.method == Method::NovaBeginPairing
            && c.request@.params.dom() == Set::<Seq<char>>::empty(),
        final(b).pairing_code == code && !final(b).busy && !again,
        final(b).peers == old(b).peers && final(b).code == old(b).code && final(b).status == old(b).status,
{
    if r is Some {
        assert(r->0.request@.params.dom() =~= Set::<Seq<char>>::empty());
    }
}

/// A call that went well says so and has the page refreshed; one that did not
/// says what did not and why. Pairing uses the typed code up.
pub proof fn replies_are_reported(
    a: &mut NovaPage,
    b: &mut NovaPage,
    method: Method,
    success: &'static str,
    code: Option<String>,
    error: String,
    good: bool,
    bad: bool,
)
    requires
        method != Method::NovaBeginPairing,
        call_ensures(
            NovaPage::on_reply,
            (a, method, success, Ok::<Option<String>, String>(code)),
            good,
        ),
        call_ensures(
            NovaPage::on_reply,
            (b, method, success, Err::<Option<String>, String>(error)),
            bad,
        ),
    ensures
        good && !bad,
        opt(final(a).status) == Some(success@),
        !final(a).busy && !final(b).busy,
        final(a).error == old(a).error,
        method == Method::NovaPairPeer ==> final(a).code@.len() == 0,
        method != Method::NovaPairPeer ==> final(a).code == old(a).code,
        opt(final(b).error) == Some(success@ + " failed: "@ + error@),
        final(b).status == old(b).status && final(b).code == old(b).code,
        final(a).pairing_code == old(a).pairing_code && final(b).pairing_code == old(b).pairing_code,
{
}

/// A scan asks about every range that was typed, one to a line, blank lines
/// aside, at the port of this engine; what an earlier one found goes.
pub proof fn a_scan_covers_the_ranges(p: &mut NovaPage, state: &AppState, r: Option<Request>)
    requires
        call_ensures(NovaPage::run_scan, (p, state), r),
    ensures
        ({
            let typed = lines_of(old(p).ranges@);
            let some = exists|i: int| 0 <= i < typed.len() && trimmed(#[trigger] typed[i]).len() > 0;
            &&& r is Some <==> some && state.engine is Some
            &&& !some ==> final(p).error is Some && final(p).found == old(p).found && final(p).busy
                == old(p).busy
            &&& r matches Some(q) ==> {
                &&& q@.method == Method::NovaScan
                &&& old(p).local matches Some(l) ==> says_int(q@, "port"@, l.port as int)
                &&& old(p).local is None ==> says_int(q@, "port"@, 27655)
                &&& q@.params.contains_key("ranges"@) && q@.params["ranges"@] is List
                &&& forall|i: int|
                    0 <= i < typed.len() && trimmed(#[trigger] typed[i]).len() > 0
                        ==> q@.params["ranges"@]->List_0.contains(trimmed(typed[i]))
                &&& forall|s: Seq<char>| #[trigger]
                    q@.params["ranges"@]->List_0.contains(s) ==> s.len() > 0 && exists|i: int|
                        0 <= i < typed.len() && s == trimmed(#[trigger] typed[i])
                &&& final(p).busy && final(p).found@.len() == 0 && final(p).error is None
            }
        }),
{
    names_differ();
    the_ranges_are_the_lines(old(p).ranges@);
    let typed = lines_of(old(p).ranges@);
    let ranges = ranges_of(old(p).ranges@);
    if ranges.len() > 0 {
        assert(ranges.contains(ranges[0]));
    }
    if exists|i: int| 0 <= i < typed.len() && trimmed(#[trigger] typed[i]).len() > 0 {
        let i = choose|i: int| 0 <= i < typed.len() && trimmed(#[trigger] typed[i]).len() > 0;
        assert(ranges.contains(trimmed(typed[i])));
    }
}

proof fn the_ranges_are_the_lines(text: Seq<char>)
    ensures
        ({
            let typed = lines_of(text);
            let ranges = ranges_of(text);
            &&& forall|i: int|
                0 <= i < typed.len() && trimmed(#[trigger] typed[i]).len() > 0 ==> ranges.contains(
                    trimmed(typed[i]),
                )
            &&& forall|s: Seq<char>| #[trigger]
                ranges.contains(s) ==> s.len() > 0 && exists|i: int|
                    0 <= i < typed.len() && s == trimmed(#[trigger] typed[i])
        }),
{
    let typed = lines_of(text);
    let all = typed.map_values(|l: Seq<char>| trimmed(l));
    let p = crate::settings::nova::not_blank();
    let ranges = ranges_of(text);
    kept_members(all, p);
    assert forall|i: int|
        0 <= i < typed.len() && trimmed(#[trigger] typed[i]).len() > 0 implies ranges.contains(
        trimmed(typed[i]),
    ) by {
        assert(all[i] == trimmed(typed[i]));
        assert(all.contains(all[i]));
        assert(p(all[i]));
    }
    assert forall|s: Seq<char>| #[trigger] ranges.contains(s) implies s.len() > 0 && exists|i: int|
        0 <= i < typed.len() && s == trimmed(#[trigger] typed[i]) by {
        assert(p(s));
        assert(all.contains(s));
        let i = choose|i: int| 0 <= i < all.len() && all[i] == s;
        assert(s == trimmed(typed[i]));
    }
}

/// The ranges of a text are its lines without the space around them, blank ones
/// aside.
pub proof fn ranges_are_lines(text: &str, r: Vec<String>)
    requires
        call_ensures(scan_ranges, (text,), r),
    ensures
        forall|i: int|
            0 <= i < lines_of(text@).len() && trimmed(#[trigger] lines_of(text@)[i]).len() > 0
                ==> texts(r@).contains(trimmed(lines_of(text@)[i])),
        forall|s: Seq<char>| #[trigger]
            texts(r@).contains(s) ==> s.len() > 0 && exists|i: int|
                0 <= i < lines_of(text@).len() && s == trimmed(#[trigger] lines_of(text@)[i]),
{
    the_ranges_are_the_lines(text@);
}

/// A scan shows what it finds, in the order in which it comes, and goes on; its
/// end ends the waiting, and says that it is over or why it failed.
pub proof fn a_scan_shows_what_it_finds(p: &mut NovaPage, event: ScanEvent, more: bool)
    requires
        call_ensures(NovaPage::on_scan, (p, event), more),
    ensures
        event matches ScanEvent::Found(peer) ==> more && final(p).found@ == old(p).found@.push(peer)
            && final(p).busy == old(p).busy && final(p).error == old(p).error,
        !(event is Found) ==> !more && !final(p).busy && final(p).found == old(p).found,
        event matches ScanEvent::Failed { error } ==> opt(final(p).error) == Some(
            "scan failed: "@ + error@,
        ),
        event matches ScanEvent::Done { error: Some(error) } ==> opt(final(p).error) == Some(
            "scan failed: "@ + error@,
        ),
        (event is Ended || event == (ScanEvent::Done { error: None })) && old(p).error is None
            ==> opt(final(p).status) == Some("scan complete"@) && final(p).error is None,
        final(p).peers == old(p).peers && final(p).ranges == old(p).ranges,
{
}

/// Whether no peer has an id.
pub open spec fn is_new(peers: Seq<PeerView>, id: Seq<char>) -> bool {
    forall|j: int| 0 <= j < peers.len() ==> (#[trigger] peers[j]).device_id@ != id
}

/// A peer that was not there before uses up the code and is announced; peers that
/// were there are no news.
pub proof fn a_new_peer_uses_up_the_code(p: &mut NovaPage, peers: Vec<PeerView>)
    requires
        call_ensures(NovaPage::on_peers, (p, peers), ()),
    ensures
        final(p).peers == peers,
        ({
            let news = exists|i: int|
                0 <= i < peers@.len() && is_new(
                    old(p).peers@,
                    (#[trigger] peers@[i]).device_id@,
                );
            &&& news ==> final(p).pairing_code is None && opt(final(p).status) == Some(
                "device paired"@,
            )
            &&& !news ==> final(p).pairing_code == old(p).pairing_code && final(p).status == old(p).status
        }),
        final(p).busy == old(p).busy && final(p).found == old(p).found && final(p).edit == old(p).edit,
{
    let before = old(p).peers@;
    assert forall|id: Seq<char>| crate::settings::nova::knows(before, id) == !#[trigger] is_new(
        before,
        id,
    ) by {
        let q = |v: PeerView| v.device_id@ == id;
        if !is_new(before, id) {
            let j = choose|j: int| 0 <= j < before.len() && (#[trigger] before[j]).device_id@ == id;
            assert(q(before[j]));
        }
    }
    if crate::settings::nova::gained(before, peers@) {
        let i = choose|i: int|
            0 <= i < peers@.len() && !crate::settings::nova::knows(
                before,
                (#[trigger] peers@[i]).device_id@,
            );
        assert(is_new(before, peers@[i].device_id@));
    }
}

/// What the dialog holds is saved for the peer that it was opened for, name and
/// address without the space around them; the dialog closes.
pub proof fn an_edited_peer_is_saved(
    a: &mut NovaPage,
    peer: &PeerView,
    b: &mut NovaPage,
    state: &AppState,
    r: Option<NovaCall>,
)
    requires
        call_ensures(NovaPage::open_edit, (a, peer), ()),
        old(b).edit is Some,
        call_ensures(NovaPage::save_edit, (b, state), r),
    ensures
        final(a).edit matches Some(e) && e.device_id == peer.device_id && e.name == peer.name
            && e.endpoint == peer.endpoint && e.role == peer.role,
        final(a).peers == old(a).peers,
        final(b).edit is None,
        r is Some <==> state.engine is Some,
        r matches Some(c) ==> {
            let e = old(b).edit->0;
            &&& c.request@.method == Method::NovaUpdatePeer
            &&& says_text(c.request@, "deviceId"@, e.device_id@)
            &&& says_text(c.request@, "name"@, trimmed(e.name@))
            &&& says_text(c.request@, "endpoint"@, trimmed(e.endpoint@))
            &&& says_text(c.request@, "role"@, e.role@)
            &&& waits(*old(b), *final(b))
        },
{
    names_differ();
}

/// A role is admin or peer: switching makes a peer of an admin and an admin of
/// anyone else, so that twice makes no difference.
pub proof fn a_role_switches(a: &mut NovaPage, b: &mut NovaPage)
    requires
        call_ensures(NovaPage::toggle_role, (a,), ()),
        *old(b) == *final(a),
        call_ensures(NovaPage::toggle_role, (b,), ()),
        old(a).edit is Some,
    ensures
        old(a).edit->0.role@ == "admin"@ ==> final(a).edit->0.role@ == "peer"@,
        old(a).edit->0.role@ != "admin"@ ==> final(a).edit->0.role@ == "admin"@,
        old(a).edit->0.role@ == "admin"@ || old(a).edit->0.role@ == "peer"@
            ==> final(b).edit->0.role@ == old(a).edit->0.role@,
        final(a).edit->0.device_id == old(a).edit->0.device_id && final(a).edit->0.name == old(a).edit->0.name && final(a).edit->0.endpoint == old(a).edit->0.endpoint,
{
    reveal_strlit("admin");
    reveal_strlit("peer");
    assert("admin"@.len() == 5 && "peer"@.len() == 4);
}

/// A found service of the app shows its name, address and ticket, one that is
/// none of ours shows its address and has no ticket.
pub proof fn a_found_service_is_shown(peer: &FoundPeer, r: FoundRow)
    requires
        call_ensures(found_row, (peer,), r),
    ensures
        peer matches FoundPeer::Nova { addr, device_id, name, ticket, trusted } ==> r.title@ == name@
            && r.detail@ == device_id@ + " \u{b7} "@ + addr@ && opt(r.ticket) == Some(ticket@)
            && r.trusted == trusted,
        peer matches FoundPeer::Open { addr } ==> r.title@ == "Unknown service"@ && r.detail@
            == addr@ && r.ticket is None && !r.trusted,
{
}

/// The page shows the code while there is one, all that was found and all peers.
pub proof fn the_page_shows_its_rows(p: &NovaPage, f: NovaFrame)
    requires
        call_ensures(NovaPage::frame, (p,), f),
    ensures
        p.pairing_code matches Some(code) ==> f.badge@ == code@,
        p.pairing_code is None ==> f.badge@ == "not pairing"@,
        f.pair_label@ == "Connecting\u{2026}"@ <==> p.busy,
        f.scan_label@ == "Scanning\u{2026}"@ <==> p.busy,
        f.found@.len() == p.found@.len(),
        f.peers@.len() == p.peers@.len(),
        forall|i: int|
            0 <= i < f.peers@.len() ==> (#[trigger] f.peers@[i]).device_id == p.peers@[i].device_id
                && f.peers@[i].name == p.peers@[i].name,
{
    reveal_strlit("Connecting\u{2026}");
    reveal_strlit("Pair device");
    reveal_strlit("Scanning\u{2026}");
    reveal_strlit("Scan");
    assert("Connecting\u{2026}"@[0] == 'C' && "Pair device"@[0] == 'P');
    assert("Scanning\u{2026}"@.len() == 9 && "Scan"@.len() == 4);
}

/// Whether slot `i` holds the selected project.
pub open spec fn is_selected_project(state: AppState, i: int) -> bool {
    &&& state.selected_project is Some
    &&& 0 <= i < state.projects@.len()
    &&& state.projects@[i].id@ == state.selected_project->0@
    &&& forall|j: int|
        0 <= j < i ==> (#[trigger] state.projects@[j]).id@ != state.selected_project->0@
}

/// Whether a call names a device, unless it is this one.
pub open spec fn reaches(c: Call, state: AppState, device: Seq<char>) -> bool {
    goes_to(
        c,
        if opt(state.local_device_id) == Some(device) {
            None
        } else {
            Some(device)
        },
    )
}

/// Whether a call is sent in a scope: in that of the project with the project's
/// folder, to the project's device; in the global one without a folder, to the
/// device that was picked, or to this one.
pub open spec fn sent_in(
    page: PiSettingsPage,
    state: AppState,
    scope: PiSettingsScope,
    c: PiCall,
) -> bool {
    &&& c.scope == scope
    &&& scope is Global ==> c.project_path is None
    &&& scope is Global ==> (page.target_device matches Some(d) ==> reaches(
        c.request@,
        state,
        d@,
    ))
    &&& scope is Global && page.target_device is None ==> goes_to(c.request@, None)
    &&& forall|i: int|
        scope is Project && #[trigger] is_selected_project(state, i) ==> opt(c.project_path) == Some(
            state.projects@[i].path@,
        ) && reaches(c.request@, state, state.projects@[i].device_id@)
}

proof fn a_scoped_call_is_sent(
    page: PiSettingsPage,
    state: AppState,
    call: Call,
    scope: PiSettingsScope,
    c: PiCall,
)
    requires
        c@ == crate::settings::pi::scoped(page, state, call, scope),
        !call.params.contains_key("targetDeviceId"@),
    ensures
        sent_in(page, state, scope, c),
        c.request@.method == call.method,
        forall|k: Seq<char>|
            k != "targetDeviceId"@ ==> (#[trigger] c.request@.params.contains_key(k)
                == call.params.contains_key(k)) && c.request@.params[k] == call.params[k],
{
    assert forall|i: int| #[trigger] is_selected_project(state, i) implies selected_row(state)
        == Some(state.projects@[i]) by {
        let p = project_named(state.selected_project->0@);
        assert forall|j: int| 0 <= j < i implies !p(#[trigger] state.projects@[j]) by {
            assert(state.projects@[j].id@ != state.selected_project->0@);
        }
        assert(p(state.projects@[i]));
        first_at_is(state.projects@, p, i);
    }
}

/// The settings are asked for in the page's scope; without an engine the page
/// says so.
pub proof fn settings_are_asked_for(
    p: &mut PiSettingsPage,
    state: &AppState,
    r: Option<PiCall>,
)
    requires
        call_ensures(PiSettingsPage::load, (p, state), r),
    ensures
        r is Some <==> state.engine is Some,
        r matches Some(c) ==> c.request@.method == Method::GetPiSettings && sent_in(
            *old(p),
            *state,
            old(p).scope,
            c,
        ) && final(p).snapshot is Loading,
        r is None ==> final(p).snapshot is Error,
        final(p).scope == old(p).scope && final(p).target_device == old(p).target_device,
{
    if r is Some {
        a_scoped_call_is_sent(
            *old(p),
            *state,
            crate::settings::pi::load_call(),
            old(p).scope,
            r->0,
        );
    }
}

/// Changing a setting says which and to what, in the page's scope.
pub proof fn a_setting_is_changed(
    p: &mut PiSettingsPage,
    state: &AppState,
    key: &str,
    value: Value,
    r: Option<PiCall>,
)
    requires
        call_ensures(PiSettingsPage::set_setting, (p, state, key, value), r),
    ensures
        r is Some <==> state.engine is Some,
        r matches Some(c) ==> c.request@.method == Method::SetPiSetting && says_text(
            c.request@,
            "key"@,
            key@,
        ) && says_value(c.request@, "value"@, value@) && sent_in(
            *old(p),
            *state,
            old(p).scope,
            c,
        ) && final(p).busy is Some && final(p).error is None,
        final(p).snapshot == old(p).snapshot,
{
    names_differ();
    if r is Some {
        a_scoped_call_is_sent(
            *old(p),
            *state,
            crate::settings::pi::setting_call(key@, value@),
            old(p).scope,
            r->0,
        );
    }
}

/// The switches flip what is shown: compaction compaction, and retry retry.
pub proof fn the_switches_flip_their_own_settings(
    a: &mut PiSettingsPage,
    b: &mut PiSettingsPage,
    state: &AppState,
    compaction: Option<PiCall>,
    retry: Option<PiCall>,
)
    requires
        call_ensures(PiSettingsPage::toggle_compaction, (a, state), compaction),
        call_ensures(PiSettingsPage::toggle_retry, (b, state), retry),
        state.engine is Some,
    ensures
        compaction is Some && retry is Some,
        compaction->0.request@.method == Method::SetPiSetting && retry->0.request@.method
            == Method::SetPiSetting,
        says_text(compaction->0.request@, "key"@, "compaction.enabled"@),
        says_text(retry->0.request@, "key"@, "retry.enabled"@),
        old(a).snapshot matches Loadable::Ready(s) ==> says_value(
            compaction->0.request@,
            "value"@,
            ValueView::Bool(!s.settings.auto_compaction),
        ),
        !(old(a).snapshot is Ready) ==> says_value(
            compaction->0.request@,
            "value"@,
            ValueView::Bool(true),
        ),
        old(b).snapshot matches Loadable::Ready(s) ==> says_value(
            retry->0.request@,
            "value"@,
            ValueView::Bool(!s.settings.auto_retry),
        ),
        !(old(b).snapshot is Ready) ==> says_value(
            retry->0.request@,
            "value"@,
            ValueView::Bool(true),
        ),
        sent_in(*old(a), *state, old(a).scope, compaction->0),
        sent_in(*old(b), *state, old(b).scope, retry->0),
{
    names_differ();
    let c = match old(a).snapshot {
        Loadable::Ready(s) => !s.settings.auto_compaction,
        _ => true,
    };
    let d = match old(b).snapshot {
        Loadable::Ready(s) => !s.settings.auto_retry,
        _ => true,
    };
    a_scoped_call_is_sent(
        *old(a),
        *state,
        crate::settings::pi::setting_call("compaction.enabled"@, ValueView::Bool(c)),
        old(a).scope,
        compaction->0,
    );
    a_scoped_call_is_sent(
        *old(b),
        *state,
        crate::settings::pi::setting_call("retry.enabled"@, ValueView::Bool(d)),
        old(b).scope,
        retry->0,
    );
}

/// Trust goes from asking to always to never and back, the transport from
/// automatic to events to sockets and back; each changes its own setting.
pub proof fn choices_go_round(
    a: &mut PiSettingsPage,
    b: &mut PiSettingsPage,
    state: &AppState,
    shown: &str,
    trust: Option<PiCall>,
    transport: Option<PiCall>,
    next: &'static str,
    then: &'static str,
)
    requires
        state.engine is Some,
        call_ensures(PiSettingsPage::cycle_trust, (a, state, shown), trust),
        call_ensures(PiSettingsPage::cycle_transport, (b, state, shown), transport),
        call_ensures(next_trust, (shown,), next),
        call_ensures(next_transport, (shown,), then),
    ensures
        trust is Some && transport is Some,
        says_text(trust->0.request@, "key"@, "defaultProjectTrust"@),
        says_text(transport->0.request@, "key"@, "transport"@),
        says_text(trust->0.request@, "value"@, next@),
        says_text(transport->0.request@, "value"@, then@),
        shown@ == "ask"@ ==> next@ == "always"@,
        shown@ == "always"@ ==> next@ == "never"@,
        shown@ != "ask"@ && shown@ != "always"@ ==> next@ == "ask"@,
        shown@ == "auto"@ ==> then@ == "sse"@,
        shown@ == "sse"@ ==> then@ == "websocket"@,
        shown@ != "auto"@ && shown@ != "sse"@ ==> then@ == "auto"@,
        sent_in(*old(a), *state, old(a).scope, trust->0),
        sent_in(*old(b), *state, old(b).scope, transport->0),
{
    names_differ();
    reveal_strlit("ask");
    reveal_strlit("always");
    reveal_strlit("auto");
    reveal_strlit("sse");
    assert("ask"@.len() == 3 && "always"@.len() == 6 && "auto"@.len() == 4 && "sse"@.len() == 3);
    a_scoped_call_is_sent(
        *old(a),
        *state,
        crate::settings::pi::setting_call("defaultProjectTrust"@, ValueView::Text(next@)),
        old(a).scope,
        trust->0,
    );
    a_scoped_call_is_sent(
        *old(b),
        *state,
        crate::settings::pi::setting_call("transport"@, ValueView::Text(then@)),
        old(b).scope,
        transport->0,
    );
}

/// A provider's key is saved for the dialog's provider, without the space around
/// it; the dialog closes. Without a key nothing is asked, and the dialog stays.
pub proof fn a_key_is_saved(p: &mut PiSettingsPage, state: &AppState, r: Option<PiCall>)
    requires
        call_ensures(PiSettingsPage::submit_api_key, (p, state), r),
        old(p).dialog is Some && old(p).dialog->0 is ApiKey,
        state.engine is Some,
    ensures
        ({
            let input = trimmed(old(p).dialog->0->ApiKey_input@);
            &&& r is Some <==> input.len() > 0
            &&& input.len() == 0 ==> final(p).dialog == old(p).dialog && opt(final(p).error)
                == Some("Enter an API key first"@)
            &&& r matches Some(c) ==> {
                &&& c.request@.method == Method::SetPiCredential
                &&& says_text(c.request@, "provider"@, old(p).dialog->0->ApiKey_provider@)
                &&& says_text(c.request@, "key"@, input)
                &&& sent_in(*old(p), *state, old(p).scope, c)
                &&& final(p).dialog is None && final(p).busy is Some
            }
        }),
{
    names_differ();
    if r is Some {
        let provider = old(p).dialog->0->ApiKey_provider@;
        let input = trimmed(old(p).dialog->0->ApiKey_input@);
        let closed = PiSettingsPage { dialog: None, ..*old(p) };
        a_scoped_call_is_sent(
            closed,
            *state,
            Call {
                method: Method::SetPiCredential,
                params: Map::empty().insert("provider"@, ValueView::Text(provider)).insert(
                    "key"@,
                    ValueView::Text(input),
                ),
            },
            old(p).scope,
            r->0,
        );
    }
}

/// An endpoint is saved with its address, and with the key that was typed or
/// none, so that the stored one is kept.
pub proof fn an_endpoint_is_saved(p: &mut PiSettingsPage, state: &AppState, r: Option<PiCall>)
    requires
        call_ensures(PiSettingsPage::submit_openai_compatible, (p, state), r),
        old(p).dialog is Some && old(p).dialog->0 is OpenAiCompatible,
        state.engine is Some,
    ensures
        ({
            let url = trimmed(old(p).dialog->0->base_url@);
            let key = trimmed(old(p).dialog->0->api_key@);
            &&& r is Some <==> url.len() > 0
            &&& url.len() == 0 ==> final(p).dialog == old(p).dialog && opt(final(p).error) == Some(
                "Enter a base URL"@,
            )
            &&& r matches Some(c) ==> {
                &&& c.request@.method == Method::SetPiOpenAiCompatible
                &&& says_text(c.request@, "baseUrl"@, url)
                &&& key.len() > 0 ==> says_text(c.request@, "apiKey"@, key)
                &&& key.len() == 0 ==> says_value(c.request@, "apiKey"@, ValueView::Null)
                &&& sent_in(*old(p), *state, old(p).scope, c)
                &&& final(p).dialog is None && final(p).busy is Some
            }
        }),
{
    names_differ();
    if r is Some {
        let url = trimmed(old(p).dialog->0->base_url@);
        let key = trimmed(old(p).dialog->0->api_key@);
        let closed = PiSettingsPage { dialog: None, ..*old(p) };
        a_scoped_call_is_sent(
            closed,
            *state,
            Call {
                method: Method::SetPiOpenAiCompatible,
                params: Map::empty().insert("baseUrl"@, ValueView::Text(url)).insert(
                    "apiKey"@,
                    if key.len() == 0 {
                        ValueView::Null
                    } else {
                        ValueView::Text(key)
                    },
                ),
            },
            old(p).scope,
            r->0,
        );
    }
}

/// What is done to a package is said by its name, of that package, in the
/// package's own scope.
pub proof fn a_package_is_acted_on(
    p: &mut PiSettingsPage,
    state: &AppState,
    action: PackageAction,
    source: &str,
    scope: PiSettingsScope,
    r: Option<PiCall>,
)
    requires
        call_ensures(PiSettingsPage::package_action, (p, state, action, source, scope), r),
    ensures
        r is Some <==> state.engine is Some,
        r matches Some(c) ==> {
            &&& c.request@.method == Method::PiPackageAction
            &&& says_text(c.request@, "source"@, source@)
            &&& action is Install ==> says_text(c.request@, "action"@, "install"@)
            &&& action is Update ==> says_text(c.request@, "action"@, "update"@)
            &&& action is Remove ==> says_text(c.request@, "action"@, "remove"@)
            &&& sent_in(*old(p), *state, scope, c)
            &&& final(p).busy is Some
        },
        final(p).scope == old(p).scope,
{
    names_differ();
    if r is Some {
        a_scoped_call_is_sent(
            *old(p),
            *state,
            crate::settings::pi::package_call(action, source@),
            scope,
            r->0,
        );
    }
}

/// The typed package is installed, in the page's scope; without one nothing is.
pub proof fn a_typed_package_is_installed(
    p: &mut PiSettingsPage,
    state: &AppState,
    r: Option<PiCall>,
)
    requires
        call_ensures(PiSettingsPage::submit_package, (p, state), r),
        old(p).dialog is Some && old(p).dialog->0 is InstallPackage,
        state.engine is Some,
    ensures
        ({
            let source = trimmed(old(p).dialog->0->InstallPackage_input@);
            &&& r is Some <==> source.len() > 0
            &&& source.len() == 0 ==> final(p).dialog == old(p).dialog && final(p).error is Some
            &&& r matches Some(c) ==> c.request@.method == Method::PiPackageAction && says_text(
                c.request@,
                "action"@,
                "install"@,
            ) && says_text(c.request@, "source"@, source) && sent_in(
                *old(p),
                *state,
                old(p).scope,
                c,
            ) && final(p).dialog is None
        }),
{
    names_differ();
    if r is Some {
        let source = trimmed(old(p).dialog->0->InstallPackage_input@);
        let closed = PiSettingsPage { dialog: None, ..*old(p) };
        a_scoped_call_is_sent(
            closed,
            *state,
            crate::settings::pi::package_call(PackageAction::Install, source),
            old(p).scope,
            r->0,
        );
    }
}

/// A confirmed removal removes what the dialog names: the key of its provider, or
/// its package in the package's own scope. No other dialog is gone through with.
pub proof fn a_confirmed_removal_removes(
    p: &mut PiSettingsPage,
    state: &AppState,
    r: Option<PiCall>,
)
    requires
        call_ensures(PiSettingsPage::confirm_dialog, (p, state), r),
        state.engine is Some,
    ensures
        old(p).dialog is None ==> r is None,
        old(p).dialog matches Some(d) ==> {
            &&& d is RemoveCredential || d is RemovePackage <==> r is Some
            &&& r is None ==> *final(p) == *old(p)
            &&& r is Some ==> final(p).dialog is None && final(p).busy is Some
            &&& d matches PiDialog::RemoveCredential { provider, .. } ==> r->0.request@.method
                == Method::RemovePiCredential && says_text(
                r->0.request@,
                "provider"@,
                provider@,
            ) && sent_in(*old(p), *state, old(p).scope, r->0)
            &&& d matches PiDialog::RemovePackage { source, scope } ==> r->0.request@.method
                == Method::PiPackageAction && says_text(r->0.request@, "action"@, "remove"@)
                && says_text(r->0.request@, "source"@, source@) && sent_in(
                *old(p),
                *state,
                scope,
                r->0,
            )
        },
{
    names_differ();
    if r is Some {
        let closed = PiSettingsPage { dialog: None, ..*old(p) };
        match old(p).dialog->0 {
            PiDialog::RemoveCredential { provider, .. } => {
                a_scoped_call_is_sent(
                    closed,
                    *state,
                    Call {
                        method: Method::RemovePiCredential,
                        params: Map::empty().insert("provider"@, ValueView::Text(provider@)),
                    },
                    old(p).scope,
                    r->0,
                );
            },
            PiDialog::RemovePackage { source, scope } => {
                a_scoped_call_is_sent(
                    closed,
                    *state,
                    crate::settings::pi::package_call(PackageAction::Remove, source@),
                    scope,
                    r->0,
                );
            },
            _ => {},
        }
    }
}

/// Turning to another scope or device asks for its settings there; the scope of a
/// project needs a project.
pub proof fn another_scope_is_loaded(
    a: &mut PiSettingsPage,
    b: &mut PiSettingsPage,
    state: &AppState,
    scope: PiSettingsScope,
    device: String,
    r: Option<PiCall>,
    d: Option<PiCall>,
)
    requires
        call_ensures(PiSettingsPage::set_scope, (a, state, scope), r),
        call_ensures(PiSettingsPage::set_device, (b, state, device), d),
        state.engine is Some,
        state.selected_project is None,
    ensures
        scope == old(a).scope || scope is Project ==> r is None && *final(a) == *old(a),
        scope != old(a).scope && scope is Global ==> r is Some && r->0.request@.method
            == Method::GetPiSettings && sent_in(*old(a), *state, scope, r->0) && final(a).scope
            == scope && final(a).snapshot is Loading,
        d is Some && d->0.request@.method == Method::GetPiSettings,
        final(b).scope is Global && reaches(d->0.request@, *state, device@) && d->0.scope is Global,
        !final(b).device_menu_open && final(b).snapshot is Loading,
{
    if r is Some {
        let p = PiSettingsPage { scope, device_menu_open: false, ..*old(a) };
        a_scoped_call_is_sent(p, *state, crate::settings::pi::load_call(), scope, r->0);
    }
    let p = PiSettingsPage {
        target_device: if opt(state.local_device_id) == Some(device@) {
            None
        } else {
            Some(device)
        },
        scope: PiSettingsScope::Global,
        device_menu_open: false,
        ..*old(b)
    };
    a_scoped_call_is_sent(
        p,
        *state,
        crate::settings::pi::load_call(),
        PiSettingsScope::Global,
        d->0,
    );
}

/// With a project, its scope asks for the settings in the project's folder on the
/// project's device.
pub proof fn the_project_s_scope_is_loaded(
    p: &mut PiSettingsPage,
    state: &AppState,
    i: int,
    r: Option<PiCall>,
)
    requires
        call_ensures(PiSettingsPage::set_scope, (p, state, PiSettingsScope::Project), r),
        state.engine is Some,
        old(p).scope is Global,
        is_selected_project(*state, i),
    ensures
        r is Some,
        r->0.request@.method == Method::GetPiSettings,
        opt(r->0.project_path) == Some(state.projects@[i].path@),
        reaches(r->0.request@, *state, state.projects@[i].device_id@),
        final(p).scope is Project,
{
    let q = project_named(state.selected_project->0@);
    assert forall|j: int| 0 <= j < i implies !q(#[trigger] state.projects@[j]) by {
        assert(state.projects@[j].id@ != state.selected_project->0@);
    }
    assert(q(state.projects@[i]));
    first_at_is(state.projects@, q, i);
    let now = PiSettingsPage {
        scope: PiSettingsScope::Project,
        device_menu_open: false,
        ..*old(p)
    };
    a_scoped_call_is_sent(
        now,
        *state,
        crate::settings::pi::load_call(),
        PiSettingsScope::Project,
        r->0,
    );
}

/// New settings are shown; a call that failed leaves those that are shown, says
/// why, and ends the waiting either way. Asking for them anew fails openly.
pub proof fn settings_that_come_are_shown(
    a: &mut PiSettingsPage,
    b: &mut PiSettingsPage,
    reply: Result<PiSettingsSnapshot, String>,
)
    requires
        call_ensures(PiSettingsPage::on_snapshot, (a, reply), ()),
        call_ensures(PiSettingsPage::on_loaded, (b, reply), ()),
    ensures
        final(a).busy is None,
        reply matches Ok(s) ==> final(a).snapshot == Loadable::Ready(s) && final(b).snapshot
            == Loadable::Ready(s),
        reply matches Err(e) ==> final(a).snapshot == old(a).snapshot && final(a).error == Some(e)
            && final(b).snapshot == Loadable::<PiSettingsSnapshot>::Error(e),
        final(a).scope == old(a).scope && final(a).section == old(a).section && final(a).dialog
            == old(a).dialog,
        final(b).scope == old(b).scope && final(b).section == old(b).section && final(b).busy
            == old(b).busy,
{
}

/// The switch for hot reload flips, and its change says where it stands.
pub proof fn the_switch_flips(p: &mut DeveloperPage, e: DeveloperEvent)
    requires
        call_ensures(DeveloperPage::toggle, (p,), e),
    ensures
        final(p).hot_reload != old(p).hot_reload,
        e matches DeveloperEvent::HotReloadChanged(on) && on != old(p).hot_reload,
{
}

/// A page begins empty: no device is known, nothing is under way, and the home
/// network is offered for a scan.
pub proof fn pages_begin_empty(p: NovaPage, section: PiSection, q: PiSettingsPage)
    requires
        call_ensures(NovaPage::new, (), p),
        call_ensures(PiSettingsPage::new, (section,), q),
    ensures
        p.local is None && p.peers@.len() == 0 && p.found@.len() == 0 && !p.busy && p.error is None,
        p.pairing_code is None && p.edit is None && p.ranges@ == "10.0.0.0/24"@,
        q.section == section && q.scope is Global && q.dialog is None && q.busy is None
            && q.snapshot is Idle,
{
}

/// A dialog that is cancelled closes, and nothing else changes.
pub proof fn cancelling_closes(a: &mut NovaPage, b: &mut PiSettingsPage)
    requires
        call_ensures(NovaPage::cancel_edit, (a,), ()),
        call_ensures(PiSettingsPage::cancel_dialog, (b,), ()),
    ensures
        final(a).edit is None && final(a).peers == old(a).peers && final(a).busy == old(a).busy,
        final(b).dialog is None && final(b).snapshot == old(b).snapshot && final(b).busy == old(b).busy,
{
}

/// The page is about the project's device in the project's scope, and else about
/// the one that was picked, or this one.
pub proof fn the_page_is_about_a_device(
    p: &PiSettingsPage,
    state: &AppState,
    d: Option<String>,
    i: int,
)
    requires
        call_ensures(PiSettingsPage::effective_device, (p, state), d),
    ensures
        p.scope is Global && p.target_device is Some ==> opt(d) == opt(p.target_device),
        p.scope is Global && p.target_device is None ==> opt(d) == opt(state.local_device_id),
        p.scope is Project && is_selected_project(*state, i) ==> opt(d) == Some(
            state.projects@[i].device_id@,
        ),
{
    if is_selected_project(*state, i) {
        let q = project_named(state.selected_project->0@);
        assert forall|j: int| 0 <= j < i implies !q(#[trigger] state.projects@[j]) by {
            assert(state.projects@[j].id@ != state.selected_project->0@);
        }
        assert(q(state.projects@[i]));
        first_at_is(state.projects@, q, i);
    }
}

/// The dialog for an endpoint begins with the address that is configured, and
/// without a key.
pub proof fn the_endpoint_s_dialog_begins_with_its_address(
    p: &mut PiSettingsPage,
    c: &PiOpenAiCompatible,
)
    requires
        call_ensures(PiSettingsPage::open_openai_compatible, (p, c), ()),
    ensures
        final(p).dialog is Some && final(p).dialog->0 is OpenAiCompatible,
        c.base_url matches Some(u) ==> final(p).dialog->0->base_url@ == u@,
        c.base_url is None ==> final(p).dialog->0->base_url@.len() == 0,
        final(p).dialog->0->api_key@.len() == 0,
        final(p).dialog->0->has_stored_key == c.has_stored_key,
{
}

/// A reply comes to the settings, or to why there are none.
pub proof fn a_reply_comes_to_settings(
    reply: Result<Result<PiSettingsSnapshot, String>, String>,
    r: Result<PiSettingsSnapshot, String>,
)
    requires
        call_ensures(decode_snapshot, (reply,), r),
    ensures
        r is Ok <==> reply is Ok && reply->Ok_0 is Ok,
        r is Ok ==> r->Ok_0 == reply->Ok_0->Ok_0,
        reply matches Err(e) ==> r->Err_0 == e,
        reply is Ok && reply->Ok_0 is Err ==> r->Err_0@ == "Malformed Pi settings reply: "@
            + reply->Ok_0->Err_0@,
{
}

}
