//! What names, lines and rows say.
use vstd::prelude::*;
use vstd::utf8::{
    decode_utf8, encode_utf8, encode_utf8_decode_utf8, is_ascii_chars, is_ascii_chars_encode_utf8,
};

use crate::laws::settings::is_selected_project;
use crate::laws::shown::what_follows_the_last;
use crate::proto::{Chat, ChatConfig, HarnessId, PeerView};
use crate::seqs::{first_at_is, kept, kept_members};
use crate::settings::nova::{local_line, peer_line, short_ticket, LocalDevice, NovaPage};
use crate::settings::pi::{
    PiOpenAiCompatible, PiRuntime, PiSettingsSnapshot, PiDialog, PiPackageInfo, PiProviderStatus,
    PiResourceInfo, PiSection, PiSettings, PiSettingsPage, PiSettingsScope,
};
use crate::settings::pi_view::{
    advanced_paths, compatible_detail, runtime_detail, PathRow, default_model, dialog_copy,
    package_rows, provider_rows, resource_rows, ContextFrame, DialogCopy, PackageRow, ProviderRow,
};
use crate::shell::projects::Shell;
use crate::state::{project_named, AppState};
use crate::terminal::tabs::{
    agent_tab_name, agent_tab_title, exit_message, failure_message, harness_label, shell_title,
    short_model_name, toggle_binding,
};
use crate::text::{after_last_of, decimal, decimal_signed, occurs_at, trimmed};
use crate::wire::opt;
use crate::theme::Platform;

verus! {

proof fn ascii_part(s: Seq<char>, a: int, b: int)
    requires
        is_ascii_chars(s),
        0 <= a <= b <= s.len(),
    ensures
        encode_utf8(s).len() == s.len(),
        decode_utf8(encode_utf8(s).subrange(a, b)) == s.subrange(a, b),
{
    let t = s.subrange(a, b);
    assert forall|i: int| 0 <= i < t.len() implies '\0' <= #[trigger] t[i] <= '\u{7f}' by {
        assert('\0' <= s[a + i] <= '\u{7f}');
    }
    is_ascii_chars_encode_utf8(s);
    is_ascii_chars_encode_utf8(t);
    assert(encode_utf8(t) =~= encode_utf8(s).subrange(a, b)) by {
        assert forall|i: int| 0 <= i < t.len() implies encode_utf8(t)[i] == encode_utf8(s)[a + i] by {
            assert(t[i] == s[a + i]);
        }
    }
    encode_utf8_decode_utf8(t);
}

/// A long ticket is shown by its first twenty and its last eight characters, a
/// short one as it is.
pub proof fn a_long_ticket_is_cut(ticket: &str, s: String)
    requires
        is_ascii_chars(ticket@),
        call_ensures(short_ticket, (ticket,), s),
    ensures
        ticket@.len() <= 32 ==> s@ == ticket@,
        ticket@.len() > 32 ==> s@ == ticket@.subrange(0, 20) + "\u{2026}"@ + ticket@.subrange(
            ticket@.len() - 8,
            ticket@.len() as int,
        ),
{
    let n = ticket@.len() as int;
    ascii_part(ticket@, 0, n);
    if n > 32 {
        ascii_part(ticket@, 0, 20);
        ascii_part(ticket@, n - 8, n);
    }
}

/// The line about this engine says its name, its id and its port; that about a
/// peer its platform, its role and its address, and whether it was revoked.
pub proof fn lines_name_the_devices(
    local: &Option<LocalDevice>,
    s: String,
    p: &PeerView,
    t: String,
    address: &str,
    short: String,
)
    requires
        call_ensures(local_line, (local,), s),
        call_ensures(peer_line, (p,), t),
        address@ == p.endpoint@,
        call_ensures(short_ticket, (address,), short),
    ensures
        *local matches Some(l) ==> s@ == l.name@ + " \u{b7} "@ + l.device_id@ + " \u{b7} port "@
            + decimal(l.port as nat),
        *local is None ==> s@ == "loading local identity\u{2026}"@,
        p.revoked ==> t@ == p.platform@ + " \u{b7} "@ + p.role@ + " \u{b7} "@ + short@
            + " \u{b7} revoked"@,
        !p.revoked ==> t@ == p.platform@ + " \u{b7} "@ + p.role@ + " \u{b7} "@ + short@,
{
    reveal_strlit("");
    if !p.revoked {
        assert(t@ =~= p.platform@ + " \u{b7} "@ + p.role@ + " \u{b7} "@ + short@);
    }
}

/// The ticket that is copied is this engine's, and an address that is used is the
/// one that is paired with.
pub proof fn tickets_are_copied_and_used(
    a: &mut NovaPage,
    t: Option<String>,
    b: &mut NovaPage,
    address: String,
)
    requires
        call_ensures(NovaPage::copy_ticket, (a,), t),
        call_ensures(NovaPage::use_address, (b, address), ()),
    ensures
        old(a).local matches Some(l) ==> t == Some(l.ticket) && final(a).status is Some,
        old(a).local is None ==> t is None && *final(a) == *old(a),
        final(b).endpoint == address && final(b).code == old(b).code && final(b).peers == old(b).peers,
        final(a).endpoint == old(a).endpoint && final(a).peers == old(a).peers,
{
}

/// A model goes by what follows the last slash of its id; the agent's tab by its
/// model, or else by its program, or else as just an agent.
pub proof fn the_agent_s_tab_is_named(
    model: &str,
    short: &str,
    config: &ChatConfig,
    name: String,
    program: String,
    nobody: String,
    chat: &Chat,
    title: String,
)
    requires
        call_ensures(short_model_name, (model,), short),
        config.model matches Some(m) ==> model@ == m@,
        call_ensures(agent_tab_name, (Some(config),), name),
        call_ensures(harness_label, (config.harness,), program),
        call_ensures(agent_tab_name, (None::<&ChatConfig>,), nobody),
        chat.config == Some(*config),
        call_ensures(agent_tab_title, (Some(chat),), title),
    ensures
        short@.len() <= model@.len(),
        short@ == model@.skip(model@.len() - short@.len()),
        forall|i: int| 0 <= i < short@.len() ==> #[trigger] short@[i] != '/',
        short@.len() < model@.len() ==> model@[model@.len() - short@.len() - 1] == '/',
        config.model is Some ==> name@ == short@,
        config.model is None ==> name@ == program@,
        nobody@ == "agent"@,
        title@ == name@ + "'s terminal"@,
{
    what_follows_the_last(model@, '/');
}

/// The names of the programs.
pub proof fn programs_have_their_names(a: String, b: String, c: String, d: String)
    requires
        call_ensures(harness_label, (HarnessId::Pi,), a),
        call_ensures(harness_label, (HarnessId::Codex,), b),
        call_ensures(harness_label, (HarnessId::Cursor,), c),
        call_ensures(harness_label, (HarnessId::Mock,), d),
    ensures
        a@ == "pi"@ && b@ == "codex"@ && c@ == "cursor"@ && d@ == "mock"@,
{
}

/// What a terminal shows at its end names the exit code, and at a failure the
/// reason.
pub proof fn endings_are_named(code: i32, v: Vec<u8>, error: &str, w: Vec<u8>)
    requires
        call_ensures(exit_message, (code,), v),
        call_ensures(failure_message, (error,), w),
    ensures
        v@ == encode_utf8(
            "\r\n\x1b[90m[process exited "@ + decimal_signed(code as int) + "]\x1b[0m\r\n"@,
        ),
        w@ == encode_utf8("\x1b[31mfailed to open terminal: "@ + error@ + "\x1b[0m\r\n"@),
{
}

/// The terminal toggles with the platform's own key and `j`.
pub proof fn the_terminal_has_its_key(p: Platform, s: &'static str)
    requires
        call_ensures(toggle_binding, (p,), s),
    ensures
        p is MacOs ==> s@ == "cmd-j"@,
        !(p is MacOs) ==> s@ == "ctrl-j"@,
{
}

/// A default model is named with its provider, as far as both are known.
pub proof fn a_default_model_is_named(p: &PiSettings, s: String)
    requires
        call_ensures(default_model, (p,), s),
    ensures
        p.default_model is Some && p.default_provider is Some ==> s@ == p.default_provider->0@ + "/"@
            + p.default_model->0@,
        p.default_model is Some && p.default_provider is None ==> s@ == p.default_model->0@,
        p.default_model is None ==> s@ == "Resolved by Pi"@,
{
}

/// Each provider has a row, but for the endpoint that has a place of its own; a
/// stored key can be removed.
pub proof fn providers_have_rows(
    providers: &Vec<PiProviderStatus>,
    rows: Vec<ProviderRow>,
    k: int,
    i: int,
)
    requires
        call_ensures(provider_rows, (providers,), rows),
    ensures
        0 <= k < rows@.len() ==> rows@[k].id@ != "openai-compatible"@ && exists|j: int|
            0 <= j < providers@.len() && (#[trigger] providers@[j]).id == rows@[k].id
                && providers@[j].name == rows@[k].name && providers@[j].configured
                == rows@[k].configured && (rows@[k].can_remove <==> occurs_at(
                providers@[j].source@,
                "Stored"@,
                0,
            )),
        0 <= i < providers@.len() && providers@[i].id@ != "openai-compatible"@ ==> exists|j: int|
            0 <= j < rows@.len() && (#[trigger] rows@[j]).id == providers@[i].id,
{
    let p = crate::settings::pi_view::is_listed();
    let all = kept(providers@, p);
    kept_members(providers@, p);
    if 0 <= k < rows@.len() {
        assert(all.contains(all[k]));
        assert(providers@.contains(all[k]));
        let j = choose|j: int| 0 <= j < providers@.len() && providers@[j] == all[k];
        assert(providers@[j].id == rows@[k].id);
        assert(p(all[k]));
    }
    if 0 <= i < providers@.len() && providers@[i].id@ != "openai-compatible"@ {
        assert(p(providers@[i]));
        assert(providers@.contains(providers@[i]));
        assert(all.contains(providers@[i]));
        let j = choose|j: int| 0 <= j < all.len() && all[j] == providers@[i];
        assert(rows@[j].id == providers@[i].id);
    }
}

/// The packages and the resources of a scope are those of that scope, all of
/// them.
pub proof fn a_scope_has_its_packages(
    packages: &Vec<PiPackageInfo>,
    resources: &Vec<PiResourceInfo>,
    scope: PiSettingsScope,
    rows: Vec<PackageRow>,
    loose: Vec<&PiResourceInfo>,
    k: int,
    i: int,
)
    requires
        call_ensures(package_rows, (packages, scope), rows),
        call_ensures(resource_rows, (resources, scope), loose),
    ensures
        0 <= k < rows@.len() ==> rows@[k].scope == scope && exists|j: int|
            0 <= j < packages@.len() && (#[trigger] packages@[j]).source == rows@[k].source
                && packages@[j].scope == scope,
        0 <= i < packages@.len() && packages@[i].scope == scope ==> exists|j: int|
            0 <= j < rows@.len() && (#[trigger] rows@[j]).source == packages@[i].source,
        0 <= k < loose@.len() ==> loose@[k].scope == scope && resources@.contains(*loose@[k]),
{
    let p = crate::settings::pi_view::package_in(scope);
    let all = kept(packages@, p);
    kept_members(packages@, p);
    if 0 <= k < rows@.len() {
        assert(all.contains(all[k]));
        assert(packages@.contains(all[k]));
        let j = choose|j: int| 0 <= j < packages@.len() && packages@[j] == all[k];
        assert(packages@[j].source == rows@[k].source);
        assert(p(all[k]));
    }
    if 0 <= i < packages@.len() && packages@[i].scope == scope {
        assert(p(packages@[i]));
        assert(packages@.contains(packages@[i]));
        assert(all.contains(packages@[i]));
        let j = choose|j: int| 0 <= j < all.len() && all[j] == packages@[i];
        assert(rows@[j].source == packages@[i].source);
    }
    let q = crate::settings::pi_view::resource_in(scope);
    kept_members(resources@, q);
    if 0 <= k < loose@.len() {
        let v = loose@.map_values(|r: &PiResourceInfo| *r);
        assert(v == kept(resources@, q));
        assert(v[k] == *loose@[k]);
        assert(v.len() == loose@.len());
        assert(kept(resources@, q).contains(v[k]));
    }
}

/// A dialog warns exactly when it is about a removal.
pub proof fn removals_are_marked(d: &PiDialog, c: DialogCopy)
    requires
        call_ensures(dialog_copy, (d,), c),
    ensures
        c.destructive <==> *d is RemoveCredential || *d is RemovePackage,
        *d is ApiKey ==> c.primary@ == "Save API key"@,
        *d is OpenAiCompatible ==> c.primary@ == "Save provider"@,
        *d is InstallPackage ==> c.primary@ == "Install"@,
        *d is RemoveCredential ==> c.primary@ == "Remove credential"@,
        *d is RemovePackage ==> c.primary@ == "Remove package"@,
{
}

/// The head of the page offers all devices and both scopes, the project's where
/// there is a project, and marks the scope that the page is in.
pub proof fn the_head_offers_scopes_and_devices(
    p: &PiSettingsPage,
    state: &AppState,
    f: ContextFrame,
    i: int,
    k: int,
)
    requires
        call_ensures(PiSettingsPage::context_frame, (p, state), f),
    ensures
        f.devices@.len() == state.devices@.len(),
        0 <= i < f.devices@.len() ==> f.devices@[i].id == state.devices@[i].id && f.devices@[i].name
            == state.devices@[i].name,
        f.global.scope is Global && f.global.enabled && (f.global.selected <==> p.scope is Global),
        f.project.scope is Project && (f.project.selected <==> p.scope is Project),
        is_selected_project(*state, k) ==> f.project.enabled && f.project.label@
            == state.projects@[k].display_name@,
        state.selected_project is None ==> !f.project.enabled,
        p.scope is Global && p.target_device is Some && 0 <= i < f.devices@.len() ==> (
        f.devices@[i].selected <==> state.devices@[i].id@ == p.target_device->0@),
{
    if is_selected_project(*state, k) {
        let q = project_named(state.selected_project->0@);
        assert forall|j: int| 0 <= j < k implies !q(#[trigger] state.projects@[j]) by {
            assert(state.projects@[j].id@ != state.selected_project->0@);
        }
        assert(q(state.projects@[k]));
        first_at_is(state.projects@, q, k);
    }
    if 0 <= i < f.devices@.len() {
        assert(f.devices@[i].id == state.devices@[i].id);
    }
}

/// Another section ends what was about the one before; the same section ends
/// nothing.
pub proof fn another_section_ends_dialogs(p: &mut PiSettingsPage, section: PiSection)
    requires
        call_ensures(PiSettingsPage::set_section, (p, section), ()),
    ensures
        final(p).section == section,
        old(p).section != section ==> final(p).dialog is None && final(p).error is None,
        old(p).section == section ==> *final(p) == *old(p),
        final(p).scope == old(p).scope && final(p).snapshot == old(p).snapshot,
{
}

/// A dialog opens for what was clicked, empty where something is to be typed.
pub proof fn dialogs_open_for_what_was_clicked(
    a: &mut PiSettingsPage,
    b: &mut PiSettingsPage,
    c: &mut PiSettingsPage,
    d: &mut PiSettingsPage,
    provider: &PiProviderStatus,
    source: String,
    scope: PiSettingsScope,
)
    requires
        call_ensures(PiSettingsPage::open_api_key, (a, provider), ()),
        call_ensures(PiSettingsPage::open_remove_credential, (b, provider), ()),
        call_ensures(PiSettingsPage::open_remove_package, (c, source, scope), ()),
        call_ensures(PiSettingsPage::open_install, (d,), ()),
    ensures
        final(a).dialog matches Some(PiDialog::ApiKey { provider: id, provider_name, input }) && id
            == provider.id && provider_name == provider.name && input@.len() == 0,
        final(b).dialog matches Some(PiDialog::RemoveCredential { provider: id, provider_name })
            && id == provider.id && provider_name == provider.name,
        final(c).dialog == Some(PiDialog::RemovePackage { source, scope }),
        final(d).dialog matches Some(PiDialog::InstallPackage { input }) && input@.len() == 0,
{
}

/// The device menu opens and closes with its trigger; a click within four tenths
/// of a second after it was dismissed does neither.
pub proof fn the_device_menu_toggles(p: &mut PiSettingsPage, now: u64)
    requires
        call_ensures(PiSettingsPage::toggle_device_menu, (p, now), ()),
    ensures
        old(p).menu_dismissed_at is Some && now - old(p).menu_dismissed_at->0 < 400
            ==> final(p).device_menu_open == old(p).device_menu_open,
        old(p).menu_dismissed_at is None || now - old(p).menu_dismissed_at->0 >= 400
            ==> final(p).device_menu_open == !old(p).device_menu_open,
        final(p).target_device == old(p).target_device,
{
}

/// A dragged row remembers where it began and what it is over; dropped, it lands
/// where it is over, and the drag is done.
pub proof fn a_row_is_dragged_and_dropped(
    a: &mut Shell,
    from: usize,
    over: usize,
    changed: bool,
    b: &mut Shell,
    order: Vec<String>,
    save: bool,
)
    requires
        old(a).project_drag is Some ==> old(a).project_drag->0.epoch < usize::MAX,
        call_ensures(Shell::update_project_drag_over, (a, from, over), changed),
        *old(b) == *final(a),
        call_ensures(Shell::drop_project_row, (b, order, from), save),
        from < order@.len(),
        over < order@.len(),
    ensures
        final(a).project_drag is Some && final(a).project_drag->0.from == from
            && final(a).project_drag->0.over == over,
        save,
        final(b).project_drag is None,
        final(b).project_order@.len() == order@.len(),
        final(b).project_order@[over as int] == order@[from as int],
        final(b).project_order@.remove(over as int) == order@.remove(from as int),
{
    assert(final(b).project_order@ == order@.remove(from as int).insert(
        over as int,
        order@[from as int],
    ));
    assert(final(b).project_order@.remove(over as int) =~= order@.remove(from as int));
}

/// Menus and dialogs of a project are that project's, and close.
pub proof fn a_project_s_menus_are_its_own(
    a: &mut Shell,
    b: &mut Shell,
    c: &mut Shell,
    d: &mut Shell,
    project: String,
)
    requires
        call_ensures(Shell::open_project_menu, (a, project), ()),
        call_ensures(Shell::confirm_delete, (b, project), ()),
        call_ensures(Shell::cancel_delete, (c,), ()),
        call_ensures(Shell::cancel_rename, (d,), ()),
    ensures
        final(a).project_menu == Some(project),
        final(b).delete_project_confirm == Some(project) && final(b).project_menu is None,
        final(c).delete_project_confirm is None && final(c).rename_project_dialog
            == old(c).rename_project_dialog,
        final(d).rename_project_dialog is None && final(d).delete_project_confirm
            == old(d).delete_project_confirm,
{
}

/// What is known of the runtime is said: its version and its place, or that it is
/// not there.
pub proof fn the_runtime_is_described(r: &PiRuntime, s: String)
    requires
        call_ensures(runtime_detail, (r,), s),
    ensures
        !r.installed ==> s@ == "Pi was not found on this device"@,
        r.installed && r.version is Some && r.executable is Some ==> s@ == r.version->0@
            + " \u{b7} "@ + r.executable->0@,
        r.installed && r.version is None && r.executable is Some ==> s@ == "Version unavailable"@
            + " \u{b7} "@ + r.executable->0@,
        r.installed && r.version is Some && r.executable is None ==> s@ == r.version->0@
            + " \u{b7} "@ + "Executable unavailable"@,
{
}

/// An endpoint is described by its address and its number of models.
pub proof fn an_endpoint_is_described(c: &PiOpenAiCompatible, s: String)
    requires
        call_ensures(compatible_detail, (c,), s),
    ensures
        c.base_url is Some && c.model_count == 1 ==> s@ == c.base_url->0@ + " \u{b7} "@ + "1 model"@,
        c.base_url is Some && c.model_count != 1 ==> s@ == c.base_url->0@ + " \u{b7} "@ + (decimal(
            c.model_count as nat,
        ) + " models"@),
        c.base_url is None ==> s@ == "Use any OpenAI Chat Completions endpoint"@,
{
}

/// The files of the page are named by what they hold, and the one that was copied
/// is marked.
pub proof fn files_are_named(
    s: &PiSettingsSnapshot,
    copied: &Option<String>,
    rows: Vec<PathRow>,
    k: int,
)
    requires
        call_ensures(advanced_paths, (s, copied), rows),
    ensures
        rows@.len() == (if s.project_settings_path is Some {
            4int
        } else {
            3int
        }),
        rows@[0].label@ == "Global settings"@ && rows@[0].path@ == s.global_settings_path@,
        s.project_settings_path matches Some(p) ==> rows@[1].label@ == "Project settings"@
            && rows@[1].path@ == p@,
        rows@[rows@.len() - 2].label@ == "Provider credentials"@ && rows@[rows@.len() - 2].path@
            == s.auth_path@,
        rows@[rows@.len() - 1].label@ == "Custom models"@ && rows@[rows@.len() - 1].path@
            == s.models_path@,
        0 <= k < rows@.len() ==> (rows@[k].copied <==> opt(*copied) == Some(rows@[k].path@)),
{
    let v = crate::settings::pi_view::path_views(rows@);
    assert(v.len() == rows@.len());
    assert forall|i: int| 0 <= i < rows@.len() implies v[i] == (#[trigger] rows@[i])@ by {}
    assert(v[0] == rows@[0]@);
    assert(v[1] == rows@[1]@);
    assert(v[2] == rows@[2]@);
    if s.project_settings_path is Some {
        assert(v[3] == rows@[3]@);
    }
    if 0 <= k < rows@.len() {
        assert(v[k] == rows@[k]@);
    }
}

/// A path that was copied is the one that is marked, until the mark is cleared.
pub proof fn a_copied_path_is_marked(
    a: &mut PiSettingsPage,
    path: String,
    b: &mut PiSettingsPage,
)
    requires
        call_ensures(PiSettingsPage::copy_path, (a, path), ()),
        call_ensures(PiSettingsPage::clear_copied, (b,), ()),
    ensures
        final(a).copied == Some(path) && final(a).snapshot == old(a).snapshot,
        final(b).copied is None && final(b).snapshot == old(b).snapshot,
{
}

/// A shell goes by the last part of its path; one without a name is a terminal.
pub proof fn a_shell_is_named_by_its_path(shell: &str, s: String)
    requires
        call_ensures(shell_title, (shell,), s),
    ensures
        s@.len() > 0,
        trimmed(after_last_of(shell@, '/', '\\')).len() > 0 ==> s@ == trimmed(
            after_last_of(shell@, '/', '\\'),
        ),
        trimmed(after_last_of(shell@, '/', '\\')).len() == 0 ==> s@ == "terminal"@,
{
    reveal_strlit("terminal");
}

}
