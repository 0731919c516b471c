use nova_ui::proto::{Device, PeerView, Project};
use nova_ui::settings::appearance::{
    arrange_fonts, names_monospace, offers, AppearanceEvent, AppearancePage, FontKind,
};
use nova_ui::settings::developer::{DeveloperEvent, DeveloperPage};
use nova_ui::settings::nova::{
    found_row, local_line, peer_line, scan_ranges, short_ticket, FoundPeer, LocalDevice, NovaPage,
    ScanEvent,
};
use nova_ui::settings::pi::{
    decode_snapshot, next_transport, next_trust, PackageAction, PiDialog, PiOpenAiCompatible,
    PiPackageInfo, PiProviderStatus, PiResourceInfo, PiRuntime, PiSection, PiSettings,
    PiSettingsPage, PiSettingsScope, PiSettingsSnapshot,
};
use nova_ui::settings::pi_view::{
    advanced_paths, compatible_detail, default_model, dialog_copy, key_label, package_rows,
    provider_rows, resource_rows, runtime_detail, scope_name, thinking,
};
use nova_ui::shell::projects::Loadable;
use nova_ui::state::{AppState, EngineHandle, EngineMode};
use nova_ui::wire::{Method, Request, Value};

fn app() -> AppState {
    let mut state = AppState::new();
    let handle = EngineHandle {
        mode: EngineMode::InProcess,
        serving: true,
    };
    let _ = state.attach_engine(handle);
    state.on_local_device(None, Some(Value::Text("here".into())));
    let device = |id: &str, name: &str| Device {
        id: id.into(),
        name: name.into(),
        platform: "linux".into(),
        last_seen_at: None,
        created_at: None,
        version: None,
    };
    state.apply_devices(vec![device("here", "Desk"), device("there", "Server")]);
    state.apply_projects(vec![Project {
        id: "p".into(),
        device_id: "there".into(),
        path: "/srv/app".into(),
        display_name: "app".into(),
        git_detected: true,
        created_at: 0,
    }]);
    state
}

fn text<'a>(request: &'a Request, name: &str) -> Option<&'a str> {
    match request.param(name) {
        Some(Value::Text(s)) => Some(s),
        _ => None,
    }
}

#[test]
fn family_role_detection_keeps_code_fonts_monospace() {
    assert!(AppearancePage::is_monospace("JetBrains Mono"));
    assert!(AppearancePage::is_monospace("DejaVu Sans Mono"));
    assert!(!AppearancePage::is_monospace("Noto Sans"));
}

#[test]
fn roles_go_by_the_small_name() {
    assert!(names_monospace("fira code"));
    assert!(!names_monospace("FIRA CODE"));
    assert!(AppearancePage::is_monospace("FIRA CODE"));
    assert!(offers(FontKind::Code, "fira code", "fira"));
    assert!(!offers(FontKind::Ui, "fira code", "fira"));
    assert!(!offers(FontKind::Code, "fira code", "hack"));
}

#[test]
fn fonts_are_listed_by_name_whatever_their_case() {
    let fonts = vec!["zed".into(), "Arial".into(), "beta".into(), "Arial".into()];
    assert_eq!(arrange_fonts(fonts), ["Arial", "beta", "zed"]);
    let page = AppearancePage::new(
        "Inter".into(),
        "Hack Mono".into(),
        vec!["noto sans".into(), "Geist".into()],
    );
    assert_eq!(
        page.available_fonts,
        ["Geist", "Geist Mono", "Hack Mono", "Inter", "noto sans"]
    );
    assert_eq!(page.matching_fonts(FontKind::Ui, ""), ["Geist", "Inter", "noto sans"]);
    assert_eq!(page.matching_fonts(FontKind::Code, " HACK "), ["Hack Mono"]);
    assert_eq!(page.value(FontKind::Ui), "Inter");
    assert_eq!(page.value(FontKind::Code), "Hack Mono");
}

#[test]
fn fonts_are_typed_and_picked() {
    let mut page = AppearancePage::new("Inter".into(), "Hack Mono".into(), vec![]);
    let event = page.on_edited(FontKind::Ui, "Not".into());
    assert_eq!(
        event,
        AppearanceEvent::Changed {
            ui_font: "Not".into(),
            code_font: "Hack Mono".into()
        }
    );
    assert_eq!(page.open_menu, Some(FontKind::Ui));
    let event = page.set_font(FontKind::Ui, "Noto Sans".into());
    assert_eq!(
        event,
        AppearanceEvent::Changed {
            ui_font: "Noto Sans".into(),
            code_font: "Hack Mono".into()
        }
    );
    assert_eq!(page.ui_font, "Noto Sans");
    assert_eq!(page.open_menu, None);
    let event = page.on_submitted();
    assert_eq!(
        event,
        AppearanceEvent::Changed {
            ui_font: "Noto Sans".into(),
            code_font: "Hack Mono".into()
        }
    );
    assert_eq!(FontKind::Ui.heading(), "UI fonts");
    assert_eq!(FontKind::Code.label(), "code");
}

#[test]
fn the_click_that_dismissed_a_menu_does_not_open_it_again() {
    let mut page = AppearancePage::new("Inter".into(), "Hack Mono".into(), vec![]);
    page.toggle_menu(FontKind::Code, 0);
    assert_eq!(page.open_menu, Some(FontKind::Code));
    page.dismiss_menu(1000);
    page.toggle_menu(FontKind::Code, 1001);
    assert_eq!(page.open_menu, None);
    page.toggle_menu(FontKind::Code, 1002);
    assert_eq!(page.open_menu, Some(FontKind::Code));
    page.toggle_menu(FontKind::Code, 5000);
    assert_eq!(page.open_menu, None);
}

#[test]
fn the_hot_reload_switch_flips() {
    let mut page = DeveloperPage::new(false);
    assert_eq!(page.toggle(), DeveloperEvent::HotReloadChanged(true));
    assert!(page.hot_reload);
    assert_eq!(page.toggle(), DeveloperEvent::HotReloadChanged(false));
}

fn peer(id: &str, endpoint: &str) -> PeerView {
    PeerView {
        device_id: id.into(),
        name: id.to_uppercase(),
        platform: "linux".into(),
        endpoint: endpoint.into(),
        role: "peer".into(),
        revoked: false,
        paired_at: 0,
    }
}

#[test]
fn pairing_needs_a_ticket_and_six_digits() {
    let state = app();
    let mut page = NovaPage::new();
    page.endpoint = " ticket ".into();
    for bad in ["", "12345", "1234567", "12a456", "１２３４５６"] {
        page.code = bad.into();
        assert!(page.pair(&state).is_none());
        assert_eq!(
            page.error,
            Some("enter a peer's iroh ticket and 6-digit code".to_string())
        );
    }
    page.code = " 123456".into();
    let call = page.pair(&state).unwrap();
    assert!(call.request.method() == Method::NovaPairPeer);
    assert_eq!(text(&call.request, "endpoint"), Some("ticket"));
    assert_eq!(text(&call.request, "code"), Some("123456"));
    assert!(page.busy && page.error.is_none());
    assert!(page.on_reply(Method::NovaPairPeer, call.success, Ok(None)));
    assert_eq!(page.status, Some("device paired".to_string()));
    assert_eq!(page.code, "");
    assert!(!page.on_reply(Method::NovaPairPeer, "device paired", Err("late".into())));
    assert_eq!(page.error, Some("device paired failed: late".to_string()));
}

#[test]
fn a_code_is_good_for_one_pairing() {
    let state = app();
    let mut page = NovaPage::new();
    page.on_peers(vec![peer("a", "t")]);
    page.pairing_code = None;
    let call = page.begin_pairing(&state).unwrap();
    assert!(call.request.method().takes_null());
    assert!(!page.on_reply(Method::NovaBeginPairing, call.success, Ok(Some("111222".into()))));
    assert_eq!(page.frame().badge, "111222");
    // Known peers leave the code alone; a new one uses it up.
    page.on_peers(vec![peer("a", "t")]);
    assert_eq!(page.pairing_code, Some("111222".to_string()));
    page.on_peers(vec![peer("a", "t"), peer("b", "u")]);
    assert_eq!(page.pairing_code, None);
    assert_eq!(page.status, Some("device paired".to_string()));
    assert_eq!(page.frame().badge, "not pairing");
}

#[test]
fn scans_need_a_range_and_tell_how_they_end() {
    let state = app();
    assert_eq!(scan_ranges(" 10.0.0.0/8 \n\n\t\n1.2.3.4/32"), ["10.0.0.0/8", "1.2.3.4/32"]);
    let mut page = NovaPage::new();
    page.ranges = " \n ".into();
    assert!(page.run_scan(&state).is_none());
    assert_eq!(page.error, Some("add at least one cidr range".to_string()));
    page.ranges = "10.0.0.0/24".into();
    let request = page.run_scan(&state).unwrap();
    assert!(request.method() == Method::NovaScan);
    assert!(page.busy && page.error.is_none());
    let found = FoundPeer::Open {
        addr: "10.0.0.7:27655".into(),
    };
    assert!(page.on_scan(ScanEvent::Found(found)));
    assert_eq!(page.found.len(), 1);
    assert!(!page.on_scan(ScanEvent::Done { error: None }));
    assert_eq!(page.status, Some("scan complete".to_string()));
    let _ = page.run_scan(&state);
    assert!(!page.on_scan(ScanEvent::Failed {
        error: "no route".into()
    }));
    assert_eq!(page.error, Some("scan failed: no route".to_string()));
    assert!(!page.busy);
}

#[test]
fn peers_are_edited_tested_and_removed() {
    let state = app();
    let mut page = NovaPage::new();
    page.open_edit(&peer("a", " ticket "));
    page.toggle_role();
    page.cancel_edit();
    assert!(page.save_edit(&state).is_none());
    page.open_edit(&peer("a", " ticket "));
    page.toggle_role();
    let call = page.save_edit(&state).unwrap();
    assert!(call.request.method() == Method::NovaUpdatePeer);
    assert_eq!(text(&call.request, "role"), Some("admin"));
    assert_eq!(text(&call.request, "endpoint"), Some("ticket"));
    assert!(page.edit.is_none());
    let calls = [
        (page.test_peer(&state, "a").unwrap(), Method::NovaTestPeer),
        (page.revoke(&state, "a").unwrap(), Method::NovaRevokePeer),
        (page.forget(&state, "a").unwrap(), Method::NovaForgetPeer),
    ];
    for (call, method) in &calls {
        assert!(call.request.method() == *method);
        assert_eq!(text(&call.request, "deviceId"), Some("a"));
    }
}

#[test]
fn long_tickets_are_cut_in_the_middle() {
    let exact = "a".repeat(32);
    assert_eq!(short_ticket(&exact), exact);
    let long = format!("{}{}{}", "a".repeat(20), "b".repeat(30), "c".repeat(8));
    assert_eq!(
        short_ticket(&long),
        format!("{}…{}", "a".repeat(20), "c".repeat(8))
    );
    let mut revoked = peer("a", "short");
    revoked.revoked = true;
    assert_eq!(peer_line(&revoked), "linux · peer · short · revoked");
}

#[test]
fn this_engine_introduces_itself() {
    assert_eq!(local_line(&None), "loading local identity…");
    let mut state = app();
    let mut page = NovaPage::new();
    let (local, peers) = page.refresh(&state).unwrap();
    assert!(local.method() == Method::NovaLocalDevice);
    assert!(peers.method() == Method::NovaListPeers);
    let device = LocalDevice {
        device_id: "here".into(),
        name: "Desk".into(),
        port: 27655,
        ticket: "long-ticket".into(),
    };
    page.on_refreshed(&mut state, Some(device), Some(vec![peer("b", "u")]));
    assert_eq!(page.frame().local_line, "Desk · here · port 27655");
    assert_eq!(page.frame().peers[0].name, "B");
    assert_eq!(page.copy_ticket(), Some("long-ticket".to_string()));
    assert_eq!(page.status, Some("iroh ticket copied".to_string()));
    page.use_address("10.0.0.9".into());
    assert_eq!(page.endpoint, "10.0.0.9");
}

#[test]
fn found_engines_offer_their_ticket() {
    let row = found_row(&FoundPeer::Nova {
        addr: "10.0.0.7".into(),
        device_id: "id".into(),
        name: "Box".into(),
        ticket: "t".into(),
        trusted: true,
    });
    assert_eq!(row.title, "Box");
    assert_eq!(row.detail, "id · 10.0.0.7");
    assert_eq!(row.ticket, Some("t".to_string()));
    assert!(row.trusted);
    let open = found_row(&FoundPeer::Open {
        addr: "10.0.0.8".into(),
    });
    assert_eq!(open.ticket, None);
}

fn snapshot() -> PiSettingsSnapshot {
    PiSettingsSnapshot {
        runtime: PiRuntime {
            installed: true,
            version: Some("0.9".into()),
            executable: None,
        },
        settings: PiSettings {
            default_provider: Some("vendor".into()),
            default_model: Some("big".into()),
            default_thinking_level: None,
            auto_compaction: true,
            auto_retry: false,
            default_project_trust: "ask".into(),
            transport: "auto".into(),
        },
        openai_compatible: PiOpenAiCompatible {
            configured: true,
            base_url: Some("http://box/v1".into()),
            model_count: 2,
            has_stored_key: true,
        },
        providers: vec![
            provider("openai-compatible", true),
            provider("vendor", true),
            provider("other", false),
        ],
        packages: vec![
            package("npm:a", PiSettingsScope::Global),
            package("git:b", PiSettingsScope::Project),
        ],
        resources: vec![PiResourceInfo {
            kind: "skill".into(),
            path: "/s".into(),
            scope: PiSettingsScope::Project,
        }],
        global_settings_path: "/g".into(),
        project_settings_path: None,
        auth_path: "/a".into(),
        models_path: "/m".into(),
        effective_settings_json: "{}".into(),
    }
}

fn provider(id: &str, configured: bool) -> PiProviderStatus {
    PiProviderStatus {
        id: id.into(),
        name: id.to_uppercase(),
        configured,
        source: "auth.json".into(),
    }
}

fn package(source: &str, scope: PiSettingsScope) -> PiPackageInfo {
    PiPackageInfo {
        source: source.into(),
        kind: "npm".into(),
        scope,
        pinned: false,
    }
}

#[test]
fn settings_are_loaded_from_the_chosen_device() {
    let state = app();
    let mut page = PiSettingsPage::new(PiSection::Overview);
    let call = page.load(&state).unwrap();
    assert!(call.request.method() == Method::GetPiSettings);
    assert_eq!(text(&call.request, "targetDeviceId"), None);
    assert_eq!(call.project_path, None);
    let call = page.set_device(&state, "there".into()).unwrap();
    assert_eq!(text(&call.request, "targetDeviceId"), Some("there"));
    assert_eq!(page.effective_device(&state), Some("there".to_string()));
    let _ = page.set_device(&state, "here".into());
    assert_eq!(page.target_device, None);
    // The scope of a project is its host's.
    let call = page.set_scope(&state, PiSettingsScope::Project).unwrap();
    assert_eq!(call.scope, PiSettingsScope::Project);
    assert_eq!(call.project_path, Some("/srv/app".to_string()));
    assert_eq!(text(&call.request, "targetDeviceId"), Some("there"));
    assert!(page.set_scope(&state, PiSettingsScope::Project).is_none());
    let frame = page.context_frame(&state);
    assert_eq!(frame.device_name, "Server");
    assert!(frame.project.selected && !frame.global.selected);
}

#[test]
fn replies_are_settings_or_say_why_not() {
    let mut page = PiSettingsPage::new(PiSection::Overview);
    page.on_loaded(decode_snapshot(Ok(Ok(snapshot()))));
    assert!(matches!(page.snapshot, Loadable::Ready(_)));
    page.on_loaded(decode_snapshot(Ok(Err("line 1".into()))));
    match &page.snapshot {
        Loadable::Error(m) => assert_eq!(m, "Malformed Pi settings reply: line 1"),
        _ => panic!("not an error"),
    }
    page.on_loaded(decode_snapshot(Err("offline".into())));
    assert!(matches!(&page.snapshot, Loadable::Error(m) if m == "offline"));
    page.busy = Some("x".into());
    page.on_snapshot(Err("refused".into()));
    assert_eq!(page.error, Some("refused".to_string()));
    assert_eq!(page.busy, None);
    let mut state = app();
    state.engine = None;
    assert!(page.load(&state).is_none());
    assert!(matches!(&page.snapshot, Loadable::Error(m) if m == "Engine not connected"));
}

#[test]
fn switches_flip_what_the_snapshot_says() {
    let state = app();
    let mut page = PiSettingsPage::new(PiSection::Overview);
    page.on_loaded(Ok(snapshot()));
    let call = page.toggle_compaction(&state).unwrap();
    assert_eq!(text(&call.request, "key"), Some("compaction.enabled"));
    assert!(matches!(call.request.param("value"), Some(Value::Bool(false))));
    let call = page.toggle_retry(&state).unwrap();
    assert!(matches!(call.request.param("value"), Some(Value::Bool(true))));
    let call = page.cycle_trust(&state, "ask").unwrap();
    assert_eq!(text(&call.request, "value"), Some("always"));
    let call = page.cycle_transport(&state, "sse").unwrap();
    assert_eq!(text(&call.request, "value"), Some("websocket"));
    assert_eq!(page.busy, Some("Saving Pi settings…".to_string()));
}

#[test]
fn cycles_come_round_in_three_steps() {
    assert_eq!(next_trust(next_trust(next_trust("ask"))), "ask");
    assert_eq!(next_trust("anything"), "ask");
    assert_eq!(next_transport(next_transport(next_transport("auto"))), "auto");
}

#[test]
fn keys_are_stored_and_removed() {
    let state = app();
    let mut page = PiSettingsPage::new(PiSection::Providers);
    page.open_api_key(&provider("vendor", false));
    assert!(page.submit_api_key(&state).is_none());
    assert_eq!(page.error, Some("Enter an API key first".to_string()));
    match page.dialog.as_mut().unwrap() {
        PiDialog::ApiKey { input, .. } => *input = " key ".into(),
        _ => panic!("another dialog"),
    }
    let call = page.submit_api_key(&state).unwrap();
    assert!(call.request.method() == Method::SetPiCredential);
    assert_eq!(text(&call.request, "provider"), Some("vendor"));
    assert_eq!(text(&call.request, "key"), Some("key"));
    page.open_remove_credential(&provider("vendor", true));
    let call = page.confirm_dialog(&state).unwrap();
    assert!(call.request.method() == Method::RemovePiCredential);
    assert!(page.dialog.is_none());
}

#[test]
fn a_blank_key_keeps_the_stored_one() {
    let state = app();
    let mut page = PiSettingsPage::new(PiSection::Providers);
    page.open_openai_compatible(&snapshot().openai_compatible);
    let call = page.submit_openai_compatible(&state).unwrap();
    assert!(call.request.method() == Method::SetPiOpenAiCompatible);
    assert_eq!(text(&call.request, "baseUrl"), Some("http://box/v1"));
    assert!(matches!(call.request.param("apiKey"), Some(Value::Null)));
}

#[test]
fn packages_act_in_their_own_scope() {
    let state = app();
    let mut page = PiSettingsPage::new(PiSection::Packages);
    let call = page
        .package_action(&state, PackageAction::Update, "git:b", PiSettingsScope::Project)
        .unwrap();
    assert_eq!(call.scope, PiSettingsScope::Project);
    // With the folder and the host of its own scope.
    assert_eq!(page.scope, PiSettingsScope::Global);
    assert_eq!(call.project_path, Some("/srv/app".to_string()));
    assert_eq!(text(&call.request, "targetDeviceId"), Some("there"));
    assert_eq!(text(&call.request, "action"), Some("update"));
    assert_eq!(page.busy, Some("Updating Pi package…".to_string()));
    page.open_remove_package("git:b".into(), PiSettingsScope::Project);
    let call = page.confirm_dialog(&state).unwrap();
    assert_eq!(call.scope, PiSettingsScope::Project);
    assert_eq!(text(&call.request, "action"), Some("remove"));
    page.open_remove_package("git:b".into(), PiSettingsScope::Project);
    page.cancel_dialog();
    assert!(page.confirm_dialog(&state).is_none());
    page.open_install();
    assert!(page.submit_package(&state).is_none());
    assert_eq!(
        page.error,
        Some("Enter an npm, Git, or local package source".to_string())
    );
    page.dialog = Some(PiDialog::InstallPackage {
        input: " npm:x".into(),
    });
    let call = page.submit_package(&state).unwrap();
    assert_eq!(text(&call.request, "source"), Some("npm:x"));
    assert_eq!(text(&call.request, "action"), Some("install"));
}

#[test]
fn the_pi_page_in_words() {
    let s = snapshot();
    assert!(runtime_detail(&s.runtime).starts_with("0.9 · "));
    assert_eq!(default_model(&s.settings), "vendor/big");
    assert_eq!(thinking(&s.settings), "Model default");
    assert!(compatible_detail(&s.openai_compatible).starts_with("http://box/v1 · 2 models"));
    assert_eq!(scope_name(PiSettingsScope::Global), "Global");
    let rows = provider_rows(&s.providers);
    let ids: Vec<&str> = rows.iter().map(|r| r.id.as_str()).collect();
    assert_eq!(ids, ["vendor", "other"]);
    assert_eq!(package_rows(&s.packages, PiSettingsScope::Project)[0].source, "git:b");
    assert!(resource_rows(&s.resources, PiSettingsScope::Global).is_empty());
    let paths = advanced_paths(&s, &Some("/a".into()));
    assert_eq!(paths.len(), 3);
    assert!(paths[1].copied && !paths[0].copied);
    assert_eq!(PiSection::Advanced.title(), "Pi advanced");
    assert_eq!(key_label(false), "API key (optional)");
    let copy = dialog_copy(&PiDialog::ApiKey {
        provider: "v".into(),
        provider_name: "V".into(),
        input: String::new(),
    });
    assert_eq!(copy.title, "Add provider API key");
    assert!(!copy.destructive);
}

#[test]
fn another_section_closes_the_dialog() {
    let mut page = PiSettingsPage::new(PiSection::Overview);
    page.dialog = Some(PiDialog::InstallPackage { input: "x".into() });
    page.set_section(PiSection::Overview);
    assert!(page.dialog.is_some());
    page.set_section(PiSection::Advanced);
    assert!(page.dialog.is_none());
    page.copy_path("/g".into());
    assert_eq!(page.copied, Some("/g".to_string()));
    page.clear_copied();
    assert_eq!(page.copied, None);
}
