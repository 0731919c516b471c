//! The settings of Pi: its runtime, provider credentials, packages and files.
//! The page always names the device that runs Pi and the scope of a setting,
//! and every call carries both.
use vstd::prelude::*;
use vstd::string::*;

use crate::proto::Project;
use crate::seqs::kept;
use crate::shell::projects::Loadable;
use crate::state::{at, project_ix, AppState};
use crate::text::{same, trim, trimmed};
use crate::wire::{
    copy_opt, is_text, opt, routed, with_target, Call, Method, Request, Value, ValueView,
};

verus! {

/// How long a path shows as copied, in milliseconds.
pub const COPIED_MS: u64 = 1400;

/// A click on the trigger this many milliseconds after its menu was dismissed
/// belongs to the dismissal.
pub const DISMISS_MS: u64 = 400;

#[derive(Debug, Clone, Copy, PartialEq, Eq, Structural)]
pub enum PiSection {
    Overview,
    Providers,
    Packages,
    Advanced,
}

/// Where a setting holds.
#[derive(Debug, Clone, Copy, PartialEq, Eq, Structural)]
pub enum PiSettingsScope {
    Global,
    Project,
}

impl PiSection {
    pub fn title(self) -> (s: &'static str)
        ensures
            s@ == (match self {
                PiSection::Overview => "Pi overview"@,
                PiSection::Providers => "Provider credentials"@,
                PiSection::Packages => "Packages & resources"@,
                PiSection::Advanced => "Pi advanced"@,
            }),
    {
        match self {
            PiSection::Overview => "Pi overview",
            PiSection::Providers => "Provider credentials",
            PiSection::Packages => "Packages & resources",
            PiSection::Advanced => "Pi advanced",
        }
    }

    pub fn subtitle(self) -> (s: &'static str)
        ensures
            s@ == (match self {
                PiSection::Overview =>
                    "Runtime behavior on the device that launches this project's Pi sessions."@,
                PiSection::Providers =>
                    "Provider authentication used by Pi on this device. Secret values are never displayed."@,
                PiSection::Packages =>
                    "Install and inspect extensions, skills, prompts, and themes in Pi's native scopes."@,
                PiSection::Advanced =>
                    "Configuration files, RPC compatibility, and the effective merged Pi settings."@,
            }),
    {
        match self {
            PiSection::Overview =>
                "Runtime behavior on the device that launches this project's Pi sessions.",
            PiSection::Providers =>
                "Provider authentication used by Pi on this device. Secret values are never displayed.",
            PiSection::Packages =>
                "Install and inspect extensions, skills, prompts, and themes in Pi's native scopes.",
            PiSection::Advanced =>
                "Configuration files, RPC compatibility, and the effective merged Pi settings.",
        }
    }
}

#[derive(Debug)]
pub struct PiRuntime {
    pub installed: bool,
    pub version: Option<String>,
    pub executable: Option<String>,
}

#[derive(Debug)]
pub struct PiSettings {
    pub default_provider: Option<String>,
    pub default_model: Option<String>,
    pub default_thinking_level: Option<String>,
    pub auto_compaction: bool,
    pub auto_retry: bool,
    pub default_project_trust: String,
    pub transport: String,
}

#[derive(Debug)]
pub struct PiOpenAiCompatible {
    pub configured: bool,
    pub base_url: Option<String>,
    pub model_count: usize,
    pub has_stored_key: bool,
}

#[derive(Debug)]
pub struct PiProviderStatus {
    pub id: String,
    pub name: String,
    pub configured: bool,
    pub source: String,
}

#[derive(Debug)]
pub struct PiPackageInfo {
    pub source: String,
    pub kind: String,
    pub scope: PiSettingsScope,
    pub pinned: bool,
}

#[derive(Debug)]
pub struct PiResourceInfo {
    pub kind: String,
    pub path: String,
    pub scope: PiSettingsScope,
}

/// What Pi's device reports.
#[derive(Debug)]
pub struct PiSettingsSnapshot {
    pub runtime: PiRuntime,
    pub settings: PiSettings,
    pub openai_compatible: PiOpenAiCompatible,
    pub providers: Vec<PiProviderStatus>,
    pub packages: Vec<PiPackageInfo>,
    pub resources: Vec<PiResourceInfo>,
    pub global_settings_path: String,
    pub project_settings_path: Option<String>,
    pub auth_path: String,
    pub models_path: String,
    pub effective_settings_json: String,
}

/// A dialog, with what was typed into it.
#[derive(Debug)]
pub enum PiDialog {
    ApiKey { provider: String, provider_name: String, input: String },
    OpenAiCompatible { base_url: String, api_key: String, has_stored_key: bool },
    InstallPackage { input: String },
    RemoveCredential { provider: String, provider_name: String },
    RemovePackage { source: String, scope: PiSettingsScope },
}

/// What a package is to do.
#[derive(Debug, Clone, Copy, PartialEq, Eq, Structural)]
pub enum PackageAction {
    Install,
    Update,
    Remove,
}

/// A call about Pi: besides its own parameters it carries the scope, and the
/// project's folder in the scope of a project.
pub struct PiCall {
    pub request: Request,
    pub scope: PiSettingsScope,
    pub project_path: Option<String>,
}

/// What a call about Pi says.
pub ghost struct PiCallView {
    pub call: Call,
    pub scope: PiSettingsScope,
    pub project_path: Option<Seq<char>>,
}

impl View for PiCall {
    type V = PiCallView;

    open spec fn view(&self) -> PiCallView {
        PiCallView {
            call: self.request@,
            scope: self.scope,
            project_path: opt(self.project_path),
        }
    }
}

/// The page.
#[derive(Debug)]
pub struct PiSettingsPage {
    pub section: PiSection,
    pub scope: PiSettingsScope,
    /// Another device than the connected engine's own.
    pub target_device: Option<String>,
    pub device_menu_open: bool,
    pub menu_dismissed_at: Option<u64>,
    pub snapshot: Loadable<PiSettingsSnapshot>,
    pub busy: Option<String>,
    pub error: Option<String>,
    pub copied: Option<String>,
    pub dialog: Option<PiDialog>,
}

/// The selected project.
pub open spec fn selected_row(state: AppState) -> Option<Project> {
    match state.selected_project {
        Some(id) => at(state.projects@, project_ix(state.projects@, id@)),
        None => None,
    }
}

/// The device that a scope of the page is about: the project's, in the scope of a
/// project, or else the one that was picked, or else this one.
pub open spec fn scope_device(
    page: PiSettingsPage,
    state: AppState,
    scope: PiSettingsScope,
) -> Option<Seq<char>> {
    if scope == PiSettingsScope::Project {
        match selected_row(state) {
            Some(p) => Some(p.device_id@),
            None => None,
        }
    } else {
        match page.target_device {
            Some(d) => Some(d@),
            None => opt(state.local_device_id),
        }
    }
}

/// The device that the page is about.
pub open spec fn device_of(page: PiSettingsPage, state: AppState) -> Option<Seq<char>> {
    scope_device(page, state, page.scope)
}

/// The device that a call in a scope has to be routed to: the scope's, when it is
/// not this one.
pub open spec fn target_of(
    page: PiSettingsPage,
    state: AppState,
    scope: PiSettingsScope,
) -> Option<Seq<char>> {
    match scope_device(page, state, scope) {
        Some(d) if opt(state.local_device_id) != Some(d) => Some(d),
        _ => None,
    }
}

/// The project's folder, in the scope of a project.
pub open spec fn folder_of(state: AppState, scope: PiSettingsScope) -> Option<Seq<char>> {
    if scope == PiSettingsScope::Project {
        match selected_row(state) {
            Some(p) => Some(p.path@),
            None => None,
        }
    } else {
        None
    }
}

/// A call in a scope, to the device and with the folder of that scope.
pub open spec fn scoped(
    page: PiSettingsPage,
    state: AppState,
    call: Call,
    scope: PiSettingsScope,
) -> PiCallView {
    PiCallView {
        call: routed(call, target_of(page, state, scope)),
        scope,
        project_path: folder_of(state, scope),
    }
}

/// Whether a call is made, and which.
pub open spec fn makes(r: Option<PiCall>, wanted: bool, call: PiCallView) -> bool {
    match r {
        Some(c) => wanted && c@ == call,
        None => !wanted,
    }
}

/// The page with a call under way.
pub open spec fn is_calling(before: PiSettingsPage, after: PiSettingsPage, busy: Seq<char>) -> bool {
    &&& opt(after.busy) == Some(busy)
    &&& after == (PiSettingsPage { busy: after.busy, error: None, ..before })
}

/// The page that asked for the settings, or could not.
pub open spec fn is_loading(before: PiSettingsPage, after: PiSettingsPage, engine: bool) -> bool {
    if engine {
        after == (PiSettingsPage { snapshot: Loadable::Loading, error: None, ..before })
    } else {
        &&& after.snapshot matches Loadable::Error(m) && m@ == "Engine not connected"@
        &&& after == (PiSettingsPage { snapshot: after.snapshot, ..before })
    }
}

/// The call for the settings.
pub open spec fn load_call() -> Call {
    Call { method: Method::GetPiSettings, params: Map::empty() }
}

/// The name of a package action.
pub open spec fn action_text(a: PackageAction) -> Seq<char> {
    match a {
        PackageAction::Install => "install"@,
        PackageAction::Update => "update"@,
        PackageAction::Remove => "remove"@,
    }
}

/// What is said while a package action is under way.
pub open spec fn action_busy(a: PackageAction) -> Seq<char> {
    match a {
        PackageAction::Install => "Installing Pi package\u{2026}"@,
        PackageAction::Remove => "Removing Pi package\u{2026}"@,
        PackageAction::Update => "Updating Pi package\u{2026}"@,
    }
}

/// The call of a package action.
pub open spec fn package_call(a: PackageAction, source: Seq<char>) -> Call {
    Call {
        method: Method::PiPackageAction,
        params: Map::empty().insert("action"@, ValueView::Text(action_text(a))).insert(
            "source"@,
            ValueView::Text(source),
        ),
    }
}

/// The call that changes a setting.
pub open spec fn setting_call(key: Seq<char>, value: ValueView) -> Call {
    Call {
        method: Method::SetPiSetting,
        params: Map::empty().insert("key"@, ValueView::Text(key)).insert("value"@, value),
    }
}

/// The text of an option.
pub open spec fn says(o: Option<String>, text: Seq<char>) -> bool {
    opt(o) == Some(text)
}

impl PiSettingsPage {
    pub fn new(section: PiSection) -> (p: PiSettingsPage)
        ensures
            p.section == section,
            p.scope == PiSettingsScope::Global,
            p.target_device is None,
            !p.device_menu_open,
            p.menu_dismissed_at is None,
            p.snapshot is Idle,
            p.busy is None,
            p.error is None,
            p.copied is None,
            p.dialog is None,
    {
        PiSettingsPage {
            section,
            scope: PiSettingsScope::Global,
            target_device: None,
            device_menu_open: false,
            menu_dismissed_at: None,
            snapshot: Loadable::Idle,
            busy: None,
            error: None,
            copied: None,
            dialog: None,
        }
    }

    /// Shows another section. Dialogs and errors were about the one before.
    pub fn set_section(&mut self, section: PiSection)
        ensures
            *final(self) == (if old(self).section == section {
                *old(self)
            } else {
                PiSettingsPage { section, dialog: None, error: None, ..*old(self) }
            }),
    {
        if self.section != section {
            self.section = section;
            self.dialog = None;
            self.error = None;
        }
    }

    fn device_in(&self, state: &AppState, scope: PiSettingsScope) -> (d: Option<String>)
        ensures
            opt(d) == scope_device(*self, *state, scope),
    {
        match scope {
            PiSettingsScope::Project => match state.selected_project_row() {
                Some(p) => Some(p.device_id.clone()),
                None => None,
            },
            PiSettingsScope::Global => match &self.target_device {
                Some(d) => Some(d.clone()),
                None => copy_opt(&state.local_device_id),
            },
        }
    }

    /// The device that the page is about.
    pub fn effective_device(&self, state: &AppState) -> (d: Option<String>)
        ensures
            opt(d) == device_of(*self, *state),
    {
        self.device_in(state, self.scope)
    }

    fn target(&self, state: &AppState, scope: PiSettingsScope) -> (d: Option<String>)
        ensures
            opt(d) == target_of(*self, *state, scope),
    {
        match self.device_in(state, scope) {
            None => None,
            Some(d) => if is_text(&state.local_device_id, d.as_str()) {
                None
            } else {
                Some(d)
            },
        }
    }

    fn folder(state: &AppState, scope: PiSettingsScope) -> (p: Option<String>)
        ensures
            opt(p) == folder_of(*state, scope),
    {
        match scope {
            PiSettingsScope::Project => match state.selected_project_row() {
                Some(p) => Some(p.path.clone()),
                None => None,
            },
            PiSettingsScope::Global => None,
        }
    }

    /// A call with what every call about Pi carries.
    fn scoped_call(&self, state: &AppState, request: Request, scope: PiSettingsScope) -> (c: PiCall)
        ensures
            c@ == scoped(*self, *state, request@, scope),
    {
        PiCall {
            request: with_target(request, &self.target(state, scope)),
            scope,
            project_path: PiSettingsPage::folder(state, scope),
        }
    }

    /// Asks for the settings.
    pub fn load(&mut self, state: &AppState) -> (r: Option<PiCall>)
        ensures
            is_loading(*old(self), *final(self), state.engine is Some),
            makes(
                r,
                state.engine is Some,
                scoped(*old(self), *state, load_call(), old(self).scope),
            ),
    {
        if state.engine.is_none() {
            self.snapshot = Loadable::Error("Engine not connected".to_owned());
            return None;
        }
        let call: PiCall = self.scoped_call(state, Request::new(Method::GetPiSettings), self.scope);
        self.snapshot = Loadable::Loading;
        self.error = None;
        Some(call)
    }

    /// The reply to asking for the settings.
    pub fn on_loaded(&mut self, reply: Result<PiSettingsSnapshot, String>)
        ensures
            *final(self) == (PiSettingsPage {
                snapshot: match reply {
                    Ok(s) => Loadable::Ready(s),
                    Err(e) => Loadable::Error(e),
                },
                ..*old(self)
            }),
    {
        self.snapshot = match reply {
            Ok(s) => Loadable::Ready(s),
            Err(e) => Loadable::Error(e),
        };
    }

    /// Makes a call that answers with the settings.
    fn call_snapshot(
        &mut self,
        state: &AppState,
        request: Request,
        scope: PiSettingsScope,
        busy: &str,
    ) -> (r: Option<PiCall>)
        ensures
            makes(r, state.engine is Some, scoped(*old(self), *state, request@, scope)),
            state.engine is Some ==> is_calling(*old(self), *final(self), busy@),
            state.engine is None ==> *final(self) == *old(self),
    {
        if state.engine.is_none() {
            return None;
        }
        let call: PiCall = self.scoped_call(state, request, scope);
        self.busy = Some(busy.to_owned());
        self.error = None;
        Some(call)
    }

    /// The reply to such a call: the new settings, or why there are none. The
    /// settings that are shown stay in that case.
    pub fn on_snapshot(&mut self, reply: Result<PiSettingsSnapshot, String>)
        ensures
            *final(self) == (match reply {
                Ok(s) => PiSettingsPage {
                    busy: None,
                    snapshot: Loadable::Ready(s),
                    ..*old(self)
                },
                Err(e) => PiSettingsPage { busy: None, error: Some(e), ..*old(self) },
            }),
    {
        self.busy = None;
        match reply {
            Ok(s) => {
                self.snapshot = Loadable::Ready(s);
            },
            Err(e) => {
                self.error = Some(e);
            },
        }
    }

    /// Changes a setting.
    pub fn set_setting(&mut self, state: &AppState, key: &str, value: Value) -> (r: Option<PiCall>)
        ensures
            makes(
                r,
                state.engine is Some,
                scoped(*old(self), *state, setting_call(key@, value@), old(self).scope),
            ),
            state.engine is Some ==> is_calling(
                *old(self),
                *final(self),
                "Saving Pi settings\u{2026}"@,
            ),
            state.engine is None ==> *final(self) == *old(self),
    {
        let request: Request = Request::new(Method::SetPiSetting).with_text("key", key).with(
            "value",
            value,
        );
        self.call_snapshot(state, request, self.scope, "Saving Pi settings\u{2026}")
    }

    /// Turns to another scope. The scope of a project needs a project.
    pub fn set_scope(&mut self, state: &AppState, scope: PiSettingsScope) -> (r: Option<PiCall>)
        ensures
            if old(self).scope == scope || (scope == PiSettingsScope::Project && selected_row(
                *state,
            ) is None) {
                r is None && *final(self) == *old(self)
            } else {
                let p = PiSettingsPage { scope, device_menu_open: false, ..*old(self) };
                &&& is_loading(p, *final(self), state.engine is Some)
                &&& makes(r, state.engine is Some, scoped(p, *state, load_call(), scope))
            },
    {
        if scope == PiSettingsScope::Project && state.selected_project_row().is_none() {
            return None;
        }
        if self.scope == scope {
            return None;
        }
        self.scope = scope;
        self.device_menu_open = false;
        self.load(state)
    }

    /// Turns to another device, in the global scope.
    pub fn set_device(&mut self, state: &AppState, device_id: String) -> (r: Option<PiCall>)
        ensures
            ({
                let p = PiSettingsPage {
                    target_device: if opt(state.local_device_id) == Some(device_id@) {
                        None
                    } else {
                        Some(device_id)
                    },
                    scope: PiSettingsScope::Global,
                    device_menu_open: false,
                    ..*old(self)
                };
                &&& is_loading(p, *final(self), state.engine is Some)
                &&& makes(
                    r,
                    state.engine is Some,
                    scoped(p, *state, load_call(), PiSettingsScope::Global),
                )
            }),
    {
        self.target_device = if is_text(&state.local_device_id, device_id.as_str()) {
            None
        } else {
            Some(device_id)
        };
        self.scope = PiSettingsScope::Global;
        self.device_menu_open = false;
        self.load(state)
    }

    /// A click on the trigger of the device menu.
    pub fn toggle_device_menu(&mut self, now_ms: u64)
        ensures
            *final(self) == (if old(self).menu_dismissed_at matches Some(at) && now_ms - at
                < DISMISS_MS {
                PiSettingsPage { menu_dismissed_at: None, ..*old(self) }
            } else {
                PiSettingsPage { device_menu_open: !old(self).device_menu_open, ..*old(self) }
            }),
    {
        let just_dismissed: bool = match self.menu_dismissed_at {
            Some(at) => now_ms < at || now_ms - at < DISMISS_MS,
            None => false,
        };
        if just_dismissed {
            self.menu_dismissed_at = None;
        } else {
            self.device_menu_open = !self.device_menu_open;
        }
    }

    /// A click elsewhere closes the device menu.
    pub fn dismiss_device_menu(&mut self, now_ms: u64)
        ensures
            *final(self) == (PiSettingsPage {
                device_menu_open: false,
                menu_dismissed_at: Some(now_ms),
                ..*old(self)
            }),
    {
        self.device_menu_open = false;
        self.menu_dismissed_at = Some(now_ms);
    }

    /// Opens the dialog that removes a provider's key.
    pub fn open_remove_credential(&mut self, provider: &PiProviderStatus)
        ensures
            *final(self) == (PiSettingsPage {
                dialog: Some(
                    PiDialog::RemoveCredential {
                        provider: provider.id,
                        provider_name: provider.name,
                    },
                ),
                ..*old(self)
            }),
    {
        self.dialog = Some(
            PiDialog::RemoveCredential {
                provider: provider.id.clone(),
                provider_name: provider.name.clone(),
            },
        );
    }

    /// Opens the dialog that installs a package.
    pub fn open_install(&mut self)
        ensures
            final(self).dialog matches Some(PiDialog::InstallPackage { input }) && input@.len()
                == 0,
            *final(self) == (PiSettingsPage { dialog: final(self).dialog, ..*old(self) }),
    {
        self.dialog = Some(PiDialog::InstallPackage { input: String::new() });
    }

    /// Opens the dialog that removes a package.
    pub fn open_remove_package(&mut self, source: String, scope: PiSettingsScope)
        ensures
            *final(self) == (PiSettingsPage {
                dialog: Some(PiDialog::RemovePackage { source, scope }),
                ..*old(self)
            }),
    {
        self.dialog = Some(PiDialog::RemovePackage { source, scope });
    }

    /// Closes the dialog and changes nothing.
    pub fn cancel_dialog(&mut self)
        ensures
            *final(self) == (PiSettingsPage { dialog: None, ..*old(self) }),
    {
        self.dialog = None;
    }

    /// Opens the dialog for a provider's key.
    pub fn open_api_key(&mut self, provider: &PiProviderStatus)
        ensures
            final(self).dialog matches Some(PiDialog::ApiKey { provider: id, provider_name, input })
                && id == provider.id && provider_name == provider.name && input@.len() == 0,
            *final(self) == (PiSettingsPage { dialog: final(self).dialog, ..*old(self) }),
    {
        self.dialog = Some(
            PiDialog::ApiKey {
                provider: provider.id.clone(),
                provider_name: provider.name.clone(),
                input: String::new(),
            },
        );
    }

    /// Saves a provider's key.
    pub fn submit_api_key(&mut self, state: &AppState) -> (r: Option<PiCall>)
        ensures
            match old(self).dialog {
                Some(PiDialog::ApiKey { provider, input, .. }) => {
                    let key = trimmed(input@);
                    let closed = PiSettingsPage { dialog: None, ..*old(self) };
                    let call = Call {
                        method: Method::SetPiCredential,
                        params: Map::empty().insert(
                            "provider"@,
                            ValueView::Text(provider@),
                        ).insert("key"@, ValueView::Text(key)),
                    };
                    if key.len() == 0 {
                        &&& r is None
                        &&& says(final(self).error, "Enter an API key first"@)
                        &&& *final(self) == (PiSettingsPage {
                            error: final(self).error,
                            ..*old(self)
                        })
                    } else {
                        &&& makes(
                            r,
                            state.engine is Some,
                            scoped(closed, *state, call, old(self).scope),
                        )
                        &&& state.engine is Some ==> is_calling(
                            closed,
                            *final(self),
                            "Saving provider credential\u{2026}"@,
                        )
                        &&& state.engine is None ==> *final(self) == closed
                    }
                },
                _ => r is None && *final(self) == *old(self),
            },
    {
        let (provider, key): (String, String) = match &self.dialog {
            Some(PiDialog::ApiKey { provider, input, .. }) => (
                provider.clone(),
                trim(input.as_str()),
            ),
            _ => {
                return None;
            },
        };
        if key.as_str().is_empty() {
            self.error = Some("Enter an API key first".to_owned());
            return None;
        }
        self.dialog = None;
        let request: Request = Request::new(Method::SetPiCredential).with_text(
            "provider",
            provider.as_str(),
        ).with_text("key", key.as_str());
        self.call_snapshot(state, request, self.scope, "Saving provider credential\u{2026}")
    }

    /// Opens the dialog for an endpoint that speaks OpenAI's protocol, with the
    /// address that is configured.
    pub fn open_openai_compatible(&mut self, current: &PiOpenAiCompatible)
        ensures
            final(self).dialog matches Some(PiDialog::OpenAiCompatible {
                base_url,
                api_key,
                has_stored_key,
            }) && base_url@ == (match current.base_url {
                Some(u) => u@,
                None => Seq::<char>::empty(),
            }) && api_key@.len() == 0 && has_stored_key == current.has_stored_key,
            *final(self) == (PiSettingsPage { dialog: final(self).dialog, ..*old(self) }),
    {
        self.dialog = Some(
            PiDialog::OpenAiCompatible {
                base_url: match &current.base_url {
                    Some(u) => u.clone(),
                    None => String::new(),
                },
                api_key: String::new(),
                has_stored_key: current.has_stored_key,
            },
        );
    }

    /// Saves such an endpoint. Without a key the one that is stored is kept.
    pub fn submit_openai_compatible(&mut self, state: &AppState) -> (r: Option<PiCall>)
        ensures
            match old(self).dialog {
                Some(PiDialog::OpenAiCompatible { base_url, api_key, .. }) => {
                    let url = trimmed(base_url@);
                    let key = trimmed(api_key@);
                    let closed = PiSettingsPage { dialog: None, ..*old(self) };
                    let call = Call {
                        method: Method::SetPiOpenAiCompatible,
                        params: Map::empty().insert("baseUrl"@, ValueView::Text(url)).insert(
                            "apiKey"@,
                            if key.len() == 0 {
                                ValueView::Null
                            } else {
                                ValueView::Text(key)
                            },
                        ),
                    };
                    if url.len() == 0 {
                        &&& r is None
                        &&& says(final(self).error, "Enter a base URL"@)
                        &&& *final(self) == (PiSettingsPage {
                            error: final(self).error,
                            ..*old(self)
                        })
                    } else {
                        &&& makes(
                            r,
                            state.engine is Some,
                            scoped(closed, *state, call, old(self).scope),
                        )
                        &&& state.engine is Some ==> is_calling(
                            closed,
                            *final(self),
                            "Loading model registry\u{2026}"@,
                        )
                        &&& state.engine is None ==> *final(self) == closed
                    }
                },
                _ => r is None && *final(self) == *old(self),
            },
    {
        let (url, key): (String, String) = match &self.dialog {
            Some(PiDialog::OpenAiCompatible { base_url, api_key, .. }) => (
                trim(base_url.as_str()),
                trim(api_key.as_str()),
            ),
            _ => {
                return None;
            },
        };
        if url.as_str().is_empty() {
            self.error = Some("Enter a base URL".to_owned());
            return None;
        }
        self.dialog = None;
        let secret: Value = if key.as_str().is_empty() {
            Value::Null
        } else {
            Value::Text(key)
        };
        let request: Request = Request::new(Method::SetPiOpenAiCompatible).with_text(
            "baseUrl",
            url.as_str(),
        ).with("apiKey", secret);
        self.call_snapshot(state, request, self.scope, "Loading model registry\u{2026}")
    }

    /// Does something to a package. The call has the package's own scope, even
    /// where the page has turned to another since.
    pub fn package_action(
        &mut self,
        state: &AppState,
        action: PackageAction,
        source: &str,
        scope: PiSettingsScope,
    ) -> (r: Option<PiCall>)
        ensures
            makes(
                r,
                state.engine is Some,
                scoped(*old(self), *state, package_call(action, source@), scope),
            ),
            state.engine is Some ==> is_calling(*old(self), *final(self), action_busy(action)),
            state.engine is None ==> *final(self) == *old(self),
    {
        let (name, busy): (&str, &str) = match action {
            PackageAction::Install => ("install", "Installing Pi package\u{2026}"),
            PackageAction::Update => ("update", "Updating Pi package\u{2026}"),
            PackageAction::Remove => ("remove", "Removing Pi package\u{2026}"),
        };
        let request: Request = Request::new(Method::PiPackageAction).with_text(
            "action",
            name,
        ).with_text("source", source);
        self.call_snapshot(state, request, scope, busy)
    }

    /// Installs the package that was typed.
    pub fn submit_package(&mut self, state: &AppState) -> (r: Option<PiCall>)
        ensures
            match old(self).dialog {
                Some(PiDialog::InstallPackage { input }) => {
                    let source = trimmed(input@);
                    let closed = PiSettingsPage { dialog: None, ..*old(self) };
                    if source.len() == 0 {
                        &&& r is None
                        &&& says(
                            final(self).error,
                            "Enter an npm, Git, or local package source"@,
                        )
                        &&& *final(self) == (PiSettingsPage {
                            error: final(self).error,
                            ..*old(self)
                        })
                    } else {
                        &&& makes(
                            r,
                            state.engine is Some,
                            scoped(
                                closed,
                                *state,
                                package_call(PackageAction::Install, source),
                                old(self).scope,
                            ),
                        )
                        &&& state.engine is Some ==> is_calling(
                            closed,
                            *final(self),
                            action_busy(PackageAction::Install),
                        )
                        &&& state.engine is None ==> *final(self) == closed
                    }
                },
                _ => r is None && *final(self) == *old(self),
            },
    {
        let source: String = match &self.dialog {
            Some(PiDialog::InstallPackage { input }) => trim(input.as_str()),
            _ => {
                return None;
            },
        };
        if source.as_str().is_empty() {
            self.error = Some("Enter an npm, Git, or local package source".to_owned());
            return None;
        }
        self.dialog = None;
        self.package_action(state, PackageAction::Install, source.as_str(), self.scope)
    }

    /// Goes through with a removal. Other dialogs stay open.
    pub fn confirm_dialog(&mut self, state: &AppState) -> (r: Option<PiCall>)
        ensures
            ({
                let closed = PiSettingsPage { dialog: None, ..*old(self) };
                match old(self).dialog {
                    Some(PiDialog::RemoveCredential { provider, .. }) => {
                        let call = Call {
                            method: Method::RemovePiCredential,
                            params: Map::empty().insert("provider"@, ValueView::Text(provider@)),
                        };
                        &&& makes(
                            r,
                            state.engine is Some,
                            scoped(closed, *state, call, old(self).scope),
                        )
                        &&& state.engine is Some ==> is_calling(
                            closed,
                            *final(self),
                            "Removing provider credential\u{2026}"@,
                        )
                        &&& state.engine is None ==> *final(self) == closed
                    },
                    Some(PiDialog::RemovePackage { source, scope }) => {
                        &&& makes(
                            r,
                            state.engine is Some,
                            scoped(
                                closed,
                                *state,
                                package_call(PackageAction::Remove, source@),
                                scope,
                            ),
                        )
                        &&& state.engine is Some ==> is_calling(
                            closed,
                            *final(self),
                            action_busy(PackageAction::Remove),
                        )
                        &&& state.engine is None ==> *final(self) == closed
                    },
                    _ => r is None && *final(self) == *old(self),
                }
            }),
    {
        let dialog: Option<PiDialog> = self.dialog.take();
        match dialog {
            Some(PiDialog::RemoveCredential { provider, provider_name }) => {
                let request: Request = Request::new(Method::RemovePiCredential).with_text(
                    "provider",
                    provider.as_str(),
                );
                self.call_snapshot(
                    state,
                    request,
                    self.scope,
                    "Removing provider credential\u{2026}",
                )
            },
            Some(PiDialog::RemovePackage { source, scope }) => self.package_action(
                state,
                PackageAction::Remove,
                source.as_str(),
                scope,
            ),
            other => {
                self.dialog = other;
                None
            },
        }
    }

    /// Shows a path as copied.
    pub fn copy_path(&mut self, path: String)
        ensures
            *final(self) == (PiSettingsPage { copied: Some(path), ..*old(self) }),
    {
        self.copied = Some(path);
    }

    /// The path has shown as copied long enough.
    pub fn clear_copied(&mut self)
        ensures
            *final(self) == (PiSettingsPage { copied: None, ..*old(self) }),
    {
        self.copied = None;
    }

    /// Flips automatic compaction; it is turned on while the settings are not
    /// known.
    pub fn toggle_compaction(&mut self, state: &AppState) -> (r: Option<PiCall>)
        ensures
            ({
                let next = match old(self).snapshot {
                    Loadable::Ready(s) => !s.settings.auto_compaction,
                    _ => true,
                };
                makes(
                    r,
                    state.engine is Some,
                    scoped(
                        *old(self),
                        *state,
                        setting_call("compaction.enabled"@, ValueView::Bool(next)),
                        old(self).scope,
                    ),
                )
            }),
            state.engine is Some ==> is_calling(
                *old(self),
                *final(self),
                "Saving Pi settings\u{2026}"@,
            ),
            state.engine is None ==> *final(self) == *old(self),
    {
        let next: bool = match &self.snapshot {
            Loadable::Ready(s) => !s.settings.auto_compaction,
            _ => true,
        };
        self.set_setting(state, "compaction.enabled", Value::Bool(next))
    }

    /// Flips automatic retry; it is turned on while the settings are not known.
    pub fn toggle_retry(&mut self, state: &AppState) -> (r: Option<PiCall>)
        ensures
            ({
                let next = match old(self).snapshot {
                    Loadable::Ready(s) => !s.settings.auto_retry,
                    _ => true,
                };
                makes(
                    r,
                    state.engine is Some,
                    scoped(
                        *old(self),
                        *state,
                        setting_call("retry.enabled"@, ValueView::Bool(next)),
                        old(self).scope,
                    ),
                )
            }),
            state.engine is Some ==> is_calling(
                *old(self),
                *final(self),
                "Saving Pi settings\u{2026}"@,
            ),
            state.engine is None ==> *final(self) == *old(self),
    {
        let next: bool = match &self.snapshot {
            Loadable::Ready(s) => !s.settings.auto_retry,
            _ => true,
        };
        self.set_setting(state, "retry.enabled", Value::Bool(next))
    }

    /// Goes on to the next degree of trust in projects.
    pub fn cycle_trust(&mut self, state: &AppState, shown: &str) -> (r: Option<PiCall>)
        ensures
            makes(
                r,
                state.engine is Some,
                scoped(
                    *old(self),
                    *state,
                    setting_call("defaultProjectTrust"@, ValueView::Text(trust_after(shown@))),
                    old(self).scope,
                ),
            ),
            state.engine is Some ==> is_calling(
                *old(self),
                *final(self),
                "Saving Pi settings\u{2026}"@,
            ),
            state.engine is None ==> *final(self) == *old(self),
    {
        let next: String = next_trust(shown).to_owned();
        self.set_setting(state, "defaultProjectTrust", Value::Text(next))
    }

    /// Goes on to the next transport.
    pub fn cycle_transport(&mut self, state: &AppState, shown: &str) -> (r: Option<PiCall>)
        ensures
            makes(
                r,
                state.engine is Some,
                scoped(
                    *old(self),
                    *state,
                    setting_call("transport"@, ValueView::Text(transport_after(shown@))),
                    old(self).scope,
                ),
            ),
            state.engine is Some ==> is_calling(
                *old(self),
                *final(self),
                "Saving Pi settings\u{2026}"@,
            ),
            state.engine is None ==> *final(self) == *old(self),
    {
        let next: String = next_transport(shown).to_owned();
        self.set_setting(state, "transport", Value::Text(next))
    }
}

/// What a reply came to: the settings, or why there are none. The call may have
/// failed, or its answer may not have made sense.
pub fn decode_snapshot(reply: Result<Result<PiSettingsSnapshot, String>, String>) -> (r: Result<
    PiSettingsSnapshot,
    String,
>)
    ensures
        match reply {
            Ok(Ok(s)) => r == Ok::<PiSettingsSnapshot, String>(s),
            Ok(Err(e)) => r matches Err(m) && m@ == "Malformed Pi settings reply: "@ + e@,
            Err(e) => r == Err::<PiSettingsSnapshot, String>(e),
        },
{
    match reply {
        Ok(Ok(s)) => Ok(s),
        Ok(Err(e)) => {
            let mut m: String = "Malformed Pi settings reply: ".to_owned();
            m.append(e.as_str());
            Err(m)
        },
        Err(e) => Err(e),
    }
}

/// The degree of trust after another.
pub open spec fn trust_after(trust: Seq<char>) -> Seq<char> {
    if trust == "ask"@ {
        "always"@
    } else if trust == "always"@ {
        "never"@
    } else {
        "ask"@
    }
}

pub fn next_trust(trust: &str) -> (s: &'static str)
    ensures
        s@ == trust_after(trust@),
{
    if same(trust, "ask") {
        "always"
    } else if same(trust, "always") {
        "never"
    } else {
        "ask"
    }
}

/// The transport after another.
pub open spec fn transport_after(transport: Seq<char>) -> Seq<char> {
    if transport == "auto"@ {
        "sse"@
    } else if transport == "sse"@ {
        "websocket"@
    } else {
        "auto"@
    }
}

pub fn next_transport(transport: &str) -> (s: &'static str)
    ensures
        s@ == transport_after(transport@),
{
    if same(transport, "auto") {
        "sse"
    } else if same(transport, "sse") {
        "websocket"
    } else {
        "auto"
    }
}

/// Going on three times comes back to where it began.
pub proof fn cycles_come_round()
    ensures
        trust_after(trust_after(trust_after("ask"@))) == "ask"@,
        transport_after(transport_after(transport_after("auto"@))) == "auto"@,
{
    reveal_strlit("ask");
    reveal_strlit("always");
    reveal_strlit("never");
    reveal_strlit("auto");
    reveal_strlit("sse");
    reveal_strlit("websocket");
    assert("ask"@.len() == 3 && "always"@.len() == 6 && "never"@.len() == 5);
    assert("auto"@.len() == 4 && "sse"@.len() == 3 && "websocket"@.len() == 9);
}

/// A call about Pi goes to the device of its scope, and to this one without a
/// detour.
pub proof fn calls_reach_the_named_device(
    page: PiSettingsPage,
    state: AppState,
    call: Call,
    scope: PiSettingsScope,
)
    requires
        !call.params.contains_key(crate::wire::target_name()),
    ensures
        ({
            let sent = scoped(page, state, call, scope).call.params;
            match scope_device(page, state, scope) {
                Some(d) if opt(state.local_device_id) != Some(d) => sent.contains_key(
                    crate::wire::target_name(),
                ) && sent[crate::wire::target_name()] == ValueView::Text(d),
                _ => !sent.contains_key(crate::wire::target_name()),
            }
        }),
{
}

}
