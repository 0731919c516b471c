//! What the pages about Pi show.
use vstd::prelude::*;
use vstd::string::*;

use crate::proto::Device;
use crate::seqs::{kept, kept_step};
use crate::settings::pi::{
    device_of, selected_row, PiDialog, PiOpenAiCompatible, PiPackageInfo, PiProviderStatus,
    PiResourceInfo, PiRuntime, PiSettings, PiSettingsPage, PiSettingsScope, PiSettingsSnapshot,
};
use crate::state::{at, device_ix, find_device, AppState};
use crate::text::{decimal, decimal_text, occurs_at, same, starts_with};
use crate::wire::{copy_opt, is_text, opt};

verus! {

/// The line about the runtime.
pub open spec fn runtime_text(r: PiRuntime) -> Seq<char> {
    if r.installed {
        (match r.version {
            Some(v) => v@,
            None => "Version unavailable"@,
        }) + " \u{b7} "@ + (match r.executable {
            Some(e) => e@,
            None => "Executable unavailable"@,
        })
    } else {
        "Pi was not found on this device"@
    }
}

pub fn runtime_detail(r: &PiRuntime) -> (s: String)
    ensures
        s@ == runtime_text(*r),
{
    if !r.installed {
        return "Pi was not found on this device".to_owned();
    }
    let mut s: String = match &r.version {
        Some(v) => v.clone(),
        None => "Version unavailable".to_owned(),
    };
    s.append(" \u{b7} ");
    match &r.executable {
        Some(e) => {
            s.append(e.as_str());
        },
        None => {
            s.append("Executable unavailable");
        },
    }
    s
}

/// The line about the default model.
pub open spec fn model_text(p: PiSettings) -> Seq<char> {
    match (p.default_provider, p.default_model) {
        (Some(provider), Some(model)) => provider@ + "/"@ + model@,
        (None, Some(model)) => model@,
        _ => "Resolved by Pi"@,
    }
}

pub fn default_model(p: &PiSettings) -> (s: String)
    ensures
        s@ == model_text(*p),
{
    match &p.default_model {
        None => "Resolved by Pi".to_owned(),
        Some(model) => match &p.default_provider {
            Some(provider) => {
                let mut s: String = provider.clone();
                s.append("/");
                s.append(model.as_str());
                s
            },
            None => model.clone(),
        },
    }
}

/// The line about thinking.
pub fn thinking(p: &PiSettings) -> (s: String)
    ensures
        s@ == (match p.default_thinking_level {
            Some(t) => t@,
            None => "Model default"@,
        }),
{
    match &p.default_thinking_level {
        Some(t) => t.clone(),
        None => "Model default".to_owned(),
    }
}

/// The line about the endpoint that speaks OpenAI's protocol.
pub open spec fn compatible_text(c: PiOpenAiCompatible) -> Seq<char> {
    match c.base_url {
        Some(url) => url@ + " \u{b7} "@ + (if c.model_count == 1 {
            "1 model"@
        } else {
            decimal(c.model_count as nat) + " models"@
        }),
        None => "Use any OpenAI Chat Completions endpoint"@,
    }
}

pub fn compatible_detail(c: &PiOpenAiCompatible) -> (s: String)
    ensures
        s@ == compatible_text(*c),
{
    match &c.base_url {
        None => "Use any OpenAI Chat Completions endpoint".to_owned(),
        Some(url) => {
            let mut s: String = url.clone();
            s.append(" \u{b7} ");
            if c.model_count == 1 {
                s.append("1 model");
            } else {
                let mut n: String = decimal_text(c.model_count as u64);
                n.append(" models");
                s.append(n.as_str());
            }
            s
        },
    }
}

/// The name of a scope.
pub open spec fn scope_text(s: PiSettingsScope) -> Seq<char> {
    match s {
        PiSettingsScope::Global => "Global"@,
        PiSettingsScope::Project => "Project"@,
    }
}

pub fn scope_name(s: PiSettingsScope) -> (t: &'static str)
    ensures
        t@ == scope_text(s),
{
    match s {
        PiSettingsScope::Global => "Global",
        PiSettingsScope::Project => "Project",
    }
}

/// A row of the providers. A key can be added where none is configured, and one
/// that is stored can be removed.
#[derive(Debug)]
pub struct ProviderRow {
    pub id: String,
    pub name: String,
    pub source: String,
    pub configured: bool,
    pub can_remove: bool,
}

/// The condition of having a row of its own.
pub open spec fn is_listed() -> spec_fn(PiProviderStatus) -> bool {
    |p: PiProviderStatus| p.id@ != "openai-compatible"@
}

/// The providers that have a row.
pub open spec fn listed(providers: Seq<PiProviderStatus>) -> Seq<PiProviderStatus> {
    kept(providers, is_listed())
}

/// Whether a row shows a provider.
pub open spec fn shows_provider(r: ProviderRow, p: PiProviderStatus) -> bool {
    &&& r.id == p.id
    &&& r.name == p.name
    &&& r.source == p.source
    &&& r.configured == p.configured
    &&& r.can_remove == occurs_at(p.source@, "Stored"@, 0)
}

/// The rows of the providers.
pub fn provider_rows(providers: &Vec<PiProviderStatus>) -> (rows: Vec<ProviderRow>)
    ensures
        rows@.len() == listed(providers@).len(),
        forall|i: int|
            0 <= i < rows@.len() ==> shows_provider(#[trigger] rows@[i], listed(providers@)[i]),
{
    let mut rows: Vec<ProviderRow> = Vec::new();
    let mut i: usize = 0;
    assert(kept(providers@.take(0), is_listed()) =~= Seq::<PiProviderStatus>::empty());
    while i < providers.len()
        invariant
            i <= providers@.len(),
            rows@.len() == kept(providers@.take(i as int), is_listed()).len(),
            forall|j: int|
                0 <= j < rows@.len() ==> shows_provider(
                    #[trigger] rows@[j],
                    kept(providers@.take(i as int), is_listed())[j],
                ),
        decreases providers@.len() - i,
    {
        proof {
            kept_step(providers@, is_listed(), i as int);
        }
        let p: &PiProviderStatus = &providers[i];
        if !same(p.id.as_str(), "openai-compatible") {
            rows.push(
                ProviderRow {
                    id: p.id.clone(),
                    name: p.name.clone(),
                    source: p.source.clone(),
                    configured: p.configured,
                    can_remove: starts_with(p.source.as_str(), "Stored"),
                },
            );
        }
        i += 1;
    }
    assert(providers@.take(i as int) =~= providers@);
    rows
}

/// The condition of being a package of a scope.
pub open spec fn package_in(scope: PiSettingsScope) -> spec_fn(PiPackageInfo) -> bool {
    |p: PiPackageInfo| p.scope == scope
}

/// The condition of being a resource of a scope.
pub open spec fn resource_in(scope: PiSettingsScope) -> spec_fn(PiResourceInfo) -> bool {
    |r: PiResourceInfo| r.scope == scope
}

/// The line about a package.
pub open spec fn package_text(p: PiPackageInfo) -> Seq<char> {
    p.kind@ + " \u{b7} "@ + scope_text(p.scope) + (if p.pinned {
        " \u{b7} pinned"@
    } else {
        ""@
    })
}

/// A row of the packages.
#[derive(Debug)]
pub struct PackageRow {
    pub source: String,
    pub detail: String,
    pub scope: PiSettingsScope,
}

/// Whether a row shows a package.
pub open spec fn shows_package(r: PackageRow, p: PiPackageInfo) -> bool {
    r.source == p.source && r.detail@ == package_text(p) && r.scope == p.scope
}

/// The rows of the packages of a scope.
pub fn package_rows(packages: &Vec<PiPackageInfo>, scope: PiSettingsScope) -> (rows: Vec<PackageRow>)
    ensures
        rows@.len() == kept(packages@, package_in(scope)).len(),
        forall|i: int|
            0 <= i < rows@.len() ==> shows_package(
                #[trigger] rows@[i],
                kept(packages@, package_in(scope))[i],
            ),
{
    let mut rows: Vec<PackageRow> = Vec::new();
    let mut i: usize = 0;
    assert(kept(packages@.take(0), package_in(scope)) =~= Seq::<PiPackageInfo>::empty());
    while i < packages.len()
        invariant
            i <= packages@.len(),
            rows@.len() == kept(packages@.take(i as int), package_in(scope)).len(),
            forall|j: int|
                0 <= j < rows@.len() ==> shows_package(
                    #[trigger] rows@[j],
                    kept(packages@.take(i as int), package_in(scope))[j],
                ),
        decreases packages@.len() - i,
    {
        proof {
            kept_step(packages@, package_in(scope), i as int);
        }
        let p: &PiPackageInfo = &packages[i];
        if p.scope == scope {
            let mut detail: String = p.kind.clone();
            detail.append(" \u{b7} ");
            detail.append(scope_name(p.scope));
            if p.pinned {
                detail.append(" \u{b7} pinned");
            } else {
                detail.append("");
            }
            rows.push(PackageRow { source: p.source.clone(), detail, scope: p.scope });
        }
        i += 1;
    }
    assert(packages@.take(i as int) =~= packages@);
    rows
}

/// The loose resources of a scope.
pub fn resource_rows(resources: &Vec<PiResourceInfo>, scope: PiSettingsScope) -> (rows: Vec<
    &PiResourceInfo,
>)
    ensures
        rows@.map_values(|r: &PiResourceInfo| *r) == kept(resources@, resource_in(scope)),
{
    let ghost f = |r: &PiResourceInfo| *r;
    let mut rows: Vec<&PiResourceInfo> = Vec::new();
    let mut i: usize = 0;
    assert(rows@.map_values(f) =~= kept(resources@.take(0), resource_in(scope)));
    while i < resources.len()
        invariant
            i <= resources@.len(),
            f == (|r: &PiResourceInfo| *r),
            rows@.map_values(f) == kept(resources@.take(i as int), resource_in(scope)),
        decreases resources@.len() - i,
    {
        proof {
            kept_step(resources@, resource_in(scope), i as int);
        }
        if resources[i].scope == scope {
            let ghost had = rows@;
            rows.push(&resources[i]);
            proof {
                assert(f(&resources@[i as int]) == resources@[i as int]);
                assert(rows@.map_values(f) =~= had.map_values(f).push(resources@[i as int]));
            }
        }
        i += 1;
    }
    assert(resources@.take(i as int) =~= resources@);
    rows
}

/// A file that the page names.
#[derive(Debug)]
pub struct PathRow {
    pub label: &'static str,
    pub path: String,
    pub copied: bool,
}

/// What a row about a file shows.
pub ghost struct PathView {
    pub label: Seq<char>,
    pub path: Seq<char>,
    pub copied: bool,
}

impl View for PathRow {
    type V = PathView;

    open spec fn view(&self) -> PathView {
        PathView { label: self.label@, path: self.path@, copied: self.copied }
    }
}

/// A row about a file.
pub open spec fn path_view(
    label: Seq<char>,
    path: Seq<char>,
    copied: Option<Seq<char>>,
) -> PathView {
    PathView { label, path, copied: copied == Some(path) }
}

/// The files that the page names. The project's settings come second, where
/// there are any.
pub open spec fn paths_of(s: PiSettingsSnapshot, copied: Option<Seq<char>>) -> Seq<PathView> {
    let global = path_view("Global settings"@, s.global_settings_path@, copied);
    let auth = path_view("Provider credentials"@, s.auth_path@, copied);
    let models = path_view("Custom models"@, s.models_path@, copied);
    match s.project_settings_path {
        Some(p) => seq![global, path_view("Project settings"@, p@, copied), auth, models],
        None => seq![global, auth, models],
    }
}

/// What some rows about files show.
pub open spec fn path_views(v: Seq<PathRow>) -> Seq<PathView> {
    v.map_values(|r: PathRow| r@)
}

fn path_row(label: &'static str, path: &String, copied: &Option<String>) -> (r: PathRow)
    ensures
        r@ == path_view(label@, path@, opt(*copied)),
{
    PathRow { label, path: path.clone(), copied: is_text(copied, path.as_str()) }
}

/// The files that the page names.
pub fn advanced_paths(s: &PiSettingsSnapshot, copied: &Option<String>) -> (rows: Vec<PathRow>)
    ensures
        path_views(rows@) == paths_of(*s, opt(*copied)),
{
    let mut rows: Vec<PathRow> = Vec::new();
    rows.push(path_row("Global settings", &s.global_settings_path, copied));
    if let Some(p) = &s.project_settings_path {
        rows.push(path_row("Project settings", p, copied));
    }
    rows.push(path_row("Provider credentials", &s.auth_path, copied));
    rows.push(path_row("Custom models", &s.models_path, copied));
    assert(path_views(rows@) =~= paths_of(*s, opt(*copied)));
    rows
}

/// What a dialog says: its title, its text, its button, and whether it is about
/// a removal.
#[derive(Debug)]
pub struct DialogCopy {
    pub title: &'static str,
    pub body: String,
    pub primary: &'static str,
    pub destructive: bool,
}

/// Whether a dialog says what it should.
pub open spec fn dialog_says(c: DialogCopy, d: PiDialog) -> bool {
    match d {
        PiDialog::ApiKey { provider_name, .. } => {
            &&& c.title@ == "Add provider API key"@
            &&& c.body@ == "Store an API key for "@ + provider_name@
                + " in Pi's device-local auth.json. The key never leaves this device."@
            &&& c.primary@ == "Save API key"@
            &&& !c.destructive
        },
        PiDialog::OpenAiCompatible { .. } => {
            &&& c.title@ == "OpenAI-compatible provider"@
            &&& c.body@
                == "Connect an endpoint that implements OpenAI Chat Completions. Nova loads its /models registry automatically; an API key is optional for local endpoints and stays in device-local auth.json when supplied."@
            &&& c.primary@ == "Save provider"@
            &&& !c.destructive
        },
        PiDialog::InstallPackage { .. } => {
            &&& c.title@ == "Install Pi package"@
            &&& c.body@
                == "Enter an npm package, Git URL, or local path. Project installs are written to the selected project's .pi/settings.json."@
            &&& c.primary@ == "Install"@
            &&& !c.destructive
        },
        PiDialog::RemoveCredential { provider_name, .. } => {
            &&& c.title@ == "Remove provider credential?"@
            &&& c.body@ == "Pi will forget the stored "@ + provider_name@
                + " credential on this device. Environment credentials are not changed."@
            &&& c.primary@ == "Remove credential"@
            &&& c.destructive
        },
        PiDialog::RemovePackage { source, .. } => {
            &&& c.title@ == "Remove Pi package?"@
            &&& c.body@ == "Remove "@ + source@
                + " from this Pi scope? Existing Pi sessions keep their currently loaded runtime until restarted."@
            &&& c.primary@ == "Remove package"@
            &&& c.destructive
        },
    }
}

fn framed(head: &str, middle: &str, tail: &str) -> (s: String)
    ensures
        s@ == head@ + middle@ + tail@,
{
    let mut s: String = head.to_owned();
    s.append(middle);
    s.append(tail);
    s
}

/// What a dialog says.
pub fn dialog_copy(d: &PiDialog) -> (c: DialogCopy)
    ensures
        dialog_says(c, *d),
{
    match d {
        PiDialog::ApiKey { provider_name, .. } => DialogCopy {
            title: "Add provider API key",
            body: framed(
                "Store an API key for ",
                provider_name.as_str(),
                " in Pi's device-local auth.json. The key never leaves this device.",
            ),
            primary: "Save API key",
            destructive: false,
        },
        PiDialog::OpenAiCompatible { .. } => DialogCopy {
            title: "OpenAI-compatible provider",
            body:
                "Connect an endpoint that implements OpenAI Chat Completions. Nova loads its /models registry automatically; an API key is optional for local endpoints and stays in device-local auth.json when supplied.".to_owned(),
            primary: "Save provider",
            destructive: false,
        },
        PiDialog::InstallPackage { .. } => DialogCopy {
            title: "Install Pi package",
            body:
                "Enter an npm package, Git URL, or local path. Project installs are written to the selected project's .pi/settings.json.".to_owned(),
            primary: "Install",
            destructive: false,
        },
        PiDialog::RemoveCredential { provider_name, .. } => DialogCopy {
            title: "Remove provider credential?",
            body: framed(
                "Pi will forget the stored ",
                provider_name.as_str(),
                " credential on this device. Environment credentials are not changed.",
            ),
            primary: "Remove credential",
            destructive: true,
        },
        PiDialog::RemovePackage { source, .. } => DialogCopy {
            title: "Remove Pi package?",
            body: framed(
                "Remove ",
                source.as_str(),
                " from this Pi scope? Existing Pi sessions keep their currently loaded runtime until restarted.",
            ),
            primary: "Remove package",
            destructive: true,
        },
    }
}

/// The label of the field for a key.
pub fn key_label(has_stored_key: bool) -> (s: &'static str)
    ensures
        s@ == (if has_stored_key {
            "API key (leave blank to keep saved key)"@
        } else {
            "API key (optional)"@
        }),
{
    if has_stored_key {
        "API key (leave blank to keep saved key)"
    } else {
        "API key (optional)"
    }
}

/// A device of the device menu.
#[derive(Debug)]
pub struct DeviceChoice {
    pub id: String,
    pub name: String,
    pub selected: bool,
}

/// A scope of the scope control.
#[derive(Debug)]
pub struct ScopeChoice {
    pub scope: PiSettingsScope,
    pub label: String,
    pub selected: bool,
    pub enabled: bool,
}

/// The head of the page: the device that runs Pi, and the scope.
#[derive(Debug)]
pub struct ContextFrame {
    pub device_name: String,
    pub devices: Vec<DeviceChoice>,
    pub global: ScopeChoice,
    pub project: ScopeChoice,
}

/// The device that the page shows.
pub open spec fn shown_device(page: PiSettingsPage, state: AppState) -> Option<Seq<char>> {
    match device_of(page, state) {
        Some(d) => Some(d),
        None => opt(state.local_device_id),
    }
}

impl PiSettingsPage {
    /// The head of the page.
    pub fn context_frame(&self, state: &AppState) -> (f: ContextFrame)
        ensures
            ({
                let shown = shown_device(*self, *state);
                let row = match shown {
                    Some(id) => at(state.devices@, device_ix(state.devices@, id)),
                    None => None,
                };
                let project = selected_row(*state);
                &&& f.device_name@ == (match row {
                    Some(d) => d.name@,
                    None => "This device"@,
                })
                &&& f.devices@.len() == state.devices@.len()
                &&& forall|i: int|
                    0 <= i < f.devices@.len() ==> (#[trigger] f.devices@[i]).id
                        == state.devices@[i].id && f.devices@[i].name == state.devices@[i].name
                        && f.devices@[i].selected == (shown == Some(state.devices@[i].id@))
                &&& f.global.scope == PiSettingsScope::Global
                &&& f.global.label@ == "Global"@
                &&& f.global.enabled
                &&& f.global.selected == (self.scope == PiSettingsScope::Global)
                &&& f.project.scope == PiSettingsScope::Project
                &&& f.project.label@ == (match project {
                    Some(p) => p.display_name@,
                    None => "Project"@,
                })
                &&& f.project.enabled == (project is Some)
                &&& f.project.selected == (self.scope == PiSettingsScope::Project)
            }),
    {
        let shown: Option<String> = match self.effective_device(state) {
            Some(d) => Some(d),
            None => copy_opt(&state.local_device_id),
        };
        let device_name: String = match &shown {
            None => "This device".to_owned(),
            Some(id) => {
                let i: usize = find_device(&state.devices, id.as_str());
                proof {
                    crate::seqs::first_at_props(
                        state.devices@,
                        crate::state::device_named(id@),
                        0,
                    );
                }
                if i < state.devices.len() {
                    state.devices[i].name.clone()
                } else {
                    "This device".to_owned()
                }
            },
        };
        let mut devices: Vec<DeviceChoice> = Vec::new();
        let mut i: usize = 0;
        while i < state.devices.len()
            invariant
                i <= state.devices@.len(),
                devices@.len() == i,
                forall|j: int|
                    0 <= j < i ==> (#[trigger] devices@[j]).id == state.devices@[j].id
                        && devices@[j].name == state.devices@[j].name && devices@[j].selected == (
                    opt(shown) == Some(state.devices@[j].id@)),
            decreases state.devices@.len() - i,
        {
            let d: &Device = &state.devices[i];
            devices.push(
                DeviceChoice {
                    id: d.id.clone(),
                    name: d.name.clone(),
                    selected: is_text(&shown, d.id.as_str()),
                },
            );
            i += 1;
        }
        let (label, enabled): (String, bool) = match state.selected_project_row() {
            Some(p) => (p.display_name.clone(), true),
            None => ("Project".to_owned(), false),
        };
        ContextFrame {
            device_name,
            devices,
            global: ScopeChoice {
                scope: PiSettingsScope::Global,
                label: "Global".to_owned(),
                selected: self.scope == PiSettingsScope::Global,
                enabled: true,
            },
            project: ScopeChoice {
                scope: PiSettingsScope::Project,
                label,
                selected: self.scope == PiSettingsScope::Project,
                enabled,
            },
        }
    }
}

}
