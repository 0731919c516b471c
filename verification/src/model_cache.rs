//! The last known model catalogs: harness descriptors per device and model
//! lists per harness and device. The device `""` is that of the connected
//! engine; catalogs are per device because agents run on the project's host.
use vstd::prelude::*;
use vstd::string::*;

use crate::keyed::Keyed;
use crate::proto::HarnessId;
use crate::wire::{opt, same_opt, texts};

verus! {

/// The file in the data directory that keeps the catalogs.
pub const FILE_NAME: &'static str = "model-catalog-cache.json";

/// A model that a harness offers. Reasoning levels and options are carried as
/// the engine writes them.
#[derive(Debug, Clone, PartialEq, Eq)]
pub struct Model {
    pub id: String,
    pub label: String,
    pub description: Option<String>,
    pub reasoning_levels: Vec<String>,
    pub options: Vec<String>,
}

/// What a model says.
pub ghost struct ModelView {
    pub id: Seq<char>,
    pub label: Seq<char>,
    pub description: Option<Seq<char>>,
    pub reasoning_levels: Seq<Seq<char>>,
    pub options: Seq<Seq<char>>,
}

impl View for Model {
    type V = ModelView;

    open spec fn view(&self) -> ModelView {
        ModelView {
            id: self.id@,
            label: self.label@,
            description: opt(self.description),
            reasoning_levels: texts(self.reasoning_levels@),
            options: texts(self.options@),
        }
    }
}

/// A harness that a device offers.
#[derive(Debug, Clone, PartialEq, Eq)]
pub struct HarnessDescriptor {
    pub id: HarnessId,
    pub name: String,
    pub supports_steering: bool,
    pub steering_mode: String,
    pub reasoning_levels: Vec<String>,
}

/// What a harness descriptor says.
pub ghost struct DescriptorView {
    pub id: HarnessId,
    pub name: Seq<char>,
    pub supports_steering: bool,
    pub steering_mode: Seq<char>,
    pub reasoning_levels: Seq<Seq<char>>,
}

impl View for HarnessDescriptor {
    type V = DescriptorView;

    open spec fn view(&self) -> DescriptorView {
        DescriptorView {
            id: self.id,
            name: self.name@,
            supports_steering: self.supports_steering,
            steering_mode: self.steering_mode@,
            reasoning_levels: texts(self.reasoning_levels@),
        }
    }
}

/// What a list of models says.
pub open spec fn model_views(v: Seq<Model>) -> Seq<ModelView> {
    v.map_values(|m: Model| m@)
}

/// What a list of descriptors says.
pub open spec fn descriptor_views(v: Seq<HarnessDescriptor>) -> Seq<DescriptorView> {
    v.map_values(|d: HarnessDescriptor| d@)
}

fn same_texts(a: &Vec<String>, b: &Vec<String>) -> (r: bool)
    ensures
        r == (texts(a@) == texts(b@)),
{
    if a.len() != b.len() {
        assert(texts(a@).len() != texts(b@).len());
        return false;
    }
    let mut i: usize = 0;
    while i < a.len()
        invariant
            i <= a@.len() == b@.len(),
            forall|j: int| 0 <= j < i ==> (#[trigger] a@[j])@ == b@[j]@,
        decreases a@.len() - i,
    {
        if a[i] != b[i] {
            assert(texts(a@)[i as int] != texts(b@)[i as int]);
            return false;
        }
        i += 1;
    }
    assert(texts(a@) =~= texts(b@));
    true
}

fn same_model(a: &Model, b: &Model) -> (r: bool)
    ensures
        r == (a@ == b@),
{
    a.id == b.id && a.label == b.label && same_opt(&a.description, &b.description) && same_texts(
        &a.reasoning_levels,
        &b.reasoning_levels,
    ) && same_texts(&a.options, &b.options)
}

fn same_models(a: &Vec<Model>, b: &Vec<Model>) -> (r: bool)
    ensures
        r == (model_views(a@) == model_views(b@)),
{
    if a.len() != b.len() {
        assert(model_views(a@).len() != model_views(b@).len());
        return false;
    }
    let mut i: usize = 0;
    while i < a.len()
        invariant
            i <= a@.len() == b@.len(),
            forall|j: int| 0 <= j < i ==> (#[trigger] a@[j])@ == b@[j]@,
        decreases a@.len() - i,
    {
        if !same_model(&a[i], &b[i]) {
            assert(model_views(a@)[i as int] != model_views(b@)[i as int]);
            return false;
        }
        i += 1;
    }
    assert(model_views(a@) =~= model_views(b@));
    true
}

fn same_descriptor(a: &HarnessDescriptor, b: &HarnessDescriptor) -> (r: bool)
    ensures
        r == (a@ == b@),
{
    a.id == b.id && a.name == b.name && a.supports_steering == b.supports_steering
        && a.steering_mode == b.steering_mode && same_texts(
        &a.reasoning_levels,
        &b.reasoning_levels,
    )
}

fn same_descriptors(a: &Vec<HarnessDescriptor>, b: &Vec<HarnessDescriptor>) -> (r: bool)
    ensures
        r == (descriptor_views(a@) == descriptor_views(b@)),
{
    if a.len() != b.len() {
        assert(descriptor_views(a@).len() != descriptor_views(b@).len());
        return false;
    }
    let mut i: usize = 0;
    while i < a.len()
        invariant
            i <= a@.len() == b@.len(),
            forall|j: int| 0 <= j < i ==> (#[trigger] a@[j])@ == b@[j]@,
        decreases a@.len() - i,
    {
        if !same_descriptor(&a[i], &b[i]) {
            assert(descriptor_views(a@)[i as int] != descriptor_views(b@)[i as int]);
            return false;
        }
        i += 1;
    }
    assert(descriptor_views(a@) =~= descriptor_views(b@));
    true
}

/// The id of a harness in the engine's own spelling.
pub open spec fn harness_id_text(harness: HarnessId) -> Seq<char> {
    harness.spelled("-"@)
}

pub fn harness_key(harness: HarnessId) -> (s: String)
    ensures
        s@ == harness_id_text(harness),
{
    harness.spell("-")
}

/// The key of a model list: `{harness}@{device}`.
pub open spec fn list_key(harness: HarnessId, device: Seq<char>) -> Seq<char> {
    harness_id_text(harness) + "@"@ + device
}

/// The ids of the harnesses differ in their first two letters.
proof fn ids_differ(h1: HarnessId, h2: HarnessId)
    ensures
        harness_id_text(h1).len() >= 2,
        harness_id_text(h1)[0] == harness_id_text(h2)[0] && harness_id_text(h1)[1]
            == harness_id_text(h2)[1] ==> h1 == h2,
{
    reveal_strlit("pi");
    reveal_strlit("ClaudeCode");
    reveal_strlit("codex");
    reveal_strlit("cursor");
    reveal_strlit("mock");
    two_letters("ClaudeCode"@);
}

/// The first two letters of a name whose second is no capital.
proof fn two_letters(name: Seq<char>)
    requires
        name.len() >= 2,
        !crate::text::is_capital(name[1]),
    ensures
        crate::text::uncameled(name, "-"@).len() >= 2,
        crate::text::uncameled(name, "-"@)[0] == crate::text::small(name[0]),
        crate::text::uncameled(name, "-"@)[1] == name[1],
    decreases name.len(),
{
    reveal_with_fuel(crate::text::uncameled, 3);
    if name.len() == 2 {
        let one = name.drop_last();
        assert(one.drop_last() =~= Seq::<char>::empty());
        assert(crate::text::uncameled(one, "-"@) =~= seq![crate::text::small(name[0])]);
    } else {
        two_letters(name.drop_last());
    }
}

/// Keys are per harness and device: no two lists share one.
pub proof fn list_keys_are_distinct(h1: HarnessId, d1: Seq<char>, h2: HarnessId, d2: Seq<char>)
    requires
        list_key(h1, d1) == list_key(h2, d2),
    ensures
        h1 == h2,
        d1 == d2,
{
    reveal_strlit("@");
    ids_differ(h1, h2);
    ids_differ(h2, h1);
    let a = harness_id_text(h1);
    let b = harness_id_text(h2);
    let k1 = list_key(h1, d1);
    let k2 = list_key(h2, d2);
    assert(k1[0] == a[0] && k2[0] == b[0]);
    assert(k1[1] == a[1] && k2[1] == b[1]);
    assert(h1 == h2);
    assert(d1 =~= k1.subrange(a.len() as int + 1, k1.len() as int));
    assert(d2 =~= k2.subrange(a.len() as int + 1, k2.len() as int));
}

/// The catalogs.
pub struct ModelCatalogCache {
    pub harnesses_by_device: Keyed<Vec<HarnessDescriptor>>,
    pub models_by_key: Keyed<Vec<Model>>,
}

impl Default for ModelCatalogCache {
    fn default() -> (c: Self)
        ensures
            c.wf(),
            c.harnesses() == Map::<Seq<char>, Seq<DescriptorView>>::empty(),
            c.models() == Map::<Seq<char>, Seq<ModelView>>::empty(),
    {
        let c = ModelCatalogCache {
            harnesses_by_device: Keyed::new(),
            models_by_key: Keyed::new(),
        };
        assert(c.harnesses() =~= Map::<Seq<char>, Seq<DescriptorView>>::empty());
        assert(c.models() =~= Map::<Seq<char>, Seq<ModelView>>::empty());
        c
    }
}

impl ModelCatalogCache {
    pub open spec fn wf(self) -> bool {
        self.harnesses_by_device.wf() && self.models_by_key.wf()
    }

    /// The descriptors of each device.
    pub open spec fn harnesses(self) -> Map<Seq<char>, Seq<DescriptorView>> {
        self.harnesses_by_device@.map_values(|v: Vec<HarnessDescriptor>| descriptor_views(v@))
    }

    /// The model lists by key.
    pub open spec fn models(self) -> Map<Seq<char>, Seq<ModelView>> {
        self.models_by_key@.map_values(|v: Vec<Model>| model_views(v@))
    }

    /// The key of a model list.
    pub fn models_key(harness: HarnessId, device: &str) -> (s: String)
        ensures
            s@ == list_key(harness, device@),
    {
        let mut s: String = harness_key(harness);
        s.append("@");
        s.append(device);
        s
    }

    /// The descriptors of a device, if any are known.
    pub fn harnesses_for(&self, device: &str) -> (r: Option<&Vec<HarnessDescriptor>>)
        requires
            self.wf(),
        ensures
            match r {
                Some(v) => self.harnesses().contains_key(device@) && descriptor_views(v@)
                    == self.harnesses()[device@],
                None => !self.harnesses().contains_key(device@),
            },
    {
        self.harnesses_by_device.get(device)
    }

    /// The models of a harness on a device, if any are known.
    pub fn models_for(&self, harness: HarnessId, device: &str) -> (r: Option<&Vec<Model>>)
        requires
            self.wf(),
        ensures
            match r {
                Some(v) => self.models().contains_key(list_key(harness, device@)) && model_views(v@)
                    == self.models()[list_key(harness, device@)],
                None => !self.models().contains_key(list_key(harness, device@)),
            },
    {
        let key: String = ModelCatalogCache::models_key(harness, device);
        self.models_by_key.get(key.as_str())
    }

    /// Remembers the descriptors of a device. The result tells whether that was
    /// anything new.
    pub fn store_harnesses(&mut self, device: &str, list: Vec<HarnessDescriptor>) -> (changed: bool)
        requires
            old(self).wf(),
        ensures
            final(self).wf(),
            changed == !(old(self).harnesses().contains_key(device@) && old(
                self,
            ).harnesses()[device@] == descriptor_views(list@)),
            final(self).harnesses() == old(self).harnesses().insert(
                device@,
                descriptor_views(list@),
            ),
            final(self).models() == old(self).models(),
    {
        if let Some(known) = self.harnesses_by_device.get(device) {
            if same_descriptors(known, &list) {
                assert(self.harnesses() =~= old(self).harnesses().insert(
                    device@,
                    descriptor_views(list@),
                ));
                return false;
            }
        }
        self.harnesses_by_device.insert(device.to_owned(), list);
        assert(self.harnesses() =~= old(self).harnesses().insert(device@, descriptor_views(list@)));
        true
    }

    /// Remembers the models of a harness on a device. The result tells whether
    /// that was anything new.
    pub fn store_models(&mut self, harness: HarnessId, device: &str, models: Vec<Model>) -> (changed:
        bool)
        requires
            old(self).wf(),
        ensures
            final(self).wf(),
            changed == !(old(self).models().contains_key(list_key(harness, device@)) && old(
                self,
            ).models()[list_key(harness, device@)] == model_views(models@)),
            final(self).models() == old(self).models().insert(
                list_key(harness, device@),
                model_views(models@),
            ),
            final(self).harnesses() == old(self).harnesses(),
    {
        let key: String = ModelCatalogCache::models_key(harness, device);
        if let Some(known) = self.models_by_key.get(key.as_str()) {
            if same_models(known, &models) {
                assert(self.models() =~= old(self).models().insert(key@, model_views(models@)));
                return false;
            }
        }
        self.models_by_key.insert(key, models);
        assert(self.models() =~= old(self).models().insert(key@, model_views(models@)));
        true
    }

    /// What was stored for a harness on a device is read back, and the lists of
    /// every other harness or device are as they were.
    pub proof fn stored_models_are_read_back(
        before: Map<Seq<char>, Seq<ModelView>>,
        harness: HarnessId,
        device: Seq<char>,
        models: Seq<ModelView>,
        other: HarnessId,
        other_device: Seq<char>,
    )
        ensures
            ({
                let after = before.insert(list_key(harness, device), models);
                &&& after[list_key(harness, device)] == models
                &&& (other != harness || other_device != device) ==> (after.contains_key(
                    list_key(other, other_device),
                ) <==> before.contains_key(list_key(other, other_device)))
                &&& (other != harness || other_device != device) && before.contains_key(
                    list_key(other, other_device),
                ) ==> after[list_key(other, other_device)] == before[list_key(other, other_device)]
            }),
    {
        if list_key(harness, device) == list_key(other, other_device) {
            list_keys_are_distinct(harness, device, other, other_device);
        }
    }
}

}
