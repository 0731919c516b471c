use nova_ui::model_cache::{
    harness_key, HarnessDescriptor, Model, ModelCatalogCache, FILE_NAME,
};
use nova_ui::proto::HarnessId;
use nova_ui::terminal::tabs::harness_label;

fn model(id: &str, label: &str) -> Model {
    Model {
        id: id.into(),
        label: label.into(),
        description: None,
        reasoning_levels: vec![],
        options: vec![],
    }
}

#[test]
fn keys_are_per_harness_and_device() {
    let mut cache = ModelCatalogCache::default();
    cache.store_models(HarnessId::Pi, "", vec![model("local", "Local")]);
    cache.store_models(HarnessId::Pi, "dev-2", vec![model("remote", "Remote")]);
    assert_eq!(cache.models_for(HarnessId::Pi, "").unwrap()[0].id, "local");
    assert_eq!(
        cache.models_for(HarnessId::Pi, "dev-2").unwrap()[0].id,
        "remote"
    );
    // Distinct harnesses don't collide under the same device.
    assert!(cache.models_for(HarnessId::ClaudeCode, "").is_none());
}

#[test]
fn storing_what_is_known_changes_nothing() {
    let mut cache = ModelCatalogCache::default();
    let pi = HarnessDescriptor {
        id: HarnessId::Pi,
        name: "Pi".into(),
        supports_steering: true,
        steering_mode: "step-boundary".into(),
        reasoning_levels: vec!["low".into(), "high".into()],
    };
    assert!(cache.store_harnesses("", vec![pi.clone()]));
    assert!(!cache.store_harnesses("", vec![pi.clone()]));
    assert!(cache.store_models(HarnessId::Pi, "", vec![model("a", "A")]));
    assert!(!cache.store_models(HarnessId::Pi, "", vec![model("a", "A")]));
    // Any difference counts.
    let mut other = pi.clone();
    other.reasoning_levels.pop();
    assert!(cache.store_harnesses("", vec![other]));
    let mut described = model("a", "A");
    described.description = Some("d".into());
    assert!(cache.store_models(HarnessId::Pi, "", vec![described]));
    assert!(cache.store_models(HarnessId::Pi, "", vec![]));
    assert_eq!(cache.harnesses_for("").unwrap()[0].name, "Pi");
    assert!(cache.harnesses_for("dev").is_none());
}

#[test]
fn keys_are_spelled_as_the_engine_spells_them() {
    let name = format!("{:?}", HarnessId::ClaudeCode).to_lowercase();
    let expected = name.replace("code", "-code");
    assert_eq!(harness_key(HarnessId::ClaudeCode), expected);
    assert_eq!(harness_label(HarnessId::ClaudeCode), name.replace("code", " code"));
    assert_eq!(harness_key(HarnessId::Codex), "codex");
    assert_eq!(ModelCatalogCache::models_key(HarnessId::Pi, "dev-2"), "pi@dev-2");
    assert_eq!(ModelCatalogCache::models_key(HarnessId::Mock, ""), "mock@");
    assert_eq!(FILE_NAME, "model-catalog-cache.json");
}
