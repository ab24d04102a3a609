use registry_core::cargo::{
    CrateMetadata, CrateMetadataDependency, CrateUploadData, DependencyKind, IndexCrateDependency,
};
use registry_core::string_map::StringMap;
use registry_core::resolver::{feature_activates, holds_text};

fn indexed(name: &str, package: Option<&str>, optional: bool, target: Option<&str>) -> IndexCrateDependency {
    IndexCrateDependency {
        name: name.to_string(),
        req: "*".to_string(),
        features: Vec::new(),
        optional,
        default_features: true,
        target: target.map(|t| t.to_string()),
        kind: DependencyKind::Normal,
        registry: None,
        package: package.map(|p| p.to_string()),
    }
}

fn chars(text: &str) -> Vec<char> {
    text.chars().collect()
}

#[test]
fn required_dependency_without_target_is_always_active() {
    let dep = indexed("serde", None, false, None);
    assert!(dep.is_active_for(&[], &[]));
    assert!(dep.is_active_for(&["linux".to_string()], &["anything"]));
}

#[test]
fn dependency_for_another_target_is_inactive() {
    let dep = indexed("winapi", None, false, Some("windows"));
    assert!(!dep.is_active_for(&["linux".to_string()], &[]));
    assert!(!dep.is_active_for(&[], &["dep:winapi"]));
    assert!(dep.is_active_for(&["linux".to_string(), "windows".to_string()], &[]));
}

#[test]
fn cfg_targets_are_never_active() {
    for target in ["cfg(windows)", "cfg(", "cfg()", "cfg(all(unix, target_arch = \"x86_64\"))"] {
        let dep = indexed("x", None, false, Some(target));
        assert!(!dep.is_active_for(&[target.to_string()], &[]), "{target}");
    }
    // a target that only looks like an expression is a plain one
    let dep = indexed("x", None, false, Some("cfg"));
    assert!(dep.is_active_for(&["cfg".to_string()], &[]));
}

#[test]
fn optional_dependency_needs_a_feature() {
    let dep = indexed("serde", None, true, None);
    assert!(!dep.is_active_for(&[], &[]));
    assert!(!dep.is_active_for(&[], &["serde", "dep:serd", "dep:serde2", "xserde/derive"]));
    assert!(dep.is_active_for(&[], &["dep:serde"]));
    assert!(dep.is_active_for(&[], &["other", "serde/derive"]));
    assert!(dep.is_active_for(&[], &["serde/"]));
    assert!(dep.is_active_for(&[], &["serde/a/b"]));
    assert!(!dep.is_active_for(&[], &["serd/e"]));
}

#[test]
fn optional_dependency_on_another_target_is_inactive() {
    let dep = indexed("serde", None, true, Some("windows"));
    assert!(!dep.is_active_for(&["linux".to_string()], &["dep:serde"]));
    assert!(dep.is_active_for(&["windows".to_string()], &["dep:serde"]));
}

#[test]
fn renamed_dependency_is_activated_by_its_package_name() {
    let dep = indexed("ser", Some("serde"), true, None);
    assert_eq!(dep.get_name(), "serde");
    assert!(!dep.is_active_for(&[], &[]));
    assert!(!dep.is_active_for(&[], &["dep:ser", "ser/derive"]));
    assert!(dep.is_active_for(&[], &["dep:serde"]));
    assert!(dep.is_active_for(&[], &["serde/derive"]));
}

#[test]
fn published_alias_scenario() {
    let metadata = CrateMetadata {
        name: "abc".to_string(),
        vers: "1.0.0".to_string(),
        deps: vec![CrateMetadataDependency {
            name: "serde".to_string(),
            version_req: "1".to_string(),
            features: Vec::new(),
            optional: true,
            default_features: true,
            target: None,
            kind: DependencyKind::Normal,
            registry: None,
            explicit_name_in_toml: Some("ser".to_string()),
        }],
        features: StringMap::new(),
        authors: Vec::new(),
        description: None,
        documentation: None,
        homepage: None,
        readme: None,
        readme_file: None,
        keywords: Vec::new(),
        categories: Vec::new(),
        license: None,
        license_file: None,
        repository: None,
        badges: StringMap::new(),
        links: None,
        rust_version: None,
    };
    assert!(metadata.validate().is_ok());
    let record = CrateUploadData::from_parts(metadata, b"archive".to_vec()).build_index_data();
    assert_eq!(record.name, "abc");
    assert_eq!(record.vers, "1.0.0");
    assert_eq!(record.deps.len(), 1);
    assert_eq!(record.deps[0].name, "ser");
    assert_eq!(record.deps[0].package.as_deref(), Some("serde"));
    assert!(record.deps[0].optional);
    assert!(!record.deps[0].is_active_for(&[], &[]));
    assert!(!record.deps[0].is_active_for(&[], &["default", "dep:ser"]));
    assert!(record.deps[0].is_active_for(&[], &["default", "dep:serde"]));
}

#[test]
fn name_with_a_slash_is_matched_up_to_the_first_slash() {
    let dep = indexed("a/b", None, true, None);
    assert!(!dep.is_active_for(&[], &["a/b/c"]));
    assert!(dep.is_active_for(&[], &["dep:a/b"]));
}

#[test]
fn feature_forms() {
    assert!(feature_activates(&chars("dep:x"), &chars("x")));
    assert!(feature_activates(&chars("x/y"), &chars("x")));
    assert!(feature_activates(&chars("dep:/y"), &chars("dep:")));
    assert!(!feature_activates(&chars("dep:x"), &chars("")));
    assert!(feature_activates(&chars("dep:"), &chars("")));
    assert!(feature_activates(&chars("/y"), &chars("")));
    assert!(!feature_activates(&chars(""), &chars("")));
    assert!(!feature_activates(&chars("x"), &chars("x")));
}

#[test]
fn list_membership_is_by_text() {
    let list = vec!["linux".to_string(), "windows".to_string()];
    assert!(holds_text(&list, &chars("windows")));
    assert!(!holds_text(&list, &chars("Windows")));
    assert!(!holds_text(&[], &chars("")));
}
