use ori_apk::error::BuildError;
use ori_apk::metadata::{ConfigField, ConfigValue, Metadata, OriMetadata};

fn field(key: &str, value: ConfigValue) -> ConfigField {
    ConfigField { key: String::from(key), value }
}

#[test]
fn absent_block_resolves_to_defaults_twice() {
    let first = Metadata::resolve(None).expect("absent block resolves");
    let second = Metadata::resolve(None).expect("absent block resolves");
    assert_eq!(first.package, None);
    assert_eq!(first.version_code, None);
    assert_eq!(first.version_name, None);
    assert_eq!(first.icon, None);
    assert!(first.uses_feature.is_empty());
    assert!(first.uses_permission.is_empty());
    assert_eq!(first.package, second.package);
    assert_eq!(first.version_code, second.version_code);
    assert_eq!(first.version_name, second.version_name);
    assert_eq!(first.icon, second.icon);
    assert_eq!(first.uses_feature, second.uses_feature);
    assert_eq!(first.uses_permission, second.uses_permission);
}

#[test]
fn partial_block_overlays_without_clearing() {
    let block = vec![field("version-code", ConfigValue::UInt(7))];
    let m = Metadata::resolve(Some(&block)).expect("known field resolves");
    assert_eq!(m.version_code, Some(7));
    // Every field the block did not mention keeps its default.
    assert_eq!(m.package, None);
    assert_eq!(m.version_name, None);
    assert_eq!(m.icon, None);
    assert!(m.uses_feature.is_empty());
    assert!(m.uses_permission.is_empty());
}

#[test]
fn all_fields_overlay() {
    let block = vec![
        field("package", ConfigValue::Str(String::from("com.example.app"))),
        field("version-code", ConfigValue::UInt(3)),
        field("version-name", ConfigValue::Str(String::from("3.0"))),
        field("icon", ConfigValue::Str(String::from("icon.png"))),
        field(
            "uses-feature",
            ConfigValue::List(vec![String::from("android.hardware.vulkan.level")]),
        ),
        field(
            "uses-permission",
            ConfigValue::List(vec![
                String::from("android.permission.INTERNET"),
                String::from("android.permission.INTERNET"),
            ]),
        ),
    ];
    let m = Metadata::resolve(Some(&block)).expect("full block resolves");
    assert_eq!(m.package.as_deref(), Some("com.example.app"));
    assert_eq!(m.version_code, Some(3));
    assert_eq!(m.version_name.as_deref(), Some("3.0"));
    assert_eq!(m.icon.as_deref(), Some("icon.png"));
    assert_eq!(m.uses_feature, vec![String::from("android.hardware.vulkan.level")]);
    // Order is kept and duplicates are not removed.
    assert_eq!(
        m.uses_permission,
        vec![
            String::from("android.permission.INTERNET"),
            String::from("android.permission.INTERNET"),
        ]
    );
}

#[test]
fn later_field_wins() {
    let block = vec![
        field("version-code", ConfigValue::UInt(1)),
        field("version-code", ConfigValue::UInt(9)),
    ];
    let m = Metadata::resolve(Some(&block)).expect("block resolves");
    assert_eq!(m.version_code, Some(9));
}

#[test]
fn unknown_field_is_rejected() {
    let block = vec![field("version", ConfigValue::UInt(1))];
    match Metadata::resolve(Some(&block)) {
        Err(BuildError::UnknownConfigField(k)) => assert_eq!(k, "version"),
        other => panic!("expected UnknownConfigField, got {:?}", other),
    }
}

#[test]
fn ill_typed_field_is_rejected() {
    let block = vec![field("version-code", ConfigValue::Str(String::from("seven")))];
    match Metadata::resolve(Some(&block)) {
        Err(BuildError::InvalidConfigField(k)) => assert_eq!(k, "version-code"),
        other => panic!("expected InvalidConfigField, got {:?}", other),
    }
}

#[test]
fn version_code_over_range_is_rejected() {
    let block = vec![field("version-code", ConfigValue::UInt(u64::from(u32::MAX) + 1))];
    match Metadata::resolve(Some(&block)) {
        Err(BuildError::InvalidConfigField(k)) => assert_eq!(k, "version-code"),
        other => panic!("expected InvalidConfigField, got {:?}", other),
    }
}

#[test]
fn fault_before_later_fields_wins() {
    let block = vec![
        field("mistyped", ConfigValue::UInt(1)),
        field("version-code", ConfigValue::UInt(2)),
    ];
    match Metadata::resolve(Some(&block)) {
        Err(BuildError::UnknownConfigField(k)) => assert_eq!(k, "mistyped"),
        other => panic!("expected UnknownConfigField, got {:?}", other),
    }
}

#[test]
fn general_block_resolves_name_only() {
    let absent = OriMetadata::resolve(None).expect("absent block resolves");
    assert_eq!(absent.name, None);
    let block = vec![field("name", ConfigValue::Str(String::from("My App")))];
    let m = OriMetadata::resolve(Some(&block)).expect("name resolves");
    assert_eq!(m.name.as_deref(), Some("My App"));
    let bad = vec![field("title", ConfigValue::Str(String::from("My App")))];
    match OriMetadata::resolve(Some(&bad)) {
        Err(BuildError::UnknownConfigField(k)) => assert_eq!(k, "title"),
        other => panic!("expected UnknownConfigField, got {:?}", other),
    }
    let ill = vec![field("name", ConfigValue::UInt(3))];
    match OriMetadata::resolve(Some(&ill)) {
        Err(BuildError::InvalidConfigField(k)) => assert_eq!(k, "name"),
        other => panic!("expected InvalidConfigField, got {:?}", other),
    }
}
