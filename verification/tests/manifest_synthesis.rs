use ori_apk::manifest::{synthesize, MIN_PLATFORM_VERSION, PLATFORM_CODENAME, PLATFORM_VERSION};
use ori_apk::metadata::{Metadata, OriMetadata};

fn defaults() -> (OriMetadata, Metadata) {
    (OriMetadata::resolve(None).unwrap(), Metadata::resolve(None).unwrap())
}

#[test]
fn defaults_synthesize_the_documented_manifest() {
    let (ori, apk) = defaults();
    let name = String::from("my-app");
    let version = String::from("1.2.3");
    let m = synthesize(&name, &version, &ori, &apk);
    assert_eq!(m.package, ".my_app");
    assert_eq!(m.version_code, 1);
    assert_eq!(m.version_name, "1.2.3");
}

#[test]
fn package_block_wins_and_label_falls_back_to_project_name() {
    let (ori, mut apk) = defaults();
    assert_eq!(ori.name, None);
    apk.version_code = Some(7);
    let name = String::from("my-app");
    let version = String::from("1.2.3");
    let m = synthesize(&name, &version, &ori, &apk);
    assert_eq!(m.version_code, 7);
    assert_eq!(m.application_label, "my-app");
    assert_eq!(m.activity.label, "my-app");
}

#[test]
fn explicit_fields_override_every_default() {
    let (mut ori, mut apk) = defaults();
    ori.name = Some(String::from("Shiny"));
    apk.package = Some(String::from("com.example.shiny"));
    apk.version_name = Some(String::from("2.0-rc1"));
    apk.uses_feature = vec![String::from("android.hardware.vulkan.level")];
    apk.uses_permission = vec![String::from("android.permission.INTERNET")];
    let name = String::from("shiny-app");
    let version = String::from("0.9.0");
    let m = synthesize(&name, &version, &ori, &apk);
    assert_eq!(m.package, "com.example.shiny");
    assert_eq!(m.version_name, "2.0-rc1");
    assert_eq!(m.application_label, "Shiny");
    assert_eq!(m.activity.label, "Shiny");
    assert_eq!(m.uses_feature, vec![String::from("android.hardware.vulkan.level")]);
    assert_eq!(m.uses_permission, vec![String::from("android.permission.INTERNET")]);
}

#[test]
fn platform_baseline_and_entry_point_are_fixed() {
    let (ori, apk) = defaults();
    let name = String::from("demo-game");
    let version = String::from("0.1.0");
    let m = synthesize(&name, &version, &ori, &apk);
    assert_eq!(PLATFORM_VERSION, 34);
    assert_eq!(PLATFORM_CODENAME, 14);
    assert_eq!(MIN_PLATFORM_VERSION, 21);
    assert_eq!(m.compile_sdk_version, 34);
    assert_eq!(m.platform_build_version_code, 34);
    assert_eq!(m.compile_sdk_version_codename, 14);
    assert_eq!(m.platform_build_version_name, 14);
    assert_eq!(m.target_sdk_version, 34);
    assert_eq!(m.min_sdk_version, 21);
    assert_eq!(
        m.application_theme,
        "@android:style/Theme.DeviceDefault.NoActionBar.TranslucentDecor"
    );
    assert_eq!(m.activity.name, "ori.oriactivity.OriActivity");
    assert!(m.activity.exported);
    assert!(m.activity.hardware_accelerated);
    assert_eq!(m.activity.lib_name, "demo_game");
    assert_eq!(m.activity.intent_action, "android.intent.action.MAIN");
    assert_eq!(m.activity.intent_category, "android.intent.category.LAUNCHER");
    assert_eq!(
        m.activity.config_changes,
        "orientation|keyboardHidden|keyboard|screenSize|smallestScreenSize|locale|layoutDirection|fontScale|screenLayout|density|uiMode"
    );
    assert_eq!(m.activity.launch_mode, "singleTop");
    assert_eq!(m.activity.window_soft_input_mode, "adjustResize");
}
