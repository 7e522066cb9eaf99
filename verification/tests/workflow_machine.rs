use ori_apk::cli;
use ori_apk::device::Device;
use ori_apk::error::BuildError;
use ori_apk::manifest::synthesize;
use ori_apk::metadata::{ConfigField, ConfigValue, Metadata, OriMetadata};
use ori_apk::project::{get_package, PackageInfo, ProjectMetadata};
use ori_apk::sdk::{dex_path, sdk_cache_path, sdk_dir, sdk_package, sdk_step, SdkDecision};
use ori_apk::signer::load_signer;
use ori_apk::target::Target;
use ori_apk::workflow::{Action, BuildOptions, Command, Workflow};

fn options() -> BuildOptions {
    BuildOptions {
        sdk: None,
        release: false,
        pem: None,
        target: Some(String::from("aarch64-linux-android")),
        package: None,
        offline: false,
        features: Vec::new(),
        verbose: false,
    }
}

fn package(name: &str) -> PackageInfo {
    PackageInfo {
        name: String::from(name),
        id: String::from("id-of-demo"),
        version: String::from("0.1.0"),
        ori_config: None,
        apk_config: None,
    }
}

fn project() -> ProjectMetadata {
    ProjectMetadata {
        packages: vec![package("demo")],
        root_package: Some(0),
        workspace_root: String::from("/w"),
        target_directory: String::from("/w/target"),
    }
}

fn advance_to_checking_sdk(offline: bool) -> (Workflow, Action) {
    let mut opts = options();
    opts.offline = offline;
    let (w, a) = Command::Build(opts).run();
    assert!(matches!(a, Action::FetchProjectMetadata));
    let (w, a) = w.on_project(project()).expect("plan succeeds");
    assert!(matches!(a, Action::ProbeCompiler));
    let (w, a) = w.on_compiler_probe(true).expect("compiler present");
    match &a {
        Action::RunCompiler { args } => {
            assert!(args.contains(&String::from("--target")));
            if offline {
                assert!(args.contains(&String::from("--offline")));
            }
        }
        other => panic!("expected RunCompiler, got {:?}", other),
    }
    let line = String::from(
        r#"{"reason":"compiler-artifact","package_id":"id-of-demo","manifest_path":"/w/demo/Cargo.toml","target":{"name":"demo","kind":["cdylib"],"crate_types":["cdylib"],"src_path":"/w/src/lib.rs"},"profile":{"opt_level":"0","debug_assertions":true,"overflow_checks":true,"test":false},"features":[],"filenames":["/target/aarch64-linux-android/debug/libdemo.so"],"executable":null,"fresh":false}"#,
    );
    let (w, echo) = w.consume_compiler_line(&line);
    assert_eq!(echo, None);
    w.on_compiled().expect("artifact located")
}

#[test]
fn build_flow_reaches_the_sdk_check_with_computed_paths() {
    let (_, a) = advance_to_checking_sdk(false);
    match a {
        Action::CheckSdkCache { path } => {
            assert_eq!(path, "/w/target/apk/platforms/android-34/android.jar");
        }
        other => panic!("expected CheckSdkCache, got {:?}", other),
    }
}

#[test]
fn cached_sdk_goes_straight_to_assembly() {
    let (w, _) = advance_to_checking_sdk(false);
    let (_, a) = w.on_sdk_cache(true).expect("cached resource");
    match a {
        Action::AssemblePackage { plan } => {
            assert_eq!(plan.package_path, "/w/target/aarch64-linux-android/debug/demo.apk");
            assert_eq!(plan.lib_path, "/w/target/aarch64-linux-android/debug/libdemo.so");
            assert_eq!(plan.sdk_path, "/w/target/apk/platforms/android-34/android.jar");
            assert_eq!(plan.dex_path, "/w/target/apk/platforms/android-34/classes.dex");
            assert_eq!(plan.arch, Target::Arm64V8a);
            assert_eq!(plan.manifest.package, ".demo");
            assert!(plan.debuggable);
        }
        other => panic!("expected AssemblePackage, got {:?}", other),
    }
}

#[test]
fn cold_cache_fetches_online() {
    let (w, _) = advance_to_checking_sdk(false);
    let (w, a) = w.on_sdk_cache(false).expect("online fetch");
    match a {
        Action::FetchSdk { directory, package, filter } => {
            assert_eq!(directory, "/w/target/apk");
            assert_eq!(package, "platforms;android-34");
            assert_eq!(filter, "android.jar");
        }
        other => panic!("expected FetchSdk, got {:?}", other),
    }
    let (_, a) = w.on_sdk_fetched().expect("fetched resource");
    assert!(matches!(a, Action::AssemblePackage { .. }));
}

#[test]
fn offline_cold_cache_fails_before_assembly() {
    let (w, _) = advance_to_checking_sdk(true);
    match w.on_sdk_cache(false) {
        Err(BuildError::SdkOfflineMissing) => {}
        other => panic!("expected SdkOfflineMissing, got {:?}", other),
    }
}

#[test]
fn sdk_decision_is_cache_idempotent() {
    for offline in [false, true] {
        match sdk_step(true, offline) {
            Ok(SdkDecision::UseCached) => {}
            other => panic!("expected UseCached, got {:?}", other),
        }
    }
    assert!(matches!(sdk_step(false, false), Ok(SdkDecision::Fetch)));
    assert!(matches!(sdk_step(false, true), Err(BuildError::SdkOfflineMissing)));
}

#[test]
fn sdk_paths_are_deterministic() {
    let td = String::from("target");
    assert_eq!(sdk_dir(&td), "target/apk");
    assert_eq!(sdk_cache_path(&td, 34), "target/apk/platforms/android-34/android.jar");
    assert_eq!(dex_path(&td, 34), "target/apk/platforms/android-34/classes.dex");
    assert_eq!(sdk_package(34), "platforms;android-34");
    assert_eq!(sdk_package(7), "platforms;android-7");
    assert_eq!(sdk_package(0), "platforms;android-0");
    assert_eq!(sdk_package(4294967295), "platforms;android-4294967295");
    assert_eq!(sdk_cache_path(&td, 105), "target/apk/platforms/android-105/android.jar");
}

#[test]
fn build_flow_finishes_without_install() {
    let (w, _) = advance_to_checking_sdk(false);
    let (w, _) = w.on_sdk_cache(true).expect("cached");
    let (w, a) = w.on_packaged(Ok(())).expect("assembled");
    match (&w, &a) {
        (Workflow::Done { package_path }, Action::Finish { package_path: p2 }) => {
            assert_eq!(package_path, "/w/target/aarch64-linux-android/debug/demo.apk");
            assert_eq!(p2, package_path);
        }
        other => panic!("expected Done/Finish, got {:?}", other),
    }
}

#[test]
fn packaging_failure_carries_the_message() {
    let (w, _) = advance_to_checking_sdk(false);
    let (w, _) = w.on_sdk_cache(true).expect("cached");
    match w.on_packaged(Err(String::from("resource table broken"))) {
        Err(BuildError::PackagingFailed(m)) => assert_eq!(m, "resource table broken"),
        other => panic!("expected PackagingFailed, got {:?}", other),
    }
}

#[test]
fn install_flow_selects_the_single_device_and_infers_the_target() {
    let mut opts = options();
    opts.target = None;
    let (w, a) = cli::run_command(cli::Command::Apk(Command::Install(opts)));
    assert!(matches!(a, Action::FetchProjectMetadata));
    let (w, a) = w.on_project(project()).expect("package selected");
    assert!(matches!(a, Action::ProbeBridge));
    let (w, a) = w.on_bridge_probe(true).expect("bridge present");
    assert!(matches!(a, Action::ListDevices));
    let devices = vec![Device { id: String::from("deadbeef001"), arch: Target::X86_64 }];
    let (w, a) = w.on_devices(devices).expect("one device");
    assert!(matches!(a, Action::ProbeCompiler));
    let (w, a) = w.on_compiler_probe(true).expect("compiler present");
    match a {
        Action::RunCompiler { args } => {
            let pos = args.iter().position(|s| s == "--target").expect("--target passed");
            assert_eq!(args[pos + 1], "x86_64-linux-android");
        }
        other => panic!("expected RunCompiler, got {:?}", other),
    }
    let line = String::from(
        r#"{"reason":"compiler-artifact","package_id":"id-of-demo","manifest_path":"/w/demo/Cargo.toml","target":{"name":"demo","kind":["cdylib"],"crate_types":["cdylib"],"src_path":"/w/src/lib.rs"},"profile":{"opt_level":"0","debug_assertions":true,"overflow_checks":true,"test":false},"features":[],"filenames":["/target/x86_64-linux-android/debug/libdemo.so"],"executable":null,"fresh":false}"#,
    );
    let (w, _) = w.consume_compiler_line(&line);
    let (w, _) = w.on_compiled().expect("artifact located");
    let (w, _) = w.on_sdk_cache(true).expect("cached");
    let (w, a) = w.on_packaged(Ok(())).expect("assembled");
    match a {
        Action::InstallPackage { device_id, package_path } => {
            assert_eq!(device_id, "deadbeef001");
            assert_eq!(package_path, "/w/target/x86_64-linux-android/debug/demo.apk");
        }
        other => panic!("expected InstallPackage, got {:?}", other),
    }
    let (w, a) = w.on_installed(true).expect("installed");
    assert!(matches!(w, Workflow::Done { .. }));
    assert!(matches!(a, Action::Finish { .. }));
}

#[test]
fn install_failures_are_distinct() {
    let opts = options();
    let (w, _) = Command::Install(opts).run();
    let (w, _) = w.on_project(project()).expect("package selected");
    match w.on_bridge_probe(false) {
        Err(BuildError::BridgeNotInstalled) => {}
        other => panic!("expected BridgeNotInstalled, got {:?}", other),
    }

    let (w, _) = Command::Install(options()).run();
    let (w, _) = w.on_project(project()).expect("package selected");
    let (w, _) = w.on_bridge_probe(true).expect("bridge present");
    match w.on_devices(Vec::new()) {
        Err(BuildError::NoDevice) => {}
        other => panic!("expected NoDevice, got {:?}", other),
    }

    let (w, _) = Command::Install(options()).run();
    let (w, _) = w.on_project(project()).expect("package selected");
    let (w, _) = w.on_bridge_probe(true).expect("bridge present");
    let two = vec![
        Device { id: String::from("d1"), arch: Target::X86 },
        Device { id: String::from("d2"), arch: Target::X86_64 },
    ];
    match w.on_devices(two) {
        Err(BuildError::MultipleDevices(n)) => assert_eq!(n, 2),
        other => panic!("expected MultipleDevices, got {:?}", other),
    }
}

#[test]
fn failed_install_reports_install_failed() {
    let (w, _) = advance_to_checking_sdk(false);
    let (w, _) = w.on_sdk_cache(true).expect("cached");
    let (w, _) = w.on_packaged(Ok(())).expect("assembled");
    // The build flow is Done here; exercise the install event on a machine
    // built through the install flow instead.
    let _ = w;
    let machine = Workflow::Installing { package_path: String::from("/t/demo.apk") };
    match machine.on_installed(false) {
        Err(BuildError::InstallFailed) => {}
        other => panic!("expected InstallFailed, got {:?}", other),
    }
}

#[test]
fn missing_or_unsupported_target_fails_the_build_flow() {
    let mut opts = options();
    opts.target = None;
    let (w, _) = Command::Build(opts).run();
    match w.on_project(project()) {
        Err(BuildError::TargetNotSpecified) => {}
        other => panic!("expected TargetNotSpecified, got {:?}", other),
    }

    let mut opts = options();
    opts.target = Some(String::from("riscv64gc-unknown-linux-gnu"));
    let (w, _) = Command::Build(opts).run();
    match w.on_project(project()) {
        Err(BuildError::UnsupportedTarget(t)) => {
            assert_eq!(t, "riscv64gc-unknown-linux-gnu");
        }
        other => panic!("expected UnsupportedTarget, got {:?}", other),
    }
}

#[test]
fn compiler_probe_failure_is_distinct() {
    let (w, _) = Command::Build(options()).run();
    let (w, _) = w.on_project(project()).expect("plan succeeds");
    match w.on_compiler_probe(false) {
        Err(BuildError::CompilerNotInstalled) => {}
        other => panic!("expected CompilerNotInstalled, got {:?}", other),
    }
}

#[test]
fn relative_library_path_is_rejected() {
    let (w, _) = Command::Build(options()).run();
    let (w, _) = w.on_project(project()).expect("plan succeeds");
    let (w, _) = w.on_compiler_probe(true).expect("compiler present");
    let relative_line = String::from(
        r#"{"reason":"compiler-artifact","package_id":"id-of-demo","manifest_path":"/w/demo/Cargo.toml","target":{"name":"demo","kind":["cdylib"],"crate_types":["cdylib"],"src_path":"/w/src/lib.rs"},"profile":{"opt_level":"0","debug_assertions":true,"overflow_checks":true,"test":false},"features":[],"filenames":["relative/libdemo.so"],"executable":null,"fresh":false}"#,
    );
    let (w, _) = w.consume_compiler_line(&relative_line);
    match w.on_compiled() {
        Err(BuildError::LibraryPathNotAbsolute(p)) => assert_eq!(p, "relative/libdemo.so"),
        other => panic!("expected LibraryPathNotAbsolute, got {:?}", other),
    }
}

#[test]
fn project_selection_by_name_root_and_failure() {
    let mut p = project();
    p.packages.push(package("extra"));
    let by_name = get_package(&p, Some(&String::from("extra"))).expect("found by name");
    assert_eq!(by_name, 1);
    let by_root = get_package(&p, None).expect("root package");
    assert_eq!(by_root, 0);
    match get_package(&p, Some(&String::from("absent"))) {
        Err(BuildError::PackageNotFound(n)) => assert_eq!(n, "absent"),
        other => panic!("expected PackageNotFound, got {:?}", other),
    }
    let rootless = ProjectMetadata {
        packages: vec![package("demo")],
        root_package: None,
        workspace_root: String::from("/w"),
        target_directory: String::from("/w/target"),
    };
    match get_package(&rootless, None) {
        Err(BuildError::NoPackage) => {}
        other => panic!("expected NoPackage, got {:?}", other),
    }
}

#[test]
fn configured_blocks_flow_into_the_plan() {
    let mut p = project();
    p.packages[0].ori_config = Some(vec![ConfigField {
        key: String::from("name"),
        value: ConfigValue::Str(String::from("Demo!")),
    }]);
    p.packages[0].apk_config = Some(vec![
        ConfigField { key: String::from("version-code"), value: ConfigValue::UInt(5) },
        ConfigField {
            key: String::from("icon"),
            value: ConfigValue::Str(String::from("assets/icon.png")),
        },
    ]);
    let mut opts = options();
    opts.release = true;
    opts.features = vec![String::from("audio"), String::from("net")];
    let (w, _) = Command::Build(opts).run();
    let (w, a) = w.on_project(p).expect("plan succeeds");
    assert!(matches!(w, Workflow::ProbingCompiler { .. }));
    assert!(matches!(a, Action::ProbeCompiler));
    match w {
        Workflow::ProbingCompiler { plan, .. } => {
            assert_eq!(plan.manifest.version_code, 5);
            assert_eq!(plan.manifest.application_label, "Demo!");
            assert_eq!(plan.icon_path.as_deref(), Some("/w/assets/icon.png"));
            assert_eq!(
                plan.compiler_args,
                vec![
                    String::from("--color"),
                    String::from("always"),
                    String::from("build"),
                    String::from("--target"),
                    String::from("aarch64-linux-android"),
                    String::from("--message-format=json"),
                    String::from("--package"),
                    String::from("demo"),
                    String::from("--lib"),
                    String::from("--release"),
                    String::from("--features"),
                    String::from("audio,net"),
                ]
            );
        }
        other => panic!("expected ProbingCompiler, got {:?}", other),
    }
}

#[test]
fn schema_fault_in_a_block_fails_the_plan() {
    let mut p = project();
    p.packages[0].apk_config = Some(vec![ConfigField {
        key: String::from("versioncode"),
        value: ConfigValue::UInt(5),
    }]);
    let (w, _) = Command::Build(options()).run();
    match w.on_project(p) {
        Err(BuildError::UnknownConfigField(k)) => assert_eq!(k, "versioncode"),
        other => panic!("expected UnknownConfigField, got {:?}", other),
    }
}

#[test]
fn malformed_signing_key_is_rejected() {
    let pem = String::from("not a pem at all");
    match load_signer(&pem) {
        Err(BuildError::InvalidSigningKey(_)) => {}
        other => {
            assert!(other.is_err(), "garbage must not parse into a signer");
        }
    }
}

#[test]
fn manifest_synthesis_matches_plan_manifest() {
    let ori = OriMetadata::resolve(None).unwrap();
    let apk = Metadata::resolve(None).unwrap();
    let name = String::from("demo");
    let version = String::from("0.1.0");
    let m = synthesize(&name, &version, &ori, &apk);
    let (w, _) = Command::Build(options()).run();
    let (w, _) = w.on_project(project()).expect("plan succeeds");
    match w {
        Workflow::ProbingCompiler { plan, .. } => {
            assert_eq!(plan.manifest.package, m.package);
            assert_eq!(plan.manifest.version_code, m.version_code);
            assert_eq!(plan.manifest.version_name, m.version_name);
            assert_eq!(plan.manifest.application_label, m.application_label);
        }
        other => panic!("expected ProbingCompiler, got {:?}", other),
    }
}
