use ori_apk::device::{device_from_abi, parse_device_ids, select_single_device, Device};
use ori_apk::error::BuildError;
use ori_apk::target::Target;

const ALL: [Target; 4] = [Target::Arm64V8a, Target::ArmV7a, Target::X86, Target::X86_64];

#[test]
fn triple_mapping_round_trips() {
    for arch in ALL {
        let triple = arch.triple().to_string();
        let back = Target::from_triple(&triple).expect("own triple maps back");
        assert_eq!(back, arch);
        assert_eq!(back.triple(), triple);
    }
}

#[test]
fn abi_mapping_round_trips() {
    for arch in ALL {
        let abi = arch.abi().to_string();
        let back = Target::from_abi(&abi).expect("own abi maps back");
        assert_eq!(back, arch);
        assert_eq!(back.abi(), abi);
    }
}

#[test]
fn triple_values_are_fixed() {
    assert_eq!(Target::Arm64V8a.triple(), "aarch64-linux-android");
    assert_eq!(Target::ArmV7a.triple(), "armv7-linux-androideabi");
    assert_eq!(Target::X86.triple(), "i686-linux-android");
    assert_eq!(Target::X86_64.triple(), "x86_64-linux-android");
    assert_eq!(Target::Arm64V8a.abi(), "arm64-v8a");
    assert_eq!(Target::ArmV7a.abi(), "armeabi-v7a");
    assert_eq!(Target::X86.abi(), "x86");
    assert_eq!(Target::X86_64.abi(), "x86_64");
}

#[test]
fn unknown_triple_fails_never_defaults() {
    let bad = String::from("wasm32-unknown-unknown");
    match Target::from_triple(&bad) {
        Err(BuildError::UnsupportedTarget(v)) => assert_eq!(v, bad),
        other => panic!("expected UnsupportedTarget, got {:?}", other),
    }
}

#[test]
fn unknown_abi_fails_never_defaults() {
    let bad = String::from("mips64");
    match Target::from_abi(&bad) {
        Err(BuildError::UnknownAbi(v)) => assert_eq!(v, bad),
        other => panic!("expected UnknownAbi, got {:?}", other),
    }
}

#[test]
fn device_target_triple_matches_arch() {
    let d = Device { id: String::from("deadbeef001"), arch: Target::Arm64V8a };
    assert_eq!(d.target_triple(), "aarch64-linux-android");
}

#[test]
fn one_device_row_is_parsed() {
    let out = String::from("List of devices attached\ndeadbeef001    device\n");
    let ids = parse_device_ids(&out);
    assert_eq!(ids, vec![String::from("deadbeef001")]);
    let abi = String::from("arm64-v8a\n");
    let device = device_from_abi(ids[0].clone(), &abi).expect("known abi");
    assert_eq!(device.id, "deadbeef001");
    assert_eq!(device.arch, Target::Arm64V8a);
}

#[test]
fn header_only_output_is_empty_not_an_error() {
    let out = String::from("List of devices attached\n");
    assert!(parse_device_ids(&out).is_empty());
    let bare = String::from("List of devices attached");
    assert!(parse_device_ids(&bare).is_empty());
}

#[test]
fn blank_rows_are_skipped() {
    let out = String::from("List of devices attached\n\nalpha device\n   \nbeta device\n");
    let ids = parse_device_ids(&out);
    assert_eq!(ids, vec![String::from("alpha"), String::from("beta")]);
}

#[test]
fn device_from_abi_trims_and_rejects() {
    let abi = String::from("  x86_64  \n");
    let d = device_from_abi(String::from("id1"), &abi).expect("trimmed abi maps");
    assert_eq!(d.arch, Target::X86_64);
    let bad = String::from("sparc\n");
    match device_from_abi(String::from("id1"), &bad) {
        Err(BuildError::UnknownAbi(v)) => assert_eq!(v, "sparc"),
        other => panic!("expected UnknownAbi, got {:?}", other),
    }
}

#[test]
fn single_device_is_selected() {
    let only = Device { id: String::from("a"), arch: Target::X86 };
    let got = select_single_device(vec![only]).expect("one device selects");
    assert_eq!(got.id, "a");
}

#[test]
fn no_device_and_many_devices_are_distinct_failures() {
    match select_single_device(Vec::new()) {
        Err(BuildError::NoDevice) => {}
        other => panic!("expected NoDevice, got {:?}", other),
    }
    let two = vec![
        Device { id: String::from("a"), arch: Target::X86 },
        Device { id: String::from("b"), arch: Target::X86_64 },
    ];
    match select_single_device(two) {
        Err(BuildError::MultipleDevices(n)) => assert_eq!(n, 2),
        other => panic!("expected MultipleDevices, got {:?}", other),
    }
}
