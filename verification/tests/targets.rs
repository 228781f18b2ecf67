use boltffi_target::arch::{
    AndroidArchitecture, AppleArchitecture, AppleIosArchitecture, DartNativeArchitecture,
};
use boltffi_target::built::BuiltLibrary;
use boltffi_target::platform::{Architecture, Platform};
use boltffi_target::rust_target::RustTarget;
use std::path::Path;

#[test]
fn library_file_names_per_platform() {
    assert_eq!(RustTarget::ios_sim_x86_64().library_file_name("demo"), "libdemo.a");
    assert_eq!(RustTarget::macos_arm64().library_file_name("demo"), "libdemo.a");
    assert_eq!(RustTarget::android_x86().library_file_name("demo"), "libdemo.a");
    assert_eq!(RustTarget::linux_x86_64().library_file_name("demo"), "libdemo.so");
    assert_eq!(RustTarget::wasm32_unknown_unknown().library_file_name("demo"), "demo.wasm");
}

#[test]
fn library_paths_for_linux_and_wasm() {
    let linux = RustTarget::linux_arm64().library_path_for_profile(Path::new("out"), "demo", "release");
    assert!(linux.ends_with("out/aarch64-unknown-linux-gnu/release/libdemo.so"));
    let wasm =
        RustTarget::wasm32_unknown_unknown().library_path_for_profile(Path::new("out"), "demo", "debug");
    assert!(wasm.ends_with("out/wasm32-unknown-unknown/debug/demo.wasm"));
}

#[test]
fn target_fields() {
    let target = RustTarget::android_armv7();
    assert_eq!(target.triple(), "armv7-linux-androideabi");
    assert_eq!(target.platform(), Platform::Android);
    assert_eq!(target.architecture(), Architecture::Armv7);
    assert_eq!(RustTarget::from_android_architecture(AndroidArchitecture::X86), RustTarget::android_x86());
    assert_eq!(RustTarget::android_x86().triple(), "i686-linux-android");
}

#[test]
fn target_groups() {
    let triples = |targets: Vec<RustTarget>| targets.iter().map(|t| t.triple()).collect::<Vec<_>>();
    assert_eq!(triples(RustTarget::all_ios()), vec!["aarch64-apple-ios", "aarch64-apple-ios-sim", "x86_64-apple-ios"]);
    assert_eq!(triples(RustTarget::all_macos()), vec!["aarch64-apple-darwin", "x86_64-apple-darwin"]);
    assert_eq!(
        triples(RustTarget::all_android()),
        vec!["aarch64-linux-android", "armv7-linux-androideabi", "x86_64-linux-android", "i686-linux-android"]
    );
}

#[test]
fn apple_platforms() {
    assert!(Platform::Ios.is_apple());
    assert!(Platform::IosSimulator.is_apple());
    assert!(Platform::MacOs.is_apple());
    assert!(!Platform::Android.is_apple());
    assert!(!Platform::Wasm.is_apple());
    assert!(!Platform::Linux.is_apple());
    for target in RustTarget::all_ios().into_iter().chain(RustTarget::all_macos()) {
        assert!(target.platform().is_apple());
    }
}

#[test]
fn android_abis() {
    assert_eq!(Architecture::Arm64.android_abi(), "arm64-v8a");
    assert_eq!(Architecture::Armv7.android_abi(), "armeabi-v7a");
    assert_eq!(Architecture::X86_64.android_abi(), "x86_64");
    assert_eq!(Architecture::X86.android_abi(), "x86");
}

#[test]
fn architecture_names() {
    assert_eq!(AppleIosArchitecture::Arm64.canonical_name(), "arm64");
    assert_eq!(AppleIosArchitecture::all(), vec![AppleIosArchitecture::Arm64]);
    let apple: Vec<&str> = AppleArchitecture::all().into_iter().map(|a| a.canonical_name()).collect();
    assert_eq!(apple, vec!["arm64", "x86_64"]);
    let android: Vec<&str> = AndroidArchitecture::all().into_iter().map(|a| a.canonical_name()).collect();
    assert_eq!(android, vec!["arm64", "armv7", "x86_64", "x86"]);
    let dart: Vec<&str> = DartNativeArchitecture::all().into_iter().map(|a| a.canonical_name()).collect();
    assert_eq!(
        dart,
        vec![
            "android:arm64",
            "android:armv7",
            "android:x86_64",
            "ios:arm64",
            "ios_sim:arm64",
            "ios_sim:x86_64",
            "linux:arm64",
            "linux:x86_64",
            "macos:arm64",
            "macos:x86_64",
        ]
    );
}

#[test]
fn apple_architecture_targets() {
    assert_eq!(AppleArchitecture::Arm64.simulator_rust_target().triple(), "aarch64-apple-ios-sim");
    assert_eq!(AppleArchitecture::X86_64.macos_rust_target().triple(), "x86_64-apple-darwin");
    assert_eq!(AppleIosArchitecture::Arm64.rust_target().platform(), Platform::Ios);
}

#[test]
fn discovers_nothing_where_nothing_was_built() {
    let discovered = BuiltLibrary::discover_for_targets(
        Path::new("no-such-build-directory"),
        "demo",
        "debug",
        &[RustTarget::android_arm64(), RustTarget::ios_arm64()],
    );
    assert!(discovered.is_empty());
    let discovered = BuiltLibrary::discover_for_targets(Path::new("."), "demo", "debug", &[]);
    assert!(discovered.is_empty());
}

#[test]
fn library_path_is_the_target_directory_joined_with_its_parts() {
    let path = RustTarget::macos_x86_64().library_path_for_profile(Path::new("build/out"), "demo", "release");
    assert_eq!(
        path,
        Path::new("build/out").join("x86_64-apple-darwin").join("release").join("libdemo.a")
    );
}

#[test]
fn selects_the_found_candidates_in_order() {
    let candidate = |target: RustTarget, name: &str| BuiltLibrary {
        target,
        path: Path::new("out").join(name),
    };
    let selected = BuiltLibrary::select_found(
        vec![
            candidate(RustTarget::android_arm64(), "a"),
            candidate(RustTarget::android_x86(), "b"),
            candidate(RustTarget::ios_arm64(), "c"),
        ],
        &[true, false, true],
    );
    assert_eq!(selected.len(), 2);
    assert_eq!(selected[0].target, RustTarget::android_arm64());
    assert_eq!(selected[0].path, Path::new("out/a"));
    assert_eq!(selected[1].target, RustTarget::ios_arm64());
    assert_eq!(selected[1].path, Path::new("out/c"));
    assert!(BuiltLibrary::select_found(vec![], &[]).is_empty());
}

#[test]
fn library_path_under_an_absolute_directory_with_a_nested_profile() {
    let path = RustTarget::linux_x86_64().library_path_for_profile(
        Path::new("/tmp/build"),
        "demo",
        "release/deps",
    );
    let components: Vec<&str> =
        path.components().map(|c| c.as_os_str().to_str().expect("utf-8 component")).collect();
    assert_eq!(
        components,
        vec!["/", "tmp", "build", "x86_64-unknown-linux-gnu", "release", "deps", "libdemo.so"]
    );
}

#[test]
fn library_path_drops_empty_and_current_directory_pieces() {
    let path = RustTarget::android_x86_64().library_path_for_profile(
        Path::new("target"),
        "demo",
        "a//./b/",
    );
    let components: Vec<&str> =
        path.components().map(|c| c.as_os_str().to_str().expect("utf-8 component")).collect();
    assert_eq!(
        components,
        vec!["target", "x86_64-linux-android", "a", "b", "libdemo.a"]
    );
}

#[test]
fn built_libraries_can_be_cloned() {
    let library = BuiltLibrary {
        target: RustTarget::ios_arm64(),
        path: Path::new("out").join("libdemo.a"),
    };
    let copy = library.clone();
    assert_eq!(copy.target, library.target);
    assert_eq!(copy.path, library.path);
}
