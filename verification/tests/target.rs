use boltffi_target::arch::{
    AndroidArchitecture, AppleArchitecture, AppleIosArchitecture, DartNativeArchitecture,
};
use boltffi_target::java::JavaHostTarget;
use boltffi_target::jvm::{resolve_java_host_targets, JavaJvmHostTarget};
use boltffi_target::platform::Platform;
use boltffi_target::resolve::{
    resolve_android_targets, resolve_apple_ios_targets, resolve_apple_macos_targets,
    resolve_apple_simulator_targets, resolve_dart_native_targets,
};
use boltffi_target::rust_target::RustTarget;
use std::path::Path;

// The host that the Java resolution tests run as, in the terms of
// `std::env::consts::{OS, ARCH}`.
const HOST_OS: &str = "linux";
const HOST_ARCH: &str = "x86_64";

#[test]
fn apple_targets_use_static_libraries() {
    let library_path =
        RustTarget::ios_arm64().library_path_for_profile(Path::new("target"), "demo", "debug");

    assert_eq!(RustTarget::ios_arm64().platform(), Platform::Ios);
    assert!(library_path.ends_with("target/aarch64-apple-ios/debug/libdemo.a"));
}

#[test]
fn android_targets_use_static_libraries_for_packaging() {
    let library_path = RustTarget::android_arm64().library_path_for_profile(
        Path::new("target"),
        "demo",
        "debug",
    );

    assert_eq!(RustTarget::android_arm64().platform(), Platform::Android);
    assert!(library_path.ends_with("target/aarch64-linux-android/debug/libdemo.a"));
}

#[test]
fn resolves_android_architectures_to_targets() {
    let targets = resolve_android_targets(&[
        AndroidArchitecture::Arm64,
        AndroidArchitecture::Armv7,
        AndroidArchitecture::X86_64,
    ]);

    assert_eq!(
        targets
            .iter()
            .map(|target| target.triple())
            .collect::<Vec<_>>(),
        vec![
            "aarch64-linux-android",
            "armv7-linux-androideabi",
            "x86_64-linux-android",
        ]
    );
}

#[test]
fn resolves_apple_ios_architectures_to_targets() {
    let targets = resolve_apple_ios_targets(&[AppleIosArchitecture::Arm64]);

    assert_eq!(
        targets
            .iter()
            .map(|target| target.triple())
            .collect::<Vec<_>>(),
        vec!["aarch64-apple-ios"]
    );
}

#[test]
fn resolves_apple_simulator_architectures_to_targets() {
    let targets =
        resolve_apple_simulator_targets(&[AppleArchitecture::Arm64, AppleArchitecture::X86_64]);

    assert_eq!(
        targets
            .iter()
            .map(|target| target.triple())
            .collect::<Vec<_>>(),
        vec!["aarch64-apple-ios-sim", "x86_64-apple-ios"]
    );
}

#[test]
fn resolves_apple_macos_architectures_to_targets() {
    let targets =
        resolve_apple_macos_targets(&[AppleArchitecture::Arm64, AppleArchitecture::X86_64]);

    assert_eq!(
        targets
            .iter()
            .map(|target| target.triple())
            .collect::<Vec<_>>(),
        vec!["aarch64-apple-darwin", "x86_64-apple-darwin"]
    );
}

#[test]
fn resolves_current_java_host_target() {
    let current_host = JavaHostTarget::current(HOST_OS, HOST_ARCH).expect("supported test host");
    let resolved = resolve_java_host_targets(
        &[JavaJvmHostTarget::new(JavaHostTarget::Current)],
        HOST_OS,
        HOST_ARCH,
    )
    .expect("expected current host resolution");

    assert_eq!(resolved, vec![JavaJvmHostTarget::new(current_host)]);
}

#[test]
fn dedupes_current_against_explicit_java_host_target() {
    let current_host = JavaHostTarget::current(HOST_OS, HOST_ARCH).expect("supported test host");
    let resolved = resolve_java_host_targets(
        &[
            JavaJvmHostTarget::new(JavaHostTarget::Current),
            JavaJvmHostTarget::new(current_host),
        ],
        HOST_OS,
        HOST_ARCH,
    )
    .expect("expected deduped host targets");

    assert_eq!(resolved, vec![JavaJvmHostTarget::new(current_host)]);
}

#[test]
fn allows_explicit_cross_host_java_targets_after_resolution() {
    let current_host = JavaHostTarget::current(HOST_OS, HOST_ARCH).expect("supported test host");
    let explicit_other_host = [
        JavaHostTarget::DarwinArm64,
        JavaHostTarget::DarwinX86_64,
        JavaHostTarget::LinuxX86_64,
        JavaHostTarget::LinuxAarch64,
        JavaHostTarget::WindowsX86_64,
    ]
    .into_iter()
    .find(|target| *target != current_host)
    .expect("alternate host target");

    let resolved = resolve_java_host_targets(
        &[
            JavaJvmHostTarget::new(JavaHostTarget::Current),
            JavaJvmHostTarget::new(explicit_other_host),
        ],
        HOST_OS,
        HOST_ARCH,
    )
    .expect("resolved host targets");

    assert_eq!(
        resolved,
        vec![JavaJvmHostTarget::new(current_host), JavaJvmHostTarget::new(explicit_other_host)]
    );
}

#[test]
fn resolves_dart_native_architectures_to_targets() {
    let targets = resolve_dart_native_targets(&[
        DartNativeArchitecture::AndroidArm64,
        DartNativeArchitecture::AndroidArmv7,
        DartNativeArchitecture::AndroidX86_64,
        DartNativeArchitecture::IosArm64,
        DartNativeArchitecture::IosSimArm64,
        DartNativeArchitecture::IosSimX86_64,
        DartNativeArchitecture::LinuxArm64,
        DartNativeArchitecture::LinuxX86_64,
        DartNativeArchitecture::MacosArm64,
        DartNativeArchitecture::MacosX86_64,
    ]);

    assert_eq!(
        targets
            .iter()
            .map(|target| target.triple())
            .collect::<Vec<_>>(),
        vec![
            "aarch64-linux-android",
            "armv7-linux-androideabi",
            "x86_64-linux-android",
            "aarch64-apple-ios",
            "aarch64-apple-ios-sim",
            "x86_64-apple-ios",
            "aarch64-unknown-linux-gnu",
            "x86_64-unknown-linux-gnu",
            "aarch64-apple-darwin",
            "x86_64-apple-darwin"
        ]
    );
}
