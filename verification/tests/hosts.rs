use boltffi_target::csharp::CSharpRuntimeIdentifier;
use boltffi_target::host::NativeHostPlatform;
use boltffi_target::java::JavaHostTarget;
use boltffi_target::jvm::{resolve_java_host_targets, JavaJvmHostTarget};

#[test]
fn native_host_is_read_from_os_and_arch() {
    assert_eq!(NativeHostPlatform::current("macos", "aarch64"), Some(NativeHostPlatform::DarwinArm64));
    assert_eq!(NativeHostPlatform::current("macos", "x86_64"), Some(NativeHostPlatform::DarwinX86_64));
    assert_eq!(NativeHostPlatform::current("linux", "x86_64"), Some(NativeHostPlatform::LinuxX86_64));
    assert_eq!(NativeHostPlatform::current("linux", "aarch64"), Some(NativeHostPlatform::LinuxAarch64));
    assert_eq!(NativeHostPlatform::current("windows", "x86_64"), Some(NativeHostPlatform::WindowsX86_64));
    assert_eq!(NativeHostPlatform::current("windows", "aarch64"), None);
    assert_eq!(NativeHostPlatform::current("freebsd", "x86_64"), None);
    assert_eq!(NativeHostPlatform::current("linux", "x86"), None);
}

#[test]
fn native_host_library_names() {
    let darwin = NativeHostPlatform::DarwinArm64;
    let linux = NativeHostPlatform::LinuxAarch64;
    let windows = NativeHostPlatform::WindowsX86_64;
    assert_eq!(darwin.shared_library_filename("demo"), "libdemo.dylib");
    assert_eq!(linux.shared_library_filename("demo"), "libdemo.so");
    assert_eq!(windows.shared_library_filename("demo"), "demo.dll");
    assert_eq!(darwin.static_library_filename("demo", false), "libdemo.a");
    assert_eq!(linux.static_library_filename("demo", true), "libdemo.a");
    assert_eq!(windows.static_library_filename("demo", false), "demo.lib");
    assert_eq!(windows.static_library_filename("demo", true), "libdemo.a");
    assert_eq!(darwin.jni_library_filename("demo"), "libdemo_jni.dylib");
    assert_eq!(linux.jni_library_filename("demo"), "libdemo_jni.so");
    assert_eq!(windows.jni_library_filename("demo"), "demo_jni.dll");
    assert_eq!(darwin.jni_platform(), "darwin");
    assert_eq!(linux.jni_platform(), "linux");
    assert_eq!(windows.jni_platform(), "win32");
    assert_eq!(darwin.rpath_flag(), Some("-Wl,-rpath,@loader_path"));
    assert_eq!(linux.rpath_flag(), Some("-Wl,-rpath,$ORIGIN"));
    assert_eq!(windows.rpath_flag(), None);
}

#[test]
fn native_host_names() {
    let names: Vec<&str> = NativeHostPlatform::all().into_iter().map(|h| h.canonical_name()).collect();
    assert_eq!(
        names,
        vec!["darwin-arm64", "darwin-x86_64", "linux-x86_64", "linux-aarch64", "windows-x86_64"]
    );
}

#[test]
fn java_host_target_names_round_trip() {
    for host in NativeHostPlatform::all() {
        let target = JavaHostTarget::from(host);
        assert_eq!(target.canonical_name(), host.canonical_name());
        assert_eq!(JavaHostTarget::from_canonical(target.canonical_name()), Some(target));
    }
    assert_eq!(JavaHostTarget::Current.canonical_name(), "current");
    assert_eq!(JavaHostTarget::from_canonical("current"), Some(JavaHostTarget::Current));
}

#[test]
fn java_host_target_aliases() {
    assert_eq!(JavaHostTarget::from_canonical("darwin-aarch64"), Some(JavaHostTarget::DarwinArm64));
    assert_eq!(JavaHostTarget::from_canonical("darwin-x86-64"), Some(JavaHostTarget::DarwinX86_64));
    assert_eq!(JavaHostTarget::from_canonical("linux-x86-64"), Some(JavaHostTarget::LinuxX86_64));
    assert_eq!(JavaHostTarget::from_canonical("linux-arm64"), Some(JavaHostTarget::LinuxAarch64));
    assert_eq!(JavaHostTarget::from_canonical("windows-x86-64"), Some(JavaHostTarget::WindowsX86_64));
    assert_eq!(JavaHostTarget::from_canonical("Linux-x86_64"), None);
    assert_eq!(JavaHostTarget::from_canonical(""), None);
}

#[test]
fn java_host_target_libraries_follow_the_native_host() {
    let target = JavaHostTarget::DarwinX86_64;
    assert_eq!(target.shared_library_filename("demo"), "libdemo.dylib");
    assert_eq!(target.static_library_filename("demo", false), "libdemo.a");
    assert_eq!(target.jni_library_filename("demo"), "libdemo_jni.dylib");
    assert_eq!(target.jni_platform(), "darwin");
    assert_eq!(target.rpath_flag(), Some("-Wl,-rpath,@loader_path"));
    assert_eq!(JavaHostTarget::WindowsX86_64.static_library_filename("demo", false), "demo.lib");
    assert_eq!(JavaHostTarget::WindowsX86_64.rpath_flag(), None);
}

#[test]
fn java_resolution_keeps_first_occurrences_in_order() {
    let resolved = JavaHostTarget::resolve_requested(
        &[
            JavaHostTarget::WindowsX86_64,
            JavaHostTarget::Current,
            JavaHostTarget::WindowsX86_64,
            JavaHostTarget::DarwinArm64,
            JavaHostTarget::LinuxAarch64,
            JavaHostTarget::Current,
        ],
        "linux",
        "aarch64",
    )
    .expect("supported host");
    assert_eq!(
        resolved,
        vec![JavaHostTarget::WindowsX86_64, JavaHostTarget::LinuxAarch64, JavaHostTarget::DarwinArm64]
    );
    let again = JavaHostTarget::resolve_requested(&resolved, "linux", "aarch64").expect("supported host");
    assert_eq!(again, resolved);
}

#[test]
fn java_resolution_fails_on_unsupported_host() {
    let message = JavaHostTarget::resolve_requested(&[JavaHostTarget::DarwinArm64], "freebsd", "x86_64")
        .expect_err("unsupported host");
    assert_eq!(
        message,
        "JVM packaging is only supported on darwin-arm64, darwin-x86_64, linux-x86_64, linux-aarch64, and windows-x86_64 hosts"
    );
    let message = resolve_java_host_targets(&[], "linux", "riscv64").expect_err("unsupported host");
    assert_eq!(
        message,
        "JVM packaging is only supported on darwin-arm64, darwin-x86_64, linux-x86_64, linux-aarch64, and windows-x86_64 hosts"
    );
    assert_eq!(JavaHostTarget::resolve_requested(&[], "macos", "aarch64"), Ok(vec![]));
}

#[test]
fn jvm_resolution_distinguishes_glibc_versions() {
    let resolved = resolve_java_host_targets(
        &[
            JavaJvmHostTarget::with_glibc(JavaHostTarget::LinuxX86_64, "2.17"),
            JavaJvmHostTarget::new(JavaHostTarget::Current),
            JavaJvmHostTarget::with_glibc(JavaHostTarget::LinuxX86_64, "2.17"),
            JavaJvmHostTarget::new(JavaHostTarget::LinuxX86_64),
            JavaJvmHostTarget::with_glibc(JavaHostTarget::LinuxX86_64, "2.28"),
        ],
        "linux",
        "x86_64",
    )
    .expect("supported host");
    assert_eq!(
        resolved,
        vec![
            JavaJvmHostTarget::with_glibc(JavaHostTarget::LinuxX86_64, "2.17"),
            JavaJvmHostTarget::new(JavaHostTarget::LinuxX86_64),
            JavaJvmHostTarget::with_glibc(JavaHostTarget::LinuxX86_64, "2.28"),
        ]
    );
}

#[test]
fn jvm_defaults_are_the_current_host() {
    assert_eq!(JavaJvmHostTarget::defaults(), vec![JavaJvmHostTarget::new(JavaHostTarget::Current)]);
    assert_eq!(JavaHostTarget::defaults(), vec![JavaHostTarget::Current]);
}

#[test]
fn csharp_runtime_identifiers() {
    let names: Vec<&str> = CSharpRuntimeIdentifier::explicit_targets()
        .into_iter()
        .map(|r| r.canonical_name())
        .collect();
    assert_eq!(names, vec!["osx-arm64", "osx-x64", "linux-x64", "linux-arm64", "win-x64"]);
    assert_eq!(CSharpRuntimeIdentifier::Current.canonical_name(), "current");
    assert_eq!(CSharpRuntimeIdentifier::defaults(), vec![CSharpRuntimeIdentifier::Current]);
    assert_eq!(CSharpRuntimeIdentifier::current("macos", "x86_64"), Some(CSharpRuntimeIdentifier::OsxX64));
    assert_eq!(CSharpRuntimeIdentifier::current("solaris", "x86_64"), None);
    for host in NativeHostPlatform::all() {
        let rid = CSharpRuntimeIdentifier::from(host);
        assert_eq!(rid.native_host_platform(), host);
        assert_eq!(rid.native_library_filename("demo"), host.shared_library_filename("demo"));
    }
    assert_eq!(CSharpRuntimeIdentifier::WinX64.native_library_filename("demo"), "demo.dll");
}

#[test]
fn csharp_resolution() {
    let resolved = CSharpRuntimeIdentifier::resolve_requested(
        &[CSharpRuntimeIdentifier::Current, CSharpRuntimeIdentifier::LinuxArm64, CSharpRuntimeIdentifier::WinX64],
        "linux",
        "aarch64",
    )
    .expect("supported host");
    assert_eq!(resolved, vec![CSharpRuntimeIdentifier::LinuxArm64, CSharpRuntimeIdentifier::WinX64]);
    let message = CSharpRuntimeIdentifier::resolve_requested(&[CSharpRuntimeIdentifier::Current], "windows", "x86")
        .expect_err("unsupported host");
    assert_eq!(
        message,
        "C# packaging is only supported on osx-arm64, osx-x64, linux-x64, linux-arm64, and win-x64 hosts"
    );
}
