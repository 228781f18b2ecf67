use boltffi_target::java::JavaHostTarget;
use boltffi_target::jvm::JavaJvmHostTarget;

#[test]
fn jvm_entry_with_glibc_version() {
    let entry = JavaJvmHostTarget::parse("linux-x86_64.2.17").expect("valid entry");
    assert_eq!(entry, JavaJvmHostTarget::with_glibc(JavaHostTarget::LinuxX86_64, "2.17"));
    assert_eq!(entry.canonical_name(), "linux-x86_64.2.17");

    let entry = JavaJvmHostTarget::parse("linux-arm64.2.28").expect("valid entry");
    assert_eq!(entry, JavaJvmHostTarget::with_glibc(JavaHostTarget::LinuxAarch64, "2.28"));
    assert_eq!(entry.canonical_name(), "linux-aarch64.2.28");
}

#[test]
fn jvm_entry_without_glibc_version() {
    let entry = JavaJvmHostTarget::parse("darwin-arm64").expect("valid entry");
    assert_eq!(entry, JavaJvmHostTarget::new(JavaHostTarget::DarwinArm64));
    assert_eq!(entry.canonical_name(), "darwin-arm64");

    let entry = JavaJvmHostTarget::parse("current").expect("valid entry");
    assert_eq!(entry, JavaJvmHostTarget::new(JavaHostTarget::Current));
    assert_eq!(entry.canonical_name(), "current");
}

#[test]
fn jvm_entries_round_trip() {
    let entries = vec![
        JavaJvmHostTarget::new(JavaHostTarget::Current),
        JavaJvmHostTarget::new(JavaHostTarget::WindowsX86_64),
        JavaJvmHostTarget::new(JavaHostTarget::DarwinX86_64),
        JavaJvmHostTarget::with_glibc(JavaHostTarget::LinuxX86_64, "2.17"),
        JavaJvmHostTarget::with_glibc(JavaHostTarget::LinuxAarch64, "2.31.1"),
        JavaJvmHostTarget::with_glibc(JavaHostTarget::LinuxAarch64, "2.17.0"),
    ];
    for entry in entries {
        assert_eq!(JavaJvmHostTarget::parse(&entry.canonical_name()), Ok(entry.clone()));
    }
}

#[test]
fn jvm_entry_glibc_version_only_on_linux() {
    assert_eq!(
        JavaJvmHostTarget::parse("darwin-arm64.2.17"),
        Err("glibc version suffix '.2.17' is only valid for Linux targets, but 'darwin-arm64' is not a Linux target"
            .to_string())
    );
    assert_eq!(
        JavaJvmHostTarget::parse("current.2.17"),
        Err("glibc version suffix '.2.17' is only valid for Linux targets, but 'current' is not a Linux target"
            .to_string())
    );
}

#[test]
fn jvm_entry_unknown_target_with_glibc_version() {
    assert_eq!(
        JavaJvmHostTarget::parse("linux-riscv64.2.17"),
        Err("unknown host target 'linux-riscv64' in 'linux-riscv64.2.17'; expected one of: current, darwin-arm64, darwin-x86_64, linux-x86_64, linux-aarch64, windows-x86_64"
            .to_string())
    );
}

#[test]
fn jvm_entry_unknown_target() {
    let expected = |s: &str| {
        format!(
            "unknown host target '{s}'; expected one of: current, darwin-arm64, darwin-x86_64, linux-x86_64, linux-aarch64, windows-x86_64, or a Linux target with a glibc version suffix (e.g. linux-x86_64.2.17)"
        )
    };
    assert_eq!(JavaJvmHostTarget::parse("solaris"), Err(expected("solaris")));
    // A dot that is not followed by a version does not start a glibc suffix.
    assert_eq!(JavaJvmHostTarget::parse("linux-x86_64."), Err(expected("linux-x86_64.")));
    assert_eq!(JavaJvmHostTarget::parse("linux-x86_64.v2"), Err(expected("linux-x86_64.v2")));
    assert_eq!(JavaJvmHostTarget::parse("linux-x86_64.2-17"), Err(expected("linux-x86_64.2-17")));
    // A version is groups of digits joined by single dots.
    assert_eq!(JavaJvmHostTarget::parse("linux-x86_64.2."), Err(expected("linux-x86_64.2.")));
    assert_eq!(JavaJvmHostTarget::parse("linux-x86_64.2..17"), Err(expected("linux-x86_64.2..17")));
    assert_eq!(JavaJvmHostTarget::parse(""), Err(expected("")));
}

#[test]
fn jvm_entry_with_non_ascii_text() {
    assert_eq!(
        JavaJvmHostTarget::parse("línux.2.17"),
        Err("unknown host target 'línux' in 'línux.2.17'; expected one of: current, darwin-arm64, darwin-x86_64, linux-x86_64, linux-aarch64, windows-x86_64"
            .to_string())
    );
}
