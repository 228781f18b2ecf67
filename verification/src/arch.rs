//! The architectures that the packaging of each platform is configured with, and
//! the Rust targets they build for.

use vstd::prelude::*;
use crate::platform::{Architecture, Platform};
use crate::rust_target::RustTarget;

verus! {

/// The architectures of iOS devices.
#[derive(Debug, Clone, Copy, PartialEq, Eq, Hash, Structural)]
pub enum AppleIosArchitecture {
    Arm64,
}

/// The architectures of Apple computers, used for the iOS simulator and for macOS.
#[derive(Debug, Clone, Copy, PartialEq, Eq, Hash, Structural)]
pub enum AppleArchitecture {
    Arm64,
    X86_64,
}

/// The architectures of Android devices.
#[derive(Debug, Clone, Copy, PartialEq, Eq, Hash, Structural)]
pub enum AndroidArchitecture {
    Arm64,
    Armv7,
    X86_64,
    X86,
}

/// The native targets of a Dart package, named by operating system and architecture.
#[derive(Debug, Clone, Copy, PartialEq, Eq, Hash, Structural)]
pub enum DartNativeArchitecture {
    AndroidArm64,
    AndroidArmv7,
    AndroidX86_64,
    IosArm64,
    IosSimArm64,
    IosSimX86_64,
    LinuxArm64,
    LinuxX86_64,
    MacosArm64,
    MacosX86_64,
}

impl AppleIosArchitecture {
    /// The configuration name of the architecture.
    pub open spec fn spec_canonical_name(self) -> Seq<char> {
        match self {
            AppleIosArchitecture::Arm64 => "arm64"@,
        }
    }

    /// The platform and architecture of the device target.
    pub open spec fn spec_rust_target(self) -> (Platform, Architecture) {
        match self {
            AppleIosArchitecture::Arm64 => (Platform::Ios, Architecture::Arm64),
        }
    }

    /// Every iOS device architecture, in declaration order.
    pub fn all() -> (r: Vec<AppleIosArchitecture>)
        ensures
            r@ == seq![AppleIosArchitecture::Arm64],
    {
        let mut r = Vec::new();
        r.push(AppleIosArchitecture::Arm64);
        r
    }

    /// The name of the architecture in configuration files.
    pub fn canonical_name(self) -> (r: &'static str)
        ensures
            r@ == self.spec_canonical_name(),
    {
        match self {
            AppleIosArchitecture::Arm64 => "arm64",
        }
    }

    /// The Rust target for iOS devices of this architecture.
    pub fn rust_target(self) -> (r: RustTarget)
        ensures
            r@ == self.spec_rust_target(),
    {
        match self {
            AppleIosArchitecture::Arm64 => RustTarget::ios_arm64(),
        }
    }
}

impl AppleArchitecture {
    /// The configuration name of the architecture.
    pub open spec fn spec_canonical_name(self) -> Seq<char> {
        match self {
            AppleArchitecture::Arm64 => "arm64"@,
            AppleArchitecture::X86_64 => "x86_64"@,
        }
    }

    /// The architecture of the targets built for this Apple architecture.
    pub open spec fn spec_architecture(self) -> Architecture {
        match self {
            AppleArchitecture::Arm64 => Architecture::Arm64,
            AppleArchitecture::X86_64 => Architecture::X86_64,
        }
    }

    /// Every Apple computer architecture, in declaration order.
    pub fn all() -> (r: Vec<AppleArchitecture>)
        ensures
            r@ == seq![AppleArchitecture::Arm64, AppleArchitecture::X86_64],
    {
        let mut r = Vec::new();
        r.push(AppleArchitecture::Arm64);
        r.push(AppleArchitecture::X86_64);
        r
    }

    /// The name of the architecture in configuration files.
    pub fn canonical_name(self) -> (r: &'static str)
        ensures
            r@ == self.spec_canonical_name(),
    {
        match self {
            AppleArchitecture::Arm64 => "arm64",
            AppleArchitecture::X86_64 => "x86_64",
        }
    }

    /// The Rust target of the iOS simulator on this architecture.
    pub fn simulator_rust_target(self) -> (r: RustTarget)
        ensures
            r@ == (Platform::IosSimulator, self.spec_architecture()),
    {
        match self {
            AppleArchitecture::Arm64 => RustTarget::ios_sim_arm64(),
            AppleArchitecture::X86_64 => RustTarget::ios_sim_x86_64(),
        }
    }

    /// The Rust target of macOS on this architecture.
    pub fn macos_rust_target(self) -> (r: RustTarget)
        ensures
            r@ == (Platform::MacOs, self.spec_architecture()),
    {
        match self {
            AppleArchitecture::Arm64 => RustTarget::macos_arm64(),
            AppleArchitecture::X86_64 => RustTarget::macos_x86_64(),
        }
    }
}

impl AndroidArchitecture {
    /// The configuration name of the architecture.
    pub open spec fn spec_canonical_name(self) -> Seq<char> {
        match self {
            AndroidArchitecture::Arm64 => "arm64"@,
            AndroidArchitecture::Armv7 => "armv7"@,
            AndroidArchitecture::X86_64 => "x86_64"@,
            AndroidArchitecture::X86 => "x86"@,
        }
    }

    /// The architecture of the Android target built for this architecture.
    pub open spec fn spec_architecture(self) -> Architecture {
        match self {
            AndroidArchitecture::Arm64 => Architecture::Arm64,
            AndroidArchitecture::Armv7 => Architecture::Armv7,
            AndroidArchitecture::X86_64 => Architecture::X86_64,
            AndroidArchitecture::X86 => Architecture::X86,
        }
    }

    /// Every Android architecture, in declaration order.
    pub fn all() -> (r: Vec<AndroidArchitecture>)
        ensures
            r@ == seq![
                AndroidArchitecture::Arm64,
                AndroidArchitecture::Armv7,
                AndroidArchitecture::X86_64,
                AndroidArchitecture::X86,
            ],
    {
        let mut r = Vec::new();
        r.push(AndroidArchitecture::Arm64);
        r.push(AndroidArchitecture::Armv7);
        r.push(AndroidArchitecture::X86_64);
        r.push(AndroidArchitecture::X86);
        r
    }

    /// The name of the architecture in configuration files.
    pub fn canonical_name(self) -> (r: &'static str)
        ensures
            r@ == self.spec_canonical_name(),
    {
        match self {
            AndroidArchitecture::Arm64 => "arm64",
            AndroidArchitecture::Armv7 => "armv7",
            AndroidArchitecture::X86_64 => "x86_64",
            AndroidArchitecture::X86 => "x86",
        }
    }

    /// The Rust target of Android on this architecture.
    pub fn rust_target(self) -> (r: RustTarget)
        ensures
            r@ == (Platform::Android, self.spec_architecture()),
    {
        match self {
            AndroidArchitecture::Arm64 => RustTarget::android_arm64(),
            AndroidArchitecture::Armv7 => RustTarget::android_armv7(),
            AndroidArchitecture::X86_64 => RustTarget::android_x86_64(),
            AndroidArchitecture::X86 => RustTarget::android_x86(),
        }
    }
}

impl DartNativeArchitecture {
    /// The configuration name of the native target, `os:architecture`.
    pub open spec fn spec_canonical_name(self) -> Seq<char> {
        match self {
            DartNativeArchitecture::AndroidArm64 => "android:arm64"@,
            DartNativeArchitecture::AndroidArmv7 => "android:armv7"@,
            DartNativeArchitecture::AndroidX86_64 => "android:x86_64"@,
            DartNativeArchitecture::IosArm64 => "ios:arm64"@,
            DartNativeArchitecture::IosSimArm64 => "ios_sim:arm64"@,
            DartNativeArchitecture::IosSimX86_64 => "ios_sim:x86_64"@,
            DartNativeArchitecture::LinuxArm64 => "linux:arm64"@,
            DartNativeArchitecture::LinuxX86_64 => "linux:x86_64"@,
            DartNativeArchitecture::MacosArm64 => "macos:arm64"@,
            DartNativeArchitecture::MacosX86_64 => "macos:x86_64"@,
        }
    }

    /// The platform and architecture of the Rust target of the native target.
    pub open spec fn spec_rust_target(self) -> (Platform, Architecture) {
        match self {
            DartNativeArchitecture::AndroidArm64 => (Platform::Android, Architecture::Arm64),
            DartNativeArchitecture::AndroidArmv7 => (Platform::Android, Architecture::Armv7),
            DartNativeArchitecture::AndroidX86_64 => (Platform::Android, Architecture::X86_64),
            DartNativeArchitecture::IosArm64 => (Platform::Ios, Architecture::Arm64),
            DartNativeArchitecture::IosSimArm64 => (Platform::IosSimulator, Architecture::Arm64),
            DartNativeArchitecture::IosSimX86_64 => (Platform::IosSimulator, Architecture::X86_64),
            DartNativeArchitecture::LinuxArm64 => (Platform::Linux, Architecture::Arm64),
            DartNativeArchitecture::LinuxX86_64 => (Platform::Linux, Architecture::X86_64),
            DartNativeArchitecture::MacosArm64 => (Platform::MacOs, Architecture::Arm64),
            DartNativeArchitecture::MacosX86_64 => (Platform::MacOs, Architecture::X86_64),
        }
    }

    /// Every Dart native target, in declaration order.
    pub fn all() -> (r: Vec<DartNativeArchitecture>)
        ensures
            r@ == seq![
                DartNativeArchitecture::AndroidArm64,
                DartNativeArchitecture::AndroidArmv7,
                DartNativeArchitecture::AndroidX86_64,
                DartNativeArchitecture::IosArm64,
                DartNativeArchitecture::IosSimArm64,
                DartNativeArchitecture::IosSimX86_64,
                DartNativeArchitecture::LinuxArm64,
                DartNativeArchitecture::LinuxX86_64,
                DartNativeArchitecture::MacosArm64,
                DartNativeArchitecture::MacosX86_64,
            ],
    {
        let mut r = Vec::new();
        r.push(DartNativeArchitecture::AndroidArm64);
        r.push(DartNativeArchitecture::AndroidArmv7);
        r.push(DartNativeArchitecture::AndroidX86_64);
        r.push(DartNativeArchitecture::IosArm64);
        r.push(DartNativeArchitecture::IosSimArm64);
        r.push(DartNativeArchitecture::IosSimX86_64);
        r.push(DartNativeArchitecture::LinuxArm64);
        r.push(DartNativeArchitecture::LinuxX86_64);
        r.push(DartNativeArchitecture::MacosArm64);
        r.push(DartNativeArchitecture::MacosX86_64);
        r
    }

    /// The name of the native target in configuration files.
    pub fn canonical_name(self) -> (r: &'static str)
        ensures
            r@ == self.spec_canonical_name(),
    {
        match self {
            DartNativeArchitecture::AndroidArm64 => "android:arm64",
            DartNativeArchitecture::AndroidArmv7 => "android:armv7",
            DartNativeArchitecture::AndroidX86_64 => "android:x86_64",
            DartNativeArchitecture::IosArm64 => "ios:arm64",
            DartNativeArchitecture::IosSimArm64 => "ios_sim:arm64",
            DartNativeArchitecture::IosSimX86_64 => "ios_sim:x86_64",
            DartNativeArchitecture::LinuxArm64 => "linux:arm64",
            DartNativeArchitecture::LinuxX86_64 => "linux:x86_64",
            DartNativeArchitecture::MacosArm64 => "macos:arm64",
            DartNativeArchitecture::MacosX86_64 => "macos:x86_64",
        }
    }

    /// The Rust target that builds the native library of this Dart target.
    pub fn rust_target(self) -> (r: RustTarget)
        ensures
            r@ == self.spec_rust_target(),
    {
        match self {
            DartNativeArchitecture::AndroidArm64 => RustTarget::android_arm64(),
            DartNativeArchitecture::AndroidArmv7 => RustTarget::android_armv7(),
            DartNativeArchitecture::AndroidX86_64 => RustTarget::android_x86_64(),
            DartNativeArchitecture::IosArm64 => RustTarget::ios_arm64(),
            DartNativeArchitecture::IosSimArm64 => RustTarget::ios_sim_arm64(),
            DartNativeArchitecture::IosSimX86_64 => RustTarget::ios_sim_x86_64(),
            DartNativeArchitecture::LinuxArm64 => RustTarget::linux_arm64(),
            DartNativeArchitecture::LinuxX86_64 => RustTarget::linux_x86_64(),
            DartNativeArchitecture::MacosArm64 => RustTarget::macos_arm64(),
            DartNativeArchitecture::MacosX86_64 => RustTarget::macos_x86_64(),
        }
    }
}

/// The targets of the iOS device architectures are Apple targets, and so are exactly the
/// iOS, simulator and macOS ones of Dart; the Android ones of Dart are exactly its
/// Android targets.
pub proof fn lemma_apple_architectures_build_apple_targets(
    ios: AppleIosArchitecture,
    dart: DartNativeArchitecture,
)
    ensures
        ios.spec_rust_target().0.spec_is_apple(),
        (dart is IosArm64 || dart is IosSimArm64 || dart is IosSimX86_64 || dart is MacosArm64
            || dart is MacosX86_64) <==> dart.spec_rust_target().0.spec_is_apple(),
        (dart is AndroidArm64 || dart is AndroidArmv7 || dart is AndroidX86_64) <==> (
        dart.spec_rust_target().0 is Android),
{
}

} // verus!
