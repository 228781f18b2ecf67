//! Rust compilation targets: a triple together with its platform and architecture.

use vstd::prelude::*;
use crate::platform::{Architecture, Platform};
use crate::text::concat3;
use crate::arch::AndroidArchitecture;
use crate::paths::{
    component_bytes, is_relative_text, is_settled_path, lemma_settled_extended,
    lemma_text_components_without_slash, path_buf_components, path_components, path_join,
    path_push, text_components,
};
use std::path::{Path, PathBuf};

verus! {

/// The pairs of platform and architecture for which the toolchain knows a Rust target.
pub open spec fn is_known_target(platform: Platform, architecture: Architecture) -> bool {
    match (platform, architecture) {
        (Platform::Ios, Architecture::Arm64) => true,
        (Platform::IosSimulator, Architecture::Arm64) => true,
        (Platform::IosSimulator, Architecture::X86_64) => true,
        (Platform::MacOs, Architecture::Arm64) => true,
        (Platform::MacOs, Architecture::X86_64) => true,
        (Platform::Android, Architecture::Arm64) => true,
        (Platform::Android, Architecture::Armv7) => true,
        (Platform::Android, Architecture::X86_64) => true,
        (Platform::Android, Architecture::X86) => true,
        (Platform::Wasm, Architecture::Wasm32) => true,
        (Platform::Linux, Architecture::X86_64) => true,
        (Platform::Linux, Architecture::Arm64) => true,
        _ => false,
    }
}

/// The target triple of a known pair of platform and architecture.
pub open spec fn target_triple(platform: Platform, architecture: Architecture) -> Seq<char> {
    match (platform, architecture) {
        (Platform::Ios, Architecture::Arm64) => "aarch64-apple-ios"@,
        (Platform::IosSimulator, Architecture::Arm64) => "aarch64-apple-ios-sim"@,
        (Platform::IosSimulator, Architecture::X86_64) => "x86_64-apple-ios"@,
        (Platform::MacOs, Architecture::Arm64) => "aarch64-apple-darwin"@,
        (Platform::MacOs, Architecture::X86_64) => "x86_64-apple-darwin"@,
        (Platform::Android, Architecture::Arm64) => "aarch64-linux-android"@,
        (Platform::Android, Architecture::Armv7) => "armv7-linux-androideabi"@,
        (Platform::Android, Architecture::X86_64) => "x86_64-linux-android"@,
        (Platform::Android, Architecture::X86) => "i686-linux-android"@,
        (Platform::Wasm, Architecture::Wasm32) => "wasm32-unknown-unknown"@,
        (Platform::Linux, Architecture::X86_64) => "x86_64-unknown-linux-gnu"@,
        (Platform::Linux, Architecture::Arm64) => "aarch64-unknown-linux-gnu"@,
        _ => Seq::empty(),
    }
}

/// The file name of the library that a build for `platform` produces from the crate `lib_name`.
pub open spec fn library_file_name_for(platform: Platform, lib_name: Seq<char>) -> Seq<char> {
    match platform {
        Platform::Wasm => lib_name + ".wasm"@,
        Platform::Ios | Platform::IosSimulator | Platform::MacOs => "lib"@ + lib_name + ".a"@,
        Platform::Android => "lib"@ + lib_name + ".a"@,
        Platform::Linux => "lib"@ + lib_name + ".so"@,
    }
}

/// A Rust compilation target.
///
/// Its view is its platform and architecture; the triple is determined by them.
#[derive(Debug, Clone, Copy, PartialEq, Eq, Hash)]
pub struct RustTarget {
    triple: &'static str,
    platform: Platform,
    architecture: Architecture,
}

impl View for RustTarget {
    type V = (Platform, Architecture);

    closed spec fn view(&self) -> (Platform, Architecture) {
        (self.platform, self.architecture)
    }
}

impl RustTarget {
    /// Every target is a known one and carries the triple of its platform and architecture.
    #[verifier::type_invariant]
    closed spec fn well_formed(self) -> bool {
        &&& is_known_target(self.platform, self.architecture)
        &&& self.triple@ == target_triple(self.platform, self.architecture)
    }

    /// The triple of this target, as a sequence of characters.
    pub open spec fn spec_triple(self) -> Seq<char> {
        target_triple(self@.0, self@.1)
    }

    /// iOS on 64-bit ARM devices.
    pub fn ios_arm64() -> (r: RustTarget)
        ensures
            r@ == (Platform::Ios, Architecture::Arm64),
    {
        RustTarget { triple: "aarch64-apple-ios", platform: Platform::Ios, architecture: Architecture::Arm64 }
    }

    /// The iOS simulator on 64-bit ARM hosts.
    pub fn ios_sim_arm64() -> (r: RustTarget)
        ensures
            r@ == (Platform::IosSimulator, Architecture::Arm64),
    {
        RustTarget {
            triple: "aarch64-apple-ios-sim",
            platform: Platform::IosSimulator,
            architecture: Architecture::Arm64,
        }
    }

    /// The iOS simulator on x86-64 hosts.
    pub fn ios_sim_x86_64() -> (r: RustTarget)
        ensures
            r@ == (Platform::IosSimulator, Architecture::X86_64),
    {
        RustTarget {
            triple: "x86_64-apple-ios",
            platform: Platform::IosSimulator,
            architecture: Architecture::X86_64,
        }
    }

    /// macOS on Apple silicon.
    pub fn macos_arm64() -> (r: RustTarget)
        ensures
            r@ == (Platform::MacOs, Architecture::Arm64),
    {
        RustTarget {
            triple: "aarch64-apple-darwin",
            platform: Platform::MacOs,
            architecture: Architecture::Arm64,
        }
    }

    /// macOS on Intel processors.
    pub fn macos_x86_64() -> (r: RustTarget)
        ensures
            r@ == (Platform::MacOs, Architecture::X86_64),
    {
        RustTarget {
            triple: "x86_64-apple-darwin",
            platform: Platform::MacOs,
            architecture: Architecture::X86_64,
        }
    }

    /// Android on 64-bit ARM.
    pub fn android_arm64() -> (r: RustTarget)
        ensures
            r@ == (Platform::Android, Architecture::Arm64),
    {
        RustTarget {
            triple: "aarch64-linux-android",
            platform: Platform::Android,
            architecture: Architecture::Arm64,
        }
    }

    /// Android on 32-bit ARMv7.
    pub fn android_armv7() -> (r: RustTarget)
        ensures
            r@ == (Platform::Android, Architecture::Armv7),
    {
        RustTarget {
            triple: "armv7-linux-androideabi",
            platform: Platform::Android,
            architecture: Architecture::Armv7,
        }
    }

    /// Android on x86-64.
    pub fn android_x86_64() -> (r: RustTarget)
        ensures
            r@ == (Platform::Android, Architecture::X86_64),
    {
        RustTarget {
            triple: "x86_64-linux-android",
            platform: Platform::Android,
            architecture: Architecture::X86_64,
        }
    }

    /// Android on 32-bit x86.
    pub fn android_x86() -> (r: RustTarget)
        ensures
            r@ == (Platform::Android, Architecture::X86),
    {
        RustTarget {
            triple: "i686-linux-android",
            platform: Platform::Android,
            architecture: Architecture::X86,
        }
    }

    /// WebAssembly without an operating system.
    pub fn wasm32_unknown_unknown() -> (r: RustTarget)
        ensures
            r@ == (Platform::Wasm, Architecture::Wasm32),
    {
        RustTarget {
            triple: "wasm32-unknown-unknown",
            platform: Platform::Wasm,
            architecture: Architecture::Wasm32,
        }
    }

    /// Linux with glibc on x86-64.
    pub fn linux_x86_64() -> (r: RustTarget)
        ensures
            r@ == (Platform::Linux, Architecture::X86_64),
    {
        RustTarget {
            triple: "x86_64-unknown-linux-gnu",
            platform: Platform::Linux,
            architecture: Architecture::X86_64,
        }
    }

    /// Linux with glibc on 64-bit ARM.
    pub fn linux_arm64() -> (r: RustTarget)
        ensures
            r@ == (Platform::Linux, Architecture::Arm64),
    {
        RustTarget {
            triple: "aarch64-unknown-linux-gnu",
            platform: Platform::Linux,
            architecture: Architecture::Arm64,
        }
    }

    /// The iOS device and simulator targets.
    pub fn all_ios() -> (r: Vec<RustTarget>)
        ensures
            r@.map_values(|t: RustTarget| t@) == seq![
                (Platform::Ios, Architecture::Arm64),
                (Platform::IosSimulator, Architecture::Arm64),
                (Platform::IosSimulator, Architecture::X86_64),
            ],
    {
        let mut r = Vec::new();
        r.push(RustTarget::ios_arm64());
        r.push(RustTarget::ios_sim_arm64());
        r.push(RustTarget::ios_sim_x86_64());
        assert(r@.map_values(|t: RustTarget| t@) =~= seq![
            (Platform::Ios, Architecture::Arm64),
            (Platform::IosSimulator, Architecture::Arm64),
            (Platform::IosSimulator, Architecture::X86_64),
        ]);
        r
    }

    /// The macOS targets.
    pub fn all_macos() -> (r: Vec<RustTarget>)
        ensures
            r@.map_values(|t: RustTarget| t@) == seq![
                (Platform::MacOs, Architecture::Arm64),
                (Platform::MacOs, Architecture::X86_64),
            ],
    {
        let mut r = Vec::new();
        r.push(RustTarget::macos_arm64());
        r.push(RustTarget::macos_x86_64());
        assert(r@.map_values(|t: RustTarget| t@) =~= seq![
            (Platform::MacOs, Architecture::Arm64),
            (Platform::MacOs, Architecture::X86_64),
        ]);
        r
    }

    /// The Android targets.
    pub fn all_android() -> (r: Vec<RustTarget>)
        ensures
            r@.map_values(|t: RustTarget| t@) == seq![
                (Platform::Android, Architecture::Arm64),
                (Platform::Android, Architecture::Armv7),
                (Platform::Android, Architecture::X86_64),
                (Platform::Android, Architecture::X86),
            ],
    {
        let mut r = Vec::new();
        r.push(RustTarget::android_arm64());
        r.push(RustTarget::android_armv7());
        r.push(RustTarget::android_x86_64());
        r.push(RustTarget::android_x86());
        assert(r@.map_values(|t: RustTarget| t@) =~= seq![
            (Platform::Android, Architecture::Arm64),
            (Platform::Android, Architecture::Armv7),
            (Platform::Android, Architecture::X86_64),
            (Platform::Android, Architecture::X86),
        ]);
        r
    }

    /// The Android target of an Android architecture.
    pub fn from_android_architecture(architecture: AndroidArchitecture) -> (r: RustTarget)
        ensures
            r@ == (Platform::Android, architecture.spec_architecture()),
    {
        architecture.rust_target()
    }

    /// The target triple, such as `aarch64-apple-ios`.
    pub fn triple(&self) -> (r: &'static str)
        ensures
            r@ == self.spec_triple(),
    {
        proof {
            use_type_invariant(self);
        }
        self.triple
    }

    /// The platform the target builds for.
    pub fn platform(&self) -> (r: Platform)
        ensures
            r == self@.0,
    {
        self.platform
    }

    /// The architecture the target builds for.
    pub fn architecture(&self) -> (r: Architecture)
        ensures
            r == self@.1,
    {
        self.architecture
    }

    /// The name of the library file that a build of `lib_name` for this target produces:
    /// a static archive on Apple platforms and Android, a shared object on Linux and a
    /// `.wasm` module on WebAssembly.
    pub fn library_file_name(&self, lib_name: &str) -> (r: String)
        ensures
            r@ == library_file_name_for(self@.0, lib_name@),
    {
        match self.platform {
            Platform::Wasm => {
                proof {
                    reveal_strlit("");
                    assert(""@ + lib_name@ + ".wasm"@ =~= lib_name@ + ".wasm"@);
                }
                concat3("", lib_name, ".wasm")
            },
            Platform::Ios | Platform::IosSimulator | Platform::MacOs => concat3("lib", lib_name, ".a"),
            Platform::Android => concat3("lib", lib_name, ".a"),
            Platform::Linux => concat3("lib", lib_name, ".so"),
        }
    }

    /// Where a build of `lib_name` for this target in the profile directory
    /// `profile_directory_name` leaves its library: `target_dir`, then the triple, then the
    /// profile directory, then the file named by `library_file_name`. The contract states the
    /// components of the result (`is_library_path`) where `target_dir` is settled and the
    /// profile directory and the file name are relative text; a rooted `target_dir` such as
    /// `\\server` is completed into a Windows UNC prefix by the triple, and then the
    /// components are left unsaid.
    ///
    /// Android packages link the static archive into their JNI glue, so the archive is the
    /// artifact looked for there too.
    pub fn library_path_for_profile(
        &self,
        target_dir: &Path,
        lib_name: &str,
        profile_directory_name: &str,
    ) -> (r: PathBuf)
        ensures
            is_library_path(r, target_dir, *self, lib_name@, profile_directory_name@),
    {
        let artifact_name = self.library_file_name(lib_name);
        let triple = self.triple();
        proof {
            use_type_invariant(self);
            lemma_triples_are_single_components(self@.0, self@.1);
        }
        let mut path = path_join(target_dir, triple);
        let ghost joined = path_buf_components(path);
        proof {
            if is_settled_path(path_components(target_dir)) {
                lemma_settled_extended(path_components(target_dir), text_components(triple@));
            }
        }
        path_push(&mut path, profile_directory_name);
        let ghost with_profile = path_buf_components(path);
        proof {
            if is_settled_path(path_components(target_dir)) && is_relative_text(
                profile_directory_name@,
            ) {
                lemma_settled_extended(joined, text_components(profile_directory_name@));
            }
        }
        path_push(&mut path, artifact_name.as_str());
        proof {
            let c = path_buf_components(path);
            if is_settled_path(path_components(target_dir)) && is_relative_text(
                profile_directory_name@,
            ) && is_relative_text(artifact_name@) {
                assert(c =~= path_components(target_dir) + seq![component_bytes(triple@)]
                    + text_components(profile_directory_name@) + text_components(artifact_name@));
            }
        }
        path
    }
}

/// `p` is where a build of `lib_name` for `target` in the profile directory `profile` under
/// `target_dir` leaves its library: the components of `target_dir`, then the triple, then
/// those of the profile directory, then those of the file named by `library_file_name_for`.
/// Stated where `target_dir` is settled and the profile directory and the file name are
/// relative text (see `paths::path_join`).
pub open spec fn is_library_path(
    p: PathBuf,
    target_dir: &Path,
    target: RustTarget,
    lib_name: Seq<char>,
    profile: Seq<char>,
) -> bool {
    is_settled_path(path_components(target_dir)) && is_relative_text(profile) && is_relative_text(
        library_file_name_for(target@.0, lib_name),
    ) ==> path_buf_components(p) == path_components(target_dir) + seq![
        component_bytes(target.spec_triple()),
    ] + text_components(profile) + text_components(library_file_name_for(target@.0, lib_name))
}

/// The triple of every known target is relative text that adds itself as one component.
pub proof fn lemma_triples_are_single_components(platform: Platform, architecture: Architecture)
    requires
        is_known_target(platform, architecture),
    ensures
        is_relative_text(target_triple(platform, architecture)),
        text_components(target_triple(platform, architecture)) == seq![
            component_bytes(target_triple(platform, architecture)),
        ],
{
    reveal_strlit("aarch64-apple-ios");
    reveal_strlit("aarch64-apple-ios-sim");
    reveal_strlit("x86_64-apple-ios");
    reveal_strlit("aarch64-apple-darwin");
    reveal_strlit("x86_64-apple-darwin");
    reveal_strlit("aarch64-linux-android");
    reveal_strlit("armv7-linux-androideabi");
    reveal_strlit("x86_64-linux-android");
    reveal_strlit("i686-linux-android");
    reveal_strlit("wasm32-unknown-unknown");
    reveal_strlit("x86_64-unknown-linux-gnu");
    reveal_strlit("aarch64-unknown-linux-gnu");
    let t = target_triple(platform, architecture);
    assert(t.len() > 0 && t != seq!['.']);
    lemma_text_components_without_slash(t);
}

/// Builds for Apple platforms and for Android leave a static archive `lib<name>.a`: Apple
/// frameworks link it, and Android packages link it into their JNI glue.
pub proof fn lemma_mobile_targets_use_static_archives(platform: Platform, lib_name: Seq<char>)
    requires
        platform.spec_is_apple() || platform is Android,
    ensures
        library_file_name_for(platform, lib_name) == "lib"@ + lib_name + ".a"@,
{
}

} // verus!
