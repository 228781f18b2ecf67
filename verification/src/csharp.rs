//! The .NET runtime identifiers that a C# package is built for.

use vstd::prelude::*;
use vstd::string::*;
use crate::dedup::{dedup, lemma_dedup_of_images, no_duplicates};
use crate::host::{host_of, NativeHostPlatform};

verus! {

/// A .NET runtime identifier that a C# package bundles a native library for; `Current`
/// stands for the host that runs the build.
#[derive(Debug, Clone, Copy, PartialEq, Eq, Hash, Structural)]
pub enum CSharpRuntimeIdentifier {
    Current,
    OsxArm64,
    OsxX64,
    LinuxX64,
    LinuxArm64,
    WinX64,
}

/// The error of a C# build on a host that no C# package supports.
pub open spec fn csharp_unsupported_host_message() -> Seq<char> {
    "C# packaging is only supported on osx-arm64, osx-x64, linux-x64, linux-arm64, and win-x64 hosts"@
}

/// The runtime identifiers that `targets` asks to build on the host `current_host`: each
/// with `Current` replaced by `current_host`, each kept once, in the order of its first request.
pub open spec fn resolved_runtime_identifiers(
    targets: Seq<CSharpRuntimeIdentifier>,
    current_host: CSharpRuntimeIdentifier,
) -> Seq<CSharpRuntimeIdentifier> {
    dedup(targets.map_values(|t: CSharpRuntimeIdentifier| t.resolved(current_host)))
}

/// The runtime identifier of the host that runs the build, given the operating system and
/// architecture that the standard library reports for it.
pub open spec fn csharp_current(os: Seq<char>, arch: Seq<char>) -> Option<CSharpRuntimeIdentifier> {
    match host_of(os, arch) {
        Some(h) => Some(CSharpRuntimeIdentifier::from_host(h)),
        None => None,
    }
}

impl CSharpRuntimeIdentifier {
    /// The runtime identifier of a native host.
    pub open spec fn from_host(host: NativeHostPlatform) -> CSharpRuntimeIdentifier {
        match host {
            NativeHostPlatform::DarwinArm64 => CSharpRuntimeIdentifier::OsxArm64,
            NativeHostPlatform::DarwinX86_64 => CSharpRuntimeIdentifier::OsxX64,
            NativeHostPlatform::LinuxX86_64 => CSharpRuntimeIdentifier::LinuxX64,
            NativeHostPlatform::LinuxAarch64 => CSharpRuntimeIdentifier::LinuxArm64,
            NativeHostPlatform::WindowsX86_64 => CSharpRuntimeIdentifier::WinX64,
        }
    }

    /// The native host of a resolved runtime identifier; `Current` has none until it is resolved.
    pub open spec fn spec_host(self) -> Option<NativeHostPlatform> {
        match self {
            CSharpRuntimeIdentifier::Current => None,
            CSharpRuntimeIdentifier::OsxArm64 => Some(NativeHostPlatform::DarwinArm64),
            CSharpRuntimeIdentifier::OsxX64 => Some(NativeHostPlatform::DarwinX86_64),
            CSharpRuntimeIdentifier::LinuxX64 => Some(NativeHostPlatform::LinuxX86_64),
            CSharpRuntimeIdentifier::LinuxArm64 => Some(NativeHostPlatform::LinuxAarch64),
            CSharpRuntimeIdentifier::WinX64 => Some(NativeHostPlatform::WindowsX86_64),
        }
    }

    /// The .NET name of the runtime identifier.
    pub open spec fn spec_canonical_name(self) -> Seq<char> {
        match self {
            CSharpRuntimeIdentifier::Current => "current"@,
            CSharpRuntimeIdentifier::OsxArm64 => "osx-arm64"@,
            CSharpRuntimeIdentifier::OsxX64 => "osx-x64"@,
            CSharpRuntimeIdentifier::LinuxX64 => "linux-x64"@,
            CSharpRuntimeIdentifier::LinuxArm64 => "linux-arm64"@,
            CSharpRuntimeIdentifier::WinX64 => "win-x64"@,
        }
    }

    /// The runtime identifier with `Current` replaced by `current_host`.
    pub open spec fn resolved(self, current_host: CSharpRuntimeIdentifier) -> CSharpRuntimeIdentifier {
        if self is Current {
            current_host
        } else {
            self
        }
    }

    /// The runtime identifiers built when nothing is configured: the current host.
    pub fn defaults() -> (r: Vec<CSharpRuntimeIdentifier>)
        ensures
            r@ == seq![CSharpRuntimeIdentifier::Current],
    {
        let mut r = Vec::new();
        r.push(CSharpRuntimeIdentifier::Current);
        r
    }

    /// Every runtime identifier that names a host explicitly.
    pub fn explicit_targets() -> (r: Vec<CSharpRuntimeIdentifier>)
        ensures
            r@ == seq![
                CSharpRuntimeIdentifier::OsxArm64,
                CSharpRuntimeIdentifier::OsxX64,
                CSharpRuntimeIdentifier::LinuxX64,
                CSharpRuntimeIdentifier::LinuxArm64,
                CSharpRuntimeIdentifier::WinX64,
            ],
    {
        let mut r = Vec::new();
        r.push(CSharpRuntimeIdentifier::OsxArm64);
        r.push(CSharpRuntimeIdentifier::OsxX64);
        r.push(CSharpRuntimeIdentifier::LinuxX64);
        r.push(CSharpRuntimeIdentifier::LinuxArm64);
        r.push(CSharpRuntimeIdentifier::WinX64);
        r
    }

    /// The .NET name of the runtime identifier, such as `osx-arm64`.
    pub fn canonical_name(self) -> (r: &'static str)
        ensures
            r@ == self.spec_canonical_name(),
    {
        match self {
            CSharpRuntimeIdentifier::Current => "current",
            CSharpRuntimeIdentifier::OsxArm64 => "osx-arm64",
            CSharpRuntimeIdentifier::OsxX64 => "osx-x64",
            CSharpRuntimeIdentifier::LinuxX64 => "linux-x64",
            CSharpRuntimeIdentifier::LinuxArm64 => "linux-arm64",
            CSharpRuntimeIdentifier::WinX64 => "win-x64",
        }
    }

    /// The runtime identifier of the host that runs the build, given the operating system
    /// and architecture that the standard library reports for it; `None` on unsupported hosts.
    pub fn current(os: &str, arch: &str) -> (r: Option<CSharpRuntimeIdentifier>)
        ensures
            r == csharp_current(os@, arch@),
    {
        match NativeHostPlatform::current(os, arch) {
            Some(host) => Some(CSharpRuntimeIdentifier::from(host)),
            None => None,
        }
    }

    /// Whether `targets` holds `target`.
    fn holds(targets: &Vec<CSharpRuntimeIdentifier>, target: CSharpRuntimeIdentifier) -> (r: bool)
        ensures
            r == targets@.contains(target),
    {
        let mut i: usize = 0;
        while i < targets.len()
            invariant
                i <= targets@.len(),
                forall|j: int| 0 <= j < i ==> targets@[j] != target,
            decreases targets@.len() - i,
        {
            if targets[i] == target {
                return true;
            }
            i += 1;
        }
        false
    }

    /// The runtime identifiers to build: each requested one with `Current` replaced by the
    /// host that runs the build (described by `os` and `arch` as in `current`), each kept once,
    /// in the order of its first request. Fails with an error message where the host is not
    /// supported.
    pub fn resolve_requested(targets: &[CSharpRuntimeIdentifier], os: &str, arch: &str) -> (r:
        Result<Vec<CSharpRuntimeIdentifier>, String>)
        ensures
            match r {
                Ok(resolved) => {
                    &&& csharp_current(os@, arch@) is Some
                    &&& resolved@ == resolved_runtime_identifiers(
                        targets@,
                        csharp_current(os@, arch@).unwrap(),
                    )
                },
                Err(message) => {
                    &&& csharp_current(os@, arch@) is None
                    &&& message@ == csharp_unsupported_host_message()
                },
            },
    {
        let current_host = match CSharpRuntimeIdentifier::current(os, arch) {
            Some(host) => host,
            None => return Err(CSharpRuntimeIdentifier::unsupported_host_message()),
        };
        let ghost requested = targets@.map_values(
            |t: CSharpRuntimeIdentifier| t.resolved(current_host),
        );
        let mut resolved: Vec<CSharpRuntimeIdentifier> = Vec::new();
        let mut i: usize = 0;
        while i < targets.len()
            invariant
                i <= targets@.len(),
                requested == targets@.map_values(
                    |t: CSharpRuntimeIdentifier| t.resolved(current_host),
                ),
                resolved@ == dedup(requested.take(i as int)),
            decreases targets@.len() - i,
        {
            let target = match targets[i] {
                CSharpRuntimeIdentifier::Current => current_host,
                explicit => explicit,
            };
            proof {
                crate::dedup::lemma_dedup_step(requested, i as int);
            }
            if !CSharpRuntimeIdentifier::holds(&resolved, target) {
                resolved.push(target);
            }
            i += 1;
        }
        assert(requested.take(targets@.len() as int) =~= requested);
        Ok(resolved)
    }

    /// The native host of a resolved runtime identifier.
    pub fn native_host_platform(self) -> (r: NativeHostPlatform)
        requires
            !(self is Current),
        ensures
            self.spec_host() == Some(r),
    {
        match self {
            CSharpRuntimeIdentifier::Current => vstd::pervasive::unreached(),
            CSharpRuntimeIdentifier::OsxArm64 => NativeHostPlatform::DarwinArm64,
            CSharpRuntimeIdentifier::OsxX64 => NativeHostPlatform::DarwinX86_64,
            CSharpRuntimeIdentifier::LinuxX64 => NativeHostPlatform::LinuxX86_64,
            CSharpRuntimeIdentifier::LinuxArm64 => NativeHostPlatform::LinuxAarch64,
            CSharpRuntimeIdentifier::WinX64 => NativeHostPlatform::WindowsX86_64,
        }
    }

    /// The file name of the native library that a C# package of a resolved runtime
    /// identifier loads: the shared library of its host.
    pub fn native_library_filename(self, artifact_name: &str) -> (r: String)
        requires
            !(self is Current),
        ensures
            r@ == self.spec_host().unwrap().spec_shared_library_filename(artifact_name@),
    {
        self.native_host_platform().shared_library_filename(artifact_name)
    }

    /// The message of the error that a build on an unsupported host reports.
    fn unsupported_host_message() -> (r: String)
        ensures
            r@ == csharp_unsupported_host_message(),
    {
        String::from_str(
            "C# packaging is only supported on osx-arm64, osx-x64, linux-x64, linux-arm64, and win-x64 hosts",
        )
    }
}

impl From<NativeHostPlatform> for CSharpRuntimeIdentifier {
    fn from(value: NativeHostPlatform) -> (r: CSharpRuntimeIdentifier) {
        match value {
            NativeHostPlatform::DarwinArm64 => CSharpRuntimeIdentifier::OsxArm64,
            NativeHostPlatform::DarwinX86_64 => CSharpRuntimeIdentifier::OsxX64,
            NativeHostPlatform::LinuxX86_64 => CSharpRuntimeIdentifier::LinuxX64,
            NativeHostPlatform::LinuxAarch64 => CSharpRuntimeIdentifier::LinuxArm64,
            NativeHostPlatform::WindowsX86_64 => CSharpRuntimeIdentifier::WinX64,
        }
    }
}

impl vstd::std_specs::convert::FromSpecImpl<NativeHostPlatform> for CSharpRuntimeIdentifier {
    open spec fn obeys_from_spec() -> bool {
        true
    }

    open spec fn from_spec(value: NativeHostPlatform) -> CSharpRuntimeIdentifier {
        CSharpRuntimeIdentifier::from_host(value)
    }
}

/// Resolving runtime identifiers against a supported host leaves no duplicate and no
/// `Current`, keeps every requested identifier (with `Current` standing for the host) and
/// adds none, and a second resolution changes nothing.
pub proof fn lemma_resolved_runtime_identifiers(
    targets: Seq<CSharpRuntimeIdentifier>,
    current_host: CSharpRuntimeIdentifier,
)
    requires
        !(current_host is Current),
    ensures
        no_duplicates(resolved_runtime_identifiers(targets, current_host)),
        forall|i: int|
            0 <= i < resolved_runtime_identifiers(targets, current_host).len() ==> !(
            #[trigger] resolved_runtime_identifiers(targets, current_host)[i] is Current),
        forall|x: CSharpRuntimeIdentifier|
            resolved_runtime_identifiers(targets, current_host).contains(x) <==> exists|i: int|
                0 <= i < targets.len() && #[trigger] targets[i].resolved(current_host) == x,
        resolved_runtime_identifiers(
            resolved_runtime_identifiers(targets, current_host),
            current_host,
        ) == resolved_runtime_identifiers(targets, current_host),
{
    lemma_dedup_of_images(
        targets,
        |t: CSharpRuntimeIdentifier| t.resolved(current_host),
        |t: CSharpRuntimeIdentifier| t.resolved(current_host),
    );
    assert forall|i: int| 0 <= i < resolved_runtime_identifiers(targets, current_host).len() implies !(
        #[trigger] resolved_runtime_identifiers(targets, current_host)[i] is Current) by {
        assert(resolved_runtime_identifiers(targets, current_host).contains(resolved_runtime_identifiers(targets, current_host)[i]));
    }
}

/// The runtime identifier of a native host has that host.
pub proof fn lemma_runtime_identifier_of_native_host(h: NativeHostPlatform)
    ensures
        CSharpRuntimeIdentifier::from_host(h).spec_host() == Some(h),
        !(CSharpRuntimeIdentifier::from_host(h) is Current),
{
}

/// The resolved runtime identifiers are exactly the requested ones: an identifier is built
/// on the host `current_host` when it is asked for by name, or when it is `current_host` and
/// `Current` is asked for. An explicitly named identifier is never replaced by the current
/// host, and `Current` itself is never built.
pub proof fn lemma_resolution_builds_what_is_requested(
    targets: Seq<CSharpRuntimeIdentifier>,
    current_host: CSharpRuntimeIdentifier,
    x: CSharpRuntimeIdentifier,
)
    requires
        !(current_host is Current),
    ensures
        resolved_runtime_identifiers(targets, current_host).contains(x) <==> {
            ||| !(x is Current) && targets.contains(x)
            ||| x == current_host && targets.contains(CSharpRuntimeIdentifier::Current)
        },
{
    lemma_resolved_runtime_identifiers(targets, current_host);
    if !(x is Current) && targets.contains(x) {
        let i = choose|i: int| 0 <= i < targets.len() && targets[i] == x;
        assert(targets[i].resolved(current_host) == x);
    }
    if x == current_host && targets.contains(CSharpRuntimeIdentifier::Current) {
        let i = choose|i: int|
            0 <= i < targets.len() && targets[i] == CSharpRuntimeIdentifier::Current;
        assert(targets[i].resolved(current_host) == x);
    }
    if resolved_runtime_identifiers(targets, current_host).contains(x) {
        let i = choose|i: int| 0 <= i < targets.len() && #[trigger] targets[i].resolved(current_host)
            == x;
        assert(targets.contains(targets[i]));
    }
}

} // verus!
