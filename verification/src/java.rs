//! The hosts that a JVM package is built for.

use vstd::prelude::*;
use vstd::string::*;
use crate::dedup::{dedup, lemma_dedup_of_images, no_duplicates};
use crate::host::{host_of, opt_str_view, NativeHostPlatform};
use crate::text::same_text;

verus! {

/// A host that a JVM package bundles a native library for; `Current` stands for the
/// host that runs the build.
#[derive(Debug, Clone, Copy, PartialEq, Eq, Hash, Structural)]
pub enum JavaHostTarget {
    Current,
    DarwinArm64,
    DarwinX86_64,
    LinuxX86_64,
    LinuxAarch64,
    WindowsX86_64,
}

/// The error of a JVM build on a host that no JVM package supports.
pub open spec fn jvm_unsupported_host_message() -> Seq<char> {
    "JVM packaging is only supported on darwin-arm64, darwin-x86_64, linux-x86_64, linux-aarch64, and windows-x86_64 hosts"@
}

/// The host target that a configuration name stands for; the names are those that
/// `canonical_name` gives and a few aliases.
pub open spec fn java_host_target_named(s: Seq<char>) -> Option<JavaHostTarget> {
    if s == "current"@ {
        Some(JavaHostTarget::Current)
    } else if s == "darwin-arm64"@ || s == "darwin-aarch64"@ {
        Some(JavaHostTarget::DarwinArm64)
    } else if s == "darwin-x86_64"@ || s == "darwin-x86-64"@ {
        Some(JavaHostTarget::DarwinX86_64)
    } else if s == "linux-x86_64"@ || s == "linux-x86-64"@ {
        Some(JavaHostTarget::LinuxX86_64)
    } else if s == "linux-aarch64"@ || s == "linux-arm64"@ {
        Some(JavaHostTarget::LinuxAarch64)
    } else if s == "windows-x86_64"@ || s == "windows-x86-64"@ {
        Some(JavaHostTarget::WindowsX86_64)
    } else {
        None
    }
}

/// The host targets that `targets` asks to build on the host `current_host`: each with
/// `Current` replaced by `current_host`, each kept once, in the order of its first request.
pub open spec fn resolved_host_targets(
    targets: Seq<JavaHostTarget>,
    current_host: JavaHostTarget,
) -> Seq<JavaHostTarget> {
    dedup(targets.map_values(|t: JavaHostTarget| t.resolved(current_host)))
}

/// The host target of the host that runs the build, given the operating system and
/// architecture that the standard library reports for it.
pub open spec fn java_current(os: Seq<char>, arch: Seq<char>) -> Option<JavaHostTarget> {
    match host_of(os, arch) {
        Some(h) => Some(JavaHostTarget::from_host(h)),
        None => None,
    }
}

impl JavaHostTarget {
    /// The host target of a native host.
    pub open spec fn from_host(host: NativeHostPlatform) -> JavaHostTarget {
        match host {
            NativeHostPlatform::DarwinArm64 => JavaHostTarget::DarwinArm64,
            NativeHostPlatform::DarwinX86_64 => JavaHostTarget::DarwinX86_64,
            NativeHostPlatform::LinuxX86_64 => JavaHostTarget::LinuxX86_64,
            NativeHostPlatform::LinuxAarch64 => JavaHostTarget::LinuxAarch64,
            NativeHostPlatform::WindowsX86_64 => JavaHostTarget::WindowsX86_64,
        }
    }

    /// The native host of a resolved host target; `Current` has none until it is resolved.
    pub open spec fn spec_host(self) -> Option<NativeHostPlatform> {
        match self {
            JavaHostTarget::Current => None,
            JavaHostTarget::DarwinArm64 => Some(NativeHostPlatform::DarwinArm64),
            JavaHostTarget::DarwinX86_64 => Some(NativeHostPlatform::DarwinX86_64),
            JavaHostTarget::LinuxX86_64 => Some(NativeHostPlatform::LinuxX86_64),
            JavaHostTarget::LinuxAarch64 => Some(NativeHostPlatform::LinuxAarch64),
            JavaHostTarget::WindowsX86_64 => Some(NativeHostPlatform::WindowsX86_64),
        }
    }

    /// The configuration name of the host target.
    pub open spec fn spec_canonical_name(self) -> Seq<char> {
        match self.spec_host() {
            None => "current"@,
            Some(h) => h.spec_canonical_name(),
        }
    }

    /// The host target with `Current` replaced by `current_host`.
    pub open spec fn resolved(self, current_host: JavaHostTarget) -> JavaHostTarget {
        if self is Current {
            current_host
        } else {
            self
        }
    }

    /// The host targets built when nothing is configured: the current host.
    pub fn defaults() -> (r: Vec<JavaHostTarget>)
        ensures
            r@ == seq![JavaHostTarget::Current],
    {
        let mut r = Vec::new();
        r.push(JavaHostTarget::Current);
        r
    }

    /// The configuration name of the host target: `current`, or that of its native host.
    pub fn canonical_name(self) -> (r: &'static str)
        ensures
            r@ == self.spec_canonical_name(),
    {
        match self {
            JavaHostTarget::Current => "current",
            resolved_target => resolved_target.native_host_platform().canonical_name(),
        }
    }

    /// The host target of the host that runs the build, given the operating system and
    /// architecture that the standard library reports for it; `None` on unsupported hosts.
    pub fn current(os: &str, arch: &str) -> (r: Option<JavaHostTarget>)
        ensures
            r == java_current(os@, arch@),
    {
        match NativeHostPlatform::current(os, arch) {
            Some(host) => Some(JavaHostTarget::from(host)),
            None => None,
        }
    }

    /// The message of the error that a build on an unsupported host reports.
    pub(crate) fn unsupported_host_message() -> (r: String)
        ensures
            r@ == jvm_unsupported_host_message(),
    {
        String::from_str(
            "JVM packaging is only supported on darwin-arm64, darwin-x86_64, linux-x86_64, linux-aarch64, and windows-x86_64 hosts",
        )
    }

    /// Whether `targets` holds `target`.
    fn holds(targets: &Vec<JavaHostTarget>, target: JavaHostTarget) -> (r: bool)
        ensures
            r == targets@.contains(target),
    {
        let mut i: usize = 0;
        while i < targets.len()
            invariant
                i <= targets@.len(),
                forall|j: int| 0 <= j < i ==> targets@[j] != target,
            decreases targets@.len() - i,
        {
            if targets[i] == target {
                return true;
            }
            i += 1;
        }
        false
    }

    /// The host targets to build: each requested one with `Current` replaced by the host that
    /// runs the build (described by `os` and `arch` as in `current`), each kept once, in the
    /// order of its first request. Fails with an error message where the host is not supported.
    pub fn resolve_requested(targets: &[JavaHostTarget], os: &str, arch: &str) -> (r: Result<
        Vec<JavaHostTarget>,
        String,
    >)
        ensures
            match r {
                Ok(resolved) => {
                    &&& java_current(os@, arch@) is Some
                    &&& resolved@ == resolved_host_targets(
                        targets@,
                        java_current(os@, arch@).unwrap(),
                    )
                },
                Err(message) => {
                    &&& java_current(os@, arch@) is None
                    &&& message@ == jvm_unsupported_host_message()
                },
            },
    {
        let current_host = match JavaHostTarget::current(os, arch) {
            Some(host) => host,
            None => return Err(JavaHostTarget::unsupported_host_message()),
        };
        let ghost requested = targets@.map_values(|t: JavaHostTarget| t.resolved(current_host));
        let mut resolved: Vec<JavaHostTarget> = Vec::new();
        let mut i: usize = 0;
        while i < targets.len()
            invariant
                i <= targets@.len(),
                requested == targets@.map_values(|t: JavaHostTarget| t.resolved(current_host)),
                resolved@ == dedup(requested.take(i as int)),
            decreases targets@.len() - i,
        {
            let target = match targets[i] {
                JavaHostTarget::Current => current_host,
                explicit => explicit,
            };
            proof {
                crate::dedup::lemma_dedup_step(requested, i as int);
            }
            if !JavaHostTarget::holds(&resolved, target) {
                resolved.push(target);
            }
            i += 1;
        }
        assert(requested.take(targets@.len() as int) =~= requested);
        Ok(resolved)
    }

    /// The native host of a resolved host target.
    pub(crate) fn native_host_platform(self) -> (r: NativeHostPlatform)
        requires
            !(self is Current),
        ensures
            self.spec_host() == Some(r),
    {
        match self {
            JavaHostTarget::Current => vstd::pervasive::unreached(),
            JavaHostTarget::DarwinArm64 => NativeHostPlatform::DarwinArm64,
            JavaHostTarget::DarwinX86_64 => NativeHostPlatform::DarwinX86_64,
            JavaHostTarget::LinuxX86_64 => NativeHostPlatform::LinuxX86_64,
            JavaHostTarget::LinuxAarch64 => NativeHostPlatform::LinuxAarch64,
            JavaHostTarget::WindowsX86_64 => NativeHostPlatform::WindowsX86_64,
        }
    }

    /// The file name of the shared library built for a resolved host target.
    pub fn shared_library_filename(self, artifact_name: &str) -> (r: String)
        requires
            !(self is Current),
        ensures
            r@ == self.spec_host().unwrap().spec_shared_library_filename(artifact_name@),
    {
        self.native_host_platform().shared_library_filename(artifact_name)
    }

    /// The file name of the static library built for a resolved host target; see
    /// `NativeHostPlatform::static_library_filename`.
    pub fn static_library_filename(self, artifact_name: &str, gnu_windows_toolchain: bool) -> (r:
        String)
        requires
            !(self is Current),
        ensures
            r@ == self.spec_host().unwrap().spec_static_library_filename(
                artifact_name@,
                gnu_windows_toolchain,
            ),
    {
        self.native_host_platform().static_library_filename(artifact_name, gnu_windows_toolchain)
    }

    /// The file name of the JNI library built for a resolved host target.
    pub fn jni_library_filename(self, artifact_name: &str) -> (r: String)
        requires
            !(self is Current),
        ensures
            r@ == self.spec_host().unwrap().spec_jni_library_filename(artifact_name@),
    {
        self.native_host_platform().jni_library_filename(artifact_name)
    }

    /// The JNI platform directory of a resolved host target.
    pub fn jni_platform(self) -> (r: &'static str)
        requires
            !(self is Current),
        ensures
            r@ == self.spec_host().unwrap().spec_jni_platform(),
    {
        self.native_host_platform().jni_platform()
    }

    /// The run-time search path flag of a resolved host target, if its host has one.
    pub fn rpath_flag(self) -> (r: Option<&'static str>)
        requires
            !(self is Current),
        ensures
            opt_str_view(r) == self.spec_host().unwrap().spec_rpath_flag(),
    {
        self.native_host_platform().rpath_flag()
    }

    /// The host target that a configuration name stands for: `current`, the name of a
    /// native host, or one of its aliases (`darwin-aarch64`, `darwin-x86-64`, `linux-x86-64`,
    /// `linux-arm64`, `windows-x86-64`).
    pub fn from_canonical(s: &str) -> (r: Option<JavaHostTarget>)
        ensures
            r == java_host_target_named(s@),
    {
        if same_text(s, "current") {
            Some(JavaHostTarget::Current)
        } else if same_text(s, "darwin-arm64") || same_text(s, "darwin-aarch64") {
            Some(JavaHostTarget::DarwinArm64)
        } else if same_text(s, "darwin-x86_64") || same_text(s, "darwin-x86-64") {
            Some(JavaHostTarget::DarwinX86_64)
        } else if same_text(s, "linux-x86_64") || same_text(s, "linux-x86-64") {
            Some(JavaHostTarget::LinuxX86_64)
        } else if same_text(s, "linux-aarch64") || same_text(s, "linux-arm64") {
            Some(JavaHostTarget::LinuxAarch64)
        } else if same_text(s, "windows-x86_64") || same_text(s, "windows-x86-64") {
            Some(JavaHostTarget::WindowsX86_64)
        } else {
            None
        }
    }
}

impl From<NativeHostPlatform> for JavaHostTarget {
    fn from(value: NativeHostPlatform) -> (r: JavaHostTarget) {
        match value {
            NativeHostPlatform::DarwinArm64 => JavaHostTarget::DarwinArm64,
            NativeHostPlatform::DarwinX86_64 => JavaHostTarget::DarwinX86_64,
            NativeHostPlatform::LinuxX86_64 => JavaHostTarget::LinuxX86_64,
            NativeHostPlatform::LinuxAarch64 => JavaHostTarget::LinuxAarch64,
            NativeHostPlatform::WindowsX86_64 => JavaHostTarget::WindowsX86_64,
        }
    }
}

impl vstd::std_specs::convert::FromSpecImpl<NativeHostPlatform> for JavaHostTarget {
    open spec fn obeys_from_spec() -> bool {
        true
    }

    open spec fn from_spec(value: NativeHostPlatform) -> JavaHostTarget {
        JavaHostTarget::from_host(value)
    }
}

} // verus!
verus! {

/// No host target name holds a dot, so a dot in a configuration string always starts a
/// glibc version.
pub proof fn lemma_host_target_names_have_no_dot(t: JavaHostTarget)
    ensures
        !t.spec_canonical_name().contains('.'),
{
    reveal_strlit("current");
    reveal_strlit("darwin-arm64");
    reveal_strlit("darwin-x86_64");
    reveal_strlit("linux-x86_64");
    reveal_strlit("linux-aarch64");
    reveal_strlit("windows-x86_64");
}

/// The name of every host target stands for that host target again:
/// `from_canonical(t.canonical_name()) == Some(t)`.
pub proof fn lemma_host_target_name_roundtrip(t: JavaHostTarget)
    ensures
        java_host_target_named(t.spec_canonical_name()) == Some(t),
{
    reveal_strlit("current");
    reveal_strlit("darwin-arm64");
    reveal_strlit("darwin-aarch64");
    reveal_strlit("darwin-x86_64");
    reveal_strlit("darwin-x86-64");
    reveal_strlit("linux-x86_64");
    reveal_strlit("linux-x86-64");
    reveal_strlit("linux-aarch64");
    reveal_strlit("linux-arm64");
    reveal_strlit("windows-x86_64");
    reveal_strlit("windows-x86-64");
    match t {
        JavaHostTarget::Current => {},
        JavaHostTarget::DarwinArm64 => {
            assert("darwin-arm64"@.len() != "current"@.len());
        },
        JavaHostTarget::DarwinX86_64 => {
            assert("darwin-x86_64"@.len() != "current"@.len());
            assert("darwin-x86_64"@.len() != "darwin-arm64"@.len());
            assert("darwin-x86_64"@.len() != "darwin-aarch64"@.len());
        },
        JavaHostTarget::LinuxX86_64 => {
            assert("linux-x86_64"@.len() != "current"@.len());
            assert("linux-x86_64"@[0] != "darwin-arm64"@[0]);
            assert("linux-x86_64"@.len() != "darwin-aarch64"@.len());
            assert("linux-x86_64"@.len() != "darwin-x86_64"@.len());
            assert("linux-x86_64"@.len() != "darwin-x86-64"@.len());
        },
        JavaHostTarget::LinuxAarch64 => {
            assert("linux-aarch64"@.len() != "current"@.len());
            assert("linux-aarch64"@.len() != "darwin-arm64"@.len());
            assert("linux-aarch64"@.len() != "darwin-aarch64"@.len());
            assert("linux-aarch64"@[0] != "darwin-x86_64"@[0]);
            assert("linux-aarch64"@[0] != "darwin-x86-64"@[0]);
            assert("linux-aarch64"@.len() != "linux-x86_64"@.len());
            assert("linux-aarch64"@.len() != "linux-x86-64"@.len());
        },
        JavaHostTarget::WindowsX86_64 => {
            assert("windows-x86_64"@.len() != "current"@.len());
            assert("windows-x86_64"@.len() != "darwin-arm64"@.len());
            assert("windows-x86_64"@[0] != "darwin-aarch64"@[0]);
            assert("windows-x86_64"@.len() != "darwin-x86_64"@.len());
            assert("windows-x86_64"@.len() != "darwin-x86-64"@.len());
            assert("windows-x86_64"@.len() != "linux-x86_64"@.len());
            assert("windows-x86_64"@.len() != "linux-x86-64"@.len());
            assert("windows-x86_64"@.len() != "linux-aarch64"@.len());
            assert("windows-x86_64"@.len() != "linux-arm64"@.len());
        },
    }
}

/// The host target of a native host has that host, and bears its name.
pub proof fn lemma_host_target_of_native_host(h: NativeHostPlatform)
    ensures
        JavaHostTarget::from_host(h).spec_host() == Some(h),
        JavaHostTarget::from_host(h).spec_canonical_name() == h.spec_canonical_name(),
        !(JavaHostTarget::from_host(h) is Current),
{
}

/// Resolving host targets against a supported host leaves no duplicate and no `Current`,
/// keeps every requested host (with `Current` standing for the host) and adds none, and a
/// second resolution changes nothing.
pub proof fn lemma_resolved_host_targets(targets: Seq<JavaHostTarget>, current_host: JavaHostTarget)
    requires
        !(current_host is Current),
    ensures
        no_duplicates(resolved_host_targets(targets, current_host)),
        forall|i: int|
            0 <= i < resolved_host_targets(targets, current_host).len() ==> !(
            #[trigger] resolved_host_targets(targets, current_host)[i] is Current),
        forall|x: JavaHostTarget|
            resolved_host_targets(targets, current_host).contains(x) <==> exists|i: int|
                0 <= i < targets.len() && #[trigger] targets[i].resolved(current_host) == x,
        resolved_host_targets(resolved_host_targets(targets, current_host), current_host)
            == resolved_host_targets(targets, current_host),
{
    lemma_dedup_of_images(
        targets,
        |t: JavaHostTarget| t.resolved(current_host),
        |t: JavaHostTarget| t.resolved(current_host),
    );
    assert forall|i: int| 0 <= i < resolved_host_targets(targets, current_host).len() implies !(
        #[trigger] resolved_host_targets(targets, current_host)[i] is Current) by {
        assert(resolved_host_targets(targets, current_host).contains(
            resolved_host_targets(targets, current_host)[i],
        ));
    }
}

/// The resolved host targets are exactly the requested ones: a host target is built on the
/// host `current_host` when it is asked for by name, or when it is `current_host` and
/// `Current` is asked for. An explicitly named host target is never replaced by the
/// current host, and `Current` itself is never built.
pub proof fn lemma_resolution_builds_what_is_requested(
    targets: Seq<JavaHostTarget>,
    current_host: JavaHostTarget,
    x: JavaHostTarget,
)
    requires
        !(current_host is Current),
    ensures
        resolved_host_targets(targets, current_host).contains(x) <==> {
            ||| !(x is Current) && targets.contains(x)
            ||| x == current_host && targets.contains(JavaHostTarget::Current)
        },
{
    lemma_resolved_host_targets(targets, current_host);
    if !(x is Current) && targets.contains(x) {
        let i = choose|i: int| 0 <= i < targets.len() && targets[i] == x;
        assert(targets[i].resolved(current_host) == x);
    }
    if x == current_host && targets.contains(JavaHostTarget::Current) {
        let i = choose|i: int| 0 <= i < targets.len() && targets[i] == JavaHostTarget::Current;
        assert(targets[i].resolved(current_host) == x);
    }
    if resolved_host_targets(targets, current_host).contains(x) {
        let i = choose|i: int| 0 <= i < targets.len() && #[trigger] targets[i].resolved(current_host)
            == x;
        assert(targets.contains(targets[i]));
    }
}

} // verus!
