//! The host platforms that native packages (JVM, C#) are built for and run on.

use vstd::prelude::*;
use crate::text::{concat3, same_text};

verus! {

/// An operating system and architecture that a native library can be built for on the
/// machine that runs the build.
#[derive(Debug, Clone, Copy, PartialEq, Eq, Hash, Structural)]
pub enum NativeHostPlatform {
    DarwinArm64,
    DarwinX86_64,
    LinuxX86_64,
    LinuxAarch64,
    WindowsX86_64,
}

/// The view of an optional static string: the characters it holds, if any.
pub open spec fn opt_str_view(o: Option<&'static str>) -> Option<Seq<char>> {
    match o {
        Some(s) => Some(s@),
        None => None,
    }
}

/// The supported host of the operating system and architecture that Rust's standard
/// library reports as `std::env::consts::OS` and `std::env::consts::ARCH`.
pub open spec fn host_of(os: Seq<char>, arch: Seq<char>) -> Option<NativeHostPlatform> {
    if os == "macos"@ && arch == "aarch64"@ {
        Some(NativeHostPlatform::DarwinArm64)
    } else if os == "macos"@ && arch == "x86_64"@ {
        Some(NativeHostPlatform::DarwinX86_64)
    } else if os == "linux"@ && arch == "x86_64"@ {
        Some(NativeHostPlatform::LinuxX86_64)
    } else if os == "linux"@ && arch == "aarch64"@ {
        Some(NativeHostPlatform::LinuxAarch64)
    } else if os == "windows"@ && arch == "x86_64"@ {
        Some(NativeHostPlatform::WindowsX86_64)
    } else {
        None
    }
}

impl NativeHostPlatform {
    /// The name of the host, `os-architecture`.
    pub open spec fn spec_canonical_name(self) -> Seq<char> {
        match self {
            NativeHostPlatform::DarwinArm64 => "darwin-arm64"@,
            NativeHostPlatform::DarwinX86_64 => "darwin-x86_64"@,
            NativeHostPlatform::LinuxX86_64 => "linux-x86_64"@,
            NativeHostPlatform::LinuxAarch64 => "linux-aarch64"@,
            NativeHostPlatform::WindowsX86_64 => "windows-x86_64"@,
        }
    }

    /// Whether the host runs macOS.
    pub open spec fn is_darwin(self) -> bool {
        self is DarwinArm64 || self is DarwinX86_64
    }

    /// Whether the host runs Linux.
    pub open spec fn is_linux(self) -> bool {
        self is LinuxX86_64 || self is LinuxAarch64
    }

    /// The file name of the shared library built from the crate `artifact_name`.
    pub open spec fn spec_shared_library_filename(self, artifact_name: Seq<char>) -> Seq<char> {
        if self.is_darwin() {
            "lib"@ + artifact_name + ".dylib"@
        } else if self.is_linux() {
            "lib"@ + artifact_name + ".so"@
        } else {
            artifact_name + ".dll"@
        }
    }

    /// The file name of the static library built from the crate `artifact_name`; on Windows
    /// it depends on whether the toolchain is the GNU one.
    pub open spec fn spec_static_library_filename(
        self,
        artifact_name: Seq<char>,
        gnu_windows_toolchain: bool,
    ) -> Seq<char> {
        if !(self is WindowsX86_64) || gnu_windows_toolchain {
            "lib"@ + artifact_name + ".a"@
        } else {
            artifact_name + ".lib"@
        }
    }

    /// The file name of the JNI shared library built for the crate `artifact_name`.
    pub open spec fn spec_jni_library_filename(self, artifact_name: Seq<char>) -> Seq<char> {
        if self.is_darwin() {
            "lib"@ + artifact_name + "_jni.dylib"@
        } else if self.is_linux() {
            "lib"@ + artifact_name + "_jni.so"@
        } else {
            artifact_name + "_jni.dll"@
        }
    }

    /// The name of the JNI platform directory of the host.
    pub open spec fn spec_jni_platform(self) -> Seq<char> {
        if self.is_darwin() {
            "darwin"@
        } else if self.is_linux() {
            "linux"@
        } else {
            "win32"@
        }
    }

    /// The linker flag that lets a library find its neighbours at run time, if the host has one.
    pub open spec fn spec_rpath_flag(self) -> Option<Seq<char>> {
        if self.is_darwin() {
            Some("-Wl,-rpath,@loader_path"@)
        } else if self.is_linux() {
            Some("-Wl,-rpath,$ORIGIN"@)
        } else {
            None
        }
    }

    /// Every supported host, in declaration order.
    pub fn all() -> (r: Vec<NativeHostPlatform>)
        ensures
            r@ == seq![
                NativeHostPlatform::DarwinArm64,
                NativeHostPlatform::DarwinX86_64,
                NativeHostPlatform::LinuxX86_64,
                NativeHostPlatform::LinuxAarch64,
                NativeHostPlatform::WindowsX86_64,
            ],
    {
        let mut r = Vec::new();
        r.push(NativeHostPlatform::DarwinArm64);
        r.push(NativeHostPlatform::DarwinX86_64);
        r.push(NativeHostPlatform::LinuxX86_64);
        r.push(NativeHostPlatform::LinuxAarch64);
        r.push(NativeHostPlatform::WindowsX86_64);
        r
    }

    /// The name of the host, such as `darwin-arm64`.
    pub fn canonical_name(self) -> (r: &'static str)
        ensures
            r@ == self.spec_canonical_name(),
    {
        match self {
            NativeHostPlatform::DarwinArm64 => "darwin-arm64",
            NativeHostPlatform::DarwinX86_64 => "darwin-x86_64",
            NativeHostPlatform::LinuxX86_64 => "linux-x86_64",
            NativeHostPlatform::LinuxAarch64 => "linux-aarch64",
            NativeHostPlatform::WindowsX86_64 => "windows-x86_64",
        }
    }

    /// The host that runs this code, given the operating system and architecture that the
    /// standard library reports for it (`std::env::consts::OS` and `ARCH`); `None` where the
    /// host is not supported.
    pub fn current(os: &str, arch: &str) -> (r: Option<NativeHostPlatform>)
        ensures
            r == host_of(os@, arch@),
    {
        if same_text(os, "macos") && same_text(arch, "aarch64") {
            Some(NativeHostPlatform::DarwinArm64)
        } else if same_text(os, "macos") && same_text(arch, "x86_64") {
            Some(NativeHostPlatform::DarwinX86_64)
        } else if same_text(os, "linux") && same_text(arch, "x86_64") {
            Some(NativeHostPlatform::LinuxX86_64)
        } else if same_text(os, "linux") && same_text(arch, "aarch64") {
            Some(NativeHostPlatform::LinuxAarch64)
        } else if same_text(os, "windows") && same_text(arch, "x86_64") {
            Some(NativeHostPlatform::WindowsX86_64)
        } else {
            None
        }
    }

    /// The file name of the shared library that a build of `artifact_name` produces.
    pub fn shared_library_filename(self, artifact_name: &str) -> (r: String)
        ensures
            r@ == self.spec_shared_library_filename(artifact_name@),
    {
        match self {
            NativeHostPlatform::DarwinArm64 | NativeHostPlatform::DarwinX86_64 => {
                concat3("lib", artifact_name, ".dylib")
            },
            NativeHostPlatform::LinuxX86_64 | NativeHostPlatform::LinuxAarch64 => {
                concat3("lib", artifact_name, ".so")
            },
            NativeHostPlatform::WindowsX86_64 => {
                proof {
                    reveal_strlit("");
                    assert(""@ + artifact_name@ + ".dll"@ =~= artifact_name@ + ".dll"@);
                }
                concat3("", artifact_name, ".dll")
            },
        }
    }

    /// The file name of the static library that a build of `artifact_name` produces.
    /// `gnu_windows_toolchain` tells whether the build uses the GNU toolchain on Windows,
    /// which names static libraries as Unix does.
    pub fn static_library_filename(self, artifact_name: &str, gnu_windows_toolchain: bool) -> (r:
        String)
        ensures
            r@ == self.spec_static_library_filename(artifact_name@, gnu_windows_toolchain),
    {
        match self {
            NativeHostPlatform::DarwinArm64
            | NativeHostPlatform::DarwinX86_64
            | NativeHostPlatform::LinuxX86_64
            | NativeHostPlatform::LinuxAarch64 => concat3("lib", artifact_name, ".a"),
            NativeHostPlatform::WindowsX86_64 => {
                if gnu_windows_toolchain {
                    concat3("lib", artifact_name, ".a")
                } else {
                    proof {
                        reveal_strlit("");
                        assert(""@ + artifact_name@ + ".lib"@ =~= artifact_name@ + ".lib"@);
                    }
                    concat3("", artifact_name, ".lib")
                }
            },
        }
    }

    /// The file name of the JNI shared library that a build of `artifact_name` produces.
    pub fn jni_library_filename(self, artifact_name: &str) -> (r: String)
        ensures
            r@ == self.spec_jni_library_filename(artifact_name@),
    {
        match self {
            NativeHostPlatform::DarwinArm64 | NativeHostPlatform::DarwinX86_64 => {
                concat3("lib", artifact_name, "_jni.dylib")
            },
            NativeHostPlatform::LinuxX86_64 | NativeHostPlatform::LinuxAarch64 => {
                concat3("lib", artifact_name, "_jni.so")
            },
            NativeHostPlatform::WindowsX86_64 => {
                proof {
                    reveal_strlit("");
                    assert(""@ + artifact_name@ + "_jni.dll"@ =~= artifact_name@ + "_jni.dll"@);
                }
                concat3("", artifact_name, "_jni.dll")
            },
        }
    }

    /// The name of the directory of the JDK's platform headers for the host.
    pub fn jni_platform(self) -> (r: &'static str)
        ensures
            r@ == self.spec_jni_platform(),
    {
        match self {
            NativeHostPlatform::DarwinArm64 | NativeHostPlatform::DarwinX86_64 => "darwin",
            NativeHostPlatform::LinuxX86_64 | NativeHostPlatform::LinuxAarch64 => "linux",
            NativeHostPlatform::WindowsX86_64 => "win32",
        }
    }

    /// The linker flag that makes a library look for its dependencies beside itself;
    /// Windows does that without one.
    pub fn rpath_flag(self) -> (r: Option<&'static str>)
        ensures
            opt_str_view(r) == self.spec_rpath_flag(),
    {
        match self {
            NativeHostPlatform::DarwinArm64 | NativeHostPlatform::DarwinX86_64 => Some(
                "-Wl,-rpath,@loader_path",
            ),
            NativeHostPlatform::LinuxX86_64 | NativeHostPlatform::LinuxAarch64 => Some(
                "-Wl,-rpath,$ORIGIN",
            ),
            NativeHostPlatform::WindowsX86_64 => None,
        }
    }
}

/// The library names of each operating-system family: Linux hosts name shared libraries
/// `lib<name>.so`, macOS hosts `lib<name>.dylib` and Windows hosts `<name>.dll`; static
/// libraries are `lib<name>.a` except with the Microsoft toolchain on Windows
/// (`<name>.lib`); and the JNI library of `name` is named as the shared library of
/// `<name>_jni` on every host.
pub proof fn lemma_library_names_by_family(
    host: NativeHostPlatform,
    name: Seq<char>,
    gnu_windows_toolchain: bool,
)
    ensures
        host is LinuxX86_64 || host is LinuxAarch64 ==> {
            &&& host.spec_shared_library_filename(name) == "lib"@ + name + ".so"@
            &&& host.spec_static_library_filename(name, gnu_windows_toolchain) == "lib"@ + name
                + ".a"@
            &&& host.spec_jni_platform() == "linux"@
            &&& host.spec_rpath_flag() == Some("-Wl,-rpath,$ORIGIN"@)
        },
        host is DarwinArm64 || host is DarwinX86_64 ==> {
            &&& host.spec_shared_library_filename(name) == "lib"@ + name + ".dylib"@
            &&& host.spec_static_library_filename(name, gnu_windows_toolchain) == "lib"@ + name
                + ".a"@
            &&& host.spec_jni_platform() == "darwin"@
            &&& host.spec_rpath_flag() == Some("-Wl,-rpath,@loader_path"@)
        },
        host is WindowsX86_64 ==> {
            &&& host.spec_shared_library_filename(name) == name + ".dll"@
            &&& host.spec_static_library_filename(name, true) == "lib"@ + name + ".a"@
            &&& host.spec_static_library_filename(name, false) == name + ".lib"@
            &&& host.spec_jni_platform() == "win32"@
            &&& host.spec_rpath_flag() is None
        },
        host.spec_jni_library_filename(name) == host.spec_shared_library_filename(
            name + "_jni"@,
        ),
{
    reveal_strlit("_jni");
    reveal_strlit(".so");
    reveal_strlit("_jni.so");
    reveal_strlit(".dylib");
    reveal_strlit("_jni.dylib");
    reveal_strlit(".dll");
    reveal_strlit("_jni.dll");
    if host is LinuxX86_64 || host is LinuxAarch64 {
        assert("lib"@ + (name + "_jni"@) + ".so"@ =~= "lib"@ + name + "_jni.so"@);
    } else if host is DarwinArm64 || host is DarwinX86_64 {
        assert("lib"@ + (name + "_jni"@) + ".dylib"@ =~= "lib"@ + name + "_jni.dylib"@);
    } else {
        assert(name + "_jni"@ + ".dll"@ =~= name + "_jni.dll"@);
    }
}

} // verus!
