//! Operating-system families and CPU architectures of Rust targets.

use vstd::prelude::*;

verus! {

/// The operating-system family a Rust target builds for.
#[derive(Debug, Clone, Copy, PartialEq, Eq, Hash, Structural)]
pub enum Platform {
    Ios,
    IosSimulator,
    MacOs,
    Android,
    Wasm,
    Linux,
}

/// The CPU architecture a Rust target builds for.
#[derive(Debug, Clone, Copy, PartialEq, Eq, Hash, Structural)]
pub enum Architecture {
    Arm64,
    X86_64,
    Armv7,
    X86,
    Wasm32,
}

impl Platform {
    /// The platforms of Apple's operating systems.
    pub open spec fn spec_is_apple(self) -> bool {
        self is Ios || self is IosSimulator || self is MacOs
    }

    /// Whether the platform belongs to Apple's family of operating systems.
    pub fn is_apple(&self) -> (r: bool)
        ensures
            r == self.spec_is_apple(),
    {
        match self {
            Platform::Ios | Platform::IosSimulator | Platform::MacOs => true,
            _ => false,
        }
    }
}

impl Architecture {
    /// The Android ABI name of an architecture; WebAssembly has none.
    pub open spec fn spec_android_abi(self) -> Seq<char> {
        match self {
            Architecture::Arm64 => "arm64-v8a"@,
            Architecture::Armv7 => "armeabi-v7a"@,
            Architecture::X86_64 => "x86_64"@,
            Architecture::X86 => "x86"@,
            Architecture::Wasm32 => Seq::empty(),
        }
    }

    /// The name Android gives to the ABI of this architecture.
    pub fn android_abi(&self) -> (r: &'static str)
        requires
            !(*self is Wasm32),
        ensures
            r@ == self.spec_android_abi(),
    {
        match self {
            Architecture::Arm64 => "arm64-v8a",
            Architecture::Armv7 => "armeabi-v7a",
            Architecture::X86_64 => "x86_64",
            Architecture::X86 => "x86",
            Architecture::Wasm32 => vstd::pervasive::unreached(),
        }
    }
}

} // verus!
