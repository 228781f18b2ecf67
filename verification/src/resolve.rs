//! The Rust targets that a list of configured architectures asks to build.

use vstd::prelude::*;
use crate::arch::{AndroidArchitecture, AppleArchitecture, AppleIosArchitecture, DartNativeArchitecture};
use crate::platform::Platform;
use crate::rust_target::RustTarget;

verus! {

/// The Android targets of `architectures`, one for each entry and in the same order.
pub fn resolve_android_targets(architectures: &[AndroidArchitecture]) -> (r: Vec<RustTarget>)
    ensures
        r@.len() == architectures@.len(),
        forall|i: int|
            0 <= i < architectures@.len() ==> #[trigger] r@[i]@ == (
                Platform::Android,
                architectures@[i].spec_architecture(),
            ),
{
    let mut r: Vec<RustTarget> = Vec::new();
    let mut i: usize = 0;
    while i < architectures.len()
        invariant
            i <= architectures@.len(),
            r@.len() == i,
            forall|j: int|
                0 <= j < i ==> #[trigger] r@[j]@ == (
                    Platform::Android,
                    architectures@[j].spec_architecture(),
                ),
        decreases architectures@.len() - i,
    {
        r.push(RustTarget::from_android_architecture(architectures[i]));
        i += 1;
    }
    r
}

/// The iOS device targets of `architectures`, one for each entry and in the same order.
pub fn resolve_apple_ios_targets(architectures: &[AppleIosArchitecture]) -> (r: Vec<RustTarget>)
    ensures
        r@.len() == architectures@.len(),
        forall|i: int|
            0 <= i < architectures@.len() ==> #[trigger] r@[i]@
                == architectures@[i].spec_rust_target(),
{
    let mut r: Vec<RustTarget> = Vec::new();
    let mut i: usize = 0;
    while i < architectures.len()
        invariant
            i <= architectures@.len(),
            r@.len() == i,
            forall|j: int|
                0 <= j < i ==> #[trigger] r@[j]@ == architectures@[j].spec_rust_target(),
        decreases architectures@.len() - i,
    {
        r.push(architectures[i].rust_target());
        i += 1;
    }
    r
}

/// The iOS simulator targets of `architectures`, one for each entry and in the same order.
pub fn resolve_apple_simulator_targets(architectures: &[AppleArchitecture]) -> (r: Vec<RustTarget>)
    ensures
        r@.len() == architectures@.len(),
        forall|i: int|
            0 <= i < architectures@.len() ==> #[trigger] r@[i]@ == (
                Platform::IosSimulator,
                architectures@[i].spec_architecture(),
            ),
{
    let mut r: Vec<RustTarget> = Vec::new();
    let mut i: usize = 0;
    while i < architectures.len()
        invariant
            i <= architectures@.len(),
            r@.len() == i,
            forall|j: int|
                0 <= j < i ==> #[trigger] r@[j]@ == (
                    Platform::IosSimulator,
                    architectures@[j].spec_architecture(),
                ),
        decreases architectures@.len() - i,
    {
        r.push(architectures[i].simulator_rust_target());
        i += 1;
    }
    r
}

/// The macOS targets of `architectures`, one for each entry and in the same order.
pub fn resolve_apple_macos_targets(architectures: &[AppleArchitecture]) -> (r: Vec<RustTarget>)
    ensures
        r@.len() == architectures@.len(),
        forall|i: int|
            0 <= i < architectures@.len() ==> #[trigger] r@[i]@ == (
                Platform::MacOs,
                architectures@[i].spec_architecture(),
            ),
{
    let mut r: Vec<RustTarget> = Vec::new();
    let mut i: usize = 0;
    while i < architectures.len()
        invariant
            i <= architectures@.len(),
            r@.len() == i,
            forall|j: int|
                0 <= j < i ==> #[trigger] r@[j]@ == (
                    Platform::MacOs,
                    architectures@[j].spec_architecture(),
                ),
        decreases architectures@.len() - i,
    {
        r.push(architectures[i].macos_rust_target());
        i += 1;
    }
    r
}

/// The Rust targets of the Dart native targets `architectures`, one for each entry and in
/// the same order.
pub fn resolve_dart_native_targets(architectures: &[DartNativeArchitecture]) -> (r: Vec<RustTarget>)
    ensures
        r@.len() == architectures@.len(),
        forall|i: int|
            0 <= i < architectures@.len() ==> #[trigger] r@[i]@
                == architectures@[i].spec_rust_target(),
{
    let mut r: Vec<RustTarget> = Vec::new();
    let mut i: usize = 0;
    while i < architectures.len()
        invariant
            i <= architectures@.len(),
            r@.len() == i,
            forall|j: int|
                0 <= j < i ==> #[trigger] r@[j]@ == architectures@[j].spec_rust_target(),
        decreases architectures@.len() - i,
    {
        r.push(architectures[i].rust_target());
        i += 1;
    }
    r
}

} // verus!
