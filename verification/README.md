# boltffi_target

The build targets of an FFI packaging toolchain, verified with Verus.

- `src/` is the verified library: Rust targets and their triples (`rust_target`), the
  architectures each packaging platform is configured with (`arch`, `resolve`), the host
  platforms of native JVM and C# packages (`host`, `java`, `jvm`, `csharp`), and the
  libraries a build leaves on disk (`built`). Functions state their results over spec
  functions. A path is described by its components (`paths`), where it starts in a way
  that appending cannot change (no Windows prefix can form); which files exist on disk is
  left open. `dedup` and the `lemma_*` proof functions
  hold the laws of the library: resolved host lists hold each host once and never
  `Current`, a second resolution changes nothing, and a JVM host entry survives being
  written as a configuration string and read back.
- `app/` holds what Verus does not see: reading the running host from `std::env::consts`,
  the toolchain flag for static library names on Windows, and the serde forms of the
  configuration values, which convert to and from the library's types.
- `tests/` runs the library on concrete values.
