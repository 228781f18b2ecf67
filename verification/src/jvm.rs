//! Entries of the JVM host target list: a host target, optionally with the minimum
//! glibc version that a Linux build links against (`linux-x86_64.2.17`).

use vstd::prelude::*;
use vstd::string::*;
use crate::dedup::{dedup, lemma_dedup_of_images, no_duplicates};
use crate::java::{
    java_current, java_host_target_named, jvm_unsupported_host_message,
    lemma_host_target_name_roundtrip, lemma_host_target_names_have_no_dot, JavaHostTarget,
};
use crate::text::{concat3, is_ascii_digit};

verus! {

/// A JVM packaging target entry, optionally carrying a minimum glibc version for Linux
/// targets. Its configuration string is the name of the host target, followed for a Linux
/// target by `.` and the glibc version, such as `linux-x86_64.2.17`.
#[derive(Debug, Clone, PartialEq, Eq, Hash)]
pub struct JavaJvmHostTarget {
    pub target: JavaHostTarget,
    /// Minimum glibc version (e.g. `"2.17"`), Linux only.
    pub glibc_version: Option<String>,
}

/// The view of an entry: its host target and the characters of its glibc version.
pub type JvmEntry = (JavaHostTarget, Option<Seq<char>>);

impl View for JavaJvmHostTarget {
    type V = JvmEntry;

    open spec fn view(&self) -> JvmEntry {
        (
            self.target,
            match self.glibc_version {
                Some(v) => Some(v@),
                None => None,
            },
        )
    }
}

/// Whether `v` is a glibc version suffix: one or more groups of digits joined by single
/// dots, such as `2.17`: not empty, made of digits and dots, starting and ending with a
/// digit, and with no dot right after another.
pub open spec fn is_glibc_version(v: Seq<char>) -> bool {
    &&& v.len() > 0
    &&& is_ascii_digit(v[0])
    &&& is_ascii_digit(v[v.len() - 1])
    &&& forall|i: int| 0 <= i < v.len() ==> is_ascii_digit(#[trigger] v[i]) || v[i] == '.'
    &&& forall|i: int, j: int|
        #![trigger v[i], v[j]]
        0 <= i && j == i + 1 && j < v.len() && v[i] == '.' ==> v[j] != '.'
}

/// `d` is the position of the first dot of `s`.
pub open spec fn is_first_dot(s: Seq<char>, d: int) -> bool {
    &&& 0 <= d < s.len()
    &&& s[d] == '.'
    &&& forall|j: int| 0 <= j < d ==> s[j] != '.'
}

/// A configuration string split at its first dot into the name of the host target and
/// the glibc version, where the part after the dot is a glibc version.
pub open spec fn glibc_split(s: Seq<char>) -> Option<(Seq<char>, Seq<char>)> {
    if exists|d: int| is_first_dot(s, d) {
        let d = choose|d: int| is_first_dot(s, d);
        if is_glibc_version(s.subrange(d + 1, s.len() as int)) {
            Some((s.subrange(0, d), s.subrange(d + 1, s.len() as int)))
        } else {
            None
        }
    } else {
        None
    }
}

/// The list of host target names that error messages offer.
pub open spec fn host_target_choices() -> Seq<char> {
    "current, darwin-arm64, darwin-x86_64, linux-x86_64, linux-aarch64, windows-x86_64"@
}

/// The error for a configuration string `s` whose part `base` before the glibc version names
/// no host target.
pub open spec fn unknown_base_message(base: Seq<char>, s: Seq<char>) -> Seq<char> {
    "unknown host target '"@ + base + "' in '"@ + s + "'; expected one of: "@
        + host_target_choices()
}

/// The error for a glibc version `glibc` given to the host target named `base`, which is
/// not a Linux target.
pub open spec fn glibc_not_linux_message(glibc: Seq<char>, base: Seq<char>) -> Seq<char> {
    "glibc version suffix '."@ + glibc + "' is only valid for Linux targets, but '"@ + base
        + "' is not a Linux target"@
}

/// The error for a configuration string `s` without a glibc version that names no host target.
pub open spec fn unknown_target_message(s: Seq<char>) -> Seq<char> {
    "unknown host target '"@ + s + "'; expected one of: "@ + host_target_choices()
        + ", or a Linux target with a glibc version suffix (e.g. linux-x86_64.2.17)"@
}

/// The entry that a configuration string stands for, or the error that it is refused with.
pub open spec fn jvm_entry_parsed(s: Seq<char>) -> Result<JvmEntry, Seq<char>> {
    match glibc_split(s) {
        Some((base, glibc)) => match java_host_target_named(base) {
            None => Err(unknown_base_message(base, s)),
            Some(target) => if target is LinuxX86_64 || target is LinuxAarch64 {
                Ok((target, Some(glibc)))
            } else {
                Err(glibc_not_linux_message(glibc, base))
            },
        },
        None => match java_host_target_named(s) {
            None => Err(unknown_target_message(s)),
            Some(target) => Ok((target, None)),
        },
    }
}

/// The configuration string of an entry.
pub open spec fn jvm_entry_name(e: JvmEntry) -> Seq<char> {
    match e.1 {
        Some(v) => e.0.spec_canonical_name() + "."@ + v,
        None => e.0.spec_canonical_name(),
    }
}

/// The entry with its host target resolved against the host that runs the build.
pub open spec fn jvm_entry_resolved(e: JvmEntry, current_host: JavaHostTarget) -> JvmEntry {
    (e.0.resolved(current_host), e.1)
}

/// The entries that `entries` asks to build on the host `current_host`: each with the host
/// target `Current` replaced by `current_host`, each kept once, in the order of its first request.
pub open spec fn resolved_jvm_entries(entries: Seq<JvmEntry>, current_host: JavaHostTarget) -> Seq<
    JvmEntry,
> {
    dedup(entries.map_values(|e: JvmEntry| jvm_entry_resolved(e, current_host)))
}

/// Whether `v` is a glibc version suffix.
fn is_glibc_version_text(v: &str) -> (r: bool)
    ensures
        r == is_glibc_version(v@),
{
    let n = v.unicode_len();
    if n == 0 {
        return false;
    }
    let first = v.get_char(0);
    if !('0' <= first && first <= '9') {
        return false;
    }
    let last = v.get_char(n - 1);
    if !('0' <= last && last <= '9') {
        return false;
    }
    let mut previous_was_dot = false;
    let mut i: usize = 0;
    while i < n
        invariant
            i <= n,
            n == v@.len(),
            forall|j: int| 0 <= j < i ==> is_ascii_digit(#[trigger] v@[j]) || v@[j] == '.',
            forall|j: int, k: int|
                #![trigger v@[j], v@[k]]
                0 <= j && k == j + 1 && k < i && v@[j] == '.' ==> v@[k] != '.',
            previous_was_dot == (i > 0 && v@[i - 1] == '.'),
        decreases n - i,
    {
        let c = v.get_char(i);
        if !(('0' <= c && c <= '9') || c == '.') {
            return false;
        }
        if c == '.' && previous_was_dot {
            assert(v@[i - 1] == '.' && v@[i as int] == '.');
            return false;
        }
        previous_was_dot = c == '.';
        i += 1;
    }
    true
}

/// Splits `"linux-x86_64.2.17"` into `("linux-x86_64", "2.17")`.
///
/// Returns `None` where no valid glibc version follows the first dot. No host target name
/// holds a dot, so the first dot is always the separator.
fn split_glibc_version_suffix(s: &str) -> (r: Option<(&str, &str)>)
    ensures
        match r {
            Some((base, glibc)) => glibc_split(s@) == Some((base@, glibc@)),
            None => glibc_split(s@) is None,
        },
{
    let n = s.unicode_len();
    let mut dot = n;
    let mut i: usize = 0;
    while i < n
        invariant
            i <= n,
            n == s@.len(),
            dot == n ==> forall|j: int| 0 <= j < i ==> s@[j] != '.',
            dot < n ==> is_first_dot(s@, dot as int),
            dot == n || dot < i,
        decreases n - i,
    {
        if dot == n && s.get_char(i) == '.' {
            dot = i;
        }
        i += 1;
    }
    if dot == n {
        assert(!exists|d: int| is_first_dot(s@, d));
        return None;
    }
    assert(forall|d: int| is_first_dot(s@, d) ==> d == dot);
    let version = s.substring_char(dot + 1, n);
    if !is_glibc_version_text(version) {
        return None;
    }
    Some((s.substring_char(0, dot), version))
}

/// A new string holding the characters of `s`.
fn owned(s: &str) -> (r: String)
    ensures
        r@ == s@,
{
    String::from_str(s)
}

impl JavaJvmHostTarget {
    /// The entries built when nothing is configured: the current host, without a glibc version.
    pub fn defaults() -> (r: Vec<JavaJvmHostTarget>)
        ensures
            r@.len() == 1,
            r@[0]@ == (JavaHostTarget::Current, None::<Seq<char>>),
    {
        let mut r = Vec::new();
        r.push(JavaJvmHostTarget::new(JavaHostTarget::Current));
        r
    }

    /// An entry for `target` without a glibc version.
    pub fn new(target: JavaHostTarget) -> (r: JavaJvmHostTarget)
        ensures
            r@ == (target, None::<Seq<char>>),
    {
        JavaJvmHostTarget { target, glibc_version: None }
    }

    /// An entry for `target` with the minimum glibc version `version`.
    pub fn with_glibc(target: JavaHostTarget, version: &str) -> (r: JavaJvmHostTarget)
        ensures
            r@ == (target, Some(version@)),
    {
        JavaJvmHostTarget { target, glibc_version: Some(owned(version)) }
    }

    /// The configuration string of the entry: the name of its host target, followed by `.`
    /// and the glibc version where it has one.
    pub fn canonical_name(&self) -> (r: String)
        ensures
            r@ == jvm_entry_name(self@),
    {
        let base = self.target.canonical_name();
        match &self.glibc_version {
            Some(v) => concat3(base, ".", v.as_str()),
            None => owned(base),
        }
    }

    /// The entry that a configuration string stands for: a host target name (see
    /// `JavaHostTarget::from_canonical`), optionally followed by `.` and a glibc version,
    /// which only Linux targets accept. Fails with a message naming what was wrong.
    pub fn parse(s: &str) -> (r: Result<JavaJvmHostTarget, String>)
        ensures
            match r {
                Ok(e) => jvm_entry_parsed(s@) == Ok::<JvmEntry, Seq<char>>(e@),
                Err(message) => jvm_entry_parsed(s@) == Err::<JvmEntry, Seq<char>>(message@),
            },
    {
        match split_glibc_version_suffix(s) {
            Some((base, glibc)) => {
                let target = match JavaHostTarget::from_canonical(base) {
                    Some(target) => target,
                    None => {
                        let mut message = owned("unknown host target '");
                        message.append(base);
                        message.append("' in '");
                        message.append(s);
                        message.append("'; expected one of: ");
                        message.append(
                            "current, darwin-arm64, darwin-x86_64, linux-x86_64, linux-aarch64, windows-x86_64",
                        );
                        return Err(message);
                    },
                };
                match target {
                    JavaHostTarget::LinuxX86_64 | JavaHostTarget::LinuxAarch64 => {},
                    _ => {
                        let mut message = owned("glibc version suffix '.");
                        message.append(glibc);
                        message.append("' is only valid for Linux targets, but '");
                        message.append(base);
                        message.append("' is not a Linux target");
                        return Err(message);
                    },
                }
                Ok(JavaJvmHostTarget { target, glibc_version: Some(owned(glibc)) })
            },
            None => {
                match JavaHostTarget::from_canonical(s) {
                    Some(target) => Ok(JavaJvmHostTarget { target, glibc_version: None }),
                    None => {
                        let mut message = owned("unknown host target '");
                        message.append(s);
                        message.append("'; expected one of: ");
                        message.append(
                            "current, darwin-arm64, darwin-x86_64, linux-x86_64, linux-aarch64, windows-x86_64",
                        );
                        message.append(
                            ", or a Linux target with a glibc version suffix (e.g. linux-x86_64.2.17)",
                        );
                        Err(message)
                    },
                }
            },
        }
    }

    /// Whether two entries have the same host target and the same glibc version.
    fn same_entry(a: &JavaJvmHostTarget, b: &JavaJvmHostTarget) -> (r: bool)
        ensures
            r == (a@ == b@),
    {
        if a.target != b.target {
            return false;
        }
        match (&a.glibc_version, &b.glibc_version) {
            (Some(x), Some(y)) => *x == *y,
            (None, None) => true,
            _ => false,
        }
    }

    /// Whether `entries` holds an entry equal to `entry`.
    fn holds(entries: &Vec<JavaJvmHostTarget>, entry: &JavaJvmHostTarget) -> (r: bool)
        ensures
            r == entries@.map_values(|e: JavaJvmHostTarget| e@).contains(entry@),
    {
        let ghost views = entries@.map_values(|e: JavaJvmHostTarget| e@);
        let mut i: usize = 0;
        while i < entries.len()
            invariant
                i <= entries@.len(),
                views == entries@.map_values(|e: JavaJvmHostTarget| e@),
                forall|j: int| 0 <= j < i ==> views[j] != entry@,
            decreases entries@.len() - i,
        {
            if JavaJvmHostTarget::same_entry(&entries[i], entry) {
                assert(views[i as int] == entry@);
                return true;
            }
            i += 1;
        }
        false
    }

    /// A copy of the glibc version of the entry.
    fn copied_glibc_version(&self) -> (r: Option<String>)
        ensures
            match r {
                Some(v) => self.glibc_version is Some && v@ == self.glibc_version.unwrap()@,
                None => self.glibc_version is None,
            },
    {
        match &self.glibc_version {
            Some(v) => Some(v.clone()),
            None => None,
        }
    }

    /// The entries to build: each requested one with the host target `Current` replaced by
    /// the host that runs the build (described by `os` and `arch` as in
    /// `JavaHostTarget::current`), each kept once, in the order of its first request. Fails
    /// with an error message where the host is not supported.
    pub fn resolve_requested(targets: &[JavaJvmHostTarget], os: &str, arch: &str) -> (r: Result<
        Vec<JavaJvmHostTarget>,
        String,
    >)
        ensures
            match r {
                Ok(resolved) => {
                    &&& java_current(os@, arch@) is Some
                    &&& resolved@.map_values(|e: JavaJvmHostTarget| e@) == resolved_jvm_entries(
                        targets@.map_values(|e: JavaJvmHostTarget| e@),
                        java_current(os@, arch@).unwrap(),
                    )
                },
                Err(message) => {
                    &&& java_current(os@, arch@) is None
                    &&& message@ == jvm_unsupported_host_message()
                },
            },
    {
        let current_host = match JavaHostTarget::current(os, arch) {
            Some(host) => host,
            None => return Err(JavaHostTarget::unsupported_host_message()),
        };
        let ghost requested = targets@.map_values(
            |e: JavaJvmHostTarget| jvm_entry_resolved(e@, current_host),
        );
        let mut resolved: Vec<JavaJvmHostTarget> = Vec::new();
        let mut i: usize = 0;
        while i < targets.len()
            invariant
                i <= targets@.len(),
                requested == targets@.map_values(
                    |e: JavaJvmHostTarget| jvm_entry_resolved(e@, current_host),
                ),
                resolved@.map_values(|e: JavaJvmHostTarget| e@) == dedup(requested.take(i as int)),
            decreases targets@.len() - i,
        {
            let entry = &targets[i];
            let resolved_target = match entry.target {
                JavaHostTarget::Current => current_host,
                explicit => explicit,
            };
            let candidate = JavaJvmHostTarget {
                target: resolved_target,
                glibc_version: entry.copied_glibc_version(),
            };
            assert(candidate@ == requested[i as int]);
            proof {
                crate::dedup::lemma_dedup_step(requested, i as int);
            }
            let ghost before = resolved@;
            if !JavaJvmHostTarget::holds(&resolved, &candidate) {
                resolved.push(candidate);
                assert(resolved@.map_values(|e: JavaJvmHostTarget| e@) =~= before.map_values(
                    |e: JavaJvmHostTarget| e@,
                ).push(candidate@));
            }
            i += 1;
        }
        assert(requested.take(targets@.len() as int) =~= requested);
        assert(requested =~= targets@.map_values(|e: JavaJvmHostTarget| e@).map_values(
            |e: JvmEntry| jvm_entry_resolved(e, current_host),
        ));
        Ok(resolved)
    }
}

/// The JVM host entries to build for the configured `targets`; see
/// `JavaJvmHostTarget::resolve_requested`.
pub fn resolve_java_host_targets(targets: &[JavaJvmHostTarget], os: &str, arch: &str) -> (r:
    Result<Vec<JavaJvmHostTarget>, String>)
    ensures
        match r {
            Ok(resolved) => {
                &&& java_current(os@, arch@) is Some
                &&& resolved@.map_values(|e: JavaJvmHostTarget| e@) == resolved_jvm_entries(
                    targets@.map_values(|e: JavaJvmHostTarget| e@),
                    java_current(os@, arch@).unwrap(),
                )
            },
            Err(message) => {
                &&& java_current(os@, arch@) is None
                &&& message@ == jvm_unsupported_host_message()
            },
        },
{
    JavaJvmHostTarget::resolve_requested(targets, os, arch)
}

/// A name without a dot followed by `.` and a glibc version splits back into the two.
pub proof fn lemma_glibc_split_of_joined(base: Seq<char>, version: Seq<char>)
    requires
        !base.contains('.'),
        is_glibc_version(version),
    ensures
        glibc_split(base + "."@ + version) == Some((base, version)),
{
    reveal_strlit(".");
    let s = base + "."@ + version;
    let d = base.len() as int;
    assert(s[d] == '.');
    assert forall|j: int| 0 <= j < d implies s[j] != '.' by {
        assert(s[j] == base[j]);
    }
    assert(is_first_dot(s, d));
    assert forall|e: int| is_first_dot(s, e) implies e == d by {
        if e < d {
            assert(s[e] == base[e]);
        }
    }
    assert(s.subrange(0, d) =~= base);
    assert(s.subrange(d + 1, s.len() as int) =~= version);
}

/// A name without a dot has no glibc version to split off.
pub proof fn lemma_glibc_split_without_dot(s: Seq<char>)
    requires
        !s.contains('.'),
    ensures
        glibc_split(s) is None,
{
    assert forall|d: int| !is_first_dot(s, d) by {
        if 0 <= d < s.len() {
            assert(s[d] != '.');
        }
    }
}

/// An entry that a configuration string can describe: a glibc version only on a Linux
/// target, and one made of groups of digits joined by single dots.
pub open spec fn is_valid_jvm_entry(e: JvmEntry) -> bool {
    match e.1 {
        Some(v) => (e.0 is LinuxX86_64 || e.0 is LinuxAarch64) && is_glibc_version(v),
        None => true,
    }
}

/// Parsing the configuration string of a valid entry gives the entry back:
/// `parse(&e.canonical_name()) == Ok(e)`, so an entry survives being written to a
/// configuration file and read again.
pub proof fn lemma_jvm_entry_roundtrip(e: JvmEntry)
    requires
        is_valid_jvm_entry(e),
    ensures
        jvm_entry_parsed(jvm_entry_name(e)) == Ok::<JvmEntry, Seq<char>>(e),
{
    let name = e.0.spec_canonical_name();
    lemma_host_target_names_have_no_dot(e.0);
    lemma_host_target_name_roundtrip(e.0);
    match e.1 {
        Some(v) => {
            lemma_glibc_split_of_joined(name, v);
        },
        None => {
            lemma_glibc_split_without_dot(name);
        },
    }
}

/// Whatever a configuration string parses to is a valid entry, so its name parses back to
/// it: `parse` after `canonical_name` after `parse` is `parse`.
pub proof fn lemma_parsed_entries_are_valid(s: Seq<char>)
    ensures
        jvm_entry_parsed(s) matches Ok(e) ==> is_valid_jvm_entry(e) && jvm_entry_parsed(
            jvm_entry_name(e),
        ) == Ok::<JvmEntry, Seq<char>>(e),
{
    if let Ok(e) = jvm_entry_parsed(s) {
        if let Some((base, glibc)) = glibc_split(s) {
            let d = choose|d: int| is_first_dot(s, d);
            assert(glibc == s.subrange(d + 1, s.len() as int));
        }
        lemma_jvm_entry_roundtrip(e);
    }
}

/// Resolving entries against a supported host leaves no duplicate entry and no `Current`,
/// keeps every requested entry (with `Current` standing for the host) and adds none, and a
/// second resolution changes nothing.
pub proof fn lemma_resolved_jvm_entries(entries: Seq<JvmEntry>, current_host: JavaHostTarget)
    requires
        !(current_host is Current),
    ensures
        no_duplicates(resolved_jvm_entries(entries, current_host)),
        forall|i: int|
            0 <= i < resolved_jvm_entries(entries, current_host).len() ==> !(
            #[trigger] resolved_jvm_entries(entries, current_host)[i].0 is Current),
        forall|x: JvmEntry|
            resolved_jvm_entries(entries, current_host).contains(x) <==> exists|i: int|
                0 <= i < entries.len() && #[trigger] jvm_entry_resolved(entries[i], current_host)
                    == x,
        resolved_jvm_entries(resolved_jvm_entries(entries, current_host), current_host)
            == resolved_jvm_entries(entries, current_host),
{
    lemma_dedup_of_images(
        entries,
        |e: JvmEntry| jvm_entry_resolved(e, current_host),
        |e: JvmEntry| jvm_entry_resolved(e, current_host),
    );
    assert forall|i: int| 0 <= i < resolved_jvm_entries(entries, current_host).len() implies !(
        #[trigger] resolved_jvm_entries(entries, current_host)[i].0 is Current) by {
        assert(resolved_jvm_entries(entries, current_host).contains(
            resolved_jvm_entries(entries, current_host)[i],
        ));
    }
}

/// The resolved entries are exactly the requested ones, each with the glibc version it was
/// requested with: an entry is built on the host `current_host` when it is asked for as it
/// is, or when its host target is `current_host` and `Current` is asked for with the same
/// glibc version (or the same absence of one). An explicitly named host target is never
/// replaced by the current host, no glibc version is dropped or added, and `Current` itself
/// is never built.
pub proof fn lemma_resolution_builds_what_is_requested(
    entries: Seq<JvmEntry>,
    current_host: JavaHostTarget,
    x: JvmEntry,
)
    requires
        !(current_host is Current),
    ensures
        resolved_jvm_entries(entries, current_host).contains(x) <==> {
            ||| !(x.0 is Current) && entries.contains(x)
            ||| x.0 == current_host && entries.contains((JavaHostTarget::Current, x.1))
        },
{
    lemma_resolved_jvm_entries(entries, current_host);
    if !(x.0 is Current) && entries.contains(x) {
        let i = choose|i: int| 0 <= i < entries.len() && entries[i] == x;
        assert(jvm_entry_resolved(entries[i], current_host) == x);
    }
    if x.0 == current_host && entries.contains((JavaHostTarget::Current, x.1)) {
        let i = choose|i: int|
            0 <= i < entries.len() && entries[i] == (JavaHostTarget::Current, x.1);
        assert(jvm_entry_resolved(entries[i], current_host) == x);
    }
    if resolved_jvm_entries(entries, current_host).contains(x) {
        let i = choose|i: int|
            0 <= i < entries.len() && #[trigger] jvm_entry_resolved(entries[i], current_host)
                == x;
        assert(entries.contains(entries[i]));
    }
}

} // verus!
