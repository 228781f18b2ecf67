//! Libraries that a build has left on disk.

use vstd::prelude::*;
use crate::paths::path_exists;
use crate::rust_target::{is_library_path, RustTarget};
use std::path::{Path, PathBuf};

verus! {

/// The entries of `s` at the positions where `keep` is true, in order.
pub open spec fn kept<A>(s: Seq<A>, keep: Seq<bool>) -> Seq<A>
    decreases s.len(),
{
    if s.len() == 0 {
        Seq::empty()
    } else {
        let rest = kept(s.drop_last(), keep.drop_last());
        if keep.last() {
            rest.push(s.last())
        } else {
            rest
        }
    }
}

/// A library built for a target, and where it lies.
#[derive(Debug, Clone)]
pub struct BuiltLibrary {
    pub target: RustTarget,
    pub path: PathBuf,
}

impl BuiltLibrary {
    /// The candidates for which `found` is true, in order: the libraries that a search
    /// reports once it knows, for each candidate, whether its file exists.
    pub fn select_found(candidates: Vec<BuiltLibrary>, found: &[bool]) -> (r: Vec<BuiltLibrary>)
        requires
            found@.len() == candidates@.len(),
        ensures
            r@ == kept(candidates@, found@),
    {
        let ghost all = candidates@;
        let mut remaining = candidates;
        let mut r: Vec<BuiltLibrary> = Vec::new();
        let mut i: usize = 0;
        while i < found.len()
            invariant
                i <= found@.len(),
                found@.len() == all.len(),
                remaining@ == all.skip(i as int),
                r@ == kept(all.take(i as int), found@.take(i as int)),
            decreases found@.len() - i,
        {
            let candidate = remaining.remove(0);
            assert(candidate == all[i as int]);
            proof {
                assert(all.take(i + 1).drop_last() =~= all.take(i as int));
                assert(found@.take(i + 1).drop_last() =~= found@.take(i as int));
                assert(all.skip(i as int).drop_first() =~= all.skip(i + 1));
            }
            if found[i] {
                r.push(candidate);
            }
            i += 1;
        }
        assert(all.take(found@.len() as int) =~= all);
        assert(found@.take(found@.len() as int) =~= found@);
        r
    }

    /// The libraries of `targets` that a build of `lib_name` in the profile directory
    /// `profile_directory_name` under `target_dir` has produced: for each target, in order,
    /// the library at its `RustTarget::library_path_for_profile`, where a file or directory
    /// exists there. Which of them exist depends on the disk; whatever it holds, the result
    /// keeps some of the targets in order, and each entry carries the library path of its own
    /// target.
    pub fn discover_for_targets(
        target_dir: &Path,
        lib_name: &str,
        profile_directory_name: &str,
        targets: &[RustTarget],
    ) -> (r: Vec<BuiltLibrary>)
        ensures
            exists|found: Seq<bool>|
                #![trigger kept(targets@, found)]
                found.len() == targets@.len() && r@.map_values(|b: BuiltLibrary| b.target) == kept(
                    targets@,
                    found,
                ),
            forall|k: int|
                0 <= k < r@.len() ==> is_library_path(
                    #[trigger] r@[k].path,
                    target_dir,
                    r@[k].target,
                    lib_name@,
                    profile_directory_name@,
                ),
    {
        let mut candidates: Vec<BuiltLibrary> = Vec::new();
        let mut found: Vec<bool> = Vec::new();
        let mut i: usize = 0;
        while i < targets.len()
            invariant
                i <= targets@.len(),
                candidates@.len() == i,
                found@.len() == i,
                forall|j: int|
                    0 <= j < i ==> (#[trigger] candidates@[j]).target == targets@[j]
                        && is_library_path(
                        candidates@[j].path,
                        target_dir,
                        targets@[j],
                        lib_name@,
                        profile_directory_name@,
                    ),
            decreases targets@.len() - i,
        {
            let target = targets[i];
            let path = target.library_path_for_profile(target_dir, lib_name, profile_directory_name);
            let exists = path_exists(&path);
            candidates.push(BuiltLibrary { target, path });
            found.push(exists);
            i += 1;
        }
        let ghost all = candidates@;
        assert(all.map_values(|b: BuiltLibrary| b.target) =~= targets@);
        let r = BuiltLibrary::select_found(candidates, found.as_slice());
        proof {
            lemma_kept_map_target(all, found@);
            lemma_kept_members(all, found@);
            assert forall|k: int| 0 <= k < r@.len() implies is_library_path(
                #[trigger] r@[k].path,
                target_dir,
                r@[k].target,
                lib_name@,
                profile_directory_name@,
            ) by {
                assert(r@.contains(r@[k]));
                assert(kept(all, found@).contains(r@[k]));
                assert(all.contains(r@[k]));
                let j = choose|j: int| 0 <= j < all.len() && all[j] == r@[k];
            }
        }
        r
    }
}

/// Keeping entries commutes with taking their targets.
proof fn lemma_kept_map_target(s: Seq<BuiltLibrary>, keep: Seq<bool>)
    requires
        keep.len() == s.len(),
    ensures
        kept(s, keep).map_values(|b: BuiltLibrary| b.target) == kept(
            s.map_values(|b: BuiltLibrary| b.target),
            keep,
        ),
    decreases s.len(),
{
    if s.len() > 0 {
        lemma_kept_map_target(s.drop_last(), keep.drop_last());
        assert(s.drop_last().map_values(|b: BuiltLibrary| b.target) =~= s.map_values(
            |b: BuiltLibrary| b.target,
        ).drop_last());
        assert(kept(s, keep).map_values(|b: BuiltLibrary| b.target) =~= kept(
            s.map_values(|b: BuiltLibrary| b.target),
            keep,
        ));
    }
}

/// Every kept entry is an entry of the sequence.
proof fn lemma_kept_members<A>(s: Seq<A>, keep: Seq<bool>)
    requires
        keep.len() == s.len(),
    ensures
        forall|x: A| kept(s, keep).contains(x) ==> s.contains(x),
    decreases s.len(),
{
    if s.len() > 0 {
        lemma_kept_members(s.drop_last(), keep.drop_last());
        assert forall|x: A| kept(s, keep).contains(x) implies s.contains(x) by {
            if kept(s.drop_last(), keep.drop_last()).contains(x) {
                assert(s.drop_last().contains(x));
                let j = choose|j: int|
                    0 <= j < s.drop_last().len() && s.drop_last()[j] == x;
                assert(s[j] == x);
            } else {
                let k = choose|k: int| 0 <= k < kept(s, keep).len() && kept(s, keep)[k] == x;
                assert(x == s.last());
                assert(s[s.len() - 1] == x);
            }
        }
    }
}

/// Selecting by flags keeps exactly the flagged entries: `x` is kept when and only when it
/// stands at a position whose flag is true.
pub proof fn lemma_kept_exactly_the_flagged<A>(s: Seq<A>, keep: Seq<bool>, x: A)
    requires
        keep.len() == s.len(),
    ensures
        kept(s, keep).contains(x) <==> exists|i: int| 0 <= i < s.len() && keep[i] && s[i] == x,
    decreases s.len(),
{
    if s.len() > 0 {
        let init = s.drop_last();
        let flags = keep.drop_last();
        lemma_kept_exactly_the_flagged(init, flags, x);
        let n = s.len() - 1;
        if exists|i: int| 0 <= i < s.len() && keep[i] && s[i] == x {
            let i = choose|i: int| 0 <= i < s.len() && keep[i] && s[i] == x;
            if i < n {
                assert(flags[i] && init[i] == x);
                let k = choose|k: int|
                    0 <= k < kept(init, flags).len() && kept(init, flags)[k] == x;
                if keep.last() {
                    assert(kept(s, keep)[k] == x);
                } else {
                    assert(kept(s, keep)[k] == x);
                }
            } else {
                assert(keep.last() && s.last() == x);
                assert(kept(s, keep)[kept(s, keep).len() - 1] == x);
            }
        }
        if kept(s, keep).contains(x) {
            let k = choose|k: int| 0 <= k < kept(s, keep).len() && kept(s, keep)[k] == x;
            if k < kept(init, flags).len() {
                assert(kept(init, flags)[k] == x);
                assert(kept(init, flags).contains(x));
                let i = choose|i: int| 0 <= i < init.len() && flags[i] && init[i] == x;
                assert(keep[i] && s[i] == x);
            } else {
                assert(keep[n] && s[n] == x);
            }
        }
    }
}

} // verus!
