//! Keeping the first occurrence of each value of a sequence.

use vstd::prelude::*;

verus! {

/// The values of `s` in the order of their first occurrence, each kept once.
pub open spec fn dedup<A>(s: Seq<A>) -> Seq<A>
    decreases s.len(),
{
    if s.len() == 0 {
        Seq::empty()
    } else {
        let kept = dedup(s.drop_last());
        if kept.contains(s.last()) {
            kept
        } else {
            kept.push(s.last())
        }
    }
}

/// No value occurs twice in `s`.
pub open spec fn no_duplicates<A>(s: Seq<A>) -> bool {
    forall|i: int, j: int| 0 <= i < s.len() && 0 <= j < s.len() && i != j ==> s[i] != s[j]
}

/// Keeping first occurrences loses no value and adds none.
pub proof fn lemma_dedup_same_values<A>(s: Seq<A>, x: A)
    ensures
        dedup(s).contains(x) <==> s.contains(x),
    decreases s.len(),
{
    if s.len() > 0 {
        let init = s.drop_last();
        lemma_dedup_same_values(init, x);
        lemma_dedup_same_values(init, s.last());
        if s.contains(x) && x != s.last() {
            let i = choose|i: int| 0 <= i < s.len() && s[i] == x;
            assert(init[i] == x);
        }
        if init.contains(x) {
            let i = choose|i: int| 0 <= i < init.len() && init[i] == x;
            assert(s[i] == x);
        }
        if !dedup(init).contains(s.last()) {
            assert(dedup(s) == dedup(init).push(s.last()));
            if dedup(s).contains(x) && x != s.last() {
                let i = choose|i: int| 0 <= i < dedup(s).len() && dedup(s)[i] == x;
                assert(dedup(init)[i] == x);
            }
            if dedup(init).contains(x) {
                let i = choose|i: int| 0 <= i < dedup(init).len() && dedup(init)[i] == x;
                assert(dedup(s)[i] == x);
            }
            assert(dedup(s)[dedup(s).len() - 1] == s.last());
        }
        assert(s[s.len() - 1] == s.last());
    }
}

/// Keeping first occurrences leaves no value twice.
pub proof fn lemma_dedup_no_duplicates<A>(s: Seq<A>)
    ensures
        no_duplicates(dedup(s)),
    decreases s.len(),
{
    if s.len() > 0 {
        let init = s.drop_last();
        lemma_dedup_no_duplicates(init);
        let kept = dedup(init);
        if !kept.contains(s.last()) {
            assert forall|i: int, j: int|
                0 <= i < kept.len() + 1 && 0 <= j < kept.len() + 1 && i != j implies kept.push(
                s.last(),
            )[i] != kept.push(s.last())[j] by {
                if i == kept.len() {
                    assert(kept.push(s.last())[j] == kept[j]);
                } else if j == kept.len() {
                    assert(kept.push(s.last())[i] == kept[i]);
                }
            }
        }
    }
}

/// A sequence in which no value occurs twice is left as it is.
pub proof fn lemma_dedup_of_distinct<A>(s: Seq<A>)
    requires
        no_duplicates(s),
    ensures
        dedup(s) == s,
    decreases s.len(),
{
    if s.len() > 0 {
        let init = s.drop_last();
        assert(no_duplicates(init)) by {
            assert forall|i: int, j: int|
                0 <= i < init.len() && 0 <= j < init.len() && i != j implies init[i] != init[j] by {
                assert(init[i] == s[i] && init[j] == s[j]);
            }
        }
        lemma_dedup_of_distinct(init);
        lemma_dedup_same_values(init, s.last());
        if init.contains(s.last()) {
            let i = choose|i: int| 0 <= i < init.len() && init[i] == s.last();
            assert(s[i] == s[s.len() - 1]);
        }
        assert(init.push(s.last()) =~= s);
    }
}

/// Keeping first occurrences of a longer prefix: the step that a loop over `s` takes.
pub proof fn lemma_dedup_step<A>(s: Seq<A>, i: int)
    requires
        0 <= i < s.len(),
    ensures
        dedup(s.take(i + 1)) == (if dedup(s.take(i)).contains(s[i]) {
            dedup(s.take(i))
        } else {
            dedup(s.take(i)).push(s[i])
        }),
{
    assert(s.take(i + 1).drop_last() =~= s.take(i));
    assert(s.take(i + 1).last() == s[i]);
}

/// Keeping the first occurrences of the images of `s` under `f` leaves no value twice and
/// keeps exactly the images; and where `g` leaves every image as it is, passing the result
/// through `g` and keeping first occurrences again changes nothing.
pub proof fn lemma_dedup_of_images<A, B>(s: Seq<A>, f: spec_fn(A) -> B, g: spec_fn(B) -> B)
    requires
        forall|i: int| 0 <= i < s.len() ==> g(f(#[trigger] s[i])) == f(s[i]),
    ensures
        no_duplicates(dedup(s.map_values(f))),
        forall|x: B|
            dedup(s.map_values(f)).contains(x) <==> exists|i: int|
                0 <= i < s.len() && f(#[trigger] s[i]) == x,
        dedup(dedup(s.map_values(f)).map_values(g)) == dedup(s.map_values(f)),
{
    let images = s.map_values(f);
    let r = dedup(images);
    lemma_dedup_no_duplicates(images);
    assert forall|x: B| r.contains(x) <==> exists|i: int| 0 <= i < s.len() && f(#[trigger] s[i])
        == x by {
        lemma_dedup_same_values(images, x);
        if images.contains(x) {
            let i = choose|i: int| 0 <= i < images.len() && images[i] == x;
            assert(f(s[i]) == x);
        }
        if exists|i: int| 0 <= i < s.len() && f(#[trigger] s[i]) == x {
            let i = choose|i: int| 0 <= i < s.len() && f(#[trigger] s[i]) == x;
            assert(images[i] == x);
        }
    }
    assert forall|k: int| 0 <= k < r.len() implies g(#[trigger] r[k]) == r[k] by {
        assert(r.contains(r[k]));
        let i = choose|i: int| 0 <= i < s.len() && f(#[trigger] s[i]) == r[k];
    }
    assert(r.map_values(g) =~= r);
    lemma_dedup_of_distinct(r);
}

/// Keeping first occurrences keeps their order: where `x` comes before `y` in the result,
/// every occurrence of `y` in `s` comes after some occurrence of `x`.
pub proof fn lemma_dedup_keeps_first_occurrence_order<A>(s: Seq<A>, i: int, j: int, k: int)
    requires
        0 <= i < j < dedup(s).len(),
        0 <= k < s.len(),
        s[k] == dedup(s)[j],
    ensures
        exists|m: int| 0 <= m < k && s[m] == dedup(s)[i],
    decreases s.len(),
{
    let init = s.drop_last();
    let kept = dedup(init);
    let r = dedup(s);
    lemma_dedup_same_values(init, s.last());
    if kept.contains(s.last()) {
        assert(r == kept);
        if k < s.len() - 1 {
            assert(init[k] == s[k]);
            lemma_dedup_keeps_first_occurrence_order(init, i, j, k);
            let m = choose|m: int| 0 <= m < k && init[m] == kept[i];
            assert(s[m] == r[i]);
        } else {
            lemma_dedup_same_values(init, r[j]);
            assert(kept.contains(kept[j]));
            let k2 = choose|k2: int| 0 <= k2 < init.len() && init[k2] == r[j];
            lemma_dedup_keeps_first_occurrence_order(init, i, j, k2);
            let m = choose|m: int| 0 <= m < k2 && init[m] == kept[i];
            assert(s[m] == r[i]);
        }
    } else {
        assert(r == kept.push(s.last()));
        if j < kept.len() {
            assert(r[j] == kept[j]);
            assert(r[i] == kept[i]);
            assert(kept.contains(kept[j]));
            if k == s.len() - 1 {
                assert(false);
            }
            assert(init[k] == s[k]);
            lemma_dedup_keeps_first_occurrence_order(init, i, j, k);
            let m = choose|m: int| 0 <= m < k && init[m] == kept[i];
            assert(s[m] == r[i]);
        } else {
            assert(r[j] == s.last());
            assert(r[i] == kept[i]);
            if k < s.len() - 1 {
                assert(init[k] == s.last());
                assert(init.contains(s.last()));
                assert(false);
            }
            assert(kept.contains(kept[i]));
            lemma_dedup_same_values(init, kept[i]);
            let m = choose|m: int| 0 <= m < init.len() && init[m] == kept[i];
            assert(s[m] == r[i]);
        }
    }
}

} // verus!
