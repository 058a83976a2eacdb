//! The order in which the report lists volumes: byte by byte over the UTF-8
//! text of their root paths.

use crate::disk::DriveInfo;
use vstd::prelude::*;
use vstd::set_lib::{lemma_int_range, lemma_set_subset_finite, lemma_subset_equality, set_int_range};
use vstd::string::*;
use vstd::utf8::encode_utf8;

verus! {

/// Whether `a` comes before `b` or equals it, comparing byte by byte: the
/// first byte in which the two differ decides, and a sequence comes before
/// every longer one that starts with it.
pub open spec fn bytes_precede(a: Seq<u8>, b: Seq<u8>) -> bool
    decreases a.len(),
{
    if a.len() == 0 {
        true
    } else if b.len() == 0 {
        false
    } else if a[0] != b[0] {
        a[0] < b[0]
    } else {
        bytes_precede(a.drop_first(), b.drop_first())
    }
}

/// The key by which a volume is sorted: the bytes of its root path.
pub open spec fn path_key(drive: DriveInfo) -> Seq<u8> {
    encode_utf8(drive.root_path@)
}

/// Every byte sequence precedes itself.
pub proof fn lemma_precede_reflexive(a: Seq<u8>)
    ensures
        bytes_precede(a, a),
    decreases a.len(),
{
    if a.len() > 0 {
        lemma_precede_reflexive(a.drop_first());
    }
}

/// Of two byte sequences one precedes the other.
pub proof fn lemma_precede_total(a: Seq<u8>, b: Seq<u8>)
    ensures
        bytes_precede(a, b) || bytes_precede(b, a),
    decreases a.len(),
{
    if a.len() > 0 && b.len() > 0 && a[0] == b[0] {
        lemma_precede_total(a.drop_first(), b.drop_first());
    }
}

/// Two byte sequences that precede each other are the same sequence.
pub proof fn lemma_precede_antisymmetric(a: Seq<u8>, b: Seq<u8>)
    requires
        bytes_precede(a, b),
        bytes_precede(b, a),
    ensures
        a == b,
    decreases a.len(),
{
    if a.len() == 0 {
        assert(b.len() == 0);
        assert(a =~= b);
    } else {
        lemma_precede_antisymmetric(a.drop_first(), b.drop_first());
        assert(a =~= seq![a[0]] + a.drop_first());
        assert(b =~= seq![b[0]] + b.drop_first());
    }
}

/// If `a` precedes `b` and `b` precedes `c`, then `a` precedes `c`.
pub proof fn lemma_precede_transitive(a: Seq<u8>, b: Seq<u8>, c: Seq<u8>)
    requires
        bytes_precede(a, b),
        bytes_precede(b, c),
    ensures
        bytes_precede(a, c),
    decreases a.len(),
{
    if a.len() > 0 && a[0] == b[0] && b[0] == c[0] {
        lemma_precede_transitive(a.drop_first(), b.drop_first(), c.drop_first());
    }
}

/// Whether the bytes of `a` precede those of `b`.
pub fn precedes(a: &str, b: &str) -> (before: bool)
    ensures
        before == bytes_precede(encode_utf8(a@), encode_utf8(b@)),
{
    let x = a.as_bytes();
    let y = b.as_bytes();
    let mut i: usize = 0;
    assert(x@.subrange(0, x@.len() as int) =~= x@);
    assert(y@.subrange(0, y@.len() as int) =~= y@);
    while i < x.len() && i < y.len()
        invariant
            i <= x.len(),
            i <= y.len(),
            x@ == encode_utf8(a@),
            y@ == encode_utf8(b@),
            bytes_precede(x@, y@) == bytes_precede(
                x@.subrange(i as int, x@.len() as int),
                y@.subrange(i as int, y@.len() as int),
            ),
        decreases x.len() - i,
    {
        if x[i] != y[i] {
            return x[i] < y[i];
        }
        assert(x@.subrange(i as int, x@.len() as int).drop_first() =~= x@.subrange(
            i + 1,
            x@.len() as int,
        ));
        assert(y@.subrange(i as int, y@.len() as int).drop_first() =~= y@.subrange(
            i + 1,
            y@.len() as int,
        ));
        i += 1;
    }
    x.len() <= y.len()
}

/// What it means for `after` to be `before` sorted by root path, with
/// volumes of the same root path left in the order they had. `origin[i]` is
/// the place in `before` of the volume that stands at place `i` of `after`.
pub open spec fn sorted_from(
    before: Seq<DriveInfo>,
    after: Seq<DriveInfo>,
    origin: Seq<int>,
) -> bool {
    &&& after.len() == before.len()
    &&& origin.len() == before.len()
    &&& forall|i: int|
        0 <= i < after.len() ==> 0 <= #[trigger] origin[i] < before.len() && after[i]
            == before[origin[i]]
    &&& forall|i: int, j: int|
        0 <= i < j < after.len() ==> #[trigger] origin[i] != #[trigger] origin[j]
    &&& forall|i: int, j: int|
        0 <= i < j < after.len() ==> bytes_precede(
            path_key(#[trigger] after[i]),
            path_key(#[trigger] after[j]),
        )
    &&& forall|i: int, j: int|
        0 <= i < j < after.len() && path_key(after[i]) == path_key(after[j])
            ==> #[trigger] origin[i] < #[trigger] origin[j]
}

/// Whether `after` holds the volumes of `before`, each as often as `before`
/// holds it, in the order of their root paths, and volumes of the same root
/// path in the order they had in `before`.
pub open spec fn is_stable_sort_of(before: Seq<DriveInfo>, after: Seq<DriveInfo>) -> bool {
    exists|origin: Seq<int>| sorted_from(before, after, origin)
}

/// A sequence of `n` different places below `n` holds every place below
/// `n`: the result is where it holds `place`.
pub proof fn lemma_origin_holds_every_place(origin: Seq<int>, place: int) -> (at: int)
    requires
        forall|i: int| 0 <= i < origin.len() ==> 0 <= #[trigger] origin[i] < origin.len(),
        forall|i: int, j: int|
            0 <= i < j < origin.len() ==> #[trigger] origin[i] != #[trigger] origin[j],
        0 <= place < origin.len(),
    ensures
        0 <= at < origin.len(),
        origin[at] == place,
{
    let n = origin.len() as int;
    let held = origin.to_set();
    let all = set_int_range(0, n);
    assert(origin.no_duplicates()) by {
        assert forall|i: int, j: int|
            0 <= i < origin.len() && 0 <= j < origin.len() && i != j implies origin[i]
            != origin[j] by {
            if i < j {
                assert(origin[i] != origin[j]);
            } else {
                assert(origin[j] != origin[i]);
            }
        }
    }
    origin.unique_seq_to_set();
    lemma_int_range(0, n);
    assert(held.subset_of(all)) by {
        assert forall|value: int| held.contains(value) implies all.contains(value) by {
            let i = choose|i: int| 0 <= i < origin.len() && origin[i] == value;
            assert(0 <= origin[i] < n);
        }
    }
    lemma_set_subset_finite(all, held);
    lemma_subset_equality(held, all);
    assert(all.contains(place));
    assert(origin.contains(place));
    choose|i: int| 0 <= i < origin.len() && origin[i] == place
}

/// Two ways of sorting the same volumes put the same volume at each place.
proof fn lemma_same_origin(
    before: Seq<DriveInfo>,
    first: Seq<DriveInfo>,
    first_origin: Seq<int>,
    second: Seq<DriveInfo>,
    second_origin: Seq<int>,
    at: int,
)
    requires
        sorted_from(before, first, first_origin),
        sorted_from(before, second, second_origin),
        0 <= at < before.len(),
    ensures
        first_origin[at] == second_origin[at],
    decreases at,
{
    assert forall|k: int| 0 <= k < at implies first_origin[k] == second_origin[k] by {
        lemma_same_origin(before, first, first_origin, second, second_origin, k);
    }
    let x = first_origin[at];
    let y = second_origin[at];
    if x != y {
        // Each of the two volumes stands somewhere in the other order, and
        // there it stands behind `at`.
        let j = lemma_origin_holds_every_place(second_origin, x);
        let m = lemma_origin_holds_every_place(first_origin, y);
        if j < at {
            assert(first_origin[j] == second_origin[j]);
            assert(first_origin[j] != first_origin[at]);
        }
        if m < at {
            assert(first_origin[m] == second_origin[m]);
            assert(second_origin[m] != second_origin[at]);
        }
        assert(at < j && at < m);
        assert(second[at] == before[y] && second[j] == before[x]);
        assert(first[at] == before[x] && first[m] == before[y]);
        assert(bytes_precede(path_key(second[at]), path_key(second[j])));
        assert(bytes_precede(path_key(first[at]), path_key(first[m])));
        lemma_precede_antisymmetric(path_key(before[x]), path_key(before[y]));
        assert(second_origin[at] < second_origin[j]);
        assert(first_origin[at] < first_origin[m]);
    }
}

/// Sorting has one result: two sequences that both are the volumes of
/// `before` in the order of their root paths, with volumes of the same
/// root path in the order they had, are the same sequence.
pub proof fn lemma_stable_sort_unique(
    before: Seq<DriveInfo>,
    first: Seq<DriveInfo>,
    second: Seq<DriveInfo>,
)
    requires
        is_stable_sort_of(before, first),
        is_stable_sort_of(before, second),
    ensures
        first == second,
{
    let first_origin = choose|origin: Seq<int>| sorted_from(before, first, origin);
    let second_origin = choose|origin: Seq<int>| sorted_from(before, second, origin);
    assert forall|i: int| 0 <= i < first.len() implies first[i] == second[i] by {
        lemma_same_origin(before, first, first_origin, second, second_origin, i);
        assert(first[i] == before[first_origin[i]]);
        assert(second[i] == before[second_origin[i]]);
    }
    assert(first =~= second);
}

/// What the sort keeps true of two places `a < b` that it has already put
/// in order.
spec fn in_order(drives: Seq<DriveInfo>, origin: Seq<int>, a: int, b: int) -> bool {
    &&& bytes_precede(path_key(drives[a]), path_key(drives[b]))
    &&& origin[a] != origin[b]
    &&& path_key(drives[a]) == path_key(drives[b]) ==> origin[a] < origin[b]
}

/// Taking the element at `i` out of a sequence and putting it back at an
/// earlier place `j` moves the elements between the two places up by one and
/// leaves the others where they were.
proof fn lemma_move_down<A>(v: Seq<A>, i: int, j: int)
    requires
        0 <= j <= i < v.len(),
    ensures
        v.remove(i).insert(j, v[i]).len() == v.len(),
        forall|t: int| 0 <= t < j ==> #[trigger] v.remove(i).insert(j, v[i])[t] == v[t],
        v.remove(i).insert(j, v[i])[j] == v[i],
        forall|t: int| j < t <= i ==> #[trigger] v.remove(i).insert(j, v[i])[t] == v[t - 1],
        forall|t: int| i < t < v.len() ==> #[trigger] v.remove(i).insert(j, v[i])[t] == v[t],
{
}

/// The place where the volume at `i` belongs among the sorted volumes before
/// it: behind every volume whose root path precedes its own.
fn insertion_point(drives: &Vec<DriveInfo>, i: usize) -> (j: usize)
    requires
        i < drives.len(),
    ensures
        j <= i,
        forall|t: int|
            j <= t < i ==> !bytes_precede(
                path_key(#[trigger] drives@[t]),
                path_key(drives@[i as int]),
            ),
        j > 0 ==> bytes_precede(path_key(drives@[j - 1]), path_key(drives@[i as int])),
{
    let mut j: usize = i;
    while j > 0 && !precedes(drives[j - 1].root_path.as_str(), drives[i].root_path.as_str())
        invariant
            j <= i < drives.len(),
            forall|t: int|
                j <= t < i ==> !bytes_precede(
                    path_key(#[trigger] drives@[t]),
                    path_key(drives@[i as int]),
                ),
        decreases j,
    {
        j -= 1;
    }
    j
}

/// Sorts the volumes by root path, byte by byte. Volumes of the same root
/// path stay in the order they had.
pub fn sort_by_root_path(drives: &mut Vec<DriveInfo>)
    ensures
        is_stable_sort_of(old(drives)@, final(drives)@),
{
    let ghost before = drives@;
    let ghost mut origin: Seq<int> = Seq::new(drives@.len(), |k: int| k);
    let mut i: usize = 0;
    while i < drives.len()
        invariant
            i <= drives.len(),
            drives@.len() == before.len(),
            origin.len() == before.len(),
            forall|k: int|
                0 <= k < before.len() ==> 0 <= #[trigger] origin[k] < before.len() && drives@[k]
                    == before[origin[k]],
            forall|k: int| 0 <= k < i ==> #[trigger] origin[k] < i,
            forall|k: int| i <= k < before.len() ==> #[trigger] origin[k] == k,
            forall|a: int, b: int| 0 <= a < b < i ==> #[trigger] in_order(drives@, origin, a, b),
        decreases drives.len() - i,
    {
        let j = insertion_point(drives, i);
        let ghost v = drives@;
        let ghost o = origin;
        let moved = drives.remove(i);
        drives.insert(j, moved);
        proof {
            origin = o.remove(i as int).insert(j as int, i as int);
            let w = drives@;
            assert(w == v.remove(i as int).insert(j as int, v[i as int]));
            assert(o[i as int] == i);
            lemma_move_down(v, i as int, j as int);
            lemma_move_down(o, i as int, j as int);
            assert forall|a: int, b: int| 0 <= a < b < i + 1 implies #[trigger] in_order(
                w,
                origin,
                a,
                b,
            ) by {
                let x = path_key(v[i as int]);
                if b < j {
                    assert(in_order(v, o, a, b));
                } else if b == j {
                    // `a` stands before the place of the moved volume.
                    if a < j - 1 {
                        assert(in_order(v, o, a, j - 1));
                        lemma_precede_transitive(path_key(v[a]), path_key(v[j - 1]), x);
                    }
                    assert(o[a] < i);
                } else if a < j {
                    assert(in_order(v, o, a, b - 1));
                } else if a == j {
                    // The moved volume stands before one that it has passed.
                    assert(!bytes_precede(path_key(v[b - 1]), x));
                    lemma_precede_total(path_key(v[b - 1]), x);
                    lemma_precede_reflexive(x);
                    assert(o[b - 1] < i);
                } else {
                    assert(in_order(v, o, a - 1, b - 1));
                }
            }
        }
        i += 1;
    }
    proof {
        assert forall|a: int, b: int| 0 <= a < b < drives@.len() implies #[trigger] origin[a]
            != #[trigger] origin[b] by {
            assert(in_order(drives@, origin, a, b));
        }
        assert forall|a: int, b: int| 0 <= a < b < drives@.len() implies bytes_precede(
            path_key(#[trigger] drives@[a]),
            path_key(#[trigger] drives@[b]),
        ) by {
            assert(in_order(drives@, origin, a, b));
        }
        assert forall|a: int, b: int|
            0 <= a < b < drives@.len() && path_key(drives@[a]) == path_key(
                drives@[b],
            ) implies #[trigger] origin[a] < #[trigger] origin[b] by {
            assert(in_order(drives@, origin, a, b));
        }
        assert(sorted_from(before, drives@, origin));
    }
}

} // verus!
