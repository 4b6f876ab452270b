//! The order of file paths.

use crate::platform::Platform;
use crate::text::chars_of;
use vstd::prelude::*;
use vstd::seq_lib::*;

verus! {

/// Rank of a character in the order of paths: separators come before all other
/// characters, so that paths are ordered component by component.
pub open spec fn path_rank(p: Platform, c: char) -> int {
    if p.is_separator(c) {
        0
    } else {
        c as int + 1
    }
}

/// True if path `a` does not come after path `b`: components are compared in
/// turn, and a path comes before its extensions.
pub open spec fn path_le(p: Platform, a: Seq<char>, b: Seq<char>) -> bool
    decreases a.len(),
{
    if a.len() == 0 {
        true
    } else if b.len() == 0 {
        false
    } else if path_rank(p, a[0]) == path_rank(p, b[0]) {
        path_le(p, a.skip(1), b.skip(1))
    } else {
        path_rank(p, a[0]) < path_rank(p, b[0])
    }
}

/// True if no path comes after a later one.
pub open spec fn is_path_sorted(p: Platform, paths: Seq<String>) -> bool {
    forall|i: int, j: int|
        0 <= i < j < paths.len() ==> path_le(p, (#[trigger] paths[i])@, (#[trigger] paths[j])@)
}

/// Of two paths, one comes first.
pub proof fn path_order_is_total(p: Platform, a: Seq<char>, b: Seq<char>)
    ensures
        path_le(p, a, b) || path_le(p, b, a),
    decreases a.len(),
{
    if a.len() > 0 && b.len() > 0 {
        path_order_is_total(p, a.skip(1), b.skip(1));
    }
}

/// The order of paths is transitive.
pub proof fn path_order_is_transitive(p: Platform, a: Seq<char>, b: Seq<char>, c: Seq<char>)
    requires
        path_le(p, a, b),
        path_le(p, b, c),
    ensures
        path_le(p, a, c),
    decreases a.len(),
{
    if a.len() > 0 && b.len() > 0 && c.len() > 0 && path_rank(p, a[0]) == path_rank(p, b[0])
        && path_rank(p, b[0]) == path_rank(p, c[0]) {
        path_order_is_transitive(p, a.skip(1), b.skip(1), c.skip(1));
    }
}

fn rank_of(p: Platform, c: char) -> (r: u32)
    ensures
        r == path_rank(p, c),
{
    if p.separates(c) {
        0
    } else {
        c as u32 + 1
    }
}

/// True if path `a` does not come after path `b`.
pub fn not_after(p: Platform, a: &str, b: &str) -> (r: bool)
    ensures
        r == path_le(p, a@, b@),
{
    let x: Vec<char> = chars_of(a);
    let y: Vec<char> = chars_of(b);
    let mut i: usize = 0;
    assert(x@.skip(0) == x@ && y@.skip(0) == y@);
    while i < x.len()
        invariant
            x@ == a@,
            y@ == b@,
            i <= x@.len(),
            i <= y@.len(),
            path_le(p, a@, b@) == path_le(p, x@.skip(i as int), y@.skip(i as int)),
        decreases x@.len() - i,
    {
        if i == y.len() {
            return false;
        }
        let s: u32 = rank_of(p, x[i]);
        let t: u32 = rank_of(p, y[i]);
        proof {
            assert(x@.skip(i as int).skip(1) == x@.skip(i + 1));
            assert(y@.skip(i as int).skip(1) == y@.skip(i + 1));
        }
        if s != t {
            return s < t;
        }
        i = i + 1;
    }
    true
}

/// The paths in order.
pub fn sorted_paths(p: Platform, paths: &Vec<String>) -> (r: Vec<String>)
    ensures
        is_path_sorted(p, r@),
        r@.to_multiset() == paths@.to_multiset(),
{
    broadcast use group_to_multiset_ensures;

    let mut r: Vec<String> = Vec::new();
    let mut i: usize = 0;
    assert(paths@.take(0) == Seq::<String>::empty());
    while i < paths.len()
        invariant
            i <= paths@.len(),
            is_path_sorted(p, r@),
            r@.to_multiset() == paths@.take(i as int).to_multiset(),
        decreases paths@.len() - i,
    {
        let path: String = paths[i].clone();
        let mut k: usize = r.len();
        while k > 0 && !not_after(p, r[k - 1].as_str(), path.as_str())
            invariant
                k <= r@.len(),
                is_path_sorted(p, r@),
                forall|j: int| k <= j < r@.len() ==> path_le(p, path@, (#[trigger] r@[j])@),
            decreases k,
        {
            proof {
                path_order_is_total(p, r@[k - 1]@, path@);
            }
            k = k - 1;
        }
        let ghost before = r@;
        let ghost added = path;
        proof {
            assert forall|j: int| 0 <= j < k implies path_le(p, (#[trigger] before[j])@, path@) by {
                if j < k - 1 {
                    path_order_is_transitive(p, before[j]@, before[k - 1]@, path@);
                }
            }
            assert(paths@.take(i + 1) == paths@.take(i as int).push(path));
        }
        r.insert(k, path);
        proof {
            to_multiset_insert(before, k as int, added);
            to_multiset_build(paths@.take(i as int), added);
            assert forall|a: int, b: int| 0 <= a < b < r@.len() implies path_le(
                p,
                (#[trigger] r@[a])@,
                (#[trigger] r@[b])@,
            ) by {
                let x = if a < k { a } else { a - 1 };
                let y = if b < k { b } else { b - 1 };
                if a != k && b != k {
                    assert(r@[a] == before[x] && r@[b] == before[y]);
                }
            }
        }
        i = i + 1;
    }
    assert(paths@.take(paths@.len() as int) == paths@);
    r
}

/// What two paths begin with alike does not matter to their order; a path comes
/// before its extensions, and a separator before any other character.
pub proof fn paths_are_ordered_by_component(
    p: Platform,
    common: Seq<char>,
    a: Seq<char>,
    b: Seq<char>,
)
    ensures
        path_le(p, common + a, common + b) == path_le(p, a, b),
        path_le(p, common, common + a),
        a.len() > 0 && b.len() > 0 && p.is_separator(a[0]) && !p.is_separator(b[0]) ==> path_le(
            p,
            common + a,
            common + b,
        ) && !path_le(p, common + b, common + a),
        a.len() > 0 && b.len() > 0 && !p.is_separator(a[0]) && !p.is_separator(b[0]) && a[0] < b[0]
            ==> path_le(p, common + a, common + b) && !path_le(p, common + b, common + a),
    decreases common.len(),
{
    if common.len() == 0 {
        assert(common + a == a);
        assert(common + b == b);
        if a.len() > 0 && b.len() > 0 {
            lemma_rank(p, a[0]);
            lemma_rank(p, b[0]);
        }
    } else {
        let rest = common.skip(1);
        assert((common + a).skip(1) =~= rest + a);
        assert((common + b).skip(1) =~= rest + b);
        paths_are_ordered_by_component(p, rest, a, b);
    }
}

proof fn lemma_rank(p: Platform, c: char)
    ensures
        path_rank(p, c) >= 0,
        path_rank(p, c) == 0 <==> p.is_separator(c),
{
}

/// In sorted paths no path comes after a later one.
pub proof fn sorted_paths_are_in_order(p: Platform, paths: Seq<String>, i: int, j: int)
    requires
        is_path_sorted(p, paths),
        0 <= i < j < paths.len(),
    ensures
        path_le(p, paths[i]@, paths[j]@),
{
}

} // verus!
