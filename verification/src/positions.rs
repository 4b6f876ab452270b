//! How far each log file has been read: a position for each path.

use vstd::hash_map::StringHashMap;
use vstd::prelude::*;
use vstd::string::*;

verus! {

/// True if a path is among the given ones.
pub open spec fn path_listed(paths: Seq<String>, path: Seq<char>) -> bool {
    exists|i: int| 0 <= i < paths.len() && (#[trigger] paths[i])@ == path
}

/// The positions of the given files only.
pub fn kept_positions(positions: &StringHashMap<u64>, paths: &Vec<String>) -> (r: StringHashMap<u64>)
    ensures
        r@ == positions@.filter_keys(|k: Seq<char>| path_listed(paths@, k)),
{
    let mut r: StringHashMap<u64> = StringHashMap::new();
    let mut i: usize = 0;
    while i < paths.len()
        invariant
            i <= paths@.len(),
            r@ == positions@.filter_keys(|k: Seq<char>| path_listed(paths@.take(i as int), k)),
        decreases paths@.len() - i,
    {
        let path: &str = paths[i].as_str();
        if let Some(position) = positions.get(path) {
            r.insert(path.to_owned(), *position);
        }
        proof {
            let before = paths@.take(i as int);
            let after = paths@.take(i + 1);
            assert forall|k: Seq<char>| #[trigger] path_listed(after, k) == (path_listed(before, k)
                || k == path@) by {
                if path_listed(before, k) {
                    let j = choose|j: int| 0 <= j < before.len() && (#[trigger] before[j])@ == k;
                    assert(after[j]@ == k);
                }
                if path_listed(after, k) {
                    let j = choose|j: int| 0 <= j < after.len() && (#[trigger] after[j])@ == k;
                    if j < i {
                        assert(before[j]@ == k);
                    }
                }
                assert(after[i as int]@ == path@);
            }
            assert(r@ =~= positions@.filter_keys(|k: Seq<char>| path_listed(after, k)));
        }
        i = i + 1;
    }
    assert(paths@.take(paths@.len() as int) == paths@);
    r
}

} // verus!
