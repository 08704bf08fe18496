//! Small verified operations on duplicate-free vectors of pids, shared by
//! the modules that keep pid collections.

use vstd::prelude::*;

verus! {

/// Whether `v` holds `pid`.
pub fn vec_contains(v: &Vec<i32>, pid: i32) -> (r: bool)
    ensures
        r == v@.contains(pid),
{
    let n = v.len();
    for i in 0..n
        invariant
            n == v@.len(),
            forall|j: int| 0 <= j < i ==> v@[j] != pid,
    {
        if v[i] == pid {
            return true;
        }
    }
    false
}

/// Removes the one occurrence of `pid` from a duplicate-free vector.
pub fn vec_remove_value(v: &mut Vec<i32>, pid: i32)
    requires
        old(v)@.no_duplicates(),
        old(v)@.to_set().contains(pid),
    ensures
        final(v)@.no_duplicates(),
        final(v)@.to_set() == old(v)@.to_set().remove(pid),
{
    let n = v.len();
    for i in 0..n
        invariant
            n == v@.len(),
            v@ == old(v)@,
            old(v)@.no_duplicates(),
            old(v)@.to_set().contains(pid),
            forall|j: int| 0 <= j < i ==> v@[j] != pid,
    {
        if v[i] == pid {
            v.remove(i);
            proof {
                let s = old(v)@;
                assert(s.remove(i as int) == v@);
                s.remove_ensures(i as int);
                assert forall|k: int| 0 <= k < v@.len() implies v@[k] == (if k < i {
                    s[k]
                } else {
                    s[k + 1]
                }) by {
                    assert(v@[k] == s.remove(i as int)[k]);
                }
                assert(v@.no_duplicates()) by {
                    assert forall|a: int, b: int|
                        0 <= a < v@.len() && 0 <= b < v@.len() && a != b implies v@[a]
                        != v@[b] by {
                        let a0: int = if a < i { a } else { a + 1 };
                        let b0: int = if b < i { b } else { b + 1 };
                        assert(v@[a] == s[a0] && v@[b] == s[b0]);
                        assert(s[a0] != s[b0]);
                    }
                }
                assert(v@.to_set() =~= s.to_set().remove(pid)) by {
                    assert forall|q: i32| #[trigger]
                        v@.contains(q) implies s.contains(q) && q != pid by {
                        let k = choose|k: int| 0 <= k < v@.len() && v@[k] == q;
                        let k0: int = if k < i { k } else { k + 1 };
                        assert(s[k0] == q);
                        if q == pid {
                            assert(s[i as int] == pid);
                        }
                    }
                    assert forall|q: i32| s.contains(q) && q != pid implies v@.contains(q) by {
                        let k = choose|k: int| 0 <= k < s.len() && s[k] == q;
                        if k < i {
                            assert(v@[k] == q);
                        } else {
                            assert(k != i);
                            assert(v@[k - 1] == q);
                        }
                    }
                }
            }
            return ;
        }
    }
    proof {
        assert(!old(v)@.contains(pid));
        assert(old(v)@.to_set().contains(pid));
        assert(false);
    }
}

} // verus!
