//! Containment check for the static-asset path parameter. The file
//! server takes a relative path straight from the request; serving it
//! unchecked would let `../../...` escape the asset root. A path is
//! served only when this check accepts it.

use vstd::prelude::*;

verus! {

/// There is a `..` component beginning at position i: two dots bounded
/// by the string's ends or by separators.
pub open spec fn dotdot_at(s: Seq<u8>, i: int) -> bool {
    &&& 0 <= i
    &&& i + 2 <= s.len()
    &&& s[i] == 46u8
    &&& s[i + 1] == 46u8
    &&& (i == 0 || s[i - 1] == 47u8)
    &&& (i + 2 == s.len() || s[i + 2] == 47u8)
}

/// A request path that stays inside the asset root: non-empty, not
/// absolute, free of NUL and backslash bytes, and with no `..`
/// component anywhere.
pub open spec fn safe_static_path(s: Seq<u8>) -> bool {
    &&& s.len() > 0
    &&& s[0] != 47u8
    &&& forall|i: int| 0 <= i < s.len() ==> #[trigger] s[i] != 0u8 && s[i] != 92u8
    &&& forall|i: int| !#[trigger] dotdot_at(s, i)
}

/// Decides whether the requested relative path may be served from the
/// asset root.
pub fn check_static_path(path: &[u8]) -> (b: bool)
    ensures
        b == safe_static_path(path@),
{
    let n = path.len();
    if n == 0 {
        return false;
    }
    if path[0] == 47u8 {
        return false;
    }
    let mut i: usize = 0;
    while i < n
        invariant
            i <= n == path@.len(),
            forall|j: int| 0 <= j < i ==> #[trigger] path@[j] != 0u8 && path@[j] != 92u8,
            forall|j: int| j < i ==> !#[trigger] dotdot_at(path@, j),
        decreases n - i,
    {
        let c = path[i];
        if c == 0u8 || c == 92u8 {
            return false;
        }
        if c == 46u8 && i + 1 < n && path[i + 1] == 46u8 && (i == 0 || path[i - 1] == 47u8) && (i
            + 2 == n || path[i + 2] == 47u8) {
            assert(dotdot_at(path@, i as int));
            return false;
        }
        proof {
            assert(!dotdot_at(path@, i as int));
        }
        i += 1;
    }
    proof {
        assert forall|j: int| !#[trigger] dotdot_at(path@, j) by {
            if 0 <= j && j + 2 <= n {
                assert(j < n - 1);
            }
        }
    }
    true
}

} // verus!
