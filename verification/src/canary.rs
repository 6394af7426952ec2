//! Derivation of the canary marker path.
//!
//! The confirmation handshake between this agent and the remote deployer is a
//! single marker file. Its name is derived deterministically from the closure
//! reference: the part of the reference between the store-path prefix and the
//! first `-` serves as a short hash, and the marker lives directly under the
//! caller-supplied temporary directory.

use vstd::prelude::*;

verus! {

/// Number of characters in the store-path prefix `/nix/store/`.
pub open spec fn store_prefix_len() -> int {
    11
}

/// Index of the first `-` in `s`, or `s.len()` when `s` holds none.
pub open spec fn first_dash(s: Seq<char>) -> int
    decreases s.len(),
{
    if s.len() == 0 {
        0
    } else if s.first() == '-' {
        0
    } else {
        1 + first_dash(s.drop_first())
    }
}

pub proof fn lemma_first_dash_bounds(s: Seq<char>)
    ensures
        0 <= first_dash(s) <= s.len(),
        first_dash(s) < s.len() ==> s[first_dash(s)] == '-',
        forall|j: int| 0 <= j < first_dash(s) ==> s[j] != '-',
    decreases s.len(),
{
    if s.len() == 0 {
    } else if s.first() == '-' {
    } else {
        lemma_first_dash_bounds(s.drop_first());
        assert forall|j: int| 0 <= j < first_dash(s) implies s[j] != '-' by {
            if j > 0 {
                assert(s.drop_first()[j - 1] != '-');
            }
        }
    }
}

/// A position that sits on the first `-` (or at the end, with no `-` before
/// it) is exactly `first_dash`.
pub proof fn lemma_first_dash_unique(s: Seq<char>, i: int)
    requires
        0 <= i <= s.len(),
        i < s.len() ==> s[i] == '-',
        forall|j: int| 0 <= j < i ==> s[j] != '-',
    ensures
        i == first_dash(s),
{
    lemma_first_dash_bounds(s);
    if i < first_dash(s) {
        assert(s[i] != '-');
    } else if first_dash(s) < i {
        assert(s[first_dash(s)] != '-');
    }
}

/// The short hash: everything between the store-path prefix and the first `-`.
pub open spec fn spec_lock_hash(closure: Seq<char>) -> Seq<char> {
    closure.subrange(store_prefix_len(), first_dash(closure))
}

/// The canary marker path: `<temp_path>/deploy-rs-canary-<hash>`.
pub open spec fn spec_lock_path(temp_path: Seq<char>, closure: Seq<char>) -> Seq<char> {
    temp_path + "/deploy-rs-canary-"@ + spec_lock_hash(closure)
}

/// A closure reference from which a canary name can be derived: it is at
/// least as long as the store-path prefix, and its first `-`, if any, comes
/// after that prefix.
pub open spec fn closure_has_hash(closure: Seq<char>) -> bool {
    &&& closure.len() >= store_prefix_len()
    &&& forall|j: int| 0 <= j < store_prefix_len() ==> closure[j] != '-'
}

/// Builds the canary marker path for `closure` under `temp_path`.
pub fn make_lock_path(temp_path: &str, closure: &str) -> (r: String)
    requires
        closure_has_hash(closure@),
    ensures
        r@ == spec_lock_path(temp_path@, closure@),
{
    let n = closure.unicode_len();
    let mut i: usize = 0;
    while i < n && closure.get_char(i) != '-'
        invariant
            0 <= i <= n,
            n == closure@.len(),
            forall|j: int| 0 <= j < i ==> closure@[j] != '-',
        decreases n - i,
    {
        i = i + 1;
    }
    proof {
        lemma_first_dash_unique(closure@, i as int);
    }
    let hash = closure.substring_char(11, i);
    String::from_str(temp_path).concat("/deploy-rs-canary-").concat(hash)
}

/// The derived canary path is a function of the temporary directory and the
/// closure reference alone: equal inputs always give the same marker path.
pub proof fn lemma_lock_path_deterministic(
    temp_a: Seq<char>,
    closure_a: Seq<char>,
    temp_b: Seq<char>,
    closure_b: Seq<char>,
)
    requires
        temp_a == temp_b,
        closure_a == closure_b,
    ensures
        spec_lock_path(temp_a, closure_a) == spec_lock_path(temp_b, closure_b),
{
}

} // verus!
