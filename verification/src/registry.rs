//! The target registry: the ordered list of endpoints to probe. Registry
//! order is significant and preserved end-to-end. A registry is valid when
//! every target is syntactically valid and no two targets share a name;
//! validation failures are configuration errors, fatal at startup.

use vstd::prelude::*;

verus! {

/// One network endpoint to probe for reachability.
#[derive(Clone, Debug, PartialEq, Eq)]
pub struct Target {
    pub name: String,
    pub host: String,
    pub port: u16,
    pub path: String,
}

/// A target is syntactically valid: non-empty host, non-zero port, and a
/// path that starts with `'/'`.
pub open spec fn target_valid(t: Target) -> bool {
    &&& t.host@.len() > 0
    &&& t.port >= 1
    &&& t.path@.len() > 0
    &&& t.path@[0] == '/'
}

/// A registry is valid: every target is valid and names are unique.
pub open spec fn registry_valid(ts: Seq<Target>) -> bool {
    &&& forall|i: int| 0 <= i < ts.len() ==> target_valid(#[trigger] ts[i])
    &&& forall|i: int, j: int|
        0 <= i < j < ts.len() ==> (#[trigger] ts[i].name)@ != (#[trigger] ts[j].name)@
}

/// Checks one target's syntactic validity.
pub fn validate_target(t: &Target) -> (ok: bool)
    ensures
        ok == target_valid(*t),
{
    if t.host.as_str().is_empty() {
        return false;
    }
    if t.port == 0 {
        return false;
    }
    if t.path.as_str().is_empty() {
        return false;
    }
    let first = t.path.as_str().get_char(0);
    proof {
        reveal_strlit("/");
    }
    first == '/'
}

/// Checks a whole registry: every target valid, all names distinct.
pub fn validate_registry(ts: &Vec<Target>) -> (ok: bool)
    ensures
        ok == registry_valid(ts@),
{
    let n = ts.len();
    let mut i: usize = 0;
    while i < n
        invariant
            n == ts@.len(),
            i <= n,
            forall|k: int| 0 <= k < i ==> target_valid(#[trigger] ts@[k]),
        decreases n - i,
    {
        if !validate_target(&ts[i]) {
            return false;
        }
        i += 1;
    }
    let mut i: usize = 0;
    while i < n
        invariant
            n == ts@.len(),
            i <= n,
            forall|k: int| 0 <= k < n ==> target_valid(#[trigger] ts@[k]),
            forall|k: int, l: int|
                0 <= k < l < n && k < i ==> (#[trigger] ts@[k].name)@ != (#[trigger] ts@[l].name)@,
        decreases n - i,
    {
        let mut j: usize = i + 1;
        while j < n
            invariant
                n == ts@.len(),
                i < j <= n,
                i < n,
                forall|k: int| 0 <= k < n ==> target_valid(#[trigger] ts@[k]),
                forall|k: int, l: int|
                    0 <= k < l < n && k < i ==> (#[trigger] ts@[k].name)@ != (#[trigger] ts@[l].name)@,
                forall|l: int| i < l < j ==> (ts@[i as int].name)@ != (#[trigger] ts@[l].name)@,
            decreases n - j,
        {
            if ts[i].name == ts[j].name {
                return false;
            }
            j += 1;
        }
        i += 1;
    }
    true
}

} // verus!
