//! Decisions taken from the service's environment.

use vstd::prelude::*;

verus! {

/// Whether the service runs inside a Kubernetes cluster, given the value of
/// `KUBERNETES_SERVICE` (absent counts as `"false"`): only the exact value
/// `"true"` says so. Outside a cluster the service reads a `.env` file.
pub fn running_in_cluster(flag: Option<&str>) -> (inside: bool)
    ensures
        inside == (flag is Some && flag->0@ == "true"@),
{
    proof {
        reveal_strlit("false");
        reveal_strlit("true");
    }
    let value = match flag {
        Some(v) => v.to_owned(),
        None => "false".to_owned(),
    };
    let expected = "true".to_owned();
    assert("false"@[0] != "true"@[0]);
    value == expected
}

} // verus!
