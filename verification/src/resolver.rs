use vstd::prelude::*;

verus! {

/// The interpreter name resolved from one probe: the plain name where its
/// version probe succeeded, else the launcher, attempted as a best-effort
/// default rather than a hard failure.
pub fn resolve_python(python_ok: bool) -> (r: &'static str)
    ensures
        python_ok ==> r@ == "python"@,
        !python_ok ==> r@ == "py"@,
{
    if python_ok {
        "python"
    } else {
        "py"
    }
}

/// The command tokens for the pinned 3.11 interpreter: the launcher with a
/// version switch where its probe succeeded, else the general resolution.
pub open spec fn spec_python311(py311_ok: bool, python_ok: bool) -> Seq<Seq<char>> {
    if py311_ok {
        seq!["py"@, "-3.11"@]
    } else if python_ok {
        seq!["python"@]
    } else {
        seq!["py"@]
    }
}

/// Resolves the interpreter command for tools that need the older 3.11 ABI,
/// degrading to the general interpreter where the pinned probe failed.
pub fn resolve_python311(py311_ok: bool, python_ok: bool) -> (r: Vec<String>)
    ensures
        r.deep_view() == spec_python311(py311_ok, python_ok),
{
    let mut v: Vec<String> = Vec::new();
    if py311_ok {
        v.push("py".to_owned());
        v.push("-3.11".to_owned());
    } else {
        v.push(resolve_python(python_ok).to_owned());
    }
    proof {
        assert(v.deep_view() =~~= spec_python311(py311_ok, python_ok));
    }
    v
}

} // verus!
