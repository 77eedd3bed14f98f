//! Small shared helpers for building argument lists.

use crate::ArgsList;
use vstd::prelude::*;

verus! {

/// The end-of-options marker.
pub fn eoo() -> (r: String)
    ensures
        r@ == "--"@,
{
    String::from_str("--")
}

/// Appends the second argument list after the first.
pub fn concat(vec1: Vec<String>, vec2: Vec<String>) -> (r: ArgsList)
    ensures
        r.deep_view() == vec1.deep_view() + vec2.deep_view(),
{
    let mut args = vec1;
    let mut rest = vec2;
    let ghost a = args.deep_view();
    let ghost b = rest.deep_view();
    args.append(&mut rest);
    proof {
        assert(args.deep_view() =~= a + b);
    }
    args
}

/// Wraps a filter value in single quotes.
pub fn quote(s: &str) -> (r: String)
    ensures
        r@ == seq!['\''] + s@ + seq!['\''],
{
    let mut q = String::from_str("'");
    q.append(s);
    q.append("'");
    proof {
        reveal_strlit("'");
        assert(q@ =~= seq!['\''] + s@ + seq!['\'']);
    }
    q
}

/// Relies on which::which: whether a binary of that name stands on the
/// search path.  The answer depends on the environment, so nothing more
/// is promised of it.
#[verifier::external_body]
pub fn is_executable(binary_name: &str) -> bool {
    which::which(binary_name).is_ok()
}

/// Clones a whole argument list.
pub fn clone_args(v: &Vec<String>) -> (r: Vec<String>)
    ensures
        r.deep_view() == v.deep_view(),
{
    let n = v.len();
    let out = vec_prefix_clone(v, n);
    proof {
        assert(v.deep_view().take(n as int) =~= v.deep_view());
    }
    out
}

/// Clones the first `n` entries of an argument list.
pub fn vec_prefix_clone(v: &Vec<String>, n: usize) -> (r: Vec<String>)
    requires
        n <= v@.len(),
    ensures
        r.deep_view() == v.deep_view().take(n as int),
{
    let mut out: Vec<String> = Vec::new();
    let mut i: usize = 0;
    while i < n
        invariant
            n <= v@.len(),
            i <= n,
            out.deep_view() =~= v.deep_view().take(i as int),
        decreases n - i,
    {
        let ghost old_dv = out.deep_view();
        out.push(v[i].clone());
        proof {
            assert(out.deep_view() =~= old_dv.push(v.deep_view()[i as int]));
            assert(out.deep_view() =~= v.deep_view().take(i + 1));
        }
        i += 1;
    }
    proof {
        assert(out.deep_view() =~= v.deep_view().take(n as int));
    }
    out
}

/// Clones the entries of an argument list from `from` on.
pub fn vec_suffix_clone(v: &Vec<String>, from: usize) -> (r: Vec<String>)
    requires
        from <= v@.len(),
    ensures
        r.deep_view() == v.deep_view().skip(from as int),
{
    let mut out: Vec<String> = Vec::new();
    let n = v.len();
    let mut i: usize = from;
    while i < n
        invariant
            from <= i <= n,
            n == v@.len(),
            out.deep_view() =~= v.deep_view().subrange(from as int, i as int),
        decreases n - i,
    {
        let ghost old_dv = out.deep_view();
        out.push(v[i].clone());
        proof {
            assert(out.deep_view() =~= old_dv.push(v.deep_view()[i as int]));
            assert(out.deep_view() =~= v.deep_view().subrange(from as int, i + 1));
        }
        i += 1;
    }
    proof {
        assert(out.deep_view() =~= v.deep_view().skip(from as int));
    }
    out
}

} // verus!
