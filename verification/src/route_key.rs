//! Derivation of the lookup key of a route.

use vstd::prelude::*;

verus! {

/// The key under which the route `(method, path)` is stored: the method,
/// one space, the path.
pub open spec fn spec_route_key(method: Seq<char>, path: Seq<char>) -> Seq<char> {
    method + seq![' '] + path
}

/// Derives the lookup key of `(method, path)`.
///
/// The key depends on the two strings alone, so equal pairs always give
/// equal keys. Nothing is normalised: case and trailing slashes are kept.
pub fn route_key(method: &str, path: &str) -> (key: String)
    ensures
        key@ == spec_route_key(method@, path@),
{
    let mut key = String::from_str(method);
    proof {
        reveal_strlit(" ");
    }
    key.append(" ");
    key.append(path);
    key
}

/// Two pairs whose methods hold no space have equal keys exactly when the
/// pairs are equal.
pub proof fn lemma_route_key_injective(
    method_a: Seq<char>,
    path_a: Seq<char>,
    method_b: Seq<char>,
    path_b: Seq<char>,
)
    requires
        !method_a.contains(' '),
        !method_b.contains(' '),
    ensures
        spec_route_key(method_a, path_a) == spec_route_key(method_b, path_b) <==> method_a
            == method_b && path_a == path_b,
{
    let key_a = spec_route_key(method_a, path_a);
    let key_b = spec_route_key(method_b, path_b);
    if key_a == key_b {
        let len_a = method_a.len() as int;
        let len_b = method_b.len() as int;
        // The separator of one key cannot fall inside the method of the other.
        if len_a < len_b {
            assert(key_a[len_a] == ' ' && key_b[len_a] == method_b[len_a]);
        }
        if len_b < len_a {
            assert(key_b[len_b] == ' ' && key_a[len_b] == method_a[len_b]);
        }
        assert(len_a == len_b);
        assert(method_a =~= method_b) by {
            assert forall|i: int| 0 <= i < len_a implies method_a[i] == method_b[i] by {
                assert(key_a[i] == method_a[i] && key_b[i] == method_b[i]);
            }
        }
        assert(path_a =~= path_b) by {
            assert(key_a.len() == len_a + 1 + path_a.len());
            assert(key_b.len() == len_b + 1 + path_b.len());
            assert forall|i: int| 0 <= i < path_a.len() implies path_a[i] == path_b[i] by {
                assert(key_a[len_a + 1 + i] == path_a[i] && key_b[len_b + 1 + i] == path_b[i]);
            }
        }
    }
}

/// A pair that holds no space, in its method or in its path, shares its key
/// with no other pair, whatever that pair holds.
pub proof fn lemma_route_key_of_spaceless_pair(
    method: Seq<char>,
    path: Seq<char>,
    other_method: Seq<char>,
    other_path: Seq<char>,
)
    requires
        !method.contains(' '),
        !path.contains(' '),
    ensures
        spec_route_key(other_method, other_path) == spec_route_key(method, path) <==> other_method
            == method && other_path == path,
{
    let key = spec_route_key(method, path);
    let other_key = spec_route_key(other_method, other_path);
    if other_key == key {
        let len = method.len() as int;
        let other_len = other_method.len() as int;
        // The key holds one space only, so the separator of the other pair
        // is that space.
        assert(other_key.len() == other_len + 1 + other_path.len());
        assert(key.len() == len + 1 + path.len());
        assert(other_key[other_len] == ' ');
        if other_len < len {
            assert(key[other_len] == method[other_len]);
        }
        if other_len > len {
            assert(key[other_len] == path[other_len - len - 1]);
        }
        assert(other_len == len);
        assert(other_method =~= method) by {
            assert forall|i: int| 0 <= i < len implies other_method[i] == method[i] by {
                assert(other_key[i] == other_method[i] && key[i] == method[i]);
            }
        }
        assert(other_path =~= path) by {
            assert forall|i: int| 0 <= i < path.len() implies other_path[i] == path[i] by {
                assert(other_key[other_len + 1 + i] == other_path[i] && key[len + 1 + i]
                    == path[i]);
            }
        }
    }
}

} // verus!
