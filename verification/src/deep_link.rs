//! Links that open the client.

use crate::text::chars_of;
use vstd::prelude::*;
use vstd::string::*;

verus! {

/// The scheme of the links that open the client.
pub open spec fn deep_link_scheme() -> Seq<char> {
    "prdagent://"@
}

/// `i` is the position of the first deep link among `args`.
pub open spec fn first_deep_link(args: Seq<String>, i: int) -> bool {
    &&& 0 <= i < args.len()
    &&& deep_link_scheme().is_prefix_of(args[i]@)
    &&& forall|j: int| 0 <= j < i ==> !deep_link_scheme().is_prefix_of(#[trigger] args[j]@)
}

/// Whether `text` starts with the scheme of the links that open the client.
pub fn is_deep_link(text: &str) -> (yes: bool)
    ensures
        yes == deep_link_scheme().is_prefix_of(text@),
{
    let scheme = chars_of("prdagent://");
    let chars = chars_of(text);
    let n = scheme.len();
    if chars.len() < n {
        return false;
    }
    let mut i: usize = 0;
    while i < n
        invariant
            i <= n,
            n == scheme.len(),
            n <= chars.len(),
            scheme@ == deep_link_scheme(),
            chars@ == text@,
            forall|k: int| 0 <= k < i ==> chars@[k] == scheme@[k],
        decreases n - i,
    {
        if chars[i] != scheme[i] {
            return false;
        }
        i += 1;
    }
    true
}

/// The link that the client was started with: the first argument that is a
/// deep link, if there is one.
pub fn find_deep_link(args: &Vec<String>) -> (link: Option<String>)
    ensures
        match link {
            Some(l) => exists|i: int| first_deep_link(args@, i) && args@[i]@ == l@,
            None => forall|i: int| 0 <= i < args@.len() ==> !deep_link_scheme().is_prefix_of(
                #[trigger] args@[i]@,
            ),
        },
{
    let mut i: usize = 0;
    while i < args.len()
        invariant
            i <= args.len(),
            forall|j: int| 0 <= j < i ==> !deep_link_scheme().is_prefix_of(#[trigger] args@[j]@),
        decreases args.len() - i,
    {
        if is_deep_link(args[i].as_str()) {
            assert(first_deep_link(args@, i as int));
            return Some(args[i].clone());
        }
        i += 1;
    }
    None
}

} // verus!
