//! # Module
//!
//! A module groups routes under a base route: `/api` with `/user` gives
//! `/api/user`.

use vstd::prelude::*;

use crate::text::{chars_of, string_of};

verus! {

/// The route a module with base route `base` registers for `add`: exactly
/// one `/` between them when neither supplies it, and one of the two
/// dropped when both do.
pub open spec fn combined_route(base: Seq<char>, add: Seq<char>) -> Seq<char> {
    let base_slash = base.len() > 0 && base.last() == '/';
    let add1 = if base_slash && add.len() > 0 && add[0] == '/' {
        add.drop_first()
    } else {
        add
    };
    let pref = if !(add1.len() > 0 && add1[0] == '/') && !base_slash {
        "/"@
    } else {
        Seq::<char>::empty()
    };
    base + pref + add1
}

/// Combines a module's base route with a route added to it.
pub fn combine_route(base: &str, add: &str) -> (r: String)
    ensures
        r@ == combined_route(base@, add@),
{
    let b = chars_of(base);
    let mut a = chars_of(add);
    let base_slash = b.len() > 0 && b[b.len() - 1] == '/';
    if base_slash && a.len() > 0 && a[0] == '/' {
        a.remove(0);
        assert(a@ == add@.drop_first());
    }
    let mut out = b;
    if !(a.len() > 0 && a[0] == '/') && !base_slash {
        out.push('/');
        proof {
            reveal_strlit("/");
        }
    } else {
        assert(out@ + Seq::<char>::empty() == out@);
    }
    out.append(&mut a);
    string_of(out.as_slice())
}

} // verus!
