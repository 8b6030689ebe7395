//! File paths as text, joined as the host's file system joins them.

use vstd::prelude::*;
use vstd::string::*;

verus! {

/// The character that separates the components of a path.
pub const SEPARATOR: char = '/';

/// Whether `path` starts at the root.
pub open spec fn is_absolute(path: Seq<char>) -> bool {
    path.len() > 0 && path[0] == SEPARATOR
}

/// `base` extended by `component`: an absolute component takes the place of
/// `base`; else the two are put together, with a separator between them
/// unless `base` is empty or ends in one.
pub open spec fn joined(base: Seq<char>, component: Seq<char>) -> Seq<char> {
    if is_absolute(component) {
        component
    } else if base.len() == 0 || base.last() == SEPARATOR {
        base + component
    } else {
        base.push(SEPARATOR) + component
    }
}

/// Extends `base` by `component`.
pub fn join(base: &str, component: &str) -> (path: String)
    ensures
        path@ == joined(base@, component@),
{
    if component.unicode_len() > 0 && component.get_char(0) == SEPARATOR {
        return String::from_str(component);
    }
    let mut path = String::from_str(base);
    let n = base.unicode_len();
    if n > 0 && base.get_char(n - 1) != SEPARATOR {
        path.append("/");
        proof {
            reveal_strlit("/");
            assert("/"@ =~= seq![SEPARATOR]);
            assert(base@ + "/"@ =~= base@.push(SEPARATOR));
        }
    }
    path.append(component);
    path
}

} // verus!
