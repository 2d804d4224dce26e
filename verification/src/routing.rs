//! The route table: one static root route rendering the home page, and a
//! not-found fallback for every other path, whose single link leads back to
//! the root.

use vstd::prelude::*;

verus! {

/// A resolved route.
#[derive(Clone, Copy, Debug, PartialEq, Eq, Structural)]
pub enum Page {
    Home,
    NotFound,
}

/// The paths that render the home page: the root, written either as the
/// empty path or as a single slash.
pub open spec fn is_home_path(path: Seq<char>) -> bool {
    path == Seq::<char>::empty() || path == seq!['/']
}

/// Resolve a request path against the route table. The home page is served
/// exactly for the root path; every other path falls through to the
/// not-found page.
pub fn resolve(path: &str) -> (page: Page)
    ensures
        page == Page::Home <==> is_home_path(path@),
        page == Page::NotFound <==> !is_home_path(path@),
{
    let n = path.unicode_len();
    if n == 0 {
        proof {
            assert(path@ =~= Seq::<char>::empty());
        }
        Page::Home
    } else if n == 1 && path.get_char(0) == '/' {
        proof {
            assert(path@ =~= seq!['/']);
        }
        Page::Home
    } else {
        proof {
            assert(path@ != Seq::<char>::empty());
            if path@ == seq!['/'] {
                assert(path@.len() == 1);
                assert(path@[0] == '/');
            }
        }
        Page::NotFound
    }
}

/// Target of the one link on the not-found page: back to the root path.
pub fn not_found_link() -> (target: &'static str)
    ensures
        target@ == "/"@,
{
    "/"
}

/// The path of the single static route in the table, as the router spells
/// the root: an empty segment.
pub fn home_route_path() -> (path: &'static str)
    ensures
        path@ == ""@,
{
    ""
}

} // verus!
