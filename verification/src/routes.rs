//! The server's routing table: the root path goes to the variant
//! selector, paths under the asset prefix go to the static asset
//! service, anything else is not found. The route is a function of the
//! request path alone, so cookies never influence it.

use vstd::prelude::*;
use vstd::string::StrSliceExecFns;

verus! {

/// Where a request path is dispatched.
#[derive(Clone, Copy, Debug, PartialEq, Eq, Structural)]
pub enum Route {
    /// The root path, handled by the variant selector.
    Home,
    /// A path under the asset prefix, handled by the static asset
    /// service.
    Assets,
    /// Any other path.
    NotFound,
}

/// The route of a request path: `/` is the home route, `/dist` and
/// everything under `/dist/` belong to the static asset service.
pub open spec fn spec_route(p: Seq<char>) -> Route {
    if p == "/"@ {
        Route::Home
    } else if p.len() >= 5 && p.subrange(0, 5) == "/dist"@ && (p.len() == 5 || p[5] == '/') {
        Route::Assets
    } else {
        Route::NotFound
    }
}

/// Dispatch a request path.
pub fn route_for(path: &String) -> (r: Route)
    ensures
        r == spec_route(path@),
{
    proof {
        reveal_strlit("/");
        reveal_strlit("/dist");
    }
    let s = path.as_str();
    let n = s.unicode_len();
    let is_home = n == 1 && s.get_char(0) == '/';
    let under_assets = n >= 5 && s.get_char(0) == '/' && s.get_char(1) == 'd'
        && s.get_char(2) == 'i' && s.get_char(3) == 's' && s.get_char(4) == 't'
        && (n == 5 || s.get_char(5) == '/');
    if is_home {
        proof {
            assert(path@ =~= "/"@);
        }
        Route::Home
    } else if under_assets {
        proof {
            assert(path@ != "/"@);
            assert(path@.subrange(0, 5) =~= "/dist"@);
        }
        Route::Assets
    } else {
        proof {
            assert(path@ != "/"@);
            if path@.len() >= 5 && path@.subrange(0, 5) == "/dist"@
                && (path@.len() == 5 || path@[5] == '/') {
                assert(path@[0] == path@.subrange(0, 5)[0]);
                assert(path@[1] == path@.subrange(0, 5)[1]);
                assert(path@[2] == path@.subrange(0, 5)[2]);
                assert(path@[3] == path@.subrange(0, 5)[3]);
                assert(path@[4] == path@.subrange(0, 5)[4]);
                assert(false);
            }
        }
        Route::NotFound
    }
}

/// Isolation of the asset prefix: a request whose path is `/dist` or
/// lies under `/dist/` is dispatched to the static asset service and
/// never to the variant selector — whatever cookies the request
/// carries, since the route depends on the path alone.
pub proof fn lemma_assets_bypass_selector(p: Seq<char>)
    requires
        p.len() >= 5,
        p.subrange(0, 5) == "/dist"@,
        p.len() == 5 || p[5] == '/',
    ensures
        spec_route(p) == Route::Assets,
        spec_route(p) != Route::Home,
{
    reveal_strlit("/");
    reveal_strlit("/dist");
}

} // verus!
