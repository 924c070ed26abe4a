//! The variant selector: which entry document a request's `version`
//! cookie asks for, and where that document lives on disk.

use vstd::prelude::*;
use vstd::string::StringExecFns;

verus! {

/// The two pre-built frontend bundles that the server can serve for the
/// root path.
#[derive(Clone, Copy, Debug, PartialEq, Eq, Structural)]
pub enum Variant {
    Base,
    Shell,
}

/// The view of an optional cookie value.
pub open spec fn cookie_view(cookie: Option<&String>) -> Option<Seq<char>> {
    match cookie {
        None => None,
        Some(s) => Some(s@),
    }
}

/// Which variant a `version` cookie selects: a missing cookie defaults
/// to `Base`, `"base"` and `"shell"` name their variants, and any other
/// value selects nothing.
pub open spec fn spec_select(cookie: Option<Seq<char>>) -> Option<Variant> {
    match cookie {
        None => Some(Variant::Base),
        Some(v) => if v == "base"@ {
            Some(Variant::Base)
        } else if v == "shell"@ {
            Some(Variant::Shell)
        } else {
            None
        },
    }
}

/// Decide which variant the `version` cookie selects; `None` means the
/// request is to be rejected as a bad request.
pub fn select_variant(cookie: Option<&String>) -> (r: Option<Variant>)
    ensures
        r == spec_select(cookie_view(cookie)),
{
    match cookie {
        None => Some(Variant::Base),
        Some(v) => {
            let base = String::from_str("base");
            let shell = String::from_str("shell");
            if *v == base {
                Some(Variant::Base)
            } else if *v == shell {
                Some(Variant::Shell)
            } else {
                None
            }
        },
    }
}

/// The on-disk path of a variant's entry document.
pub open spec fn spec_entry_path(v: Variant) -> Seq<char> {
    match v {
        Variant::Base => "dist/base/index.html"@,
        Variant::Shell => "dist/shell/index.html"@,
    }
}

/// Map a variant to the path of its entry document.
pub fn entry_path(v: Variant) -> (p: String)
    ensures
        p@ == spec_entry_path(v),
{
    match v {
        Variant::Base => String::from_str("dist/base/index.html"),
        Variant::Shell => String::from_str("dist/shell/index.html"),
    }
}

} // verus!
