//! The root-path pipeline: decide from the `version` cookie which entry
//! document to read, if any, and what the whole request is answered
//! with once the read's outcome is known.

use crate::reply::{
    bad_request_reply, spec_bad_request, spec_diagnostic, spec_internal_error, spec_ok_reply,
    spec_read_reply, Reply, SpecReadReply,
};
use crate::selector::{cookie_view, entry_path, select_variant, spec_entry_path, spec_select, Variant};
use vstd::prelude::*;

verus! {

/// A root-path request, decided as far as it can be before any file is
/// read: either the path of the entry document to read, or the
/// finished rejection.
pub enum HomeStep {
    /// Read the entry document at this path, then answer with
    /// `read_reply`.
    Read(String),
    /// Answer with this reply at once; no read is attempted.
    Reject(Reply),
}

/// Decide a root-path request from its `version` cookie: an absent or
/// recognized cookie names the entry document to read, any other value
/// is rejected outright as a bad request.
pub fn home_step(cookie: Option<&String>) -> (s: HomeStep)
    ensures
        (match spec_select(cookie_view(cookie)) {
            Some(v) => s matches HomeStep::Read(p) && p@ == spec_entry_path(v),
            None => s matches HomeStep::Reject(r) && r@ == spec_bad_request(),
        }),
{
    match select_variant(cookie) {
        Some(v) => HomeStep::Read(entry_path(v)),
        None => HomeStep::Reject(bad_request_reply()),
    }
}

/// What the server replies to a root-path request, given the cookie and
/// the disk: `disk` maps each path to what reading it at that moment
/// would yield.
pub open spec fn spec_home(
    disk: Map<Seq<char>, Result<Seq<char>, Seq<char>>>,
    cookie: Option<Seq<char>>,
) -> SpecReadReply {
    match spec_select(cookie) {
        Some(v) => spec_read_reply(spec_entry_path(v), disk[spec_entry_path(v)]),
        None => SpecReadReply { reply: spec_bad_request(), diagnostic: None },
    }
}

/// A request with no `version` cookie is served `dist/base/index.html`
/// verbatim with status 200 and no diagnostic, provided that file is
/// readable.
pub proof fn lemma_no_cookie_serves_base(
    disk: Map<Seq<char>, Result<Seq<char>, Seq<char>>>,
    content: Seq<char>,
)
    requires
        disk["dist/base/index.html"@] == Ok::<Seq<char>, Seq<char>>(content),
    ensures
        spec_home(disk, None) == (SpecReadReply { reply: spec_ok_reply(content), diagnostic: None }),
{
}

/// A cookie `version=base` is answered exactly as a request with no
/// cookie at all.
pub proof fn lemma_base_cookie_equals_default(
    disk: Map<Seq<char>, Result<Seq<char>, Seq<char>>>,
)
    ensures
        spec_home(disk, Some("base"@)) == spec_home(disk, None),
{
}

/// A cookie `version=shell` is served `dist/shell/index.html` verbatim
/// with status 200 and no diagnostic, provided that file is readable.
pub proof fn lemma_shell_cookie_serves_shell(
    disk: Map<Seq<char>, Result<Seq<char>, Seq<char>>>,
    content: Seq<char>,
)
    requires
        disk["dist/shell/index.html"@] == Ok::<Seq<char>, Seq<char>>(content),
    ensures
        spec_home(disk, Some("shell"@)) == (SpecReadReply {
            reply: spec_ok_reply(content),
            diagnostic: None,
        }),
{
    reveal_strlit("base");
    reveal_strlit("shell");
    assert("base"@.len() == 4);
    assert("shell"@.len() == 5);
    assert("shell"@ != "base"@);
}

/// Any other cookie value is rejected: status 400, an empty body, no
/// diagnostic — and the reply does not depend on the disk, since no
/// read is attempted.
pub proof fn lemma_unknown_cookie_rejected(
    disk: Map<Seq<char>, Result<Seq<char>, Seq<char>>>,
    value: Seq<char>,
)
    requires
        value != "base"@,
        value != "shell"@,
    ensures
        spec_home(disk, Some(value)) == (SpecReadReply {
            reply: spec_bad_request(),
            diagnostic: None,
        }),
{
}

/// An unreadable entry document yields status 500 with an empty body,
/// and a diagnostic line built from the document's path (which, by
/// `lemma_diagnostic_names_path`, contains that path verbatim).
pub proof fn lemma_unreadable_file_is_internal_error(
    disk: Map<Seq<char>, Result<Seq<char>, Seq<char>>>,
    cookie: Option<Seq<char>>,
    v: Variant,
    err: Seq<char>,
)
    requires
        spec_select(cookie) == Some(v),
        disk[spec_entry_path(v)] == Err::<Seq<char>, Seq<char>>(err),
    ensures
        spec_home(disk, cookie).reply == spec_internal_error(),
        spec_home(disk, cookie).diagnostic == Some(spec_diagnostic(spec_entry_path(v), err)),
{
}

/// Idempotence: two root-path requests with the same cookie and an
/// unchanged disk are answered identically, diagnostic included.
pub proof fn lemma_home_idempotent(
    disk1: Map<Seq<char>, Result<Seq<char>, Seq<char>>>,
    disk2: Map<Seq<char>, Result<Seq<char>, Seq<char>>>,
    cookie1: Option<Seq<char>>,
    cookie2: Option<Seq<char>>,
)
    requires
        disk1 == disk2,
        cookie1 == cookie2,
    ensures
        spec_home(disk1, cookie1) == spec_home(disk2, cookie2),
{
}

} // verus!
