//! Replies for the root path: the file's contents as HTML on a
//! successful read, an empty bad-request or internal-error reply
//! otherwise, and the diagnostic line that a failed read produces.

use vstd::prelude::*;
use vstd::string::StringExecFns;

verus! {

/// What a root-path request is answered with: a status code, whether
/// the body is served as HTML, and the body itself.
pub struct Reply {
    pub status: u16,
    pub html: bool,
    pub body: String,
}

/// The mathematical shape of a reply.
pub ghost struct SpecReply {
    pub status: int,
    pub html: bool,
    pub body: Seq<char>,
}

impl View for Reply {
    type V = SpecReply;

    open spec fn view(&self) -> SpecReply {
        SpecReply { status: self.status as int, html: self.html, body: self.body@ }
    }
}

/// A successful reply: the entry document's contents verbatim, as HTML.
pub open spec fn spec_ok_reply(content: Seq<char>) -> SpecReply {
    SpecReply { status: 200, html: true, body: content }
}

/// The reply for an unrecognized `version` cookie: 400, empty body.
pub open spec fn spec_bad_request() -> SpecReply {
    SpecReply { status: 400, html: false, body: Seq::empty() }
}

/// The reply for an unreadable entry document: 500, empty body.
pub open spec fn spec_internal_error() -> SpecReply {
    SpecReply { status: 500, html: false, body: Seq::empty() }
}

/// The diagnostic line logged when the entry document at `path` could
/// not be read for the reason `err`.
pub open spec fn spec_diagnostic(path: Seq<char>, err: Seq<char>) -> Seq<char> {
    "Error reading HTML file "@ + path + ": "@ + err
}

/// Build the operator-facing diagnostic line for a failed read of the
/// entry document at `path`.
pub fn diagnostic_line(path: &String, err: &String) -> (d: String)
    ensures
        d@ == spec_diagnostic(path@, err@),
{
    let mut d = String::from_str("Error reading HTML file ");
    d.append(path.as_str());
    d.append(": ");
    d.append(err.as_str());
    d
}

/// The diagnostic line for a failed read names the file's path: the
/// path stands verbatim in the line, right after the fixed prefix.
pub proof fn lemma_diagnostic_names_path(path: Seq<char>, err: Seq<char>)
    ensures
        spec_diagnostic(path, err).subrange(24, 24 + path.len() as int) == path,
{
    reveal_strlit("Error reading HTML file ");
    assert("Error reading HTML file "@.len() == 24);
    assert(spec_diagnostic(path, err).subrange(24, 24 + path.len() as int) =~= path);
}

/// A reply together with the diagnostic line to log, if any.
pub struct ReadReply {
    pub reply: Reply,
    pub diagnostic: Option<String>,
}

/// The mathematical shape of a reply with its diagnostic.
pub ghost struct SpecReadReply {
    pub reply: SpecReply,
    pub diagnostic: Option<Seq<char>>,
}

impl View for ReadReply {
    type V = SpecReadReply;

    open spec fn view(&self) -> SpecReadReply {
        SpecReadReply {
            reply: self.reply@,
            diagnostic: match self.diagnostic {
                None => None,
                Some(d) => Some(d@),
            },
        }
    }
}

/// The view of a read outcome: the file's contents on success, the
/// error's description on failure.
pub open spec fn read_view(read: Result<String, String>) -> Result<Seq<char>, Seq<char>> {
    match read {
        Ok(content) => Ok(content@),
        Err(err) => Err(err@),
    }
}

/// What a read outcome is answered with: the contents verbatim as HTML
/// with status 200, or an empty 500 reply plus a diagnostic line naming
/// the path. The underlying error is never exposed to the caller.
pub open spec fn spec_read_reply(path: Seq<char>, read: Result<Seq<char>, Seq<char>>) -> SpecReadReply {
    match read {
        Ok(content) => SpecReadReply { reply: spec_ok_reply(content), diagnostic: None },
        Err(err) => SpecReadReply {
            reply: spec_internal_error(),
            diagnostic: Some(spec_diagnostic(path, err)),
        },
    }
}

/// Turn the outcome of reading the entry document at `path` into the
/// reply for the caller.
pub fn read_reply(path: &String, read: Result<String, String>) -> (r: ReadReply)
    ensures
        r@ == spec_read_reply(path@, read_view(read)),
{
    match read {
        Ok(content) => ReadReply {
            reply: Reply { status: 200, html: true, body: content },
            diagnostic: None,
        },
        Err(err) => ReadReply {
            reply: Reply { status: 500, html: false, body: String::new() },
            diagnostic: Some(diagnostic_line(path, &err)),
        },
    }
}

/// The reply for a request whose `version` cookie names no known
/// variant.
pub fn bad_request_reply() -> (r: Reply)
    ensures
        r@ == spec_bad_request(),
{
    Reply { status: 400, html: false, body: String::new() }
}

} // verus!
