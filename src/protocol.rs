//! The messages exchanged with the helper service.
use vstd::prelude::*;
use vstd::string::StringExecFns;

verus! {

/// The identity that the helper service is told the request comes from.
pub open spec fn ide_name() -> Seq<char> {
    "zed"@
}

/// The JSON string literal, quotes and escapes included, that stands for `s`.
pub uninterp spec fn json_quoted(s: Seq<char>) -> Seq<char>;

/// The JSON object `{"url":<url>,"ide":<ide>}`, with both fields quoted.
pub open spec fn request_json(url: Seq<char>, ide: Seq<char>) -> Seq<char> {
    "{\"url\":"@ + json_quoted(url) + ",\"ide\":"@ + json_quoted(ide) + "}"@
}

/// Relies on `serde_json::to_string` on a `str`: it writes the string as one
/// JSON string literal. A `str` serialises through `serialize_str` into a
/// `Vec<u8>`, where writing cannot fail, so the call always returns `Ok`.
#[verifier::external_body]
fn json_quote(s: &str) -> (r: Option<String>)
    ensures
        r is Some,
        r->Some_0@ == json_quoted(s@),
{
    serde_json::to_string(s).ok()
}

/// The request sent to the helper service: the link, unchanged, and the
/// identity of the editor that asks for it to be opened.
#[derive(Debug)]
pub struct OpenRequest {
    pub url: String,
    pub ide: String,
}

impl OpenRequest {
    pub fn new(url: &str) -> (r: OpenRequest)
        ensures
            r.url@ == url@,
            r.ide@ == ide_name(),
    {
        proof {
            reveal_strlit("zed");
        }
        OpenRequest { url: url.to_owned(), ide: "zed".to_owned() }
    }

    /// The request as the JSON body of the HTTP call.
    pub fn body(&self) -> (r: String)
        ensures
            r@ == request_json(self.url@, self.ide@),
    {
        let url = json_quote(self.url.as_str()).unwrap();
        let ide = json_quote(self.ide.as_str()).unwrap();
        let mut out = String::from_str("{\"url\":");
        out.append(url.as_str());
        out.append(",\"ide\":");
        out.append(ide.as_str());
        out.append("}");
        proof {
            reveal_strlit("{\"url\":");
            reveal_strlit(",\"ide\":");
            reveal_strlit("}");
        }
        out
    }
}

/// The helper service's reply, once decoded from its JSON body. `path` is
/// present only where the helper resolved the link to a local location.
#[derive(Debug)]
pub struct OpenResponse {
    pub status: String,
    pub message: String,
    pub path: Option<String>,
}

impl OpenResponse {
    /// Whether the helper reports that it handled the link.
    pub open spec fn succeeded(&self) -> bool {
        self.status@ == "ok"@
    }

    pub fn is_ok(&self) -> (r: bool)
        ensures
            r == self.succeeded(),
    {
        let ok = "ok".to_owned();
        self.status == ok
    }
}

} // verus!
