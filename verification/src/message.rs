//! The HTTP messages the codec reads and writes, reduced to what the
//! transport observes: a header list and an optional body. Header names are
//! expected in lower case, as HTTP/2 carries them and as the surrounding
//! server layer normalizes them.

use vstd::prelude::*;
use crate::bytes::pairs_view;

verus! {

/// An inbound HTTP request as the decoder sees it.
pub struct HttpRequest {
    pub headers: Vec<(Vec<u8>, Vec<u8>)>,
    pub body: Option<Vec<u8>>,
}

/// The mathematical value of a request.
pub struct HttpRequestView {
    pub headers: Seq<(Seq<u8>, Seq<u8>)>,
    pub body: Option<Seq<u8>>,
}

impl View for HttpRequest {
    type V = HttpRequestView;

    open spec fn view(&self) -> HttpRequestView {
        HttpRequestView {
            headers: pairs_view(self.headers@),
            body: match self.body {
                Some(b) => Some(b@),
                None => None,
            },
        }
    }
}

/// An outbound HTTP response as the assembler produces it.
#[derive(Debug)]
pub struct HttpResponse {
    pub status: u16,
    pub headers: Vec<(Vec<u8>, Vec<u8>)>,
    pub body: Option<Vec<u8>>,
}

/// The mathematical value of a response.
pub struct HttpResponseView {
    pub status: u16,
    pub headers: Seq<(Seq<u8>, Seq<u8>)>,
    pub body: Option<Seq<u8>>,
}

impl View for HttpResponse {
    type V = HttpResponseView;

    open spec fn view(&self) -> HttpResponseView {
        HttpResponseView {
            status: self.status,
            headers: pairs_view(self.headers@),
            body: match self.body {
                Some(b) => Some(b@),
                None => None,
            },
        }
    }
}

/// A response read back as a request, as a client echoing it would: same
/// headers, same body. The round-trip laws are stated through this.
pub open spec fn as_request(r: HttpResponseView) -> HttpRequestView {
    HttpRequestView { headers: r.headers, body: r.body }
}

} // verus!
