//! The request/response facade handler code sees.
//!
//! A [`Request`] is the library's typed image of one host request: the plain
//! values handler logic reads (main-request flag, user agent, header-only
//! flag), the response fields it writes (status, content length), the arena
//! of the request's processing scope, and the host's verdicts for the calls
//! that cross back into the host — taken as given values of the request, so
//! every handler is verified for every verdict the host may return. The one
//! submission operation hands a fully built chain to the host; `AGAIN` means
//! the host cannot accept it now and will re-invoke the caller itself.

use vstd::prelude::*;
use crate::arena::Arena;
use crate::bytes::copy_bytes;
use crate::chain::Chain;
use crate::ngx_string::NgxStr;
use crate::status::Status;

verus! {

/// The protocol status code for a successful response.
pub const NGX_HTTP_OK: u64 = 200;

/// The protocol status code for a forbidden request.
pub const NGX_HTTP_FORBIDDEN: u64 = 403;

/// The protocol status code for an internal failure.
pub const NGX_HTTP_INTERNAL_SERVER_ERROR: u64 = 500;

/// A protocol-level status code.
#[derive(PartialEq, Eq, Structural, Clone, Copy, Debug)]
pub struct HTTPStatus(pub u64);

impl HTTPStatus {
    /// The success code.
    pub fn ok() -> (s: HTTPStatus)
        ensures
            s.0 == NGX_HTTP_OK,
    {
        HTTPStatus(NGX_HTTP_OK)
    }

    /// The forbidden code.
    pub fn forbidden() -> (s: HTTPStatus)
        ensures
            s.0 == NGX_HTTP_FORBIDDEN,
    {
        HTTPStatus(NGX_HTTP_FORBIDDEN)
    }

    /// The internal-failure code.
    pub fn internal_server_error() -> (s: HTTPStatus)
        ensures
            s.0 == NGX_HTTP_INTERNAL_SERVER_ERROR,
    {
        HTTPStatus(NGX_HTTP_INTERNAL_SERVER_ERROR)
    }
}

impl From<HTTPStatus> for Status {
    /// A protocol code as an overall status: protocol codes sit in the range
    /// greater than `OK`, so they short-circuit like failures do.
    fn from(h: HTTPStatus) -> (s: Status) {
        Status(h.0 as i64)
    }
}

impl vstd::std_specs::convert::FromSpecImpl<HTTPStatus> for Status {
    open spec fn obeys_from_spec() -> bool {
        true
    }

    open spec fn from_spec(h: HTTPStatus) -> Status {
        Status(h.0 as i64)
    }
}

/// A compiled host variable expression, as the host hands it to a request:
/// what the host's evaluation of it yields on this request, as plain
/// values, with `None` where evaluation fails.
pub struct NgxComplexValue {
    /// The evaluation outcome the host reached for this request.
    pub evaluates_to: Option<Vec<u8>>,
}

/// The plain values of one host request, as handed over at the boundary:
/// what the host knows of the request, and the verdicts the host will give
/// to the calls that cross back into it during handling.
pub struct NgxHttpRequest {
    /// Whether this is the main request (not a subrequest).
    pub main: bool,
    /// Whether only headers are to be sent.
    pub header_only: bool,
    /// The request's user agent.
    pub user_agent: NgxStr,
    /// The byte budget of the request's processing scope.
    pub pool_capacity: usize,
    /// The host's verdict on discarding the request body.
    pub discard_body_status: i64,
    /// The host's verdict on sending the response header.
    pub send_header_status: i64,
    /// The host's verdict on accepting a response body chain.
    pub output_filter_status: i64,
}

/// One request under handling: the host's values, the response fields the
/// handler writes, the scope's arena, and what was submitted so far.
pub struct Request {
    /// Whether this is the main request.
    pub main: bool,
    /// Whether only headers are to be sent.
    pub header_only: bool,
    /// The request's user agent.
    pub user_agent: NgxStr,
    /// The arena of the request's processing scope.
    pub pool: Arena,
    /// The host's verdict on discarding the request body.
    pub discard_body_status: i64,
    /// The host's verdict on sending the response header.
    pub send_header_status: i64,
    /// The host's verdict on accepting a response body chain.
    pub output_filter_status: i64,
    /// The response status written so far; zero until set.
    pub headers_out_status: u64,
    /// The response content length written so far.
    pub content_length_n: Option<usize>,
    /// Whether the request body has been discarded.
    pub body_discarded: bool,
    /// Whether the response header has been handed to the host.
    pub header_sent: bool,
    /// The body chains handed to the host, in order.
    pub sent: Vec<Chain>,
}

impl Request {
    /// The response-side fields no handler has touched yet.
    pub open spec fn untouched(self) -> bool {
        &&& self.headers_out_status == 0
        &&& self.content_length_n is None
        &&& !self.body_discarded
        &&& !self.header_sent
        &&& self.sent@.len() == 0
    }

    /// Everything the host fixed about the request is unchanged.
    pub open spec fn same_host_side(self, other: Request) -> bool {
        &&& self.main == other.main
        &&& self.header_only == other.header_only
        &&& self.user_agent@ == other.user_agent@
        &&& self.discard_body_status == other.discard_body_status
        &&& self.send_header_status == other.send_header_status
        &&& self.output_filter_status == other.output_filter_status
    }

    /// Wraps the host's request values for handling: a fresh arena of the
    /// given budget, and no response state yet.
    pub fn from_ngx_http_request(r: NgxHttpRequest) -> (req: Request)
        ensures
            req.main == r.main,
            req.header_only == r.header_only,
            req.user_agent@ == r.user_agent@,
            req.discard_body_status == r.discard_body_status,
            req.send_header_status == r.send_header_status,
            req.output_filter_status == r.output_filter_status,
            req.pool.wf(),
            req.pool.capacity == r.pool_capacity,
            req.pool.used == 0,
            req.untouched(),
    {
        Request {
            main: r.main,
            header_only: r.header_only,
            user_agent: r.user_agent,
            pool: Arena::new(r.pool_capacity),
            discard_body_status: r.discard_body_status,
            send_header_status: r.send_header_status,
            output_filter_status: r.output_filter_status,
            headers_out_status: 0,
            content_length_n: None,
            body_discarded: false,
            header_sent: false,
            sent: Vec::new(),
        }
    }

    /// Whether this is the main request.
    pub fn is_main(&self) -> (r: bool)
        ensures
            r == self.main,
    {
        self.main
    }

    /// The arena bound to the request's processing scope.
    pub fn pool(&self) -> (r: &Arena)
        ensures
            *r == self.pool,
    {
        &self.pool
    }

    /// The request's user agent.
    pub fn user_agent(&self) -> (r: &NgxStr)
        ensures
            r@ == self.user_agent@,
    {
        &self.user_agent
    }

    /// Evaluates a compiled host expression against this request. The
    /// host's outcome arrives with the expression; succeeds exactly where
    /// that evaluation did, handing back an owned copy of the string.
    pub fn get_complex_value(&self, cv: &NgxComplexValue) -> (r: Option<NgxStr>)
        ensures
            r is Some <==> cv.evaluates_to is Some,
            r is Some ==> r->Some_0@ == cv.evaluates_to->Some_0@,
    {
        match &cv.evaluates_to {
            Some(v) => Some(NgxStr::from_bytes(copy_bytes(v.as_slice()))),
            None => None,
        }
    }

    /// Asks the host to discard the request body; the host's verdict is
    /// passed through unchanged.
    pub fn discard_request_body(&mut self) -> (status: Status)
        ensures
            status.0 == old(self).discard_body_status,
            *final(self) == (Request { body_discarded: true, ..*old(self) }),
    {
        self.body_discarded = true;
        Status(self.discard_body_status)
    }

    /// Writes the response status.
    pub fn set_status(&mut self, status: HTTPStatus)
        ensures
            *final(self) == (Request { headers_out_status: status.0, ..*old(self) }),
    {
        self.headers_out_status = status.0;
    }

    /// Writes the response content length.
    pub fn set_content_length_n(&mut self, n: usize)
        ensures
            *final(self) == (Request { content_length_n: Some(n), ..*old(self) }),
    {
        self.content_length_n = Some(n);
    }

    /// Hands the response header to the host; the host's verdict is passed
    /// through unchanged.
    pub fn send_header(&mut self) -> (status: Status)
        ensures
            status.0 == old(self).send_header_status,
            *final(self) == (Request { header_sent: true, ..*old(self) }),
    {
        self.header_sent = true;
        Status(self.send_header_status)
    }

    /// Whether only headers are to be sent.
    pub fn set_header_only(&self) -> (r: bool)
        ensures
            r == self.header_only,
    {
        self.header_only
    }

    /// Submits a fully built body chain to the host. The host's verdict is
    /// passed through unchanged: `AGAIN` means the host cannot accept the
    /// chain now and will re-invoke the caller by its own scheduling — no
    /// retry happens here.
    pub fn output_filter(&mut self, body: Chain) -> (status: Status)
        requires
            body.wf(),
            body.complete(),
        ensures
            status.0 == old(self).output_filter_status,
            final(self).sent@.len() == old(self).sent@.len() + 1,
            final(self).sent@.last() == body,
            final(self).sent@.take(old(self).sent@.len() as int) == old(self).sent@,
            final(self).same_host_side(*old(self)),
            final(self).pool == old(self).pool,
            final(self).headers_out_status == old(self).headers_out_status,
            final(self).content_length_n == old(self).content_length_n,
            final(self).body_discarded == old(self).body_discarded,
            final(self).header_sent == old(self).header_sent,
    {
        self.sent.push(body);
        proof {
            assert(self.sent@.take(self.sent@.len() - 1) =~= old(self).sent@);
        }
        Status(self.output_filter_status)
    }
}

} // verus!
