//! The sample module: a greeting response handler, its two configuration
//! directives, and its registration in the host's phase table.
//!
//! The handler greets the configured text, or the request's user agent where
//! no text is configured, as `Hello, <name>!` followed by a newline, built
//! in a single arena-owned buffer and submitted as a one-link chain. An
//! access handler forbids clients whose user agent announces `curl`.

use vstd::prelude::*;
use crate::buffer::{Buffer, TemporaryBuffer};
use crate::bytes::{append_bytes, starts_with};
use crate::chain::Chain;
use crate::conf::{ConfNode, ConfNodeView};
use crate::http::{HTTPStatus, Request, NGX_HTTP_FORBIDDEN, NGX_HTTP_INTERNAL_SERVER_ERROR, NGX_HTTP_OK};
use crate::ngx_string::NgxStr;
use crate::status::{Status, NGX_ERROR, NGX_OK};

verus! {

/// Identifier of the access-phase handler below.
pub const HELLO_WORLD_ACCESS_HANDLER: u64 = 1;

/// Identifier of the content handler below.
pub const HELLO_WORLD_HANDLER: u64 = 2;

/// The explicit registration table threaded through configuration: the
/// host's access-phase slots (bounded by what the host's table can still
/// take) and the content handler chosen for the location.
pub struct HandlerRegistry {
    /// How many access-phase slots the host's table offers in all.
    pub capacity: usize,
    /// The registered access-phase handlers, in registration order.
    pub access_handlers: Vec<u64>,
    /// The content handler installed for the location, if any.
    pub content_handler: Option<u64>,
}

/// Registers the access-phase handler with the host. Fails, with the
/// registry unchanged, exactly when the host's table has no room left.
pub fn postconfiguration(reg: &mut HandlerRegistry) -> (status: Status)
    ensures
        status.0 == NGX_OK <==> old(reg).access_handlers@.len() < old(reg).capacity,
        status.0 == NGX_OK || status.0 == NGX_ERROR,
        status.0 == NGX_OK ==> final(reg).access_handlers@ == old(reg).access_handlers@.push(
            HELLO_WORLD_ACCESS_HANDLER,
        ) && final(reg).capacity == old(reg).capacity && final(reg).content_handler == old(
            reg,
        ).content_handler,
        status.0 == NGX_ERROR ==> *final(reg) == *old(reg),
{
    if reg.access_handlers.len() < reg.capacity {
        reg.access_handlers.push(HELLO_WORLD_ACCESS_HANDLER);
        Status(NGX_OK)
    } else {
        Status(NGX_ERROR)
    }
}

/// The directive that enables the module: installs the content handler for
/// the location.
pub fn ngx_http_hello_world(reg: &mut HandlerRegistry)
    ensures
        final(reg).content_handler == Some(HELLO_WORLD_HANDLER),
        final(reg).capacity == old(reg).capacity,
        final(reg).access_handlers@ == old(reg).access_handlers@,
{
    reg.content_handler = Some(HELLO_WORLD_HANDLER);
}

/// The directive that sets the greeting text. The token lives in the
/// parser's transient arena, so the node stores its own copy of the bytes.
pub fn ngx_http_hello_world_set_text(conf: &mut ConfNode, value: &NgxStr)
    ensures
        final(conf)@ == (ConfNodeView { text: Some(value@), ..old(conf)@ }),
{
    conf.set_text(value.as_bytes());
}

/// Whether a user agent announces the curl client.
pub open spec fn is_curl(ua: Seq<u8>) -> bool {
    ua.len() >= 4 && ua.subrange(0, 4) == seq![99u8, 117u8, 114u8, 108u8]
}

/// The name greeted: the configured text where one is set and non-empty,
/// else the request's user agent.
pub open spec fn greeting_name(text: Option<Seq<u8>>, ua: Seq<u8>) -> Seq<u8> {
    match text {
        Some(t) => if t.len() > 0 {
            t
        } else {
            ua
        },
        None => ua,
    }
}

/// The greeting prefix, `Hello, `.
pub open spec fn hello_prefix() -> Seq<u8> {
    seq![72u8, 101u8, 108u8, 108u8, 111u8, 44u8, 32u8]
}

/// The greeting suffix, `!` and a newline.
pub open spec fn hello_suffix() -> Seq<u8> {
    seq![33u8, 10u8]
}

/// The whole response body.
pub open spec fn greeting(text: Option<Seq<u8>>, ua: Seq<u8>) -> Seq<u8> {
    hello_prefix() + greeting_name(text, ua) + hello_suffix()
}

/// Builds the response body for a configuration node and a user agent.
pub fn build_greeting(conf: &ConfNode, ua: &NgxStr) -> (body: Vec<u8>)
    ensures
        body@ == greeting(conf@.text, ua@),
        body@.len() >= 9,
{
    let mut body: Vec<u8> = Vec::new();
    body.push(72u8);
    body.push(101u8);
    body.push(108u8);
    body.push(108u8);
    body.push(111u8);
    body.push(44u8);
    body.push(32u8);
    proof {
        assert(body@ =~= hello_prefix());
    }
    match conf.text() {
        Some(t) => {
            if t.len() > 0 {
                append_bytes(&mut body, t.as_slice());
            } else {
                append_bytes(&mut body, ua.as_bytes());
            }
        },
        None => {
            append_bytes(&mut body, ua.as_bytes());
        },
    }
    proof {
        assert(body@ =~= hello_prefix() + greeting_name(conf@.text, ua@));
    }
    body.push(33u8);
    body.push(10u8);
    proof {
        assert(body@ =~= greeting(conf@.text, ua@));
    }
    body
}

/// The access-phase handler: forbids the curl client, admits everyone else.
pub fn hello_world_access_handler(request: &Request) -> (status: Status)
    ensures
        is_curl(request.user_agent@) ==> status.0 == NGX_HTTP_FORBIDDEN as i64,
        !is_curl(request.user_agent@) ==> status.0 == NGX_OK,
{
    let mut prefix: Vec<u8> = Vec::new();
    prefix.push(99u8);
    prefix.push(117u8);
    prefix.push(114u8);
    prefix.push(108u8);
    proof {
        assert(prefix@ =~= seq![99u8, 117u8, 114u8, 108u8]);
    }
    if starts_with(request.user_agent().as_bytes(), prefix.as_slice()) {
        Status::from(HTTPStatus::forbidden())
    } else {
        Status(NGX_OK)
    }
}

/// The content handler, on a request whose location has `conf` resolved:
///
/// - asks the host to discard the request body, and fails the response with
///   the internal-failure code if the host refuses;
/// - writes the success status and the greeting's length to the response
///   header and hands the header to the host;
/// - stops with the host's header verdict where that verdict is a failure or
///   the response is header-only;
/// - otherwise builds the greeting in one arena-owned buffer — failing with
///   the internal-failure code, the arena untouched, exactly when the arena
///   cannot hold the body — marks it end-of-body on the main request and
///   end-of-chain always, and submits the one-link chain, passing the host's
///   verdict through.
pub fn hello_world_handler(request: &mut Request, conf: &ConfNode) -> (status: Status)
    requires
        old(request).pool.wf(),
    ensures
        final(request).same_host_side(*old(request)),
        final(request).body_discarded,
        old(request).discard_body_status != NGX_OK ==> status.0
            == NGX_HTTP_INTERNAL_SERVER_ERROR as i64 && *final(request) == (Request {
            body_discarded: true,
            ..*old(request)
        }),
        old(request).discard_body_status == NGX_OK ==> {
            &&& final(request).headers_out_status == NGX_HTTP_OK
            &&& final(request).content_length_n == Some(
                greeting(conf@.text, old(request).user_agent@).len() as usize,
            )
            &&& final(request).header_sent
        },
        old(request).discard_body_status == NGX_OK && (Status(
            old(request).send_header_status,
        ).spec_is_failure() || old(request).header_only) ==> status.0 == old(
            request,
        ).send_header_status && final(request).sent@ == old(request).sent@ && final(request).pool
            == old(request).pool,
        old(request).discard_body_status == NGX_OK && !Status(
            old(request).send_header_status,
        ).spec_is_failure() && !old(request).header_only ==> {
            let body = greeting(conf@.text, old(request).user_agent@);
            if body.len() <= old(request).pool.remaining() {
                &&& status.0 == old(request).output_filter_status
                &&& final(request).sent@.len() == old(request).sent@.len() + 1
                &&& final(request).sent@.last().content() == body
                &&& final(request).sent@.last().wf()
                &&& final(request).sent@.last().complete()
                &&& final(request).sent@.last().links@.len() == 1
                &&& final(request).sent@.last().links@[0].last_buf == old(request).main
                &&& final(request).sent@.take(old(request).sent@.len() as int) == old(
                    request,
                ).sent@
                &&& final(request).pool.used == old(request).pool.used + body.len()
                &&& final(request).pool.same_entries(old(request).pool)
            } else {
                &&& status.0 == NGX_HTTP_INTERNAL_SERVER_ERROR as i64
                &&& final(request).sent@ == old(request).sent@
                &&& final(request).pool == old(request).pool
            }
        },
{
    let st = request.discard_request_body();
    if !st.is_ok() {
        return Status::from(HTTPStatus::internal_server_error());
    }
    let body = build_greeting(conf, &request.user_agent);
    request.set_status(HTTPStatus::ok());
    request.set_content_length_n(body.len());
    let status = request.send_header();
    if status == Status::error() || status > Status::ok() || request.set_header_only() {
        return status;
    }
    let buffer = TemporaryBuffer::create_from_bytes(&mut request.pool, body.as_slice());
    let mut buffer = match buffer {
        Some(b) => b,
        None => {
            return Status::from(HTTPStatus::internal_server_error());
        },
    };
    buffer.set_last_buf(request.is_main());
    buffer.set_last_in_chain(true);
    let mut out = Chain::new();
    out.add_link(buffer.into_ngx_buf());
    proof {
        assert forall|i: int| 0 <= i < out.links@.len() implies (
        #[trigger] out.links@[i].last_in_chain <==> i == out.links@.len() - 1) by {
        }
        assert(out.complete());
    }
    request.output_filter(out)
}

} // verus!
