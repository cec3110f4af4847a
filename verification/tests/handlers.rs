//! Tests for the request facade, the byte strings, and the sample module's
//! handlers.

use nginx_rs::conf::{ConfNode, Scope};
use nginx_rs::hello_world::{
    hello_world_access_handler, hello_world_handler, ngx_http_hello_world,
    ngx_http_hello_world_set_text, postconfiguration, HandlerRegistry, HELLO_WORLD_ACCESS_HANDLER,
    HELLO_WORLD_HANDLER,
};
use nginx_rs::http::{HTTPStatus, NgxComplexValue, NgxHttpRequest, Request};
use nginx_rs::ngx_string::NgxStr;
use nginx_rs::status::{Status, NGX_AGAIN, NGX_ERROR, NGX_OK};

fn host_request(user_agent: &[u8]) -> NgxHttpRequest {
    NgxHttpRequest {
        main: true,
        header_only: false,
        user_agent: NgxStr::from_bytes(user_agent.to_vec()),
        pool_capacity: 1024,
        discard_body_status: NGX_OK,
        send_header_status: NGX_OK,
        output_filter_status: NGX_OK,
    }
}

fn resolved_conf(text: &[u8]) -> ConfNode {
    let mut conf = ConfNode::create(Scope::Location);
    conf.set_text(text);
    conf.resolved = true;
    conf
}

#[test]
fn http_status_converts_to_status() {
    let s: Status = HTTPStatus::ok().into();
    assert_eq!(s.0, 200);
    assert_eq!(Status::from(HTTPStatus::forbidden()).0, 403);
    assert_eq!(Status::from(HTTPStatus::internal_server_error()).0, 500);
    assert!(Status::from(HTTPStatus::ok()).is_failure());
}

#[test]
fn ngx_str_utf8_conversions() {
    let s = NgxStr::from_bytes(b"h\xc3\xa9llo".to_vec());
    assert_eq!(s.to_str().unwrap(), "héllo");
    assert_eq!(s.to_string_lossy(), "héllo");
    assert!(!s.is_empty());
    let bad = NgxStr::from_bytes(vec![0x68, 0xff]);
    assert!(bad.to_str().is_err());
    assert_eq!(bad.to_string_lossy(), "h\u{FFFD}");
    let empty = NgxStr::default();
    assert!(empty.is_empty());
    assert_eq!(empty.as_bytes(), b"");
}

#[test]
fn from_ngx_http_request_starts_untouched() {
    let req = Request::from_ngx_http_request(host_request(b"browser"));
    assert!(req.is_main());
    assert!(!req.set_header_only());
    assert_eq!(req.user_agent().as_bytes(), b"browser");
    assert_eq!(req.pool().capacity, 1024);
    assert_eq!(req.pool().used, 0);
    assert_eq!(req.headers_out_status, 0);
    assert_eq!(req.content_length_n, None);
    assert!(req.sent.is_empty());
}

#[test]
fn get_complex_value_follows_the_host_outcome() {
    let req = Request::from_ngx_http_request(host_request(b"browser"));
    let evaluated = NgxComplexValue { evaluates_to: Some(b"value".to_vec()) };
    let got = req.get_complex_value(&evaluated).expect("evaluation succeeded");
    assert_eq!(got.as_bytes(), b"value");
    let failed = NgxComplexValue { evaluates_to: None };
    assert!(req.get_complex_value(&failed).is_none());
}

#[test]
fn access_handler_forbids_curl() {
    let curl = Request::from_ngx_http_request(host_request(b"curl/8.5.0"));
    assert_eq!(hello_world_access_handler(&curl).0, 403);
    let browser = Request::from_ngx_http_request(host_request(b"cu-browser"));
    assert_eq!(hello_world_access_handler(&browser).0, NGX_OK);
}

#[test]
fn handler_greets_the_configured_text() {
    let mut req = Request::from_ngx_http_request(host_request(b"browser"));
    let conf = resolved_conf(b"world");
    let status = hello_world_handler(&mut req, &conf);
    assert_eq!(status.0, NGX_OK);
    assert_eq!(req.headers_out_status, 200);
    assert_eq!(req.content_length_n, Some(14));
    assert!(req.header_sent);
    assert!(req.body_discarded);
    assert_eq!(req.sent.len(), 1);
    assert!(req.sent[0].is_complete());
    assert_eq!(req.sent[0].collect_bytes(), b"Hello, world!\n");
    assert!(req.sent[0].links[0].last_buf);
    assert_eq!(req.pool.used, 14);
}

#[test]
fn handler_greets_the_user_agent_without_text() {
    let mut req = Request::from_ngx_http_request(host_request(b"browser"));
    let conf = resolved_conf(b"");
    let status = hello_world_handler(&mut req, &conf);
    assert_eq!(status.0, NGX_OK);
    assert_eq!(req.sent[0].collect_bytes(), b"Hello, browser!\n");
}

#[test]
fn handler_fails_when_discard_is_refused() {
    let mut host = host_request(b"browser");
    host.discard_body_status = NGX_ERROR;
    let mut req = Request::from_ngx_http_request(host);
    let status = hello_world_handler(&mut req, &resolved_conf(b"world"));
    assert_eq!(status.0, 500);
    assert!(req.sent.is_empty());
    assert_eq!(req.headers_out_status, 0);
}

#[test]
fn handler_stops_on_header_verdict_or_header_only() {
    let mut host = host_request(b"browser");
    host.send_header_status = NGX_ERROR;
    let mut req = Request::from_ngx_http_request(host);
    let status = hello_world_handler(&mut req, &resolved_conf(b"world"));
    assert_eq!(status.0, NGX_ERROR);
    assert!(req.header_sent);
    assert!(req.sent.is_empty());

    let mut host = host_request(b"browser");
    host.header_only = true;
    let mut req = Request::from_ngx_http_request(host);
    let status = hello_world_handler(&mut req, &resolved_conf(b"world"));
    assert_eq!(status.0, NGX_OK);
    assert!(req.sent.is_empty());
    assert_eq!(req.content_length_n, Some(14));
}

#[test]
fn handler_fails_when_the_pool_cannot_hold_the_body() {
    let mut host = host_request(b"browser");
    host.pool_capacity = 5;
    let mut req = Request::from_ngx_http_request(host);
    let status = hello_world_handler(&mut req, &resolved_conf(b"world"));
    assert_eq!(status.0, 500);
    assert!(req.sent.is_empty());
    assert_eq!(req.pool.used, 0);
}

#[test]
fn handler_propagates_again_from_submission() {
    let mut host = host_request(b"browser");
    host.output_filter_status = NGX_AGAIN;
    let mut req = Request::from_ngx_http_request(host);
    let status = hello_world_handler(&mut req, &resolved_conf(b"world"));
    assert_eq!(status.0, NGX_AGAIN);
    assert_eq!(req.sent.len(), 1);
}

#[test]
fn postconfiguration_registers_until_the_table_is_full() {
    let mut reg =
        HandlerRegistry { capacity: 1, access_handlers: Vec::new(), content_handler: None };
    assert_eq!(postconfiguration(&mut reg).0, NGX_OK);
    assert_eq!(reg.access_handlers, vec![HELLO_WORLD_ACCESS_HANDLER]);
    assert_eq!(postconfiguration(&mut reg).0, NGX_ERROR);
    assert_eq!(reg.access_handlers.len(), 1);
}

#[test]
fn directives_install_handler_and_text() {
    let mut reg =
        HandlerRegistry { capacity: 4, access_handlers: Vec::new(), content_handler: None };
    ngx_http_hello_world(&mut reg);
    assert_eq!(reg.content_handler, Some(HELLO_WORLD_HANDLER));

    let mut conf = ConfNode::create(Scope::Location);
    let token = NgxStr::from_bytes(b"greeting".to_vec());
    ngx_http_hello_world_set_text(&mut conf, &token);
    assert_eq!(conf.text().map(|v| v.as_slice()), Some(&b"greeting"[..]));
    // The node owns its copy: the token can go away with its arena.
    drop(token);
    assert_eq!(conf.text().map(|v| v.as_slice()), Some(&b"greeting"[..]));
}
