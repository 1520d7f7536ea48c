use fastedge::body::Body;
use fastedge::bridge::{
    method_from_host, request_from_host, request_to_host, response_from_host, response_to_host,
    to_http_client_method,
};
use fastedge::handler::{internal_error, process, reply};
use fastedge::host;
use fastedge::http_client::{send_request, translate_http_client_to_response};
use fastedge::message::{Method, Request, Response};
use fastedge::Error;

fn pairs(list: &[(&str, &str)]) -> Vec<(String, String)> {
    list.iter().map(|(k, v)| (k.to_string(), v.to_string())).collect()
}

fn host_response(status: u16) -> host::Response {
    host::Response { status, headers: None, body: None }
}

#[test]
fn request_round_trip_keeps_method_uri_headers_and_body() {
    let headers = pairs(&[("x-a", "1"), ("x-b", "2"), ("x-a", "3")]);
    let req = Request {
        method: Method::Post,
        uri: "https://example.com/path?q=1".to_string(),
        headers: headers.clone(),
        body: Body::from_text("payload\0with zero"),
    };
    let on_wire = request_to_host(&req).unwrap();
    assert_eq!(on_wire.method, host::Method::Post);
    assert_eq!(on_wire.body, Some(b"payload\0with zero".to_vec()));
    let back = request_from_host(on_wire).unwrap();
    assert_eq!(back.method, Method::Post);
    assert_eq!(back.uri, "https://example.com/path?q=1");
    assert_eq!(back.headers, headers);
    assert_eq!(back.body.to_vec(), b"payload\0with zero".to_vec());
}

#[test]
fn host_request_without_body_gets_empty_text_body() {
    let req = host::Request {
        method: host::Method::Get,
        uri: "/index".to_string(),
        headers: vec![],
        body: None,
    };
    let r = request_from_host(req).unwrap();
    assert_eq!(r.body.to_vec(), Vec::<u8>::new());
    assert_eq!(r.body.content_type(), "text/plain; charset=utf-8");
}

#[test]
fn host_request_with_body_gets_octet_stream() {
    let req = host::Request {
        method: host::Method::Put,
        uri: "/up".to_string(),
        headers: vec![],
        body: Some(vec![1, 2, 3]),
    };
    let r = request_from_host(req).unwrap();
    assert_eq!(r.method, Method::Put);
    assert_eq!(r.body.to_vec(), vec![1, 2, 3]);
    assert_eq!(r.body.content_type(), "application/octet-stream");
}

#[test]
fn bad_header_name_or_value_or_uri_is_invalid_body() {
    let base = |headers: Vec<(String, String)>, uri: &str| host::Request {
        method: host::Method::Get,
        uri: uri.to_string(),
        headers,
        body: None,
    };
    assert!(matches!(
        request_from_host(base(pairs(&[("bad name", "v")]), "/")),
        Err(Error::InvalidBody)
    ));
    assert!(matches!(
        request_from_host(base(pairs(&[("", "v")]), "/")),
        Err(Error::InvalidBody)
    ));
    assert!(matches!(
        request_from_host(base(pairs(&[("x-ok", "line\nbreak")]), "/")),
        Err(Error::InvalidBody)
    ));
    assert!(matches!(
        request_from_host(base(pairs(&[("x-ok", "del\u{7f}")]), "/")),
        Err(Error::InvalidBody)
    ));
    assert!(matches!(
        request_from_host(base(vec![], "http://exa mple.com/")),
        Err(Error::InvalidBody)
    ));
    assert!(request_from_host(base(pairs(&[("x-ok", "tab\tand caf\u{e9}")]), "/")).is_ok());
}

#[test]
fn response_round_trip_keeps_status_headers_and_body() {
    let headers = pairs(&[("set-cookie", "a=1"), ("set-cookie", "b=2")]);
    let res = Response { status: 201, headers: headers.clone(), body: Body::from_bytes(vec![9, 0, 9]) };
    let on_wire = response_to_host(&res).unwrap();
    assert_eq!(on_wire.status, 201);
    assert_eq!(on_wire.headers, Some(headers.clone()));
    let back = response_from_host(on_wire).unwrap();
    assert_eq!(back.status, 201);
    assert_eq!(back.headers, headers);
    assert_eq!(back.body.to_vec(), vec![9, 0, 9]);
}

#[test]
fn response_without_headers_has_absent_headers_on_wire() {
    let res = Response { status: 204, headers: vec![], body: Body::empty() };
    let on_wire = response_to_host(&res).unwrap();
    assert_eq!(on_wire.headers, None);
    assert_eq!(on_wire.body, Some(vec![]));
    let back = response_from_host(on_wire).unwrap();
    assert!(back.headers.is_empty());
}

#[test]
fn status_validation() {
    assert!(matches!(response_from_host(host_response(0)), Err(Error::InvalidStatusCode(0))));
    assert!(matches!(response_from_host(host_response(600)), Err(Error::InvalidStatusCode(600))));
    assert!(matches!(response_from_host(host_response(99)), Err(Error::InvalidStatusCode(99))));
    assert_eq!(response_from_host(host_response(200)).unwrap().status, 200);
    assert_eq!(response_from_host(host_response(599)).unwrap().status, 599);
    assert_eq!(response_from_host(host_response(100)).unwrap().status, 100);
    let res = Response { status: 600, headers: vec![], body: Body::empty() };
    assert!(matches!(response_to_host(&res), Err(Error::InvalidStatusCode(600))));
}

#[test]
fn status_is_checked_before_headers() {
    let res = host::Response { status: 0, headers: Some(pairs(&[("bad name", "v")])), body: None };
    assert!(matches!(response_from_host(res), Err(Error::InvalidStatusCode(0))));
    let res = host::Response { status: 200, headers: Some(pairs(&[("bad name", "v")])), body: None };
    assert!(matches!(response_from_host(res), Err(Error::InvalidBody)));
}

#[test]
fn method_mapping_is_a_bijection_on_supported_methods() {
    let all = [
        host::Method::Get,
        host::Method::Post,
        host::Method::Put,
        host::Method::Delete,
        host::Method::Head,
        host::Method::Patch,
        host::Method::Options,
    ];
    let names = ["GET", "POST", "PUT", "DELETE", "HEAD", "PATCH", "OPTIONS"];
    for (h, name) in all.iter().zip(names.iter()) {
        let m = method_from_host(*h);
        assert_eq!(m.as_str(), *name);
        assert_eq!(to_http_client_method(&m).unwrap(), *h);
    }
    assert!(matches!(
        to_http_client_method(&Method::Connect),
        Err(Error::UnsupportedMethod(Method::Connect))
    ));
    assert!(matches!(
        to_http_client_method(&Method::Trace),
        Err(Error::UnsupportedMethod(Method::Trace))
    ));
}

#[test]
fn error_texts() {
    assert_eq!(
        Error::UnsupportedMethod(Method::Connect).to_string(),
        "method `CONNECT` is not supported"
    );
    assert_eq!(Error::BindgenHttpError("timeout".to_string()).to_string(), "http error: timeout");
    assert_eq!(Error::InvalidBody.to_string(), "invalid http body");
    assert_eq!(Error::InvalidStatusCode(600).to_string(), "invalid status code 600");
    assert_eq!(Error::InvalidStatusCode(0).to_string(), "invalid status code 0");
}

#[test]
fn body_labels_follow_the_source_shape() {
    assert_eq!(Body::empty().content_type(), "text/plain; charset=utf-8");
    assert_eq!(Body::empty().to_vec(), Vec::<u8>::new());
    assert_eq!(Body::default().content_type(), "text/plain; charset=utf-8");
    let text = Body::from_text("h\u{e9}");
    assert_eq!(text.content_type(), "text/plain; charset=utf-8");
    assert_eq!(text.to_vec(), vec![b'h', 0xc3, 0xa9]);
    let raw = Body::from_bytes(vec![0xff, 0]);
    assert_eq!(raw.content_type(), "application/octet-stream");
    assert_eq!(raw.to_vec(), vec![0xff, 0]);
    let json = Body::try_from_json(serde_json::Value::String("x".to_string())).unwrap();
    assert_eq!(json.content_type(), "application/json");
    assert_eq!(json.to_vec(), b"\"x\"".to_vec());
}

fn ok_handler(req: Request) -> Result<Response, String> {
    Ok(Response {
        status: 200,
        headers: pairs(&[("x-uri", req.uri.as_str())]),
        body: Body::from_text("hi"),
    })
}

fn get_request(headers: Vec<(String, String)>) -> host::Request {
    host::Request { method: host::Method::Get, uri: "/a".to_string(), headers, body: None }
}

#[test]
fn entry_point_returns_handler_response() {
    let r = process(get_request(vec![]), ok_handler);
    assert_eq!(r.status, 200);
    assert_eq!(r.headers, Some(pairs(&[("x-uri", "/a")])));
    assert_eq!(r.body, Some(b"hi".to_vec()));
}

#[test]
fn entry_point_turns_handler_error_into_500() {
    let r = process(get_request(vec![]), |_req: Request| Err("something broke".to_string()));
    assert_eq!(r.status, 500);
    assert_eq!(r.headers, Some(vec![]));
    assert_eq!(r.body, Some(b"something broke".to_vec()));
}

#[test]
fn entry_point_refuses_undecodable_request() {
    let mut called = false;
    let r = process(get_request(pairs(&[("bad name", "v")])), |req: Request| {
        called = true;
        ok_handler(req)
    });
    assert!(!called);
    assert_eq!(r.status, 500);
    assert_eq!(r.body, Some(b"http request decode error".to_vec()));
}

#[test]
fn entry_point_reports_unencodable_response() {
    let r = process(get_request(vec![]), |_req: Request| {
        Ok(Response { status: 700, headers: vec![], body: Body::empty() })
    });
    assert_eq!(r.status, 500);
    assert_eq!(r.body, Some(b"http response encode error".to_vec()));
}

#[test]
fn internal_error_and_reply() {
    let r = internal_error("oops");
    assert_eq!((r.status, r.headers, r.body), (500, Some(vec![]), Some(b"oops".to_vec())));
    let r = reply(Err("bad".to_string()));
    assert_eq!(r.body, Some(b"bad".to_vec()));
}

#[test]
fn outbound_call_success_and_failure() {
    let req = Request {
        method: Method::Get,
        uri: "https://backend/x".to_string(),
        headers: pairs(&[("accept", "*/*")]),
        body: Body::empty(),
    };
    let res = send_request(req, |h: host::Request| {
        assert_eq!(h.method, host::Method::Get);
        assert_eq!(h.uri, "https://backend/x");
        assert_eq!(h.headers, pairs(&[("accept", "*/*")]));
        assert_eq!(h.body, Some(vec![]));
        Ok(host::Response { status: 302, headers: Some(pairs(&[("location", "/y")])), body: Some(vec![7]) })
    })
    .unwrap();
    assert_eq!(res.status, 302);
    assert_eq!(res.headers, pairs(&[("location", "/y")]));
    assert_eq!(res.body.to_vec(), vec![7]);

    let req = Request { method: Method::Get, uri: "/".to_string(), headers: vec![], body: Body::empty() };
    let res = send_request(req, |_h: host::Request| Err("timeout".to_string()));
    assert!(matches!(res, Err(Error::BindgenHttpError(ref d)) if d == "timeout"));
}

#[test]
fn outbound_call_with_unsupported_method_is_not_sent() {
    let req = Request { method: Method::Trace, uri: "/".to_string(), headers: vec![], body: Body::empty() };
    let mut called = false;
    let res = send_request(req, |_h: host::Request| {
        called = true;
        Err("unreachable".to_string())
    });
    assert!(!called);
    assert!(matches!(res, Err(Error::UnsupportedMethod(Method::Trace))));
}

#[test]
fn outbound_reply_with_bad_status() {
    let res = translate_http_client_to_response(Ok(host_response(1000)));
    assert!(matches!(res, Err(Error::InvalidStatusCode(1000))));
}

#[test]
fn header_names_follow_the_token_rule() {
    let base = |name: String| host::Request {
        method: host::Method::Get,
        uri: "/".to_string(),
        headers: vec![(name, "v".to_string())],
        body: None,
    };
    assert!(request_from_host(base("X-Custom_Header.1~!#$%&'*+^`|".to_string())).is_ok());
    assert!(matches!(request_from_host(base("a:b".to_string())), Err(Error::InvalidBody)));
    assert!(matches!(request_from_host(base("caf\u{e9}".to_string())), Err(Error::InvalidBody)));
    assert!(request_from_host(base("a".repeat(65535))).is_ok());
    assert!(matches!(request_from_host(base("a".repeat(65536))), Err(Error::InvalidBody)));
}

#[test]
fn refused_request_is_not_encoded() {
    let req = Request {
        method: Method::Get,
        uri: "http://exa mple.com/".to_string(),
        headers: vec![],
        body: Body::empty(),
    };
    assert!(matches!(request_to_host(&req), Err(Error::InvalidBody)));
    let req = Request {
        method: Method::Get,
        uri: "/".to_string(),
        headers: pairs(&[("bad name", "v")]),
        body: Body::empty(),
    };
    assert!(matches!(request_to_host(&req), Err(Error::InvalidBody)));
    let req = Request {
        method: Method::Connect,
        uri: "http://exa mple.com/".to_string(),
        headers: vec![],
        body: Body::empty(),
    };
    assert!(matches!(request_to_host(&req), Err(Error::UnsupportedMethod(Method::Connect))));
}

#[test]
fn refused_response_is_not_encoded() {
    let res = Response { status: 200, headers: pairs(&[("x-ok", "a\nb")]), body: Body::empty() };
    assert!(matches!(response_to_host(&res), Err(Error::InvalidBody)));
    let res = Response { status: 600, headers: pairs(&[("bad name", "v")]), body: Body::empty() };
    assert!(matches!(response_to_host(&res), Err(Error::InvalidStatusCode(600))));
    let r = process(get_request(vec![]), |_req: Request| {
        Ok(Response { status: 200, headers: pairs(&[("bad name", "v")]), body: Body::empty() })
    });
    assert_eq!(r.status, 500);
    assert_eq!(r.body, Some(b"http response encode error".to_vec()));
}

#[test]
fn json_body_of_nested_value() {
    let mut map = serde_json::Map::new();
    map.insert("k".to_string(), serde_json::Value::Bool(true));
    let body = Body::try_from_json(serde_json::Value::Object(map)).unwrap();
    assert_eq!(body.to_vec(), b"{\"k\":true}".to_vec());
    assert_eq!(body.content_type(), "application/json");
}
