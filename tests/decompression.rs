use gateway_router::context::Context;
use gateway_router::headers::Headers;
use gateway_router::pipeline::{prepare, Request, ResponseHead};
use gateway_router::uri::Uri;
use std::convert::Infallible;
use tower::{Service, ServiceExt};

const GZIP_HELLO: [u8; 25] = [
    0x1f, 0x8b, 0x08, 0x00, 0x00, 0x00, 0x00, 0x00, 0x02, 0x03, 0xcb, 0x48, 0xcd, 0xc9, 0xc9, 0x07,
    0x00, 0x86, 0xa6, 0x10, 0x36, 0x05, 0x00, 0x00, 0x00,
];
const DEFLATE_HELLO: [u8; 13] = [0x78, 0x9c, 0xcb, 0x48, 0xcd, 0xc9, 0xc9, 0x07, 0x00, 0x06, 0x2c, 0x02, 0x15];
const BROTLI_HELLO: [u8; 9] = [0x0b, 0x02, 0x80, 0x68, 0x65, 0x6c, 0x6c, 0x6f, 0x03];

fn to_headers(map: &http::HeaderMap) -> Headers {
    let mut h = Headers::new();
    for (name, value) in map {
        h.append(name.as_str().as_bytes(), value.as_bytes());
    }
    h
}

/// Sends a GET through the pipeline's steps to a mock peer that answers with
/// `body` under `coding`, reading the response through the decompression layer.
fn round_trip(coding: Option<&'static str>, body: &'static [u8]) -> (u16, Vec<u8>) {
    let runtime = tokio::runtime::Builder::new_current_thread().build().unwrap();
    runtime.block_on(async move {
        let request = Request {
            method: "GET".to_string(),
            uri: Uri {
                scheme: Some("https".to_string()),
                host: Some("api.example".to_string()),
                port: None,
                path: "/test".to_string(),
                text: "https://api.example/test".to_string(),
            },
            headers: Headers::new(),
            context: Context::new(),
        };
        let prepared = prepare(request, Ok(Vec::new())).ok().unwrap();
        let (in_flight, outbound) = prepared.on_ready(Ok(())).ok().unwrap();

        let peer = tower::service_fn(move |_req: http::Request<hyper::Body>| async move {
            let mut builder = http::Response::builder().status(200);
            if let Some(c) = coding {
                builder = builder.header("content-encoding", c);
            }
            Ok::<_, Infallible>(builder.body(hyper::Body::from(body)).unwrap())
        });
        let mut client = tower_http::decompression::Decompression::new(peer);

        let mut wire = http::Request::builder().method("GET").uri(outbound.uri.text.as_str());
        for i in 0..outbound.headers.len() {
            wire = wire.header(outbound.headers.name_at(i).as_slice(), outbound.headers.value_at(i).as_slice());
        }
        let wire = wire.body(hyper::Body::from(outbound.body)).unwrap();
        let response = client.ready().await.unwrap().call(wire).await.unwrap();
        let (parts, body) = response.into_parts();
        let head = ResponseHead { status: parts.status.as_u16(), headers: to_headers(&parts.headers) };
        let done = in_flight.on_response(Ok(head)).ok().unwrap();
        let bytes = hyper::body::to_bytes(body).await.unwrap();
        (done.status, bytes.to_vec())
    })
}

#[test]
fn gzip_hello_is_decompressed() {
    assert_eq!(round_trip(Some("gzip"), &GZIP_HELLO), (200, b"hello".to_vec()));
}

#[test]
fn brotli_hello_is_decompressed() {
    assert_eq!(round_trip(Some("br"), &BROTLI_HELLO), (200, b"hello".to_vec()));
}

#[test]
fn deflate_hello_is_decompressed() {
    assert_eq!(round_trip(Some("deflate"), &DEFLATE_HELLO), (200, b"hello".to_vec()));
}

#[test]
fn identity_hello_is_unchanged() {
    assert_eq!(round_trip(Some("identity"), b"hello"), (200, b"hello".to_vec()));
    assert_eq!(round_trip(None, b"hello"), (200, b"hello".to_vec()));
}

/// Runs one call to `authority` through the pipeline's steps against a mock
/// transport that answers each request with the authority it was sent to.
async fn call_authority(authority: String) -> (String, Vec<u8>) {
    let request = Request {
        method: "GET".to_string(),
        uri: Uri {
            scheme: Some("http".to_string()),
            host: Some(authority.clone()),
            port: Some(8080),
            path: "/".to_string(),
            text: format!("http://{authority}:8080/"),
        },
        headers: Headers::new(),
        context: Context::new(),
    };
    let prepared = prepare(request, Ok(authority.clone().into_bytes())).ok().unwrap();
    let (in_flight, outbound) = prepared.on_ready(Ok(())).ok().unwrap();
    let transport = tower::service_fn(|req: http::Request<hyper::Body>| async move {
        tokio::task::yield_now().await;
        let host = req.uri().host().unwrap_or_default().to_string();
        Ok::<_, Infallible>(http::Response::builder().status(200).body(hyper::Body::from(host)).unwrap())
    });
    let mut client = tower_http::decompression::Decompression::new(transport);
    let wire = http::Request::builder()
        .uri(outbound.uri.text.as_str())
        .body(hyper::Body::from(outbound.body))
        .unwrap();
    let response = client.ready().await.unwrap().call(wire).await.unwrap();
    let (parts, body) = response.into_parts();
    let head = ResponseHead { status: parts.status.as_u16(), headers: to_headers(&parts.headers) };
    let done = in_flight.on_response(Ok(head)).ok().unwrap();
    assert_eq!(done.context.active_requests(), 0);
    (authority, hyper::body::to_bytes(body).await.unwrap().to_vec())
}

#[test]
fn concurrent_calls_keep_their_own_payloads() {
    let runtime = tokio::runtime::Builder::new_multi_thread().worker_threads(4).build().unwrap();
    runtime.block_on(async {
        let tasks: Vec<_> = (0..16)
            .map(|i| tokio::spawn(call_authority(format!("upstream-{i}.example"))))
            .collect();
        for task in tasks {
            let (authority, payload) = task.await.unwrap();
            assert_eq!(payload, authority.into_bytes());
        }
    });
}
