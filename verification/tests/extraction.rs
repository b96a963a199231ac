use conduit::bytes_request::BytesRequest;
use conduit::extract::{
    error_response, extract_body, BodyAccumulator, ExtractionFailure, SizeLimit, StreamEnd,
};
use conduit::request::{Headers, Method, RequestHead};

fn put_request_head() -> RequestHead {
    RequestHead {
        method: Method::Put,
        uri: String::from("/upload"),
        headers: Headers::new(),
    }
}

#[test]
fn content_length_too_large() {
    let chunks = vec![vec![0u8; 4097]];
    let resp = BytesRequest::from_request(
        put_request_head(),
        SizeLimit::Bounded(4096),
        &chunks,
        StreamEnd::Eof,
    )
    .err()
    .expect("should be a valid response");
    assert_eq!(resp.status, 400);
}

#[test]
fn bounded_exact_fit_three_chunks() {
    let chunks = vec![vec![1u8; 1000], vec![2u8; 3000], vec![3u8; 96]];
    let mut expected: Vec<u8> = Vec::new();
    expected.extend_from_slice(&chunks[0]);
    expected.extend_from_slice(&chunks[1]);
    expected.extend_from_slice(&chunks[2]);

    let req = BytesRequest::from_request(
        put_request_head(),
        SizeLimit::Bounded(4096),
        &chunks,
        StreamEnd::Eof,
    )
    .expect("a body that exactly fits the bound must extract");
    assert_eq!(req.body.len(), 4096);
    assert_eq!(req.body, expected);
    assert_eq!(req.content_length(), Some(4096));
}

#[test]
fn unbounded_empty_stream() {
    let chunks: Vec<Vec<u8>> = Vec::new();
    let buf = extract_body(SizeLimit::Unbounded, &chunks, StreamEnd::Eof)
        .expect("an empty stream must extract");
    assert!(buf.is_empty());
}

#[test]
fn unbounded_large_stream() {
    let chunks = vec![vec![5u8; 100_000], vec![6u8; 100_000], vec![7u8; 100_000]];
    let buf = extract_body(SizeLimit::Unbounded, &chunks, StreamEnd::Eof)
        .expect("an unbounded extraction must accept any finite stream");
    assert_eq!(buf.len(), 300_000);
    assert_eq!(buf[0], 5);
    assert_eq!(buf[299_999], 7);
}

#[test]
fn stream_fault_is_server_error() {
    let chunks = vec![vec![0u8; 10]];
    let r = extract_body(
        SizeLimit::Bounded(4096),
        &chunks,
        StreamEnd::Fault(String::from("connection reset")),
    );
    assert_eq!(
        r,
        Err(ExtractionFailure::StreamError(String::from(
            "connection reset"
        )))
    );

    let resp = BytesRequest::from_request(
        put_request_head(),
        SizeLimit::Bounded(4096),
        &chunks,
        StreamEnd::Fault(String::from("connection reset")),
    )
    .err()
    .expect("a faulted stream must be rejected");
    assert_eq!(resp.status, 500);
}

#[test]
fn fault_before_any_bytes() {
    let chunks: Vec<Vec<u8>> = Vec::new();
    let r = extract_body(
        SizeLimit::Unbounded,
        &chunks,
        StreamEnd::Fault(String::from("timeout")),
    );
    assert_eq!(
        r,
        Err(ExtractionFailure::StreamError(String::from("timeout")))
    );
}

#[test]
fn too_large_wins_over_later_fault() {
    let chunks = vec![vec![9u8; 3]];
    let r = extract_body(
        SizeLimit::Bounded(2),
        &chunks,
        StreamEnd::Fault(String::from("reset")),
    );
    assert_eq!(r, Err(ExtractionFailure::TooLarge));
}

#[test]
fn bounded_zero_rejects_first_nonzero_chunk() {
    let chunks = vec![vec![1u8]];
    let r = extract_body(SizeLimit::Bounded(0), &chunks, StreamEnd::Eof);
    assert_eq!(r, Err(ExtractionFailure::TooLarge));
}

#[test]
fn bounded_zero_accepts_empty_body() {
    let chunks: Vec<Vec<u8>> = Vec::new();
    let buf = extract_body(SizeLimit::Bounded(0), &chunks, StreamEnd::Eof)
        .expect("a zero-length body satisfies a zero bound");
    assert!(buf.is_empty());
}

#[test]
fn error_mapper_idempotent() {
    let too_large = ExtractionFailure::TooLarge;
    let first = error_response(&too_large);
    let second = error_response(&too_large);
    assert_eq!(first.status, second.status);
    assert_eq!(first.status, 400);
    assert!(first.is_client_error());

    let fault = ExtractionFailure::StreamError(String::from("decode error"));
    let first = error_response(&fault);
    let second = error_response(&fault);
    assert_eq!(first.status, second.status);
    assert_eq!(first.status, 500);
    assert!(first.is_server_error());
}

#[test]
fn error_responses_carry_no_detail() {
    let fault = ExtractionFailure::StreamError(String::from("secret internals"));
    let resp = error_response(&fault);
    assert!(resp.body.is_empty());
    assert_eq!(resp.headers.len(), 0);
}

#[test]
fn accumulator_tracks_chunks_in_order() {
    let mut acc = BodyAccumulator::new(SizeLimit::Bounded(8));
    assert_eq!(acc.len(), 0);
    acc.push(&[1, 2, 3]).expect("three bytes fit an eight-byte bound");
    acc.push(&[4, 5]).expect("five bytes fit an eight-byte bound");
    assert_eq!(acc.len(), 5);
    assert_eq!(acc.finish(), vec![1, 2, 3, 4, 5]);
}

#[test]
fn accumulator_releases_buffer_on_breach() {
    let mut acc = BodyAccumulator::new(SizeLimit::Bounded(4));
    acc.push(&[1, 2, 3]).expect("three bytes fit a four-byte bound");
    let r = acc.push(&[4, 5]);
    assert_eq!(r, Err(ExtractionFailure::TooLarge));
    assert_eq!(acc.len(), 0);
}

#[test]
fn extraction_preserves_request_head() {
    let mut headers = Headers::new();
    headers.add(String::from("content-type"), String::from("text/plain"));
    let head = RequestHead {
        method: Method::Post,
        uri: String::from("/echo"),
        headers,
    };
    let chunks = vec![b"hello".to_vec()];
    let req = BytesRequest::from_request(head, SizeLimit::Unbounded, &chunks, StreamEnd::Eof)
        .expect("a small body must extract");
    assert_eq!(*req.method(), Method::Post);
    assert_eq!(req.uri(), "/echo");
    assert_eq!(
        req.headers().find(&String::from("content-type")),
        Some(vec![String::from("text/plain")])
    );
    assert_eq!(req.body(), b"hello");
    assert_eq!(req.content_length(), Some(5));
}
