//! Per-operation behaviour: request shapes, the status-interpretation
//! table, the writer, and the write/read round trip against a scripted
//! store.

use obs_backend::backend::{ObsBackend, ObsBuilder, StatStep};
use obs_backend::error::ErrorKind;
use obs_backend::types::{
    ByteRange, EntryMode, Header, HeaderName, HttpResponse, Method, OpCopy, OpCreate,
    OpRead, OpStat, OpWrite,
};
use obs_backend::writer::ObsWriter;

fn backend() -> ObsBackend {
    let mut b = ObsBuilder::new();
    b.bucket("test");
    b.endpoint("https://custom.obs.com");
    b.root("/work");
    b.build().unwrap()
}

fn ok_response(headers: Vec<Header>, body: Vec<u8>) -> HttpResponse {
    HttpResponse { status: 200, headers, body }
}

fn status_response(status: u16) -> HttpResponse {
    HttpResponse { status, headers: Vec::new(), body: Vec::new() }
}

fn full_range() -> ByteRange {
    ByteRange { offset: None, size: None }
}

#[test]
fn create_dir_request_is_an_empty_put() {
    let b = backend();
    let req = b.create_dir_request("dir/", &OpCreate {});
    assert_eq!(req.method, Method::Put);
    assert_eq!(req.endpoint, "https://custom.obs.com");
    assert_eq!(req.resource, b"work/dir/".to_vec());
    assert_eq!(req.content_length, Some(0));
    assert!(req.body.is_empty());
}

#[test]
fn create_dir_succeeds_on_200_and_201() {
    let b = backend();
    assert!(b.create_dir_response(status_response(200)).is_ok());
    assert!(b.create_dir_response(status_response(201)).is_ok());
    let err = b.create_dir_response(status_response(409)).unwrap_err();
    assert_eq!(err.kind(), ErrorKind::Unexpected);
}

#[test]
fn resource_paths_are_percent_encoded() {
    let b = backend();
    let req = b.read_request("a b+c", &OpRead { range: full_range(), if_match: None });
    assert_eq!(req.resource, b"work/a%20b%2Bc".to_vec());
}

#[test]
fn read_returns_metadata_and_the_exact_body() {
    let b = backend();
    let headers = vec![
        Header { name: HeaderName::ContentLength, value: b"5".to_vec() },
        Header { name: HeaderName::Etag, value: b"abc".to_vec() },
    ];
    let resp = ok_response(headers, b"hello".to_vec());
    let (meta, body) = b.read_response("file", resp).unwrap();
    assert_eq!(meta.content_length, 5);
    assert_eq!(meta.etag, Some(b"abc".to_vec()));
    assert_eq!(meta.mode, EntryMode::File);
    assert_eq!(body, b"hello".to_vec());
}

#[test]
fn read_accepts_partial_content() {
    let b = backend();
    let resp = HttpResponse { status: 206, headers: Vec::new(), body: b"ell".to_vec() };
    let (meta, body) = b.read_response("file", resp).unwrap();
    assert_eq!(meta.content_length, 0);
    assert_eq!(body, b"ell".to_vec());
}

#[test]
fn read_maps_404_to_not_found() {
    let b = backend();
    let err = b.read_response("file", status_response(404)).unwrap_err();
    assert_eq!(err.kind(), ErrorKind::NotFound);
}

#[test]
fn malformed_content_length_is_unexpected() {
    let b = backend();
    let headers = vec![Header { name: HeaderName::ContentLength, value: b"5x".to_vec() }];
    let err = b.read_response("file", ok_response(headers, Vec::new())).unwrap_err();
    assert_eq!(err.kind(), ErrorKind::Unexpected);
}

#[test]
fn stat_root_answers_directory_without_any_request() {
    let b = backend();
    match b.stat_step("/", &OpStat { if_match: None }) {
        StatStep::Ready(meta) => {
            assert_eq!(meta.mode, EntryMode::Dir);
            assert_eq!(meta.content_length, 0);
        }
        StatStep::Fetch(_) => panic!("stat of the root must not touch the network"),
    }
}

#[test]
fn stat_elsewhere_sends_a_head_request() {
    let b = backend();
    match b.stat_step("file", &OpStat { if_match: Some(b"tag".to_vec()) }) {
        StatStep::Ready(_) => panic!("a non-root stat needs a request"),
        StatStep::Fetch(req) => {
            assert_eq!(req.method, Method::Head);
            assert_eq!(req.resource, b"work/file".to_vec());
            assert_eq!(req.if_match, Some(b"tag".to_vec()));
        }
    }
}

#[test]
fn stat_404_on_directory_path_is_a_directory() {
    let b = backend();
    let meta = b.stat_response("dir/", status_response(404)).unwrap();
    assert_eq!(meta.mode, EntryMode::Dir);
    assert_eq!(meta.content_length, 0);
}

#[test]
fn stat_404_on_file_path_is_not_found() {
    let b = backend();
    let err = b.stat_response("file", status_response(404)).unwrap_err();
    assert_eq!(err.kind(), ErrorKind::NotFound);
}

#[test]
fn stat_412_is_precondition_failed() {
    let b = backend();
    let err = b.stat_response("file", status_response(412)).unwrap_err();
    assert_eq!(err.kind(), ErrorKind::PreconditionFailed);
}

#[test]
fn delete_treats_absent_as_deleted() {
    let b = backend();
    assert!(b.delete_response(status_response(204)).is_ok());
    assert!(b.delete_response(status_response(202)).is_ok());
    assert!(b.delete_response(status_response(404)).is_ok());
    let err = b.delete_response(status_response(500)).unwrap_err();
    assert_eq!(err.kind(), ErrorKind::Unexpected);
}

#[test]
fn copy_names_source_and_destination() {
    let b = backend();
    let req = b.copy_request("from.txt", "to.txt", &OpCopy {});
    assert_eq!(req.method, Method::Put);
    assert_eq!(req.resource, b"work/to.txt".to_vec());
    assert_eq!(req.copy_source, Some(b"/work/from.txt".to_vec()));
    assert!(b.copy_response(status_response(200)).is_ok());
    assert!(b.copy_response(status_response(201)).is_err());
}

#[test]
fn append_write_is_refused_before_any_request() {
    let b = backend();
    let err = b
        .write("file", OpWrite { append: true, content_type: None, if_match: None })
        .unwrap_err();
    assert_eq!(err.kind(), ErrorKind::Unsupported);
}

#[test]
fn writer_builds_an_exact_put() {
    let b = backend();
    let w = b
        .write(
            "file",
            OpWrite { append: false, content_type: Some(b"text/plain".to_vec()), if_match: None },
        )
        .unwrap();
    let req = w.write_request(b"hello".to_vec());
    assert_eq!(req.method, Method::Put);
    assert_eq!(req.resource, b"work/file".to_vec());
    assert_eq!(req.content_length, Some(5));
    assert_eq!(req.content_type, Some(b"text/plain".to_vec()));
    assert_eq!(req.body, b"hello".to_vec());
}

#[test]
fn writer_append_always_fails() {
    let b = backend();
    let mut w = b
        .write("file", OpWrite { append: false, content_type: None, if_match: None })
        .unwrap();
    let err = w.append(&b"more".to_vec()).unwrap_err();
    assert_eq!(err.kind(), ErrorKind::Unsupported);
}

#[test]
fn writer_abort_and_close_are_no_ops() {
    let b = backend();
    let mut w = ObsWriter::new(
        b.core.clone(),
        OpWrite { append: false, content_type: None, if_match: None },
        "file".to_string(),
    );
    assert!(w.abort().is_ok());
    assert!(w.close().is_ok());
}

#[test]
fn writer_accepts_200_and_201_only() {
    let b = backend();
    let w = b
        .write("file", OpWrite { append: false, content_type: None, if_match: None })
        .unwrap();
    assert!(w.write_response(status_response(200)).is_ok());
    assert!(w.write_response(status_response(201)).is_ok());
    let err = w.write_response(status_response(403)).unwrap_err();
    assert_eq!(err.kind(), ErrorKind::Unexpected);
}

#[test]
fn content_length_at_the_64_bit_limit_is_accepted() {
    let b = backend();
    let headers = vec![Header {
        name: HeaderName::ContentLength,
        value: b"18446744073709551615".to_vec(),
    }];
    let (meta, _) = b.read_response("file", ok_response(headers, Vec::new())).unwrap();
    assert_eq!(meta.content_length, u64::MAX);
}

#[test]
fn content_length_past_the_64_bit_limit_is_rejected() {
    let b = backend();
    let headers = vec![Header {
        name: HeaderName::ContentLength,
        value: b"18446744073709551616".to_vec(),
    }];
    let err = b.read_response("file", ok_response(headers, Vec::new())).unwrap_err();
    assert_eq!(err.kind(), ErrorKind::Unexpected);
}

#[test]
fn stat_200_on_directory_path_is_a_directory() {
    let b = backend();
    let meta = b.stat_response("dir/", status_response(200)).unwrap();
    assert_eq!(meta.mode, EntryMode::Dir);
}

#[test]
fn bounded_reads_carry_their_range() {
    let b = backend();
    let req = b.read_request(
        "file",
        &OpRead { range: ByteRange { offset: Some(2), size: Some(3) }, if_match: None },
    );
    let range = req.range.unwrap();
    assert_eq!(range.offset, Some(2));
    assert_eq!(range.size, Some(3));
    let full = b.read_request("file", &OpRead { range: full_range(), if_match: None });
    assert!(full.range.is_none());
}

#[test]
fn unexpected_errors_keep_status_and_body() {
    let b = backend();
    let resp = HttpResponse { status: 503, headers: Vec::new(), body: b"busy".to_vec() };
    let err = b.delete_response(resp).unwrap_err();
    assert_eq!(err.kind(), ErrorKind::Unexpected);
    assert_eq!(err.status, Some(503));
    assert_eq!(err.body, b"busy".to_vec());
}

#[test]
fn write_then_read_round_trips_the_bytes() {
    let b = backend();
    let written = b"round trip payload".to_vec();
    let w = b
        .write("file", OpWrite { append: false, content_type: None, if_match: None })
        .unwrap();
    let put = w.write_request(written.clone());
    assert!(w.write_response(status_response(200)).is_ok());

    // The scripted store keeps exactly what the put carried.
    let stored = put.body;
    let resp = HttpResponse {
        status: 200,
        headers: vec![
            Header { name: HeaderName::ContentLength, value: stored.len().to_string().into_bytes() },
        ],
        body: stored,
    };
    let (meta, body) = b.read_response("file", resp).unwrap();
    assert_eq!(body, written);
    assert_eq!(meta.content_length as usize, written.len());
}
