//! The data model this layer works with: canonical requests, raw responses,
//! per-call options, and the metadata derived from response headers.
//!
//! Requests are built here as plain values; a driver outside this layer
//! turns them into wire-level HTTP, signs them with the signer handle held
//! by the runtime context, and sends them through the transport.

use vstd::prelude::*;

use crate::error::{Error, ErrorKind};
use crate::path::{all_digits, dec_value, ends_with_slash, parse_dec_u64, path_ends_with_slash};

verus! {

use vstd::string::StringSliceAdditionalSpecFns;

/// The HTTP verb of a canonical request.
#[derive(Clone, Copy, PartialEq, Eq, Structural, Debug)]
pub enum Method {
    Get,
    Put,
    Head,
    Delete,
}

/// The query parameters of a listing request.
#[derive(Clone, Debug)]
pub struct ListQuery {
    /// Listing is restricted to keys with this (already encoded) prefix.
    pub prefix: Vec<u8>,
    /// Keys are grouped at this separator; empty means no grouping.
    pub delimiter: Vec<u8>,
    /// The continuation marker of the previous page; empty on the first page.
    pub marker: Vec<u8>,
    /// The per-page result cap, when one was configured.
    pub max_keys: Option<u32>,
}

/// An inclusive byte range for a ranged read; either bound may be open.
#[derive(Clone, Copy, PartialEq, Eq, Structural, Debug)]
pub struct ByteRange {
    /// First byte offset wanted, if bounded below.
    pub offset: Option<u64>,
    /// Number of bytes wanted, if bounded.
    pub size: Option<u64>,
}

/// One canonical request, ready to be signed and sent.
///
/// The full URL is `endpoint` + `/` + `resource` (+ the listing query);
/// the typed header fields become headers only when set.
#[derive(Clone, Debug)]
pub struct HttpRequest {
    pub method: Method,
    /// The resolved base endpoint, scheme included.
    pub endpoint: String,
    /// The percent-encoded, root-joined object key.
    pub resource: Vec<u8>,
    /// Query parameters; only listing requests carry any.
    pub query: Option<ListQuery>,
    /// Sent as `content-length` when the body length is known.
    pub content_length: Option<u64>,
    /// Sent as `content-type` when supplied by the caller.
    pub content_type: Option<Vec<u8>>,
    /// Sent as `if-match` when supplied by the caller.
    pub if_match: Option<Vec<u8>>,
    /// Sent as a range header on ranged reads.
    pub range: Option<ByteRange>,
    /// The copy source resource, on copy requests only.
    pub copy_source: Option<Vec<u8>>,
    /// The request body.
    pub body: Vec<u8>,
}

/// The response headers this layer reads.
#[derive(Clone, Copy, PartialEq, Eq, Structural, Debug)]
pub enum HeaderName {
    ContentLength,
    ContentType,
    Etag,
    LastModified,
}

/// One response header.
#[derive(Clone, Debug)]
pub struct Header {
    pub name: HeaderName,
    pub value: Vec<u8>,
}

/// What the transport hands back: a status, the headers, and the fully
/// drained body.
#[derive(Clone, Debug)]
pub struct HttpResponse {
    pub status: u16,
    pub headers: Vec<Header>,
    pub body: Vec<u8>,
}

/// Whether an entry is an object or a directory.
#[derive(Clone, Copy, PartialEq, Eq, Structural, Debug)]
pub enum EntryMode {
    File,
    Dir,
    Unknown,
}

/// Metadata derived from response headers; never persisted.
#[derive(Clone, Debug)]
pub struct Metadata {
    pub mode: EntryMode,
    pub content_length: u64,
    pub content_type: Option<Vec<u8>>,
    pub etag: Option<Vec<u8>>,
    pub last_modified: Option<Vec<u8>>,
}

/// One listing result: a path relative to the root, with its metadata.
#[derive(Clone, Debug)]
pub struct Entry {
    pub path: Vec<u8>,
    pub metadata: Metadata,
}

/// Per-call options for a read.
#[derive(Clone, Debug)]
pub struct OpRead {
    pub range: ByteRange,
    pub if_match: Option<Vec<u8>>,
}

/// Per-call options for a write.
#[derive(Clone, Debug)]
pub struct OpWrite {
    pub append: bool,
    pub content_type: Option<Vec<u8>>,
    pub if_match: Option<Vec<u8>>,
}

/// Per-call options for a stat.
#[derive(Clone, Debug)]
pub struct OpStat {
    pub if_match: Option<Vec<u8>>,
}

/// Per-call options for a directory creation.
#[derive(Clone, Copy, Debug)]
pub struct OpCreate {}

/// Per-call options for a delete.
#[derive(Clone, Copy, Debug)]
pub struct OpDelete {}

/// Per-call options for a copy.
#[derive(Clone, Copy, Debug)]
pub struct OpCopy {}

/// Per-call options for a grouped listing.
#[derive(Clone, Copy, Debug)]
pub struct OpList {
    pub limit: Option<u32>,
}

/// Per-call options for a flat recursive listing.
#[derive(Clone, Copy, Debug)]
pub struct OpScan {
    pub limit: Option<u32>,
}

/// What the backend can do, as reported to callers.
#[derive(Clone, Copy, PartialEq, Eq, Structural, Debug)]
pub struct Capabilities {
    pub read: bool,
    pub write: bool,
    pub copy: bool,
    pub list: bool,
    pub scan: bool,
    pub presign: bool,
    pub blocking: bool,
}

/// A description of one configured backend: its root, its bucket, what it
/// supports, and whether reads stream.
#[derive(Clone, Debug)]
pub struct AccessorInfo {
    /// The service tag of this backend kind.
    pub scheme: String,
    pub root: Vec<u8>,
    pub name: String,
    pub capabilities: Capabilities,
    pub read_streamable: bool,
}

/// A stand-in for the transport collaborator: the transport itself (the
/// code that opens connections and moves bytes) lives outside this layer;
/// this handle only records that one was chosen.
#[derive(Clone, Copy, Debug)]
pub struct HttpClient {}

impl HttpClient {
    /// The default transport handle.
    pub fn new() -> (r: Result<HttpClient, Error>)
        ensures
            r is Ok,
    {
        Ok(HttpClient {  })
    }
}

/// The value of the first header with the given name, if any.
pub open spec fn header_value(hs: Seq<Header>, n: HeaderName) -> Option<Seq<u8>>
    decreases hs.len(),
{
    if hs.len() == 0 {
        None
    } else if hs[0].name == n {
        Some(hs[0].value@)
    } else {
        header_value(hs.drop_first(), n)
    }
}

/// Find the first header with the given name.
pub fn find_header(hs: &Vec<Header>, n: HeaderName) -> (r: Option<Vec<u8>>)
    ensures
        r is Some <==> header_value(hs@, n) is Some,
        r matches Some(v) ==> header_value(hs@, n) == Some(v@),
{
    let mut i: usize = 0;
    proof {
        assert(hs@.skip(0) =~= hs@);
    }
    while i < hs.len()
        invariant
            i <= hs@.len(),
            header_value(hs@, n) == header_value(hs@.skip(i as int), n),
        decreases hs@.len() - i,
    {
        proof {
            assert(hs@.skip(i as int)[0] == hs@[i as int]);
            assert(hs@.skip(i as int).drop_first() =~= hs@.skip(i + 1));
        }
        if hs[i].name == n {
            return Some(hs[i].value.clone());
        }
        i = i + 1;
    }
    proof {
        assert(hs@.skip(hs@.len() as int).len() == 0);
    }
    None
}

/// Whether the content-length header, if present, is a well-formed size.
pub open spec fn content_length_ok(hs: Seq<Header>) -> bool {
    match header_value(hs, HeaderName::ContentLength) {
        Some(v) => v.len() > 0 && all_digits(v) && dec_value(v) <= u64::MAX,
        None => true,
    }
}

/// The size the headers state, with 0 for a missing header.
pub open spec fn stated_content_length(hs: Seq<Header>) -> int {
    match header_value(hs, HeaderName::ContentLength) {
        Some(v) => dec_value(v),
        None => 0,
    }
}

/// Derive entry metadata from the headers of a successful response: the
/// entry kind follows the path's trailing separator, the size comes from
/// the content-length header (0 when absent), and the entity tag, content
/// type and last-modified stamp are carried over as given. A malformed
/// content-length is the one rejection.
pub fn parse_into_metadata(path: &str, hs: &Vec<Header>) -> (r: Result<Metadata, Error>)
    ensures
        r is Ok <==> content_length_ok(hs@),
        r matches Ok(m) ==> {
            &&& m.mode == (if ends_with_slash(path.spec_bytes()) {
                EntryMode::Dir
            } else {
                EntryMode::File
            })
            &&& m.content_length == stated_content_length(hs@)
            &&& m.content_type.deep_view() == header_value(hs@, HeaderName::ContentType)
            &&& m.etag.deep_view() == header_value(hs@, HeaderName::Etag)
            &&& m.last_modified.deep_view() == header_value(hs@, HeaderName::LastModified)
        },
        r matches Err(e) ==> e.kind == ErrorKind::Unexpected,
{
    let mode = if path_ends_with_slash(path) {
        EntryMode::Dir
    } else {
        EntryMode::File
    };
    let content_length: u64 = match find_header(hs, HeaderName::ContentLength) {
        Some(v) => match parse_dec_u64(&v) {
            Some(n) => n,
            None => {
                return Err(Error::new(ErrorKind::Unexpected, "invalid content-length header"));
            },
        },
        None => 0,
    };
    Ok(Metadata {
        mode,
        content_length,
        content_type: find_header(hs, HeaderName::ContentType),
        etag: find_header(hs, HeaderName::Etag),
        last_modified: find_header(hs, HeaderName::LastModified),
    })
}

} // verus!
