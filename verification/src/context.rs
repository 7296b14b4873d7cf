//! The shared runtime context and the canonical request each primitive
//! operation sends.

use std::sync::Arc;

use vstd::prelude::*;

use crate::path::{join_key, joined_key, percent_encode_key, percent_encoded};
use crate::types::{ByteRange, HttpClient, HttpRequest, ListQuery, Method};

verus! {

use vstd::string::StringSliceAdditionalSpecFns;

/// The immutable runtime context: resolved once at construction and then
/// shared read-only by the dispatcher and every live writer and pager.
#[derive(Debug)]
pub struct ObsCore {
    /// The bucket name; never empty.
    pub bucket: String,
    /// The normalized root prefix every path is joined under.
    pub root: Vec<u8>,
    /// The resolved base endpoint, scheme included.
    pub endpoint: String,
    /// Whether the endpoint uses the provider's default (virtual-hosted)
    /// addressing rather than a custom domain.
    pub default_style: bool,
    /// What the signer embeds in the signed canonical string: the bucket
    /// name under default addressing, the custom host otherwise.
    pub canonical_resource: String,
    /// The signing collaborator, bound to the canonical resource.
    pub signer: reqsign::HuaweicloudObsSigner,
    /// The transport handle.
    pub client: HttpClient,
}

/// Relies on `Arc::clone`: the clone is another handle to the same shared
/// allocation, so it carries the same value.
#[verifier::external_body]
pub(crate) fn share_core(c: &Arc<ObsCore>) -> (r: Arc<ObsCore>)
    ensures
        r == *c,
{
    Arc::clone(c)
}

/// The percent-encoded object resource for `path` under `root`.
pub open spec fn encoded_key(root: Seq<u8>, path: Seq<u8>) -> Seq<u8> {
    percent_encoded(joined_key(root, path))
}

impl ObsCore {
    /// The percent-encoded resource this context addresses `path` with.
    pub fn resource(&self, path: &str) -> (r: Vec<u8>)
        ensures
            r@ == encoded_key(self.root@, path.spec_bytes()),
    {
        let key = join_key(&self.root, path);
        percent_encode_key(&key)
    }

    /// The canonical upload request: a PUT of the whole body, with the
    /// body length and the caller's content type and match tag as typed
    /// headers when known.
    pub fn put_object_request(
        &self,
        path: &str,
        content_length: Option<u64>,
        content_type: Option<Vec<u8>>,
        if_match: Option<Vec<u8>>,
        body: Vec<u8>,
    ) -> (r: HttpRequest)
        ensures
            r.method == Method::Put,
            r.endpoint@ == self.endpoint@,
            r.resource@ == encoded_key(self.root@, path.spec_bytes()),
            r.query is None,
            r.content_length == content_length,
            r.content_type.deep_view() == content_type.deep_view(),
            r.if_match.deep_view() == if_match.deep_view(),
            r.range is None,
            r.copy_source is None,
            r.body@ == body@,
    {
        HttpRequest {
            method: Method::Put,
            endpoint: self.endpoint.clone(),
            resource: self.resource(path),
            query: None,
            content_length,
            content_type,
            if_match,
            range: None,
            copy_source: None,
            body,
        }
    }

    /// The canonical download request: a GET, ranged when the caller
    /// bounded the read, conditional when a match tag was supplied.
    pub fn get_object_request(&self, path: &str, range: ByteRange, if_match: Option<Vec<u8>>) -> (r:
        HttpRequest)
        ensures
            r.method == Method::Get,
            r.endpoint@ == self.endpoint@,
            r.resource@ == encoded_key(self.root@, path.spec_bytes()),
            r.query is None,
            r.content_length is None,
            r.content_type is None,
            r.if_match.deep_view() == if_match.deep_view(),
            r.range == (if range.offset is Some || range.size is Some {
                Some(range)
            } else {
                None::<ByteRange>
            }),
            r.copy_source is None,
            r.body@ == Seq::<u8>::empty(),
    {
        let eff_range = if range.offset.is_some() || range.size.is_some() {
            Some(range)
        } else {
            None
        };
        HttpRequest {
            method: Method::Get,
            endpoint: self.endpoint.clone(),
            resource: self.resource(path),
            query: None,
            content_length: None,
            content_type: None,
            if_match,
            range: eff_range,
            copy_source: None,
            body: Vec::new(),
        }
    }

    /// The canonical metadata request: a HEAD, conditional when a match
    /// tag was supplied.
    pub fn head_object_request(&self, path: &str, if_match: Option<Vec<u8>>) -> (r: HttpRequest)
        ensures
            r.method == Method::Head,
            r.endpoint@ == self.endpoint@,
            r.resource@ == encoded_key(self.root@, path.spec_bytes()),
            r.query is None,
            r.content_length is None,
            r.content_type is None,
            r.if_match.deep_view() == if_match.deep_view(),
            r.range is None,
            r.copy_source is None,
            r.body@ == Seq::<u8>::empty(),
    {
        HttpRequest {
            method: Method::Head,
            endpoint: self.endpoint.clone(),
            resource: self.resource(path),
            query: None,
            content_length: None,
            content_type: None,
            if_match,
            range: None,
            copy_source: None,
            body: Vec::new(),
        }
    }

    /// The canonical removal request: a DELETE of the addressed object.
    pub fn delete_object_request(&self, path: &str) -> (r: HttpRequest)
        ensures
            r.method == Method::Delete,
            r.endpoint@ == self.endpoint@,
            r.resource@ == encoded_key(self.root@, path.spec_bytes()),
            r.query is None,
            r.content_length is None,
            r.content_type is None,
            r.if_match is None,
            r.range is None,
            r.copy_source is None,
            r.body@ == Seq::<u8>::empty(),
    {
        HttpRequest {
            method: Method::Delete,
            endpoint: self.endpoint.clone(),
            resource: self.resource(path),
            query: None,
            content_length: None,
            content_type: None,
            if_match: None,
            range: None,
            copy_source: None,
            body: Vec::new(),
        }
    }

    /// The canonical copy request: a PUT addressed at the destination,
    /// naming the source as a slash-prefixed copy-source resource.
    pub fn copy_object_request(&self, from: &str, to: &str) -> (r: HttpRequest)
        ensures
            r.method == Method::Put,
            r.endpoint@ == self.endpoint@,
            r.resource@ == encoded_key(self.root@, to.spec_bytes()),
            r.query is None,
            r.content_length == Some(0u64),
            r.content_type is None,
            r.if_match is None,
            r.range is None,
            r.copy_source.deep_view() == Some(
                seq![47u8] + encoded_key(self.root@, from.spec_bytes()),
            ),
            r.body@ == Seq::<u8>::empty(),
    {
        let mut source: Vec<u8> = Vec::new();
        source.push(47);
        let mut from_resource = self.resource(from);
        source.append(&mut from_resource);
        proof {
            assert(source@ =~= seq![47u8] + encoded_key(self.root@, from.spec_bytes()));
        }
        HttpRequest {
            method: Method::Put,
            endpoint: self.endpoint.clone(),
            resource: self.resource(to),
            query: None,
            content_length: Some(0),
            content_type: None,
            if_match: None,
            range: None,
            copy_source: Some(source),
            body: Vec::new(),
        }
    }

    /// The canonical listing request: a GET at the bucket root whose query
    /// restricts keys to the path's prefix, groups them at the delimiter,
    /// resumes at the continuation marker, and caps the page size.
    pub fn list_objects_request(
        &self,
        path: &str,
        delimiter: &Vec<u8>,
        marker: &Vec<u8>,
        max_keys: Option<u32>,
    ) -> (r: HttpRequest)
        ensures
            r.method == Method::Get,
            r.endpoint@ == self.endpoint@,
            r.resource@ == Seq::<u8>::empty(),
            r.query matches Some(q) && {
                &&& q.prefix@ == encoded_key(self.root@, path.spec_bytes())
                &&& q.delimiter@ == delimiter@
                &&& q.marker@ == marker@
                &&& q.max_keys == max_keys
            },
            r.content_length is None,
            r.content_type is None,
            r.if_match is None,
            r.range is None,
            r.copy_source is None,
            r.body@ == Seq::<u8>::empty(),
    {
        HttpRequest {
            method: Method::Get,
            endpoint: self.endpoint.clone(),
            resource: Vec::new(),
            query: Some(
                ListQuery {
                    prefix: self.resource(path),
                    delimiter: delimiter.clone(),
                    marker: marker.clone(),
                    max_keys,
                },
            ),
            content_length: None,
            content_type: None,
            if_match: None,
            range: None,
            copy_source: None,
            body: Vec::new(),
        }
    }
}

} // verus!
