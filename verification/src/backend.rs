//! Configuration resolution and the operation dispatcher: a builder that
//! validates raw options into an immutable runtime context, and the
//! per-operation request builders and status-code interpreters.

use std::sync::Arc;

use vstd::prelude::*;

use crate::context::{encoded_key, share_core, ObsCore};
use crate::error::{error_kind_of_status, parse_error, Error, ErrorKind};
use crate::path::{
    ends_with_slash, has_prefix, has_suffix, normalize_root, normalized_root, path_is_root,
    str_eq, utf8_bytes,
};
use crate::pager::ObsPager;
use crate::types::{
    content_length_ok, header_value, stated_content_length, parse_into_metadata, AccessorInfo,
    Capabilities, EntryMode, HeaderName, HttpClient, HttpRequest, HttpResponse, Metadata, Method,
    OpCopy, OpCreate, OpDelete, OpList, OpRead, OpScan, OpStat, OpWrite,
};
use crate::uri::{split_endpoint, uri_host_of, uri_ok, uri_scheme_of};
use crate::writer::ObsWriter;

verus! {

use vstd::string::StringSliceAdditionalSpecFns;
use vstd::string::StrSliceExecFns;
use vstd::string::StringExecFns;

/// The abstract value of a builder: which options have been supplied, and
/// with what content.
pub struct ObsBuilderConfig {
    pub root: Option<Seq<char>>,
    pub endpoint: Option<Seq<char>>,
    pub access_key_id: Option<Seq<char>>,
    pub secret_access_key: Option<Seq<char>>,
    pub bucket: Option<Seq<char>>,
    pub has_client: bool,
}

/// Collects raw configuration options and resolves them into a backend.
pub struct ObsBuilder {
    pub root: Option<String>,
    pub endpoint: Option<String>,
    pub access_key_id: Option<String>,
    pub secret_access_key: Option<String>,
    pub bucket: Option<String>,
    pub http_client: Option<HttpClient>,
}

impl View for ObsBuilder {
    type V = ObsBuilderConfig;

    open spec fn view(&self) -> ObsBuilderConfig {
        ObsBuilderConfig {
            root: if self.root is Some {
                Some(self.root->Some_0@)
            } else {
                None
            },
            endpoint: if self.endpoint is Some {
                Some(self.endpoint->Some_0@)
            } else {
                None
            },
            access_key_id: if self.access_key_id is Some {
                Some(self.access_key_id->Some_0@)
            } else {
                None
            },
            secret_access_key: if self.secret_access_key is Some {
                Some(self.secret_access_key->Some_0@)
            } else {
                None
            },
            bucket: if self.bucket is Some {
                Some(self.bucket->Some_0@)
            } else {
                None
            },
            has_client: self.http_client is Some,
        }
    }
}

/// A character string with its trailing slashes removed.
pub open spec fn trimmed_end_slashes(s: Seq<char>) -> Seq<char>
    decreases s.len(),
{
    if s.len() > 0 && s.last() == '/' {
        trimmed_end_slashes(s.drop_last())
    } else {
        s
    }
}

/// The UTF-8 bytes of `obs.`, the lead of the provider's default domains.
pub open spec fn default_domain_lead() -> Seq<u8> {
    seq![111u8, 98u8, 115u8, 46u8]
}

/// The UTF-8 bytes of `.myhuaweicloud.com`, the tail of the provider's
/// default domains.
pub open spec fn default_domain_tail() -> Seq<u8> {
    seq![
        46u8,
        109u8,
        121u8,
        104u8,
        117u8,
        97u8,
        119u8,
        101u8,
        105u8,
        99u8,
        108u8,
        111u8,
        117u8,
        100u8,
        46u8,
        99u8,
        111u8,
        109u8,
    ]
}

/// Whether a host is one of the provider's default domains
/// (`obs.<region>.myhuaweicloud.com`-shaped), which get virtual-hosted
/// addressing.
pub open spec fn is_default_host(h: Seq<u8>) -> bool {
    &&& h.len() >= 18
    &&& h.len() >= 4
    &&& h.subrange(0, 4) == default_domain_lead()
    &&& h.subrange(h.len() - 18, h.len() as int) == default_domain_tail()
}

/// The endpoint's scheme, with `https` as the default for endpoints that
/// name none.
pub open spec fn scheme_or_default(ep: Seq<char>) -> Seq<char> {
    match uri_scheme_of(ep) {
        Some(s) => s,
        None => "https"@,
    }
}

/// Whether the endpoint resolves to default (virtual-hosted) addressing.
pub open spec fn resolved_style_default(ep: Seq<char>) -> bool {
    is_default_host(utf8_bytes(uri_host_of(ep)))
}

/// The resolved base endpoint: the scheme, then the bucket prefixed onto a
/// default-domain host, or a custom host unchanged.
pub open spec fn resolved_endpoint(bucket: Seq<char>, ep: Seq<char>) -> Seq<char> {
    if resolved_style_default(ep) {
        scheme_or_default(ep) + "://"@ + bucket + "."@ + uri_host_of(ep)
    } else {
        scheme_or_default(ep) + "://"@ + uri_host_of(ep)
    }
}

/// What the signer embeds in the canonical string: the bucket name under
/// default addressing, the custom host otherwise.
pub open spec fn canonical_resource_of(bucket: Seq<char>, ep: Seq<char>) -> Seq<char> {
    if resolved_style_default(ep) {
        bucket
    } else {
        uri_host_of(ep)
    }
}

/// An optional string's content, empty when unset.
pub open spec fn opt_or_empty(r: Option<Seq<char>>) -> Seq<char> {
    match r {
        Some(s) => s,
        None => Seq::empty(),
    }
}

/// A builder with nothing configured yet.
pub open spec fn empty_config() -> ObsBuilderConfig {
    ObsBuilderConfig {
        root: None,
        endpoint: None,
        access_key_id: None,
        secret_access_key: None,
        bucket: None,
        has_client: false,
    }
}

/// One string-keyed option applied to a builder: the recognized keys set
/// their field (the endpoint with its trailing slashes dropped), an empty
/// value or an unrecognized key changes nothing.
pub open spec fn applied_option(c: ObsBuilderConfig, k: Seq<char>, v: Seq<char>) -> ObsBuilderConfig {
    if v.len() == 0 {
        c
    } else if k == "root"@ {
        ObsBuilderConfig { root: Some(v), ..c }
    } else if k == "bucket"@ {
        ObsBuilderConfig { bucket: Some(v), ..c }
    } else if k == "endpoint"@ {
        ObsBuilderConfig { endpoint: Some(trimmed_end_slashes(v)), ..c }
    } else if k == "access_key_id"@ {
        ObsBuilderConfig { access_key_id: Some(v), ..c }
    } else if k == "secret_access_key"@ {
        ObsBuilderConfig { secret_access_key: Some(v), ..c }
    } else {
        c
    }
}

/// A whole option list applied in order.
pub open spec fn applied_options(
    c: ObsBuilderConfig,
    pairs: Seq<(Seq<char>, Seq<char>)>,
) -> ObsBuilderConfig
    decreases pairs.len(),
{
    if pairs.len() == 0 {
        c
    } else {
        applied_option(
            applied_options(c, pairs.drop_last()),
            pairs.last().0,
            pairs.last().1,
        )
    }
}

/// The abstract content of a key-value list.
pub open spec fn pairs_view(m: Seq<(String, String)>) -> Seq<(Seq<char>, Seq<char>)> {
    Seq::new(m.len(), |i: int| (m[i].0@, m[i].1@))
}

fn default_domain_lead_vec() -> (r: Vec<u8>)
    ensures
        r@ == default_domain_lead(),
{
    let mut v: Vec<u8> = Vec::new();
    v.push(111);
    v.push(98);
    v.push(115);
    v.push(46);
    proof {
        assert(v@ =~= default_domain_lead());
    }
    v
}

fn default_domain_tail_vec() -> (r: Vec<u8>)
    ensures
        r@ == default_domain_tail(),
{
    let mut v: Vec<u8> = Vec::new();
    v.push(46);
    v.push(109);
    v.push(121);
    v.push(104);
    v.push(117);
    v.push(97);
    v.push(119);
    v.push(101);
    v.push(105);
    v.push(99);
    v.push(108);
    v.push(111);
    v.push(117);
    v.push(100);
    v.push(46);
    v.push(99);
    v.push(111);
    v.push(109);
    proof {
        assert(v@ =~= default_domain_tail());
    }
    v
}

/// Whether this host gets virtual-hosted (default-style) addressing.
pub fn host_is_default(host: &str) -> (r: bool)
    ensures
        r == is_default_host(host.spec_bytes()),
{
    let hb = host.as_bytes_vec();
    let lead = default_domain_lead_vec();
    let tail = default_domain_tail_vec();
    has_prefix(&hb, &lead) && has_suffix(&hb, &tail)
}

impl ObsBuilder {
    /// A builder with nothing configured.
    pub fn new() -> (r: ObsBuilder)
        ensures
            r@ == (ObsBuilderConfig {
                root: None,
                endpoint: None,
                access_key_id: None,
                secret_access_key: None,
                bucket: None,
                has_client: false,
            }),
    {
        ObsBuilder {
            root: None,
            endpoint: None,
            access_key_id: None,
            secret_access_key: None,
            bucket: None,
            http_client: None,
        }
    }

    /// Collect a builder from a string-keyed option list, applied in
    /// order: `root`, `bucket`, `endpoint`, `access_key_id` and
    /// `secret_access_key` are recognized; anything else is ignored.
    pub fn from_map(map: Vec<(String, String)>) -> (r: ObsBuilder)
        ensures
            r@ == applied_options(empty_config(), pairs_view(map@)),
    {
        let mut b = ObsBuilder::new();
        let mut i: usize = 0;
        proof {
            assert(pairs_view(map@).take(0).len() == 0);
        }
        while i < map.len()
            invariant
                i <= map@.len(),
                b@ == applied_options(empty_config(), pairs_view(map@).take(i as int)),
            decreases map@.len() - i,
        {
            let pair = &map[i];
            if str_eq(pair.0.as_str(), "root") {
                b.root(pair.1.as_str());
            } else if str_eq(pair.0.as_str(), "bucket") {
                b.bucket(pair.1.as_str());
            } else if str_eq(pair.0.as_str(), "endpoint") {
                b.endpoint(pair.1.as_str());
            } else if str_eq(pair.0.as_str(), "access_key_id") {
                b.access_key_id(pair.1.as_str());
            } else if str_eq(pair.0.as_str(), "secret_access_key") {
                b.secret_access_key(pair.1.as_str());
            }
            proof {
                assert(pairs_view(map@).take(i + 1).drop_last() =~= pairs_view(map@).take(
                    i as int,
                ));
                assert(pairs_view(map@).take(i + 1).last() == (map@[i as int].0@, map@[
                    i as int
                ].1@));
            }
            i = i + 1;
        }
        proof {
            assert(pairs_view(map@).take(map@.len() as int) =~= pairs_view(map@));
        }
        b
    }

    /// A one-line description of the collected options. The credentials
    /// never appear in it: both keys are redacted.
    pub fn summary(&self) -> (r: String)
        ensures
            r@ == "Builder { root: "@ + opt_or_empty(self@.root) + ", bucket: "@ + opt_or_empty(
                self@.bucket,
            ) + ", endpoint: "@ + opt_or_empty(self@.endpoint)
                + ", access_key_id: <redacted>, secret_access_key: <redacted> }"@,
    {
        let mut r = String::from_str("Builder { root: ");
        if let Some(v) = &self.root {
            r.append(v.as_str());
        }
        r.append(", bucket: ");
        if let Some(v) = &self.bucket {
            r.append(v.as_str());
        }
        r.append(", endpoint: ");
        if let Some(v) = &self.endpoint {
            r.append(v.as_str());
        }
        r.append(", access_key_id: <redacted>, secret_access_key: <redacted> }");
        r
    }

    /// Set the working root of the backend; an empty string is ignored.
    pub fn root(&mut self, root: &str)
        ensures
            final(self)@ == (ObsBuilderConfig {
                root: if root@.len() == 0 {
                    old(self)@.root
                } else {
                    Some(root@)
                },
                ..old(self)@
            }),
    {
        if !root.is_empty() {
            self.root = Some(root.to_owned());
        }
    }

    /// Set the endpoint; trailing slashes are dropped, an empty string is
    /// ignored. Both the provider's default domains and custom domains are
    /// accepted; the bucket name must not be part of the endpoint.
    pub fn endpoint(&mut self, endpoint: &str)
        ensures
            final(self)@ == (ObsBuilderConfig {
                endpoint: if endpoint@.len() == 0 {
                    old(self)@.endpoint
                } else {
                    Some(trimmed_end_slashes(endpoint@))
                },
                ..old(self)@
            }),
    {
        if !endpoint.is_empty() {
            let mut end: usize = endpoint.unicode_len();
            proof {
                assert(endpoint@.subrange(0, endpoint@.len() as int) =~= endpoint@);
            }
            while end > 0 && endpoint.get_char(end - 1) == '/'
                invariant
                    end <= endpoint@.len(),
                    trimmed_end_slashes(endpoint@) == trimmed_end_slashes(
                        endpoint@.subrange(0, end as int),
                    ),
                decreases end,
            {
                proof {
                    assert(endpoint@.subrange(0, end as int).drop_last() =~= endpoint@.subrange(
                        0,
                        end - 1,
                    ));
                }
                end = end - 1;
            }
            let t = endpoint.substring_char(0, end);
            proof {
                assert(trimmed_end_slashes(endpoint@.subrange(0, end as int)) == endpoint@.subrange(
                    0,
                    end as int,
                ));
            }
            self.endpoint = Some(t.to_owned());
        }
    }

    /// Set the access key; an empty string is ignored and the credential
    /// is then left to the signing collaborator's own loading.
    pub fn access_key_id(&mut self, access_key_id: &str)
        ensures
            final(self)@ == (ObsBuilderConfig {
                access_key_id: if access_key_id@.len() == 0 {
                    old(self)@.access_key_id
                } else {
                    Some(access_key_id@)
                },
                ..old(self)@
            }),
    {
        if !access_key_id.is_empty() {
            self.access_key_id = Some(access_key_id.to_owned());
        }
    }

    /// Set the secret key; an empty string is ignored and the credential
    /// is then left to the signing collaborator's own loading.
    pub fn secret_access_key(&mut self, secret_access_key: &str)
        ensures
            final(self)@ == (ObsBuilderConfig {
                secret_access_key: if secret_access_key@.len() == 0 {
                    old(self)@.secret_access_key
                } else {
                    Some(secret_access_key@)
                },
                ..old(self)@
            }),
    {
        if !secret_access_key.is_empty() {
            self.secret_access_key = Some(secret_access_key.to_owned());
        }
    }

    /// Set the bucket; required, an empty string is ignored.
    pub fn bucket(&mut self, bucket: &str)
        ensures
            final(self)@ == (ObsBuilderConfig {
                bucket: if bucket@.len() == 0 {
                    old(self)@.bucket
                } else {
                    Some(bucket@)
                },
                ..old(self)@
            }),
    {
        if !bucket.is_empty() {
            self.bucket = Some(bucket.to_owned());
        }
    }

    /// Inject a transport handle; without one, a default is constructed at
    /// build time.
    pub fn http_client(&mut self, client: HttpClient)
        ensures
            final(self)@ == (ObsBuilderConfig { has_client: true, ..old(self)@ }),
    {
        self.http_client = Some(client);
    }

    /// Resolve the collected options into a ready backend.
    ///
    /// The bucket is required; the endpoint is required and must parse as
    /// a URI. The scheme defaults to `https`; a default-domain host gets
    /// the bucket prefixed (virtual-hosted addressing) while a custom host
    /// is used unchanged; the canonical signing resource is the bucket or
    /// the custom host accordingly; the root is normalized. No network is
    /// touched.
    pub fn build(&self) -> (r: Result<ObsBackend, Error>)
        ensures
            r is Ok <==> (self@.bucket is Some && self@.bucket->Some_0.len() > 0 && self@.endpoint
                is Some && uri_ok(self@.endpoint->Some_0)),
            r matches Err(e) ==> e.kind == ErrorKind::ConfigInvalid,
            r matches Ok(b) ==> {
                let bucket = self@.bucket->Some_0;
                let ep = self@.endpoint->Some_0;
                &&& b.core.bucket@ == bucket
                &&& b.core.bucket@.len() > 0
                &&& b.core.root@ == normalized_root(utf8_bytes(opt_or_empty(self@.root)))
                &&& b.core.endpoint@ == resolved_endpoint(bucket, ep)
                &&& b.core.default_style == resolved_style_default(ep)
                &&& b.core.canonical_resource@ == canonical_resource_of(bucket, ep)
            },
    {
        let root = match &self.root {
            Some(r) => normalize_root(r.as_str()),
            None => {
                proof {
                    reveal_strlit("");
                }
                normalize_root("")
            },
        };
        let bucket = match &self.bucket {
            Some(b) if !b.as_str().is_empty() => b.clone(),
            _ => {
                return Err(Error::new(ErrorKind::ConfigInvalid, "the bucket is not set"));
            },
        };
        let endpoint_str = match &self.endpoint {
            Some(e) => e,
            None => {
                return Err(Error::new(ErrorKind::ConfigInvalid, "the endpoint is not set"));
            },
        };
        let parts = match split_endpoint(endpoint_str.as_str()) {
            Some(p) => p,
            None => {
                return Err(
                    Error::new(ErrorKind::ConfigInvalid, "the endpoint is not a valid URI"),
                );
            },
        };
        let scheme = match parts.scheme {
            Some(s) => s,
            None => String::from_str("https"),
        };
        let host = parts.host;
        let default_style = host_is_default(host.as_str());
        let mut endpoint = scheme.clone();
        endpoint.append("://");
        if default_style {
            endpoint.append(bucket.as_str());
            endpoint.append(".");
            endpoint.append(host.as_str());
        } else {
            endpoint.append(host.as_str());
        }
        let canonical_resource = if default_style {
            bucket.clone()
        } else {
            host.clone()
        };
        let client = match self.http_client {
            Some(c) => c,
            None => match HttpClient::new() {
                Ok(c) => c,
                Err(e) => {
                    return Err(e);
                },
            },
        };
        let signer = crate::signing::new_obs_signer(
            canonical_resource.as_str(),
            &self.access_key_id,
            &self.secret_access_key,
        );
        Ok(
            ObsBackend {
                core: Arc::new(
                    ObsCore {
                        bucket,
                        root,
                        endpoint,
                        default_style,
                        canonical_resource,
                        signer,
                        client,
                    },
                ),
            },
        )
    }
}

/// The backend: a dispatcher holding the shared runtime context.
#[derive(Debug)]
pub struct ObsBackend {
    pub core: Arc<ObsCore>,
}

/// The first move of a stat: either the answer is already known, or one
/// metadata request must be sent.
pub enum StatStep {
    /// The metadata, decided without any network call.
    Ready(Metadata),
    /// The request whose response decides the call.
    Fetch(HttpRequest),
}

/// Synthetic metadata for a directory that is not backed by any object.
pub open spec fn synthetic_dir_metadata(m: Metadata) -> bool {
    &&& m.mode == EntryMode::Dir
    &&& m.content_length == 0
    &&& m.content_type is None
    &&& m.etag is None
    &&& m.last_modified is None
}

impl ObsBackend {
    /// What this backend supports: read, write, copy, list and scan, with
    /// streamable reads; neither presigned requests nor a blocking
    /// variant.
    pub fn info(&self) -> (r: AccessorInfo)
        ensures
            r.scheme@ == "obs"@,
            r.root@ == self.core.root@,
            r.name@ == self.core.bucket@,
            r.capabilities == (Capabilities {
                read: true,
                write: true,
                copy: true,
                list: true,
                scan: true,
                presign: false,
                blocking: false,
            }),
            r.read_streamable,
    {
        AccessorInfo {
            scheme: String::from_str("obs"),
            root: self.core.root.clone(),
            name: self.core.bucket.clone(),
            capabilities: Capabilities {
                read: true,
                write: true,
                copy: true,
                list: true,
                scan: true,
                presign: false,
                blocking: false,
            },
            read_streamable: true,
        }
    }

    /// The request that creates a directory marker: an empty-bodied PUT
    /// with an explicit zero length.
    pub fn create_dir_request(&self, path: &str, _args: &OpCreate) -> (r: HttpRequest)
        ensures
            r.method == Method::Put,
            r.endpoint@ == self.core.endpoint@,
            r.resource@ == encoded_key(self.core.root@, path.spec_bytes()),
            r.content_length == Some(0u64),
            r.content_type is None,
            r.if_match is None,
            r.query is None,
            r.body@ == Seq::<u8>::empty(),
    {
        self.core.put_object_request(path, Some(0), None, None, Vec::new())
    }

    /// Interpret a directory-creation response: 200 and 201 succeed,
    /// anything else is the parsed error.
    pub fn create_dir_response(&self, resp: HttpResponse) -> (r: Result<(), Error>)
        ensures
            r is Ok <==> (resp.status == 200 || resp.status == 201),
            r matches Err(e) ==> {
                &&& e.kind == error_kind_of_status(resp.status)
                &&& e.status == Some(resp.status)
                &&& e.body@ == resp.body@
            },
    {
        if resp.status == 200 || resp.status == 201 {
            Ok(())
        } else {
            Err(parse_error(resp.status, resp.body))
        }
    }

    /// The request that reads an object, with the caller's range and match
    /// tag when given.
    pub fn read_request(&self, path: &str, args: &OpRead) -> (r: HttpRequest)
        ensures
            r.method == Method::Get,
            r.endpoint@ == self.core.endpoint@,
            r.resource@ == encoded_key(self.core.root@, path.spec_bytes()),
            r.if_match.deep_view() == args.if_match.deep_view(),
            r.range == (if args.range.offset is Some || args.range.size is Some {
                Some(args.range)
            } else {
                None
            }),
            r.query is None,
            r.body@ == Seq::<u8>::empty(),
    {
        let if_match = match &args.if_match {
            Some(v) => Some(v.clone()),
            None => None,
        };
        self.core.get_object_request(path, args.range, if_match)
    }

    /// Interpret a read response: 200 and 206 hand back the metadata the
    /// headers state together with the body bytes; anything else is the
    /// parsed error.
    pub fn read_response(&self, path: &str, resp: HttpResponse) -> (r: Result<
        (Metadata, Vec<u8>),
        Error,
    >)
        ensures
            r is Ok <==> ((resp.status == 200 || resp.status == 206) && content_length_ok(
                resp.headers@,
            )),
            r matches Ok(p) ==> {
                &&& p.0.mode == (if ends_with_slash(path.spec_bytes()) {
                    EntryMode::Dir
                } else {
                    EntryMode::File
                })
                &&& p.0.content_length == stated_content_length(resp.headers@)
                &&& p.0.etag.deep_view() == header_value(resp.headers@, HeaderName::Etag)
                &&& p.0.content_type.deep_view() == header_value(
                    resp.headers@,
                    HeaderName::ContentType,
                )
                &&& p.0.last_modified.deep_view() == header_value(
                    resp.headers@,
                    HeaderName::LastModified,
                )
                &&& p.1@ == resp.body@
            },
            r matches Err(e) ==> if resp.status == 200 || resp.status == 206 {
                e.kind == ErrorKind::Unexpected
            } else {
                &&& e.kind == error_kind_of_status(resp.status)
                &&& e.status == Some(resp.status)
                &&& e.body@ == resp.body@
            },
    {
        if resp.status == 200 || resp.status == 206 {
            match parse_into_metadata(path, &resp.headers) {
                Ok(m) => Ok((m, resp.body)),
                Err(e) => Err(e),
            }
        } else {
            Err(parse_error(resp.status, resp.body))
        }
    }

    /// Open a writer for a whole-body upload. An append-mode write is
    /// unsupported and fails here, before any request exists.
    pub fn write(&self, path: &str, args: OpWrite) -> (r: Result<ObsWriter, Error>)
        ensures
            r is Ok <==> !args.append,
            r matches Err(e) ==> e.kind == ErrorKind::Unsupported,
            r matches Ok(w) ==> {
                &&& w.core == self.core
                &&& w.op.append == args.append
                &&& w.op.content_type.deep_view() == args.content_type.deep_view()
                &&& w.op.if_match.deep_view() == args.if_match.deep_view()
                &&& w.path@ == path@
            },
    {
        if args.append {
            return Err(Error::new(ErrorKind::Unsupported, "append write is not supported"));
        }
        Ok(ObsWriter::new(share_core(&self.core), args, path.to_owned()))
    }

    /// The request that copies an object, addressed at the destination and
    /// naming the source.
    pub fn copy_request(&self, from: &str, to: &str, _args: &OpCopy) -> (r: HttpRequest)
        ensures
            r.method == Method::Put,
            r.endpoint@ == self.core.endpoint@,
            r.resource@ == encoded_key(self.core.root@, to.spec_bytes()),
            r.copy_source.deep_view() == Some(
                seq![47u8] + encoded_key(self.core.root@, from.spec_bytes()),
            ),
            r.query is None,
            r.body@ == Seq::<u8>::empty(),
    {
        self.core.copy_object_request(from, to)
    }

    /// Interpret a copy response: only 200 succeeds.
    pub fn copy_response(&self, resp: HttpResponse) -> (r: Result<(), Error>)
        ensures
            r is Ok <==> resp.status == 200,
            r matches Err(e) ==> {
                &&& e.kind == error_kind_of_status(resp.status)
                &&& e.status == Some(resp.status)
                &&& e.body@ == resp.body@
            },
    {
        if resp.status == 200 {
            Ok(())
        } else {
            Err(parse_error(resp.status, resp.body))
        }
    }

    /// The first move of a stat. The root is always a directory and is
    /// answered on the spot, with no network call; any other path needs
    /// one metadata request.
    pub fn stat_step(&self, path: &str, args: &OpStat) -> (r: StatStep)
        ensures
            path.spec_bytes() == seq![47u8] ==> (r matches StatStep::Ready(m)
                && synthetic_dir_metadata(m)),
            path.spec_bytes() != seq![47u8] ==> (r matches StatStep::Fetch(req) && {
                &&& req.method == Method::Head
                &&& req.endpoint@ == self.core.endpoint@
                &&& req.resource@ == encoded_key(self.core.root@, path.spec_bytes())
                &&& req.if_match.deep_view() == args.if_match.deep_view()
                &&& req.query is None
                &&& req.body@ == Seq::<u8>::empty()
            }),
    {
        if path_is_root(path) {
            StatStep::Ready(
                Metadata {
                    mode: EntryMode::Dir,
                    content_length: 0,
                    content_type: None,
                    etag: None,
                    last_modified: None,
                },
            )
        } else {
            let if_match = match &args.if_match {
                Some(v) => Some(v.clone()),
                None => None,
            };
            StatStep::Fetch(self.core.head_object_request(path, if_match))
        }
    }

    /// Interpret a stat response: 200 hands back the metadata the headers
    /// state; 404 on a path with a trailing separator is an implicit
    /// directory and succeeds with synthetic directory metadata; anything
    /// else is the parsed error.
    pub fn stat_response(&self, path: &str, resp: HttpResponse) -> (r: Result<Metadata, Error>)
        ensures
            r is Ok <==> ((resp.status == 200 && content_length_ok(resp.headers@)) || (resp.status
                == 404 && ends_with_slash(path.spec_bytes()))),
            (resp.status == 200 && content_length_ok(resp.headers@)) ==> (r matches Ok(m) && {
                &&& m.mode == (if ends_with_slash(path.spec_bytes()) {
                    EntryMode::Dir
                } else {
                    EntryMode::File
                })
                &&& m.content_length == stated_content_length(resp.headers@)
                &&& m.etag.deep_view() == header_value(resp.headers@, HeaderName::Etag)
                &&& m.content_type.deep_view() == header_value(resp.headers@, HeaderName::ContentType)
                &&& m.last_modified.deep_view() == header_value(
                    resp.headers@,
                    HeaderName::LastModified,
                )
            }),
            (resp.status == 404 && ends_with_slash(path.spec_bytes())) ==> (r matches Ok(m)
                && synthetic_dir_metadata(m)),
            r matches Err(e) ==> if resp.status == 200 {
                e.kind == ErrorKind::Unexpected
            } else {
                &&& e.kind == error_kind_of_status(resp.status)
                &&& e.status == Some(resp.status)
                &&& e.body@ == resp.body@
            },
    {
        if resp.status == 200 {
            parse_into_metadata(path, &resp.headers)
        } else if resp.status == 404 && crate::path::path_ends_with_slash(path) {
            Ok(
                Metadata {
                    mode: EntryMode::Dir,
                    content_length: 0,
                    content_type: None,
                    etag: None,
                    last_modified: None,
                },
            )
        } else {
            Err(parse_error(resp.status, resp.body))
        }
    }

    /// The request that deletes an object.
    pub fn delete_request(&self, path: &str, _args: &OpDelete) -> (r: HttpRequest)
        ensures
            r.method == Method::Delete,
            r.endpoint@ == self.core.endpoint@,
            r.resource@ == encoded_key(self.core.root@, path.spec_bytes()),
            r.query is None,
            r.body@ == Seq::<u8>::empty(),
    {
        self.core.delete_object_request(path)
    }

    /// Interpret a delete response: 204, 202 and 404 all succeed — an
    /// already absent object counts as deleted; anything else is the
    /// parsed error.
    pub fn delete_response(&self, resp: HttpResponse) -> (r: Result<(), Error>)
        ensures
            r is Ok <==> (resp.status == 204 || resp.status == 202 || resp.status == 404),
            r matches Err(e) ==> {
                &&& e.kind == error_kind_of_status(resp.status)
                &&& e.status == Some(resp.status)
                &&& e.body@ == resp.body@
            },
    {
        if resp.status == 204 || resp.status == 202 || resp.status == 404 {
            Ok(())
        } else {
            Err(parse_error(resp.status, resp.body))
        }
    }

    /// Open a pager that lists one path level: entries are grouped at the
    /// `/` delimiter, so nested keys surface as common-prefix directories.
    pub fn list(&self, path: &str, args: &OpList) -> (r: ObsPager)
        ensures
            r.core == self.core,
            r.path@ == path@,
            r.delimiter@ == seq![47u8],
            r.remaining == args.limit,
            r.marker@ == Seq::<u8>::empty(),
            !r.done,
    {
        let mut delimiter: Vec<u8> = Vec::new();
        delimiter.push(47);
        proof {
            assert(delimiter@ =~= seq![47u8]);
        }
        ObsPager::new(share_core(&self.core), path, delimiter, args.limit)
    }

    /// Open a pager that enumerates every key under the path, with no
    /// grouping: a flat recursive listing.
    pub fn scan(&self, path: &str, args: &OpScan) -> (r: ObsPager)
        ensures
            r.core == self.core,
            r.path@ == path@,
            r.delimiter@ == Seq::<u8>::empty(),
            r.remaining == args.limit,
            r.marker@ == Seq::<u8>::empty(),
            !r.done,
    {
        ObsPager::new(share_core(&self.core), path, Vec::new(), args.limit)
    }
}

} // verus!
