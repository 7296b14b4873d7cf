//! The streaming writer: one instance is bound to one destination path and
//! one set of write options, and every write is an independent whole-body
//! upload.

use std::sync::Arc;

use vstd::prelude::*;

use crate::context::{encoded_key, ObsCore};
use crate::error::{error_kind_of_status, parse_error, Error, ErrorKind};
use crate::path::{all_digits, dec_value, utf8_bytes};
use crate::types::{
    content_length_ok, header_value, stated_content_length, HeaderName, HttpRequest, HttpResponse,
    Method, OpWrite,
};

verus! {

use vstd::string::StringSliceAdditionalSpecFns;

/// A writer bound to one destination path and one set of options.
#[derive(Debug)]
pub struct ObsWriter {
    /// The shared runtime context.
    pub core: Arc<ObsCore>,
    /// The caller's write options, fixed for the writer's lifetime.
    pub op: OpWrite,
    /// The destination path, fixed for the writer's lifetime.
    pub path: String,
}

impl ObsWriter {
    /// Bind a writer to a context, options and a destination path.
    pub fn new(core: Arc<ObsCore>, op: OpWrite, path: String) -> (r: ObsWriter)
        ensures
            r.core == core,
            r.op == op,
            r.path == path,
    {
        ObsWriter { core, op, path }
    }

    /// The upload request for one write call: a PUT of the whole body,
    /// its length as the exact content length, and the writer's content
    /// type and match tag when set.
    pub fn write_request(&self, bs: Vec<u8>) -> (r: HttpRequest)
        ensures
            r.method == Method::Put,
            r.endpoint@ == self.core.endpoint@,
            r.resource@ == encoded_key(self.core.root@, utf8_bytes(self.path@)),
            r.content_length == Some(bs@.len() as u64),
            r.content_type.deep_view() == self.op.content_type.deep_view(),
            r.if_match.deep_view() == self.op.if_match.deep_view(),
            r.query is None,
            r.body@ == bs@,
    {
        let len = bs.len();
        let content_type = match &self.op.content_type {
            Some(v) => Some(v.clone()),
            None => None,
        };
        let if_match = match &self.op.if_match {
            Some(v) => Some(v.clone()),
            None => None,
        };
        self.core.put_object_request(self.path.as_str(), Some(len as u64), content_type, if_match, bs)
    }

    /// Interpret an upload response: 200 and 201 succeed (the caller must
    /// have drained the body before handing the response in, as an
    /// unconsumed success body can corrupt connection reuse); anything
    /// else is the parsed error.
    pub fn write_response(&self, resp: HttpResponse) -> (r: Result<(), Error>)
        ensures
            r is Ok <==> (resp.status == 200 || resp.status == 201),
            r matches Err(e) ==> {
                &&& e.kind == error_kind_of_status(resp.status)
                &&& e.status == Some(resp.status)
                &&& e.body@ == resp.body@
            },
    {
        if resp.status == 200 || resp.status == 201 {
            Ok(())
        } else {
            Err(parse_error(resp.status, resp.body))
        }
    }

    /// An append is always unsupported: this backend has no append
    /// primitive, and no request is issued.
    pub fn append(&mut self, bs: &Vec<u8>) -> (r: Result<(), Error>)
        ensures
            *final(self) == *old(self),
            r matches Err(e) && e.kind == ErrorKind::Unsupported,
    {
        let _ = bs;
        Err(Error::new(ErrorKind::Unsupported, "the writer does not support append"))
    }

    /// Nothing to cancel: no multipart session is ever opened, so an
    /// abandoned write leaves nothing behind on the server.
    pub fn abort(&mut self) -> (r: Result<(), Error>)
        ensures
            *final(self) == *old(self),
            r is Ok,
    {
        Ok(())
    }

    /// Nothing to finish: a successful write has already completed the
    /// upload.
    pub fn close(&mut self) -> (r: Result<(), Error>)
        ensures
            *final(self) == *old(self),
            r is Ok,
    {
        Ok(())
    }
}

/// Law: a successful whole-body upload followed by a read of the same
/// path returns exactly the written bytes. A store that kept the upload
/// answers the read with the request's own body and a content-length
/// header stating that byte count; such a response is accepted by
/// `ObsBackend::read_response` (its headers are well formed), the size it
/// states is the written length, and its body is the written bytes — so
/// `read_response`'s contract then hands back the written body and a
/// metadata size equal to the written length.
pub proof fn lemma_write_read_round_trip(req: HttpRequest, resp: HttpResponse, clv: Seq<u8>)
    requires
        req.body@.len() <= u64::MAX,
        req.content_length == Some(req.body@.len() as u64),
        resp.status == 200,
        resp.body@ == req.body@,
        header_value(resp.headers@, HeaderName::ContentLength) == Some(clv),
        clv.len() > 0,
        all_digits(clv),
        dec_value(clv) == req.body@.len(),
    ensures
        content_length_ok(resp.headers@),
        stated_content_length(resp.headers@) == req.body@.len(),
        resp.body@ == req.body@,
{
}

} // verus!
