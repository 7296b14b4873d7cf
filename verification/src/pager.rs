//! The list pager: a forward-only cursor over listing pages, one request
//! per advance step, carrying the continuation marker between steps.

use std::sync::Arc;

use vstd::prelude::*;

use crate::context::{encoded_key, ObsCore};
use crate::path::{ends_with_slash, has_prefix, utf8_bytes};
use crate::types::{Entry, EntryMode, HttpRequest, Metadata, Method};

verus! {

/// One object as a listing response reports it, already decoded from the
/// wire by the parsing collaborator.
pub struct ObjectSummary {
    /// The full, root-inclusive object key.
    pub key: Vec<u8>,
    /// The object's size in bytes.
    pub size: u64,
    /// The object's entity tag, when reported.
    pub etag: Option<Vec<u8>>,
    /// The object's last-modified stamp, when reported.
    pub last_modified: Option<Vec<u8>>,
}

/// One decoded listing page.
pub struct ListPage {
    /// The concrete objects of this page, in server order.
    pub objects: Vec<ObjectSummary>,
    /// The common-prefix groups of this page — pseudo-directories; present
    /// only when a delimiter was set.
    pub common_prefixes: Vec<Vec<u8>>,
    /// The continuation marker for the next page, or nothing on the last
    /// page.
    pub next_marker: Option<Vec<u8>>,
}

/// The pager: owns its cursor state exclusively; never restartable.
pub struct ObsPager {
    /// The shared runtime context.
    pub core: Arc<ObsCore>,
    /// The listed path.
    pub path: String,
    /// The grouping delimiter; empty for a flat enumeration.
    pub delimiter: Vec<u8>,
    /// The result-count budget still open, when one was configured.
    pub remaining: Option<u32>,
    /// The continuation marker to resume at; empty on the first step.
    pub marker: Vec<u8>,
    /// Whether the sequence has terminated.
    pub done: bool,
}

/// The key prefix the normalized root contributes to every key under it:
/// the root without its leading slash, closed by a slash; empty for the
/// bare root.
pub open spec fn root_key_prefix(root: Seq<u8>) -> Seq<u8> {
    if root.len() <= 1 {
        Seq::empty()
    } else {
        root.skip(1) + seq![47u8]
    }
}

/// A reported key made relative to the root: the root's key prefix is
/// stripped when it leads the key; a key outside the root is kept as it
/// is.
pub open spec fn rel_key(root: Seq<u8>, key: Seq<u8>) -> Seq<u8> {
    let p = root_key_prefix(root);
    if key.len() >= p.len() && key.subrange(0, p.len() as int) == p {
        key.skip(p.len() as int)
    } else {
        key
    }
}

/// The budget left after yielding `n` entries: never below zero.
pub open spec fn budget_after(rem: Option<u32>, n: int) -> Option<u32> {
    match rem {
        Some(l) => if n >= l {
            Some(0u32)
        } else {
            Some((l - n) as u32)
        },
        None => None,
    }
}

fn root_prefix_vec(root: &Vec<u8>) -> (r: Vec<u8>)
    ensures
        r@ == root_key_prefix(root@),
{
    let mut v: Vec<u8> = Vec::new();
    if root.len() > 1 {
        let mut i: usize = 1;
        while i < root.len()
            invariant
                1 <= i <= root@.len(),
                v@ == root@.subrange(1, i as int),
            decreases root@.len() - i,
        {
            v.push(root[i]);
            proof {
                assert(root@.subrange(1, i + 1) =~= root@.subrange(1, i as int).push(root@[i as int]));
            }
            i = i + 1;
        }
        v.push(47);
        proof {
            assert(v@ =~= root@.skip(1) + seq![47u8]);
        }
    }
    v
}

fn strip_prefix(prefix: &Vec<u8>, key: &Vec<u8>) -> (r: Vec<u8>)
    ensures
        r@ == (if key@.len() >= prefix@.len() && key@.subrange(0, prefix@.len() as int) == prefix@ {
            key@.skip(prefix@.len() as int)
        } else {
            key@
        }),
{
    if has_prefix(key, prefix) {
        let mut v: Vec<u8> = Vec::new();
        let mut i: usize = prefix.len();
        while i < key.len()
            invariant
                prefix@.len() <= i <= key@.len(),
                v@ == key@.subrange(prefix@.len() as int, i as int),
            decreases key@.len() - i,
        {
            v.push(key[i]);
            proof {
                assert(key@.subrange(prefix@.len() as int, i + 1) =~= key@.subrange(
                    prefix@.len() as int,
                    i as int,
                ).push(key@[i as int]));
            }
            i = i + 1;
        }
        proof {
            assert(v@ =~= key@.skip(prefix@.len() as int));
        }
        v
    } else {
        key.clone()
    }
}

impl ObsPager {
    /// Open a pager over `path` with the given delimiter and result
    /// budget; the cursor starts at the beginning.
    pub fn new(core: Arc<ObsCore>, path: &str, delimiter: Vec<u8>, limit: Option<u32>) -> (r:
        ObsPager)
        ensures
            r.core == core,
            r.path@ == path@,
            r.delimiter@ == delimiter@,
            r.remaining == limit,
            r.marker@ == Seq::<u8>::empty(),
            !r.done,
    {
        ObsPager {
            core,
            path: path.to_owned(),
            delimiter,
            remaining: limit,
            marker: Vec::new(),
            done: false,
        }
    }

    /// The next advance step's request: a listing request resuming at the
    /// current marker — or nothing once the sequence has terminated.
    pub fn next_request(&self) -> (r: Option<HttpRequest>)
        ensures
            r is Some <==> !self.done,
            r matches Some(req) ==> {
                &&& req.method == Method::Get
                &&& req.endpoint@ == self.core.endpoint@
                &&& req.resource@ == Seq::<u8>::empty()
                &&& req.query matches Some(q) && {
                    &&& q.prefix@ == encoded_key(self.core.root@, utf8_bytes(self.path@))
                    &&& q.delimiter@ == self.delimiter@
                    &&& q.marker@ == self.marker@
                    &&& q.max_keys == self.remaining
                }
                &&& req.body@ == Seq::<u8>::empty()
            },
    {
        if self.done {
            None
        } else {
            Some(
                self.core.list_objects_request(
                    self.path.as_str(),
                    &self.delimiter,
                    &self.marker,
                    self.remaining,
                ),
            )
        }
    }

    /// Take one decoded page into the sequence: every entry of the page is
    /// yielded exactly once, in server order — common-prefix groups first,
    /// as directories, then the objects; the cursor then moves to the
    /// page's continuation marker, and the sequence terminates when the
    /// page carries none or the result budget is used up.
    pub fn feed_page(&mut self, page: ListPage) -> (r: Vec<Entry>)
        requires
            !old(self).done,
        ensures
            r@.len() == page.common_prefixes@.len() + page.objects@.len(),
            forall|i: int|
                0 <= i < page.common_prefixes@.len() ==> {
                    let e = #[trigger] r@[i];
                    &&& e.path@ == rel_key(old(self).core.root@, page.common_prefixes@[i]@)
                    &&& e.metadata.mode == EntryMode::Dir
                    &&& e.metadata.content_length == 0
                    &&& e.metadata.content_type is None
                    &&& e.metadata.etag is None
                    &&& e.metadata.last_modified is None
                },
            forall|j: int|
                0 <= j < page.objects@.len() ==> {
                    let e = #[trigger] r@[page.common_prefixes@.len() + j];
                    let o = page.objects@[j];
                    &&& e.path@ == rel_key(old(self).core.root@, o.key@)
                    &&& e.metadata.mode == (if ends_with_slash(o.key@) {
                        EntryMode::Dir
                    } else {
                        EntryMode::File
                    })
                    &&& e.metadata.content_length == o.size
                    &&& e.metadata.content_type is None
                    &&& e.metadata.etag.deep_view() == o.etag.deep_view()
                    &&& e.metadata.last_modified.deep_view() == o.last_modified.deep_view()
                },
            final(self).core == old(self).core,
            final(self).path == old(self).path,
            final(self).delimiter == old(self).delimiter,
            final(self).remaining == budget_after(old(self).remaining, r@.len() as int),
            final(self).marker@ == (match page.next_marker {
                Some(m) => m@,
                None => old(self).marker@,
            }),
            final(self).done == (page.next_marker is None || final(self).remaining == Some(0u32)),
    {
        let prefix = root_prefix_vec(&self.core.root);
        let mut out: Vec<Entry> = Vec::new();
        let mut i: usize = 0;
        while i < page.common_prefixes.len()
            invariant
                i <= page.common_prefixes@.len(),
                out@.len() == i,
                prefix@ == root_key_prefix(self.core.root@),
                forall|k: int|
                    0 <= k < i ==> {
                        let e = #[trigger] out@[k];
                        &&& e.path@ == rel_key(self.core.root@, page.common_prefixes@[k]@)
                        &&& e.metadata.mode == EntryMode::Dir
                        &&& e.metadata.content_length == 0
                        &&& e.metadata.content_type is None
                        &&& e.metadata.etag is None
                        &&& e.metadata.last_modified is None
                    },
            decreases page.common_prefixes@.len() - i,
        {
            let p = strip_prefix(&prefix, &page.common_prefixes[i]);
            out.push(
                Entry {
                    path: p,
                    metadata: Metadata {
                        mode: EntryMode::Dir,
                        content_length: 0,
                        content_type: None,
                        etag: None,
                        last_modified: None,
                    },
                },
            );
            i = i + 1;
        }
        let np = page.common_prefixes.len();
        let mut j: usize = 0;
        while j < page.objects.len()
            invariant
                j <= page.objects@.len(),
                np == page.common_prefixes@.len(),
                out@.len() == np + j,
                prefix@ == root_key_prefix(self.core.root@),
                forall|k: int|
                    0 <= k < np ==> {
                        let e = #[trigger] out@[k];
                        &&& e.path@ == rel_key(self.core.root@, page.common_prefixes@[k]@)
                        &&& e.metadata.mode == EntryMode::Dir
                        &&& e.metadata.content_length == 0
                        &&& e.metadata.content_type is None
                        &&& e.metadata.etag is None
                        &&& e.metadata.last_modified is None
                    },
                forall|k: int|
                    0 <= k < j ==> {
                        let e = #[trigger] out@[np + k];
                        let o = page.objects@[k];
                        &&& e.path@ == rel_key(self.core.root@, o.key@)
                        &&& e.metadata.mode == (if ends_with_slash(o.key@) {
                            EntryMode::Dir
                        } else {
                            EntryMode::File
                        })
                        &&& e.metadata.content_length == o.size
                        &&& e.metadata.content_type is None
                        &&& e.metadata.etag.deep_view() == o.etag.deep_view()
                        &&& e.metadata.last_modified.deep_view() == o.last_modified.deep_view()
                    },
            decreases page.objects@.len() - j,
        {
            let o = &page.objects[j];
            let mode = if o.key.len() > 0 && o.key[o.key.len() - 1] == 47 {
                EntryMode::Dir
            } else {
                EntryMode::File
            };
            let etag = match &o.etag {
                Some(v) => Some(v.clone()),
                None => None,
            };
            let last_modified = match &o.last_modified {
                Some(v) => Some(v.clone()),
                None => None,
            };
            out.push(
                Entry {
                    path: strip_prefix(&prefix, &o.key),
                    metadata: Metadata {
                        mode,
                        content_length: o.size,
                        content_type: None,
                        etag,
                        last_modified,
                    },
                },
            );
            j = j + 1;
        }
        let yielded = out.len();
        self.remaining = match self.remaining {
            Some(l) => {
                if yielded >= l as usize {
                    Some(0)
                } else {
                    Some(l - yielded as u32)
                }
            },
            None => None,
        };
        match page.next_marker {
            Some(m) => {
                self.marker = m;
                self.done = match self.remaining {
                    Some(l) => l == 0,
                    None => false,
                };
            },
            None => {
                self.done = true;
            },
        }
        out
    }
}

} // verus!
