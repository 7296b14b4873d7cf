//! Pager behaviour: continuation across pages, delimiter modes, budgets,
//! and relative paths.

use obs_backend::backend::ObsBuilder;
use obs_backend::pager::{ListPage, ObjectSummary, ObsPager};
use obs_backend::types::{EntryMode, OpList, OpScan};

fn pager(limit: Option<u32>) -> ObsPager {
    let mut b = ObsBuilder::new();
    b.bucket("test");
    b.endpoint("https://custom.obs.com");
    b.root("/work");
    let backend = b.build().unwrap();
    backend.list("dir/", &OpList { limit })
}

fn object(key: &[u8], size: u64) -> ObjectSummary {
    ObjectSummary { key: key.to_vec(), size, etag: None, last_modified: None }
}

#[test]
fn two_pages_yield_every_entry_once_in_order() {
    let mut p = pager(None);

    let first = p.next_request().unwrap();
    let q = first.query.unwrap();
    assert_eq!(q.prefix, b"work/dir/".to_vec());
    assert_eq!(q.delimiter, b"/".to_vec());
    assert_eq!(q.marker, b"".to_vec());

    let page1 = ListPage {
        objects: vec![object(b"work/dir/a.txt", 3), object(b"work/dir/b.txt", 4)],
        common_prefixes: vec![b"work/dir/sub/".to_vec()],
        next_marker: Some(b"T1".to_vec()),
    };
    let entries1 = p.feed_page(page1);
    assert!(!p.done);

    let second = p.next_request().unwrap();
    assert_eq!(second.query.unwrap().marker, b"T1".to_vec());

    let page2 = ListPage {
        objects: vec![object(b"work/dir/c.txt", 5)],
        common_prefixes: Vec::new(),
        next_marker: None,
    };
    let entries2 = p.feed_page(page2);
    assert!(p.done);
    assert!(p.next_request().is_none());

    let paths: Vec<Vec<u8>> = entries1
        .iter()
        .chain(entries2.iter())
        .map(|e| e.path.clone())
        .collect();
    assert_eq!(
        paths,
        vec![
            b"dir/sub/".to_vec(),
            b"dir/a.txt".to_vec(),
            b"dir/b.txt".to_vec(),
            b"dir/c.txt".to_vec(),
        ]
    );
}

#[test]
fn common_prefixes_are_directories_and_objects_keep_their_size() {
    let mut p = pager(None);
    let page = ListPage {
        objects: vec![object(b"work/dir/a.txt", 7), object(b"work/dir/marker/", 0)],
        common_prefixes: vec![b"work/dir/sub/".to_vec()],
        next_marker: None,
    };
    let entries = p.feed_page(page);
    assert_eq!(entries.len(), 3);
    assert_eq!(entries[0].metadata.mode, EntryMode::Dir);
    assert_eq!(entries[1].metadata.mode, EntryMode::File);
    assert_eq!(entries[1].metadata.content_length, 7);
    assert_eq!(entries[2].metadata.mode, EntryMode::Dir);
}

#[test]
fn budget_exhaustion_terminates_despite_a_marker() {
    let mut p = pager(Some(2));
    let req = p.next_request().unwrap();
    assert_eq!(req.query.unwrap().max_keys, Some(2));
    let page = ListPage {
        objects: vec![object(b"work/dir/a.txt", 1), object(b"work/dir/b.txt", 1)],
        common_prefixes: Vec::new(),
        next_marker: Some(b"T1".to_vec()),
    };
    let entries = p.feed_page(page);
    assert_eq!(entries.len(), 2);
    assert!(p.done);
    assert!(p.next_request().is_none());
}

#[test]
fn a_partial_last_page_is_fully_yielded() {
    let mut p = pager(Some(10));
    let page = ListPage {
        objects: vec![object(b"work/dir/a.txt", 1)],
        common_prefixes: Vec::new(),
        next_marker: None,
    };
    let entries = p.feed_page(page);
    assert_eq!(entries.len(), 1);
    assert!(p.done);
    assert_eq!(p.remaining, Some(9));
}

#[test]
fn scan_uses_no_delimiter() {
    let mut b = ObsBuilder::new();
    b.bucket("test");
    b.endpoint("https://custom.obs.com");
    let backend = b.build().unwrap();
    let p = backend.scan("dir/", &OpScan { limit: None });
    let req = p.next_request().unwrap();
    let q = req.query.unwrap();
    assert_eq!(q.delimiter, b"".to_vec());
    assert_eq!(q.prefix, b"dir/".to_vec());
}

#[test]
fn keys_outside_the_root_are_kept_as_reported() {
    let mut p = pager(None);
    let page = ListPage {
        objects: vec![object(b"elsewhere/x.txt", 1)],
        common_prefixes: Vec::new(),
        next_marker: None,
    };
    let entries = p.feed_page(page);
    assert_eq!(entries[0].path, b"elsewhere/x.txt".to_vec());
}
