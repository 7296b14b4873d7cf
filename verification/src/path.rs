//! Byte-level path handling: root normalization, joining a path onto the
//! root prefix, percent-encoding, and the small parsing helpers the
//! response readers need.
//!
//! All functions work on UTF-8 bytes; `/` is byte 47.

use vstd::prelude::*;

verus! {

use vstd::string::StringSliceAdditionalSpecFns;
use vstd::string::StrSliceExecFns;

/// The UTF-8 encoding of a character string.
pub open spec fn utf8_bytes(s: Seq<char>) -> Seq<u8> {
    vstd::utf8::encode_utf8(s)
}

/// One run of consecutive slashes collapsed to a single slash: a byte is
/// dropped exactly when it is a slash directly preceded by another slash.
pub open spec fn collapse_slashes(s: Seq<u8>) -> Seq<u8>
    decreases s.len(),
{
    if s.len() == 0 {
        Seq::empty()
    } else if s.last() == 47u8 && s.len() >= 2 && s[s.len() - 2] == 47u8 {
        collapse_slashes(s.drop_last())
    } else {
        collapse_slashes(s.drop_last()).push(s.last())
    }
}

/// The normalized form of a configured root: a leading slash is ensured,
/// slash runs are collapsed, and a trailing slash is stripped unless the
/// whole root is just `/`.
pub open spec fn normalized_root(s: Seq<u8>) -> Seq<u8> {
    let c = collapse_slashes(seq![47u8] + s);
    if c.len() > 1 && c.last() == 47u8 {
        c.drop_last()
    } else {
        c
    }
}

/// No byte is a slash directly preceded by another slash.
pub open spec fn no_double_slash(s: Seq<u8>) -> bool {
    forall|i: int| 0 < i < s.len() ==> !(#[trigger] s[i] == 47u8 && s[i - 1] == 47u8)
}

proof fn lemma_collapse_wf(s: Seq<u8>)
    requires
        s.len() >= 1,
    ensures
        collapse_slashes(s).len() >= 1,
        collapse_slashes(s)[0] == s[0],
        collapse_slashes(s).last() == s.last(),
        no_double_slash(collapse_slashes(s)),
    decreases s.len(),
{
    if s.len() == 1 {
        assert(s.drop_last().len() == 0);
        assert(collapse_slashes(s.drop_last()) =~= Seq::<u8>::empty());
        assert(collapse_slashes(s) == collapse_slashes(s.drop_last()).push(s.last()));
        assert(collapse_slashes(s) =~= seq![s[0]]);
    } else {
        lemma_collapse_wf(s.drop_last());
        let c = collapse_slashes(s.drop_last());
        if s.last() == 47u8 && s[s.len() - 2] == 47u8 {
            assert(collapse_slashes(s) == c);
            assert(c.last() == s.drop_last().last());
        } else {
            assert(collapse_slashes(s) == c.push(s.last()));
            assert(c.last() == s.drop_last().last());
            assert forall|i: int|
                0 < i < c.push(s.last()).len() implies !(#[trigger] c.push(s.last())[i] == 47u8
                && c.push(s.last())[i - 1] == 47u8) by {
                if i < c.len() {
                    assert(c.push(s.last())[i] == c[i]);
                    assert(c.push(s.last())[i - 1] == c[i - 1]);
                } else {
                    assert(c.push(s.last())[i] == s.last());
                    assert(c.push(s.last())[i - 1] == c.last());
                }
            }
        }
    }
}

/// Law: a normalized root is never empty, always begins with a slash,
/// never holds two slashes in a row, and ends with a slash only when it is
/// the bare root `/`.
pub proof fn lemma_normalized_root_wf(s: Seq<u8>)
    ensures
        normalized_root(s).len() >= 1,
        normalized_root(s)[0] == 47u8,
        no_double_slash(normalized_root(s)),
        normalized_root(s).len() > 1 ==> normalized_root(s).last() != 47u8,
{
    let t = seq![47u8] + s;
    lemma_collapse_wf(t);
    let c = collapse_slashes(t);
    if c.len() > 1 && c.last() == 47u8 {
        let n = c.drop_last();
        assert(normalized_root(s) == n);
        assert(n[0] == c[0]);
        assert forall|i: int| 0 < i < n.len() implies !(#[trigger] n[i] == 47u8 && n[i - 1]
            == 47u8) by {
            assert(n[i] == c[i]);
            assert(n[i - 1] == c[i - 1]);
        }
        if n.len() > 1 && n.last() == 47u8 {
            assert(c[c.len() - 2] == 47u8 && c[c.len() - 1] == 47u8);
            assert(false);
        }
    }
}

/// The object key for `path` under a normalized `root`: the two joined with
/// a slash, slash runs collapsed, and the leading slash removed (object
/// keys are bucket-relative). A trailing slash, which marks a directory,
/// is kept.
pub open spec fn joined_key(root: Seq<u8>, path: Seq<u8>) -> Seq<u8> {
    let c = collapse_slashes(root + seq![47u8] + path);
    if c.len() > 0 && c[0] == 47u8 {
        c.drop_first()
    } else {
        c
    }
}

/// Law: joining keeps the directory marker: when the path is non-empty
/// and the joined key came out non-empty, the key ends in a slash exactly
/// when the path does.
pub proof fn lemma_joining_keeps_dir_marker(root: Seq<u8>, path: Seq<u8>)
    requires
        path.len() > 0,
        joined_key(root, path).len() > 0,
    ensures
        ends_with_slash(joined_key(root, path)) <==> ends_with_slash(path),
{
    let t = root + seq![47u8] + path;
    lemma_collapse_wf(t);
    let c = collapse_slashes(t);
    assert(t.last() == path.last());
    if c.len() > 0 && c[0] == 47u8 {
        let k = c.drop_first();
        assert(k.len() > 0 ==> k.last() == c.last());
    }
}
/// characters (letters, digits, `-`, `.`, `_`, `~`) and the segment
/// separator `/`.
pub open spec fn keep_plain(b: u8) -> bool {
    (65 <= b <= 90) || (97 <= b <= 122) || (48 <= b <= 57) || b == 45 || b == 46 || b == 95
        || b == 126 || b == 47
}

/// The upper-case hexadecimal digit for a value below 16.
pub open spec fn hex_digit(n: u8) -> u8 {
    if n < 10 {
        (48 + n) as u8
    } else {
        (55 + n) as u8
    }
}

/// How one byte appears in a percent-encoded path.
pub open spec fn encoded_byte(b: u8) -> Seq<u8> {
    if keep_plain(b) {
        seq![b]
    } else {
        seq![37u8, hex_digit(b / 16), hex_digit(b % 16)]
    }
}

/// The percent-encoded form of a whole key, segment separators kept.
pub open spec fn percent_encoded(s: Seq<u8>) -> Seq<u8>
    decreases s.len(),
{
    if s.len() == 0 {
        Seq::empty()
    } else {
        percent_encoded(s.drop_last()) + encoded_byte(s.last())
    }
}

/// Whether a path names a directory: it is non-empty and ends in a slash.
pub open spec fn ends_with_slash(s: Seq<u8>) -> bool {
    s.len() > 0 && s.last() == 47u8
}

/// Law: percent-encoding keeps the directory marker: the encoded resource
/// is empty exactly when the key is, and ends in a slash exactly when the
/// key does — a slash is never encoded, and no encoding ends in one.
pub proof fn lemma_encoding_keeps_dir_marker(s: Seq<u8>)
    ensures
        percent_encoded(s).len() > 0 <==> s.len() > 0,
        s.len() > 0 ==> (ends_with_slash(percent_encoded(s)) <==> ends_with_slash(s)),
{
    if s.len() > 0 {
        let e = encoded_byte(s.last());
        assert(percent_encoded(s) == percent_encoded(s.drop_last()) + e);
        assert(e.len() > 0);
        assert(percent_encoded(s).last() == e.last());
        if !keep_plain(s.last()) {
            assert(e.last() == hex_digit(s.last() % 16));
            assert(hex_digit(s.last() % 16) != 47u8);
            assert(s.last() != 47u8);
        }
    }
}

/// Every byte is a decimal digit.
pub open spec fn all_digits(s: Seq<u8>) -> bool {
    forall|i: int| 0 <= i < s.len() ==> 48 <= #[trigger] s[i] <= 57
}

/// The number a string of decimal digits denotes.
pub open spec fn dec_value(s: Seq<u8>) -> int
    decreases s.len(),
{
    if s.len() == 0 {
        0
    } else {
        dec_value(s.drop_last()) * 10 + s.last() - 48
    }
}

proof fn lemma_dec_nonneg(s: Seq<u8>)
    requires
        all_digits(s),
    ensures
        dec_value(s) >= 0,
    decreases s.len(),
{
    if s.len() > 0 {
        assert(all_digits(s.drop_last()));
        lemma_dec_nonneg(s.drop_last());
    }
}

proof fn lemma_dec_prefix_le(s: Seq<u8>, i: int)
    requires
        all_digits(s),
        0 <= i <= s.len(),
    ensures
        dec_value(s.subrange(0, i)) <= dec_value(s),
    decreases s.len() - i,
{
    if i == s.len() {
        assert(s.subrange(0, i) =~= s);
    } else {
        lemma_dec_prefix_le(s, i + 1);
        assert(s.subrange(0, i + 1).drop_last() =~= s.subrange(0, i));
        assert(all_digits(s.subrange(0, i)));
        lemma_dec_nonneg(s.subrange(0, i));
    }
}

/// Collapse runs of slashes in `s` to single slashes.
pub fn collapse_slashes_vec(s: &Vec<u8>) -> (r: Vec<u8>)
    ensures
        r@ == collapse_slashes(s@),
{
    let mut r: Vec<u8> = Vec::new();
    let mut i: usize = 0;
    while i < s.len()
        invariant
            i <= s@.len(),
            r@ == collapse_slashes(s@.subrange(0, i as int)),
        decreases s@.len() - i,
    {
        let b = s[i];
        if !(b == 47 && i > 0 && s[i - 1] == 47) {
            r.push(b);
        }
        proof {
            assert(s@.subrange(0, i + 1).drop_last() =~= s@.subrange(0, i as int));
        }
        i = i + 1;
    }
    proof {
        assert(s@.subrange(0, s@.len() as int) =~= s@);
    }
    r
}

/// Normalize a configured root to its canonical form.
pub fn normalize_root(root: &str) -> (r: Vec<u8>)
    ensures
        r@ == normalized_root(root.spec_bytes()),
{
    let mut v: Vec<u8> = Vec::new();
    v.push(47);
    let mut tail = root.as_bytes_vec();
    v.append(&mut tail);
    proof {
        assert(v@ =~= seq![47u8] + root.spec_bytes());
    }
    let mut c = collapse_slashes_vec(&v);
    if c.len() > 1 && c[c.len() - 1] == 47 {
        c.pop();
    }
    c
}

/// The object key for `path` under the normalized `root`.
pub fn join_key(root: &Vec<u8>, path: &str) -> (r: Vec<u8>)
    ensures
        r@ == joined_key(root@, path.spec_bytes()),
{
    let mut v: Vec<u8> = Vec::new();
    let mut head = root.clone();
    v.append(&mut head);
    v.push(47);
    let mut tail = path.as_bytes_vec();
    v.append(&mut tail);
    proof {
        assert(v@ =~= root@ + seq![47u8] + path.spec_bytes());
    }
    let mut c = collapse_slashes_vec(&v);
    if c.len() > 0 && c[0] == 47 {
        c.remove(0);
        proof {
            assert(c@ =~= collapse_slashes(root@ + seq![47u8] + path.spec_bytes()).drop_first());
        }
    }
    c
}

/// Percent-encode an object key, keeping unreserved bytes and slashes.
pub fn percent_encode_key(s: &Vec<u8>) -> (r: Vec<u8>)
    ensures
        r@ == percent_encoded(s@),
{
    let mut r: Vec<u8> = Vec::new();
    let mut i: usize = 0;
    while i < s.len()
        invariant
            i <= s@.len(),
            r@ == percent_encoded(s@.subrange(0, i as int)),
        decreases s@.len() - i,
    {
        let b = s[i];
        let plain = (65 <= b && b <= 90) || (97 <= b && b <= 122) || (48 <= b && b <= 57) || b
            == 45 || b == 46 || b == 95 || b == 126 || b == 47;
        if plain {
            r.push(b);
        } else {
            r.push(37);
            let hi = b / 16;
            let lo = b % 16;
            r.push(if hi < 10 { 48 + hi } else { 55 + hi });
            r.push(if lo < 10 { 48 + lo } else { 55 + lo });
        }
        proof {
            assert(s@.subrange(0, i + 1).drop_last() =~= s@.subrange(0, i as int));
        }
        i = i + 1;
    }
    proof {
        assert(s@.subrange(0, s@.len() as int) =~= s@);
    }
    r
}

/// Whether the path's last byte is a slash.
pub fn path_ends_with_slash(path: &str) -> (r: bool)
    ensures
        r == ends_with_slash(path.spec_bytes()),
{
    let b = path.as_bytes();
    b.len() > 0 && b[b.len() - 1] == 47
}

/// Whether the path is exactly the root separator `/`.
pub fn path_is_root(path: &str) -> (r: bool)
    ensures
        r == (path.spec_bytes() == seq![47u8]),
{
    let b = path.as_bytes();
    let r = b.len() == 1 && b[0] == 47;
    proof {
        if r {
            assert(path.spec_bytes() =~= seq![47u8]);
        }
    }
    r
}

/// Whether two strings hold the same characters: their UTF-8 bytes are
/// compared, and equal encodings decode to equal character sequences.
pub fn str_eq(a: &str, b: &str) -> (r: bool)
    ensures
        r == (a@ == b@),
{
    let ab = a.as_bytes();
    let bb = b.as_bytes();
    proof {
        vstd::utf8::encode_utf8_decode_utf8(a@);
        vstd::utf8::encode_utf8_decode_utf8(b@);
    }
    if ab.len() != bb.len() {
        return false;
    }
    let mut i: usize = 0;
    while i < ab.len()
        invariant
            i <= ab@.len(),
            ab@.len() == bb@.len(),
            ab@ == a.spec_bytes(),
            bb@ == b.spec_bytes(),
            a@ == vstd::utf8::decode_utf8(a.spec_bytes()),
            b@ == vstd::utf8::decode_utf8(b.spec_bytes()),
            forall|j: int| 0 <= j < i ==> ab@[j] == bb@[j],
        decreases ab@.len() - i,
    {
        if ab[i] != bb[i] {
            return false;
        }
        i = i + 1;
    }
    proof {
        assert(a.spec_bytes() =~= b.spec_bytes());
    }
    true
}

/// Whether two byte strings hold the same bytes.
pub fn bytes_eq(a: &Vec<u8>, b: &Vec<u8>) -> (r: bool)
    ensures
        r == (a@ == b@),
{
    if a.len() != b.len() {
        return false;
    }
    let mut i: usize = 0;
    while i < a.len()
        invariant
            i <= a@.len(),
            a@.len() == b@.len(),
            forall|j: int| 0 <= j < i ==> a@[j] == b@[j],
        decreases a@.len() - i,
    {
        if a[i] != b[i] {
            return false;
        }
        i = i + 1;
    }
    proof {
        assert(a@ =~= b@);
    }
    true
}

/// Whether `v` begins with the bytes of `p`.
pub fn has_prefix(v: &Vec<u8>, p: &Vec<u8>) -> (r: bool)
    ensures
        r == (v@.len() >= p@.len() && v@.subrange(0, p@.len() as int) == p@),
{
    if v.len() < p.len() {
        return false;
    }
    let mut i: usize = 0;
    while i < p.len()
        invariant
            i <= p@.len(),
            p@.len() <= v@.len(),
            forall|j: int| 0 <= j < i ==> v@[j] == p@[j],
        decreases p@.len() - i,
    {
        if v[i] != p[i] {
            proof {
                assert(v@.subrange(0, p@.len() as int)[i as int] != p@[i as int]);
            }
            return false;
        }
        i = i + 1;
    }
    proof {
        assert(v@.subrange(0, p@.len() as int) =~= p@);
    }
    true
}

/// Whether `v` ends with the bytes of `p`.
pub fn has_suffix(v: &Vec<u8>, p: &Vec<u8>) -> (r: bool)
    ensures
        r == (v@.len() >= p@.len() && v@.subrange(v@.len() - p@.len(), v@.len() as int) == p@),
{
    if v.len() < p.len() {
        return false;
    }
    let off = v.len() - p.len();
    let mut i: usize = 0;
    while i < p.len()
        invariant
            i <= p@.len(),
            p@.len() <= v@.len(),
            v@.len() <= usize::MAX,
            off == v@.len() - p@.len(),
            forall|j: int| 0 <= j < i ==> v@[off + j] == p@[j],
        decreases p@.len() - i,
    {
        if v[off + i] != p[i] {
            proof {
                assert(v@.subrange(v@.len() - p@.len(), v@.len() as int)[i as int] != p@[i as int]);
            }
            return false;
        }
        i = i + 1;
    }
    proof {
        assert(v@.subrange(v@.len() - p@.len(), v@.len() as int) =~= p@);
    }
    true
}

/// Parse a non-empty string of decimal digits into a 64-bit size; anything
/// else, or a value that does not fit, is rejected.
pub fn parse_dec_u64(s: &Vec<u8>) -> (r: Option<u64>)
    ensures
        r is Some <==> (s@.len() > 0 && all_digits(s@) && dec_value(s@) <= u64::MAX),
        r matches Some(v) ==> v == dec_value(s@),
{
    if s.len() == 0 {
        return None;
    }
    let mut acc: u64 = 0;
    let mut i: usize = 0;
    while i < s.len()
        invariant
            0 < s@.len(),
            i <= s@.len(),
            all_digits(s@.subrange(0, i as int)),
            acc == dec_value(s@.subrange(0, i as int)),
        decreases s@.len() - i,
    {
        let b = s[i];
        if b < 48 || b > 57 {
            proof {
                assert(!all_digits(s@));
            }
            return None;
        }
        let d = (b - 48) as u64;
        if acc > (u64::MAX - d) / 10 {
            proof {
                assert(s@.subrange(0, i + 1).drop_last() =~= s@.subrange(0, i as int));
                assert(dec_value(s@.subrange(0, i + 1)) == acc * 10 + d);
                assert(acc * 10 + d > u64::MAX) by (nonlinear_arith)
                    requires
                        acc > (u64::MAX - d) / 10,
                        d <= 9,
                ;
                if all_digits(s@) && dec_value(s@) <= u64::MAX {
                    lemma_dec_prefix_le(s@, i + 1);
                    assert(false);
                }
            }
            return None;
        }
        proof {
            assert(acc * 10 + d <= u64::MAX) by (nonlinear_arith)
                requires
                    acc <= (u64::MAX - d) / 10,
                    d <= 9,
            ;
            assert(s@.subrange(0, i + 1).drop_last() =~= s@.subrange(0, i as int));
        }
        acc = acc * 10 + d;
        i = i + 1;
    }
    proof {
        assert(s@.subrange(0, s@.len() as int) =~= s@);
    }
    Some(acc)
}

} // verus!
