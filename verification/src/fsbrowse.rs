//! Read-only directory listing with a path-jail guard.
//!
//! Requests are jailed to a root directory: a request whose canonical path
//! does not lie under the (canonical) root is rejected. Paths are handled
//! here as their component lists, each component as its encoded bytes, so
//! that two paths are related exactly as `Path::starts_with` relates them.
//! Entries are listed folders first, then files, by name within each group.

use vstd::prelude::*;
use vstd::string::*;
use vstd::utf8::*;
use vstd::multiset::Multiset;

use crate::message::DirEntry;
use crate::text::owned;

verus! {

broadcast use {vstd::seq_lib::group_to_multiset_ensures, vstd::multiset::group_multiset_axioms};

/// `prefix` is a leading part of `path`, component by component.
pub open spec fn is_component_prefix(prefix: Seq<Vec<u8>>, path: Seq<Vec<u8>>) -> bool {
    &&& prefix.len() <= path.len()
    &&& forall|k: int| 0 <= k < prefix.len() ==> #[trigger] prefix[k]@ == path[k]@
}

/// Whether `path` lies under `root` (a path lies under itself).
pub fn within_root(root: &Vec<Vec<u8>>, path: &Vec<Vec<u8>>) -> (r: bool)
    ensures
        r == is_component_prefix(root@, path@),
{
    if root.len() > path.len() {
        return false;
    }
    let mut k: usize = 0;
    while k < root.len()
        invariant
            root@.len() <= path@.len(),
            k <= root@.len(),
            forall|j: int| 0 <= j < k ==> #[trigger] root@[j]@ == path@[j]@,
        decreases root@.len() - k,
    {
        if !crate::text::bytes_eq(root[k].as_slice(), path[k].as_slice()) {
            return false;
        }
        k = k + 1;
    }
    true
}

/// Strict lexicographic order on byte strings (the order of `String`s).
pub open spec fn bytes_lt(a: Seq<u8>, b: Seq<u8>) -> bool
    decreases a.len(),
{
    if a.len() == 0 {
        b.len() > 0
    } else if b.len() == 0 {
        false
    } else if a[0] != b[0] {
        a[0] < b[0]
    } else {
        bytes_lt(a.drop_first(), b.drop_first())
    }
}

/// `bytes_lt` is a strict total order.
pub proof fn lemma_bytes_lt_order(a: Seq<u8>, b: Seq<u8>, c: Seq<u8>)
    ensures
        !bytes_lt(a, a),
        bytes_lt(a, b) ==> !bytes_lt(b, a),
        bytes_lt(a, b) && bytes_lt(b, c) ==> bytes_lt(a, c),
        a != b ==> bytes_lt(a, b) || bytes_lt(b, a),
    decreases a.len(),
{
    if a.len() > 0 {
        lemma_bytes_lt_order(a.drop_first(), b.drop_first(), c.drop_first());
        if b.len() > 0 && a != b && a[0] == b[0] {
            assert(a =~= seq![a[0]] + a.drop_first());
            assert(b =~= seq![b[0]] + b.drop_first());
        }
    } else {
        if b.len() == 0 {
            assert(a =~= b);
        }
    }
}

/// The bytes of an entry's name.
pub open spec fn name_bytes(e: DirEntry) -> Seq<u8> {
    encode_utf8(e.name@)
}

/// `a` is listed strictly before `b`: folders before files, then by name.
pub open spec fn entry_lt(a: DirEntry, b: DirEntry) -> bool {
    ||| (a.is_dir && !b.is_dir)
    ||| (a.is_dir == b.is_dir && bytes_lt(name_bytes(a), name_bytes(b)))
}

/// `a` may be listed before `b`.
pub open spec fn entry_le(a: DirEntry, b: DirEntry) -> bool {
    !entry_lt(b, a)
}

/// The listing order holds throughout `s`.
pub open spec fn entries_sorted(s: Seq<DirEntry>) -> bool {
    forall|i: int, j: int| 0 <= i < j < s.len() ==> entry_le(#[trigger] s[i], #[trigger] s[j])
}

proof fn lemma_entry_order(a: DirEntry, b: DirEntry, c: DirEntry)
    ensures
        entry_lt(a, b) ==> entry_le(a, b),
        entry_le(a, b) && entry_le(b, c) ==> entry_le(a, c),
{
    let (x, y, z) = (name_bytes(a), name_bytes(b), name_bytes(c));
    lemma_bytes_lt_order(x, y, z);
    lemma_bytes_lt_order(y, z, x);
    lemma_bytes_lt_order(z, x, y);
    lemma_bytes_lt_order(x, z, y);
    lemma_bytes_lt_order(y, x, z);
    lemma_bytes_lt_order(z, y, x);
}

fn bytes_lt_exec(a: &[u8], b: &[u8]) -> (r: bool)
    ensures
        r == bytes_lt(a@, b@),
{
    let mut i: usize = 0;
    assert(a@.skip(0) == a@ && b@.skip(0) == b@);
    loop
        invariant
            i <= a@.len(),
            i <= b@.len(),
            bytes_lt(a@, b@) == bytes_lt(a@.skip(i as int), b@.skip(i as int)),
        decreases a@.len() - i,
    {
        if i == a.len() {
            return i < b.len();
        }
        if i == b.len() {
            return false;
        }
        if a[i] != b[i] {
            return a[i] < b[i];
        }
        assert(a@.skip(i as int).drop_first() == a@.skip(i + 1));
        assert(b@.skip(i as int).drop_first() == b@.skip(i + 1));
        i = i + 1;
    }
}

fn entry_lt_exec(a: &DirEntry, b: &DirEntry) -> (r: bool)
    ensures
        r == entry_lt(*a, *b),
{
    if a.is_dir != b.is_dir {
        a.is_dir
    } else {
        bytes_lt_exec(a.name.as_str().as_bytes(), b.name.as_str().as_bytes())
    }
}

/// `a` and `b` have the same place in the listing order (same kind, same
/// name).
pub open spec fn same_key(a: DirEntry, b: DirEntry) -> bool {
    !entry_lt(a, b) && !entry_lt(b, a)
}

/// `out` is `input` rearranged by `perm` (`out[k]` is `input[perm[k]]`,
/// each input position used once), with entries of the same key kept in
/// their input order.
pub open spec fn stable_arrangement(input: Seq<DirEntry>, out: Seq<DirEntry>, perm: Seq<int>) -> bool {
    &&& out.len() == input.len()
    &&& perm.len() == out.len()
    &&& forall|k: int| 0 <= k < perm.len() ==> 0 <= #[trigger] perm[k] < input.len() && out[k] == input[perm[k]]
    &&& forall|k: int, l: int| 0 <= k < l < perm.len() ==> #[trigger] perm[k] != #[trigger] perm[l]
    &&& forall|k: int, l: int|
        0 <= k < l < out.len() && same_key(#[trigger] out[k], #[trigger] out[l]) ==> perm[k] < perm[l]
}

/// The entries in listing order: folders first, then files, each group by
/// name; entries of the same kind and name keep their order. The result
/// holds exactly the given entries.
pub fn sort_entries(entries: Vec<DirEntry>) -> (out: Vec<DirEntry>)
    ensures
        entries_sorted(out@),
        out@.to_multiset() == entries@.to_multiset(),
        exists|perm: Seq<int>| stable_arrangement(entries@, out@, perm),
{
    let mut out: Vec<DirEntry> = Vec::new();
    let mut rest = entries;
    let ghost all = rest@;
    // Process the entries front to back by reversing them once.
    let mut pending: Vec<DirEntry> = Vec::new();
    while rest.len() > 0
        invariant
            pending@.to_multiset().add(rest@.to_multiset()) == all.to_multiset(),
            rest@ == all.take(rest@.len() as int),
            pending@.len() + rest@.len() == all.len(),
            forall|i: int| 0 <= i < pending@.len() ==> #[trigger] pending@[i] == all[all.len() - 1 - i],
        decreases rest@.len(),
    {
        let ghost r0 = rest@;
        let ghost p0 = pending@;
        let e = rest.pop().unwrap();
        pending.push(e);
        proof {
            assert(r0 == rest@.push(e));
            assert(pending@.to_multiset().add(rest@.to_multiset()) =~= p0.to_multiset().add(
                r0.to_multiset(),
            ));
            assert(rest@ =~= all.take(rest@.len() as int));
            assert(e == all[rest@.len() as int]);
        }
    }
    assert(rest@.to_multiset() =~= Multiset::empty());
    let ghost mut perm: Seq<int> = Seq::empty();
    assert(all.take(0) =~= Seq::<DirEntry>::empty());
    while pending.len() > 0
        invariant
            entries_sorted(out@),
            out@.to_multiset().add(pending@.to_multiset()) == all.to_multiset(),
            out@.len() + pending@.len() == all.len(),
            forall|i: int| 0 <= i < pending@.len() ==> #[trigger] pending@[i] == all[all.len() - 1 - i],
            stable_arrangement(all.take(out@.len() as int), out@, perm),
        decreases pending@.len(),
    {
        let ghost q0 = pending@;
        let ghost n = out@.len() as int;
        let x = pending.pop().unwrap();
        proof {
            assert(q0 == pending@.push(x));
            assert(x == q0[q0.len() - 1]);
            assert(x == all[n]);
        }
        let mut p: usize = 0;
        while p < out.len() && !entry_lt_exec(&x, &out[p])
            invariant
                p <= out@.len(),
                forall|k: int| 0 <= k < p ==> entry_le(#[trigger] out@[k], x),
            decreases out@.len() - p,
        {
            p = p + 1;
        }
        let ghost before = out@;
        let ghost old_perm = perm;
        proof {
            assert forall|k: int| p <= k < before.len() implies entry_le(x, #[trigger] before[k]) by {
                lemma_entry_order(x, before[p as int], before[k]);
                if k > p {
                    assert(entry_le(before[p as int], before[k]));
                }
            }
            assert forall|k: int| p <= k < before.len() implies !same_key(x, #[trigger] before[k]) by {
                lemma_entry_order(before[p as int], before[k], x);
                lemma_entry_order(x, before[p as int], before[k]);
                if k > p {
                    assert(entry_le(before[p as int], before[k]));
                }
            }
        }
        out.insert(p, x);
        proof {
            let after = out@;
            perm = old_perm.insert(p as int, n);
            assert(after.to_multiset() == before.to_multiset().insert(x));
            assert(after.to_multiset().add(pending@.to_multiset()) =~= before.to_multiset().add(
                q0.to_multiset(),
            ));
            assert forall|i: int, j: int| 0 <= i < j < after.len() implies entry_le(#[trigger] after[i], #[trigger] after[j]) by {
                if i < p && j == p {
                } else if i == p && j > p {
                    assert(after[j] == before[j - 1]);
                } else if i < p && j > p {
                    assert(after[j] == before[j - 1]);
                    assert(entry_le(before[i], before[j - 1]));
                } else if i > p {
                    assert(after[i] == before[i - 1] && after[j] == before[j - 1]);
                } else {
                    assert(after[i] == before[i] && after[j] == before[j]);
                }
            }
            let input = all.take(n + 1);
            assert forall|k: int| 0 <= k < perm.len() implies 0 <= #[trigger] perm[k] < input.len()
                && after[k] == input[perm[k]] by {
                if k < p {
                    assert(perm[k] == old_perm[k] && after[k] == before[k]);
                } else if k > p {
                    assert(perm[k] == old_perm[k - 1] && after[k] == before[k - 1]);
                }
            }
            assert forall|k: int, l: int| 0 <= k < l < perm.len() implies #[trigger] perm[k]
                != #[trigger] perm[l] by {
                if k < p && l > p {
                    assert(perm[k] == old_perm[k] && perm[l] == old_perm[l - 1]);
                } else if k > p {
                    assert(perm[k] == old_perm[k - 1] && perm[l] == old_perm[l - 1]);
                } else if l < p {
                    assert(perm[k] == old_perm[k] && perm[l] == old_perm[l]);
                } else if k == p {
                    assert(perm[l] == old_perm[l - 1]);
                } else {
                    assert(perm[k] == old_perm[k]);
                }
            }
            assert forall|k: int, l: int| 0 <= k < l < after.len() && same_key(#[trigger] after[k], #[trigger] after[l])
                implies perm[k] < perm[l] by {
                if k < p && l > p {
                    assert(perm[k] == old_perm[k] && perm[l] == old_perm[l - 1]);
                    assert(after[k] == before[k] && after[l] == before[l - 1]);
                } else if k > p {
                    assert(perm[k] == old_perm[k - 1] && perm[l] == old_perm[l - 1]);
                    assert(after[k] == before[k - 1] && after[l] == before[l - 1]);
                } else if l < p {
                    assert(perm[k] == old_perm[k] && perm[l] == old_perm[l]);
                    assert(after[k] == before[k] && after[l] == before[l]);
                } else if k == p {
                    assert(after[l] == before[l - 1]);
                    assert(!same_key(x, before[l - 1]));
                } else {
                    assert(perm[k] == old_perm[k]);
                }
            }
            assert(stable_arrangement(input, after, perm));
        }
    }
    assert(all.take(all.len() as int) == all);
    out
}

/// Why a listing was refused.
#[derive(Debug, Clone, Copy, PartialEq, Eq, Structural)]
pub enum FsError {
    /// The canonical path does not lie under the jail root.
    EscapesRoot,
}

/// List a directory (read-only): `root` is the canonical jail root and
/// `canon` the canonical requested path, both as components; `entries` are
/// the directory's entries as read. Rejected when the path escapes the root;
/// otherwise the entries in listing order (see [`sort_entries`]).
pub fn list_dir(root: &Vec<Vec<u8>>, canon: &Vec<Vec<u8>>, entries: Vec<DirEntry>) -> (r: Result<
    Vec<DirEntry>,
    FsError,
>)
    ensures
        r is Err <==> !is_component_prefix(root@, canon@),
        r matches Err(e) ==> e == FsError::EscapesRoot,
        r matches Ok(out) ==> {
            &&& entries_sorted(out@)
            &&& out@.to_multiset() == entries@.to_multiset()
            &&& exists|perm: Seq<int>| stable_arrangement(entries@, out@, perm)
        },
{
    if !within_root(root, canon) {
        return Err(FsError::EscapesRoot);
    }
    Ok(sort_entries(entries))
}

/// The prefix Windows puts in front of verbatim canonical paths.
pub open spec fn verbatim_prefix() -> Seq<char> {
    seq!['\\', '\\', '?', '\\']
}

/// A canonical path as shown to the user: without the verbatim prefix.
pub open spec fn shown_path(path: Seq<char>) -> Seq<char> {
    if path.len() >= 4 && path.take(4) == verbatim_prefix() {
        path.skip(4)
    } else {
        path
    }
}

/// Strip the Windows `\\?\` verbatim prefix for display.
pub fn display_path(path: &str) -> (r: String)
    ensures
        r@ == shown_path(path@),
{
    let n = path.unicode_len();
    if n >= 4 && path.get_char(0) == '\\' && path.get_char(1) == '\\' && path.get_char(2) == '?'
        && path.get_char(3) == '\\' {
        assert(path@.take(4) =~= verbatim_prefix());
        owned(path.substring_char(4, n))
    } else {
        proof {
            if path@.len() >= 4 && path@.take(4) == verbatim_prefix() {
                assert(path@[0] == path@.take(4)[0]);
                assert(path@[1] == path@.take(4)[1]);
                assert(path@[2] == path@.take(4)[2]);
                assert(path@[3] == path@.take(4)[3]);
            }
        }
        owned(path)
    }
}

/// The bytes of each component.
pub open spec fn part_bytes(parts: Seq<Vec<u8>>) -> Seq<Seq<u8>> {
    Seq::new(parts.len(), |k: int| parts[k]@)
}

/// The base path of a request, as components: an absolute request as it is,
/// a relative one under the jail root.
pub open spec fn resolved_parts(root: Seq<Vec<u8>>, requested: Seq<Vec<u8>>, absolute: bool) -> Seq<Seq<u8>> {
    if absolute {
        part_bytes(requested)
    } else {
        part_bytes(root) + part_bytes(requested)
    }
}

fn append_parts(out: &mut Vec<Vec<u8>>, parts: &Vec<Vec<u8>>)
    ensures
        part_bytes(final(out)@) == part_bytes(old(out)@) + part_bytes(parts@),
{
    let ghost start = part_bytes(out@);
    let mut i: usize = 0;
    while i < parts.len()
        invariant
            i <= parts@.len(),
            part_bytes(out@) == start + part_bytes(parts@.take(i as int)),
        decreases parts@.len() - i,
    {
        let ghost before = out@;
        out.push(vstd::slice::slice_to_vec(parts[i].as_slice()));
        i = i + 1;
        assert(part_bytes(out@) =~= part_bytes(before).push(parts@[i - 1]@));
        assert(part_bytes(parts@.take(i as int)) =~= part_bytes(parts@.take(i - 1)).push(
            parts@[i - 1]@,
        ));
        assert(start + part_bytes(parts@.take(i as int)) =~= (start + part_bytes(
            parts@.take(i - 1),
        )).push(parts@[i - 1]@));
    }
    assert(parts@.take(i as int) =~= parts@);
}

/// The path a request names, before canonicalization: `requested` itself
/// when it is absolute, otherwise `requested` under `root`.
pub fn resolve_request(root: &Vec<Vec<u8>>, requested: &Vec<Vec<u8>>, absolute: bool) -> (r: Vec<
    Vec<u8>,
>)
    ensures
        part_bytes(r@) == resolved_parts(root@, requested@, absolute),
{
    let mut out: Vec<Vec<u8>> = Vec::new();
    assert(part_bytes(out@) =~= Seq::<Seq<u8>>::empty());
    if !absolute {
        append_parts(&mut out, root);
    }
    append_parts(&mut out, requested);
    proof {
        if absolute {
            assert(Seq::<Seq<u8>>::empty() + part_bytes(requested@) =~= part_bytes(requested@));
        } else {
            assert(Seq::<Seq<u8>>::empty() + part_bytes(root@) =~= part_bytes(root@));
        }
    }
    out
}

/// Most bytes of a file's text sent to the phone (1 MiB).
pub const FILE_READ_CAP: usize = 1048576;

/// Most bytes of an image sent to the phone (4 MiB).
pub const IMAGE_READ_CAP: usize = 4194304;

/// The first `cap` bytes of `bytes` (all of them when there are fewer).
pub open spec fn capped(bytes: Seq<u8>, cap: int) -> Seq<u8> {
    if bytes.len() > cap {
        bytes.take(cap)
    } else {
        bytes
    }
}

/// The text of `bytes` with the last `k` bytes dropped, or, failing that,
/// with more dropped, up to `limit` bytes: the first of these that is valid
/// UTF-8, decoded.
pub open spec fn text_dropping(bytes: Seq<u8>, k: int, limit: int) -> Option<Seq<char>>
    decreases limit - k,
{
    if 0 <= k <= bytes.len() && valid_utf8(bytes.take(bytes.len() - k)) {
        Some(decode_utf8(bytes.take(bytes.len() - k)))
    } else if 0 <= k < limit {
        text_dropping(bytes, k + 1, limit)
    } else {
        None
    }
}

/// The text of a file's (possibly cut) bytes: the bytes decoded when they
/// are UTF-8; when they were cut at the size cap, an incomplete character at
/// the cut (at most three bytes) is dropped first. `None` when they are not
/// text.
pub open spec fn file_text(bytes: Seq<u8>, truncated: bool) -> Option<Seq<char>> {
    text_dropping(bytes, 0, if truncated {
        3
    } else {
        0
    })
}

/// Calls `std::str::from_utf8(bytes)`.
///
/// Claimed (std documentation): the bytes are accepted exactly when they
/// are UTF-8, and then read as the text they encode.
#[verifier::external_body]
fn utf8_str(bytes: &[u8]) -> (r: Option<&str>)
    ensures
        r is Some <==> valid_utf8(bytes@),
        r matches Some(s) ==> s@ == decode_utf8(bytes@),
{
    std::str::from_utf8(bytes).ok()
}

/// The text of a file's (possibly cut) bytes; see [`file_text`].
pub fn text_of(bytes: &[u8], truncated: bool) -> (r: Option<String>)
    ensures
        match file_text(bytes@, truncated) {
            Some(t) => r matches Some(s) && s@ == t,
            None => r is None,
        },
{
    let limit: usize = if truncated {
        3
    } else {
        0
    };
    let mut k: usize = 0;
    loop
        invariant
            k <= limit,
            limit == if truncated {
                3usize
            } else {
                0usize
            },
            file_text(bytes@, truncated) == text_dropping(bytes@, k as int, limit as int),
        decreases limit - k,
    {
        if k <= bytes.len() {
            let head = vstd::slice::slice_subrange(bytes, 0, bytes.len() - k);
            assert(head@ == bytes@.take(bytes@.len() - k));
            match utf8_str(head) {
                Some(s) => {
                    return Some(owned(s));
                },
                None => {},
            }
        }
        if k < limit {
            k = k + 1;
        } else {
            return None;
        }
    }
}

/// `b` starts with the PNG signature.
pub open spec fn png_signature(b: Seq<u8>) -> bool {
    &&& b.len() >= 8
    &&& b[0] == 0x89u8 && b[1] == 0x50u8 && b[2] == 0x4eu8 && b[3] == 0x47u8
    &&& b[4] == 0x0du8 && b[5] == 0x0au8 && b[6] == 0x1au8 && b[7] == 0x0au8
}

/// `b` starts with the JPEG start-of-image marker.
pub open spec fn jpeg_signature(b: Seq<u8>) -> bool {
    b.len() >= 3 && b[0] == 0xffu8 && b[1] == 0xd8u8 && b[2] == 0xffu8
}

/// `b` starts with `GIF87a` or `GIF89a`.
pub open spec fn gif_signature(b: Seq<u8>) -> bool {
    &&& b.len() >= 6
    &&& b[0] == 0x47u8 && b[1] == 0x49u8 && b[2] == 0x46u8 && b[3] == 0x38u8
    &&& (b[4] == 0x37u8 || b[4] == 0x39u8)
    &&& b[5] == 0x61u8
}

/// `b` starts with a RIFF header of type `WEBP`.
pub open spec fn webp_signature(b: Seq<u8>) -> bool {
    &&& b.len() >= 12
    &&& b[0] == 0x52u8 && b[1] == 0x49u8 && b[2] == 0x46u8 && b[3] == 0x46u8
    &&& b[8] == 0x57u8 && b[9] == 0x45u8 && b[10] == 0x42u8 && b[11] == 0x50u8
}

/// `b` starts with `BM`, the bitmap signature.
pub open spec fn bmp_signature(b: Seq<u8>) -> bool {
    b.len() >= 2 && b[0] == 0x42u8 && b[1] == 0x4du8
}

/// The media type of an image, told by its leading bytes; `None` when they
/// match no known image format.
pub open spec fn image_mime(b: Seq<u8>) -> Option<Seq<char>> {
    if png_signature(b) {
        Some("image/png"@)
    } else if jpeg_signature(b) {
        Some("image/jpeg"@)
    } else if gif_signature(b) {
        Some("image/gif"@)
    } else if webp_signature(b) {
        Some("image/webp"@)
    } else if bmp_signature(b) {
        Some("image/bmp"@)
    } else {
        None
    }
}

/// The media type of an image; see [`image_mime`].
pub fn sniff_image(b: &[u8]) -> (r: Option<String>)
    ensures
        match image_mime(b@) {
            Some(m) => r matches Some(s) && s@ == m,
            None => r is None,
        },
{
    let n = b.len();
    if n >= 8 && b[0] == 0x89u8 && b[1] == 0x50u8 && b[2] == 0x4eu8 && b[3] == 0x47u8 && b[4]
        == 0x0du8 && b[5] == 0x0au8 && b[6] == 0x1au8 && b[7] == 0x0au8 {
        Some(owned("image/png"))
    } else if n >= 3 && b[0] == 0xffu8 && b[1] == 0xd8u8 && b[2] == 0xffu8 {
        Some(owned("image/jpeg"))
    } else if n >= 6 && b[0] == 0x47u8 && b[1] == 0x49u8 && b[2] == 0x46u8 && b[3] == 0x38u8 && (b[4]
        == 0x37u8 || b[4] == 0x39u8) && b[5] == 0x61u8 {
        Some(owned("image/gif"))
    } else if n >= 12 && b[0] == 0x52u8 && b[1] == 0x49u8 && b[2] == 0x46u8 && b[3] == 0x46u8 && b[8]
        == 0x57u8 && b[9] == 0x45u8 && b[10] == 0x42u8 && b[11] == 0x50u8 {
        Some(owned("image/webp"))
    } else if n >= 2 && b[0] == 0x42u8 && b[1] == 0x4du8 {
        Some(owned("image/bmp"))
    } else {
        None
    }
}

/// The first `cap` bytes of `bytes`; see [`capped`].
pub fn cap_bytes(bytes: &[u8], cap: usize) -> (r: &[u8])
    ensures
        r@ == capped(bytes@, cap as int),
{
    if bytes.len() > cap {
        vstd::slice::slice_subrange(bytes, 0, cap)
    } else {
        bytes
    }
}

} // verus!
