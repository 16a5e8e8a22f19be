//! The bundle trailer codec.
//!
//! A bundle file ends with a fixed-format trailer: the compressed payload,
//! the raw UTF-8 bytes of the target name, a 12-byte little-endian metadata
//! record (8-byte payload size, 4-byte name length), and a 10-byte magic
//! marker.  Encoding appends that suffix; decoding scans the tail of a file
//! for the right-most marker and walks backward from it, rejecting any
//! trailer whose offsets would reach past the start of the scanned tail.

use vstd::prelude::*;
use vstd::bytes::*;
use vstd::slice::{slice_subrange, slice_to_vec};
use vstd::utf8::{decode_utf8, valid_utf8};

use crate::BundleError;

verus! {

/// Length in bytes of the magic marker.
pub const MARKER_LEN: usize = 10;

/// Length in bytes of the metadata record: an 8-byte payload size and a
/// 4-byte name length, both little-endian.
pub const META_LEN: usize = 12;

/// Upper bound on the name length that decoding supports; it bounds how far
/// before the marker the tail scan ever needs to look.
pub const MAX_NAME_LEN: usize = 256;

/// How many bytes of the end of a file the decoder examines.
pub const TAIL_LEN: usize = META_LEN + MARKER_LEN + MAX_NAME_LEN;

/// The magic marker bytes, `REX_BUNDLE` in ASCII.
pub open spec fn magic() -> Seq<u8> {
    seq![82u8, 69u8, 88u8, 95u8, 66u8, 85u8, 78u8, 68u8, 76u8, 69u8]
}

/// The byte layout of a trailer for a payload of `payload_size` bytes and
/// the given name bytes: name, metadata record, magic marker.
pub open spec fn trailer_bytes(name: Seq<u8>, payload_size: u64) -> Seq<u8>
    recommends
        name.len() <= u32::MAX,
{
    name + spec_u64_to_le_bytes(payload_size) + spec_u32_to_le_bytes(name.len() as u32) + magic()
}

/// A whole bundle file: some base image, the compressed payload, and the
/// trailer that describes the payload.
pub open spec fn bundle_file(base: Seq<u8>, payload: Seq<u8>, name: Seq<u8>) -> Seq<u8>
    recommends
        name.len() <= u32::MAX,
        payload.len() <= u64::MAX,
{
    base + payload + trailer_bytes(name, payload.len() as u64)
}

/// The part of a file that decoding examines: the last [`TAIL_LEN`] bytes,
/// or the whole file when it is shorter than that.
pub open spec fn tail_of(file: Seq<u8>) -> Seq<u8> {
    if file.len() >= TAIL_LEN {
        file.subrange(file.len() - TAIL_LEN, file.len() as int)
    } else {
        file
    }
}

/// True when the magic marker occupies positions `i .. i + MARKER_LEN` of `t`.
pub open spec fn marker_at(t: Seq<u8>, i: int) -> bool {
    &&& 0 <= i
    &&& i + MARKER_LEN <= t.len()
    &&& t.subrange(i, i + MARKER_LEN) == magic()
}

/// Position of the right-most marker occurrence that starts before `n`,
/// if any.
pub open spec fn rfind_marker_before(t: Seq<u8>, n: nat) -> Option<int>
    decreases n,
{
    if n == 0 {
        None
    } else if marker_at(t, n - 1) {
        Some(n - 1)
    } else {
        rfind_marker_before(t, (n - 1) as nat)
    }
}

/// Position of the right-most marker occurrence in `t`, if any.
pub open spec fn last_marker(t: Seq<u8>) -> Option<int> {
    rfind_marker_before(t, t.len())
}

/// What decoding a file's tail yields: no marker at all (the file is not a
/// bundle), a marker with an invalid trailer around it, or the description
/// of the payload.
#[verifier::ext_equal]
pub enum SpecLocate {
    NotBundled,
    Corrupt,
    Found { payload_size: u64, name_len: u32, name: Seq<char>, payload_start: u64 },
}

/// The meaning of trailer decoding, over the scanned tail `t` of a file of
/// `file_size` bytes.  The metadata record sits immediately before the
/// marker, the name bytes immediately before the metadata, and the payload
/// immediately before the name; a step that would leave the scanned tail or
/// the file is a corrupt trailer, as is a name that is not valid UTF-8.
pub open spec fn locate_spec(t: Seq<u8>, file_size: nat) -> SpecLocate
    recommends
        t.len() <= file_size,
        file_size <= u64::MAX,
{
    match last_marker(t) {
        None => SpecLocate::NotBundled,
        Some(i) => {
            let start = file_size - t.len();
            if i < META_LEN {
                SpecLocate::Corrupt
            } else {
                let psize = spec_u64_from_le_bytes(t.subrange(i - 12, i - 4));
                let nlen = spec_u32_from_le_bytes(t.subrange(i - 4, i));
                if i - 12 - nlen < 0 {
                    SpecLocate::Corrupt
                } else {
                    let name_bytes = t.subrange(i - 12 - nlen, i - 12);
                    if !valid_utf8(name_bytes) {
                        SpecLocate::Corrupt
                    } else if start + i - 12 - nlen < psize {
                        SpecLocate::Corrupt
                    } else {
                        SpecLocate::Found {
                            payload_size: psize,
                            name_len: nlen,
                            name: decode_utf8(name_bytes),
                            payload_start: (start + i - 12 - nlen - psize) as u64,
                        }
                    }
                }
            }
        },
    }
}

/// The in-memory description of a bundle's payload, parsed once from the
/// running executable's own image.
#[derive(Debug, PartialEq, Eq)]
pub struct PayloadInfo {
    /// Size in bytes of the compressed payload.
    pub payload_size: u64,
    /// Length in bytes of the UTF-8 target name.
    pub name_len: u32,
    /// The target binary's name, decoded from the trailer.
    pub target_binary_name: String,
    /// Absolute file offset at which the payload begins.
    pub payload_start_offset: u64,
}

/// How an executable decode result corresponds to [`locate_spec`].
pub open spec fn result_matches_locate(
    r: Result<Option<PayloadInfo>, BundleError>,
    s: SpecLocate,
) -> bool {
    match s {
        SpecLocate::NotBundled => r == Ok::<Option<PayloadInfo>, BundleError>(None),
        SpecLocate::Corrupt => r == Err::<Option<PayloadInfo>, BundleError>(
            BundleError::CorruptTrailer,
        ),
        SpecLocate::Found { payload_size, name_len, name, payload_start } => match r {
            Ok(Some(info)) => {
                &&& info.payload_size == payload_size
                &&& info.name_len == name_len
                &&& info.target_binary_name@ == name
                &&& info.payload_start_offset == payload_start
            },
            _ => false,
        },
    }
}

/// Relies on `String::from_utf8`: it succeeds exactly on byte sequences that
/// are valid UTF-8, and the returned string's characters are the decoding of
/// those bytes, as modeled by vstd's `valid_utf8` and `decode_utf8`.
#[verifier::external_body]
fn bytes_to_string(bytes: Vec<u8>) -> (r: Option<String>)
    ensures
        r is Some <==> valid_utf8(bytes@),
        r matches Some(s) ==> s@ == decode_utf8(bytes@),
{
    match String::from_utf8(bytes) {
        Ok(s) => Some(s),
        Err(_) => None,
    }
}

/// True exactly when the marker sits at position `i` of `tail`.
fn is_marker_at(tail: &Vec<u8>, i: usize) -> (b: bool)
    requires
        i + MARKER_LEN <= tail@.len(),
    ensures
        b == marker_at(tail@, i as int),
{
    let n = tail.len();
    assert(i + MARKER_LEN <= n);
    let b = tail[i] == 82 && tail[i + 1] == 69 && tail[i + 2] == 88 && tail[i + 3] == 95
        && tail[i + 4] == 66 && tail[i + 5] == 85 && tail[i + 6] == 78 && tail[i + 7] == 68
        && tail[i + 8] == 76 && tail[i + 9] == 69;
    proof {
        let t = tail@;
        let ii = i as int;
        if b {
            assert(t.subrange(ii, ii + MARKER_LEN) =~= magic());
        } else {
            if t.subrange(ii, ii + MARKER_LEN) == magic() {
                assert(forall|k: int|
                    0 <= k < MARKER_LEN ==> t[ii + k] == #[trigger] t.subrange(
                        ii,
                        ii + MARKER_LEN,
                    )[k]);
                assert(t[ii] == 82 && t[ii + 1] == 69 && t[ii + 2] == 88 && t[ii + 3] == 95
                    && t[ii + 4] == 66 && t[ii + 5] == 85 && t[ii + 6] == 78 && t[ii + 7] == 68
                    && t[ii + 8] == 76 && t[ii + 9] == 69);
            }
        }
    }
    b
}

/// Extending the searched range over positions with no marker does not
/// change the result of the search.
proof fn lemma_rfind_extend(t: Seq<u8>, a: nat, b: nat)
    requires
        a <= b,
        forall|j: int| a <= j < b ==> !marker_at(t, j),
    ensures
        rfind_marker_before(t, b) == rfind_marker_before(t, a),
    decreases b - a,
{
    if a < b {
        assert(!marker_at(t, b - 1));
        lemma_rfind_extend(t, a, (b - 1) as nat);
    }
}

/// What the backward search returns: the right-most marker position below
/// `n`, or nothing when there is none.
proof fn lemma_rfind_props(t: Seq<u8>, n: nat)
    ensures
        match rfind_marker_before(t, n) {
            Some(i) => 0 <= i < n && marker_at(t, i) && forall|j: int|
                i < j < n ==> !marker_at(t, j),
            None => forall|j: int| 0 <= j < n ==> !marker_at(t, j),
        },
    decreases n,
{
    if n > 0 {
        lemma_rfind_props(t, (n - 1) as nat);
    }
}

/// If `i` carries a marker and nothing to its right below `n` does, the
/// backward search returns `i`.
proof fn lemma_rfind_hit(t: Seq<u8>, n: nat, i: int)
    requires
        0 <= i < n,
        marker_at(t, i),
        forall|j: int| i < j < n ==> !marker_at(t, j),
    ensures
        rfind_marker_before(t, n) == Some(i),
    decreases n,
{
    if n - 1 > i {
        lemma_rfind_hit(t, (n - 1) as nat, i);
    }
}

/// Finds the right-most occurrence of the magic marker in `tail`.
fn rfind_marker(tail: &Vec<u8>) -> (r: Option<usize>)
    ensures
        match r {
            Some(i) => last_marker(tail@) == Some(i as int),
            None => last_marker(tail@) is None,
        },
{
    let n = tail.len();
    let mut best: Option<usize> = None;
    if n >= MARKER_LEN {
        let mut idx: usize = 0;
        while idx <= n - MARKER_LEN
            invariant
                n == tail@.len(),
                n >= MARKER_LEN,
                idx <= n - MARKER_LEN + 1,
                match best {
                    Some(b) => rfind_marker_before(tail@, idx as nat) == Some(b as int),
                    None => rfind_marker_before(tail@, idx as nat) is None,
                },
            decreases n - idx,
        {
            if is_marker_at(tail, idx) {
                best = Some(idx);
            }
            idx = idx + 1;
            proof {
                assert(rfind_marker_before(tail@, idx as nat) == if marker_at(tail@, idx - 1) {
                    Some(idx - 1)
                } else {
                    rfind_marker_before(tail@, (idx - 1) as nat)
                });
            }
        }
        proof {
            assert(forall|j: int| idx <= j < n ==> !marker_at(tail@, j));
            lemma_rfind_extend(tail@, idx as nat, n as nat);
        }
    } else {
        proof {
            assert(forall|j: int| 0 <= j < n ==> !marker_at(tail@, j));
            lemma_rfind_extend(tail@, 0, n as nat);
        }
    }
    best
}

/// Scans the tail of a file for a bundle trailer and parses it.
///
/// `tail` must hold the last [`TAIL_LEN`] bytes of the file, or the whole
/// file when it is shorter than that; `file_size` is the file's total size.
/// Returns `Ok(None)` when no marker occurs in the tail (the file is not a
/// bundle), the payload description when the right-most marker carries a
/// well-formed trailer, and `CorruptTrailer` when it does not.
pub fn find_payload_info(tail: &Vec<u8>, file_size: u64) -> (r: Result<
    Option<PayloadInfo>,
    BundleError,
>)
    requires
        tail@.len() <= file_size,
        file_size >= TAIL_LEN ==> tail@.len() == TAIL_LEN,
        file_size < TAIL_LEN ==> tail@.len() == file_size,
    ensures
        result_matches_locate(r, locate_spec(tail@, file_size as nat)),
{
    let marker_idx = match rfind_marker(tail) {
        None => {
            return Ok(None);
        },
        Some(i) => i,
    };
    let ghost t = tail@;
    let ghost mi = marker_idx as int;
    proof {
        lemma_rfind_props(t, t.len());
    }
    if marker_idx < META_LEN {
        return Err(BundleError::CorruptTrailer);
    }
    let ps_slice = slice_subrange(tail.as_slice(), marker_idx - 12, marker_idx - 4);
    let payload_size = u64_from_le_bytes(ps_slice);
    let nl_slice = slice_subrange(tail.as_slice(), marker_idx - 4, marker_idx);
    let name_len = u32_from_le_bytes(nl_slice);
    assert(payload_size == spec_u64_from_le_bytes(t.subrange(mi - 12, mi - 4)));
    assert(name_len == spec_u32_from_le_bytes(t.subrange(mi - 4, mi)));
    if marker_idx - META_LEN < name_len as usize {
        return Err(BundleError::CorruptTrailer);
    }
    let name_start = marker_idx - META_LEN - name_len as usize;
    let name_slice = slice_subrange(tail.as_slice(), name_start, marker_idx - 12);
    let name_vec = slice_to_vec(name_slice);
    assert(name_vec@ == t.subrange(mi - 12 - name_len, mi - 12));
    let name = match bytes_to_string(name_vec) {
        Some(s) => s,
        None => {
            return Err(BundleError::CorruptTrailer);
        },
    };
    // absolute file offset of the marker
    let start: u64 = file_size - tail.len() as u64;
    let marker_abs: u64 = start + marker_idx as u64;
    if marker_abs - 12 - (name_len as u64) < payload_size {
        return Err(BundleError::CorruptTrailer);
    }
    let payload_start = marker_abs - 12 - (name_len as u64) - payload_size;
    Ok(
        Some(
            PayloadInfo {
                payload_size,
                name_len,
                target_binary_name: name,
                payload_start_offset: payload_start,
            },
        ),
    )
}

/// Encodes the trailer for a payload of `payload_size` bytes and the given
/// name bytes: the name, the 12-byte little-endian metadata record, and the
/// magic marker, in that order.
pub fn encode_trailer(name: &Vec<u8>, payload_size: u64) -> (r: Vec<u8>)
    requires
        name@.len() <= u32::MAX,
    ensures
        r@ == trailer_bytes(name@, payload_size),
{
    let mut out: Vec<u8> = Vec::new();
    out.extend_from_slice(name.as_slice());
    let ps = u64_to_le_bytes(payload_size);
    out.extend_from_slice(ps.as_slice());
    let nl = u32_to_le_bytes(name.len() as u32);
    out.extend_from_slice(nl.as_slice());
    out.push(82);
    out.push(69);
    out.push(88);
    out.push(95);
    out.push(66);
    out.push(85);
    out.push(78);
    out.push(68);
    out.push(76);
    out.push(69);
    proof {
        assert(out@ =~= trailer_bytes(name@, payload_size));
    }
    out
}

/// Everything a bundle appends to the copied base image: the compressed
/// payload followed by its trailer.  Writing this after any base image of
/// `b` bytes yields exactly `bundle_file(b, payload@, name@)`.
pub fn bundle_suffix(payload: &Vec<u8>, name: &Vec<u8>) -> (r: Vec<u8>)
    requires
        name@.len() <= u32::MAX,
    ensures
        r@ == payload@ + trailer_bytes(name@, payload@.len() as u64),
{
    let mut out: Vec<u8> = Vec::new();
    out.extend_from_slice(payload.as_slice());
    let mut tr = encode_trailer(name, payload.len() as u64);
    out.append(&mut tr);
    out
}

/// A file decodes as "not a bundle" exactly when no occurrence of the
/// magic marker lies anywhere in its scanned tail; that case is not an
/// error, it is the generator path.
pub proof fn lemma_not_bundled_iff_no_marker(t: Seq<u8>, file_size: nat)
    ensures
        locate_spec(t, file_size) is NotBundled <==> (forall|i: int| !marker_at(t, i)),
{
    lemma_rfind_props(t, t.len());
    if last_marker(t) is None {
        assert forall|i: int| !marker_at(t, i) by {
            if 0 <= i && i + MARKER_LEN <= t.len() {
                assert(!marker_at(t, i));
            }
        }
    }
}

/// Round trip of the trailer codec: scanning the tail of a bundle file made
/// of any base image, any payload, and the trailer for a name of up to
/// [`MAX_NAME_LEN`] UTF-8 bytes yields exactly the description that was
/// encoded.  In particular the right-most marker occurrence wins: the result
/// is the same even when the payload itself contains marker bytes.
pub proof fn lemma_trailer_round_trip(base: Seq<u8>, payload: Seq<u8>, name: Seq<u8>)
    requires
        name.len() <= MAX_NAME_LEN,
        valid_utf8(name),
        payload.len() <= u64::MAX,
        bundle_file(base, payload, name).len() <= u64::MAX,
    ensures
        locate_spec(tail_of(bundle_file(base, payload, name)), bundle_file(base, payload, name).len())
            == (SpecLocate::Found {
            payload_size: payload.len() as u64,
            name_len: name.len() as u32,
            name: decode_utf8(name),
            payload_start: base.len() as u64,
        }),
{
    lemma_auto_spec_u64_to_from_le_bytes();
    lemma_auto_spec_u32_to_from_le_bytes();
    let nlen = name.len() as int;
    let ps8 = spec_u64_to_le_bytes(payload.len() as u64);
    let nl4 = spec_u32_to_le_bytes(name.len() as u32);
    let tr = trailer_bytes(name, payload.len() as u64);
    assert(magic().len() == 10);
    assert(tr.len() == nlen + 22);
    let file = bundle_file(base, payload, name);
    let fs = file.len() as int;
    let t = tail_of(file);
    let tlen = t.len() as int;
    assert(t =~= file.subrange(fs - tlen, fs));
    assert(22 <= tlen <= fs);
    let i = tlen - 10;
    // the marker occupies the last ten bytes of the tail
    assert forall|k: int| 0 <= k < 10 implies t[i + k] == magic()[k] by {
        assert(t[i + k] == file[fs - 10 + k]);
        assert(file[fs - 10 + k] == tr[nlen + 12 + k]);
        assert(tr[nlen + 12 + k] == magic()[k]);
    }
    assert(t.subrange(i, i + MARKER_LEN) =~= magic());
    assert(marker_at(t, i));
    assert(forall|j: int| i < j < t.len() ==> !marker_at(t, j));
    lemma_rfind_hit(t, t.len(), i);
    assert(last_marker(t) == Some(i));
    // the metadata record sits immediately before it
    assert forall|k: int| 0 <= k < 8 implies t[i - 12 + k] == ps8[k] by {
        assert(t[i - 12 + k] == file[fs - 22 + k]);
        assert(file[fs - 22 + k] == tr[nlen + k]);
        assert(tr[nlen + k] == ps8[k]);
    }
    assert(t.subrange(i - 12, i - 4) =~= ps8);
    assert forall|k: int| 0 <= k < 4 implies t[i - 4 + k] == nl4[k] by {
        assert(t[i - 4 + k] == file[fs - 14 + k]);
        assert(file[fs - 14 + k] == tr[nlen + 8 + k]);
        assert(tr[nlen + 8 + k] == nl4[k]);
    }
    assert(t.subrange(i - 4, i) =~= nl4);
    let psize = spec_u64_from_le_bytes(t.subrange(i - 12, i - 4));
    let nl_dec = spec_u32_from_le_bytes(t.subrange(i - 4, i));
    assert(psize == payload.len() as u64);
    assert(nl_dec == name.len() as u32);
    assert(nl_dec as int == nlen);
    // the name window stays inside the tail
    assert(i - 12 - nlen >= 0) by {
        if fs >= TAIL_LEN {
            assert(i == TAIL_LEN - 10);
        } else {
            assert(tlen == fs);
            assert(i - 12 - nlen == base.len() + payload.len());
        }
    }
    // the name bytes sit immediately before the metadata record
    assert forall|k: int| 0 <= k < nlen implies t[i - 12 - nlen + k] == name[k] by {
        assert(t[i - 12 - nlen + k] == file[fs - 22 - nlen + k]);
        assert(file[fs - 22 - nlen + k] == tr[k]);
        assert(tr[k] == name[k]);
    }
    assert(t.subrange(i - 12 - nl_dec, i - 12) =~= name);
    // the payload fits before the name
    let start = fs - tlen;
    assert(start + i - 12 - nl_dec == base.len() + payload.len());
    assert(start + i - 12 - nl_dec - psize == base.len());
}

/// The round trip stated over a name given as characters: the name written
/// into the trailer is its UTF-8 encoding, and decoding gives the same
/// characters back.
pub proof fn lemma_trailer_round_trip_chars(base: Seq<u8>, payload: Seq<u8>, name: Seq<char>)
    requires
        vstd::utf8::encode_utf8(name).len() <= MAX_NAME_LEN,
        payload.len() <= u64::MAX,
        bundle_file(base, payload, vstd::utf8::encode_utf8(name)).len() <= u64::MAX,
    ensures
        locate_spec(
            tail_of(bundle_file(base, payload, vstd::utf8::encode_utf8(name))),
            bundle_file(base, payload, vstd::utf8::encode_utf8(name)).len(),
        ) == (SpecLocate::Found {
            payload_size: payload.len() as u64,
            name_len: vstd::utf8::encode_utf8(name).len() as u32,
            name: name,
            payload_start: base.len() as u64,
        }),
{
    vstd::utf8::encode_utf8_valid_utf8(name);
    vstd::utf8::encode_utf8_decode_utf8(name);
    lemma_trailer_round_trip(base, payload, vstd::utf8::encode_utf8(name));
}

} // verus!
