use vstd::prelude::*;
use std::collections::HashMap;
use vstd::slice::slice_to_vec;
use vstd::utf8::*;

use crate::error::ModelError;
use crate::decompress::{lz4_decompress, lz4_decompressed, zstd_decompress, zstd_decompressed};
use crate::text::{bytes_eq, string_from_utf8};

verus! {

/// The magic bytes `<roblox!` that open every Roblox model file.
pub const RBXM_MAGIC_HEADER: [u8; 8] = [60, 114, 111, 98, 108, 111, 120, 33];

/// The signature that follows the magic bytes in the binary format.
pub const RBXM_SIGNATURE: [u8; 6] = [0x89, 0xff, 0x0d, 0x0a, 0x1a, 0x0a];

/// The only binary format version this reader understands.
pub const RBXM_FILE_VERSION: u16 = 0;

/// The frame magic number that marks a zstd-compressed chunk.
pub const ZSTD_MAGIC_NUMBER: [u8; 4] = [0x28, 0xb5, 0x2f, 0xfd];

pub open spec fn spec_magic_header() -> Seq<u8> {
    seq![60u8, 114u8, 111u8, 98u8, 108u8, 111u8, 120u8, 33u8]
}

pub open spec fn spec_signature() -> Seq<u8> {
    seq![0x89u8, 0xffu8, 0x0du8, 0x0au8, 0x1au8, 0x0au8]
}

pub open spec fn spec_zstd_magic() -> Seq<u8> {
    seq![0x28u8, 0xb5u8, 0x2fu8, 0xfdu8]
}

/// The little-endian `u16` stored at `p`.
pub open spec fn spec_u16_le(d: Seq<u8>, p: int) -> u16 {
    (d[p] + 256 * d[p + 1]) as u16
}

/// The little-endian `u32` stored at `p`.
pub open spec fn spec_u32_le(d: Seq<u8>, p: int) -> u32 {
    (d[p] + 256 * d[p + 1] + 65536 * d[p + 2] + 16777216 * d[p + 3]) as u32
}

/// Reading `n` bytes at `p`: the bytes and the position after them.
pub open spec fn spec_read_bytes(d: Seq<u8>, p: int, n: int) -> Result<(Seq<u8>, int), ModelError> {
    if 0 <= p && 0 <= n && p + n <= d.len() {
        Ok((d.subrange(p, p + n), p + n))
    } else {
        Err(ModelError::UnexpectedEof)
    }
}

pub open spec fn spec_read_u8(d: Seq<u8>, p: int) -> Result<(u8, int), ModelError> {
    if 0 <= p && p + 1 <= d.len() {
        Ok((d[p], p + 1))
    } else {
        Err(ModelError::UnexpectedEof)
    }
}

pub open spec fn spec_read_u16(d: Seq<u8>, p: int) -> Result<(u16, int), ModelError> {
    if 0 <= p && p + 2 <= d.len() {
        Ok((spec_u16_le(d, p), p + 2))
    } else {
        Err(ModelError::UnexpectedEof)
    }
}

pub open spec fn spec_read_u32(d: Seq<u8>, p: int) -> Result<(u32, int), ModelError> {
    if 0 <= p && p + 4 <= d.len() {
        Ok((spec_u32_le(d, p), p + 4))
    } else {
        Err(ModelError::UnexpectedEof)
    }
}

/// Reading a string at `p`: a little-endian `u32` byte count, then that many
/// bytes of UTF-8.
pub open spec fn spec_read_string(d: Seq<u8>, p: int) -> Result<(Seq<char>, int), ModelError> {
    match spec_read_u32(d, p) {
        Err(e) => Err(e),
        Ok((n, q)) => match spec_read_bytes(d, q, n as int) {
            Err(e) => Err(e),
            Ok((b, r)) => if valid_utf8(b) {
                Ok((decode_utf8(b), r))
            } else {
                Err(ModelError::InvalidUtf8)
            },
        },
    }
}

/// The inverse of the zigzag encoding: even codes are the non-negative
/// numbers, odd codes the negative ones.
pub open spec fn zigzag_decode(u: u32) -> i32 {
    if u % 2 == 0 {
        (u / 2) as i32
    } else {
        (-((u / 2) as int) - 1) as i32
    }
}

/// The `i`-th raw code of an interleaved referent array of `n` entries: its
/// four bytes, most significant first, stand `n` bytes apart.
pub open spec fn spec_raw_referent(buf: Seq<u8>, n: int, i: int) -> u32 {
    (16777216 * buf[i] + 65536 * buf[i + n] + 256 * buf[i + 2 * n] + buf[i + 3 * n]) as u32
}

/// The first `k` referents of an array of `n`: each is the previous one (0
/// before the first) plus the decoded code, wrapping at the bounds of `i32`.
pub open spec fn spec_referents(buf: Seq<u8>, n: int, k: nat) -> Seq<i32>
    decreases k,
{
    if k == 0 {
        seq![]
    } else {
        let prev = spec_referents(buf, n, (k - 1) as nat);
        let last: i32 = if k == 1 { 0 } else { prev.last() };
        prev.push(vstd::wrapping::i32_specs::wrapping_add(zigzag_decode(spec_raw_referent(buf, n, k - 1)), last))
    }
}

/// Reading an array of `n` referents at `p`.
pub open spec fn spec_read_referents(d: Seq<u8>, p: int, n: nat) -> Result<(Seq<i32>, int), ModelError> {
    if n * 4 > usize::MAX {
        Err(ModelError::ReferentArrayTooLarge)
    } else {
        match spec_read_bytes(d, p, 4 * n as int) {
            Err(e) => Err(e),
            Ok((buf, q)) => Ok((spec_referents(buf, n as int, n), q)),
        }
    }
}

/// The file header: magic bytes, signature, version 0, two counts and eight
/// zero bytes. On success, the position after it.
pub open spec fn spec_read_binary_header(d: Seq<u8>) -> Result<int, ModelError> {
    if d.len() < 8 {
        Err(ModelError::UnexpectedEof)
    } else if d.subrange(0, 8) != spec_magic_header() {
        Err(ModelError::InvalidHeader)
    } else if d.len() < 14 {
        Err(ModelError::UnexpectedEof)
    } else if d.subrange(8, 14) != spec_signature() {
        Err(ModelError::InvalidSignature)
    } else if d.len() < 16 {
        Err(ModelError::UnexpectedEof)
    } else if spec_u16_le(d, 14) != 0 {
        Err(ModelError::UnknownVersion(spec_u16_le(d, 14)))
    } else if d.len() < 32 {
        Err(ModelError::UnexpectedEof)
    } else if d.subrange(24, 32) != Seq::new(8, |i: int| 0u8) {
        Err(ModelError::InvalidReservedHeader)
    } else {
        Ok(32)
    }
}

pub open spec fn at_pos<T>(r: Result<(T, usize), ModelError>) -> Result<(T, int), ModelError> {
    match r {
        Ok((v, q)) => Ok((v, q as int)),
        Err(e) => Err(e),
    }
}

pub open spec fn bytes_at_pos(r: Result<(Vec<u8>, usize), ModelError>) -> Result<(Seq<u8>, int), ModelError> {
    match r {
        Ok((v, q)) => Ok((v@, q as int)),
        Err(e) => Err(e),
    }
}

pub open spec fn string_at_pos(r: Result<(String, usize), ModelError>) -> Result<(Seq<char>, int), ModelError> {
    match r {
        Ok((v, q)) => Ok((v@, q as int)),
        Err(e) => Err(e),
    }
}

pub open spec fn referents_at_pos(r: Result<(Vec<i32>, usize), ModelError>) -> Result<(Seq<i32>, int), ModelError> {
    match r {
        Ok((v, q)) => Ok((v@, q as int)),
        Err(e) => Err(e),
    }
}

/// Reads `len` bytes at `pos`.
pub fn read_bytes(data: &[u8], pos: usize, len: usize) -> (res: Result<(Vec<u8>, usize), ModelError>)
    ensures
        bytes_at_pos(res) == spec_read_bytes(data@, pos as int, len as int),
{
    if pos > data.len() || data.len() - pos < len {
        return Err(ModelError::UnexpectedEof);
    }
    let end = pos + len;
    let bytes = slice_to_vec(&data[pos..end]);
    Ok((bytes, end))
}

/// Reads one byte at `pos`.
pub fn read_u8(data: &[u8], pos: usize) -> (res: Result<(u8, usize), ModelError>)
    ensures
        at_pos(res) == spec_read_u8(data@, pos as int),
{
    if pos >= data.len() {
        return Err(ModelError::UnexpectedEof);
    }
    Ok((data[pos], pos + 1))
}

/// Reads a little-endian `u16` at `pos`.
pub fn read_le_u16(data: &[u8], pos: usize) -> (res: Result<(u16, usize), ModelError>)
    ensures
        at_pos(res) == spec_read_u16(data@, pos as int),
{
    if pos > data.len() || data.len() - pos < 2 {
        return Err(ModelError::UnexpectedEof);
    }
    let value: u16 = data[pos] as u16 + 256 * (data[pos + 1] as u16);
    Ok((value, pos + 2))
}

/// Reads a little-endian `u32` at `pos`.
pub fn read_le_u32(data: &[u8], pos: usize) -> (res: Result<(u32, usize), ModelError>)
    ensures
        at_pos(res) == spec_read_u32(data@, pos as int),
{
    if pos > data.len() || data.len() - pos < 4 {
        return Err(ModelError::UnexpectedEof);
    }
    let value: u32 = data[pos] as u32 + 256 * (data[pos + 1] as u32) + 65536 * (data[pos + 2] as u32)
        + 16777216 * (data[pos + 3] as u32);
    Ok((value, pos + 4))
}

/// Reads a length-prefixed UTF-8 string at `pos`.
pub fn read_string(data: &[u8], pos: usize) -> (res: Result<(String, usize), ModelError>)
    ensures
        string_at_pos(res) == spec_read_string(data@, pos as int),
{
    let (len, after_len) = read_le_u32(data, pos)?;
    let (bytes, end) = read_bytes(data, after_len, len as usize)?;
    match string_from_utf8(bytes) {
        Some(s) => Ok((s, end)),
        None => Err(ModelError::InvalidUtf8),
    }
}

/// Undoes the zigzag encoding of a referent code.
pub fn untransform_i32(value: i32) -> (res: i32)
    ensures
        res == zigzag_decode(value as u32),
{
    let u: u32 = value as u32;
    let half: i32 = (u / 2) as i32;
    if u % 2 == 0 {
        half
    } else {
        -half - 1
    }
}

/// Reads an interleaved, delta-encoded array of `len` referents at `pos`.
pub fn read_referent_array(data: &[u8], pos: usize, len: usize) -> (res: Result<(Vec<i32>, usize), ModelError>)
    ensures
        referents_at_pos(res) == spec_read_referents(data@, pos as int, len as nat),
        res matches Ok((v, _)) ==> v@.len() == len,
{
    let byte_len = match len.checked_mul(4) {
        Some(b) => b,
        None => return Err(ModelError::ReferentArrayTooLarge),
    };
    let (buffer, end) = read_bytes(data, pos, byte_len)?;
    let mut referents: Vec<i32> = Vec::new();
    let mut last: i32 = 0;
    let mut index: usize = 0;
    while index < len
        invariant
            byte_len == 4 * len,
            buffer@.len() == byte_len,
            index <= len,
            referents@ == spec_referents(buffer@, len as int, index as nat),
            referents@.len() == index,
            last == (if index == 0 { 0i32 } else { referents@.last() }),
        decreases len - index,
    {
        let b0 = buffer[index];
        let b1 = buffer[index + len];
        let b2 = buffer[index + 2 * len];
        let b3 = buffer[index + 3 * len];
        let raw: u32 = 16777216 * (b0 as u32) + 65536 * (b1 as u32) + 256 * (b2 as u32) + b3 as u32;
        assert(raw == spec_raw_referent(buffer@, len as int, index as int));
        assert((raw as i32) as u32 == raw) by (bit_vector);
        let value = untransform_i32(raw as i32).wrapping_add(last);
        referents.push(value);
        last = value;
        index = index + 1;
    }
    Ok((referents, end))
}

/// Checks the file header and returns the position after it.
pub fn read_binary_header(data: &[u8]) -> (res: Result<usize, ModelError>)
    ensures
        match res {
            Ok(p) => spec_read_binary_header(data@) == Ok::<int, ModelError>(p as int),
            Err(e) => spec_read_binary_header(data@) == Err::<int, ModelError>(e),
        },
{
    let (magic_header, p1) = read_bytes(data, 0, 8)?;
    assert(RBXM_MAGIC_HEADER@ =~= spec_magic_header());
    if !bytes_eq(magic_header.as_slice(), RBXM_MAGIC_HEADER.as_slice()) {
        return Err(ModelError::InvalidHeader);
    }
    let (signature, p2) = read_bytes(data, p1, 6)?;
    assert(RBXM_SIGNATURE@ =~= spec_signature());
    if !bytes_eq(signature.as_slice(), RBXM_SIGNATURE.as_slice()) {
        return Err(ModelError::InvalidSignature);
    }
    let (version, p3) = read_le_u16(data, p2)?;
    if version != RBXM_FILE_VERSION {
        return Err(ModelError::UnknownVersion(version));
    }
    let (_num_types, p4) = read_le_u32(data, p3)?;
    let (_num_instances, p5) = read_le_u32(data, p4)?;
    let (reserved, p6) = read_bytes(data, p5, 8)?;
    let zeros: [u8; 8] = [0; 8];
    assert(zeros@ =~= Seq::new(8, |i: int| 0u8));
    if !bytes_eq(reserved.as_slice(), zeros.as_slice()) {
        return Err(ModelError::InvalidReservedHeader);
    }
    Ok(p6)
}

/// One chunk of a binary model: its four-byte name and its (decompressed)
/// payload.
pub struct BinaryChunk {
    pub name: Vec<u8>,
    pub data: Vec<u8>,
}

/// Decompressing a chunk payload: zstd when it starts with the zstd frame
/// magic, LZ4 otherwise.
pub open spec fn spec_decompress_chunk(raw: Seq<u8>, len: u32) -> Result<Seq<u8>, ModelError> {
    if raw.len() >= 4 && raw.subrange(0, 4) == spec_zstd_magic() {
        match zstd_decompressed(raw, len as usize) {
            Some(out) => Ok(out),
            None => Err(ModelError::ZstdDecompression),
        }
    } else {
        match lz4_decompressed(raw, len as usize) {
            Some(out) => Ok(out),
            None => Err(ModelError::Lz4Decompression),
        }
    }
}

/// A decompressed payload is accepted only with the announced length.
pub open spec fn spec_checked_payload(out: Seq<u8>, len: u32) -> Result<Seq<u8>, ModelError> {
    if out.len() != len {
        Err(ModelError::InvalidChunkLength)
    } else {
        Ok(out)
    }
}

/// Reading a chunk at `p`: name, compressed length, length, a zero reserved
/// field, then the payload, stored as is when the compressed length is 0 and
/// compressed otherwise. On success, the name, the payload and the position
/// after the chunk.
pub open spec fn spec_read_binary_chunk(d: Seq<u8>, p: int) -> Result<((Seq<u8>, Seq<u8>), int), ModelError> {
    if !(0 <= p && p + 16 <= d.len()) {
        Err(ModelError::UnexpectedEof)
    } else {
        let name = d.subrange(p, p + 4);
        let compressed_len = spec_u32_le(d, p + 4);
        let len = spec_u32_le(d, p + 8);
        if spec_u32_le(d, p + 12) != 0 {
            Err(ModelError::InvalidChunkReserved)
        } else if compressed_len == 0 {
            match spec_read_bytes(d, p + 16, len as int) {
                Err(e) => Err(e),
                Ok((body, q)) => Ok(((name, body), q)),
            }
        } else {
            match spec_read_bytes(d, p + 16, compressed_len as int) {
                Err(e) => Err(e),
                Ok((raw, q)) => match spec_decompress_chunk(raw, len) {
                    Err(e) => Err(e),
                    Ok(out) => match spec_checked_payload(out, len) {
                        Err(e) => Err(e),
                        Ok(body) => Ok(((name, body), q)),
                    },
                },
            }
        }
    }
}

pub open spec fn chunk_at_pos(r: Result<(BinaryChunk, usize), ModelError>) -> Result<((Seq<u8>, Seq<u8>), int), ModelError> {
    match r {
        Ok((c, q)) => Ok(((c.name@, c.data@), q as int)),
        Err(e) => Err(e),
    }
}

/// Decompresses a chunk payload of announced length `len`.
fn decompress_chunk(raw: &[u8], len: u32) -> (res: Result<Vec<u8>, ModelError>)
    ensures
        match res {
            Ok(v) => spec_decompress_chunk(raw@, len) == Ok::<Seq<u8>, ModelError>(v@),
            Err(e) => spec_decompress_chunk(raw@, len) == Err::<Seq<u8>, ModelError>(e),
        },
{
    let is_zstd = raw.len() >= 4 && bytes_eq(&raw[0..4], ZSTD_MAGIC_NUMBER.as_slice());
    assert(ZSTD_MAGIC_NUMBER@ =~= spec_zstd_magic());
    if is_zstd {
        match zstd_decompress(raw, len as usize) {
            Ok(v) => Ok(v),
            Err(_) => Err(ModelError::ZstdDecompression),
        }
    } else {
        match lz4_decompress(raw, len as usize) {
            Ok(v) => Ok(v),
            Err(_) => Err(ModelError::Lz4Decompression),
        }
    }
}

impl BinaryChunk {
    /// Builds a chunk from a decompressed payload, which must have the length
    /// that the chunk header announced.
    pub fn from_decompressed(name: Vec<u8>, decompressed: Vec<u8>, len: u32) -> (res: Result<BinaryChunk, ModelError>)
        ensures
            match res {
                Ok(c) => c.name@ == name@ && spec_checked_payload(decompressed@, len) == Ok::<Seq<u8>, ModelError>(c.data@),
                Err(e) => spec_checked_payload(decompressed@, len) == Err::<Seq<u8>, ModelError>(e),
            },
    {
        if decompressed.len() != len as usize {
            return Err(ModelError::InvalidChunkLength);
        }
        Ok(BinaryChunk { name, data: decompressed })
    }
}

/// Reads the chunk at `pos` and returns it with the position after it.
pub fn read_binary_chunk(data: &[u8], pos: usize) -> (res: Result<(BinaryChunk, usize), ModelError>)
    ensures
        chunk_at_pos(res) == spec_read_binary_chunk(data@, pos as int),
{
    let (name, p1) = read_bytes(data, pos, 4)?;
    let (compressed_len, p2) = read_le_u32(data, p1)?;
    let (len, p3) = read_le_u32(data, p2)?;
    let (reserved, p4) = read_le_u32(data, p3)?;
    if reserved != 0 {
        return Err(ModelError::InvalidChunkReserved);
    }
    if compressed_len == 0 {
        let (body, end) = read_bytes(data, p4, len as usize)?;
        Ok((BinaryChunk { name, data: body }, end))
    } else {
        let (compressed_data, end) = read_bytes(data, p4, compressed_len as usize)?;
        let decompressed = decompress_chunk(compressed_data.as_slice(), len)?;
        let chunk = BinaryChunk::from_decompressed(name, decompressed, len)?;
        Ok((chunk, end))
    }
}

/// The class names that the `INST` chunks read so far give each referent.
pub open spec fn class_map(m: Map<i32, String>) -> Map<i32, Seq<char>> {
    m.map_values(|s: String| s@)
}

/// Declaring the instances `refs` to be of class `name`: each of them now
/// maps to `name`, the other referents keep their class.
pub open spec fn declare_instances(m: Map<i32, Seq<char>>, refs: Seq<i32>, name: Seq<char>) -> Map<i32, Seq<char>> {
    m.union_prefer_right(Map::new(|r: i32| refs.contains(r), |r: i32| name))
}

/// Reading an `INST` chunk: a type id, the class name, a format byte, the
/// instance count and the referents of those instances.
pub open spec fn spec_read_inst_chunk(c: Seq<u8>) -> Result<(Seq<char>, Seq<i32>), ModelError> {
    match spec_read_u32(c, 0) {
        Err(e) => Err(e),
        Ok((_, p1)) => match spec_read_string(c, p1) {
            Err(e) => Err(e),
            Ok((name, p2)) => match spec_read_u8(c, p2) {
                Err(e) => Err(e),
                Ok((_, p3)) => match spec_read_u32(c, p3) {
                    Err(e) => Err(e),
                    Ok((n, p4)) => match spec_read_referents(c, p4, n as nat) {
                        Err(e) => Err(e),
                        Ok((refs, _)) => Ok((name, refs)),
                    },
                },
            },
        },
    }
}

/// Reading a `PRNT` chunk: version 0, a count, then the child referents and
/// the parent referents.
pub open spec fn spec_read_prnt_chunk(c: Seq<u8>) -> Result<(Seq<i32>, Seq<i32>), ModelError> {
    match spec_read_u8(c, 0) {
        Err(e) => Err(e),
        Ok((version, p1)) => if version != 0 {
            Err(ModelError::UnknownParentVersion(version))
        } else {
            match spec_read_u32(c, p1) {
                Err(e) => Err(e),
                Ok((n, p2)) => match spec_read_referents(c, p2, n as nat) {
                    Err(e) => Err(e),
                    Ok((subjects, p3)) => match spec_read_referents(c, p3, n as nat) {
                        Err(e) => Err(e),
                        Ok((parents, _)) => Ok((subjects, parents)),
                    },
                },
            }
        },
    }
}

/// The first index at or after `k` whose parent is `-1`, the null referent.
pub open spec fn first_root_index(parents: Seq<i32>, k: int) -> Option<int>
    decreases parents.len() - k,
{
    if k < 0 || k >= parents.len() {
        None
    } else if parents[k] == -1 {
        Some(k)
    } else {
        first_root_index(parents, k + 1)
    }
}

/// The class of the first root instance that a `PRNT` chunk lists, if it
/// lists one.
pub open spec fn spec_read_first_root_class(c: Seq<u8>, classes: Map<i32, Seq<char>>) -> Result<Option<Seq<char>>, ModelError> {
    match spec_read_prnt_chunk(c) {
        Err(e) => Err(e),
        Ok((subjects, parents)) => match first_root_index(parents, 0) {
            None => Ok(None),
            Some(k) => if classes.contains_key(subjects[k]) {
                Ok(Some(classes[subjects[k]]))
            } else {
                Err(ModelError::UndeclaredRoot(subjects[k]))
            },
        },
    }
}

pub open spec fn inst_chunk_name() -> Seq<u8> {
    seq![73u8, 78u8, 83u8, 84u8]
}

pub open spec fn prnt_chunk_name() -> Seq<u8> {
    seq![80u8, 82u8, 78u8, 84u8]
}

pub open spec fn end_chunk_name() -> Seq<u8> {
    seq![69u8, 78u8, 68u8, 0u8]
}

pub proof fn lemma_chunk_advances(d: Seq<u8>, p: int)
    ensures
        spec_read_binary_chunk(d, p) matches Ok((_, q)) ==> p < q <= d.len(),
{
}

/// Scanning the chunks from `p` on, with the classes declared so far: `INST`
/// chunks declare classes, the first `PRNT` chunk with a root decides, `END`
/// means there is no root, and other chunks are skipped.
pub open spec fn spec_scan_chunks(d: Seq<u8>, p: int, classes: Map<i32, Seq<char>>) -> Result<Seq<char>, ModelError>
    decreases d.len() - p,
{
    match spec_read_binary_chunk(d, p) {
        Err(e) => Err(e),
        Ok(((name, body), q)) => {
            proof {
                lemma_chunk_advances(d, p);
            }
            if name == inst_chunk_name() {
                match spec_read_inst_chunk(body) {
                    Err(e) => Err(e),
                    Ok((class, refs)) => spec_scan_chunks(d, q, declare_instances(classes, refs, class)),
                }
            } else if name == prnt_chunk_name() {
                match spec_read_first_root_class(body, classes) {
                    Err(e) => Err(e),
                    Ok(Some(class)) => Ok(class),
                    Ok(None) => spec_scan_chunks(d, q, classes),
                }
            } else if name == end_chunk_name() {
                Err(ModelError::NoChildren)
            } else {
                spec_scan_chunks(d, q, classes)
            }
        },
    }
}

/// The class of the first root instance of a binary model file.
pub open spec fn spec_first_binary_root_class(d: Seq<u8>) -> Result<Seq<char>, ModelError> {
    match spec_read_binary_header(d) {
        Err(e) => Err(e),
        Ok(p) => spec_scan_chunks(d, p, Map::empty()),
    }
}

/// Reads an `INST` chunk and records the class of each instance it declares.
pub fn read_inst_chunk(data: &[u8], classes_by_ref: &mut HashMap<i32, String>) -> (res: Result<(), ModelError>)
    ensures
        match spec_read_inst_chunk(data@) {
            Ok((name, refs)) => res is Ok && class_map(final(classes_by_ref)@) == declare_instances(class_map(old(classes_by_ref)@), refs, name),
            Err(e) => res == Err::<(), ModelError>(e) && final(classes_by_ref)@ == old(classes_by_ref)@,
        },
{
    broadcast use vstd::std_specs::hash::group_hash_axioms;
    let (_type_id, p1) = read_le_u32(data, 0)?;
    let (class_name, p2) = read_string(data, p1)?;
    let (_object_format, p3) = read_u8(data, p2)?;
    let (number_instances, p4) = read_le_u32(data, p3)?;
    let (referents, _) = read_referent_array(data, p4, number_instances as usize)?;
    let ghost start = class_map(classes_by_ref@);
    let mut i: usize = 0;
    while i < referents.len()
        invariant
            i <= referents@.len(),
            class_map(classes_by_ref@) == declare_instances(start, referents@.take(i as int), class_name@),
        decreases referents@.len() - i,
    {
        let ghost before = classes_by_ref@;
        classes_by_ref.insert(referents[i], class_name.clone());
        proof {
            let prev = referents@.take(i as int);
            let next = referents@.take(i + 1);
            assert(next =~= prev.push(referents@[i as int]));
            assert forall|r: i32| #[trigger] next.contains(r) <==> prev.contains(r) || r == referents@[i as int] by {
                if prev.contains(r) {
                    let j = choose|j: int| 0 <= j < prev.len() && prev[j] == r;
                    assert(next[j] == r);
                }
                if r == referents@[i as int] {
                    assert(next[i as int] == r);
                }
                if next.contains(r) {
                    let j = choose|j: int| 0 <= j < next.len() && next[j] == r;
                    if j < i {
                        assert(prev[j] == r);
                    }
                }
            }
            let after = classes_by_ref@;
            assert(after == before.insert(referents@[i as int], after[referents@[i as int]]));
            assert(after[referents@[i as int]]@ == class_name@);
            assert(class_map(after) =~= class_map(before).insert(referents@[i as int], class_name@));
            assert(class_map(classes_by_ref@) =~= declare_instances(start, next, class_name@));
        }
        i = i + 1;
    }
    assert(referents@.take(referents@.len() as int) =~= referents@);
    Ok(())
}

/// Reads a `PRNT` chunk and returns the class of its first root instance, if
/// it lists one.
pub fn read_first_root_class(data: &[u8], classes_by_ref: &HashMap<i32, String>) -> (res: Result<Option<String>, ModelError>)
    ensures
        match res {
            Ok(Some(s)) => spec_read_first_root_class(data@, class_map(classes_by_ref@)) == Ok::<Option<Seq<char>>, ModelError>(Some(s@)),
            Ok(None) => spec_read_first_root_class(data@, class_map(classes_by_ref@)) == Ok::<Option<Seq<char>>, ModelError>(None),
            Err(e) => spec_read_first_root_class(data@, class_map(classes_by_ref@)) == Err::<Option<Seq<char>>, ModelError>(e),
        },
{
    broadcast use vstd::std_specs::hash::group_hash_axioms;
    let (version, p1) = read_u8(data, 0)?;
    if version != 0 {
        return Err(ModelError::UnknownParentVersion(version));
    }
    let (number_objects, p2) = read_le_u32(data, p1)?;
    let (subjects, p3) = read_referent_array(data, p2, number_objects as usize)?;
    let (parents, _) = read_referent_array(data, p3, number_objects as usize)?;
    assert(spec_read_prnt_chunk(data@) == Ok::<(Seq<i32>, Seq<i32>), ModelError>((subjects@, parents@)));
    let mut k: usize = 0;
    while k < subjects.len() && k < parents.len()
        invariant
            spec_read_prnt_chunk(data@) == Ok::<(Seq<i32>, Seq<i32>), ModelError>((subjects@, parents@)),
            subjects@.len() == parents@.len(),
            k <= parents@.len(),
            first_root_index(parents@, 0) == first_root_index(parents@, k as int),
        decreases parents@.len() - k,
    {
        let subject = subjects[k];
        if parents[k] == -1 {
            return match classes_by_ref.get(&subject) {
                Some(class) => {
                    assert(class_map(classes_by_ref@)[subject] == class@);
                    Ok(Some(class.clone()))
                },
                None => Err(ModelError::UndeclaredRoot(subject)),
            };
        }
        k = k + 1;
    }
    Ok(None)
}

/// The class of the first root instance of a binary model file.
pub fn first_binary_root_class(data: &[u8]) -> (res: Result<String, ModelError>)
    ensures
        match res {
            Ok(s) => spec_first_binary_root_class(data@) == Ok::<Seq<char>, ModelError>(s@),
            Err(e) => spec_first_binary_root_class(data@) == Err::<Seq<char>, ModelError>(e),
        },
{
    let mut pos = read_binary_header(data)?;
    let mut classes_by_ref: HashMap<i32, String> = HashMap::new();
    let inst: [u8; 4] = [73, 78, 83, 84];
    let prnt: [u8; 4] = [80, 82, 78, 84];
    let end: [u8; 4] = [69, 78, 68, 0];
    assert(inst@ =~= inst_chunk_name());
    assert(prnt@ =~= prnt_chunk_name());
    assert(end@ =~= end_chunk_name());
    assert(class_map(classes_by_ref@) =~= Map::empty());
    loop
        invariant
            inst@ == inst_chunk_name(),
            prnt@ == prnt_chunk_name(),
            end@ == end_chunk_name(),
            pos <= data@.len(),
            spec_first_binary_root_class(data@) == spec_scan_chunks(data@, pos as int, class_map(classes_by_ref@)),
        decreases data@.len() - pos,
    {
        proof {
            lemma_chunk_advances(data@, pos as int);
        }
        let (chunk, next) = read_binary_chunk(data, pos)?;
        if bytes_eq(chunk.name.as_slice(), inst.as_slice()) {
            read_inst_chunk(chunk.data.as_slice(), &mut classes_by_ref)?;
        } else if bytes_eq(chunk.name.as_slice(), prnt.as_slice()) {
            if let Some(class) = read_first_root_class(chunk.data.as_slice(), &classes_by_ref)? {
                return Ok(class);
            }
        } else if bytes_eq(chunk.name.as_slice(), end.as_slice()) {
            return Err(ModelError::NoChildren);
        }
        pos = next;
    }
}

proof fn lemma_read_bytes_extend(d: Seq<u8>, e: Seq<u8>, p: int, n: int)
    requires
        spec_read_bytes(d, p, n) is Ok,
    ensures
        spec_read_bytes(d + e, p, n) == spec_read_bytes(d, p, n),
{
    assert((d + e).subrange(p, p + n) =~= d.subrange(p, p + n));
}

proof fn lemma_header_extend(d: Seq<u8>, e: Seq<u8>)
    requires
        spec_read_binary_header(d) != Err::<int, ModelError>(ModelError::UnexpectedEof),
    ensures
        spec_read_binary_header(d + e) == spec_read_binary_header(d),
{
    let de = d + e;
    assert(de.subrange(0, 8) =~= d.subrange(0, 8));
    if d.len() >= 14 {
        assert(de.subrange(8, 14) =~= d.subrange(8, 14));
    }
    if d.len() >= 32 {
        assert(de.subrange(24, 32) =~= d.subrange(24, 32));
    }
}

proof fn lemma_chunk_extend(d: Seq<u8>, e: Seq<u8>, p: int)
    requires
        spec_read_binary_chunk(d, p) != Err::<((Seq<u8>, Seq<u8>), int), ModelError>(ModelError::UnexpectedEof),
    ensures
        spec_read_binary_chunk(d + e, p) == spec_read_binary_chunk(d, p),
{
    let de = d + e;
    if 0 <= p && p + 16 <= d.len() {
        assert(de.subrange(p, p + 4) =~= d.subrange(p, p + 4));
        let compressed_len = spec_u32_le(d, p + 4);
        let len = spec_u32_le(d, p + 8);
        if spec_u32_le(d, p + 12) == 0 {
            if compressed_len == 0 {
                lemma_read_bytes_extend(d, e, p + 16, len as int);
            } else {
                lemma_read_bytes_extend(d, e, p + 16, compressed_len as int);
            }
        }
    }
}

proof fn lemma_scan_extend(d: Seq<u8>, e: Seq<u8>, p: int, classes: Map<i32, Seq<char>>)
    requires
        spec_scan_chunks(d, p, classes) != Err::<Seq<char>, ModelError>(ModelError::UnexpectedEof),
    ensures
        spec_scan_chunks(d + e, p, classes) == spec_scan_chunks(d, p, classes),
    decreases d.len() - p,
{
    lemma_chunk_extend(d, e, p);
    lemma_chunk_advances(d, p);
    match spec_read_binary_chunk(d, p) {
        Err(_) => {},
        Ok(((name, body), q)) => {
            if name == inst_chunk_name() {
                match spec_read_inst_chunk(body) {
                    Err(_) => {},
                    Ok((class, refs)) => lemma_scan_extend(d, e, q, declare_instances(classes, refs, class)),
                }
            } else if name == prnt_chunk_name() {
                match spec_read_first_root_class(body, classes) {
                    Ok(None) => lemma_scan_extend(d, e, q, classes),
                    _ => {},
                }
            } else if name == end_chunk_name() {
            } else {
                lemma_scan_extend(d, e, q, classes);
            }
        },
    }
}

/// Inspecting a binary model reads no further than it must: unless the data
/// ended before a field that had to be read, appending any bytes to the file
/// leaves the outcome unchanged.
pub proof fn binary_root_class_ignores_trailing_bytes(d: Seq<u8>, extra: Seq<u8>)
    requires
        spec_first_binary_root_class(d) != Err::<Seq<char>, ModelError>(ModelError::UnexpectedEof),
    ensures
        spec_first_binary_root_class(d + extra) == spec_first_binary_root_class(d),
{
    lemma_header_extend(d, extra);
    match spec_read_binary_header(d) {
        Err(_) => {},
        Ok(p) => lemma_scan_extend(d, extra, p, Map::empty()),
    }
}

pub open spec fn shift_chunk(r: Result<((Seq<u8>, Seq<u8>), int), ModelError>, p: int) -> Result<((Seq<u8>, Seq<u8>), int), ModelError> {
    match r {
        Ok((c, q)) => Ok((c, q + p)),
        Err(e) => Err(e),
    }
}

proof fn lemma_chunk_skip(x: Seq<u8>, p: int)
    requires
        0 <= p <= x.len(),
    ensures
        spec_read_binary_chunk(x, p) == shift_chunk(spec_read_binary_chunk(x.skip(p), 0), p),
{
    let y = x.skip(p);
    if p + 16 <= x.len() {
        assert(y.subrange(0, 4) =~= x.subrange(p, p + 4));
        assert(spec_u32_le(y, 4) == spec_u32_le(x, p + 4));
        assert(spec_u32_le(y, 8) == spec_u32_le(x, p + 8));
        assert(spec_u32_le(y, 12) == spec_u32_le(x, p + 12));
        let compressed_len = spec_u32_le(x, p + 4) as int;
        let len = spec_u32_le(x, p + 8) as int;
        if p + 16 + len <= x.len() {
            assert(y.subrange(16, 16 + len) =~= x.subrange(p + 16, p + 16 + len));
        }
        if p + 16 + compressed_len <= x.len() {
            assert(y.subrange(16, 16 + compressed_len) =~= x.subrange(p + 16, p + 16 + compressed_len));
        }
    }
}

/// Scanning from `p` depends only on the bytes from `p` on.
proof fn lemma_scan_skip(x: Seq<u8>, p: int, classes: Map<i32, Seq<char>>)
    requires
        0 <= p <= x.len(),
    ensures
        spec_scan_chunks(x, p, classes) == spec_scan_chunks(x.skip(p), 0, classes),
    decreases x.len() - p,
{
    let y = x.skip(p);
    lemma_chunk_skip(x, p);
    lemma_chunk_advances(x, p);
    match spec_read_binary_chunk(x, p) {
        Err(_) => {},
        Ok(((name, body), q)) => {
            assert(y.skip(q - p) =~= x.skip(q));
            if name == inst_chunk_name() {
                match spec_read_inst_chunk(body) {
                    Err(_) => {},
                    Ok((class, refs)) => {
                        let next = declare_instances(classes, refs, class);
                        lemma_scan_skip(x, q, next);
                        lemma_scan_skip(y, q - p, next);
                    },
                }
            } else if name == prnt_chunk_name() {
                match spec_read_first_root_class(body, classes) {
                    Ok(None) => {
                        lemma_scan_skip(x, q, classes);
                        lemma_scan_skip(y, q - p, classes);
                    },
                    _ => {},
                }
            } else if name == end_chunk_name() {
            } else {
                lemma_scan_skip(x, q, classes);
                lemma_scan_skip(y, q - p, classes);
            }
        },
    }
}

/// `c` is exactly one well-formed chunk.
#[verifier::opaque]
pub open spec fn is_whole_chunk(c: Seq<u8>) -> bool {
    spec_read_binary_chunk(c, 0) matches Ok((_, q)) && q == c.len()
}

/// The four-byte name of a chunk.
pub open spec fn chunk_name_of(c: Seq<u8>) -> Seq<u8> {
    c.subrange(0, 4)
}

/// `c` is one well-formed chunk that is neither `INST`, `PRNT` nor `END`.
pub open spec fn is_other_chunk(c: Seq<u8>) -> bool {
    &&& is_whole_chunk(c)
    &&& chunk_name_of(c) != inst_chunk_name()
    &&& chunk_name_of(c) != prnt_chunk_name()
    &&& chunk_name_of(c) != end_chunk_name()
}

proof fn lemma_whole_chunk_then(c: Seq<u8>, rest: Seq<u8>)
    requires
        is_whole_chunk(c),
    ensures
        spec_read_binary_chunk(c + rest, 0) == spec_read_binary_chunk(c, 0),
        (c + rest).skip(c.len() as int) == rest,
{
    reveal(is_whole_chunk);
    lemma_chunk_extend(c, rest, 0);
    assert((c + rest).skip(c.len() as int) =~= rest);
}

/// The classes a scan carries on with after the chunk at the start of `c`,
/// or `None` where that chunk ends the scan.
#[verifier::opaque]
pub open spec fn scan_continues(c: Seq<u8>, classes: Map<i32, Seq<char>>) -> Option<Map<i32, Seq<char>>> {
    match spec_read_binary_chunk(c, 0) {
        Err(_) => None,
        Ok(((name, body), _)) => if name == inst_chunk_name() {
            match spec_read_inst_chunk(body) {
                Err(_) => None,
                Ok((class, refs)) => Some(declare_instances(classes, refs, class)),
            }
        } else if name == prnt_chunk_name() {
            match spec_read_first_root_class(body, classes) {
                Ok(None) => Some(classes),
                _ => None,
            }
        } else if name == end_chunk_name() {
            None
        } else {
            Some(classes)
        },
    }
}

/// A scan from the start of `x`.
#[verifier::opaque]
pub open spec fn scan_from_start(x: Seq<u8>, classes: Map<i32, Seq<char>>) -> Result<Seq<char>, ModelError> {
    spec_scan_chunks(x, 0, classes)
}

proof fn lemma_scan_whole_chunk(c: Seq<u8>, x: Seq<u8>, y: Seq<u8>, classes: Map<i32, Seq<char>>)
    requires
        is_whole_chunk(c),
    ensures
        scan_continues(c, classes) matches Some(next) ==> scan_from_start(c + x, classes) == scan_from_start(x, next),
        scan_continues(c, classes) is None ==> scan_from_start(c + x, classes) == scan_from_start(c + y, classes),
{
    reveal(is_whole_chunk);
    reveal(scan_continues);
    reveal(scan_from_start);
    lemma_whole_chunk_then(c, x);
    lemma_whole_chunk_then(c, y);
    if let Some(next) = scan_continues(c, classes) {
        lemma_scan_skip(c + x, c.len() as int, next);
    }
}

proof fn lemma_other_chunk_continues(c: Seq<u8>, classes: Map<i32, Seq<char>>)
    requires
        is_other_chunk(c),
    ensures
        scan_continues(c, classes) == Some(classes),
{
    reveal(is_whole_chunk);
    reveal(scan_continues);
}

proof fn lemma_scan_other_chunk(cs: Seq<Seq<u8>>, c: Seq<u8>, rest: Seq<u8>, classes: Map<i32, Seq<char>>)
    requires
        forall|i: int| 0 <= i < cs.len() ==> is_whole_chunk(#[trigger] cs[i]),
        is_other_chunk(c),
    ensures
        scan_from_start(cs.flatten() + c + rest, classes) == scan_from_start(cs.flatten() + rest, classes),
    decreases cs.len(),
{
    if cs.len() == 0 {
        assert(cs.flatten() + c + rest =~= c + rest);
        assert(cs.flatten() + rest =~= rest);
        lemma_other_chunk_continues(c, classes);
        lemma_scan_whole_chunk(c, rest, rest, classes);
    } else {
        let first = cs[0];
        let tail = cs.drop_first();
        assert forall|i: int| 0 <= i < tail.len() implies is_whole_chunk(#[trigger] tail[i]) by {
            assert(tail[i] == cs[i + 1]);
        }
        let with_c = tail.flatten() + c + rest;
        let without = tail.flatten() + rest;
        assert(cs.flatten() + c + rest =~= first + with_c);
        assert(cs.flatten() + rest =~= first + without);
        lemma_scan_whole_chunk(first, with_c, without, classes);
        lemma_scan_whole_chunk(first, without, with_c, classes);
        if let Some(next) = scan_continues(first, classes) {
            lemma_scan_other_chunk(tail, c, rest, next);
        }
    }
}

/// Chunks other than `INST`, `PRNT` and `END` (properties, metadata, shared
/// strings and the like) never change which root class a binary model has:
/// in a file made of a valid header, whole chunks `chunks`, then anything
/// else, inserting such a chunk `other` after `chunks` leaves the outcome as
/// it was. Removing one is the same equation read the other way, and
/// replacing one such chunk by another follows from the two.
pub proof fn other_chunks_do_not_change_root_class(header: Seq<u8>, chunks: Seq<Seq<u8>>, other: Seq<u8>, rest: Seq<u8>)
    requires
        spec_read_binary_header(header) == Ok::<int, ModelError>(header.len() as int),
        forall|i: int| 0 <= i < chunks.len() ==> is_whole_chunk(#[trigger] chunks[i]),
        is_other_chunk(other),
    ensures
        spec_first_binary_root_class(header + chunks.flatten() + other + rest)
            == spec_first_binary_root_class(header + chunks.flatten() + rest),
{
    let with_other = chunks.flatten() + other + rest;
    let without = chunks.flatten() + rest;
    assert(header + chunks.flatten() + other + rest =~= header + with_other);
    assert(header + chunks.flatten() + rest =~= header + without);
    lemma_header_extend(header, with_other);
    lemma_header_extend(header, without);
    let h = header.len() as int;
    lemma_scan_skip(header + with_other, h, Map::empty());
    lemma_scan_skip(header + without, h, Map::empty());
    assert((header + with_other).skip(h) =~= with_other);
    assert((header + without).skip(h) =~= without);
    lemma_scan_other_chunk(chunks, other, rest, Map::empty());
    reveal(scan_from_start);
}

} // verus!
