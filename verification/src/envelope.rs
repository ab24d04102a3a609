//! The binary envelope of an upload.
//!
//! An envelope is a 4-byte little-endian length, that many bytes of metadata,
//! a second 4-byte little-endian length, and that many bytes of package
//! archive. Bytes after the archive are not part of the envelope.

use byteorder::ByteOrder;
use vstd::prelude::*;
use vstd::slice::slice_to_vec;

verus! {

/// The number that four bytes stand for in little-endian order.
pub open spec fn u32_le(bytes: Seq<u8>) -> int {
    bytes[0] as int + 256 * (bytes[1] as int) + 65536 * (bytes[2] as int) + 16777216 * (
    bytes[3] as int)
}

/// The four bytes that stand for `n` in little-endian order.
pub open spec fn le_bytes(n: int) -> Seq<u8> {
    seq![
        (n % 256) as u8,
        ((n / 256) % 256) as u8,
        ((n / 65536) % 256) as u8,
        ((n / 16777216) % 256) as u8,
    ]
}

/// `byteorder::LittleEndian::read_u32` reads the first four bytes of the
/// buffer as an unsigned number, least significant byte first. It panics on a
/// buffer of fewer than four bytes, which the precondition leaves out.
#[verifier::external_body]
fn read_u32_le(bytes: &[u8]) -> (n: u32)
    requires
        bytes@.len() >= 4,
    ensures
        n == u32_le(bytes@),
{
    byteorder::LittleEndian::read_u32(bytes)
}

/// The two parts of an envelope.
#[derive(Debug)]
pub struct UploadFrame {
    /// The bytes of the metadata document
    pub metadata: Vec<u8>,
    /// The bytes of the package archive
    pub content: Vec<u8>,
}

/// Why a buffer is no envelope.
#[derive(Debug, Clone, Copy, PartialEq, Eq, Structural)]
pub enum FrameError {
    /// The buffer ends before the metadata does
    TruncatedMetadata,
    /// The buffer ends before the archive does
    TruncatedContent,
}

/// The parts of the envelope that `buffer` starts with, or the reason why it
/// starts with none.
pub open spec fn frame_of(buffer: Seq<u8>) -> Result<(Seq<u8>, Seq<u8>), FrameError> {
    if buffer.len() < 4 {
        Err(FrameError::TruncatedMetadata)
    } else {
        let m = u32_le(buffer.subrange(0, 4));
        if 4 + m > buffer.len() {
            Err(FrameError::TruncatedMetadata)
        } else if 8 + m > buffer.len() {
            Err(FrameError::TruncatedContent)
        } else {
            let c = u32_le(buffer.subrange(4 + m, 8 + m));
            if 8 + m + c > buffer.len() {
                Err(FrameError::TruncatedContent)
            } else {
                Ok((buffer.subrange(4, 4 + m), buffer.subrange(8 + m, 8 + m + c)))
            }
        }
    }
}

/// The envelope that holds `metadata` and `content`.
pub open spec fn envelope_of(metadata: Seq<u8>, content: Seq<u8>) -> Seq<u8> {
    le_bytes(metadata.len() as int) + metadata + le_bytes(content.len() as int) + content
}

/// The bytes of a length read back as that length.
pub proof fn lemma_le_bytes_round_trip(n: int)
    requires
        0 <= n <= u32::MAX,
    ensures
        le_bytes(n).len() == 4,
        u32_le(le_bytes(n)) == n,
{
    let b = le_bytes(n);
    assert(b[0] as int == n % 256);
    assert(b[1] as int == (n / 256) % 256);
    assert(b[2] as int == (n / 65536) % 256);
    assert(b[3] as int == (n / 16777216) % 256);
    assert(n / 16777216 < 256);
}

/// Decoding the envelope of a metadata document and an archive gives both
/// back unchanged, whatever follows the envelope.
pub proof fn lemma_envelope_round_trip(metadata: Seq<u8>, content: Seq<u8>, rest: Seq<u8>)
    requires
        metadata.len() <= u32::MAX,
        content.len() <= u32::MAX,
    ensures
        frame_of(envelope_of(metadata, content) + rest) == Ok::<
            (Seq<u8>, Seq<u8>),
            FrameError,
        >((metadata, content)),
{
    let m = metadata.len() as int;
    let c = content.len() as int;
    let buffer = envelope_of(metadata, content) + rest;
    lemma_le_bytes_round_trip(m);
    lemma_le_bytes_round_trip(c);
    assert(buffer.len() == 8 + m + c + rest.len());
    assert(buffer.subrange(0, 4) =~= le_bytes(m));
    assert(buffer.subrange(4 + m, 8 + m) =~= le_bytes(c));
    assert(buffer.subrange(4, 4 + m) =~= metadata);
    assert(buffer.subrange(8 + m, 8 + m + c) =~= content);
}

/// Appends the four little-endian bytes of `n`.
fn push_u32_le(out: &mut Vec<u8>, n: u32)
    ensures
        final(out)@ == old(out)@ + le_bytes(n as int),
{
    out.push((n % 256) as u8);
    out.push(((n / 256) % 256) as u8);
    out.push(((n / 65536) % 256) as u8);
    out.push(((n / 16777216) % 256) as u8);
    assert(out@ =~= old(out)@ + le_bytes(n as int));
}

/// Appends all of `bytes`.
fn push_all(out: &mut Vec<u8>, bytes: &[u8])
    ensures
        final(out)@ == old(out)@ + bytes@,
{
    out.extend_from_slice(bytes);
    assert(out@ =~= old(out)@ + bytes@);
}

impl UploadFrame {
    /// Splits the envelope at the start of `buffer` into its two parts. Fails
    /// exactly where a declared length reaches past the end of the buffer.
    pub fn decode(buffer: &[u8]) -> (frame: Result<UploadFrame, FrameError>)
        ensures
            match frame {
                Ok(f) => frame_of(buffer@) == Ok::<(Seq<u8>, Seq<u8>), FrameError>(
                    (f.metadata@, f.content@),
                ),
                Err(e) => frame_of(buffer@) == Err::<(Seq<u8>, Seq<u8>), FrameError>(e),
            },
    {
        let len = buffer.len();
        if len < 4 {
            return Err(FrameError::TruncatedMetadata);
        }
        let metadata_length = read_u32_le(&buffer[0..4]) as usize;
        if metadata_length > len - 4 {
            return Err(FrameError::TruncatedMetadata);
        }
        let metadata_end = 4 + metadata_length;
        if len - metadata_end < 4 {
            return Err(FrameError::TruncatedContent);
        }
        let content_start = metadata_end + 4;
        let content_length = read_u32_le(&buffer[metadata_end..content_start]) as usize;
        if content_length > len - content_start {
            return Err(FrameError::TruncatedContent);
        }
        let metadata = slice_to_vec(&buffer[4..metadata_end]);
        let content = slice_to_vec(&buffer[content_start..content_start + content_length]);
        Ok(UploadFrame { metadata, content })
    }

    /// Writes the envelope of `metadata` and `content`, or nothing where one
    /// of them is too long for its length to be written in four bytes.
    pub fn encode(metadata: &[u8], content: &[u8]) -> (envelope: Option<Vec<u8>>)
        ensures
            match envelope {
                Some(bytes) => metadata@.len() <= u32::MAX && content@.len() <= u32::MAX && bytes@
                    == envelope_of(metadata@, content@),
                None => metadata@.len() > u32::MAX || content@.len() > u32::MAX,
            },
    {
        if metadata.len() > 0xffff_ffff || content.len() > 0xffff_ffff {
            return None;
        }
        let mut out: Vec<u8> = Vec::new();
        push_u32_le(&mut out, metadata.len() as u32);
        push_all(&mut out, metadata);
        push_u32_le(&mut out, content.len() as u32);
        push_all(&mut out, content);
        assert(out@ =~= envelope_of(metadata@, content@));
        Some(out)
    }
}

} // verus!
