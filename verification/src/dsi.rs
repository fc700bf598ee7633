//! The cartridge-image header: the fixed-layout fields the disassembler
//! reads to locate the code regions, deserialized field by field from the
//! byte buffer, never by reinterpreting memory.

use vstd::prelude::*;
use vstd::slice::slice_index_get;

use crate::errors::DisasemblerError;

verus! {

/// The little-endian 16-bit value at byte offset `off` of `b`.
pub open spec fn le16_at(b: Seq<u8>, off: int) -> u16 {
    (b[off] + b[off + 1] * 0x100) as u16
}

/// The little-endian 32-bit value at byte offset `off` of `b`.
pub open spec fn le32_at(b: Seq<u8>, off: int) -> u32 {
    (b[off] + b[off + 1] * 0x100 + b[off + 2] * 0x10000 + b[off + 3] * 0x1000000) as u32
}

/// Reads the little-endian 16-bit value at byte offset `off`.
pub(crate) fn read_le16(bytes: &[u8], off: usize) -> (r: u16)
    requires
        off + 2 <= bytes@.len(),
    ensures
        r == le16_at(bytes@, off as int),
{
    let n: usize = bytes.len();
    let b0: u16 = *slice_index_get(bytes, off) as u16;
    let b1: u16 = *slice_index_get(bytes, off + 1) as u16;
    b0 + b1 * 0x100
}

/// Reads the little-endian 32-bit value at byte offset `off`.
pub(crate) fn read_le32(bytes: &[u8], off: usize) -> (r: u32)
    requires
        off + 4 <= bytes@.len(),
    ensures
        r == le32_at(bytes@, off as int),
{
    let n: usize = bytes.len();
    let b0: u32 = *slice_index_get(bytes, off) as u32;
    let b1: u32 = *slice_index_get(bytes, off + 1) as u32;
    let b2: u32 = *slice_index_get(bytes, off + 2) as u32;
    let b3: u32 = *slice_index_get(bytes, off + 3) as u32;
    b0 + b1 * 0x100 + b2 * 0x10000 + b3 * 0x1000000
}

/// The number of bytes the fixed-layout header occupies at the start of a
/// cartridge image.
pub const HEADER_LEN: usize = 0x1000;

/// The header fields the disassembler's concern covers: identification
/// scalars and the offsets, entry points, load addresses and sizes of the
/// two code regions, with the file tables and checksummed areas around
/// them.  The icon, digest and secure-area blobs of the full layout stay
/// uninterpreted bytes of the image.
#[derive(Debug, Clone, Copy, PartialEq, Eq, Structural)]
pub struct HeaderNDS {
    pub tid: u32,
    pub developer: u16,
    pub unit: u8,
    pub encryption_seed: u8,
    pub device_capacity: u8,
    pub revision: u16,
    pub rom_version: u8,
    pub flags: u8,
    pub arm9_offset: u32,
    pub arm9_entry: u32,
    pub arm9_load: u32,
    pub arm9_size: u32,
    pub arm7_offset: u32,
    pub arm7_entry: u32,
    pub arm7_load: u32,
    pub arm7_size: u32,
    pub fnt_offset: u32,
    pub fnt_len: u32,
    pub fat_offset: u32,
    pub fat_len: u32,
    pub arm9_overlay_offset: u32,
    pub arm9_overlay_len: u32,
    pub arm7_overlay_offset: u32,
    pub arm7_overlay_len: u32,
    pub card_cnt: u32,
    pub card_cnt_secure: u32,
    pub icon_offset: u32,
    pub secure_area_crc: u16,
    pub secure_area_timeout: u16,
    pub arm9_autoload: u32,
    pub arm7_autoload: u32,
    pub ntr_rom_size: u32,
    pub header_size: u32,
}

/// What a header deserialized from `b` holds: every field equals the
/// little-endian value at its documented byte offset.
pub open spec fn header_of(b: Seq<u8>) -> HeaderNDS {
    HeaderNDS {
        tid: le32_at(b, 0x0c),
        developer: le16_at(b, 0x10),
        unit: b[0x12],
        encryption_seed: b[0x13],
        device_capacity: b[0x14],
        revision: le16_at(b, 0x1c),
        rom_version: b[0x1e],
        flags: b[0x1f],
        arm9_offset: le32_at(b, 0x20),
        arm9_entry: le32_at(b, 0x24),
        arm9_load: le32_at(b, 0x28),
        arm9_size: le32_at(b, 0x2c),
        arm7_offset: le32_at(b, 0x30),
        arm7_entry: le32_at(b, 0x34),
        arm7_load: le32_at(b, 0x38),
        arm7_size: le32_at(b, 0x3c),
        fnt_offset: le32_at(b, 0x40),
        fnt_len: le32_at(b, 0x44),
        fat_offset: le32_at(b, 0x48),
        fat_len: le32_at(b, 0x4c),
        arm9_overlay_offset: le32_at(b, 0x50),
        arm9_overlay_len: le32_at(b, 0x54),
        arm7_overlay_offset: le32_at(b, 0x58),
        arm7_overlay_len: le32_at(b, 0x5c),
        card_cnt: le32_at(b, 0x60),
        card_cnt_secure: le32_at(b, 0x64),
        icon_offset: le32_at(b, 0x68),
        secure_area_crc: le16_at(b, 0x6c),
        secure_area_timeout: le16_at(b, 0x6e),
        arm9_autoload: le32_at(b, 0x70),
        arm7_autoload: le32_at(b, 0x74),
        ntr_rom_size: le32_at(b, 0x80),
        header_size: le32_at(b, 0x84),
    }
}

impl HeaderNDS {
    /// Deserializes the header from the start of an image, field by
    /// field; an image shorter than the header region is rejected.
    pub fn from_bytes(bytes: &[u8]) -> (r: Result<HeaderNDS, DisasemblerError>)
        ensures
            bytes@.len() >= HEADER_LEN ==> r == Ok::<HeaderNDS, DisasemblerError>(
                header_of(bytes@),
            ),
            bytes@.len() < HEADER_LEN ==> r == Err::<HeaderNDS, DisasemblerError>(
                DisasemblerError::FileToShort,
            ),
    {
        if bytes.len() < HEADER_LEN {
            return Err(DisasemblerError::FileToShort);
        }
        Ok(
            HeaderNDS {
                tid: read_le32(bytes, 0x0c),
                developer: read_le16(bytes, 0x10),
                unit: *slice_index_get(bytes, 0x12),
                encryption_seed: *slice_index_get(bytes, 0x13),
                device_capacity: *slice_index_get(bytes, 0x14),
                revision: read_le16(bytes, 0x1c),
                rom_version: *slice_index_get(bytes, 0x1e),
                flags: *slice_index_get(bytes, 0x1f),
                arm9_offset: read_le32(bytes, 0x20),
                arm9_entry: read_le32(bytes, 0x24),
                arm9_load: read_le32(bytes, 0x28),
                arm9_size: read_le32(bytes, 0x2c),
                arm7_offset: read_le32(bytes, 0x30),
                arm7_entry: read_le32(bytes, 0x34),
                arm7_load: read_le32(bytes, 0x38),
                arm7_size: read_le32(bytes, 0x3c),
                fnt_offset: read_le32(bytes, 0x40),
                fnt_len: read_le32(bytes, 0x44),
                fat_offset: read_le32(bytes, 0x48),
                fat_len: read_le32(bytes, 0x4c),
                arm9_overlay_offset: read_le32(bytes, 0x50),
                arm9_overlay_len: read_le32(bytes, 0x54),
                arm7_overlay_offset: read_le32(bytes, 0x58),
                arm7_overlay_len: read_le32(bytes, 0x5c),
                card_cnt: read_le32(bytes, 0x60),
                card_cnt_secure: read_le32(bytes, 0x64),
                icon_offset: read_le32(bytes, 0x68),
                secure_area_crc: read_le16(bytes, 0x6c),
                secure_area_timeout: read_le16(bytes, 0x6e),
                arm9_autoload: read_le32(bytes, 0x70),
                arm7_autoload: read_le32(bytes, 0x74),
                ntr_rom_size: read_le32(bytes, 0x80),
                header_size: read_le32(bytes, 0x84),
            },
        )
    }
}

} // verus!
