//! Fixed sizes, offsets and signature bytes of the two save layouts.
//!
//! PS4 layout:      `[md5 header][sav header][middle][z byte]`
//! PC-ready layout: `[processed data][z byte][sav header][md5 header]`

use vstd::prelude::*;

verus! {

/// Total size of a PS4 save file (the 0x20-byte md5 prefix included).
pub const PS4_SIZE: usize = 0x12A200;

/// Total size of a PC-ready save file.
pub const EDITOR_SIZE: usize = 0x12A1F8;

/// Size of the md5 header that opens a PS4 file.
pub const MD5_HEADER_SIZE: usize = 0x20;

/// Size of the `#SAV` section that follows the md5 header in a PS4 file.
pub const SAV_HEADER_SIZE: usize = 0x80;

/// Offset of the 8-byte format marker in a PC-ready file.
pub const MARKER_OFFSET: usize = 0x08;

/// Absolute offset in a PS4 file (the md5 header included) where the hero
/// coliseum data begins.
pub const HCD_START_PS4: usize = 0x07BCA0;

/// Absolute offset in a PC-ready file where the hero coliseum data is expected.
pub const HCD_START_PC_READY: usize = 0x07BCB8;

/// `#SAV`, the magic that opens a save section, byte by byte.
pub const MAGIC0: u8 = 0x23;
pub const MAGIC1: u8 = 0x53;
pub const MAGIC2: u8 = 0x41;
pub const MAGIC3: u8 = 0x56;

/// Fixed bytes of the marker `X V 2 S A ?? D6 ??`.
pub const MARK0: u8 = 0x58;
pub const MARK1: u8 = 0x56;
pub const MARK2: u8 = 0x32;
pub const MARK3: u8 = 0x53;
pub const MARK4: u8 = 0x41;
pub const MARK6: u8 = 0xD6;

/// Leftovers flag: no extra data was stored in a sidecar file (`T`).
pub const FLAG_NO_LEFTOVERS: u8 = 0x54;

/// Leftovers flag: extra data exists in a sidecar file (`+`).
pub const FLAG_LEFTOVERS: u8 = 0x2B;

/// Marker version byte of the second layout version (`1`).
pub const VER_V2: u8 = 0x31;

/// A run of `n` zero bytes.
pub open spec fn zeros(n: nat) -> Seq<u8> {
    Seq::new(n, |i: int| 0u8)
}

} // verus!
