//! Recognition of the `#SAV` magic and of the format marker at offset 0x08.

use vstd::prelude::*;
use crate::layout::{
    EDITOR_SIZE, FLAG_LEFTOVERS, FLAG_NO_LEFTOVERS, MAGIC0, MAGIC1, MAGIC2, MAGIC3, MARK0, MARK1,
    MARK2, MARK3, MARK4, MARK6, MARKER_OFFSET, MD5_HEADER_SIZE, SAV_HEADER_SIZE, VER_V2,
};

verus! {

/// `d` holds `#SAV` at `offset`.
pub open spec fn magic_at(d: Seq<u8>, offset: int) -> bool {
    &&& 0 <= offset
    &&& offset + 4 <= d.len()
    &&& d[offset] == MAGIC0
    &&& d[offset + 1] == MAGIC1
    &&& d[offset + 2] == MAGIC2
    &&& d[offset + 3] == MAGIC3
}

/// `d` is long enough and holds `#SAV` both at 0x20 and at 0xA0.
pub open spec fn dual_magic(d: Seq<u8>) -> bool {
    &&& d.len() >= 0xA4
    &&& magic_at(d, 0x20)
    &&& magic_at(d, 0xA0)
}

/// The 8 marker bytes for a version and a leftovers flag.
pub open spec fn marker_seq(version: u8, leftovers_flag: u8) -> Seq<u8> {
    seq![MARK0, MARK1, MARK2, MARK3, MARK4, leftovers_flag, MARK6, version]
}

/// The (version, leftovers flag) that the marker at 0x08 of `d` announces, when
/// it is a complete marker with a known flag and the supported version.
pub open spec fn marker_fields(d: Seq<u8>) -> Option<(u8, u8)> {
    let o = MARKER_OFFSET as int;
    if d.len() < o + 8 {
        None
    } else if d[o] == MARK0 && d[o + 1] == MARK1 && d[o + 2] == MARK2 && d[o + 3] == MARK3
        && d[o + 4] == MARK4 && d[o + 6] == MARK6 && (d[o + 5] == FLAG_NO_LEFTOVERS || d[o + 5]
        == FLAG_LEFTOVERS) && d[o + 7] == VER_V2 {
        Some((d[o + 7], d[o + 5]))
    } else {
        None
    }
}

/// `d` has the shape of a PC-ready file of the second layout version: a
/// recognised marker, the editor size, and `#SAV` where the sav header sits.
pub open spec fn v2_layout(d: Seq<u8>) -> bool {
    &&& marker_fields(d) is Some
    &&& d.len() == EDITOR_SIZE
    &&& magic_at(d, EDITOR_SIZE - MD5_HEADER_SIZE - SAV_HEADER_SIZE)
}

/// Whether `data` holds `#SAV` at 0x20 and at 0xA0.
pub fn has_dual_magic(data: &[u8]) -> (res: bool)
    ensures
        res == dual_magic(data@),
{
    data.len() >= 0xA4 && data[0x20] == MAGIC0 && data[0x21] == MAGIC1 && data[0x22] == MAGIC2
        && data[0x23] == MAGIC3 && data[0xA0] == MAGIC0 && data[0xA1] == MAGIC1 && data[0xA2]
        == MAGIC2 && data[0xA3] == MAGIC3
}

/// Whether `data` holds `#SAV` at `offset`; false when the four bytes do not fit.
pub fn has_magic_at(data: &[u8], offset: usize) -> (res: bool)
    ensures
        res == magic_at(data@, offset as int),
{
    if offset > data.len() || data.len() - offset < 4 {
        return false;
    }
    data[offset] == MAGIC0 && data[offset + 1] == MAGIC1 && data[offset + 2] == MAGIC2
        && data[offset + 3] == MAGIC3
}

/// The 8-byte marker `X V 2 S A <flag> D6 <version>`.
pub fn make_marker(version: u8, leftovers_flag: u8) -> (res: [u8; 8])
    ensures
        res@ == marker_seq(version, leftovers_flag),
{
    let res = [MARK0, MARK1, MARK2, MARK3, MARK4, leftovers_flag, MARK6, version];
    assert(res@ =~= marker_seq(version, leftovers_flag));
    res
}

/// Whether a recognised marker stands at 0x08.
pub fn has_any_marker_at_08(d: &[u8]) -> (res: bool)
    ensures
        res == (marker_fields(d@) is Some),
{
    try_read_marker(d).is_some()
}

/// Reads the marker at 0x08: `Some((version, leftovers_flag))` when all fixed
/// bytes match, the flag is one of the two known flags and the version is the
/// supported one; `None` otherwise.
pub fn try_read_marker(d: &[u8]) -> (res: Option<(u8, u8)>)
    ensures
        res == marker_fields(d@),
{
    if d.len() < MARKER_OFFSET + 8 {
        return None;
    }
    let o = MARKER_OFFSET;
    if d[o] != MARK0 {
        return None;
    }
    if d[o + 1] != MARK1 {
        return None;
    }
    if d[o + 2] != MARK2 {
        return None;
    }
    if d[o + 3] != MARK3 {
        return None;
    }
    if d[o + 4] != MARK4 {
        return None;
    }
    if d[o + 6] != MARK6 {
        return None;
    }
    let leftovers_flag = d[o + 5];
    let version = d[o + 7];
    let flag_ok = leftovers_flag == FLAG_NO_LEFTOVERS || leftovers_flag == FLAG_LEFTOVERS;
    let ver_ok = version == VER_V2;
    if flag_ok && ver_ok {
        Some((version, leftovers_flag))
    } else {
        None
    }
}

/// Whether `d` has the shape of a PC-ready file of the second layout version.
pub fn looks_like_v2(d: &[u8]) -> (res: bool)
    ensures
        res == v2_layout(d@),
{
    if let Some((ver, _)) = try_read_marker(d) {
        if ver != VER_V2 {
            return false;
        }
        if d.len() != EDITOR_SIZE {
            return false;
        }
        let a_start = d.len() - MD5_HEADER_SIZE - SAV_HEADER_SIZE;
        if !has_magic_at(d, a_start) {
            return false;
        }
        return true;
    }
    false
}

} // verus!
