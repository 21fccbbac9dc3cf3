//! The choice of conversion for an input file and a requested mode.

use vstd::prelude::*;
use crate::layout::PS4_SIZE;
use crate::marker::{dual_magic, has_any_marker_at_08, has_dual_magic, marker_fields};

verus! {

/// The direction the user asked for.
#[derive(Debug, Clone, Copy, PartialEq, Eq, Structural)]
pub enum Mode {
    /// PS4 save to PC-ready save.
    Ps4ToPc,
    /// PC-ready save to PS4 save.
    PcToPs4,
    /// Decide from the content of the file.
    Auto,
}

/// What to do with an input file.
#[derive(Debug, Clone, Copy, PartialEq, Eq, Structural)]
pub enum Plan {
    /// Pack the PS4 save into the PC-ready layout.
    Pack,
    /// Unpack the PC-ready save into the PS4 layout.
    Unpack,
    /// Refuse to pack: `#SAV` is not present at both 0x20 and 0xA0.
    RefusePackNoMagic,
    /// Refuse to pack: the file does not have the PS4 size.
    RefusePackSize { got: usize },
    /// Refuse to unpack: no recognised marker at 0x08.
    RefuseUnpackNoMarker,
    /// Neither layout was recognised.
    Unknown,
}

/// The plan for `mode` and a file with content `d`: packing is chosen when
/// asked for, or in automatic mode when `#SAV` stands at 0x20 and 0xA0;
/// unpacking when asked for, or in automatic mode when a marker stands at
/// 0x08; each is refused when its own check fails.
pub open spec fn spec_plan(mode: Mode, d: Seq<u8>) -> Plan {
    if mode == Mode::Ps4ToPc || (mode == Mode::Auto && dual_magic(d)) {
        if !dual_magic(d) {
            Plan::RefusePackNoMagic
        } else if d.len() != PS4_SIZE {
            Plan::RefusePackSize { got: d.len() as usize }
        } else {
            Plan::Pack
        }
    } else if mode == Mode::PcToPs4 || (mode == Mode::Auto && marker_fields(d) is Some) {
        if marker_fields(d) is None {
            Plan::RefuseUnpackNoMarker
        } else {
            Plan::Unpack
        }
    } else {
        Plan::Unknown
    }
}

/// Decides what to do with the file `data` in `mode`.
pub fn plan_conversion(mode: Mode, data: &[u8]) -> (res: Plan)
    ensures
        res == spec_plan(mode, data@),
{
    let is_auto = match mode {
        Mode::Auto => true,
        _ => false,
    };
    let wants_pack = match mode {
        Mode::Ps4ToPc => true,
        _ => false,
    };
    let wants_unpack = match mode {
        Mode::PcToPs4 => true,
        _ => false,
    };
    if wants_pack || (is_auto && has_dual_magic(data)) {
        if !has_dual_magic(data) {
            Plan::RefusePackNoMagic
        } else if data.len() != PS4_SIZE {
            Plan::RefusePackSize { got: data.len() }
        } else {
            Plan::Pack
        }
    } else if wants_unpack || (is_auto && has_any_marker_at_08(data)) {
        if !has_any_marker_at_08(data) {
            Plan::RefuseUnpackNoMarker
        } else {
            Plan::Unpack
        }
    } else {
        Plan::Unknown
    }
}

} // verus!
