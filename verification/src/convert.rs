//! The two conversions between the PS4 layout and the PC-ready layout.
//!
//! Packing moves the md5 header and the sav header of a PS4 file behind its
//! data, writes a format marker after the first 8 bytes of the middle part,
//! and aligns the hero coliseum data to where the editor expects it; bytes
//! that no longer fit are handed back as leftovers.  Unpacking restores the
//! PS4 layout, refilling the cut-off tail from those leftovers when the
//! marker says they exist and they are supplied, and with zeros otherwise.

use vstd::prelude::*;
use crate::layout::{
    zeros, EDITOR_SIZE, FLAG_LEFTOVERS, FLAG_NO_LEFTOVERS, HCD_START_PC_READY, HCD_START_PS4,
    MARKER_OFFSET, MD5_HEADER_SIZE, PS4_SIZE, SAV_HEADER_SIZE, VER_V2,
};
use crate::marker::{
    has_magic_at, looks_like_v2, magic_at, make_marker, marker_fields, marker_seq, try_read_marker,
    v2_layout,
};
use crate::utils::{all_zero, all_zero_seq, append_zeros, push_bytes};

verus! {

/// Why a conversion was refused.
#[derive(Debug, PartialEq, Eq, Structural)]
pub enum ConvertError {
    /// The middle part of a PS4 file has 8 bytes or fewer.
    Ps4TooSmall,
    /// A PS4 file ends exactly where the hero coliseum data would start.
    HcdSectionEmpty,
    /// The packed output does not hold `#SAV` at the start of its sav header.
    PackedSanityFailed,
    /// The packed output does not have the editor size.
    PackedSizeMismatch,
    /// No recognised marker stands at 0x08.
    MarkerNotRecognized,
    /// The marker announces the second layout but the layout checks fail.
    MarkerLayoutMismatch,
    /// The marker announces a layout version other than the second one.
    UnsupportedVersion,
    /// A PC-ready file to unpack does not have the editor size.
    EditorSizeMismatch { got: usize },
    /// A PC-ready file to unpack does not hold `#SAV` where its sav header sits.
    UnpackSavMissing,
    /// The unpacked PS4 file would not hold `#SAV` at 0x20.
    UnpackNoSavAt20,
    /// The unpacked PS4 file would not hold `#SAV` at 0xA0.
    UnpackNoSavAtA0,
}

/// A PC-ready image and the bytes that were cut off to make it fit, when
/// they are not all zero.
pub struct PackedSave {
    pub data: Vec<u8>,
    pub leftovers: Option<Vec<u8>>,
}

/// Offset, within the middle part of a PS4 file, of the hero coliseum data,
/// which begins at `HCD_START_PS4` in the file.
pub open spec fn hcd_in_middle() -> int {
    HCD_START_PS4 - MD5_HEADER_SIZE - SAV_HEADER_SIZE
}

/// Length of the processed data that precedes the z byte in a PC-ready file.
pub open spec fn packed_main_len() -> int {
    EDITOR_SIZE - 1 - SAV_HEADER_SIZE - MD5_HEADER_SIZE
}

/// Number of zero bytes placed between the middle segment and the hero
/// coliseum data when packing.
pub open spec fn pack_fill_len() -> int {
    HCD_START_PC_READY - (8 + 8 + (hcd_in_middle() - 8))
}

/// Lengths that `ps4_to_pcready` accepts without indexing out of bounds.
pub open spec fn pack_input_ok(len: int) -> bool {
    &&& len >= MD5_HEADER_SIZE + SAV_HEADER_SIZE + 1
    &&& (len <= MD5_HEADER_SIZE + SAV_HEADER_SIZE + 1 + 8 || len >= MD5_HEADER_SIZE
        + SAV_HEADER_SIZE + 1 + hcd_in_middle())
}

/// The middle part of a PS4 file: what lies between the sav header and the z byte.
pub open spec fn ps4_middle(d: Seq<u8>) -> Seq<u8> {
    d.subrange(MD5_HEADER_SIZE + SAV_HEADER_SIZE, d.len() - 1)
}

/// `[first 8 bytes][marker][middle segment][fill zeros][hero coliseum data]`.
pub open spec fn pack_body(d: Seq<u8>) -> Seq<u8> {
    let m = ps4_middle(d);
    m.subrange(0, 8) + marker_seq(VER_V2, FLAG_NO_LEFTOVERS) + m.subrange(8, hcd_in_middle())
        + zeros(pack_fill_len() as nat) + m.subrange(hcd_in_middle(), m.len() as int)
}

/// The body padded with zeros, or cut, to the length the editor expects.
pub open spec fn pack_main(d: Seq<u8>) -> Seq<u8> {
    let b = pack_body(d);
    if b.len() <= packed_main_len() {
        b + zeros((packed_main_len() - b.len()) as nat)
    } else {
        b.take(packed_main_len())
    }
}

/// The bytes of the body that do not fit.
pub open spec fn pack_removed(d: Seq<u8>) -> Seq<u8> {
    let b = pack_body(d);
    if b.len() <= packed_main_len() {
        Seq::empty()
    } else {
        b.skip(packed_main_len())
    }
}

/// Some cut-off byte is not zero.
pub open spec fn pack_has_leftovers(d: Seq<u8>) -> bool {
    !all_zero_seq(pack_removed(d))
}

/// `[main][z byte][sav header][md5 header]`, with the marker's leftovers flag
/// set to `+` when some cut-off byte is not zero.
pub open spec fn packed_image(d: Seq<u8>) -> Seq<u8> {
    let img = pack_main(d) + seq![d.last()] + d.subrange(
        MD5_HEADER_SIZE as int,
        MD5_HEADER_SIZE + SAV_HEADER_SIZE,
    ) + d.subrange(0, MD5_HEADER_SIZE as int);
    if pack_has_leftovers(d) {
        img.update(MARKER_OFFSET + 5, FLAG_LEFTOVERS)
    } else {
        img
    }
}

/// The leftovers handed back with a packed image.
pub open spec fn packed_leftovers(d: Seq<u8>) -> Option<Seq<u8>> {
    if pack_has_leftovers(d) {
        Some(pack_removed(d))
    } else {
        None
    }
}

/// What packing computes, before the final checks on the packed image.
pub open spec fn spec_pack_ps4(d: Seq<u8>) -> Result<(Seq<u8>, Option<Seq<u8>>), ConvertError> {
    if d.len() - (MD5_HEADER_SIZE + SAV_HEADER_SIZE + 1) <= 8 {
        Err(ConvertError::Ps4TooSmall)
    } else if d.len() - (MD5_HEADER_SIZE + SAV_HEADER_SIZE + 1) == hcd_in_middle() {
        Err(ConvertError::HcdSectionEmpty)
    } else {
        Ok((packed_image(d), packed_leftovers(d)))
    }
}

/// The final checks on a packed image.
pub open spec fn spec_check_packed(out: Seq<u8>) -> Result<(), ConvertError> {
    if !magic_at(out, out.len() - MD5_HEADER_SIZE - SAV_HEADER_SIZE) {
        Err(ConvertError::PackedSanityFailed)
    } else if out.len() != EDITOR_SIZE {
        Err(ConvertError::PackedSizeMismatch)
    } else {
        Ok(())
    }
}

/// The whole PS4 to PC-ready conversion.
pub open spec fn spec_ps4_to_pcready(d: Seq<u8>) -> Result<
    (Seq<u8>, Option<Seq<u8>>),
    ConvertError,
> {
    match spec_pack_ps4(d) {
        Err(e) => Err(e),
        Ok((img, lf)) => if !magic_at(d, MD5_HEADER_SIZE as int) {
            Err(ConvertError::PackedSanityFailed)
        } else {
            Ok((img, lf))
        },
    }
}

/// The views of an optional owned byte buffer.
pub open spec fn opt_vec_view(o: Option<Vec<u8>>) -> Option<Seq<u8>> {
    match o {
        Some(v) => Some(v@),
        None => None,
    }
}

/// The views of an optional borrowed byte buffer.
pub open spec fn opt_slice_view(o: Option<&[u8]>) -> Option<Seq<u8>> {
    match o {
        Some(s) => Some(s@),
        None => None,
    }
}

/// Result of a successful `ps4_to_pcready` or `pack_ps4`, as views.
pub open spec fn packed_view(p: PackedSave) -> (Seq<u8>, Option<Seq<u8>>) {
    (p.data@, opt_vec_view(p.leftovers))
}

/// Packs a PS4 save into the PC-ready layout, without the final checks of
/// `check_packed`: the body is cut or padded to the editor's length, the z
/// byte, sav header and md5 header are appended, and the cut-off bytes come
/// back as leftovers (and set the marker's `+` flag) when they are not all zero.
pub fn pack_ps4(data: &[u8]) -> (res: Result<PackedSave, ConvertError>)
    requires
        pack_input_ok(data@.len() as int),
    ensures
        match res {
            Ok(p) => spec_pack_ps4(data@) == Ok::<_, ConvertError>(packed_view(p)),
            Err(e) => spec_pack_ps4(data@) == Err::<(Seq<u8>, Option<Seq<u8>>), _>(e),
        },
{
    let ghost d = data@;
    let md5_header = &data[0..MD5_HEADER_SIZE];
    let sav_header = &data[MD5_HEADER_SIZE..MD5_HEADER_SIZE + SAV_HEADER_SIZE];
    let z_byte = data[data.len() - 1];
    let middle = &data[MD5_HEADER_SIZE + SAV_HEADER_SIZE..data.len() - 1];
    let hcd_start_in_middle = HCD_START_PS4 - MD5_HEADER_SIZE - SAV_HEADER_SIZE;
    assert(middle@ == ps4_middle(d));
    if middle.len() <= 8 {
        return Err(ConvertError::Ps4TooSmall);
    }
    let first_8_bytes = &middle[0..8];
    let hcd_start_pos = hcd_start_in_middle;
    let middle_segment_len = hcd_start_pos - 8;
    let middle_segment = &middle[8..hcd_start_pos];
    let hcd_section_len = middle.len() - hcd_start_pos;
    if hcd_section_len == 0 {
        return Err(ConvertError::HcdSectionEmpty);
    }
    let hcd_section = &middle[hcd_start_pos..middle.len()];
    let base_d_start = 8 + 8 + middle_segment_len;
    let fill_len = HCD_START_PC_READY - base_d_start;
    let marker = make_marker(VER_V2, FLAG_NO_LEFTOVERS);

    let mut prefix_data: Vec<u8> = Vec::new();
    push_bytes(&mut prefix_data, first_8_bytes);
    push_bytes(&mut prefix_data, marker.as_slice());
    push_bytes(&mut prefix_data, middle_segment);
    prefix_data = append_zeros(prefix_data, fill_len);
    push_bytes(&mut prefix_data, hcd_section);
    assert(prefix_data@ =~= pack_body(d));

    let required_main_part_len = EDITOR_SIZE - 1 - SAV_HEADER_SIZE - MD5_HEADER_SIZE;
    let mut leftovers: Option<Vec<u8>> = None;
    if prefix_data.len() < required_main_part_len {
        let pad = required_main_part_len - prefix_data.len();
        prefix_data = append_zeros(prefix_data, pad);
        assert(prefix_data@ =~= pack_main(d));
        assert(pack_removed(d) =~= Seq::<u8>::empty());
    } else if prefix_data.len() > required_main_part_len {
        let mut removed: Vec<u8> = Vec::new();
        push_bytes(&mut removed, &prefix_data.as_slice()[required_main_part_len..prefix_data.len()]);
        prefix_data.truncate(required_main_part_len);
        assert(removed@ =~= pack_removed(d));
        assert(prefix_data@ =~= pack_main(d));
        if !all_zero(removed.as_slice()) {
            leftovers = Some(removed);
        }
    } else {
        assert(prefix_data@ =~= pack_main(d));
        assert(pack_removed(d) =~= Seq::<u8>::empty());
    }
    let mut out_data: Vec<u8> = Vec::new();
    push_bytes(&mut out_data, prefix_data.as_slice());
    out_data.push(z_byte);
    push_bytes(&mut out_data, sav_header);
    push_bytes(&mut out_data, md5_header);
    if leftovers.is_some() {
        out_data.set(MARKER_OFFSET + 5, FLAG_LEFTOVERS);
    }
    assert(out_data@ =~= packed_image(d));
    Ok(PackedSave { data: out_data, leftovers })
}


/// The final checks on a packed image: `#SAV` at the start of its sav header,
/// then the editor size.
pub fn check_packed(out_data: &[u8]) -> (res: Result<(), ConvertError>)
    requires
        out_data@.len() >= MD5_HEADER_SIZE + SAV_HEADER_SIZE,
    ensures
        res == spec_check_packed(out_data@),
{
    if !has_magic_at(out_data, out_data.len() - MD5_HEADER_SIZE - SAV_HEADER_SIZE) {
        return Err(ConvertError::PackedSanityFailed);
    }
    if out_data.len() != EDITOR_SIZE {
        return Err(ConvertError::PackedSizeMismatch);
    }
    Ok(())
}

/// Converts a PS4 save into the PC-ready layout: `pack_ps4`, then the final
/// checks of `check_packed`.  The packed image holds `#SAV` at its sav header
/// exactly when the input holds it at 0x20.
pub fn ps4_to_pcready(data: &[u8]) -> (res: Result<PackedSave, ConvertError>)
    requires
        pack_input_ok(data@.len() as int),
    ensures
        match res {
            Ok(p) => spec_ps4_to_pcready(data@) == Ok::<_, ConvertError>(packed_view(p)),
            Err(e) => spec_ps4_to_pcready(data@) == Err::<(Seq<u8>, Option<Seq<u8>>), _>(e),
        },
{
    let packed = pack_ps4(data)?;
    proof {
        lemma_packed_sav_magic(data@);
    }
    check_packed(packed.data.as_slice())?;
    Ok(packed)
}

/// A packed image has the editor size, and its sav header holds `#SAV`
/// exactly when the PS4 input holds it at 0x20.
pub proof fn lemma_packed_sav_magic(d: Seq<u8>)
    requires
        pack_input_ok(d.len() as int),
        spec_pack_ps4(d) is Ok,
    ensures
        packed_image(d).len() == EDITOR_SIZE,
        magic_at(packed_image(d), EDITOR_SIZE - MD5_HEADER_SIZE - SAV_HEADER_SIZE) == magic_at(
            d,
            MD5_HEADER_SIZE as int,
        ),
{
    let img = pack_main(d) + seq![d.last()] + d.subrange(
        MD5_HEADER_SIZE as int,
        MD5_HEADER_SIZE + SAV_HEADER_SIZE,
    ) + d.subrange(0, MD5_HEADER_SIZE as int);
    assert(pack_main(d).len() == packed_main_len());
    let o = EDITOR_SIZE - MD5_HEADER_SIZE - SAV_HEADER_SIZE;
    assert(img[o] == d[0x20]);
    assert(img[o + 1] == d[0x21]);
    assert(img[o + 2] == d[0x22]);
    assert(img[o + 3] == d[0x23]);
}


/// Number of hero coliseum bytes that a PC-ready file cannot hold and that
/// unpacking has to restore.
pub open spec fn unpack_missing_len() -> int {
    (PS4_SIZE - MD5_HEADER_SIZE - SAV_HEADER_SIZE - 1 - hcd_in_middle()) - (packed_main_len()
        - HCD_START_PC_READY)
}

/// The restored tail of the hero coliseum data: the first bytes of the
/// leftovers when the flag says they exist and they are supplied (as many as
/// are missing, or all of them if fewer), then zeros up to the missing length.
pub open spec fn unpack_tail(has_leftovers_flag: bool, leftovers: Option<Seq<u8>>) -> Seq<u8> {
    let missing = unpack_missing_len();
    match leftovers {
        Some(l) if has_leftovers_flag => {
            let take = if l.len() < missing {
                l.len() as int
            } else {
                missing
            };
            l.take(take) + zeros((missing - take) as nat)
        },
        _ => zeros(missing as nat),
    }
}

/// `[md5 header][sav header][first 8 bytes][middle segment][hero coliseum
/// data present][restored tail][z byte]`, read off a PC-ready image.
pub open spec fn unpacked_image(d: Seq<u8>, tail: Seq<u8>) -> Seq<u8> {
    let n = d.len() as int;
    let z = packed_main_len();
    d.subrange(n - MD5_HEADER_SIZE, n) + d.subrange(n - MD5_HEADER_SIZE - SAV_HEADER_SIZE, n
        - MD5_HEADER_SIZE) + d.subrange(0, 8) + d.subrange(16, 16 + hcd_in_middle() - 8)
        + d.subrange(HCD_START_PC_READY as int, z) + tail + seq![d[z]]
}

/// The whole PC-ready to PS4 conversion.
pub open spec fn spec_pcready_to_ps4(
    d: Seq<u8>,
    has_leftovers_flag: bool,
    leftovers: Option<Seq<u8>>,
) -> Result<Seq<u8>, ConvertError> {
    if d.len() != EDITOR_SIZE {
        Err(ConvertError::EditorSizeMismatch { got: d.len() as usize })
    } else if !magic_at(d, EDITOR_SIZE - MD5_HEADER_SIZE - SAV_HEADER_SIZE) {
        Err(ConvertError::UnpackSavMissing)
    } else if !magic_at(d, 0) {
        Err(ConvertError::UnpackNoSavAtA0)
    } else {
        Ok(unpacked_image(d, unpack_tail(has_leftovers_flag, leftovers)))
    }
}

/// Whether unpacking `d` consults the leftovers: it passes the checks that
/// come first, bytes are missing and the flag says leftovers exist.
pub open spec fn spec_leftovers_request(d: Seq<u8>, has_leftovers_flag: bool) -> Option<usize> {
    if d.len() == EDITOR_SIZE && magic_at(d, EDITOR_SIZE - MD5_HEADER_SIZE - SAV_HEADER_SIZE)
        && has_leftovers_flag {
        Some(unpack_missing_len() as usize)
    } else {
        None
    }
}

/// `Some(missing)` when `pcready_to_ps4(data, has_leftovers_flag, ..)` would
/// read the leftovers, `missing` being how many bytes it restores; `None`
/// when the leftovers argument makes no difference.
pub fn leftovers_request(data: &[u8], has_leftovers_flag: bool) -> (res: Option<usize>)
    ensures
        res == spec_leftovers_request(data@, has_leftovers_flag),
{
    if data.len() != EDITOR_SIZE {
        return None;
    }
    let sav_header_start = data.len() - MD5_HEADER_SIZE - SAV_HEADER_SIZE;
    if !has_magic_at(data, sav_header_start) {
        return None;
    }
    if has_leftovers_flag {
        let z_index = sav_header_start - 1;
        let hcd_start_in_middle = HCD_START_PS4 - MD5_HEADER_SIZE - SAV_HEADER_SIZE;
        let hcd_present_len = z_index - HCD_START_PC_READY;
        let middle_total_len = PS4_SIZE - MD5_HEADER_SIZE - SAV_HEADER_SIZE - 1;
        let hcd_full_len = middle_total_len - hcd_start_in_middle;
        Some(hcd_full_len - hcd_present_len)
    } else {
        None
    }
}

/// Converts a PC-ready save back into the PS4 layout.  `leftovers` is the
/// content of the sidecar file written when packing, `None` when there is no
/// such file; it is read only when `has_leftovers_flag` is set.
pub fn pcready_to_ps4(data: &[u8], has_leftovers_flag: bool, leftovers: Option<&[u8]>) -> (res:
    Result<Vec<u8>, ConvertError>)
    ensures
        match res {
            Ok(v) => spec_pcready_to_ps4(data@, has_leftovers_flag, opt_slice_view(leftovers))
                == Ok::<_, ConvertError>(v@),
            Err(e) => spec_pcready_to_ps4(data@, has_leftovers_flag, opt_slice_view(leftovers))
                == Err::<Seq<u8>, _>(e),
        },
{
    let ghost d = data@;
    if data.len() != EDITOR_SIZE {
        return Err(ConvertError::EditorSizeMismatch { got: data.len() });
    }
    let md5_header_start = data.len() - MD5_HEADER_SIZE;
    let sav_header_start = data.len() - MD5_HEADER_SIZE - SAV_HEADER_SIZE;
    let z_index = sav_header_start - 1;
    if !has_magic_at(data, sav_header_start) {
        return Err(ConvertError::UnpackSavMissing);
    }
    let md5_header = &data[md5_header_start..md5_header_start + MD5_HEADER_SIZE];
    let sav_header = &data[sav_header_start..sav_header_start + SAV_HEADER_SIZE];
    let z_byte = data[z_index];
    let first_8_bytes = &data[0..8];
    let hcd_start_in_middle = HCD_START_PS4 - MD5_HEADER_SIZE - SAV_HEADER_SIZE;
    let middle_segment_len = hcd_start_in_middle - 8;
    let middle_segment_start_in_packed: usize = 16;
    let middle_segment = &data[middle_segment_start_in_packed..middle_segment_start_in_packed
        + middle_segment_len];
    let hcd_present_len = z_index - HCD_START_PC_READY;
    let hcd_present = &data[HCD_START_PC_READY..HCD_START_PC_READY + hcd_present_len];
    let middle_total_len = PS4_SIZE - MD5_HEADER_SIZE - SAV_HEADER_SIZE - 1;
    let hcd_full_len = middle_total_len - hcd_start_in_middle;
    let missing = hcd_full_len - hcd_present_len;

    // The restored tail: leftovers first when they are flagged and supplied, zeros after.
    let mut hcd_tail: Vec<u8> = Vec::new();
    let mut take: usize = 0;
    if has_leftovers_flag {
        if let Some(lf) = leftovers {
            take = if missing < lf.len() {
                missing
            } else {
                lf.len()
            };
            push_bytes(&mut hcd_tail, &lf[0..take]);
        }
    }
    hcd_tail = append_zeros(hcd_tail, missing - take);
    assert(hcd_tail@ =~= unpack_tail(has_leftovers_flag, opt_slice_view(leftovers)));

    let mut ps4: Vec<u8> = Vec::new();
    push_bytes(&mut ps4, md5_header);
    push_bytes(&mut ps4, sav_header);
    push_bytes(&mut ps4, first_8_bytes);
    push_bytes(&mut ps4, middle_segment);
    push_bytes(&mut ps4, hcd_present);
    push_bytes(&mut ps4, hcd_tail.as_slice());
    ps4.push(z_byte);
    assert(ps4@ =~= unpacked_image(d, hcd_tail@));

    if !has_magic_at(ps4.as_slice(), MD5_HEADER_SIZE) {
        return Err(ConvertError::UnpackNoSavAt20);
    }
    if !has_magic_at(ps4.as_slice(), MD5_HEADER_SIZE + SAV_HEADER_SIZE) {
        return Err(ConvertError::UnpackNoSavAtA0);
    }
    Ok(ps4)
}


/// Conversion of a PC-ready file recognised by its marker: the marker must be
/// recognised and the second layout's checks must pass; the marker's flag
/// decides whether the leftovers are consulted.
pub open spec fn spec_convert_auto(d: Seq<u8>, leftovers: Option<Seq<u8>>) -> Result<
    Seq<u8>,
    ConvertError,
> {
    match marker_fields(d) {
        None => Err(ConvertError::MarkerNotRecognized),
        Some((_, flag)) => if !v2_layout(d) {
            Err(ConvertError::MarkerLayoutMismatch)
        } else {
            spec_pcready_to_ps4(d, flag == FLAG_LEFTOVERS, leftovers)
        },
    }
}

/// Whether `convert_auto` on `d` consults the leftovers, and how many bytes
/// it restores from them.
pub open spec fn spec_auto_leftovers_request(d: Seq<u8>) -> Option<usize> {
    match marker_fields(d) {
        Some((_, flag)) if v2_layout(d) => spec_leftovers_request(d, flag == FLAG_LEFTOVERS),
        _ => None,
    }
}

/// Unpacks a PC-ready file after reading its marker: refuses an
/// unrecognised marker and a file that fails the second layout's checks,
/// then converts with the leftovers flag that the marker carries.
pub fn convert_auto(data: &[u8], leftovers: Option<&[u8]>) -> (res: Result<Vec<u8>, ConvertError>)
    ensures
        match res {
            Ok(v) => spec_convert_auto(data@, opt_slice_view(leftovers)) == Ok::<
                _,
                ConvertError,
            >(v@),
            Err(e) => spec_convert_auto(data@, opt_slice_view(leftovers)) == Err::<Seq<u8>, _>(e),
        },
{
    let (version, flag) = match try_read_marker(data) {
        Some(fields) => fields,
        None => return Err(ConvertError::MarkerNotRecognized),
    };
    let looks_v2 = looks_like_v2(data);
    if version == VER_V2 || looks_v2 {
        if !looks_v2 {
            return Err(ConvertError::MarkerLayoutMismatch);
        }
        let has_leftovers = flag == FLAG_LEFTOVERS;
        pcready_to_ps4(data, has_leftovers, leftovers)
    } else {
        Err(ConvertError::UnsupportedVersion)
    }
}

/// `Some(missing)` when `convert_auto(data, ..)` would read the leftovers;
/// `None` when the leftovers argument makes no difference to it.
pub fn auto_leftovers_request(data: &[u8]) -> (res: Option<usize>)
    ensures
        res == spec_auto_leftovers_request(data@),
{
    match try_read_marker(data) {
        Some((_, flag)) => {
            if looks_like_v2(data) {
                leftovers_request(data, flag == FLAG_LEFTOVERS)
            } else {
                None
            }
        },
        None => None,
    }
}

} // verus!
