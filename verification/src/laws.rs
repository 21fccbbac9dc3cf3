//! Properties that relate the conversions to one another.

use vstd::prelude::*;
use crate::layout::{
    zeros, EDITOR_SIZE, FLAG_LEFTOVERS, FLAG_NO_LEFTOVERS, MARKER_OFFSET, MD5_HEADER_SIZE,
    PS4_SIZE, SAV_HEADER_SIZE, VER_V2,
};
use crate::marker::{dual_magic, magic_at, marker_fields, marker_seq, v2_layout};
use crate::convert::{
    hcd_in_middle, pack_body, pack_has_leftovers, pack_main, pack_removed, packed_image,
    packed_leftovers, packed_main_len, ps4_middle, spec_convert_auto, spec_pack_ps4,
    spec_ps4_to_pcready, unpack_tail, unpacked_image, ConvertError, spec_auto_leftovers_request,
    spec_pcready_to_ps4, pack_input_ok, spec_leftovers_request, spec_check_packed,
    lemma_packed_sav_magic,
};
use crate::utils::all_zero_seq;
use crate::dispatch::{spec_plan, Mode, Plan};

verus! {

/// Pieces of the packed image of a full-size PS4 save, read back at the
/// offsets where unpacking looks for them.
proof fn lemma_packed_pieces(d: Seq<u8>)
    requires
        d.len() == PS4_SIZE,
    ensures
        ({
            let img = packed_image(d);
            let m = ps4_middle(d);
            let e = EDITOR_SIZE as int;
            let r = packed_main_len();
            &&& img.len() == e
            &&& img.subrange(e - 0x20, e) == d.subrange(0, 0x20)
            &&& img.subrange(e - 0xA0, e - 0x20) == d.subrange(0x20, 0xA0)
            &&& img.subrange(0, 8) == m.subrange(0, 8)
            &&& img.subrange(16, 16 + hcd_in_middle() - 8) == m.subrange(8, hcd_in_middle())
            &&& img.subrange(0x7BCB8, r) == m.subrange(hcd_in_middle(), hcd_in_middle() + (r
                - 0x7BCB8))
            &&& img[r] == d.last()
            &&& pack_removed(d) == m.subrange(hcd_in_middle() + (r - 0x7BCB8), m.len() as int)
            &&& pack_removed(d).len() == 0xC0
            &&& img.subrange(8, 16) == marker_seq(
                VER_V2,
                if pack_has_leftovers(d) {
                    FLAG_LEFTOVERS
                } else {
                    FLAG_NO_LEFTOVERS
                },
            )
        }),
{
    let m = ps4_middle(d);
    let e = EDITOR_SIZE as int;
    let r = packed_main_len();
    let h = hcd_in_middle();
    let body = pack_body(d);
    let mk = marker_seq(VER_V2, FLAG_NO_LEFTOVERS);
    assert(m.len() == 0x12A15F);
    assert(body.len() == 0x12A217);
    let main = pack_main(d);
    assert(main == body.take(r));
    let img0 = main + seq![d.last()] + d.subrange(
        MD5_HEADER_SIZE as int,
        MD5_HEADER_SIZE + SAV_HEADER_SIZE,
    ) + d.subrange(0, MD5_HEADER_SIZE as int);
    let img = packed_image(d);
    assert(img.len() == e);
    assert forall|i: int| 0 <= i < e && i != 13 implies img[i] == img0[i] by {}
    assert(img.subrange(e - 0x20, e) =~= d.subrange(0, 0x20));
    assert(img.subrange(e - 0xA0, e - 0x20) =~= d.subrange(0x20, 0xA0));
    assert(img.subrange(0, 8) =~= m.subrange(0, 8));
    assert(img.subrange(16, 16 + h - 8) =~= m.subrange(8, h));
    assert forall|i: int| 0 <= i < r - 0x7BCB8 implies #[trigger] body[0x7BCB8 + i] == m[h + i] by {}
    assert(img.subrange(0x7BCB8, r) =~= m.subrange(h, h + (r - 0x7BCB8)));
    assert(pack_removed(d) =~= m.subrange(h + (r - 0x7BCB8), m.len() as int));
    let flag = if pack_has_leftovers(d) {
        FLAG_LEFTOVERS
    } else {
        FLAG_NO_LEFTOVERS
    };
    assert(img.subrange(8, 16) =~= marker_seq(VER_V2, flag));
}

/// Packing a PS4 save of the full size that holds `#SAV` at 0x20 and 0xA0
/// succeeds, and unpacking the packed image, given the leftovers that packing
/// handed back, restores the save byte for byte.
pub proof fn lemma_ps4_pcready_roundtrip(d: Seq<u8>)
    requires
        d.len() == PS4_SIZE,
        dual_magic(d),
    ensures
        spec_ps4_to_pcready(d) == Ok::<_, ConvertError>((packed_image(d), packed_leftovers(d))),
        spec_convert_auto(packed_image(d), packed_leftovers(d)) == Ok::<_, ConvertError>(d),
{
    lemma_packed_pieces(d);
    let img = packed_image(d);
    let m = ps4_middle(d);
    let e = EDITOR_SIZE as int;
    let r = packed_main_len();
    let h = hcd_in_middle();
    assert(spec_pack_ps4(d) is Ok);
    assert(img.subrange(e - 0xA0, e - 0x20)[0] == d[0x20]);
    assert(magic_at(img, e - 0xA0));
    assert(img.subrange(0, 8)[0] == d[0xA0]);
    assert(magic_at(img, 0));
    let flag = img.subrange(8, 16)[5];
    assert(img[MARKER_OFFSET + 5] == flag);
    assert(marker_fields(img) == Some((VER_V2, flag)));
    assert(v2_layout(img));
    let tail = unpack_tail(flag == FLAG_LEFTOVERS, packed_leftovers(d));
    if pack_has_leftovers(d) {
        assert(tail =~= pack_removed(d));
    } else {
        assert(tail =~= pack_removed(d));
    }
    let rest = m.subrange(0, 8) + m.subrange(8, h) + m.subrange(h, h + (r - 0x7BCB8))
        + pack_removed(d);
    assert(rest =~= m);
    let u = unpacked_image(img, tail);
    assert(u =~= d.subrange(0, 0x20) + d.subrange(0x20, 0xA0) + rest + seq![d.last()]);
    assert(u =~= d);
}


/// Unpacking a PC-ready file of the second layout, whose fill bytes before
/// the hero coliseum data are zero and whose leftovers flag agrees with the
/// restored tail (`T`, or `+` with a tail that is not all zero), succeeds
/// when it holds `#SAV` at 0; packing the result gives the file back byte for
/// byte.
pub proof fn lemma_pcready_ps4_roundtrip(d: Seq<u8>, leftovers: Option<Seq<u8>>)
    requires
        v2_layout(d),
        magic_at(d, 0),
        forall|i: int| 0x7BC08 <= i < 0x7BCB8 ==> d[i] == 0u8,
        d[MARKER_OFFSET + 5] == FLAG_NO_LEFTOVERS || !all_zero_seq(
            unpack_tail(true, leftovers),
        ),
    ensures
        spec_convert_auto(d, leftovers) is Ok,
        spec_convert_auto(d, leftovers) matches Ok(u) ==> {
            &&& u.len() == PS4_SIZE
            &&& dual_magic(u)
            &&& spec_ps4_to_pcready(u) is Ok
            &&& packed_image(u) == d
        },
{
    let e = EDITOR_SIZE as int;
    let r = packed_main_len();
    let h = hcd_in_middle();
    let flag = d[MARKER_OFFSET + 5];
    assert(marker_fields(d) == Some((VER_V2, flag)));
    let has = flag == FLAG_LEFTOVERS;
    let tail = unpack_tail(has, leftovers);
    assert(tail.len() == 0xC0);
    let u = unpacked_image(d, tail);
    assert(spec_convert_auto(d, leftovers) == Ok::<_, ConvertError>(u));
    assert(u.len() == PS4_SIZE);
    let m = ps4_middle(u);
    assert(m =~= d.subrange(0, 8) + d.subrange(16, 16 + h - 8) + d.subrange(0x7BCB8, r) + tail);
    assert(u.subrange(0x20, 0xA0) =~= d.subrange(e - 0xA0, e - 0x20));
    assert(u[0x20] == d[e - 0xA0]);
    assert(u[0xA0] == d[0]);
    assert(dual_magic(u));
    let body = pack_body(u);
    assert(body.len() == 0x12A217);
    assert(pack_removed(u) =~= tail);
    if flag == FLAG_NO_LEFTOVERS {
        assert(tail =~= zeros(0xC0));
        assert(all_zero_seq(tail));
    }
    assert(pack_has_leftovers(u) == has);
    let img = packed_image(u);
    assert(d.subrange(8, 16) =~= marker_seq(VER_V2, flag));
    assert forall|i: int| 0 <= i < e implies img[i] == d[i] by {
        if i < 8 {
        } else if i < 16 {
            assert(d[i] == d.subrange(8, 16)[i - 8]);
        } else if i < 16 + h - 8 {
        } else if i < 0x7BCB8 {
        } else if i < r {
        } else {
        }
    }
    assert(img =~= d);
}

/// When unpacking with a given flag does not ask for the leftovers, they
/// make no difference.
pub proof fn lemma_flagged_leftovers_unused(
    d: Seq<u8>,
    has_leftovers_flag: bool,
    a: Option<Seq<u8>>,
    b: Option<Seq<u8>>,
)
    requires
        spec_leftovers_request(d, has_leftovers_flag) is None,
    ensures
        spec_pcready_to_ps4(d, has_leftovers_flag, a) == spec_pcready_to_ps4(
            d,
            has_leftovers_flag,
            b,
        ),
{
}

/// When unpacking a file by its marker does not ask for the leftovers, they
/// make no difference.
pub proof fn lemma_leftovers_unused(d: Seq<u8>, a: Option<Seq<u8>>, b: Option<Seq<u8>>)
    requires
        spec_auto_leftovers_request(d) is None,
    ensures
        spec_convert_auto(d, a) == spec_convert_auto(d, b),
{
}

/// A successful unpack has the PS4 size.
pub proof fn lemma_unpacked_size(d: Seq<u8>, has_leftovers_flag: bool, leftovers: Option<Seq<u8>>)
    ensures
        spec_pcready_to_ps4(d, has_leftovers_flag, leftovers) matches Ok(u) ==> u.len()
            == PS4_SIZE,
{
}

/// The marker that packing writes is read back with the version and flag it
/// was written with.
pub proof fn lemma_marker_roundtrip(d: Seq<u8>, flag: u8)
    requires
        d.len() >= MARKER_OFFSET + 8,
        flag == FLAG_NO_LEFTOVERS || flag == FLAG_LEFTOVERS,
        d.subrange(MARKER_OFFSET as int, MARKER_OFFSET + 8) == marker_seq(VER_V2, flag),
    ensures
        marker_fields(d) == Some((VER_V2, flag)),
{
    assert(d[8] == d.subrange(8, 16)[0]);
    assert(d[9] == d.subrange(8, 16)[1]);
    assert(d[10] == d.subrange(8, 16)[2]);
    assert(d[11] == d.subrange(8, 16)[3]);
    assert(d[12] == d.subrange(8, 16)[4]);
    assert(d[13] == d.subrange(8, 16)[5]);
    assert(d[14] == d.subrange(8, 16)[6]);
    assert(d[15] == d.subrange(8, 16)[7]);
}


/// A file that the dispatcher plans to pack meets what packing requires,
/// packs successfully, and unpacks back to itself.
pub proof fn lemma_planned_pack_roundtrip(mode: Mode, d: Seq<u8>)
    requires
        spec_plan(mode, d) == Plan::Pack,
    ensures
        pack_input_ok(d.len() as int),
        spec_ps4_to_pcready(d) == Ok::<_, ConvertError>((packed_image(d), packed_leftovers(d))),
        spec_convert_auto(packed_image(d), packed_leftovers(d)) == Ok::<_, ConvertError>(d),
{
    lemma_ps4_pcready_roundtrip(d);
}


/// In automatic mode a file with a recognised marker at 0x08, whichever
/// leftovers flag it carries, is planned for unpacking unless it holds `#SAV`
/// at both 0x20 and 0xA0; when unpacking is asked for, it always is.
pub proof fn lemma_plan_unpacks_marked_files(d: Seq<u8>)
    requires
        marker_fields(d) is Some,
    ensures
        spec_plan(Mode::PcToPs4, d) == Plan::Unpack,
        !dual_magic(d) ==> spec_plan(Mode::Auto, d) == Plan::Unpack,
{
}

/// A full-size PS4 save with `#SAV` at 0x20 and 0xA0 is planned for packing
/// in automatic mode and when packing is asked for.
pub proof fn lemma_plan_packs_ps4_saves(d: Seq<u8>)
    requires
        d.len() == PS4_SIZE,
        dual_magic(d),
    ensures
        spec_plan(Mode::Auto, d) == Plan::Pack,
        spec_plan(Mode::Ps4ToPc, d) == Plan::Pack,
{
}

/// Without a marker at 0x08 nothing is unpacked, and without `#SAV` at 0x20
/// and 0xA0 nothing is packed.
pub proof fn lemma_plan_refusals(mode: Mode, d: Seq<u8>)
    ensures
        spec_plan(mode, d) == Plan::Unpack ==> marker_fields(d) is Some,
        spec_plan(mode, d) == Plan::Pack ==> dual_magic(d) && d.len() == PS4_SIZE,
{
}

/// The final check on a packed image accepts exactly the images of the
/// editor size that hold `#SAV` where the sav header sits; the marker plays
/// no part.
pub proof fn lemma_check_packed_accepts(out: Seq<u8>)
    ensures
        (spec_check_packed(out) is Ok) <==> (out.len() == EDITOR_SIZE && magic_at(
            out,
            EDITOR_SIZE - MD5_HEADER_SIZE - SAV_HEADER_SIZE,
        )),
{
}

/// Where every byte of the packed image of a full-size PS4 save (with
/// `#SAV` at 0x20 and 0xA0) comes from, and which leftovers come with it:
/// the 0xC0 hero coliseum bytes before the z byte (0x12A13F..0x12A1FF) that
/// the editor cannot hold are handed back, and flagged `+` in the marker,
/// exactly when they are not all zero.  Packing, the full conversion and its
/// final check agree on such a save.
pub proof fn lemma_pack_layout(d: Seq<u8>)
    requires
        d.len() == PS4_SIZE,
        dual_magic(d),
    ensures
        spec_pack_ps4(d) is Ok,
        spec_ps4_to_pcready(d) == spec_pack_ps4(d),
        spec_pack_ps4(d) matches Ok((img, lf)) ==> {
            &&& img.len() == EDITOR_SIZE
            &&& spec_check_packed(img) is Ok
            &&& img.subrange(0, 8) == d.subrange(0xA0, 0xA8)
            &&& img.subrange(8, 13) == seq![0x58u8, 0x56u8, 0x32u8, 0x53u8, 0x41u8]
            &&& img[14] == 0xD6u8
            &&& img[15] == VER_V2
            &&& img.subrange(16, 0x7BC08) == d.subrange(0xA8, 0x7BCA0)
            &&& (forall|i: int| 0x7BC08 <= i < 0x7BCB8 ==> img[i] == 0u8)
            &&& img.subrange(0x7BCB8, 0x12A157) == d.subrange(0x7BCA0, 0x12A13F)
            &&& img[0x12A157] == d[PS4_SIZE - 1]
            &&& img.subrange(0x12A158, 0x12A1D8) == d.subrange(0x20, 0xA0)
            &&& img.subrange(0x12A1D8, EDITOR_SIZE as int) == d.subrange(0, 0x20)
            &&& all_zero_seq(d.subrange(0x12A13F, 0x12A1FF)) ==> lf is None && img[13]
                == FLAG_NO_LEFTOVERS
            &&& !all_zero_seq(d.subrange(0x12A13F, 0x12A1FF)) ==> lf == Some(
                d.subrange(0x12A13F, 0x12A1FF),
            ) && img[13] == FLAG_LEFTOVERS
        },
{
    lemma_packed_pieces(d);
    lemma_packed_sav_magic(d);
    let img = packed_image(d);
    let m = ps4_middle(d);
    assert(spec_pack_ps4(d) is Ok);
    assert(magic_at(d, MD5_HEADER_SIZE as int));
    assert(img.subrange(0, 8) =~= d.subrange(0xA0, 0xA8)) by {
        assert(m.subrange(0, 8) =~= d.subrange(0xA0, 0xA8));
    }
    assert(img.subrange(8, 13) =~= img.subrange(8, 16).subrange(0, 5));
    assert(img[14] == img.subrange(8, 16)[6]);
    assert(img[15] == img.subrange(8, 16)[7]);
    assert(img[13] == img.subrange(8, 16)[5]);
    assert(img.subrange(16, 0x7BC08) =~= d.subrange(0xA8, 0x7BCA0)) by {
        assert(m.subrange(8, hcd_in_middle()) =~= d.subrange(0xA8, 0x7BCA0));
    }
    assert forall|i: int| 0x7BC08 <= i < 0x7BCB8 implies img[i] == 0u8 by {
        let b = pack_body(d);
        assert(b[i] == 0u8);
    }
    assert(img.subrange(0x7BCB8, 0x12A157) =~= d.subrange(0x7BCA0, 0x12A13F)) by {
        assert(m.subrange(hcd_in_middle(), hcd_in_middle() + (packed_main_len() - 0x7BCB8))
            =~= d.subrange(0x7BCA0, 0x12A13F));
    }
    assert(img.subrange(0x12A158, 0x12A1D8) =~= d.subrange(0x20, 0xA0));
    assert(img.subrange(0x12A1D8, EDITOR_SIZE as int) =~= d.subrange(0, 0x20));
    assert(pack_removed(d) =~= d.subrange(0x12A13F, 0x12A1FF));
}

/// A successful unpack has the PS4 size and is read off the PC-ready file:
/// the md5 header from its last 0x20 bytes, the sav header from the 0x80
/// before them, the first 8 middle bytes from 0, the middle segment from 16,
/// the hero coliseum data from 0x7BCB8 (restored at PS4 offset 0x7BCA0), the
/// z byte from 0x12A157 to the last byte; the 0xC0 bytes before the z byte
/// are the leftovers (as many as are supplied) when the flag is set, and zero
/// otherwise.  It succeeds exactly when the file has the editor size and
/// holds `#SAV` at its sav header and at 0.
pub proof fn lemma_unpack_layout(d: Seq<u8>, has_leftovers_flag: bool, leftovers: Option<Seq<u8>>)
    ensures
        (spec_pcready_to_ps4(d, has_leftovers_flag, leftovers) is Ok) <==> (d.len() == EDITOR_SIZE
            && magic_at(d, EDITOR_SIZE - MD5_HEADER_SIZE - SAV_HEADER_SIZE) && magic_at(d, 0)),
        spec_pcready_to_ps4(d, has_leftovers_flag, leftovers) matches Ok(u) ==> {
            &&& u.len() == PS4_SIZE
            &&& u.subrange(0, 0x20) == d.subrange(0x12A1D8, EDITOR_SIZE as int)
            &&& u.subrange(0x20, 0xA0) == d.subrange(0x12A158, 0x12A1D8)
            &&& u.subrange(0xA0, 0xA8) == d.subrange(0, 8)
            &&& u.subrange(0xA8, 0x7BCA0) == d.subrange(16, 0x7BC08)
            &&& u.subrange(0x7BCA0, 0x12A13F) == d.subrange(0x7BCB8, 0x12A157)
            &&& u[PS4_SIZE - 1] == d[0x12A157]
            &&& (forall|i: int|
                0 <= i < 0xC0 ==> #[trigger] u[0x12A13F + i] == match leftovers {
                    Some(l) if has_leftovers_flag && i < l.len() => l[i],
                    _ => 0u8,
                })
        },
{
    if let Ok(u) = spec_pcready_to_ps4(d, has_leftovers_flag, leftovers) {
        let tail = unpack_tail(has_leftovers_flag, leftovers);
        assert(tail.len() == 0xC0);
        assert(u == unpacked_image(d, tail));
        assert(u.subrange(0, 0x20) =~= d.subrange(0x12A1D8, EDITOR_SIZE as int));
        assert(u.subrange(0x20, 0xA0) =~= d.subrange(0x12A158, 0x12A1D8));
        assert(u.subrange(0xA0, 0xA8) =~= d.subrange(0, 8));
        assert(u.subrange(0xA8, 0x7BCA0) =~= d.subrange(16, 0x7BC08));
        assert(u.subrange(0x7BCA0, 0x12A13F) =~= d.subrange(0x7BCB8, 0x12A157));
        assert forall|i: int| 0 <= i < 0xC0 implies #[trigger] u[0x12A13F + i] == match leftovers {
            Some(l) if has_leftovers_flag && i < l.len() => l[i],
            _ => 0u8,
        } by {
            assert(u[0x12A13F + i] == tail[i]);
        }
    }
}

/// Unpacking by the marker is unpacking with the marker's own leftovers flag.
pub proof fn lemma_convert_auto_uses_marker_flag(d: Seq<u8>, leftovers: Option<Seq<u8>>)
    requires
        v2_layout(d),
    ensures
        marker_fields(d) matches Some((_, flag)) && spec_convert_auto(d, leftovers)
            == spec_pcready_to_ps4(d, flag == FLAG_LEFTOVERS, leftovers),
{
}

/// Packing a full-size PS4 save with `#SAV` at 0x20 and 0xA0 and unpacking
/// the result, with the leftovers packing handed back and the flag set
/// exactly when there are leftovers, gives the save back byte for byte;
/// unpacking by the marker does the same.
pub proof fn lemma_pack_unpack_roundtrip(d: Seq<u8>)
    requires
        d.len() == PS4_SIZE,
        dual_magic(d),
    ensures
        spec_pack_ps4(d) is Ok,
        spec_pack_ps4(d) matches Ok((img, lf)) ==> {
            &&& spec_pcready_to_ps4(img, lf is Some, lf) == Ok::<_, ConvertError>(d)
            &&& spec_convert_auto(img, lf) == Ok::<_, ConvertError>(d)
        },
{
    lemma_pack_layout(d);
    lemma_ps4_pcready_roundtrip(d);
    let img = packed_image(d);
    let lf = packed_leftovers(d);
    lemma_packed_pieces(d);
    assert(img[MARKER_OFFSET + 5] == img.subrange(8, 16)[5]);
    assert(marker_fields(img) matches Some((_, flag)) && (flag == FLAG_LEFTOVERS) == (lf is Some));
}

/// The packed image of a full-size PS4 save with `#SAV` at 0x20 and 0xA0 is
/// planned for unpacking when unpacking is asked for, and in automatic mode
/// unless it happens to hold `#SAV` at 0x20 and 0xA0 itself.
pub proof fn lemma_plan_packed_image(d: Seq<u8>)
    requires
        d.len() == PS4_SIZE,
        dual_magic(d),
    ensures
        spec_pack_ps4(d) matches Ok((img, _)) ==> {
            &&& spec_plan(Mode::PcToPs4, img) == Plan::Unpack
            &&& !dual_magic(img) ==> spec_plan(Mode::Auto, img) == Plan::Unpack
        },
{
    lemma_pack_unpack_roundtrip(d);
    lemma_packed_pieces(d);
    let img = packed_image(d);
    assert(img[MARKER_OFFSET + 5] == img.subrange(8, 16)[5]);
    assert(marker_fields(img) is Some);
}

} // verus!
