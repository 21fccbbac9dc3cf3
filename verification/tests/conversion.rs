use xv2_save_convert::convert::{
    auto_leftovers_request, check_packed, convert_auto, leftovers_request, pack_ps4,
    pcready_to_ps4, ps4_to_pcready, ConvertError,
};
use xv2_save_convert::dispatch::{plan_conversion, Mode, Plan};
use xv2_save_convert::layout::{EDITOR_SIZE, PS4_SIZE};

const SAV: [u8; 4] = [0x23, 0x53, 0x41, 0x56];

/// A PS4 save whose bytes follow a pattern, with `#SAV` at 0x20 and 0xA0.
fn ps4_save(tail_nonzero: bool) -> Vec<u8> {
    let mut d: Vec<u8> = (0..PS4_SIZE).map(|i| (i % 251) as u8 + 1).collect();
    d[0x20..0x24].copy_from_slice(&SAV);
    d[0xA0..0xA4].copy_from_slice(&SAV);
    if !tail_nonzero {
        // the last 0xC0 bytes of the hero coliseum data, right before the z byte
        for b in &mut d[PS4_SIZE - 1 - 0xC0..PS4_SIZE - 1] {
            *b = 0;
        }
    }
    d
}

#[test]
fn pack_layout_with_leftovers() {
    let d = ps4_save(true);
    let p = ps4_to_pcready(&d).unwrap();
    let out = &p.data;
    assert_eq!(out.len(), EDITOR_SIZE);
    // first 8 bytes of the middle part, then the marker with the `+` flag
    assert_eq!(&out[0..8], &d[0xA0..0xA8]);
    assert_eq!(&out[8..16], &[0x58, 0x56, 0x32, 0x53, 0x41, 0x2B, 0xD6, 0x31]);
    // middle segment
    assert_eq!(&out[16..0x7BC08], &d[0xA8..0x7BCA0]);
    // fill zeros
    assert!(out[0x7BC08..0x7BCB8].iter().all(|&b| b == 0));
    // hero coliseum data, from 0x7BCA0 of the PS4 file, aligned at 0x7BCB8
    assert_eq!(&out[0x7BCB8..0x12A157], &d[0x7BCA0..0x7BCA0 + 0xAE49F]);
    // z byte, sav header, md5 header
    assert_eq!(out[0x12A157], d[PS4_SIZE - 1]);
    assert_eq!(&out[0x12A158..0x12A1D8], &d[0x20..0xA0]);
    assert_eq!(&out[0x12A1D8..], &d[0..0x20]);
    assert_eq!(p.leftovers.as_deref(), Some(&d[PS4_SIZE - 1 - 0xC0..PS4_SIZE - 1]));
}

#[test]
fn pack_without_leftovers() {
    let d = ps4_save(false);
    let p = ps4_to_pcready(&d).unwrap();
    assert_eq!(p.leftovers, None);
    assert_eq!(p.data[13], 0x54);
}

#[test]
fn roundtrip_with_leftovers() {
    let d = ps4_save(true);
    let p = ps4_to_pcready(&d).unwrap();
    assert_eq!(auto_leftovers_request(&p.data), Some(0xC0));
    let back = convert_auto(&p.data, p.leftovers.as_deref()).unwrap();
    assert_eq!(back, d);
}

#[test]
fn roundtrip_without_leftovers() {
    let d = ps4_save(false);
    let p = ps4_to_pcready(&d).unwrap();
    assert_eq!(auto_leftovers_request(&p.data), None);
    let back = convert_auto(&p.data, None).unwrap();
    assert_eq!(back, d);
}

#[test]
fn repack_of_unpacked_file() {
    let d = ps4_save(true);
    let p = ps4_to_pcready(&d).unwrap();
    let back = convert_auto(&p.data, p.leftovers.as_deref()).unwrap();
    let again = ps4_to_pcready(&back).unwrap();
    assert_eq!(again.data, p.data);
}

#[test]
fn missing_leftovers_file_fills_zeros() {
    let d = ps4_save(true);
    let p = ps4_to_pcready(&d).unwrap();
    let back = convert_auto(&p.data, None).unwrap();
    assert_eq!(back.len(), PS4_SIZE);
    assert!(back[PS4_SIZE - 1 - 0xC0..PS4_SIZE - 1].iter().all(|&b| b == 0));
    assert_eq!(&back[..PS4_SIZE - 1 - 0xC0], &d[..PS4_SIZE - 1 - 0xC0]);
    assert_eq!(back[PS4_SIZE - 1], d[PS4_SIZE - 1]);
}

#[test]
fn short_leftovers_partly_restored() {
    let d = ps4_save(true);
    let p = ps4_to_pcready(&d).unwrap();
    let lf = p.leftovers.clone().unwrap();
    let back = pcready_to_ps4(&p.data, true, Some(&lf[..0x10])).unwrap();
    let start = PS4_SIZE - 1 - 0xC0;
    assert_eq!(&back[start..start + 0x10], &lf[..0x10]);
    assert!(back[start + 0x10..PS4_SIZE - 1].iter().all(|&b| b == 0));
}

#[test]
fn longer_leftovers_are_cut() {
    let d = ps4_save(true);
    let p = ps4_to_pcready(&d).unwrap();
    let mut lf = p.leftovers.clone().unwrap();
    lf.extend_from_slice(&[9, 9, 9]);
    assert_eq!(pcready_to_ps4(&p.data, true, Some(&lf)).unwrap(), d);
}

#[test]
fn leftovers_ignored_without_flag() {
    let d = ps4_save(true);
    let p = ps4_to_pcready(&d).unwrap();
    let lf = p.leftovers.clone().unwrap();
    assert_eq!(leftovers_request(&p.data, false), None);
    assert_eq!(leftovers_request(&p.data, true), Some(0xC0));
    let back = pcready_to_ps4(&p.data, false, Some(&lf)).unwrap();
    assert!(back[PS4_SIZE - 1 - 0xC0..PS4_SIZE - 1].iter().all(|&b| b == 0));
}

#[test]
fn pack_errors() {
    assert_eq!(ps4_to_pcready(&vec![0u8; 0xA5]).err(), Some(ConvertError::Ps4TooSmall));
    assert_eq!(ps4_to_pcready(&vec![0u8; 0xA9]).err(), Some(ConvertError::Ps4TooSmall));
    assert_eq!(ps4_to_pcready(&vec![0u8; 0x7BCA1]).err(), Some(ConvertError::HcdSectionEmpty));
    let mut d = ps4_save(true);
    d[0x21] = 0;
    assert_eq!(ps4_to_pcready(&d).err(), Some(ConvertError::PackedSanityFailed));
}

#[test]
fn short_ps4_input_is_padded() {
    let mut d = vec![1u8; 0x7BCA1 + 5];
    d[0x20..0x24].copy_from_slice(&SAV);
    let p = ps4_to_pcready(&d).unwrap();
    assert_eq!(p.data.len(), EDITOR_SIZE);
    assert_eq!(p.leftovers, None);
    assert_eq!(&p.data[0x7BCB8..0x7BCB8 + 5], &[1, 1, 1, 1, 1]);
    assert!(p.data[0x7BCB8 + 5..0x12A157].iter().all(|&b| b == 0));
}

#[test]
fn pack_then_check_in_two_steps() {
    let d = ps4_save(true);
    let p = pack_ps4(&d).unwrap();
    assert_eq!(check_packed(&p.data), Ok(()));
    assert_eq!(check_packed(&vec![0u8; 0x200]), Err(ConvertError::PackedSanityFailed));
    let mut short = vec![0u8; 0x200];
    short[0x160..0x164].copy_from_slice(&SAV);
    assert_eq!(check_packed(&short), Err(ConvertError::PackedSizeMismatch));
}

#[test]
fn unpack_errors() {
    assert_eq!(
        pcready_to_ps4(&vec![0u8; 100], false, None),
        Err(ConvertError::EditorSizeMismatch { got: 100 })
    );
    assert_eq!(pcready_to_ps4(&vec![0u8; EDITOR_SIZE], false, None), Err(ConvertError::UnpackSavMissing));
    let d = ps4_save(true);
    let mut p = ps4_to_pcready(&d).unwrap().data;
    p[1] = 0;
    assert_eq!(pcready_to_ps4(&p, false, None), Err(ConvertError::UnpackNoSavAtA0));
}

#[test]
fn auto_errors() {
    assert_eq!(convert_auto(&vec![0u8; 64], None), Err(ConvertError::MarkerNotRecognized));
    let d = ps4_save(true);
    let mut p = ps4_to_pcready(&d).unwrap().data;
    p.push(0);
    assert_eq!(convert_auto(&p, None), Err(ConvertError::MarkerLayoutMismatch));
    assert_eq!(auto_leftovers_request(&p), None);
}

#[test]
fn plans() {
    let d = ps4_save(true);
    assert_eq!(plan_conversion(Mode::Auto, &d), Plan::Pack);
    assert_eq!(plan_conversion(Mode::Ps4ToPc, &d), Plan::Pack);
    assert_eq!(plan_conversion(Mode::PcToPs4, &d), Plan::RefuseUnpackNoMarker);
    let short = &d[..0x1000];
    assert_eq!(plan_conversion(Mode::Auto, short), Plan::RefusePackSize { got: 0x1000 });
    let p = ps4_to_pcready(&d).unwrap().data;
    assert_eq!(plan_conversion(Mode::Auto, &p), Plan::Unpack);
    assert_eq!(plan_conversion(Mode::Ps4ToPc, &p), Plan::RefusePackNoMagic);
    assert_eq!(plan_conversion(Mode::PcToPs4, &p), Plan::Unpack);
    assert_eq!(plan_conversion(Mode::Auto, &[0u8; 8]), Plan::Unknown);
}
