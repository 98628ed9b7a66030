use parity_scale_codec::Encode;
use staging_xcm::v3::{Instruction, Xcm};
use staging_xcm::VersionedXcm;
use xcm_activities::message_id;
use xcm_activities::xcmp_format::{
    decode_xcmp_format, split_versioned_xcms, versioned_xcm_decodes, xcmp_message_fragments,
    Fragment, XcmpMessageFormat,
};

fn frag(start: usize, end: usize, decoded: bool) -> Fragment {
    Fragment { start, end, decoded }
}

fn nested_appendix(depth: usize) -> Vec<u8> {
    let mut xcm: Xcm<()> = Xcm(vec![Instruction::ClearOrigin]);
    for _ in 0..depth {
        xcm = Xcm(vec![Instruction::SetAppendix(xcm)]);
    }
    VersionedXcm::<()>::V3(xcm).encode()
}

fn clear_origin_v3() -> Vec<u8> {
    VersionedXcm::<()>::V3(Xcm(vec![Instruction::ClearOrigin])).encode()
}

#[test]
fn format_tag_is_the_variant_index() {
    assert_eq!(decode_xcmp_format(&[]), None);
    assert_eq!(decode_xcmp_format(&[0]), Some(XcmpMessageFormat::ConcatenatedVersionedXcm));
    assert_eq!(decode_xcmp_format(&[1, 7]), Some(XcmpMessageFormat::ConcatenatedEncodedBlob));
    assert_eq!(decode_xcmp_format(&[2]), Some(XcmpMessageFormat::Signals));
    assert_eq!(decode_xcmp_format(&[3]), None);
    assert_eq!(decode_xcmp_format(&[255, 0]), None);
}

#[test]
fn encoded_clear_origin_has_expected_bytes() {
    // version index 3, one instruction (compact 1), ClearOrigin (index 10)
    assert_eq!(clear_origin_v3(), vec![3u8, 4, 10]);
}

#[test]
fn versioned_xcm_decoding_is_checked() {
    assert!(versioned_xcm_decodes(&[3, 0]));
    assert!(versioned_xcm_decodes(&[2, 0]));
    assert!(versioned_xcm_decodes(&[3, 4, 10, 99, 99]));
    assert!(!versioned_xcm_decodes(&[]));
    assert!(!versioned_xcm_decodes(&[3]));
    assert!(!versioned_xcm_decodes(&[4, 0]));
    assert!(!versioned_xcm_decodes(&[3, 4]));
}

#[test]
fn fragments_follow_each_other() {
    let mut data = vec![0u8];
    data.extend(clear_origin_v3());
    data.extend(vec![2u8, 0]);
    data.extend(clear_origin_v3());
    assert_eq!(
        xcmp_message_fragments(&data),
        vec![frag(1, 4, true), frag(4, 6, true), frag(6, 9, true)]
    );
}

#[test]
fn empty_payload_has_no_fragments() {
    assert_eq!(xcmp_message_fragments(&[0]), vec![]);
    assert_eq!(xcmp_message_fragments(&[2]), vec![]);
}

#[test]
fn bad_bytes_are_skipped_where_the_decoder_stopped() {
    assert_eq!(xcmp_message_fragments(&[0, 3, 0, 9]), vec![frag(1, 3, true), frag(3, 4, false)]);
    assert_eq!(xcmp_message_fragments(&[1, 3, 4]), vec![frag(1, 3, false)]);
    assert_eq!(xcmp_message_fragments(&[0, 4, 0, 3, 0]), vec![frag(1, 2, false), frag(2, 3, false), frag(3, 5, true)]);
}

#[test]
fn deep_nesting_decodes_and_frames_as_one_message() {
    assert!(versioned_xcm_decodes(&nested_appendix(2)));
    let deep = nested_appendix(20);
    assert!(versioned_xcm_decodes(&deep));
    let mut data = vec![0u8];
    data.extend(deep.clone());
    data.extend(clear_origin_v3());
    assert_eq!(
        xcmp_message_fragments(&data),
        vec![frag(1, 1 + deep.len(), true), frag(1 + deep.len(), data.len(), true)]
    );
}

#[test]
fn split_from_an_offset() {
    let data = vec![9u8, 9, 3, 0, 3, 4, 10];
    assert_eq!(split_versioned_xcms(&data, 2), vec![frag(2, 4, true), frag(4, 7, true)]);
    assert_eq!(split_versioned_xcms(&data, 7), vec![]);
    assert_eq!(split_versioned_xcms(&data, 0), vec![frag(0, 1, false), frag(1, 2, false), frag(2, 4, true), frag(4, 7, true)]);
}

#[test]
fn message_id_is_blake2_256() {
    let empty = message_id(&[]);
    assert_eq!(
        empty,
        [
            0x0e, 0x57, 0x51, 0xc0, 0x26, 0xe5, 0x43, 0xb2, 0xe8, 0xab, 0x2e, 0xb0, 0x60, 0x99,
            0xda, 0xa1, 0xd1, 0xe5, 0xdf, 0x47, 0x77, 0x8f, 0x77, 0x87, 0xfa, 0xab, 0x45, 0xcd,
            0xf1, 0x2f, 0xe3, 0xa8
        ]
    );
    assert_ne!(message_id(&[1]), empty);
    assert_eq!(message_id(&[1, 2, 3]), message_id(&[1, 2, 3]));
}
