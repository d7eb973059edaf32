use wav1d::utils::bits::BitsReader;
use wav1d::utils::enums::{
    ChromaSamplePosition, ColorPrimaries, FrameRestorationType, FrameType, Interpolationfilter,
    MVClass, MVJoint, MaskType, ObuType, Partition, SignUV, SubSize, TxSize,
};

#[test]
fn obu_type_codes() {
    assert_eq!(ObuType::from_code(1), ObuType::SequenceHeader);
    assert_eq!(ObuType::from_code(2), ObuType::TemporalDelimiter);
    assert_eq!(ObuType::from_code(9), ObuType::Padding);
    assert_eq!(ObuType::from_code(0), ObuType::Unknown);
    assert_eq!(ObuType::from_code(10), ObuType::Unknown);
    assert_eq!(ObuType::from_code(255), ObuType::Unknown);
}

#[test]
fn obu_type_names() {
    assert_eq!(ObuType::from_code(1).name(), "SequenceHeader");
    assert_eq!(ObuType::from_code(6).name(), "Frame");
    assert_eq!(ObuType::from_code(42).name(), "Unknown");
}

#[test]
fn frame_type_codes() {
    assert_eq!(FrameType::from_code(0), FrameType::Key);
    assert_eq!(FrameType::from_code(3), FrameType::Switch);
    assert_eq!(FrameType::from_code(4), FrameType::Unknown);
}

#[test]
fn color_codes_with_gaps() {
    assert_eq!(ColorPrimaries::from_code(1), ColorPrimaries::Bt709);
    assert_eq!(ColorPrimaries::from_code(3), ColorPrimaries::Unknown);
    assert_eq!(ColorPrimaries::from_code(22), ColorPrimaries::Ebu3213);
    assert_eq!(ColorPrimaries::from_code(13), ColorPrimaries::Unknown);
}

#[test]
fn chroma_sample_position_fallback_is_reserved() {
    assert_eq!(ChromaSamplePosition::from_code(0), ChromaSamplePosition::Unknown);
    assert_eq!(ChromaSamplePosition::from_code(2), ChromaSamplePosition::CoLocated);
    assert_eq!(ChromaSamplePosition::from_code(3), ChromaSamplePosition::Reserved);
    assert_eq!(ChromaSamplePosition::from_code(7), ChromaSamplePosition::Reserved);
}

#[test]
fn restoration_codes_and_lr_order() {
    assert_eq!(FrameRestorationType::from_code(1), FrameRestorationType::Wiener);
    assert_eq!(FrameRestorationType::from_code(3), FrameRestorationType::Switchable);
    // the loop-restoration field orders the catalogue differently
    assert_eq!(FrameRestorationType::from_lr_type(1), FrameRestorationType::Switchable);
    assert_eq!(FrameRestorationType::from_lr_type(2), FrameRestorationType::Wiener);
    assert_eq!(FrameRestorationType::from_lr_type(3), FrameRestorationType::Sgrproj);
    assert_eq!(FrameRestorationType::from_lr_type(9), FrameRestorationType::Unknown);
}

#[test]
fn block_and_transform_codes() {
    assert_eq!(Partition::from_code(3), Partition::Split);
    assert_eq!(Partition::from_code(10), Partition::Unknown);
    assert_eq!(SubSize::from_code(21), SubSize::Block64X16);
    assert_eq!(SubSize::from_code(22), SubSize::Unknown);
    assert_eq!(TxSize::from_code(0), TxSize::Tx4X4);
    assert_eq!(TxSize::from_code(18), TxSize::Tx64X16);
    assert_eq!(TxSize::from_code(19), TxSize::Unknown);
    assert_eq!(MVClass::from_code(10), MVClass::Class10);
    assert_eq!(MVClass::from_code(11), MVClass::Unknown);
    assert_eq!(MaskType::from_code(2), MaskType::Unknown);
}

#[test]
fn mv_joint_components() {
    assert_eq!(MVJoint::from_code(0).changes_row_and_col(), Some((false, false)));
    assert_eq!(MVJoint::from_code(1).changes_row_and_col(), Some((false, true)));
    assert_eq!(MVJoint::from_code(2).changes_row_and_col(), Some((true, false)));
    assert_eq!(MVJoint::from_code(3).changes_row_and_col(), Some((true, true)));
    assert_eq!(MVJoint::from_code(9).changes_row_and_col(), None);
}

#[test]
fn cfl_alpha_sign_pairs() {
    assert_eq!(SignUV::from_cfl_alpha_signs(0), (SignUV::Zero, SignUV::Neg));
    assert_eq!(SignUV::from_cfl_alpha_signs(1), (SignUV::Zero, SignUV::Pos));
    assert_eq!(SignUV::from_cfl_alpha_signs(2), (SignUV::Neg, SignUV::Zero));
    assert_eq!(SignUV::from_cfl_alpha_signs(3), (SignUV::Neg, SignUV::Neg));
    assert_eq!(SignUV::from_cfl_alpha_signs(4), (SignUV::Neg, SignUV::Pos));
    assert_eq!(SignUV::from_cfl_alpha_signs(5), (SignUV::Pos, SignUV::Zero));
    assert_eq!(SignUV::from_cfl_alpha_signs(6), (SignUV::Pos, SignUV::Neg));
    assert_eq!(SignUV::from_cfl_alpha_signs(7), (SignUV::Pos, SignUV::Pos));
    assert_eq!(SignUV::from_cfl_alpha_signs(8), (SignUV::Unknown, SignUV::Unknown));
}

#[test]
fn interpolation_filter_from_cursor() {
    // a leading one bit selects the switchable filter outright
    let a = [0b10000000];
    let mut r = BitsReader::new(a.as_slice());
    assert_eq!(
        Interpolationfilter::read_from(&mut r).unwrap(),
        Interpolationfilter::Switchable
    );
    assert_eq!(r.read_position(), 1);

    // a leading zero bit is followed by the two-bit filter code
    let a = [0b00100000];
    let mut r = BitsReader::new(a.as_slice());
    assert_eq!(
        Interpolationfilter::read_from(&mut r).unwrap(),
        Interpolationfilter::EightTapSmooth
    );
    assert_eq!(r.read_position(), 3);

    let a = [0b01100000];
    let mut r = BitsReader::new(a.as_slice());
    assert_eq!(
        Interpolationfilter::read_from(&mut r).unwrap(),
        Interpolationfilter::BiLinear
    );
}
