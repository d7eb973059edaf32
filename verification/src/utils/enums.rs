//! The semantic enumerations: closed sets of named categories for the small
//! integers the format decodes, each with an explicit fallback variant so
//! that out-of-catalogue codes stay representable.

use vstd::prelude::*;

use crate::utils::bits::{bit_at, bits_value, BitsReader, FromBitsReader, ReadError};

verus! {

/// Categories of open bitstream units, named by their 4-bit type code.
#[derive(Debug, Clone, Copy, PartialEq, Eq, Structural)]
pub enum ObuType {
    SequenceHeader,
    TemporalDelimiter,
    FrameHeader,
    TileGroup,
    Metadata,
    Frame,
    RedundantFrameHeader,
    TileList,
    Padding,
    Unknown,
}

impl ObuType {
    /// The category a code names; codes outside the catalogue fall back
    /// to `ObuType::Unknown`.
    pub open spec fn spec_from(value: u8) -> ObuType {
        match value {
            1 => ObuType::SequenceHeader,
            2 => ObuType::TemporalDelimiter,
            3 => ObuType::FrameHeader,
            4 => ObuType::TileGroup,
            5 => ObuType::Metadata,
            6 => ObuType::Frame,
            7 => ObuType::RedundantFrameHeader,
            8 => ObuType::TileList,
            9 => ObuType::Padding,
            _ => ObuType::Unknown,
        }
    }

    /// Map a decoded code to its named category.
    pub fn from_code(value: u8) -> (r: ObuType)
        ensures
            r == ObuType::spec_from(value),
    {
        match value {
            1 => ObuType::SequenceHeader,
            2 => ObuType::TemporalDelimiter,
            3 => ObuType::FrameHeader,
            4 => ObuType::TileGroup,
            5 => ObuType::Metadata,
            6 => ObuType::Frame,
            7 => ObuType::RedundantFrameHeader,
            8 => ObuType::TileList,
            9 => ObuType::Padding,
            _ => ObuType::Unknown,
        }
    }

    /// The category's name, for display by callers.
    pub fn name(&self) -> (r: &'static str)
        ensures
            r@ == (match *self {
                ObuType::SequenceHeader => "SequenceHeader"@,
                ObuType::TemporalDelimiter => "TemporalDelimiter"@,
                ObuType::FrameHeader => "FrameHeader"@,
                ObuType::TileGroup => "TileGroup"@,
                ObuType::Metadata => "Metadata"@,
                ObuType::Frame => "Frame"@,
                ObuType::RedundantFrameHeader => "RedundantFrameHeader"@,
                ObuType::TileList => "TileList"@,
                ObuType::Padding => "Padding"@,
                ObuType::Unknown => "Unknown"@,
            }),
    {
        match self {
            ObuType::SequenceHeader => "SequenceHeader",
            ObuType::TemporalDelimiter => "TemporalDelimiter",
            ObuType::FrameHeader => "FrameHeader",
            ObuType::TileGroup => "TileGroup",
            ObuType::Metadata => "Metadata",
            ObuType::Frame => "Frame",
            ObuType::RedundantFrameHeader => "RedundantFrameHeader",
            ObuType::TileList => "TileList",
            ObuType::Padding => "Padding",
            ObuType::Unknown => "Unknown",
        }
    }
}

/// How a frame is predicted.
#[derive(Debug, Clone, Copy, PartialEq, Eq, Structural)]
pub enum FrameType {
    Key,
    Inter,
    Intra,
    Switch,
    Unknown,
}

impl FrameType {
    /// The category a code names; codes outside the catalogue fall back
    /// to `FrameType::Unknown`.
    pub open spec fn spec_from(value: u8) -> FrameType {
        match value {
            0 => FrameType::Key,
            1 => FrameType::Inter,
            2 => FrameType::Intra,
            3 => FrameType::Switch,
            _ => FrameType::Unknown,
        }
    }

    /// Map a decoded code to its named category.
    pub fn from_code(value: u8) -> (r: FrameType)
        ensures
            r == FrameType::spec_from(value),
    {
        match value {
            0 => FrameType::Key,
            1 => FrameType::Inter,
            2 => FrameType::Intra,
            3 => FrameType::Switch,
            _ => FrameType::Unknown,
        }
    }
}

/// Preset scalability structures for layered streams.
#[derive(Debug, Clone, Copy, PartialEq, Eq, Structural)]
pub enum ScalabilityModeIdc {
    L1T2,
    L1T3,
    L2T1,
    L2T2,
    L2T3,
    S2T1,
    S2T2,
    S2T3,
    L2T1h,
    L2T2h,
    L2T3h,
    S2T1h,
    S2T2h,
    S2T3h,
    SS,
    L3T1,
    L3T2,
    L3T3,
    S3T1,
    S3T2,
    S3T3,
    L3T2Key,
    L3T3Key,
    L4T5Key,
    L4T7Key,
    L3T2KeyShift,
    L3T3KeyShift,
    L4T5KeyShift,
    L4T7KeyShift,
    Unknown,
}

impl ScalabilityModeIdc {
    /// The category a code names; codes outside the catalogue fall back
    /// to `ScalabilityModeIdc::Unknown`.
    pub open spec fn spec_from(value: u8) -> ScalabilityModeIdc {
        match value {
            0 => ScalabilityModeIdc::L1T2,
            1 => ScalabilityModeIdc::L1T3,
            2 => ScalabilityModeIdc::L2T1,
            3 => ScalabilityModeIdc::L2T2,
            4 => ScalabilityModeIdc::L2T3,
            5 => ScalabilityModeIdc::S2T1,
            6 => ScalabilityModeIdc::S2T2,
            7 => ScalabilityModeIdc::S2T3,
            8 => ScalabilityModeIdc::L2T1h,
            9 => ScalabilityModeIdc::L2T2h,
            10 => ScalabilityModeIdc::L2T3h,
            11 => ScalabilityModeIdc::S2T1h,
            12 => ScalabilityModeIdc::S2T2h,
            13 => ScalabilityModeIdc::S2T3h,
            14 => ScalabilityModeIdc::SS,
            15 => ScalabilityModeIdc::L3T1,
            16 => ScalabilityModeIdc::L3T2,
            17 => ScalabilityModeIdc::L3T3,
            18 => ScalabilityModeIdc::S3T1,
            19 => ScalabilityModeIdc::S3T2,
            20 => ScalabilityModeIdc::S3T3,
            21 => ScalabilityModeIdc::L3T2Key,
            22 => ScalabilityModeIdc::L3T3Key,
            23 => ScalabilityModeIdc::L4T5Key,
            24 => ScalabilityModeIdc::L4T7Key,
            25 => ScalabilityModeIdc::L3T2KeyShift,
            26 => ScalabilityModeIdc::L3T3KeyShift,
            27 => ScalabilityModeIdc::L4T5KeyShift,
            28 => ScalabilityModeIdc::L4T7KeyShift,
            _ => ScalabilityModeIdc::Unknown,
        }
    }

    /// Map a decoded code to its named category.
    pub fn from_code(value: u8) -> (r: ScalabilityModeIdc)
        ensures
            r == ScalabilityModeIdc::spec_from(value),
    {
        match value {
            0 => ScalabilityModeIdc::L1T2,
            1 => ScalabilityModeIdc::L1T3,
            2 => ScalabilityModeIdc::L2T1,
            3 => ScalabilityModeIdc::L2T2,
            4 => ScalabilityModeIdc::L2T3,
            5 => ScalabilityModeIdc::S2T1,
            6 => ScalabilityModeIdc::S2T2,
            7 => ScalabilityModeIdc::S2T3,
            8 => ScalabilityModeIdc::L2T1h,
            9 => ScalabilityModeIdc::L2T2h,
            10 => ScalabilityModeIdc::L2T3h,
            11 => ScalabilityModeIdc::S2T1h,
            12 => ScalabilityModeIdc::S2T2h,
            13 => ScalabilityModeIdc::S2T3h,
            14 => ScalabilityModeIdc::SS,
            15 => ScalabilityModeIdc::L3T1,
            16 => ScalabilityModeIdc::L3T2,
            17 => ScalabilityModeIdc::L3T3,
            18 => ScalabilityModeIdc::S3T1,
            19 => ScalabilityModeIdc::S3T2,
            20 => ScalabilityModeIdc::S3T3,
            21 => ScalabilityModeIdc::L3T2Key,
            22 => ScalabilityModeIdc::L3T3Key,
            23 => ScalabilityModeIdc::L4T5Key,
            24 => ScalabilityModeIdc::L4T7Key,
            25 => ScalabilityModeIdc::L3T2KeyShift,
            26 => ScalabilityModeIdc::L3T3KeyShift,
            27 => ScalabilityModeIdc::L4T5KeyShift,
            28 => ScalabilityModeIdc::L4T7KeyShift,
            _ => ScalabilityModeIdc::Unknown,
        }
    }
}

/// Chromaticity coordinates of the source color primaries.
#[derive(Debug, Clone, Copy, PartialEq, Eq, Structural)]
pub enum ColorPrimaries {
    Bt709,
    Unspecified,
    Bt470M,
    Bt470BG,
    Bt601,
    Smpte240,
    GenericFilm,
    Bt2020,
    XYZ,
    Smpte431,
    Smpte432,
    Ebu3213,
    Unknown,
}

impl ColorPrimaries {
    /// The category a code names; codes outside the catalogue fall back
    /// to `ColorPrimaries::Unknown`.
    pub open spec fn spec_from(value: u8) -> ColorPrimaries {
        match value {
            1 => ColorPrimaries::Bt709,
            2 => ColorPrimaries::Unspecified,
            4 => ColorPrimaries::Bt470M,
            5 => ColorPrimaries::Bt470BG,
            6 => ColorPrimaries::Bt601,
            7 => ColorPrimaries::Smpte240,
            8 => ColorPrimaries::GenericFilm,
            9 => ColorPrimaries::Bt2020,
            10 => ColorPrimaries::XYZ,
            11 => ColorPrimaries::Smpte431,
            12 => ColorPrimaries::Smpte432,
            22 => ColorPrimaries::Ebu3213,
            _ => ColorPrimaries::Unknown,
        }
    }

    /// Map a decoded code to its named category.
    pub fn from_code(value: u8) -> (r: ColorPrimaries)
        ensures
            r == ColorPrimaries::spec_from(value),
    {
        match value {
            1 => ColorPrimaries::Bt709,
            2 => ColorPrimaries::Unspecified,
            4 => ColorPrimaries::Bt470M,
            5 => ColorPrimaries::Bt470BG,
            6 => ColorPrimaries::Bt601,
            7 => ColorPrimaries::Smpte240,
            8 => ColorPrimaries::GenericFilm,
            9 => ColorPrimaries::Bt2020,
            10 => ColorPrimaries::XYZ,
            11 => ColorPrimaries::Smpte431,
            12 => ColorPrimaries::Smpte432,
            22 => ColorPrimaries::Ebu3213,
            _ => ColorPrimaries::Unknown,
        }
    }
}

/// Opto-electronic transfer characteristic of the source.
#[derive(Debug, Clone, Copy, PartialEq, Eq, Structural)]
pub enum TransferCharacteristics {
    Reserved0,
    Bt709,
    Unspecified,
    Reserved3,
    Bt470M,
    Bt470BG,
    Bt601,
    Smpte240,
    Linear,
    Log100,
    Log100Sqrt10,
    Iec61966,
    Bt1361,
    Srgb,
    Bt2020_10Bit,
    Bt2020_12Bit,
    Smpte2084,
    Smpte428,
    Hlg,
    Unknown,
}

impl TransferCharacteristics {
    /// The category a code names; codes outside the catalogue fall back
    /// to `TransferCharacteristics::Unknown`.
    pub open spec fn spec_from(value: u8) -> TransferCharacteristics {
        match value {
            0 => TransferCharacteristics::Reserved0,
            1 => TransferCharacteristics::Bt709,
            2 => TransferCharacteristics::Unspecified,
            3 => TransferCharacteristics::Reserved3,
            4 => TransferCharacteristics::Bt470M,
            5 => TransferCharacteristics::Bt470BG,
            6 => TransferCharacteristics::Bt601,
            7 => TransferCharacteristics::Smpte240,
            8 => TransferCharacteristics::Linear,
            9 => TransferCharacteristics::Log100,
            10 => TransferCharacteristics::Log100Sqrt10,
            11 => TransferCharacteristics::Iec61966,
            12 => TransferCharacteristics::Bt1361,
            13 => TransferCharacteristics::Srgb,
            14 => TransferCharacteristics::Bt2020_10Bit,
            15 => TransferCharacteristics::Bt2020_12Bit,
            16 => TransferCharacteristics::Smpte2084,
            17 => TransferCharacteristics::Smpte428,
            18 => TransferCharacteristics::Hlg,
            _ => TransferCharacteristics::Unknown,
        }
    }

    /// Map a decoded code to its named category.
    pub fn from_code(value: u8) -> (r: TransferCharacteristics)
        ensures
            r == TransferCharacteristics::spec_from(value),
    {
        match value {
            0 => TransferCharacteristics::Reserved0,
            1 => TransferCharacteristics::Bt709,
            2 => TransferCharacteristics::Unspecified,
            3 => TransferCharacteristics::Reserved3,
            4 => TransferCharacteristics::Bt470M,
            5 => TransferCharacteristics::Bt470BG,
            6 => TransferCharacteristics::Bt601,
            7 => TransferCharacteristics::Smpte240,
            8 => TransferCharacteristics::Linear,
            9 => TransferCharacteristics::Log100,
            10 => TransferCharacteristics::Log100Sqrt10,
            11 => TransferCharacteristics::Iec61966,
            12 => TransferCharacteristics::Bt1361,
            13 => TransferCharacteristics::Srgb,
            14 => TransferCharacteristics::Bt2020_10Bit,
            15 => TransferCharacteristics::Bt2020_12Bit,
            16 => TransferCharacteristics::Smpte2084,
            17 => TransferCharacteristics::Smpte428,
            18 => TransferCharacteristics::Hlg,
            _ => TransferCharacteristics::Unknown,
        }
    }
}

/// Matrix coefficients used to derive luma and chroma.
#[derive(Debug, Clone, Copy, PartialEq, Eq, Structural)]
pub enum MatrixCoefficients {
    Identity,
    Bt709,
    Unspecified,
    Reserved3,
    FCC,
    Bt470BG,
    Bt601,
    Smpte240,
    SmpteYCgCo,
    Bt2020Ncl,
    Bt2020Cl,
    Smpte2085,
    ChromatNcl,
    ChromatCl,
    ICTCP,
    Unknown,
}

impl MatrixCoefficients {
    /// The category a code names; codes outside the catalogue fall back
    /// to `MatrixCoefficients::Unknown`.
    pub open spec fn spec_from(value: u8) -> MatrixCoefficients {
        match value {
            0 => MatrixCoefficients::Identity,
            1 => MatrixCoefficients::Bt709,
            2 => MatrixCoefficients::Unspecified,
            3 => MatrixCoefficients::Reserved3,
            4 => MatrixCoefficients::FCC,
            5 => MatrixCoefficients::Bt470BG,
            6 => MatrixCoefficients::Bt601,
            7 => MatrixCoefficients::Smpte240,
            8 => MatrixCoefficients::SmpteYCgCo,
            9 => MatrixCoefficients::Bt2020Ncl,
            10 => MatrixCoefficients::Bt2020Cl,
            11 => MatrixCoefficients::Smpte2085,
            12 => MatrixCoefficients::ChromatNcl,
            13 => MatrixCoefficients::ChromatCl,
            14 => MatrixCoefficients::ICTCP,
            _ => MatrixCoefficients::Unknown,
        }
    }

    /// Map a decoded code to its named category.
    pub fn from_code(value: u8) -> (r: MatrixCoefficients)
        ensures
            r == MatrixCoefficients::spec_from(value),
    {
        match value {
            0 => MatrixCoefficients::Identity,
            1 => MatrixCoefficients::Bt709,
            2 => MatrixCoefficients::Unspecified,
            3 => MatrixCoefficients::Reserved3,
            4 => MatrixCoefficients::FCC,
            5 => MatrixCoefficients::Bt470BG,
            6 => MatrixCoefficients::Bt601,
            7 => MatrixCoefficients::Smpte240,
            8 => MatrixCoefficients::SmpteYCgCo,
            9 => MatrixCoefficients::Bt2020Ncl,
            10 => MatrixCoefficients::Bt2020Cl,
            11 => MatrixCoefficients::Smpte2085,
            12 => MatrixCoefficients::ChromatNcl,
            13 => MatrixCoefficients::ChromatCl,
            14 => MatrixCoefficients::ICTCP,
            _ => MatrixCoefficients::Unknown,
        }
    }
}

/// Position of chroma samples relative to luma samples.
#[derive(Debug, Clone, Copy, PartialEq, Eq, Structural)]
pub enum ChromaSamplePosition {
    Unknown,
    Vertical,
    CoLocated,
    Reserved,
}

impl ChromaSamplePosition {
    /// The category a code names; codes outside the catalogue fall back
    /// to `ChromaSamplePosition::Reserved`.
    pub open spec fn spec_from(value: u8) -> ChromaSamplePosition {
        match value {
            0 => ChromaSamplePosition::Unknown,
            1 => ChromaSamplePosition::Vertical,
            2 => ChromaSamplePosition::CoLocated,
            _ => ChromaSamplePosition::Reserved,
        }
    }

    /// Map a decoded code to its named category.
    pub fn from_code(value: u8) -> (r: ChromaSamplePosition)
        ensures
            r == ChromaSamplePosition::spec_from(value),
    {
        match value {
            0 => ChromaSamplePosition::Unknown,
            1 => ChromaSamplePosition::Vertical,
            2 => ChromaSamplePosition::CoLocated,
            _ => ChromaSamplePosition::Reserved,
        }
    }
}

/// Loop restoration filter applied to a frame plane.
#[derive(Debug, Clone, Copy, PartialEq, Eq, Structural)]
pub enum FrameRestorationType {
    NoRestoration,
    Wiener,
    Sgrproj,
    Switchable,
    Unknown,
}

impl FrameRestorationType {
    /// The category a code names; codes outside the catalogue fall back
    /// to `FrameRestorationType::Unknown`.
    pub open spec fn spec_from(value: u8) -> FrameRestorationType {
        match value {
            0 => FrameRestorationType::NoRestoration,
            1 => FrameRestorationType::Wiener,
            2 => FrameRestorationType::Sgrproj,
            3 => FrameRestorationType::Switchable,
            _ => FrameRestorationType::Unknown,
        }
    }

    /// Map a decoded code to its named category.
    pub fn from_code(value: u8) -> (r: FrameRestorationType)
        ensures
            r == FrameRestorationType::spec_from(value),
    {
        match value {
            0 => FrameRestorationType::NoRestoration,
            1 => FrameRestorationType::Wiener,
            2 => FrameRestorationType::Sgrproj,
            3 => FrameRestorationType::Switchable,
            _ => FrameRestorationType::Unknown,
        }
    }

    /// The restoration type named by the coded loop-restoration value, whose
    /// catalogue orders the types differently than the type codes do.
    pub fn from_lr_type(value: u8) -> (r: FrameRestorationType)
        ensures
            r == (match value {
                0u8 => FrameRestorationType::NoRestoration,
                1u8 => FrameRestorationType::Switchable,
                2u8 => FrameRestorationType::Wiener,
                3u8 => FrameRestorationType::Sgrproj,
                _ => FrameRestorationType::Unknown,
            }),
    {
        match value {
            0 => FrameRestorationType::NoRestoration,
            1 => FrameRestorationType::Switchable,
            2 => FrameRestorationType::Wiener,
            3 => FrameRestorationType::Sgrproj,
            _ => FrameRestorationType::Unknown,
        }
    }
}

/// Subpel interpolation filter used for motion compensation.
#[derive(Debug, Clone, Copy, PartialEq, Eq, Structural)]
pub enum Interpolationfilter {
    EightTap,
    EightTapSmooth,
    EIGHTTAPSharp,
    BiLinear,
    Switchable,
    Unknown,
}

impl Interpolationfilter {
    /// The category a code names; codes outside the catalogue fall back
    /// to `Interpolationfilter::Unknown`.
    pub open spec fn spec_from(value: u8) -> Interpolationfilter {
        match value {
            0 => Interpolationfilter::EightTap,
            1 => Interpolationfilter::EightTapSmooth,
            2 => Interpolationfilter::EIGHTTAPSharp,
            3 => Interpolationfilter::BiLinear,
            4 => Interpolationfilter::Switchable,
            _ => Interpolationfilter::Unknown,
        }
    }

    /// Map a decoded code to its named category.
    pub fn from_code(value: u8) -> (r: Interpolationfilter)
        ensures
            r == Interpolationfilter::spec_from(value),
    {
        match value {
            0 => Interpolationfilter::EightTap,
            1 => Interpolationfilter::EightTapSmooth,
            2 => Interpolationfilter::EIGHTTAPSharp,
            3 => Interpolationfilter::BiLinear,
            4 => Interpolationfilter::Switchable,
            _ => Interpolationfilter::Unknown,
        }
    }
}

impl Interpolationfilter {
    /// Read the filter choice from the cursor: one bit selects `Switchable`
    /// outright, otherwise the next two bits carry the filter's code.
    pub fn read_from(reader: &mut BitsReader<'_>) -> (r: Result<Interpolationfilter, ReadError>)
        requires
            old(reader).wf(),
        ensures
            final(reader).wf(),
            final(reader).bytes() == old(reader).bytes(),
            final(reader).limit() == old(reader).limit(),
            final(reader).position() >= old(reader).position(),
            ({
                let d = old(reader).bytes();
                let s = old(reader).position();
                if bit_at(d, s) {
                    (r is Ok <==> s + 1 <= old(reader).limit()) && (r matches Ok(f) ==> f
                        == Interpolationfilter::Switchable && final(reader).position() == s + 1)
                } else {
                    (r is Ok <==> s + 3 <= old(reader).limit()) && (r matches Ok(f) ==> f
                        == Interpolationfilter::spec_from(bits_value(d, s + 1, 2) as u8)
                        && final(reader).position() == s + 3)
                }
            }),
    {
        let is_filter_switchable = reader.read_bit()?;
        if is_filter_switchable {
            Ok(Interpolationfilter::Switchable)
        } else {
            let code = reader.read_u8(2)?;
            Ok(Interpolationfilter::from_code(code))
        }
    }
}

impl FromBitsReader for Interpolationfilter {
    fn from_bits_reader(reader: &mut BitsReader<'_>) -> (r: Result<Interpolationfilter, ReadError>) {
        Interpolationfilter::read_from(reader)
    }
}

/// How a block is split into smaller blocks.
#[derive(Debug, Clone, Copy, PartialEq, Eq, Structural)]
pub enum Partition {
    NoSplit,
    Horz,
    Vert,
    Split,
    HorzA,
    HorzB,
    VertA,
    VertB,
    Horz4,
    Vert4,
    Unknown,
}

impl Partition {
    /// The category a code names; codes outside the catalogue fall back
    /// to `Partition::Unknown`.
    pub open spec fn spec_from(value: u8) -> Partition {
        match value {
            0 => Partition::NoSplit,
            1 => Partition::Horz,
            2 => Partition::Vert,
            3 => Partition::Split,
            4 => Partition::HorzA,
            5 => Partition::HorzB,
            6 => Partition::VertA,
            7 => Partition::VertB,
            8 => Partition::Horz4,
            9 => Partition::Vert4,
            _ => Partition::Unknown,
        }
    }

    /// Map a decoded code to its named category.
    pub fn from_code(value: u8) -> (r: Partition)
        ensures
            r == Partition::spec_from(value),
    {
        match value {
            0 => Partition::NoSplit,
            1 => Partition::Horz,
            2 => Partition::Vert,
            3 => Partition::Split,
            4 => Partition::HorzA,
            5 => Partition::HorzB,
            6 => Partition::VertA,
            7 => Partition::VertB,
            8 => Partition::Horz4,
            9 => Partition::Vert4,
            _ => Partition::Unknown,
        }
    }
}

/// Block sizes, in luma samples.
#[derive(Debug, Clone, Copy, PartialEq, Eq, Structural)]
pub enum SubSize {
    Block4X4,
    Block4X8,
    Block8X4,
    Block8X8,
    Block8X16,
    Block16X8,
    Block16X16,
    Block16X32,
    Block32X16,
    Block32X32,
    Block32X64,
    Block64X32,
    Block64X64,
    Block64X128,
    Block128X64,
    Block128X128,
    Block4X16,
    Block16X4,
    Block8X32,
    Block32X8,
    Block16X64,
    Block64X16,
    Unknown,
}

impl SubSize {
    /// The category a code names; codes outside the catalogue fall back
    /// to `SubSize::Unknown`.
    pub open spec fn spec_from(value: u8) -> SubSize {
        match value {
            0 => SubSize::Block4X4,
            1 => SubSize::Block4X8,
            2 => SubSize::Block8X4,
            3 => SubSize::Block8X8,
            4 => SubSize::Block8X16,
            5 => SubSize::Block16X8,
            6 => SubSize::Block16X16,
            7 => SubSize::Block16X32,
            8 => SubSize::Block32X16,
            9 => SubSize::Block32X32,
            10 => SubSize::Block32X64,
            11 => SubSize::Block64X32,
            12 => SubSize::Block64X64,
            13 => SubSize::Block64X128,
            14 => SubSize::Block128X64,
            15 => SubSize::Block128X128,
            16 => SubSize::Block4X16,
            17 => SubSize::Block16X4,
            18 => SubSize::Block8X32,
            19 => SubSize::Block32X8,
            20 => SubSize::Block16X64,
            21 => SubSize::Block64X16,
            _ => SubSize::Unknown,
        }
    }

    /// Map a decoded code to its named category.
    pub fn from_code(value: u8) -> (r: SubSize)
        ensures
            r == SubSize::spec_from(value),
    {
        match value {
            0 => SubSize::Block4X4,
            1 => SubSize::Block4X8,
            2 => SubSize::Block8X4,
            3 => SubSize::Block8X8,
            4 => SubSize::Block8X16,
            5 => SubSize::Block16X8,
            6 => SubSize::Block16X16,
            7 => SubSize::Block16X32,
            8 => SubSize::Block32X16,
            9 => SubSize::Block32X32,
            10 => SubSize::Block32X64,
            11 => SubSize::Block64X32,
            12 => SubSize::Block64X64,
            13 => SubSize::Block64X128,
            14 => SubSize::Block128X64,
            15 => SubSize::Block128X128,
            16 => SubSize::Block4X16,
            17 => SubSize::Block16X4,
            18 => SubSize::Block8X32,
            19 => SubSize::Block32X8,
            20 => SubSize::Block16X64,
            21 => SubSize::Block64X16,
            _ => SubSize::Unknown,
        }
    }
}

/// Intra prediction modes for the luma plane.
#[derive(Debug, Clone, Copy, PartialEq, Eq, Structural)]
pub enum IntraFrameYMode {
    Dc,
    V,
    H,
    D45,
    D135,
    D113,
    D157,
    D203,
    D67,
    Smooth,
    SmoothV,
    SmoothH,
    Paeth,
    Unknown,
}

impl IntraFrameYMode {
    /// The category a code names; codes outside the catalogue fall back
    /// to `IntraFrameYMode::Unknown`.
    pub open spec fn spec_from(value: u8) -> IntraFrameYMode {
        match value {
            0 => IntraFrameYMode::Dc,
            1 => IntraFrameYMode::V,
            2 => IntraFrameYMode::H,
            3 => IntraFrameYMode::D45,
            4 => IntraFrameYMode::D135,
            5 => IntraFrameYMode::D113,
            6 => IntraFrameYMode::D157,
            7 => IntraFrameYMode::D203,
            8 => IntraFrameYMode::D67,
            9 => IntraFrameYMode::Smooth,
            10 => IntraFrameYMode::SmoothV,
            11 => IntraFrameYMode::SmoothH,
            12 => IntraFrameYMode::Paeth,
            _ => IntraFrameYMode::Unknown,
        }
    }

    /// Map a decoded code to its named category.
    pub fn from_code(value: u8) -> (r: IntraFrameYMode)
        ensures
            r == IntraFrameYMode::spec_from(value),
    {
        match value {
            0 => IntraFrameYMode::Dc,
            1 => IntraFrameYMode::V,
            2 => IntraFrameYMode::H,
            3 => IntraFrameYMode::D45,
            4 => IntraFrameYMode::D135,
            5 => IntraFrameYMode::D113,
            6 => IntraFrameYMode::D157,
            7 => IntraFrameYMode::D203,
            8 => IntraFrameYMode::D67,
            9 => IntraFrameYMode::Smooth,
            10 => IntraFrameYMode::SmoothV,
            11 => IntraFrameYMode::SmoothH,
            12 => IntraFrameYMode::Paeth,
            _ => IntraFrameYMode::Unknown,
        }
    }
}

/// Intra prediction modes for the chroma planes.
#[derive(Debug, Clone, Copy, PartialEq, Eq, Structural)]
pub enum UVMode {
    Dc,
    V,
    H,
    D45,
    D135,
    D113,
    D157,
    D203,
    D67,
    Smooth,
    SmoothV,
    SmoothH,
    Paeth,
    UVCfl,
    Unknown,
}

impl UVMode {
    /// The category a code names; codes outside the catalogue fall back
    /// to `UVMode::Unknown`.
    pub open spec fn spec_from(value: u8) -> UVMode {
        match value {
            0 => UVMode::Dc,
            1 => UVMode::V,
            2 => UVMode::H,
            3 => UVMode::D45,
            4 => UVMode::D135,
            5 => UVMode::D113,
            6 => UVMode::D157,
            7 => UVMode::D203,
            8 => UVMode::D67,
            9 => UVMode::Smooth,
            10 => UVMode::SmoothV,
            11 => UVMode::SmoothH,
            12 => UVMode::Paeth,
            13 => UVMode::UVCfl,
            _ => UVMode::Unknown,
        }
    }

    /// Map a decoded code to its named category.
    pub fn from_code(value: u8) -> (r: UVMode)
        ensures
            r == UVMode::spec_from(value),
    {
        match value {
            0 => UVMode::Dc,
            1 => UVMode::V,
            2 => UVMode::H,
            3 => UVMode::D45,
            4 => UVMode::D135,
            5 => UVMode::D113,
            6 => UVMode::D157,
            7 => UVMode::D203,
            8 => UVMode::D67,
            9 => UVMode::Smooth,
            10 => UVMode::SmoothV,
            11 => UVMode::SmoothH,
            12 => UVMode::Paeth,
            13 => UVMode::UVCfl,
            _ => UVMode::Unknown,
        }
    }
}

/// Transform sizes.
#[derive(Debug, Clone, Copy, PartialEq, Eq, Structural)]
pub enum TxSize {
    Tx4X4,
    Tx8X8,
    Tx16X16,
    Tx32X32,
    Tx64X64,
    Tx4X8,
    Tx8X4,
    Tx8X16,
    Tx16X8,
    Tx16X32,
    Tx32X16,
    Tx32X64,
    Tx64X32,
    Tx4X16,
    Tx16X4,
    Tx8X32,
    Tx32X8,
    Tx16X64,
    Tx64X16,
    Unknown,
}

impl TxSize {
    /// The category a code names; codes outside the catalogue fall back
    /// to `TxSize::Unknown`.
    pub open spec fn spec_from(value: u8) -> TxSize {
        match value {
            0 => TxSize::Tx4X4,
            1 => TxSize::Tx8X8,
            2 => TxSize::Tx16X16,
            3 => TxSize::Tx32X32,
            4 => TxSize::Tx64X64,
            5 => TxSize::Tx4X8,
            6 => TxSize::Tx8X4,
            7 => TxSize::Tx8X16,
            8 => TxSize::Tx16X8,
            9 => TxSize::Tx16X32,
            10 => TxSize::Tx32X16,
            11 => TxSize::Tx32X64,
            12 => TxSize::Tx64X32,
            13 => TxSize::Tx4X16,
            14 => TxSize::Tx16X4,
            15 => TxSize::Tx8X32,
            16 => TxSize::Tx32X8,
            17 => TxSize::Tx16X64,
            18 => TxSize::Tx64X16,
            _ => TxSize::Unknown,
        }
    }

    /// Map a decoded code to its named category.
    pub fn from_code(value: u8) -> (r: TxSize)
        ensures
            r == TxSize::spec_from(value),
    {
        match value {
            0 => TxSize::Tx4X4,
            1 => TxSize::Tx8X8,
            2 => TxSize::Tx16X16,
            3 => TxSize::Tx32X32,
            4 => TxSize::Tx64X64,
            5 => TxSize::Tx4X8,
            6 => TxSize::Tx8X4,
            7 => TxSize::Tx8X16,
            8 => TxSize::Tx16X8,
            9 => TxSize::Tx16X32,
            10 => TxSize::Tx32X16,
            11 => TxSize::Tx32X64,
            12 => TxSize::Tx64X32,
            13 => TxSize::Tx4X16,
            14 => TxSize::Tx16X4,
            15 => TxSize::Tx8X32,
            16 => TxSize::Tx32X8,
            17 => TxSize::Tx16X64,
            18 => TxSize::Tx64X16,
            _ => TxSize::Unknown,
        }
    }
}

/// Recursive filter intra prediction modes.
#[derive(Debug, Clone, Copy, PartialEq, Eq, Structural)]
pub enum FilterIntraMode {
    Dc,
    V,
    H,
    D157,
    Paeth,
    Unknown,
}

impl FilterIntraMode {
    /// The category a code names; codes outside the catalogue fall back
    /// to `FilterIntraMode::Unknown`.
    pub open spec fn spec_from(value: u8) -> FilterIntraMode {
        match value {
            0 => FilterIntraMode::Dc,
            1 => FilterIntraMode::V,
            2 => FilterIntraMode::H,
            3 => FilterIntraMode::D157,
            4 => FilterIntraMode::Paeth,
            _ => FilterIntraMode::Unknown,
        }
    }

    /// Map a decoded code to its named category.
    pub fn from_code(value: u8) -> (r: FilterIntraMode)
        ensures
            r == FilterIntraMode::spec_from(value),
    {
        match value {
            0 => FilterIntraMode::Dc,
            1 => FilterIntraMode::V,
            2 => FilterIntraMode::H,
            3 => FilterIntraMode::D157,
            4 => FilterIntraMode::Paeth,
            _ => FilterIntraMode::Unknown,
        }
    }
}

/// Whether a block predicts from one reference or two.
#[derive(Debug, Clone, Copy, PartialEq, Eq, Structural)]
pub enum CompMode {
    Single,
    Compound,
    Unknown,
}

impl CompMode {
    /// The category a code names; codes outside the catalogue fall back
    /// to `CompMode::Unknown`.
    pub open spec fn spec_from(value: u8) -> CompMode {
        match value {
            0 => CompMode::Single,
            1 => CompMode::Compound,
            _ => CompMode::Unknown,
        }
    }

    /// Map a decoded code to its named category.
    pub fn from_code(value: u8) -> (r: CompMode)
        ensures
            r == CompMode::spec_from(value),
    {
        match value {
            0 => CompMode::Single,
            1 => CompMode::Compound,
            _ => CompMode::Unknown,
        }
    }
}

/// Whether a compound pair takes both references from one group.
#[derive(Debug, Clone, Copy, PartialEq, Eq, Structural)]
pub enum CompRefType {
    Unidir,
    Bidir,
    Unknown,
}

impl CompRefType {
    /// The category a code names; codes outside the catalogue fall back
    /// to `CompRefType::Unknown`.
    pub open spec fn spec_from(value: u8) -> CompRefType {
        match value {
            0 => CompRefType::Unidir,
            1 => CompRefType::Bidir,
            _ => CompRefType::Unknown,
        }
    }

    /// Map a decoded code to its named category.
    pub fn from_code(value: u8) -> (r: CompRefType)
        ensures
            r == CompRefType::spec_from(value),
    {
        match value {
            0 => CompRefType::Unidir,
            1 => CompRefType::Bidir,
            _ => CompRefType::Unknown,
        }
    }
}

/// Reference frame slots a block can predict from.
#[derive(Debug, Clone, Copy, PartialEq, Eq, Structural)]
pub enum RefFrame {
    Intra,
    Last,
    Last2,
    Last3,
    Golden,
    Bwdref,
    Altref2,
    Altref,
    Unknown,
}

impl RefFrame {
    /// The category a code names; codes outside the catalogue fall back
    /// to `RefFrame::Unknown`.
    pub open spec fn spec_from(value: u8) -> RefFrame {
        match value {
            0 => RefFrame::Intra,
            1 => RefFrame::Last,
            2 => RefFrame::Last2,
            3 => RefFrame::Last3,
            4 => RefFrame::Golden,
            5 => RefFrame::Bwdref,
            6 => RefFrame::Altref2,
            7 => RefFrame::Altref,
            _ => RefFrame::Unknown,
        }
    }

    /// Map a decoded code to its named category.
    pub fn from_code(value: u8) -> (r: RefFrame)
        ensures
            r == RefFrame::spec_from(value),
    {
        match value {
            0 => RefFrame::Intra,
            1 => RefFrame::Last,
            2 => RefFrame::Last2,
            3 => RefFrame::Last3,
            4 => RefFrame::Golden,
            5 => RefFrame::Bwdref,
            6 => RefFrame::Altref2,
            7 => RefFrame::Altref,
            _ => RefFrame::Unknown,
        }
    }
}

/// Motion compensation modes.
#[derive(Debug, Clone, Copy, PartialEq, Eq, Structural)]
pub enum MotionMode {
    Simple,
    Obmc,
    LocalWarp,
    Unknown,
}

impl MotionMode {
    /// The category a code names; codes outside the catalogue fall back
    /// to `MotionMode::Unknown`.
    pub open spec fn spec_from(value: u8) -> MotionMode {
        match value {
            0 => MotionMode::Simple,
            1 => MotionMode::Obmc,
            2 => MotionMode::LocalWarp,
            _ => MotionMode::Unknown,
        }
    }

    /// Map a decoded code to its named category.
    pub fn from_code(value: u8) -> (r: MotionMode)
        ensures
            r == MotionMode::spec_from(value),
    {
        match value {
            0 => MotionMode::Simple,
            1 => MotionMode::Obmc,
            2 => MotionMode::LocalWarp,
            _ => MotionMode::Unknown,
        }
    }
}

/// Intra modes usable in combined inter-intra prediction.
#[derive(Debug, Clone, Copy, PartialEq, Eq, Structural)]
pub enum InterintraMode {
    Dc,
    V,
    H,
    Smooth,
    Unknown,
}

impl InterintraMode {
    /// The category a code names; codes outside the catalogue fall back
    /// to `InterintraMode::Unknown`.
    pub open spec fn spec_from(value: u8) -> InterintraMode {
        match value {
            0 => InterintraMode::Dc,
            1 => InterintraMode::V,
            2 => InterintraMode::H,
            3 => InterintraMode::Smooth,
            _ => InterintraMode::Unknown,
        }
    }

    /// Map a decoded code to its named category.
    pub fn from_code(value: u8) -> (r: InterintraMode)
        ensures
            r == InterintraMode::spec_from(value),
    {
        match value {
            0 => InterintraMode::Dc,
            1 => InterintraMode::V,
            2 => InterintraMode::H,
            3 => InterintraMode::Smooth,
            _ => InterintraMode::Unknown,
        }
    }
}

/// How two compound predictions are blended.
#[derive(Debug, Clone, Copy, PartialEq, Eq, Structural)]
pub enum CompoundType {
    Wedge,
    Diffwtd,
    Average,
    Intra,
    Distance,
    Unknown,
}

impl CompoundType {
    /// The category a code names; codes outside the catalogue fall back
    /// to `CompoundType::Unknown`.
    pub open spec fn spec_from(value: u8) -> CompoundType {
        match value {
            0 => CompoundType::Wedge,
            1 => CompoundType::Diffwtd,
            2 => CompoundType::Average,
            3 => CompoundType::Intra,
            4 => CompoundType::Distance,
            _ => CompoundType::Unknown,
        }
    }

    /// Map a decoded code to its named category.
    pub fn from_code(value: u8) -> (r: CompoundType)
        ensures
            r == CompoundType::spec_from(value),
    {
        match value {
            0 => CompoundType::Wedge,
            1 => CompoundType::Diffwtd,
            2 => CompoundType::Average,
            3 => CompoundType::Intra,
            4 => CompoundType::Distance,
            _ => CompoundType::Unknown,
        }
    }
}

/// Mask orientations for difference-weighted compounds.
#[derive(Debug, Clone, Copy, PartialEq, Eq, Structural)]
pub enum MaskType {
    Uniform45,
    Uniform45Inv,
    Unknown,
}

impl MaskType {
    /// The category a code names; codes outside the catalogue fall back
    /// to `MaskType::Unknown`.
    pub open spec fn spec_from(value: u8) -> MaskType {
        match value {
            0 => MaskType::Uniform45,
            1 => MaskType::Uniform45Inv,
            _ => MaskType::Unknown,
        }
    }

    /// Map a decoded code to its named category.
    pub fn from_code(value: u8) -> (r: MaskType)
        ensures
            r == MaskType::spec_from(value),
    {
        match value {
            0 => MaskType::Uniform45,
            1 => MaskType::Uniform45Inv,
            _ => MaskType::Unknown,
        }
    }
}

/// Which motion vector components are non-zero.
#[derive(Debug, Clone, Copy, PartialEq, Eq, Structural)]
pub enum MVJoint {
    Zero,
    Hnzvz,
    Hzvnz,
    Hnzvnz,
    Unknown,
}

impl MVJoint {
    /// The category a code names; codes outside the catalogue fall back
    /// to `MVJoint::Unknown`.
    pub open spec fn spec_from(value: u8) -> MVJoint {
        match value {
            0 => MVJoint::Zero,
            1 => MVJoint::Hnzvz,
            2 => MVJoint::Hzvnz,
            3 => MVJoint::Hnzvnz,
            _ => MVJoint::Unknown,
        }
    }

    /// Map a decoded code to its named category.
    pub fn from_code(value: u8) -> (r: MVJoint)
        ensures
            r == MVJoint::spec_from(value),
    {
        match value {
            0 => MVJoint::Zero,
            1 => MVJoint::Hnzvz,
            2 => MVJoint::Hzvnz,
            3 => MVJoint::Hnzvnz,
            _ => MVJoint::Unknown,
        }
    }

    /// Which of the vector's row and column components change under this
    /// joint, in that order. The fallback category names no components, so
    /// it has no answer.
    pub fn changes_row_and_col(&self) -> (r: Option<(bool, bool)>)
        ensures
            r == (match *self {
                MVJoint::Zero => Some((false, false)),
                MVJoint::Hnzvz => Some((false, true)),
                MVJoint::Hzvnz => Some((true, false)),
                MVJoint::Hnzvnz => Some((true, true)),
                MVJoint::Unknown => None::<(bool, bool)>,
            }),
    {
        match self {
            MVJoint::Zero => Some((false, false)),
            MVJoint::Hnzvz => Some((false, true)),
            MVJoint::Hzvnz => Some((true, false)),
            MVJoint::Hnzvnz => Some((true, true)),
            MVJoint::Unknown => None,
        }
    }
}

/// Magnitude classes of a motion vector component.
#[derive(Debug, Clone, Copy, PartialEq, Eq, Structural)]
pub enum MVClass {
    Class0,
    Class1,
    Class2,
    Class3,
    Class4,
    Class5,
    Class6,
    Class7,
    Class8,
    Class9,
    Class10,
    Unknown,
}

impl MVClass {
    /// The category a code names; codes outside the catalogue fall back
    /// to `MVClass::Unknown`.
    pub open spec fn spec_from(value: u8) -> MVClass {
        match value {
            0 => MVClass::Class0,
            1 => MVClass::Class1,
            2 => MVClass::Class2,
            3 => MVClass::Class3,
            4 => MVClass::Class4,
            5 => MVClass::Class5,
            6 => MVClass::Class6,
            7 => MVClass::Class7,
            8 => MVClass::Class8,
            9 => MVClass::Class9,
            10 => MVClass::Class10,
            _ => MVClass::Unknown,
        }
    }

    /// Map a decoded code to its named category.
    pub fn from_code(value: u8) -> (r: MVClass)
        ensures
            r == MVClass::spec_from(value),
    {
        match value {
            0 => MVClass::Class0,
            1 => MVClass::Class1,
            2 => MVClass::Class2,
            3 => MVClass::Class3,
            4 => MVClass::Class4,
            5 => MVClass::Class5,
            6 => MVClass::Class6,
            7 => MVClass::Class7,
            8 => MVClass::Class8,
            9 => MVClass::Class9,
            10 => MVClass::Class10,
            _ => MVClass::Unknown,
        }
    }
}

/// Sign of a chroma-from-luma alpha value.
#[derive(Debug, Clone, Copy, PartialEq, Eq, Structural)]
pub enum SignUV {
    Zero,
    Neg,
    Pos,
    Unknown,
}

impl SignUV {
    /// The category a code names; codes outside the catalogue fall back
    /// to `SignUV::Unknown`.
    pub open spec fn spec_from(value: u8) -> SignUV {
        match value {
            0 => SignUV::Zero,
            1 => SignUV::Neg,
            2 => SignUV::Pos,
            _ => SignUV::Unknown,
        }
    }

    /// Map a decoded code to its named category.
    pub fn from_code(value: u8) -> (r: SignUV)
        ensures
            r == SignUV::spec_from(value),
    {
        match value {
            0 => SignUV::Zero,
            1 => SignUV::Neg,
            2 => SignUV::Pos,
            _ => SignUV::Unknown,
        }
    }

    /// The pair of chroma signs a joint 3-bit sign code carries, for the
    /// U and V planes in that order. The joint code never names `(Zero,
    /// Zero)`, and values past the eight coded pairs fall back to a pair of
    /// `SignUV::Unknown`.
    pub fn from_cfl_alpha_signs(value: u8) -> (r: (SignUV, SignUV))
        ensures
            r == (match value {
                0u8 => (SignUV::Zero, SignUV::Neg),
                1u8 => (SignUV::Zero, SignUV::Pos),
                2u8 => (SignUV::Neg, SignUV::Zero),
                3u8 => (SignUV::Neg, SignUV::Neg),
                4u8 => (SignUV::Neg, SignUV::Pos),
                5u8 => (SignUV::Pos, SignUV::Zero),
                6u8 => (SignUV::Pos, SignUV::Neg),
                7u8 => (SignUV::Pos, SignUV::Pos),
                _ => (SignUV::Unknown, SignUV::Unknown),
            }),
    {
        match value {
            0 => (SignUV::Zero, SignUV::Neg),
            1 => (SignUV::Zero, SignUV::Pos),
            2 => (SignUV::Neg, SignUV::Zero),
            3 => (SignUV::Neg, SignUV::Neg),
            4 => (SignUV::Neg, SignUV::Pos),
            5 => (SignUV::Pos, SignUV::Zero),
            6 => (SignUV::Pos, SignUV::Neg),
            7 => (SignUV::Pos, SignUV::Pos),
            _ => (SignUV::Unknown, SignUV::Unknown),
        }
    }
}

} // verus!
