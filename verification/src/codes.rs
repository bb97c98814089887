//! The enumerations that the backend knows by small integer codes.

use vstd::prelude::*;

verus! {

/// How new pixels are combined with the pixels already on the target.
#[derive(Clone, Copy, Debug, PartialEq, Eq, Structural)]
pub enum CompositionOp {
    OverOp,
    AddOp,
    AtopOp,
    OutOp,
    InOp,
    SourceOp,
    DestInOp,
    DestOutOp,
    DestOverOp,
    DestAtopOp,
    XorOp,
    MultiplyOp,
    ScreenOp,
    OverlayOp,
    DarkenOp,
    LightenOp,
    ColorDodgeOp,
    ColorBurnOp,
    HardLightOp,
    SoftLightOp,
    DifferenceOp,
    ExclusionOp,
    HueOp,
    SaturationOp,
    ColorOp,
    LuminosityOp,
    CountOp,
}

impl CompositionOp {
    /// The integer by which the backend knows this operator.
    pub open spec fn code(self) -> u32 {
        match self {
            CompositionOp::OverOp => 0u32,
            CompositionOp::AddOp => 1u32,
            CompositionOp::AtopOp => 2u32,
            CompositionOp::OutOp => 3u32,
            CompositionOp::InOp => 4u32,
            CompositionOp::SourceOp => 5u32,
            CompositionOp::DestInOp => 6u32,
            CompositionOp::DestOutOp => 7u32,
            CompositionOp::DestOverOp => 8u32,
            CompositionOp::DestAtopOp => 9u32,
            CompositionOp::XorOp => 10u32,
            CompositionOp::MultiplyOp => 11u32,
            CompositionOp::ScreenOp => 12u32,
            CompositionOp::OverlayOp => 13u32,
            CompositionOp::DarkenOp => 14u32,
            CompositionOp::LightenOp => 15u32,
            CompositionOp::ColorDodgeOp => 16u32,
            CompositionOp::ColorBurnOp => 17u32,
            CompositionOp::HardLightOp => 18u32,
            CompositionOp::SoftLightOp => 19u32,
            CompositionOp::DifferenceOp => 20u32,
            CompositionOp::ExclusionOp => 21u32,
            CompositionOp::HueOp => 22u32,
            CompositionOp::SaturationOp => 23u32,
            CompositionOp::ColorOp => 24u32,
            CompositionOp::LuminosityOp => 25u32,
            CompositionOp::CountOp => 26u32,
        }
    }

    /// The operator's backend code.
    pub fn as_azure_composition_op(self) -> (code: u32)
        ensures
            code == self.code(),
    {
        match self {
            CompositionOp::OverOp => 0,
            CompositionOp::AddOp => 1,
            CompositionOp::AtopOp => 2,
            CompositionOp::OutOp => 3,
            CompositionOp::InOp => 4,
            CompositionOp::SourceOp => 5,
            CompositionOp::DestInOp => 6,
            CompositionOp::DestOutOp => 7,
            CompositionOp::DestOverOp => 8,
            CompositionOp::DestAtopOp => 9,
            CompositionOp::XorOp => 10,
            CompositionOp::MultiplyOp => 11,
            CompositionOp::ScreenOp => 12,
            CompositionOp::OverlayOp => 13,
            CompositionOp::DarkenOp => 14,
            CompositionOp::LightenOp => 15,
            CompositionOp::ColorDodgeOp => 16,
            CompositionOp::ColorBurnOp => 17,
            CompositionOp::HardLightOp => 18,
            CompositionOp::SoftLightOp => 19,
            CompositionOp::DifferenceOp => 20,
            CompositionOp::ExclusionOp => 21,
            CompositionOp::HueOp => 22,
            CompositionOp::SaturationOp => 23,
            CompositionOp::ColorOp => 24,
            CompositionOp::LuminosityOp => 25,
            CompositionOp::CountOp => 26,
        }
    }

    /// The operator with the given backend code, if there is one.
    pub fn from_code(code: u32) -> (op: Option<CompositionOp>)
        ensures
            code <= 26 <==> op is Some,
            op matches Some(found) ==> found.code() == code,
    {
        if code > 26 {
            return None;
        }
        Some(
            match code {
                0 => CompositionOp::OverOp,
                1 => CompositionOp::AddOp,
                2 => CompositionOp::AtopOp,
                3 => CompositionOp::OutOp,
                4 => CompositionOp::InOp,
                5 => CompositionOp::SourceOp,
                6 => CompositionOp::DestInOp,
                7 => CompositionOp::DestOutOp,
                8 => CompositionOp::DestOverOp,
                9 => CompositionOp::DestAtopOp,
                10 => CompositionOp::XorOp,
                11 => CompositionOp::MultiplyOp,
                12 => CompositionOp::ScreenOp,
                13 => CompositionOp::OverlayOp,
                14 => CompositionOp::DarkenOp,
                15 => CompositionOp::LightenOp,
                16 => CompositionOp::ColorDodgeOp,
                17 => CompositionOp::ColorBurnOp,
                18 => CompositionOp::HardLightOp,
                19 => CompositionOp::SoftLightOp,
                20 => CompositionOp::DifferenceOp,
                21 => CompositionOp::ExclusionOp,
                22 => CompositionOp::HueOp,
                23 => CompositionOp::SaturationOp,
                24 => CompositionOp::ColorOp,
                25 => CompositionOp::LuminosityOp,
                _ => CompositionOp::CountOp,
            },
        )
    }
}

/// The pixel layout of a surface.
#[derive(Clone, Copy, Debug, PartialEq, Eq, Structural)]
pub enum SurfaceFormat {
    B8G8R8A8,
    B8G8R8X8,
    R8G8B8A8,
    R8G8B8X8,
    R5G6B5,
    A8,
    YUV,
    UNKNOWN,
}

impl SurfaceFormat {
    /// The integer by which the backend knows this pixel layout.
    pub open spec fn code(self) -> u32 {
        match self {
            SurfaceFormat::B8G8R8A8 => 0u32,
            SurfaceFormat::B8G8R8X8 => 1u32,
            SurfaceFormat::R8G8B8A8 => 2u32,
            SurfaceFormat::R8G8B8X8 => 3u32,
            SurfaceFormat::R5G6B5 => 4u32,
            SurfaceFormat::A8 => 5u32,
            SurfaceFormat::YUV => 6u32,
            SurfaceFormat::UNKNOWN => 7u32,
        }
    }

    /// The layout's backend code.
    pub fn as_azure_surface_format(self) -> (code: u32)
        ensures
            code == self.code(),
    {
        match self {
            SurfaceFormat::B8G8R8A8 => 0,
            SurfaceFormat::B8G8R8X8 => 1,
            SurfaceFormat::R8G8B8A8 => 2,
            SurfaceFormat::R8G8B8X8 => 3,
            SurfaceFormat::R5G6B5 => 4,
            SurfaceFormat::A8 => 5,
            SurfaceFormat::YUV => 6,
            SurfaceFormat::UNKNOWN => 7,
        }
    }

    /// The pixel layout with the given backend code, if there is one.
    pub fn from_code(code: u32) -> (format: Option<SurfaceFormat>)
        ensures
            code <= 7 <==> format is Some,
            format matches Some(found) ==> found.code() == code,
    {
        if code > 7 {
            return None;
        }
        Some(SurfaceFormat::new(code))
    }

    /// The pixel layout with the given backend code. The backend defines the
    /// codes 0 to 7 and no others.
    pub fn new(azure_surface_format: u32) -> (format: SurfaceFormat)
        requires
            azure_surface_format <= 7,
        ensures
            format.code() == azure_surface_format,
    {
        match azure_surface_format {
            0 => SurfaceFormat::B8G8R8A8,
            1 => SurfaceFormat::B8G8R8X8,
            2 => SurfaceFormat::R8G8B8A8,
            3 => SurfaceFormat::R8G8B8X8,
            4 => SurfaceFormat::R5G6B5,
            5 => SurfaceFormat::A8,
            6 => SurfaceFormat::YUV,
            _ => SurfaceFormat::UNKNOWN,
        }
    }
}

/// How source pixels are sampled when a surface is drawn scaled.
#[derive(Clone, Copy, Debug, PartialEq, Eq, Structural)]
pub enum Filter {
    Good,
    Linear,
    Point,
}

impl Filter {
    /// The integer by which the backend knows this filter.
    pub open spec fn code(self) -> u32 {
        match self {
            Filter::Good => 0u32,
            Filter::Linear => 1u32,
            Filter::Point => 2u32,
        }
    }

    /// The filter's backend code.
    pub fn as_azure_filter(self) -> (code: u32)
        ensures
            code == self.code(),
    {
        match self {
            Filter::Good => 0,
            Filter::Linear => 1,
            Filter::Point => 2,
        }
    }
}

/// The rendering engines a draw target can be created on.
#[derive(Clone, Copy, Debug, PartialEq, Eq, Structural)]
pub enum BackendType {
    NoBackend,
    Direct2DBackend,
    CoreGraphicsBackend,
    CoreGraphicsAcceleratedBackend,
    CairoBackend,
    SkiaBackend,
    RecordingBackend,
    Direct2D11Backend,
    NVPathRenderingBackend,
}

impl BackendType {
    /// The integer by which the backend knows this rendering engine.
    pub open spec fn code(self) -> u32 {
        match self {
            BackendType::NoBackend => 0u32,
            BackendType::Direct2DBackend => 1u32,
            BackendType::CoreGraphicsBackend => 2u32,
            BackendType::CoreGraphicsAcceleratedBackend => 3u32,
            BackendType::CairoBackend => 4u32,
            BackendType::SkiaBackend => 5u32,
            BackendType::RecordingBackend => 6u32,
            BackendType::Direct2D11Backend => 7u32,
            BackendType::NVPathRenderingBackend => 8u32,
        }
    }

    /// The engine's backend code.
    pub fn as_azure_backend_type(self) -> (code: u32)
        ensures
            code == self.code(),
    {
        match self {
            BackendType::NoBackend => 0,
            BackendType::Direct2DBackend => 1,
            BackendType::CoreGraphicsBackend => 2,
            BackendType::CoreGraphicsAcceleratedBackend => 3,
            BackendType::CairoBackend => 4,
            BackendType::SkiaBackend => 5,
            BackendType::RecordingBackend => 6,
            BackendType::Direct2D11Backend => 7,
            BackendType::NVPathRenderingBackend => 8,
        }
    }
}

/// What a gradient paints outside the interval from its first to its last stop.
#[derive(Clone, Copy, Debug, PartialEq, Eq, Structural)]
pub enum ExtendMode {
    ExtendClamp,
    ExtendRepeat,
    ExtendReflect,
}

impl ExtendMode {
    /// The integer by which the backend knows this extend mode.
    pub open spec fn code(self) -> u32 {
        match self {
            ExtendMode::ExtendClamp => 0u32,
            ExtendMode::ExtendRepeat => 1u32,
            ExtendMode::ExtendReflect => 2u32,
        }
    }

    /// The mode's backend code.
    pub fn as_azure_extend_mode(self) -> (code: u32)
        ensures
            code == self.code(),
    {
        match self {
            ExtendMode::ExtendClamp => 0,
            ExtendMode::ExtendRepeat => 1,
            ExtendMode::ExtendReflect => 2,
        }
    }
}

/// A pixel layout is found again from its backend code.
pub proof fn law_surface_format_code_is_injective(a: SurfaceFormat, b: SurfaceFormat)
    requires
        a.code() == b.code(),
    ensures
        a == b,
        a.code() <= 7,
{
}

/// A composition operator is found again from its backend code.
pub proof fn law_composition_op_code_is_injective(a: CompositionOp, b: CompositionOp)
    requires
        a.code() == b.code(),
    ensures
        a == b,
        a.code() <= 26,
{
}

} // verus!
