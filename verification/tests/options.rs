use azure_hl::codes::{BackendType, CompositionOp, ExtendMode, Filter, SurfaceFormat};
use azure_hl::geometry::{AsAzureIntSize, AsAzurePoint, AsAzureRect, Matrix2D, Point2D, Rect, Size2D};
use azure_hl::options::{
    DrawOptions, DrawSurfaceOptions, StrokeOptions, AZ_CAP_BUTT, AZ_CAP_ROUND, AZ_CAP_SQUARE,
    AZ_JOIN_BEVEL, AZ_JOIN_MITER, AZ_JOIN_MITER_OR_BEVEL, AZ_JOIN_ROUND,
};
use azure_hl::pattern::{Color, GradientStop};
use azure_hl::wire::{
    AzColor, AzDrawOptions, AzDrawSurfaceOptions, AzFloat, AzGradientStop, AzIntSize, AzMatrix,
    AzPoint, AzRect, AzStrokeOptions,
};

fn az(value: f32) -> AzFloat {
    AzFloat(value.to_bits())
}

const ALL_OPS: [CompositionOp; 27] = [
    CompositionOp::OverOp,
    CompositionOp::AddOp,
    CompositionOp::AtopOp,
    CompositionOp::OutOp,
    CompositionOp::InOp,
    CompositionOp::SourceOp,
    CompositionOp::DestInOp,
    CompositionOp::DestOutOp,
    CompositionOp::DestOverOp,
    CompositionOp::DestAtopOp,
    CompositionOp::XorOp,
    CompositionOp::MultiplyOp,
    CompositionOp::ScreenOp,
    CompositionOp::OverlayOp,
    CompositionOp::DarkenOp,
    CompositionOp::LightenOp,
    CompositionOp::ColorDodgeOp,
    CompositionOp::ColorBurnOp,
    CompositionOp::HardLightOp,
    CompositionOp::SoftLightOp,
    CompositionOp::DifferenceOp,
    CompositionOp::ExclusionOp,
    CompositionOp::HueOp,
    CompositionOp::SaturationOp,
    CompositionOp::ColorOp,
    CompositionOp::LuminosityOp,
    CompositionOp::CountOp,
];

#[test]
fn stroke_options_start_with_butt_caps_and_miter_or_bevel_joins() {
    let options = StrokeOptions::new(az(2.5), az(10.0));
    assert_eq!(options.line_width, az(2.5));
    assert_eq!(options.miter_limit, az(10.0));
    assert_eq!(options.mDashPattern, 0);
    assert_eq!(options.mDashLength, 0);
    assert_eq!(options.fields, 0x03);
    assert_eq!(options.join_style(), AZ_JOIN_MITER_OR_BEVEL);
    assert_eq!(options.cap_style(), AZ_CAP_BUTT);
}

#[test]
fn join_and_cap_style_codes_follow_the_backend() {
    assert_eq!(AZ_JOIN_BEVEL, 0);
    assert_eq!(AZ_JOIN_ROUND, 1);
    assert_eq!(AZ_JOIN_MITER, 2);
    assert_eq!(AZ_JOIN_MITER_OR_BEVEL, 3);
    assert_eq!(AZ_CAP_BUTT, 0);
    assert_eq!(AZ_CAP_ROUND, 1);
    assert_eq!(AZ_CAP_SQUARE, 2);
}

#[test]
fn set_join_style_replaces_the_low_nibble_only() {
    let mut options = StrokeOptions::new(az(1.0), az(4.0));
    options.fields = 0xA7;
    options.set_join_style(AZ_JOIN_ROUND);
    assert_eq!(options.fields, 0xA1);
    assert_eq!(options.join_style(), AZ_JOIN_ROUND);
    assert_eq!(options.cap_style(), 0x0A);
    assert_eq!(options.line_width, az(1.0));
    assert_eq!(options.miter_limit, az(4.0));
}

#[test]
fn set_cap_style_replaces_the_high_nibble_only() {
    let mut options = StrokeOptions::new(az(1.0), az(4.0));
    options.set_cap_style(AZ_CAP_SQUARE);
    assert_eq!(options.fields, 0x23);
    assert_eq!(options.cap_style(), AZ_CAP_SQUARE);
    assert_eq!(options.join_style(), AZ_JOIN_MITER_OR_BEVEL);
    options.set_cap_style(AZ_CAP_ROUND);
    assert_eq!(options.fields, 0x13);
}

#[test]
fn set_cap_style_drops_what_does_not_fit_the_nibble() {
    let mut options = StrokeOptions::new(az(1.0), az(4.0));
    options.set_cap_style(0x12);
    assert_eq!(options.fields, 0x23);
    options.set_cap_style(0xFF);
    assert_eq!(options.fields, 0xF3);
}

#[test]
fn set_join_style_beyond_the_nibble_reaches_into_the_cap() {
    let mut options = StrokeOptions::new(az(1.0), az(4.0));
    options.fields = 0x20;
    options.set_join_style(0x13);
    assert_eq!(options.fields, 0x33);
}

#[test]
fn stroke_fields_round_trip_for_every_pair() {
    for start in [0x00u8, 0xFF, 0xA5, 0x03] {
        for join in 0u8..16 {
            for cap in 0u8..16 {
                let mut options = StrokeOptions::new(az(1.0), az(1.0));
                options.fields = start;
                options.set_join_style(join);
                options.set_cap_style(cap);
                assert_eq!((options.join_style(), options.cap_style()), (join, cap));
                assert_eq!(options.fields, (cap << 4) | join);

                let mut reversed = StrokeOptions::new(az(1.0), az(1.0));
                reversed.fields = start;
                reversed.set_cap_style(cap);
                reversed.set_join_style(join);
                assert_eq!((reversed.join_style(), reversed.cap_style()), (join, cap));
            }
        }
    }
}

#[test]
fn stroke_record_carries_every_field_and_no_dash_offset() {
    let mut options = StrokeOptions::new(az(3.0), az(7.0));
    options.mDashPattern = 0x1000;
    options.mDashLength = 4;
    options.set_cap_style(AZ_CAP_ROUND);
    assert_eq!(
        options.as_azure_stroke_options(),
        AzStrokeOptions {
            line_width: az(3.0),
            miter_limit: az(7.0),
            dash_pattern: 0x1000,
            dash_length: 4,
            dash_offset: az(0.0),
            fields: 0x13,
        }
    );
}

#[test]
fn draw_options_keep_the_fields_they_are_given() {
    let options = DrawOptions::new(az(0.5), 0x0203);
    assert_eq!(options.alpha, az(0.5));
    assert_eq!(options.fields, 0x0203);
    assert_eq!(
        options.as_azure_draw_options(),
        AzDrawOptions { alpha: az(0.5), fields: 0x0203 }
    );
    assert_eq!(options.composition_op(), Some(CompositionOp::OutOp));
    assert_eq!(options.antialias_mode(), 2);
}

#[test]
fn set_composition_op_replaces_the_low_byte_only() {
    let mut options = DrawOptions::new(az(1.0), 0xFFFF);
    options.set_composition_op(CompositionOp::OverOp);
    assert_eq!(options.fields, 0xFF00);
    options.set_composition_op(CompositionOp::LuminosityOp);
    assert_eq!(options.fields, 0xFF19);
    assert_eq!(options.alpha, az(1.0));
}

#[test]
fn set_antialias_mode_writes_three_bits_at_offset_eight() {
    let mut options = DrawOptions::new(az(1.0), 0);
    options.set_antialias_mode(3);
    assert_eq!(options.fields, 0x0300);
    options.set_antialias_mode(0xFF);
    assert_eq!(options.fields, 0x0700);
    options.set_antialias_mode(8);
    assert_eq!(options.fields, 0x0000);

    let mut full = DrawOptions::new(az(1.0), 0xFFFF);
    full.set_antialias_mode(0);
    assert_eq!(full.fields, 0xF8FF);
    assert_eq!(full.antialias_mode(), 0);
}

#[test]
fn draw_fields_round_trip_for_every_pair() {
    for start in [0x0000u16, 0xFFFF, 0xA5A5, 0x0703] {
        for op in ALL_OPS {
            for mode in 0u8..8 {
                let mut options = DrawOptions::new(az(1.0), start);
                options.set_composition_op(op);
                options.set_antialias_mode(mode);
                assert_eq!(options.composition_op(), Some(op));
                assert_eq!(options.antialias_mode(), mode);
                assert_eq!(options.fields & 0xF800, start & 0xF800);

                let mut reversed = DrawOptions::new(az(1.0), start);
                reversed.set_antialias_mode(mode);
                reversed.set_composition_op(op);
                assert_eq!(reversed.fields, options.fields);
            }
        }
    }
}

#[test]
fn a_low_byte_without_an_operator_unpacks_to_none() {
    assert_eq!(DrawOptions::new(az(1.0), 0x00FF).composition_op(), None);
    assert_eq!(DrawOptions::new(az(1.0), 0x001B).composition_op(), None);
    assert_eq!(
        DrawOptions::new(az(1.0), 0x001A).composition_op(),
        Some(CompositionOp::CountOp)
    );
}

#[test]
fn composition_operators_are_numbered_in_declaration_order() {
    let mut code: u32 = 0;
    for op in ALL_OPS {
        assert_eq!(op.as_azure_composition_op(), code);
        assert_eq!(CompositionOp::from_code(code), Some(op));
        code += 1;
    }
    assert_eq!(CompositionOp::from_code(27), None);
    assert_eq!(CompositionOp::from_code(u32::MAX), None);
    assert_eq!(CompositionOp::OverOp.as_azure_composition_op(), 0);
    assert_eq!(CompositionOp::XorOp.as_azure_composition_op(), 10);
    assert_eq!(CompositionOp::CountOp.as_azure_composition_op(), 26);
}

#[test]
fn surface_formats_map_to_codes_zero_to_seven() {
    let formats = [
        SurfaceFormat::B8G8R8A8,
        SurfaceFormat::B8G8R8X8,
        SurfaceFormat::R8G8B8A8,
        SurfaceFormat::R8G8B8X8,
        SurfaceFormat::R5G6B5,
        SurfaceFormat::A8,
        SurfaceFormat::YUV,
        SurfaceFormat::UNKNOWN,
    ];
    let mut code: u32 = 0;
    for format in formats {
        assert_eq!(format.as_azure_surface_format(), code);
        assert_eq!(SurfaceFormat::new(code), format);
        code += 1;
    }
    assert_eq!(code, 8);
}

#[test]
fn a_code_past_seven_is_no_surface_format() {
    assert_eq!(SurfaceFormat::from_code(0), Some(SurfaceFormat::B8G8R8A8));
    assert_eq!(SurfaceFormat::from_code(7), Some(SurfaceFormat::UNKNOWN));
    assert_eq!(SurfaceFormat::from_code(8), None);
    assert_eq!(SurfaceFormat::from_code(u32::MAX), None);
}

#[test]
fn filters_map_to_their_codes() {
    assert_eq!(Filter::Good.as_azure_filter(), 0);
    assert_eq!(Filter::Linear.as_azure_filter(), 1);
    assert_eq!(Filter::Point.as_azure_filter(), 2);
}

#[test]
fn backend_types_map_to_their_codes() {
    assert_eq!(BackendType::NoBackend.as_azure_backend_type(), 0);
    assert_eq!(BackendType::Direct2DBackend.as_azure_backend_type(), 1);
    assert_eq!(BackendType::CoreGraphicsBackend.as_azure_backend_type(), 2);
    assert_eq!(BackendType::CoreGraphicsAcceleratedBackend.as_azure_backend_type(), 3);
    assert_eq!(BackendType::CairoBackend.as_azure_backend_type(), 4);
    assert_eq!(BackendType::SkiaBackend.as_azure_backend_type(), 5);
    assert_eq!(BackendType::RecordingBackend.as_azure_backend_type(), 6);
    assert_eq!(BackendType::Direct2D11Backend.as_azure_backend_type(), 7);
    assert_eq!(BackendType::NVPathRenderingBackend.as_azure_backend_type(), 8);
}

#[test]
fn extend_modes_map_to_their_codes() {
    assert_eq!(ExtendMode::ExtendClamp.as_azure_extend_mode(), 0);
    assert_eq!(ExtendMode::ExtendRepeat.as_azure_extend_mode(), 1);
    assert_eq!(ExtendMode::ExtendReflect.as_azure_extend_mode(), 2);
}

#[test]
fn surface_options_pack_the_filter_code_with_the_clamp_flag() {
    let cases = [
        (Filter::Good, false, 0u32),
        (Filter::Linear, false, 1),
        (Filter::Point, false, 2),
        (Filter::Good, true, 8),
        (Filter::Linear, true, 9),
        (Filter::Point, true, 10),
    ];
    for (filter, sampling_bounds, fields) in cases {
        let options = DrawSurfaceOptions::new(filter, sampling_bounds);
        assert_eq!(options.filter, filter);
        assert_eq!(options.sampling_bounds, sampling_bounds);
        assert_eq!(
            options.as_azure_draw_surface_options(),
            AzDrawSurfaceOptions { fields }
        );
    }
}

#[test]
fn geometry_is_laid_out_field_by_field() {
    let rect = Rect {
        origin: Point2D { x: az(1.0), y: az(2.0) },
        size: Size2D { width: az(30.0), height: az(40.0) },
    };
    assert_eq!(
        rect.as_azure_rect(),
        AzRect { x: az(1.0), y: az(2.0), width: az(30.0), height: az(40.0) }
    );
    let point = Point2D { x: az(-1.5), y: az(0.25) };
    assert_eq!(point.as_azure_point(), AzPoint { x: az(-1.5), y: az(0.25) });
    let size = Size2D { width: 64i32, height: -3i32 };
    assert_eq!(size.as_azure_int_size(), AzIntSize { width: 64, height: -3 });
    assert_eq!(size.as_azure_int_size().to_size2d(), size);
    let matrix = Matrix2D {
        m11: az(1.0),
        m12: az(2.0),
        m21: az(3.0),
        m22: az(4.0),
        m31: az(5.0),
        m32: az(6.0),
    };
    assert_eq!(
        matrix.as_azure_matrix(),
        AzMatrix {
            m11: az(1.0),
            m12: az(2.0),
            m21: az(3.0),
            m22: az(4.0),
            m31: az(5.0),
            m32: az(6.0),
        }
    );
}

#[test]
fn colors_and_gradient_stops_are_laid_out_field_by_field() {
    let color = Color::new(az(1.0), az(0.5), az(0.25), az(0.125));
    assert_eq!(color.r, az(1.0));
    assert_eq!(color.g, az(0.5));
    assert_eq!(color.b, az(0.25));
    assert_eq!(color.a, az(0.125));
    let wire = AzColor { r: az(1.0), g: az(0.5), b: az(0.25), a: az(0.125) };
    assert_eq!(color.as_azure_color(), wire);
    // Channels outside the nominal range are carried as they are.
    let odd = Color::new(az(-3.0), az(7.0), az(0.0), az(2.0));
    assert_eq!(odd.as_azure_color().r, az(-3.0));
    let stop = GradientStop { offset: az(0.75), color };
    assert_eq!(
        stop.as_azure_gradient_stop(),
        AzGradientStop { offset: az(0.75), color: wire }
    );
}
