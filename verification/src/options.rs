//! Drawing parameters: the enumerations the backend knows by small integer
//! codes, and the option records whose join, cap, operator and antialiasing
//! settings are packed into bit fields.

use vstd::prelude::*;
use crate::codes::{CompositionOp, Filter};
use crate::wire::{AzDrawOptions, AzDrawSurfaceOptions, AzFloat, AzStrokeOptions};

verus! {

/// Join style code: corners are cut off flat.
pub const AZ_JOIN_BEVEL: u8 = 0;

/// Join style code: corners are rounded.
pub const AZ_JOIN_ROUND: u8 = 1;

/// Join style code: corners are mitered.
pub const AZ_JOIN_MITER: u8 = 2;

/// Join style code: corners are mitered within the miter limit, else beveled.
pub const AZ_JOIN_MITER_OR_BEVEL: u8 = 3;

/// Cap style code: lines end flush with their end points.
pub const AZ_CAP_BUTT: u8 = 0;

/// Cap style code: lines end in a half disc.
pub const AZ_CAP_ROUND: u8 = 1;

/// Cap style code: lines end in a half square.
pub const AZ_CAP_SQUARE: u8 = 2;

/// The stroke bit field with its join nibble replaced by `style`.
pub open spec fn with_join_style(fields: u8, style: u8) -> u8 {
    (fields & 0xF0u8) | style
}

/// The stroke bit field with its cap nibble replaced by `style`.
pub open spec fn with_cap_style(fields: u8, style: u8) -> u8 {
    (fields & 0x0Fu8) | (style << 4u8)
}

/// The join style held in the low nibble of a stroke bit field.
pub open spec fn join_style_of(fields: u8) -> u8 {
    fields & 0x0Fu8
}

/// The cap style held in the high nibble of a stroke bit field.
pub open spec fn cap_style_of(fields: u8) -> u8 {
    fields >> 4u8
}

/// How a path or a line is stroked.
#[allow(non_snake_case)]
#[derive(Clone, Copy, Debug, PartialEq, Eq)]
pub struct StrokeOptions {
    pub line_width: AzFloat,
    pub miter_limit: AzFloat,
    /// Address of the caller's dash array, or zero for a solid stroke.
    pub mDashPattern: usize,
    /// Number of entries in the dash array.
    pub mDashLength: usize,
    /// Join style in the low nibble, cap style in the high nibble.
    pub fields: u8,
}

impl StrokeOptions {
    /// The backend record these options stand for.
    pub open spec fn azure_stroke_options(&self) -> AzStrokeOptions {
        AzStrokeOptions {
            line_width: self.line_width,
            miter_limit: self.miter_limit,
            dash_pattern: self.mDashPattern,
            dash_length: self.mDashLength,
            dash_offset: AzFloat(0),
            fields: self.fields,
        }
    }

    /// A solid stroke with butt caps and miter-or-bevel joins.
    pub fn new(line_width: AzFloat, miter_limit: AzFloat) -> (options: StrokeOptions)
        ensures
            options.line_width == line_width,
            options.miter_limit == miter_limit,
            options.mDashPattern == 0,
            options.mDashLength == 0,
            options.fields == 3,
            join_style_of(options.fields) == AZ_JOIN_MITER_OR_BEVEL,
            cap_style_of(options.fields) == AZ_CAP_BUTT,
    {
        let fields: u8 = (AZ_CAP_BUTT << 4) | AZ_JOIN_MITER_OR_BEVEL;
        assert(fields == 3) by (bit_vector)
            requires
                fields == (0u8 << 4) | 3u8,
        ;
        assert(join_style_of(3u8) == 3u8 && cap_style_of(3u8) == 0u8) by (bit_vector);
        StrokeOptions {
            line_width,
            miter_limit,
            mDashPattern: 0,
            mDashLength: 0,
            fields,
        }
    }

    /// Lays the options out as the backend reads them, with no dash offset.
    pub fn as_azure_stroke_options(&self) -> (record: AzStrokeOptions)
        ensures
            record == self.azure_stroke_options(),
    {
        AzStrokeOptions {
            line_width: self.line_width,
            miter_limit: self.miter_limit,
            dash_pattern: self.mDashPattern,
            dash_length: self.mDashLength,
            dash_offset: AzFloat(0),
            fields: self.fields,
        }
    }

    /// Replaces the join style and leaves every other setting as it was.
    pub fn set_join_style(&mut self, style: u8)
        ensures
            final(self).fields == with_join_style(old(self).fields, style),
            final(self).line_width == old(self).line_width,
            final(self).miter_limit == old(self).miter_limit,
            final(self).mDashPattern == old(self).mDashPattern,
            final(self).mDashLength == old(self).mDashLength,
    {
        self.fields = self.fields & 0xF0u8;
        self.fields = self.fields | style;
    }

    /// Replaces the cap style and leaves every other setting as it was.
    pub fn set_cap_style(&mut self, style: u8)
        ensures
            final(self).fields == with_cap_style(old(self).fields, style),
            final(self).line_width == old(self).line_width,
            final(self).miter_limit == old(self).miter_limit,
            final(self).mDashPattern == old(self).mDashPattern,
            final(self).mDashLength == old(self).mDashLength,
    {
        self.fields = self.fields & 0x0Fu8;
        self.fields = self.fields | (style << 4);
    }

    /// The join style currently packed into the options.
    pub fn join_style(&self) -> (style: u8)
        ensures
            style == join_style_of(self.fields),
    {
        self.fields & 0x0Fu8
    }

    /// The cap style currently packed into the options.
    pub fn cap_style(&self) -> (style: u8)
        ensures
            style == cap_style_of(self.fields),
    {
        self.fields >> 4
    }
}

/// Packing a join style and a cap style into a stroke bit field, in either
/// order, and unpacking them again gives back the pair, whatever the field
/// held before.
pub proof fn law_stroke_fields_round_trip(fields: u8, join: u8, cap: u8)
    requires
        join < 16,
        cap < 16,
    ensures
        join_style_of(with_cap_style(with_join_style(fields, join), cap)) == join,
        cap_style_of(with_cap_style(with_join_style(fields, join), cap)) == cap,
        join_style_of(with_join_style(with_cap_style(fields, cap), join)) == join,
        cap_style_of(with_join_style(with_cap_style(fields, cap), join)) == cap,
{
    assert(join < 16 && cap < 16 ==> {
        &&& join_style_of(with_cap_style(with_join_style(fields, join), cap)) == join
        &&& cap_style_of(with_cap_style(with_join_style(fields, join), cap)) == cap
        &&& join_style_of(with_join_style(with_cap_style(fields, cap), join)) == join
        &&& cap_style_of(with_join_style(with_cap_style(fields, cap), join)) == cap
    }) by (bit_vector);
}

/// Setting one nibble of a stroke bit field leaves the other nibble alone.
pub proof fn law_stroke_fields_independent(fields: u8, style: u8)
    requires
        style < 16,
    ensures
        cap_style_of(with_join_style(fields, style)) == cap_style_of(fields),
        join_style_of(with_join_style(fields, style)) == style,
        join_style_of(with_cap_style(fields, style)) == join_style_of(fields),
        cap_style_of(with_cap_style(fields, style)) == style,
{
    assert(style < 16 ==> {
        &&& cap_style_of(with_join_style(fields, style)) == cap_style_of(fields)
        &&& join_style_of(with_join_style(fields, style)) == style
        &&& join_style_of(with_cap_style(fields, style)) == join_style_of(fields)
        &&& cap_style_of(with_cap_style(fields, style)) == style
    }) by (bit_vector);
}

/// The draw bit field with its operator byte replaced by `code`.
pub open spec fn with_composition_op(fields: u16, code: u16) -> u16 {
    (fields & 0xFF00u16) | code
}

/// The draw bit field with its three antialiasing bits replaced by the low
/// three bits of `mode`.
pub open spec fn with_antialias_mode(fields: u16, mode: u8) -> u16 {
    (fields & 0xF8FFu16) | (((mode & 7u8) as u16) << 8u16)
}

/// The operator code held in the low byte of a draw bit field.
pub open spec fn composition_op_code_of(fields: u16) -> u16 {
    fields & 0x00FFu16
}

/// The antialiasing mode held in bits 8 to 10 of a draw bit field.
pub open spec fn antialias_mode_of(fields: u16) -> u8 {
    ((fields >> 8u16) & 7u16) as u8
}

/// How an operation blends into the target.
#[derive(Clone, Copy, Debug, PartialEq, Eq)]
pub struct DrawOptions {
    pub alpha: AzFloat,
    /// Composition operator in the low byte, antialiasing mode in bits 8 to 10.
    pub fields: u16,
}

impl DrawOptions {
    /// The backend record these options stand for.
    pub open spec fn azure_draw_options(&self) -> AzDrawOptions {
        AzDrawOptions { alpha: self.alpha, fields: self.fields }
    }

    /// Options with the given opacity and an already packed bit field.
    pub fn new(alpha: AzFloat, fields: u16) -> (options: DrawOptions)
        ensures
            options.alpha == alpha,
            options.fields == fields,
    {
        DrawOptions { alpha, fields }
    }

    /// Lays the options out as the backend reads them.
    pub fn as_azure_draw_options(&self) -> (record: AzDrawOptions)
        ensures
            record == self.azure_draw_options(),
    {
        AzDrawOptions { alpha: self.alpha, fields: self.fields }
    }

    /// Replaces the composition operator and leaves the rest as it was.
    pub fn set_composition_op(&mut self, style: CompositionOp)
        ensures
            final(self).fields == with_composition_op(old(self).fields, style.code() as u16),
            final(self).alpha == old(self).alpha,
    {
        let code: u16 = style.as_azure_composition_op() as u16;
        self.fields = self.fields & 0xFF00u16;
        self.fields = self.fields | code;
    }

    /// Replaces the antialiasing mode by the low three bits of `style` and
    /// leaves the rest as it was.
    pub fn set_antialias_mode(&mut self, style: u8)
        ensures
            final(self).fields == with_antialias_mode(old(self).fields, style),
            final(self).alpha == old(self).alpha,
    {
        self.fields = self.fields & 0xF8FFu16;
        let style: u16 = ((style & 7u8) as u16) << 8;
        self.fields = self.fields | style;
    }

    /// The composition operator currently packed into the options, or `None`
    /// when the low byte holds no operator's code.
    pub fn composition_op(&self) -> (op: Option<CompositionOp>)
        ensures
            op is Some <==> composition_op_code_of(self.fields) <= 26,
            op matches Some(found) ==> found.code() == composition_op_code_of(self.fields),
    {
        let code: u16 = self.fields & 0x00FFu16;
        CompositionOp::from_code(code as u32)
    }

    /// The antialiasing mode currently packed into the options.
    pub fn antialias_mode(&self) -> (mode: u8)
        ensures
            mode == antialias_mode_of(self.fields),
    {
        let fields: u16 = self.fields;
        let bits: u16 = (fields >> 8) & 7u16;
        assert(bits <= 7) by (bit_vector)
            requires
                bits == (fields >> 8u16) & 7u16,
        ;
        bits as u8
    }
}

/// Packing a composition operator and an antialiasing mode into a draw bit
/// field, in either order, and unpacking them again gives back the pair,
/// whatever the field held before.
pub proof fn law_draw_fields_round_trip(fields: u16, op: CompositionOp, mode: u8)
    requires
        mode < 8,
    ensures
        composition_op_code_of(
            with_antialias_mode(with_composition_op(fields, op.code() as u16), mode),
        ) == op.code(),
        antialias_mode_of(
            with_antialias_mode(with_composition_op(fields, op.code() as u16), mode),
        ) == mode,
        composition_op_code_of(
            with_composition_op(with_antialias_mode(fields, mode), op.code() as u16),
        ) == op.code(),
        antialias_mode_of(
            with_composition_op(with_antialias_mode(fields, mode), op.code() as u16),
        ) == mode,
{
    let code: u16 = op.code() as u16;
    assert(code <= 26);
    assert(code <= 26 && mode < 8 ==> {
        &&& composition_op_code_of(with_antialias_mode(with_composition_op(fields, code), mode))
            == code
        &&& antialias_mode_of(with_antialias_mode(with_composition_op(fields, code), mode)) == mode
        &&& composition_op_code_of(with_composition_op(with_antialias_mode(fields, mode), code))
            == code
        &&& antialias_mode_of(with_composition_op(with_antialias_mode(fields, mode), code)) == mode
    }) by (bit_vector);
}

/// Setting the operator byte of a draw bit field leaves the antialiasing bits
/// alone, and the other way round; bits 11 to 15 are touched by neither.
pub proof fn law_draw_fields_independent(fields: u16, op: CompositionOp, mode: u8)
    ensures
        antialias_mode_of(with_composition_op(fields, op.code() as u16)) == antialias_mode_of(
            fields,
        ),
        composition_op_code_of(with_antialias_mode(fields, mode)) == composition_op_code_of(fields),
        with_composition_op(fields, op.code() as u16) & 0xF800u16 == fields & 0xF800u16,
        with_antialias_mode(fields, mode) & 0xF800u16 == fields & 0xF800u16,
{
    let code: u16 = op.code() as u16;
    assert(code <= 26);
    assert(code <= 26 ==> {
        &&& antialias_mode_of(with_composition_op(fields, code)) == antialias_mode_of(fields)
        &&& composition_op_code_of(with_antialias_mode(fields, mode)) == composition_op_code_of(
            fields,
        )
        &&& with_composition_op(fields, code) & 0xF800u16 == fields & 0xF800u16
        &&& with_antialias_mode(fields, mode) & 0xF800u16 == fields & 0xF800u16
    }) by (bit_vector);
}

/// The surface-options bit field for a filter code and a clamping flag.
pub open spec fn surface_options_fields(filter: Filter, sampling_bounds: bool) -> u32 {
    filter.code() | if sampling_bounds {
        8u32
    } else {
        0u32
    }
}

/// How a surface is sampled when it is drawn onto a target.
#[derive(Clone, Copy, Debug, PartialEq, Eq)]
pub struct DrawSurfaceOptions {
    pub filter: Filter,
    /// Whether sampling is clamped to the bounds of the source rectangle.
    pub sampling_bounds: bool,
}

impl DrawSurfaceOptions {
    /// The backend record these options stand for.
    pub open spec fn azure_draw_surface_options(&self) -> AzDrawSurfaceOptions {
        AzDrawSurfaceOptions { fields: surface_options_fields(self.filter, self.sampling_bounds) }
    }

    pub fn new(filter: Filter, sampling_bounds: bool) -> (options: DrawSurfaceOptions)
        ensures
            options.filter == filter,
            options.sampling_bounds == sampling_bounds,
    {
        DrawSurfaceOptions { filter, sampling_bounds }
    }

    /// Packs the filter code and the clamping flag as the backend reads them.
    pub fn as_azure_draw_surface_options(&self) -> (record: AzDrawSurfaceOptions)
        ensures
            record == self.azure_draw_surface_options(),
    {
        let clamp: u32 = if self.sampling_bounds {
            8
        } else {
            0
        };
        AzDrawSurfaceOptions { fields: self.filter.as_azure_filter() | clamp }
    }
}

/// The packed surface options are the filter code, plus eight when sampling
/// is clamped: the flag never collides with a filter code, so both can be
/// read back.
pub proof fn law_surface_options_fields(filter: Filter, sampling_bounds: bool)
    ensures
        surface_options_fields(filter, sampling_bounds) == filter.code() + if sampling_bounds {
            8int
        } else {
            0int
        },
        surface_options_fields(filter, sampling_bounds) & 7u32 == filter.code(),
        (surface_options_fields(filter, sampling_bounds) & 8u32 != 0) == sampling_bounds,
{
    let code: u32 = filter.code();
    assert(code <= 2);
    assert(code <= 2 ==> {
        &&& code | 8u32 == code + 8
        &&& code | 0u32 == code
        &&& (code | 8u32) & 7u32 == code
        &&& (code | 0u32) & 7u32 == code
        &&& (code | 8u32) & 8u32 != 0
        &&& (code | 0u32) & 8u32 == 0
    }) by (bit_vector);
}

} // verus!
