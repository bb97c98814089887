//! What is drawn on a draw target: fills, strokes, blits, glyphs, clips and
//! transforms, and the surfaces, gradients and path builders made from it.

use vstd::prelude::*;
use crate::call::{BackendCall, ClipShape, clip_stack_after_all};
use crate::codes::{CompositionOp, ExtendMode, SurfaceFormat};
use crate::draw_target::DrawTarget;
use crate::error::Error;
use crate::geometry::{AsAzureIntSize, AsAzurePoint, AsAzureRect, Matrix2D, Point2D, Rect, Size2D};
use crate::options::{DrawOptions, DrawSurfaceOptions, StrokeOptions};
use crate::path::Path;
use crate::pattern::{Color, ColorPattern, GradientStop, PatternRef};
use crate::surface::SourceSurface;
use crate::wire::{AzDrawOptions, AzFloat, AzGlyphBuffer, AzGradientStop};

verus! {

/// The backend stops that a run of gradient stops stands for, in the same
/// order.
pub open spec fn azure_gradient_stops(stops: Seq<GradientStop>) -> Seq<AzGradientStop> {
    Seq::new(stops.len(), |i: int| stops[i].azure_gradient_stop())
}

/// Whether pixel data of `length` bytes is exactly `height` rows of `stride`
/// bytes each.
pub open spec fn data_is_exact(length: int, stride: int, height: int) -> bool {
    length == stride * height
}

impl DrawTarget {
    /// Clears the pixels inside `rect`.
    pub fn clear_rect(&self, rect: &Rect<AzFloat>) -> (call: BackendCall)
        ensures
            call == (BackendCall::ClearRect { target: self@.target, rect: rect.azure_rect() }),
    {
        BackendCall::ClearRect { target: self.handle(), rect: rect.as_azure_rect() }
    }

    /// Fills the inside of `path` with a flat colour.
    pub fn fill(&self, path: &Path, pattern: &ColorPattern, draw_options: &DrawOptions) -> (call:
        BackendCall)
        ensures
            call == (BackendCall::Fill {
                target: self@.target,
                path: path@,
                pattern: pattern@,
                options: draw_options.azure_draw_options(),
            }),
    {
        BackendCall::Fill {
            target: self.handle(),
            path: path.handle(),
            pattern: pattern.handle(),
            options: draw_options.as_azure_draw_options(),
        }
    }

    /// Fills `rect` with a pattern of either sort. Without draw options the
    /// backend uses its defaults.
    pub fn fill_rect(
        &self,
        rect: &Rect<AzFloat>,
        pattern: PatternRef,
        draw_options: Option<&DrawOptions>,
    ) -> (call: BackendCall)
        ensures
            call == (BackendCall::FillRect {
                target: self@.target,
                rect: rect.azure_rect(),
                pattern: pattern.azure_pattern(),
                options: match draw_options {
                    Some(draw_options) => Some(draw_options.azure_draw_options()),
                    None => None,
                },
            }),
    {
        let options: Option<AzDrawOptions> = match draw_options {
            None => None,
            Some(draw_options) => Some(draw_options.as_azure_draw_options()),
        };
        BackendCall::FillRect {
            target: self.handle(),
            rect: rect.as_azure_rect(),
            pattern: pattern.as_azure_pattern(),
            options,
        }
    }

    /// Strokes the segment from `start` to `end` with a flat colour.
    pub fn stroke_line(
        &self,
        start: Point2D<AzFloat>,
        end: Point2D<AzFloat>,
        pattern: &ColorPattern,
        stroke_options: &StrokeOptions,
        draw_options: &DrawOptions,
    ) -> (call: BackendCall)
        ensures
            call == (BackendCall::StrokeLine {
                target: self@.target,
                start: start.azure_point(),
                end: end.azure_point(),
                pattern: pattern@,
                stroke_options: stroke_options.azure_stroke_options(),
                draw_options: draw_options.azure_draw_options(),
            }),
    {
        BackendCall::StrokeLine {
            target: self.handle(),
            start: start.as_azure_point(),
            end: end.as_azure_point(),
            pattern: pattern.handle(),
            stroke_options: stroke_options.as_azure_stroke_options(),
            draw_options: draw_options.as_azure_draw_options(),
        }
    }

    /// Strokes the outline of `rect` with a flat colour.
    pub fn stroke_rect(
        &self,
        rect: &Rect<AzFloat>,
        pattern: &ColorPattern,
        stroke_options: &StrokeOptions,
        draw_options: &DrawOptions,
    ) -> (call: BackendCall)
        ensures
            call == (BackendCall::StrokeRect {
                target: self@.target,
                rect: rect.azure_rect(),
                pattern: pattern@,
                stroke_options: stroke_options.azure_stroke_options(),
                draw_options: draw_options.azure_draw_options(),
            }),
    {
        BackendCall::StrokeRect {
            target: self.handle(),
            rect: rect.as_azure_rect(),
            pattern: pattern.handle(),
            stroke_options: stroke_options.as_azure_stroke_options(),
            draw_options: draw_options.as_azure_draw_options(),
        }
    }

    /// Draws the part of `surface` inside `source` into `dest`. The surface
    /// is used up: once it is drawn, its reference is released.
    #[must_use]
    pub fn draw_surface(
        &self,
        surface: SourceSurface,
        dest: Rect<AzFloat>,
        source: Rect<AzFloat>,
        surf_options: DrawSurfaceOptions,
        options: DrawOptions,
    ) -> (calls: Vec<BackendCall>)
        ensures
            calls@ == seq![
                BackendCall::DrawSurface {
                    target: self@.target,
                    surface: surface@,
                    dest: dest.azure_rect(),
                    source: source.azure_rect(),
                    surface_options: surf_options.azure_draw_surface_options(),
                    draw_options: options.azure_draw_options(),
                },
                BackendCall::ReleaseSourceSurface { surface: surface@ },
            ],
    {
        let mut calls: Vec<BackendCall> = Vec::new();
        calls.push(
            BackendCall::DrawSurface {
                target: self.handle(),
                surface: surface.handle(),
                dest: dest.as_azure_rect(),
                source: source.as_azure_rect(),
                surface_options: surf_options.as_azure_draw_surface_options(),
                draw_options: options.as_azure_draw_options(),
            },
        );
        calls.push(surface.release());
        calls
    }

    /// Draws the blurred, tinted shadow of `surface` at `dest` displaced by
    /// `offset`, and nothing else: the surface itself is not drawn. The
    /// surface is used up: once its shadow is drawn, its reference is
    /// released.
    #[must_use]
    pub fn draw_surface_with_shadow(
        &self,
        surface: SourceSurface,
        dest: &Point2D<AzFloat>,
        color: &Color,
        offset: &Point2D<AzFloat>,
        sigma: AzFloat,
        operator: CompositionOp,
    ) -> (calls: Vec<BackendCall>)
        ensures
            calls@ == seq![
                BackendCall::DrawSurfaceWithShadow {
                    target: self@.target,
                    surface: surface@,
                    dest: dest.azure_point(),
                    color: color.azure_color(),
                    offset: offset.azure_point(),
                    sigma,
                    operator: operator.code(),
                },
                BackendCall::ReleaseSourceSurface { surface: surface@ },
            ],
    {
        let mut calls: Vec<BackendCall> = Vec::new();
        calls.push(
            BackendCall::DrawSurfaceWithShadow {
                target: self.handle(),
                surface: surface.handle(),
                dest: dest.as_azure_point(),
                color: color.as_azure_color(),
                offset: offset.as_azure_point(),
                sigma,
                operator: operator.as_azure_composition_op(),
            },
        );
        calls.push(surface.release());
        calls
    }

    /// Captures the target's pixels as they are now. The answer to the call
    /// is the handle of a source surface.
    pub fn snapshot(&self) -> (call: BackendCall)
        ensures
            call == (BackendCall::GetSnapshot { target: self@.target }),
    {
        BackendCall::GetSnapshot { target: self.handle() }
    }

    /// Plans a source surface over the caller's pixel data, whose rows are
    /// `stride` bytes apart. The data must be exactly `stride * size.height`
    /// bytes long; when it is not, nothing is planned. The answer to the
    /// call is the surface's handle.
    pub fn create_source_surface_from_data(
        &self,
        data: &[u8],
        size: Size2D<i32>,
        stride: i32,
        format: SurfaceFormat,
    ) -> (result: Result<BackendCall, Error>)
        ensures
            result is Ok <==> data_is_exact(data@.len() as int, stride as int, size.height as int),
            result is Err ==> result == Err::<BackendCall, Error>(Error::PreconditionViolated),
            result is Ok ==> result->Ok_0 == (BackendCall::CreateSourceSurfaceFromData {
                target: self@.target,
                length: data@.len() as usize,
                size: size.azure_int_size(),
                stride,
                format: format.code(),
            }),
    {
        let length: usize = data.len();
        assert(-0x4000_0000_0000_0000 <= stride * size.height <= 0x4000_0000_0000_0000)
            by (nonlinear_arith)
            requires
                -0x8000_0000 <= stride <= 0x7fff_ffff,
                -0x8000_0000 <= size.height <= 0x7fff_ffff,
        ;
        let needed: i64 = (stride as i64) * (size.height as i64);
        if needed < 0 || needed as u64 != length as u64 {
            return Err(Error::PreconditionViolated);
        }
        Ok(
            BackendCall::CreateSourceSurfaceFromData {
                target: self.handle(),
                length,
                size: size.as_azure_int_size(),
                stride,
                format: format.as_azure_surface_format(),
            },
        )
    }

    /// Plans a table of the given gradient stops, in the order given, with
    /// the given behaviour outside the stops. The offsets are handed on as
    /// they are, sorted or not. There must be at least one stop, and no more
    /// than the backend can count in 32 bits. The answer to the call is the
    /// table's handle.
    pub fn create_gradient_stops(
        &self,
        gradient_stops: &[GradientStop],
        extend_mode: ExtendMode,
    ) -> (call: BackendCall)
        requires
            0 < gradient_stops@.len() <= u32::MAX,
        ensures
            call matches BackendCall::CreateGradientStops { target, stops, extend_mode: mode } && {
                &&& target == self@.target
                &&& stops@ == azure_gradient_stops(gradient_stops@)
                &&& mode == extend_mode.code()
            },
    {
        let mut stops: Vec<AzGradientStop> = Vec::new();
        let mut i: usize = 0;
        while i < gradient_stops.len()
            invariant
                i <= gradient_stops@.len(),
                stops@.len() == i,
                forall|j: int|
                    0 <= j < i ==> stops@[j] == (#[trigger] gradient_stops@[j])
                        .azure_gradient_stop(),
            decreases gradient_stops@.len() - i,
        {
            stops.push(gradient_stops[i].as_azure_gradient_stop());
            i = i + 1;
        }
        assert(stops@ =~= azure_gradient_stops(gradient_stops@));
        BackendCall::CreateGradientStops {
            target: self.handle(),
            stops,
            extend_mode: extend_mode.as_azure_extend_mode(),
        }
    }

    /// Replaces the transform from user space to device space.
    pub fn set_transform(&self, matrix: &Matrix2D<AzFloat>) -> (call: BackendCall)
        ensures
            call == (BackendCall::SetTransform {
                target: self@.target,
                matrix: matrix.azure_matrix(),
            }),
    {
        BackendCall::SetTransform {
            target: self.handle(),
            matrix: matrix.as_azure_matrix(),
        }
    }

    /// Paints a shaped glyph run. Font, glyph buffer, pattern and rendering
    /// options are handed on as they are.
    pub fn fill_glyphs(
        &self,
        azfontref: usize,
        glyphbuf: AzGlyphBuffer,
        azure_pattern: usize,
        options: AzDrawOptions,
        rendering_options: usize,
    ) -> (call: BackendCall)
        ensures
            call == (BackendCall::FillGlyphs {
                target: self@.target,
                font: azfontref,
                glyphs: glyphbuf,
                pattern: azure_pattern,
                options,
                rendering_options,
            }),
    {
        BackendCall::FillGlyphs {
            target: self.handle(),
            font: azfontref,
            glyphs: glyphbuf,
            pattern: azure_pattern,
            options,
            rendering_options,
        }
    }

    /// Plans an empty path builder for this target. The answer to the call
    /// is the builder's handle.
    pub fn create_path_builder(&self) -> (call: BackendCall)
        ensures
            call == (BackendCall::CreatePathBuilder { target: self@.target }),
    {
        BackendCall::CreatePathBuilder { target: self.handle() }
    }

    /// Narrows the clip to the inside of `path`.
    pub fn push_clip(&self, path: &Path) -> (call: BackendCall)
        ensures
            call == (BackendCall::PushClip { target: self@.target, path: path@ }),
    {
        BackendCall::PushClip { target: self.handle(), path: path.handle() }
    }

    /// Narrows the clip to `rect`.
    pub fn push_clip_rect(&self, rect: &Rect<AzFloat>) -> (call: BackendCall)
        ensures
            call == (BackendCall::PushClipRect { target: self@.target, rect: rect.azure_rect() }),
    {
        BackendCall::PushClipRect { target: self.handle(), rect: rect.as_azure_rect() }
    }

    /// Undoes the latest push that has not been undone yet.
    pub fn pop_clip(&self) -> (call: BackendCall)
        ensures
            call == (BackendCall::PopClip { target: self@.target }),
    {
        BackendCall::PopClip { target: self.handle() }
    }
}

/// Pushing a clip rectangle, then a clip path, then popping twice leaves the
/// target's clip stack as it was before the first push.
pub proof fn law_clip_stack_balance(
    stack: Seq<ClipShape>,
    target: DrawTarget,
    rect: Rect<AzFloat>,
    path: Path,
)
    ensures
        clip_stack_after_all(
            stack,
            target@.target,
            seq![
                BackendCall::PushClipRect { target: target@.target, rect: rect.azure_rect() },
                BackendCall::PushClip { target: target@.target, path: path@ },
                BackendCall::PopClip { target: target@.target },
                BackendCall::PopClip { target: target@.target },
            ],
        ) == stack,
{
    let t = target@.target;
    let c0 = BackendCall::PushClipRect { target: t, rect: rect.azure_rect() };
    let c1 = BackendCall::PushClip { target: t, path: path@ };
    let c2 = BackendCall::PopClip { target: t };
    let calls = seq![c0, c1, c2, c2];
    let three = calls.drop_last();
    let two = three.drop_last();
    let one = two.drop_last();
    assert(three =~= seq![c0, c1, c2]);
    assert(two =~= seq![c0, c1]);
    assert(one =~= seq![c0]);
    assert(one.drop_last() =~= Seq::<BackendCall>::empty());
    reveal_with_fuel(clip_stack_after_all, 5);
    let s1 = stack.push(ClipShape::Rect(rect.azure_rect()));
    let s2 = s1.push(ClipShape::Path(path@));
    assert(clip_stack_after_all(stack, t, one) == s1);
    assert(clip_stack_after_all(stack, t, two) == s2);
    assert(s2.drop_last() =~= s1);
    assert(clip_stack_after_all(stack, t, three) == s1);
    assert(s1.drop_last() =~= stack);
}

} // verus!
