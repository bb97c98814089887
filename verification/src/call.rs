//! The calls this layer asks the embedding to make on the backend, and a
//! small model of what those calls do to reference counts and clip stacks.
//!
//! Nothing here talks to the backend. Every operation of the layer returns
//! the calls that carry it out, in the order in which they are to be made;
//! the embedding makes them and hands back what the backend answered.

use vstd::prelude::*;
use crate::wire::{
    AzColor, AzDrawOptions, AzDrawSurfaceOptions, AzFloat, AzGlyphBuffer, AzGradientStop,
    AzIntSize, AzMatrix, AzPoint, AzRect, AzStrokeOptions,
};

verus! {

/// One call on the backend. Handles are the backend's opaque tokens; enum
/// arguments are already reduced to their integer codes.
#[must_use]
#[derive(Clone, Debug, PartialEq, Eq)]
pub enum BackendCall {
    /// Creates a flat colour pattern. Answers the pattern's handle.
    CreateColorPattern { color: AzColor },
    /// Creates an off-screen draw target. Answers the target's handle.
    CreateDrawTarget { backend: u32, size: AzIntSize, format: u32 },
    /// Creates a draw target that renders into the caller's buffer, starting
    /// `offset` bytes into it. Answers the target's handle.
    CreateDrawTargetForData { backend: u32, offset: usize, size: AzIntSize, stride: i32, format: u32 },
    /// Creates a shared GL context on a native graphics context. Answers the
    /// context's handle.
    CreateSkiaSharedGLContext { native_context: usize, size: AzIntSize },
    /// Creates a draw target on the framebuffer of a shared GL context.
    /// Answers the target's handle.
    CreateSkiaDrawTargetForFBO { context: usize, size: AzIntSize, format: u32 },
    /// Creates an empty path builder. Answers the builder's handle.
    CreatePathBuilder { target: usize },
    /// Creates a linear gradient pattern over a stop table. Answers the
    /// pattern's handle.
    CreateLinearGradientPattern { begin: AzPoint, end: AzPoint, stops: usize, matrix: AzMatrix },
    /// Wraps `length` bytes of the caller's pixel data as a source surface.
    /// Answers the surface's handle.
    CreateSourceSurfaceFromData {
        target: usize,
        length: usize,
        size: AzIntSize,
        stride: i32,
        format: u32,
    },
    /// Builds a gradient stop table. Answers the table's handle.
    CreateGradientStops { target: usize, stops: Vec<AzGradientStop>, extend_mode: u32 },
    /// Captures the target's current pixels. Answers a source surface handle.
    GetSnapshot { target: usize },
    /// Gives pixel access to a source surface. Answers a data surface handle.
    GetDataSurface { surface: usize },
    /// Seals the builder's geometry. Answers the path's handle.
    PathBuilderFinish { builder: usize },
    RetainDrawTarget { target: usize },
    ReleaseDrawTarget { target: usize },
    RetainSkiaSharedGLContext { context: usize },
    ReleaseSkiaSharedGLContext { context: usize },
    ReleasePattern { pattern: usize },
    ReleaseGradientStops { stops: usize },
    ReleaseSourceSurface { surface: usize },
    ReleasePath { path: usize },
    ReleasePathBuilder { builder: usize },
    /// Answers the target's size in pixels.
    DrawTargetGetSize { target: usize },
    /// Answers the surface's size in pixels.
    SourceSurfaceGetSize { surface: usize },
    /// Answers the code of the surface's pixel layout.
    SourceSurfaceGetFormat { surface: usize },
    /// Answers the address of the surface's pixels.
    DataSourceSurfaceGetData { surface: usize },
    /// Answers the number of bytes from one pixel row to the next.
    DataSourceSurfaceGetStride { surface: usize },
    /// Answers the GL context that is current on the calling thread.
    GetCurrentGLContext,
    /// Takes the native surface out of a shared GL context. Answers its handle.
    StealSurface { context: usize },
    ClearRect { target: usize, rect: AzRect },
    Fill { target: usize, path: usize, pattern: usize, options: AzDrawOptions },
    FillRect { target: usize, rect: AzRect, pattern: usize, options: Option<AzDrawOptions> },
    StrokeLine {
        target: usize,
        start: AzPoint,
        end: AzPoint,
        pattern: usize,
        stroke_options: AzStrokeOptions,
        draw_options: AzDrawOptions,
    },
    StrokeRect {
        target: usize,
        rect: AzRect,
        pattern: usize,
        stroke_options: AzStrokeOptions,
        draw_options: AzDrawOptions,
    },
    DrawSurface {
        target: usize,
        surface: usize,
        dest: AzRect,
        source: AzRect,
        surface_options: AzDrawSurfaceOptions,
        draw_options: AzDrawOptions,
    },
    DrawSurfaceWithShadow {
        target: usize,
        surface: usize,
        dest: AzPoint,
        color: AzColor,
        offset: AzPoint,
        sigma: AzFloat,
        operator: u32,
    },
    FillGlyphs {
        target: usize,
        font: usize,
        glyphs: AzGlyphBuffer,
        pattern: usize,
        options: AzDrawOptions,
        rendering_options: usize,
    },
    SetTransform { target: usize, matrix: AzMatrix },
    PushClip { target: usize, path: usize },
    PushClipRect { target: usize, rect: AzRect },
    PopClip { target: usize },
    Flush { target: usize },
    MakeCurrent { context: usize },
    FlushGLContext { context: usize },
    PathBuilderMoveTo { builder: usize, point: AzPoint },
    PathBuilderLineTo { builder: usize, point: AzPoint },
    PathBuilderArc {
        builder: usize,
        origin: AzPoint,
        radius: AzFloat,
        start_angle: AzFloat,
        end_angle: AzFloat,
        anticlockwise: bool,
    },
}

/// The kinds of reference-counted object the backend hands out. Patterns of
/// both sorts share one kind, and so do source and data surfaces: the backend
/// releases them through the same call.
#[derive(Clone, Copy, Debug, PartialEq, Eq, Structural)]
pub enum HandleKind {
    DrawTarget,
    GLContext,
    Pattern,
    GradientStops,
    SourceSurface,
    Path,
    PathBuilder,
}

/// One backend object: its kind and its handle.
#[derive(Clone, Copy, Debug, PartialEq, Eq, Structural)]
pub struct Resource {
    pub kind: HandleKind,
    pub token: usize,
}

impl BackendCall {
    /// The kind of object this call creates, if it creates one. The answer
    /// to such a call is the handle of the new object, or null when the
    /// backend could not make it; the handle comes with one reference, which
    /// belongs to whoever made the call.
    pub open spec fn created(self) -> Option<HandleKind> {
        match self {
            BackendCall::CreateDrawTarget { .. } => Some(HandleKind::DrawTarget),
            BackendCall::CreateDrawTargetForData { .. } => Some(HandleKind::DrawTarget),
            BackendCall::CreateSkiaDrawTargetForFBO { .. } => Some(HandleKind::DrawTarget),
            BackendCall::CreateSkiaSharedGLContext { .. } => Some(HandleKind::GLContext),
            BackendCall::CreateColorPattern { .. } => Some(HandleKind::Pattern),
            BackendCall::CreateLinearGradientPattern { .. } => Some(HandleKind::Pattern),
            BackendCall::CreateGradientStops { .. } => Some(HandleKind::GradientStops),
            BackendCall::CreateSourceSurfaceFromData { .. } => Some(HandleKind::SourceSurface),
            BackendCall::GetSnapshot { .. } => Some(HandleKind::SourceSurface),
            BackendCall::GetDataSurface { .. } => Some(HandleKind::SourceSurface),
            BackendCall::CreatePathBuilder { .. } => Some(HandleKind::PathBuilder),
            BackendCall::PathBuilderFinish { .. } => Some(HandleKind::Path),
            _ => None,
        }
    }

    /// The object on which this call takes one more reference, if any.
    pub open spec fn retained(self) -> Option<Resource> {
        match self {
            BackendCall::RetainDrawTarget { target } => Some(
                Resource { kind: HandleKind::DrawTarget, token: target },
            ),
            BackendCall::RetainSkiaSharedGLContext { context } => Some(
                Resource { kind: HandleKind::GLContext, token: context },
            ),
            _ => None,
        }
    }

    /// The object on which this call gives one reference back, if any.
    pub open spec fn released(self) -> Option<Resource> {
        match self {
            BackendCall::ReleaseDrawTarget { target } => Some(
                Resource { kind: HandleKind::DrawTarget, token: target },
            ),
            BackendCall::ReleaseSkiaSharedGLContext { context } => Some(
                Resource { kind: HandleKind::GLContext, token: context },
            ),
            BackendCall::ReleasePattern { pattern } => Some(
                Resource { kind: HandleKind::Pattern, token: pattern },
            ),
            BackendCall::ReleaseGradientStops { stops } => Some(
                Resource { kind: HandleKind::GradientStops, token: stops },
            ),
            BackendCall::ReleaseSourceSurface { surface } => Some(
                Resource { kind: HandleKind::SourceSurface, token: surface },
            ),
            BackendCall::ReleasePath { path } => Some(
                Resource { kind: HandleKind::Path, token: path },
            ),
            BackendCall::ReleasePathBuilder { builder } => Some(
                Resource { kind: HandleKind::PathBuilder, token: builder },
            ),
            _ => None,
        }
    }

    /// The kind of object this call creates, if it creates one.
    pub fn creates(&self) -> (kind: Option<HandleKind>)
        ensures
            kind == self.created(),
    {
        match self {
            BackendCall::CreateDrawTarget { .. } => Some(HandleKind::DrawTarget),
            BackendCall::CreateDrawTargetForData { .. } => Some(HandleKind::DrawTarget),
            BackendCall::CreateSkiaDrawTargetForFBO { .. } => Some(HandleKind::DrawTarget),
            BackendCall::CreateSkiaSharedGLContext { .. } => Some(HandleKind::GLContext),
            BackendCall::CreateColorPattern { .. } => Some(HandleKind::Pattern),
            BackendCall::CreateLinearGradientPattern { .. } => Some(HandleKind::Pattern),
            BackendCall::CreateGradientStops { .. } => Some(HandleKind::GradientStops),
            BackendCall::CreateSourceSurfaceFromData { .. } => Some(HandleKind::SourceSurface),
            BackendCall::GetSnapshot { .. } => Some(HandleKind::SourceSurface),
            BackendCall::GetDataSurface { .. } => Some(HandleKind::SourceSurface),
            BackendCall::CreatePathBuilder { .. } => Some(HandleKind::PathBuilder),
            BackendCall::PathBuilderFinish { .. } => Some(HandleKind::Path),
            _ => None,
        }
    }

    /// The object this call retains, if it is a retain call.
    pub fn retains(&self) -> (resource: Option<Resource>)
        ensures
            resource == self.retained(),
    {
        match self {
            BackendCall::RetainDrawTarget { target } => Some(
                Resource { kind: HandleKind::DrawTarget, token: *target },
            ),
            BackendCall::RetainSkiaSharedGLContext { context } => Some(
                Resource { kind: HandleKind::GLContext, token: *context },
            ),
            _ => None,
        }
    }

    /// The object this call releases, if it is a release call.
    pub fn releases(&self) -> (resource: Option<Resource>)
        ensures
            resource == self.released(),
    {
        match self {
            BackendCall::ReleaseDrawTarget { target } => Some(
                Resource { kind: HandleKind::DrawTarget, token: *target },
            ),
            BackendCall::ReleaseSkiaSharedGLContext { context } => Some(
                Resource { kind: HandleKind::GLContext, token: *context },
            ),
            BackendCall::ReleasePattern { pattern } => Some(
                Resource { kind: HandleKind::Pattern, token: *pattern },
            ),
            BackendCall::ReleaseGradientStops { stops } => Some(
                Resource { kind: HandleKind::GradientStops, token: *stops },
            ),
            BackendCall::ReleaseSourceSurface { surface } => Some(
                Resource { kind: HandleKind::SourceSurface, token: *surface },
            ),
            BackendCall::ReleasePath { path } => Some(
                Resource { kind: HandleKind::Path, token: *path },
            ),
            BackendCall::ReleasePathBuilder { builder } => Some(
                Resource { kind: HandleKind::PathBuilder, token: *builder },
            ),
            _ => None,
        }
    }
}

/// How many calls in a run take a reference on `resource`.
pub open spec fn retain_count(calls: Seq<BackendCall>, resource: Resource) -> nat
    decreases calls.len(),
{
    if calls.len() == 0 {
        0
    } else {
        retain_count(calls.drop_last(), resource) + if calls.last().retained() == Some(resource) {
            1nat
        } else {
            0nat
        }
    }
}

/// How many calls in a run give a reference on `resource` back.
pub open spec fn release_count(calls: Seq<BackendCall>, resource: Resource) -> nat
    decreases calls.len(),
{
    if calls.len() == 0 {
        0
    } else {
        release_count(calls.drop_last(), resource) + if calls.last().released() == Some(
            resource,
        ) {
            1nat
        } else {
            0nat
        }
    }
}

/// By how much a run of calls changes the reference count of `resource`:
/// the retains of it in the run, less the releases.
pub open spec fn net_references(calls: Seq<BackendCall>, resource: Resource) -> int {
    retain_count(calls, resource) - release_count(calls, resource)
}

/// `calls` repeated `times` times, one copy after the other.
pub open spec fn repeated(calls: Seq<BackendCall>, times: nat) -> Seq<BackendCall>
    decreases times,
{
    if times == 0 {
        Seq::empty()
    } else {
        repeated(calls, (times - 1) as nat) + calls
    }
}

/// A run of one call retains and releases what that call does.
pub proof fn lemma_counts_single(call: BackendCall, resource: Resource)
    ensures
        retain_count(seq![call], resource) == if call.retained() == Some(resource) {
            1nat
        } else {
            0nat
        },
        release_count(seq![call], resource) == if call.released() == Some(resource) {
            1nat
        } else {
            0nat
        },
{
    reveal_with_fuel(retain_count, 2);
    reveal_with_fuel(release_count, 2);
    assert(seq![call].drop_last() =~= Seq::<BackendCall>::empty());
}

/// Two runs of calls, one after the other, retain and release as often as
/// the two do taken together.
pub proof fn lemma_counts_concat(
    first: Seq<BackendCall>,
    second: Seq<BackendCall>,
    resource: Resource,
)
    ensures
        retain_count(first + second, resource) == retain_count(first, resource) + retain_count(
            second,
            resource,
        ),
        release_count(first + second, resource) == release_count(first, resource) + release_count(
            second,
            resource,
        ),
    decreases second.len(),
{
    if second.len() == 0 {
        assert(first + second =~= first);
    } else {
        assert((first + second).drop_last() =~= first + second.drop_last());
        assert((first + second).last() == second.last());
        lemma_counts_concat(first, second.drop_last(), resource);
    }
}

/// Repeating a run of calls multiplies how often it retains and releases.
pub proof fn lemma_counts_repeated(calls: Seq<BackendCall>, times: nat, resource: Resource)
    ensures
        retain_count(repeated(calls, times), resource) == times * retain_count(calls, resource),
        release_count(repeated(calls, times), resource) == times * release_count(calls, resource),
    decreases times,
{
    if times == 0 {
    } else {
        let before = (times - 1) as nat;
        lemma_counts_repeated(calls, before, resource);
        lemma_counts_concat(repeated(calls, before), calls, resource);
        let retains = retain_count(calls, resource);
        let releases = release_count(calls, resource);
        assert(times * retains == before * retains + retains && times * releases == before
            * releases + releases) by (nonlinear_arith)
            requires
                times == before + 1,
        ;
    }
}

/// One entry of a draw target's clip stack.
pub enum ClipShape {
    Rect(AzRect),
    Path(usize),
}

/// The clip stack of the draw target `target` after `call`, given the stack
/// before it. A push puts its shape on top, a pop takes the top off, and a
/// call on anything else leaves the stack alone. Popping an empty stack is a
/// caller error that the model answers with the empty stack.
pub open spec fn clip_stack_after(stack: Seq<ClipShape>, target: usize, call: BackendCall) -> Seq<
    ClipShape,
> {
    match call {
        BackendCall::PushClipRect { target: on, rect } => if on == target {
            stack.push(ClipShape::Rect(rect))
        } else {
            stack
        },
        BackendCall::PushClip { target: on, path } => if on == target {
            stack.push(ClipShape::Path(path))
        } else {
            stack
        },
        BackendCall::PopClip { target: on } => if on == target && stack.len() > 0 {
            stack.drop_last()
        } else {
            stack
        },
        _ => stack,
    }
}

/// The clip stack of the draw target `target` after a run of calls.
pub open spec fn clip_stack_after_all(
    stack: Seq<ClipShape>,
    target: usize,
    calls: Seq<BackendCall>,
) -> Seq<ClipShape>
    decreases calls.len(),
{
    if calls.len() == 0 {
        stack
    } else {
        clip_stack_after(
            clip_stack_after_all(stack, target, calls.drop_last()),
            target,
            calls.last(),
        )
    }
}

} // verus!
