//! The draw target: how one is created, shared, flushed and given up.
//! What is drawn on it is in the module `drawing`.

use std::sync::Arc;
use vstd::prelude::*;
use crate::call::{BackendCall, HandleKind, Resource};
use crate::codes::{BackendType, SurfaceFormat};
use crate::error::Error;
use crate::geometry::{AsAzureIntSize, Size2D};
use crate::wire::AzIntSize;

verus! {

/// What a draw target is, to a contract: its backend handle, the bytes of the
/// buffer it renders into when it was created over caller memory, and the
/// handle of its shared GL context when it has one.
pub struct DrawTargetView {
    pub target: usize,
    pub data: Option<Seq<u8>>,
    pub skia_context: Option<usize>,
}

impl DrawTargetView {
    /// Whether a draw target with this view holds a reference on `resource`.
    pub open spec fn owns(self, resource: Resource) -> bool {
        ||| resource == (Resource { kind: HandleKind::DrawTarget, token: self.target })
        ||| self.skia_context == Some(resource.token) && resource.kind == HandleKind::GLContext
    }

    /// The calls that take one more reference on everything the target owns.
    pub open spec fn retain_calls(self) -> Seq<BackendCall> {
        match self.skia_context {
            Some(context) => seq![
                BackendCall::RetainDrawTarget { target: self.target },
                BackendCall::RetainSkiaSharedGLContext { context },
            ],
            None => seq![BackendCall::RetainDrawTarget { target: self.target }],
        }
    }

    /// The calls that give back one reference on everything the target owns.
    pub open spec fn release_calls(self) -> Seq<BackendCall> {
        match self.skia_context {
            Some(context) => seq![
                BackendCall::ReleaseDrawTarget { target: self.target },
                BackendCall::ReleaseSkiaSharedGLContext { context },
            ],
            None => seq![BackendCall::ReleaseDrawTarget { target: self.target }],
        }
    }

    /// The calls that make the backend, and the GL context when there is one,
    /// finish the work they have pending.
    pub open spec fn flush_calls(self) -> Seq<BackendCall> {
        match self.skia_context {
            Some(context) => seq![
                BackendCall::Flush { target: self.target },
                BackendCall::FlushGLContext { context },
            ],
            None => seq![BackendCall::Flush { target: self.target }],
        }
    }

    /// The call that takes the native surface out of the target's GL
    /// context, when the target has one.
    pub open spec fn steal_call(self) -> Option<BackendCall> {
        match self.skia_context {
            Some(context) => Some(BackendCall::StealSurface { context }),
            None => None,
        }
    }
}

/// The GL resources that a draw target was holding and that its caller has
/// taken over: at present, the native surface.
#[derive(Clone, Copy, Debug, PartialEq, Eq)]
pub struct StolenGLResources {
    pub surface: usize,
}

/// The pixels behind an optional shared buffer.
pub open spec fn buffer_view(data: Option<Arc<Vec<u8>>>) -> Option<Seq<u8>> {
    match data {
        Some(buffer) => Some(buffer@),
        None => None,
    }
}

/// What is left to do once a draw target has been given up: the calls that
/// release what it owned, and the pixel buffer it rendered into, if any. The
/// backend may write to the buffer for as long as it holds the target, so the
/// buffer is to be kept until the calls have been made.
#[must_use]
#[derive(Debug)]
pub struct Teardown {
    pub calls: Vec<BackendCall>,
    pub data: Option<Arc<Vec<u8>>>,
}

/// What is left to do once a draw target has been given up for its GL
/// resources: at most one call that takes the native surface out of the GL
/// context, then the teardown of the draw target.
#[must_use]
#[derive(Debug)]
pub struct StealPlan {
    pub steal: Option<BackendCall>,
    pub release: Teardown,
}

impl StealPlan {
    /// What the caller takes over, given the backend's answer to the steal
    /// call: the surface, when a steal call was planned, and nothing when
    /// none was.
    pub fn stolen(&self, surface: usize) -> (resources: Option<StolenGLResources>)
        ensures
            resources == match self.steal {
                Some(_) => Some(StolenGLResources { surface }),
                None => None,
            },
    {
        match &self.steal {
            Some(_) => Some(StolenGLResources { surface }),
            None => None,
        }
    }
}

/// An owner of one reference on a backend draw target and, where present, of
/// one reference on its shared GL context and of a share in the pixel buffer
/// the target renders into.
#[derive(Debug)]
pub struct DrawTarget {
    azure_draw_target: usize,
    data: Option<Arc<Vec<u8>>>,
    skia_context: Option<usize>,
}

impl View for DrawTarget {
    type V = DrawTargetView;

    closed spec fn view(&self) -> DrawTargetView {
        DrawTargetView {
            target: self.azure_draw_target,
            data: buffer_view(self.data),
            skia_context: self.skia_context,
        }
    }
}

/// What a pending draw target is, to a contract: the creation call whose
/// answer it waits for, and what the finished target will hold besides the
/// answer.
pub struct PendingDrawTargetView {
    pub call: BackendCall,
    pub data: Option<Seq<u8>>,
    pub skia_context: Option<usize>,
}

/// A draw target whose creation call has been planned and not yet answered.
#[must_use]
#[derive(Debug)]
pub struct PendingDrawTarget {
    call: BackendCall,
    data: Option<Arc<Vec<u8>>>,
    skia_context: Option<usize>,
}

impl View for PendingDrawTarget {
    type V = PendingDrawTargetView;

    closed spec fn view(&self) -> PendingDrawTargetView {
        PendingDrawTargetView {
            call: self.call,
            data: buffer_view(self.data),
            skia_context: self.skia_context,
        }
    }
}

/// What a pending GL context is, to a contract: the creation call whose
/// answer it waits for, and the size and pixel layout of the draw target that
/// will be created on the context.
pub struct PendingGLContextView {
    pub call: BackendCall,
    pub size: AzIntSize,
    pub format: u32,
}

/// The first half of a GL-backed draw target: the shared GL context has been
/// asked for and the backend has not yet answered.
#[must_use]
#[derive(Debug)]
pub struct PendingGLContext {
    call: BackendCall,
    size: AzIntSize,
    format: u32,
}

impl View for PendingGLContext {
    type V = PendingGLContextView;

    closed spec fn view(&self) -> PendingGLContextView {
        PendingGLContextView { call: self.call, size: self.size, format: self.format }
    }
}

/// Whether a buffer of `length` bytes has room for `height` rows of `stride`
/// bytes each, starting `offset` bytes in.
pub open spec fn buffer_fits(length: int, offset: int, stride: int, height: int) -> bool {
    offset <= length && stride * height <= length - offset
}

/// `Arc::clone` of the standard library: a second pointer to the same
/// allocation, so what comes back is the very buffer that was passed in.
#[verifier::external_body]
fn share_buffer(buffer: &Arc<Vec<u8>>) -> (shared: Arc<Vec<u8>>)
    ensures
        shared == *buffer,
{
    Arc::clone(buffer)
}

impl PendingGLContext {
    /// The creation call to make on the backend.
    pub fn call(&self) -> (call: &BackendCall)
        ensures
            *call == self@.call,
    {
        &self.call
    }

    /// Takes the backend's answer to the context's creation call and plans
    /// the creation of the draw target on that context. A null answer is a
    /// construction failure.
    pub fn complete(self, skia_context: usize) -> (result: Result<PendingDrawTarget, Error>)
        ensures
            skia_context == 0 ==> result == Err::<PendingDrawTarget, Error>(Error::NullHandle),
            skia_context != 0 ==> result is Ok && result->Ok_0@ == (PendingDrawTargetView {
                call: BackendCall::CreateSkiaDrawTargetForFBO {
                    context: skia_context,
                    size: self@.size,
                    format: self@.format,
                },
                data: None,
                skia_context: Some(skia_context),
            }),
    {
        if skia_context == 0 {
            return Err(Error::NullHandle);
        }
        Ok(
            PendingDrawTarget {
                call: BackendCall::CreateSkiaDrawTargetForFBO {
                    context: skia_context,
                    size: self.size,
                    format: self.format,
                },
                data: None,
                skia_context: Some(skia_context),
            },
        )
    }
}

impl PendingDrawTarget {
    #[verifier::type_invariant]
    spec fn well_formed(self) -> bool {
        self.skia_context != Some(0usize)
    }

    /// The creation call to make on the backend.
    pub fn call(&self) -> (call: &BackendCall)
        ensures
            *call == self@.call,
    {
        &self.call
    }

    /// The buffer the backend is to render into, when the target is created
    /// over caller memory.
    pub fn data(&self) -> (data: Option<&Arc<Vec<u8>>>)
        ensures
            data is Some <==> self@.data is Some,
            data matches Some(buffer) ==> self@.data == Some(buffer@),
    {
        match &self.data {
            Some(buffer) => Some(buffer),
            None => None,
        }
    }

    /// Takes the backend's answer to the creation call. A null answer is a
    /// construction failure; any other becomes the handle of a draw target
    /// that owns the one reference the creation handed out.
    pub fn complete(self, azure_draw_target: usize) -> (result: Result<DrawTarget, Error>)
        ensures
            azure_draw_target == 0 ==> result == Err::<DrawTarget, Error>(Error::NullHandle),
            azure_draw_target != 0 ==> result is Ok && result->Ok_0@ == (DrawTargetView {
                target: azure_draw_target,
                data: self@.data,
                skia_context: self@.skia_context,
            }),
    {
        proof {
            use_type_invariant(&self);
        }
        if azure_draw_target == 0 {
            return Err(Error::NullHandle);
        }
        Ok(DrawTarget { azure_draw_target, data: self.data, skia_context: self.skia_context })
    }
}

impl DrawTarget {
    #[verifier::type_invariant]
    spec fn well_formed(self) -> bool {
        self.azure_draw_target != 0 && self.skia_context != Some(0usize)
    }

    /// Plans an off-screen draw target of the given size and pixel layout.
    pub fn new(backend: BackendType, size: Size2D<i32>, format: SurfaceFormat) -> (pending:
        PendingDrawTarget)
        ensures
            pending@ == (PendingDrawTargetView {
                call: BackendCall::CreateDrawTarget {
                    backend: backend.code(),
                    size: size.azure_int_size(),
                    format: format.code(),
                },
                data: None,
                skia_context: None,
            }),
    {
        PendingDrawTarget {
            call: BackendCall::CreateDrawTarget {
                backend: backend.as_azure_backend_type(),
                size: size.as_azure_int_size(),
                format: format.as_azure_surface_format(),
            },
            data: None,
            skia_context: None,
        }
    }

    /// Plans a draw target that renders straight into `data`, starting
    /// `offset` bytes in, with rows `stride` bytes apart. The buffer must
    /// have room for `stride * size.height` bytes past the offset; when it
    /// has not, nothing is planned. The buffer is kept by the draw target.
    pub fn new_with_data(
        backend: BackendType,
        data: Vec<u8>,
        offset: usize,
        size: Size2D<i32>,
        stride: i32,
        format: SurfaceFormat,
    ) -> (result: Result<PendingDrawTarget, Error>)
        ensures
            result is Ok <==> buffer_fits(
                data@.len() as int,
                offset as int,
                stride as int,
                size.height as int,
            ),
            result is Err ==> result == Err::<PendingDrawTarget, Error>(
                Error::PreconditionViolated,
            ),
            result is Ok ==> result->Ok_0@ == (PendingDrawTargetView {
                call: BackendCall::CreateDrawTargetForData {
                    backend: backend.code(),
                    offset,
                    size: size.azure_int_size(),
                    stride,
                    format: format.code(),
                },
                data: Some(data@),
                skia_context: None,
            }),
    {
        let length: usize = data.len();
        if offset > length {
            return Err(Error::PreconditionViolated);
        }
        let available: usize = length - offset;
        assert(-0x4000_0000_0000_0000 <= stride * size.height <= 0x4000_0000_0000_0000)
            by (nonlinear_arith)
            requires
                -0x8000_0000 <= stride <= 0x7fff_ffff,
                -0x8000_0000 <= size.height <= 0x7fff_ffff,
        ;
        let needed: i64 = (stride as i64) * (size.height as i64);
        if needed > 0 && needed as u64 > available as u64 {
            return Err(Error::PreconditionViolated);
        }
        Ok(
            PendingDrawTarget {
                call: BackendCall::CreateDrawTargetForData {
                    backend: backend.as_azure_backend_type(),
                    offset,
                    size: size.as_azure_int_size(),
                    stride,
                    format: format.as_azure_surface_format(),
                },
                data: Some(Arc::new(data)),
                skia_context: None,
            },
        )
    }

    /// Plans a draw target on the framebuffer of a shared GL context, which
    /// is created first on the given native graphics context. Only the Skia
    /// backend can do this; for any other, nothing is planned.
    pub fn new_with_fbo(
        backend: BackendType,
        native_graphics_context: usize,
        size: Size2D<i32>,
        format: SurfaceFormat,
    ) -> (result: Result<PendingGLContext, Error>)
        ensures
            backend != BackendType::SkiaBackend ==> result == Err::<PendingGLContext, Error>(
                Error::PreconditionViolated,
            ),
            backend == BackendType::SkiaBackend ==> result is Ok && result->Ok_0@ == (
            PendingGLContextView {
                call: BackendCall::CreateSkiaSharedGLContext {
                    native_context: native_graphics_context,
                    size: size.azure_int_size(),
                },
                size: size.azure_int_size(),
                format: format.code(),
            }),
    {
        match backend {
            BackendType::SkiaBackend => {},
            _ => {
                return Err(Error::PreconditionViolated);
            },
        }
        Ok(
            PendingGLContext {
                call: BackendCall::CreateSkiaSharedGLContext {
                    native_context: native_graphics_context,
                    size: size.as_azure_int_size(),
                },
                size: size.as_azure_int_size(),
                format: format.as_azure_surface_format(),
            },
        )
    }

    /// A second owner of the same backend target: the clone, and the retain
    /// calls that pay for it. The calls are to be made before the clone is
    /// used. A buffer the target renders into is shared, not copied.
    #[must_use]
    pub fn clone(&self) -> (result: (DrawTarget, Vec<BackendCall>))
        ensures
            result.0@ == self@,
            result.1@ == self@.retain_calls(),
    {
        proof {
            use_type_invariant(self);
        }
        let mut calls: Vec<BackendCall> = Vec::new();
        calls.push(BackendCall::RetainDrawTarget { target: self.azure_draw_target });
        match self.skia_context {
            Some(context) => {
                calls.push(BackendCall::RetainSkiaSharedGLContext { context });
            },
            None => {},
        }
        let twin = DrawTarget {
            azure_draw_target: self.azure_draw_target,
            data: match &self.data {
                None => None,
                Some(buffer) => Some(share_buffer(buffer)),
            },
            skia_context: self.skia_context,
        };
        (twin, calls)
    }

    /// Gives up this owner's references: the release calls for the target
    /// and, when it has one, for its GL context, together with this owner's
    /// share in the pixel buffer, which is to outlive the calls.
    pub fn release(self) -> (teardown: Teardown)
        ensures
            teardown.calls@ == self@.release_calls(),
            buffer_view(teardown.data) == self@.data,
    {
        let mut calls: Vec<BackendCall> = Vec::new();
        calls.push(BackendCall::ReleaseDrawTarget { target: self.azure_draw_target });
        match self.skia_context {
            Some(context) => {
                calls.push(BackendCall::ReleaseSkiaSharedGLContext { context });
            },
            None => {},
        }
        Teardown { calls, data: self.data }
    }

    /// The backend handle of the target. It is never null.
    pub fn handle(&self) -> (target: usize)
        ensures
            target == self@.target,
            target != 0,
    {
        proof {
            use_type_invariant(self);
        }
        self.azure_draw_target
    }

    /// The buffer the target renders into, when it was created over caller
    /// memory.
    pub fn data(&self) -> (data: Option<&Arc<Vec<u8>>>)
        ensures
            data is Some <==> self@.data is Some,
            data matches Some(buffer) ==> self@.data == Some(buffer@),
    {
        match &self.data {
            Some(buffer) => Some(buffer),
            None => None,
        }
    }

    /// The handle of the target's shared GL context, when it has one. It is
    /// never null.
    pub fn skia_context(&self) -> (context: Option<usize>)
        ensures
            context == self@.skia_context,
            context != Some(0usize),
    {
        proof {
            use_type_invariant(self);
        }
        self.skia_context
    }
}

impl DrawTarget {
    /// Makes the target's GL context current on the calling thread. A target
    /// without a GL context plans nothing.
    #[must_use]
    pub fn make_current(&self) -> (call: Option<BackendCall>)
        ensures
            call == match self@.skia_context {
                Some(context) => Some(BackendCall::MakeCurrent { context }),
                None => None,
            },
    {
        match self.skia_context {
            None => None,
            Some(context) => Some(BackendCall::MakeCurrent { context }),
        }
    }

    /// Gives the draw target up for the native surface of its GL context.
    /// The target is consumed. With a GL context, exactly one steal call is
    /// planned, whose answer is the surface; without one, none is. Either
    /// way the references the target owned are released afterwards.
    pub fn steal_gl_resources(self) -> (plan: StealPlan)
        ensures
            plan.steal == self@.steal_call(),
            plan.steal is Some <==> self@.skia_context is Some,
            plan.release.calls@ == self@.release_calls(),
            buffer_view(plan.release.data) == self@.data,
    {
        let steal = match self.skia_context {
            Some(context) => Some(BackendCall::StealSurface { context }),
            None => None,
        };
        StealPlan { steal, release: self.release() }
    }

    /// Asks for the target's size in pixels. The answer is a backend size.
    pub fn get_size(&self) -> (call: BackendCall)
        ensures
            call == (BackendCall::DrawTargetGetSize { target: self@.target }),
    {
        BackendCall::DrawTargetGetSize { target: self.azure_draw_target }
    }

    /// Makes the backend finish pending work on the target, and then the GL
    /// context, when there is one, finish its own.
    #[must_use]
    pub fn flush(&self) -> (calls: Vec<BackendCall>)
        ensures
            calls@ == self@.flush_calls(),
    {
        let mut calls: Vec<BackendCall> = Vec::new();
        calls.push(BackendCall::Flush { target: self.azure_draw_target });
        match self.skia_context {
            None => {},
            Some(context) => {
                calls.push(BackendCall::FlushGLContext { context });
            },
        }
        calls
    }
}

/// Clones a draw target that is held by mutable reference, which is left as
/// it was.
#[must_use]
pub fn clone_mutable_draw_target(draw_target: &mut DrawTarget) -> (result: (
    DrawTarget,
    Vec<BackendCall>,
))
    ensures
        *final(draw_target) == *old(draw_target),
        result.0@ == old(draw_target)@,
        result.1@ == old(draw_target)@.retain_calls(),
{
    draw_target.clone()
}

/// Asks which GL context is current on the calling thread. The answer is the
/// backend's own; nothing is retained or released.
pub fn current_gl_context() -> (call: BackendCall)
    ensures
        call == BackendCall::GetCurrentGLContext,
{
    BackendCall::GetCurrentGLContext
}

} // verus!
