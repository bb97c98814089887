//! A verified call-planning layer for a retained-mode 2D graphics backend.
//!
//! The backend hands out opaque, reference-counted handles and is driven
//! through an in-process call interface. This crate holds everything that
//! can be decided without making a call: which calls an operation consists
//! of and in what order, how values are laid out for the backend, which
//! arguments are refused before the backend is reached, and who owns which
//! reference. The embedding makes the calls and hands the answers back.

pub mod call;
pub mod codes;
pub mod draw_target;
pub mod drawing;
pub mod error;
pub mod geometry;
pub mod options;
pub mod ownership;
pub mod path;
pub mod pattern;
pub mod surface;
pub mod wire;

pub use crate::call::{BackendCall, HandleKind, Resource};
pub use crate::codes::{BackendType, CompositionOp, ExtendMode, Filter, SurfaceFormat};
pub use crate::draw_target::{
    clone_mutable_draw_target, current_gl_context, DrawTarget, PendingDrawTarget,
    PendingGLContext, StealPlan, StolenGLResources, Teardown,
};
pub use crate::error::Error;
pub use crate::geometry::{
    AsAzureIntSize, AsAzurePoint, AsAzureRect, Matrix2D, Point2D, Rect, Size2D,
};
pub use crate::options::{DrawOptions, DrawSurfaceOptions, StrokeOptions};
pub use crate::path::{Path, PathBuilder};
pub use crate::pattern::{
    Color, ColorPattern, GradientStop, GradientStops, LinearGradientPattern, PatternRef,
};
pub use crate::surface::{DataSourceSurface, SourceSurface, SourceSurfaceMethods};
pub use crate::wire::{
    AzColor, AzDrawOptions, AzDrawSurfaceOptions, AzFloat, AzGlyphBuffer, AzGradientStop,
    AzIntSize, AzMatrix, AzPoint, AzRect, AzStrokeOptions,
};
