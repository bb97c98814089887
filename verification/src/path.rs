//! Paths and the builders that accumulate them.

use vstd::prelude::*;
use crate::call::BackendCall;
use crate::error::Error;
use crate::geometry::{AsAzurePoint, Point2D};
use crate::wire::AzFloat;

verus! {

/// An owner of one reference on a finished, immutable backend path.
#[derive(Debug)]
pub struct Path {
    azure_path: usize,
}

impl View for Path {
    type V = usize;

    closed spec fn view(&self) -> usize {
        self.azure_path
    }
}

impl Path {
    #[verifier::type_invariant]
    spec fn well_formed(self) -> bool {
        self.azure_path != 0
    }

    /// Takes ownership of the one reference that comes with a path handle
    /// the backend handed out. A null handle is a construction failure.
    pub fn from_raw(azure_path: usize) -> (result: Result<Path, Error>)
        ensures
            azure_path == 0 ==> result == Err::<Path, Error>(Error::NullHandle),
            azure_path != 0 ==> result is Ok && result->Ok_0@ == azure_path,
    {
        if azure_path == 0 {
            return Err(Error::NullHandle);
        }
        Ok(Path { azure_path })
    }

    /// The backend handle of the path. It is never null.
    pub fn handle(&self) -> (path: usize)
        ensures
            path == self@,
            path != 0,
    {
        proof {
            use_type_invariant(self);
        }
        self.azure_path
    }

    /// Gives up this owner's reference.
    pub fn release(self) -> (call: BackendCall)
        ensures
            call == (BackendCall::ReleasePath { path: self@ }),
    {
        BackendCall::ReleasePath { path: self.azure_path }
    }
}

/// An owner of one reference on a backend path builder, which gathers
/// subpaths until it is finished into a path.
#[derive(Debug)]
pub struct PathBuilder {
    azure_path_builder: usize,
}

impl View for PathBuilder {
    type V = usize;

    closed spec fn view(&self) -> usize {
        self.azure_path_builder
    }
}

impl PathBuilder {
    #[verifier::type_invariant]
    spec fn well_formed(self) -> bool {
        self.azure_path_builder != 0
    }

    /// Takes ownership of the one reference that comes with a builder handle
    /// the backend handed out. A null handle is a construction failure.
    pub fn from_raw(azure_path_builder: usize) -> (result: Result<PathBuilder, Error>)
        ensures
            azure_path_builder == 0 ==> result == Err::<PathBuilder, Error>(Error::NullHandle),
            azure_path_builder != 0 ==> result is Ok && result->Ok_0@ == azure_path_builder,
    {
        if azure_path_builder == 0 {
            return Err(Error::NullHandle);
        }
        Ok(PathBuilder { azure_path_builder })
    }

    /// The backend handle of the builder. It is never null.
    pub fn handle(&self) -> (builder: usize)
        ensures
            builder == self@,
            builder != 0,
    {
        proof {
            use_type_invariant(self);
        }
        self.azure_path_builder
    }

    /// Starts a new subpath at `point`.
    pub fn move_to(&self, point: Point2D<AzFloat>) -> (call: BackendCall)
        ensures
            call == (BackendCall::PathBuilderMoveTo { builder: self@, point: point.azure_point() }),
    {
        let az_point = point.as_azure_point();
        BackendCall::PathBuilderMoveTo { builder: self.azure_path_builder, point: az_point }
    }

    /// Adds a straight segment from the current point to `point`.
    pub fn line_to(&self, point: Point2D<AzFloat>) -> (call: BackendCall)
        ensures
            call == (BackendCall::PathBuilderLineTo { builder: self@, point: point.azure_point() }),
    {
        let az_point = point.as_azure_point();
        BackendCall::PathBuilderLineTo { builder: self.azure_path_builder, point: az_point }
    }

    /// Adds an arc to the current figure: part of the circle around `origin`
    /// with the given radius, between two angles in radians, swept in the
    /// direction `anticlockwise` says.
    pub fn arc(
        &self,
        origin: Point2D<AzFloat>,
        radius: AzFloat,
        start_angle: AzFloat,
        end_angle: AzFloat,
        anticlockwise: bool,
    ) -> (call: BackendCall)
        ensures
            call == (BackendCall::PathBuilderArc {
                builder: self@,
                origin: origin.azure_point(),
                radius,
                start_angle,
                end_angle,
                anticlockwise,
            }),
    {
        let origin = origin.as_azure_point();
        BackendCall::PathBuilderArc {
            builder: self.azure_path_builder,
            origin,
            radius,
            start_angle,
            end_angle,
            anticlockwise,
        }
    }

    /// Seals what has been gathered into a path. The answer to the call is
    /// the path's handle. The builder stays an owner of its own reference.
    pub fn finish(&self) -> (call: BackendCall)
        ensures
            call == (BackendCall::PathBuilderFinish { builder: self@ }),
    {
        BackendCall::PathBuilderFinish { builder: self.azure_path_builder }
    }

    /// Gives up this owner's reference.
    pub fn release(self) -> (call: BackendCall)
        ensures
            call == (BackendCall::ReleasePathBuilder { builder: self@ }),
    {
        BackendCall::ReleasePathBuilder { builder: self.azure_path_builder }
    }
}

} // verus!
