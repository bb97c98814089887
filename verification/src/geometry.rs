//! Portable geometry values and their conversion to backend records.

use vstd::prelude::*;
use crate::wire::{AzFloat, AzIntSize, AzMatrix, AzPoint, AzRect};

verus! {

/// A point with coordinates of type `T`.
#[derive(Clone, Copy, Debug, PartialEq, Eq)]
pub struct Point2D<T> {
    pub x: T,
    pub y: T,
}

/// An extent with components of type `T`.
#[derive(Clone, Copy, Debug, PartialEq, Eq)]
pub struct Size2D<T> {
    pub width: T,
    pub height: T,
}

/// A rectangle given by its origin and its extent.
#[derive(Clone, Copy, Debug, PartialEq, Eq)]
pub struct Rect<T> {
    pub origin: Point2D<T>,
    pub size: Size2D<T>,
}

/// A 3x2 affine transform in row-major order.
#[derive(Clone, Copy, Debug, PartialEq, Eq)]
pub struct Matrix2D<T> {
    pub m11: T,
    pub m12: T,
    pub m21: T,
    pub m22: T,
    pub m31: T,
    pub m32: T,
}

/// Values that can be handed to the backend as a rectangle.
pub trait AsAzureRect {
    /// The backend rectangle this value stands for.
    spec fn azure_rect(&self) -> AzRect;

    fn as_azure_rect(&self) -> (rect: AzRect)
        ensures
            rect == self.azure_rect(),
    ;
}

impl AsAzureRect for Rect<AzFloat> {
    open spec fn azure_rect(&self) -> AzRect {
        AzRect {
            x: self.origin.x,
            y: self.origin.y,
            width: self.size.width,
            height: self.size.height,
        }
    }

    fn as_azure_rect(&self) -> (rect: AzRect) {
        AzRect {
            x: self.origin.x,
            y: self.origin.y,
            width: self.size.width,
            height: self.size.height,
        }
    }
}

/// Values that can be handed to the backend as a size in whole pixels.
pub trait AsAzureIntSize {
    /// The backend size this value stands for.
    spec fn azure_int_size(&self) -> AzIntSize;

    fn as_azure_int_size(&self) -> (size: AzIntSize)
        ensures
            size == self.azure_int_size(),
    ;
}

impl AsAzureIntSize for Size2D<i32> {
    open spec fn azure_int_size(&self) -> AzIntSize {
        AzIntSize { width: self.width, height: self.height }
    }

    fn as_azure_int_size(&self) -> (size: AzIntSize) {
        AzIntSize { width: self.width, height: self.height }
    }
}

/// Values that can be handed to the backend as a point.
pub trait AsAzurePoint {
    /// The backend point this value stands for.
    spec fn azure_point(&self) -> AzPoint;

    fn as_azure_point(&self) -> (point: AzPoint)
        ensures
            point == self.azure_point(),
    ;
}

impl AsAzurePoint for Point2D<AzFloat> {
    open spec fn azure_point(&self) -> AzPoint {
        AzPoint { x: self.x, y: self.y }
    }

    fn as_azure_point(&self) -> (point: AzPoint) {
        AzPoint { x: self.x, y: self.y }
    }
}

impl Matrix2D<AzFloat> {
    /// The backend matrix this transform stands for.
    pub open spec fn azure_matrix(&self) -> AzMatrix {
        AzMatrix {
            m11: self.m11,
            m12: self.m12,
            m21: self.m21,
            m22: self.m22,
            m31: self.m31,
            m32: self.m32,
        }
    }

    /// Lays the six entries out as the backend reads them.
    pub fn as_azure_matrix(&self) -> (matrix: AzMatrix)
        ensures
            matrix == self.azure_matrix(),
    {
        AzMatrix {
            m11: self.m11,
            m12: self.m12,
            m21: self.m21,
            m22: self.m22,
            m31: self.m31,
            m32: self.m32,
        }
    }
}

impl AzIntSize {
    /// The portable size a backend size reply stands for.
    pub open spec fn size2d(&self) -> Size2D<i32> {
        Size2D { width: self.width, height: self.height }
    }

    /// Reads a size reply of the backend as a portable size.
    pub fn to_size2d(&self) -> (size: Size2D<i32>)
        ensures
            size == self.size2d(),
    {
        Size2D { width: self.width, height: self.height }
    }
}

/// Converting a size to its backend record and reading it back gives the
/// size one started with.
pub proof fn law_int_size_round_trip(size: Size2D<i32>)
    ensures
        size.azure_int_size().size2d() == size,
{
}

} // verus!
