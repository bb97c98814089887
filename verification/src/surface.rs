//! Rendered images: source surfaces, and data surfaces whose pixels can be
//! read back.

use vstd::prelude::*;
use crate::call::BackendCall;
use crate::error::Error;
use crate::geometry::Size2D;

verus! {

/// What source surfaces of every sort offer.
pub trait SourceSurfaceMethods {
    /// The backend handle of the surface.
    spec fn azure_source_surface(&self) -> usize;

    fn get_azure_source_surface(&self) -> (surface: usize)
        ensures
            surface == self.azure_source_surface(),
    ;

    /// Asks for the surface's size in pixels. The answer is a backend size.
    fn size(&self) -> (call: BackendCall)
        ensures
            call == (BackendCall::SourceSurfaceGetSize { surface: self.azure_source_surface() }),
    {
        BackendCall::SourceSurfaceGetSize { surface: self.get_azure_source_surface() }
    }

    /// Asks for the surface's pixel layout. The answer is a layout code.
    fn format(&self) -> (call: BackendCall)
        ensures
            call == (BackendCall::SourceSurfaceGetFormat { surface: self.azure_source_surface() }),
    {
        BackendCall::SourceSurfaceGetFormat { surface: self.get_azure_source_surface() }
    }
}

/// An owner of one reference on an immutable backend image.
#[derive(Debug)]
pub struct SourceSurface {
    azure_source_surface: usize,
}

impl View for SourceSurface {
    type V = usize;

    closed spec fn view(&self) -> usize {
        self.azure_source_surface
    }
}

impl SourceSurface {
    #[verifier::type_invariant]
    spec fn well_formed(self) -> bool {
        self.azure_source_surface != 0
    }

    /// Takes ownership of the one reference that comes with a surface handle
    /// the backend handed out. A null handle is a construction failure.
    pub fn new(azure_source_surface: usize) -> (result: Result<SourceSurface, Error>)
        ensures
            azure_source_surface == 0 ==> result == Err::<SourceSurface, Error>(Error::NullHandle),
            azure_source_surface != 0 ==> result is Ok && result->Ok_0@ == azure_source_surface,
    {
        if azure_source_surface == 0 {
            return Err(Error::NullHandle);
        }
        Ok(SourceSurface { azure_source_surface })
    }

    /// The backend handle of the surface. It is never null.
    pub fn handle(&self) -> (surface: usize)
        ensures
            surface == self@,
            surface != 0,
    {
        proof {
            use_type_invariant(self);
        }
        self.azure_source_surface
    }

    /// Asks for a surface over the same image whose pixels can be read. The
    /// answer to the call is the data surface's handle.
    pub fn get_data_surface(&self) -> (call: BackendCall)
        ensures
            call == (BackendCall::GetDataSurface { surface: self@ }),
    {
        BackendCall::GetDataSurface { surface: self.azure_source_surface }
    }

    /// Gives up this owner's reference.
    pub fn release(self) -> (call: BackendCall)
        ensures
            call == (BackendCall::ReleaseSourceSurface { surface: self@ }),
    {
        BackendCall::ReleaseSourceSurface { surface: self.azure_source_surface }
    }
}

impl SourceSurfaceMethods for SourceSurface {
    open spec fn azure_source_surface(&self) -> usize {
        self@
    }

    fn get_azure_source_surface(&self) -> (surface: usize) {
        self.azure_source_surface
    }
}

/// The number of bytes behind a data surface's pixel address: one stride for
/// each row.
pub open spec fn data_length(stride: int, height: int) -> int {
    stride * height
}

/// An owner of one reference on a backend image whose pixels can be read
/// back.
#[derive(Debug)]
pub struct DataSourceSurface {
    azure_data_source_surface: usize,
}

impl View for DataSourceSurface {
    type V = usize;

    closed spec fn view(&self) -> usize {
        self.azure_data_source_surface
    }
}

impl DataSourceSurface {
    #[verifier::type_invariant]
    spec fn well_formed(self) -> bool {
        self.azure_data_source_surface != 0
    }

    /// Takes ownership of the one reference that comes with a data surface
    /// handle the backend handed out. A null handle is a construction
    /// failure.
    pub fn from_raw(azure_data_source_surface: usize) -> (result: Result<DataSourceSurface, Error>)
        ensures
            azure_data_source_surface == 0 ==> result == Err::<DataSourceSurface, Error>(
                Error::NullHandle,
            ),
            azure_data_source_surface != 0 ==> result is Ok && result->Ok_0@
                == azure_data_source_surface,
    {
        if azure_data_source_surface == 0 {
            return Err(Error::NullHandle);
        }
        Ok(DataSourceSurface { azure_data_source_surface })
    }

    /// The backend handle of the surface. It is never null.
    pub fn handle(&self) -> (surface: usize)
        ensures
            surface == self@,
            surface != 0,
    {
        proof {
            use_type_invariant(self);
        }
        self.azure_data_source_surface
    }

    /// Plans a read of the surface's pixels, given the stride and the size
    /// the backend reported for it: the call that answers the address of the
    /// pixels, and the number of bytes that may be read there. Nothing is
    /// planned when that number is negative or too large to address.
    #[must_use]
    pub fn with_data(&self, stride: i32, size: Size2D<i32>) -> (plan: Option<(BackendCall, usize)>)
        ensures
            plan is Some <==> 0 <= data_length(stride as int, size.height as int) <= usize::MAX,
            plan matches Some((call, length)) ==> {
                &&& call == (BackendCall::DataSourceSurfaceGetData { surface: self@ })
                &&& length == data_length(stride as int, size.height as int)
            },
    {
        assert(-0x4000_0000_0000_0000 <= stride * size.height <= 0x4000_0000_0000_0000)
            by (nonlinear_arith)
            requires
                -0x8000_0000 <= stride <= 0x7fff_ffff,
                -0x8000_0000 <= size.height <= 0x7fff_ffff,
        ;
        let length: i64 = (stride as i64) * (size.height as i64);
        if length < 0 || length as u64 > usize::MAX as u64 {
            return None;
        }
        Some(
            (
                BackendCall::DataSourceSurfaceGetData { surface: self.azure_data_source_surface },
                length as usize,
            ),
        )
    }

    /// Asks for the number of bytes from one pixel row to the next.
    pub fn stride(&self) -> (call: BackendCall)
        ensures
            call == (BackendCall::DataSourceSurfaceGetStride { surface: self@ }),
    {
        BackendCall::DataSourceSurfaceGetStride { surface: self.azure_data_source_surface }
    }

    /// Asks for the surface's size in pixels. The answer is a backend size.
    pub fn get_size(&self) -> (call: BackendCall)
        ensures
            call == (BackendCall::SourceSurfaceGetSize { surface: self@ }),
    {
        self.size()
    }

    /// Gives up this owner's reference.
    pub fn release(self) -> (call: BackendCall)
        ensures
            call == (BackendCall::ReleaseSourceSurface { surface: self@ }),
    {
        BackendCall::ReleaseSourceSurface { surface: self.azure_data_source_surface }
    }
}

impl SourceSurfaceMethods for DataSourceSurface {
    open spec fn azure_source_surface(&self) -> usize {
        self@
    }

    fn get_azure_source_surface(&self) -> (surface: usize) {
        self.azure_data_source_surface
    }
}

} // verus!
