//! Paint descriptions: flat colours, gradient stop tables and linear
//! gradients.

use vstd::prelude::*;
use crate::call::BackendCall;
use crate::error::Error;
use crate::geometry::{AsAzurePoint, Matrix2D, Point2D};
use crate::wire::{AzColor, AzFloat, AzGradientStop};

verus! {

/// A colour. The channels are meant to lie between zero and one; nothing
/// here holds them to that.
#[derive(Clone, Copy, Debug, PartialEq, Eq)]
pub struct Color {
    pub r: AzFloat,
    pub g: AzFloat,
    pub b: AzFloat,
    pub a: AzFloat,
}

impl Color {
    /// The backend colour this value stands for.
    pub open spec fn azure_color(&self) -> AzColor {
        AzColor { r: self.r, g: self.g, b: self.b, a: self.a }
    }

    pub fn new(r: AzFloat, g: AzFloat, b: AzFloat, a: AzFloat) -> (color: Color)
        ensures
            color == (Color { r, g, b, a }),
    {
        Color { r, g, b, a }
    }

    /// Lays the channels out as the backend reads them.
    pub fn as_azure_color(&self) -> (color: AzColor)
        ensures
            color == self.azure_color(),
    {
        AzColor { r: self.r, g: self.g, b: self.b, a: self.a }
    }
}

/// One stop of a gradient: a position along the gradient and the colour
/// painted there.
#[derive(Clone, Copy, Debug, PartialEq, Eq)]
pub struct GradientStop {
    pub offset: AzFloat,
    pub color: Color,
}

impl GradientStop {
    /// The backend stop this value stands for.
    pub open spec fn azure_gradient_stop(&self) -> AzGradientStop {
        AzGradientStop { offset: self.offset, color: self.color.azure_color() }
    }

    /// Lays the stop out as the backend reads it.
    pub fn as_azure_gradient_stop(&self) -> (stop: AzGradientStop)
        ensures
            stop == self.azure_gradient_stop(),
    {
        AzGradientStop { offset: self.offset, color: self.color.as_azure_color() }
    }
}

/// An owner of one reference on a backend pattern that paints a flat colour.
#[derive(Debug)]
pub struct ColorPattern {
    azure_color_pattern: usize,
}

impl View for ColorPattern {
    type V = usize;

    closed spec fn view(&self) -> usize {
        self.azure_color_pattern
    }
}

impl ColorPattern {
    #[verifier::type_invariant]
    spec fn well_formed(self) -> bool {
        self.azure_color_pattern != 0
    }

    /// Plans a pattern that paints `color` everywhere.
    pub fn new(color: Color) -> (call: BackendCall)
        ensures
            call == (BackendCall::CreateColorPattern { color: color.azure_color() }),
    {
        BackendCall::CreateColorPattern { color: color.as_azure_color() }
    }

    /// Takes ownership of the one reference that comes with a pattern handle
    /// the backend handed out. A null handle is a construction failure.
    pub fn from_raw(azure_color_pattern: usize) -> (result: Result<ColorPattern, Error>)
        ensures
            azure_color_pattern == 0 ==> result == Err::<ColorPattern, Error>(Error::NullHandle),
            azure_color_pattern != 0 ==> result is Ok && result->Ok_0@ == azure_color_pattern,
    {
        if azure_color_pattern == 0 {
            return Err(Error::NullHandle);
        }
        Ok(ColorPattern { azure_color_pattern })
    }

    /// The backend handle of the pattern. It is never null.
    pub fn handle(&self) -> (pattern: usize)
        ensures
            pattern == self@,
            pattern != 0,
    {
        proof {
            use_type_invariant(self);
        }
        self.azure_color_pattern
    }

    /// Gives up this owner's reference.
    pub fn release(self) -> (call: BackendCall)
        ensures
            call == (BackendCall::ReleasePattern { pattern: self@ }),
    {
        BackendCall::ReleasePattern { pattern: self.azure_color_pattern }
    }
}

/// An owner of one reference on a backend table of gradient stops.
#[derive(Debug)]
pub struct GradientStops {
    azure_gradient_stops: usize,
}

impl View for GradientStops {
    type V = usize;

    closed spec fn view(&self) -> usize {
        self.azure_gradient_stops
    }
}

impl GradientStops {
    #[verifier::type_invariant]
    spec fn well_formed(self) -> bool {
        self.azure_gradient_stops != 0
    }

    /// Takes ownership of the one reference that comes with a stop table
    /// handle the backend handed out. A null handle is a construction
    /// failure.
    pub fn new(azure_gradient_stops: usize) -> (result: Result<GradientStops, Error>)
        ensures
            azure_gradient_stops == 0 ==> result == Err::<GradientStops, Error>(Error::NullHandle),
            azure_gradient_stops != 0 ==> result is Ok && result->Ok_0@ == azure_gradient_stops,
    {
        if azure_gradient_stops == 0 {
            return Err(Error::NullHandle);
        }
        Ok(GradientStops { azure_gradient_stops })
    }

    /// The backend handle of the table. It is never null.
    pub fn handle(&self) -> (stops: usize)
        ensures
            stops == self@,
            stops != 0,
    {
        proof {
            use_type_invariant(self);
        }
        self.azure_gradient_stops
    }

    /// Gives up this owner's reference.
    pub fn release(self) -> (call: BackendCall)
        ensures
            call == (BackendCall::ReleaseGradientStops { stops: self@ }),
    {
        BackendCall::ReleaseGradientStops { stops: self.azure_gradient_stops }
    }
}

/// An owner of one reference on a backend pattern that paints a linear
/// gradient.
#[derive(Debug)]
pub struct LinearGradientPattern {
    azure_linear_gradient_pattern: usize,
}

impl View for LinearGradientPattern {
    type V = usize;

    closed spec fn view(&self) -> usize {
        self.azure_linear_gradient_pattern
    }
}

impl LinearGradientPattern {
    #[verifier::type_invariant]
    spec fn well_formed(self) -> bool {
        self.azure_linear_gradient_pattern != 0
    }

    /// Plans a gradient that runs from `begin` to `end` through the colours
    /// of `stops`, in a coordinate space transformed by `matrix`. The stop
    /// table is used up: the first call creates the pattern, which keeps the
    /// table alive on its own account, and the second gives back the
    /// reference that `stops` held. The answer to the first call is the
    /// pattern's handle.
    #[must_use]
    pub fn new(
        begin: &Point2D<AzFloat>,
        end: &Point2D<AzFloat>,
        stops: GradientStops,
        matrix: &Matrix2D<AzFloat>,
    ) -> (calls: Vec<BackendCall>)
        ensures
            calls@ == seq![
                BackendCall::CreateLinearGradientPattern {
                    begin: begin.azure_point(),
                    end: end.azure_point(),
                    stops: stops@,
                    matrix: matrix.azure_matrix(),
                },
                BackendCall::ReleaseGradientStops { stops: stops@ },
            ],
    {
        let mut calls: Vec<BackendCall> = Vec::new();
        calls.push(
            BackendCall::CreateLinearGradientPattern {
                begin: begin.as_azure_point(),
                end: end.as_azure_point(),
                stops: stops.handle(),
                matrix: matrix.as_azure_matrix(),
            },
        );
        calls.push(stops.release());
        calls
    }

    /// Takes ownership of the one reference that comes with a pattern handle
    /// the backend handed out. A null handle is a construction failure.
    pub fn from_raw(azure_linear_gradient_pattern: usize) -> (result: Result<
        LinearGradientPattern,
        Error,
    >)
        ensures
            azure_linear_gradient_pattern == 0 ==> result == Err::<LinearGradientPattern, Error>(
                Error::NullHandle,
            ),
            azure_linear_gradient_pattern != 0 ==> result is Ok && result->Ok_0@
                == azure_linear_gradient_pattern,
    {
        if azure_linear_gradient_pattern == 0 {
            return Err(Error::NullHandle);
        }
        Ok(LinearGradientPattern { azure_linear_gradient_pattern })
    }

    /// The backend handle of the pattern. It is never null.
    pub fn handle(&self) -> (pattern: usize)
        ensures
            pattern == self@,
            pattern != 0,
    {
        proof {
            use_type_invariant(self);
        }
        self.azure_linear_gradient_pattern
    }

    /// Gives up this owner's reference.
    pub fn release(self) -> (call: BackendCall)
        ensures
            call == (BackendCall::ReleasePattern { pattern: self@ }),
    {
        BackendCall::ReleasePattern { pattern: self.azure_linear_gradient_pattern }
    }
}

/// A borrowed pattern of either sort, for operations that paint with any
/// pattern.
pub enum PatternRef<'a> {
    ColorPatternRef(&'a ColorPattern),
    LinearGradientPatternRef(&'a LinearGradientPattern),
}

impl<'a> PatternRef<'a> {
    /// The backend handle of the pattern referred to.
    pub open spec fn azure_pattern(&self) -> usize {
        match self {
            PatternRef::ColorPatternRef(color_pattern) => color_pattern@,
            PatternRef::LinearGradientPatternRef(linear_gradient_pattern) => {
                linear_gradient_pattern@
            },
        }
    }

    /// Resolves either sort of pattern to the one handle the backend needs.
    /// It is never null.
    pub fn as_azure_pattern(&self) -> (pattern: usize)
        ensures
            pattern == self.azure_pattern(),
            pattern != 0,
    {
        match self {
            PatternRef::ColorPatternRef(color_pattern) => color_pattern.handle(),
            PatternRef::LinearGradientPatternRef(linear_gradient_pattern) => {
                linear_gradient_pattern.handle()
            },
        }
    }
}

} // verus!
