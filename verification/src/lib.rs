use vstd::prelude::*;

pub mod evaluator;
pub mod palette;
pub mod params;
pub mod render;
pub mod scheduler;
pub mod fixed;

verus! {

/// The two escape-time fractal families the renderer knows.
#[derive(Clone, Copy, PartialEq, Eq, Structural, Debug)]
pub enum FractalType {
    Mandelbrot,
    Julia,
}

impl FractalType {
    /// Human-readable name of the fractal family.
    pub fn label(self) -> (r: &'static str)
        ensures
            self is Mandelbrot ==> r@ == "Mandelbrot"@,
            self is Julia ==> r@ == "Julia"@,
    {
        match self {
            FractalType::Mandelbrot => "Mandelbrot",
            FractalType::Julia => "Julia",
        }
    }
}

} // verus!
