use vstd::prelude::*;

verus! {

/// The family of fractal being drawn. The parameters that go with a family
/// (the Julia constant, the Newton relaxation factor and functions) are
/// complex numbers and stay with the floating-point side of the viewer.
#[derive(PartialEq, Eq, Structural, Clone, Copy, Debug)]
pub enum FractalKind {
    Mandelbrot,
    Julia,
    Newton,
}

/// What a tweak of the fractal parameter acts on.
#[derive(PartialEq, Eq, Structural, Clone, Copy, Debug)]
pub enum TweakTarget {
    /// The Mandelbrot set has no free parameter.
    Nothing,
    /// Rotate the Julia constant `c`.
    JuliaConstant,
    /// Rotate the Newton relaxation factor `a`.
    NewtonFactor,
}

impl FractalKind {
    /// The family shown after switching: Mandelbrot, then Julia, then Newton,
    /// then Mandelbrot again.
    pub open spec fn successor(self) -> FractalKind {
        match self {
            FractalKind::Mandelbrot => FractalKind::Julia,
            FractalKind::Julia => FractalKind::Newton,
            FractalKind::Newton => FractalKind::Mandelbrot,
        }
    }

    /// The parameter that a tweak rotates for this family.
    pub open spec fn tweak_target_of(self) -> TweakTarget {
        match self {
            FractalKind::Mandelbrot => TweakTarget::Nothing,
            FractalKind::Julia => TweakTarget::JuliaConstant,
            FractalKind::Newton => TweakTarget::NewtonFactor,
        }
    }

    /// The family that follows this one in the switching cycle.
    pub fn next(self) -> (r: FractalKind)
        ensures
            r == self.successor(),
            self == FractalKind::Mandelbrot ==> r == FractalKind::Julia,
            self == FractalKind::Julia ==> r == FractalKind::Newton,
            self == FractalKind::Newton ==> r == FractalKind::Mandelbrot,
    {
        match self {
            FractalKind::Mandelbrot => FractalKind::Julia,
            FractalKind::Julia => FractalKind::Newton,
            FractalKind::Newton => FractalKind::Mandelbrot,
        }
    }

    /// The switching order is Mandelbrot, Julia, Newton, and a Mandelbrot
    /// set again; the Mandelbrot set has nothing to tweak, a Julia set tweaks
    /// its constant and Newton's method its factor.
    pub proof fn lemma_successor_and_tweak_table()
        ensures
            FractalKind::Mandelbrot.successor() == FractalKind::Julia,
            FractalKind::Julia.successor() == FractalKind::Newton,
            FractalKind::Newton.successor() == FractalKind::Mandelbrot,
            FractalKind::Mandelbrot.tweak_target_of() == TweakTarget::Nothing,
            FractalKind::Julia.tweak_target_of() == TweakTarget::JuliaConstant,
            FractalKind::Newton.tweak_target_of() == TweakTarget::NewtonFactor,
    {
    }

    /// Switching three times brings back the family one started from, and
    /// fewer switches never do.
    pub proof fn lemma_switch_cycle(self)
        ensures
            self.successor().successor().successor() == self,
            self.successor() != self,
            self.successor().successor() != self,
    {
    }
}

} // verus!
