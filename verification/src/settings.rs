use vstd::prelude::*;

use crate::fractal::{FractalKind, TweakTarget};

verus! {

/// Iterations per pixel when the viewer starts or switches fractal.
pub const DEFAULT_ITERATIONS: u32 = 100;

/// Colour divisions of the gradient when the viewer starts or switches fractal.
pub const DEFAULT_DIVISIONS: u32 = 100;

/// The colours that the gradient runs through: black to white.
pub open spec fn default_colors() -> Seq<[u8; 3]> {
    seq![[0u8, 0u8, 0u8], [255u8, 255u8, 255u8]]
}

/// The integer part of the viewer's settings: the fractal family, the
/// iteration limit per pixel, the number of colour divisions and the colours
/// that the gradient is built from.
pub struct Settings {
    pub fractal: FractalKind,
    pub nb_iterations: u32,
    pub nb_divisions: u32,
    pub colors: Vec<[u8; 3]>,
}

impl Settings {
    /// The settings right after start-up or a switch, for a given family.
    pub open spec fn is_default_for(self, kind: FractalKind) -> bool {
        &&& self.fractal == kind
        &&& self.nb_iterations == DEFAULT_ITERATIONS
        &&& self.nb_divisions == DEFAULT_DIVISIONS
        &&& self.colors@ == default_colors()
    }

    /// Whether `upscale(iterations, divisions)` stays within `u32`.
    pub open spec fn upscale_fits(self, iterations: u32, divisions: u32) -> bool {
        &&& self.nb_iterations + iterations <= u32::MAX
        &&& self.nb_divisions + divisions <= u32::MAX
    }

    /// Whether `downscale(iterations, divisions)` stays at or above zero.
    pub open spec fn downscale_fits(self, iterations: u32, divisions: u32) -> bool {
        &&& iterations <= self.nb_iterations
        &&& divisions <= self.nb_divisions
    }

    /// `self` is what `upscale(iterations, divisions)` makes of `before`.
    pub open spec fn is_upscale_of(self, before: Settings, iterations: u32, divisions: u32) -> bool {
        &&& self.fractal == before.fractal
        &&& self.nb_iterations == before.nb_iterations + iterations
        &&& self.nb_divisions == before.nb_divisions + divisions
        &&& self.colors@ == before.colors@
    }

    /// `self` is what `downscale(iterations, divisions)` makes of `before`.
    pub open spec fn is_downscale_of(self, before: Settings, iterations: u32, divisions: u32) -> bool {
        &&& self.fractal == before.fractal
        &&& self.nb_iterations == before.nb_iterations - iterations
        &&& self.nb_divisions == before.nb_divisions - divisions
        &&& self.colors@ == before.colors@
    }

    /// The two settings agree on every field.
    pub open spec fn same_as(self, other: Settings) -> bool {
        &&& self.fractal == other.fractal
        &&& self.nb_iterations == other.nb_iterations
        &&& self.nb_divisions == other.nb_divisions
        &&& self.colors@ == other.colors@
    }

    fn default_colors_vec() -> (v: Vec<[u8; 3]>)
        ensures
            v@ == default_colors(),
    {
        let mut v: Vec<[u8; 3]> = Vec::new();
        v.push([0u8, 0u8, 0u8]);
        v.push([255u8, 255u8, 255u8]);
        v
    }

    /// Start-up settings: the Newton fractal, 100 iterations, 100 divisions,
    /// a black-to-white gradient.
    pub fn new() -> (s: Settings)
        ensures
            s.is_default_for(FractalKind::Newton),
            s.fractal == FractalKind::Newton,
            s.nb_iterations == 100,
            s.nb_divisions == 100,
            s.colors@ == seq![[0u8, 0u8, 0u8], [255u8, 255u8, 255u8]],
    {
        Settings {
            fractal: FractalKind::Newton,
            nb_iterations: DEFAULT_ITERATIONS,
            nb_divisions: DEFAULT_DIVISIONS,
            colors: Self::default_colors_vec(),
        }
    }

    /// Move on to the next fractal family and reset everything else to the
    /// start-up values.
    pub fn switch_fractal(&mut self)
        ensures
            final(self).is_default_for(old(self).fractal.successor()),
            old(self).fractal == FractalKind::Mandelbrot ==> final(self).fractal == FractalKind::Julia,
            old(self).fractal == FractalKind::Julia ==> final(self).fractal == FractalKind::Newton,
            old(self).fractal == FractalKind::Newton ==> final(self).fractal == FractalKind::Mandelbrot,
            final(self).nb_iterations == 100,
            final(self).nb_divisions == 100,
            final(self).colors@ == seq![[0u8, 0u8, 0u8], [255u8, 255u8, 255u8]],
    {
        let next = self.fractal.next();
        *self = Settings::new();
        self.fractal = next;
    }

    /// Which parameter a tweak rotates: none for the Mandelbrot set, the
    /// constant `c` for a Julia set, the factor `a` for Newton's method.
    pub fn tweak(&self) -> (t: TweakTarget)
        ensures
            t == self.fractal.tweak_target_of(),
            self.fractal == FractalKind::Mandelbrot ==> t == TweakTarget::Nothing,
            self.fractal == FractalKind::Julia ==> t == TweakTarget::JuliaConstant,
            self.fractal == FractalKind::Newton ==> t == TweakTarget::NewtonFactor,
    {
        match self.fractal {
            FractalKind::Mandelbrot => TweakTarget::Nothing,
            FractalKind::Julia => TweakTarget::JuliaConstant,
            FractalKind::Newton => TweakTarget::NewtonFactor,
        }
    }

    /// Raise the iteration limit and the number of divisions. The gradient
    /// that goes with the new number of divisions is rebuilt by the caller.
    pub fn upscale(&mut self, iterations: u32, divisions: u32)
        requires
            old(self).upscale_fits(iterations, divisions),
        ensures
            final(self).is_upscale_of(*old(self), iterations, divisions),
            final(self).nb_iterations == old(self).nb_iterations + iterations,
            final(self).nb_divisions == old(self).nb_divisions + divisions,
            final(self).fractal == old(self).fractal,
            final(self).colors@ == old(self).colors@,
    {
        self.nb_iterations = self.nb_iterations + iterations;
        self.nb_divisions = self.nb_divisions + divisions;
    }

    /// Lower the iteration limit and the number of divisions. The gradient
    /// that goes with the new number of divisions is rebuilt by the caller.
    pub fn downscale(&mut self, iterations: u32, divisions: u32)
        requires
            old(self).downscale_fits(iterations, divisions),
        ensures
            final(self).is_downscale_of(*old(self), iterations, divisions),
            final(self).nb_iterations == old(self).nb_iterations - iterations,
            final(self).nb_divisions == old(self).nb_divisions - divisions,
            final(self).fractal == old(self).fractal,
            final(self).colors@ == old(self).colors@,
    {
        self.nb_iterations = self.nb_iterations - iterations;
        self.nb_divisions = self.nb_divisions - divisions;
    }
}

/// Raising the iteration limit and the divisions and then lowering them by
/// the same amounts gives back the settings one started from.
pub proof fn lemma_upscale_then_downscale(
    s0: Settings,
    s1: Settings,
    s2: Settings,
    iterations: u32,
    divisions: u32,
)
    requires
        s1.is_upscale_of(s0, iterations, divisions),
        s2.is_downscale_of(s1, iterations, divisions),
    ensures
        s2.same_as(s0),
{
}

/// Lowering the iteration limit and the divisions and then raising them by
/// the same amounts gives back the settings one started from.
pub proof fn lemma_downscale_then_upscale(
    s0: Settings,
    s1: Settings,
    s2: Settings,
    iterations: u32,
    divisions: u32,
)
    requires
        s1.is_downscale_of(s0, iterations, divisions),
        s2.is_upscale_of(s1, iterations, divisions),
    ensures
        s2.same_as(s0),
{
}

/// Three switches lead back to the fractal family one started from, with
/// the start-up iteration limit, divisions and colours.
pub proof fn lemma_switch_three_times(s0: Settings, s1: Settings, s2: Settings, s3: Settings)
    requires
        s1.is_default_for(s0.fractal.successor()),
        s2.is_default_for(s1.fractal.successor()),
        s3.is_default_for(s2.fractal.successor()),
    ensures
        s3.is_default_for(s0.fractal),
{
    s0.fractal.lemma_switch_cycle();
}

/// A switch forgets the iteration limit and divisions: two settings that
/// differ only in those give the same settings after a switch.
pub proof fn lemma_switch_forgets_scale(a0: Settings, b0: Settings, a1: Settings, b1: Settings)
    requires
        a0.fractal == b0.fractal,
        a1.is_default_for(a0.fractal.successor()),
        b1.is_default_for(b0.fractal.successor()),
    ensures
        a1.same_as(b1),
{
}

/// The start-up settings of a family are the family itself with 100
/// iterations, 100 divisions and the colours black and white, whatever the
/// family.
pub proof fn lemma_defaults_are_fixed(s: Settings, kind: FractalKind)
    ensures
        s.is_default_for(kind) <==> (s.fractal == kind && s.nb_iterations == 100
            && s.nb_divisions == 100 && s.colors@ == seq![
            [0u8, 0u8, 0u8],
            [255u8, 255u8, 255u8],
        ]),
{
}

/// Upscaling adds the two amounts to the iteration limit and the divisions
/// and changes nothing else; downscaling subtracts them.
pub proof fn lemma_scale_effects(before: Settings, after: Settings, iterations: u32, divisions: u32)
    ensures
        after.is_upscale_of(before, iterations, divisions) ==> {
            &&& after.nb_iterations == before.nb_iterations + iterations
            &&& after.nb_divisions == before.nb_divisions + divisions
            &&& after.fractal == before.fractal
            &&& after.colors@ == before.colors@
        },
        after.is_downscale_of(before, iterations, divisions) ==> {
            &&& after.nb_iterations == before.nb_iterations - iterations
            &&& after.nb_divisions == before.nb_divisions - divisions
            &&& after.fractal == before.fractal
            &&& after.colors@ == before.colors@
        },
        after.same_as(before) ==> {
            &&& after.nb_iterations == before.nb_iterations
            &&& after.nb_divisions == before.nb_divisions
            &&& after.fractal == before.fractal
            &&& after.colors@ == before.colors@
        },
{
}

} // verus!
