//! How many source pixels the interactive preview processes for a viewport.
use vstd::prelude::*;

verus! {

/// Preview density chosen in Settings.
#[derive(Clone, Copy, Debug, PartialEq, Eq, Structural)]
pub enum PreviewQuality {
    Low,
    Medium,
    High,
    Max,
}

/// Denominator of the pixel scales: each scale is the single-precision
/// value of the user-facing fraction, held exactly as `n / 2^24`.
pub const SCALE_DENOMINATOR: u64 = 16777216;

/// Extra pixels that keep the colour-filter phase of a proxy stable.
pub const CFA_PHASE_GUARD: u32 = 6;

/// `ceil(a / b)` for a positive divisor.
pub open spec fn ceil_div(a: int, b: int) -> int
    recommends
        b > 0,
{
    (a + b - 1) / b
}

pub open spec fn min_int(a: int, b: int) -> int {
    if a <= b { a } else { b }
}

pub open spec fn max_int(a: int, b: int) -> int {
    if a >= b { a } else { b }
}

/// A requested edge clamped so that adding the CFA guard stays in `u32`.
pub open spec fn guarded(requested: int) -> int {
    min_int(requested, u32::MAX - CFA_PHASE_GUARD) + CFA_PHASE_GUARD
}

impl PreviewQuality {
    /// Fraction of the viewport's physical pixels that the preview renders
    /// (0.50, 0.67, 0.84, 1.00 in single precision), over `SCALE_DENOMINATOR`.
    pub open spec fn spec_pixel_scale(self) -> nat {
        match self {
            PreviewQuality::Low => 8388608,
            PreviewQuality::Medium => 11240735,
            PreviewQuality::High => 14092861,
            PreviewQuality::Max => 16777216,
        }
    }

    /// The pixel scale multiplied (in single precision) by the 1.35 support
    /// of the detail preview, over `SCALE_DENOMINATOR`.
    pub open spec fn spec_detail_scale(self) -> nat {
        match self {
            PreviewQuality::Low => 11324621,
            PreviewQuality::Medium => 15174993,
            PreviewQuality::High => 19025362,
            PreviewQuality::Max => 22649242,
        }
    }

    pub open spec fn spec_proxy_edge(self) -> u32 {
        match self {
            PreviewQuality::Low => 640,
            PreviewQuality::Medium => 800,
            PreviewQuality::High => 1024,
            PreviewQuality::Max => 1280,
        }
    }

    pub open spec fn spec_label(self) -> Seq<char> {
        match self {
            PreviewQuality::Low => "Low"@,
            PreviewQuality::Medium => "Medium"@,
            PreviewQuality::High => "High"@,
            PreviewQuality::Max => "Max"@,
        }
    }

    /// Proxy edge for a viewport at a scale of `scale / SCALE_DENOMINATOR`.
    pub open spec fn spec_edge_for_scale(self, viewport: [u32; 2], scale: nat) -> int {
        let edge = max_int(max_int(viewport[0] as int, viewport[1] as int), 1);
        max_int(
            self.spec_proxy_edge() as int,
            guarded(ceil_div(edge * scale, SCALE_DENOMINATOR as int)),
        )
    }

    /// Proxy edge for a source of `source_width` x `source_height` whose
    /// displayed (cropped) extent is `display_width` x `display_height`,
    /// fitted into the viewport.
    pub open spec fn spec_fitted_edge(
        self,
        viewport: [u32; 2],
        source_width: u32,
        source_height: u32,
        display_width: u32,
        display_height: u32,
    ) -> int {
        let sw = max_int(source_width as int, 1);
        let sh = max_int(source_height as int, 1);
        let source_edge = max_int(sw, sh);
        let vw = max_int(viewport[0] as int, 1);
        let vh = max_int(viewport[1] as int, 1);
        let dw = max_int(display_width as int, 1);
        let dh = max_int(display_height as int, 1);
        // fit = min(vw / dw, vh / dh) = num / den
        let (num, den) = if vw * dh <= vh * dw { (vw, dw) } else { (vh, dh) };
        let requested = guarded(
            ceil_div(source_edge * num * self.spec_pixel_scale(), den * SCALE_DENOMINATOR),
        );
        min_int(max_int(self.spec_proxy_edge() as int, requested), source_edge)
    }

    pub fn label(self) -> (label: &'static str)
        ensures
            label@ == self.spec_label(),
    {
        match self {
            PreviewQuality::Low => "Low",
            PreviewQuality::Medium => "Medium",
            PreviewQuality::High => "High",
            PreviewQuality::Max => "Max",
        }
    }

    /// The smallest proxy edge the quality level ever uses.
    pub fn proxy_edge(self) -> (edge: u32)
        ensures
            edge == self.spec_proxy_edge(),
    {
        match self {
            PreviewQuality::Low => 640,
            PreviewQuality::Medium => 800,
            PreviewQuality::High => 1024,
            PreviewQuality::Max => 1280,
        }
    }

    pub fn pixel_scale_numerator(self) -> (numerator: u64)
        ensures
            numerator == self.spec_pixel_scale(),
    {
        match self {
            PreviewQuality::Low => 8388608,
            PreviewQuality::Medium => 11240735,
            PreviewQuality::High => 14092861,
            PreviewQuality::Max => 16777216,
        }
    }

    pub fn detail_scale_numerator(self) -> (numerator: u64)
        ensures
            numerator == self.spec_detail_scale(),
    {
        match self {
            PreviewQuality::Low => 11324621,
            PreviewQuality::Medium => 15174993,
            PreviewQuality::High => 19025362,
            PreviewQuality::Max => 22649242,
        }
    }

    fn edge_for_scale(self, viewport_pixels: [u32; 2], scale: u64) -> (edge: u32)
        requires
            scale <= 22649242,
        ensures
            edge == self.spec_edge_for_scale(viewport_pixels, scale as nat),
    {
        let mut longest = if viewport_pixels[0] >= viewport_pixels[1] {
            viewport_pixels[0]
        } else {
            viewport_pixels[1]
        };
        if longest < 1 {
            longest = 1;
        }
        assert((longest as u64) * scale <= 4294967295u64 * 22649242u64) by (nonlinear_arith)
            requires
                longest <= 4294967295u64,
                scale <= 22649242,
        ;
        let product = (longest as u64) * scale;
        let requested = (product + (SCALE_DENOMINATOR - 1)) / SCALE_DENOMINATOR;
        let limit = (u32::MAX - CFA_PHASE_GUARD) as u64;
        let clamped = if requested <= limit { requested } else { limit };
        let guarded_edge = (clamped as u32) + CFA_PHASE_GUARD;
        let base = self.proxy_edge();
        if base >= guarded_edge { base } else { guarded_edge }
    }

    /// Proxy edge for a full-frame preview of a viewport with the given
    /// physical pixel size.
    pub fn proxy_edge_for_viewport(self, viewport_pixels: [u32; 2]) -> (edge: u32)
        ensures
            edge == self.spec_edge_for_scale(viewport_pixels, self.spec_pixel_scale()),
    {
        self.edge_for_scale(viewport_pixels, self.pixel_scale_numerator())
    }

    /// Proxy edge for the zoomed detail preview, which carries 1.35 times
    /// the support of the full-frame preview.
    pub fn detail_edge_for_viewport(self, viewport_pixels: [u32; 2]) -> (edge: u32)
        ensures
            edge == self.spec_edge_for_scale(viewport_pixels, self.spec_detail_scale()),
    {
        self.edge_for_scale(viewport_pixels, self.detail_scale_numerator())
    }

    /// Proxy edge for a source image fitted into the viewport: letterbox
    /// space of the viewport does not raise it, a tighter crop does, and it
    /// never exceeds the source's longest edge. `display_width` x
    /// `display_height` is the pixel size of the cropped, rotated frame.
    ///
    /// The edge is computed exactly in rationals. A double-precision
    /// evaluation of the same product (fit ratio, source edge and pixel
    /// scale, then rounded up) can land one pixel higher on rare inputs
    /// where its rounding error crosses an integer: at `Max`, a 3684 x 807
    /// viewport and a 5082 x 3181 source shown at 3340 x 2178 give 1889
    /// here and 1890 in double precision.
    pub fn proxy_edge_for_fitted_source(
        self,
        viewport_pixels: [u32; 2],
        source_width: u32,
        source_height: u32,
        display_width: u32,
        display_height: u32,
    ) -> (edge: u32)
        ensures
            edge == self.spec_fitted_edge(
                viewport_pixels,
                source_width,
                source_height,
                display_width,
                display_height,
            ),
    {
        let sw: u64 = at_least_one(source_width);
        let sh: u64 = at_least_one(source_height);
        let source_edge: u64 = if sw >= sh { sw } else { sh };
        let (num, den) = fit_ratio(
            at_least_one(viewport_pixels[0]),
            at_least_one(viewport_pixels[1]),
            at_least_one(display_width),
            at_least_one(display_height),
        );
        let requested = scaled_ceil(source_edge, num, self.pixel_scale_numerator(), den);
        let limit = (u32::MAX - CFA_PHASE_GUARD) as u128;
        let clamped = if requested <= limit { requested } else { limit };
        let guarded_edge = (clamped as u64) + (CFA_PHASE_GUARD as u64);
        let base = self.proxy_edge() as u64;
        let widened = if base >= guarded_edge { base } else { guarded_edge };
        let edge = if widened <= source_edge { widened } else { source_edge };
        edge as u32
    }
}

fn at_least_one(value: u32) -> (widened: u64)
    ensures
        widened == max_int(value as int, 1),
{
    if value < 1 { 1 } else { value as u64 }
}

/// The smaller of `vw / dw` and `vh / dh`, as a numerator and denominator.
fn fit_ratio(vw: u64, vh: u64, dw: u64, dh: u64) -> (ratio: (u64, u64))
    requires
        1 <= vw <= u32::MAX,
        1 <= vh <= u32::MAX,
        1 <= dw <= u32::MAX,
        1 <= dh <= u32::MAX,
    ensures
        ratio == (if vw * dh <= vh * dw { (vw, dw) } else { (vh, dh) }),
{
    assert(vw * dh <= 4294967295u64 * 4294967295u64) by (nonlinear_arith)
        requires
            vw <= 4294967295u64,
            dh <= 4294967295u64,
    ;
    assert(vh * dw <= 4294967295u64 * 4294967295u64) by (nonlinear_arith)
        requires
            vh <= 4294967295u64,
            dw <= 4294967295u64,
    ;
    if vw * dh <= vh * dw { (vw, dw) } else { (vh, dh) }
}

/// `ceil(edge * num * scale / (den * SCALE_DENOMINATOR))`.
fn scaled_ceil(edge: u64, num: u64, scale: u64, den: u64) -> (requested: u128)
    requires
        edge <= u32::MAX,
        num <= u32::MAX,
        scale <= SCALE_DENOMINATOR,
        1 <= den <= u32::MAX,
    ensures
        requested == ceil_div(edge * num * scale, den * SCALE_DENOMINATOR),
{
    assert((edge as u128) * (num as u128) <= 4294967295u128 * 4294967295u128) by (nonlinear_arith)
        requires
            edge <= 4294967295u64,
            num <= 4294967295u64,
    ;
    let first = (edge as u128) * (num as u128);
    assert(first * (scale as u128) <= 4294967295u128 * 4294967295u128 * 16777216u128) by (nonlinear_arith)
        requires
            first <= 4294967295u128 * 4294967295u128,
            scale <= 16777216u64,
    ;
    let numerator = first * (scale as u128);
    assert((den as u128) * 16777216u128 <= 4294967295u128 * 16777216u128) by (nonlinear_arith)
        requires
            den <= 4294967295u64,
    ;
    let denominator = (den as u128) * 16777216u128;
    (numerator + (denominator - 1)) / denominator
}

impl Default for PreviewQuality {
    fn default() -> (quality: Self)
        ensures
            quality == PreviewQuality::Medium,
    {
        PreviewQuality::Medium
    }
}

/// Every quality level keeps at least its base proxy edge, whatever the viewport.
pub proof fn lemma_proxy_edge_is_a_floor(quality: PreviewQuality, viewport: [u32; 2], scale: nat)
    ensures
        quality.spec_edge_for_scale(viewport, scale) >= quality.spec_proxy_edge(),
{
}

/// Density grows with quality: for the same viewport, a higher quality
/// level never produces a smaller full-frame proxy.
pub proof fn lemma_proxy_edge_is_monotone_in_quality(viewport: [u32; 2])
    ensures
        PreviewQuality::Low.spec_edge_for_scale(viewport, PreviewQuality::Low.spec_pixel_scale())
            <= PreviewQuality::Medium.spec_edge_for_scale(viewport, PreviewQuality::Medium.spec_pixel_scale()),
        PreviewQuality::Medium.spec_edge_for_scale(viewport, PreviewQuality::Medium.spec_pixel_scale())
            <= PreviewQuality::High.spec_edge_for_scale(viewport, PreviewQuality::High.spec_pixel_scale()),
        PreviewQuality::High.spec_edge_for_scale(viewport, PreviewQuality::High.spec_pixel_scale())
            <= PreviewQuality::Max.spec_edge_for_scale(viewport, PreviewQuality::Max.spec_pixel_scale()),
{
    let edge = max_int(max_int(viewport[0] as int, viewport[1] as int), 1);
    lemma_ceil_div_monotone(edge, 8388608, 11240735);
    lemma_ceil_div_monotone(edge, 11240735, 14092861);
    lemma_ceil_div_monotone(edge, 14092861, 16777216);
}

proof fn lemma_ceil_div_monotone(edge: int, a: nat, b: nat)
    requires
        edge >= 1,
        a <= b,
    ensures
        ceil_div(edge * a, SCALE_DENOMINATOR as int) <= ceil_div(edge * b, SCALE_DENOMINATOR as int),
{
    assert(edge * a <= edge * b) by (nonlinear_arith)
        requires
            edge >= 1,
            a <= b,
    ;
    vstd::arithmetic::div_mod::lemma_div_is_ordered(
        edge * a + SCALE_DENOMINATOR - 1,
        edge * b + SCALE_DENOMINATOR - 1,
        SCALE_DENOMINATOR as int,
    );
}

/// The full-resolution level renders one proxy pixel per physical pixel
/// of the viewport's longest edge (plus the CFA guard) once the viewport
/// outgrows its base edge.
pub proof fn lemma_max_quality_matches_physical_pixels(viewport: [u32; 2])
    requires
        max_int(viewport[0] as int, viewport[1] as int) >= 1274,
        max_int(viewport[0] as int, viewport[1] as int) <= u32::MAX - CFA_PHASE_GUARD,
    ensures
        PreviewQuality::Max.spec_edge_for_scale(viewport, PreviewQuality::Max.spec_pixel_scale())
            == max_int(viewport[0] as int, viewport[1] as int) + CFA_PHASE_GUARD,
{
    let edge = max_int(viewport[0] as int, viewport[1] as int);
    assert(edge * 16777216 + 16777215 == 16777216 * edge + 16777215);
    vstd::arithmetic::div_mod::lemma_fundamental_div_mod_converse(
        edge * 16777216 + 16777215,
        16777216,
        edge,
        16777215,
    );
}

proof fn lemma_ceil_div_bounds(x: int, y: int)
    requires
        x >= 0,
        y > 0,
    ensures
        (ceil_div(x, y) - 1) * y < x,
        x <= ceil_div(x, y) * y,
{
    let g = ceil_div(x, y);
    vstd::arithmetic::div_mod::lemma_fundamental_div_mod(x + y - 1, y);
    vstd::arithmetic::div_mod::lemma_mod_pos_bound(x + y - 1, y);
    assert(x + y - 1 == y * g + (x + y - 1) % y);
    assert((g - 1) * y == y * g - y) by (nonlinear_arith);
    assert(g * y == y * g) by (nonlinear_arith);
}

proof fn lemma_fit_transfer(t: int, unit: int, span: int, v1: int, d1: int, v2: int, d2: int)
    requires
        unit > 0,
        span > 0,
        d1 > 0,
        d2 > 0,
        v2 > 0,
        v1 * d2 <= v2 * d1,
        t * (d1 * unit) < span * v1,
    ensures
        t * (d2 * unit) < span * v2,
{
    if t > 0 {
        assert(t * (d1 * unit) * d2 < span * v1 * d2) by (nonlinear_arith)
            requires
                t * (d1 * unit) < span * v1,
                d2 > 0,
        ;
        assert(span * v1 * d2 <= span * v2 * d1) by (nonlinear_arith)
            requires
                v1 * d2 <= v2 * d1,
                span > 0,
        ;
        assert(t * (d2 * unit) * d1 == t * (d1 * unit) * d2) by (nonlinear_arith);
        assert(span * v2 * d1 == (span * v2) * d1) by (nonlinear_arith);
        assert(t * (d2 * unit) < span * v2) by (nonlinear_arith)
            requires
                t * (d2 * unit) * d1 < (span * v2) * d1,
                d1 > 0,
        ;
    } else {
        assert(t * (d2 * unit) <= 0) by (nonlinear_arith)
            requires
                t <= 0,
                d2 > 0,
                unit > 0,
        ;
        assert(span * v2 > 0) by (nonlinear_arith)
            requires
                span > 0,
                v2 > 0,
        ;
    }
}

/// A fitted source is rendered at the quality level's density. Where the
/// proxy edge is set by neither the quality's base edge nor the source's
/// longest edge, it is the CFA guard plus the least whole size `g` that
/// covers the source's longest edge `S` scaled by the fit and by the
/// quality's pixel scale `s` (over `SCALE_DENOMINATOR`): `g - 1` falls short
/// of `S * s * vw / dw` and of `S * s * vh / dh`, and `g` reaches the
/// smaller of the two. So Low renders about half as many pixels as Max.
pub proof fn lemma_fitted_edge_renders_at_the_quality_density(
    quality: PreviewQuality,
    viewport: [u32; 2],
    source_width: u32,
    source_height: u32,
    display_width: u32,
    display_height: u32,
)
    ensures
        ({
            let edge = quality.spec_fitted_edge(
                viewport,
                source_width,
                source_height,
                display_width,
                display_height,
            );
            let source_edge = max_int(
                max_int(source_width as int, 1),
                max_int(source_height as int, 1),
            );
            let vw = max_int(viewport[0] as int, 1);
            let vh = max_int(viewport[1] as int, 1);
            let dw = max_int(display_width as int, 1);
            let dh = max_int(display_height as int, 1);
            let unit = SCALE_DENOMINATOR as int;
            let span = source_edge * quality.spec_pixel_scale();
            let g = edge - CFA_PHASE_GUARD;
            quality.spec_proxy_edge() < edge < source_edge ==> {
                &&& (g - 1) * (dw * unit) < span * vw
                &&& (g - 1) * (dh * unit) < span * vh
                &&& (g * (dw * unit) >= span * vw || g * (dh * unit) >= span * vh)
            }
        }),
{
    let edge = quality.spec_fitted_edge(viewport, source_width, source_height, display_width, display_height);
    let source_edge = max_int(max_int(source_width as int, 1), max_int(source_height as int, 1));
    let vw = max_int(viewport[0] as int, 1);
    let vh = max_int(viewport[1] as int, 1);
    let dw = max_int(display_width as int, 1);
    let dh = max_int(display_height as int, 1);
    let unit = SCALE_DENOMINATOR as int;
    let s = quality.spec_pixel_scale() as int;
    let span = source_edge * s;
    if quality.spec_proxy_edge() < edge < source_edge {
        let (num, den) = if vw * dh <= vh * dw {
            (vw, dw)
        } else {
            (vh, dh)
        };
        let x = source_edge * num * s;
        let y = den * unit;
        assert(x >= 0) by (nonlinear_arith)
            requires
                x == source_edge * num * s,
                source_edge >= 1,
                num >= 1,
                s >= 0,
        ;
        assert(y > 0) by (nonlinear_arith)
            requires
                y == den * unit,
                den >= 1,
                unit > 0,
        ;
        let g = ceil_div(x, y);
        assert(edge == g + CFA_PHASE_GUARD);
        lemma_ceil_div_bounds(x, y);
        assert(x == span * num) by (nonlinear_arith)
            requires
                x == source_edge * num * s,
                span == source_edge * s,
        ;
        assert(s > 0);
        assert(span > 0) by (nonlinear_arith)
            requires
                span == source_edge * s,
                source_edge >= 1,
                s > 0,
        ;
        if vw * dh <= vh * dw {
            lemma_fit_transfer(g - 1, unit, span, vw, dw, vh, dh);
        } else {
            lemma_fit_transfer(g - 1, unit, span, vh, dh, vw, dw);
        }
    }
}

} // verus!
