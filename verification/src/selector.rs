//! The compression-mode heuristic for auto mode: palette-friendly sources
//! stay lossless, small images stay lossless, and otherwise a sparse grid
//! of pixels is sampled to tell flat, graphic content (lossless) from
//! photographic content (lossy).

use vstd::prelude::*;
use crate::bitmap::Bitmap;
use crate::bitmap::BitmapView;
use crate::bitmap::Pixel;
use crate::formats::ImageFormat;

verus! {

/// A pixel's colour channels packed into one number, alpha ignored.
pub open spec fn spec_pack_rgb(p: Pixel) -> u32 {
    (p.r * 0x10000 + p.g * 0x100 + p.b) as u32
}

/// Pack a pixel's colour channels, ignoring alpha.
pub fn pack_rgb(p: Pixel) -> (c: u32)
    ensures
        c == spec_pack_rgb(p),
{
    (p.r as u32) * 0x10000 + (p.g as u32) * 0x100 + (p.b as u32)
}

/// What the sampling pass accumulates: the distinct colours met so far, in
/// order of first sight, and whether any sampled pixel was translucent.
#[verifier::ext_equal]
pub struct SampleState {
    pub colors: Seq<u32>,
    pub transparency: bool,
}

/// A colour list grows only by colours it does not hold yet.
pub open spec fn spec_insert_color(colors: Seq<u32>, c: u32) -> Seq<u32> {
    if colors.contains(c) {
        colors
    } else {
        colors.push(c)
    }
}

/// One sampled grid cell's effect on the state. Once more colours than the
/// sample budget have been collected, sampling is over and further cells
/// change nothing.
pub open spec fn spec_sample_step(
    st: SampleState,
    b: BitmapView,
    x: int,
    y: int,
    cap: int,
) -> SampleState {
    if st.colors.len() > cap {
        st
    } else {
        let p = b.pixel_at(x, y);
        SampleState {
            colors: spec_insert_color(st.colors, spec_pack_rgb(p)),
            transparency: st.transparency || p.a < 255,
        }
    }
}

/// Sample one row at every `step_x`-th column from `x` on.
pub open spec fn spec_sample_row(
    st: SampleState,
    b: BitmapView,
    y: int,
    x: int,
    step_x: int,
    cap: int,
) -> SampleState
    decreases (if x <= b.width { b.width - x } else { 0int })
        when step_x >= 1 && x >= 0
{
    if x >= b.width {
        st
    } else {
        spec_sample_row(spec_sample_step(st, b, x, y, cap), b, y, x + step_x, step_x, cap)
    }
}

/// Sample every `step_y`-th row from `y` on.
pub open spec fn spec_sample_rows(
    st: SampleState,
    b: BitmapView,
    y: int,
    step_x: int,
    step_y: int,
    cap: int,
) -> SampleState
    decreases (if y <= b.height { b.height - y } else { 0int })
        when step_x >= 1 && step_y >= 1 && y >= 0
{
    if y >= b.height {
        st
    } else {
        spec_sample_rows(
            spec_sample_row(st, b, y, 0, step_x, cap),
            b,
            y + step_y,
            step_x,
            step_y,
            cap,
        )
    }
}

/// The sample budget: up to a hundred colours, fewer on tiny images.
pub open spec fn spec_sample_cap(b: BitmapView) -> int {
    let quarter = b.width * b.height / 4;
    if quarter < 100 {
        quarter as int
    } else {
        100
    }
}

/// The column stride of the sample grid: a tenth of the width, one at
/// least.
pub open spec fn spec_step_x(b: BitmapView) -> int {
    if b.width / 10 >= 1 {
        (b.width / 10) as int
    } else {
        1
    }
}

/// The row stride of the sample grid.
pub open spec fn spec_step_y(b: BitmapView) -> int {
    if b.height / 10 >= 1 {
        (b.height / 10) as int
    } else {
        1
    }
}

/// What sampling the whole grid accumulates.
pub open spec fn spec_sample(b: BitmapView) -> SampleState {
    spec_sample_rows(
        SampleState { colors: Seq::empty(), transparency: false },
        b,
        0,
        spec_step_x(b),
        spec_step_y(b),
        spec_sample_cap(b),
    )
}

/// The heuristic's reading of the sampled grid: lossless when any sampled
/// pixel was translucent or few distinct colours were met.
pub open spec fn spec_color_complexity_lossless(b: BitmapView) -> bool {
    let st = spec_sample(b);
    st.transparency || st.colors.len() < 64
}

/// Which encoding auto mode picks: sources likely to carry palettes or
/// transparency stay lossless; small images stay lossless; photographic
/// content goes lossy.
pub open spec fn spec_should_use_lossless(b: BitmapView, fmt: Option<ImageFormat>) -> bool {
    match fmt {
        Some(ImageFormat::Png) => true,
        Some(ImageFormat::Gif) => true,
        _ => {
            if b.width * b.height < 50000 {
                true
            } else {
                spec_color_complexity_lossless(b)
            }
        },
    }
}

/// Whether the colour list holds this colour already.
fn contains_color(colors: &Vec<u32>, c: u32) -> (r: bool)
    ensures
        r == colors@.contains(c),
{
    let mut i: usize = 0;
    while i < colors.len()
        invariant
            0 <= i <= colors@.len(),
            forall|j: int| 0 <= j < i ==> colors@[j] != c,
        decreases colors@.len() - i,
    {
        if colors[i] == c {
            return true;
        }
        i = i + 1;
    }
    false
}

/// Once the collected colours outnumber the budget, sampling a row changes
/// nothing.
proof fn lemma_row_saturated(st: SampleState, b: BitmapView, y: int, x: int, step_x: int, cap: int)
    requires
        step_x >= 1,
        x >= 0,
        st.colors.len() > cap,
    ensures
        spec_sample_row(st, b, y, x, step_x, cap) == st,
    decreases (if x <= b.width { b.width - x } else { 0int }),
{
    if x >= b.width {
    } else {
        assert(spec_sample_step(st, b, x, y, cap) == st);
        lemma_row_saturated(st, b, y, x + step_x, step_x, cap);
    }
}

/// Decide the colour complexity of a bitmap by sampling a sparse grid of
/// its pixels: lossless when transparency was met or the distinct colours
/// stayed few.
pub fn analyze_color_complexity(img: &Bitmap) -> (r: bool)
    requires
        img@.wf(),
    ensures
        r == spec_color_complexity_lossless(img@),
{
    let ghost bv = img@;
    proof {
        assert((img.width as int) * (img.height as int) <= 0xffff_ffff * 0xffff_ffff) by (
        nonlinear_arith)
            requires
                img.width <= 0xffff_ffffu32,
                img.height <= 0xffff_ffffu32,
        ;
    }
    let cap: u64 = {
        let wh: u64 = (img.width as u64) * (img.height as u64);
        if wh / 4 < 100 {
            wh / 4
        } else {
            100
        }
    };
    let step_x: u32 = if img.width / 10 >= 1 {
        img.width / 10
    } else {
        1
    };
    let step_y: u32 = if img.height / 10 >= 1 {
        img.height / 10
    } else {
        1
    };
    proof {
        assert(cap == spec_sample_cap(bv));
        assert(step_x as int == spec_step_x(bv));
        assert(step_y as int == spec_step_y(bv));
    }
    let mut colors: Vec<u32> = Vec::new();
    let mut transparency: bool = false;
    let ghost target = spec_sample(bv);
    let mut y: u64 = 0;
    while y < img.height as u64
        invariant
            img@ == bv,
            img@.wf(),
            y >= 0,
            cap == spec_sample_cap(bv),
            step_x as int == spec_step_x(bv),
            step_y as int == spec_step_y(bv),
            step_x >= 1,
            step_y >= 1,
            target == spec_sample_rows(
                SampleState { colors: colors@, transparency },
                bv,
                y as int,
                step_x as int,
                step_y as int,
                cap as int,
            ),
        decreases (if y as int <= bv.height { bv.height - y } else { 0int }),
    {
        proof {
            assert(spec_sample_rows(
                SampleState { colors: colors@, transparency },
                bv,
                y as int,
                step_x as int,
                step_y as int,
                cap as int,
            ) == spec_sample_rows(
                spec_sample_row(
                    SampleState { colors: colors@, transparency },
                    bv,
                    y as int,
                    0,
                    step_x as int,
                    cap as int,
                ),
                bv,
                y as int + step_y as int,
                step_x as int,
                step_y as int,
                cap as int,
            ));
        }
        let ghost row_entry = SampleState { colors: colors@, transparency };
        let mut x: u64 = 0;
        while x < img.width as u64
            invariant_except_break
                img@ == bv,
                img@.wf(),
                x >= 0,
                y < bv.height,
                cap == spec_sample_cap(bv),
                step_x as int == spec_step_x(bv),
                step_x >= 1,
                spec_sample_row(row_entry, bv, y as int, 0, step_x as int, cap as int)
                    == spec_sample_row(
                    SampleState { colors: colors@, transparency },
                    bv,
                    y as int,
                    x as int,
                    step_x as int,
                    cap as int,
                ),
            ensures
                (SampleState { colors: colors@, transparency }) == spec_sample_row(
                    row_entry,
                    bv,
                    y as int,
                    0,
                    step_x as int,
                    cap as int,
                ),
                img@ == bv,
            decreases (if x as int <= bv.width { bv.width - x } else { 0int }),
        {
            if colors.len() as u64 > cap {
                proof {
                    lemma_row_saturated(
                        SampleState { colors: colors@, transparency },
                        bv,
                        y as int,
                        x as int,
                        step_x as int,
                        cap as int,
                    );
                }
                break ;
            }
            let p = img.get_pixel(x as u32, y as u32);
            let packed = pack_rgb(p);
            let ghost st_before = SampleState { colors: colors@, transparency };
            if p.a < 255 {
                transparency = true;
            }
            if !contains_color(&colors, packed) {
                colors.push(packed);
            }
            proof {
                assert(SampleState { colors: colors@, transparency } == spec_sample_step(
                    st_before,
                    bv,
                    x as int,
                    y as int,
                    cap as int,
                ));
            }
            x = x + step_x as u64;
        }
        y = y + step_y as u64;
    }
    proof {
        assert(target == SampleState { colors: colors@, transparency });
    }
    transparency || colors.len() < 64
}

/// Whether auto mode encodes this bitmap losslessly, given the format its
/// source file's extension named.
pub fn should_use_lossless(img: &Bitmap, fmt: Option<ImageFormat>) -> (r: bool)
    requires
        img@.wf(),
    ensures
        r == spec_should_use_lossless(img@, fmt),
{
    match fmt {
        Some(ImageFormat::Png) => true,
        Some(ImageFormat::Gif) => true,
        _ => {
            proof {
                assert((img.width as int) * (img.height as int) <= 0xffff_ffff * 0xffff_ffff) by (
                nonlinear_arith)
                    requires
                        img.width <= 0xffff_ffffu32,
                        img.height <= 0xffff_ffffu32,
                ;
            }
            let total: u64 = (img.width as u64) * (img.height as u64);
            if total < 50000 {
                true
            } else {
                analyze_color_complexity(img)
            }
        },
    }
}

/// The auto-mode decision is deterministic: for one bitmap and one source
/// format, any two decisions drawn from the heuristic agree.
pub proof fn lemma_mode_choice_deterministic(
    r1: bool,
    r2: bool,
    b: BitmapView,
    fmt: Option<ImageFormat>,
)
    requires
        r1 == spec_should_use_lossless(b, fmt),
        r2 == spec_should_use_lossless(b, fmt),
    ensures
        r1 == r2,
{
}

} // verus!
