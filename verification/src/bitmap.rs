//! An in-memory bitmap as plain values: dimensions and a row-major list of
//! RGBA pixels. Decoded images enter the library in this form, and the
//! mode-selection heuristic reads it.

use vstd::prelude::*;

verus! {

/// One pixel, eight bits per channel.
#[derive(Debug, Clone, Copy, PartialEq, Eq, Structural)]
pub struct Pixel {
    pub r: u8,
    pub g: u8,
    pub b: u8,
    pub a: u8,
}

impl Pixel {
    pub fn new(r: u8, g: u8, b: u8, a: u8) -> (p: Pixel)
        ensures
            p == (Pixel { r, g, b, a }),
    {
        Pixel { r, g, b, a }
    }
}

/// The mathematical value of a bitmap.
#[verifier::ext_equal]
pub struct BitmapView {
    pub width: nat,
    pub height: nat,
    pub pixels: Seq<Pixel>,
}

impl BitmapView {
    /// Well-formed: one pixel per cell of the width-by-height grid.
    pub open spec fn wf(&self) -> bool {
        self.pixels.len() == self.width * self.height
    }

    /// The pixel of one grid cell, row-major.
    pub open spec fn pixel_at(&self, x: int, y: int) -> Pixel {
        self.pixels[y * self.width + x]
    }
}

/// A decoded raster image: dimensions and row-major RGBA pixels.
#[derive(Debug)]
pub struct Bitmap {
    pub width: u32,
    pub height: u32,
    pub pixels: Vec<Pixel>,
}

impl View for Bitmap {
    type V = BitmapView;

    open spec fn view(&self) -> BitmapView {
        BitmapView {
            width: self.width as nat,
            height: self.height as nat,
            pixels: self.pixels@,
        }
    }
}

impl Bitmap {
    /// Read the pixel of one grid cell.
    pub fn get_pixel(&self, x: u32, y: u32) -> (p: Pixel)
        requires
            self@.wf(),
            x < self.width,
            y < self.height,
        ensures
            p == self@.pixel_at(x as int, y as int),
    {
        proof {
            assert((y as int) * (self.width as int) + (x as int) < (self.height as int) * (
            self.width as int)) by (nonlinear_arith)
                requires
                    x < self.width,
                    y < self.height,
            ;
            assert((self.width as int) * (self.height as int) == (self.height as int) * (
            self.width as int)) by (nonlinear_arith);
        }
        let n = self.pixels.len();
        let idx: usize = (y as usize) * (self.width as usize) + (x as usize);
        self.pixels[idx]
    }
}

/// The row-major RGBA bytes of a pixel list, four per pixel.
pub open spec fn spec_raw_rgba(pixels: Seq<Pixel>) -> Seq<u8> {
    Seq::new(
        pixels.len() * 4,
        |i: int|
            {
                let p = pixels[i / 4];
                if i % 4 == 0 {
                    p.r
                } else if i % 4 == 1 {
                    p.g
                } else if i % 4 == 2 {
                    p.b
                } else {
                    p.a
                }
            },
    )
}

/// Flatten a bitmap's pixels into row-major RGBA bytes.
pub fn to_raw_rgba(pixels: &Vec<Pixel>) -> (r: Vec<u8>)
    requires
        pixels@.len() * 4 <= usize::MAX,
    ensures
        r@ == spec_raw_rgba(pixels@),
{
    let mut r: Vec<u8> = Vec::new();
    let mut i: usize = 0;
    while i < pixels.len()
        invariant
            0 <= i <= pixels@.len(),
            pixels@.len() * 4 <= usize::MAX,
            r@.len() == i * 4,
            forall|k: int| 0 <= k < i * 4 ==> r@[k] == spec_raw_rgba(pixels@)[k],
        decreases pixels@.len() - i,
    {
        let p = pixels[i];
        r.push(p.r);
        r.push(p.g);
        r.push(p.b);
        r.push(p.a);
        proof {
            assert(forall|k: int|
                0 <= k < (i + 1) * 4 ==> r@[k] == #[trigger] spec_raw_rgba(pixels@)[k]) by {
                assert forall|k: int| 0 <= k < (i + 1) * 4 implies r@[k] == #[trigger] spec_raw_rgba(
                    pixels@,
                )[k] by {
                    if k >= i * 4 {
                        assert(k / 4 == i && (k % 4 == 0 || k % 4 == 1 || k % 4 == 2 || k % 4
                            == 3));
                    }
                }
            }
        }
        i = i + 1;
    }
    proof {
        assert(r@ =~= spec_raw_rgba(pixels@));
    }
    r
}

/// Group row-major RGBA bytes back into pixels, four bytes each.
pub fn from_raw_rgba(width: u32, height: u32, raw: &Vec<u8>) -> (b: Bitmap)
    requires
        raw@.len() == (width as int) * (height as int) * 4,
    ensures
        b@.wf(),
        b.width == width,
        b.height == height,
        raw@ == spec_raw_rgba(b@.pixels),
{
    proof {
        assert((width as int) * (height as int) >= 0 && (width as int) * (height as int) * 4 >= (
        width as int) * (height as int)) by (nonlinear_arith);
    }
    let mut pixels: Vec<Pixel> = Vec::new();
    let total: usize = raw.len() / 4;
    proof {
        assert(total == (width as int) * (height as int));
    }
    let mut i: usize = 0;
    while i < total
        invariant
            0 <= i <= total,
            total * 4 == raw@.len(),
            raw@.len() <= usize::MAX,
            pixels@.len() == i,
            forall|k: int|
                0 <= k < i ==> #[trigger] pixels@[k] == (Pixel {
                    r: raw@[k * 4],
                    g: raw@[k * 4 + 1],
                    b: raw@[k * 4 + 2],
                    a: raw@[k * 4 + 3],
                }),
        decreases total - i,
    {
        proof {
            assert(i * 4 + 3 < total * 4) by (nonlinear_arith)
                requires
                    i < total,
            ;
        }
        let p = Pixel {
            r: raw[i * 4],
            g: raw[i * 4 + 1],
            b: raw[i * 4 + 2],
            a: raw[i * 4 + 3],
        };
        pixels.push(p);
        i = i + 1;
    }
    let b = Bitmap { width, height, pixels };
    proof {
        assert(b@.wf()) by {
            assert(b@.pixels.len() == total == (width as int) * (height as int));
        }
        assert(raw@ =~= spec_raw_rgba(b@.pixels)) by {
            assert forall|k: int| 0 <= k < raw@.len() implies raw@[k] == spec_raw_rgba(b@.pixels)[k] by {
                let q = k / 4;
                assert(0 <= q < total && (k == q * 4 + k % 4)) by (nonlinear_arith)
                    requires
                        0 <= k < total * 4,
                        q == k / 4,
                ;
                assert(b@.pixels[q] == (Pixel {
                    r: raw@[q * 4],
                    g: raw@[q * 4 + 1],
                    b: raw@[q * 4 + 2],
                    a: raw@[q * 4 + 3],
                }));
            }
        }
    }
    b
}

} // verus!
