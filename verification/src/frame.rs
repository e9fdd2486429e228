//! A fixed-size RGB24 image: the PPU's output, one byte triple per pixel,
//! row-major with no padding.

use vstd::prelude::*;

verus! {

/// Pixel `p` of an RGBA buffer carries the bytes of pixel `p` of an RGB
/// buffer followed by an opaque alpha byte.
pub open spec fn rgba_pixel(buffer: Seq<u8>, data: Seq<u8>, p: int) -> bool {
    &&& buffer[4 * p] == data[3 * p]
    &&& buffer[4 * p + 1] == data[3 * p + 1]
    &&& buffer[4 * p + 2] == data[3 * p + 2]
    &&& buffer[4 * p + 3] == 0xff
}

/// An RGB24 image of `width * height` pixels stored as consecutive
/// byte triples, row-major.
pub struct Frame {
    pub width: usize,
    pub height: usize,
    pub data: Vec<u8>,
}

impl Frame {
    /// The buffer holds exactly three bytes per pixel, and the sides are
    /// small enough that pixel offsets cannot overflow a `usize`.
    pub open spec fn wf(self) -> bool {
        &&& self.data@.len() == self.width * self.height * 3
        &&& self.width <= 4096
        &&& self.height <= 4096
    }

    /// Byte offset of the first channel of pixel (x, y).
    pub open spec fn pixel_base(self, x: int, y: int) -> int {
        y * 3 * self.width + x * 3
    }

    /// The buffer with pixel (x, y) set to `rgb`, other bytes unchanged.
    pub open spec fn spec_set_pixel(self, x: int, y: int, rgb: (u8, u8, u8)) -> Seq<u8> {
        if 0 <= x < self.width && 0 <= y < self.height {
            let base = self.pixel_base(x, y);
            self.data@.update(base, rgb.0).update(base + 1, rgb.1).update(base + 2, rgb.2)
        } else {
            self.data@
        }
    }

    /// A black frame of the given size.
    pub fn new(width: usize, height: usize) -> (f: Frame)
        requires
            width <= 4096,
            height <= 4096,
        ensures
            f.wf(),
            f.width == width,
            f.height == height,
            forall|i: int| 0 <= i < f.data@.len() ==> f.data@[i] == 0,
    {
        assert(width * height * 3 <= 4096 * 4096 * 3) by (nonlinear_arith)
            requires
                width <= 4096,
                height <= 4096,
        ;
        Frame { width, height, data: vec![0; width * height * 3] }
    }

    /// Write one pixel; coordinates outside the image are ignored.
    pub fn set_pixel(&mut self, x: usize, y: usize, rgb: (u8, u8, u8))
        requires
            old(self).wf(),
        ensures
            final(self).wf(),
            final(self).width == old(self).width,
            final(self).height == old(self).height,
            final(self).data@ == old(self).spec_set_pixel(x as int, y as int, rgb),
    {
        if x < self.width && y < self.height {
            assert(y * 3 * self.width + x * 3 + 2 < self.width * self.height * 3
                <= 4096 * 4096 * 3) by (nonlinear_arith)
                requires
                    x < self.width,
                    y < self.height,
                    self.width <= 4096,
                    self.height <= 4096,
            ;
            let base: usize = y * 3 * self.width + x * 3;
            self.data.set(base, rgb.0);
            self.data.set(base + 1, rgb.1);
            self.data.set(base + 2, rgb.2);
        }
    }

    /// Expand RGB24 to RGBA32 by appending an opaque alpha byte to each
    /// pixel.
    pub fn to_rgba(&self) -> (buffer: Vec<u8>)
        requires
            self.wf(),
        ensures
            buffer@.len() == self.width * self.height * 4,
            forall|p: int|
                0 <= p < self.width * self.height ==> #[trigger] rgba_pixel(
                    buffer@,
                    self.data@,
                    p,
                ),
    {
        let mut buffer: Vec<u8> = Vec::new();
        assert(self.width * self.height <= 4096 * 4096 && self.width * self.height * 3 == 3 * (
        self.width * self.height)) by (nonlinear_arith)
            requires
                self.width <= 4096,
                self.height <= 4096,
        ;
        let pixels: usize = self.width * self.height;
        let mut p: usize = 0;
        while p < pixels
            invariant
                p <= pixels,
                pixels <= 4096 * 4096,
                3 * pixels == self.data@.len(),
                buffer@.len() == 4 * p,
                forall|q: int| 0 <= q < p ==> #[trigger] rgba_pixel(buffer@, self.data@, q),
            decreases pixels - p,
        {
            let ghost prev = buffer@;
            buffer.push(self.data[3 * p]);
            buffer.push(self.data[3 * p + 1]);
            buffer.push(self.data[3 * p + 2]);
            buffer.push(0xff);
            proof {
                assert forall|q: int| 0 <= q < p + 1 implies #[trigger] rgba_pixel(
                    buffer@,
                    self.data@,
                    q,
                ) by {
                    if q < p {
                        assert(rgba_pixel(prev, self.data@, q));
                        assert(buffer@[4 * q] == prev[4 * q]);
                        assert(buffer@[4 * q + 1] == prev[4 * q + 1]);
                        assert(buffer@[4 * q + 2] == prev[4 * q + 2]);
                        assert(buffer@[4 * q + 3] == prev[4 * q + 3]);
                    } else {
                        assert(buffer@[4 * q] == self.data@[3 * q]);
                    }
                }
            }
            p = p + 1;
        }
        buffer
    }
}


/// Two frame buffers that agree everywhere except possibly in the three
/// bytes of pixel (x, y).
pub open spec fn frame_changed_at_most_at(a: Frame, b: Frame, x: int, y: int) -> bool {
    &&& b.width == a.width
    &&& b.height == a.height
    &&& b.data@.len() == a.data@.len()
    &&& forall|i: int|
        0 <= i < a.data@.len() && !(a.pixel_base(x, y) <= i < a.pixel_base(x, y) + 3)
            ==> #[trigger] b.data@[i] == a.data@[i]
}

/// Writing one pixel touches at most that pixel's three bytes.
pub proof fn lemma_set_pixel_local(a: Frame, x: int, y: int, rgb: (u8, u8, u8), b: Frame)
    requires
        a.wf(),
        b.width == a.width,
        b.height == a.height,
        b.data@ == a.spec_set_pixel(x, y, rgb),
    ensures
        frame_changed_at_most_at(a, b, x, y),
{
    if 0 <= x < a.width && 0 <= y < a.height {
        assert(0 <= a.pixel_base(x, y) && a.pixel_base(x, y) + 3 <= a.data@.len())
            by (nonlinear_arith)
            requires
                0 <= x < a.width,
                0 <= y < a.height,
                a.data@.len() == a.width * a.height * 3,
                a.pixel_base(x, y) == y * 3 * a.width + x * 3,
        ;
    }
}


/// The RGB triple stored at pixel (x, y).
pub open spec fn spec_pixel_at(f: Frame, x: int, y: int) -> (u8, u8, u8) {
    (f.data@[f.pixel_base(x, y)], f.data@[f.pixel_base(x, y) + 1], f.data@[f.pixel_base(x, y) + 2])
}

/// Distinct in-range pixels occupy disjoint byte triples.
pub proof fn lemma_pixel_base_distinct(f: Frame, x1: int, y1: int, x2: int, y2: int)
    requires
        f.wf(),
        0 <= x1 < f.width,
        0 <= y1 < f.height,
        0 <= x2 < f.width,
        0 <= y2 < f.height,
        !(x1 == x2 && y1 == y2),
    ensures
        f.pixel_base(x1, y1) + 3 <= f.pixel_base(x2, y2) || f.pixel_base(x2, y2) + 3
            <= f.pixel_base(x1, y1),
{
    assert((y1 * 3 * f.width + x1 * 3) + 3 <= y2 * 3 * f.width + x2 * 3 || (y2 * 3 * f.width + x2
        * 3) + 3 <= y1 * 3 * f.width + x1 * 3) by (nonlinear_arith)
        requires
            0 <= x1 < f.width,
            0 <= y1 < f.height,
            0 <= x2 < f.width,
            0 <= y2 < f.height,
            !(x1 == x2 && y1 == y2),
    ;
}

/// After a pixel write, the written pixel holds the colour and every
/// other pixel is untouched.
pub proof fn lemma_set_pixel_pixels(f: Frame, x0: int, y0: int, rgb: (u8, u8, u8), g: Frame)
    requires
        f.wf(),
        g.width == f.width,
        g.height == f.height,
        g.data@ == f.spec_set_pixel(x0, y0, rgb),
    ensures
        0 <= x0 < f.width && 0 <= y0 < f.height ==> spec_pixel_at(g, x0, y0) == rgb,
        forall|x: int, y: int|
            0 <= x < f.width && 0 <= y < f.height && !(x == x0 && y == y0)
                ==> #[trigger] spec_pixel_at(g, x, y) == spec_pixel_at(f, x, y),
{
    if 0 <= x0 < f.width && 0 <= y0 < f.height {
        assert(0 <= f.pixel_base(x0, y0) && f.pixel_base(x0, y0) + 3 <= f.data@.len())
            by (nonlinear_arith)
            requires
                0 <= x0 < f.width,
                0 <= y0 < f.height,
                f.data@.len() == f.width * f.height * 3,
                f.pixel_base(x0, y0) == y0 * 3 * f.width + x0 * 3,
        ;
        assert forall|x: int, y: int|
            0 <= x < f.width && 0 <= y < f.height && !(x == x0 && y == y0) implies #[trigger] spec_pixel_at(
            g,
            x,
            y,
        ) == spec_pixel_at(f, x, y) by {
            lemma_pixel_base_distinct(f, x, y, x0, y0);
            assert(0 <= f.pixel_base(x, y) && f.pixel_base(x, y) + 3 <= f.data@.len())
                by (nonlinear_arith)
                requires
                    0 <= x < f.width,
                    0 <= y < f.height,
                    f.data@.len() == f.width * f.height * 3,
                    f.pixel_base(x, y) == y * 3 * f.width + x * 3,
            ;
        }
    }
}

} // verus!
