//! A double-buffered framebuffer: pixels are drawn into a back buffer,
//! then flushed to the screen all at once.
use vstd::arithmetic::div_mod::{lemma_fundamental_div_mod, lemma_fundamental_div_mod_converse};
use vstd::prelude::*;

verus! {

/// The width and height of a pixel area.
#[derive(Debug, Clone, Copy, PartialEq, Eq, Structural)]
pub struct Size {
    width: usize,
    height: usize,
}

impl Size {
    pub closed spec fn spec_width(self) -> usize {
        self.width
    }

    pub closed spec fn spec_height(self) -> usize {
        self.height
    }

    /// An area `width` pixels wide and `height` high.
    pub fn new(width: usize, height: usize) -> (r: Self)
        ensures
            r.spec_width() == width,
            r.spec_height() == height,
    {
        Size { width, height }
    }

    /// The width.
    pub fn width(&self) -> (r: usize)
        ensures
            r == self.spec_width(),
    {
        self.width
    }

    /// The height.
    pub fn height(&self) -> (r: usize)
        ensures
            r == self.spec_height(),
    {
        self.height
    }
}

/// A framebuffer of `dimensions` visible pixels whose rows lie
/// `scanline_width` pixels apart, drawn through a back buffer of pixels of
/// type `P`.
pub struct FramebufferDriver<P> {
    backbuffer: Vec<P>,
    dimensions: Size,
    scanline_width: usize,
}

/// Whether position `i` of a buffer with rows `scanline_width` apart lies
/// in the visible `width` columns of one of the first `rows` rows.
pub open spec fn visible(i: int, scanline_width: int, width: int, rows: int) -> bool {
    i % scanline_width < width && i / scanline_width < rows
}

impl<P: Copy> FramebufferDriver<P> {
    pub closed spec fn spec_backbuffer(&self) -> Seq<P> {
        self.backbuffer@
    }

    pub closed spec fn spec_dimensions(&self) -> Size {
        self.dimensions
    }

    pub closed spec fn spec_scanline_width(&self) -> usize {
        self.scanline_width
    }

    /// The back buffer holds `scanline_width` pixels for each row, and the
    /// visible columns fit in a row.
    pub closed spec fn wf(&self) -> bool {
        &&& self.dimensions.width <= self.scanline_width
        &&& self.scanline_width * self.dimensions.height <= usize::MAX
        &&& self.backbuffer@.len() == self.scanline_width * self.dimensions.height
    }

    /// A driver for a screen of `dimensions` whose rows lie
    /// `scanline_width` pixels apart, with a back buffer of that many rows
    /// holding `fill`.
    pub fn new(dimensions: Size, scanline_width: usize, fill: P) -> (r: Self)
        requires
            dimensions.spec_width() <= scanline_width,
            scanline_width * dimensions.spec_height() <= usize::MAX,
        ensures
            r.wf(),
            r.spec_dimensions() == dimensions,
            r.spec_scanline_width() == scanline_width,
            r.spec_backbuffer() == Seq::new(
                (scanline_width * dimensions.spec_height()) as nat,
                |i: int| fill,
            ),
    {
        let pixel_len = scanline_width * dimensions.height();
        let mut backbuffer: Vec<P> = Vec::new();
        let mut i: usize = 0;
        while i < pixel_len
            invariant
                i <= pixel_len,
                backbuffer@.len() == i,
                forall|j: int| 0 <= j < i ==> #[trigger] backbuffer@[j] == fill,
            decreases pixel_len - i,
        {
            backbuffer.push(fill);
            i = i + 1;
        }
        assert(backbuffer@ =~= Seq::new(pixel_len as nat, |i: int| fill));
        FramebufferDriver { backbuffer, dimensions, scanline_width }
    }

    /// The screen's size.
    pub fn dimensions(&self) -> (r: Size)
        ensures
            r == self.spec_dimensions(),
    {
        self.dimensions
    }

    /// Whether `point` lies on the screen.
    pub open spec fn spec_contains_point(&self, point: (usize, usize)) -> bool {
        point.0 < self.spec_dimensions().spec_width() && point.1
            < self.spec_dimensions().spec_height()
    }

    /// Where `point` lies in the back buffer: its row times the scanline
    /// width, plus its column.
    pub open spec fn spec_point_to_offset(&self, point: (usize, usize)) -> int {
        point.1 * self.spec_scanline_width() + point.0
    }

    /// Whether `point` lies on the screen.
    pub fn contains_point(&self, point: (usize, usize)) -> (r: bool)
        ensures
            r == self.spec_contains_point(point),
    {
        point.0 < self.dimensions.width && point.1 < self.dimensions.height
    }

    proof fn lemma_offset(&self, point: (usize, usize))
        requires
            self.wf(),
            self.spec_contains_point(point),
        ensures
            0 <= self.spec_point_to_offset(point) < self.spec_backbuffer().len(),
            self.spec_point_to_offset(point) % self.spec_scanline_width() as int == point.0,
            self.spec_point_to_offset(point) / self.spec_scanline_width() as int == point.1,
    {
        let s = self.scanline_width as int;
        let h = self.dimensions.height as int;
        let o = point.1 * s + point.0;
        assert(o < s * h) by (nonlinear_arith)
            requires
                o == point.1 * s + point.0,
                point.0 < s,
                point.1 < h,
        ;
        assert(0 <= o) by (nonlinear_arith)
            requires
                o == point.1 * s + point.0,
                0 <= point.0,
                0 <= point.1,
                0 <= s,
        ;
        lemma_fundamental_div_mod_converse(o, s, point.1 as int, point.0 as int);
    }

    /// Where `point`, which must lie on the screen, is in the back buffer.
    pub fn point_to_offset(&self, point: (usize, usize)) -> (r: usize)
        requires
            self.wf(),
            self.spec_contains_point(point),
        ensures
            r == self.spec_point_to_offset(point),
            r < self.spec_backbuffer().len(),
    {
        proof {
            self.lemma_offset(point);
        }
        point.1 * self.scanline_width + point.0
    }

    /// Draws `color` at `point`, which must lie on the screen.
    pub fn write_pixel(&mut self, point: (usize, usize), color: P)
        requires
            old(self).wf(),
            old(self).spec_contains_point(point),
        ensures
            final(self).wf(),
            final(self).spec_dimensions() == old(self).spec_dimensions(),
            final(self).spec_scanline_width() == old(self).spec_scanline_width(),
            final(self).spec_backbuffer() == old(self).spec_backbuffer().update(
                old(self).spec_point_to_offset(point),
                color,
            ),
    {
        let offset = self.point_to_offset(point);
        self.backbuffer.set(offset, color);
    }

    /// Fills every visible pixel of the back buffer with `color`; the
    /// pixels past a row's visible width keep their value.
    pub fn clear(&mut self, color: P)
        requires
            old(self).wf(),
        ensures
            final(self).wf(),
            final(self).spec_dimensions() == old(self).spec_dimensions(),
            final(self).spec_scanline_width() == old(self).spec_scanline_width(),
            final(self).spec_backbuffer().len() == old(self).spec_backbuffer().len(),
            forall|i: int|
                0 <= i < old(self).spec_backbuffer().len() ==> #[trigger] final(self).spec_backbuffer()[i] == if visible(
                    i,
                    old(self).spec_scanline_width() as int,
                    old(self).spec_dimensions().spec_width() as int,
                    old(self).spec_dimensions().spec_height() as int,
                ) {
                    color
                } else {
                    old(self).spec_backbuffer()[i]
                },
    {
        let ghost original = self.backbuffer@;
        let ghost s = self.scanline_width as int;
        let ghost w = self.dimensions.width as int;
        let height = self.dimensions.height;
        let width = self.dimensions.width;
        let mut y: usize = 0;
        while y < height
            invariant
                self.wf(),
                y <= height,
                height == self.dimensions.height,
                width == self.dimensions.width,
                s == self.scanline_width,
                w == width,
                self.backbuffer@.len() == original.len(),
                forall|i: int|
                    0 <= i < original.len() ==> #[trigger] self.backbuffer@[i] == if visible(
                        i,
                        s,
                        w,
                        y as int,
                    ) {
                        color
                    } else {
                        original[i]
                    },
            decreases height - y,
        {
            let mut x: usize = 0;
            while x < width
                invariant
                    self.wf(),
                    y < height,
                    x <= width,
                    height == self.dimensions.height,
                    width == self.dimensions.width,
                    s == self.scanline_width,
                    w == width,
                    self.backbuffer@.len() == original.len(),
                    forall|i: int|
                        0 <= i < original.len() ==> #[trigger] self.backbuffer@[i] == if visible(
                            i,
                            s,
                            w,
                            y as int,
                        ) || (i / s == y && i % s < x) {
                            color
                        } else {
                            original[i]
                        },
                decreases width - x,
            {
                proof {
                    self.lemma_offset((x, y));
                }
                let offset = self.point_to_offset((x, y));
                let ghost before = self.backbuffer@;
                self.backbuffer.set(offset, color);
                proof {
                    assert forall|i: int| 0 <= i < original.len() implies #[trigger] self.backbuffer@[i]
                        == if visible(i, s, w, y as int) || (i / s == y && i % s < x + 1) {
                        color
                    } else {
                        original[i]
                    } by {
                        if i != offset {
                            assert(self.backbuffer@[i] == before[i]);
                            if i / s == y && i % s == x {
                                lemma_fundamental_div_mod(i, s);
                                assert(i == offset) by (nonlinear_arith)
                                    requires
                                        i == s * (i / s) + i % s,
                                        i / s == y,
                                        i % s == x,
                                        offset == y * s + x,
                                ;
                            }
                        }
                    }
                }
                x = x + 1;
            }
            proof {
                assert forall|i: int| 0 <= i < original.len() implies #[trigger] self.backbuffer@[i]
                    == if visible(i, s, w, y + 1) {
                    color
                } else {
                    original[i]
                } by {
                    assert(s > 0);
                }
            }
            y = y + 1;
        }
    }

    /// The pixels that flushing copies to the screen: the first `width *
    /// height` of the back buffer, which is then cleared to `black`.
    pub fn flush_pixels(&mut self, black: P) -> (r: Vec<P>)
        requires
            old(self).wf(),
        ensures
            r@ == old(self).spec_backbuffer().take(
                old(self).spec_dimensions().spec_width() * old(self).spec_dimensions().spec_height(),
            ),
            final(self).wf(),
            final(self).spec_dimensions() == old(self).spec_dimensions(),
            final(self).spec_scanline_width() == old(self).spec_scanline_width(),
            forall|i: int|
                0 <= i < old(self).spec_backbuffer().len() ==> #[trigger] final(self).spec_backbuffer()[i] == if visible(
                    i,
                    old(self).spec_scanline_width() as int,
                    old(self).spec_dimensions().spec_width() as int,
                    old(self).spec_dimensions().spec_height() as int,
                ) {
                    black
                } else {
                    old(self).spec_backbuffer()[i]
                },
    {
        proof {
            let w = self.dimensions.width as int;
            let h = self.dimensions.height as int;
            let s = self.scanline_width as int;
            assert(w * h <= s * h) by (nonlinear_arith)
                requires
                    w <= s,
                    0 <= h,
            ;
        }
        let len = self.dimensions.width * self.dimensions.height;
        let mut copied: Vec<P> = Vec::new();
        let mut i: usize = 0;
        while i < len
            invariant
                self.wf(),
                len <= self.backbuffer@.len(),
                i <= len,
                copied@ == self.backbuffer@.take(i as int),
            decreases len - i,
        {
            copied.push(self.backbuffer[i]);
            assert(copied@ =~= self.backbuffer@.take(i + 1));
            i = i + 1;
        }
        self.clear(black);
        copied
    }
}

} // verus!
