//! Framebuffer view and framebuffer layout checks.

use vstd::prelude::*;

use crate::color::RgbColor;
use crate::display::{Argb8888, DisplayFormat, DisplayInitError, DisplayOrientation};
use crate::ltdc::{spec_ltdc_layer_config, spec_ltdc_timing, spec_video_timing};

verus! {

/// Outcome of checking a caller-supplied byte region for use as a framebuffer
/// of `len_pixels` pixels of format `F`.
pub open spec fn spec_check_framebuffer<F: DisplayFormat>(
    provided_bytes: usize,
    ptr_addr: usize,
    len_pixels: usize,
) -> Result<(), DisplayInitError> {
    let required = len_pixels * F::spec_bpp();
    let align = vstd::layout::align_of::<F::Pixel>();
    if required > usize::MAX {
        Err(DisplayInitError::FramebufferSizeOverflow)
    } else if provided_bytes < required {
        Err(
            DisplayInitError::FramebufferTooSmall {
                provided_bytes,
                required_bytes: required as usize,
            },
        )
    } else if !(if align == 0 {
        ptr_addr == 0
    } else {
        (ptr_addr as nat) % align == 0
    }) {
        Err(
            DisplayInitError::FramebufferMisaligned {
                ptr_addr,
                required_align: align as usize,
            },
        )
    } else {
        Ok(())
    }
}

/// Checks that `provided_bytes` bytes starting at address `ptr_addr` can hold
/// `len_pixels` pixels of format `F`: the byte count must not overflow, the
/// region must be large enough, and the address must be aligned for `F::Pixel`.
pub fn check_framebuffer<F: DisplayFormat>(
    provided_bytes: usize,
    ptr_addr: usize,
    len_pixels: usize,
) -> (r: Result<(), DisplayInitError>)
    ensures
        r == spec_check_framebuffer::<F>(provided_bytes, ptr_addr, len_pixels),
{
    let required_bytes = match len_pixels.checked_mul(F::bpp()) {
        Some(n) => n,
        None => {
            return Err(DisplayInitError::FramebufferSizeOverflow);
        },
    };
    if provided_bytes < required_bytes {
        return Err(DisplayInitError::FramebufferTooSmall { provided_bytes, required_bytes });
    }
    let required_align = core::mem::align_of::<F::Pixel>();
    if !ptr_addr.is_multiple_of(required_align) {
        return Err(DisplayInitError::FramebufferMisaligned { ptr_addr, required_align });
    }
    Ok(())
}

/// How the framebuffer check answers, in terms of the byte count that
/// `len_pixels` pixels need: it fails for overflow exactly when that count does
/// not fit in `usize`; it reports the region too small exactly when the count
/// fits and exceeds the region (with both sizes in the error), so a region at
/// least as large as needed is never refused for its size; and a large enough
/// region at an address aligned for the pixel type is accepted.
pub proof fn lemma_check_framebuffer_outcomes<F: DisplayFormat>(
    provided_bytes: usize,
    ptr_addr: usize,
    len_pixels: usize,
)
    ensures
        ({
            let r = spec_check_framebuffer::<F>(provided_bytes, ptr_addr, len_pixels);
            let required = len_pixels as int * F::spec_bpp() as int;
            let align = vstd::layout::align_of::<F::Pixel>() as int;
            &&& (r == Err::<(), DisplayInitError>(DisplayInitError::FramebufferSizeOverflow))
                <==> required > usize::MAX
            &&& (r matches Err(DisplayInitError::FramebufferTooSmall { .. })) <==> (required
                <= usize::MAX && (provided_bytes as int) < required)
            &&& (r matches Err(
                DisplayInitError::FramebufferTooSmall { provided_bytes: p, required_bytes: q },
            ) ==> p == provided_bytes && q as int == required)
            &&& (r matches Err(DisplayInitError::FramebufferMisaligned { .. })) ==> required
                <= provided_bytes
            &&& (r matches Err(
                DisplayInitError::FramebufferMisaligned { ptr_addr: a, required_align: b },
            ) ==> a == ptr_addr && (align <= usize::MAX ==> b as int == align))
            &&& r is Ok ==> required <= provided_bytes
            &&& align > 0 ==> (r is Ok <==> (required <= provided_bytes && ptr_addr as int % align
                == 0))
            &&& (r is Ok || r matches Err(DisplayInitError::FramebufferSizeOverflow) || r matches Err(
                DisplayInitError::FramebufferTooSmall { .. },
            ) || r matches Err(DisplayInitError::FramebufferMisaligned { .. }))
        }),
{
}

/// A framebuffer region accepted for an orientation's pixel count is never read
/// past its end by the LTDC layer configured for that orientation: the layer reads
/// `cfblnbr` lines of `cfbp` bytes, which is exactly the region's required size.
pub proof fn lemma_layer_reads_within_framebuffer<F: DisplayFormat>(
    orientation: DisplayOrientation,
    provided_bytes: usize,
    ptr_addr: usize,
    fb_addr: u32,
)
    requires
        orientation.spec_width() * F::spec_bpp() + 3 <= u16::MAX,
        spec_check_framebuffer::<F>(
            provided_bytes,
            ptr_addr,
            (orientation.spec_width() * orientation.spec_height()) as usize,
        ) is Ok,
    ensures
        ({
            let l = spec_ltdc_timing(spec_video_timing(orientation));
            let c = spec_ltdc_layer_config::<F>(orientation, l.ahbp, l.avbp, fb_addr);
            &&& c.cfbp as int * c.cfblnbr as int == orientation.spec_width() as int
                * orientation.spec_height() as int * F::spec_bpp() as int
            &&& c.cfbp as int * c.cfblnbr as int <= provided_bytes
        }),
{
    let w = orientation.spec_width() as int;
    let h = orientation.spec_height() as int;
    let bpp = F::spec_bpp() as int;
    assert(bpp <= 65535) by (nonlinear_arith)
        requires
            w >= 480,
            w * bpp + 3 <= u16::MAX,
            bpp >= 0,
    ;
    if orientation is Portrait {
        assert(w == 480 && h == 800);
        assert(w * h == 384000) by (nonlinear_arith)
            requires
                w == 480 && h == 800,
        ;
    } else {
        assert(w == 800 && h == 480);
        assert(w * h == 384000) by (nonlinear_arith)
            requires
                w == 800 && h == 480,
        ;
    }
    let l = spec_ltdc_timing(spec_video_timing(orientation));
    let c = spec_ltdc_layer_config::<F>(orientation, l.ahbp, l.avbp, fb_addr);
    assert((F::spec_bpp() as u16) as int == bpp);
    assert(c.cfbp as int == w * bpp);
    assert(c.cfblnbr as int == h);
    assert(((w * h) as usize) as int == w * h);
    assert(384000 * bpp <= provided_bytes);
    assert(w * bpp * h == w * h * bpp) by (nonlinear_arith);
}

/// Pixel at column `x`, row `y` of a row-major buffer `width` pixels wide.
pub open spec fn pixel_at<P>(pixels: Seq<P>, width: int, x: int, y: int) -> P {
    pixels[y * width + x]
}

/// Distinct in-bounds coordinates have distinct row-major indices, and every
/// in-bounds index lies inside the buffer.
pub proof fn lemma_row_major_index(width: int, height: int, x1: int, y1: int, x2: int, y2: int)
    requires
        0 <= x1 < width,
        0 <= y1 < height,
        0 <= x2 < width,
        0 <= y2 < height,
    ensures
        0 <= y1 * width + x1 < width * height,
        (y1 * width + x1 == y2 * width + x2) <==> (x1 == x2 && y1 == y2),
{
    assert(0 <= y1 * width + x1 < width * height) by (nonlinear_arith)
        requires
            0 <= x1 < width,
            0 <= y1 < height,
    ;
    if y1 < y2 {
        assert(y1 * width + x1 < y2 * width + x2) by (nonlinear_arith)
            requires
                0 <= x1 < width,
                0 <= x2,
                y1 < y2,
        ;
    } else if y2 < y1 {
        assert(y2 * width + x2 < y1 * width + x1) by (nonlinear_arith)
            requires
                0 <= x2 < width,
                0 <= x1,
                y2 < y1,
        ;
    }
}

/// Index of the quarter (0..=3) that pixel `i` belongs to in the quarter fill,
/// where each of the first three quarters spans `quarter` pixels.
pub open spec fn quarter_index(i: int, quarter: int) -> int {
    if i < quarter {
        0
    } else if i < 2 * quarter {
        1
    } else if i < 3 * quarter {
        2
    } else {
        3
    }
}

/// View over a pixel buffer, laid out row-major, `width` pixels per row.
///
/// Supports [`Argb8888`] and [`crate::display::Rgb565`] pixel formats.
pub struct FramebufferView<'a, F: DisplayFormat = Argb8888> {
    buffer: &'a mut [F::Pixel],
    width: usize,
    height: usize,
}

impl<'a, F: DisplayFormat> FramebufferView<'a, F> {
    /// The buffer holds exactly `width * height` pixels.
    #[verifier::type_invariant]
    spec fn layout_matches(self) -> bool {
        self.buffer@.len() == self.width * self.height
    }

    /// Current pixels of the view, row-major.
    pub closed spec fn pixels(&self) -> Seq<F::Pixel> {
        self.buffer@
    }

    /// Width of the view in pixels.
    pub closed spec fn spec_width(&self) -> usize {
        self.width
    }

    /// Height of the view in pixels.
    pub closed spec fn spec_height(&self) -> usize {
        self.height
    }

    /// Creates a view over `buffer`, which holds `width * height` pixels row-major.
    pub fn new(buffer: &'a mut [F::Pixel], width: usize, height: usize) -> (v: Self)
        requires
            old(buffer)@.len() == width * height,
        ensures
            v.pixels() == old(buffer)@,
            v.spec_width() == width,
            v.spec_height() == height,
    {
        FramebufferView { buffer, width, height }
    }

    /// Size of the view as (width, height).
    pub fn size(&self) -> (s: (u32, u32))
        ensures
            s.0 == self.spec_width() as u32,
            s.1 == self.spec_height() as u32,
    {
        (self.width as u32, self.height as u32)
    }

    /// Fill the entire framebuffer with a single color.
    pub fn clear(&mut self, color: F::Color)
        ensures
            final(self).spec_width() == old(self).spec_width(),
            final(self).spec_height() == old(self).spec_height(),
            final(self).pixels().len() == old(self).pixels().len(),
            forall|i: int|
                0 <= i < final(self).pixels().len() ==> #[trigger] final(self).pixels()[i]
                    == F::spec_encode(color),
    {
        proof {
            use_type_invariant(&*self);
        }
        let raw = F::encode(color);
        let n = self.buffer.len();
        let mut i: usize = 0;
        while i < n
            invariant
                n == self.buffer@.len(),
                self.buffer@.len() == self.width * self.height,
                n == old(self).buffer@.len(),
                self.width == old(self).width,
                self.height == old(self).height,
                raw == F::spec_encode(color),
                i <= n,
                forall|j: int| 0 <= j < i ==> #[trigger] self.buffer@[j] == raw,
            decreases n - i,
        {
            self.buffer[i] = raw;
            i = i + 1;
        }
    }

    /// Set the pixel at (`x`, `y`) to `color` when it lies inside the view;
    /// points outside the view are ignored.
    pub fn draw_pixel(&mut self, x: i32, y: i32, color: F::Color)
        ensures
            final(self).spec_width() == old(self).spec_width(),
            final(self).spec_height() == old(self).spec_height(),
            final(self).pixels().len() == old(self).pixels().len(),
            forall|px: int, py: int|
                0 <= px < old(self).spec_width() && 0 <= py < old(self).spec_height() ==> (
                #[trigger] pixel_at(final(self).pixels(), old(self).spec_width() as int, px, py)
                    == if px == x && py == y {
                    F::spec_encode(color)
                } else {
                    pixel_at(old(self).pixels(), old(self).spec_width() as int, px, py)
                }),
    {
        proof {
            use_type_invariant(&*self);
        }
        let n = self.buffer.len();
        if x >= 0 && y >= 0 && (x as usize) < self.width && (y as usize) < self.height {
            let xu = x as usize;
            let yu = y as usize;
            proof {
                lemma_row_major_index(self.width as int, self.height as int, xu as int, yu as int, 0, 0);
                assert(yu * self.width <= yu * self.width + xu);
            }
            let idx = yu * self.width + xu;
            self.buffer[idx] = F::encode(color);
            proof {
                let w = self.width as int;
                let h = self.height as int;
                assert forall|px: int, py: int| 0 <= px < w && 0 <= py < h implies #[trigger] pixel_at(
                    self.buffer@,
                    w,
                    px,
                    py,
                ) == if px == x && py == y {
                    F::spec_encode(color)
                } else {
                    pixel_at(old(self).buffer@, w, px, py)
                } by {
                    lemma_row_major_index(w, h, px, py, xu as int, yu as int);
                }
            }
        }
    }

    /// Fill the `area_width` × `area_height` rectangle whose top-left corner is
    /// (`area_x`, `area_y`) with `colors`, taken row-major; positions past the end
    /// of `colors` get the default color, and positions outside the view are skipped
    /// (their colors are still consumed).
    pub fn fill_contiguous(
        &mut self,
        area_x: i32,
        area_y: i32,
        area_width: i32,
        area_height: i32,
        colors: &[F::Color],
    )
        requires
            area_width <= 0 || area_height <= 0 || (area_x + area_width - 1 <= i32::MAX
                && area_y + area_height - 1 <= i32::MAX),
        ensures
            final(self).spec_width() == old(self).spec_width(),
            final(self).spec_height() == old(self).spec_height(),
            final(self).pixels().len() == old(self).pixels().len(),
            forall|px: int, py: int|
                0 <= px < old(self).spec_width() && 0 <= py < old(self).spec_height() ==> (
                #[trigger] pixel_at(final(self).pixels(), old(self).spec_width() as int, px, py)
                    == if area_x <= px < area_x + area_width && area_y <= py < area_y
                    + area_height {
                    F::spec_encode(
                        fill_color::<F>(colors@, (py - area_y) * area_width + (px - area_x)),
                    )
                } else {
                    pixel_at(old(self).pixels(), old(self).spec_width() as int, px, py)
                }),
    {
        proof {
            use_type_invariant(&*self);
        }
        if area_width <= 0 || area_height <= 0 {
            return;
        }
        let ghost w = self.width as int;
        let ghost h = self.height as int;
        let ghost old_pixels = self.buffer@;
        let n = self.buffer.len();
        let mut k: usize = 0;
        let mut dy: i32 = 0;
        while dy < area_height
            invariant
                self.width == old(self).width,
                self.height == old(self).height,
                w == self.width,
                h == self.height,
                self.buffer@.len() == w * h,
                n == w * h,
                old_pixels == old(self).buffer@,
                area_width > 0,
                area_height > 0,
                area_x + area_width - 1 <= i32::MAX,
                area_y + area_height - 1 <= i32::MAX,
                0 <= dy <= area_height,
                k == vstd::math::min(dy * area_width, colors@.len() as int),
                forall|px: int, py: int|
                    0 <= px < w && 0 <= py < h ==> (#[trigger] pixel_at(self.buffer@, w, px, py)
                        == if area_x <= px < area_x + area_width && area_y <= py < area_y + dy {
                        F::spec_encode(
                            fill_color::<F>(colors@, (py - area_y) * area_width + (px - area_x)),
                        )
                    } else {
                        pixel_at(old_pixels, w, px, py)
                    }),
            decreases area_height - dy,
        {
            let mut dx: i32 = 0;
            while dx < area_width
                invariant
                    self.width == old(self).width,
                    self.height == old(self).height,
                    w == self.width,
                    h == self.height,
                    self.buffer@.len() == w * h,
                    n == w * h,
                    old_pixels == old(self).buffer@,
                    area_width > 0,
                    area_height > 0,
                    area_x + area_width - 1 <= i32::MAX,
                    area_y + area_height - 1 <= i32::MAX,
                    0 <= dy < area_height,
                    0 <= dx <= area_width,
                    k == vstd::math::min(dy * area_width + dx, colors@.len() as int),
                    forall|px: int, py: int|
                        0 <= px < w && 0 <= py < h ==> (#[trigger] pixel_at(
                            self.buffer@,
                            w,
                            px,
                            py,
                        ) == if area_x <= px < area_x + area_width && area_y <= py < area_y
                            + dy {
                            F::spec_encode(
                                fill_color::<F>(
                                    colors@,
                                    (py - area_y) * area_width + (px - area_x),
                                ),
                            )
                        } else if area_x <= px < area_x + dx && py == area_y + dy {
                            F::spec_encode(
                                fill_color::<F>(
                                    colors@,
                                    (py - area_y) * area_width + (px - area_x),
                                ),
                            )
                        } else {
                            pixel_at(old_pixels, w, px, py)
                        }),
                decreases area_width - dx,
            {
                let color = if k < colors.len() {
                    colors[k]
                } else {
                    F::default_color()
                };
                let raw = F::encode(color);
                let x = area_x + dx;
                let y = area_y + dy;
                let ghost before = self.buffer@;
                if x >= 0 && y >= 0 && (x as usize) < self.width && (y as usize) < self.height {
                    let xu = x as usize;
                    let yu = y as usize;
                    proof {
                        lemma_row_major_index(w, h, xu as int, yu as int, 0, 0);
                        assert(yu * self.width <= yu * self.width + xu);
                    }
                    self.buffer[yu * self.width + xu] = raw;
                    proof {
                        assert forall|px: int, py: int| 0 <= px < w && 0 <= py < h implies #[trigger] pixel_at(
                            self.buffer@,
                            w,
                            px,
                            py,
                        ) == if px == x && py == y {
                            raw
                        } else {
                            pixel_at(before, w, px, py)
                        } by {
                            lemma_row_major_index(w, h, px, py, xu as int, yu as int);
                        }
                    }
                }
                if k < colors.len() {
                    k = k + 1;
                }
                dx = dx + 1;
            }
            proof {
                assert((dy + 1) * area_width == dy * area_width + area_width) by (nonlinear_arith);
            }
            dy = dy + 1;
        }
    }

    /// Fill the framebuffer with 4 distinct colors (red, green, blue and yellow,
    /// one per quarter of the rows) and read them back.
    ///
    /// Returns the number of pixels that read back differently (0 = pass).
    pub fn verify_quarter_fill(&mut self) -> (mismatches: usize)
        ensures
            mismatches == 0,
            final(self).spec_width() == old(self).spec_width(),
            final(self).spec_height() == old(self).spec_height(),
            final(self).pixels().len() == old(self).pixels().len(),
            forall|i: int|
                0 <= i < final(self).pixels().len() ==> #[trigger] final(self).pixels()[i]
                    == quarter_pixel::<F>(
                    quarter_index(i, (old(self).spec_height() / 4) * old(self).spec_width()),
                ),
    {
        proof {
            use_type_invariant(&*self);
        }
        let n = self.buffer.len();
        let qh = self.height / 4;
        proof {
            assert(qh * self.width <= self.width * self.height) by (nonlinear_arith)
                requires
                    qh == self.height / 4,
            ;
            assert(3 * (qh * self.width) <= self.width * self.height) by (nonlinear_arith)
                requires
                    qh == self.height / 4,
            ;
        }
        let quarter = qh * self.width;
        let colors: [F::Pixel; 4] = [
            F::encode(F::Color::red()),
            F::encode(F::Color::green()),
            F::encode(F::Color::blue()),
            F::encode(F::Color::yellow()),
        ];
        let mut i: usize = 0;
        while i < n
            invariant
                n == self.buffer@.len(),
                self.buffer@.len() == self.width * self.height,
                n == old(self).buffer@.len(),
                self.width == old(self).width,
                self.height == old(self).height,
                quarter == (old(self).height / 4) * old(self).width,
                3 * quarter <= n,
                forall|q: int| 0 <= q < 4 ==> #[trigger] colors[q] == quarter_pixel::<F>(q),
                i <= n,
                forall|j: int|
                    0 <= j < i ==> #[trigger] self.buffer@[j] == quarter_pixel::<F>(
                        quarter_index(j, quarter as int),
                    ),
            decreases n - i,
        {
            let q: usize = if i < quarter {
                0
            } else if i < 2 * quarter {
                1
            } else if i < 3 * quarter {
                2
            } else {
                3
            };
            self.buffer[i] = colors[q];
            i = i + 1;
        }
        let mut mismatches: usize = 0;
        let mut j: usize = 0;
        while j < n
            invariant
                n == self.buffer@.len(),
                3 * quarter <= n,
                forall|q: int| 0 <= q < 4 ==> #[trigger] colors[q] == quarter_pixel::<F>(q),
                forall|m: int|
                    0 <= m < n ==> #[trigger] self.buffer@[m] == quarter_pixel::<F>(
                        quarter_index(m, quarter as int),
                    ),
                j <= n,
                mismatches == 0,
            decreases n - j,
        {
            let q: usize = if j < quarter {
                0
            } else if j < 2 * quarter {
                1
            } else if j < 3 * quarter {
                2
            } else {
                3
            };
            if !F::same_pixel(self.buffer[j], colors[q]) {
                mismatches = mismatches + 1;
            }
            j = j + 1;
        }
        mismatches
    }
}

/// A row-major walk over the positions of a rectangle that draws one color per
/// position into a framebuffer view, skipping positions outside the view: the
/// streaming form of [`FramebufferView::fill_contiguous`], for colors that
/// arrive one at a time.
pub struct AreaFill {
    x: i32,
    y: i32,
    width: i32,
    height: i32,
    col: i32,
    row: i32,
}

impl AreaFill {
    /// The walk stays inside the area, whose last coordinates fit in `i32`.
    #[verifier::type_invariant]
    spec fn walk_in_area(self) -> bool {
        (self.width > 0 && self.height > 0) ==> (self.x + self.width - 1 <= i32::MAX && self.y
            + self.height - 1 <= i32::MAX && 0 <= self.col < self.width && 0 <= self.row
            <= self.height && (self.row == self.height ==> self.col == 0))
    }

    /// Left column of the area.
    pub closed spec fn origin_x(&self) -> int {
        self.x as int
    }

    /// Top row of the area.
    pub closed spec fn origin_y(&self) -> int {
        self.y as int
    }

    /// Width of the area.
    pub closed spec fn area_width(&self) -> int {
        self.width as int
    }

    /// Height of the area.
    pub closed spec fn area_height(&self) -> int {
        self.height as int
    }

    /// Column, relative to the area, of the next position.
    pub closed spec fn column(&self) -> int {
        self.col as int
    }

    /// Row, relative to the area, of the next position.
    pub closed spec fn line(&self) -> int {
        self.row as int
    }

    /// Every position of the area has been drawn (or the area is empty).
    pub open spec fn finished(&self) -> bool {
        self.area_width() <= 0 || self.area_height() <= 0 || self.line() >= self.area_height()
    }

    /// Whether (`px`, `py`) is a position of the area not drawn yet.
    pub open spec fn is_pending(&self, px: int, py: int) -> bool {
        &&& !self.finished()
        &&& self.origin_x() <= px < self.origin_x() + self.area_width()
        &&& self.origin_y() <= py < self.origin_y() + self.area_height()
        &&& (py - self.origin_y() > self.line() || (py - self.origin_y() == self.line() && px
            - self.origin_x() >= self.column()))
    }

    /// Number of positions drawn so far: the row-major index, within the area,
    /// of the next position.
    pub open spec fn drawn(&self) -> int {
        self.line() * self.area_width() + self.column()
    }

    /// The next position lies in the area, or, once every position is drawn,
    /// at the start of the row below it.
    pub open spec fn on_walk(&self) -> bool {
        (self.area_width() > 0 && self.area_height() > 0) ==> (0 <= self.column()
            < self.area_width() && 0 <= self.line() <= self.area_height() && (self.line()
            == self.area_height() ==> self.column() == 0))
    }

    /// Walk over the `width` × `height` rectangle whose top-left corner is
    /// (`x`, `y`), starting at that corner.
    pub fn new(x: i32, y: i32, width: i32, height: i32) -> (f: Self)
        requires
            width <= 0 || height <= 0 || (x + width - 1 <= i32::MAX && y + height - 1
                <= i32::MAX),
        ensures
            f.origin_x() == x,
            f.origin_y() == y,
            f.area_width() == width,
            f.area_height() == height,
            f.column() == 0,
            f.line() == 0,
            f.on_walk(),
    {
        AreaFill { x, y, width, height, col: 0, row: 0 }
    }

    /// Whether every position has been drawn.
    pub fn is_finished(&self) -> (r: bool)
        ensures
            r == self.finished(),
    {
        self.width <= 0 || self.height <= 0 || self.row >= self.height
    }

    /// Draws `color` at the next position (when it lies in the view) and moves
    /// on to the position after it, row-major.
    pub fn put<F: DisplayFormat>(&mut self, fb: &mut FramebufferView<'_, F>, color: F::Color)
        requires
            !old(self).finished(),
        ensures
            final(self).origin_x() == old(self).origin_x(),
            final(self).origin_y() == old(self).origin_y(),
            final(self).area_width() == old(self).area_width(),
            final(self).area_height() == old(self).area_height(),
            old(self).column() + 1 < old(self).area_width() ==> final(self).column() == old(
                self,
            ).column() + 1 && final(self).line() == old(self).line(),
            old(self).column() + 1 == old(self).area_width() ==> final(self).column() == 0
                && final(self).line() == old(self).line() + 1,
            final(self).drawn() == old(self).drawn() + 1,
            final(self).on_walk(),
            final(fb).spec_width() == old(fb).spec_width(),
            final(fb).spec_height() == old(fb).spec_height(),
            final(fb).pixels().len() == old(fb).pixels().len(),
            forall|px: int, py: int|
                0 <= px < old(fb).spec_width() && 0 <= py < old(fb).spec_height() ==> (
                #[trigger] pixel_at(final(fb).pixels(), old(fb).spec_width() as int, px, py)
                    == if px == old(self).origin_x() + old(self).column() && py == old(
                    self,
                ).origin_y() + old(self).line() {
                    F::spec_encode(color)
                } else {
                    pixel_at(old(fb).pixels(), old(fb).spec_width() as int, px, py)
                }),
    {
        proof {
            use_type_invariant(&*self);
        }
        let px = self.x + self.col;
        let py = self.y + self.row;
        fb.draw_pixel(px, py, color);
        if self.col + 1 < self.width {
            self.col = self.col + 1;
        } else {
            self.col = 0;
            self.row = self.row + 1;
            proof {
                let w = self.width as int;
                let r = self.row as int;
                assert(r * w == (r - 1) * w + w) by (nonlinear_arith);
            }
        }
    }

    /// Draws the default color at every position not drawn yet, as
    /// [`FramebufferView::fill_contiguous`] does once its colors run out.
    pub fn finish<F: DisplayFormat>(&mut self, fb: &mut FramebufferView<'_, F>)
        ensures
            final(self).finished(),
            final(self).on_walk(),
            final(self).origin_x() == old(self).origin_x(),
            final(self).origin_y() == old(self).origin_y(),
            final(self).area_width() == old(self).area_width(),
            final(self).area_height() == old(self).area_height(),
            final(fb).spec_width() == old(fb).spec_width(),
            final(fb).spec_height() == old(fb).spec_height(),
            final(fb).pixels().len() == old(fb).pixels().len(),
            forall|px: int, py: int|
                0 <= px < old(fb).spec_width() && 0 <= py < old(fb).spec_height() ==> (
                #[trigger] pixel_at(final(fb).pixels(), old(fb).spec_width() as int, px, py)
                    == if old(self).is_pending(px, py) {
                    F::spec_encode(F::Color::spec_black())
                } else {
                    pixel_at(old(fb).pixels(), old(fb).spec_width() as int, px, py)
                }),
    {
        let ghost start = *self;
        let ghost w = fb.spec_width() as int;
        let ghost h = fb.spec_height() as int;
        let ghost old_pixels = fb.pixels();
        while !self.is_finished()
            invariant
                self.origin_x() == start.origin_x(),
                self.origin_y() == start.origin_y(),
                self.area_width() == start.area_width(),
                self.area_height() == start.area_height(),
                start == *old(self),
                fb.spec_width() == w,
                fb.spec_height() == h,
                fb.pixels().len() == old_pixels.len(),
                old_pixels == old(fb).pixels(),
                w == old(fb).spec_width(),
                h == old(fb).spec_height(),
                forall|px: int, py: int|
                    0 <= px < w && 0 <= py < h ==> (#[trigger] pixel_at(fb.pixels(), w, px, py)
                        == if start.is_pending(px, py) && !self.is_pending(px, py) {
                        F::spec_encode(F::Color::spec_black())
                    } else {
                        pixel_at(old_pixels, w, px, py)
                    }),
                start.finished() ==> self.finished(),
                forall|px: int, py: int| #[trigger] self.is_pending(px, py) ==> start.is_pending(px, py),
            decreases self.area_height() - self.line(), self.area_width() - self.column(),
        {
            proof {
                use_type_invariant(&*self);
            }
            let ghost before = *self;
            let c = F::default_color();
            self.put(fb, c);
            proof {
                use_type_invariant(&*self);
                let cx = before.origin_x() + before.column();
                let cy = before.origin_y() + before.line();
                assert forall|px: int, py: int| #[trigger]
                    self.is_pending(px, py) == (before.is_pending(px, py) && !(px == cx && py
                        == cy)) by {}
                assert(before.is_pending(cx, cy));
            }
        }
        proof {
            use_type_invariant(&*self);
        }
    }
}

/// The positions of the area not drawn yet are exactly those whose row-major
/// index within the area is at least the number of positions drawn: the walk
/// draws the area's positions in the order in which
/// [`FramebufferView::fill_contiguous`] takes its colors.
pub proof fn lemma_pending_is_not_yet_drawn(f: AreaFill, px: int, py: int)
    requires
        f.on_walk(),
        f.area_width() > 0,
        f.area_height() > 0,
        f.origin_x() <= px < f.origin_x() + f.area_width(),
        f.origin_y() <= py < f.origin_y() + f.area_height(),
    ensures
        f.is_pending(px, py) <==> (py - f.origin_y()) * f.area_width() + (px - f.origin_x())
            >= f.drawn(),
{
    let w = f.area_width();
    let dx = px - f.origin_x();
    let dy = py - f.origin_y();
    let c = f.column();
    let l = f.line();
    if dy > l {
        assert(dy * w + dx >= l * w + c) by (nonlinear_arith)
            requires
                dy >= l + 1,
                0 <= dx,
                0 <= c < w,
        ;
    } else if dy < l {
        assert(dy * w + dx < l * w + c) by (nonlinear_arith)
            requires
                dy + 1 <= l,
                0 <= dx < w,
                0 <= c,
        ;
    }
}

/// Color used for position `k` (row-major within the filled area): the `k`-th
/// supplied color, or the default color once the supplied colors run out.
pub open spec fn fill_color<F: DisplayFormat>(colors: Seq<F::Color>, k: int) -> F::Color {
    if 0 <= k < colors.len() {
        colors[k]
    } else {
        F::Color::spec_black()
    }
}

/// Raw pixel of quarter `q` in the quarter fill: red, green, blue, then yellow.
pub open spec fn quarter_pixel<F: DisplayFormat>(q: int) -> F::Pixel {
    F::spec_encode(quarter_color::<F>(q))
}

/// Color of quarter `q` in the quarter fill: red, green, blue, then yellow.
pub open spec fn quarter_color<F: DisplayFormat>(q: int) -> F::Color {
    if q == 0 {
        F::Color::spec_red()
    } else if q == 1 {
        F::Color::spec_green()
    } else if q == 2 {
        F::Color::spec_blue()
    } else {
        F::Color::spec_yellow()
    }
}

} // verus!
