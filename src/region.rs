//! The capture rectangle around a native pixel, captured pixel buffers, and
//! the sample grid built from them.
use vstd::prelude::*;

use vstd::arithmetic::div_mod::lemma_fundamental_div_mod_converse;

use crate::color::{black, Rgb};
use crate::geometry::{all_wf, locate, locates, off_every_display, Display, Location, Point};

verus! {

/// First pixel of the capture span on one axis: the ideal start
/// `local - window / 2` pushed into `[0, extent - window]`, or 0 when the
/// extent is narrower than the window.
pub open spec fn span_start(local: int, window: int, extent: int) -> int {
    let ideal = local - window / 2;
    if extent < window || ideal < 0 {
        0
    } else if ideal > extent - window {
        extent - window
    } else {
        ideal
    }
}

/// Length of the capture span on one axis: the window, shrunk to the extent
/// when the extent is narrower.
pub open spec fn span_len(window: int, extent: int) -> int {
    if extent < window {
        extent
    } else {
        window
    }
}

/// A rectangle in one display's native pixel space, and how far it was pushed
/// from the ideal one centred on the query pixel (`clamped - ideal`, per axis).
#[derive(Clone, Copy, Debug, PartialEq, Eq, Structural)]
pub struct CaptureRegion {
    pub x: u32,
    pub y: u32,
    pub width: u32,
    pub height: u32,
    pub offset_x: i64,
    pub offset_y: i64,
}

impl CaptureRegion {
    /// Column of the grid cell that shows the query pixel.
    pub open spec fn focus_x(&self, window: int) -> int {
        window / 2 - self.offset_x
    }

    /// Row of the grid cell that shows the query pixel.
    pub open spec fn focus_y(&self, window: int) -> int {
        window / 2 - self.offset_y
    }

    /// The rectangle for the native pixel `(x, y)` of `d` and a window of the
    /// given size.
    pub open spec fn is_region_for(&self, d: Display, x: int, y: int, window: int) -> bool {
        &&& self.x == span_start(x, window, d.pixel_width as int)
        &&& self.y == span_start(y, window, d.pixel_height as int)
        &&& self.width == span_len(window, d.pixel_width as int)
        &&& self.height == span_len(window, d.pixel_height as int)
        &&& self.offset_x == self.x - (x - window / 2)
        &&& self.offset_y == self.y - (y - window / 2)
    }

    /// Not empty, no larger than the window, and the query pixel inside it.
    pub open spec fn fits_window(&self, window: int) -> bool {
        &&& 1 <= self.width <= window
        &&& 1 <= self.height <= window
        &&& 0 <= self.focus_x(window) < self.width
        &&& 0 <= self.focus_y(window) < self.height
    }
}

/// At a display's top-left pixel the rectangle starts at `(0, 0)`, was pushed
/// by half a window on each axis, and shows the query pixel in grid cell
/// `(0, 0)` rather than the middle one.
pub proof fn lemma_region_at_origin(r: CaptureRegion, d: Display, window: int)
    requires
        d.wf(),
        window % 2 == 1,
        window >= 1,
        r.is_region_for(d, 0, 0, window),
    ensures
        r.x == 0,
        r.y == 0,
        r.offset_x == window / 2,
        r.offset_y == window / 2,
        r.focus_x(window) == 0,
        r.focus_y(window) == 0,
{
}

/// Start and length of the capture span on one axis.
fn span(local: u32, window: u32, extent: u32) -> (r: (u32, u32))
    requires
        local < extent,
        window % 2 == 1,
    ensures
        r.0 == span_start(local as int, window as int, extent as int),
        r.1 == span_len(window as int, extent as int),
        r.0 + r.1 <= extent,
        1 <= r.1 <= window,
        0 <= local - r.0 < r.1,
{
    let half = window / 2;
    if extent < window {
        (0, extent)
    } else if local < half {
        (0, window)
    } else if local - half > extent - window {
        (extent - window, window)
    } else {
        (local - half, window)
    }
}

/// The capture rectangle around the native pixel `(x, y)` of `d`, clamped
/// into the display's framebuffer.
pub fn capture_region(d: &Display, x: u32, y: u32, window: u32) -> (r: CaptureRegion)
    requires
        d.wf(),
        x < d.pixel_width,
        y < d.pixel_height,
        window % 2 == 1,
    ensures
        r.is_region_for(*d, x as int, y as int, window as int),
        r.fits_window(window as int),
        r.x + r.width <= d.pixel_width,
        r.y + r.height <= d.pixel_height,
{
    let (sx, w) = span(x, window, d.pixel_width);
    let (sy, h) = span(y, window, d.pixel_height);
    let half = (window / 2) as i64;
    CaptureRegion {
        x: sx,
        y: sy,
        width: w,
        height: h,
        offset_x: sx as i64 - (x as i64 - half),
        offset_y: sy as i64 - (y as i64 - half),
    }
}

/// Pixels as captured: row-major, `channels` bytes per pixel, red, green and
/// blue first.
pub struct PixelBuffer {
    width: u32,
    height: u32,
    channels: u32,
    data: Vec<u8>,
}

/// What a [`PixelBuffer`] holds, as plain values.
pub struct PixelBufferView {
    pub width: nat,
    pub height: nat,
    pub channels: nat,
    pub data: Seq<u8>,
}

impl View for PixelBuffer {
    type V = PixelBufferView;

    closed spec fn view(&self) -> PixelBufferView {
        PixelBufferView {
            width: self.width as nat,
            height: self.height as nat,
            channels: self.channels as nat,
            data: self.data@,
        }
    }
}

/// The colour of pixel `(c, r)`: its first three bytes.
pub open spec fn pixel_of(buf: PixelBufferView, c: int, r: int) -> Rgb {
    let base = (r * buf.width + c) * buf.channels;
    Rgb { r: buf.data[base], g: buf.data[base + 1], b: buf.data[base + 2] }
}

/// The three bytes of pixel `(c, r)` lie inside a `w × h × ch` buffer.
proof fn lemma_pixel_in_bounds(w: int, h: int, ch: int, c: int, r: int)
    requires
        0 <= c < w,
        0 <= r < h,
        ch >= 3,
    ensures
        0 <= r * w,
        0 <= r * w + c < w * h,
        w * h <= w * h * ch,
        0 <= (r * w + c) * ch,
        (r * w + c) * ch + 2 < w * h * ch,
{
    assert(0 <= r * w + c < w * h) by (nonlinear_arith)
        requires
            0 <= c < w,
            0 <= r < h,
    ;
    assert((r * w + c) * ch + ch <= w * h * ch) by (nonlinear_arith)
        requires
            r * w + c + 1 <= w * h,
            ch >= 3,
    ;
    assert(0 <= r * w) by (nonlinear_arith)
        requires
            0 <= c < w,
            0 <= r < h,
    ;
    assert(w * h <= w * h * ch) by (nonlinear_arith)
        requires
            0 <= w * h,
            ch >= 3,
    ;
    assert(0 <= (r * w + c) * ch) by (nonlinear_arith)
        requires
            0 <= r * w + c,
            ch >= 3,
    ;
}

impl PixelBuffer {
    #[verifier::type_invariant]
    spec fn inv(&self) -> bool {
        &&& self.channels >= 3
        &&& self.data@.len() == self.width * self.height * self.channels
    }

    /// Wraps captured bytes; `None` unless there are at least three channels
    /// and exactly `width * height * channels` bytes.
    pub fn new(width: u32, height: u32, channels: u32, data: Vec<u8>) -> (r: Option<PixelBuffer>)
        ensures
            r is Some <==> channels >= 3 && data@.len() == width * height * channels,
            r matches Some(b) ==> b@ == (PixelBufferView {
                width: width as nat,
                height: height as nat,
                channels: channels as nat,
                data: data@,
            }),
    {
        let w = width as u128;
        let h = height as u128;
        let ch = channels as u128;
        assert(w * h <= 0xffff_ffff_ffff_ffffu128) by (nonlinear_arith)
            requires
                w <= 0xffff_ffffu128,
                h <= 0xffff_ffffu128,
        ;
        let wh = w * h;
        assert(wh * ch <= 0xffff_ffff_ffff_ffff_ffff_ffffu128) by (nonlinear_arith)
            requires
                wh <= 0xffff_ffff_ffff_ffffu128,
                ch <= 0xffff_ffffu128,
        ;
        let expected = wh * ch;
        if channels >= 3 && data.len() as u128 == expected {
            Some(PixelBuffer { width, height, channels, data })
        } else {
            None
        }
    }

    /// Pixels per row.
    pub fn width(&self) -> (r: u32)
        ensures
            r == self@.width,
    {
        self.width
    }

    /// Rows.
    pub fn height(&self) -> (r: u32)
        ensures
            r == self@.height,
    {
        self.height
    }

    /// The colour of pixel `(c, r)`, or `None` outside the buffer.
    pub fn pixel_at(&self, c: u32, r: u32) -> (p: Option<Rgb>)
        ensures
            p is Some <==> c < self@.width && r < self@.height,
            p matches Some(q) ==> q == pixel_of(self@, c as int, r as int),
    {
        if c < self.width && r < self.height {
            Some(self.pixel(c, r))
        } else {
            None
        }
    }

    /// The colour of pixel `(c, r)`, which lies inside the buffer.
    fn pixel(&self, c: u32, r: u32) -> (p: Rgb)
        requires
            c < self@.width,
            r < self@.height,
        ensures
            p == pixel_of(self@, c as int, r as int),
    {
        proof {
            use_type_invariant(self);
            lemma_pixel_in_bounds(self.width as int, self.height as int, self.channels as int, c as int, r as int);
            assert(self.data@.len() == self.data.len());
        }
        let row = r as usize * self.width as usize;
        let base = (row + c as usize) * self.channels as usize;
        Rgb { r: self.data[base], g: self.data[base + 1], b: self.data[base + 2] }
    }
}

/// One captured neighbourhood: the colour of the query pixel, the grid of
/// colours around it (row-major, `window` columns), the grid cell that shows
/// the query pixel, and the desktop point it was taken at. A sample picked
/// from history has an empty grid.
#[derive(Debug)]
pub struct Sample {
    pub color: Rgb,
    pub grid: Vec<Rgb>,
    pub focus_x: u32,
    pub focus_y: u32,
    pub point: Point,
}

/// What a [`Sample`] holds, as plain values.
pub struct SampleView {
    pub color: Rgb,
    pub grid: Seq<Rgb>,
    pub focus_x: u32,
    pub focus_y: u32,
    pub point: Point,
}

impl View for Sample {
    type V = SampleView;

    open spec fn view(&self) -> SampleView {
        SampleView {
            color: self.color,
            grid: self.grid@,
            focus_x: self.focus_x,
            focus_y: self.focus_y,
            point: self.point,
        }
    }
}

/// The sample that stands for a colour picked from history: that colour
/// alone, with no grid and the origin as its point.
pub open spec fn swatch_sample(c: Rgb) -> SampleView {
    SampleView { color: c, grid: Seq::empty(), focus_x: 0, focus_y: 0, point: Point { x: 0, y: 0 } }
}

impl Sample {
    /// See [`swatch_sample`].
    pub fn swatch(c: Rgb) -> (s: Sample)
        ensures
            s@ == swatch_sample(c),
    {
        Sample { color: c, grid: Vec::new(), focus_x: 0, focus_y: 0, point: Point { x: 0, y: 0 } }
    }

    /// An equal, separately owned sample.
    pub fn duplicate(&self) -> (s: Sample)
        ensures
            s@ == self@,
    {
        let grid = self.grid.clone();
        assert(grid@ =~= self.grid@);
        Sample { color: self.color, grid, focus_x: self.focus_x, focus_y: self.focus_y, point: self.point }
    }
}

/// What to capture for a desktop point: where it falls, the rectangle to read
/// on that display, and the grid size.
#[derive(Clone, Copy, Debug, PartialEq, Eq, Structural)]
pub struct CapturePlan {
    pub point: Point,
    pub location: Location,
    pub region: CaptureRegion,
    pub window: u32,
}

impl CapturePlan {
    /// An odd window whose grid fits in memory, and a non-empty rectangle
    /// no larger than the window that holds the query pixel.
    pub open spec fn wf(&self) -> bool {
        &&& self.window % 2 == 1
        &&& self.window * self.window <= usize::MAX
        &&& self.region.fits_window(self.window as int)
    }
}

/// Colour of grid cell `(c, r)`: the captured pixel there, or black where the
/// rectangle is narrower than the window or the buffer holds no such pixel.
pub open spec fn grid_cell(region: CaptureRegion, buf: PixelBufferView, c: int, r: int) -> Rgb {
    if c < region.width && r < region.height && c < buf.width && r < buf.height {
        pixel_of(buf, c, r)
    } else {
        black()
    }
}

/// Why no sample came of a capture attempt. None of these is fatal: the
/// previous sample stays.
#[derive(Clone, Copy, Debug, PartialEq, Eq, Structural)]
pub enum SampleError {
    /// No display was enumerated.
    EnumerationFailure,
    /// The point lies on none of the displays.
    LocateMiss,
    /// The backend's pixels do not cover the capture rectangle.
    CaptureUnavailable,
}

/// Locates `p` on `displays` and picks the rectangle to capture around it.
/// Fails with `EnumerationFailure` exactly when `displays` is empty, and with
/// `LocateMiss` exactly when there are displays and none contains `p`.
pub fn plan_capture(p: Point, displays: &Vec<Display>, window: u32) -> (r: Result<CapturePlan, SampleError>)
    requires
        all_wf(displays@),
        window % 2 == 1,
        window * window <= usize::MAX,
    ensures
        r == Err::<CapturePlan, SampleError>(SampleError::EnumerationFailure) <==> displays@.len() == 0,
        r == Err::<CapturePlan, SampleError>(SampleError::LocateMiss) <==> displays@.len() > 0 && off_every_display(displays@, p),
        r is Ok <==> !off_every_display(displays@, p),
        r matches Ok(plan) ==> {
            &&& plan.wf()
            &&& plan.point == p
            &&& plan.window == window
            &&& locates(displays@, p, plan.location)
            &&& plan.region.is_region_for(plan.location.display, plan.location.x as int, plan.location.y as int, window as int)
            &&& plan.region.x + plan.region.width <= plan.location.display.pixel_width
            &&& plan.region.y + plan.region.height <= plan.location.display.pixel_height
        },
{
    if displays.len() == 0 {
        return Err(SampleError::EnumerationFailure);
    }
    match locate(p, displays) {
        None => Err(SampleError::LocateMiss),
        Some(location) => {
            let region = capture_region(&location.display, location.x, location.y, window);
            Ok(CapturePlan { point: p, location, region, window })
        },
    }
}

/// The `window × window` grid for `plan`, row-major: cell `(c, r)` holds the
/// captured pixel there, or black where neither the rectangle nor the buffer
/// reaches. Any buffer, even an empty one, gives a full grid.
pub fn build_grid(plan: &CapturePlan, buf: &PixelBuffer) -> (grid: Vec<Rgb>)
    requires
        plan.wf(),
    ensures
        grid@.len() == plan.window * plan.window,
        forall|k: int|
            0 <= k < plan.window * plan.window ==> #[trigger] grid@[k] == grid_cell(
                plan.region,
                buf@,
                k % (plan.window as int),
                k / (plan.window as int),
            ),
{
    let window = plan.window;
    let ghost w = window as int;
    let n = window as usize * window as usize;
    let mut grid: Vec<Rgb> = Vec::new();
    let mut k: usize = 0;
    let mut c: u32 = 0;
    let mut r: u32 = 0;
    while k < n
        invariant
            n == w * w,
            w == window,
            window >= 1,
            k <= n,
            c < window,
            k == r * w + c,
            grid@.len() == k,
            forall|j: int| 0 <= j < k ==> #[trigger] grid@[j] == grid_cell(plan.region, buf@, j % w, j / w),
        decreases n - k,
    {
        proof {
            lemma_fundamental_div_mod_converse(k as int, w, r as int, c as int);
            if r >= window {
                assert(r * w >= w * w) by (nonlinear_arith)
                    requires
                        r >= w,
                        w >= 1,
                ;
            }
        }
        let inside = c < plan.region.width && r < plan.region.height;
        let cell = match buf.pixel_at(c, r) {
            Some(p) if inside => p,
            _ => Rgb::black(),
        };
        grid.push(cell);
        k += 1;
        if c + 1 == window {
            assert((r + 1) * w == r * w + w) by (nonlinear_arith);
            c = 0;
            r += 1;
        } else {
            c += 1;
        }
    }
    grid
}

/// Builds the sample from the pixels captured for `plan`: the grid of
/// [`build_grid`] and the colour of the query pixel. Fails with
/// `CaptureUnavailable` exactly when the buffer does not hold the query pixel.
pub fn build_sample(plan: &CapturePlan, buf: &PixelBuffer) -> (r: Result<Sample, SampleError>)
    requires
        plan.wf(),
    ensures
        r is Ok <==> plan.region.focus_x(plan.window as int) < buf@.width && plan.region.focus_y(
            plan.window as int,
        ) < buf@.height,
        r matches Err(e) ==> e == SampleError::CaptureUnavailable,
        r matches Ok(s) ==> {
            let w = plan.window as int;
            &&& s@.grid.len() == w * w
            &&& forall|k: int| 0 <= k < w * w ==> #[trigger] s@.grid[k] == grid_cell(plan.region, buf@, k % w, k / w)
            &&& s.focus_x == plan.region.focus_x(w)
            &&& s.focus_y == plan.region.focus_y(w)
            &&& s.color == pixel_of(buf@, s.focus_x as int, s.focus_y as int)
            &&& s.color == s@.grid[s.focus_y * w + s.focus_x]
            &&& s.point == plan.point
        },
{
    let window = plan.window;
    let ghost w = window as int;
    let focus_x = ((window / 2) as i64 - plan.region.offset_x) as u32;
    let focus_y = ((window / 2) as i64 - plan.region.offset_y) as u32;
    let color = match buf.pixel_at(focus_x, focus_y) {
        Some(p) => p,
        None => {
            return Err(SampleError::CaptureUnavailable);
        },
    };
    let grid = build_grid(plan, buf);
    proof {
        let fk = focus_y * w + focus_x;
        assert(0 <= fk < w * w) by (nonlinear_arith)
            requires
                fk == focus_y * w + focus_x,
                0 <= focus_x < w,
                0 <= focus_y < w,
        ;
        lemma_fundamental_div_mod_converse(fk, w, focus_y as int, focus_x as int);
        assert(grid@[fk] == grid_cell(plan.region, buf@, fk % w, fk / w));
    }
    Ok(Sample { color, grid, focus_x, focus_y, point: plan.point })
}

} // verus!
