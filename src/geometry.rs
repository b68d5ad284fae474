//! Displays in virtual-desktop coordinates and the mapping of a desktop point
//! onto one display's native pixel grid.
use vstd::prelude::*;

verus! {

/// A point in virtual-desktop coordinates.
#[derive(Clone, Copy, Debug, PartialEq, Eq, Structural)]
pub struct Point {
    pub x: i32,
    pub y: i32,
}

/// An attached display: its origin and logical size in virtual-desktop
/// coordinates, and the size of its native framebuffer.
#[derive(Clone, Copy, Debug, PartialEq, Eq, Structural)]
pub struct Display {
    pub id: u32,
    pub x: i32,
    pub y: i32,
    pub width: u32,
    pub height: u32,
    pub pixel_width: u32,
    pub pixel_height: u32,
}

/// Where a desktop point falls: the display (and its position in the list that
/// was searched) and the native pixel under the point.
#[derive(Clone, Copy, Debug, PartialEq, Eq, Structural)]
pub struct Location {
    pub index: usize,
    pub display: Display,
    pub x: u32,
    pub y: u32,
}

/// `logical_offset * native / logical` rounded half up, then kept inside
/// `[0, native)`: the native pixel on one axis for a logical offset.
pub open spec fn native_coord(logical_offset: int, logical: int, native: int) -> int {
    let rounded = (2 * logical_offset * native + logical) / (2 * logical);
    if rounded < native {
        rounded
    } else {
        native - 1
    }
}

impl Display {
    /// Every extent is positive. The native size may be smaller than the
    /// logical one as well as larger; the mapping needs no more.
    pub open spec fn wf(&self) -> bool {
        &&& self.width > 0
        &&& self.height > 0
        &&& self.pixel_width > 0
        &&& self.pixel_height > 0
    }

    /// The half-open box `[x, x + width) × [y, y + height)` holds the point.
    pub open spec fn contains(&self, p: Point) -> bool {
        &&& self.x <= p.x < self.x + self.width
        &&& self.y <= p.y < self.y + self.height
    }

    /// Native column under `p`.
    pub open spec fn native_x(&self, p: Point) -> int {
        native_coord(p.x - self.x, self.width as int, self.pixel_width as int)
    }

    /// Native row under `p`.
    pub open spec fn native_y(&self, p: Point) -> int {
        native_coord(p.y - self.y, self.height as int, self.pixel_height as int)
    }

    /// A display with the given geometry, or `None` when an extent is zero.
    pub fn new(id: u32, x: i32, y: i32, width: u32, height: u32, pixel_width: u32, pixel_height: u32) -> (r: Option<Display>)
        ensures
            r matches Some(d) ==> d.wf() && d == (Display { id, x, y, width, height, pixel_width, pixel_height }),
            r is None <==> width == 0 || height == 0 || pixel_width == 0 || pixel_height == 0,
    {
        if width == 0 || height == 0 || pixel_width == 0 || pixel_height == 0 {
            None
        } else {
            Some(Display { id, x, y, width, height, pixel_width, pixel_height })
        }
    }

    /// Whether the point lies on this display.
    pub fn contains_point(&self, p: Point) -> (r: bool)
        ensures
            r == self.contains(p),
    {
        let px = p.x as i64;
        let py = p.y as i64;
        let x0 = self.x as i64;
        let y0 = self.y as i64;
        x0 <= px && px < x0 + self.width as i64 && y0 <= py && py < y0 + self.height as i64
    }
}

/// Native pixel on one axis for a logical offset inside the display.
fn scale_coord(offset: u32, logical: u32, native: u32) -> (r: u32)
    requires
        0 < logical,
        0 < native,
        offset < logical,
    ensures
        r == native_coord(offset as int, logical as int, native as int),
        r < native,
{
    let o = offset as u128;
    let l = logical as u128;
    let n = native as u128;
    assert(o * n < 0x1_0000_0000_0000_0000u128) by (nonlinear_arith)
        requires
            o <= 0xffff_ffffu128,
            n <= 0xffff_ffffu128,
    ;
    let scaled = o * n;
    assert(2 * (offset as int) * (native as int) == 2 * (scaled as int)) by (nonlinear_arith)
        requires
            scaled == o * n,
            o == offset,
            n == native,
    ;
    let rounded = (2 * scaled + l) / (2 * l);
    if rounded < n {
        rounded as u32
    } else {
        native - 1
    }
}

/// `loc` names the first display of `displays` that contains `p`, and the
/// native pixel under `p` on it.
pub open spec fn locates(displays: Seq<Display>, p: Point, loc: Location) -> bool {
    &&& loc.index < displays.len()
    &&& loc.display == displays[loc.index as int]
    &&& loc.display.contains(p)
    &&& forall|j: int| 0 <= j < loc.index ==> !(#[trigger] displays[j]).contains(p)
    &&& loc.x == loc.display.native_x(p)
    &&& loc.y == loc.display.native_y(p)
}

/// No display of `displays` contains `p`.
pub open spec fn off_every_display(displays: Seq<Display>, p: Point) -> bool {
    forall|i: int| 0 <= i < displays.len() ==> !(#[trigger] displays[i]).contains(p)
}

/// Every display of `displays` is well formed.
pub open spec fn all_wf(displays: Seq<Display>) -> bool {
    forall|i: int| 0 <= i < displays.len() ==> (#[trigger] displays[i]).wf()
}

/// The first display that contains `p`, with the native pixel under `p`.
/// `None` exactly when no display contains `p`.
pub fn locate(p: Point, displays: &Vec<Display>) -> (r: Option<Location>)
    requires
        all_wf(displays@),
    ensures
        r is None <==> off_every_display(displays@, p),
        forall|k: int|
            0 <= k < displays@.len() && #[trigger] displays@[k].contains(p) && (forall|j: int|
                0 <= j < displays@.len() && j != k ==> !(#[trigger] displays@[j]).contains(p)) ==> (
            r matches Some(loc) && loc.index == k),
        r matches Some(loc) ==> {
            &&& locates(displays@, p, loc)
            &&& loc.x < loc.display.pixel_width
            &&& loc.y < loc.display.pixel_height
        },
{
    let mut i: usize = 0;
    while i < displays.len()
        invariant
            i <= displays@.len(),
            forall|j: int| 0 <= j < displays@.len() ==> (#[trigger] displays@[j]).wf(),
            forall|j: int| 0 <= j < i ==> !(#[trigger] displays@[j]).contains(p),
        decreases displays@.len() - i,
    {
        let d = displays[i];
        if d.contains_point(p) {
            let ox = (p.x as i64 - d.x as i64) as u32;
            let oy = (p.y as i64 - d.y as i64) as u32;
            let x = scale_coord(ox, d.width, d.pixel_width);
            let y = scale_coord(oy, d.height, d.pixel_height);
            return Some(Location { index: i, display: d, x, y });
        }
        i += 1;
    }
    None
}

} // verus!
