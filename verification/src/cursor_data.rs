//! The geometry of one tick: where the cursor is, which monitor it is on,
//! and where the window sits when its center is the cursor.

use vstd::prelude::*;

verus! {

/// No monitor is taken to be narrower than this, whatever the platform says.
pub const MONITOR_FLOOR_WIDTH: u32 = 1024;

/// No monitor is taken to be lower than this, whatever the platform says.
pub const MONITOR_FLOOR_HEIGHT: u32 = 768;

/// A position on the desktop. The primary monitor's top left corner is the
/// origin, so monitors left of or above it have negative coordinates.
#[derive(Clone, Copy, Debug, PartialEq, Eq, Structural)]
pub struct ScreenPoint {
    pub x: i32,
    pub y: i32,
}

/// The work area of a monitor as the platform reports it: the display area
/// less task bars and tool bars, by its edges.
#[derive(Clone, Copy, Debug, PartialEq, Eq, Structural)]
pub struct WorkArea {
    pub left: i32,
    pub top: i32,
    pub right: i32,
    pub bottom: i32,
}

/// The work area of the monitor under the cursor, by its corner and its
/// extent. The extent is never below the floor.
#[derive(Clone, Copy, Debug, PartialEq, Eq, Structural)]
pub struct MonitorRegion {
    pub origin: ScreenPoint,
    pub width: u32,
    pub height: u32,
}

/// Where the window sits when its center is the cursor. It may reach
/// beyond the monitor's edges.
#[derive(Clone, Copy, Debug, PartialEq, Eq, Structural)]
pub struct CaptureWindowFrame {
    pub origin: ScreenPoint,
    pub width: u32,
    pub height: u32,
}

/// A rectangle of desktop pixels to capture, by its edges.
#[derive(Clone, Copy, Debug, PartialEq, Eq, Structural)]
pub struct CaptureRect {
    pub left: i64,
    pub top: i64,
    pub right: i64,
    pub bottom: i64,
}

/// What one snapshot of cursor, monitor and window holds.
pub ghost struct CursorFrame {
    pub x: int,
    pub y: int,
    pub monitor_x: int,
    pub monitor_y: int,
    pub monitor_width: int,
    pub monitor_height: int,
    pub window_x: int,
    pub window_y: int,
    pub window_width: int,
    pub window_height: int,
}

impl CursorFrame {
    /// The monitor is no smaller than the floor, and the window's center is
    /// the cursor, as far as the desktop's coordinates reach.
    pub open spec fn consistent(self) -> bool {
        &&& self.monitor_width >= MONITOR_FLOOR_WIDTH
        &&& self.monitor_height >= MONITOR_FLOOR_HEIGHT
        &&& self.window_x == corner(self.x, self.window_width)
        &&& self.window_y == corner(self.y, self.window_height)
    }

    /// The window-sized rectangle around the cursor, each edge held to the
    /// monitor on its own: a rectangle near an edge is cut, not moved.
    pub open spec fn clamped(self) -> CaptureRect {
        CaptureRect {
            left: larger(self.monitor_x, self.x - self.window_width / 2) as i64,
            top: larger(self.monitor_y, self.y - self.window_height / 2) as i64,
            right: smaller(self.monitor_x + self.monitor_width, self.x + self.window_width / 2)
                as i64,
            bottom: smaller(
                self.monitor_y + self.monitor_height,
                self.y + self.window_height / 2,
            ) as i64,
        }
    }
}

/// Where a window `extent` long starts that has its center at `center`:
/// half its extent before the center, and at the least coordinate there is
/// where that would lie before it.
pub open spec fn corner(center: int, extent: int) -> int {
    larger(center - extent / 2, i32::MIN as int)
}

/// Where a window `extent` long starts that has its center at `center`.
pub fn window_corner(center: i32, extent: u32) -> (start: i32)
    ensures
        start == corner(center as int, extent as int),
        center - extent / 2 >= i32::MIN ==> start == center - extent / 2,
{
    let start: i64 = center as i64 - (extent / 2) as i64;
    if start < i32::MIN as i64 {
        i32::MIN
    } else {
        start as i32
    }
}

/// The larger of two numbers.
pub open spec fn larger(a: int, b: int) -> int {
    if a >= b {
        a
    } else {
        b
    }
}

/// The smaller of two numbers.
pub open spec fn smaller(a: int, b: int) -> int {
    if a <= b {
        a
    } else {
        b
    }
}

/// The extent of a monitor along one axis: what lies between its edges,
/// but never less than `floor`.
pub open spec fn floored_extent(low: int, high: int, floor: int) -> int {
    larger(high - low, floor)
}

/// The extent of a monitor along one axis, held to its floor.
pub fn monitor_extent(low: i32, high: i32, floor: u32) -> (extent: u32)
    ensures
        extent == floored_extent(low as int, high as int, floor as int),
        extent >= floor,
{
    let span: i64 = high as i64 - low as i64;
    if span > floor as i64 {
        span as u32
    } else {
        floor
    }
}

/// A snapshot of the cursor, the monitor under it and the window centered
/// on it. The monitor is never smaller than the floor.
#[derive(Clone, Copy, Debug)]
pub struct CursorData {
    x: i32,
    y: i32,
    monitor_x: i32,
    monitor_y: i32,
    monitor_width: u32,
    monitor_height: u32,
    window_x: i32,
    window_y: i32,
    window_width: u32,
    window_height: u32,
}

impl View for CursorData {
    type V = CursorFrame;

    closed spec fn view(&self) -> CursorFrame {
        CursorFrame {
            x: self.x as int,
            y: self.y as int,
            monitor_x: self.monitor_x as int,
            monitor_y: self.monitor_y as int,
            monitor_width: self.monitor_width as int,
            monitor_height: self.monitor_height as int,
            window_x: self.window_x as int,
            window_y: self.window_y as int,
            window_width: self.window_width as int,
            window_height: self.window_height as int,
        }
    }
}

impl CursorData {
    #[verifier::type_invariant]
    spec fn sound(self) -> bool {
        self@.consistent()
    }

    /// The frame before the first tick: cursor and window at the origin of a
    /// monitor of the floor's size, the window one pixel wide and high.
    pub fn new() -> (data: CursorData)
        ensures
            data@ == (CursorFrame {
                x: 0,
                y: 0,
                monitor_x: 0,
                monitor_y: 0,
                monitor_width: MONITOR_FLOOR_WIDTH as int,
                monitor_height: MONITOR_FLOOR_HEIGHT as int,
                window_x: 0,
                window_y: 0,
                window_width: 1,
                window_height: 1,
            }),
            data@.consistent(),
    {
        CursorData {
            x: 0,
            y: 0,
            monitor_x: 0,
            monitor_y: 0,
            monitor_width: MONITOR_FLOOR_WIDTH,
            monitor_height: MONITOR_FLOOR_HEIGHT,
            window_x: 0,
            window_y: 0,
            window_width: 1,
            window_height: 1,
        }
    }

    /// The cursor after a reading: the reading, or the old position if there
    /// is none.
    pub open spec fn moved_to(self, cursor: Option<ScreenPoint>) -> (int, int) {
        match cursor {
            Some(point) => (point.x as int, point.y as int),
            None => (self@.x, self@.y),
        }
    }

    /// The frame that follows a reading of cursor, monitor and window size.
    pub open spec fn frame_after(
        self,
        cursor: Option<ScreenPoint>,
        work_area: WorkArea,
        window_width: u32,
        window_height: u32,
    ) -> CursorFrame {
        CursorFrame {
            x: self.moved_to(cursor).0,
            y: self.moved_to(cursor).1,
            monitor_x: work_area.left as int,
            monitor_y: work_area.top as int,
            monitor_width: floored_extent(
                work_area.left as int,
                work_area.right as int,
                MONITOR_FLOOR_WIDTH as int,
            ),
            monitor_height: floored_extent(
                work_area.top as int,
                work_area.bottom as int,
                MONITOR_FLOOR_HEIGHT as int,
            ),
            window_x: corner(self.moved_to(cursor).0, window_width as int),
            window_y: corner(self.moved_to(cursor).1, window_height as int),
            window_width: window_width as int,
            window_height: window_height as int,
        }
    }

    /// Takes the readings of one tick: the cursor, if it could be read; the
    /// work area of the monitor nearest to it; the window's size. The
    /// monitor's extent is held to the floor. The window keeps the size
    /// given and is centered on the cursor without regard to the monitor's
    /// edges; only where its corner would lie before the least coordinate
    /// is it held there.
    pub fn update(
        &mut self,
        cursor: Option<ScreenPoint>,
        work_area: WorkArea,
        window_width: u32,
        window_height: u32,
    )
        ensures
            final(self)@ == old(self).frame_after(cursor, work_area, window_width, window_height),
            final(self)@.window_width == window_width,
            final(self)@.window_height == window_height,
            final(self)@.consistent(),
    {
        let (x, y) = match cursor {
            Some(point) => (point.x, point.y),
            None => (self.x, self.y),
        };
        *self = CursorData {
            x,
            y,
            monitor_x: work_area.left,
            monitor_y: work_area.top,
            monitor_width: monitor_extent(work_area.left, work_area.right, MONITOR_FLOOR_WIDTH),
            monitor_height: monitor_extent(work_area.top, work_area.bottom, MONITOR_FLOOR_HEIGHT),
            window_x: window_corner(x, window_width),
            window_y: window_corner(y, window_height),
            window_width,
            window_height,
        };
    }

    /// The rectangle to capture: the window-sized rectangle around the
    /// cursor, each edge held to the monitor on its own.
    pub fn capture_rect(&self) -> (rect: CaptureRect)
        ensures
            rect == self@.clamped(),
            self@.consistent(),
    {
        proof {
            use_type_invariant(self);
        }
        let half_width: i64 = (self.window_width / 2) as i64;
        let half_height: i64 = (self.window_height / 2) as i64;
        let x: i64 = self.x as i64;
        let y: i64 = self.y as i64;
        let monitor_right: i64 = self.monitor_x as i64 + self.monitor_width as i64;
        let monitor_bottom: i64 = self.monitor_y as i64 + self.monitor_height as i64;
        CaptureRect {
            left: if self.monitor_x as i64 >= x - half_width {
                self.monitor_x as i64
            } else {
                x - half_width
            },
            top: if self.monitor_y as i64 >= y - half_height {
                self.monitor_y as i64
            } else {
                y - half_height
            },
            right: if monitor_right <= x + half_width {
                monitor_right
            } else {
                x + half_width
            },
            bottom: if monitor_bottom <= y + half_height {
                monitor_bottom
            } else {
                y + half_height
            },
        }
    }

    /// The monitor under the cursor.
    pub fn monitor(&self) -> (region: MonitorRegion)
        ensures
            region.origin.x == self@.monitor_x,
            region.origin.y == self@.monitor_y,
            region.width == self@.monitor_width,
            region.height == self@.monitor_height,
            region.width >= MONITOR_FLOOR_WIDTH,
            region.height >= MONITOR_FLOOR_HEIGHT,
    {
        proof {
            use_type_invariant(self);
        }
        MonitorRegion {
            origin: ScreenPoint { x: self.monitor_x, y: self.monitor_y },
            width: self.monitor_width,
            height: self.monitor_height,
        }
    }

    /// The window's frame: the window's own size, centered on the cursor.
    pub fn window_frame(&self) -> (frame: CaptureWindowFrame)
        ensures
            frame.origin.x == corner(self@.x, self@.window_width),
            frame.origin.y == corner(self@.y, self@.window_height),
            frame.width == self@.window_width,
            frame.height == self@.window_height,
    {
        proof {
            use_type_invariant(self);
        }
        CaptureWindowFrame {
            origin: ScreenPoint { x: self.window_x, y: self.window_y },
            width: self.window_width,
            height: self.window_height,
        }
    }

    /// The cursor's column.
    pub fn x(&self) -> (x: i32)
        ensures
            x == self@.x,
    {
        self.x
    }

    /// The cursor's row.
    pub fn y(&self) -> (y: i32)
        ensures
            y == self@.y,
    {
        self.y
    }

    /// The left edge of the monitor's work area.
    pub fn monitor_x(&self) -> (x: i32)
        ensures
            x == self@.monitor_x,
    {
        self.monitor_x
    }

    /// The top edge of the monitor's work area.
    pub fn monitor_y(&self) -> (y: i32)
        ensures
            y == self@.monitor_y,
    {
        self.monitor_y
    }

    /// The width of the monitor's work area, never below the floor.
    pub fn monitor_width(&self) -> (width: u32)
        ensures
            width == self@.monitor_width,
            width >= MONITOR_FLOOR_WIDTH,
    {
        proof {
            use_type_invariant(self);
        }
        self.monitor_width
    }

    /// The height of the monitor's work area, never below the floor.
    pub fn monitor_height(&self) -> (height: u32)
        ensures
            height == self@.monitor_height,
            height >= MONITOR_FLOOR_HEIGHT,
    {
        proof {
            use_type_invariant(self);
        }
        self.monitor_height
    }

    /// The window's width.
    pub fn window_width(&self) -> (width: u32)
        ensures
            width == self@.window_width,
    {
        self.window_width
    }

    /// The window's height.
    pub fn window_height(&self) -> (height: u32)
        ensures
            height == self@.window_height,
    {
        self.window_height
    }

    /// The column of the window's left edge: the cursor's, less half the
    /// window's width, as far as the coordinates reach.
    pub fn window_x(&self) -> (x: i32)
        ensures
            x == self@.window_x,
            x == corner(self@.x, self@.window_width),
    {
        proof {
            use_type_invariant(self);
        }
        self.window_x
    }

    /// The row of the window's top edge: the cursor's, less half the
    /// window's height, as far as the coordinates reach.
    pub fn window_y(&self) -> (y: i32)
        ensures
            y == self@.window_y,
            y == corner(self@.y, self@.window_height),
    {
        proof {
            use_type_invariant(self);
        }
        self.window_y
    }
}

/// Whatever the cursor's sign, whatever the monitor and whatever the frame
/// held before, the frame that follows a reading has the window's own width
/// and height, and a monitor no smaller than the floor. Where the corner
/// that centers the window on the cursor is a coordinate of the desktop, it
/// is the frame's corner.
pub proof fn lemma_window_frame_keeps_size(
    before: CursorData,
    after: CursorData,
    cursor: Option<ScreenPoint>,
    work_area: WorkArea,
    window_width: u32,
    window_height: u32,
)
    requires
        after@ == before.frame_after(cursor, work_area, window_width, window_height),
    ensures
        after@.window_width == window_width,
        after@.window_height == window_height,
        after@.monitor_width >= MONITOR_FLOOR_WIDTH,
        after@.monitor_height >= MONITOR_FLOOR_HEIGHT,
        after@.x - window_width / 2 >= i32::MIN ==> after@.window_x == after@.x - window_width
            / 2,
        after@.y - window_height / 2 >= i32::MIN ==> after@.window_y == after@.y - window_height
            / 2,
{
}

} // verus!
