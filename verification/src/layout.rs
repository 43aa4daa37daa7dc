//! Screen layout arithmetic.
//!
//! The drawing surface is split into the process list, the terminal pane,
//! the help bar and the zoom banner; the shell draws into these rectangles.

use vstd::prelude::*;

verus! {

/// A rectangle of terminal cells.
#[derive(Clone, Copy, Debug, PartialEq, Eq, Structural)]
pub struct Rect {
    pub x: u16,
    pub y: u16,
    pub width: u16,
    pub height: u16,
}

impl Rect {
    /// A rectangle from its corner and size.
    pub fn new(x: u16, y: u16, width: u16, height: u16) -> (r: Rect)
        ensures
            r == (Rect { x, y, width, height }),
    {
        Rect { x, y, width, height }
    }

    /// The rectangle shrunk by a one-cell margin on every side; empty when
    /// there is no room.
    pub open spec fn inner_spec(self) -> Rect {
        if self.width >= 2 && self.height >= 2 && self.x + 2 <= u16::MAX && self.y + 2
            <= u16::MAX {
            Rect {
                x: (self.x + 1) as u16,
                y: (self.y + 1) as u16,
                width: (self.width - 2) as u16,
                height: (self.height - 2) as u16,
            }
        } else {
            Rect { x: self.x, y: self.y, width: 0u16, height: 0u16 }
        }
    }

    /// The rectangle shrunk by a one-cell margin on every side.
    pub fn inner(&self) -> (r: Rect)
        ensures
            r == self.inner_spec(),
    {
        if self.width >= 2 && self.height >= 2 && self.x <= u16::MAX - 2 && self.y <= u16::MAX
            - 2 {
            Rect { x: self.x + 1, y: self.y + 1, width: self.width - 2, height: self.height - 2 }
        } else {
            Rect { x: self.x, y: self.y, width: 0, height: 0 }
        }
    }

    /// Whether a cell lies inside the rectangle.
    pub open spec fn hit_spec(self, column: u16, row: u16) -> bool {
        &&& self.x <= column < self.x + self.width
        &&& self.y <= row < self.y + self.height
    }

    /// Whether a cell lies inside the rectangle.
    pub fn check_hit(&self, column: u16, row: u16) -> (r: bool)
        ensures
            r == self.hit_spec(column, row),
    {
        self.x <= column && (column as u32) < self.x as u32 + self.width as u32 && self.y <= row
            && (row as u32) < self.y as u32 + self.height as u32
    }
}

/// The regions the application draws into.
#[derive(Clone, Copy, Debug, PartialEq, Eq, Structural)]
pub struct AppLayout {
    pub procs: Rect,
    pub term: Rect,
    pub keymap: Rect,
    pub zoom_banner: Rect,
}

/// The layout for a drawing area: the help bar at the bottom (three rows
/// unless zoomed or hidden), the process list on the left (unless zoomed),
/// the zoom banner above the terminal pane when zoomed, the terminal pane
/// taking the rest. The terminal pane keeps at least one row and two
/// columns where possible.
pub open spec fn layout_spec(
    area: Rect,
    zoom: bool,
    hide_keymap: bool,
    proc_list_width: u16,
) -> AppLayout {
    let want_keymap: u16 = if zoom || hide_keymap {
        0u16
    } else {
        3u16
    };
    let keymap_h: u16 = if want_keymap <= sat_sub(area.height, 1) {
        want_keymap
    } else {
        sat_sub(area.height, 1)
    };
    let top_h = (area.height - keymap_h) as u16;
    let want_procs: u16 = if zoom {
        0u16
    } else {
        proc_list_width
    };
    let procs_w: u16 = if want_procs <= sat_sub(area.width, 2) {
        want_procs
    } else {
        sat_sub(area.width, 2)
    };
    let rest_w = (area.width - procs_w) as u16;
    let want_banner: u16 = if zoom {
        1u16
    } else {
        0u16
    };
    let banner_h: u16 = if want_banner <= sat_sub(top_h, 1) {
        want_banner
    } else {
        sat_sub(top_h, 1)
    };
    AppLayout {
        procs: Rect { x: area.x, y: area.y, width: procs_w, height: top_h },
        term: Rect {
            x: (area.x + procs_w) as u16,
            y: (area.y + banner_h) as u16,
            width: rest_w,
            height: (top_h - banner_h) as u16,
        },
        keymap: Rect {
            x: area.x,
            y: (area.y + top_h) as u16,
            width: area.width,
            height: keymap_h,
        },
        zoom_banner: Rect { x: (area.x + procs_w) as u16, y: area.y, width: rest_w, height: banner_h },
    }
}

/// `a - b`, stopping at zero.
pub open spec fn sat_sub(a: u16, b: u16) -> u16 {
    if a >= b {
        (a - b) as u16
    } else {
        0u16
    }
}

impl AppLayout {
    /// Computes the layout for a drawing area.
    pub fn new(area: Rect, zoom: bool, hide_keymap: bool, proc_list_width: u16) -> (l: AppLayout)
        requires
            area.x as int + area.width as int <= u16::MAX,
            area.y as int + area.height as int <= u16::MAX,
        ensures
            l == layout_spec(area, zoom, hide_keymap, proc_list_width),
    {
        let want_keymap: u16 = if zoom || hide_keymap {
            0
        } else {
            3
        };
        let room_k = if area.height >= 1 {
            area.height - 1
        } else {
            0
        };
        let keymap_h = if want_keymap <= room_k {
            want_keymap
        } else {
            room_k
        };
        let top_h = area.height - keymap_h;
        let want_procs: u16 = if zoom {
            0
        } else {
            proc_list_width
        };
        let room_p = if area.width >= 2 {
            area.width - 2
        } else {
            0
        };
        let procs_w = if want_procs <= room_p {
            want_procs
        } else {
            room_p
        };
        let rest_w = area.width - procs_w;
        let want_banner: u16 = if zoom {
            1
        } else {
            0
        };
        let room_b = if top_h >= 1 {
            top_h - 1
        } else {
            0
        };
        let banner_h = if want_banner <= room_b {
            want_banner
        } else {
            room_b
        };
        AppLayout {
            procs: Rect { x: area.x, y: area.y, width: procs_w, height: top_h },
            term: Rect {
                x: area.x + procs_w,
                y: area.y + banner_h,
                width: rest_w,
                height: top_h - banner_h,
            },
            keymap: Rect { x: area.x, y: area.y + top_h, width: area.width, height: keymap_h },
            zoom_banner: Rect {
                x: area.x + procs_w,
                y: area.y,
                width: rest_w,
                height: banner_h,
            },
        }
    }

    /// The terminal pane's drawable interior: the pane minus its border.
    pub fn term_area(&self) -> (r: Rect)
        ensures
            r == self.term.inner_spec(),
    {
        self.term.inner()
    }
}

} // verus!
