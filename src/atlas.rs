//! Row-by-row placement of glyph bitmaps in a texture atlas.
use vstd::prelude::*;

verus! {

/// Places bitmaps left to right in rows of an atlas of a given width. A bitmap
/// that would pass the right edge starts a new row below the tallest bitmap of
/// the current one.
pub struct AtlasPacker {
    width: u32,
    next_x: u32,
    next_y: u32,
    row_height: u32,
}

impl AtlasPacker {
    /// The atlas width.
    pub closed spec fn width(&self) -> nat {
        self.width as nat
    }

    /// Where the next bitmap goes on the current row.
    pub closed spec fn next_x(&self) -> nat {
        self.next_x as nat
    }

    /// The top of the current row.
    pub closed spec fn next_y(&self) -> nat {
        self.next_y as nat
    }

    /// The height of the tallest bitmap on the current row.
    pub closed spec fn row_height(&self) -> nat {
        self.row_height as nat
    }

    /// A bitmap `w` wide does not fit on the current row.
    pub open spec fn wraps(&self, w: nat) -> bool {
        self.next_x() + w > self.width()
    }

    /// Where a bitmap `w` wide goes.
    pub open spec fn origin_for(&self, w: nat) -> (nat, nat) {
        if self.wraps(w) {
            (0, self.next_y() + self.row_height())
        } else {
            (self.next_x(), self.next_y())
        }
    }

    /// Placing a bitmap `w` wide keeps every position within 32 bits.
    pub open spec fn can_place_spec(&self, w: nat) -> bool {
        self.next_x() + w <= u32::MAX && self.next_y() + self.row_height() <= u32::MAX
            && self.origin_for(w).0 + w <= u32::MAX
    }

    /// An empty atlas `width` wide.
    pub fn new(width: u32) -> (r: Self)
        ensures
            r.width() == width,
            r.next_x() == 0,
            r.next_y() == 0,
            r.row_height() == 0,
    {
        AtlasPacker { width, next_x: 0, next_y: 0, row_height: 0 }
    }

    /// Whether `place(w, _)` may be called.
    pub fn can_place(&self, w: u32) -> (r: bool)
        ensures
            r == self.can_place_spec(w as nat),
    {
        let end = self.next_x as u64 + w as u64;
        let below = self.next_y as u64 + self.row_height as u64;
        let origin_x: u64 = if end > self.width as u64 { 0 } else { self.next_x as u64 };
        end <= u32::MAX as u64 && below <= u32::MAX as u64 && origin_x + w as u64 <= u32::MAX as u64
    }

    /// Reserves a `w` by `h` place and returns its top-left corner.
    pub fn place(&mut self, w: u32, h: u32) -> (r: (u32, u32))
        requires
            old(self).can_place_spec(w as nat),
        ensures
            (r.0 as nat, r.1 as nat) == old(self).origin_for(w as nat),
            final(self).width() == old(self).width(),
            final(self).next_x() == r.0 + w,
            final(self).next_y() == r.1,
            final(self).row_height() == if old(self).wraps(w as nat) {
                h as nat
            } else if old(self).row_height() >= h {
                old(self).row_height()
            } else {
                h as nat
            },
    {
        if self.next_x + w > self.width {
            self.next_x = 0;
            self.next_y = self.next_y + self.row_height;
            self.row_height = 0;
        }
        if h > self.row_height {
            self.row_height = h;
        }
        let origin = (self.next_x, self.next_y);
        self.next_x = self.next_x + w;
        origin
    }
}

} // verus!
