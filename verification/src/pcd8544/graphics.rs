//! A client-side framebuffer for the display controller: 84x48 pixels held
//! as 504 column bytes (6 rows of 84 bytes, 8 vertical pixels per byte, bit
//! 0 on top), plus a fixed-width text mode that renders 5x7 glyphs on a
//! 6-pixel horizontal pitch.

use vstd::prelude::*;

use crate::pcd8544::font::{glyph, glyph_spec};

verus! {

/// Width of the display in pixels.
pub const DISPLAY_WIDTH: usize = 84;

/// Height of the display in pixels.
pub const DISPLAY_HEIGHT: usize = 48;

/// One full frame of column bytes.
pub struct DisplayBuffer {
    pub data: [u8; 504],
}

/// The index of the column byte holding pixel (x, y).
pub open spec fn spec_pixel_index(x: usize, y: usize) -> int {
    (y as int / 8) * 84 + x as int
}

/// The bit of that column byte holding pixel (x, y).
pub open spec fn spec_pixel_mask(y: usize) -> u8 {
    1u8 << ((y % 8) as u8)
}

/// One frame after one glyph cell is drawn at byte offset `base`: the five
/// column bytes of the glyph replace the bytes at `base` up to `base + 4`.
pub open spec fn spec_put_char(data: Seq<u8>, c: u8, base: int) -> Seq<u8> {
    data.update(base, glyph_spec(c)[0]).update(base + 1, glyph_spec(c)[1]).update(
        base + 2,
        glyph_spec(c)[2],
    ).update(base + 3, glyph_spec(c)[3]).update(base + 4, glyph_spec(c)[4])
}

/// One frame after a whole text is drawn: each byte of the text draws its
/// glyph cell, advancing six bytes per character so that one blank column
/// separates neighbouring cells.
pub open spec fn spec_put_text(data: Seq<u8>, text: Seq<u8>, base: int) -> Seq<u8>
    decreases text.len(),
{
    if text.len() == 0 {
        data
    } else {
        spec_put_text(spec_put_char(data, text[0], base), text.skip(1), base + 6)
    }
}

/// Drawing a text extended by one character equals drawing the text and then
/// the character's cell, six bytes per already-drawn character further on.
pub proof fn lemma_put_text_push(data: Seq<u8>, text: Seq<u8>, c: u8, base: int)
    requires
        0 <= base,
        base + 6 * (text.len() + 1) <= data.len(),
    ensures
        spec_put_text(data, text.push(c), base) == spec_put_char(
            spec_put_text(data, text, base),
            c,
            base + 6 * text.len(),
        ),
    decreases text.len(),
{
    if text.len() == 0 {
        assert(text.push(c)[0] == c);
        assert(text.push(c).skip(1) =~= Seq::<u8>::empty());
        assert(spec_put_text(data, text.push(c), base) == spec_put_text(
            spec_put_char(data, c, base),
            Seq::<u8>::empty(),
            base + 6,
        ));
        assert(spec_put_text(data, text, base) == data);
    } else {
        assert(text.push(c)[0] == text[0]);
        assert(text.push(c).skip(1) =~= text.skip(1).push(c));
        assert(spec_put_char(data, text[0], base).len() == data.len());
        assert(spec_put_text(data, text.push(c), base) == spec_put_text(
            spec_put_char(data, text[0], base),
            text.skip(1).push(c),
            base + 6,
        ));
        lemma_put_text_push(spec_put_char(data, text[0], base), text.skip(1), c, base + 6);
        assert(spec_put_text(data, text, base) == spec_put_text(
            spec_put_char(data, text[0], base),
            text.skip(1),
            base + 6,
        ));
    }
}

/// One frame after pixel (x, y) is forced on (`fill` true) or off: its bit
/// is OR-ed into or cleared from its column byte; coordinates off the
/// display change nothing.
pub open spec fn spec_set_pixel(data: Seq<u8>, x: int, y: int, fill: bool) -> Seq<u8> {
    if 0 <= x < 84 && 0 <= y < 48 {
        let index = (y / 8) * 84 + x;
        let mask = 1u8 << ((y % 8) as u8);
        data.update(
            index,
            if fill {
                data[index] | mask
            } else {
                data[index] & !mask
            },
        )
    } else {
        data
    }
}

/// One frame after a horizontal run of `width` pixels starting at (x, y) is
/// forced to `fill`.
pub open spec fn spec_draw_row(data: Seq<u8>, x: int, y: int, width: nat, fill: bool) -> Seq<u8>
    decreases width,
{
    if width == 0 {
        data
    } else {
        spec_draw_row(spec_set_pixel(data, x, y, fill), x + 1, y, (width - 1) as nat, fill)
    }
}

/// One frame after a `width` by `height` rectangle of pixels with top-left
/// corner (x, y) is forced to `fill`, row by row.
pub open spec fn spec_draw_rect(
    data: Seq<u8>,
    x: int,
    y: int,
    width: nat,
    height: nat,
    fill: bool,
) -> Seq<u8>
    decreases height,
{
    if height == 0 {
        data
    } else {
        spec_draw_rect(
            spec_draw_row(data, x, y, width, fill),
            x,
            y + 1,
            width,
            (height - 1) as nat,
            fill,
        )
    }
}

/// Extending a pixel run by one pixel equals drawing the run and then the
/// pixel just past its end.
pub proof fn lemma_draw_row_push(data: Seq<u8>, x: int, y: int, width: nat, fill: bool)
    ensures
        spec_draw_row(data, x, y, (width + 1) as nat, fill) == spec_set_pixel(
            spec_draw_row(data, x, y, width, fill),
            x + width,
            y,
            fill,
        ),
    decreases width,
{
    if width == 0 {
        assert(spec_draw_row(data, x, y, 1, fill) == spec_draw_row(
            spec_set_pixel(data, x, y, fill),
            x + 1,
            y,
            0,
            fill,
        ));
        assert(spec_draw_row(data, x, y, 0, fill) == data);
    } else {
        assert(spec_draw_row(data, x, y, (width + 1) as nat, fill) == spec_draw_row(
            spec_set_pixel(data, x, y, fill),
            x + 1,
            y,
            width,
            fill,
        ));
        lemma_draw_row_push(spec_set_pixel(data, x, y, fill), x + 1, y, (width - 1) as nat, fill);
        assert(spec_draw_row(data, x, y, width, fill) == spec_draw_row(
            spec_set_pixel(data, x, y, fill),
            x + 1,
            y,
            (width - 1) as nat,
            fill,
        ));
    }
}

/// Extending a rectangle by one row equals drawing the rectangle and then
/// the row just below it.
pub proof fn lemma_draw_rect_push(
    data: Seq<u8>,
    x: int,
    y: int,
    width: nat,
    height: nat,
    fill: bool,
)
    ensures
        spec_draw_rect(data, x, y, width, (height + 1) as nat, fill) == spec_draw_row(
            spec_draw_rect(data, x, y, width, height, fill),
            x,
            y + height,
            width,
            fill,
        ),
    decreases height,
{
    if height == 0 {
        assert(spec_draw_rect(data, x, y, width, 1, fill) == spec_draw_rect(
            spec_draw_row(data, x, y, width, fill),
            x,
            y + 1,
            width,
            0,
            fill,
        ));
        assert(spec_draw_rect(data, x, y, width, 0, fill) == data);
    } else {
        assert(spec_draw_rect(data, x, y, width, (height + 1) as nat, fill) == spec_draw_rect(
            spec_draw_row(data, x, y, width, fill),
            x,
            y + 1,
            width,
            height,
            fill,
        ));
        lemma_draw_rect_push(
            spec_draw_row(data, x, y, width, fill),
            x,
            y + 1,
            width,
            (height - 1) as nat,
            fill,
        );
        assert(spec_draw_rect(data, x, y, width, height, fill) == spec_draw_rect(
            spec_draw_row(data, x, y, width, fill),
            x,
            y + 1,
            width,
            (height - 1) as nat,
            fill,
        ));
    }
}

impl DisplayBuffer {
    /// A blank frame.
    pub fn new() -> (r: DisplayBuffer)
        ensures
            forall|i: int| 0 <= i < 504 ==> r.data@[i] == 0,
    {
        DisplayBuffer { data: [0u8; 504] }
    }

    /// Switch pixel (x, y) on by OR-ing its bit into its column byte.
    /// Coordinates off the display leave the frame unchanged.
    pub fn put_pixel(&mut self, x: usize, y: usize)
        ensures
            x < 84 && y < 48 ==> final(self).data@ == old(self).data@.update(
                spec_pixel_index(x, y),
                old(self).data@[spec_pixel_index(x, y)] | spec_pixel_mask(y),
            ),
            !(x < 84 && y < 48) ==> final(self).data@ == old(self).data@,
    {
        if x >= DISPLAY_WIDTH || y >= DISPLAY_HEIGHT {
            return ;
        }
        let index: usize = (y / 8) * 84 + x;
        let shift: u8 = (y % 8) as u8;
        let mask: u8 = 1u8 << shift;
        let current: u8 = self.data[index];
        self.data[index] = current | mask;
    }

    /// Switch pixel (x, y) off by clearing its bit in its column byte.
    /// Coordinates off the display leave the frame unchanged.
    pub fn clear_pixel(&mut self, x: usize, y: usize)
        ensures
            x < 84 && y < 48 ==> final(self).data@ == old(self).data@.update(
                spec_pixel_index(x, y),
                old(self).data@[spec_pixel_index(x, y)] & !spec_pixel_mask(y),
            ),
            !(x < 84 && y < 48) ==> final(self).data@ == old(self).data@,
    {
        if x >= DISPLAY_WIDTH || y >= DISPLAY_HEIGHT {
            return ;
        }
        let index: usize = (y / 8) * 84 + x;
        let shift: u8 = (y % 8) as u8;
        let mask: u8 = 1u8 << shift;
        let current: u8 = self.data[index];
        self.data[index] = current & !mask;
    }

    /// Force a `width` by `height` rectangle of pixels with top-left corner
    /// (x, y) on (`fill` true) or off, row by row; the parts of the
    /// rectangle lying off the display are ignored.
    pub fn draw_square(&mut self, x: usize, y: usize, width: usize, height: usize, fill: bool)
        requires
            x + width <= usize::MAX,
            y + height <= usize::MAX,
        ensures
            final(self).data@ == spec_draw_rect(
                old(self).data@,
                x as int,
                y as int,
                width as nat,
                height as nat,
                fill,
            ),
    {
        let mut row: usize = 0;
        while row < height
            invariant
                row <= height,
                x + width <= usize::MAX,
                y + height <= usize::MAX,
                self.data@ == spec_draw_rect(
                    old(self).data@,
                    x as int,
                    y as int,
                    width as nat,
                    row as nat,
                    fill,
                ),
            decreases height - row,
        {
            let ghost row_start = self.data@;
            let mut col: usize = 0;
            while col < width
                invariant
                    col <= width,
                    row < height,
                    x + width <= usize::MAX,
                    y + height <= usize::MAX,
                    row_start == spec_draw_rect(
                        old(self).data@,
                        x as int,
                        y as int,
                        width as nat,
                        row as nat,
                        fill,
                    ),
                    self.data@ == spec_draw_row(
                        row_start,
                        x as int,
                        (y + row) as int,
                        col as nat,
                        fill,
                    ),
                decreases width - col,
            {
                let ghost before = self.data@;
                if fill {
                    self.put_pixel(x + col, y + row);
                } else {
                    self.clear_pixel(x + col, y + row);
                }
                proof {
                    assert(self.data@ == spec_set_pixel(
                        before,
                        (x + col) as int,
                        (y + row) as int,
                        fill,
                    ));
                    lemma_draw_row_push(row_start, x as int, (y + row) as int, col as nat, fill);
                }
                col = col + 1;
            }
            proof {
                lemma_draw_rect_push(
                    old(self).data@,
                    x as int,
                    y as int,
                    width as nat,
                    row as nat,
                    fill,
                );
            }
            row = row + 1;
        }
    }

    /// Draw one glyph cell at byte offset `base`.
    fn put_char(&mut self, c: u8, base: usize)
        requires
            base + 5 <= 504,
        ensures
            final(self).data@ == spec_put_char(old(self).data@, c, base as int),
    {
        let g = glyph(c);
        self.data[base] = g[0];
        self.data[base + 1] = g[1];
        self.data[base + 2] = g[2];
        self.data[base + 3] = g[3];
        self.data[base + 4] = g[4];
    }

    /// Render a text in the fixed-width text mode: character cell (x, y) is
    /// byte offset `84 * y + 6 * x`, and each further character advances six
    /// bytes.  The whole text must fit in the frame.
    pub fn text_mode_put_text(&mut self, text: &[u8], x: usize, y: usize)
        requires
            84 * y + 6 * x + 6 * text@.len() <= 504,
        ensures
            final(self).data@ == spec_put_text(
                old(self).data@,
                text@,
                84 * (y as int) + 6 * (x as int),
            ),
    {
        let base: usize = 84 * y + 6 * x;
        let mut i: usize = 0;
        while i < text.len()
            invariant
                i <= text@.len(),
                base == 84 * (y as int) + 6 * (x as int),
                base + 6 * text@.len() <= 504,
                self.data@ == spec_put_text(old(self).data@, text@.take(i as int), base as int),
            decreases text@.len() - i,
        {
            let c = text[i];
            self.put_char(c, base + 6 * i);
            proof {
                assert(text@.take(i as int + 1) =~= text@.take(i as int).push(text@[i as int]));
                lemma_put_text_push(old(self).data@, text@.take(i as int), c, base as int);
            }
            i = i + 1;
        }
        proof {
            assert(text@.take(i as int) =~= text@);
        }
    }
}

} // verus!
