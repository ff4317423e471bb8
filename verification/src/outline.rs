//! Burning the outline of a rectangle into an RGBA bitmap.

use vstd::prelude::*;
use vstd::arithmetic::div_mod::{lemma_fundamental_div_mod, lemma_fundamental_div_mod_converse};
use crate::geometry::{ImagePoint, Rectangle};

verus! {

/// The number of bytes of one RGBA pixel.
pub const BYTES_PER_PIXEL: usize = 4;

/// The number of bytes of a tightly packed RGBA bitmap of the given size.
pub open spec fn byte_len(size: (u32, u32)) -> int {
    4 * (size.0 as int) * (size.1 as int)
}

/// The pixel `(x, y)` lies on an edge of the rectangle from `start` to
/// `end`. The top and bottom edges run from the left edge up to, but not
/// onto, the right edge; the left and right edges run from the top edge up
/// to, but not onto, the bottom edge. So the corner at `end` itself is on no
/// edge, a rectangle without width is one vertical line, one without height
/// one horizontal line, and a rectangle from a point to itself is nothing.
pub open spec fn on_outline(x: int, y: int, start: ImagePoint, end: ImagePoint) -> bool {
    ||| (start.x <= x < end.x && (y == start.y || y == end.y))
    ||| (start.y <= y < end.y && (x == start.x || x == end.x))
}

/// The bitmap `buffer`, `width` pixels wide, with the colour written into
/// every pixel on the outline of the rectangle and every other byte kept.
pub open spec fn outlined(
    buffer: Seq<u8>,
    width: int,
    start: ImagePoint,
    end: ImagePoint,
    colour: Seq<u8>,
) -> Seq<u8> {
    Seq::new(
        buffer.len(),
        |k: int|
            if on_outline((k / 4) % width, (k / 4) / width, start, end) {
                colour[k % 4]
            } else {
                buffer[k]
            },
    )
}

/// The part of the outline that is drawn once the horizontal edges have
/// reached column `columns` and the vertical edges row `rows`.
spec fn on_partial_outline(
    x: int,
    y: int,
    start: ImagePoint,
    end: ImagePoint,
    columns: int,
    rows: int,
) -> bool {
    ||| (start.x <= x < columns && (y == start.y || y == end.y))
    ||| (start.y <= y < rows && (x == start.x || x == end.x))
}

spec fn partly_outlined(
    buffer: Seq<u8>,
    width: int,
    start: ImagePoint,
    end: ImagePoint,
    colour: Seq<u8>,
    columns: int,
    rows: int,
) -> Seq<u8> {
    Seq::new(
        buffer.len(),
        |k: int|
            if on_partial_outline((k / 4) % width, (k / 4) / width, start, end, columns, rows) {
                colour[k % 4]
            } else {
                buffer[k]
            },
    )
}

/// The bitmap with the colour written into the one pixel `(x, y)`.
spec fn with_pixel(buffer: Seq<u8>, width: int, x: int, y: int, colour: Seq<u8>) -> Seq<u8> {
    Seq::new(
        buffer.len(),
        |k: int|
            if k / 4 == y * width + x {
                colour[k % 4]
            } else {
                buffer[k]
            },
    )
}

/// A pixel's index splits into its row and column, and only in one way.
proof fn lemma_pixel_position(x: int, y: int, width: int)
    requires
        0 <= x < width,
    ensures
        (y * width + x) % width == x,
        (y * width + x) / width == y,
{
    lemma_fundamental_div_mod_converse(y * width + x, width, y, x);
}

proof fn lemma_position_pixel(p: int, width: int)
    requires
        width > 0,
    ensures
        p == (p / width) * width + p % width,
        0 <= p % width < width,
{
    lemma_fundamental_div_mod(p, width);
    vstd::arithmetic::div_mod::lemma_mod_bound(p, width);
    assert(width * (p / width) == (p / width) * width) by (nonlinear_arith);
}

/// The last byte of a pixel inside the bitmap is inside the buffer.
proof fn lemma_pixel_in_buffer(x: int, y: int, size: (u32, u32))
    requires
        0 <= x < size.0,
        0 <= y < size.1,
    ensures
        0 <= y * size.0 <= y * size.0 + x,
        4 * (y * size.0 + x) + 4 <= byte_len(size),
{
    let w = size.0 as int;
    let h = size.1 as int;
    assert(0 <= y * w && y * w + w <= h * w) by (nonlinear_arith)
        requires
            0 <= y < h,
            0 < w,
    ;
    assert(4 * w * h == 4 * (h * w)) by (nonlinear_arith);
}

/// One more column of the horizontal edges is two more pixels.
proof fn lemma_extend_columns(
    buffer: Seq<u8>,
    width: int,
    start: ImagePoint,
    end: ImagePoint,
    colour: Seq<u8>,
    column: int,
)
    requires
        0 <= start.x <= column < width,
    ensures
        with_pixel(
            with_pixel(
                partly_outlined(buffer, width, start, end, colour, column, start.y as int),
                width,
                column,
                start.y as int,
                colour,
            ),
            width,
            column,
            end.y as int,
            colour,
        ) == partly_outlined(buffer, width, start, end, colour, column + 1, start.y as int),
{
    let before = partly_outlined(buffer, width, start, end, colour, column, start.y as int);
    let top = with_pixel(before, width, column, start.y as int, colour);
    let both = with_pixel(top, width, column, end.y as int, colour);
    let after = partly_outlined(buffer, width, start, end, colour, column + 1, start.y as int);
    lemma_pixel_position(column, start.y as int, width);
    lemma_pixel_position(column, end.y as int, width);
    assert forall|k: int| 0 <= k < buffer.len() implies both[k] == after[k] by {
        lemma_position_pixel(k / 4, width);
    }
    assert(both =~= after);
}

/// One more row of the vertical edges is two more pixels.
proof fn lemma_extend_rows(
    buffer: Seq<u8>,
    width: int,
    start: ImagePoint,
    end: ImagePoint,
    colour: Seq<u8>,
    row: int,
)
    requires
        0 <= start.x <= end.x < width,
        start.y <= row,
    ensures
        with_pixel(
            with_pixel(
                partly_outlined(buffer, width, start, end, colour, end.x as int, row),
                width,
                start.x as int,
                row,
                colour,
            ),
            width,
            end.x as int,
            row,
            colour,
        ) == partly_outlined(buffer, width, start, end, colour, end.x as int, row + 1),
{
    let before = partly_outlined(buffer, width, start, end, colour, end.x as int, row);
    let left = with_pixel(before, width, start.x as int, row, colour);
    let both = with_pixel(left, width, end.x as int, row, colour);
    let after = partly_outlined(buffer, width, start, end, colour, end.x as int, row + 1);
    lemma_pixel_position(start.x as int, row, width);
    lemma_pixel_position(end.x as int, row, width);
    assert forall|k: int| 0 <= k < buffer.len() implies both[k] == after[k] by {
        lemma_position_pixel(k / 4, width);
    }
    assert(both =~= after);
}

/// Writes the colour into the pixel `(x, y)`.
fn paint_pixel(buffer: &mut [u8], size: (u32, u32), x: u32, y: u32, colour: &[u8; 4])
    requires
        old(buffer)@.len() == byte_len(size),
        x < size.0,
        y < size.1,
    ensures
        final(buffer)@ == with_pixel(old(buffer)@, size.0 as int, x as int, y as int, colour@),
{
    proof {
        lemma_pixel_in_buffer(x as int, y as int, size);
        vstd::slice::axiom_spec_len(buffer);
    }
    let base: usize = (y as usize * size.0 as usize + x as usize) * BYTES_PER_PIXEL;
    let mut channel: usize = 0;
    while channel < BYTES_PER_PIXEL
        invariant
            channel <= 4,
            base == 4 * (y * size.0 + x),
            base + 4 <= buffer@.len(),
            buffer@.len() == old(buffer)@.len(),
            forall|k: int|
                0 <= k < buffer@.len() ==> buffer@[k] == if base <= k < base + channel {
                    colour@[k - base]
                } else {
                    old(buffer)@[k]
                },
        decreases 4 - channel,
    {
        buffer[base + channel] = colour[channel];
        channel += 1;
    }
    assert(buffer@ =~= with_pixel(old(buffer)@, size.0 as int, x as int, y as int, colour@));
}

/// Draws the outline of the rectangle from `start` to `end` into an RGBA
/// bitmap: the colour goes into every pixel on the four edges, and nothing
/// else changes. The corners must be in canonical order and inside the
/// bitmap, and the buffer must hold exactly the bitmap.
pub fn draw_rectangle(
    buffer: &mut [u8],
    size: (u32, u32),
    start: ImagePoint,
    end: ImagePoint,
    colour: &[u8; 4],
)
    requires
        old(buffer)@.len() == byte_len(size),
        start.x <= end.x,
        start.y <= end.y,
        end.within(size),
    ensures
        final(buffer)@ == outlined(old(buffer)@, size.0 as int, start, end, colour@),
{
    let ghost width = size.0 as int;
    assert(buffer@ =~= partly_outlined(
        old(buffer)@,
        width,
        start,
        end,
        colour@,
        start.x as int,
        start.y as int,
    ));
    let mut i: u32 = start.x;
    while i < end.x
        invariant
            start.x <= i <= end.x,
            start.y <= end.y,
            end.within(size),
            width == size.0,
            buffer@.len() == byte_len(size),
            buffer@ == partly_outlined(
                old(buffer)@,
                width,
                start,
                end,
                colour@,
                i as int,
                start.y as int,
            ),
        decreases end.x - i,
    {
        proof {
            lemma_extend_columns(old(buffer)@, width, start, end, colour@, i as int);
        }
        paint_pixel(buffer, size, i, start.y, colour);
        paint_pixel(buffer, size, i, end.y, colour);
        i += 1;
    }
    let mut j: u32 = start.y;
    while j < end.y
        invariant
            start.y <= j <= end.y,
            start.x <= end.x,
            end.within(size),
            width == size.0,
            buffer@.len() == byte_len(size),
            buffer@ == partly_outlined(
                old(buffer)@,
                width,
                start,
                end,
                colour@,
                end.x as int,
                j as int,
            ),
        decreases end.y - j,
    {
        proof {
            lemma_extend_rows(old(buffer)@, width, start, end, colour@, j as int);
        }
        paint_pixel(buffer, size, start.x, j, colour);
        paint_pixel(buffer, size, end.x, j, colour);
        j += 1;
    }
    assert(buffer@ =~= outlined(old(buffer)@, width, start, end, colour@));
}

/// Draws the outline of a canonical rectangle that lies inside the bitmap.
/// A rectangle without width and without height leaves the bitmap as it was.
pub fn draw_rect_outline(buffer: &mut [u8], size: (u32, u32), rect: Rectangle, colour: [u8; 4])
    requires
        old(buffer)@.len() == byte_len(size),
        rect.wf(),
        rect.within(size),
    ensures
        final(buffer)@ == outlined(
            old(buffer)@,
            size.0 as int,
            rect.top_left,
            rect.bottom_right,
            colour@,
        ),
        rect.top_left == rect.bottom_right ==> final(buffer)@ == old(buffer)@,
{
    proof {
        lemma_outline_of_one_point(old(buffer)@, size.0 as int, rect.top_left, colour@);
    }
    draw_rectangle(buffer, size, rect.top_left, rect.bottom_right, &colour);
}

/// The outline of a rectangle from a point to itself holds no pixel: to draw
/// it changes nothing.
pub proof fn lemma_outline_of_one_point(
    buffer: Seq<u8>,
    width: int,
    p: ImagePoint,
    colour: Seq<u8>,
)
    ensures
        outlined(buffer, width, p, p, colour) == buffer,
{
    assert(outlined(buffer, width, p, p, colour) =~= buffer);
}

/// To draw an outline never changes the size of the bitmap, and leaves
/// every byte of every pixel off the outline as it was.
pub proof fn lemma_outline_keeps_the_rest(
    buffer: Seq<u8>,
    width: int,
    start: ImagePoint,
    end: ImagePoint,
    colour: Seq<u8>,
    k: int,
)
    requires
        0 <= k < buffer.len(),
        !on_outline((k / 4) % width, (k / 4) / width, start, end),
    ensures
        outlined(buffer, width, start, end, colour).len() == buffer.len(),
        outlined(buffer, width, start, end, colour)[k] == buffer[k],
{
}

/// To draw the same outline a second time changes nothing more.
pub proof fn lemma_outline_is_idempotent(
    buffer: Seq<u8>,
    width: int,
    start: ImagePoint,
    end: ImagePoint,
    colour: Seq<u8>,
)
    ensures
        outlined(outlined(buffer, width, start, end, colour), width, start, end, colour)
            == outlined(buffer, width, start, end, colour),
{
    assert(outlined(outlined(buffer, width, start, end, colour), width, start, end, colour)
        =~= outlined(buffer, width, start, end, colour));
}

} // verus!
