//! The 64 x 32 monochrome frame buffer and the XOR sprite draw.

use vstd::prelude::*;

verus! {

/// Number of pixel columns.
pub const WIDTH: usize = 64;

/// Number of pixel rows.
pub const HEIGHT: usize = 32;

/// The four bytes of a pixel that is on.
pub const PIXEL_ON: [u8; 4] = [5, 110, 5, 0];

/// The four bytes of a pixel that is off.
pub const PIXEL_OFF: [u8; 4] = [0, 0, 0, 0];

/// One sprite draw request: where to draw, how many rows, and the row bytes.
pub struct DrawInfo<'a> {
    pub coords: (u8, u8),
    pub row_count: u8,
    pub sprites: &'a [u8],
}

/// The frame buffer.
pub struct Display {
    /// 32 rows of 64 pixels, each pixel four bytes `[r, g, b, 0]`.
    pub virtual_canvas: [[[u8; 4]; 64]; 32],
}

/// Whether the four bytes are those of a pixel that is on.
pub open spec fn is_on(cell: [u8; 4]) -> bool {
    cell[0] == 5 && cell[1] == 110 && cell[2] == 5 && cell[3] == 0
}

/// Whether the four bytes are those of a pixel that is off.
pub open spec fn is_off(cell: [u8; 4]) -> bool {
    cell[0] == 0 && cell[1] == 0 && cell[2] == 0 && cell[3] == 0
}

/// Bit `col` of a sprite row, counted from the most significant bit.
pub open spec fn sprite_bit(byte: u8, col: int) -> bool {
    (byte >> ((7 - col) as u8)) & 1 == 1
}

/// Column where a sprite asked for at `cx` starts.
pub open spec fn origin_x(cx: u8) -> int {
    cx as int % 64
}

/// Row where a sprite asked for at `cy` starts.
pub open spec fn origin_y(cy: u8) -> int {
    cy as int % 32
}

/// Number of sprite rows that fall on the screen: the sprite is cut at the
/// bottom edge, never wrapped.
pub open spec fn visible_rows(cy: u8, row_count: u8) -> int {
    if origin_y(cy) + row_count > 32 {
        32 - origin_y(cy)
    } else {
        row_count as int
    }
}

/// Whether the sprite has a set bit on pixel (`row`, `col`). Only the origin
/// wraps; the body is cut at the right and bottom edges.
pub open spec fn sprite_covers(
    coords: (u8, u8),
    row_count: u8,
    sprites: Seq<u8>,
    row: int,
    col: int,
) -> bool {
    let sx = origin_x(coords.0);
    let sy = origin_y(coords.1);
    &&& sy <= row < sy + row_count
    &&& row < 32
    &&& sx <= col < sx + 8
    &&& col < 64
    &&& sprite_bit(sprites[row - sy], col - sx)
}

/// What a pixel holds after a draw: a set sprite bit turns a lit pixel off
/// and any other pixel on; a clear bit leaves the pixel alone.
pub open spec fn drawn_cell(before: [u8; 4], hit: bool) -> [u8; 4] {
    if hit {
        if is_on(before) {
            PIXEL_OFF
        } else {
            PIXEL_ON
        }
    } else {
        before
    }
}

/// A screen with every pixel off.
pub open spec fn blank_screen() -> Seq<Seq<bool>> {
    Seq::new(32, |row: int| Seq::new(64, |col: int| false))
}

/// The screen after a sprite draw: every pixel under a set sprite bit is
/// flipped, every other pixel is kept.
pub open spec fn drawn_screen(
    screen: Seq<Seq<bool>>,
    coords: (u8, u8),
    row_count: u8,
    sprites: Seq<u8>,
) -> Seq<Seq<bool>> {
    Seq::new(
        32,
        |row: int|
            Seq::new(
                64,
                |col: int|
                    screen[row][col] != sprite_covers(coords, row_count, sprites, row, col),
            ),
    )
}

/// Whether a sprite draw turns off a pixel of `screen` that is lit.
pub open spec fn screen_collides(
    screen: Seq<Seq<bool>>,
    coords: (u8, u8),
    row_count: u8,
    sprites: Seq<u8>,
) -> bool {
    exists|row: int, col: int|
        0 <= row < 32 && 0 <= col < 64 && #[trigger] sprite_covers(
            coords,
            row_count,
            sprites,
            row,
            col,
        ) && screen[row][col]
}

impl View for Display {
    type V = Seq<Seq<bool>>;

    /// The screen as 32 rows of 64 booleans, `true` for a lit pixel.
    open spec fn view(&self) -> Seq<Seq<bool>> {
        Seq::new(32, |row: int| Seq::new(64, |col: int| self.lit(row, col)))
    }
}

impl Display {
    /// The four bytes stored for pixel (`row`, `col`).
    pub open spec fn cell(&self, row: int, col: int) -> [u8; 4] {
        self.virtual_canvas[row][col]
    }

    /// Whether pixel (`row`, `col`) is on.
    pub open spec fn lit(&self, row: int, col: int) -> bool {
        is_on(self.cell(row, col))
    }

    /// Every pixel holds one of the two pixel patterns.
    pub open spec fn wf(&self) -> bool {
        forall|row: int, col: int|
            0 <= row < 32 && 0 <= col < 64 ==> is_on(#[trigger] self.cell(row, col)) || is_off(
                self.cell(row, col),
            )
    }

    /// Whether drawing the sprite would turn off the lit pixel (`row`, `col`).
    pub open spec fn collides_at(
        &self,
        coords: (u8, u8),
        row_count: u8,
        sprites: Seq<u8>,
        row: int,
        col: int,
    ) -> bool {
        &&& 0 <= row < 32
        &&& 0 <= col < 64
        &&& sprite_covers(coords, row_count, sprites, row, col)
        &&& self.lit(row, col)
    }

    /// Whether drawing the sprite would turn off any lit pixel.
    pub open spec fn collides(&self, coords: (u8, u8), row_count: u8, sprites: Seq<u8>) -> bool {
        exists|row: int, col: int| #[trigger] self.collides_at(coords, row_count, sprites, row, col)
    }

    /// A display with every pixel off.
    pub fn new() -> (out: Display)
        ensures
            out.wf(),
            out@ == blank_screen(),
            forall|row: int, col: int|
                0 <= row < 32 && 0 <= col < 64 ==> is_off(#[trigger] out.cell(row, col)),
    {
        let out = Display { virtual_canvas: [[[0; 4]; 64]; 32] };
        assert(out@ =~~= blank_screen());
        out
    }

    /// Whether drawing the sprite would turn off a lit pixel that comes
    /// before (`row_end`, `col_end`) in reading order.
    spec fn collides_before(
        &self,
        coords: (u8, u8),
        row_count: u8,
        sprites: Seq<u8>,
        row_end: int,
        col_end: int,
    ) -> bool {
        exists|row: int, col: int|
            #[trigger] self.collides_at(coords, row_count, sprites, row, col) && (row < row_end || (
            row == row_end && col < col_end))
    }

    /// Turns every pixel off.
    pub fn clear(&mut self)
        ensures
            final(self).wf(),
            final(self)@ == blank_screen(),
            forall|row: int, col: int|
                0 <= row < 32 && 0 <= col < 64 ==> is_off(#[trigger] final(self).cell(row, col)),
    {
        self.virtual_canvas = [[[0; 4]; 64]; 32];
        assert(self@ =~~= blank_screen());
    }

    /// The canvas as one flat vector: rows top to bottom, pixels left to
    /// right, the four bytes of each pixel in order.
    pub fn get_raw_bytes(&mut self) -> (out: Vec<u8>)
        ensures
            *final(self) == *old(self),
            out@.len() == 32 * 64 * 4,
            forall|row: int, col: int, k: int|
                0 <= row < 32 && 0 <= col < 64 && 0 <= k < 4 ==> out@[(row * 64 + col) * 4 + k]
                    == (#[trigger] old(self).cell(row, col)[k]),
    {
        let mut out: Vec<u8> = Vec::new();
        let mut row: usize = 0;
        while row < HEIGHT
            invariant
                row <= HEIGHT,
                *self == *old(self),
                out@.len() == row * 64 * 4,
                forall|r: int, c: int, k: int|
                    0 <= r < row && 0 <= c < 64 && 0 <= k < 4 ==> out@[(r * 64 + c) * 4 + k] == (
                    #[trigger] self.cell(r, c)[k]),
            decreases HEIGHT - row,
        {
            let mut col: usize = 0;
            while col < WIDTH
                invariant
                    row < HEIGHT,
                    col <= WIDTH,
                    *self == *old(self),
                    out@.len() == (row * 64 + col) * 4,
                    forall|r: int, c: int, k: int|
                        0 <= r < 32 && 0 <= c < 64 && 0 <= k < 4 && (r < row || (r == row && c
                            < col)) ==> out@[(r * 64 + c) * 4 + k] == (#[trigger] self.cell(
                            r,
                            c,
                        )[k]),
                decreases WIDTH - col,
            {
                let pixel: [u8; 4] = self.virtual_canvas[row][col];
                out.push(pixel[0]);
                out.push(pixel[1]);
                out.push(pixel[2]);
                out.push(pixel[3]);
                col += 1;
            }
            row += 1;
        }
        out
    }

    /// Draws a sprite with XOR semantics and reports whether any lit pixel
    /// was turned off. The origin wraps around the screen; the sprite body
    /// is cut at the right and bottom edges.
    pub fn draw(&mut self, info: DrawInfo) -> (collision: bool)
        requires
            info.sprites@.len() >= visible_rows(info.coords.1, info.row_count),
        ensures
            forall|row: int, col: int|
                0 <= row < 32 && 0 <= col < 64 ==> #[trigger] final(self).cell(row, col)
                    == drawn_cell(
                    old(self).cell(row, col),
                    sprite_covers(info.coords, info.row_count, info.sprites@, row, col),
                ),
            collision == old(self).collides(info.coords, info.row_count, info.sprites@),
            old(self).wf() ==> final(self).wf(),
            final(self)@ == drawn_screen(old(self)@, info.coords, info.row_count, info.sprites@),
            collision == screen_collides(old(self)@, info.coords, info.row_count, info.sprites@),
    {
        let ghost before: Display = *self;
        let ghost coords = info.coords;
        let ghost count = info.row_count;
        let ghost sprites = info.sprites@;
        let x_coord: usize = (info.coords.0 % 64) as usize;
        let y_coord: usize = (info.coords.1 % 32) as usize;
        let rows: usize = if y_coord + info.row_count as usize >= HEIGHT {
            HEIGHT - y_coord
        } else {
            info.row_count as usize
        };
        let cols: usize = if x_coord + 8 >= WIDTH {
            WIDTH - x_coord
        } else {
            8
        };
        let mut flipped: bool = false;
        let mut r: usize = 0;
        while r < rows
            invariant
                r <= rows,
                x_coord == origin_x(coords.0),
                y_coord == origin_y(coords.1),
                rows == visible_rows(coords.1, count),
                cols == (if x_coord + 8 >= 64 {
                    64 - x_coord
                } else {
                    8
                }),
                coords == info.coords,
                count == info.row_count,
                sprites == info.sprites@,
                sprites.len() >= rows,
                forall|row: int, col: int|
                    0 <= row < 32 && 0 <= col < 64 ==> #[trigger] self.cell(row, col) == (if row
                        < y_coord + r {
                        drawn_cell(
                            before.cell(row, col),
                            sprite_covers(coords, count, sprites, row, col),
                        )
                    } else {
                        before.cell(row, col)
                    }),
                flipped == before.collides_before(coords, count, sprites, y_coord + r, 0),
            decreases rows - r,
        {
            let row_idx: usize = y_coord + r;
            let mut row: [[u8; 4]; 64] = self.virtual_canvas[row_idx];
            let sprite_pixel: u8 = info.sprites[r];
            let ghost mid: Display = *self;
            assert forall|col: int| 0 <= col < 64 implies #[trigger] row[col] == before.cell(
                row_idx as int,
                col,
            ) by {
                assert(row[col] == self.cell(row_idx as int, col));
            }
            let mut c: usize = 0;
            while c < cols
                invariant
                    c <= cols,
                    r < rows,
                    row_idx == y_coord + r,
                    row_idx < 32,
                    x_coord == origin_x(coords.0),
                    y_coord == origin_y(coords.1),
                    rows == visible_rows(coords.1, count),
                    cols == (if x_coord + 8 >= 64 {
                        64 - x_coord
                    } else {
                        8
                    }),
                    sprites.len() >= rows,
                    sprite_pixel == sprites[r as int],
                    forall|col: int|
                        0 <= col < 64 ==> #[trigger] row[col] == (if col < x_coord + c {
                            drawn_cell(
                                before.cell(row_idx as int, col),
                                sprite_covers(coords, count, sprites, row_idx as int, col),
                            )
                        } else {
                            before.cell(row_idx as int, col)
                        }),
                    flipped == before.collides_before(
                        coords,
                        count,
                        sprites,
                        row_idx as int,
                        x_coord + c,
                    ),
                decreases cols - c,
            {
                let column_idx: usize = x_coord + c;
                let pixel: [u8; 4] = row[column_idx];
                let bit_shift: u8 = 7 - (c as u8);
                let is_set: bool = (sprite_pixel >> bit_shift) & 1 == 1;
                assert(is_set == sprite_covers(
                    coords,
                    count,
                    sprites,
                    row_idx as int,
                    column_idx as int,
                ));
                assert(pixel == before.cell(row_idx as int, column_idx as int));
                if is_set {
                    if pixel[0] == 5 && pixel[1] == 110 && pixel[2] == 5 && pixel[3] == 0 {
                        row[column_idx] = PIXEL_OFF;
                        flipped = true;
                        assert(before.collides_at(
                            coords,
                            count,
                            sprites,
                            row_idx as int,
                            column_idx as int,
                        ));
                    } else {
                        row[column_idx] = PIXEL_ON;
                    }
                }
                c += 1;
            }
            self.virtual_canvas[row_idx] = row;
            assert forall|rr: int, col: int|
                0 <= rr < 32 && 0 <= col < 64 implies #[trigger] self.cell(rr, col) == (if rr
                < y_coord + r + 1 {
                drawn_cell(before.cell(rr, col), sprite_covers(coords, count, sprites, rr, col))
            } else {
                before.cell(rr, col)
            }) by {
                if rr == row_idx {
                    assert(self.cell(rr, col) == row[col]);
                } else {
                    assert(self.cell(rr, col) == mid.cell(rr, col));
                }
            }
            r += 1;
        }
        proof {
            assert forall|row: int, col: int| 0 <= row < 32 && 0 <= col < 64 implies self.lit(
                row,
                col,
            ) == (before.lit(row, col) != sprite_covers(coords, count, sprites, row, col)) by {
                assert(self.cell(row, col) == drawn_cell(
                    before.cell(row, col),
                    sprite_covers(coords, count, sprites, row, col),
                ));
            }
            assert(self@ =~~= drawn_screen(before@, coords, count, sprites));
            if screen_collides(before@, coords, count, sprites) {
                let (row, col) = choose|row: int, col: int|
                    0 <= row < 32 && 0 <= col < 64 && #[trigger] sprite_covers(
                        coords,
                        count,
                        sprites,
                        row,
                        col,
                    ) && before@[row][col];
                assert(before.collides_at(coords, count, sprites, row, col));
            }
        }
        flipped
    }
}

} // verus!
