//! Drawing a rasterized face with half blocks.
//!
//! A text cell is taller than it is wide. The glyph `▀` fills the upper half
//! of a cell with the foreground color and leaves the lower half to the
//! background color, so one cell shows two pixels, one above the other.

use crate::grid::{cell_index, cell_look, cell_mut, grid_area, grid_cells, set_bg, set_char, set_fg};
use crate::grid::{CellLook, Tint};
use crate::layout::Area;
use crate::raster::pixmap_bytes;
use ratatui::buffer::{Buffer, Cell};
use resvg::tiny_skia::Pixmap;
use vstd::prelude::*;

verus! {

/// The glyph that fills the upper half of a cell.
pub const UPPER_HALF_BLOCK: char = '▀';

/// One pixel: its color and its opacity.
#[derive(Copy, Clone, Debug, PartialEq, Eq, Structural)]
pub struct Pixel {
    pub red: u8,
    pub green: u8,
    pub blue: u8,
    pub alpha: u8,
}

/// The `index`-th pixel of a buffer that holds four bytes for each pixel.
pub open spec fn pixel_at(bytes: Seq<u8>, index: int) -> Pixel {
    Pixel {
        red: bytes[4 * index],
        green: bytes[4 * index + 1],
        blue: bytes[4 * index + 2],
        alpha: bytes[4 * index + 3],
    }
}

/// How many pairs of complete rows a buffer holds when a row is `width`
/// pixels long.
pub open spec fn row_pairs(bytes: Seq<u8>, width: int) -> int {
    if width <= 0 {
        0
    } else {
        bytes.len() as int / 4 / width / 2
    }
}

/// What a cell shows once the pixel `top` is drawn in its upper half and
/// the pixel `bottom` in its lower half. Two transparent pixels leave the
/// cell as it is. Otherwise the cell gets the half block, the foreground
/// takes the color of `top` and the background that of `bottom`, each only
/// if its pixel is not transparent.
pub open spec fn blend(cell: CellLook, top: Pixel, bottom: Pixel) -> CellLook {
    if top.alpha == 0 && bottom.alpha == 0 {
        cell
    } else {
        CellLook {
            symbol: seq![UPPER_HALF_BLOCK],
            fg: if top.alpha != 0 {
                Tint::Rgb(top.red, top.green, top.blue)
            } else {
                cell.fg
            },
            bg: if bottom.alpha != 0 {
                Tint::Rgb(bottom.red, bottom.green, bottom.blue)
            } else {
                cell.bg
            },
            ..cell
        }
    }
}

/// Draws one pair of stacked pixels into a cell.
pub fn paint(cell: &mut Cell, top: Pixel, bottom: Pixel)
    ensures
        cell_look(*final(cell)) == blend(cell_look(*old(cell)), top, bottom),
{
    if top.alpha == 0 && bottom.alpha == 0 {
        return ;
    }
    set_char(cell, UPPER_HALF_BLOCK);
    if top.alpha != 0 {
        set_fg(cell, top.red, top.green, top.blue);
    }
    if bottom.alpha != 0 {
        set_bg(cell, bottom.red, bottom.green, bottom.blue);
    }
}

/// Two transparent pixels change nothing in a cell. A transparent pixel
/// above a visible one sets the background and keeps the foreground; a
/// visible pixel above a transparent one sets the foreground and keeps the
/// background.
pub proof fn lemma_transparency(cell: CellLook, top: Pixel, bottom: Pixel)
    ensures
        top.alpha == 0 && bottom.alpha == 0 ==> blend(cell, top, bottom) == cell,
        top.alpha == 0 && bottom.alpha > 0 ==> {
            &&& blend(cell, top, bottom).fg == cell.fg
            &&& blend(cell, top, bottom).bg == Tint::Rgb(bottom.red, bottom.green, bottom.blue)
        },
        top.alpha > 0 && bottom.alpha == 0 ==> {
            &&& blend(cell, top, bottom).fg == Tint::Rgb(top.red, top.green, top.blue)
            &&& blend(cell, top, bottom).bg == cell.bg
        },
{
}

/// What the cell in column `x` and row `y` shows once `bytes` are drawn into
/// `area`, rows being as long as `area` is wide. Pixel rows `2r` and `2r + 1`
/// land on row `r` of `area`, column for column; a cell that no pair lands
/// on stays as it is.
pub open spec fn drawn_cell(bytes: Seq<u8>, area: Area, x: int, y: int, cell: CellLook) -> CellLook {
    let column = x - area.x;
    let row = y - area.y;
    if 0 <= column < area.width && 0 <= row < row_pairs(bytes, area.width as int) {
        blend(
            cell,
            pixel_at(bytes, 2 * row * area.width + column),
            pixel_at(bytes, (2 * row + 1) * area.width + column),
        )
    } else {
        cell
    }
}

/// The column of the cell that a grid covering `within` stores at `index`.
pub open spec fn column_of(within: Area, index: int) -> int {
    within.x + index % (within.width as int)
}

/// The row of the cell that a grid covering `within` stores at `index`.
pub open spec fn row_of(within: Area, index: int) -> int {
    within.y + index / (within.width as int)
}

/// What the cells of a grid that covers `within` show once `bytes` are drawn
/// into `area`: every cell that the grid has a position for is drawn at
/// that position.
pub open spec fn drawn(bytes: Seq<u8>, area: Area, within: Area, cells: Seq<CellLook>) -> Seq<
    CellLook,
> {
    Seq::new(
        cells.len(),
        |index: int|
            {
                let x = column_of(within, index);
                let y = row_of(within, index);
                if cell_index(within, cells.len(), x, y) == Some(index) {
                    drawn_cell(bytes, area, x, y, cells[index])
                } else {
                    cells[index]
                }
            },
    )
}

/// As `drawn_cell`, with only the pairs drawn that come before column
/// `column_limit` of row `row_limit`.
spec fn cell_before(
    bytes: Seq<u8>,
    area: Area,
    x: int,
    y: int,
    cell: CellLook,
    row_limit: int,
    column_limit: int,
) -> CellLook {
    let column = x - area.x;
    let row = y - area.y;
    if row < row_limit || (row == row_limit && column < column_limit) {
        drawn_cell(bytes, area, x, y, cell)
    } else {
        cell
    }
}

/// As `drawn`, with only the pairs drawn that come before column
/// `column_limit` of row `row_limit`.
spec fn drawn_before(
    bytes: Seq<u8>,
    area: Area,
    within: Area,
    cells: Seq<CellLook>,
    row_limit: int,
    column_limit: int,
) -> Seq<CellLook> {
    Seq::new(
        cells.len(),
        |index: int|
            {
                let x = column_of(within, index);
                let y = row_of(within, index);
                if cell_index(within, cells.len(), x, y) == Some(index) {
                    cell_before(bytes, area, x, y, cells[index], row_limit, column_limit)
                } else {
                    cells[index]
                }
            },
    )
}

/// The index of a cell determines its position.
proof fn lemma_position_of_index(within: Area, len: nat, x: int, y: int)
    requires
        cell_index(within, len, x, y) is Some,
    ensures
        column_of(within, cell_index(within, len, x, y)->0) == x,
        row_of(within, cell_index(within, len, x, y)->0) == y,
{
    let index = cell_index(within, len, x, y)->0;
    vstd::arithmetic::div_mod::lemma_fundamental_div_mod_converse(
        index,
        within.width as int,
        y - within.y,
        x - within.x,
    );
}

/// Drawing one more pair changes the one cell it lands on, if the grid has
/// that cell.
proof fn lemma_draw_pair(
    bytes: Seq<u8>,
    area: Area,
    within: Area,
    cells: Seq<CellLook>,
    row: int,
    column: int,
    after: Seq<CellLook>,
)
    requires
        0 <= row < row_pairs(bytes, area.width as int),
        0 <= column < area.width,
        after == ({
            let now = drawn_before(bytes, area, within, cells, row, column);
            match cell_index(within, cells.len(), area.x + column, area.y + row) {
                Some(index) => now.update(
                    index,
                    blend(
                        now[index],
                        pixel_at(bytes, 2 * row * area.width + column),
                        pixel_at(bytes, (2 * row + 1) * area.width + column),
                    ),
                ),
                None => now,
            }
        }),
    ensures
        after == drawn_before(bytes, area, within, cells, row, column + 1),
{
    let now = drawn_before(bytes, area, within, cells, row, column);
    let next = drawn_before(bytes, area, within, cells, row, column + 1);
    let x = area.x + column;
    let y = area.y + row;
    let target = cell_index(within, cells.len(), x, y);
    if target is Some {
        lemma_position_of_index(within, cells.len(), x, y);
    }
    assert forall|index: int| 0 <= index < cells.len() implies after[index] == next[index] by {
        let cx = column_of(within, index);
        let cy = row_of(within, index);
        if cell_index(within, cells.len(), cx, cy) == Some(index) {
            if target == Some(index) {
                assert(cx == x && cy == y);
            } else {
                assert(!(cx == x && cy == y));
            }
        }
    }
    assert(after =~= next);
}

/// A row is done once the columns that a coordinate can name are done.
proof fn lemma_row_done(
    bytes: Seq<u8>,
    area: Area,
    within: Area,
    cells: Seq<CellLook>,
    row: int,
    columns: int,
)
    requires
        columns == area.width || columns == 0x1_0000 - area.x,
        columns <= area.width,
    ensures
        drawn_before(bytes, area, within, cells, row, columns) == drawn_before(
            bytes,
            area,
            within,
            cells,
            row + 1,
            0,
        ),
{
    assert(drawn_before(bytes, area, within, cells, row, columns) =~= drawn_before(
        bytes,
        area,
        within,
        cells,
        row + 1,
        0,
    ));
}

/// The drawing is done once the rows that a coordinate can name are done.
proof fn lemma_rows_done(bytes: Seq<u8>, area: Area, within: Area, cells: Seq<CellLook>, rows: int)
    requires
        rows == row_pairs(bytes, area.width as int) || rows == 0x1_0000 - area.y,
        rows <= row_pairs(bytes, area.width as int),
    ensures
        drawn_before(bytes, area, within, cells, rows, 0) == drawn(bytes, area, within, cells),
{
    assert(drawn_before(bytes, area, within, cells, rows, 0) =~= drawn(bytes, area, within, cells));
}

/// A rasterized face, ready to be drawn on a text grid.
pub struct FaceScreen<'a> {
    pixmap: &'a Pixmap,
}

impl<'a> FaceScreen<'a> {
    /// The bytes of the pixels that this screen draws.
    pub closed spec fn pixels(&self) -> Seq<u8> {
        pixmap_bytes(*self.pixmap)
    }

    /// A screen that draws the pixels of `pixmap`.
    pub fn new(pixmap: &'a Pixmap) -> (screen: Self)
        ensures
            screen.pixels() == pixmap_bytes(*pixmap),
    {
        Self { pixmap }
    }

    /// Draws the pixels into `area` of the grid `buf`, two rows of pixels on
    /// each row of cells. The pixel rows are taken to be as long as `area`
    /// is wide. Pairs that land outside the grid are dropped.
    pub fn render_ref(&self, area: Area, buf: &mut Buffer)
        ensures
            grid_area(*final(buf)) == grid_area(*old(buf)),
            grid_cells(*final(buf)) == drawn(
                self.pixels(),
                area,
                grid_area(*old(buf)),
                grid_cells(*old(buf)),
            ),
    {
        let bytes = self.pixmap.data();
        let left = area.left() as usize;
        let top = area.top() as usize;
        let width = area.width as usize;
        let ghost within = grid_area(*buf);
        let ghost cells = grid_cells(*buf);

        if width == 0 {
            proof {
                lemma_rows_done(bytes@, area, within, cells, 0);
                assert(drawn_before(bytes@, area, within, cells, 0, 0) =~= cells);
            }
            return ;
        }
        let lines = bytes.len() / 4 / width;
        let pairs = lines / 2;
        let rows = if pairs < 0x1_0000 - top {
            pairs
        } else {
            0x1_0000 - top
        };
        let columns = if width < 0x1_0000 - left {
            width
        } else {
            0x1_0000 - left
        };
        assert(lines * width <= bytes.len() / 4) by (nonlinear_arith)
            requires
                lines == bytes.len() / 4 / width,
                width > 0,
        ;
        assert(drawn_before(bytes@, area, within, cells, 0, 0) =~= cells);

        let mut row: usize = 0;
        while row < rows
            invariant
                row <= rows <= pairs,
                rows + top <= 0x1_0000,
                columns + left <= 0x1_0000,
                columns <= width,
                columns == width || columns == 0x1_0000 - left,
                left == area.x,
                top == area.y,
                0 < width == area.width,
                bytes@ == self.pixels(),
                pairs == lines / 2,
                pairs == row_pairs(bytes@, area.width as int),
                lines * width <= bytes.len() / 4,
                grid_area(*buf) == within,
                grid_cells(*buf) == drawn_before(bytes@, area, within, cells, row as int, 0),
            decreases rows - row,
        {
            assert(2 * row * width <= (2 * row + 2) * width <= lines * width) by (nonlinear_arith)
                requires
                    2 * row + 2 <= lines,
                    width > 0,
            ;
            let upper_row = 2 * row * width;
            let lower_row = upper_row + width;
            assert(lower_row == (2 * row + 1) * width) by (nonlinear_arith)
                requires
                    lower_row == 2 * row * width + width,
            ;
            assert(lower_row + width == (2 * row + 2) * width) by (nonlinear_arith)
                requires
                    lower_row == 2 * row * width + width,
            ;
            let y = (top + row) as u16;
            let mut column: usize = 0;
            while column < columns
                invariant
                    column <= columns <= width,
                    row < rows <= pairs,
                    columns + left <= 0x1_0000,
                    left == area.x,
                    top == area.y,
                    y == top + row,
                    0 < width == area.width,
                    pairs == row_pairs(bytes@, area.width as int),
                    upper_row == 2 * row * width,
                    lower_row == upper_row + width,
                    lower_row == (2 * row + 1) * width,
                    lower_row + width <= bytes.len() / 4,
                    grid_area(*buf) == within,
                    grid_cells(*buf) == drawn_before(
                        bytes@,
                        area,
                        within,
                        cells,
                        row as int,
                        column as int,
                    ),
                decreases columns - column,
            {
                let upper = upper_row + column;
                let lower = lower_row + column;
                let above = Pixel {
                    red: bytes[4 * upper],
                    green: bytes[4 * upper + 1],
                    blue: bytes[4 * upper + 2],
                    alpha: bytes[4 * upper + 3],
                };
                let below = Pixel {
                    red: bytes[4 * lower],
                    green: bytes[4 * lower + 1],
                    blue: bytes[4 * lower + 2],
                    alpha: bytes[4 * lower + 3],
                };
                assert(above == pixel_at(bytes@, 2 * row * area.width + column));
                assert(below == pixel_at(bytes@, (2 * row + 1) * area.width + column));
                let x = (left + column) as u16;
                let ghost now = grid_cells(*buf);
                if above.alpha != 0 || below.alpha != 0 {
                    match cell_mut(buf, x, y) {
                        Some(cell) => {
                            paint(cell, above, below);
                        },
                        None => {},
                    }
                } else {
                    proof {
                        let target = cell_index(within, cells.len(), x as int, y as int);
                        if target is Some {
                            assert(now.update(target->0, blend(now[target->0], above, below))
                                =~= now);
                        }
                    }
                }
                proof {
                    lemma_draw_pair(
                        bytes@,
                        area,
                        within,
                        cells,
                        row as int,
                        column as int,
                        grid_cells(*buf),
                    );
                }
                column += 1;
            }
            proof {
                lemma_row_done(bytes@, area, within, cells, row as int, columns as int);
            }
            row += 1;
        }
        proof {
            lemma_rows_done(bytes@, area, within, cells, rows as int);
        }
    }

    /// Draws the pixels as `render_ref` does and gives the screen up.
    pub fn render(self, area: Area, buf: &mut Buffer)
        ensures
            grid_area(*final(buf)) == grid_area(*old(buf)),
            grid_cells(*final(buf)) == drawn(
                self.pixels(),
                area,
                grid_area(*old(buf)),
                grid_cells(*old(buf)),
            ),
    {
        self.render_ref(area, buf);
    }
}


} // verus!
