//! The text grid that faces are drawn on.
//!
//! The grid is `ratatui`'s [`Buffer`]. Nothing in this module is proved: it
//! states, cell by cell, what the few grid operations that drawing needs do,
//! over a plain model of what a cell shows.

use crate::layout::Area;
use ratatui::buffer::{Buffer, Cell};
use ratatui::style::Color;
use vstd::prelude::*;

verus! {

/// `ratatui::buffer::Buffer`: a rectangle of cells, stored row by row.
#[verifier::external_type_specification]
#[verifier::external_body]
pub struct ExBuffer(Buffer);

/// `ratatui::buffer::Cell`: one character cell with its symbol and style.
#[verifier::external_type_specification]
#[verifier::external_body]
pub struct ExCell(Cell);

/// A color as a cell holds it, variant for variant `ratatui::style::Color`.
pub enum Tint {
    Reset,
    Black,
    Red,
    Green,
    Yellow,
    Blue,
    Magenta,
    Cyan,
    Gray,
    DarkGray,
    LightRed,
    LightGreen,
    LightYellow,
    LightBlue,
    LightMagenta,
    LightCyan,
    White,
    Rgb(u8, u8, u8),
    Indexed(u8),
}

/// Everything a cell holds: the characters of its symbol, its foreground,
/// background and underline colors, the bits of its modifier, and whether
/// it is skipped when the grid is flushed.
pub struct CellLook {
    pub symbol: Seq<char>,
    pub fg: Tint,
    pub bg: Tint,
    pub underline: Tint,
    pub modifier: u16,
    pub skip: bool,
}

/// What `cell` holds.
pub uninterp spec fn cell_look(cell: Cell) -> CellLook;

/// What the cells of `grid` hold, in the order in which the grid stores them.
pub uninterp spec fn grid_cells(grid: Buffer) -> Seq<CellLook>;

/// The rectangle that `grid` covers.
pub uninterp spec fn grid_area(grid: Buffer) -> Area;

/// Where a grid that covers `area` and stores `len` cells keeps the cell in
/// column `x` and row `y`: cells are stored row by row, and a position
/// outside `area`, or one whose cell was never stored, has none.
pub open spec fn cell_index(area: Area, len: nat, x: int, y: int) -> Option<int> {
    let index = (y - area.y) * area.width + (x - area.x);
    if area.contains(x, y) && index < len {
        Some(index)
    } else {
        None
    }
}

/// `Buffer::cell_mut`: hands out the cell at a position, or nothing where
/// the grid has no cell there. The grid's rectangle stays as it is, and what
/// the caller leaves in the cell is what the grid holds at that index
/// afterwards; no other cell changes.
#[verifier::external_body]
pub(crate) fn cell_mut(grid: &mut Buffer, x: u16, y: u16) -> (cell: Option<&mut Cell>)
    ensures
        grid_area(*final(grid)) == grid_area(*old(grid)),
        match cell_index(grid_area(*old(grid)), grid_cells(*old(grid)).len(), x as int, y as int) {
            Some(index) => {
                &&& cell.is_some()
                &&& cell_look(*cell.unwrap()) == grid_cells(*old(grid))[index]
                &&& grid_cells(*final(grid)) == grid_cells(*old(grid)).update(
                    index,
                    cell_look(*final(cell.unwrap())),
                )
            },
            None => cell.is_none() && grid_cells(*final(grid)) == grid_cells(*old(grid)),
        },
{
    grid.cell_mut((x, y))
}

/// `Cell::set_char`: the symbol becomes the one character, the style stays.
#[verifier::external_body]
pub(crate) fn set_char(cell: &mut Cell, ch: char)
    ensures
        cell_look(*final(cell)) == (CellLook { symbol: seq![ch], ..cell_look(*old(cell)) }),
{
    cell.set_char(ch);
}

/// `Cell::set_fg` with `Color::Rgb`: the foreground becomes that color and
/// nothing else changes.
#[verifier::external_body]
pub(crate) fn set_fg(cell: &mut Cell, red: u8, green: u8, blue: u8)
    ensures
        cell_look(*final(cell)) == (CellLook {
            fg: Tint::Rgb(red, green, blue),
            ..cell_look(*old(cell))
        }),
{
    cell.set_fg(Color::Rgb(red, green, blue));
}

/// `Cell::set_bg` with `Color::Rgb`: the background becomes that color and
/// nothing else changes.
#[verifier::external_body]
pub(crate) fn set_bg(cell: &mut Cell, red: u8, green: u8, blue: u8)
    ensures
        cell_look(*final(cell)) == (CellLook {
            bg: Tint::Rgb(red, green, blue),
            ..cell_look(*old(cell))
        }),
{
    cell.set_bg(Color::Rgb(red, green, blue));
}

} // verus!
