use ratatui::buffer::{Buffer, Cell};
use ratatui::layout::Rect;
use ratatui::style::{Color, Modifier};
use resvg::tiny_skia::{Pixmap, PremultipliedColorU8, Transform};
use termface::face::{Face, ORI_SVG_HEIGHT, ORI_SVG_WIDTH};
use termface::layout::Area;
use termface::store::FacePixmapStore;
use termface::widget::face::{paint, FaceScreen, Pixel, UPPER_HALF_BLOCK};

const CLEAR: Pixel = Pixel { red: 0, green: 0, blue: 0, alpha: 0 };
const RED: Pixel = Pixel { red: 255, green: 0, blue: 0, alpha: 255 };
const BLUE: Pixel = Pixel { red: 0, green: 0, blue: 255, alpha: 255 };

fn pixmap_of(width: u32, height: u32, pixels: &[Pixel]) -> Pixmap {
    let mut pixmap = Pixmap::new(width, height).unwrap();
    assert_eq!(pixels.len(), pixmap.pixels().len());
    for (to, from) in pixmap.pixels_mut().iter_mut().zip(pixels) {
        *to = PremultipliedColorU8::from_rgba(from.red, from.green, from.blue, from.alpha).unwrap();
    }
    pixmap
}

fn marked(area: Rect) -> Buffer {
    let mut cell = Cell::new("x");
    cell.set_fg(Color::Green).set_bg(Color::Indexed(7));
    cell.modifier = Modifier::BOLD;
    Buffer::filled(area, cell)
}

#[test]
fn the_half_block_fills_the_upper_half() {
    assert_eq!(UPPER_HALF_BLOCK, '\u{2580}');
}

#[test]
fn two_by_two_pixels_make_two_cells() {
    let pixmap = pixmap_of(2, 2, &[RED, CLEAR, CLEAR, BLUE]);
    let (left, top) = (3u16, 1u16);
    let mut buf = Buffer::empty(Rect::new(0, 0, 8, 4));
    let untouched = buf.clone();

    FaceScreen::new(&pixmap).render_ref(Area::new(left, top, 2, 1), &mut buf);

    let first = &buf[(left, top)];
    assert_eq!(first.symbol(), "▀");
    assert_eq!(first.fg, Color::Rgb(255, 0, 0));
    assert_eq!(first.bg, Color::Reset);

    let second = &buf[(left + 1, top)];
    assert_eq!(second.symbol(), "▀");
    assert_eq!(second.fg, Color::Reset);
    assert_eq!(second.bg, Color::Rgb(0, 0, 255));

    for y in 0..4u16 {
        for x in 0..8u16 {
            if (x, y) != (left, top) && (x, y) != (left + 1, top) {
                assert_eq!(buf[(x, y)], untouched[(x, y)], "cell {x}, {y}");
            }
        }
    }
}

#[test]
fn two_transparent_pixels_leave_the_cell_alone() {
    let pixmap = pixmap_of(1, 2, &[CLEAR, CLEAR]);
    let mut buf = marked(Rect::new(0, 0, 1, 1));
    let before = buf.clone();
    FaceScreen::new(&pixmap).render_ref(Area::new(0, 0, 1, 1), &mut buf);
    assert_eq!(buf, before);
}

#[test]
fn a_transparent_pixel_above_sets_only_the_background() {
    let pixmap = pixmap_of(1, 2, &[CLEAR, BLUE]);
    let mut buf = marked(Rect::new(0, 0, 1, 1));
    FaceScreen::new(&pixmap).render_ref(Area::new(0, 0, 1, 1), &mut buf);
    let cell = &buf[(0, 0)];
    assert_eq!(cell.symbol(), "▀");
    assert_eq!(cell.fg, Color::Green);
    assert_eq!(cell.bg, Color::Rgb(0, 0, 255));
    assert_eq!(cell.modifier, Modifier::BOLD);
    assert!(!cell.skip);
}

#[test]
fn a_transparent_pixel_below_sets_only_the_foreground() {
    let pixmap = pixmap_of(1, 2, &[RED, CLEAR]);
    let mut buf = marked(Rect::new(0, 0, 1, 1));
    FaceScreen::new(&pixmap).render_ref(Area::new(0, 0, 1, 1), &mut buf);
    let cell = &buf[(0, 0)];
    assert_eq!(cell.symbol(), "▀");
    assert_eq!(cell.fg, Color::Rgb(255, 0, 0));
    assert_eq!(cell.bg, Color::Indexed(7));
    assert_eq!(cell.modifier, Modifier::BOLD);
}

#[test]
fn two_visible_pixels_set_both_colors() {
    let pixmap = pixmap_of(1, 2, &[RED, BLUE]);
    let mut buf = marked(Rect::new(0, 0, 1, 1));
    FaceScreen::new(&pixmap).render_ref(Area::new(0, 0, 1, 1), &mut buf);
    let cell = &buf[(0, 0)];
    assert_eq!(cell.symbol(), "▀");
    assert_eq!(cell.fg, Color::Rgb(255, 0, 0));
    assert_eq!(cell.bg, Color::Rgb(0, 0, 255));
}

#[test]
fn a_faint_pixel_counts_as_visible() {
    let faint = Pixel { red: 1, green: 0, blue: 1, alpha: 1 };
    let pixmap = pixmap_of(1, 2, &[faint, CLEAR]);
    let mut buf = Buffer::empty(Rect::new(0, 0, 1, 1));
    FaceScreen::new(&pixmap).render_ref(Area::new(0, 0, 1, 1), &mut buf);
    assert_eq!(buf[(0, 0)].fg, Color::Rgb(1, 0, 1));
    assert_eq!(buf[(0, 0)].bg, Color::Reset);
}

#[test]
fn paint_follows_the_same_rule_on_a_single_cell() {
    let mut cell = Cell::new("x");
    paint(&mut cell, CLEAR, CLEAR);
    assert_eq!(cell, Cell::new("x"));

    paint(&mut cell, RED, CLEAR);
    assert_eq!(cell.symbol(), "▀");
    assert_eq!(cell.fg, Color::Rgb(255, 0, 0));
    assert_eq!(cell.bg, Color::Reset);

    paint(&mut cell, CLEAR, BLUE);
    assert_eq!(cell.fg, Color::Rgb(255, 0, 0));
    assert_eq!(cell.bg, Color::Rgb(0, 0, 255));
}

#[test]
fn rows_pair_up_from_the_top() {
    let green = Pixel { red: 0, green: 255, blue: 0, alpha: 255 };
    let white = Pixel { red: 255, green: 255, blue: 255, alpha: 255 };
    // Four rows of one pixel: red over blue, then green over white.
    let pixmap = pixmap_of(1, 4, &[RED, BLUE, green, white]);
    let mut buf = Buffer::empty(Rect::new(0, 0, 1, 2));
    FaceScreen::new(&pixmap).render_ref(Area::new(0, 0, 1, 2), &mut buf);
    assert_eq!(buf[(0, 0)].fg, Color::Rgb(255, 0, 0));
    assert_eq!(buf[(0, 0)].bg, Color::Rgb(0, 0, 255));
    assert_eq!(buf[(0, 1)].fg, Color::Rgb(0, 255, 0));
    assert_eq!(buf[(0, 1)].bg, Color::Rgb(255, 255, 255));
}

#[test]
fn columns_keep_their_order() {
    let green = Pixel { red: 0, green: 255, blue: 0, alpha: 255 };
    let pixmap = pixmap_of(3, 2, &[RED, green, BLUE, BLUE, RED, green]);
    let mut buf = Buffer::empty(Rect::new(10, 20, 3, 1));
    FaceScreen::new(&pixmap).render_ref(Area::new(10, 20, 3, 1), &mut buf);
    assert_eq!(buf[(10, 20)].fg, Color::Rgb(255, 0, 0));
    assert_eq!(buf[(10, 20)].bg, Color::Rgb(0, 0, 255));
    assert_eq!(buf[(11, 20)].fg, Color::Rgb(0, 255, 0));
    assert_eq!(buf[(11, 20)].bg, Color::Rgb(255, 0, 0));
    assert_eq!(buf[(12, 20)].fg, Color::Rgb(0, 0, 255));
    assert_eq!(buf[(12, 20)].bg, Color::Rgb(0, 255, 0));
}

#[test]
fn pairs_outside_the_grid_are_dropped() {
    let pixmap = pixmap_of(2, 4, &[RED, BLUE, RED, BLUE, BLUE, RED, BLUE, RED]);
    let mut buf = Buffer::empty(Rect::new(0, 0, 2, 2));
    // Only the upper left pair lands on the grid, in its lower right cell.
    FaceScreen::new(&pixmap).render_ref(Area::new(1, 1, 2, 2), &mut buf);
    let untouched = Buffer::empty(Rect::new(0, 0, 2, 2));
    assert_eq!(buf[(0, 0)], untouched[(0, 0)]);
    assert_eq!(buf[(1, 0)], untouched[(1, 0)]);
    assert_eq!(buf[(0, 1)], untouched[(0, 1)]);
    assert_eq!(buf[(1, 1)].fg, Color::Rgb(255, 0, 0));
    assert_eq!(buf[(1, 1)].bg, Color::Rgb(255, 0, 0));
}

#[test]
fn an_area_off_the_grid_draws_nothing() {
    let pixmap = pixmap_of(2, 2, &[RED, BLUE, RED, BLUE]);
    let mut buf = marked(Rect::new(0, 0, 3, 3));
    let before = buf.clone();
    FaceScreen::new(&pixmap).render_ref(Area::new(50, 50, 2, 1), &mut buf);
    assert_eq!(buf, before);
}

#[test]
fn an_area_at_the_last_coordinates_draws_nothing_and_does_not_overflow() {
    let pixmap = pixmap_of(3, 4, &[RED; 12]);
    let mut buf = marked(Rect::new(0, 0, 3, 3));
    let before = buf.clone();
    FaceScreen::new(&pixmap).render_ref(Area::new(u16::MAX, u16::MAX, 3, 2), &mut buf);
    assert_eq!(buf, before);
}

#[test]
fn an_area_without_columns_draws_nothing() {
    let pixmap = pixmap_of(2, 2, &[RED, BLUE, RED, BLUE]);
    let mut buf = marked(Rect::new(0, 0, 3, 3));
    let before = buf.clone();
    FaceScreen::new(&pixmap).render_ref(Area::new(0, 0, 0, 5), &mut buf);
    assert_eq!(buf, before);
}

#[test]
fn a_row_without_its_partner_is_not_drawn() {
    let pixmap = pixmap_of(1, 3, &[RED, BLUE, RED]);
    let mut buf = Buffer::empty(Rect::new(0, 0, 1, 2));
    FaceScreen::new(&pixmap).render_ref(Area::new(0, 0, 1, 2), &mut buf);
    assert_eq!(buf[(0, 0)].fg, Color::Rgb(255, 0, 0));
    assert_eq!(buf[(0, 0)].bg, Color::Rgb(0, 0, 255));
    assert_eq!(buf[(0, 1)], Cell::EMPTY);
}

#[test]
fn rows_are_as_long_as_the_area_is_wide() {
    // Four pixels in one row, drawn into an area two cells wide: the area
    // decides where a row ends.
    let pixmap = pixmap_of(4, 1, &[RED, CLEAR, CLEAR, BLUE]);
    let mut buf = Buffer::empty(Rect::new(0, 0, 2, 1));
    FaceScreen::new(&pixmap).render_ref(Area::new(0, 0, 2, 1), &mut buf);
    assert_eq!(buf[(0, 0)].fg, Color::Rgb(255, 0, 0));
    assert_eq!(buf[(0, 0)].bg, Color::Reset);
    assert_eq!(buf[(1, 0)].fg, Color::Reset);
    assert_eq!(buf[(1, 0)].bg, Color::Rgb(0, 0, 255));
}

#[test]
fn render_draws_as_render_ref_does() {
    let pixmap = pixmap_of(2, 2, &[RED, CLEAR, CLEAR, BLUE]);
    let area = Area::new(0, 0, 2, 1);
    let mut by_ref = Buffer::empty(Rect::new(0, 0, 2, 1));
    let mut by_value = Buffer::empty(Rect::new(0, 0, 2, 1));
    FaceScreen::new(&pixmap).render_ref(area, &mut by_ref);
    FaceScreen::new(&pixmap).render(area, &mut by_value);
    assert_eq!(by_ref, by_value);
}

#[test]
fn drawing_twice_changes_nothing_more() {
    let pixmap = pixmap_of(2, 2, &[RED, CLEAR, CLEAR, BLUE]);
    let area = Area::new(0, 0, 2, 1);
    let mut buf = marked(Rect::new(0, 0, 2, 1));
    FaceScreen::new(&pixmap).render_ref(area, &mut buf);
    let once = buf.clone();
    FaceScreen::new(&pixmap).render_ref(area, &mut buf);
    assert_eq!(buf, once);
}

#[test]
fn a_cached_face_fills_its_viewport() {
    let mut store = FacePixmapStore::default();
    let area = Area::new(0, 0, 40, 20);
    let (width, height) = FacePixmapStore::target_size(area);
    let transform = Transform::from_scale(
        width as f32 / ORI_SVG_WIDTH as f32,
        height as f32 / ORI_SVG_HEIGHT as f32,
    );
    let entry = store.get(Face::Normal, area, transform).unwrap();
    let mut buf = Buffer::empty(Rect::new(0, 0, 40, 20));
    FaceScreen::new(&entry.pixmap).render_ref(area, &mut buf);

    let drawn = buf.content().iter().filter(|cell| cell.symbol() == "▀").count();
    assert!(drawn > 0);
    assert!(drawn < 40 * 20);
    for (index, cell) in buf.content().iter().enumerate() {
        let (x, y) = (index % 40, index / 40);
        let above = entry.pixmap.pixel(x as u32, 2 * y as u32).unwrap();
        let below = entry.pixmap.pixel(x as u32, 2 * y as u32 + 1).unwrap();
        let expected_fg = if above.alpha() == 0 {
            Color::Reset
        } else {
            Color::Rgb(above.red(), above.green(), above.blue())
        };
        let expected_bg = if below.alpha() == 0 {
            Color::Reset
        } else {
            Color::Rgb(below.red(), below.green(), below.blue())
        };
        assert_eq!(cell.fg, expected_fg, "cell {x}, {y}");
        assert_eq!(cell.bg, expected_bg, "cell {x}, {y}");
        let blank = above.alpha() == 0 && below.alpha() == 0;
        assert_eq!(cell.symbol(), if blank { " " } else { "▀" }, "cell {x}, {y}");
    }
}
