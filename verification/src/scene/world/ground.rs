use crate::animation::sprite::Cell;
use crate::color::Color;
use crate::scene::world::style::WorldSceneStyle;
use crate::scene::{PondBounds, POND_HEIGHT, POND_WIDTH};
use crate::season::Season;
use crate::theme::Palette;
use vstd::prelude::*;

verus! {

/// The grass and soil below the horizon.
pub struct Ground;

/// A fixed pseudo-random value in `0..100` for the ground cell (`x`, `y`),
/// so that flowers and pebbles stay in place from frame to frame.
pub open spec fn spec_pseudo_rand(x: usize, y: usize) -> u32 {
    (((x as u32) ^ 0x5DEECE6u32).wrapping_mul((y as u32) ^ 0xBu32)) % 100
}

pub fn pseudo_rand(x: usize, y: usize) -> (r: u32)
    ensures
        r == spec_pseudo_rand(x, y),
        r < 100,
{
    ((x as u32 ^ 0x5DEECE6u32).wrapping_mul(y as u32 ^ 0xBu32)) % 100
}

/// The character and colour of ground cell (`x`, `y`), `y` counted from the
/// horizon: the top row is grass with flowers (the style's flower chance,
/// in percent, so none in winter) and tufts, the rows below are soil with
/// furrows and pebbles.
pub open spec fn spec_ground_cell(x: usize, y: usize, style: WorldSceneStyle) -> (char, Color) {
    let r = spec_pseudo_rand(x, y);
    if y == 0 {
        if r < style.flower_chance {
            ('*', style.flower_colors[((x + y) % 4) as int])
        } else if r < 15 {
            (',', style.grass_secondary)
        } else {
            ('^', style.grass_primary)
        }
    } else {
        (if r < 20 { '~' } else if r < 25 { '.' } else { ' ' }, style.soil)
    }
}

pub fn ground_cell(x: usize, y: usize, style: &WorldSceneStyle) -> (c: (char, Color))
    requires
        x <= u16::MAX,
        y <= u16::MAX,
    ensures
        c == spec_ground_cell(x, y, *style),
{
    let r = pseudo_rand(x, y);
    if y == 0 {
        if r < style.flower_chance {
            ('*', style.flower_colors[(x + y) % 4])
        } else if r < 15 {
            (',', style.grass_secondary)
        } else {
            ('^', style.grass_primary)
        }
    } else {
        let ch = if r < 20 {
            '~'
        } else if r < 25 {
            '.'
        } else {
            ' '
        };
        (ch, style.soil)
    }
}

/// The first `n` cells of ground row `y`, drawn at screen row `y_start + y`.
pub open spec fn ground_row(y: int, n: int, y_start: int, style: WorldSceneStyle) -> Seq<Cell>
    decreases n,
{
    if n <= 0 {
        Seq::empty()
    } else {
        let (ch, color) = spec_ground_cell((n - 1) as usize, y as usize, style);
        ground_row(y, n - 1, y_start, style).push(
            Cell { x: (n - 1) as u16, y: (y_start + y) as u16, ch, color },
        )
    }
}

/// The first `rows` rows of a ground `width` cells wide.
pub open spec fn ground_rows(rows: int, width: int, y_start: int, style: WorldSceneStyle) -> Seq<Cell>
    decreases rows,
{
    if rows <= 0 {
        Seq::empty()
    } else {
        ground_rows(rows - 1, width, y_start, style) + ground_row(rows - 1, width, y_start, style)
    }
}

impl Ground {
    /// Every cell of the `width` x `height` ground whose top row is screen
    /// row `y_start`, row by row.
    pub fn cells(&self, width: u16, height: u16, y_start: u16, style: &WorldSceneStyle) -> (cells: Vec<Cell>)
        requires
            y_start + height <= u16::MAX + 1,
        ensures
            cells@ == ground_rows(height as int, width as int, y_start as int, *style),
    {
        let mut cells: Vec<Cell> = Vec::new();
        let mut y: u16 = 0;
        while y < height
            invariant
                y <= height,
                y_start + height <= u16::MAX + 1,
                cells@ == ground_rows(y as int, width as int, y_start as int, *style),
            decreases height - y,
        {
            let ghost before = cells@;
            let mut x: u16 = 0;
            while x < width
                invariant
                    x <= width,
                    y < height,
                    y_start + height <= u16::MAX + 1,
                    cells@ == before + ground_row(y as int, x as int, y_start as int, *style),
                decreases width - x,
            {
                let (ch, color) = ground_cell(x as usize, y as usize, style);
                cells.push(Cell { x, y: y_start + y, ch, color });
                x = x + 1;
            }
            y = y + 1;
        }
        cells
    }

    /// The cells of the pond art at `pond`, if there is a pond: ripples in
    /// the water colour, the rim in the edge colour, blanks left out.
    pub fn pond_cells(&self, pond: Option<PondBounds>, style: &WorldSceneStyle) -> (cells: Vec<Cell>)
        ensures
            pond is None ==> cells@.len() == 0,
            pond matches Some(p) ==> cells@ == pond_art_cells(3, p, *style),
    {
        let pond = match pond {
            Some(p) => p,
            None => return Vec::new(),
        };
        let art = pond_art();
        let mut cells: Vec<Cell> = Vec::new();
        let mut row: usize = 0;
        while row < 3
            invariant
                row <= 3,
                forall|r: int| 0 <= r < 3 ==> #[trigger] art@[r]@ == spec_pond_art()[r],
                forall|r: int| 0 <= r < 3 ==> #[trigger] art@[r]@.len() == POND_WIDTH,
                cells@ == pond_art_cells(row as int, pond, *style),
            decreases 3 - row,
        {
            let line: &str = art[row];
            let n = line.unicode_len();
            let ghost before = cells@;
            assert(line@ == spec_pond_art()[row as int]);
            assert(line@.len() == POND_WIDTH);
            let mut column: usize = 0;
            while column < n
                invariant
                    column <= n,
                    n == line@.len(),
                    n == 13,
                    row < 3,
                    line@ == spec_pond_art()[row as int],
                    cells@ == before + pond_row_cells(line@, row as int, column as int, pond, *style),
                decreases n - column,
            {
                let character = line.get_char(column);
                if character != ' ' {
                    let color = if character == '~' { style.water } else { style.water_edge };
                    cells.push(Cell {
                        x: pond.x.saturating_add(column as u16),
                        y: pond.y.saturating_add(row as u16),
                        ch: character,
                        color,
                    });
                }
                column = column + 1;
            }
            row = row + 1;
        }
        cells
    }
}

/// The three rows of the pond, thirteen cells each.
pub open spec fn spec_pond_art() -> Seq<Seq<char>> {
    seq!["   .~~~~~.   "@, "  ( ~~~~~ )  "@, "   `-----'   "@]
}

/// The pond art, POND_HEIGHT rows of POND_WIDTH cells.
pub fn pond_art() -> (art: [&'static str; 3])
    ensures
        forall|r: int| 0 <= r < 3 ==> #[trigger] art@[r]@ == spec_pond_art()[r],
        forall|r: int| 0 <= r < 3 ==> #[trigger] art@[r]@.len() == POND_WIDTH,
        POND_HEIGHT == 3,
{
    proof {
        reveal_strlit("   .~~~~~.   ");
        reveal_strlit("  ( ~~~~~ )  ");
        reveal_strlit("   `-----'   ");
    }
    ["   .~~~~~.   ", "  ( ~~~~~ )  ", "   `-----'   "]
}

/// The non-blank cells among the first `n` columns of pond row `row`.
pub open spec fn pond_row_cells(line: Seq<char>, row: int, n: int, pond: PondBounds, style: WorldSceneStyle) -> Seq<Cell>
    decreases n,
{
    if n <= 0 {
        Seq::empty()
    } else {
        let prev = pond_row_cells(line, row, n - 1, pond, style);
        let c = line[n - 1];
        if c == ' ' {
            prev
        } else {
            prev.push(Cell {
                x: (if pond.x + (n - 1) > u16::MAX { u16::MAX as int } else { pond.x + (n - 1) }) as u16,
                y: (if pond.y + row > u16::MAX { u16::MAX as int } else { pond.y + row }) as u16,
                ch: c,
                color: if c == '~' { style.water } else { style.water_edge },
            })
        }
    }
}

/// The non-blank cells of the first `rows` rows of the pond art.
pub open spec fn pond_art_cells(rows: int, pond: PondBounds, style: WorldSceneStyle) -> Seq<Cell>
    decreases rows,
{
    if rows <= 0 {
        Seq::empty()
    } else {
        let line = spec_pond_art()[rows - 1];
        pond_art_cells(rows - 1, pond, style) + pond_row_cells(line, rows - 1, line.len() as int, pond, style)
    }
}

/// Flowers follow the season: a winter lawn has none, and every cell that
/// flowers in autumn also flowers in summer, and every summer flower is also
/// a spring flower, by day and by night.
pub proof fn lemma_flowers_follow_seasons(palette: Palette, is_day: bool, x: usize)
    ensures
        ({
            let flower = |season: Season|
                spec_ground_cell(x, 0, WorldSceneStyle::spec_resolve(palette, season, is_day)).0 == '*';
            &&& !flower(Season::Winter)
            &&& flower(Season::Autumn) ==> flower(Season::Summer)
            &&& flower(Season::Summer) ==> flower(Season::Spring)
        }),
{
}

/// A lawn shows its whole flower palette: wherever flowers grow at all
/// more often than three cells in a hundred, each of the style's four
/// flower colours blooms somewhere in the first 96 columns of the grass row,
/// and a flower is always one of them, by its column.
pub proof fn lemma_lawn_shows_every_flower_colour(style: WorldSceneStyle)
    ensures
        style.flower_chance > 3 ==> {
            &&& exists|x: usize| x < 96 && #[trigger] spec_ground_cell(x, 0, style) == ('*', style.flower_colors[0])
            &&& exists|x: usize| x < 96 && #[trigger] spec_ground_cell(x, 0, style) == ('*', style.flower_colors[1])
            &&& exists|x: usize| x < 96 && #[trigger] spec_ground_cell(x, 0, style) == ('*', style.flower_colors[2])
            &&& exists|x: usize| x < 96 && #[trigger] spec_ground_cell(x, 0, style) == ('*', style.flower_colors[3])
        },
        forall|x: usize, y: usize| (#[trigger] spec_ground_cell(x, y, style)).0 == '*' ==> y == 0
            && spec_ground_cell(x, y, style).1 == style.flower_colors[(x % 4) as int],
{
    assert((0u32 ^ 0xBu32) == 11u32) by (bit_vector);
    assert((36u32 ^ 0x5DEECE6u32) == 0x5DEECC2u32) by (bit_vector);
    assert((45u32 ^ 0x5DEECE6u32) == 0x5DEECCBu32) by (bit_vector);
    assert((50u32 ^ 0x5DEECE6u32) == 0x5DEECD4u32) by (bit_vector);
    assert((95u32 ^ 0x5DEECE6u32) == 0x5DEECB9u32) by (bit_vector);
    assert(spec_pseudo_rand(36, 0) == 2);
    assert(spec_pseudo_rand(45, 0) == 1);
    assert(spec_pseudo_rand(50, 0) == 0);
    assert(spec_pseudo_rand(95, 0) == 3);
    if style.flower_chance > 3 {
        assert(spec_ground_cell(36, 0, style) == ('*', style.flower_colors[0]));
        assert(spec_ground_cell(45, 0, style) == ('*', style.flower_colors[1]));
        assert(spec_ground_cell(50, 0, style) == ('*', style.flower_colors[2]));
        assert(spec_ground_cell(95, 0, style) == ('*', style.flower_colors[3]));
    }
}

} // verus!
