use crate::animation::cat::sat_sub16;
use crate::animation::sprite::{spec_mirror_char, spec_sprite_color, mirror_char, sprite_color, Cell, SpriteKind};
use crate::weather::WeatherConditions;
use vstd::prelude::*;

verus! {

/// Frames between two walking poses.
pub const FRAME_STEP: u8 = 4;

pub const SPRITE_WIDTH: u16 = 5;

pub const SPRITE_HEIGHT: u16 = 3;

/// The walking frames of the right-facing chicken, each row five cells wide.
pub fn chicken_frames() -> (f: [[&'static str; 3]; 4])
    ensures
        f@[0]@[0]@ == "  __ "@,
        f@[0]@[1]@ == " (o)>"@,
        f@[0]@[2]@ == " / \\ "@,
        f@[1]@[0]@ == " ___ "@,
        f@[1]@[1]@ == "(o )>"@,
        f@[1]@[2]@ == " /\\  "@,
        f@[2]@[0]@ == "  __ "@,
        f@[2]@[1]@ == " (o)>"@,
        f@[2]@[2]@ == " _/  "@,
        f@[3]@[0]@ == " _v_ "@,
        f@[3]@[1]@ == " (o)>"@,
        f@[3]@[2]@ == " / \\ "@,
        forall|k: int, r: int| 0 <= k < 4 && 0 <= r < 3 ==> #[trigger] f@[k]@[r]@.len() == 5,
{
    proof {
        reveal_strlit("  __ ");
        reveal_strlit(" (o)>");
        reveal_strlit(" / \\ ");
        reveal_strlit(" /\\  ");
        reveal_strlit(" _/  ");
        reveal_strlit(" ___ ");
        reveal_strlit(" _v_ ");
        reveal_strlit("(o )>");
    }
    [
        ["  __ ", " (o)>", " / \\ "],
        [" ___ ", "(o )>", " /\\  "],
        ["  __ ", " (o)>", " _/  "],
        [" _v_ ", " (o)>", " / \\ "],
    ]
}


/// The rightmost column a chicken walks to on a `width`-column terminal.
pub open spec fn spec_max_x(width: u16) -> u16 {
    if width >= SPRITE_WIDTH + 1 { (width - (SPRITE_WIDTH + 1)) as u16 } else { 0 }
}

pub fn max_x(width: u16) -> (m: u16)
    ensures
        m == spec_max_x(width),
{
    width.saturating_sub(SPRITE_WIDTH + 1)
}

/// Where the second chicken starts: eight columns right of the middle of its
/// walk, but inside the walk and never left of column one.
pub open spec fn spec_second_start_x(width: u16) -> u16 {
    let m = spec_max_x(width);
    let mid = m / 2;
    let right = if mid + 8 > u16::MAX { u16::MAX as int } else { mid + 8 };
    let capped = if right < m { right } else { m as int };
    (if capped > 1 { capped } else { 1 }) as u16
}

pub fn second_start_x(terminal_width: u16) -> (x: u16)
    ensures
        x == spec_second_start_x(terminal_width),
        1 <= x,
        x <= spec_max_x(terminal_width) || x == 1,
{
    let max_x = max_x(terminal_width);
    let midpoint = max_x / 2;
    let right = midpoint.saturating_add(8);
    let capped = if right < max_x { right } else { max_x };
    if capped > 1 { capped } else { 1 }
}

/// `a + b`, saturated at `u16::MAX`.
pub open spec fn sat16(v: int) -> u16 {
    if v > u16::MAX { u16::MAX } else { v as u16 }
}

/// The cells of the first `n` columns of one chicken row drawn at (`x`, `y`):
/// blanks are transparent, coordinates saturate at the terminal's limit.
pub open spec fn chicken_row_cells(line: Seq<char>, n: int, x: u16, y: u16, direction: i8) -> Seq<Cell>
    decreases n,
{
    if n <= 0 {
        Seq::empty()
    } else {
        let prev = chicken_row_cells(line, n - 1, x, y, direction);
        let col = n - 1;
        let c = line[col];
        if c == ' ' {
            prev
        } else {
            let ch = if direction < 0 { spec_mirror_char(c) } else { c };
            let dx = if direction < 0 { sat16(x + (line.len() - 1 - col)) } else { sat16(x + col) };
            prev.push(Cell { x: dx, y, ch, color: spec_sprite_color(SpriteKind::Chicken, ch) })
        }
    }
}

/// The cells of the first `rows` rows of a chicken sprite.
pub open spec fn chicken_cells(frame: Seq<Seq<char>>, rows: int, x: u16, y: u16, direction: i8) -> Seq<Cell>
    decreases rows,
{
    if rows <= 0 {
        Seq::empty()
    } else {
        let line = frame[rows - 1];
        chicken_cells(frame, rows - 1, x, y, direction) + chicken_row_cells(
            line,
            line.len() as int,
            x,
            sat16(y + rows - 1),
            direction,
        )
    }
}

/// The cells of a chicken sprite whose top-left corner is at (`x`, `y`),
/// mirrored when it walks left.
pub fn chicken_sprite_cells(frame: &[&str; 3], x: u16, y: u16, direction: i8) -> (cells: Vec<Cell>)
    requires
        forall|r: int| 0 <= r < 3 ==> #[trigger] frame@[r]@.len() <= u16::MAX,
    ensures
        cells@ == chicken_cells(seq![frame@[0]@, frame@[1]@, frame@[2]@], 3, x, y, direction),
{
    let mut cells: Vec<Cell> = Vec::new();
    let mut row: usize = 0;
    while row < 3
        invariant
            row <= 3,
            forall|r: int| 0 <= r < 3 ==> #[trigger] frame@[r]@.len() <= u16::MAX,
            cells@ == chicken_cells(seq![frame@[0]@, frame@[1]@, frame@[2]@], row as int, x, y, direction),
        decreases 3 - row,
    {
        let line: &str = frame[row];
        let line_width = line.unicode_len();
        assert(frame@[row as int]@.len() <= u16::MAX);
        let line_width16 = line_width as u16;
        let draw_y = y.saturating_add(row as u16);
        let ghost before = cells@;
        let mut column: usize = 0;
        while column < line_width
            invariant
                column <= line_width,
                line_width == line@.len(),
                line_width <= u16::MAX,
                line_width16 == line_width,
                line@ == frame@[row as int]@,
                draw_y == sat16(y + row),
                cells@ == before + chicken_row_cells(line@, column as int, x, draw_y, direction),
            decreases line_width - column,
        {
            let source_char = line.get_char(column);
            if source_char != ' ' {
                let character = if direction < 0 { mirror_char(source_char) } else { source_char };
                let col16 = column as u16;
                let draw_x = if direction < 0 {
                    x.saturating_add(line_width16.saturating_sub(1).saturating_sub(col16))
                } else {
                    x.saturating_add(col16)
                };
                cells.push(Cell { x: draw_x, y: draw_y, ch: character, color: sprite_color(SpriteKind::Chicken, character) });
            }
            column = column + 1;
        }
        row = row + 1;
    }
    cells
}

/// The top row of the chicken sprites: their feet stand on the horizon row.
pub fn chicken_top_row(ground_y: u16) -> (y: u16)
    ensures
        y == sat_sub16(ground_y, (SPRITE_HEIGHT - 1) as u16),
{
    ground_y.saturating_sub(SPRITE_HEIGHT - 1)
}

/// Chickens are out only in daylight without rain, snow or thunder.
pub fn chickens_active(conditions: &WeatherConditions) -> (b: bool)
    ensures
        b == (conditions.is_day && !conditions.is_raining && !conditions.is_snowing
            && !conditions.is_thunderstorm),
{
    conditions.is_day && !conditions.is_raining && !conditions.is_snowing && !conditions.is_thunderstorm
}

/// A chicken's walking pose: which of the four frames, and how many ticks
/// it has been shown.
#[derive(Clone, Copy, Debug, PartialEq, Eq, Structural)]
pub struct ChickenGait {
    pub frame_index: usize,
    pub frame_tick: u8,
}

impl ChickenGait {
    pub open spec fn wf(self) -> bool {
        self.frame_index < 4
    }

    /// The first pose, just shown.
    pub fn new() -> (g: Self)
        ensures
            g == (ChickenGait { frame_index: 0, frame_tick: 0 }),
    {
        ChickenGait { frame_index: 0, frame_tick: 0 }
    }

    /// One tick: every fourth tick the next of the four poses, round and round.
    pub fn tick(&mut self)
        requires
            old(self).wf(),
        ensures
            final(self).wf(),
            ({
                let t = if old(self).frame_tick + 1 > u8::MAX { u8::MAX as int } else { old(self).frame_tick + 1 };
                *final(self) == if t >= FRAME_STEP {
                    ChickenGait { frame_index: ((old(self).frame_index + 1) % 4) as usize, frame_tick: 0 }
                } else {
                    ChickenGait { frame_tick: t as u8, ..*old(self) }
                }
            }),
    {
        let t = self.frame_tick.saturating_add(1);
        if t >= FRAME_STEP {
            self.frame_index = (self.frame_index + 1) % 4;
            self.frame_tick = 0;
        } else {
            self.frame_tick = t;
        }
    }
}

} // verus!