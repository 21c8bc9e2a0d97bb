use crate::color::Color;
use vstd::prelude::*;

verus! {

/// One character drawn at a terminal cell.
#[derive(Clone, Copy, Debug, PartialEq, Eq, Structural)]
pub struct Cell {
    pub x: u16,
    pub y: u16,
    pub ch: char,
    pub color: Color,
}

/// The character that faces the other way: brackets, slashes and arrows
/// swap, every other character stays.
pub open spec fn spec_mirror_char(c: char) -> char {
    if c == '(' {
        ')'
    } else if c == ')' {
        '('
    } else if c == '/' {
        '\\'
    } else if c == '\\' {
        '/'
    } else if c == '<' {
        '>'
    } else if c == '>' {
        '<'
    } else {
        c
    }
}

/// Mirror a sprite character for a sprite that faces left.
pub fn mirror_char(character: char) -> (m: char)
    ensures
        m == spec_mirror_char(character),
{
    match character {
        '(' => ')',
        ')' => '(',
        '/' => '\\',
        '\\' => '/',
        '<' => '>',
        '>' => '<',
        _ => character,
    }
}

/// Mirroring twice gives back the same character.
pub proof fn lemma_mirror_involution(c: char)
    ensures
        spec_mirror_char(spec_mirror_char(c)) == c,
{
}

/// Which animal a sprite belongs to; it decides the colour of each character.
#[derive(Clone, Copy, Debug, PartialEq, Eq, Structural)]
pub enum SpriteKind {
    Bunny,
    Cat,
    Chicken,
}

pub open spec fn spec_sprite_color(kind: SpriteKind, c: char) -> Color {
    match kind {
        SpriteKind::Bunny => if c == 'o' {
            Color::White
        } else if c == '.' || c == '_' {
            Color::DarkGrey
        } else if c == '<' || c == '>' {
            Color::Yellow
        } else {
            Color::Grey
        },
        SpriteKind::Cat => if c == 'o' {
            Color::Yellow
        } else if c == '.' || c == '-' {
            Color::DarkGrey
        } else {
            Color::Grey
        },
        SpriteKind::Chicken => if c == '<' || c == '>' {
            Color::Yellow
        } else if c == 'o' {
            Color::DarkGrey
        } else {
            Color::White
        },
    }
}

/// The colour of a sprite character: eyes, nose and beak stand out from the body.
pub fn sprite_color(kind: SpriteKind, character: char) -> (c: Color)
    ensures
        c == spec_sprite_color(kind, character),
{
    match kind {
        SpriteKind::Bunny => match character {
            'o' => Color::White,
            '.' | '_' => Color::DarkGrey,
            '<' | '>' => Color::Yellow,
            _ => Color::Grey,
        },
        SpriteKind::Cat => match character {
            'o' => Color::Yellow,
            '.' | '-' => Color::DarkGrey,
            _ => Color::Grey,
        },
        SpriteKind::Chicken => match character {
            '<' | '>' => Color::Yellow,
            'o' => Color::DarkGrey,
            _ => Color::White,
        },
    }
}

/// Column and character of source column `col` of `line` for a sprite whose
/// left edge is at `anchor_x`; a left-facing sprite is drawn mirrored.
pub open spec fn placed(line: Seq<char>, col: int, anchor_x: int, direction: int) -> (int, char) {
    if direction < 0 {
        (anchor_x + (line.len() - 1) - col, spec_mirror_char(line[col]))
    } else {
        (anchor_x + col, line[col])
    }
}

/// The visible cells of the first `n` columns of one sprite row at screen
/// row `y`: blanks are transparent, columns outside `0..width` are clipped.
pub open spec fn row_cells(
    line: Seq<char>,
    n: int,
    y: int,
    anchor_x: int,
    direction: int,
    width: int,
    kind: SpriteKind,
) -> Seq<Cell>
    decreases n,
{
    if n <= 0 {
        Seq::empty()
    } else {
        let prev = row_cells(line, n - 1, y, anchor_x, direction, width, kind);
        let (x, ch) = placed(line, n - 1, anchor_x, direction);
        if line[n - 1] == ' ' || x < 0 || x >= width {
            prev
        } else {
            prev.push(Cell { x: x as u16, y: y as u16, ch, color: spec_sprite_color(kind, ch) })
        }
    }
}

/// The characters of each row of a three-row sprite.
pub open spec fn frame_rows(frame: &[&str; 3]) -> Seq<Seq<char>> {
    seq![frame@[0]@, frame@[1]@, frame@[2]@]
}

/// The visible cells of the first `rows` rows of a sprite anchored at
/// (`anchor_x`, `anchor_y`), row by row; rows outside `0..height` are clipped.
pub open spec fn sprite_cells(
    frame: Seq<Seq<char>>,
    rows: int,
    anchor_x: int,
    anchor_y: int,
    direction: int,
    width: int,
    height: int,
    kind: SpriteKind,
) -> Seq<Cell>
    decreases rows,
{
    if rows <= 0 {
        Seq::empty()
    } else {
        let prev = sprite_cells(frame, rows - 1, anchor_x, anchor_y, direction, width, height, kind);
        let y = anchor_y + rows - 1;
        if y < 0 || y >= height {
            prev
        } else {
            let line = frame[rows - 1];
            prev + row_cells(line, line.len() as int, y, anchor_x, direction, width, kind)
        }
    }
}

/// The cells to draw for a three-row sprite whose top-left corner is at
/// (`anchor_x`, `anchor_y`) on a `width` x `height` terminal. Blank
/// characters are transparent and cells outside the terminal are clipped,
/// so a sprite may enter or leave the screen at either edge.
pub fn clipped_sprite_cells(
    frame: &[&str; 3],
    anchor_x: i32,
    anchor_y: i32,
    direction: i8,
    terminal_width: u16,
    terminal_height: u16,
    kind: SpriteKind,
) -> (cells: Vec<Cell>)
    requires
        forall|r: int| 0 <= r < 3 ==> #[trigger] frame@[r]@.len() <= i32::MAX
            && anchor_x + frame@[r]@.len() <= i32::MAX + 1,
        anchor_y + 2 <= i32::MAX,
    ensures
        cells@ == sprite_cells(
            frame_rows(frame),
            3,
            anchor_x as int,
            anchor_y as int,
            direction as int,
            terminal_width as int,
            terminal_height as int,
            kind,
        ),
{
    let mut cells: Vec<Cell> = Vec::new();
    if terminal_width == 0 || terminal_height == 0 {
        proof {
            assert forall|r: int| 0 <= r <= 3 implies sprite_cells(
                frame_rows(frame), r, anchor_x as int, anchor_y as int, direction as int,
                terminal_width as int, terminal_height as int, kind,
            ) =~= Seq::<Cell>::empty() by {
                lemma_sprite_cells_empty_screen(frame_rows(frame), r, anchor_x as int, anchor_y as int,
                    direction as int, terminal_width as int, terminal_height as int, kind);
            }
        }
        return cells;
    }
    let width = terminal_width as i32;
    let height = terminal_height as i32;
    let mut row: usize = 0;
    while row < 3
        invariant
            row <= 3,
            width == terminal_width,
            height == terminal_height,
            forall|r: int| 0 <= r < 3 ==> #[trigger] frame@[r]@.len() <= i32::MAX
                && anchor_x + frame@[r]@.len() <= i32::MAX + 1,
            anchor_y + 2 <= i32::MAX,
            cells@ == sprite_cells(
                frame_rows(frame),
                row as int,
                anchor_x as int,
                anchor_y as int,
                direction as int,
                terminal_width as int,
                terminal_height as int,
                kind,
            ),
        decreases 3 - row,
    {
        let line: &str = frame[row];
        let draw_y = anchor_y + row as i32;
        if draw_y >= 0 && draw_y < height {
            let line_width = line.unicode_len();
            let ghost before = cells@;
            let mut column: usize = 0;
            assert(frame@[row as int]@.len() <= i32::MAX);
            while column < line_width
                invariant
                    column <= line_width,
                    line_width == line@.len(),
                    line_width <= i32::MAX,
                    anchor_x + line_width <= i32::MAX + 1,
                    line@ == frame@[row as int]@,
                    width == terminal_width,
                    0 <= draw_y < height,
                    draw_y == anchor_y + row,
                    cells@ == before + row_cells(
                        line@,
                        column as int,
                        draw_y as int,
                        anchor_x as int,
                        direction as int,
                        terminal_width as int,
                        kind,
                    ),
                decreases line_width - column,
            {
                let source_char = line.get_char(column);
                if source_char != ' ' {
                    let (draw_x, character) = if direction < 0 {
                        (anchor_x + (line_width as i32 - 1 - column as i32), mirror_char(source_char))
                    } else {
                        (anchor_x + column as i32, source_char)
                    };
                    if draw_x >= 0 && draw_x < width {
                        let color = sprite_color(kind, character);
                        cells.push(Cell { x: draw_x as u16, y: draw_y as u16, ch: character, color });
                    }
                }
                column = column + 1;
            }
        }
        row = row + 1;
    }
    cells
}

proof fn lemma_sprite_cells_empty_screen(
    frame: Seq<Seq<char>>,
    rows: int,
    anchor_x: int,
    anchor_y: int,
    direction: int,
    width: int,
    height: int,
    kind: SpriteKind,
)
    requires
        width == 0 || height == 0,
        width >= 0,
        height >= 0,
    ensures
        sprite_cells(frame, rows, anchor_x, anchor_y, direction, width, height, kind) =~= Seq::<Cell>::empty(),
    decreases rows,
{
    if rows > 0 {
        lemma_sprite_cells_empty_screen(frame, rows - 1, anchor_x, anchor_y, direction, width, height, kind);
        let y = anchor_y + rows - 1;
        if !(y < 0 || y >= height) {
            let line = frame[rows - 1];
            lemma_row_cells_empty_width(line, line.len() as int, y, anchor_x, direction, width, kind);
        }
    }
}

proof fn lemma_row_cells_empty_width(
    line: Seq<char>,
    n: int,
    y: int,
    anchor_x: int,
    direction: int,
    width: int,
    kind: SpriteKind,
)
    requires
        width == 0,
    ensures
        row_cells(line, n, y, anchor_x, direction, width, kind) =~= Seq::<Cell>::empty(),
    decreases n,
{
    if n > 0 {
        lemma_row_cells_empty_width(line, n - 1, y, anchor_x, direction, width, kind);
    }
}

proof fn lemma_row_cells_on_screen(
    line: Seq<char>,
    n: int,
    y: int,
    anchor_x: int,
    direction: int,
    width: int,
    kind: SpriteKind,
)
    requires
        width <= u16::MAX,
        0 <= y <= u16::MAX,
    ensures
        forall|i: int| 0 <= i < row_cells(line, n, y, anchor_x, direction, width, kind).len() ==> {
            let c = #[trigger] row_cells(line, n, y, anchor_x, direction, width, kind)[i];
            &&& c.x < width
            &&& c.y == y
            &&& c.ch != ' '
        },
    decreases n,
{
    if n > 0 {
        lemma_row_cells_on_screen(line, n - 1, y, anchor_x, direction, width, kind);
    }
}

/// Clipping is complete: every cell of a sprite lies on the terminal, and
/// no blank is ever drawn.
pub proof fn lemma_sprite_cells_on_screen(
    frame: Seq<Seq<char>>,
    rows: int,
    anchor_x: int,
    anchor_y: int,
    direction: int,
    width: int,
    height: int,
    kind: SpriteKind,
)
    requires
        width <= u16::MAX,
        height <= u16::MAX,
    ensures
        forall|i: int| 0 <= i < sprite_cells(frame, rows, anchor_x, anchor_y, direction, width, height, kind).len() ==> {
            let c = #[trigger] sprite_cells(frame, rows, anchor_x, anchor_y, direction, width, height, kind)[i];
            &&& c.x < width
            &&& c.y < height
            &&& c.ch != ' '
        },
    decreases rows,
{
    if rows > 0 {
        lemma_sprite_cells_on_screen(frame, rows - 1, anchor_x, anchor_y, direction, width, height, kind);
        let y = anchor_y + rows - 1;
        if !(y < 0 || y >= height) {
            let line = frame[rows - 1];
            lemma_row_cells_on_screen(line, line.len() as int, y, anchor_x, direction, width, kind);
            let prev = sprite_cells(frame, rows - 1, anchor_x, anchor_y, direction, width, height, kind);
            let row = row_cells(line, line.len() as int, y, anchor_x, direction, width, kind);
            assert forall|i: int| 0 <= i < (prev + row).len() implies {
                let c = #[trigger] (prev + row)[i];
                c.x < width && c.y < height && c.ch != ' '
            } by {
                if i < prev.len() {
                    assert((prev + row)[i] == prev[i]);
                } else {
                    assert((prev + row)[i] == row[i - prev.len()]);
                }
            }
        }
    }
}

} // verus!
