use crate::animation::sprite::Cell;
use crate::color::Color;
use crate::scene::world::style::WorldSceneStyle;
use vstd::prelude::*;

verus! {

/// The tree left of the house and the fence right of it.
pub struct Decorations;

/// Where the decorations go: the horizon row, the house's left column and
/// width, and the scene width.
#[derive(Clone, Copy, Debug, PartialEq, Eq, Structural)]
pub struct DecorationLayout {
    pub horizon_y: u16,
    pub house_x: u16,
    pub house_width: u16,
    pub width: u16,
}

pub open spec fn sat_add(a: int, b: int) -> int {
    if a + b > u16::MAX { u16::MAX as int } else { a + b }
}

pub open spec fn sat_sub(a: int, b: int) -> int {
    if a >= b { a - b } else { 0 }
}

impl Decorations {
    /// The tree stands twenty columns left of the house with its base on the
    /// horizon; there is no tree when that column would be the screen edge.
    pub open spec fn spec_tree_origin(layout: DecorationLayout, art_rows: nat) -> Option<(u16, u16)> {
        let tree_x = sat_sub(layout.house_x as int, 20);
        if tree_x == 0 {
            None
        } else {
            Some((tree_x as u16, sat_sub(layout.horizon_y as int, art_rows as int) as u16))
        }
    }

    pub fn tree_origin(&self, layout: &DecorationLayout, art_rows: u16) -> (o: Option<(u16, u16)>)
        ensures
            o == Self::spec_tree_origin(*layout, art_rows as nat),
    {
        let tree_x = layout.house_x.saturating_sub(20);
        if tree_x == 0 {
            return None;
        }
        Some((tree_x, layout.horizon_y.saturating_sub(art_rows)))
    }

    /// The fence starts two columns right of the house with its base on the
    /// horizon; there is no fence when that column is off the scene.
    pub open spec fn spec_fence_origin(layout: DecorationLayout, art_rows: nat) -> Option<(u16, u16)> {
        let fence_x = sat_add(layout.house_x as int, layout.house_width + 2);
        if fence_x >= layout.width {
            None
        } else {
            Some((fence_x as u16, sat_sub(layout.horizon_y as int, art_rows as int) as u16))
        }
    }

    pub fn fence_origin(&self, layout: &DecorationLayout, art_rows: u16) -> (o: Option<(u16, u16)>)
        requires
            layout.house_width + 2 <= u16::MAX,
        ensures
            o == Self::spec_fence_origin(*layout, art_rows as nat),
    {
        let fence_x = layout.house_x.saturating_add(layout.house_width + 2);
        if fence_x >= layout.width {
            return None;
        }
        Some((fence_x, layout.horizon_y.saturating_sub(art_rows)))
    }

    /// The tree in its foliage colour, then the fence in its colour, each
    /// only where its origin is on screen.
    pub open spec fn spec_cells(
        layout: DecorationLayout,
        tree: Seq<Seq<char>>,
        fence: Seq<Seq<char>>,
        style: WorldSceneStyle,
    ) -> Seq<Cell> {
        let tree_cells = match Self::spec_tree_origin(layout, tree.len()) {
            Some((x, y)) => art_cells(tree, tree.len() as int, x as int, y as int, style.tree_foliage),
            None => Seq::empty(),
        };
        let fence_cells = match Self::spec_fence_origin(layout, fence.len()) {
            Some((x, y)) => art_cells(fence, fence.len() as int, x as int, y as int, style.fence),
            None => Seq::empty(),
        };
        tree_cells + fence_cells
    }

    /// Draw the tree and the fence from their ASCII art, given row by row.
    pub fn cells(&self, layout: &DecorationLayout, tree: &[&str], fence: &[&str], style: &WorldSceneStyle) -> (cells: Vec<Cell>)
        requires
            layout.house_width + 2 <= u16::MAX,
            tree@.len() <= u16::MAX,
            fence@.len() <= u16::MAX,
            art_fits(tree@, Self::spec_tree_origin(*layout, tree@.len())),
            art_fits(fence@, Self::spec_fence_origin(*layout, fence@.len())),
        ensures
            cells@ == Self::spec_cells(
                *layout,
                tree@.map_values(|s: &str| s@),
                fence@.map_values(|s: &str| s@),
                *style,
            ),
    {
        let mut cells: Vec<Cell> = Vec::new();
        let tree_rows = tree.len() as u16;
        match self.tree_origin(layout, tree_rows) {
            Some((x, y)) => {
                cells = render_art(tree, x, y, style.tree_foliage);
            },
            None => {},
        }
        let fence_rows = fence.len() as u16;
        match self.fence_origin(layout, fence_rows) {
            Some((x, y)) => {
                let mut more = render_art(fence, x, y, style.fence);
                cells.append(&mut more);
            },
            None => {},
        }
        cells
    }
}

/// Whether an ASCII-art picture placed at `origin` stays within the
/// terminal's coordinate range.
pub open spec fn art_fits(art: Seq<&str>, origin: Option<(u16, u16)>) -> bool {
    match origin {
        Some((x, y)) => {
            &&& y + art.len() <= u16::MAX + 1
            &&& forall|r: int| 0 <= r < art.len() ==> x + (#[trigger] art[r])@.len() <= u16::MAX + 1
        },
        None => true,
    }
}

/// The cells of the first `n` characters of art row `row`, drawn from
/// (`x`, `y`) in one colour; blanks are transparent.
pub open spec fn art_row_cells(line: Seq<char>, row: int, n: int, x: int, y: int, color: Color) -> Seq<Cell>
    decreases n,
{
    if n <= 0 {
        Seq::empty()
    } else {
        let prev = art_row_cells(line, row, n - 1, x, y, color);
        if line[n - 1] == ' ' {
            prev
        } else {
            prev.push(Cell { x: (x + n - 1) as u16, y: (y + row) as u16, ch: line[n - 1], color })
        }
    }
}

/// The cells of the first `rows` rows of an ASCII-art picture.
pub open spec fn art_cells(art: Seq<Seq<char>>, rows: int, x: int, y: int, color: Color) -> Seq<Cell>
    decreases rows,
{
    if rows <= 0 {
        Seq::empty()
    } else {
        let line = art[rows - 1];
        art_cells(art, rows - 1, x, y, color) + art_row_cells(line, rows - 1, line.len() as int, x, y, color)
    }
}

/// Draw an ASCII-art picture, row by row, with its top-left corner at
/// (`x`, `y`); blanks are transparent. The picture must fit below and right
/// of the corner within the terminal's coordinate range.
pub fn render_art(art: &[&str], x: u16, y: u16, color: Color) -> (cells: Vec<Cell>)
    requires
        y + art@.len() <= u16::MAX + 1,
        forall|r: int| 0 <= r < art@.len() ==> x + (#[trigger] art@[r])@.len() <= u16::MAX + 1,
    ensures
        cells@ == art_cells(art@.map_values(|s: &str| s@), art@.len() as int, x as int, y as int, color),
{
    let ghost rows = art@.map_values(|s: &str| s@);
    let mut cells: Vec<Cell> = Vec::new();
    let mut i: usize = 0;
    while i < art.len()
        invariant
            i <= art@.len(),
            rows == art@.map_values(|s: &str| s@),
            y + art@.len() <= u16::MAX + 1,
            forall|r: int| 0 <= r < art@.len() ==> x + (#[trigger] art@[r])@.len() <= u16::MAX + 1,
            cells@ == art_cells(rows, i as int, x as int, y as int, color),
        decreases art@.len() - i,
    {
        let line: &str = art[i];
        let n = line.unicode_len();
        let ghost before = cells@;
        assert(rows[i as int] == line@);
        let mut j: usize = 0;
        while j < n
            invariant
                j <= n,
                n == line@.len(),
                x + n <= u16::MAX + 1,
                y + i < u16::MAX + 1,
                i < art@.len(),
                rows[i as int] == line@,
                cells@ == before + art_row_cells(line@, i as int, j as int, x as int, y as int, color),
            decreases n - j,
        {
            let ch = line.get_char(j);
            if ch != ' ' {
                cells.push(Cell { x: x + j as u16, y: y + i as u16, ch, color });
            }
            j = j + 1;
        }
        i = i + 1;
    }
    cells
}

} // verus!
