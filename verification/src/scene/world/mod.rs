pub mod decorations;
pub mod ground;
pub mod style;

use crate::animation::cat::HouseBounds;
use crate::animation::sprite::Cell;
use crate::scene::world::decorations::{art_fits, DecorationLayout, Decorations};
use crate::scene::world::ground::ground_rows;
use crate::scene::world::style::WorldSceneStyle;
use crate::scene::{ChimneyPosition, SceneLayout};
use crate::scene::world::ground::Ground;
use crate::ui::layout::Rect;
use vstd::prelude::*;

verus! {

/// The world scene: a house on a lawn with a pond, a tree and a fence.
pub struct WorldScene {
    pub ground: Ground,
    pub decorations: Decorations,
    pub viewport: Rect,
}

/// Rows of ground below the horizon when the scene is tall enough.
pub const GROUND_HEIGHT: u16 = 7;

impl WorldScene {
    pub fn new(viewport: Rect) -> (s: Self)
        ensures
            s.viewport == viewport,
    {
        WorldScene { ground: Ground, decorations: Decorations, viewport }
    }

    pub fn id(&self) -> (s: &'static str)
        ensures
            s@ == "world"@,
    {
        "world"
    }

    pub fn update_size(&mut self, viewport: Rect)
        ensures
            final(self).viewport == viewport,
    {
        self.viewport = viewport;
    }

    /// Rows of ground: seven, or what a short scene leaves below a house
    /// `house_height` rows tall.
    pub fn ground_height(scene_height: u16, house_height: u16) -> (h: u16)
        ensures
            h == (if scene_height >= house_height {
                if GROUND_HEIGHT <= scene_height - house_height { GROUND_HEIGHT as int } else { scene_height - house_height }
            } else {
                0
            }),
    {
        let room = scene_height.saturating_sub(house_height);
        if GROUND_HEIGHT <= room { GROUND_HEIGHT } else { room }
    }

    /// The frame's layout for a house `house_width` by `house_height` cells
    /// whose chimney stands `chimney_x_offset` columns right of its left
    /// wall: the ground fills the bottom rows, the house stands centred on
    /// the horizon, and the chimney smoke rises from the house's top row.
    pub open spec fn spec_layout(viewport: Rect, house_width: u16, house_height: u16, chimney_x_offset: u16) -> SceneLayout {
        let width = viewport.width;
        let height = viewport.height;
        let ground = if height >= house_height {
            if GROUND_HEIGHT <= height - house_height { GROUND_HEIGHT as int } else { height - house_height }
        } else {
            0
        };
        let ground_y = height - ground;
        let house_x = if width / 2 >= house_width / 2 { width / 2 - house_width / 2 } else { 0 };
        let house_y = if ground_y >= house_height { ground_y - house_height } else { 0 };
        SceneLayout {
            ground_y: ground_y as u16,
            chimney_pos: Some(ChimneyPosition { x: (house_x + chimney_x_offset) as u16, y: house_y as u16 }),
            width,
            height,
        }
    }

    pub fn layout(&self, house_width: u16, house_height: u16, chimney_x_offset: u16) -> (l: SceneLayout)
        requires
            (if self.viewport.width / 2 >= house_width / 2 {
                self.viewport.width / 2 - house_width / 2
            } else {
                0
            }) + chimney_x_offset <= u16::MAX,
        ensures
            l == Self::spec_layout(self.viewport, house_width, house_height, chimney_x_offset),
    {
        let width = self.viewport.width;
        let height = self.viewport.height;
        let ground_height = Self::ground_height(height, house_height);
        let ground_y = height.saturating_sub(ground_height);
        let house_x = (width / 2).saturating_sub(house_width / 2);
        let house_y = ground_y.saturating_sub(house_height);
        let chimney_x = house_x + chimney_x_offset;
        SceneLayout {
            ground_y,
            chimney_pos: Some(ChimneyPosition { x: chimney_x, y: house_y }),
            width,
            height,
        }
    }

    /// Where the decorations go beside a centred house on horizon row
    /// `horizon_y`.
    pub open spec fn spec_decoration_layout(viewport: Rect, house_width: u16, horizon_y: u16) -> DecorationLayout {
        let width = viewport.width;
        let house_x = if width / 2 >= house_width / 2 { width / 2 - house_width / 2 } else { 0 };
        DecorationLayout {
            horizon_y,
            house_x: house_x as u16,
            house_width,
            width,
        }
    }

    /// The scene's cells apart from the house itself: the ground from the
    /// horizon down, then the tree and the fence beside the house.
    pub open spec fn spec_cells(
        viewport: Rect,
        house_width: u16,
        house_height: u16,
        tree: Seq<Seq<char>>,
        fence: Seq<Seq<char>>,
        style: WorldSceneStyle,
    ) -> Seq<Cell> {
        let ground_y = Self::spec_layout(viewport, house_width, house_height, 0).ground_y;
        let decorations = Self::spec_decoration_layout(viewport, house_width, ground_y);
        ground_rows(viewport.height - ground_y, viewport.width as int, ground_y as int, style)
            + Decorations::spec_cells(decorations, tree, fence, style)
    }

    /// Draw the ground and the decorations for a house `house_width` by
    /// `house_height` cells, the tree and fence given as ASCII art.
    pub fn cells(
        &self,
        house_width: u16,
        house_height: u16,
        tree: &[&str],
        fence: &[&str],
        style: &WorldSceneStyle,
    ) -> (cells: Vec<Cell>)
        requires
            house_width + 2 <= u16::MAX,
            tree@.len() <= u16::MAX,
            fence@.len() <= u16::MAX,
            ({
                let ground_y = Self::spec_layout(self.viewport, house_width, house_height, 0).ground_y;
                let decorations = Self::spec_decoration_layout(self.viewport, house_width, ground_y);
                &&& art_fits(tree@, Decorations::spec_tree_origin(decorations, tree@.len()))
                &&& art_fits(fence@, Decorations::spec_fence_origin(decorations, fence@.len()))
            }),
        ensures
            cells@ == Self::spec_cells(
                self.viewport,
                house_width,
                house_height,
                tree@.map_values(|s: &str| s@),
                fence@.map_values(|s: &str| s@),
                *style,
            ),
    {
        let layout = self.layout(house_width, house_height, 0);
        let width = self.viewport.width;
        let ground_height = Self::ground_height(self.viewport.height, house_height);
        let house_x = (width / 2).saturating_sub(house_width / 2);
        let decorations = DecorationLayout { horizon_y: layout.ground_y, house_x, house_width, width };
        let mut cells = self.ground.cells(width, ground_height, layout.ground_y, style);
        let mut more = self.decorations.cells(&decorations, tree, fence, style);
        cells.append(&mut more);
        cells
    }

    /// The cells a house `house_width` columns wide covers when it stands
    /// centred in a scene `width` columns wide with its lowest row just above
    /// horizon row `ground_y` (saturating at the screen's edges).
    pub open spec fn spec_house_bounds(width: u16, house_width: u16, ground_y: u16) -> HouseBounds {
        let left = if width / 2 >= house_width / 2 { width / 2 - house_width / 2 } else { 0 };
        let span = if house_width >= 1 { house_width - 1 } else { 0 };
        HouseBounds {
            left: left as u16,
            right: (if left + span > u16::MAX { u16::MAX as int } else { left + span }) as u16,
            bottom: (if ground_y >= 1 { ground_y - 1 } else { 0 }) as u16,
        }
    }

    pub fn house_bounds(width: u16, house_width: u16, ground_y: u16) -> (h: HouseBounds)
        ensures
            h == Self::spec_house_bounds(width, house_width, ground_y),
            h.left == Self::spec_decoration_layout(Rect { x: 0, y: 0, width, height: 0 }, house_width, ground_y).house_x,
    {
        let left = (width / 2).saturating_sub(house_width / 2);
        HouseBounds {
            left,
            right: left.saturating_add(house_width.saturating_sub(1)),
            bottom: ground_y.saturating_sub(1),
        }
    }
}

} // verus!
