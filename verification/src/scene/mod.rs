pub mod world;

use crate::season::Season;
use crate::theme::Palette;
use crate::weather::WeatherConditions;
use vstd::prelude::*;

verus! {

/// What a scene needs to know to style one frame.
pub struct SceneContext<'a> {
    pub conditions: &'a WeatherConditions,
    pub palette: &'a Palette,
    pub season: Season,
}

/// The inclusive rectangle in which outdoor animals may place their sprites.
///
/// `left`/`top` and `right`/`bottom` are terminal cell coordinates; the lawn
/// is shared by the world renderer and the animal animations.
#[derive(Clone, Copy, Debug, PartialEq, Eq, Structural)]
pub struct LawnBounds {
    pub left: u16,
    pub top: u16,
    pub right: u16,
    pub bottom: u16,
}

impl LawnBounds {
    /// Number of columns, saturating.
    pub open spec fn spec_width(self) -> int {
        if self.right >= self.left {
            if self.right - self.left + 1 > u16::MAX { u16::MAX as int } else { self.right - self.left + 1 }
        } else {
            1
        }
    }

    /// Number of rows, saturating.
    pub open spec fn spec_height(self) -> int {
        if self.bottom >= self.top {
            if self.bottom - self.top + 1 > u16::MAX { u16::MAX as int } else { self.bottom - self.top + 1 }
        } else {
            1
        }
    }

    pub fn width(self) -> (w: u16)
        ensures
            w == self.spec_width(),
    {
        self.right.saturating_sub(self.left).saturating_add(1)
    }

    pub fn height(self) -> (h: u16)
        ensures
            h == self.spec_height(),
    {
        self.bottom.saturating_sub(self.top).saturating_add(1)
    }
}

pub const POND_WIDTH: u16 = 13;

pub const POND_HEIGHT: u16 = 3;

/// Where the pond art is drawn: its top-left cell and size.
#[derive(Clone, Copy, Debug, PartialEq, Eq, Structural)]
pub struct PondBounds {
    pub x: u16,
    pub y: u16,
    pub width: u16,
    pub height: u16,
}

impl PondBounds {
    /// Last column of the pond (saturating).
    pub open spec fn spec_right(self) -> int {
        let w = if self.width >= 1 { self.width - 1 } else { 0 };
        if self.x + w > u16::MAX { u16::MAX as int } else { self.x + w }
    }

    /// Last row of the pond (saturating).
    pub open spec fn spec_bottom(self) -> int {
        let h = if self.height >= 1 { self.height - 1 } else { 0 };
        if self.y + h > u16::MAX { u16::MAX as int } else { self.y + h }
    }

    pub fn right(self) -> (r: u16)
        ensures
            r == self.spec_right(),
    {
        self.x.saturating_add(self.width.saturating_sub(1))
    }

    pub fn bottom(self) -> (b: u16)
        ensures
            b == self.spec_bottom(),
    {
        self.y.saturating_add(self.height.saturating_sub(1))
    }

    pub fn center_x(self) -> (c: u16)
        ensures
            c == (if self.x + self.width / 2 > u16::MAX { u16::MAX as int } else { self.x + self.width / 2 }),
    {
        self.x.saturating_add(self.width / 2)
    }
}

/// The lawn below the horizon: from `ground_y` down to the row above the
/// status row, across the full width; none if the terminal has no room.
pub open spec fn spec_lawn_bounds(width: u16, height: u16, ground_y: u16) -> Option<LawnBounds> {
    if width == 0 || height < 3 || ground_y > height - 2 {
        None
    } else {
        Some(LawnBounds { left: 0, top: ground_y, right: (width - 1) as u16, bottom: (height - 2) as u16 })
    }
}

/// Return the lower green meadow and brown ground rendered from `ground_y`,
/// while reserving the attribution/status rows at the terminal bottom.
pub fn lawn_bounds(width: u16, height: u16, ground_y: u16) -> (r: Option<LawnBounds>)
    ensures
        r == spec_lawn_bounds(width, height, ground_y),
{
    if width == 0 || height < 3 {
        return None;
    }
    let top = ground_y;
    let bottom = height.saturating_sub(2);
    if top > bottom {
        return None;
    }
    Some(LawnBounds { left: 0, top, right: width.saturating_sub(1), bottom })
}

/// The pond: a fixed 13 x 3 block at the lower right of the lawn, two
/// columns in from its edge; none on a lawn narrower than 17 or lower than 3.
pub open spec fn spec_pond_bounds(width: u16, height: u16, ground_y: u16) -> Option<PondBounds> {
    match spec_lawn_bounds(width, height, ground_y) {
        None => None,
        Some(lawn) => if lawn.spec_width() < POND_WIDTH + 4 || lawn.spec_height() < POND_HEIGHT {
            None
        } else {
            Some(PondBounds {
                x: (lawn.right - (POND_WIDTH + 2)) as u16,
                y: (lawn.bottom - (POND_HEIGHT - 1)) as u16,
                width: POND_WIDTH,
                height: POND_HEIGHT,
            })
        },
    }
}

/// Place a small, stable pond at the lower-right of the meadow, derived from
/// the same bounds used by animals so that resizing cannot move it off the lawn.
pub fn pond_bounds(width: u16, height: u16, ground_y: u16) -> (r: Option<PondBounds>)
    ensures
        r == spec_pond_bounds(width, height, ground_y),
{
    let lawn = match lawn_bounds(width, height, ground_y) {
        Some(lawn) => lawn,
        None => return None,
    };
    if lawn.width() < POND_WIDTH.saturating_add(4) || lawn.height() < POND_HEIGHT {
        return None;
    }
    let x = lawn.right.saturating_sub(POND_WIDTH.saturating_add(2));
    let y = lawn.bottom.saturating_sub(POND_HEIGHT.saturating_sub(1));
    Some(PondBounds { x, y, width: POND_WIDTH, height: POND_HEIGHT })
}

/// The lawn never reaches the status row and stays inside the terminal.
pub proof fn lemma_lawn_above_status_row(width: u16, height: u16, ground_y: u16)
    requires
        spec_lawn_bounds(width, height, ground_y) is Some,
    ensures
        ({
            let lawn = spec_lawn_bounds(width, height, ground_y)->0;
            &&& lawn.left == 0 && lawn.right == width - 1
            &&& lawn.top == ground_y && lawn.top <= lawn.bottom
            &&& lawn.bottom == height - 2
        }),
{
}

/// Whenever there is a pond, it has its fixed size and lies inside the lawn.
pub proof fn lemma_pond_inside_lawn(width: u16, height: u16, ground_y: u16)
    requires
        spec_pond_bounds(width, height, ground_y) is Some,
    ensures
        ({
            let lawn = spec_lawn_bounds(width, height, ground_y)->0;
            let pond = spec_pond_bounds(width, height, ground_y)->0;
            &&& spec_lawn_bounds(width, height, ground_y) is Some
            &&& pond.width == POND_WIDTH && pond.height == POND_HEIGHT
            &&& lawn.left <= pond.x && pond.spec_right() <= lawn.right
            &&& lawn.top <= pond.y && pond.spec_bottom() <= lawn.bottom
        }),
{
}

/// A position for the chimney smoke.
#[derive(Clone, Copy, Debug, PartialEq, Eq, Structural)]
pub struct ChimneyPosition {
    pub x: u16,
    pub y: u16,
}

/// Where a scene has put its horizon and house in the current frame.
#[derive(Clone, Copy, Debug, PartialEq, Eq, Structural)]
pub struct SceneLayout {
    pub ground_y: u16,
    pub chimney_pos: Option<ChimneyPosition>,
    pub width: u16,
    pub height: u16,
}

} // verus!
