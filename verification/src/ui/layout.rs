use vstd::prelude::*;

verus! {

/// `a + b`, saturated at `u16::MAX`.
pub open spec fn sat_add16(a: int, b: int) -> int {
    if a + b > u16::MAX { u16::MAX as int } else { a + b }
}

/// `a - b`, saturated at zero.
pub open spec fn sat_sub(a: int, b: int) -> int {
    if a >= b { a - b } else { 0 }
}

pub open spec fn min_int(a: int, b: int) -> int {
    if a <= b { a } else { b }
}

/// A rectangle of terminal cells.
#[derive(Clone, Copy, Debug, PartialEq, Eq, Structural)]
pub struct Rect {
    pub x: u16,
    pub y: u16,
    pub width: u16,
    pub height: u16,
}

impl Rect {
    pub open spec fn mk(x: int, y: int, width: int, height: int) -> Rect {
        Rect { x: x as u16, y: y as u16, width: width as u16, height: height as u16 }
    }

    pub open spec fn spec_is_empty(self) -> bool {
        self.width == 0 || self.height == 0
    }

    /// First column to the right of the rectangle (saturating).
    pub open spec fn spec_right(self) -> int {
        sat_add16(self.x as int, self.width as int)
    }

    /// First row below the rectangle (saturating).
    pub open spec fn spec_bottom(self) -> int {
        sat_add16(self.y as int, self.height as int)
    }

    pub open spec fn spec_contains(self, x: int, y: int) -> bool {
        self.x <= x < self.spec_right() && self.y <= y < self.spec_bottom()
    }

    /// Two rectangles share no cell: one lies fully beside or above the other.
    pub open spec fn separated_from(self, other: Rect) -> bool {
        ||| self.spec_right() <= other.x
        ||| self.spec_bottom() <= other.y
        ||| other.spec_right() <= self.x
        ||| other.spec_bottom() <= self.y
    }

    /// The rectangle ends inside `outer`'s right and bottom edges.
    pub open spec fn ends_within(self, outer: Rect) -> bool {
        self.spec_right() <= outer.spec_right() && self.spec_bottom() <= outer.spec_bottom()
    }

    pub fn new(x: u16, y: u16, width: u16, height: u16) -> (r: Self)
        ensures
            r == (Rect { x, y, width, height }),
    {
        Rect { x, y, width, height }
    }

    /// The empty rectangle at the origin.
    pub fn zero() -> (r: Self)
        ensures
            r == (Rect { x: 0, y: 0, width: 0, height: 0 }),
    {
        Rect { x: 0, y: 0, width: 0, height: 0 }
    }

    pub fn is_empty(self) -> (b: bool)
        ensures
            b == self.spec_is_empty(),
    {
        self.width == 0 || self.height == 0
    }

    pub fn right(self) -> (r: u16)
        ensures
            r == self.spec_right(),
    {
        self.x.saturating_add(self.width)
    }

    pub fn bottom(self) -> (r: u16)
        ensures
            r == self.spec_bottom(),
    {
        self.y.saturating_add(self.height)
    }

    pub fn contains(self, x: u16, y: u16) -> (b: bool)
        ensures
            b == self.spec_contains(x as int, y as int),
    {
        x >= self.x && x < self.right() && y >= self.y && y < self.bottom()
    }
}

impl Default for Rect {
    fn default() -> (r: Self)
        ensures
            r == (Rect { x: 0, y: 0, width: 0, height: 0 }),
    {
        Rect::zero()
    }
}

/// The three responsive layouts, from wide to narrow terminals.
#[derive(Clone, Copy, Debug, PartialEq, Eq, Structural)]
pub enum LayoutTier {
    Large,
    Medium,
    Small,
}

impl LayoutTier {
    /// The tier for a terminal of `width` x `height` cells.
    pub open spec fn for_size(width: int, height: int) -> LayoutTier {
        if width >= 120 && height >= 28 {
            LayoutTier::Large
        } else if width >= 90 && height >= 23 {
            LayoutTier::Medium
        } else {
            LayoutTier::Small
        }
    }

    pub open spec fn spec_name(self) -> Seq<char> {
        match self {
            LayoutTier::Large => "large"@,
            LayoutTier::Medium => "medium"@,
            LayoutTier::Small => "small"@,
        }
    }

    /// The lower-case name of the tier, as it is displayed.
    pub fn name(&self) -> (s: &'static str)
        ensures
            s@ == self.spec_name(),
    {
        match self {
            LayoutTier::Large => "large",
            LayoutTier::Medium => "medium",
            LayoutTier::Small => "small",
        }
    }
}

/// How one frame of the terminal is divided between scene, HUD and status row.
#[derive(Clone, Copy, Debug, PartialEq, Eq, Structural)]
pub struct RenderRegions {
    pub screen: Rect,
    pub scene: Rect,
    pub hud: Option<Rect>,
    pub status: Rect,
    pub tier: LayoutTier,
}

/// Height of the HUD block in the medium and small tiers.
pub open spec fn hud_block_height(details_visible: bool, body_height: int) -> int {
    min_int(if details_visible { 6 } else { 4 }, body_height)
}

/// The scene and HUD rectangles for a visible HUD over a non-empty body.
pub open spec fn spec_split(
    width: int,
    height: int,
    details_visible: bool,
) -> (Rect, Rect) {
    let body_height = sat_sub(height, 1);
    match LayoutTier::for_size(width, height) {
        LayoutTier::Large => {
            let panel_width = min_int(28, sat_sub(width, 72));
            let gap = if panel_width > 0 { 1int } else { 0int };
            let scene_width = sat_sub(width, sat_add16(panel_width, gap));
            let hud_x = sat_add16(scene_width, gap);
            (
                Rect::mk(0, 0, scene_width, body_height),
                Rect::mk(hud_x, min_int(1, body_height), panel_width, sat_sub(body_height, 2)),
            )
        },
        LayoutTier::Medium => {
            let hud_height = hud_block_height(details_visible, body_height);
            let scene_y = min_int(sat_add16(hud_height, 1), body_height);
            (
                Rect::mk(0, scene_y, width, sat_sub(body_height, scene_y)),
                Rect::mk(min_int(1, width), 0, sat_sub(width, 2), hud_height),
            )
        },
        LayoutTier::Small => {
            let hud_height = hud_block_height(details_visible, body_height);
            let hud_y = sat_sub(body_height, hud_height);
            (
                Rect::mk(0, 0, width, sat_sub(hud_y, 1)),
                Rect::mk(min_int(1, width), hud_y, sat_sub(width, 2), hud_height),
            )
        },
    }
}

impl RenderRegions {
    /// The exact regions computed for a `width` x `height` terminal.
    pub open spec fn spec_calculate(
        width: u16,
        height: u16,
        hud_visible: bool,
        details_visible: bool,
    ) -> RenderRegions {
        let screen = Rect { x: 0, y: 0, width, height };
        let status = if height == 0 {
            Rect { x: 0, y: 0, width: 0, height: 0 }
        } else {
            Rect::mk(0, height - 1, width as int, 1)
        };
        let body = Rect::mk(0, 0, width as int, sat_sub(height as int, 1));
        let tier = LayoutTier::for_size(width as int, height as int);
        if !hud_visible || body.spec_is_empty() {
            RenderRegions { screen, scene: body, hud: None, status, tier }
        } else {
            let (scene, hud) = spec_split(width as int, height as int, details_visible);
            RenderRegions {
                screen,
                scene,
                hud: if hud.spec_is_empty() { None } else { Some(hud) },
                status,
                tier,
            }
        }
    }

    /// Split a `width` x `height` terminal into scene, HUD and status regions.
    ///
    /// The bottom row is the status row; the rest (the body) is shared by the
    /// scene and, when visible, the HUD, whose placement depends on the tier.
    pub fn calculate(width: u16, height: u16, hud_visible: bool, details_visible: bool) -> (r: Self)
        ensures
            r == Self::spec_calculate(width, height, hud_visible, details_visible),
    {
        let screen = Rect::new(0, 0, width, height);
        let status = if height == 0 {
            Rect::zero()
        } else {
            Rect::new(0, height - 1, width, 1)
        };
        let body = Rect::new(0, 0, width, height.saturating_sub(1));
        let tier = if width >= 120 && height >= 28 {
            LayoutTier::Large
        } else if width >= 90 && height >= 23 {
            LayoutTier::Medium
        } else {
            LayoutTier::Small
        };

        if !hud_visible || body.is_empty() {
            return RenderRegions { screen, scene: body, hud: None, status, tier };
        }

        let (scene, hud) = match tier {
            LayoutTier::Large => {
                let available: u16 = width.saturating_sub(72);
                let panel_width: u16 = if available < 28 { available } else { 28 };
                let gap: u16 = if panel_width > 0 { 1 } else { 0 };
                let scene_width = width.saturating_sub(panel_width.saturating_add(gap));
                let hud_x = scene_width.saturating_add(gap);
                let hud_height = body.height.saturating_sub(2);
                let hud_y: u16 = if body.height < 1 { body.height } else { 1 };
                (Rect::new(0, 0, scene_width, body.height), Rect::new(hud_x, hud_y, panel_width, hud_height))
            },
            LayoutTier::Medium => {
                let wanted: u16 = if details_visible { 6 } else { 4 };
                let hud_height: u16 = if wanted < body.height { wanted } else { body.height };
                let below = hud_height.saturating_add(1);
                let scene_y: u16 = if below < body.height { below } else { body.height };
                let hud_x: u16 = if width < 1 { width } else { 1 };
                (
                    Rect::new(0, scene_y, width, body.height.saturating_sub(scene_y)),
                    Rect::new(hud_x, 0, width.saturating_sub(2), hud_height),
                )
            },
            LayoutTier::Small => {
                let wanted: u16 = if details_visible { 6 } else { 4 };
                let hud_height: u16 = if wanted < body.height { wanted } else { body.height };
                let hud_y = body.height.saturating_sub(hud_height);
                let scene_height = hud_y.saturating_sub(1);
                let hud_x: u16 = if width < 1 { width } else { 1 };
                (Rect::new(0, 0, width, scene_height), Rect::new(hud_x, hud_y, width.saturating_sub(2), hud_height))
            },
        };

        RenderRegions {
            screen,
            scene,
            hud: if hud.is_empty() { None } else { Some(hud) },
            status,
            tier,
        }
    }
}

/// Whenever a HUD is placed, it shares no cell with the scene.
pub proof fn lemma_hud_and_scene_disjoint(width: u16, height: u16, hud_visible: bool, details_visible: bool)
    requires
        RenderRegions::spec_calculate(width, height, hud_visible, details_visible).hud is Some,
    ensures
        ({
            let r = RenderRegions::spec_calculate(width, height, hud_visible, details_visible);
            r.scene.separated_from(r.hud->0)
        }),
{
}

/// Scene, HUD and status row all lie inside the screen; scene and HUD also
/// stay above the status row.
pub proof fn lemma_regions_inside_screen(width: u16, height: u16, hud_visible: bool, details_visible: bool)
    ensures
        ({
            let r = RenderRegions::spec_calculate(width, height, hud_visible, details_visible);
            &&& r.screen == (Rect { x: 0, y: 0, width, height })
            &&& r.scene.ends_within(r.screen)
            &&& r.status.ends_within(r.screen)
            &&& r.scene.spec_bottom() <= sat_sub(height as int, 1)
            &&& (r.hud matches Some(hud) ==> hud.ends_within(r.screen) && hud.spec_bottom() <= sat_sub(height as int, 1))
        }),
{
}

/// A hidden HUD leaves the scene the whole body: every row but the status row.
pub proof fn lemma_hidden_hud_gives_scene_whole_body(width: u16, height: u16, details_visible: bool)
    ensures
        ({
            let r = RenderRegions::spec_calculate(width, height, false, details_visible);
            &&& r.hud is None
            &&& r.scene == Rect::mk(0, 0, width as int, sat_sub(height as int, 1))
        }),
{
}

/// On a non-empty screen the status region is exactly the last row.
pub proof fn lemma_status_is_last_row(width: u16, height: u16, hud_visible: bool, details_visible: bool)
    requires
        height > 0,
    ensures
        RenderRegions::spec_calculate(width, height, hud_visible, details_visible).status
            == (Rect { x: 0, y: (height - 1) as u16, width, height: 1 }),
{
}

/// Where a visible HUD goes. Below the large tier it is a block one column
/// in from each side, six rows tall with details and four without (never
/// taller than the body): at the top with the scene one row below it down to
/// the status row in the medium tier, at the bottom of the body with the
/// scene above it, one row apart, in the small tier. In the large tier it is
/// a side panel 28 columns wide right of the scene, one column apart, from
/// the second row to two rows above the status row, and the scene keeps the
/// whole body height.
pub proof fn lemma_hud_placement(width: u16, height: u16, details_visible: bool)
    requires
        width >= 3,
        height >= 2,
    ensures
        ({
            let r = RenderRegions::spec_calculate(width, height, true, details_visible);
            let body = height - 1;
            let block = if details_visible { 6int } else { 4int };
            let block_height = if block <= body { block } else { body };
            &&& r.hud is Some
            &&& r.tier == LayoutTier::for_size(width as int, height as int)
            &&& r.tier != LayoutTier::Large ==> {
                let h = r.hud->0;
                &&& h.x == 1 && h.width == width - 2 && h.height == block_height
                &&& r.scene.x == 0 && r.scene.width == width
                &&& r.tier == LayoutTier::Medium ==> {
                    &&& h.y == 0
                    &&& r.scene.y == (if block_height + 1 <= body { block_height + 1 } else { body })
                    &&& r.scene.y + r.scene.height == body
                }
                &&& r.tier == LayoutTier::Small ==> {
                    &&& h.y + h.height == body
                    &&& r.scene.y == 0
                    &&& r.scene.height == (if h.y >= 1 { h.y - 1 } else { 0 })
                }
            }
            &&& r.tier == LayoutTier::Large ==> {
                let h = r.hud->0;
                &&& h.width == 28 && h.x == width - 28 && h.y == 1 && h.height == body - 2
                &&& r.scene == Rect { x: 0, y: 0, width: (width - 29) as u16, height: body as u16 }
            }
        }),
{
}

} // verus!
