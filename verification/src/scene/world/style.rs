use crate::color::{rgb, Color};
use crate::scene::SceneContext;
use crate::season::Season;
use crate::theme::Palette;
use vstd::prelude::*;

verus! {

/// How the tree beside the house looks in each season.
#[derive(Clone, Copy, Debug, PartialEq, Eq, Structural)]
pub enum TreeAppearance {
    Full,
    Blossoming,
    Autumn,
    Bare,
}

/// The colours and vegetation settings of the world scene for one frame.
#[derive(Clone, Copy, Debug)]
pub struct WorldSceneStyle {
    pub roof: Color,
    pub wood: Color,
    pub door: Color,
    pub window: Color,
    pub trim: Color,
    pub grass_primary: Color,
    pub grass_secondary: Color,
    pub flower_colors: [Color; 4],
    pub flower_chance: u32,
    pub soil: Color,
    pub tree_foliage: Color,
    pub tree_appearance: TreeAppearance,
    pub fruit_colors: [Color; 3],
    pub fence: Color,
    pub mailbox: Color,
    pub water: Color,
    pub water_edge: Color,
}

/// The day or night style, before the season is applied.
pub open spec fn base_style(palette: Palette, is_day: bool) -> WorldSceneStyle {
    if is_day {
        WorldSceneStyle {
            roof: palette.accent_primary,
            wood: palette.accent_secondary,
            door: rgb(139, 69, 19),
            window: Color::Cyan,
            trim: Color::DarkGrey,
            grass_primary: palette.ground_day,
            grass_secondary: Color::DarkGreen,
            flower_colors: [Color::Magenta, Color::Red, Color::Cyan, Color::Yellow],
            flower_chance: 5,
            soil: rgb(101, 67, 33),
            tree_foliage: Color::DarkGreen,
            tree_appearance: TreeAppearance::Full,
            fruit_colors: [Color::Red, Color::Yellow, rgb(210, 60, 35)],
            fence: Color::White,
            mailbox: Color::Blue,
            water: Color::Blue,
            water_edge: Color::Cyan,
        }
    } else {
        WorldSceneStyle {
            roof: Color::DarkMagenta,
            wood: rgb(100, 70, 50),
            door: rgb(80, 40, 10),
            window: Color::Yellow,
            trim: Color::DarkGrey,
            grass_primary: palette.ground_night,
            grass_secondary: rgb(0, 50, 0),
            flower_colors: [Color::DarkMagenta, Color::DarkRed, Color::Blue, Color::DarkYellow],
            flower_chance: 5,
            soil: rgb(60, 40, 20),
            tree_foliage: rgb(0, 50, 0),
            tree_appearance: TreeAppearance::Full,
            fruit_colors: [Color::DarkRed, Color::DarkYellow, rgb(130, 45, 25)],
            fence: Color::Grey,
            mailbox: Color::DarkBlue,
            water: Color::DarkBlue,
            water_edge: Color::Blue,
        }
    }
}

/// The seasonal adjustments of vegetation, ground and water.
pub open spec fn seasonal_style(s: WorldSceneStyle, season: Season, is_day: bool) -> WorldSceneStyle {
    match season {
        Season::Spring => if is_day {
            WorldSceneStyle {
                grass_primary: rgb(100, 190, 75),
                grass_secondary: rgb(45, 130, 55),
                soil: rgb(82, 68, 45),
                water: rgb(40, 135, 190),
                water_edge: rgb(80, 190, 180),
                flower_colors: [Color::Magenta, Color::Red, Color::Yellow, Color::White],
                tree_foliage: Color::Green,
                flower_chance: 18,
                tree_appearance: TreeAppearance::Blossoming,
                ..s
            }
        } else {
            WorldSceneStyle {
                grass_primary: Color::DarkGreen,
                grass_secondary: rgb(20, 70, 25),
                soil: rgb(42, 36, 28),
                water: Color::DarkBlue,
                water_edge: Color::Blue,
                flower_colors: [Color::DarkMagenta, Color::DarkRed, Color::DarkYellow, Color::Blue],
                tree_foliage: rgb(0, 50, 0),
                flower_chance: 18,
                tree_appearance: TreeAppearance::Blossoming,
                ..s
            }
        },
        Season::Summer => if is_day {
            WorldSceneStyle {
                grass_primary: Color::Green,
                grass_secondary: Color::DarkGreen,
                soil: rgb(128, 94, 48),
                water: rgb(30, 135, 205),
                water_edge: Color::Cyan,
                tree_foliage: Color::Green,
                fruit_colors: [Color::Red, Color::Yellow, rgb(210, 60, 35)],
                flower_chance: 3,
                tree_appearance: TreeAppearance::Full,
                ..s
            }
        } else {
            WorldSceneStyle {
                grass_primary: Color::DarkGreen,
                grass_secondary: rgb(0, 40, 0),
                soil: rgb(60, 45, 25),
                water: Color::DarkBlue,
                water_edge: Color::Blue,
                tree_foliage: rgb(0, 50, 0),
                fruit_colors: [Color::DarkRed, Color::DarkYellow, rgb(130, 45, 25)],
                flower_chance: 3,
                tree_appearance: TreeAppearance::Full,
                ..s
            }
        },
        Season::Autumn => if is_day {
            WorldSceneStyle {
                grass_primary: Color::DarkYellow,
                grass_secondary: rgb(139, 69, 19),
                soil: rgb(112, 70, 34),
                water: rgb(35, 115, 165),
                water_edge: rgb(70, 160, 160),
                flower_colors: [Color::DarkRed, rgb(128, 45, 15), Color::DarkYellow, rgb(139, 69, 19)],
                tree_foliage: Color::DarkYellow,
                flower_chance: 2,
                tree_appearance: TreeAppearance::Autumn,
                ..s
            }
        } else {
            WorldSceneStyle {
                grass_primary: rgb(80, 55, 15),
                grass_secondary: rgb(80, 40, 10),
                soil: rgb(62, 40, 22),
                water: Color::DarkBlue,
                water_edge: Color::Blue,
                flower_colors: [Color::DarkRed, Color::DarkYellow, Color::DarkMagenta, rgb(80, 40, 10)],
                tree_foliage: rgb(80, 50, 15),
                flower_chance: 2,
                tree_appearance: TreeAppearance::Autumn,
                ..s
            }
        },
        Season::Winter => if is_day {
            WorldSceneStyle {
                grass_primary: rgb(145, 155, 125),
                grass_secondary: rgb(105, 115, 95),
                soil: rgb(135, 130, 115),
                water: rgb(90, 130, 155),
                water_edge: rgb(165, 190, 195),
                tree_foliage: rgb(100, 70, 45),
                flower_chance: 0,
                tree_appearance: TreeAppearance::Bare,
                ..s
            }
        } else {
            WorldSceneStyle {
                grass_primary: rgb(55, 65, 55),
                grass_secondary: rgb(40, 48, 40),
                soil: rgb(65, 65, 60),
                water: rgb(55, 80, 100),
                water_edge: rgb(100, 125, 135),
                tree_foliage: rgb(55, 40, 30),
                flower_chance: 0,
                tree_appearance: TreeAppearance::Bare,
                ..s
            }
        },
    }
}

impl WorldSceneStyle {
    pub open spec fn spec_resolve(palette: Palette, season: Season, is_day: bool) -> WorldSceneStyle {
        seasonal_style(base_style(palette, is_day), season, is_day)
    }

    /// The style of the world scene: the day/night look first, then the
    /// season's vegetation and ground.
    pub fn resolve(ctx: &SceneContext<'_>) -> (s: Self)
        ensures
            s == Self::spec_resolve(*ctx.palette, ctx.season, ctx.conditions.is_day),
    {
        let palette = ctx.palette;
        let mut style = if ctx.conditions.is_day {
            WorldSceneStyle {
                roof: palette.accent_primary,
                wood: palette.accent_secondary,
                door: Color::Rgb { r: 139, g: 69, b: 19 },
                window: Color::Cyan,
                trim: Color::DarkGrey,
                grass_primary: palette.ground_day,
                grass_secondary: Color::DarkGreen,
                flower_colors: [Color::Magenta, Color::Red, Color::Cyan, Color::Yellow],
                flower_chance: 5,
                soil: Color::Rgb { r: 101, g: 67, b: 33 },
                tree_foliage: Color::DarkGreen,
                tree_appearance: TreeAppearance::Full,
                fruit_colors: [Color::Red, Color::Yellow, Color::Rgb { r: 210, g: 60, b: 35 }],
                fence: Color::White,
                mailbox: Color::Blue,
                water: Color::Blue,
                water_edge: Color::Cyan,
            }
        } else {
            WorldSceneStyle {
                roof: Color::DarkMagenta,
                wood: Color::Rgb { r: 100, g: 70, b: 50 },
                door: Color::Rgb { r: 80, g: 40, b: 10 },
                window: Color::Yellow,
                trim: Color::DarkGrey,
                grass_primary: palette.ground_night,
                grass_secondary: Color::Rgb { r: 0, g: 50, b: 0 },
                flower_colors: [Color::DarkMagenta, Color::DarkRed, Color::Blue, Color::DarkYellow],
                flower_chance: 5,
                soil: Color::Rgb { r: 60, g: 40, b: 20 },
                tree_foliage: Color::Rgb { r: 0, g: 50, b: 0 },
                tree_appearance: TreeAppearance::Full,
                fruit_colors: [Color::DarkRed, Color::DarkYellow, Color::Rgb { r: 130, g: 45, b: 25 }],
                fence: Color::Grey,
                mailbox: Color::DarkBlue,
                water: Color::DarkBlue,
                water_edge: Color::Blue,
            }
        };

        style.apply_season(ctx.season, ctx.conditions.is_day);
        style
    }

    /// Recolour vegetation, ground and water for `season`.
    pub fn apply_season(&mut self, season: Season, is_day: bool)
        ensures
            *final(self) == seasonal_style(*old(self), season, is_day),
    {
        match season {
            Season::Spring => {
                if is_day {
                    self.grass_primary = Color::Rgb { r: 100, g: 190, b: 75 };
                    self.grass_secondary = Color::Rgb { r: 45, g: 130, b: 55 };
                    self.soil = Color::Rgb { r: 82, g: 68, b: 45 };
                    self.water = Color::Rgb { r: 40, g: 135, b: 190 };
                    self.water_edge = Color::Rgb { r: 80, g: 190, b: 180 };
                    self.flower_colors = [Color::Magenta, Color::Red, Color::Yellow, Color::White];
                    self.tree_foliage = Color::Green;
                } else {
                    self.grass_primary = Color::DarkGreen;
                    self.grass_secondary = Color::Rgb { r: 20, g: 70, b: 25 };
                    self.soil = Color::Rgb { r: 42, g: 36, b: 28 };
                    self.water = Color::DarkBlue;
                    self.water_edge = Color::Blue;
                    self.flower_colors = [Color::DarkMagenta, Color::DarkRed, Color::DarkYellow, Color::Blue];
                    self.tree_foliage = Color::Rgb { r: 0, g: 50, b: 0 };
                }
                self.flower_chance = 18;
                self.tree_appearance = TreeAppearance::Blossoming;
            },
            Season::Summer => {
                if is_day {
                    self.grass_primary = Color::Green;
                    self.grass_secondary = Color::DarkGreen;
                    self.soil = Color::Rgb { r: 128, g: 94, b: 48 };
                    self.water = Color::Rgb { r: 30, g: 135, b: 205 };
                    self.water_edge = Color::Cyan;
                    self.tree_foliage = Color::Green;
                    self.fruit_colors = [Color::Red, Color::Yellow, Color::Rgb { r: 210, g: 60, b: 35 }];
                } else {
                    self.grass_primary = Color::DarkGreen;
                    self.grass_secondary = Color::Rgb { r: 0, g: 40, b: 0 };
                    self.soil = Color::Rgb { r: 60, g: 45, b: 25 };
                    self.water = Color::DarkBlue;
                    self.water_edge = Color::Blue;
                    self.tree_foliage = Color::Rgb { r: 0, g: 50, b: 0 };
                    self.fruit_colors = [Color::DarkRed, Color::DarkYellow, Color::Rgb { r: 130, g: 45, b: 25 }];
                }
                self.flower_chance = 3;
                self.tree_appearance = TreeAppearance::Full;
            },
            Season::Autumn => {
                if is_day {
                    self.grass_primary = Color::DarkYellow;
                    self.grass_secondary = Color::Rgb { r: 139, g: 69, b: 19 };
                    self.soil = Color::Rgb { r: 112, g: 70, b: 34 };
                    self.water = Color::Rgb { r: 35, g: 115, b: 165 };
                    self.water_edge = Color::Rgb { r: 70, g: 160, b: 160 };
                    self.flower_colors = [
                        Color::DarkRed,
                        Color::Rgb { r: 128, g: 45, b: 15 },
                        Color::DarkYellow,
                        Color::Rgb { r: 139, g: 69, b: 19 },
                    ];
                    self.tree_foliage = Color::DarkYellow;
                } else {
                    self.grass_primary = Color::Rgb { r: 80, g: 55, b: 15 };
                    self.grass_secondary = Color::Rgb { r: 80, g: 40, b: 10 };
                    self.soil = Color::Rgb { r: 62, g: 40, b: 22 };
                    self.water = Color::DarkBlue;
                    self.water_edge = Color::Blue;
                    self.flower_colors = [
                        Color::DarkRed,
                        Color::DarkYellow,
                        Color::DarkMagenta,
                        Color::Rgb { r: 80, g: 40, b: 10 },
                    ];
                    self.tree_foliage = Color::Rgb { r: 80, g: 50, b: 15 };
                }
                self.flower_chance = 2;
                self.tree_appearance = TreeAppearance::Autumn;
            },
            Season::Winter => {
                if is_day {
                    self.grass_primary = Color::Rgb { r: 145, g: 155, b: 125 };
                    self.grass_secondary = Color::Rgb { r: 105, g: 115, b: 95 };
                    self.soil = Color::Rgb { r: 135, g: 130, b: 115 };
                    self.water = Color::Rgb { r: 90, g: 130, b: 155 };
                    self.water_edge = Color::Rgb { r: 165, g: 190, b: 195 };
                    self.tree_foliage = Color::Rgb { r: 100, g: 70, b: 45 };
                } else {
                    self.grass_primary = Color::Rgb { r: 55, g: 65, b: 55 };
                    self.grass_secondary = Color::Rgb { r: 40, g: 48, b: 40 };
                    self.soil = Color::Rgb { r: 65, g: 65, b: 60 };
                    self.water = Color::Rgb { r: 55, g: 80, b: 100 };
                    self.water_edge = Color::Rgb { r: 100, g: 125, b: 135 };
                    self.tree_foliage = Color::Rgb { r: 55, g: 40, b: 30 };
                }
                self.flower_chance = 0;
                self.tree_appearance = TreeAppearance::Bare;
            },
        }
    }
}

/// The house, fence and mailbox colours follow day and night only: the
/// season never changes them.
pub proof fn lemma_season_keeps_house_colours(palette: Palette, a: Season, b: Season, is_day: bool)
    ensures
        ({
            let x = WorldSceneStyle::spec_resolve(palette, a, is_day);
            let y = WorldSceneStyle::spec_resolve(palette, b, is_day);
            &&& x.roof == y.roof
            &&& x.wood == y.wood
            &&& x.door == y.door
            &&& x.window == y.window
            &&& x.trim == y.trim
            &&& x.fence == y.fence
            &&& x.mailbox == y.mailbox
        }),
{
}

/// Spring blossoms, summer is in full leaf, autumn turns, winter is bare and
/// flowerless; flowers get rarer from spring through summer and autumn to
/// winter, by day and by night.
pub proof fn lemma_seasonal_vegetation(palette: Palette, is_day: bool)
    ensures
        ({
            let spring = WorldSceneStyle::spec_resolve(palette, Season::Spring, is_day);
            let summer = WorldSceneStyle::spec_resolve(palette, Season::Summer, is_day);
            let autumn = WorldSceneStyle::spec_resolve(palette, Season::Autumn, is_day);
            let winter = WorldSceneStyle::spec_resolve(palette, Season::Winter, is_day);
            &&& spring.tree_appearance == TreeAppearance::Blossoming
            &&& summer.tree_appearance == TreeAppearance::Full
            &&& autumn.tree_appearance == TreeAppearance::Autumn
            &&& winter.tree_appearance == TreeAppearance::Bare
            &&& winter.flower_chance == 0
            &&& spring.flower_chance > summer.flower_chance > autumn.flower_chance > winter.flower_chance
        }),
{
}

/// The spring daytime flowers include white.
pub proof fn lemma_spring_flowers_include_white(palette: Palette)
    ensures
        WorldSceneStyle::spec_resolve(palette, Season::Spring, true).flower_colors[3] == Color::White,
{
}

/// Each season grounds the scene in its own soil colour, by day and by
/// night, and no season's night soil or grass is its day soil or grass.
pub proof fn lemma_seasonal_ground_distinct(palette: Palette, is_day: bool)
    ensures
        ({
            let soil = |season: Season| WorldSceneStyle::spec_resolve(palette, season, is_day).soil;
            &&& soil(Season::Spring) != soil(Season::Summer)
            &&& soil(Season::Spring) != soil(Season::Autumn)
            &&& soil(Season::Spring) != soil(Season::Winter)
            &&& soil(Season::Summer) != soil(Season::Autumn)
            &&& soil(Season::Summer) != soil(Season::Winter)
            &&& soil(Season::Autumn) != soil(Season::Winter)
        }),
        forall|season: Season| #[trigger] WorldSceneStyle::spec_resolve(palette, season, true).soil
            != WorldSceneStyle::spec_resolve(palette, season, false).soil,
        forall|season: Season| #[trigger] WorldSceneStyle::spec_resolve(palette, season, true).grass_primary
            != WorldSceneStyle::spec_resolve(palette, season, false).grass_primary,
{
}

} // verus!
