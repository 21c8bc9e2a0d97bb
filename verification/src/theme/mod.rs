pub mod catalogue;

use crate::color::{rgb, Color};
use crate::season::Season;
use crate::weather::WeatherConditions;
use crate::text::str_eq;
use vstd::string::StringExecFns;
use vstd::prelude::*;

verus! {

/// The colours a theme provides, before day/night, season and weather are
/// taken into account.
#[derive(Clone, Copy, Debug, PartialEq, Eq, Structural)]
pub struct Palette {
    pub sky_day: Color,
    pub sky_night: Color,
    pub ground_day: Color,
    pub ground_night: Color,
    pub accent_primary: Color,
    pub accent_secondary: Color,
    pub atmosphere: Option<Color>,
    pub text_primary: Color,
    pub text_muted: Color,
    pub border: Color,
    pub surface: Color,
    pub temperature: Color,
    pub condition: Color,
    pub wind: Color,
    pub precipitation: Color,
    pub cloud: Color,
    pub sun: Color,
    pub moon: Color,
    pub rain: Color,
    pub snow: Color,
    pub thunderstorm: Color,
    pub fog: Color,
    pub vegetation: Color,
    pub soil: Color,
    pub tree: Color,
    pub blossom: Color,
    pub fruit: Color,
    pub smoke: Color,
}

/// The colours actually used for one frame.
#[derive(Clone, Copy, Debug, PartialEq, Eq, Structural)]
pub struct VisualPalette {
    pub sky: Color,
    pub ground: Color,
    pub text_primary: Color,
    pub text_muted: Color,
    pub border: Color,
    pub surface: Color,
    pub temperature: Color,
    pub condition: Color,
    pub wind: Color,
    pub precipitation: Color,
    pub cloud: Color,
    pub sun: Color,
    pub moon: Color,
    pub rain: Color,
    pub snow: Color,
    pub thunderstorm: Color,
    pub fog: Color,
    pub vegetation: Color,
    pub soil: Color,
    pub tree: Color,
    pub blossom: Color,
    pub fruit: Color,
    pub smoke: Color,
}

/// Step one: copy the theme, choosing the day or night sky and ground.
pub open spec fn visual_base(palette: Palette, is_day: bool) -> VisualPalette {
    VisualPalette {
        sky: if is_day { palette.sky_day } else { palette.sky_night },
        ground: if is_day { palette.ground_day } else { palette.ground_night },
        text_primary: palette.text_primary,
        text_muted: palette.text_muted,
        border: palette.border,
        surface: palette.surface,
        temperature: palette.temperature,
        condition: palette.condition,
        wind: palette.wind,
        precipitation: palette.precipitation,
        cloud: palette.cloud,
        sun: palette.sun,
        moon: palette.moon,
        rain: palette.rain,
        snow: palette.snow,
        thunderstorm: palette.thunderstorm,
        fog: palette.fog,
        vegetation: palette.vegetation,
        soil: palette.soil,
        tree: palette.tree,
        blossom: palette.blossom,
        fruit: palette.fruit,
        smoke: palette.smoke,
    }
}

/// Step two: at night, dim text, vegetation, trees and soil.
pub open spec fn visual_night(v: VisualPalette, is_day: bool) -> VisualPalette {
    if is_day {
        v
    } else {
        VisualPalette {
            text_primary: rgb(190, 205, 210),
            vegetation: rgb(36, 78, 58),
            tree: rgb(28, 62, 52),
            soil: rgb(42, 48, 48),
            ..v
        }
    }
}

/// Step three: the season recolours vegetation and trees (and blossom,
/// fruit or soil in some seasons).
pub open spec fn visual_season(v: VisualPalette, season: Season, is_day: bool) -> VisualPalette {
    match season {
        Season::Spring => VisualPalette {
            vegetation: if is_day { rgb(92, 174, 89) } else { rgb(35, 86, 54) },
            tree: if is_day { rgb(52, 132, 74) } else { rgb(24, 67, 44) },
            blossom: if is_day { rgb(235, 166, 185) } else { rgb(145, 92, 126) },
            ..v
        },
        Season::Summer => VisualPalette {
            vegetation: if is_day { rgb(46, 148, 73) } else { rgb(28, 82, 48) },
            tree: if is_day { rgb(38, 118, 59) } else { rgb(24, 70, 42) },
            ..v
        },
        Season::Autumn => VisualPalette {
            vegetation: if is_day { rgb(164, 134, 55) } else { rgb(82, 67, 30) },
            tree: if is_day { rgb(176, 112, 42) } else { rgb(92, 58, 28) },
            fruit: rgb(194, 82, 39),
            ..v
        },
        Season::Winter => VisualPalette {
            vegetation: if is_day { rgb(145, 158, 142) } else { rgb(58, 70, 68) },
            tree: if is_day { rgb(102, 83, 63) } else { rgb(66, 53, 46) },
            soil: if is_day { rgb(208, 216, 215) } else { rgb(83, 94, 96) },
            ..v
        },
    }
}

/// Step four: fog, thunderstorms, rain and snow (in that priority) tint the
/// sky; fog and thunderstorms also recolour clouds.
pub open spec fn visual_weather(
    v: VisualPalette,
    palette: Palette,
    conditions: WeatherConditions,
) -> VisualPalette {
    let is_day = conditions.is_day;
    if conditions.is_foggy {
        VisualPalette { sky: rgb(108, 125, 130), cloud: palette.fog, ..v }
    } else if conditions.is_thunderstorm {
        VisualPalette {
            sky: if is_day { rgb(62, 78, 102) } else { rgb(18, 24, 45) },
            cloud: palette.thunderstorm,
            ..v
        }
    } else if conditions.is_raining {
        VisualPalette { sky: if is_day { rgb(91, 124, 145) } else { rgb(24, 45, 66) }, ..v }
    } else if conditions.is_snowing {
        VisualPalette { sky: if is_day { rgb(166, 186, 198) } else { rgb(32, 52, 72) }, ..v }
    } else {
        v
    }
}

impl VisualPalette {
    pub open spec fn spec_resolve(
        palette: Palette,
        conditions: WeatherConditions,
        season: Season,
    ) -> VisualPalette {
        let is_day = conditions.is_day;
        visual_weather(
            visual_season(visual_night(visual_base(palette, is_day), is_day), season, is_day),
            palette,
            conditions,
        )
    }

    /// The frame colours for a theme palette under the given weather and season.
    pub fn resolve(palette: &Palette, conditions: &WeatherConditions, season: Season) -> (v: Self)
        ensures
            v == Self::spec_resolve(*palette, *conditions, season),
    {
        let is_day = conditions.is_day;
        let mut visual = VisualPalette {
            sky: if is_day { palette.sky_day } else { palette.sky_night },
            ground: if is_day { palette.ground_day } else { palette.ground_night },
            text_primary: palette.text_primary,
            text_muted: palette.text_muted,
            border: palette.border,
            surface: palette.surface,
            temperature: palette.temperature,
            condition: palette.condition,
            wind: palette.wind,
            precipitation: palette.precipitation,
            cloud: palette.cloud,
            sun: palette.sun,
            moon: palette.moon,
            rain: palette.rain,
            snow: palette.snow,
            thunderstorm: palette.thunderstorm,
            fog: palette.fog,
            vegetation: palette.vegetation,
            soil: palette.soil,
            tree: palette.tree,
            blossom: palette.blossom,
            fruit: palette.fruit,
            smoke: palette.smoke,
        };

        if !is_day {
            visual.text_primary = Color::Rgb { r: 190, g: 205, b: 210 };
            visual.vegetation = Color::Rgb { r: 36, g: 78, b: 58 };
            visual.tree = Color::Rgb { r: 28, g: 62, b: 52 };
            visual.soil = Color::Rgb { r: 42, g: 48, b: 48 };
        }

        match season {
            Season::Spring => {
                visual.vegetation = if is_day {
                    Color::Rgb { r: 92, g: 174, b: 89 }
                } else {
                    Color::Rgb { r: 35, g: 86, b: 54 }
                };
                visual.tree = if is_day {
                    Color::Rgb { r: 52, g: 132, b: 74 }
                } else {
                    Color::Rgb { r: 24, g: 67, b: 44 }
                };
                visual.blossom = if is_day {
                    Color::Rgb { r: 235, g: 166, b: 185 }
                } else {
                    Color::Rgb { r: 145, g: 92, b: 126 }
                };
            },
            Season::Summer => {
                visual.vegetation = if is_day {
                    Color::Rgb { r: 46, g: 148, b: 73 }
                } else {
                    Color::Rgb { r: 28, g: 82, b: 48 }
                };
                visual.tree = if is_day {
                    Color::Rgb { r: 38, g: 118, b: 59 }
                } else {
                    Color::Rgb { r: 24, g: 70, b: 42 }
                };
            },
            Season::Autumn => {
                visual.vegetation = if is_day {
                    Color::Rgb { r: 164, g: 134, b: 55 }
                } else {
                    Color::Rgb { r: 82, g: 67, b: 30 }
                };
                visual.tree = if is_day {
                    Color::Rgb { r: 176, g: 112, b: 42 }
                } else {
                    Color::Rgb { r: 92, g: 58, b: 28 }
                };
                visual.fruit = Color::Rgb { r: 194, g: 82, b: 39 };
            },
            Season::Winter => {
                visual.vegetation = if is_day {
                    Color::Rgb { r: 145, g: 158, b: 142 }
                } else {
                    Color::Rgb { r: 58, g: 70, b: 68 }
                };
                visual.tree = if is_day {
                    Color::Rgb { r: 102, g: 83, b: 63 }
                } else {
                    Color::Rgb { r: 66, g: 53, b: 46 }
                };
                visual.soil = if is_day {
                    Color::Rgb { r: 208, g: 216, b: 215 }
                } else {
                    Color::Rgb { r: 83, g: 94, b: 96 }
                };
            },
        }

        if conditions.is_foggy {
            visual.sky = Color::Rgb { r: 108, g: 125, b: 130 };
            visual.cloud = palette.fog;
        } else if conditions.is_thunderstorm {
            visual.sky = if is_day {
                Color::Rgb { r: 62, g: 78, b: 102 }
            } else {
                Color::Rgb { r: 18, g: 24, b: 45 }
            };
            visual.cloud = palette.thunderstorm;
        } else if conditions.is_raining {
            visual.sky = if is_day {
                Color::Rgb { r: 91, g: 124, b: 145 }
            } else {
                Color::Rgb { r: 24, g: 45, b: 66 }
            };
        } else if conditions.is_snowing {
            visual.sky = if is_day {
                Color::Rgb { r: 166, g: 186, b: 198 }
            } else {
                Color::Rgb { r: 32, g: 52, b: 72 }
            };
        }

        visual
    }
}

impl Default for VisualPalette {
    /// The default palette on a clear summer day.
    fn default() -> (v: Self)
        ensures
            v == VisualPalette::spec_resolve(
                crate::theme::catalogue::spec_default_palette(),
                WeatherConditions {
                    is_day: true,
                    is_raining: false,
                    is_snowing: false,
                    is_thunderstorm: false,
                    is_foggy: false,
                },
                Season::Summer,
            ),
    {
        VisualPalette::resolve(&crate::theme::catalogue::default_palette(), &WeatherConditions::default(), Season::Summer)
    }
}

/// Weather only tints the sky and the clouds: two frames under the same
/// theme, season and time of day agree on every other colour, whatever it
/// rains, snows or storms.
pub proof fn lemma_weather_only_changes_sky_and_clouds(
    palette: Palette,
    a: WeatherConditions,
    b: WeatherConditions,
    season: Season,
)
    requires
        a.is_day == b.is_day,
    ensures
        ({
            let x = VisualPalette::spec_resolve(palette, a, season);
            let y = VisualPalette::spec_resolve(palette, b, season);
            VisualPalette { sky: y.sky, cloud: y.cloud, ..x } == y
        }),
{
}

/// The sky follows the weather, the strongest weather winning: fog gives
/// the fog sky and fog clouds; otherwise a thunderstorm gives the storm sky
/// and storm clouds; otherwise rain gives the rain sky and snow the snow
/// sky, each lighter by day than by night, with the clear-weather clouds;
/// clear weather leaves sky and clouds as they are without any weather.
pub proof fn lemma_weather_sets_the_sky(palette: Palette, conditions: WeatherConditions, season: Season)
    ensures
        ({
            let v = VisualPalette::spec_resolve(palette, conditions, season);
            let clear = VisualPalette::spec_resolve(
                palette,
                WeatherConditions {
                    is_day: conditions.is_day,
                    is_raining: false,
                    is_snowing: false,
                    is_thunderstorm: false,
                    is_foggy: false,
                },
                season,
            );
            let day = conditions.is_day;
            if conditions.is_foggy {
                v.sky == Color::Rgb { r: 108, g: 125, b: 130 } && v.cloud == palette.fog
            } else if conditions.is_thunderstorm {
                &&& v.sky == (if day { Color::Rgb { r: 62, g: 78, b: 102 } } else { Color::Rgb { r: 18, g: 24, b: 45 } })
                &&& v.cloud == palette.thunderstorm
            } else if conditions.is_raining {
                &&& v.sky == (if day { Color::Rgb { r: 91, g: 124, b: 145 } } else { Color::Rgb { r: 24, g: 45, b: 66 } })
                &&& v.cloud == clear.cloud
            } else if conditions.is_snowing {
                &&& v.sky == (if day { Color::Rgb { r: 166, g: 186, b: 198 } } else { Color::Rgb { r: 32, g: 52, b: 72 } })
                &&& v.cloud == clear.cloud
            } else {
                v == clear
            }
        }),
{
}

/// The weather colours of the theme reach the frame unchanged.
pub proof fn lemma_theme_weather_colours_kept(palette: Palette, conditions: WeatherConditions, season: Season)
    ensures
        ({
            let v = VisualPalette::spec_resolve(palette, conditions, season);
            &&& v.thunderstorm == palette.thunderstorm
            &&& v.rain == palette.rain
            &&& v.snow == palette.snow
            &&& v.fog == palette.fog
            &&& v.sun == palette.sun
            &&& v.moon == palette.moon
            &&& v.ground == (if conditions.is_day { palette.ground_day } else { palette.ground_night })
        }),
{
}

/// A named look for the application: which scene it shows, which overlay it
/// adds and the colours it uses.
#[derive(Clone, Copy, Debug)]
pub struct Theme {
    pub id: &'static str,
    pub display_name: &'static str,
    pub scene_id: &'static str,
    pub overlay_id: Option<&'static str>,
    pub palette: Palette,
}

/// Why a theme could not be used.
#[derive(Debug)]
pub enum ThemeError {
    NotFound(String),
    SceneNotRegistered { theme: &'static str, scene: &'static str },
}

impl ThemeError {
    pub open spec fn spec_message(&self) -> Seq<char> {
        match self {
            ThemeError::NotFound(id) => "theme '"@ + id@ + "' is not registered"@,
            ThemeError::SceneNotRegistered { theme, scene } =>
                "theme '"@ + theme@ + "' references unregistered scene '"@ + scene@ + "'"@,
        }
    }

    /// The human-readable description of the error.
    pub fn message(&self) -> (m: String)
        ensures
            m@ == self.spec_message(),
    {
        match self {
            ThemeError::NotFound(id) => {
                String::from_str("theme '").concat(id.as_str()).concat("' is not registered")
            },
            ThemeError::SceneNotRegistered { theme, scene } => {
                String::from_str("theme '").concat(theme).concat(
                    "' references unregistered scene '",
                ).concat(scene).concat("'")
            },
        }
    }
}

/// No two themes in `s` share an id.
pub open spec fn ids_unique(s: Seq<Theme>) -> bool {
    forall|i: int, j: int| 0 <= i < s.len() && 0 <= j < s.len() && i != j ==> s[i].id@ != s[j].id@
}

/// Some theme in `s` has the id `id`.
pub open spec fn seq_has_id(s: Seq<Theme>, id: Seq<char>) -> bool {
    exists|i: int| 0 <= i < s.len() && s[i].id@ == id
}

/// The themes of `s` by id.
pub open spec fn themes_by_id(s: Seq<Theme>) -> Map<Seq<char>, Theme> {
    Map::new(
        |id: Seq<char>| seq_has_id(s, id),
        |id: Seq<char>| s[choose|i: int| 0 <= i < s.len() && s[i].id@ == id],
    )
}

proof fn lemma_by_id_at(s: Seq<Theme>, i: int)
    requires
        ids_unique(s),
        0 <= i < s.len(),
    ensures
        themes_by_id(s).dom().contains(s[i].id@),
        themes_by_id(s)[s[i].id@] == s[i],
{
    let id = s[i].id@;
    assert(seq_has_id(s, id));
    let k = choose|k: int| 0 <= k < s.len() && s[k].id@ == id;
    assert(k == i);
}

/// The registered themes, one per id, and the id of the active one.
pub struct ThemeRegistry {
    themes: Vec<Theme>,
    active: &'static str,
}

impl View for ThemeRegistry {
    type V = Map<Seq<char>, Theme>;

    closed spec fn view(&self) -> Map<Seq<char>, Theme> {
        themes_by_id(self.themes@)
    }
}

impl ThemeRegistry {
    /// The id of the active theme.
    pub closed spec fn active_id(&self) -> Seq<char> {
        self.active@
    }

    /// Every id is registered at most once.
    pub closed spec fn unique(&self) -> bool {
        ids_unique(self.themes@)
    }

    /// The registry is consistent: ids are unique, and both the active theme
    /// and the default theme are registered.
    pub closed spec fn wf(&self) -> bool {
        &&& ids_unique(self.themes@)
        &&& self@.dom().contains(self.active@)
        &&& self@.dom().contains("default"@)
    }

    /// The registry of the built-in themes, with the default theme active.
    pub fn new() -> (r: Self)
        ensures
            r.wf(),
            r@ == Map::<Seq<char>, Theme>::empty().insert(
                "default"@,
                crate::theme::catalogue::spec_default_theme(),
            ),
            r.active_id() == "default"@,
    {
        let mut registry = ThemeRegistry { themes: Vec::new(), active: "default" };
        proof {
            assert(registry@ =~= Map::<Seq<char>, Theme>::empty());
        }
        catalogue::register_all(&mut registry);
        registry
    }

    /// Position of the theme with id `id`, if any.
    fn find(&self, id: &str) -> (r: Option<usize>)
        ensures
            r matches Some(i) ==> i < self.themes@.len() && self.themes@[i as int].id@ == id@,
            r is None ==> !seq_has_id(self.themes@, id@),
    {
        let n = self.themes.len();
        let mut i: usize = 0;
        while i < n
            invariant
                n == self.themes@.len(),
                i <= n,
                forall|j: int| 0 <= j < i ==> self.themes@[j].id@ != id@,
            decreases n - i,
        {
            if str_eq(self.themes[i].id, id) {
                return Some(i);
            }
            i = i + 1;
        }
        None
    }

    /// Register `theme` under its id, replacing any theme with the same id.
    pub fn register(&mut self, theme: Theme)
        requires
            old(self).unique(),
        ensures
            final(self).unique(),
            old(self).wf() ==> final(self).wf(),
            final(self)@ == old(self)@.insert(theme.id@, theme),
            final(self).active_id() == old(self).active_id(),
    {
        let ghost old_themes = self.themes@;
        match self.find(theme.id) {
            Some(i) => {
                self.themes.set(i, theme);
                proof {
                    let s = self.themes@;
                    assert(s == old_themes.update(i as int, theme));
                    assert forall|a: int, b: int|
                        0 <= a < s.len() && 0 <= b < s.len() && a != b implies s[a].id@ != s[b].id@ by {
                        if a != i && b != i {
                            assert(old_themes[a].id@ != old_themes[b].id@);
                        } else if a == i {
                            assert(old_themes[a].id@ != old_themes[b].id@);
                        } else {
                            assert(old_themes[a].id@ != old_themes[b].id@);
                        }
                    }
                    assert forall|id: Seq<char>| #[trigger] seq_has_id(s, id) == (id == theme.id@ || seq_has_id(old_themes, id)) by {
                        if seq_has_id(old_themes, id) {
                            let k = choose|k: int| 0 <= k < old_themes.len() && old_themes[k].id@ == id;
                            if k != i {
                                assert(s[k].id@ == id);
                            } else {
                                assert(s[i as int].id@ == id);
                            }
                        }
                        if seq_has_id(s, id) {
                            let k = choose|k: int| 0 <= k < s.len() && s[k].id@ == id;
                            if k != i {
                                assert(old_themes[k].id@ == id);
                            }
                        }
                    }
                    assert forall|id: Seq<char>| #[trigger] themes_by_id(s).dom().contains(id) implies
                        themes_by_id(s)[id] == old_self_insert(old_themes, theme)[id] by {
                        let k = choose|k: int| 0 <= k < s.len() && s[k].id@ == id;
                        lemma_by_id_at(s, k);
                        if k == i {
                            assert(id == theme.id@);
                        } else {
                            lemma_by_id_at(old_themes, k);
                        }
                    }
                    assert(themes_by_id(s) =~= themes_by_id(old_themes).insert(theme.id@, theme));
                }
            },
            None => {
                self.themes.push(theme);
                proof {
                    let s = self.themes@;
                    assert(s == old_themes.push(theme));
                    let n = old_themes.len() as int;
                    assert forall|a: int, b: int|
                        0 <= a < s.len() && 0 <= b < s.len() && a != b implies s[a].id@ != s[b].id@ by {
                        if a < n && b < n {
                            assert(old_themes[a].id@ != old_themes[b].id@);
                        } else if a == n {
                            assert(!seq_has_id(old_themes, theme.id@));
                            assert(s[b] == old_themes[b]);
                        } else {
                            assert(!seq_has_id(old_themes, theme.id@));
                            assert(s[a] == old_themes[a]);
                        }
                    }
                    assert forall|id: Seq<char>| #[trigger] seq_has_id(s, id) == (id == theme.id@ || seq_has_id(old_themes, id)) by {
                        if seq_has_id(old_themes, id) {
                            let k = choose|k: int| 0 <= k < old_themes.len() && old_themes[k].id@ == id;
                            assert(s[k].id@ == id);
                        }
                        if id == theme.id@ {
                            assert(s[n].id@ == id);
                        }
                        if seq_has_id(s, id) {
                            let k = choose|k: int| 0 <= k < s.len() && s[k].id@ == id;
                            if k != n {
                                assert(old_themes[k].id@ == id);
                            }
                        }
                    }
                    assert forall|id: Seq<char>| #[trigger] themes_by_id(s).dom().contains(id) implies
                        themes_by_id(s)[id] == old_self_insert(old_themes, theme)[id] by {
                        let k = choose|k: int| 0 <= k < s.len() && s[k].id@ == id;
                        lemma_by_id_at(s, k);
                        if k != n {
                            lemma_by_id_at(old_themes, k);
                        }
                    }
                    assert(themes_by_id(s) =~= themes_by_id(old_themes).insert(theme.id@, theme));
                }
            },
        }
    }

    /// Make the theme `id` the active one, or report that it is not registered.
    pub fn set_active(&mut self, id: &str) -> (r: Result<(), ThemeError>)
        requires
            old(self).wf(),
        ensures
            final(self).wf(),
            final(self)@ == old(self)@,
            old(self)@.dom().contains(id@) ==> r is Ok && final(self).active_id() == id@,
            !old(self)@.dom().contains(id@) ==> final(self).active_id() == old(self).active_id()
                && (r matches Err(ThemeError::NotFound(missing)) && missing@ == id@),
    {
        match self.find(id) {
            Some(i) => {
                self.active = self.themes[i].id;
                proof {
                    lemma_by_id_at(self.themes@, i as int);
                }
                Ok(())
            },
            None => Err(ThemeError::NotFound(id.to_owned())),
        }
    }

    /// The active theme.
    pub fn active(&self) -> (t: &Theme)
        requires
            self.wf(),
        ensures
            *t == self@[self.active_id()],
    {
        match self.find(self.active) {
            Some(i) => {
                proof {
                    lemma_by_id_at(self.themes@, i as int);
                }
                &self.themes[i]
            },
            None => {
                proof {
                    assert(false);
                }
                &self.themes[0]
            },
        }
    }

    /// The theme registered as `id`, if any.
    pub fn get(&self, id: &str) -> (t: Option<&Theme>)
        requires
            self.unique(),
        ensures
            t is Some <==> self@.dom().contains(id@),
            t matches Some(theme) ==> *theme == self@[id@],
    {
        match self.find(id) {
            Some(i) => {
                proof {
                    lemma_by_id_at(self.themes@, i as int);
                }
                Some(&self.themes[i])
            },
            None => None,
        }
    }

    /// What a consistent registry guarantees: unique ids, and both the
    /// active and the default theme registered.
    pub proof fn lemma_wf(&self)
        requires
            self.wf(),
        ensures
            self.unique(),
            self@.dom().contains(self.active_id()),
            self@.dom().contains("default"@),
    {
    }
}

spec fn old_self_insert(s: Seq<Theme>, theme: Theme) -> Map<Seq<char>, Theme> {
    themes_by_id(s).insert(theme.id@, theme)
}

impl Default for ThemeRegistry {
    /// The same registry as `new`.
    fn default() -> (r: Self)
        ensures
            r.wf(),
            r@ == Map::<Seq<char>, Theme>::empty().insert(
                "default"@,
                crate::theme::catalogue::spec_default_theme(),
            ),
            r.active_id() == "default"@,
    {
        ThemeRegistry::new()
    }
}

/// Registering a theme makes it what its id looks up, and leaves every other
/// id as it was.
pub proof fn lemma_register_then_get(before: ThemeRegistry, after: ThemeRegistry, theme: Theme, other: Seq<char>)
    requires
        after@ == before@.insert(theme.id@, theme),
    ensures
        after@.dom().contains(theme.id@),
        after@[theme.id@] == theme,
        other != theme.id@ ==> (after@.dom().contains(other) == before@.dom().contains(other)),
        other != theme.id@ && before@.dom().contains(other) ==> after@[other] == before@[other],
{
}

} // verus!
