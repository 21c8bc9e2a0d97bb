use weathr::app::{resolve_theme_bindings, DEFAULT_THEME_ID};
use weathr::color::Color;
use weathr::scene::world::style::{TreeAppearance, WorldSceneStyle};
use weathr::scene::SceneContext;
use weathr::season::Season;
use weathr::theme::catalogue::default_palette;
use weathr::theme::{Theme, ThemeError, ThemeRegistry, VisualPalette};
use weathr::weather::WeatherConditions;

fn style_for(season: Season) -> WorldSceneStyle {
    let conditions = WeatherConditions::default();
    let palette = default_palette();
    let context = SceneContext {
        conditions: &conditions,
        palette: &palette,
        season,
    };
    WorldSceneStyle::resolve(&context)
}

fn style_for_time(season: Season, is_day: bool) -> WorldSceneStyle {
    let mut conditions = WeatherConditions::default();
    conditions.is_day = is_day;
    let palette = default_palette();
    let context = SceneContext {
        conditions: &conditions,
        palette: &palette,
        season,
    };
    WorldSceneStyle::resolve(&context)
}

#[test]
fn seasonal_styles_select_expected_vegetation() {
    let spring = style_for(Season::Spring);
    assert_eq!(spring.tree_appearance, TreeAppearance::Blossoming);
    assert_eq!(spring.flower_chance, 18);
    assert_eq!(
        spring.soil,
        Color::Rgb {
            r: 82,
            g: 68,
            b: 45
        }
    );

    let summer = style_for(Season::Summer);
    assert_eq!(summer.tree_appearance, TreeAppearance::Full);
    assert_eq!(summer.flower_chance, 3);
    assert_eq!(
        summer.soil,
        Color::Rgb {
            r: 128,
            g: 94,
            b: 48
        }
    );
    assert_eq!(summer.fruit_colors[0], Color::Red);

    let autumn = style_for(Season::Autumn);
    assert_eq!(autumn.tree_appearance, TreeAppearance::Autumn);
    assert_eq!(autumn.flower_chance, 2);
    assert!(autumn.flower_chance < summer.flower_chance);
    assert_eq!(
        autumn.soil,
        Color::Rgb {
            r: 112,
            g: 70,
            b: 34
        }
    );
    assert_eq!(
        autumn.flower_colors,
        [
            Color::DarkRed,
            Color::Rgb {
                r: 128,
                g: 45,
                b: 15,
            },
            Color::DarkYellow,
            Color::Rgb {
                r: 139,
                g: 69,
                b: 19,
            },
        ]
    );

    let winter = style_for(Season::Winter);
    assert_eq!(winter.tree_appearance, TreeAppearance::Bare);
    assert_eq!(winter.flower_chance, 0);
    assert_eq!(
        winter.grass_primary,
        Color::Rgb {
            r: 145,
            g: 155,
            b: 125,
        }
    );
    assert_eq!(
        winter.soil,
        Color::Rgb {
            r: 135,
            g: 130,
            b: 115,
        }
    );
    assert_eq!(
        winter.water_edge,
        Color::Rgb {
            r: 165,
            g: 190,
            b: 195,
        }
    );
}

#[test]
fn seasonal_ground_and_night_styles_are_distinct() {
    let day_styles = [
        style_for(Season::Spring),
        style_for(Season::Summer),
        style_for(Season::Autumn),
        style_for(Season::Winter),
    ];
    assert_ne!(day_styles[0].soil, day_styles[1].soil);
    assert_ne!(day_styles[1].soil, day_styles[2].soil);
    assert_ne!(day_styles[2].soil, day_styles[3].soil);
    assert_ne!(day_styles[0].water_edge, day_styles[3].water_edge);

    let spring_night = style_for_time(Season::Spring, false);
    assert_eq!(spring_night.grass_primary, Color::DarkGreen);
    assert_eq!(spring_night.tree_foliage, Color::Rgb { r: 0, g: 50, b: 0 });
    assert_eq!(
        spring_night.soil,
        Color::Rgb {
            r: 42,
            g: 36,
            b: 28
        }
    );

    let winter_night = style_for_time(Season::Winter, false);
    assert_eq!(
        winter_night.water,
        Color::Rgb {
            r: 55,
            g: 80,
            b: 100,
        }
    );
    assert_ne!(spring_night.soil, winter_night.soil);
}

#[test]
fn house_colours_follow_day_and_night_only() {
    let spring = style_for(Season::Spring);
    let winter = style_for(Season::Winter);
    assert_eq!(spring.roof, winter.roof);
    assert_eq!(spring.fence, winter.fence);
    assert_eq!(spring.roof, default_palette().accent_primary);
    let night = style_for_time(Season::Summer, false);
    assert_eq!(night.roof, Color::DarkMagenta);
    assert_eq!(night.window, Color::Yellow);
    assert_eq!(spring.flower_colors[3], Color::White);
}

#[test]
fn visual_palette_distinguishes_day_night_and_seasons() {
    let day = WeatherConditions {
        is_day: true,
        ..WeatherConditions::default()
    };
    let night = WeatherConditions {
        is_day: false,
        ..WeatherConditions::default()
    };
    let palette = default_palette();

    let summer_day = VisualPalette::resolve(&palette, &day, Season::Summer);
    let winter_day = VisualPalette::resolve(&palette, &day, Season::Winter);
    let summer_night = VisualPalette::resolve(&palette, &night, Season::Summer);

    assert_ne!(summer_day.sky, summer_night.sky);
    assert_ne!(summer_day.vegetation, winter_day.vegetation);
    assert_ne!(summer_day.tree, winter_day.tree);
}

#[test]
fn weather_overlays_adjust_the_sky_without_changing_the_data_model() {
    let clear = WeatherConditions {
        is_day: true,
        ..WeatherConditions::default()
    };
    let mut storm = clear;
    storm.is_thunderstorm = true;
    let palette = default_palette();

    let clear_palette = VisualPalette::resolve(&palette, &clear, Season::Summer);
    let storm_palette = VisualPalette::resolve(&palette, &storm, Season::Summer);

    assert_ne!(clear_palette.sky, storm_palette.sky);
    assert_eq!(storm_palette.thunderstorm, default_palette().thunderstorm);
}

#[test]
fn fog_wins_over_other_weather_and_tints_clouds() {
    let conditions = WeatherConditions {
        is_day: false,
        is_foggy: true,
        is_raining: true,
        is_snowing: false,
        is_thunderstorm: true,
    };
    let palette = default_palette();
    let visual = VisualPalette::resolve(&palette, &conditions, Season::Autumn);
    assert_eq!(visual.sky, Color::Rgb { r: 108, g: 125, b: 130 });
    assert_eq!(visual.cloud, palette.fog);
    assert_eq!(visual.text_primary, Color::Rgb { r: 190, g: 205, b: 210 });
    assert_eq!(visual.fruit, Color::Rgb { r: 194, g: 82, b: 39 });
    assert_eq!(visual.ground, palette.ground_night);
}

fn custom_theme(id: &'static str, scene_id: &'static str, overlay_id: Option<&'static str>) -> Theme {
    Theme {
        id,
        display_name: "Custom",
        scene_id,
        overlay_id,
        palette: default_palette(),
    }
}

#[test]
fn bindings_fall_back_to_default_when_scene_missing() {
    let scenes = ["world"];
    let overlays: [&str; 0] = [];
    let mut themes = ThemeRegistry::new();
    themes.register(Theme {
        id: "custom",
        display_name: "Custom",
        scene_id: "unknown",
        overlay_id: None,
        palette: default_palette(),
    });
    themes.set_active("custom").unwrap();

    let (bindings, warnings) = resolve_theme_bindings(&themes, &scenes, &overlays);

    assert_eq!(bindings.theme_id, DEFAULT_THEME_ID);
    assert_eq!(bindings.scene_id, "world");
    assert_eq!(bindings.overlay_id, None);
    assert_eq!(
        warnings,
        vec!["Warning: theme 'custom' references missing scene 'unknown'. Falling back to 'default'.".to_string()]
    );
}

#[test]
fn bindings_disable_unregistered_overlay() {
    let scenes = ["world"];
    let overlays: [&str; 0] = [];
    let mut themes = ThemeRegistry::new();
    themes.register(Theme {
        id: "overlay-theme",
        display_name: "Overlay Theme",
        scene_id: "world",
        overlay_id: Some("hud"),
        palette: default_palette(),
    });
    themes.set_active("overlay-theme").unwrap();

    let (bindings, warnings) = resolve_theme_bindings(&themes, &scenes, &overlays);

    assert_eq!(bindings.theme_id, "overlay-theme");
    assert_eq!(bindings.scene_id, "world");
    assert_eq!(bindings.overlay_id, None);
    assert_eq!(
        warnings,
        vec!["Warning: theme 'overlay-theme' references missing overlay 'hud'. Overlay disabled.".to_string()]
    );
}

#[test]
fn bindings_keep_registered_overlay() {
    let scenes = ["world"];
    let overlays = ["hud"];
    let mut themes = ThemeRegistry::new();
    themes.register(Theme {
        id: "overlay",
        display_name: "Overlay",
        scene_id: "world",
        overlay_id: Some("hud"),
        palette: default_palette(),
    });
    themes.set_active("overlay").unwrap();

    let (bindings, warnings) = resolve_theme_bindings(&themes, &scenes, &overlays);

    assert_eq!(bindings.theme_id, "overlay");
    assert_eq!(bindings.overlay_id, Some("hud"));
    assert!(warnings.is_empty());
}

#[test]
fn registry_starts_with_the_default_theme_active() {
    let themes = ThemeRegistry::new();
    let active = themes.active();
    assert_eq!(active.id, "default");
    assert_eq!(active.scene_id, "world");
    assert_eq!(active.overlay_id, None);
    assert_eq!(active.palette, default_palette());
    assert!(themes.get("missing").is_none());
}

#[test]
fn registering_replaces_a_theme_with_the_same_id() {
    let mut themes = ThemeRegistry::new();
    themes.register(custom_theme("night", "world", None));
    themes.register(custom_theme("night", "garden", Some("hud")));
    let night = themes.get("night").unwrap();
    assert_eq!(night.scene_id, "garden");
    assert_eq!(night.overlay_id, Some("hud"));
    assert_eq!(themes.active().id, "default");
}

#[test]
fn activating_an_unknown_theme_is_reported_and_changes_nothing() {
    let mut themes = ThemeRegistry::new();
    match themes.set_active("nope") {
        Err(ThemeError::NotFound(id)) => assert_eq!(id, "nope"),
        _ => panic!("expected NotFound"),
    }
    assert_eq!(themes.active().id, "default");
    let error = ThemeError::NotFound("nope".to_string());
    assert_eq!(error.message(), "theme 'nope' is not registered");
    let scene_error = ThemeError::SceneNotRegistered { theme: "t", scene: "s" };
    assert_eq!(scene_error.message(), "theme 't' references unregistered scene 's'");
}

#[test]
fn default_visual_palette_is_the_default_theme_on_a_clear_summer_day() {
    let expected = VisualPalette::resolve(&default_palette(), &WeatherConditions::default(), Season::Summer);
    assert_eq!(VisualPalette::default(), expected);
    let registry = ThemeRegistry::default();
    assert_eq!(registry.active().id, DEFAULT_THEME_ID);
    assert!(registry.get("default").is_some());
}
