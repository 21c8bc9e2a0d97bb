use weathr::color::Color;
use weathr::season::Season;
use weathr::text::{fit_text, is_whitespace};
use weathr::theme::catalogue::default_palette;
use weathr::theme::VisualPalette;
use weathr::ui::hud::{render, wind_direction_label, HudModel, HudState, HudWeather, Reading};
use weathr::ui::layout::Rect;
use weathr::ui::status;
use weathr::weather::WeatherConditions;

#[derive(Clone, Copy)]
enum Units {
    Metric,
    Imperial,
}

fn reading(value: f64, unit: &str) -> Reading {
    Reading {
        value: format!("{value:.1}"),
        unit: unit.to_string(),
    }
}

/// 12.5 °C, 3.2 mm of rain and a 4.0 m/s wind from 225 degrees, shown in the
/// chosen unit system.
fn weather(units: Units) -> HudWeather {
    let (temperature, wind_speed, precipitation) = match units {
        Units::Metric => (
            reading(12.5, "°C"),
            reading(4.0 * 3.6, "km/h"),
            reading(3.2, "mm"),
        ),
        Units::Imperial => (
            reading(12.5 * 9.0 / 5.0 + 32.0, "°F"),
            reading(4.0 * 2.236_936, "mph"),
            reading(3.2 / 25.4, "in"),
        ),
    };
    let direction: f64 = 225.0;
    HudWeather {
        temperature,
        wind_speed,
        precipitation,
        wind_direction_tenths: (direction * 10.0).floor() as i64,
        wind_direction_text: format!("{direction:.0}"),
        timestamp: "2025-01-01T12:00:00Z".to_string(),
    }
}

fn state() -> HudState {
    HudState {
        location_label: Some("Gunzenhausen".to_string()),
        condition_text: "Rain".to_string(),
        is_offline: false,
        current_weather: Some(weather(Units::Metric)),
    }
}

#[test]
fn model_uses_only_available_weather_values() {
    let model = HudModel::from_state(&state(), "test provider", true);
    assert_eq!(model.temperature, "12.5°C");
    assert_eq!(model.wind, "14.4 km/h SW");
    assert!(model.details.iter().any(|line| line.contains("TIME")));
    assert!(!model.details.iter().any(|line| line.contains("humidity")));
}

#[test]
fn model_uses_selected_units_and_marks_offline_data() {
    let mut state = state();
    state.current_weather = Some(weather(Units::Imperial));
    state.is_offline = true;

    let model = HudModel::from_state(&state, "test provider", true);

    assert_eq!(model.temperature, "54.5°F");
    assert_eq!(model.wind, "8.9 mph SW");
    assert_eq!(model.precipitation, "0.1in");
    assert!(model.offline);
    assert!(model.details.iter().any(|line| line == "MODE OFFLINE"));
}

#[test]
fn model_covers_all_weather_conditions_without_inventing_fields() {
    let conditions = [
        "Clear",
        "Partly Cloudy",
        "Cloudy",
        "Overcast",
        "Fog",
        "Drizzle",
        "Rain",
        "Freezing Rain",
        "Rain Showers",
        "Snow",
        "Snow Grains",
        "Snow Showers",
        "Thunderstorm",
        "Thunderstorm with Hail",
    ];
    assert_eq!(conditions.len(), 14);

    for condition in conditions {
        let mut state = state();
        state.condition_text = condition.to_string();

        let model = HudModel::from_state(&state, "", false);

        assert!(!model.condition.is_empty());
        assert!(model.details.is_empty());
    }
}

#[test]
fn long_text_is_fitted_without_losing_the_ascii_ellipsis() {
    assert_eq!(fit_text("A very long location", 10), "A very...");
    assert_eq!(fit_text("abcdef", 3), "abc");
}

#[test]
fn hidden_location_is_not_copied_into_the_hud_model() {
    let mut state = state();
    state.location_label = None;
    let model = HudModel::from_state(&state, "provider", true);
    assert_eq!(model.location, None);
    assert!(model.details.iter().any(|line| line == "LOC hidden"));
    assert!(
        !model
            .details
            .iter()
            .any(|line| line.contains("Gunzenhausen"))
    );
}

#[test]
fn details_list_location_time_direction_source_and_mode() {
    let mut state = state();
    state.is_offline = true;
    let model = HudModel::from_state(&state, "DWD", true);
    assert_eq!(
        model.details,
        vec![
            "LOC Gunzenhausen".to_string(),
            "TIME 2025-01-01T12:00:00Z".to_string(),
            "DIR 225 deg".to_string(),
            "SRC DWD".to_string(),
            "MODE OFFLINE".to_string(),
        ]
    );
    let blank_source = HudModel::from_state(&state, " \t", true);
    assert!(!blank_source.details.iter().any(|line| line.starts_with("SRC")));
}

#[test]
fn loading_model_shows_placeholders() {
    let mut state = state();
    state.current_weather = None;
    let model = HudModel::from_state(&state, "", true);
    assert_eq!(model.condition, "Loading");
    assert_eq!(model.temperature, "--");
    assert_eq!(model.wind, "--");
    assert_eq!(model.precipitation, "--");
    assert_eq!(model.details, vec!["Awaiting weather data".to_string()]);
    assert!(HudModel::from_state(&state, "", false).details.is_empty());
}

#[test]
fn wind_directions_round_to_the_nearest_compass_point() {
    assert_eq!(wind_direction_label(0), "N");
    assert_eq!(wind_direction_label(224), "N");
    assert_eq!(wind_direction_label(225), "NE");
    assert_eq!(wind_direction_label(2250), "SW");
    assert_eq!(wind_direction_label(3374), "NW");
    assert_eq!(wind_direction_label(3375), "N");
    assert_eq!(wind_direction_label(-450), "NW");
    assert_eq!(wind_direction_label(7200 + 900), "E");
}

#[test]
fn fitting_keeps_short_text_and_trims_before_the_ellipsis() {
    assert_eq!(fit_text("short", 10), "short");
    assert_eq!(fit_text("abc   defghij", 9), "abc...");
    assert_eq!(fit_text("日本語テキスト", 5), "日...");
    assert_eq!(fit_text("日本語", 3), "日");
    assert_eq!(fit_text("abcdef", 0), "");
}

#[test]
fn hud_draws_segments_side_by_side_when_they_fit() {
    let palette = VisualPalette::resolve(&default_palette(), &WeatherConditions::default(), Season::Summer);
    let frame = render(&state(), "", Some(Rect::new(1, 0, 120, 4)), &palette, false).unwrap();
    assert_eq!(frame.fill, palette.sky);
    let texts: Vec<&str> = frame.runs.iter().map(|r| r.text.as_str()).collect();
    assert_eq!(
        texts,
        vec!["12.5°C", "  ", "Rain", "  ", "Gunzenhausen", "  WIND ", "14.4 km/h SW", "  RAIN ", "3.2mm", "F1 details  q quit"]
    );
    let xs: Vec<u16> = frame.runs.iter().map(|r| r.x).collect();
    assert_eq!(xs, vec![0, 6, 8, 12, 14, 26, 33, 45, 52, 0]);
    assert_eq!(frame.runs[0].color, palette.temperature);
    assert_eq!(frame.runs[9].y, 1);
    assert!(render(&state(), "", None, &palette, false).is_none());
}

#[test]
fn narrow_hud_fits_the_summary_into_one_run() {
    let palette = VisualPalette::resolve(&default_palette(), &WeatherConditions::default(), Season::Summer);
    let frame = render(&state(), "", Some(Rect::new(0, 0, 20, 1)), &palette, true).unwrap();
    assert_eq!(frame.runs.len(), 1);
    assert_eq!(frame.runs[0].text, "12.5°C  Rain  Gun...");
    assert_eq!(frame.runs[0].color, palette.text_primary);
}

#[test]
fn status_row_shows_mode_source_and_hints() {
    let palette = VisualPalette::resolve(&default_palette(), &WeatherConditions::default(), Season::Summer);
    let run = status::render(Rect::new(0, 23, 80, 1), "", false, true, &palette).unwrap();
    assert_eq!(run.text, "[LIVE]  Awaiting weather data  F1 details  q quit");
    assert_eq!(run.color, palette.text_muted);
    let offline = status::render(Rect::new(0, 23, 20, 1), "DWD ICON", true, false, &palette).unwrap();
    assert_eq!(offline.text, "[OFFLINE]  DWD ICON");
    assert!(status::render(Rect::new(0, 0, 0, 1), "x", false, false, &palette).is_none());
    assert_ne!(palette.text_muted, Color::Reset);
}

#[test]
fn white_space_matches_the_unicode_property() {
    assert!(is_whitespace(' ') && is_whitespace('\t') && is_whitespace('\u{3000}'));
    assert!(!is_whitespace('y') && !is_whitespace('\u{200b}') && !is_whitespace('\u{feff}'));
    for c in (0u32..0x3100).filter_map(char::from_u32) {
        assert_eq!(is_whitespace(c), c.is_whitespace(), "{:?}", c);
    }
}

#[test]
fn fitting_twice_changes_nothing_for_printable_text() {
    for text in ["A very long location", "abcdef", "short", "ab   cd   ef   gh", ""] {
        for width in 0..25 {
            let once = fit_text(text, width);
            assert!(once.chars().count() <= width || once == text);
            assert_eq!(fit_text(&once, width), once, "{text:?} at {width}");
        }
    }
}
