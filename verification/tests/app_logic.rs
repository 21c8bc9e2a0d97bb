use rand::SeedableRng;
use weathr::weather::{draw_offline_condition, offline_condition, WeatherCondition};
use weathr::app::{
    attribution_origin, is_daytime_hour, offline_is_day, on_weather_update, HudControls, KeyInput,
    WeatherAction, WeatherUpdate,
};

#[test]
fn f1_toggles_details_and_q_or_ctrl_c_quit() {
    let mut controls = HudControls::new(false);
    assert_eq!(controls.hud_details(), Some(false));
    assert!(!controls.handle_key(KeyInput::F(1), false));
    assert_eq!(controls.hud_details(), Some(true));
    assert!(!controls.handle_key(KeyInput::F(1), false));
    assert_eq!(controls.hud_details(), Some(false));
    assert!(controls.handle_key(KeyInput::Char('q'), false));
    assert!(controls.handle_key(KeyInput::Char('Q'), false));
    assert!(controls.handle_key(KeyInput::Char('c'), true));
    assert!(!controls.handle_key(KeyInput::Char('c'), false));
    assert!(!controls.handle_key(KeyInput::F(2), false));
    assert!(!controls.handle_key(KeyInput::Other, true));
}

#[test]
fn hidden_hud_stays_hidden_after_f1() {
    let mut controls = HudControls::new(true);
    assert!(controls.hud_details().is_none());
    assert!(!controls.handle_key(KeyInput::F(1), false));
    assert!(controls.hud_details().is_none());
}

#[test]
fn weather_updates_set_attribution_and_fallbacks() {
    let current = "old".to_string();
    let (a, action) = on_weather_update(
        &WeatherUpdate::Received { attribution: "DWD".to_string() },
        false,
        &current,
    );
    assert_eq!((a.as_str(), action), ("DWD", WeatherAction::Apply));
    let (a, action) = on_weather_update(
        &WeatherUpdate::Failed { message: "timeout".to_string() },
        false,
        &current,
    );
    assert_eq!((a.as_str(), action), ("Provider failed with timeout - Simulating", WeatherAction::SimulateOffline));
    let (a, action) = on_weather_update(
        &WeatherUpdate::Failed { message: "timeout".to_string() },
        true,
        &current,
    );
    assert_eq!((a.as_str(), action), ("Provider failed with timeout", WeatherAction::MarkOffline));
    let (a, action) = on_weather_update(&WeatherUpdate::Pending, true, &current);
    assert_eq!((a.as_str(), action), ("old", WeatherAction::Nothing));
    let (a, action) = on_weather_update(&WeatherUpdate::Disconnected, true, &current);
    assert_eq!((a.as_str(), action), ("", WeatherAction::Nothing));
}

#[test]
fn attribution_is_right_aligned_on_the_bottom_row() {
    assert_eq!(attribution_origin(80, 24, "DWD ICON D2 via Open-Meteo"), (52, 23));
    assert_eq!(attribution_origin(10, 24, "DWD ICON D2 via Open-Meteo"), (0, 23));
    assert_eq!(attribution_origin(80, 0, ""), (78, 0));
}

#[test]
fn simulated_daylight_runs_from_six_to_eighteen() {
    assert!(!is_daytime_hour(0));
    assert!(!is_daytime_hour(5));
    assert!(is_daytime_hour(6));
    assert!(is_daytime_hour(17));
    assert!(!is_daytime_hour(18));
    assert!(!is_daytime_hour(23));
    // Whatever the clock says, the answer is one of the hourly answers.
    let now = offline_is_day();
    assert!((0..24).any(|h| is_daytime_hour(h) == now));
}

#[test]
fn weather_conditions_name_their_facts() {
    let storm = WeatherCondition::ThunderstormHail.conditions(false);
    assert!(storm.is_thunderstorm && !storm.is_raining && !storm.is_day);
    assert!(WeatherCondition::FreezingRain.conditions(true).is_raining);
    assert!(WeatherCondition::SnowGrains.is_snowing());
    assert!(WeatherCondition::Fog.conditions(true).is_foggy);
    let clear = WeatherCondition::Clear.conditions(true);
    assert!(!clear.is_raining && !clear.is_snowing && !clear.is_thunderstorm && !clear.is_foggy);
    assert_eq!(WeatherCondition::PartlyCloudy.label(), "Partly Cloudy");
    assert_eq!(WeatherCondition::Clear.label(), "Clear");
    assert_eq!(
        [0, 1, 2, 3].map(offline_condition),
        [WeatherCondition::Clear, WeatherCondition::PartlyCloudy, WeatherCondition::Cloudy, WeatherCondition::Rain]
    );
    let mut seen = std::collections::HashSet::new();
    for seed in 0..64 {
        let mut rng = rand::rngs::StdRng::seed_from_u64(seed);
        seen.insert(format!("{:?}", draw_offline_condition(&mut rng)));
    }
    assert_eq!(seen.len(), 4);
}
