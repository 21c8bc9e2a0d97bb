use weathr::season::Season;

#[test]
fn maps_calendar_months_to_seasons() {
    assert_eq!(Season::from_month(1), Season::Winter);
    assert_eq!(Season::from_month(2), Season::Winter);
    assert_eq!(Season::from_month(3), Season::Spring);
    assert_eq!(Season::from_month(5), Season::Spring);
    assert_eq!(Season::from_month(6), Season::Summer);
    assert_eq!(Season::from_month(8), Season::Summer);
    assert_eq!(Season::from_month(9), Season::Autumn);
    assert_eq!(Season::from_month(11), Season::Autumn);
    assert_eq!(Season::from_month(12), Season::Winter);
}

#[test]
fn out_of_range_months_count_as_winter() {
    assert_eq!(Season::from_month(0), Season::Winter);
    assert_eq!(Season::from_month(13), Season::Winter);
}

#[test]
fn local_season_is_one_of_the_calendar_seasons() {
    let season = Season::local();
    assert!((1..=12).any(|m| Season::from_month(m) == season));
}
