use crate::color::Color;
use crate::text::{fit_text, is_white_space, is_whitespace, spec_fit_text, str_eq, str_width};
use crate::theme::VisualPalette;
use crate::ui::layout::Rect;
use vstd::prelude::*;
use vstd::string::StringExecFns;

verus! {

/// A measured value as the HUD shows it: the number, already formatted with
/// one decimal in the selected unit system, and its unit.
#[derive(Clone, Debug)]
pub struct Reading {
    pub value: String,
    pub unit: String,
}

/// The current weather as the HUD reads it.
#[derive(Clone, Debug)]
pub struct HudWeather {
    pub temperature: Reading,
    pub wind_speed: Reading,
    pub precipitation: Reading,
    /// The wind direction in tenths of a degree, rounded down.
    pub wind_direction_tenths: i64,
    /// The wind direction in whole degrees, as displayed.
    pub wind_direction_text: String,
    pub timestamp: String,
}

/// What the HUD shows of the application state.
#[derive(Clone, Debug)]
pub struct HudState {
    /// The location label, or none when the location is hidden or unknown.
    pub location_label: Option<String>,
    pub condition_text: String,
    pub is_offline: bool,
    pub current_weather: Option<HudWeather>,
}

/// The text content of the HUD.
#[derive(Clone, Debug, PartialEq, Eq)]
pub struct HudModel {
    pub location: Option<String>,
    pub condition: String,
    pub temperature: String,
    pub wind: String,
    pub precipitation: String,
    pub details: Vec<String>,
    pub offline: bool,
}

/// The eight compass points, clockwise from north.
pub open spec fn compass_point(index: int) -> Seq<char> {
    if index == 0 {
        "N"@
    } else if index == 1 {
        "NE"@
    } else if index == 2 {
        "E"@
    } else if index == 3 {
        "SE"@
    } else if index == 4 {
        "S"@
    } else if index == 5 {
        "SW"@
    } else if index == 6 {
        "W"@
    } else {
        "NW"@
    }
}

/// The compass sector of a direction given in tenths of a degree: each
/// point covers 45 degrees centred on it.
pub open spec fn compass_index(tenths: int) -> int {
    ((tenths % 3600) + 225) / 450 % 8
}

/// The compass point nearest to the wind direction.
pub fn wind_direction_label(tenths: i64) -> (label: &'static str)
    ensures
        label@ == compass_point(compass_index(tenths as int)),
{
    let normalized = tenths % 3600;
    let normalized = if normalized < 0 { normalized + 3600 } else { normalized };
    let index = ((normalized + 225) / 450) % 8;
    assert(normalized == tenths as int % 3600);
    match index {
        0 => "N",
        1 => "NE",
        2 => "E",
        3 => "SE",
        4 => "S",
        5 => "SW",
        6 => "W",
        _ => "NW",
    }
}

/// The text is empty or white space only.
pub open spec fn is_blank(s: Seq<char>) -> bool {
    forall|i: int| 0 <= i < s.len() ==> is_white_space(s[i])
}

pub fn blank(s: &str) -> (b: bool)
    ensures
        b == is_blank(s@),
{
    let n = s.unicode_len();
    let mut i: usize = 0;
    while i < n
        invariant
            n == s@.len(),
            i <= n,
            forall|j: int| 0 <= j < i ==> is_white_space(s@[j]),
        decreases n - i,
    {
        if !is_whitespace(s.get_char(i)) {
            return false;
        }
        i = i + 1;
    }
    true
}

/// The detail lines of a HUD with weather data.
pub open spec fn spec_details(state: HudState, weather: HudWeather, attribution: Seq<char>) -> Seq<Seq<char>> {
    let loc = "LOC "@ + (match state.location_label {
        Some(l) => l@,
        None => "hidden"@,
    });
    let base = seq![loc, "TIME "@ + weather.timestamp@, "DIR "@ + weather.wind_direction_text@ + " deg"@];
    let with_src = if is_blank(attribution) { base } else { base.push("SRC "@ + attribution) };
    if state.is_offline { with_src.push("MODE OFFLINE"@) } else { with_src }
}

impl HudModel {
    pub open spec fn details_view(self) -> Seq<Seq<char>> {
        self.details@.map_values(|d: String| d@)
    }

    /// The HUD text `m` shown for `state`: placeholders while no weather
    /// has arrived, otherwise the readings; the detail lines only when
    /// details are shown.
    pub open spec fn spec_from_state(state: HudState, attribution: Seq<char>, show_details: bool, m: HudModel) -> bool {
        &&& m.location == state.location_label
        &&& m.offline == state.is_offline
        &&& match state.current_weather {
            None => {
                &&& m.condition@ == "Loading"@
                &&& m.temperature@ == "--"@
                &&& m.wind@ == "--"@
                &&& m.precipitation@ == "--"@
                &&& m.details_view() == (if show_details {
                    seq!["Awaiting weather data"@]
                } else {
                    Seq::<Seq<char>>::empty()
                })
            },
            Some(w) => {
                &&& m.condition@ == state.condition_text@
                &&& m.temperature@ == w.temperature.value@ + w.temperature.unit@
                &&& m.wind@ == w.wind_speed.value@ + " "@ + w.wind_speed.unit@ + " "@
                    + compass_point(compass_index(w.wind_direction_tenths as int))
                &&& m.precipitation@ == w.precipitation.value@ + w.precipitation.unit@
                &&& m.details_view() == (if show_details {
                    spec_details(state, w, attribution)
                } else {
                    Seq::<Seq<char>>::empty()
                })
            },
        }
    }

    /// Build the HUD text from the application state: placeholders while
    /// no weather has arrived, otherwise the readings; the detail lines only
    /// when details are shown.
    pub fn from_state(state: &HudState, attribution: &str, show_details: bool) -> (m: Self)
        ensures
            Self::spec_from_state(*state, attribution@, show_details, m),
    {
        let weather = match &state.current_weather {
            None => {
                let mut details: Vec<String> = Vec::new();
                if show_details {
                    details.push(String::from_str("Awaiting weather data"));
                }
                proof {
                    if show_details {
                        assert(details@.map_values(|d: String| d@) =~= seq!["Awaiting weather data"@]);
                    } else {
                        assert(details@.map_values(|d: String| d@) =~= Seq::<Seq<char>>::empty());
                    }
                }
                return HudModel {
                    location: state.location_label.clone(),
                    condition: String::from_str("Loading"),
                    temperature: String::from_str("--"),
                    wind: String::from_str("--"),
                    precipitation: String::from_str("--"),
                    details,
                    offline: state.is_offline,
                };
            },
            Some(w) => w,
        };

        let mut details: Vec<String> = Vec::new();
        if show_details {
            let loc = match &state.location_label {
                Some(label) => String::from_str("LOC ").concat(label.as_str()),
                None => String::from_str("LOC hidden"),
            };
            details.push(loc);
            details.push(String::from_str("TIME ").concat(weather.timestamp.as_str()));
            details.push(
                String::from_str("DIR ").concat(weather.wind_direction_text.as_str()).concat(" deg"),
            );
            if !blank(attribution) {
                details.push(String::from_str("SRC ").concat(attribution));
            }
            if state.is_offline {
                details.push(String::from_str("MODE OFFLINE"));
            }
            proof {
                reveal_strlit("LOC ");
                reveal_strlit("LOC hidden");
                reveal_strlit("hidden");
                assert("LOC hidden"@ =~= "LOC "@ + "hidden"@);
                assert(details@.map_values(|d: String| d@) =~= spec_details(*state, *weather, attribution@));
            }
        } else {
            proof {
                assert(details@.map_values(|d: String| d@) =~= Seq::<Seq<char>>::empty());
            }
        }

        let label = wind_direction_label(weather.wind_direction_tenths);
        HudModel {
            location: state.location_label.clone(),
            condition: state.condition_text.clone(),
            temperature: weather.temperature.value.clone().concat(weather.temperature.unit.as_str()),
            wind: weather.wind_speed.value.clone().concat(" ").concat(weather.wind_speed.unit.as_str()).concat(
                " ",
            ).concat(label),
            precipitation: weather.precipitation.value.clone().concat(weather.precipitation.unit.as_str()),
            details,
            offline: state.is_offline,
        }
    }
}

/// A piece of text drawn at a position relative to its region.
#[derive(Clone, Debug)]
pub struct TextRun {
    pub x: u16,
    pub y: u16,
    pub text: String,
    pub color: Color,
}

/// What the HUD draws in its rectangle: the background fill and the text.
#[derive(Clone, Debug)]
pub struct HudFrame {
    pub rect: Rect,
    pub fill: Color,
    pub runs: Vec<TextRun>,
}

/// The coloured segments of the summary line.
pub open spec fn spec_segments(model: HudModel, palette: VisualPalette) -> Seq<(Seq<char>, Color)> {
    let head = seq![
        (model.temperature@, palette.temperature),
        ("  "@, palette.text_muted),
        (model.condition@, palette.condition),
    ];
    let with_location = match model.location {
        Some(l) => head.push(("  "@, palette.text_muted)).push((l@, palette.text_primary)),
        None => head,
    };
    with_location.push(("  WIND "@, palette.text_muted)).push((model.wind@, palette.wind)).push(
        ("  RAIN "@, palette.text_muted),
    ).push((model.precipitation@, palette.precipitation))
}

/// The texts of the segments, one after the other.
pub open spec fn joined_texts(segments: Seq<(Seq<char>, Color)>) -> Seq<char>
    decreases segments.len(),
{
    if segments.len() == 0 {
        Seq::empty()
    } else {
        joined_texts(segments.drop_last()) + segments.last().0
    }
}

/// The column at which the segment after the first `n` segments starts.
pub open spec fn segment_x(segments: Seq<(Seq<char>, Color)>, n: int) -> u16
    decreases n,
{
    if n <= 0 {
        0
    } else {
        let prev = segment_x(segments, n - 1);
        let w = crate::text::text_columns(segments[n - 1].0) as u16;
        if prev + w > u16::MAX { u16::MAX } else { (prev + w) as u16 }
    }
}

/// Each of the first `n` segments at its column on row 0.
pub open spec fn segment_runs_match(
    runs: Seq<TextRun>,
    segments: Seq<(Seq<char>, Color)>,
    n: int,
) -> bool {
    &&& runs.len() == n
    &&& forall|i: int| 0 <= i < n ==> {
        &&& (#[trigger] runs[i]).x == segment_x(segments, i)
        &&& runs[i].y == 0
        &&& runs[i].text@ == segments[i].0
        &&& runs[i].color == segments[i].1
    }
}

/// The summary line drawn in a region `width` columns wide: the coloured
/// segments side by side when they fit, otherwise the fitted text in the
/// primary text colour.
pub open spec fn summary_runs_match(runs: Seq<TextRun>, model: HudModel, palette: VisualPalette, width: u16) -> bool {
    let segments = spec_segments(model, palette);
    let full = joined_texts(segments);
    let fitted = spec_fit_text(full, width as int);
    if fitted != full {
        &&& runs.len() == 1
        &&& runs[0].x == 0 && runs[0].y == 0
        &&& runs[0].text@ == fitted
        &&& runs[0].color == palette.text_primary
    } else {
        segment_runs_match(runs, segments, segments.len() as int)
    }
}

/// The second HUD line: the detail lines joined by ` | ` with the quit hint,
/// or the key hints when no details are shown.
pub open spec fn spec_details_line(details: Seq<Seq<char>>) -> Seq<char> {
    if details.len() == 0 {
        "F1 details  q quit"@
    } else {
        join_with(details, " | "@) + "  q quit"@
    }
}

/// `parts` joined with `sep` between neighbours.
pub open spec fn join_with(parts: Seq<Seq<char>>, sep: Seq<char>) -> Seq<char>
    decreases parts.len(),
{
    if parts.len() == 0 {
        Seq::empty()
    } else if parts.len() == 1 {
        parts[0]
    } else {
        join_with(parts.drop_last(), sep) + sep + parts.last()
    }
}

fn join_details(details: &Vec<String>, sep: &str) -> (r: String)
    ensures
        r@ == join_with(details@.map_values(|d: String| d@), sep@),
{
    let ghost parts = details@.map_values(|d: String| d@);
    let mut r = String::new();
    let mut i: usize = 0;
    while i < details.len()
        invariant
            i <= details@.len(),
            parts == details@.map_values(|d: String| d@),
            r@ == join_with(parts.take(i as int), sep@),
        decreases details@.len() - i,
    {
        proof {
            assert(parts.take(i + 1).drop_last() =~= parts.take(i as int));
            assert(parts.take(i + 1).last() == details@[i as int]@);
        }
        if i == 0 {
            r = r.concat(details[i].as_str());
            proof {
                assert(parts.take(1).len() == 1);
                assert(r@ =~= parts.take(1)[0]);
            }
        } else {
            r = r.concat(sep).concat(details[i].as_str());
        }
        i = i + 1;
    }
    proof {
        assert(parts.take(details@.len() as int) =~= parts);
    }
    r
}

fn push_segment(segments: &mut Vec<(String, Color)>, text: String, color: Color)
    ensures
        final(segments)@ == old(segments)@.push((text, color)),
{
    segments.push((text, color));
}

pub open spec fn segments_view(segments: Seq<(String, Color)>) -> Seq<(Seq<char>, Color)> {
    segments.map_values(|p: (String, Color)| (p.0@, p.1))
}

/// The coloured segments of the summary line of `model`.
pub fn summary_segments(model: &HudModel, palette: &VisualPalette) -> (segments: Vec<(String, Color)>)
    ensures
        segments_view(segments@) == spec_segments(*model, *palette),
{
    let mut segments: Vec<(String, Color)> = Vec::new();
    push_segment(&mut segments, model.temperature.clone(), palette.temperature);
    push_segment(&mut segments, String::from_str("  "), palette.text_muted);
    push_segment(&mut segments, model.condition.clone(), palette.condition);
    match &model.location {
        Some(location) => {
            push_segment(&mut segments, String::from_str("  "), palette.text_muted);
            push_segment(&mut segments, location.clone(), palette.text_primary);
        },
        None => {},
    }
    push_segment(&mut segments, String::from_str("  WIND "), palette.text_muted);
    push_segment(&mut segments, model.wind.clone(), palette.wind);
    push_segment(&mut segments, String::from_str("  RAIN "), palette.text_muted);
    push_segment(&mut segments, model.precipitation.clone(), palette.precipitation);
    proof {
        assert(segments_view(segments@) =~= spec_segments(*model, *palette));
    }
    segments
}

/// The runs of the summary line for a region `width` columns wide.
pub fn summary_runs(model: &HudModel, palette: &VisualPalette, width: u16) -> (runs: Vec<TextRun>)
    ensures
        summary_runs_match(runs@, *model, *palette, width),
{
    let segments = summary_segments(model, palette);
    let ghost segs = segments_view(segments@);
    let mut full = String::new();
    let mut i: usize = 0;
    while i < segments.len()
        invariant
            i <= segments@.len(),
            segs == segments_view(segments@),
            full@ == joined_texts(segs.take(i as int)),
        decreases segments@.len() - i,
    {
        proof {
            assert(segs.take(i + 1).drop_last() =~= segs.take(i as int));
        }
        full = full.concat(segments[i].0.as_str());
        i = i + 1;
    }
    proof {
        assert(segs.take(segments@.len() as int) =~= segs);
    }
    let fitted = fit_text(full.as_str(), width as usize);
    let mut runs: Vec<TextRun> = Vec::new();
    if !str_eq(fitted.as_str(), full.as_str()) {
        runs.push(TextRun { x: 0, y: 0, text: fitted, color: palette.text_primary });
        return runs;
    }
    let mut x: u16 = 0;
    let mut k: usize = 0;
    while k < segments.len()
        invariant
            k <= segments@.len(),
            segs == segments_view(segments@),
            x == segment_x(segs, k as int),
            segment_runs_match(runs@, segs, k as int),
        decreases segments@.len() - k,
    {
        let text = segments[k].0.clone();
        let w = str_width(text.as_str());
        runs.push(TextRun { x, y: 0, text, color: segments[k].1 });
        x = x.saturating_add(w as u16);
        proof {
            assert(segs[k as int].0 == segments@[k as int].0@);
        }
        k = k + 1;
    }
    runs
}

/// What the HUD draws this frame: nothing without a HUD region; otherwise
/// the sky-coloured background, the summary line on the first row and, when
/// the region has a second row, the fitted details line in the muted colour.
pub fn render(
    state: &HudState,
    attribution: &str,
    hud: Option<Rect>,
    palette: &VisualPalette,
    show_details: bool,
) -> (frame: Option<HudFrame>)
    ensures
        hud is None ==> frame is None,
        hud matches Some(rect) ==> frame matches Some(f) && exists|m: HudModel| {
            &&& #[trigger] HudModel::spec_from_state(*state, attribution@, show_details, m)
            &&& f.rect == rect
            &&& f.fill == palette.sky
            &&& if rect.height > 1 {
                let n = f.runs@.len();
                &&& n >= 1
                &&& summary_runs_match(f.runs@.take(n - 1), m, *palette, rect.width)
                &&& f.runs@[n - 1].x == 0 && f.runs@[n - 1].y == 1
                &&& f.runs@[n - 1].text@ == spec_fit_text(spec_details_line(m.details_view()), rect.width as int)
                &&& f.runs@[n - 1].color == palette.text_muted
            } else {
                summary_runs_match(f.runs@, m, *palette, rect.width)
            }
        },
{
    let rect = match hud {
        Some(rect) => rect,
        None => return None,
    };
    let model = HudModel::from_state(state, attribution, show_details);
    let mut runs = summary_runs(&model, palette, rect.width);
    let ghost summary = runs@;
    if rect.height > 1 {
        let details = if model.details.len() == 0 {
            String::from_str("F1 details  q quit")
        } else {
            join_details(&model.details, " | ").concat("  q quit")
        };
        let fitted = fit_text(details.as_str(), rect.width as usize);
        runs.push(TextRun { x: 0, y: 1, text: fitted, color: palette.text_muted });
        proof {
            assert(runs@.take(runs@.len() - 1) =~= summary);
        }
    }
    Some(HudFrame { rect, fill: palette.sky, runs })
}

} // verus!
