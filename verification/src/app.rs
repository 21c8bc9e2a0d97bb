use crate::text::str_eq;
use chrono::Timelike;
use crate::theme::ThemeRegistry;
use crate::theme::Theme;
use vstd::prelude::*;
use vstd::string::StringExecFns;

verus! {

/// The theme whose scene is used when the active theme's scene is missing.
pub const DEFAULT_THEME_ID: &'static str = "default";

/// The theme, scene and overlay a run of the application actually uses.
#[derive(Clone, Copy, Debug, PartialEq, Eq)]
pub struct ThemeBindings {
    pub theme_id: &'static str,
    pub scene_id: &'static str,
    pub overlay_id: Option<&'static str>,
}

/// Some entry of `ids` is `id`.
pub open spec fn ids_contain(ids: Seq<&str>, id: Seq<char>) -> bool {
    exists|k: int| 0 <= k < ids.len() && ids[k]@ == id
}

/// Whether `id` is among `ids`.
pub fn contains_id(ids: &[&str], id: &str) -> (b: bool)
    ensures
        b == ids_contain(ids@, id@),
{
    let n = ids.len();
    let mut k: usize = 0;
    while k < n
        invariant
            n == ids@.len(),
            k <= n,
            forall|j: int| 0 <= j < k ==> ids@[j]@ != id@,
        decreases n - k,
    {
        if str_eq(ids[k], id) {
            return true;
        }
        k = k + 1;
    }
    false
}

/// The theme that supplies the scene: the active one if its scene exists,
/// the default theme otherwise.
pub open spec fn bound_theme(themes: ThemeRegistry, scene_ids: Seq<&str>) -> Theme {
    let active = themes@[themes.active_id()];
    if ids_contain(scene_ids, active.scene_id@) {
        active
    } else {
        themes@["default"@]
    }
}

/// The bindings are usable without a fallback that is itself broken: the
/// active theme's scene exists, or the active theme is not the default one
/// and the default theme's scene exists.
pub open spec fn bindings_resolvable(themes: ThemeRegistry, scene_ids: Seq<&str>) -> bool {
    let active = themes@[themes.active_id()];
    ||| ids_contain(scene_ids, active.scene_id@)
    ||| (active.id@ != "default"@ && ids_contain(scene_ids, themes@["default"@].scene_id@))
}

pub open spec fn fallback_warning(theme: Seq<char>, scene: Seq<char>) -> Seq<char> {
    "Warning: theme '"@ + theme + "' references missing scene '"@ + scene + "'. Falling back to '"@
        + "default"@ + "'."@
}

pub open spec fn overlay_warning(theme: Seq<char>, overlay: Seq<char>) -> Seq<char> {
    "Warning: theme '"@ + theme + "' references missing overlay '"@ + overlay + "'. Overlay disabled."@
}

/// Choose the scene and overlay of the active theme, falling back to the
/// default theme when the active theme's scene is not registered and
/// dropping an overlay that is not registered. The second result holds the
/// warnings to show the user, in order.
pub fn resolve_theme_bindings(
    themes: &ThemeRegistry,
    scene_ids: &[&str],
    overlay_ids: &[&str],
) -> (r: (ThemeBindings, Vec<String>))
    requires
        themes.wf(),
        bindings_resolvable(*themes, scene_ids@),
    ensures
        ({
            let active = themes@[themes.active_id()];
            let chosen = bound_theme(*themes, scene_ids@);
            let fell_back = !ids_contain(scene_ids@, active.scene_id@);
            let kept_overlay = chosen.overlay_id matches Some(o) && ids_contain(overlay_ids@, o@);
            let dropped_overlay = chosen.overlay_id matches Some(o) && !ids_contain(overlay_ids@, o@);
            &&& r.0.theme_id == chosen.id
            &&& r.0.scene_id == chosen.scene_id
            &&& r.0.overlay_id == (if kept_overlay { chosen.overlay_id } else { None })
            &&& r.1@.len() == (if fell_back { 1int } else { 0int }) + (if dropped_overlay { 1int } else { 0int })
            &&& fell_back ==> r.1@[0]@ == fallback_warning(active.id@, active.scene_id@)
            &&& dropped_overlay ==> r.1@.last()@ == overlay_warning(chosen.id@, chosen.overlay_id->0@)
        }),
{
    let mut warnings: Vec<String> = Vec::new();
    let active_theme = themes.active();
    let mut theme_id = active_theme.id;
    let mut scene_id = active_theme.scene_id;
    let mut overlay_id = active_theme.overlay_id;

    if !contains_id(scene_ids, scene_id) {
        warnings.push(
            String::from_str("Warning: theme '").concat(theme_id).concat(
                "' references missing scene '",
            ).concat(scene_id).concat("'. Falling back to '").concat(DEFAULT_THEME_ID).concat("'."),
        );
        proof {
            themes.lemma_wf();
            assert(DEFAULT_THEME_ID@ == "default"@);
        }
        match themes.get(DEFAULT_THEME_ID) {
            Some(fallback_theme) => {
                theme_id = fallback_theme.id;
                scene_id = fallback_theme.scene_id;
                overlay_id = fallback_theme.overlay_id;
            },
            None => {},
        }
    }

    let validated_overlay = match overlay_id {
        Some(id) => {
            if contains_id(overlay_ids, id) {
                Some(id)
            } else {
                warnings.push(
                    String::from_str("Warning: theme '").concat(theme_id).concat(
                        "' references missing overlay '",
                    ).concat(id).concat("'. Overlay disabled."),
                );
                None
            }
        },
        None => None,
    };

    (ThemeBindings { theme_id, scene_id, overlay_id: validated_overlay }, warnings)
}

/// The scene a resolved binding names is always registered: the
/// application never starts on a missing scene.
pub proof fn lemma_bound_scene_is_registered(themes: ThemeRegistry, scene_ids: Seq<&str>)
    requires
        themes.wf(),
        bindings_resolvable(themes, scene_ids),
    ensures
        ids_contain(scene_ids, bound_theme(themes, scene_ids).scene_id@),
{
}

/// A key press, as far as the application reacts to it.
#[derive(Clone, Copy, Debug, PartialEq, Eq, Structural)]
pub enum KeyInput {
    /// A function key, by number.
    F(u8),
    Char(char),
    Other,
}

/// Whether the HUD is shown at all and whether its details are hidden.
#[derive(Clone, Copy, Debug, PartialEq, Eq, Structural)]
pub struct HudControls {
    pub hide_hud: bool,
    pub hide_hud_details: bool,
}

impl HudControls {
    /// The HUD as configured, with its details hidden at start.
    pub fn new(hide_hud: bool) -> (c: Self)
        ensures
            c == (HudControls { hide_hud, hide_hud_details: true }),
    {
        HudControls { hide_hud, hide_hud_details: true }
    }

    /// The key quits the application: `q`, `Q` or Ctrl+C.
    pub open spec fn quits(key: KeyInput, control: bool) -> bool {
        key == KeyInput::Char('q') || key == KeyInput::Char('Q') || (key == KeyInput::Char('c') && control)
    }

    /// React to a key: F1 shows or hides the HUD details, `q`, `Q` and
    /// Ctrl+C ask to quit (the result), every other key is ignored.
    pub fn handle_key(&mut self, key: KeyInput, control: bool) -> (quit: bool)
        ensures
            quit == Self::quits(key, control),
            final(self).hide_hud == old(self).hide_hud,
            final(self).hide_hud_details == (if key == KeyInput::F(1) {
                !old(self).hide_hud_details
            } else {
                old(self).hide_hud_details
            }),
    {
        if key == KeyInput::F(1) {
            self.hide_hud_details = !self.hide_hud_details;
            false
        } else {
            key == KeyInput::Char('q') || key == KeyInput::Char('Q') || (key == KeyInput::Char('c') && control)
        }
    }

    /// Whether the HUD line is drawn (`Some`) and if so with its details.
    pub fn hud_details(&self) -> (d: Option<bool>)
        ensures
            d == (if self.hide_hud { None } else { Some(!self.hide_hud_details) }),
    {
        if self.hide_hud {
            None
        } else {
            Some(!self.hide_hud_details)
        }
    }
}

/// F1 toggles only the details: pressed twice it restores them, it never
/// quits, and a hidden HUD stays hidden whatever keys are pressed.
pub proof fn lemma_f1_toggles_details_only(c: HudControls, once: HudControls, twice: HudControls)
    requires
        once.hide_hud == c.hide_hud && once.hide_hud_details == !c.hide_hud_details,
        twice.hide_hud == once.hide_hud && twice.hide_hud_details == !once.hide_hud_details,
    ensures
        twice == c,
        !HudControls::quits(KeyInput::F(1), true) && !HudControls::quits(KeyInput::F(1), false),
        c.hide_hud ==> once.hide_hud && twice.hide_hud,
{
}

/// What arrived from the weather task in one frame.
#[derive(Clone, Debug)]
pub enum WeatherUpdate {
    /// New weather data, with its attribution.
    Received { attribution: String },
    /// Fetching failed, described for the user.
    Failed { message: String },
    /// Nothing new yet.
    Pending,
    /// The weather task has stopped.
    Disconnected,
}

/// What the application does with the weather state after an update.
#[derive(Clone, Copy, Debug, PartialEq, Eq, Structural)]
pub enum WeatherAction {
    /// Show the received weather and pass it to the animations.
    Apply,
    /// No weather has ever arrived: show simulated weather, marked offline.
    SimulateOffline,
    /// Keep the last weather but mark it offline.
    MarkOffline,
    Nothing,
}

/// The attribution text and action for one weather update.
pub open spec fn spec_weather_update(
    update: WeatherUpdate,
    has_weather: bool,
    attribution: Seq<char>,
) -> (Seq<char>, WeatherAction) {
    match update {
        WeatherUpdate::Received { attribution: a } => (a@, WeatherAction::Apply),
        WeatherUpdate::Failed { message } => if has_weather {
            ("Provider failed with "@ + message@, WeatherAction::MarkOffline)
        } else {
            ("Provider failed with "@ + message@ + " - Simulating"@, WeatherAction::SimulateOffline)
        },
        WeatherUpdate::Pending => (attribution, WeatherAction::Nothing),
        WeatherUpdate::Disconnected => (Seq::empty(), WeatherAction::Nothing),
    }
}

/// Decide how the application reacts to a weather update: new data replaces
/// the attribution; a failure falls back to simulated weather when there is
/// none yet and otherwise marks the shown weather offline; a stopped task
/// clears the attribution.
pub fn on_weather_update(update: &WeatherUpdate, has_weather: bool, attribution: &String) -> (r: (
    String,
    WeatherAction,
))
    ensures
        (r.0@, r.1) == spec_weather_update(*update, has_weather, attribution@),
{
    match update {
        WeatherUpdate::Received { attribution: a } => (a.clone(), WeatherAction::Apply),
        WeatherUpdate::Failed { message } => {
            if has_weather {
                (String::from_str("Provider failed with ").concat(message.as_str()), WeatherAction::MarkOffline)
            } else {
                (
                    String::from_str("Provider failed with ").concat(message.as_str()).concat(" - Simulating"),
                    WeatherAction::SimulateOffline,
                )
            }
        },
        WeatherUpdate::Pending => (attribution.clone(), WeatherAction::Nothing),
        WeatherUpdate::Disconnected => (String::new(), WeatherAction::Nothing),
    }
}

/// Where the attribution is drawn: right-aligned with a two-column margin on
/// the bottom row, or at the left edge when it is too long for the screen.
/// The length is the text's length in bytes, truncated to 16 bits.
pub open spec fn spec_attribution_origin(term_width: u16, term_height: u16, len: u16) -> (u16, u16) {
    (
        if term_width > len { (term_width - len - 2) as u16 } else { 0 },
        if term_height > 0 { (term_height - 1) as u16 } else { 0 },
    )
}

pub fn attribution_origin(term_width: u16, term_height: u16, attribution: &str) -> (p: (u16, u16))
    requires
        term_width as int != attribution.len() as u16 + 1,
    ensures
        p == spec_attribution_origin(term_width, term_height, attribution.len() as u16),
{
    let len = attribution.len() as u16;
    let x = if term_width > len { term_width - len - 2 } else { 0 };
    let y = if term_height > 0 { term_height - 1 } else { 0 };
    (x, y)
}

/// Simulated weather shows daylight from six in the morning until six in
/// the evening.
pub open spec fn spec_is_daytime_hour(hour: u32) -> bool {
    6 <= hour < 18
}

pub fn is_daytime_hour(hour: u32) -> (b: bool)
    ensures
        b == spec_is_daytime_hour(hour),
{
    6 <= hour && hour < 18
}

/// `chrono::Local::now().hour()`: the hour of the current local time, which
/// chrono documents as ranging from 0 to 23. Which hour it is depends on the
/// clock and the time zone, so nothing more is stated.
#[verifier::external_body]
fn local_hour() -> (h: u32)
    ensures
        h < 24,
{
    chrono::Local::now().hour()
}

/// Whether simulated weather shows daylight now, by the local clock.
pub fn offline_is_day() -> (b: bool)
    ensures
        exists|h: u32| h < 24 && b == spec_is_daytime_hour(h),
{
    let hour = local_hour();
    is_daytime_hour(hour)
}

} // verus!