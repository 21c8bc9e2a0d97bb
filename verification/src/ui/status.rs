use crate::text::fit_text;
use crate::theme::VisualPalette;
use crate::ui::hud::{blank, TextRun};
use crate::ui::layout::Rect;
use vstd::prelude::*;
use vstd::string::StringExecFns;

verus! {

/// The status row's text before fitting: the data mode, the attribution
/// (or a waiting notice) and, with details shown, the key hints.
pub open spec fn spec_status_text(attribution: Seq<char>, offline: bool, details_visible: bool) -> Seq<char> {
    let state = if offline { "[OFFLINE]"@ } else { "[LIVE]"@ };
    let source = if crate::ui::hud::is_blank(attribution) { "Awaiting weather data"@ } else { attribution };
    let suffix = if details_visible { "  F1 details  q quit"@ } else { ""@ };
    state + "  "@ + source + suffix
}

/// The status row: its text fitted to the row's width, in the muted colour;
/// nothing for an empty row.
pub fn render(
    rect: Rect,
    attribution: &str,
    offline: bool,
    details_visible: bool,
    palette: &VisualPalette,
) -> (run: Option<TextRun>)
    ensures
        rect.spec_is_empty() ==> run is None,
        !rect.spec_is_empty() ==> (run matches Some(r) && r.x == 0 && r.y == 0
            && r.color == palette.text_muted
            && r.text@ == crate::text::spec_fit_text(
                spec_status_text(attribution@, offline, details_visible),
                rect.width as int,
            )),
{
    if rect.is_empty() {
        return None;
    }
    let state = if offline { "[OFFLINE]" } else { "[LIVE]" };
    let source = if blank(attribution) { "Awaiting weather data" } else { attribution };
    let suffix = if details_visible { "  F1 details  q quit" } else { "" };
    let line = String::from_str(state).concat("  ").concat(source).concat(suffix);
    let fitted = fit_text(line.as_str(), rect.width as usize);
    Some(TextRun { x: 0, y: 0, text: fitted, color: palette.text_muted })
}

} // verus!
