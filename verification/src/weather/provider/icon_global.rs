use vstd::prelude::*;

verus! {

/// The Open-Meteo model name of DWD's global ICON model, valid worldwide.
pub const ICON_GLOBAL_MODEL: &'static str = "icon_global";

/// The attribution shown for ICON-D2 data.
pub const ICON_D2_ATTRIBUTION: &'static str = "DWD ICON D2 via Open-Meteo";

/// The default weather provider: Open-Meteo's forecast API asked for DWD's
/// global ICON model (`models=icon_global`), so it serves every location.
#[derive(Clone, Copy, Debug)]
pub struct IconGlobalProvider {
    pub model: &'static str,
    pub attribution: &'static str,
}

impl IconGlobalProvider {
    pub fn new() -> (p: Self)
        ensures
            p.model == ICON_GLOBAL_MODEL,
            p.model@ == "icon_global"@,
            p.attribution == ICON_D2_ATTRIBUTION,
    {
        IconGlobalProvider { model: ICON_GLOBAL_MODEL, attribution: ICON_D2_ATTRIBUTION }
    }

    /// The attribution line for data from this provider.
    pub fn get_attribution(&self) -> (a: &'static str)
        ensures
            a == self.attribution,
    {
        self.attribution
    }

    /// The Open-Meteo model this provider asks for.
    pub fn model(&self) -> (m: &'static str)
        ensures
            m == self.model,
    {
        self.model
    }
}

impl Default for IconGlobalProvider {
    fn default() -> (p: Self)
        ensures
            p.model == ICON_GLOBAL_MODEL,
            p.model@ == "icon_global"@,
            p.attribution == ICON_D2_ATTRIBUTION,
    {
        Self::new()
    }
}

} // verus!
