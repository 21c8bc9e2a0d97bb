use chrono::Datelike;
use vstd::prelude::*;

verus! {

/// The four calendar seasons that restyle the world scene.
#[derive(Clone, Copy, Debug, PartialEq, Eq, Structural)]
pub enum Season {
    Spring,
    Summer,
    Autumn,
    Winter,
}

impl Season {
    /// Meteorological seasons: March-May spring, June-August summer,
    /// September-November autumn, every other month winter.
    pub open spec fn spec_from_month(month: u32) -> Season {
        if 3 <= month <= 5 {
            Season::Spring
        } else if 6 <= month <= 8 {
            Season::Summer
        } else if 9 <= month <= 11 {
            Season::Autumn
        } else {
            Season::Winter
        }
    }

    pub fn from_month(month: u32) -> (s: Self)
        ensures
            s == Self::spec_from_month(month),
    {
        match month {
            3..=5 => Season::Spring,
            6..=8 => Season::Summer,
            9..=11 => Season::Autumn,
            _ => Season::Winter,
        }
    }

    /// The season of the local calendar date.
    pub fn local() -> (s: Self)
        ensures
            exists|m: u32| 1 <= m <= 12 && s == Self::spec_from_month(m),
    {
        let month = local_month();
        Self::from_month(month)
    }
}

/// `chrono::Local::now().month()`: the month of the current local date,
/// which chrono documents as ranging from 1 to 12. Which month it is depends
/// on the clock and the time zone, so nothing more is stated.
#[verifier::external_body]
fn local_month() -> (m: u32)
    ensures
        1 <= m <= 12,
{
    chrono::Local::now().month()
}

/// Every month of the year lies in exactly the season the calendar table
/// names; December, January and February are all winter.
pub proof fn lemma_months_cover_seasons(month: u32)
    requires
        1 <= month <= 12,
    ensures
        Season::spec_from_month(month) == Season::Winter <==> (month == 12 || month <= 2),
        Season::spec_from_month(month) == Season::Spring <==> (3 <= month <= 5),
        Season::spec_from_month(month) == Season::Summer <==> (6 <= month <= 8),
        Season::spec_from_month(month) == Season::Autumn <==> (9 <= month <= 11),
{
}

} // verus!
