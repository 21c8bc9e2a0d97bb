pub mod provider;

use crate::animation::random::random_usize_below;
use rand::rngs::StdRng;
use vstd::prelude::*;

verus! {

/// The weather facts that choose colours and animations for a frame.
#[derive(Clone, Copy, Debug, PartialEq, Eq, Structural)]
pub struct WeatherConditions {
    pub is_day: bool,
    pub is_raining: bool,
    pub is_snowing: bool,
    pub is_thunderstorm: bool,
    pub is_foggy: bool,
}

impl Default for WeatherConditions {
    /// A calm, clear day.
    fn default() -> (w: Self)
        ensures
            w == (WeatherConditions {
                is_day: true,
                is_raining: false,
                is_snowing: false,
                is_thunderstorm: false,
                is_foggy: false,
            }),
    {
        WeatherConditions {
            is_day: true,
            is_raining: false,
            is_snowing: false,
            is_thunderstorm: false,
            is_foggy: false,
        }
    }
}


/// The weather conditions that can be shown or simulated.
#[derive(Clone, Copy, Debug, PartialEq, Eq, Structural)]
pub enum WeatherCondition {
    Clear,
    PartlyCloudy,
    Cloudy,
    Overcast,
    Fog,
    Drizzle,
    Rain,
    FreezingRain,
    RainShowers,
    Snow,
    SnowGrains,
    SnowShowers,
    Thunderstorm,
    ThunderstormHail,
}

impl WeatherCondition {
    /// The name the HUD shows.
    pub open spec fn spec_label(self) -> Seq<char> {
        match self {
            WeatherCondition::Clear => "Clear"@,
            WeatherCondition::PartlyCloudy => "Partly Cloudy"@,
            WeatherCondition::Cloudy => "Cloudy"@,
            WeatherCondition::Overcast => "Overcast"@,
            WeatherCondition::Fog => "Fog"@,
            WeatherCondition::Drizzle => "Drizzle"@,
            WeatherCondition::Rain => "Rain"@,
            WeatherCondition::FreezingRain => "Freezing Rain"@,
            WeatherCondition::RainShowers => "Rain Showers"@,
            WeatherCondition::Snow => "Snow"@,
            WeatherCondition::SnowGrains => "Snow Grains"@,
            WeatherCondition::SnowShowers => "Snow Showers"@,
            WeatherCondition::Thunderstorm => "Thunderstorm"@,
            WeatherCondition::ThunderstormHail => "Thunderstorm with Hail"@,
        }
    }

    pub fn label(&self) -> (s: &'static str)
        ensures
            s@ == self.spec_label(),
    {
        match self {
            WeatherCondition::Clear => "Clear",
            WeatherCondition::PartlyCloudy => "Partly Cloudy",
            WeatherCondition::Cloudy => "Cloudy",
            WeatherCondition::Overcast => "Overcast",
            WeatherCondition::Fog => "Fog",
            WeatherCondition::Drizzle => "Drizzle",
            WeatherCondition::Rain => "Rain",
            WeatherCondition::FreezingRain => "Freezing Rain",
            WeatherCondition::RainShowers => "Rain Showers",
            WeatherCondition::Snow => "Snow",
            WeatherCondition::SnowGrains => "Snow Grains",
            WeatherCondition::SnowShowers => "Snow Showers",
            WeatherCondition::Thunderstorm => "Thunderstorm",
            WeatherCondition::ThunderstormHail => "Thunderstorm with Hail",
        }
    }

    /// Drizzle, rain, freezing rain and rain showers.
    pub open spec fn spec_is_raining(self) -> bool {
        self is Drizzle || self is Rain || self is FreezingRain || self is RainShowers
    }

    /// Snow, snow grains and snow showers.
    pub open spec fn spec_is_snowing(self) -> bool {
        self is Snow || self is SnowGrains || self is SnowShowers
    }

    /// A thunderstorm, with or without hail.
    pub open spec fn spec_is_thunderstorm(self) -> bool {
        self is Thunderstorm || self is ThunderstormHail
    }

    pub fn is_raining(&self) -> (b: bool)
        ensures
            b == self.spec_is_raining(),
    {
        matches!(self, WeatherCondition::Drizzle | WeatherCondition::Rain | WeatherCondition::FreezingRain | WeatherCondition::RainShowers)
    }

    pub fn is_snowing(&self) -> (b: bool)
        ensures
            b == self.spec_is_snowing(),
    {
        matches!(self, WeatherCondition::Snow | WeatherCondition::SnowGrains | WeatherCondition::SnowShowers)
    }

    pub fn is_thunderstorm(&self) -> (b: bool)
        ensures
            b == self.spec_is_thunderstorm(),
    {
        matches!(self, WeatherCondition::Thunderstorm | WeatherCondition::ThunderstormHail)
    }

    /// The facts that choose colours and animations for this condition, by
    /// day or by night.
    pub fn conditions(&self, is_day: bool) -> (c: WeatherConditions)
        ensures
            c == (WeatherConditions {
                is_day,
                is_raining: self.spec_is_raining(),
                is_snowing: self.spec_is_snowing(),
                is_thunderstorm: self.spec_is_thunderstorm(),
                is_foggy: *self == WeatherCondition::Fog,
            }),
    {
        WeatherConditions {
            is_day,
            is_raining: self.is_raining(),
            is_snowing: self.is_snowing(),
            is_thunderstorm: self.is_thunderstorm(),
            is_foggy: *self == WeatherCondition::Fog,
        }
    }
}

/// The condition of simulated offline weather for draw `index`: clear,
/// partly cloudy, cloudy or rain.
pub open spec fn spec_offline_condition(index: int) -> WeatherCondition {
    if index == 0 {
        WeatherCondition::Clear
    } else if index == 1 {
        WeatherCondition::PartlyCloudy
    } else if index == 2 {
        WeatherCondition::Cloudy
    } else {
        WeatherCondition::Rain
    }
}

pub fn offline_condition(index: usize) -> (c: WeatherCondition)
    requires
        index < 4,
    ensures
        c == spec_offline_condition(index as int),
{
    let conditions = [
        WeatherCondition::Clear,
        WeatherCondition::PartlyCloudy,
        WeatherCondition::Cloudy,
        WeatherCondition::Rain,
    ];
    conditions[index]
}

/// Draw the condition of simulated offline weather, each of the four with
/// the same chance.
pub fn draw_offline_condition(rng: &mut StdRng) -> (c: WeatherCondition)
    ensures
        exists|i: int| 0 <= i < 4 && c == spec_offline_condition(i),
{
    let index = random_usize_below(rng, 4);
    offline_condition(index)
}

} // verus!
