//! The literal tags of the bulletin's schema, and what each selects.

use vstd::prelude::*;
use crate::text::str_eq;

verus! {

/// Category tag of a block whose items are keyed by area.
pub const AREA_PIVOTED: &'static str = "区域予報";

/// Category tag of a block whose items are keyed by station.
pub const STATION_PIVOTED: &'static str = "地点予報";

/// Category tag of a block of unstructured records.
pub const PROPRIETARY: &'static str = "独自予報";

/// Type tag of a weather property.
pub const WEATHER: &'static str = "天気";

/// Type tag of a wave height property.
pub const WAVE: &'static str = "波";

/// Type tag of a wind property.
pub const WIND: &'static str = "風";

/// Type tag of a precipitation probability property.
pub const PRECIPITATION_PROBABILITY: &'static str = "降水確率";

/// Type tag of the dominant weather of a three-hour period.
pub const DOMINANT_WEATHER: &'static str = "３時間内卓越天気";

/// Type tag of the representative wind of a three-hour period.
pub const REPRESENTATIVE_WIND: &'static str = "３時間内代表風";

/// Type tag of a temperature at three-hour marks.
pub const THREE_HOURLY_TEMPERATURE: &'static str = "３時間毎気温";

/// What a block's items are keyed by.
#[derive(Debug, Clone, Copy, PartialEq, Eq)]
pub enum Pivot {
    Area,
    Station,
}

/// What a category tag says of its block.
#[derive(Debug, Clone, Copy, PartialEq, Eq)]
pub enum Category {
    Pivoted(Pivot),
    Proprietary,
    Unknown,
}

/// How the records of a block are rebuilt.
#[derive(Debug, Clone, Copy, PartialEq, Eq)]
pub enum Strategy {
    WeatherForecast,
    ProbabilityOfPrecipitation,
    WeatherAndWindTimeSeries,
    TemperatureForecast,
    TemperatureTimeSeries,
}

/// The category that a category tag names.
pub open spec fn category_of(tag: Seq<char>) -> Category {
    if tag == PROPRIETARY@ {
        Category::Proprietary
    } else if tag == AREA_PIVOTED@ {
        Category::Pivoted(Pivot::Area)
    } else if tag == STATION_PIVOTED@ {
        Category::Pivoted(Pivot::Station)
    } else {
        Category::Unknown
    }
}

/// The strategy for a pivoted block, chosen by the type tag of the first
/// property of its first item. An area-pivoted block with a tag that names no
/// strategy has none; a station-pivoted block always has one.
pub open spec fn strategy_of(pivot: Pivot, leading: Seq<char>) -> Option<Strategy> {
    match pivot {
        Pivot::Area => {
            if leading == WEATHER@ || leading == WAVE@ || leading == WIND@ {
                Some(Strategy::WeatherForecast)
            } else if leading == PRECIPITATION_PROBABILITY@ {
                Some(Strategy::ProbabilityOfPrecipitation)
            } else if leading == DOMINANT_WEATHER@ || leading == REPRESENTATIVE_WIND@ {
                Some(Strategy::WeatherAndWindTimeSeries)
            } else {
                None
            }
        },
        Pivot::Station => {
            if leading == THREE_HOURLY_TEMPERATURE@ {
                Some(Strategy::TemperatureTimeSeries)
            } else {
                Some(Strategy::TemperatureForecast)
            }
        },
    }
}

/// Reads a category tag.
pub fn read_category(tag: &str) -> (r: Category)
    ensures
        r == category_of(tag@),
{
    if str_eq(tag, PROPRIETARY) {
        Category::Proprietary
    } else if str_eq(tag, AREA_PIVOTED) {
        Category::Pivoted(Pivot::Area)
    } else if str_eq(tag, STATION_PIVOTED) {
        Category::Pivoted(Pivot::Station)
    } else {
        Category::Unknown
    }
}

/// Chooses the strategy for a pivoted block from its leading type tag.
pub fn choose_strategy(pivot: Pivot, leading: &str) -> (r: Option<Strategy>)
    ensures
        r == strategy_of(pivot, leading@),
{
    match pivot {
        Pivot::Area => {
            if str_eq(leading, WEATHER) || str_eq(leading, WAVE) || str_eq(leading, WIND) {
                Some(Strategy::WeatherForecast)
            } else if str_eq(leading, PRECIPITATION_PROBABILITY) {
                Some(Strategy::ProbabilityOfPrecipitation)
            } else if str_eq(leading, DOMINANT_WEATHER) || str_eq(leading, REPRESENTATIVE_WIND) {
                Some(Strategy::WeatherAndWindTimeSeries)
            } else {
                None
            }
        },
        Pivot::Station => {
            if str_eq(leading, THREE_HOURLY_TEMPERATURE) {
                Some(Strategy::TemperatureTimeSeries)
            } else {
                Some(Strategy::TemperatureForecast)
            }
        },
    }
}

} // verus!
