//! The bulletin as the document lays it out, before anything is lined up.

use vstd::prelude::*;
use vstd::utf8::encode_utf8;
use crate::fuken_r1::model::Area;
use crate::fuken_r1::model::Control;
use crate::fuken_r1::model::Head;
use crate::fuken_r1::model::MeteorologicalInfo;
use crate::fuken_r1::model::ProbabilityOfPrecipitation;
use crate::fuken_r1::model::Temperature;
use crate::fuken_r1::model::TimeDefine;
use crate::fuken_r1::model::WaveHeightForecastPart;
use crate::fuken_r1::model::Weather;
use crate::fuken_r1::model::WeatherCode;
use crate::fuken_r1::model::WeatherForecastPart;
use crate::fuken_r1::model::WindDirection;
use crate::fuken_r1::model::WindForecastPart;
use crate::fuken_r1::model::WindSpeedLevel;
use crate::order::Keyed;
use crate::order::SortKey;
use crate::text::str_le;

verus! {

/// A whole bulletin.
#[derive(Debug, Clone, PartialEq, Eq)]
pub struct ReportTmp {
    pub control: Control,
    pub head: Head,
    pub body: BodyTmp,
}

/// The blocks of a bulletin, in document order.
#[derive(Debug, Clone, PartialEq, Eq)]
pub struct BodyTmp {
    pub meteorological_infos: Vec<MeteorologicalInfosTmp>,
}

/// A block of the body. `_type` is its category tag; a proprietary block has
/// records, any other has time series.
#[derive(Debug, Clone, PartialEq, Eq)]
pub struct MeteorologicalInfosTmp {
    pub _type: String,
    pub time_series_info: Vec<TimeSeriesInfo>,
    pub meteorological_info: Vec<MeteorologicalInfo>,
}

/// Time markers, and for each area or station the values that refer to them.
#[derive(Debug, Clone, PartialEq, Eq)]
pub struct TimeSeriesInfo {
    pub time_defines: TimeDefines,
    pub items: Vec<Item>,
}

/// The time markers of a time series, in document order.
#[derive(Debug, Clone, PartialEq, Eq)]
pub struct TimeDefines {
    pub items: Vec<TimeDefine>,
}

/// The property groups of one area or station.
#[derive(Debug, Clone, PartialEq, Eq)]
pub struct Item {
    pub kind: Vec<Kind>,
    pub area: Area,
}

/// A group of properties.
#[derive(Debug, Clone, PartialEq, Eq)]
pub struct Kind {
    pub property: Vec<Property>,
}

/// One forecast quantity: its type tag, and those parts that the document gives.
#[derive(Debug, Clone, PartialEq, Eq)]
pub struct Property {
    pub _type: String,
    pub detail_forecast: Option<DetailForecast>,
    pub weather_part: Option<WeatherPart>,
    pub weather_code_part: Option<WeatherCodePart>,
    pub probability_of_precipitation_part: Option<ProbabilityOfPrecipitationPart>,
    pub temperature_part: Option<TemperaturePart>,
    pub wind_direction_part: Option<WindDirectionPart>,
    pub wind_speed_part: Option<WindSpeedPart>,
}

impl Keyed for Property {
    /// Properties are ordered by type tag, as text.
    open spec fn sort_key(&self) -> SortKey {
        SortKey::Text(encode_utf8(self._type@))
    }

    fn key_at_most(&self, other: &Self) -> (b: bool) {
        str_le(self._type.as_str(), other._type.as_str())
    }
}

/// The sentences of a property: of weather, of wind or of wave height.
#[derive(Debug, Clone, PartialEq, Eq)]
pub struct DetailForecast {
    pub weather_forecast_part: Vec<WeatherForecastPart>,
    pub wind_forecast_part: Vec<WindForecastPart>,
    pub wave_height_forecast_part: Vec<WaveHeightForecastPart>,
}

/// The weather names of a property.
#[derive(Debug, Clone, PartialEq, Eq)]
pub struct WeatherPart {
    pub weather: Vec<Weather>,
}

/// The weather codes of a property.
#[derive(Debug, Clone, PartialEq, Eq)]
pub struct WeatherCodePart {
    pub weather_code: Vec<WeatherCode>,
}

/// The precipitation probabilities of a property.
#[derive(Debug, Clone, PartialEq, Eq)]
pub struct ProbabilityOfPrecipitationPart {
    pub values: Vec<ProbabilityOfPrecipitation>,
}

/// The temperatures of a property.
#[derive(Debug, Clone, PartialEq, Eq)]
pub struct TemperaturePart {
    pub values: Vec<Temperature>,
}

/// The wind directions of a property.
#[derive(Debug, Clone, PartialEq, Eq)]
pub struct WindDirectionPart {
    pub values: Vec<WindDirection>,
}

/// The wind speeds of a property.
#[derive(Debug, Clone, PartialEq, Eq)]
pub struct WindSpeedPart {
    pub values: Vec<WindSpeedLevel>,
}

/// The properties of an item, group after group.
pub open spec fn flat_properties(kinds: Seq<Kind>) -> Seq<Property> {
    kinds.flat_map(|kind: Kind| kind.property@)
}

/// Joins the properties of all groups into one list.
pub fn flatten_properties(kinds: Vec<Kind>) -> (r: Vec<Property>)
    ensures
        r@ == flat_properties(kinds@),
{
    let mut out: Vec<Property> = Vec::new();
    for kind in it: kinds
        invariant
            it.seq() == kinds@,
            out@ == flat_properties(kinds@.take(it.index() as int)),
    {
        let mut properties = kind.property;
        proof {
            kinds@.lemma_flat_map_take_append(|kind: Kind| kind.property@, it.index() as int);
        }
        out.append(&mut properties);
    }
    assert(kinds@.take(kinds@.len() as int) =~= kinds@);
    out
}

impl TimeSeriesInfo {
    /// The first item has a first group, which has a first property.
    pub open spec fn has_leading_property(&self) -> bool {
        &&& self.items@.len() > 0
        &&& self.items@[0].kind@.len() > 0
        &&& self.items@[0].kind@[0].property@.len() > 0
    }

    /// Whether the first item has a first group with a first property.
    pub fn leads_with_property(&self) -> (b: bool)
        ensures
            b == self.has_leading_property(),
    {
        self.items.len() > 0 && self.items[0].kind.len() > 0 && self.items[0].kind[0].property.len()
            > 0
    }

    /// The type tag of the first property of the first item.
    pub open spec fn leading_type(&self) -> Seq<char>
        recommends
            self.has_leading_property(),
    {
        self.items@[0].kind@[0].property@[0]._type@
    }
}

} // verus!
