//! The values a bulletin carries and the records rebuilt from them.

use vstd::prelude::*;
use crate::order::Keyed;
use crate::order::SortKey;

verus! {

/// A point in time: seconds and nanoseconds since 1970-01-01T00:00:00Z.
#[derive(Debug, Clone, Copy, PartialEq, Eq)]
pub struct Timestamp {
    pub seconds: i64,
    pub nanoseconds: u32,
}

/// Bulletin metadata: who sent it, when, and in what status.
#[derive(Debug, Clone, PartialEq, Eq)]
pub struct Control {
    pub title: String,
    pub datetime: Timestamp,
    pub status: ControlStatus,
    pub editorial_office: String,
    pub publishing_office: String,
}

/// Whether a bulletin is in earnest.
#[derive(Debug, Clone, Copy, PartialEq, Eq)]
pub enum ControlStatus {
    Normal,
    Training,
    Test,
}

/// Bulletin metadata: what is reported, and for which time.
#[derive(Debug, Clone, PartialEq, Eq)]
pub struct Head {
    pub title: String,
    pub report_datetime: Timestamp,
    pub target_datetime: Timestamp,
    pub target_duration: String,
    pub info_type: InfoType,
    pub info_kind: String,
    pub info_kind_version: String,
}

/// Whether a bulletin is new, corrects an earlier one, or comes late.
#[derive(Debug, Clone, Copy, PartialEq, Eq)]
pub enum InfoType {
    Announcement,
    Correction,
    Delay,
}

/// The area or station a forecast is for.
#[derive(Debug, Clone, PartialEq, Eq)]
pub struct Area {
    pub name: String,
    pub code: usize,
}

/// One marker of a block's time axis.
#[derive(Debug, PartialEq, Eq)]
pub struct TimeDefine {
    pub time_id: usize,
    pub datetime: Timestamp,
    pub duration: Option<String>,
    pub name: Option<String>,
}

/// A copy of an optional text.
fn clone_text(text: &Option<String>) -> (r: Option<String>)
    ensures
        r == *text,
{
    match text {
        Some(s) => Some(s.clone()),
        None => None,
    }
}

impl Clone for TimeDefine {
    fn clone(&self) -> (r: Self)
        ensures
            r == *self,
    {
        TimeDefine {
            time_id: self.time_id,
            datetime: self.datetime,
            duration: clone_text(&self.duration),
            name: clone_text(&self.name),
        }
    }
}

impl Keyed for TimeDefine {
    open spec fn sort_key(&self) -> SortKey {
        SortKey::Number(self.time_id as int)
    }

    fn key_at_most(&self, other: &Self) -> (b: bool) {
        self.time_id <= other.time_id
    }
}

/// An unstructured record of a proprietary block.
#[derive(Debug, Clone, PartialEq, Eq)]
pub struct MeteorologicalInfo {
    pub date_time: Timestamp,
    pub duration: String,
    pub item: MeteorologicalInfoItem,
}

/// What an unstructured record says, and of which area.
#[derive(Debug, Clone, PartialEq, Eq)]
pub struct MeteorologicalInfoItem {
    pub kind: MeteorologicalInfoKind,
    pub area: Area,
}

/// The one property of an unstructured record.
#[derive(Debug, Clone, PartialEq, Eq)]
pub struct MeteorologicalInfoKind {
    pub property: MeteorologicalInfoProperty,
}

/// The free text of an unstructured record, with its type tag.
#[derive(Debug, Clone, PartialEq, Eq)]
pub struct MeteorologicalInfoProperty {
    pub _type: String,
    pub text: String,
}

/// The weather of one period in words.
#[derive(Debug, Clone, PartialEq, Eq)]
pub struct WeatherForecastPart {
    pub ref_id: usize,
    pub sentence: String,
    pub base: WeatherForecastBase,
    pub temporary: Vec<Temporary>,
}

impl Keyed for WeatherForecastPart {
    open spec fn sort_key(&self) -> SortKey {
        SortKey::Number(self.ref_id as int)
    }

    fn key_at_most(&self, other: &Self) -> (b: bool) {
        self.ref_id <= other.ref_id
    }
}

/// The weather that a sentence starts from.
#[derive(Debug, Clone, PartialEq, Eq)]
pub struct WeatherForecastBase {
    pub weather: Weather,
}

/// A weather that holds for a part of the period only.
#[derive(Debug, Clone, PartialEq, Eq)]
pub struct Temporary {
    pub time_modifier: String,
    pub weather: Weather,
}

/// A weather name. One that stands inside a sentence has no reference identifier.
#[derive(Debug, Clone, PartialEq, Eq)]
pub struct Weather {
    pub ref_id: Option<usize>,
    pub _type: String,
    pub value: String,
}

impl Keyed for Weather {
    /// A weather without identifier sorts before every one that has one.
    open spec fn sort_key(&self) -> SortKey {
        match self.ref_id {
            Some(id) => SortKey::Number(id as int),
            None => SortKey::Number(-1),
        }
    }

    fn key_at_most(&self, other: &Self) -> (b: bool) {
        match self.ref_id {
            None => true,
            Some(id) => match other.ref_id {
                None => false,
                Some(other_id) => id <= other_id,
            },
        }
    }
}

/// The wind of one period in words.
#[derive(Debug, Clone, PartialEq, Eq)]
pub struct WindForecastPart {
    pub ref_id: usize,
    pub sentence: String,
}

impl Keyed for WindForecastPart {
    open spec fn sort_key(&self) -> SortKey {
        SortKey::Number(self.ref_id as int)
    }

    fn key_at_most(&self, other: &Self) -> (b: bool) {
        self.ref_id <= other.ref_id
    }
}

/// The wave height of one period in words.
#[derive(Debug, Clone, PartialEq, Eq)]
pub struct WaveHeightForecastPart {
    pub ref_id: usize,
    pub sentence: String,
}

impl Keyed for WaveHeightForecastPart {
    open spec fn sort_key(&self) -> SortKey {
        SortKey::Number(self.ref_id as int)
    }

    fn key_at_most(&self, other: &Self) -> (b: bool) {
        self.ref_id <= other.ref_id
    }
}

/// The weather of one period as a code number.
#[derive(Debug, Clone, PartialEq, Eq)]
pub struct WeatherCode {
    pub ref_id: usize,
    pub _type: String,
    pub value: usize,
}

impl Keyed for WeatherCode {
    open spec fn sort_key(&self) -> SortKey {
        SortKey::Number(self.ref_id as int)
    }

    fn key_at_most(&self, other: &Self) -> (b: bool) {
        self.ref_id <= other.ref_id
    }
}

/// The probability of precipitation in one period, in percent.
#[derive(Debug, Clone, PartialEq, Eq)]
pub struct ProbabilityOfPrecipitation {
    pub condition: String,
    pub description: String,
    pub ref_id: usize,
    pub _type: String,
    pub unit: String,
    pub value: u32,
}

impl Keyed for ProbabilityOfPrecipitation {
    open spec fn sort_key(&self) -> SortKey {
        SortKey::Number(self.ref_id as int)
    }

    fn key_at_most(&self, other: &Self) -> (b: bool) {
        self.ref_id <= other.ref_id
    }
}

/// A temperature in degrees.
#[derive(Debug, Clone, PartialEq, Eq)]
pub struct Temperature {
    pub description: String,
    pub ref_id: usize,
    pub _type: String,
    pub unit: String,
    pub value: i32,
}

impl Keyed for Temperature {
    open spec fn sort_key(&self) -> SortKey {
        SortKey::Number(self.ref_id as int)
    }

    fn key_at_most(&self, other: &Self) -> (b: bool) {
        self.ref_id <= other.ref_id
    }
}

/// The wind direction of one period.
#[derive(Debug, Clone, PartialEq, Eq)]
pub struct WindDirection {
    pub ref_id: usize,
    pub _type: String,
    pub unit: String,
    pub value: String,
}

impl Keyed for WindDirection {
    open spec fn sort_key(&self) -> SortKey {
        SortKey::Number(self.ref_id as int)
    }

    fn key_at_most(&self, other: &Self) -> (b: bool) {
        self.ref_id <= other.ref_id
    }
}

/// The wind speed of one period, as a level.
#[derive(Debug, Clone, PartialEq, Eq)]
pub struct WindSpeedLevel {
    pub description: String,
    pub range: String,
    pub ref_id: usize,
    pub _type: String,
    pub value: u32,
}

impl Keyed for WindSpeedLevel {
    open spec fn sort_key(&self) -> SortKey {
        SortKey::Number(self.ref_id as int)
    }

    fn key_at_most(&self, other: &Self) -> (b: bool) {
        self.ref_id <= other.ref_id
    }
}

/// Weather, wind and, where the area has a coast, wave height of one period.
#[derive(Debug, Clone, PartialEq, Eq)]
pub struct WeatherForecast {
    pub time: TimeDefine,
    pub weather_text: WeatherForecastPart,
    pub weather: Weather,
    pub weather_code: WeatherCode,
    pub wind: WindForecastPart,
    pub wave_height: Option<WaveHeightForecastPart>,
}

/// The probability of precipitation in one period.
#[derive(Debug, Clone, PartialEq, Eq)]
pub struct Precipitation {
    pub time: TimeDefine,
    pub probability: ProbabilityOfPrecipitation,
}

/// Dominant weather and representative wind of one three-hour period.
#[derive(Debug, Clone, PartialEq, Eq)]
pub struct WeatherAndWindForecast {
    pub time: TimeDefine,
    pub weather: Weather,
    pub wind_direction: WindDirection,
    pub wind_speed: WindSpeedLevel,
}

/// A temperature of one day, with the name of what it is (a maximum, a minimum).
#[derive(Debug, Clone, PartialEq, Eq)]
pub struct TemperatureForecast {
    pub time: TimeDefine,
    pub _type: String,
    pub temperature: Temperature,
}

/// The temperature at one three-hour mark.
#[derive(Debug, Clone, PartialEq, Eq)]
pub struct TemperatureTimeSeries {
    pub time: TimeDefine,
    pub temperature: Temperature,
}

/// The forecast of one area: one record for each marker of the time axis.
#[derive(Debug, Clone, PartialEq, Eq)]
pub struct AreaForecast<T> {
    pub area: Area,
    pub forecast: Vec<T>,
}

/// An `AreaForecast` as a mathematical value.
pub struct AreaForecastView<T> {
    pub area: Area,
    pub forecast: Seq<T>,
}

impl<T> View for AreaForecast<T> {
    type V = AreaForecastView<T>;

    open spec fn view(&self) -> AreaForecastView<T> {
        AreaForecastView { area: self.area, forecast: self.forecast@ }
    }
}

/// The views of a list of area forecasts.
pub open spec fn area_views<T>(areas: Seq<AreaForecast<T>>) -> Seq<AreaForecastView<T>> {
    areas.map_values(|a: AreaForecast<T>| a@)
}

} // verus!
