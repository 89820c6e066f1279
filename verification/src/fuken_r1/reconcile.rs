//! Matching the properties of one area to the roles of its block's strategy.
//!
//! Properties are told apart by position after a sort on their type tag. The
//! tag of each chosen property is then held against the tag of its role, so a
//! wrong choice is an error and never a wrong record.

use vstd::prelude::*;
use crate::fuken_r1::error::ReconstructError;
use crate::fuken_r1::model::AreaForecast;
use crate::fuken_r1::model::AreaForecastView;
use crate::fuken_r1::model::Precipitation;
use crate::fuken_r1::model::TemperatureForecast;
use crate::fuken_r1::model::TemperatureTimeSeries;
use crate::fuken_r1::model::TimeDefine;
use crate::fuken_r1::model::WeatherAndWindForecast;
use crate::fuken_r1::model::WeatherForecast;
use crate::fuken_r1::model::area_views;
use crate::fuken_r1::raw::Item;
use crate::fuken_r1::raw::Property;
use crate::fuken_r1::raw::flat_properties;
use crate::fuken_r1::raw::flatten_properties;
use crate::fuken_r1::records::pair_precipitation;
use crate::fuken_r1::records::pair_temperature_series;
use crate::fuken_r1::records::pair_weather;
use crate::fuken_r1::records::pair_weather_and_wind;
use crate::fuken_r1::records::precipitation_records;
use crate::fuken_r1::records::temperature_series_records;
use crate::fuken_r1::records::weather_and_wind_records;
use crate::fuken_r1::records::weather_records;
use crate::fuken_r1::tags::DOMINANT_WEATHER;
use crate::fuken_r1::tags::REPRESENTATIVE_WIND;
use crate::fuken_r1::tags::WAVE;
use crate::fuken_r1::tags::WEATHER;
use crate::fuken_r1::tags::WIND;
use crate::lists::all_or_first_error;
use crate::lists::lemma_first_error_of_prefix;
use crate::lists::shorter;
use crate::order::lemma_stable_sorted_len;
use crate::order::sort_by_key;
use crate::order::stable_sorted;
use crate::text::str_eq;

verus! {

/// A result with its list taken as a sequence.
pub open spec fn records_of<T>(r: Result<Vec<T>, ReconstructError>) -> Result<
    Seq<T>,
    ReconstructError,
> {
    match r {
        Ok(records) => Ok(records@),
        Err(e) => Err(e),
    }
}

/// A kind of record, with the strategy that rebuilds it from the properties of
/// one area.
pub trait Reconcile: Sized {
    /// The records of one area: `axis` is the block's time axis in ascending
    /// order, `properties` the area's properties in document order.
    spec fn entry(axis: Seq<TimeDefine>, properties: Seq<Property>) -> Result<
        Seq<Self>,
        ReconstructError,
    >;

    /// How many values the properties of an area give for its records: as many
    /// as the role with the fewest. It says nothing where `entry` is an error.
    spec fn value_count(properties: Seq<Property>) -> nat;

    /// Rebuilds the records of one area.
    fn reconcile(axis: &Vec<TimeDefine>, properties: Vec<Property>) -> (r: Result<
        Vec<Self>,
        ReconstructError,
    >)
        ensures
            records_of(r) == Self::entry(axis@, properties@),
    ;

    /// An area has one record for each time marker, or one for each value where
    /// a role has fewer values than there are markers.
    proof fn lemma_entry_len(axis: Seq<TimeDefine>, properties: Seq<Property>)
        ensures
            Self::entry(axis, properties) matches Ok(records) ==> records.len() == shorter(
                axis.len(),
                Self::value_count(properties),
            ),
    ;
}

/// The property has what the weather role needs: sentences, names and codes.
pub open spec fn has_weather_parts(property: Property) -> bool {
    &&& property.detail_forecast is Some
    &&& property.weather_part is Some
    &&& property.weather_code_part is Some
}

/// The property has what the representative wind role needs: directions and
/// speeds.
pub open spec fn has_wind_parts(property: Property) -> bool {
    &&& property.wind_direction_part is Some
    &&& property.wind_speed_part is Some
}

/// The property has a temperature to take.
pub open spec fn has_temperature(property: Property) -> bool {
    &&& property.temperature_part is Some
    &&& property.temperature_part.unwrap().values@.len() > 0
}

/// Weather records of an area with a coast, from its three properties sorted by
/// tag: weather, wave, wind.
pub open spec fn coastal_weather_entry(axis: Seq<TimeDefine>, sorted: Seq<Property>) -> Result<
    Seq<WeatherForecast>,
    ReconstructError,
> {
    let weather = sorted[0];
    let wave = sorted[1];
    let wind = sorted[2];
    if !(has_weather_parts(weather) && wave.detail_forecast is Some
        && wind.detail_forecast is Some) {
        Err(ReconstructError::MissingPart)
    } else if !(weather._type@ == WEATHER@ && wave._type@ == WAVE@ && wind._type@ == WIND@) {
        Err(ReconstructError::TypeMismatch)
    } else {
        Ok(
            weather_records(
                axis,
                stable_sorted(weather.detail_forecast.unwrap().weather_forecast_part@),
                stable_sorted(weather.weather_part.unwrap().weather@),
                stable_sorted(weather.weather_code_part.unwrap().weather_code@),
                stable_sorted(wind.detail_forecast.unwrap().wind_forecast_part@),
                Some(stable_sorted(wave.detail_forecast.unwrap().wave_height_forecast_part@)),
            ),
        )
    }
}

/// Weather records of an area without a coast, from its two properties sorted
/// by tag: weather, wind.
pub open spec fn inland_weather_entry(axis: Seq<TimeDefine>, sorted: Seq<Property>) -> Result<
    Seq<WeatherForecast>,
    ReconstructError,
> {
    let weather = sorted[0];
    let wind = sorted[1];
    if !(has_weather_parts(weather) && wind.detail_forecast is Some) {
        Err(ReconstructError::MissingPart)
    } else if !(weather._type@ == WEATHER@ && wind._type@ == WIND@) {
        Err(ReconstructError::TypeMismatch)
    } else {
        Ok(
            weather_records(
                axis,
                stable_sorted(weather.detail_forecast.unwrap().weather_forecast_part@),
                stable_sorted(weather.weather_part.unwrap().weather@),
                stable_sorted(weather.weather_code_part.unwrap().weather_code@),
                stable_sorted(wind.detail_forecast.unwrap().wind_forecast_part@),
                None,
            ),
        )
    }
}

/// Rebuilds the weather records of an area with a coast.
fn reconcile_coastal_weather(axis: &Vec<TimeDefine>, sorted: Vec<Property>) -> (r: Result<
    Vec<WeatherForecast>,
    ReconstructError,
>)
    requires
        sorted@.len() == 3,
    ensures
        records_of(r) == coastal_weather_entry(axis@, sorted@),
{
    let mut rest = sorted;
    let Property { _type: wind_type, detail_forecast: wind_detail, .. } = rest.pop().unwrap();
    let Property { _type: wave_type, detail_forecast: wave_detail, .. } = rest.pop().unwrap();
    let Property {
        _type: weather_type,
        detail_forecast: weather_detail,
        weather_part,
        weather_code_part,
        ..
    } = rest.pop().unwrap();
    match (weather_detail, weather_part, weather_code_part, wave_detail, wind_detail) {
        (Some(sentences), Some(names), Some(codes), Some(waves), Some(winds)) => {
            if str_eq(weather_type.as_str(), WEATHER) && str_eq(wave_type.as_str(), WAVE) && str_eq(
                wind_type.as_str(),
                WIND,
            ) {
                Ok(
                    pair_weather(
                        axis,
                        sort_by_key(sentences.weather_forecast_part),
                        sort_by_key(names.weather),
                        sort_by_key(codes.weather_code),
                        sort_by_key(winds.wind_forecast_part),
                        Some(sort_by_key(waves.wave_height_forecast_part)),
                    ),
                )
            } else {
                Err(ReconstructError::TypeMismatch)
            }
        },
        _ => Err(ReconstructError::MissingPart),
    }
}

/// Rebuilds the weather records of an area without a coast.
fn reconcile_inland_weather(axis: &Vec<TimeDefine>, sorted: Vec<Property>) -> (r: Result<
    Vec<WeatherForecast>,
    ReconstructError,
>)
    requires
        sorted@.len() == 2,
    ensures
        records_of(r) == inland_weather_entry(axis@, sorted@),
{
    let mut rest = sorted;
    let Property { _type: wind_type, detail_forecast: wind_detail, .. } = rest.pop().unwrap();
    let Property {
        _type: weather_type,
        detail_forecast: weather_detail,
        weather_part,
        weather_code_part,
        ..
    } = rest.pop().unwrap();
    match (weather_detail, weather_part, weather_code_part, wind_detail) {
        (Some(sentences), Some(names), Some(codes), Some(winds)) => {
            if str_eq(weather_type.as_str(), WEATHER) && str_eq(wind_type.as_str(), WIND) {
                Ok(
                    pair_weather(
                        axis,
                        sort_by_key(sentences.weather_forecast_part),
                        sort_by_key(names.weather),
                        sort_by_key(codes.weather_code),
                        sort_by_key(winds.wind_forecast_part),
                        None,
                    ),
                )
            } else {
                Err(ReconstructError::TypeMismatch)
            }
        },
        _ => Err(ReconstructError::MissingPart),
    }
}

impl Reconcile for WeatherForecast {
    /// Three properties are weather, wave and wind; two are weather and wind.
    /// Any other number is an error.
    open spec fn entry(axis: Seq<TimeDefine>, properties: Seq<Property>) -> Result<
        Seq<Self>,
        ReconstructError,
    > {
        if properties.len() == 3 {
            coastal_weather_entry(axis, stable_sorted(properties))
        } else if properties.len() == 2 {
            inland_weather_entry(axis, stable_sorted(properties))
        } else {
            Err(ReconstructError::InvalidPropertyCount)
        }
    }

    open spec fn value_count(properties: Seq<Property>) -> nat {
        let sorted = stable_sorted(properties);
        let weather = sorted[0];
        let wind = sorted[properties.len() - 1];
        let without_waves = shorter(
            weather.detail_forecast.unwrap().weather_forecast_part@.len(),
            shorter(
                weather.weather_part.unwrap().weather@.len(),
                shorter(
                    weather.weather_code_part.unwrap().weather_code@.len(),
                    wind.detail_forecast.unwrap().wind_forecast_part@.len(),
                ),
            ),
        );
        if properties.len() == 3 {
            shorter(
                without_waves,
                sorted[1].detail_forecast.unwrap().wave_height_forecast_part@.len(),
            )
        } else {
            without_waves
        }
    }

    fn reconcile(axis: &Vec<TimeDefine>, properties: Vec<Property>) -> (r: Result<
        Vec<Self>,
        ReconstructError,
    >) {
        proof {
            lemma_stable_sorted_len(properties@);
        }
        let count = properties.len();
        if count == 3 {
            reconcile_coastal_weather(axis, sort_by_key(properties))
        } else if count == 2 {
            reconcile_inland_weather(axis, sort_by_key(properties))
        } else {
            Err(ReconstructError::InvalidPropertyCount)
        }
    }

    proof fn lemma_entry_len(axis: Seq<TimeDefine>, properties: Seq<Property>) {
        if Self::entry(axis, properties) is Ok {
            let sorted = stable_sorted(properties);
            let weather = sorted[0];
            let wind = sorted[properties.len() - 1];
            lemma_stable_sorted_len(weather.detail_forecast.unwrap().weather_forecast_part@);
            lemma_stable_sorted_len(weather.weather_part.unwrap().weather@);
            lemma_stable_sorted_len(weather.weather_code_part.unwrap().weather_code@);
            lemma_stable_sorted_len(wind.detail_forecast.unwrap().wind_forecast_part@);
            if properties.len() == 3 {
                lemma_stable_sorted_len(
                    sorted[1].detail_forecast.unwrap().wave_height_forecast_part@,
                );
            }
        }
    }
}

impl Reconcile for Precipitation {
    /// The one property gives the probabilities.
    open spec fn entry(axis: Seq<TimeDefine>, properties: Seq<Property>) -> Result<
        Seq<Self>,
        ReconstructError,
    > {
        if properties.len() != 1 {
            Err(ReconstructError::InvalidPropertyCount)
        } else if properties[0].probability_of_precipitation_part is None {
            Err(ReconstructError::MissingPart)
        } else {
            Ok(
                precipitation_records(
                    axis,
                    stable_sorted(properties[0].probability_of_precipitation_part.unwrap().values@),
                ),
            )
        }
    }

    open spec fn value_count(properties: Seq<Property>) -> nat {
        properties[0].probability_of_precipitation_part.unwrap().values@.len()
    }

    fn reconcile(axis: &Vec<TimeDefine>, properties: Vec<Property>) -> (r: Result<
        Vec<Self>,
        ReconstructError,
    >) {
        let mut rest = properties;
        if rest.len() != 1 {
            return Err(ReconstructError::InvalidPropertyCount);
        }
        let Property { probability_of_precipitation_part, .. } = rest.pop().unwrap();
        match probability_of_precipitation_part {
            Some(part) => Ok(pair_precipitation(axis, sort_by_key(part.values))),
            None => Err(ReconstructError::MissingPart),
        }
    }

    proof fn lemma_entry_len(axis: Seq<TimeDefine>, properties: Seq<Property>) {
        if Self::entry(axis, properties) is Ok {
            lemma_stable_sorted_len(
                properties[0].probability_of_precipitation_part.unwrap().values@,
            );
        }
    }
}

impl Reconcile for TemperatureTimeSeries {
    /// The one property gives the temperatures.
    open spec fn entry(axis: Seq<TimeDefine>, properties: Seq<Property>) -> Result<
        Seq<Self>,
        ReconstructError,
    > {
        if properties.len() != 1 {
            Err(ReconstructError::InvalidPropertyCount)
        } else if properties[0].temperature_part is None {
            Err(ReconstructError::MissingPart)
        } else {
            Ok(
                temperature_series_records(
                    axis,
                    stable_sorted(properties[0].temperature_part.unwrap().values@),
                ),
            )
        }
    }

    open spec fn value_count(properties: Seq<Property>) -> nat {
        properties[0].temperature_part.unwrap().values@.len()
    }

    fn reconcile(axis: &Vec<TimeDefine>, properties: Vec<Property>) -> (r: Result<
        Vec<Self>,
        ReconstructError,
    >) {
        let mut rest = properties;
        if rest.len() != 1 {
            return Err(ReconstructError::InvalidPropertyCount);
        }
        let Property { temperature_part, .. } = rest.pop().unwrap();
        match temperature_part {
            Some(part) => Ok(pair_temperature_series(axis, sort_by_key(part.values))),
            None => Err(ReconstructError::MissingPart),
        }
    }

    proof fn lemma_entry_len(axis: Seq<TimeDefine>, properties: Seq<Property>) {
        if Self::entry(axis, properties) is Ok {
            lemma_stable_sorted_len(properties[0].temperature_part.unwrap().values@);
        }
    }
}

impl Reconcile for WeatherAndWindForecast {
    /// The two properties, sorted by tag, are representative wind and dominant
    /// weather.
    open spec fn entry(axis: Seq<TimeDefine>, properties: Seq<Property>) -> Result<
        Seq<Self>,
        ReconstructError,
    > {
        let sorted = stable_sorted(properties);
        let wind = sorted[0];
        let weather = sorted[1];
        if properties.len() != 2 {
            Err(ReconstructError::InvalidPropertyCount)
        } else if !(has_wind_parts(wind) && weather.weather_part is Some) {
            Err(ReconstructError::MissingPart)
        } else if !(wind._type@ == REPRESENTATIVE_WIND@ && weather._type@ == DOMINANT_WEATHER@) {
            Err(ReconstructError::TypeMismatch)
        } else {
            Ok(
                weather_and_wind_records(
                    axis,
                    stable_sorted(wind.wind_direction_part.unwrap().values@),
                    stable_sorted(wind.wind_speed_part.unwrap().values@),
                    stable_sorted(weather.weather_part.unwrap().weather@),
                ),
            )
        }
    }

    open spec fn value_count(properties: Seq<Property>) -> nat {
        let sorted = stable_sorted(properties);
        shorter(
            sorted[0].wind_direction_part.unwrap().values@.len(),
            shorter(
                sorted[0].wind_speed_part.unwrap().values@.len(),
                sorted[1].weather_part.unwrap().weather@.len(),
            ),
        )
    }

    fn reconcile(axis: &Vec<TimeDefine>, properties: Vec<Property>) -> (r: Result<
        Vec<Self>,
        ReconstructError,
    >) {
        proof {
            lemma_stable_sorted_len(properties@);
        }
        if properties.len() != 2 {
            return Err(ReconstructError::InvalidPropertyCount);
        }
        let mut rest = sort_by_key(properties);
        let Property { _type: weather_type, weather_part, .. } = rest.pop().unwrap();
        let Property { _type: wind_type, wind_direction_part, wind_speed_part, .. } =
            rest.pop().unwrap();
        match (wind_direction_part, wind_speed_part, weather_part) {
            (Some(directions), Some(speeds), Some(names)) => {
                if str_eq(wind_type.as_str(), REPRESENTATIVE_WIND) && str_eq(
                    weather_type.as_str(),
                    DOMINANT_WEATHER,
                ) {
                    Ok(
                        pair_weather_and_wind(
                            axis,
                            sort_by_key(directions.values),
                            sort_by_key(speeds.values),
                            sort_by_key(names.weather),
                        ),
                    )
                } else {
                    Err(ReconstructError::TypeMismatch)
                }
            },
            _ => Err(ReconstructError::MissingPart),
        }
    }

    proof fn lemma_entry_len(axis: Seq<TimeDefine>, properties: Seq<Property>) {
        if Self::entry(axis, properties) is Ok {
            let sorted = stable_sorted(properties);
            lemma_stable_sorted_len(sorted[0].wind_direction_part.unwrap().values@);
            lemma_stable_sorted_len(sorted[0].wind_speed_part.unwrap().values@);
            lemma_stable_sorted_len(sorted[1].weather_part.unwrap().weather@);
        }
    }
}

/// Record `i` pairs marker `i` with property `i`, in document order: the
/// property's type tag names the record, its first temperature is the value.
pub open spec fn temperature_records(axis: Seq<TimeDefine>, properties: Seq<Property>) -> Seq<
    TemperatureForecast,
> {
    Seq::new(
        shorter(axis.len(), properties.len()),
        |i: int|
            TemperatureForecast {
                time: axis[i],
                _type: properties[i]._type,
                temperature: properties[i].temperature_part.unwrap().values@[0],
            },
    )
}

impl Reconcile for TemperatureForecast {
    /// Every property must have a temperature, those beyond the time axis too.
    open spec fn entry(axis: Seq<TimeDefine>, properties: Seq<Property>) -> Result<
        Seq<Self>,
        ReconstructError,
    > {
        if forall|i: int| 0 <= i < properties.len() ==> has_temperature(#[trigger] properties[i]) {
            Ok(temperature_records(axis, properties))
        } else {
            Err(ReconstructError::MissingPart)
        }
    }

    open spec fn value_count(properties: Seq<Property>) -> nat {
        properties.len()
    }

    fn reconcile(axis: &Vec<TimeDefine>, properties: Vec<Property>) -> (r: Result<
        Vec<Self>,
        ReconstructError,
    >) {
        let mut out: Vec<TemperatureForecast> = Vec::new();
        for property in it: properties
            invariant
                it.seq() == properties@,
                forall|i: int| 0 <= i < it.index() ==> has_temperature(#[trigger] properties@[i]),
                out@ == temperature_records(axis@, properties@.take(it.index() as int)),
        {
            let Property { _type, temperature_part, .. } = property;
            let mut values = match temperature_part {
                Some(part) => part.values,
                None => {
                    return Err(ReconstructError::MissingPart);
                },
            };
            if values.len() == 0 {
                return Err(ReconstructError::MissingPart);
            }
            if out.len() < axis.len() {
                let time = axis[out.len()].clone();
                let temperature = values.remove(0);
                out.push(TemperatureForecast { time, _type, temperature });
            }
        }
        assert(properties@.take(properties@.len() as int) =~= properties@);
        Ok(out)
    }

    proof fn lemma_entry_len(axis: Seq<TimeDefine>, properties: Seq<Property>) {
    }
}

/// The forecast of one area, or why it cannot be rebuilt.
pub open spec fn area_entry<R: Reconcile>(axis: Seq<TimeDefine>, item: Item) -> Result<
    AreaForecastView<R>,
    ReconstructError,
> {
    match R::entry(axis, flat_properties(item.kind@)) {
        Ok(forecast) => Ok(AreaForecastView { area: item.area, forecast }),
        Err(e) => Err(e),
    }
}

/// The forecasts of all areas of a block in document order, or the error of the
/// first area that cannot be rebuilt.
pub open spec fn area_entries<R: Reconcile>(axis: Seq<TimeDefine>, items: Seq<Item>) -> Result<
    Seq<AreaForecastView<R>>,
    ReconstructError,
> {
    all_or_first_error(items.map_values(|item: Item| area_entry::<R>(axis, item)))
}

/// A result with its list of area forecasts taken as a sequence of views.
pub open spec fn areas_of<R>(r: Result<Vec<AreaForecast<R>>, ReconstructError>) -> Result<
    Seq<AreaForecastView<R>>,
    ReconstructError,
> {
    match r {
        Ok(areas) => Ok(area_views(areas@)),
        Err(e) => Err(e),
    }
}

/// Rebuilds the forecast of every area of a block. Stops at the first area that
/// cannot be rebuilt.
pub fn rebuild_areas<R: Reconcile>(axis: &Vec<TimeDefine>, items: Vec<Item>) -> (r: Result<
    Vec<AreaForecast<R>>,
    ReconstructError,
>)
    ensures
        areas_of(r) == area_entries::<R>(axis@, items@),
{
    let ghost entries = items@.map_values(|item: Item| area_entry::<R>(axis@, item));
    let mut out: Vec<AreaForecast<R>> = Vec::new();
    assert(area_views(out@) =~= Seq::empty());
    for item in it: items
        invariant
            it.seq() == items@,
            entries == items@.map_values(|item: Item| area_entry::<R>(axis@, item)),
            all_or_first_error(entries.take(it.index() as int)) == Ok::<
                Seq<AreaForecastView<R>>,
                ReconstructError,
            >(area_views(out@)),
    {
        let ghost i = it.index() as int;
        let ghost before = area_views(out@);
        assert(entries.take(i + 1).drop_last() =~= entries.take(i));
        let Item { kind, area } = item;
        match R::reconcile(axis, flatten_properties(kind)) {
            Ok(forecast) => {
                out.push(AreaForecast { area, forecast });
                assert(area_views(out@) =~= before.push(out@.last()@));
            },
            Err(e) => {
                proof {
                    lemma_first_error_of_prefix(entries, i);
                }
                return Err(e);
            },
        }
    }
    assert(entries.take(entries.len() as int) =~= entries);
    Ok(out)
}

} // verus!
