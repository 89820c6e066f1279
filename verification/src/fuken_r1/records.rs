//! One record for each time marker: values paired with the markers by position.

use vstd::prelude::*;
use crate::fuken_r1::model::Precipitation;
use crate::fuken_r1::model::ProbabilityOfPrecipitation;
use crate::fuken_r1::model::Temperature;
use crate::fuken_r1::model::TemperatureTimeSeries;
use crate::fuken_r1::model::TimeDefine;
use crate::fuken_r1::model::WaveHeightForecastPart;
use crate::fuken_r1::model::Weather;
use crate::fuken_r1::model::WeatherAndWindForecast;
use crate::fuken_r1::model::WeatherCode;
use crate::fuken_r1::model::WeatherForecast;
use crate::fuken_r1::model::WeatherForecastPart;
use crate::fuken_r1::model::WindDirection;
use crate::fuken_r1::model::WindForecastPart;
use crate::fuken_r1::model::WindSpeedLevel;
use crate::lists::shorter;
use crate::lists::zip;

verus! {

/// Record `i` pairs marker `i` with value `i`, as far as both lists go.
pub open spec fn precipitation_records(
    axis: Seq<TimeDefine>,
    values: Seq<ProbabilityOfPrecipitation>,
) -> Seq<Precipitation> {
    Seq::new(
        shorter(axis.len(), values.len()),
        |i: int| Precipitation { time: axis[i], probability: values[i] },
    )
}

/// Record `i` pairs marker `i` with value `i`, as far as both lists go.
pub open spec fn temperature_series_records(
    axis: Seq<TimeDefine>,
    values: Seq<Temperature>,
) -> Seq<TemperatureTimeSeries> {
    Seq::new(
        shorter(axis.len(), values.len()),
        |i: int| TemperatureTimeSeries { time: axis[i], temperature: values[i] },
    )
}

/// Record `i` pairs marker `i` with entry `i` of every list, as far as the
/// shortest list goes.
pub open spec fn weather_and_wind_records(
    axis: Seq<TimeDefine>,
    directions: Seq<WindDirection>,
    speeds: Seq<WindSpeedLevel>,
    weathers: Seq<Weather>,
) -> Seq<WeatherAndWindForecast> {
    Seq::new(
        shorter(axis.len(), shorter(directions.len(), shorter(speeds.len(), weathers.len()))),
        |i: int|
            WeatherAndWindForecast {
                time: axis[i],
                weather: weathers[i],
                wind_direction: directions[i],
                wind_speed: speeds[i],
            },
    )
}

/// How many weather records the lists give: the length of the shortest.
pub open spec fn weather_record_count(
    axis: Seq<TimeDefine>,
    texts: Seq<WeatherForecastPart>,
    weathers: Seq<Weather>,
    codes: Seq<WeatherCode>,
    winds: Seq<WindForecastPart>,
    waves: Option<Seq<WaveHeightForecastPart>>,
) -> nat {
    let without_waves = shorter(
        axis.len(),
        shorter(texts.len(), shorter(weathers.len(), shorter(codes.len(), winds.len()))),
    );
    match waves {
        Some(heights) => shorter(without_waves, heights.len()),
        None => without_waves,
    }
}

/// Record `i` pairs marker `i` with entry `i` of every list, as far as the
/// shortest list goes. A record has a wave height exactly when a list of them
/// is given.
pub open spec fn weather_records(
    axis: Seq<TimeDefine>,
    texts: Seq<WeatherForecastPart>,
    weathers: Seq<Weather>,
    codes: Seq<WeatherCode>,
    winds: Seq<WindForecastPart>,
    waves: Option<Seq<WaveHeightForecastPart>>,
) -> Seq<WeatherForecast> {
    Seq::new(
        weather_record_count(axis, texts, weathers, codes, winds, waves),
        |i: int|
            WeatherForecast {
                time: axis[i],
                weather_text: texts[i],
                weather: weathers[i],
                weather_code: codes[i],
                wind: winds[i],
                wave_height: match waves {
                    Some(heights) => Some(heights[i]),
                    None => None,
                },
            },
    )
}

/// Pairs precipitation probabilities with the time markers.
pub fn pair_precipitation(axis: &Vec<TimeDefine>, values: Vec<ProbabilityOfPrecipitation>) -> (r:
    Vec<Precipitation>)
    ensures
        r@ == precipitation_records(axis@, values@),
{
    let mut rest = values;
    rest.truncate(axis.len());
    let mut out: Vec<Precipitation> = Vec::new();
    for probability in it: rest
        invariant
            it.seq() == rest@,
            rest@.len() <= axis@.len(),
            out@ == precipitation_records(axis@, rest@.take(it.index() as int)),
    {
        let time = axis[out.len()].clone();
        out.push(Precipitation { time, probability });
    }
    out
}

/// Pairs three-hourly temperatures with the time markers.
pub fn pair_temperature_series(axis: &Vec<TimeDefine>, values: Vec<Temperature>) -> (r: Vec<
    TemperatureTimeSeries,
>)
    ensures
        r@ == temperature_series_records(axis@, values@),
{
    let mut rest = values;
    rest.truncate(axis.len());
    let mut out: Vec<TemperatureTimeSeries> = Vec::new();
    for temperature in it: rest
        invariant
            it.seq() == rest@,
            rest@.len() <= axis@.len(),
            out@ == temperature_series_records(axis@, rest@.take(it.index() as int)),
    {
        let time = axis[out.len()].clone();
        out.push(TemperatureTimeSeries { time, temperature });
    }
    out
}

/// Pairs wind directions, wind speeds and weathers with the time markers.
pub fn pair_weather_and_wind(
    axis: &Vec<TimeDefine>,
    directions: Vec<WindDirection>,
    speeds: Vec<WindSpeedLevel>,
    weathers: Vec<Weather>,
) -> (r: Vec<WeatherAndWindForecast>)
    ensures
        r@ == weather_and_wind_records(axis@, directions@, speeds@, weathers@),
{
    let mut rest = zip(zip(directions, speeds), weathers);
    rest.truncate(axis.len());
    let ghost count = shorter(
        axis@.len(),
        shorter(directions@.len(), shorter(speeds@.len(), weathers@.len())),
    );
    let mut out: Vec<WeatherAndWindForecast> = Vec::new();
    for entry in it: rest
        invariant
            it.seq() == rest@,
            rest@.len() == count,
            count == shorter(
                axis@.len(),
                shorter(directions@.len(), shorter(speeds@.len(), weathers@.len())),
            ),
            forall|i: int|
                0 <= i < count ==> #[trigger] rest@[i] == ((directions@[i], speeds@[i]), weathers@[i]),
            out@ == weather_and_wind_records(axis@, directions@, speeds@, weathers@).take(
                it.index() as int,
            ),
    {
        let ((wind_direction, wind_speed), weather) = entry;
        let time = axis[out.len()].clone();
        out.push(WeatherAndWindForecast { time, weather, wind_direction, wind_speed });
    }
    out
}

/// Pairs the weather and wind lists with the time markers, each record without
/// a wave height.
fn pair_weather_inland(
    axis: &Vec<TimeDefine>,
    texts: Vec<WeatherForecastPart>,
    weathers: Vec<Weather>,
    codes: Vec<WeatherCode>,
    winds: Vec<WindForecastPart>,
) -> (r: Vec<WeatherForecast>)
    ensures
        r@ == weather_records(axis@, texts@, weathers@, codes@, winds@, None),
{
    let ghost all = weather_records(axis@, texts@, weathers@, codes@, winds@, None);
    let mut rest = zip(zip(zip(texts, weathers), codes), winds);
    rest.truncate(axis.len());
    let mut out: Vec<WeatherForecast> = Vec::new();
    for entry in it: rest
        invariant
            it.seq() == rest@,
            rest@.len() == all.len(),
            all == weather_records(axis@, texts@, weathers@, codes@, winds@, None),
            forall|i: int|
                0 <= i < all.len() ==> #[trigger] rest@[i] == (
                    ((texts@[i], weathers@[i]), codes@[i]),
                    winds@[i],
                ),
            out@ == all.take(it.index() as int),
    {
        let (((weather_text, weather), weather_code), wind) = entry;
        let time = axis[out.len()].clone();
        out.push(
            WeatherForecast { time, weather_text, weather, weather_code, wind, wave_height: None },
        );
    }
    out
}

/// Pairs the weather, wind and wave lists with the time markers.
fn pair_weather_coastal(
    axis: &Vec<TimeDefine>,
    texts: Vec<WeatherForecastPart>,
    weathers: Vec<Weather>,
    codes: Vec<WeatherCode>,
    winds: Vec<WindForecastPart>,
    heights: Vec<WaveHeightForecastPart>,
) -> (r: Vec<WeatherForecast>)
    ensures
        r@ == weather_records(axis@, texts@, weathers@, codes@, winds@, Some(heights@)),
{
    let ghost all = weather_records(axis@, texts@, weathers@, codes@, winds@, Some(heights@));
    let mut rest = zip(zip(zip(zip(texts, weathers), codes), winds), heights);
    rest.truncate(axis.len());
    let mut out: Vec<WeatherForecast> = Vec::new();
    for entry in it: rest
        invariant
            it.seq() == rest@,
            rest@.len() == all.len(),
            all == weather_records(axis@, texts@, weathers@, codes@, winds@, Some(heights@)),
            forall|i: int|
                0 <= i < all.len() ==> #[trigger] rest@[i] == (
                    (((texts@[i], weathers@[i]), codes@[i]), winds@[i]),
                    heights@[i],
                ),
            out@ == all.take(it.index() as int),
    {
        let ((((weather_text, weather), weather_code), wind), height) = entry;
        let time = axis[out.len()].clone();
        out.push(
            WeatherForecast {
                time,
                weather_text,
                weather,
                weather_code,
                wind,
                wave_height: Some(height),
            },
        );
    }
    out
}

/// Pairs the weather and wind lists, and the wave heights where there are any,
/// with the time markers.
pub fn pair_weather(
    axis: &Vec<TimeDefine>,
    texts: Vec<WeatherForecastPart>,
    weathers: Vec<Weather>,
    codes: Vec<WeatherCode>,
    winds: Vec<WindForecastPart>,
    waves: Option<Vec<WaveHeightForecastPart>>,
) -> (r: Vec<WeatherForecast>)
    ensures
        r@ == weather_records(
            axis@,
            texts@,
            weathers@,
            codes@,
            winds@,
            match waves {
                Some(heights) => Some(heights@),
                None => None,
            },
        ),
{
    match waves {
        Some(heights) => pair_weather_coastal(axis, texts, weathers, codes, winds, heights),
        None => pair_weather_inland(axis, texts, weathers, codes, winds),
    }
}

} // verus!
