//! What holds of every bulletin, proved from the definitions of the outcomes.

use vstd::prelude::*;
use crate::fuken_r1::assemble::ListItemView;
use crate::fuken_r1::assemble::group_outcome;
use crate::fuken_r1::assemble::group_outcomes;
use crate::fuken_r1::assemble::group_ready;
use crate::fuken_r1::assemble::pivoted_series_outcome;
use crate::fuken_r1::assemble::report_outcome;
use crate::fuken_r1::assemble::series_outcome;
use crate::fuken_r1::assemble::series_outcomes;
use crate::fuken_r1::assemble::time_axis;
use crate::fuken_r1::error::ReconstructError;
use crate::fuken_r1::model::AreaForecastView;
use crate::fuken_r1::model::Precipitation;
use crate::fuken_r1::model::ProbabilityOfPrecipitation;
use crate::fuken_r1::model::Temperature;
use crate::fuken_r1::model::TemperatureForecast;
use crate::fuken_r1::model::TemperatureTimeSeries;
use crate::fuken_r1::model::TimeDefine;
use crate::fuken_r1::model::WaveHeightForecastPart;
use crate::fuken_r1::model::Weather;
use crate::fuken_r1::model::WeatherAndWindForecast;
use crate::fuken_r1::model::WeatherCode;
use crate::fuken_r1::model::WeatherForecast;
use crate::fuken_r1::model::WeatherForecastPart;
use crate::fuken_r1::model::WindDirection;
use crate::fuken_r1::model::WindForecastPart;
use crate::fuken_r1::model::WindSpeedLevel;
use crate::fuken_r1::raw::Item;
use crate::fuken_r1::raw::MeteorologicalInfosTmp;
use crate::fuken_r1::raw::Property;
use crate::fuken_r1::raw::ReportTmp;
use crate::fuken_r1::raw::TimeSeriesInfo;
use crate::fuken_r1::raw::flat_properties;
use crate::fuken_r1::reconcile::Reconcile;
use crate::fuken_r1::reconcile::area_entries;
use crate::fuken_r1::reconcile::area_entry;
use crate::fuken_r1::records::precipitation_records;
use crate::fuken_r1::records::temperature_series_records;
use crate::fuken_r1::records::weather_and_wind_records;
use crate::fuken_r1::records::weather_records;
use crate::fuken_r1::tags::Category;
use crate::fuken_r1::tags::Pivot;
use crate::fuken_r1::tags::Strategy;
use crate::fuken_r1::tags::category_of;
use crate::fuken_r1::tags::strategy_of;
use crate::fuken_r1::tags::THREE_HOURLY_TEMPERATURE;
use crate::fuken_r1::tags::WAVE;
use crate::fuken_r1::tags::WEATHER;
use crate::fuken_r1::tags::WIND;
use crate::lists::all_or_first_error;
use crate::lists::lemma_all_ok;
use crate::lists::lemma_first_error;
use crate::lists::present;
use crate::lists::zipped;
use crate::order::Keyed;
use crate::order::keyed_by_position_numbers;
use crate::order::lemma_sorted_alike;
use crate::order::lemma_sorted_to_own_number;
use crate::order::lemma_stable_sorted_from;
use crate::order::lemma_stable_sorted_len;
use crate::order::stable_sorted;

verus! {

/// How many values the properties of an area give for the records of `strategy`.
pub open spec fn value_count_of(strategy: Strategy, properties: Seq<Property>) -> nat {
    match strategy {
        Strategy::WeatherForecast => WeatherForecast::value_count(properties),
        Strategy::ProbabilityOfPrecipitation => Precipitation::value_count(properties),
        Strategy::WeatherAndWindTimeSeries => WeatherAndWindForecast::value_count(properties),
        Strategy::TemperatureForecast => TemperatureForecast::value_count(properties),
        Strategy::TemperatureTimeSeries => TemperatureTimeSeries::value_count(properties),
    }
}

/// The number of records of each area of a block. A proprietary block has no
/// areas.
pub open spec fn forecast_lens(block: ListItemView) -> Seq<nat> {
    match block {
        ListItemView::WeatherForecast(areas) => areas.map_values(
            |a: AreaForecastView<WeatherForecast>| a.forecast.len(),
        ),
        ListItemView::ProbabilityOfPrecipitation(areas) => areas.map_values(
            |a: AreaForecastView<Precipitation>| a.forecast.len(),
        ),
        ListItemView::WeatherAndWindTimeSeries(areas) => areas.map_values(
            |a: AreaForecastView<WeatherAndWindForecast>| a.forecast.len(),
        ),
        ListItemView::TemperatureForecast(areas) => areas.map_values(
            |a: AreaForecastView<TemperatureForecast>| a.forecast.len(),
        ),
        ListItemView::TemperatureTimeSeries(areas) => areas.map_values(
            |a: AreaForecastView<TemperatureTimeSeries>| a.forecast.len(),
        ),
        ListItemView::Proprietary(_) => Seq::empty(),
    }
}

/// A block that is rebuilt has one area forecast for each item, for the item's
/// area. The forecast has one record for each time marker, if no role of the
/// item has fewer values than there are markers.
pub proof fn lemma_area_has_record_per_marker<R: Reconcile>(
    axis: Seq<TimeDefine>,
    items: Seq<Item>,
    k: int,
)
    requires
        area_entries::<R>(axis, items) is Ok,
        0 <= k < items.len(),
    ensures
        area_entries::<R>(axis, items)->Ok_0.len() == items.len(),
        area_entries::<R>(axis, items)->Ok_0[k].area == items[k].area,
        area_entries::<R>(axis, items)->Ok_0[k].forecast.len() <= axis.len(),
        R::value_count(flat_properties(items[k].kind@)) >= axis.len() ==> area_entries::<R>(
            axis,
            items,
        )->Ok_0[k].forecast.len() == axis.len(),
{
    let entries = items.map_values(|item: Item| area_entry::<R>(axis, item));
    lemma_all_ok(entries);
    assert(entries[k] == area_entry::<R>(axis, items[k]));
    R::lemma_entry_len(axis, flat_properties(items[k].kind@));
}

/// In every block rebuilt from a time series, each area forecast has as many
/// records as the series has time markers, if no role of any item has fewer
/// values than there are markers.
pub proof fn lemma_block_has_record_per_marker(pivot: Pivot, series: TimeSeriesInfo)
    requires
        series.has_leading_property(),
        pivoted_series_outcome(pivot, series) is Ok,
        pivoted_series_outcome(pivot, series)->Ok_0 is Some,
        forall|k: int|
            0 <= k < series.items@.len() ==> value_count_of(
                strategy_of(pivot, series.leading_type())->Some_0,
                flat_properties((#[trigger] series.items@[k]).kind@),
            ) >= series.time_defines.items@.len(),
    ensures
        forecast_lens(pivoted_series_outcome(pivot, series)->Ok_0->Some_0).len()
            == series.items@.len(),
        forall|k: int|
            0 <= k < series.items@.len() ==> #[trigger] forecast_lens(
                pivoted_series_outcome(pivot, series)->Ok_0->Some_0,
            )[k] == series.time_defines.items@.len(),
{
    let axis = time_axis(series);
    let items = series.items@;
    let block = pivoted_series_outcome(pivot, series)->Ok_0->Some_0;
    let strategy = strategy_of(pivot, series.leading_type())->Some_0;
    lemma_stable_sorted_len(series.time_defines.items@);
    match strategy {
        Strategy::WeatherForecast => {
            lemma_all_ok(items.map_values(|item: Item| area_entry::<WeatherForecast>(axis, item)));
        },
        Strategy::ProbabilityOfPrecipitation => {
            lemma_all_ok(items.map_values(|item: Item| area_entry::<Precipitation>(axis, item)));
        },
        Strategy::WeatherAndWindTimeSeries => {
            lemma_all_ok(
                items.map_values(|item: Item| area_entry::<WeatherAndWindForecast>(axis, item)),
            );
        },
        Strategy::TemperatureForecast => {
            lemma_all_ok(
                items.map_values(|item: Item| area_entry::<TemperatureForecast>(axis, item)),
            );
        },
        Strategy::TemperatureTimeSeries => {
            lemma_all_ok(
                items.map_values(|item: Item| area_entry::<TemperatureTimeSeries>(axis, item)),
            );
        },
    }
    assert forall|k: int| 0 <= k < items.len() implies #[trigger] forecast_lens(block)[k]
        == series.time_defines.items@.len() by {
        match strategy {
            Strategy::WeatherForecast => {
                lemma_area_has_record_per_marker::<WeatherForecast>(axis, items, k);
            },
            Strategy::ProbabilityOfPrecipitation => {
                lemma_area_has_record_per_marker::<Precipitation>(axis, items, k);
            },
            Strategy::WeatherAndWindTimeSeries => {
                lemma_area_has_record_per_marker::<WeatherAndWindForecast>(axis, items, k);
            },
            Strategy::TemperatureForecast => {
                lemma_area_has_record_per_marker::<TemperatureForecast>(axis, items, k);
            },
            Strategy::TemperatureTimeSeries => {
                lemma_area_has_record_per_marker::<TemperatureTimeSeries>(axis, items, k);
            },
        }
    }
}

/// Time markers numbered from 0 up to their count, each number once, and
/// values that carry the same numbers in the same document order: after both
/// are sorted and paired by position, the pair at position `n` is the marker
/// numbered `n` with the value numbered `n`, each marker with the value that
/// stood beside it.
pub proof fn lemma_sort_then_pair_keeps_pairs<V: Keyed>(
    markers: Seq<TimeDefine>,
    values: Seq<V>,
    i: int,
)
    requires
        markers.len() == values.len(),
        keyed_by_position_numbers(markers),
        forall|j: int|
            0 <= j < markers.len() ==> (#[trigger] values[j]).sort_key() == markers[j].sort_key(),
        0 <= i < markers.len(),
    ensures
        zipped(stable_sorted(markers), stable_sorted(values)).len() == markers.len(),
        zipped(stable_sorted(markers), stable_sorted(values))[markers[i].time_id as int] == (
            markers[i],
            values[i],
        ),
{
    lemma_stable_sorted_len(markers);
    lemma_stable_sorted_len(values);
    lemma_sorted_to_own_number(markers, i);
    assert(keyed_by_position_numbers(values)) by {
        assert forall|j: int| 0 <= j < values.len() implies (#[trigger] values[j]).sort_key()
            is Number && 0 <= values[j].sort_key()->Number_0 < values.len() by {
            assert(markers[j].sort_key() is Number);
        }
        assert forall|j1: int, j2: int| 0 <= j1 < j2 < values.len() implies (
        #[trigger] values[j1]).sort_key() != (#[trigger] values[j2]).sort_key() by {
            assert(markers[j1].sort_key() != markers[j2].sort_key());
        }
    }
    lemma_sorted_to_own_number(values, i);
}

/// The same for values whose numbers may repeat or leave gaps: as long as
/// marker and value carry the same number at every position, every record
/// pairs a marker with the value that stood beside it.
pub proof fn lemma_sort_then_pair_keeps_neighbours<V: Keyed>(
    markers: Seq<TimeDefine>,
    values: Seq<V>,
    k: int,
) -> (i: int)
    requires
        markers.len() == values.len(),
        forall|j: int|
            0 <= j < markers.len() ==> (#[trigger] markers[j]).sort_key() == values[j].sort_key(),
        0 <= k < markers.len(),
    ensures
        0 <= i < markers.len(),
        zipped(stable_sorted(markers), stable_sorted(values)).len() == markers.len(),
        zipped(stable_sorted(markers), stable_sorted(values))[k] == (markers[i], values[i]),
{
    lemma_stable_sorted_len(markers);
    lemma_stable_sorted_len(values);
    lemma_sorted_alike(markers, values, k)
}

/// Precipitation records of markers and probabilities numbered alike from 0:
/// record `n` holds the marker and the probability numbered `n`.
pub proof fn lemma_precipitation_pairs_by_identifier(
    markers: Seq<TimeDefine>,
    values: Seq<ProbabilityOfPrecipitation>,
    i: int,
)
    requires
        markers.len() == values.len(),
        keyed_by_position_numbers(markers),
        forall|j: int| 0 <= j < markers.len() ==> (#[trigger] values[j]).ref_id == markers[j].time_id,
        0 <= i < markers.len(),
    ensures
        precipitation_records(stable_sorted(markers), stable_sorted(values)).len() == markers.len(),
        precipitation_records(stable_sorted(markers), stable_sorted(values))[markers[i].time_id as int]
            == (Precipitation { time: markers[i], probability: values[i] }),
{
    lemma_sort_then_pair_keeps_pairs(markers, values, i);
}

/// Three-hourly temperatures of markers and values numbered alike from 0:
/// record `n` holds the marker and the temperature numbered `n`.
pub proof fn lemma_temperature_series_pairs_by_identifier(
    markers: Seq<TimeDefine>,
    values: Seq<Temperature>,
    i: int,
)
    requires
        markers.len() == values.len(),
        keyed_by_position_numbers(markers),
        forall|j: int| 0 <= j < markers.len() ==> (#[trigger] values[j]).ref_id == markers[j].time_id,
        0 <= i < markers.len(),
    ensures
        temperature_series_records(stable_sorted(markers), stable_sorted(values)).len()
            == markers.len(),
        temperature_series_records(stable_sorted(markers), stable_sorted(values))[markers[i].time_id as int]
            == (TemperatureTimeSeries { time: markers[i], temperature: values[i] }),
{
    lemma_sort_then_pair_keeps_pairs(markers, values, i);
}

/// Weather and wind of three-hour periods, of markers and values numbered alike
/// from 0: record `n` holds the marker, the direction, the speed and the
/// weather numbered `n`.
pub proof fn lemma_weather_and_wind_pairs_by_identifier(
    markers: Seq<TimeDefine>,
    directions: Seq<WindDirection>,
    speeds: Seq<WindSpeedLevel>,
    weathers: Seq<Weather>,
    i: int,
)
    requires
        keyed_by_position_numbers(markers),
        directions.len() == markers.len(),
        speeds.len() == markers.len(),
        weathers.len() == markers.len(),
        forall|j: int|
            0 <= j < markers.len() ==> (#[trigger] directions[j]).ref_id == markers[j].time_id,
        forall|j: int|
            0 <= j < markers.len() ==> (#[trigger] speeds[j]).ref_id == markers[j].time_id,
        forall|j: int|
            0 <= j < markers.len() ==> (#[trigger] weathers[j]).ref_id == Some(
                markers[j].time_id,
            ),
        0 <= i < markers.len(),
    ensures
        weather_and_wind_records(
            stable_sorted(markers),
            stable_sorted(directions),
            stable_sorted(speeds),
            stable_sorted(weathers),
        ).len() == markers.len(),
        weather_and_wind_records(
            stable_sorted(markers),
            stable_sorted(directions),
            stable_sorted(speeds),
            stable_sorted(weathers),
        )[markers[i].time_id as int] == (WeatherAndWindForecast {
            time: markers[i],
            weather: weathers[i],
            wind_direction: directions[i],
            wind_speed: speeds[i],
        }),
{
    lemma_sort_then_pair_keeps_pairs(markers, directions, i);
    lemma_sort_then_pair_keeps_pairs(markers, speeds, i);
    lemma_sort_then_pair_keeps_pairs(markers, weathers, i);
}

/// Weather forecasts of markers and values numbered alike from 0: record `n`
/// holds the marker, the sentence, the weather, the code, the wind and, where
/// wave heights are given, the wave height numbered `n`.
pub proof fn lemma_weather_pairs_by_identifier(
    markers: Seq<TimeDefine>,
    texts: Seq<WeatherForecastPart>,
    weathers: Seq<Weather>,
    codes: Seq<WeatherCode>,
    winds: Seq<WindForecastPart>,
    waves: Option<Seq<WaveHeightForecastPart>>,
    i: int,
)
    requires
        keyed_by_position_numbers(markers),
        texts.len() == markers.len(),
        weathers.len() == markers.len(),
        codes.len() == markers.len(),
        winds.len() == markers.len(),
        waves matches Some(heights) ==> heights.len() == markers.len(),
        forall|j: int|
            0 <= j < markers.len() ==> (#[trigger] texts[j]).ref_id == markers[j].time_id,
        forall|j: int|
            0 <= j < markers.len() ==> (#[trigger] weathers[j]).ref_id == Some(
                markers[j].time_id,
            ),
        forall|j: int|
            0 <= j < markers.len() ==> (#[trigger] codes[j]).ref_id == markers[j].time_id,
        forall|j: int|
            0 <= j < markers.len() ==> (#[trigger] winds[j]).ref_id == markers[j].time_id,
        waves matches Some(heights) ==> forall|j: int|
            0 <= j < markers.len() ==> (#[trigger] heights[j]).ref_id == markers[j].time_id,
        0 <= i < markers.len(),
    ensures
        weather_records(
            stable_sorted(markers),
            stable_sorted(texts),
            stable_sorted(weathers),
            stable_sorted(codes),
            stable_sorted(winds),
            match waves {
                Some(heights) => Some(stable_sorted(heights)),
                None => None,
            },
        ).len() == markers.len(),
        weather_records(
            stable_sorted(markers),
            stable_sorted(texts),
            stable_sorted(weathers),
            stable_sorted(codes),
            stable_sorted(winds),
            match waves {
                Some(heights) => Some(stable_sorted(heights)),
                None => None,
            },
        )[markers[i].time_id as int] == (WeatherForecast {
            time: markers[i],
            weather_text: texts[i],
            weather: weathers[i],
            weather_code: codes[i],
            wind: winds[i],
            wave_height: match waves {
                Some(heights) => Some(heights[i]),
                None => None,
            },
        }),
{
    lemma_sort_then_pair_keeps_pairs(markers, texts, i);
    lemma_sort_then_pair_keeps_pairs(markers, weathers, i);
    lemma_sort_then_pair_keeps_pairs(markers, codes, i);
    lemma_sort_then_pair_keeps_pairs(markers, winds, i);
    if let Some(heights) = waves {
        lemma_sort_then_pair_keeps_pairs(markers, heights, i);
    }
}

/// A time series under a category tag that names neither pivot fails with an
/// error that holds the tag.
pub proof fn lemma_unknown_category_fails_series(category: String, series: TimeSeriesInfo)
    requires
        !(category_of(category@) is Pivoted),
    ensures
        series_outcome(category, series) == Err::<Option<ListItemView>, ReconstructError>(
            ReconstructError::UnknownCategory(category),
        ),
{
}

/// A block with time series under a category tag that is none of the known
/// ones fails with an error that holds the tag: it gives no block of a report.
pub proof fn lemma_unknown_category_fails(tmp: MeteorologicalInfosTmp)
    requires
        category_of(tmp._type@) == Category::Unknown,
        tmp.time_series_info@.len() > 0,
    ensures
        group_ready(tmp),
        group_outcome(tmp) == Err::<Seq<ListItemView>, ReconstructError>(
            ReconstructError::UnknownCategory(tmp._type),
        ),
{
    let outcomes = series_outcomes(tmp);
    lemma_first_error(outcomes, 0);
}

/// A bulletin that holds such a block has no report, not even in part.
pub proof fn lemma_unknown_category_fails_report(tmp: ReportTmp, g: int)
    requires
        0 <= g < tmp.body.meteorological_infos@.len(),
        category_of(tmp.body.meteorological_infos@[g]._type@) == Category::Unknown,
        tmp.body.meteorological_infos@[g].time_series_info@.len() > 0,
    ensures
        report_outcome(tmp) is Err,
{
    let outcomes = group_outcomes(tmp);
    lemma_unknown_category_fails(tmp.body.meteorological_infos@[g]);
    assert(outcomes[g] is Err);
    lemma_all_ok(outcomes);
}

/// Three properties tagged weather or wind, none of them wave, are no valid
/// entry of a weather forecast: the third is not taken for a wave, and the
/// entry is not rebuilt as one of two properties.
pub proof fn lemma_three_without_wave_fail(axis: Seq<TimeDefine>, properties: Seq<Property>)
    requires
        properties.len() == 3,
        forall|i: int|
            0 <= i < 3 ==> (#[trigger] properties[i])._type@ == WEATHER@ || properties[i]._type@
                == WIND@,
    ensures
        WeatherForecast::entry(axis, properties) is Err,
{
    reveal_strlit("天気");
    reveal_strlit("波");
    reveal_strlit("風");
    let i = lemma_stable_sorted_from(properties, 1);
    assert(properties[i]._type@ != WAVE@) by {
        assert(WAVE@[0] == '波');
    }
}

/// A block tagged proprietary with any number of records, none included, gives
/// exactly one block of the report, which holds those records as they are.
pub proof fn lemma_proprietary_passes_through(tmp: MeteorologicalInfosTmp)
    requires
        category_of(tmp._type@) == Category::Proprietary,
    ensures
        group_ready(tmp),
        group_outcome(tmp) == Ok::<Seq<ListItemView>, ReconstructError>(
            seq![ListItemView::Proprietary(tmp.meteorological_info@)],
        ),
{
}

/// A station-pivoted time series that is rebuilt gives three-hourly
/// temperatures if its leading type tag says so, and daily temperatures under
/// any other tag. It is never passed over.
pub proof fn lemma_station_series_is_temperature(series: TimeSeriesInfo)
    requires
        series.has_leading_property(),
    ensures
        match pivoted_series_outcome(Pivot::Station, series) {
            Ok(Some(block)) => if series.leading_type() == THREE_HOURLY_TEMPERATURE@ {
                block is TemperatureTimeSeries
            } else {
                block is TemperatureForecast
            },
            Ok(None) => false,
            Err(_) => true,
        },
{
}

/// An area-pivoted time series whose leading type tag names no strategy gives
/// no block and no error, whatever else it holds.
pub proof fn lemma_unrecognized_area_series_is_skipped(series: TimeSeriesInfo)
    requires
        series.has_leading_property(),
        strategy_of(Pivot::Area, series.leading_type()) is None,
    ensures
        pivoted_series_outcome(Pivot::Area, series) == Ok::<Option<ListItemView>, ReconstructError>(
            None,
        ),
{
}

/// So an area-pivoted block that has only such time series adds nothing to the
/// body of the report.
pub proof fn lemma_unrecognized_area_block_adds_nothing(tmp: MeteorologicalInfosTmp)
    requires
        category_of(tmp._type@) == Category::Pivoted(Pivot::Area),
        forall|i: int|
            0 <= i < tmp.time_series_info@.len() ==> (
            #[trigger] tmp.time_series_info@[i]).has_leading_property() && strategy_of(
                Pivot::Area,
                tmp.time_series_info@[i].leading_type(),
            ) is None,
    ensures
        group_ready(tmp),
        group_outcome(tmp) == Ok::<Seq<ListItemView>, ReconstructError>(Seq::empty()),
{
    let outcomes = series_outcomes(tmp);
    assert forall|i: int| 0 <= i < outcomes.len() implies #[trigger] outcomes[i] == Ok::<
        Option<ListItemView>,
        ReconstructError,
    >(None) by {
        lemma_unrecognized_area_series_is_skipped(tmp.time_series_info@[i]);
    }
    lemma_all_ok(outcomes);
    let found = all_or_first_error(outcomes)->Ok_0;
    assert forall|i: int| 0 <= i < found.len() implies #[trigger] found[i] is None by {
        assert(outcomes[i] == Ok::<Option<ListItemView>, ReconstructError>(found[i]));
    }
    lemma_present_of_none(found);
}

/// A list that holds no value has no present value.
proof fn lemma_present_of_none<T>(s: Seq<Option<T>>)
    requires
        forall|i: int| 0 <= i < s.len() ==> #[trigger] s[i] is None,
    ensures
        present(s) == Seq::<T>::empty(),
    decreases s.len(),
{
    if s.len() > 0 {
        assert forall|i: int| 0 <= i < s.drop_last().len() implies #[trigger] s.drop_last()[i]
            is None by {
            assert(s[i] is None);
        }
        lemma_present_of_none(s.drop_last());
    }
}

} // verus!
