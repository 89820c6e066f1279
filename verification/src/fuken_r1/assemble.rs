//! From the blocks of a bulletin to the body of its report.

use vstd::prelude::*;
use crate::fuken_r1::error::ReconstructError;
use crate::fuken_r1::model::AreaForecast;
use crate::fuken_r1::model::AreaForecastView;
use crate::fuken_r1::model::Control;
use crate::fuken_r1::model::Head;
use crate::fuken_r1::model::MeteorologicalInfo;
use crate::fuken_r1::model::Precipitation;
use crate::fuken_r1::model::TemperatureForecast;
use crate::fuken_r1::model::TemperatureTimeSeries;
use crate::fuken_r1::model::TimeDefine;
use crate::fuken_r1::model::WeatherAndWindForecast;
use crate::fuken_r1::model::WeatherForecast;
use crate::fuken_r1::model::area_views;
use crate::fuken_r1::raw::BodyTmp;
use crate::fuken_r1::raw::Item;
use crate::fuken_r1::raw::MeteorologicalInfosTmp;
use crate::fuken_r1::raw::ReportTmp;
use crate::fuken_r1::raw::TimeDefines;
use crate::fuken_r1::raw::TimeSeriesInfo;
use crate::fuken_r1::reconcile::area_entries;
use crate::fuken_r1::reconcile::rebuild_areas;
use crate::fuken_r1::tags::Category;
use crate::fuken_r1::tags::Pivot;
use crate::fuken_r1::tags::Strategy;
use crate::fuken_r1::tags::category_of;
use crate::fuken_r1::tags::choose_strategy;
use crate::fuken_r1::tags::read_category;
use crate::fuken_r1::tags::strategy_of;
use crate::lists::all_or_first_error;
use crate::lists::lemma_all_or_first_error_step;
use crate::lists::lemma_later_prefixes_fail;
use crate::lists::lemma_present_push;
use crate::lists::present;
use crate::order::sort_by_key;
use crate::order::stable_sorted;

verus! {

/// One block of a report's body.
#[derive(Debug, Clone, PartialEq, Eq)]
pub enum MeteorologicalInfoListItem {
    /// Weather, wind and waves of today, tomorrow and, late in the day, the day after.
    WeatherForecast(Vec<AreaForecast<WeatherForecast>>),
    /// Probability of precipitation, period by period.
    ProbabilityOfPrecipitation(Vec<AreaForecast<Precipitation>>),
    /// Weather and wind in three-hour periods.
    WeatherAndWindTimeSeries(Vec<AreaForecast<WeatherAndWindForecast>>),
    /// Temperatures of the coming days.
    TemperatureForecast(Vec<AreaForecast<TemperatureForecast>>),
    /// Temperatures at three-hour marks.
    TemperatureTimeSeries(Vec<AreaForecast<TemperatureTimeSeries>>),
    /// Records of a forecast that has no structure of its own, as they came.
    Proprietary(Vec<MeteorologicalInfo>),
}

/// A block of a report's body as a mathematical value.
pub enum ListItemView {
    WeatherForecast(Seq<AreaForecastView<WeatherForecast>>),
    ProbabilityOfPrecipitation(Seq<AreaForecastView<Precipitation>>),
    WeatherAndWindTimeSeries(Seq<AreaForecastView<WeatherAndWindForecast>>),
    TemperatureForecast(Seq<AreaForecastView<TemperatureForecast>>),
    TemperatureTimeSeries(Seq<AreaForecastView<TemperatureTimeSeries>>),
    Proprietary(Seq<MeteorologicalInfo>),
}

impl View for MeteorologicalInfoListItem {
    type V = ListItemView;

    open spec fn view(&self) -> ListItemView {
        match self {
            MeteorologicalInfoListItem::WeatherForecast(areas) => ListItemView::WeatherForecast(
                area_views(areas@),
            ),
            MeteorologicalInfoListItem::ProbabilityOfPrecipitation(areas) => {
                ListItemView::ProbabilityOfPrecipitation(area_views(areas@))
            },
            MeteorologicalInfoListItem::WeatherAndWindTimeSeries(areas) => {
                ListItemView::WeatherAndWindTimeSeries(area_views(areas@))
            },
            MeteorologicalInfoListItem::TemperatureForecast(areas) => {
                ListItemView::TemperatureForecast(area_views(areas@))
            },
            MeteorologicalInfoListItem::TemperatureTimeSeries(areas) => {
                ListItemView::TemperatureTimeSeries(area_views(areas@))
            },
            MeteorologicalInfoListItem::Proprietary(records) => ListItemView::Proprietary(records@),
        }
    }
}

/// The views of a list of blocks.
pub open spec fn item_views(items: Seq<MeteorologicalInfoListItem>) -> Seq<ListItemView> {
    items.map_values(|item: MeteorologicalInfoListItem| item@)
}

/// The block that `strategy` rebuilds from the areas in `items`, along the time
/// axis `axis`.
pub open spec fn block_of(strategy: Strategy, axis: Seq<TimeDefine>, items: Seq<Item>) -> Result<
    ListItemView,
    ReconstructError,
> {
    match strategy {
        Strategy::WeatherForecast => match area_entries::<WeatherForecast>(axis, items) {
            Ok(areas) => Ok(ListItemView::WeatherForecast(areas)),
            Err(e) => Err(e),
        },
        Strategy::ProbabilityOfPrecipitation => match area_entries::<Precipitation>(axis, items) {
            Ok(areas) => Ok(ListItemView::ProbabilityOfPrecipitation(areas)),
            Err(e) => Err(e),
        },
        Strategy::WeatherAndWindTimeSeries => match area_entries::<WeatherAndWindForecast>(
            axis,
            items,
        ) {
            Ok(areas) => Ok(ListItemView::WeatherAndWindTimeSeries(areas)),
            Err(e) => Err(e),
        },
        Strategy::TemperatureForecast => match area_entries::<TemperatureForecast>(axis, items) {
            Ok(areas) => Ok(ListItemView::TemperatureForecast(areas)),
            Err(e) => Err(e),
        },
        Strategy::TemperatureTimeSeries => match area_entries::<TemperatureTimeSeries>(
            axis,
            items,
        ) {
            Ok(areas) => Ok(ListItemView::TemperatureTimeSeries(areas)),
            Err(e) => Err(e),
        },
    }
}

/// The time axis of a time series: its markers in ascending order of identifier.
pub open spec fn time_axis(series: TimeSeriesInfo) -> Seq<TimeDefine> {
    stable_sorted(series.time_defines.items@)
}

/// What one time series of a pivoted block comes to: a block of the report, or
/// nothing (an area-pivoted series whose leading type tag names no strategy),
/// or an error.
pub open spec fn pivoted_series_outcome(pivot: Pivot, series: TimeSeriesInfo) -> Result<
    Option<ListItemView>,
    ReconstructError,
> {
    match strategy_of(pivot, series.leading_type()) {
        Some(strategy) => match block_of(strategy, time_axis(series), series.items@) {
            Ok(block) => Ok(Some(block)),
            Err(e) => Err(e),
        },
        None => Ok(None),
    }
}

/// What one time series of a block with category tag `category` comes to.
/// Under a tag that names no pivot it is an error that holds the tag.
pub open spec fn series_outcome(category: String, series: TimeSeriesInfo) -> Result<
    Option<ListItemView>,
    ReconstructError,
> {
    match category_of(category@) {
        Category::Pivoted(pivot) => pivoted_series_outcome(pivot, series),
        _ => Err(ReconstructError::UnknownCategory(category)),
    }
}

/// The time series can be classified: under a pivot tag it has a leading property.
pub open spec fn series_ready(category: String, series: TimeSeriesInfo) -> bool {
    category_of(category@) is Pivoted ==> series.has_leading_property()
}

/// The outcome of every time series of a block.
pub open spec fn series_outcomes(tmp: MeteorologicalInfosTmp) -> Seq<
    Result<Option<ListItemView>, ReconstructError>,
> {
    tmp.time_series_info@.map_values(|series: TimeSeriesInfo| series_outcome(tmp._type, series))
}

/// What a block of the bulletin comes to. A proprietary block is one block of
/// the report, with its records as they are. Any other gives one block for
/// each of its time series that has one, in document order, or the error of
/// the first that fails.
pub open spec fn group_outcome(tmp: MeteorologicalInfosTmp) -> Result<
    Seq<ListItemView>,
    ReconstructError,
> {
    if category_of(tmp._type@) == Category::Proprietary {
        Ok(seq![ListItemView::Proprietary(tmp.meteorological_info@)])
    } else {
        match all_or_first_error(series_outcomes(tmp)) {
            Ok(found) => Ok(present(found)),
            Err(e) => Err(e),
        }
    }
}

/// Every time series that the reconstruction gets to can be classified: one
/// that comes behind a failing series is never looked at.
pub open spec fn group_ready(tmp: MeteorologicalInfosTmp) -> bool {
    category_of(tmp._type@) != Category::Proprietary ==> forall|i: int|
        0 <= i < tmp.time_series_info@.len() && all_or_first_error(series_outcomes(tmp).take(i))
            is Ok ==> series_ready(tmp._type, #[trigger] tmp.time_series_info@[i])
}

/// A result with its list of blocks taken as a sequence of views.
pub open spec fn items_of(r: Result<Vec<MeteorologicalInfoListItem>, ReconstructError>) -> Result<
    Seq<ListItemView>,
    ReconstructError,
> {
    match r {
        Ok(items) => Ok(item_views(items@)),
        Err(e) => Err(e),
    }
}

/// A result with its block, if any, taken as a view.
pub open spec fn item_of(r: Result<Option<MeteorologicalInfoListItem>, ReconstructError>) -> Result<
    Option<ListItemView>,
    ReconstructError,
> {
    match r {
        Ok(Some(item)) => Ok(Some(item@)),
        Ok(None) => Ok(None),
        Err(e) => Err(e),
    }
}

impl MeteorologicalInfoListItem {
    /// Rebuilds the block of one strategy from the areas in `items`.
    pub fn rebuild(strategy: Strategy, axis: &Vec<TimeDefine>, items: Vec<Item>) -> (r: Result<
        Self,
        ReconstructError,
    >)
        ensures
            match r {
                Ok(block) => block_of(strategy, axis@, items@) == Ok::<
                    ListItemView,
                    ReconstructError,
                >(block@),
                Err(e) => block_of(strategy, axis@, items@) == Err::<ListItemView, ReconstructError>(
                    e,
                ),
            },
    {
        match strategy {
            Strategy::WeatherForecast => match rebuild_areas::<WeatherForecast>(axis, items) {
                Ok(areas) => Ok(MeteorologicalInfoListItem::WeatherForecast(areas)),
                Err(e) => Err(e),
            },
            Strategy::ProbabilityOfPrecipitation => match rebuild_areas::<Precipitation>(
                axis,
                items,
            ) {
                Ok(areas) => Ok(MeteorologicalInfoListItem::ProbabilityOfPrecipitation(areas)),
                Err(e) => Err(e),
            },
            Strategy::WeatherAndWindTimeSeries => match rebuild_areas::<WeatherAndWindForecast>(
                axis,
                items,
            ) {
                Ok(areas) => Ok(MeteorologicalInfoListItem::WeatherAndWindTimeSeries(areas)),
                Err(e) => Err(e),
            },
            Strategy::TemperatureForecast => match rebuild_areas::<TemperatureForecast>(
                axis,
                items,
            ) {
                Ok(areas) => Ok(MeteorologicalInfoListItem::TemperatureForecast(areas)),
                Err(e) => Err(e),
            },
            Strategy::TemperatureTimeSeries => match rebuild_areas::<TemperatureTimeSeries>(
                axis,
                items,
            ) {
                Ok(areas) => Ok(MeteorologicalInfoListItem::TemperatureTimeSeries(areas)),
                Err(e) => Err(e),
            },
        }
    }

    /// Rebuilds one time series of a pivoted block: sorts its time markers,
    /// chooses the strategy by the leading type tag and rebuilds every area.
    fn from_pivoted_series(pivot: Pivot, series: TimeSeriesInfo) -> (r: Result<
        Option<Self>,
        ReconstructError,
    >)
        requires
            series.has_leading_property(),
        ensures
            item_of(r) == pivoted_series_outcome(pivot, series),
    {
        let strategy = match choose_strategy(
            pivot,
            series.items[0].kind[0].property[0]._type.as_str(),
        ) {
            Some(strategy) => strategy,
            None => {
                return Ok(None);
            },
        };
        let TimeSeriesInfo { time_defines: TimeDefines { items: markers }, items } = series;
        let axis = sort_by_key(markers);
        match Self::rebuild(strategy, &axis, items) {
            Ok(block) => Ok(Some(block)),
            Err(e) => Err(e),
        }
    }

    /// Rebuilds one time series of a block with category tag `category`, if it
    /// can be classified; `None` if it cannot.
    pub fn from_series_checked(category: &String, series: TimeSeriesInfo) -> (r: Option<
        Result<Option<Self>, ReconstructError>,
    >)
        ensures
            r is Some <==> series_ready(*category, series),
            r matches Some(found) ==> item_of(found) == series_outcome(*category, series),
    {
        match read_category(category.as_str()) {
            Category::Pivoted(pivot) => {
                if series.leads_with_property() {
                    Some(Self::from_pivoted_series(pivot, series))
                } else {
                    None
                }
            },
            _ => Some(Err(ReconstructError::UnknownCategory(category.clone()))),
        }
    }

    /// Rebuilds one time series of a block with category tag `category`.
    pub fn from_series(category: &String, series: TimeSeriesInfo) -> (r: Result<
        Option<Self>,
        ReconstructError,
    >)
        requires
            series_ready(*category, series),
        ensures
            item_of(r) == series_outcome(*category, series),
    {
        Self::from_series_checked(category, series).unwrap()
    }

    /// Rebuilds a block of the bulletin, if every time series that it gets to
    /// can be classified; `None` if one cannot. It stops at the first time
    /// series that fails, and then returns nothing but its error.
    pub fn from_tmp_checked(tmp: MeteorologicalInfosTmp) -> (r: Option<
        Result<Vec<Self>, ReconstructError>,
    >)
        ensures
            r is Some <==> group_ready(tmp),
            r matches Some(found) ==> items_of(found) == group_outcome(tmp),
    {
        let ghost outcomes = series_outcomes(tmp);
        let MeteorologicalInfosTmp { _type: category, time_series_info, meteorological_info } = tmp;
        let mut out: Vec<MeteorologicalInfoListItem> = Vec::new();
        if let Category::Proprietary = read_category(category.as_str()) {
            out.push(MeteorologicalInfoListItem::Proprietary(meteorological_info));
            assert(item_views(out@) =~= seq![ListItemView::Proprietary(meteorological_info@)]);
            return Some(Ok(out));
        }
        for series in it: time_series_info
            invariant
                it.seq() == time_series_info@,
                outcomes.len() == time_series_info@.len(),
                group_outcome(tmp) == match all_or_first_error(outcomes) {
                    Ok(found) => Ok::<Seq<ListItemView>, ReconstructError>(present(found)),
                    Err(e) => Err(e),
                },
                group_ready(tmp) <==> forall|i: int|
                    0 <= i < outcomes.len() && all_or_first_error(outcomes.take(i)) is Ok
                        ==> series_ready(category, #[trigger] time_series_info@[i]),
                forall|i: int|
                    0 <= i < outcomes.len() ==> #[trigger] outcomes[i] == series_outcome(
                        category,
                        time_series_info@[i],
                    ),
                forall|i: int|
                    0 <= i < it.index() ==> series_ready(category, #[trigger] time_series_info@[i]),
                all_or_first_error(outcomes.take(it.index() as int)) is Ok,
                present(all_or_first_error(outcomes.take(it.index() as int)).unwrap())
                    == item_views(out@),
        {
            let ghost i = it.index() as int;
            let ghost found = all_or_first_error(outcomes.take(i)).unwrap();
            proof {
                lemma_all_or_first_error_step(outcomes, i);
            }
            match Self::from_series_checked(&category, series) {
                Some(Ok(Some(item))) => {
                    out.push(item);
                    proof {
                        lemma_present_push(found, Some(item@));
                    }
                },
                Some(Ok(None)) => {
                    proof {
                        lemma_present_push(found, None);
                    }
                },
                Some(Err(e)) => {
                    proof {
                        lemma_later_prefixes_fail(outcomes, i);
                    }
                    return Some(Err(e));
                },
                None => {
                    return None;
                },
            }
        }
        proof {
            assert(outcomes.take(outcomes.len() as int) =~= outcomes);
        }
        Some(Ok(out))
    }

    /// Rebuilds a block of the bulletin. It stops at the first time series that
    /// fails, and then returns nothing but its error.
    pub fn from_tmp(tmp: MeteorologicalInfosTmp) -> (r: Result<Vec<Self>, ReconstructError>)
        requires
            group_ready(tmp),
        ensures
            items_of(r) == group_outcome(tmp),
    {
        Self::from_tmp_checked(tmp).unwrap()
    }
}

/// A bulletin as a typed, time-aligned model.
#[derive(Debug, Clone, PartialEq, Eq)]
pub struct Report {
    pub control: Control,
    pub head: Head,
    pub body: Vec<MeteorologicalInfoListItem>,
}

/// A report as a mathematical value.
pub struct ReportView {
    pub control: Control,
    pub head: Head,
    pub body: Seq<ListItemView>,
}

impl View for Report {
    type V = ReportView;

    open spec fn view(&self) -> ReportView {
        ReportView { control: self.control, head: self.head, body: item_views(self.body@) }
    }
}

/// The outcome of every block of a bulletin.
pub open spec fn group_outcomes(tmp: ReportTmp) -> Seq<Result<Seq<ListItemView>, ReconstructError>> {
    tmp.body.meteorological_infos@.map_values(|group: MeteorologicalInfosTmp| group_outcome(group))
}

/// What a bulletin comes to: a report whose body holds the blocks of every
/// block of the bulletin, in document order, or the error of the first block
/// that fails.
pub open spec fn report_outcome(tmp: ReportTmp) -> Result<ReportView, ReconstructError> {
    match all_or_first_error(group_outcomes(tmp)) {
        Ok(parts) => Ok(ReportView { control: tmp.control, head: tmp.head, body: parts.flatten() }),
        Err(e) => Err(e),
    }
}

/// Every block that the reconstruction gets to is ready: one that comes behind
/// a failing block is never looked at.
pub open spec fn report_ready(tmp: ReportTmp) -> bool {
    forall|i: int|
        0 <= i < tmp.body.meteorological_infos@.len() && all_or_first_error(
            group_outcomes(tmp).take(i),
        ) is Ok ==> group_ready(#[trigger] tmp.body.meteorological_infos@[i])
}

/// A result with its report taken as a view.
pub open spec fn report_of(r: Result<Report, ReconstructError>) -> Result<
    ReportView,
    ReconstructError,
> {
    match r {
        Ok(report) => Ok(report@),
        Err(e) => Err(e),
    }
}

impl Report {
    /// Rebuilds the report of a bulletin, if every time series that it gets to
    /// can be classified; `None` if one cannot. The first error anywhere ends
    /// it: no part of a report is returned then.
    pub fn from_tmp_checked(tmp: ReportTmp) -> (r: Option<Result<Self, ReconstructError>>)
        ensures
            r is Some <==> report_ready(tmp),
            r matches Some(found) ==> report_of(found) == report_outcome(tmp),
    {
        let ghost outcomes = group_outcomes(tmp);
        let ReportTmp { control, head, body: BodyTmp { meteorological_infos } } = tmp;
        let mut body: Vec<MeteorologicalInfoListItem> = Vec::new();
        for group in it: meteorological_infos
            invariant
                it.seq() == meteorological_infos@,
                outcomes.len() == meteorological_infos@.len(),
                control == tmp.control,
                head == tmp.head,
                report_outcome(tmp) == match all_or_first_error(outcomes) {
                    Ok(parts) => Ok::<ReportView, ReconstructError>(
                        ReportView { control: tmp.control, head: tmp.head, body: parts.flatten() },
                    ),
                    Err(e) => Err(e),
                },
                report_ready(tmp) <==> forall|i: int|
                    0 <= i < outcomes.len() && all_or_first_error(outcomes.take(i)) is Ok
                        ==> group_ready(#[trigger] meteorological_infos@[i]),
                forall|i: int|
                    0 <= i < outcomes.len() ==> #[trigger] outcomes[i] == group_outcome(
                        meteorological_infos@[i],
                    ),
                forall|i: int|
                    0 <= i < it.index() ==> group_ready(#[trigger] meteorological_infos@[i]),
                all_or_first_error(outcomes.take(it.index() as int)) is Ok,
                all_or_first_error(outcomes.take(it.index() as int)).unwrap().flatten()
                    == item_views(body@),
        {
            let ghost i = it.index() as int;
            let ghost parts = all_or_first_error(outcomes.take(i)).unwrap();
            proof {
                lemma_all_or_first_error_step(outcomes, i);
            }
            match MeteorologicalInfoListItem::from_tmp_checked(group) {
                Some(Ok(items)) => {
                    let mut items = items;
                    let ghost added = item_views(items@);
                    body.append(&mut items);
                    proof {
                        parts.lemma_flatten_push(added);
                    }
                },
                Some(Err(e)) => {
                    proof {
                        lemma_later_prefixes_fail(outcomes, i);
                    }
                    return Some(Err(e));
                },
                None => {
                    return None;
                },
            }
        }
        proof {
            assert(outcomes.take(outcomes.len() as int) =~= outcomes);
        }
        Some(Ok(Report { control, head, body }))
    }

    /// Rebuilds the report of a bulletin. The first error anywhere ends it: no
    /// part of a report is returned then.
    pub fn from_tmp(tmp: ReportTmp) -> (r: Result<Self, ReconstructError>)
        requires
            report_ready(tmp),
        ensures
            report_of(r) == report_outcome(tmp),
    {
        Self::from_tmp_checked(tmp).unwrap()
    }
}

} // verus!
