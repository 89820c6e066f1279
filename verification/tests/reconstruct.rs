use jma_bulletin::fuken_r1::error::ReconstructError;
use jma_bulletin::fuken_r1::raw::flatten_properties;
use jma_bulletin::fuken_r1::raw::BodyTmp;
use jma_bulletin::fuken_r1::raw::DetailForecast;
use jma_bulletin::fuken_r1::raw::Item;
use jma_bulletin::fuken_r1::raw::Kind;
use jma_bulletin::fuken_r1::raw::MeteorologicalInfosTmp;
use jma_bulletin::fuken_r1::raw::ProbabilityOfPrecipitationPart;
use jma_bulletin::fuken_r1::raw::Property;
use jma_bulletin::fuken_r1::raw::ReportTmp;
use jma_bulletin::fuken_r1::raw::TemperaturePart;
use jma_bulletin::fuken_r1::raw::TimeDefines;
use jma_bulletin::fuken_r1::raw::TimeSeriesInfo;
use jma_bulletin::fuken_r1::raw::WeatherCodePart;
use jma_bulletin::fuken_r1::raw::WeatherPart;
use jma_bulletin::fuken_r1::raw::WindDirectionPart;
use jma_bulletin::fuken_r1::raw::WindSpeedPart;
use jma_bulletin::fuken_r1::reconcile::Reconcile;
use jma_bulletin::fuken_r1::tags::choose_strategy;
use jma_bulletin::fuken_r1::tags::read_category;
use jma_bulletin::fuken_r1::tags::Category;
use jma_bulletin::fuken_r1::tags::Pivot;
use jma_bulletin::fuken_r1::tags::Strategy;
use jma_bulletin::fuken_r1::Area;
use jma_bulletin::fuken_r1::AreaForecast;
use jma_bulletin::fuken_r1::Control;
use jma_bulletin::fuken_r1::ControlStatus;
use jma_bulletin::fuken_r1::Head;
use jma_bulletin::fuken_r1::InfoType;
use jma_bulletin::fuken_r1::MeteorologicalInfo;
use jma_bulletin::fuken_r1::MeteorologicalInfoItem;
use jma_bulletin::fuken_r1::MeteorologicalInfoKind;
use jma_bulletin::fuken_r1::MeteorologicalInfoListItem;
use jma_bulletin::fuken_r1::MeteorologicalInfoProperty;
use jma_bulletin::fuken_r1::Precipitation;
use jma_bulletin::fuken_r1::ProbabilityOfPrecipitation;
use jma_bulletin::fuken_r1::Report;
use jma_bulletin::fuken_r1::Temperature;
use jma_bulletin::fuken_r1::TemperatureForecast;
use jma_bulletin::fuken_r1::TemperatureTimeSeries;
use jma_bulletin::fuken_r1::Temporary;
use jma_bulletin::fuken_r1::TimeDefine;
use jma_bulletin::fuken_r1::Timestamp;
use jma_bulletin::fuken_r1::WaveHeightForecastPart;
use jma_bulletin::fuken_r1::Weather;
use jma_bulletin::fuken_r1::WeatherAndWindForecast;
use jma_bulletin::fuken_r1::WeatherCode;
use jma_bulletin::fuken_r1::WeatherForecast;
use jma_bulletin::fuken_r1::WeatherForecastBase;
use jma_bulletin::fuken_r1::WeatherForecastPart;
use jma_bulletin::fuken_r1::WindDirection;
use jma_bulletin::fuken_r1::WindForecastPart;
use jma_bulletin::fuken_r1::WindSpeedLevel;

const AREA: &str = "区域予報";
const STATION: &str = "地点予報";
const PROPRIETARY: &str = "独自予報";

fn marker(time_id: usize) -> TimeDefine {
    TimeDefine {
        time_id,
        datetime: Timestamp { seconds: 1_700_000_000 + 21_600 * time_id as i64, nanoseconds: 0 },
        duration: Some("PT6H".to_string()),
        name: Some(format!("period {}", time_id)),
    }
}

fn markers(ids: &[usize]) -> Vec<TimeDefine> {
    ids.iter().map(|id| marker(*id)).collect()
}

fn area(name: &str, code: usize) -> Area {
    Area { name: name.to_string(), code }
}

fn weather_name(ref_id: Option<usize>) -> Weather {
    Weather {
        ref_id,
        _type: "天気".to_string(),
        value: match ref_id {
            Some(id) => format!("weather {}", id),
            None => "weather".to_string(),
        },
    }
}

fn weather_text(ref_id: usize) -> WeatherForecastPart {
    WeatherForecastPart {
        ref_id,
        sentence: format!("sentence {}", ref_id),
        base: WeatherForecastBase { weather: weather_name(None) },
        temporary: vec![Temporary {
            time_modifier: "夜".to_string(),
            weather: weather_name(None),
        }],
    }
}

fn weather_code(ref_id: usize) -> WeatherCode {
    WeatherCode { ref_id, _type: "天気予報用テロップ番号".to_string(), value: 100 + ref_id }
}

fn wind_text(ref_id: usize) -> WindForecastPart {
    WindForecastPart { ref_id, sentence: format!("wind {}", ref_id) }
}

fn wave_text(ref_id: usize) -> WaveHeightForecastPart {
    WaveHeightForecastPart { ref_id, sentence: format!("wave {}", ref_id) }
}

fn probability(ref_id: usize, value: u32) -> ProbabilityOfPrecipitation {
    ProbabilityOfPrecipitation {
        condition: "約".to_string(),
        description: format!("{}パーセント", value),
        ref_id,
        _type: "６時間降水確率".to_string(),
        unit: "%".to_string(),
        value,
    }
}

fn temperature(ref_id: usize, value: i32) -> Temperature {
    Temperature {
        description: format!("{}度", value),
        ref_id,
        _type: "気温".to_string(),
        unit: "度".to_string(),
        value,
    }
}

fn wind_direction(ref_id: usize, value: &str) -> WindDirection {
    WindDirection {
        ref_id,
        _type: "風向".to_string(),
        unit: "８方位漢字".to_string(),
        value: value.to_string(),
    }
}

fn wind_speed(ref_id: usize, value: u32) -> WindSpeedLevel {
    WindSpeedLevel {
        description: "毎秒０から２メートル".to_string(),
        range: "0 2".to_string(),
        ref_id,
        _type: "風速階級".to_string(),
        value,
    }
}

fn bare_property(tag: &str) -> Property {
    Property {
        _type: tag.to_string(),
        detail_forecast: None,
        weather_part: None,
        weather_code_part: None,
        probability_of_precipitation_part: None,
        temperature_part: None,
        wind_direction_part: None,
        wind_speed_part: None,
    }
}

fn weather_property(ids: &[usize]) -> Property {
    Property {
        detail_forecast: Some(DetailForecast {
            weather_forecast_part: ids.iter().map(|id| weather_text(*id)).collect(),
            wind_forecast_part: vec![],
            wave_height_forecast_part: vec![],
        }),
        weather_part: Some(WeatherPart {
            weather: ids.iter().map(|id| weather_name(Some(*id))).collect(),
        }),
        weather_code_part: Some(WeatherCodePart {
            weather_code: ids.iter().map(|id| weather_code(*id)).collect(),
        }),
        ..bare_property("天気")
    }
}

fn wind_property(ids: &[usize]) -> Property {
    Property {
        detail_forecast: Some(DetailForecast {
            weather_forecast_part: vec![],
            wind_forecast_part: ids.iter().map(|id| wind_text(*id)).collect(),
            wave_height_forecast_part: vec![],
        }),
        ..bare_property("風")
    }
}

fn wave_property(ids: &[usize]) -> Property {
    Property {
        detail_forecast: Some(DetailForecast {
            weather_forecast_part: vec![],
            wind_forecast_part: vec![],
            wave_height_forecast_part: ids.iter().map(|id| wave_text(*id)).collect(),
        }),
        ..bare_property("波")
    }
}

fn precipitation_property(values: &[(usize, u32)]) -> Property {
    Property {
        probability_of_precipitation_part: Some(ProbabilityOfPrecipitationPart {
            values: values.iter().map(|(id, v)| probability(*id, *v)).collect(),
        }),
        ..bare_property("降水確率")
    }
}

fn temperature_property(tag: &str, values: &[(usize, i32)]) -> Property {
    Property {
        temperature_part: Some(TemperaturePart {
            values: values.iter().map(|(id, v)| temperature(*id, *v)).collect(),
        }),
        ..bare_property(tag)
    }
}

fn dominant_weather_property(ids: &[usize]) -> Property {
    Property {
        weather_part: Some(WeatherPart {
            weather: ids.iter().map(|id| weather_name(Some(*id))).collect(),
        }),
        ..bare_property("３時間内卓越天気")
    }
}

fn representative_wind_property(ids: &[usize]) -> Property {
    Property {
        wind_direction_part: Some(WindDirectionPart {
            values: ids.iter().map(|id| wind_direction(*id, "北")).collect(),
        }),
        wind_speed_part: Some(WindSpeedPart {
            values: ids.iter().map(|id| wind_speed(*id, 1 + *id as u32)).collect(),
        }),
        ..bare_property("３時間内代表風")
    }
}

fn item(name: &str, code: usize, kinds: Vec<Vec<Property>>) -> Item {
    Item {
        kind: kinds.into_iter().map(|property| Kind { property }).collect(),
        area: area(name, code),
    }
}

fn series(ids: &[usize], items: Vec<Item>) -> TimeSeriesInfo {
    TimeSeriesInfo { time_defines: TimeDefines { items: markers(ids) }, items }
}

fn group(tag: &str, time_series_info: Vec<TimeSeriesInfo>) -> MeteorologicalInfosTmp {
    MeteorologicalInfosTmp { _type: tag.to_string(), time_series_info, meteorological_info: vec![] }
}

fn record(text: &str) -> MeteorologicalInfo {
    MeteorologicalInfo {
        date_time: Timestamp { seconds: 1_700_000_000, nanoseconds: 0 },
        duration: "P1D".to_string(),
        item: MeteorologicalInfoItem {
            kind: MeteorologicalInfoKind {
                property: MeteorologicalInfoProperty {
                    _type: "独自予報".to_string(),
                    text: text.to_string(),
                },
            },
            area: area("福岡県", 400000),
        },
    }
}

fn control() -> Control {
    Control {
        title: "府県天気予報（Ｒ１）".to_string(),
        datetime: Timestamp { seconds: 1_700_000_000, nanoseconds: 0 },
        status: ControlStatus::Normal,
        editorial_office: "福岡管区気象台".to_string(),
        publishing_office: "福岡管区気象台".to_string(),
    }
}

fn head() -> Head {
    Head {
        title: "福岡県府県天気予報".to_string(),
        report_datetime: Timestamp { seconds: 1_700_000_100, nanoseconds: 0 },
        target_datetime: Timestamp { seconds: 1_700_000_200, nanoseconds: 0 },
        target_duration: "P3D".to_string(),
        info_type: InfoType::Announcement,
        info_kind: "府県天気予報".to_string(),
        info_kind_version: "1.0_1".to_string(),
    }
}

fn bulletin(groups: Vec<MeteorologicalInfosTmp>) -> ReportTmp {
    ReportTmp { control: control(), head: head(), body: BodyTmp { meteorological_infos: groups } }
}

fn coastal_record(id: usize) -> WeatherForecast {
    WeatherForecast {
        time: marker(id),
        weather_text: weather_text(id),
        weather: weather_name(Some(id)),
        weather_code: weather_code(id),
        wind: wind_text(id),
        wave_height: Some(wave_text(id)),
    }
}

fn inland_record(id: usize) -> WeatherForecast {
    WeatherForecast { wave_height: None, ..coastal_record(id) }
}

#[test]
fn three_property_block_round_trip() {
    let tmp = group(
        AREA,
        vec![series(
            &[0, 1],
            vec![item(
                "福岡地方",
                400010,
                vec![vec![weather_property(&[0, 1]), wind_property(&[0, 1]), wave_property(&[0, 1])]],
            )],
        )],
    );
    let body = MeteorologicalInfoListItem::from_tmp(tmp).unwrap();
    assert_eq!(body.len(), 1);
    let areas = match &body[0] {
        MeteorologicalInfoListItem::WeatherForecast(areas) => areas,
        other => panic!("not a weather forecast: {:?}", other),
    };
    assert_eq!(areas.len(), 1);
    assert_eq!(areas[0].area, area("福岡地方", 400010));
    assert_eq!(areas[0].forecast.len(), 2);
    assert_eq!(areas[0].forecast[0].time.time_id, 0);
    assert_eq!(areas[0].forecast[1].time.time_id, 1);
    assert!(areas[0].forecast[0].wave_height.is_some());
    assert!(areas[0].forecast[1].wave_height.is_some());
    assert_eq!(areas[0].forecast, vec![coastal_record(0), coastal_record(1)]);
}

#[test]
fn values_out_of_order_are_lined_up_by_identifier() {
    let tmp = group(
        AREA,
        vec![series(
            &[2, 0, 1],
            vec![item(
                "北九州地方",
                400020,
                vec![
                    vec![wind_property(&[1, 2, 0])],
                    vec![wave_property(&[2, 1, 0])],
                    vec![weather_property(&[0, 2, 1])],
                ],
            )],
        )],
    );
    let body = MeteorologicalInfoListItem::from_tmp(tmp).unwrap();
    assert_eq!(
        body,
        vec![MeteorologicalInfoListItem::WeatherForecast(vec![AreaForecast {
            area: area("北九州地方", 400020),
            forecast: vec![coastal_record(0), coastal_record(1), coastal_record(2)],
        }])]
    );
}

#[test]
fn two_property_block_has_no_wave_height() {
    let tmp = group(
        AREA,
        vec![series(
            &[0, 1, 2],
            vec![item(
                "筑豊地方",
                400030,
                vec![vec![wind_property(&[0, 1, 2]), weather_property(&[0, 1, 2])]],
            )],
        )],
    );
    let body = MeteorologicalInfoListItem::from_tmp(tmp).unwrap();
    assert_eq!(
        body,
        vec![MeteorologicalInfoListItem::WeatherForecast(vec![AreaForecast {
            area: area("筑豊地方", 400030),
            forecast: vec![inland_record(0), inland_record(1), inland_record(2)],
        }])]
    );
}

#[test]
fn coastal_and_inland_areas_share_a_block() {
    let tmp = group(
        AREA,
        vec![series(
            &[0, 1],
            vec![
                item(
                    "福岡地方",
                    400010,
                    vec![vec![
                        wave_property(&[0, 1]),
                        weather_property(&[0, 1]),
                        wind_property(&[0, 1]),
                    ]],
                ),
                item("筑豊地方", 400030, vec![vec![weather_property(&[0, 1]), wind_property(&[0, 1])]]),
            ],
        )],
    );
    let body = MeteorologicalInfoListItem::from_tmp(tmp).unwrap();
    assert_eq!(
        body,
        vec![MeteorologicalInfoListItem::WeatherForecast(vec![
            AreaForecast {
                area: area("福岡地方", 400010),
                forecast: vec![coastal_record(0), coastal_record(1)],
            },
            AreaForecast {
                area: area("筑豊地方", 400030),
                forecast: vec![inland_record(0), inland_record(1)],
            },
        ])]
    );
}

#[test]
fn block_led_by_wave_or_wind_is_a_weather_forecast() {
    for leading in [wave_property(&[0]), wind_property(&[0])] {
        let mut properties = vec![leading.clone()];
        for other in [weather_property(&[0]), wind_property(&[0]), wave_property(&[0])] {
            if other._type != leading._type {
                properties.push(other);
            }
        }
        let tmp = group(AREA, vec![series(&[0], vec![item("福岡地方", 400010, vec![properties])])]);
        let body = MeteorologicalInfoListItem::from_tmp(tmp).unwrap();
        assert_eq!(
            body,
            vec![MeteorologicalInfoListItem::WeatherForecast(vec![AreaForecast {
                area: area("福岡地方", 400010),
                forecast: vec![coastal_record(0)],
            }])]
        );
    }
}

#[test]
fn precipitation_block_pairs_values_with_markers() {
    let tmp = group(
        AREA,
        vec![series(
            &[1, 0, 3, 2],
            vec![
                item("福岡地方", 400010, vec![vec![precipitation_property(&[(3, 40), (1, 20), (0, 10), (2, 30)])]]),
                item("北九州地方", 400020, vec![vec![precipitation_property(&[(0, 0), (1, 50), (2, 60), (3, 70)])]]),
            ],
        )],
    );
    let body = MeteorologicalInfoListItem::from_tmp(tmp).unwrap();
    let pair = |id: usize, value: u32| Precipitation { time: marker(id), probability: probability(id, value) };
    assert_eq!(
        body,
        vec![MeteorologicalInfoListItem::ProbabilityOfPrecipitation(vec![
            AreaForecast {
                area: area("福岡地方", 400010),
                forecast: vec![pair(0, 10), pair(1, 20), pair(2, 30), pair(3, 40)],
            },
            AreaForecast {
                area: area("北九州地方", 400020),
                forecast: vec![pair(0, 0), pair(1, 50), pair(2, 60), pair(3, 70)],
            },
        ])]
    );
}

#[test]
fn every_forecast_has_one_record_for_each_marker() {
    let tmp = group(
        AREA,
        vec![series(
            &[4, 3, 2, 1, 0],
            vec![
                item("a", 1, vec![vec![precipitation_property(&[(0, 1), (1, 2), (2, 3), (3, 4), (4, 5)])]]),
                item("b", 2, vec![vec![precipitation_property(&[(4, 1), (3, 2), (2, 3), (1, 4), (0, 5)])]]),
            ],
        )],
    );
    let body = MeteorologicalInfoListItem::from_tmp(tmp).unwrap();
    match &body[0] {
        MeteorologicalInfoListItem::ProbabilityOfPrecipitation(areas) => {
            assert_eq!(areas.len(), 2);
            for forecast in areas {
                assert_eq!(forecast.forecast.len(), 5);
                for (position, record) in forecast.forecast.iter().enumerate() {
                    assert_eq!(record.time.time_id, position);
                    assert_eq!(record.probability.ref_id, position);
                }
            }
        },
        other => panic!("not a precipitation block: {:?}", other),
    }
}

#[test]
fn fewer_values_than_markers_give_fewer_records() {
    let tmp = group(
        AREA,
        vec![series(&[0, 1], vec![item("a", 1, vec![vec![precipitation_property(&[(0, 10)])]])])],
    );
    let body = MeteorologicalInfoListItem::from_tmp(tmp).unwrap();
    assert_eq!(
        body,
        vec![MeteorologicalInfoListItem::ProbabilityOfPrecipitation(vec![AreaForecast {
            area: area("a", 1),
            forecast: vec![Precipitation { time: marker(0), probability: probability(0, 10) }],
        }])]
    );
}

#[test]
fn more_values_than_markers_are_cut_off() {
    let tmp = group(
        AREA,
        vec![series(&[0], vec![item("a", 1, vec![vec![precipitation_property(&[(1, 20), (0, 10)])]])])],
    );
    let body = MeteorologicalInfoListItem::from_tmp(tmp).unwrap();
    assert_eq!(
        body,
        vec![MeteorologicalInfoListItem::ProbabilityOfPrecipitation(vec![AreaForecast {
            area: area("a", 1),
            forecast: vec![Precipitation { time: marker(0), probability: probability(0, 10) }],
        }])]
    );
}

#[test]
fn empty_time_axis_gives_empty_forecasts() {
    let tmp = group(
        AREA,
        vec![series(&[], vec![item("a", 1, vec![vec![precipitation_property(&[(0, 10)])]])])],
    );
    let body = MeteorologicalInfoListItem::from_tmp(tmp).unwrap();
    assert_eq!(
        body,
        vec![MeteorologicalInfoListItem::ProbabilityOfPrecipitation(vec![AreaForecast {
            area: area("a", 1),
            forecast: vec![],
        }])]
    );
}

#[test]
fn duplicate_identifiers_keep_document_order() {
    let tmp = group(
        AREA,
        vec![series(
            &[0, 1, 2],
            vec![item("a", 1, vec![vec![precipitation_property(&[(1, 11), (0, 5), (1, 12)])]])],
        )],
    );
    let body = MeteorologicalInfoListItem::from_tmp(tmp).unwrap();
    assert_eq!(
        body,
        vec![MeteorologicalInfoListItem::ProbabilityOfPrecipitation(vec![AreaForecast {
            area: area("a", 1),
            forecast: vec![
                Precipitation { time: marker(0), probability: probability(0, 5) },
                Precipitation { time: marker(1), probability: probability(1, 11) },
                Precipitation { time: marker(2), probability: probability(1, 12) },
            ],
        }])]
    );
}

#[test]
fn weather_and_wind_time_series() {
    for properties in [
        vec![dominant_weather_property(&[1, 0]), representative_wind_property(&[0, 1])],
        vec![representative_wind_property(&[1, 0]), dominant_weather_property(&[0, 1])],
    ] {
        let tmp = group(AREA, vec![series(&[1, 0], vec![item("福岡地方", 400010, vec![properties])])]);
        let body = MeteorologicalInfoListItem::from_tmp(tmp).unwrap();
        let at = |id: usize| WeatherAndWindForecast {
            time: marker(id),
            weather: Weather { _type: "天気".to_string(), ..weather_name(Some(id)) },
            wind_direction: wind_direction(id, "北"),
            wind_speed: wind_speed(id, 1 + id as u32),
        };
        assert_eq!(
            body,
            vec![MeteorologicalInfoListItem::WeatherAndWindTimeSeries(vec![AreaForecast {
                area: area("福岡地方", 400010),
                forecast: vec![at(0), at(1)],
            }])]
        );
    }
}

#[test]
fn station_block_with_three_hourly_tag_is_a_temperature_time_series() {
    let tmp = group(
        STATION,
        vec![series(
            &[1, 0, 2],
            vec![item("福岡", 82182, vec![vec![temperature_property("３時間毎気温", &[(2, 15), (0, 11), (1, 13)])]])],
        )],
    );
    let body = MeteorologicalInfoListItem::from_tmp(tmp).unwrap();
    let at = |id: usize, value: i32| TemperatureTimeSeries { time: marker(id), temperature: temperature(id, value) };
    assert_eq!(
        body,
        vec![MeteorologicalInfoListItem::TemperatureTimeSeries(vec![AreaForecast {
            area: area("福岡", 82182),
            forecast: vec![at(0, 11), at(1, 13), at(2, 15)],
        }])]
    );
}

#[test]
fn station_block_with_any_other_tag_is_a_temperature_forecast() {
    let tmp = group(
        STATION,
        vec![series(
            &[1, 0],
            vec![item(
                "福岡",
                82182,
                vec![
                    vec![temperature_property("日中の最高気温", &[(1, 21), (0, 99)])],
                    vec![temperature_property("朝の最低気温", &[(0, 9)])],
                ],
            )],
        )],
    );
    let body = MeteorologicalInfoListItem::from_tmp(tmp).unwrap();
    assert_eq!(
        body,
        vec![MeteorologicalInfoListItem::TemperatureForecast(vec![AreaForecast {
            area: area("福岡", 82182),
            forecast: vec![
                TemperatureForecast {
                    time: marker(0),
                    _type: "日中の最高気温".to_string(),
                    temperature: temperature(1, 21),
                },
                TemperatureForecast {
                    time: marker(1),
                    _type: "朝の最低気温".to_string(),
                    temperature: temperature(0, 9),
                },
            ],
        }])]
    );
}

#[test]
fn temperature_forecast_stops_at_the_shorter_of_markers_and_properties() {
    let properties = vec![
        temperature_property("a", &[(0, 1)]),
        temperature_property("b", &[(0, 2)]),
        temperature_property("c", &[(0, 3)]),
    ];
    let forecast = TemperatureForecast::reconcile(&markers(&[0, 1]), properties.clone()).unwrap();
    assert_eq!(forecast.len(), 2);
    assert_eq!(forecast[1]._type, "b");
    let forecast = TemperatureForecast::reconcile(&markers(&[0, 1, 2, 3]), properties).unwrap();
    assert_eq!(forecast.len(), 3);
    assert_eq!(forecast[2].time, marker(2));
    assert_eq!(forecast[2].temperature, temperature(0, 3));
}

#[test]
fn temperature_forecast_needs_a_temperature_in_every_property() {
    let without_part = vec![temperature_property("a", &[(0, 1)]), bare_property("b")];
    assert_eq!(
        TemperatureForecast::reconcile(&markers(&[0, 1]), without_part.clone()),
        Err(ReconstructError::MissingPart)
    );
    assert_eq!(
        TemperatureForecast::reconcile(&markers(&[0]), without_part),
        Err(ReconstructError::MissingPart)
    );
    let without_value = vec![temperature_property("a", &[(0, 1)]), temperature_property("b", &[])];
    assert_eq!(
        TemperatureForecast::reconcile(&markers(&[0, 1]), without_value),
        Err(ReconstructError::MissingPart)
    );
    assert_eq!(TemperatureForecast::reconcile(&markers(&[0, 1]), vec![]), Ok(vec![]));
}

#[test]
fn unknown_area_type_tag_is_passed_over() {
    let tmp = group(
        AREA,
        vec![series(&[0, 1], vec![item("a", 1, vec![vec![temperature_property("最高気温", &[(0, 1)])]])])],
    );
    assert_eq!(MeteorologicalInfoListItem::from_tmp(tmp), Ok(vec![]));
}

#[test]
fn passed_over_series_leaves_the_others_in_order() {
    let tmp = group(
        AREA,
        vec![
            series(&[0], vec![item("a", 1, vec![vec![precipitation_property(&[(0, 10)])]])]),
            series(&[0], vec![item("a", 1, vec![vec![bare_property("不明")]])]),
            series(&[0], vec![item("a", 1, vec![vec![weather_property(&[0]), wind_property(&[0])]])]),
        ],
    );
    let body = MeteorologicalInfoListItem::from_tmp(tmp).unwrap();
    assert_eq!(
        body,
        vec![
            MeteorologicalInfoListItem::ProbabilityOfPrecipitation(vec![AreaForecast {
                area: area("a", 1),
                forecast: vec![Precipitation { time: marker(0), probability: probability(0, 10) }],
            }]),
            MeteorologicalInfoListItem::WeatherForecast(vec![AreaForecast {
                area: area("a", 1),
                forecast: vec![inland_record(0)],
            }]),
        ]
    );
}

#[test]
fn unknown_category_is_an_error() {
    let tmp = group(
        "週間予報",
        vec![series(&[0], vec![item("a", 1, vec![vec![precipitation_property(&[(0, 10)])]])])],
    );
    assert_eq!(
        MeteorologicalInfoListItem::from_tmp(tmp.clone()),
        Err(ReconstructError::UnknownCategory("週間予報".to_string()))
    );
    let report = Report::from_tmp(bulletin(vec![
        group(AREA, vec![series(&[0], vec![item("a", 1, vec![vec![precipitation_property(&[(0, 10)])]])])]),
        tmp,
    ]));
    assert_eq!(report, Err(ReconstructError::UnknownCategory("週間予報".to_string())));
}

#[test]
fn unknown_category_does_not_look_at_the_items() {
    let tmp = group("週間予報", vec![series(&[0], vec![])]);
    assert_eq!(
        MeteorologicalInfoListItem::from_tmp(tmp),
        Err(ReconstructError::UnknownCategory("週間予報".to_string()))
    );
}

#[test]
fn unknown_category_without_time_series_gives_nothing() {
    assert_eq!(MeteorologicalInfoListItem::from_tmp(group("週間予報", vec![])), Ok(vec![]));
}

#[test]
fn three_properties_without_wave_are_an_error() {
    let axis = markers(&[0, 1]);
    let two_winds =
        vec![weather_property(&[0, 1]), wind_property(&[0, 1]), wind_property(&[0, 1])];
    assert_eq!(
        WeatherForecast::reconcile(&axis, two_winds.clone()),
        Err(ReconstructError::TypeMismatch)
    );
    let two_weathers =
        vec![weather_property(&[0, 1]), weather_property(&[0, 1]), wind_property(&[0, 1])];
    assert_eq!(WeatherForecast::reconcile(&axis, two_weathers), Err(ReconstructError::TypeMismatch));
    let tmp = group(AREA, vec![series(&[0, 1], vec![item("a", 1, vec![two_winds])])]);
    assert_eq!(MeteorologicalInfoListItem::from_tmp(tmp), Err(ReconstructError::TypeMismatch));
}

#[test]
fn proprietary_block_keeps_its_records() {
    for count in [0usize, 1, 3] {
        let records: Vec<MeteorologicalInfo> =
            (0..count).map(|n| record(&format!("text {}", n))).collect();
        let tmp = MeteorologicalInfosTmp {
            _type: PROPRIETARY.to_string(),
            time_series_info: vec![],
            meteorological_info: records.clone(),
        };
        assert_eq!(
            MeteorologicalInfoListItem::from_tmp(tmp),
            Ok(vec![MeteorologicalInfoListItem::Proprietary(records)])
        );
    }
}

#[test]
fn proprietary_block_does_not_look_at_time_series() {
    let tmp = MeteorologicalInfosTmp {
        _type: PROPRIETARY.to_string(),
        time_series_info: vec![series(&[0], vec![])],
        meteorological_info: vec![record("x")],
    };
    assert_eq!(
        MeteorologicalInfoListItem::from_tmp_checked(tmp),
        Some(Ok(vec![MeteorologicalInfoListItem::Proprietary(vec![record("x")])]))
    );
}

#[test]
fn wrong_number_of_properties_is_an_error() {
    let axis = markers(&[0]);
    assert_eq!(
        WeatherForecast::reconcile(&axis, vec![weather_property(&[0])]),
        Err(ReconstructError::InvalidPropertyCount)
    );
    assert_eq!(
        WeatherForecast::reconcile(&axis, vec![]),
        Err(ReconstructError::InvalidPropertyCount)
    );
    assert_eq!(
        WeatherForecast::reconcile(
            &axis,
            vec![weather_property(&[0]), wave_property(&[0]), wind_property(&[0]), wind_property(&[0])]
        ),
        Err(ReconstructError::InvalidPropertyCount)
    );
    assert_eq!(
        Precipitation::reconcile(&axis, vec![]),
        Err(ReconstructError::InvalidPropertyCount)
    );
    assert_eq!(
        Precipitation::reconcile(
            &axis,
            vec![precipitation_property(&[(0, 1)]), precipitation_property(&[(0, 1)])]
        ),
        Err(ReconstructError::InvalidPropertyCount)
    );
    assert_eq!(
        TemperatureTimeSeries::reconcile(&axis, vec![]),
        Err(ReconstructError::InvalidPropertyCount)
    );
    assert_eq!(
        WeatherAndWindForecast::reconcile(&axis, vec![dominant_weather_property(&[0])]),
        Err(ReconstructError::InvalidPropertyCount)
    );
    assert_eq!(
        WeatherAndWindForecast::reconcile(
            &axis,
            vec![
                dominant_weather_property(&[0]),
                representative_wind_property(&[0]),
                representative_wind_property(&[0])
            ]
        ),
        Err(ReconstructError::InvalidPropertyCount)
    );
}

#[test]
fn missing_part_is_an_error() {
    let axis = markers(&[0]);
    let mut no_code = weather_property(&[0]);
    no_code.weather_code_part = None;
    assert_eq!(
        WeatherForecast::reconcile(&axis, vec![no_code.clone(), wind_property(&[0])]),
        Err(ReconstructError::MissingPart)
    );
    assert_eq!(
        WeatherForecast::reconcile(&axis, vec![no_code, wave_property(&[0]), wind_property(&[0])]),
        Err(ReconstructError::MissingPart)
    );
    let mut no_name = weather_property(&[0]);
    no_name.weather_part = None;
    assert_eq!(
        WeatherForecast::reconcile(&axis, vec![no_name, wind_property(&[0])]),
        Err(ReconstructError::MissingPart)
    );
    assert_eq!(
        WeatherForecast::reconcile(&axis, vec![weather_property(&[0]), bare_property("風")]),
        Err(ReconstructError::MissingPart)
    );
    assert_eq!(
        WeatherForecast::reconcile(
            &axis,
            vec![weather_property(&[0]), bare_property("波"), wind_property(&[0])]
        ),
        Err(ReconstructError::MissingPart)
    );
    assert_eq!(
        Precipitation::reconcile(&axis, vec![bare_property("降水確率")]),
        Err(ReconstructError::MissingPart)
    );
    assert_eq!(
        TemperatureTimeSeries::reconcile(&axis, vec![bare_property("３時間毎気温")]),
        Err(ReconstructError::MissingPart)
    );
    let mut no_speed = representative_wind_property(&[0]);
    no_speed.wind_speed_part = None;
    assert_eq!(
        WeatherAndWindForecast::reconcile(&axis, vec![no_speed, dominant_weather_property(&[0])]),
        Err(ReconstructError::MissingPart)
    );
    assert_eq!(
        WeatherAndWindForecast::reconcile(
            &axis,
            vec![representative_wind_property(&[0]), bare_property("３時間内卓越天気")]
        ),
        Err(ReconstructError::MissingPart)
    );
}

#[test]
fn missing_part_is_found_before_a_wrong_tag() {
    let axis = markers(&[0]);
    assert_eq!(
        WeatherForecast::reconcile(&axis, vec![wind_property(&[0]), wave_property(&[0])]),
        Err(ReconstructError::MissingPart)
    );
}

#[test]
fn wrong_tag_on_a_chosen_property_is_an_error() {
    let axis = markers(&[0]);
    assert_eq!(
        WeatherForecast::reconcile(&axis, vec![weather_property(&[0]), wave_property(&[0])]),
        Err(ReconstructError::TypeMismatch)
    );
    let mut renamed = weather_property(&[0]);
    renamed._type = "あ".to_string();
    assert_eq!(
        WeatherForecast::reconcile(&axis, vec![renamed, wave_property(&[0]), wind_property(&[0])]),
        Err(ReconstructError::TypeMismatch)
    );
    let mut other_wind = representative_wind_property(&[0]);
    other_wind._type = "３時間内代表".to_string();
    assert_eq!(
        WeatherAndWindForecast::reconcile(&axis, vec![other_wind, dominant_weather_property(&[0])]),
        Err(ReconstructError::TypeMismatch)
    );
}

#[test]
fn tag_is_not_checked_where_one_property_is_expected() {
    let axis = markers(&[0]);
    let mut renamed = precipitation_property(&[(0, 10)]);
    renamed._type = "何か".to_string();
    assert_eq!(
        Precipitation::reconcile(&axis, vec![renamed]),
        Ok(vec![Precipitation { time: marker(0), probability: probability(0, 10) }])
    );
}

#[test]
fn first_failing_area_decides_the_error() {
    let tmp = group(
        AREA,
        vec![series(
            &[0],
            vec![
                item("a", 1, vec![vec![precipitation_property(&[(0, 10)])]]),
                item("b", 2, vec![vec![bare_property("降水確率")]]),
                item("c", 3, vec![]),
            ],
        )],
    );
    assert_eq!(MeteorologicalInfoListItem::from_tmp(tmp), Err(ReconstructError::MissingPart));
    let tmp = group(
        AREA,
        vec![series(
            &[0],
            vec![
                item("a", 1, vec![vec![precipitation_property(&[(0, 10)])]]),
                item("c", 3, vec![]),
                item("b", 2, vec![vec![bare_property("降水確率")]]),
            ],
        )],
    );
    assert_eq!(
        MeteorologicalInfoListItem::from_tmp(tmp),
        Err(ReconstructError::InvalidPropertyCount)
    );
}

#[test]
fn report_keeps_blocks_in_document_order() {
    let tmp = bulletin(vec![
        group(
            AREA,
            vec![
                series(&[0], vec![item("a", 1, vec![vec![weather_property(&[0]), wind_property(&[0])]])]),
                series(&[0], vec![item("a", 1, vec![vec![precipitation_property(&[(0, 10)])]])]),
            ],
        ),
        MeteorologicalInfosTmp {
            _type: PROPRIETARY.to_string(),
            time_series_info: vec![],
            meteorological_info: vec![record("x"), record("y")],
        },
        group(AREA, vec![series(&[0], vec![item("a", 1, vec![vec![bare_property("不明")]])])]),
        group(
            STATION,
            vec![series(&[0], vec![item("福岡", 82182, vec![vec![temperature_property("３時間毎気温", &[(0, 11)])]])])],
        ),
    ]);
    let report = Report::from_tmp(tmp).unwrap();
    assert_eq!(report.control, control());
    assert_eq!(report.head, head());
    assert_eq!(
        report.body,
        vec![
            MeteorologicalInfoListItem::WeatherForecast(vec![AreaForecast {
                area: area("a", 1),
                forecast: vec![inland_record(0)],
            }]),
            MeteorologicalInfoListItem::ProbabilityOfPrecipitation(vec![AreaForecast {
                area: area("a", 1),
                forecast: vec![Precipitation { time: marker(0), probability: probability(0, 10) }],
            }]),
            MeteorologicalInfoListItem::Proprietary(vec![record("x"), record("y")]),
            MeteorologicalInfoListItem::TemperatureTimeSeries(vec![AreaForecast {
                area: area("福岡", 82182),
                forecast: vec![TemperatureTimeSeries { time: marker(0), temperature: temperature(0, 11) }],
            }]),
        ]
    );
}

#[test]
fn report_of_an_empty_body_is_empty() {
    let report = Report::from_tmp(bulletin(vec![])).unwrap();
    assert_eq!(report, Report { control: control(), head: head(), body: vec![] });
}

#[test]
fn error_anywhere_leaves_no_report() {
    let good = group(AREA, vec![series(&[0], vec![item("a", 1, vec![vec![precipitation_property(&[(0, 10)])]])])]);
    let bad = group(AREA, vec![series(&[0], vec![item("a", 1, vec![vec![bare_property("降水確率")]])])]);
    assert_eq!(
        Report::from_tmp(bulletin(vec![good.clone(), bad.clone(), good.clone()])),
        Err(ReconstructError::MissingPart)
    );
    assert_eq!(
        Report::from_tmp(bulletin(vec![bad, group("x", vec![series(&[], vec![])])])),
        Err(ReconstructError::MissingPart)
    );
}

#[test]
fn checked_reconstruction_refuses_a_series_without_leading_property() {
    let no_items = group(AREA, vec![series(&[0], vec![])]);
    assert_eq!(MeteorologicalInfoListItem::from_tmp_checked(no_items.clone()), None);
    let no_kind = group(STATION, vec![series(&[0], vec![item("a", 1, vec![])])]);
    assert_eq!(MeteorologicalInfoListItem::from_tmp_checked(no_kind), None);
    let no_property = group(AREA, vec![series(&[0], vec![item("a", 1, vec![vec![]])])]);
    assert_eq!(MeteorologicalInfoListItem::from_tmp_checked(no_property), None);
    assert_eq!(Report::from_tmp_checked(bulletin(vec![no_items.clone()])), None);
    assert_eq!(
        MeteorologicalInfoListItem::from_series_checked(&AREA.to_string(), series(&[0], vec![])),
        None
    );
    let failing = group(AREA, vec![series(&[0], vec![item("a", 1, vec![vec![bare_property("降水確率")]])])]);
    assert_eq!(
        Report::from_tmp_checked(bulletin(vec![failing, no_items])),
        Some(Err(ReconstructError::MissingPart))
    );
}

#[test]
fn checked_reconstruction_agrees_with_the_plain_one() {
    let tmp = bulletin(vec![group(
        AREA,
        vec![series(&[1, 0], vec![item("a", 1, vec![vec![precipitation_property(&[(1, 20), (0, 10)])]])])],
    )]);
    assert_eq!(Report::from_tmp_checked(tmp.clone()), Some(Report::from_tmp(tmp)));
    let one = series(&[1, 0], vec![item("a", 1, vec![vec![precipitation_property(&[(1, 20), (0, 10)])]])]);
    assert_eq!(
        MeteorologicalInfoListItem::from_series_checked(&AREA.to_string(), one.clone()),
        Some(MeteorologicalInfoListItem::from_series(&AREA.to_string(), one))
    );
}

#[test]
fn leading_property_is_the_first_of_the_first_group_of_the_first_item() {
    let with = series(&[0], vec![item("a", 1, vec![vec![bare_property("x")]])]);
    assert!(with.leads_with_property());
    assert!(!series(&[0], vec![]).leads_with_property());
    assert!(!series(&[0], vec![item("a", 1, vec![vec![], vec![bare_property("x")]])]).leads_with_property());
}

#[test]
fn properties_of_all_groups_are_joined_in_order() {
    let kinds = vec![
        Kind { property: vec![bare_property("a"), bare_property("b")] },
        Kind { property: vec![] },
        Kind { property: vec![bare_property("c")] },
    ];
    assert_eq!(
        flatten_properties(kinds),
        vec![bare_property("a"), bare_property("b"), bare_property("c")]
    );
    assert_eq!(flatten_properties(vec![]), vec![]);
}

#[test]
fn category_tags_are_read() {
    assert_eq!(read_category("区域予報"), Category::Pivoted(Pivot::Area));
    assert_eq!(read_category("地点予報"), Category::Pivoted(Pivot::Station));
    assert_eq!(read_category("独自予報"), Category::Proprietary);
    assert_eq!(read_category("区域"), Category::Unknown);
    assert_eq!(read_category(""), Category::Unknown);
}

#[test]
fn strategies_are_chosen_by_leading_tag() {
    for tag in ["天気", "波", "風"] {
        assert_eq!(choose_strategy(Pivot::Area, tag), Some(Strategy::WeatherForecast));
    }
    assert_eq!(choose_strategy(Pivot::Area, "降水確率"), Some(Strategy::ProbabilityOfPrecipitation));
    for tag in ["３時間内卓越天気", "３時間内代表風"] {
        assert_eq!(choose_strategy(Pivot::Area, tag), Some(Strategy::WeatherAndWindTimeSeries));
    }
    assert_eq!(choose_strategy(Pivot::Area, "３時間毎気温"), None);
    assert_eq!(choose_strategy(Pivot::Area, "天"), None);
    assert_eq!(choose_strategy(Pivot::Station, "３時間毎気温"), Some(Strategy::TemperatureTimeSeries));
    assert_eq!(choose_strategy(Pivot::Station, "日中の最高気温"), Some(Strategy::TemperatureForecast));
    assert_eq!(choose_strategy(Pivot::Station, "天気"), Some(Strategy::TemperatureForecast));
}

#[test]
fn errors_have_messages() {
    assert_eq!(ReconstructError::InvalidPropertyCount.message(), "invalid count of property");
    assert_eq!(ReconstructError::MissingPart.message(), "Property has no some property");
    assert_eq!(ReconstructError::TypeMismatch.message(), "Property has an unexpected type");
    assert_eq!(
        ReconstructError::UnknownCategory("週間予報".to_string()).message(),
        "unknown TimeSeriesInfo::_type 週間予報"
    );
}
