//! Prefecture weather forecast bulletins.

pub mod assemble;
pub mod error;
pub mod laws;
pub mod model;
pub mod raw;
pub mod reconcile;
pub mod records;
pub mod tags;

pub use self::model::Area;
pub use self::model::AreaForecast;
pub use self::model::Control;
pub use self::model::ControlStatus;
pub use self::model::Head;
pub use self::model::InfoType;
pub use self::model::MeteorologicalInfo;
pub use self::model::MeteorologicalInfoItem;
pub use self::model::MeteorologicalInfoKind;
pub use self::model::MeteorologicalInfoProperty;
pub use self::model::Precipitation;
pub use self::model::ProbabilityOfPrecipitation;
pub use self::model::Temperature;
pub use self::model::TemperatureForecast;
pub use self::model::TemperatureTimeSeries;
pub use self::model::Temporary;
pub use self::model::TimeDefine;
pub use self::model::Timestamp;
pub use self::model::WaveHeightForecastPart;
pub use self::model::Weather;
pub use self::model::WeatherAndWindForecast;
pub use self::model::WeatherCode;
pub use self::model::WeatherForecast;
pub use self::model::WeatherForecastBase;
pub use self::model::WeatherForecastPart;
pub use self::model::WindDirection;
pub use self::model::WindForecastPart;
pub use self::model::WindSpeedLevel;
pub use self::assemble::MeteorologicalInfoListItem;
pub use self::assemble::Report;
