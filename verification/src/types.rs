//! The record produced by a successful parse, its component entities, and the
//! closed error taxonomy for failed parses.

use vstd::prelude::*;
use crate::number::Decimal;

verus! {

/// Weather station identity, split out of the report's header line.
#[derive(Debug, PartialEq)]
pub struct Station {
    /// Station place, the text before the first comma of the header.
    pub place: String,
    /// Country, the text after the comma, cut at the first `(` (which starts
    /// the ICAO code) and trimmed.
    pub country: String,
}

/// Abstract value of a [`Station`].
pub ghost struct StationView {
    pub place: Seq<char>,
    pub country: Seq<char>,
}

impl View for Station {
    type V = StationView;

    open spec fn view(&self) -> StationView {
        StationView { place: self.place@, country: self.country@ }
    }
}

/// The timestamp of the report, taken from the machine-readable
/// `YYYY.MM.DD <time>` half of the timestamp line.
#[derive(Debug, PartialEq)]
pub struct WeatherTime {
    pub year: u16,
    pub month: u8,
    pub day: u8,
    /// Free-text time-of-day suffix, e.g. `0800 UTC`; upstream time-zone
    /// abbreviations are too inconsistent to decompose further.
    pub time: String,
}

/// Abstract value of a [`WeatherTime`].
pub ghost struct WeatherTimeView {
    pub year: u16,
    pub month: u8,
    pub day: u8,
    pub time: Seq<char>,
}

impl View for WeatherTime {
    type V = WeatherTimeView;

    open spec fn view(&self) -> WeatherTimeView {
        WeatherTimeView {
            year: self.year,
            month: self.month,
            day: self.day,
            time: self.time@,
        }
    }
}

/// Wind information. Calm and variable reports carry no direction, so
/// `cardinal` and `azimuth` keep their default sentinels (empty and zero).
#[derive(Debug, PartialEq, Clone)]
pub struct WindInfo {
    /// Cardinal direction token, e.g. `NNW`.
    pub cardinal: String,
    /// Direction in degrees.
    pub azimuth: u32,
    /// Speed in miles per hour.
    pub mph: Decimal,
    /// Speed in knots.
    pub knots: Decimal,
}

/// Abstract value of a [`WindInfo`].
pub ghost struct WindInfoView {
    pub cardinal: Seq<char>,
    pub azimuth: u32,
    pub mph: Decimal,
    pub knots: Decimal,
}

impl View for WindInfo {
    type V = WindInfoView;

    open spec fn view(&self) -> WindInfoView {
        WindInfoView {
            cardinal: self.cardinal@,
            azimuth: self.azimuth,
            mph: self.mph,
            knots: self.knots,
        }
    }
}

/// The default (sentinel) wind value reported for calm wind.
pub open spec fn spec_default_wind() -> WindInfoView {
    WindInfoView {
        cardinal: Seq::empty(),
        azimuth: 0,
        mph: Decimal::spec_whole(0),
        knots: Decimal::spec_whole(0),
    }
}

impl Default for WindInfo {
    /// Empty cardinal and zero azimuth and speeds: the sentinels used when
    /// the report carries no directional value.
    fn default() -> (r: WindInfo)
        ensures
            r@ == spec_default_wind(),
    {
        WindInfo {
            cardinal: String::new(),
            azimuth: 0,
            mph: Decimal::from_whole(0),
            knots: Decimal::from_whole(0),
        }
    }
}

/// Temperature as the bulletin reports it, in both units verbatim; no
/// conversion is performed.
#[derive(Debug, PartialEq, Eq, Clone, Copy, Structural)]
pub struct Temperature {
    /// Temperature in degrees Celsius.
    pub celsius: Decimal,
    /// Temperature in degrees Fahrenheit.
    pub fahrenheit: Decimal,
}

/// Abstract value of an optional station.
pub open spec fn opt_station_view(o: Option<Station>) -> Option<StationView> {
    match o {
        Some(st) => Some(st@),
        None => None,
    }
}

/// Abstract value of an optional text field.
pub open spec fn opt_string_view(o: Option<String>) -> Option<Seq<char>> {
    match o {
        Some(t) => Some(t@),
        None => None,
    }
}

/// Everything a decoded report carries, in document order.
#[derive(Debug, PartialEq)]
pub struct WeatherInfo {
    /// Station identity; `None` for the "Station name not available" header
    /// and for headers without a comma.
    pub station: Option<Station>,
    /// Timestamp of the report.
    pub weather_time: WeatherTime,
    /// Wind information.
    pub wind: WindInfo,
    /// Visibility, verbatim with its unit suffix, e.g. `4 mile(s):0`.
    pub visibility: String,
    /// Sky condition, e.g. `overcast`; `None` when the report omits the line.
    pub sky_condition: Option<String>,
    /// Weather description, e.g. `widespread dust`; `None` when the report
    /// omits the line.
    pub weather: Option<String>,
    /// Ambient temperature.
    pub temperature: Temperature,
    /// Dew point temperature.
    pub dewpoint: Temperature,
    /// Relative humidity in percent.
    pub relative_humidity: u32,
    /// Pressure in hectopascals.
    pub pressure: i16,
}

/// Abstract value of a [`WeatherInfo`].
pub ghost struct WeatherInfoView {
    pub station: Option<StationView>,
    pub weather_time: WeatherTimeView,
    pub wind: WindInfoView,
    pub visibility: Seq<char>,
    pub sky_condition: Option<Seq<char>>,
    pub weather: Option<Seq<char>>,
    pub temperature: Temperature,
    pub dewpoint: Temperature,
    pub relative_humidity: u32,
    pub pressure: i16,
}

impl View for WeatherInfo {
    type V = WeatherInfoView;

    open spec fn view(&self) -> WeatherInfoView {
        WeatherInfoView {
            station: opt_station_view(self.station),
            weather_time: self.weather_time@,
            wind: self.wind@,
            visibility: self.visibility@,
            sky_condition: opt_string_view(self.sky_condition),
            weather: opt_string_view(self.weather),
            temperature: self.temperature,
            dewpoint: self.dewpoint,
            relative_humidity: self.relative_humidity,
            pressure: self.pressure,
        }
    }
}

/// Why a parse failed. Each variant carries the character position (index
/// into the input) at which the failure was detected.
#[derive(Debug, PartialEq, Eq, Clone, Copy, Structural)]
pub enum WeatherError {
    /// The timestamp line is missing its `/` separator or a numeric segment
    /// of `YYYY.MM.DD` did not parse.
    MalformedTimestamp(usize),
    /// The wind line matches none of the three known shapes (calm,
    /// directional, variable).
    UnrecognizedWindFormat(usize),
    /// A mandatory numeric field (temperature, humidity, pressure) did not
    /// parse as a number.
    MalformedNumber(usize),
    /// An expected literal (a field tag, a separator, or a line break) is
    /// absent.
    UnexpectedInput(usize),
}

/// Abstract value of a [`WeatherError`], over unbounded positions.
pub ghost enum WeatherErrorView {
    MalformedTimestamp(int),
    UnrecognizedWindFormat(int),
    MalformedNumber(int),
    UnexpectedInput(int),
}

impl View for WeatherError {
    type V = WeatherErrorView;

    open spec fn view(&self) -> WeatherErrorView {
        match *self {
            WeatherError::MalformedTimestamp(p) => WeatherErrorView::MalformedTimestamp(p as int),
            WeatherError::UnrecognizedWindFormat(p) => WeatherErrorView::UnrecognizedWindFormat(
                p as int,
            ),
            WeatherError::MalformedNumber(p) => WeatherErrorView::MalformedNumber(p as int),
            WeatherError::UnexpectedInput(p) => WeatherErrorView::UnexpectedInput(p as int),
        }
    }
}

} // verus!
